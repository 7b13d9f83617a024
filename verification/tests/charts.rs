use tera_sim::charts::build_event_density_series;
use tera_sim::charts::build_sentiment_series;
use tera_sim::charts::casualties_from_event;
use tera_sim::charts::ensure_nonempty;
use tera_sim::charts::event_involves;
use tera_sim::charts::filter_event;
use tera_sim::charts::heat_bar;
use tera_sim::charts::heat_cells;
use tera_sim::charts::narrative_ticker;
use tera_sim::charts::series_from_history;
use tera_sim::charts::LogFilter;
use tera_sim::components::BehaviorState;
use tera_sim::components::Biome;
use tera_sim::components::Faction;
use tera_sim::charts::MapOverlay;
use tera_sim::events::WorldEvent;
use tera_sim::nation::Nation;
use tera_sim::observer::seasonal_effect_for;
use tera_sim::observer::wave;
use tera_sim::observer::ObserverSnapshot;
use tera_sim::technology::Era;
use tera_sim::technology::WeaponTier;
use tera_sim::world::Season;
use tera_sim::world::WorldMetadata;

fn war(tick: u64) -> WorldEvent {
    WorldEvent::warfare(tick, "Dawn", "Ashfall", Nation::Tera, Nation::Sora, 500_000, 20_000, false)
}

fn shift(tick: u64) -> WorldEvent {
    WorldEvent::era_shift(tick, "Dawn", "Ashfall", Nation::Aqua, Era::Ancient, WeaponTier::Bow)
}

fn shock(tick: u64, casualties: Option<u64>) -> WorldEvent {
    WorldEvent::macro_shock(tick, "Dawn", "Ashfall", "s".into(), "c".into(), "i".into(), casualties)
}

#[test]
fn overlays_and_filters_cycle() {
    assert_eq!(MapOverlay::Ownership.next(), MapOverlay::Climate);
    assert_eq!(MapOverlay::Climate.next(), MapOverlay::Conflict);
    assert_eq!(MapOverlay::Conflict.next(), MapOverlay::Ownership);
    for overlay in [MapOverlay::Ownership, MapOverlay::Climate, MapOverlay::Conflict] {
        assert_eq!(overlay.next().prev(), overlay);
        assert_eq!(overlay.prev().next(), overlay);
    }
    assert_eq!(MapOverlay::Ownership.label(), "Territory/Leader");
    assert_eq!(MapOverlay::Climate.label(), "Climate/Sea");
    assert_eq!(MapOverlay::Conflict.label(), "Conflict/Fatigue");
    let mut filter = LogFilter::All;
    let mut labels = Vec::new();
    for _ in 0..5 {
        labels.push(filter.label());
        filter = filter.next();
    }
    assert_eq!(labels, vec!["All", "War", "Trade/Social", "Science/Space", "Diplomacy"]);
    assert_eq!(filter, LogFilter::All);
}

#[test]
fn filters_admit_their_kinds() {
    let progress = WorldEvent::science_progress(1, "Dawn", "Ashfall", Nation::Luna, 5);
    assert!(filter_event(&war(1), LogFilter::All, None));
    assert!(filter_event(&war(1), LogFilter::War, None));
    assert!(!filter_event(&war(1), LogFilter::Diplomacy, None));
    assert!(!filter_event(&shift(1), LogFilter::War, None));
    assert!(filter_event(&shift(1), LogFilter::Diplomacy, None));
    assert!(filter_event(&shock(1, None), LogFilter::Diplomacy, None));
    assert!(filter_event(&progress, LogFilter::ScienceSpace, None));
    assert!(!filter_event(&progress, LogFilter::TradeSocial, None));
    // a pinned nation narrows the list further
    assert!(filter_event(&war(1), LogFilter::War, Some(Nation::Sora)));
    assert!(filter_event(&war(1), LogFilter::All, Some(Nation::Tera)));
    assert!(!filter_event(&war(1), LogFilter::War, Some(Nation::Luna)));
    assert!(!filter_event(&shock(1, None), LogFilter::All, Some(Nation::Tera)));
    assert!(event_involves(&shift(1), Nation::Aqua));
    assert!(!event_involves(&shift(1), Nation::Tera));
    assert!(event_involves(&progress, Nation::Luna));
}

#[test]
fn casualties_are_read_off_events() {
    assert_eq!(casualties_from_event(&war(1)), 20_000);
    assert_eq!(casualties_from_event(&shock(1, Some(77))), 77);
    assert_eq!(casualties_from_event(&shock(1, None)), 0);
    assert_eq!(casualties_from_event(&shift(1)), 0);
}

#[test]
fn a_chart_series_is_never_empty_or_flat_zero() {
    let mut empty: Vec<u64> = Vec::new();
    ensure_nonempty(&mut empty);
    assert_eq!(empty, vec![1]);
    let mut zeros = vec![0, 0, 0];
    ensure_nonempty(&mut zeros);
    assert_eq!(zeros, vec![1, 0, 0]);
    let mut fine = vec![0, 3, 0];
    ensure_nonempty(&mut fine);
    assert_eq!(fine, vec![0, 3, 0]);
}

fn seen(tick: u64, events: Vec<WorldEvent>) -> ObserverSnapshot {
    let mut snapshot = ObserverSnapshot::new();
    snapshot.tick = tick;
    snapshot.events = events;
    snapshot
}

fn six_events() -> Vec<WorldEvent> {
    vec![war(0), war(1), shift(4), shift(5), shock(9, None), war(200)]
}

#[test]
fn events_are_counted_by_bucket() {
    // ten ticks in five buckets of two
    assert_eq!(build_event_density_series(&seen(9, six_events()), 5), vec![2, 0, 2, 0, 2]);
    assert_eq!(build_event_density_series(&seen(9, six_events()), 1), vec![6]);
    // eleven ticks in four buckets of three
    assert_eq!(build_event_density_series(&seen(10, six_events()), 4), vec![2, 2, 0, 2]);
    assert_eq!(build_event_density_series(&seen(9, six_events()), 0), vec![0]);
    assert_eq!(build_event_density_series(&seen(9, Vec::new()), 3), vec![1, 0, 0]);
    assert_eq!(build_event_density_series(&seen(0, six_events()), 3), vec![1, 1, 4]);
    assert_eq!(build_event_density_series(&seen(u64::MAX, six_events()), 1), vec![6]);
}

#[test]
fn the_mood_is_lifted_to_zero() {
    let events = || vec![war(0), war(1), shift(4), shock(9, None)];
    // moods -4, 0, 2, 0, -2 lifted by four
    assert_eq!(build_sentiment_series(&seen(9, events()), 5, 9), vec![0, 4, 6, 4, 2]);
    assert_eq!(build_sentiment_series(&seen(9, vec![shift(1)]), 2, 9), vec![2, 0]);
    assert_eq!(build_sentiment_series(&seen(9, events()), 0, 9), vec![0]);
    assert_eq!(build_sentiment_series(&seen(9, Vec::new()), 2, 9), vec![1, 0]);
    let victory = WorldEvent::science_victory(3, "Dawn", "Ashfall", Nation::Luna, 5);
    let trade_like = WorldEvent::interstellar_progress(3, "Dawn", "Ashfall", Nation::Luna, 5);
    assert_eq!(build_sentiment_series(&seen(9, vec![victory, trade_like]), 1, 9), vec![5]);
}

#[test]
fn heat_bars_fill_to_the_nearest_cell() {
    assert_eq!(heat_cells(5, 10, 10), 5);
    assert_eq!(heat_cells(0, 10, 10), 0);
    assert_eq!(heat_cells(10, 10, 10), 10);
    assert_eq!(heat_cells(25, 10, 10), 10);
    assert_eq!(heat_cells(1, 3, 10), 3);
    assert_eq!(heat_cells(2, 3, 10), 7);
    assert_eq!(heat_cells(1, 4, 2), 1);
    assert_eq!(heat_cells(7, 0, 4), 4);
    assert_eq!(heat_cells(u64::MAX - 1, u64::MAX, usize::MAX), usize::MAX - 1);
    assert_eq!(heat_bar(1, 2, 4), "██░░");
    assert_eq!(heat_bar(0, 2, 3), "░░░");
    assert_eq!(heat_bar(9, 2, 2), "██");
    assert_eq!(heat_bar(9, 2, 0), "");
}

#[test]
fn histories_are_scaled_for_charts() {
    let history = vec![1_500_000, -2_400_000, 0, 320_000_000];
    assert_eq!(series_from_history(&history, 1_000_000), vec![2, 2, 0, 320]);
    assert_eq!(series_from_history(&history, 10_000_000), vec![15, 24, 0, 3200]);
    assert_eq!(series_from_history(&Vec::new(), 1_000_000), vec![1]);
    let long: Vec<i64> = (0..300).map(|i| i * 1_000_000).collect();
    let series = series_from_history(&long, 1_000_000);
    assert_eq!(series.len(), 120);
    assert_eq!(series[0], 180);
    assert_eq!(series[119], 299);
}

#[test]
fn the_seasons_ride_a_wave() {
    assert_eq!(wave(0), 0);
    assert_eq!(wave(1), 195_090);
    assert_eq!(wave(8), 1_000_000);
    assert_eq!(wave(9), 980_785);
    assert_eq!(wave(15), 195_090);
    assert_eq!(wave(16), 0);
    assert_eq!(wave(24), -1_000_000);
    assert_eq!(wave(31), -195_090);
    assert_eq!(wave(32 + 4), 707_107);
    for tick in 0..64 {
        let expected = ((tick % 32) as f64 / 32.0 * std::f64::consts::TAU).sin();
        assert!((wave(tick) as f64 / 1e6 - expected).abs() < 1e-6);
    }
    let bloom = seasonal_effect_for(Season::FlowerBloom, 8);
    assert_eq!(bloom.label, "꽃가루 축제");
    assert_eq!(bloom.temperature, 300_000);
    assert_eq!((bloom.morale_shift, bloom.yield_shift, bloom.risk_shift), (5_000_000, 3_000_000, -2_000_000));
    let peak = seasonal_effect_for(Season::SunburstPeak, 24);
    assert_eq!(peak.label, "태양 쇄도");
    assert_eq!(peak.temperature, 450_000);
    let ash = seasonal_effect_for(Season::Ashfall, 31);
    assert_eq!(ash.label, "연기 어린 밤");
    assert_eq!(ash.temperature, -150_000 - 19_509);
    assert_eq!(ash.risk_shift, 3_000_000);
}

#[test]
fn a_new_snapshot_is_blank() {
    let snapshot = ObserverSnapshot::new();
    assert_eq!(snapshot.tick, 0);
    assert_eq!(snapshot.epoch, "새벽");
    assert_eq!(snapshot.season, "꽃피움 계절");
    assert_eq!(snapshot.geologic_stage, "행성 형성");
    assert_eq!(snapshot.season_effect.label, "온화한 바람");
    assert_eq!(snapshot.all_metrics.0.len(), 5);
    assert_eq!(snapshot.all_metrics.0[0].population, 3_000_000);
    assert!(snapshot.entities.is_empty());
    assert!(snapshot.events.is_empty());
    assert!(snapshot.grid.hexes.is_empty());
    assert_eq!(ObserverSnapshot::default().timescale_years_per_tick, 1_000_000);
}

#[test]
fn the_standard_world_is_as_documented() {
    let meta = WorldMetadata::default();
    assert_eq!(meta.biome_behavior_bias(Biome::Forest, BehaviorState::Explore), 1_250_000);
    assert_eq!(meta.biome_behavior_bias(Biome::Forest, BehaviorState::Trade), 1_000_000);
    assert_eq!(meta.biome_behavior_bias(Biome::Market, BehaviorState::Trade), 1_350_000);
    assert_eq!(meta.faction_behavior_modifier(Faction::BanditClans, BehaviorState::Hunt), 1_450_000);
    assert_eq!(meta.faction_behavior_modifier(Faction::Neutral, BehaviorState::Hunt), 1_000_000);
    assert_eq!(meta.biome_trade_opportunity(Biome::Market), 1_400_000);
    assert_eq!(meta.biome_resource_abundance(Biome::Desert), 800_000);
    assert_eq!(meta.biome_risk_factor(Biome::Desert), 1_350_000);
    assert_eq!(meta.faction_trade_yield(Faction::MerchantGuild), 1_350_000);
    assert_eq!(meta.faction_trade_yield(Faction::Neutral), 1_000_000);
    assert_eq!(meta.faction_volatility_resistance(Faction::TempleOfSuns), 1_250_000);
    assert_eq!(meta.faction_upkeep_burden(Faction::SettlersUnion), 1_200_000);
    assert!(meta.faction_profile(Faction::Neutral).is_none());
    let guild = meta.faction_profile(Faction::MerchantGuild).unwrap();
    assert_eq!(guild.motto, "Balance the ledger, stabilize the world.");
    assert_eq!(guild.strongholds, vec![Biome::Market, Biome::Plains]);
    assert_eq!(guild.economy_profile.trade_yield(), 1_350_000);
    assert_eq!(guild.economy_profile.volatility_resistance(), 1_100_000);
    assert_eq!(guild.economy_profile.upkeep_burden(), 1_000_000);
    let desert = meta.biome_profile(Biome::Desert);
    assert_eq!(desert.label, "Ashen Mirage");
    assert_eq!(desert.resource_profile, vec!["Relics", "Minerals", "Glassroots"]);
    assert_eq!(desert.economic_shift.trade_opportunity(), 950_000);
    assert_eq!(desert.economic_shift.resource_abundance(), 800_000);
    assert_eq!(desert.economic_shift.risk_factor(), 1_350_000);
    let anchor = meta.anchor_position(Biome::Village);
    assert_eq!((anchor.x, anchor.y, anchor.biome), (3_500_000, -3_000_000, Biome::Village));
    assert_eq!(meta.epoch_for_tick(0), ("Dawn", "Flower Bloom"));
    assert_eq!(meta.epoch_for_tick(1), ("Midday", "Flower Bloom"));
    assert_eq!(meta.epoch_for_tick(2), ("Dusk", "Flower Bloom"));
    assert_eq!(meta.epoch_for_tick(3), ("Dawn", "Sunburst Peak"));
    assert_eq!(meta.epoch_for_tick(8), ("Dusk", "Ashfall"));
    assert_eq!(meta.epoch_for_tick(u64::MAX), ("Dawn", "Ashfall"));
    assert_eq!(meta.economy.catalysts.len(), 4);
    assert_eq!(meta.tech_tree.tiers.len(), 7);
}

#[test]
fn the_ticker_tells_the_latest_three() {
    assert_eq!(narrative_ticker(&seen(3, Vec::new())), "Quiet Moment — collecting data");
    assert_eq!(narrative_ticker(&seen(3, vec![war(1)])), "Tera War Sora");
    let nuke = WorldEvent::warfare(2, "Dawn", "Ashfall", Nation::Luna, Nation::Aqua, 1, 1, true);
    let progress = WorldEvent::science_progress(3, "Dawn", "Ashfall", Nation::Solar, 25_400_000);
    let flight = WorldEvent::interstellar_progress(3, "Dawn", "Ashfall", Nation::Solar, 99_500_000);
    assert_eq!(
        narrative_ticker(&seen(3, vec![war(1), shift(2), nuke, progress])),
        "Solar Moon 25% · Luna Nuke Aqua! · Aqua Era Rise → Bronze Age"
    );
    assert_eq!(
        narrative_ticker(&seen(3, vec![shock(1, None), flight])),
        "Solar Interstellar 100% · Shock s → i"
    );
    let victory = WorldEvent::science_victory(3, "Dawn", "Ashfall", Nation::Sora, 5);
    let arrival = WorldEvent::interstellar_victory(3, "Dawn", "Ashfall", Nation::Sora, 5);
    assert_eq!(
        narrative_ticker(&seen(3, vec![victory, arrival])),
        "Sora Space Civ · Sora Science Victory"
    );
}
