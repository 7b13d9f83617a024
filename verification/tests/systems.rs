use tera_sim::blocs::Bloc;
use tera_sim::blocs::BlocKind;
use tera_sim::blocs::WorldBlocs;
use tera_sim::components::BehaviorState;
use tera_sim::components::Biome;
use tera_sim::components::Faction;
use tera_sim::events::WorldEventKind;
use tera_sim::events::WorldEventLog;
use tera_sim::nation::Nation;
use tera_sim::resources::AllNationCivState;
use tera_sim::resources::AllNationMetrics;
use tera_sim::resources::CivilizationalCycles;
use tera_sim::resources::ClimateState;
use tera_sim::resources::CosmicTimeline;
use tera_sim::resources::DiplomaticRelations;
use tera_sim::resources::GeologicStage;
use tera_sim::resources::IdeologyMatrix;
use tera_sim::resources::NationCivState;
use tera_sim::resources::NationMetrics;
use tera_sim::resources::RacePhase;
use tera_sim::resources::ScienceVictory;
use tera_sim::resources::SpaceStage;
use tera_sim::resources::SupplyState;
use tera_sim::resources::WarFatigue;
use tera_sim::resources::WorldRichness;
use tera_sim::resources::WorldTime;
use tera_sim::seeding::seed_entities;
use tera_sim::systems::blocs::bloc_system;
use tera_sim::systems::blocs::form_bloc;
use tera_sim::systems::blocs::refresh_bloc;
use tera_sim::systems::civilization::civics_step;
use tera_sim::systems::civilization::civilization_system;
use tera_sim::systems::civilization::founding_probability;
use tera_sim::systems::climate::carbon_pressure_at;
use tera_sim::systems::climate::climate_system;
use tera_sim::systems::climate::ice_curve_at;
use tera_sim::systems::climate::sea_curve_at;
use tera_sim::systems::cosmic::cosmic_time_system;
use tera_sim::systems::cosmic::extinction_system;
use tera_sim::systems::cosmic::stage_for_age;
use tera_sim::systems::cycles::cycle_nation;
use tera_sim::systems::cycles::cycle_system;
use tera_sim::systems::demography::business_cycle_at;
use tera_sim::systems::demography::demography_system;
use tera_sim::systems::diplomacy::diplomacy_system;
use tera_sim::systems::economy::apply_budget;
use tera_sim::systems::economy::apply_limits;
use tera_sim::systems::economy::economy_system;
use tera_sim::systems::economy::gather_gain_for;
use tera_sim::systems::economy::settle_gather;
use tera_sim::systems::economy::settle_trade;
use tera_sim::systems::economy::trade_gain_for;
use tera_sim::systems::environment::climate_impact_system;
use tera_sim::systems::environment::environment_system;
use tera_sim::systems::environment::richness_overlay_system;
use tera_sim::systems::ideology::ideology_system;
use tera_sim::systems::peace::peace_recovery_system;
use tera_sim::systems::security::security_system;
use tera_sim::systems::supply::supply_chain_system;
use tera_sim::systems::supply::supply_impact_system;
use tera_sim::systems::technology::learn;
use tera_sim::systems::technology::research_nation;
use tera_sim::systems::technology::technology_system;
use tera_sim::systems::victory::moon_gain_for;
use tera_sim::systems::victory::ramp;
use tera_sim::systems::victory::science_victory_system;
use tera_sim::systems::warfatigue::fatigue_of;
use tera_sim::systems::warfatigue::war_fatigue_system;
use tera_sim::technology::Era;
use tera_sim::technology::Tech;
use tera_sim::technology::TechTree;
use tera_sim::technology::WeaponTier;
use tera_sim::world::DaySegment;
use tera_sim::world::Season;
use tera_sim::world::WorldMetadata;

const NATIONS: [Nation; 5] = [Nation::Tera, Nation::Sora, Nation::Aqua, Nation::Solar, Nation::Luna];

#[test]
fn a_budget_pays_upkeep_and_invests() {
    let mut m = NationMetrics::default();
    apply_budget(&mut m, 0, 0);
    // 50 - 1 - (0.4 + 0.3 + 0.6) = 47.7, a solid economy, which invests one unit
    assert_eq!(m.economy, 46_700_000);
    assert_eq!(m.science, 20_129_850);
    assert_eq!(m.culture, 30_139_600);
    assert_eq!(m.diplomacy, 30_069_900);
    assert_eq!(m.religion, 25_087_450);
    assert_eq!(m.military, 20_100_000);
    assert_eq!(m.population, 3_000_000);

    let mut rich = NationMetrics::default();
    rich.economy = 90_000_000;
    apply_budget(&mut rich, 2_000_000, 1_000_000);
    assert_eq!(rich.economy, 90_000_000 - 2_300_000 - 5_000_000 - 600_000);
    assert_eq!(rich.military, 20_500_000);
    assert_eq!(rich.science, (20_400_000i64 * 999 / 1000) + 600_000 - 250_000);
    assert_eq!(rich.diplomacy, (30_300_000i64 * 999 / 1000) + 300_000);
    assert_eq!(rich.culture, 30_000_000i64 * 998 / 1000);

    let mut broke = NationMetrics::default();
    broke.economy = 300_000;
    apply_budget(&mut broke, 0, 0);
    // the economy falls two units short; the army pays a fifth of that
    assert_eq!(broke.economy, 0);
    assert_eq!(broke.military, 19_600_000);
    apply_limits(&mut broke);
    assert_eq!(broke.economy, 0);
}

#[test]
fn the_economy_ends_within_0_and_100() {
    let mut m = NationMetrics::default();
    m.economy = 180_000_000;
    m.science = 140_000_000;
    m.military = 101_000_000;
    apply_budget(&mut m, 0, 10_000_000);
    apply_limits(&mut m);
    assert_eq!(m.economy, 100_000_000);
    assert_eq!(m.science, 100_000_000);
    assert_eq!(m.military, 100_000_000);
    assert_eq!(m.culture, 29_940_000);

    let mut sanctioned = NationMetrics::default();
    sanctioned.economy = 2_000_000;
    sanctioned.science = 1_000_000;
    apply_budget(&mut sanctioned, 0, 10_000_000);
    assert!(sanctioned.economy < 0);
    assert!(sanctioned.science < 0);
    apply_limits(&mut sanctioned);
    assert_eq!(sanctioned.economy, 0);
    assert_eq!(sanctioned.science, 0);
}

#[test]
fn deals_follow_biome_faction_and_calendar() {
    let meta = WorldMetadata::standard();
    let gain = trade_gain_for(
        &meta,
        Biome::Market,
        Faction::MerchantGuild,
        DaySegment::Midday,
        Season::FlowerBloom,
        0,
    );
    // 6 x (1.4 x 1.35 x 1.1 x 1.2) - 0.75
    assert_eq!(gain, 14_218_800);
    let lucky = trade_gain_for(
        &meta,
        Biome::Market,
        Faction::MerchantGuild,
        DaySegment::Midday,
        Season::FlowerBloom,
        2_000_000,
    );
    // two units of luck at a risk of 1.05 / 1.1
    assert_eq!(lucky - gain, 2 * 954_545);
    let unlucky = trade_gain_for(
        &meta,
        Biome::Market,
        Faction::MerchantGuild,
        DaySegment::Midday,
        Season::FlowerBloom,
        -2_000_000,
    );
    assert_eq!(unlucky - gain, -2 * 954_545);
    // a faction without a profile trades at par
    let plain =
        trade_gain_for(&meta, Biome::Forest, Faction::Neutral, DaySegment::Dawn, Season::SunburstPeak, 0);
    assert_eq!(plain, 5_400_000 - 750_000);

    let found =
        gather_gain_for(&meta, Biome::Plains, Faction::ExplorersLeague, Season::FlowerBloom, 1_000_000);
    // 3 x (1.05 x 1.25) - 0.35 x 1.1 + 1
    assert_eq!(found, 4_552_500);
}

#[test]
fn deals_are_booked_to_purse_and_nation() {
    let meta = WorldMetadata::standard();
    let mut founders = seed_entities(&meta);
    let mut m = NationMetrics::default();
    apply_budget(&mut m, 0, 0);
    let economy = m.economy;
    settle_trade(&mut founders[0], &mut m, 14_218_800);
    assert_eq!(founders[0].inventory.currency, 114_218_800);
    assert_eq!(m.economy, economy + 710_940);
    settle_trade(&mut founders[0], &mut m, -500_000_000);
    assert_eq!(founders[0].inventory.currency, 0);
    assert_eq!(m.economy, economy + 710_940 - 25_000_000);

    let mut n = NationMetrics::default();
    settle_gather(&mut founders[2], &mut n, 4_552_500);
    assert_eq!(founders[2].inventory.currency, 74_552_500);
    assert_eq!(n.economy, 50_000_000 + 136_575);
    settle_gather(&mut founders[2], &mut n, -1_000_000);
    // a loss costs the nation but not the purse
    assert_eq!(founders[2].inventory.currency, 74_552_500);
    assert_eq!(n.economy, 50_000_000 + 136_575 - 30_000);
}

#[test]
fn the_economy_touches_only_its_metrics_and_purses() {
    let meta = WorldMetadata::standard();
    let mut founders = seed_entities(&meta);
    founders[0].behavior.state = BehaviorState::Trade;
    founders[1].behavior.state = BehaviorState::Gather;
    let mut metrics = AllNationMetrics::default();
    let blocs = WorldBlocs::default();
    for tick in 1..200 {
        economy_system(&mut founders, &mut metrics, &blocs, &meta, &WorldTime { tick });
        for m in &metrics.0 {
            for v in [m.economy, m.science, m.culture, m.diplomacy, m.religion, m.military] {
                assert!((0..=100_000_000).contains(&v));
            }
            assert_eq!(m.population, 3_000_000);
            assert_eq!(m.territory, 33_330_000);
        }
        assert_eq!(founders[0].behavior.state, BehaviorState::Trade);
        assert_eq!(founders[3].inventory.currency, 30_000_000);
        assert!(founders[0].inventory.currency >= 0);
    }
    // a trader in the market earns on average far more than the luck of a day can cost
    assert!(founders[0].inventory.currency > 100_000_000);
    assert!(founders[1].inventory.currency > 45_000_000);
}

#[test]
fn the_moon_race_rewards_science() {
    let m = NationMetrics::default();
    assert_eq!(moon_gain_for(&m, 0, 0), 8_686);
    let mut embargoed = NationMetrics::default();
    embargoed.science = 0;
    embargoed.economy = 0;
    embargoed.culture = 0;
    embargoed.diplomacy = 0;
    assert_eq!(moon_gain_for(&embargoed, 0, 10_000_000), 0);
    let mut modern = NationMetrics::default();
    modern.era = Era::Nuclear;
    modern.military = 100_000_000;
    modern.set_population(20_000_000);
    // 1.95 x 1.35 x 1.0 x 2.3 / 100
    assert_eq!(moon_gain_for(&modern, 0, 0), 60_547);
    assert_eq!(moon_gain_for(&m, 10_000_000, 0) > moon_gain_for(&m, 0, 0), true);
}

#[test]
fn ramps_grow_faster_as_they_go() {
    assert_eq!(ramp(0, 100_000_000, 400_000, 900_000), 400_000);
    assert_eq!(ramp(50_000_000, 100_000_000, 400_000, 900_000), 50_850_000);
    assert_eq!(ramp(99_900_000, 100_000_000, 400_000, 900_000), 100_000_000);
    assert_eq!(ramp(100_000_000, 100_000_000, 600_000, 800_000), 100_000_000);
}

fn race_rank(race: &ScienceVictory) -> i32 {
    match race.phase() {
        RacePhase::Moon => 0,
        RacePhase::Mars => 1,
        RacePhase::Jovian => 2,
        RacePhase::Interstellar => 3,
        RacePhase::Finished => 4,
    }
}

#[test]
fn the_race_runs_through_every_phase_in_order() {
    let mut race = ScienceVictory::default();
    let mut metrics = AllNationMetrics::default();
    metrics.0[3].science = 100_000_000;
    metrics.0[3].economy = 100_000_000;
    metrics.0[3].era = Era::Nuclear;
    metrics.0[4].destroy();
    let blocs = WorldBlocs::default();
    let mut log = WorldEventLog::new(4096);
    let meta = WorldMetadata::standard();
    let mut seen = vec![0];
    let mut last = [0i64; 5];
    let mut tick = 0;
    while !race.finished {
        tick += 1;
        assert!(tick < 20_000, "the race has to end");
        let before = race_rank(&race);
        science_victory_system(&mut race, &metrics, &blocs, &mut log, &WorldTime { tick }, &meta);
        let after = race_rank(&race);
        assert!(after == before || after == before + 1);
        if after != before {
            seen.push(after);
        }
        for i in 0..5 {
            assert!(race.progress[i] >= last[i]);
            assert!(race.progress[i] <= race.goal);
            last[i] = race.progress[i];
        }
        assert!(race.leader_history.len() <= 256);
        assert_eq!(race.progress[4], 0, "a destroyed nation does not race");
    }
    assert_eq!(seen, vec![0, 1, 2, 3, 4]);
    assert_eq!(race.winner, Some(Nation::Solar));
    assert_eq!(race.space_stage, SpaceStage::Interstellar);
    assert_eq!(race.progress[3], 100_000_000);
    assert_eq!(race.mars_progress, 100_000_000);
    assert_eq!(race.jovian_progress, 100_000_000);
    assert_eq!(race.interstellar_progress, 100_000_000);
    assert!(race.moon_done && race.mars_done && race.jovian_done && !race.interstellar_mode);
    // four milestones and the landing for the winner
    let events = log.snapshot();
    let milestones = events
        .iter()
        .filter(|e| matches!(e.kind, WorldEventKind::ScienceProgress { nation: Nation::Solar, .. }))
        .count();
    assert_eq!(milestones, 4);
    assert_eq!(
        events.iter().filter(|e| matches!(e.kind, WorldEventKind::ScienceVictory { .. })).count(),
        1
    );
    assert_eq!(
        events.iter().filter(|e| matches!(e.kind, WorldEventKind::InterstellarVictory { .. })).count(),
        1
    );
    // once finished nothing moves any more
    let progress = race.progress.clone();
    science_victory_system(&mut race, &metrics, &blocs, &mut log, &WorldTime { tick: tick + 1 }, &meta);
    assert_eq!(race.progress, progress);
    assert!(race.finished);
}

#[test]
fn among_equals_the_first_nation_leads() {
    let mut race = ScienceVictory::default();
    let metrics = AllNationMetrics::default();
    let blocs = WorldBlocs::default();
    let mut log = WorldEventLog::new(16);
    let meta = WorldMetadata::standard();
    science_victory_system(&mut race, &metrics, &blocs, &mut log, &WorldTime { tick: 1 }, &meta);
    assert_eq!(race.progress, vec![8_686; 5]);
    assert_eq!(race.leader_history, vec![8_686]);
    race.progress[2] = 99_999_000;
    science_victory_system(&mut race, &metrics, &blocs, &mut log, &WorldTime { tick: 2 }, &meta);
    assert_eq!(race.progress[2], 100_000_000);
    assert_eq!(race.winner, Some(Nation::Aqua));
    assert_eq!(race.phase(), RacePhase::Mars);
}

#[test]
fn people_age_and_the_count_adds_up() {
    let mut metrics = AllNationMetrics::default();
    metrics.0[4].destroy();
    let climate = ClimateState::default();
    demography_system(&mut metrics, &climate, &WorldTime { tick: 1 });
    let m = metrics.get(Nation::Tera);
    assert_eq!((m.youth, m.adult, m.elder), (900_090, 1_799_730, 300_870));
    assert_eq!(m.population, 3_000_690);
    assert_eq!(m.productivity, 1_166_000);
    assert_eq!(m.unemployment, 6_580_000);
    assert_eq!(m.economy, 51_568_322);
    assert_eq!(m.science, 20_105_244);
    assert_eq!(m.culture, 30_120_348);
    let gone = metrics.get(Nation::Luna);
    assert_eq!(gone.population, 0);
    assert!(gone.is_destroyed);
    for tick in 2..500 {
        demography_system(&mut metrics, &climate, &WorldTime { tick });
        for m in &metrics.0 {
            assert_eq!(m.population, m.youth + m.adult + m.elder);
            assert!(m.economy <= 250_000_000);
        }
    }
}

#[test]
fn the_business_cycle_takes_six_ticks() {
    let expected = [500_000, 920_000, 950_000, 570_000, 120_000, 20_000];
    for tick in 0..60u64 {
        assert_eq!(business_cycle_at(tick), expected[(tick % 6) as usize]);
    }
}

#[test]
fn moving_the_head_count_keeps_the_age_groups_in_step() {
    let mut m = NationMetrics::default();
    m.set_population(3_100_000);
    assert_eq!((m.youth, m.adult, m.elder), (1_000_000, 1_800_000, 300_000));
    m.set_population(1_000_000);
    // losses fall on adults first, then on the young
    assert_eq!((m.youth, m.adult, m.elder), (700_000, 0, 300_000));
    m.set_population(100_000);
    assert_eq!((m.youth, m.adult, m.elder), (0, 0, 100_000));
    m.lose_population(u64::MAX);
    assert_eq!(m.population, 0);
    m.set_population(u64::MAX);
    assert_eq!(m.population, 1_000_000_000_000);
    assert_eq!(m.population, m.youth + m.adult + m.elder);
    m.destroy();
    m.set_population(5);
    assert_eq!(m.population, 0, "a destroyed nation stays empty");
    let copy = m.duplicate();
    assert!(copy.is_destroyed);
    assert_eq!(copy.unlocked_techs, m.unlocked_techs);
}

#[test]
fn the_climate_moves_step_by_step() {
    let mut climate = ClimateState::default();
    let mut log = WorldEventLog::new(8);
    climate_system(
        &mut climate,
        &WorldRichness::default(),
        &tera_sim::nuclear::NuclearBlasts::new(3),
        &WarFatigue::default(),
        &CosmicTimeline::default(),
        &WorldTime { tick: 1 },
        &mut log,
    );
    assert_eq!(climate.carbon_ppm, 320_047_250);
    assert_eq!(climate.climate_risk, 24_147_141);
    assert_eq!(climate.biodiversity, 85_279_953);
    assert_eq!(climate.sea_level, 81_965);
    assert_eq!(climate.ice_line, 333_356);
    assert_eq!(climate.carbon_history, vec![320_000_000, 320_047_250]);
    assert_eq!(climate.climate_risk_history, vec![6_000_000, 24_147_141]);
    assert_eq!(log.len(), 0);
    climate_system(
        &mut climate,
        &WorldRichness::default(),
        &tera_sim::nuclear::NuclearBlasts::new(3),
        &WarFatigue::default(),
        &CosmicTimeline::default(),
        &WorldTime { tick: 24 },
        &mut log,
    );
    assert_eq!(log.len(), 1);
    let warning = &log.snapshot()[0];
    assert_eq!(warning.epoch, "Climate");
    match &warning.kind {
        WorldEventKind::MacroShock { stressor, catalyst, .. } => {
            assert_eq!(stressor, "Climate shift warning");
            assert_eq!(catalyst, "Carbon 320ppm | Risk 24.2%");
        }
        _ => panic!("a climate warning is a shock"),
    }
}

#[test]
fn climate_curves_pass_through_their_fixed_points() {
    assert_eq!(carbon_pressure_at(180_000_000), 14_284_028);
    assert_eq!(carbon_pressure_at(400_000_000), 29_777_977);
    assert_eq!(carbon_pressure_at(700_000_000), 49_829_921);
    assert_eq!(carbon_pressure_at(1_000_000_000), 69_183_097);
    assert_eq!(carbon_pressure_at(1_500_000_000), 100_462_495);
    assert_eq!(carbon_pressure_at(550_000_000), (29_777_977 + 49_829_921) / 2);
    assert_eq!(sea_curve_at(0), 0);
    assert_eq!(sea_curve_at(35_000_000), 151_572);
    assert_eq!(sea_curve_at(70_000_000), 348_220);
    assert_eq!(sea_curve_at(105_000_000), 566_453);
    assert_eq!(sea_curve_at(140_000_000), 800_000);
    assert_eq!(ice_curve_at(180_000_000), 825_107);
    assert_eq!(ice_curve_at(1_000_000_000), 248_738);
    assert_eq!(ice_curve_at(1_400_000_000), 0);
    assert_eq!(ice_curve_at(1_500_000_000), 0);
    let mut last = 0;
    for ppm in (180..=1500).step_by(20) {
        let p = carbon_pressure_at(ppm * 1_000_000);
        assert!(p > last);
        last = p;
    }
}

#[test]
fn geologic_ages_follow_the_years() {
    assert_eq!(stage_for_age(0), GeologicStage::PrimordialCrust);
    assert_eq!(stage_for_age(499_999_999), GeologicStage::PrimordialCrust);
    assert_eq!(stage_for_age(500_000_000), GeologicStage::AncientOcean);
    assert_eq!(stage_for_age(1_000_000_000), GeologicStage::OxygenBloom);
    assert_eq!(stage_for_age(2_500_000_000), GeologicStage::ContinentalSplit);
    assert_eq!(stage_for_age(3_500_000_000), GeologicStage::ExtinctionCycle);
    assert_eq!(stage_for_age(4_500_000_000), GeologicStage::SpaceAge);
    assert_eq!(stage_for_age(u64::MAX), GeologicStage::SpaceAge);
    assert_eq!(GeologicStage::ContinentalSplit.label(), "Cambrian/Continental Split");
    assert_eq!(SpaceStage::Moon.label(), "달");
    assert_eq!(SpaceStage::Mars.label(), "화성");
    assert_eq!(SpaceStage::Jovian.label(), "목성권");
    assert_eq!(SpaceStage::Interstellar.label(), "성간");
}

#[test]
fn cosmic_time_advances_and_reports() {
    let mut cosmic = CosmicTimeline::default();
    cosmic.timescale_years_per_tick = 250_000_000;
    let meta = WorldMetadata::standard();
    let mut log = WorldEventLog::new(8);
    cosmic_time_system(&mut cosmic, &WorldTime { tick: 1 }, &meta, &mut log);
    assert_eq!(cosmic.cosmic_age_years, 250_000_000);
    assert_eq!(cosmic.geologic_stage, GeologicStage::PrimordialCrust);
    cosmic_time_system(&mut cosmic, &WorldTime { tick: 2 }, &meta, &mut log);
    assert_eq!(cosmic.geologic_stage, GeologicStage::AncientOcean);
    assert_eq!(log.len(), 0);
    cosmic_time_system(&mut cosmic, &WorldTime { tick: 64 }, &meta, &mut log);
    assert_eq!(log.len(), 1);
    match &log.snapshot()[0].kind {
        WorldEventKind::MacroShock { stressor, catalyst, casualties, .. } => {
            assert_eq!(stressor, "Geologic/space transition");
            assert_eq!(catalyst, "Age 7.50e8 yrs | Stage Ancient Ocean");
            assert_eq!(*casualties, None);
        }
        _ => panic!("a transition is a shock"),
    }
    cosmic.cosmic_age_years = u64::MAX - 5;
    cosmic_time_system(&mut cosmic, &WorldTime { tick: 65 }, &meta, &mut log);
    assert_eq!(cosmic.cosmic_age_years, u64::MAX);
}

#[test]
fn an_extinction_cuts_the_living_down() {
    let mut cosmic = CosmicTimeline::default();
    let mut climate = ClimateState::default();
    let mut richness = WorldRichness::default();
    richness.richness = 800_000;
    let mut metrics = AllNationMetrics::default();
    let mut civ = AllNationCivState::default();
    metrics.0[1].destroy();
    civ.0[1] = NationCivState { cities: 0, happiness: 0, stability: 0, production: 0 };
    civ.0[0].cities = 20;
    let mut fatigue = WarFatigue::default();
    fatigue.intensity = 30_000_000;
    let mut log = WorldEventLog::new(8);
    let meta = WorldMetadata::standard();

    // nothing is due: nothing happens
    extinction_system(
        &mut cosmic, &mut climate, &mut richness, &mut metrics, &mut civ, &mut fatigue, &mut log,
        &WorldTime { tick: 3 }, &meta,
    );
    assert_eq!(cosmic.extinction_events, 0);
    assert_eq!(metrics.get(Nation::Tera).population, 3_000_000);
    assert_eq!(log.len(), 0);

    climate.climate_risk = 96_000_000;
    extinction_system(
        &mut cosmic, &mut climate, &mut richness, &mut metrics, &mut civ, &mut fatigue, &mut log,
        &WorldTime { tick: 4 }, &meta,
    );
    // a young planet at a million years per tick: severity one half
    assert_eq!(cosmic.extinction_events, 1);
    assert_eq!(climate.biodiversity, 10_000_000);
    assert_eq!(climate.climate_risk, 10_000_000);
    assert_eq!(climate.carbon_ppm, 140_000_000);
    assert_eq!(richness.richness, 100_000);
    assert_eq!(fatigue.intensity, 0);
    let m = metrics.get(Nation::Tera);
    assert_eq!(m.population, 300_000);
    assert_eq!(m.population, m.youth + m.adult + m.elder);
    assert_eq!(m.economy, 6_250_000);
    assert_eq!(m.culture, 4_500_000);
    assert_eq!(m.military, 2_000_000);
    assert_eq!(m.science, 2_000_000);
    assert!(!m.is_destroyed, "an extinction is a reboot, not a destruction");
    assert_eq!(civ.get(Nation::Tera).cities, 6);
    assert_eq!(civ.get(Nation::Aqua).cities, 1);
    assert_eq!(civ.get(Nation::Aqua).happiness, 45_000_000);
    assert_eq!(civ.get(Nation::Aqua).production, 10_000_000);
    assert_eq!(civ.get(Nation::Aqua).stability, 40_000_000);
    // the destroyed stay as they were
    assert_eq!(civ.get(Nation::Sora).cities, 0);
    assert_eq!(metrics.get(Nation::Sora).population, 0);
    assert!(metrics.get(Nation::Sora).is_destroyed);
    assert_eq!(log.len(), 1);
    match &log.snapshot()[0].kind {
        WorldEventKind::MacroShock { stressor, catalyst, .. } => {
            assert_eq!(stressor, "Mass extinction/reboot");
            assert_eq!(catalyst, "Events 1 | Age 0.00e8 yrs");
        }
        _ => panic!("an extinction is a shock"),
    }

    // an old planet crossing a round billion of years
    cosmic.cosmic_age_years = 6_000_000_000;
    extinction_system(
        &mut cosmic, &mut climate, &mut richness, &mut metrics, &mut civ, &mut fatigue, &mut log,
        &WorldTime { tick: 5 }, &meta,
    );
    assert_eq!(cosmic.extinction_events, 2);
    // severity 1.2: a quarter of it is what is left of the economy
    assert_eq!(metrics.get(Nation::Tera).economy, 6_250_000 * 3 / 10);
    cosmic.cosmic_age_years = 6_000_000_001;
    extinction_system(
        &mut cosmic, &mut climate, &mut richness, &mut metrics, &mut civ, &mut fatigue, &mut log,
        &WorldTime { tick: 6 }, &meta,
    );
    assert_eq!(cosmic.extinction_events, 2);
}

#[test]
fn research_leads_from_era_to_era() {
    let tree = TechTree::standard();
    let mut m = NationMetrics::default();
    let mut eras = vec![m.era];
    let mut last_rank = 0;
    for _ in 0..400 {
        m.science = 100_000_000;
        m.culture = 100_000_000;
        m.military = 100_000_000;
        let advanced = research_nation(&mut m, &tree);
        if advanced {
            eras.push(m.era);
        }
        let rank = eras.len() - 1;
        assert!(rank == last_rank || rank == last_rank + 1);
        last_rank = rank;
    }
    assert_eq!(
        eras,
        vec![
            Era::Dawn,
            Era::Ancient,
            Era::Classical,
            Era::Medieval,
            Era::Industrial,
            Era::Modern,
            Era::Nuclear
        ]
    );
    assert_eq!(m.weapon_tier, WeaponTier::NuclearArsenal);
    assert_eq!(
        m.unlocked_techs,
        vec![
            Tech::Knapping,
            Tech::PolishedTools,
            Tech::Archery,
            Tech::Siegecraft,
            Tech::Metallurgy,
            Tech::GunpowderChemistry,
            Tech::Ballistics,
            Tech::NuclearPhysics,
        ]
    );
    assert!(!research_nation(&mut m, &tree), "there is no era after the last");
}

#[test]
fn one_tick_of_research_fills_the_stocks() {
    let tree = TechTree::standard();
    let mut m = NationMetrics::default();
    assert!(!research_nation(&mut m, &tree));
    // (20 x 0.45 + 50 x 0.1) x 0.9985
    assert_eq!(m.research_stock, 13_979_000);
    // (30 x 0.35 + 30 x 0.05) x 0.9985
    assert_eq!(m.culture_stock, 11_982_000);
    assert_eq!(m.era, Era::Dawn);
    m.research_stock = 40_000_000;
    m.culture_stock = 25_000_000;
    assert!(research_nation(&mut m, &tree));
    assert_eq!(m.era, Era::Ancient);
    assert_eq!(m.weapon_tier, WeaponTier::PolishedStone);
    // the stocks after inflow and decay, less 40 and 30 percent of the gates
    assert_eq!(m.research_stock, 53_919_000 - 14_000_000);
    assert_eq!(m.culture_stock, 36_944_500 - 6_000_000);
    let mut weak = NationMetrics::default();
    weak.research_stock = 40_000_000;
    weak.culture_stock = 25_000_000;
    weak.military = 9_999_999;
    assert!(!research_nation(&mut weak, &tree), "all three gates have to be passed");
    let mut gone = NationMetrics::default();
    gone.destroy();
    assert!(!research_nation(&mut gone, &tree));
    assert_eq!(gone.research_stock, 0);
}

#[test]
fn techs_are_learned_once() {
    let mut known = vec![Tech::Knapping, Tech::Archery];
    learn(&mut known, &vec![Tech::Archery, Tech::Metallurgy, Tech::Metallurgy, Tech::Knapping]);
    assert_eq!(known, vec![Tech::Knapping, Tech::Archery, Tech::Metallurgy]);
}

#[test]
fn an_era_shift_is_logged() {
    let mut metrics = AllNationMetrics::default();
    metrics.0[2].research_stock = 40_000_000;
    metrics.0[2].culture_stock = 25_000_000;
    let meta = WorldMetadata::standard();
    let mut log = WorldEventLog::new(8);
    technology_system(&mut metrics, &meta, &mut log, &WorldTime { tick: 9 });
    assert_eq!(log.len(), 1);
    let event = &log.snapshot()[0];
    assert_eq!(event.tick, 9);
    assert_eq!(event.headline(), "Aqua has entered Bronze Age | Main Weapon: Polished Stone");
    assert_eq!(metrics.get(Nation::Aqua).era, Era::Ancient);
    assert_eq!(metrics.get(Nation::Tera).era, Era::Dawn);
}

#[test]
fn the_tech_tree_is_a_ladder() {
    let tree = TechTree::default();
    assert_eq!(tree.tiers.len(), 7);
    assert_eq!(tree.tier(Era::Dawn).unwrap().science_gate, 0);
    let modern = tree.tier(Era::Modern).unwrap();
    assert_eq!(
        (modern.science_gate, modern.culture_gate, modern.military_gate),
        (85_000_000, 65_000_000, 50_000_000)
    );
    assert_eq!(modern.weapon_tier, WeaponTier::ModernArmor);
    assert_eq!(tree.next_tier(Era::Modern).unwrap().era, Era::Nuclear);
    assert!(tree.next_tier(Era::Nuclear).is_none());
    assert_eq!(tree.next_tier(Era::Medieval).unwrap().unlocks, vec![Tech::Metallurgy, Tech::GunpowderChemistry]);
    let empty = TechTree { tiers: Vec::new() };
    assert!(empty.tier(Era::Dawn).is_none());
    assert!(empty.next_tier(Era::Dawn).is_none());
    assert_eq!(Era::Dawn.next(), Some(Era::Ancient));
    assert_eq!(Era::Modern.next(), Some(Era::Nuclear));
    assert_eq!(Era::Nuclear.next(), None);
    assert_eq!(Era::Dawn.label(), "Stone Age");
    assert_eq!(Era::Nuclear.label(), "Nuclear/Future");
    assert_eq!(WeaponTier::ModernArmor.label(), "Modern Tank");
    assert_eq!(WeaponTier::KnappedStone.combat_multiplier(), 750_000);
    assert_eq!(WeaponTier::NuclearArsenal.combat_multiplier(), 1_800_000);
    assert_eq!(Tech::GunpowderChemistry.label(), "Gunpowder Chemistry");
    assert_eq!(Tech::Knapping.label(), "Knapping");
}

#[test]
fn a_low_relation_brings_exactly_one_sanction() {
    let mut diplo = DiplomaticRelations::default();
    let mut metrics = AllNationMetrics::default();
    // a wide gap in power drives Tera and Sora apart
    metrics.0[0].military = 250_000_000;
    metrics.0[0].economy = 250_000_000;
    diplo.set_relation(Nation::Sora, Nation::Tera, -46_000_000);
    assert_eq!(diplo.relation(Nation::Tera, Nation::Sora), -46_000_000);
    assert_eq!(diplo.relation(Nation::Sora, Nation::Tera), -46_000_000);
    let mut log = WorldEventLog::new(64);
    for tick in 1..=30 {
        diplomacy_system(&mut diplo, &metrics, &WorldTime { tick }, &mut log);
        let entries =
            diplo.sanctions.iter().filter(|p| **p == (Nation::Tera, Nation::Sora)).count();
        assert_eq!(entries, 1, "one sanction for the pair, however long the relation stays low");
        assert!(diplo.relation(Nation::Tera, Nation::Sora) < -45_000_000);
    }
    let reports = log
        .snapshot()
        .iter()
        .filter(|e| matches!(&e.kind, WorldEventKind::MacroShock { stressor, .. } if stressor == "Tera가 Sora를 제재"))
        .count();
    assert_eq!(reports, 1);
    for (i, a) in diplo.sanctions.iter().enumerate() {
        for b in diplo.sanctions.iter().skip(i + 1) {
            assert!(a != b);
        }
    }
}

#[test]
fn balanced_nations_grow_close_and_ally_once() {
    let mut diplo = DiplomaticRelations::default();
    let metrics = AllNationMetrics::default();
    let mut log = WorldEventLog::new(64);
    diplomacy_system(&mut diplo, &metrics, &WorldTime { tick: 1 }, &mut log);
    assert_eq!(diplo.relation(Nation::Tera, Nation::Luna), 12_000_000);
    // four meetings, each worth a unit of trust and no fear
    assert_eq!(diplo.trust, vec![44_000_000; 5]);
    assert_eq!(diplo.fear, vec![35_000_000; 5]);
    assert!(diplo.alliances.is_empty());
    for tick in 2..=60 {
        diplomacy_system(&mut diplo, &metrics, &WorldTime { tick }, &mut log);
    }
    assert_eq!(diplo.relation(Nation::Aqua, Nation::Sora), 100_000_000);
    assert_eq!(diplo.alliances.len(), 10, "each of the ten pairs allies once");
    assert!(diplo.sanctions.is_empty());
    assert_eq!(diplo.trust, vec![100_000_000; 5]);
    assert!(diplo.alliances.contains(&(Nation::Tera, Nation::Sora)));
    assert!(!diplo.alliances.contains(&(Nation::Sora, Nation::Tera)));
}

#[test]
fn the_weaker_nation_fears_the_stronger() {
    let mut diplo = DiplomaticRelations::default();
    let mut metrics = AllNationMetrics::default();
    metrics.0[0].military = 250_000_000;
    let mut log = WorldEventLog::new(8);
    diplomacy_system(&mut diplo, &metrics, &WorldTime { tick: 1 }, &mut log);
    // power 11.9 against 2.7: a gap of 9.2 units
    assert_eq!(diplo.relation(Nation::Tera, Nation::Sora), 8_500_000);
    assert_eq!(diplo.relation(Nation::Sora, Nation::Aqua), 12_000_000);
    assert_eq!(diplo.fear[1], 35_000_000 + 184_000);
    assert_eq!(diplo.fear[0], 35_000_000 - 4 * 184_000);
    assert_eq!(diplo.trust[0], 40_000_000 - 4 * 750_000);
    assert_eq!(diplo.trust[1], 40_000_000 - 750_000 + 3 * 1_000_000);
}

#[test]
fn sanctions_bite_and_alliances_reassure() {
    let mut diplo = DiplomaticRelations::default();
    diplo.sanctions.push((Nation::Tera, Nation::Sora));
    diplo.sanctions.push((Nation::Aqua, Nation::Sora));
    diplo.alliances.push((Nation::Tera, Nation::Aqua));
    let mut metrics = AllNationMetrics::default();
    let mut ideology = IdeologyMatrix::default();
    let mut war = WarFatigue::default();
    war.intensity = 50_000_000;
    security_system(&diplo, &mut metrics, &war, &mut ideology);
    let sora = metrics.get(Nation::Sora);
    // 50 x 0.92, then x 0.90 with two units of penalty
    assert_eq!(sora.economy, 41_400_000);
    assert_eq!(sora.science, 19_208_000);
    assert_eq!(sora.trade_penalty, 3_800_000);
    // 30 - 5 of war pressure - 0.8 of penalty
    assert_eq!(sora.diplomacy, 24_200_000);
    let tera = metrics.get(Nation::Tera);
    assert_eq!(tera.economy, 50_000_000);
    assert_eq!(tera.diplomacy, 27_000_000);
    assert_eq!(metrics.get(Nation::Luna).diplomacy, 25_000_000);
    assert_eq!(ideology.volatility, vec![24_000_000; 5]);
    assert_eq!(ideology.cohesion, vec![56_000_000, 55_000_000, 56_000_000, 55_000_000, 55_000_000]);
}

#[test]
fn ideology_drifts_and_boils_over() {
    let mut matrix = IdeologyMatrix::default();
    let metrics = AllNationMetrics::default();
    let mut log = WorldEventLog::new(16);
    ideology_system(&mut matrix, &metrics, &WorldTime { tick: 1 }, &mut log);
    // prosperity pushes 1.6, religion and military hold back 0.45
    assert_eq!(matrix.leaning[0], 51_150_000);
    // 20 + (50 - 55) x 0.05 + (60 - 33.33) x 0.02
    assert_eq!(matrix.volatility[0], 20_283_333);
    // 55 + 0 - 20.28 x 0.02
    assert_eq!(matrix.cohesion[0], 54_594_334);
    assert_eq!(log.len(), 0);
    matrix.volatility[3] = 85_000_000;
    matrix.cohesion[3] = 50_000_000;
    ideology_system(&mut matrix, &metrics, &WorldTime { tick: 2 }, &mut log);
    assert_eq!(matrix.volatility[3], 85_533_333 - 10_000_000);
    assert_eq!(log.len(), 1);
    match &log.snapshot()[0].kind {
        WorldEventKind::Social { convener, cohesion_level, .. } => {
            assert_eq!(convener.nation, Nation::Solar);
            assert_eq!(convener.name, "Solar 내부 파벌");
            assert_eq!(cohesion_level, "vol 76");
        }
        _ => panic!("unrest is a gathering"),
    }
}

#[test]
fn peace_lets_nations_recover() {
    let mut metrics = AllNationMetrics::default();
    metrics.0[2].destroy();
    let mut fatigue = WarFatigue::default();
    fatigue.intensity = 10_000_000;
    let race = ScienceVictory::default();
    peace_recovery_system(&mut metrics, &fatigue, &race);
    let m = metrics.get(Nation::Tera);
    // a recovery of 1.2 units
    assert_eq!(m.economy, 50_420_000);
    assert_eq!(m.culture, 30_300_000);
    assert_eq!(m.science, 20_360_000);
    assert_eq!(m.research_stock, 144_000);
    assert_eq!(metrics.get(Nation::Aqua).economy, 50_000_000);
    fatigue.intensity = 40_000_001;
    peace_recovery_system(&mut metrics, &fatigue, &race);
    assert_eq!(metrics.get(Nation::Tera).economy, 50_420_000);
}

#[test]
fn seasons_pulse_through_civic_life() {
    let mut metrics = AllNationMetrics::default();
    let mut civ = AllNationCivState::default();
    let meta = WorldMetadata::standard();
    // ticks 0..2 are flower bloom, 3..5 sunburst peak, 6..8 ashfall
    environment_system(&mut metrics, &mut civ, &WorldTime { tick: 1 }, &meta);
    assert_eq!(civ.0[0].happiness, 65_400_000);
    assert_eq!(civ.0[0].production, 40_300_000);
    assert_eq!(civ.0[0].stability, 60_100_000);
    assert_eq!(metrics.0[0].economy, 50_450_000);
    assert_eq!(metrics.0[0].culture, 30_400_000);
    assert_eq!(metrics.0[0].military, 20_200_000);
    environment_system(&mut metrics, &mut civ, &WorldTime { tick: 4 }, &meta);
    assert_eq!(civ.0[0].happiness, 65_000_000);
    assert_eq!(metrics.0[0].economy, 51_350_000);
    assert_eq!(metrics.0[0].military, 19_700_000);
    environment_system(&mut metrics, &mut civ, &WorldTime { tick: 7 }, &meta);
    assert_eq!(civ.0[0].happiness, 64_800_000);
    assert_eq!(civ.0[0].production, 40_700_000);
    assert_eq!(metrics.0[0].economy, 51_050_000);
    assert_eq!(meta.epoch_for_tick(7), ("Midday", "Ashfall"));
    assert_eq!(meta.epoch_for_tick(9), ("Dawn", "Flower Bloom"));
}

#[test]
fn richness_is_the_mean_prosperity_of_the_living() {
    let mut metrics = AllNationMetrics::default();
    let mut richness = WorldRichness::default();
    richness_overlay_system(&mut richness, &metrics);
    assert_eq!(richness.richness, 350_000);
    assert_eq!(richness.history, vec![35_000_000]);
    metrics.0[0].economy = 100_000_000;
    metrics.0[1].destroy();
    richness_overlay_system(&mut richness, &metrics);
    // (75 + 35 + 35 + 35) / 4 / 100
    assert_eq!(richness.richness, 412_500);
    for m in metrics.0.iter_mut() {
        if !m.is_destroyed {
            m.destroy();
        }
    }
    richness_overlay_system(&mut richness, &metrics);
    assert_eq!(richness.richness, 0);
    assert_eq!(richness.history.len(), 3);
}

#[test]
fn the_climate_takes_its_toll() {
    let mut metrics = AllNationMetrics::default();
    let mut civ = AllNationCivState::default();
    metrics.0[4].destroy();
    civ.0[4] = NationCivState { cities: 0, happiness: 0, stability: 0, production: 0 };
    let mut climate = ClimateState::default();
    climate.climate_risk = 50_000_000;
    climate.sea_level = 200_000;
    climate.ice_line = 500_000;
    climate.biodiversity = 35_000_000;
    climate_impact_system(&climate, &mut metrics, &mut civ);
    let m = metrics.get(Nation::Tera);
    // a penalty of four units, then 96 percent of what is left
    assert_eq!(m.economy, 44_160_000);
    assert_eq!(m.territory, 30_996_900);
    // land loss 0.26: 99.5 - 3.9 percent of the army stays
    assert_eq!(m.military, 19_120_000);
    assert_eq!(m.science, 18_400_000);
    assert_eq!(m.research_stock, 700_000);
    assert_eq!(m.culture, 29_400_000);
    assert_eq!(m.diplomacy, 29_600_000);
    assert_eq!(m.population, 2_934_600);
    assert_eq!(m.population, m.youth + m.adult + m.elder);
    let c = civ.get(Nation::Tera);
    assert_eq!(c.happiness, 65_000_000 - 2_000_000 - 3_120_000 + 2_960_000);
    assert_eq!(c.production, 39_160_000 + 888_000);
    assert_eq!(c.stability, 60_000_000 - 1_500_000 - 2_080_000);
    assert_eq!(metrics.get(Nation::Luna).population, 0);
    assert_eq!(civ.get(Nation::Luna).happiness, 0);
}

#[test]
fn cities_feed_their_nation() {
    let mut m = NationMetrics::default();
    let mut s = NationCivState::default();
    civics_step(&mut m, &mut s, false);
    // two cities and 0.05 percent of the people
    assert_eq!(m.population, 3_011_500);
    assert_eq!(m.youth, 911_500);
    assert_eq!(m.economy, 56_000_000);
    assert_eq!(m.science, 24_800_000);
    assert_eq!(m.culture, 34_000_000);
    assert_eq!(s.cities, 2);
    assert_eq!(s.happiness, 65_050_000);
    assert_eq!(s.stability, 60_000_000);

    let mut founder = NationMetrics::default();
    let mut town = NationCivState::default();
    civics_step(&mut founder, &mut town, true);
    assert_eq!(town.cities, 3);
    assert_eq!(town.production, 43_000_000);
    assert_eq!(town.happiness, 67_050_000);
    assert_eq!(founder.population, 3_131_500);

    // 33.33 units of territory leave room for six cities
    let mut crowded = NationMetrics::default();
    let mut full = NationCivState { cities: 6, ..NationCivState::default() };
    civics_step(&mut crowded, &mut full, true);
    assert_eq!(full.cities, 6);
    assert_eq!(crowded.population, 3_000_000 + 30_000 + 1_500);

    let mut unhappy = NationMetrics::default();
    let mut grim = NationCivState { happiness: 30_000_000, ..NationCivState::default() };
    civics_step(&mut unhappy, &mut grim, false);
    assert_eq!(unhappy.economy, 55_720_000);
    assert_eq!(grim.stability, 59_800_000);

    let mut gone = NationMetrics::default();
    gone.destroy();
    let mut ruins = NationCivState::default();
    civics_step(&mut gone, &mut ruins, true);
    assert_eq!(ruins.cities, 0);
    assert_eq!(ruins.production, 0);
    assert_eq!(gone.population, 0);
    assert_eq!(founding_probability(30_000_000), 70_000);
    assert_eq!(founding_probability(0), 50_000);
}

#[test]
fn cities_are_founded_only_where_there_is_room() {
    let mut metrics = AllNationMetrics::default();
    let mut civ = AllNationCivState::default();
    metrics.0[1].destroy();
    for tick in 0..400 {
        for m in metrics.0.iter_mut() {
            if !m.is_destroyed {
                m.territory = 8_000_000;
            }
        }
        civilization_system(&mut civ, &mut metrics, &WorldTime { tick });
        for (i, m) in metrics.0.iter().enumerate() {
            assert_eq!(m.population, m.youth + m.adult + m.elder);
            assert!(civ.0[i].cities <= 2);
        }
        assert_eq!(civ.0[1].cities, 0);
        assert_eq!(metrics.0[1].population, 0);
    }
    for tick in 400..800 {
        for m in metrics.0.iter_mut() {
            if !m.is_destroyed {
                m.territory = 16_000_000;
            }
        }
        civilization_system(&mut civ, &mut metrics, &WorldTime { tick });
    }
    // with room for a third and a chance of about one in fifteen per tick, it is founded
    assert_eq!(civ.0[0].cities, 3);
    assert_eq!(civ.0[1].cities, 0);
}

#[test]
fn golden_ages_lift_and_declines_weigh() {
    let mut m = NationMetrics::default();
    let mut s = NationCivState::default();
    let (golden, decline) = cycle_nation(&mut m, &mut s, 60_000_000, 0, 5);
    // prosperity 33.3 pulls the score down by 0.43
    assert_eq!(golden, 59_566_666);
    // stress 70 + 70.5 adds 2.1075, the golden age takes 0.6 off
    assert_eq!(decline, 1_507_500);
    // factor 1.124097 up, 0.996232 down
    assert_eq!(m.economy, 55_993_070);
    assert_eq!(m.military, 19_924_640 + 2_978_333);
    assert_eq!(s.happiness, 73_066_305 - 226_125);
    let (faded_golden, faded_decline) =
        cycle_nation(&mut NationMetrics::default(), &mut NationCivState::default(), 60_000_000, 0, 12);
    assert_eq!(faded_golden, 59_566_666 * 97 / 100);
    assert_eq!(faded_decline, 1_507_500 * 98 / 100);

    let mut cycles = CivilizationalCycles::default();
    let mut metrics = AllNationMetrics::default();
    let mut civ = AllNationCivState::default();
    metrics.0[0].destroy();
    cycle_system(&mut cycles, &mut metrics, &mut civ, &WorldTime { tick: 1 });
    assert_eq!(cycles.golden_age[0], 0);
    assert_eq!(cycles.decline[0], 0);
    assert_eq!(cycles.decline[1], 2_107_500);
    assert_eq!(cycles.golden_age[1], 0);
}

#[test]
fn supply_is_counted_and_shortage_remembered() {
    let mut supply = SupplyState::default();
    let metrics = AllNationMetrics::default();
    let climate = ClimateState::default();
    let richness = WorldRichness::default();
    supply_chain_system(&mut supply, &metrics, &climate, &richness);
    // five nations yield 22.665 units of food each; drag 0.048 + 0.024
    assert_eq!(supply.food, 105_165_600);
    assert_eq!(supply.energy, 5 * 23_333_000 * 949_600 / 1_000_000);
    assert_eq!(supply.rare, 5 * 16_000_000 * 964_000 / 1_000_000);
    assert_eq!(supply.deficit_ticks, 1);
    assert_eq!(supply.history, vec![(supply.food, supply.energy, supply.rare)]);
    for _ in 0..300 {
        supply_chain_system(&mut supply, &metrics, &climate, &richness);
    }
    assert_eq!(supply.deficit_ticks, 301);
    assert_eq!(supply.history.len(), 256);

    let mut m = AllNationMetrics::default();
    let mut civ = AllNationCivState::default();
    m.0[0].destroy();
    supply.deficit_ticks = 10;
    supply_impact_system(&supply, &mut m, &mut civ);
    // a shortage at half strength
    assert_eq!(m.0[1].economy, 49_500_000);
    assert_eq!(m.0[1].military, 19_850_000);
    assert_eq!(m.0[1].population, 2_998_500);
    assert_eq!(civ.0[1].happiness, 64_250_000);
    assert_eq!(civ.0[1].production, 39_800_000);
    assert_eq!(civ.0[0].happiness, 65_000_000);
    supply.deficit_ticks = 0;
    supply_impact_system(&supply, &mut m, &mut civ);
    assert_eq!(m.0[1].economy, 49_500_000);
}

#[test]
fn war_fatigue_counts_wars_fallout_and_shocks() {
    let mut log = WorldEventLog::new(32);
    let war = tera_sim::events::WorldEvent::warfare(
        1, "Dawn", "Ashfall", Nation::Tera, Nation::Sora, 500_000, 240_000, true,
    );
    assert_eq!(fatigue_of(&war), 2_400_000 + 8_000_000);
    let big = tera_sim::events::WorldEvent::warfare(
        1, "Dawn", "Ashfall", Nation::Tera, Nation::Sora, 500_000, 2_000_000, false,
    );
    assert_eq!(fatigue_of(&big), 12_000_000);
    let crash = tera_sim::events::WorldEvent::macro_shock(
        1,
        "Dawn",
        "Ashfall",
        "Global die-off".to_string(),
        "x".to_string(),
        "Pop crash 23% | Infrastructure disruption severe".to_string(),
        Some(5),
    );
    assert_eq!(fatigue_of(&crash), 2_000_000);
    let digits = tera_sim::events::WorldEvent::macro_shock(
        1, "Dawn", "Ashfall", "s".to_string(), "c".to_string(), "0123456789".to_string(), None,
    );
    assert_eq!(fatigue_of(&digits), 8_000_000);
    let calm = tera_sim::events::WorldEvent::science_progress(1, "Dawn", "Ashfall", Nation::Tera, 5);
    assert_eq!(fatigue_of(&calm), 0);

    // only the latest eight events count
    log.push(big);
    for _ in 0..8 {
        log.push(crash.clone());
    }
    let mut fatigue = WarFatigue::default();
    fatigue.intensity = 50_000_000;
    let mut blasts = tera_sim::nuclear::NuclearBlasts::new(3);
    tera_sim::nuclear::mark_nuclear_blast(&mut blasts, tera_sim::grid::AxialCoord::new(0, 0), 1, 2);
    let mut metrics = AllNationMetrics::default();
    war_fatigue_system(&mut fatigue, &mut blasts, &log, &mut metrics);
    // 49 left of 50, seven live markers, sixteen units of shocks
    assert_eq!(fatigue.intensity, 49_000_000 + 7 * 1_500_000 + 16_000_000);
    assert_eq!(fatigue.history, vec![75_500_000]);
    assert_eq!(blasts.total(), 7);
    let m = metrics.get(Nation::Tera);
    assert_eq!(m.economy, 50_000_000 - 1_510_000);
    assert_eq!(m.culture, 30_000_000 - 755_000);
    assert_eq!(m.military, 20_000_000 - 377_500);
    let mut tired = WarFatigue::default();
    tired.intensity = 1_010_000;
    war_fatigue_system(
        &mut tired,
        &mut tera_sim::nuclear::NuclearBlasts::new(2),
        &WorldEventLog::new(4),
        &mut metrics,
    );
    assert_eq!(tired.intensity, 0, "less than a unit of fatigue counts as none");
}

#[test]
fn blocs_form_once_and_stay_current() {
    let mut blocs = WorldBlocs::default();
    let mut metrics = AllNationMetrics::default();
    let fatigue = WarFatigue::default();
    let climate = ClimateState::default();
    bloc_system(&mut blocs, &metrics, &fatigue, &climate, &WorldTime { tick: 1 });
    let pact = blocs.research_pact.unwrap();
    let sanction = blocs.sanction.unwrap();
    assert_eq!(pact.kind, BlocKind::ResearchPact);
    assert_eq!(sanction.kind, BlocKind::Sanction);
    assert!(blocs.defense_treaty.is_none());
    assert_eq!(blocs.get(BlocKind::ResearchPact).unwrap().members, pact.members);
    let members = pact.members.iter().filter(|m| **m).count() as i64;
    // every member adds 0.2 + 0.25 units
    assert_eq!(pact.strength, members * 450_000);
    metrics.0[2].science = 90_000_000;
    for tick in 2..50 {
        bloc_system(&mut blocs, &metrics, &fatigue, &climate, &WorldTime { tick });
        assert_eq!(blocs.research_pact.unwrap().members, pact.members);
        assert_eq!(blocs.sanction.unwrap().members, sanction.members);
    }

    let mut all = form_bloc(BlocKind::DefenseTreaty, [true; 5]);
    assert_eq!(all.strength, 1_000_000);
    assert_eq!(all.leader, None);
    refresh_bloc(&mut all, &metrics);
    assert_eq!(all.leader, Some(Nation::Aqua));
    assert_eq!(all.strength, 4 * 450_000 + 900_000 + 250_000);
    assert!(all.contains(Nation::Luna));
    metrics.0[2].destroy();
    refresh_bloc(&mut all, &metrics);
    // a destroyed member adds nothing but may still lead
    assert_eq!(all.strength, 4 * 450_000);
    assert_eq!(all.leader, Some(Nation::Aqua));
    let mut equal = form_bloc(BlocKind::Sanction, [true, false, false, true, true]);
    refresh_bloc(&mut equal, &AllNationMetrics::default());
    assert_eq!(equal.leader, Some(Nation::Luna), "among equals the last member leads");
    let mut none: Bloc = form_bloc(BlocKind::Sanction, [false; 5]);
    refresh_bloc(&mut none, &metrics);
    assert_eq!((none.strength, none.leader), (0, None));
    let mut strong = AllNationMetrics::default();
    for m in strong.0.iter_mut() {
        m.science = 250_000_000;
        m.economy = 250_000_000;
    }
    let mut capped = form_bloc(BlocKind::ResearchPact, [true; 5]);
    refresh_bloc(&mut capped, &strong);
    assert_eq!(capped.strength, 10_000_000);
    for nation in NATIONS {
        assert!(capped.contains(nation));
    }
}
