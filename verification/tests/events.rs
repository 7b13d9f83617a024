use tera_sim::components::BehaviorState;
use tera_sim::components::Biome;
use tera_sim::components::Faction;
use tera_sim::events::EventActor;
use tera_sim::events::Sentiment;
use tera_sim::events::WorldEvent;
use tera_sim::events::WorldEventLog;
use tera_sim::localization::behavior_label;
use tera_sim::localization::faction_label;
use tera_sim::localization::format_number_commas;
use tera_sim::localization::sentiment_label;
use tera_sim::nation::Nation;
use tera_sim::technology::Era;
use tera_sim::technology::WeaponTier;

fn actor(name: &str) -> EventActor {
    EventActor {
        id: 7,
        name: name.to_string(),
        nation: Nation::Aqua,
        faction: Faction::MerchantGuild,
        faction_label: "Merchant Guild".to_string(),
        biome: Biome::Market,
        biome_label: "Golden Confluence".to_string(),
        behavior_hint: BehaviorState::Trade,
        behavior_hint_label: "Trade".to_string(),
    }
}

fn numbered(tick: u64) -> WorldEvent {
    WorldEvent::era_shift(tick, "Dawn", "Ashfall", Nation::Tera, Era::Ancient, WeaponTier::Bow)
}

#[test]
fn a_full_log_drops_its_oldest_event() {
    let capacity = 5;
    let mut log = WorldEventLog::new(capacity);
    for tick in 0..capacity as u64 {
        log.push(numbered(tick));
        assert_eq!(log.len(), tick as usize + 1);
    }
    log.push(numbered(99));
    assert_eq!(log.len(), capacity);
    let ticks: Vec<u64> = log.snapshot().iter().map(|e| e.tick).collect();
    assert_eq!(ticks, vec![1, 2, 3, 4, 99]);
    assert_eq!(log.get(0).tick, 1);
}

#[test]
fn the_log_never_outgrows_its_capacity() {
    let mut log = WorldEventLog::new(3);
    for tick in 0..50 {
        log.push(numbered(tick));
        assert!(log.len() <= 3);
    }
    let ticks: Vec<u64> = log.snapshot().iter().map(|e| e.tick).collect();
    assert_eq!(ticks, vec![47, 48, 49]);
}

#[test]
fn a_log_without_room_keeps_nothing() {
    let mut log = WorldEventLog::new(0);
    log.push(numbered(1));
    log.push(numbered(2));
    assert_eq!(log.len(), 0);
    assert_eq!(log.capacity(), 0);
    assert!(log.snapshot().is_empty());
}

#[test]
fn the_default_log_holds_256_events() {
    let log = WorldEventLog::default();
    assert_eq!(log.capacity(), 256);
    assert_eq!(log.len(), 0);
}

#[test]
fn events_know_their_category_and_sentiment() {
    let trade = WorldEvent::trade(
        1,
        "Dawn",
        "Ashfall",
        actor("Calix"),
        "Herbs".to_string(),
        "Tariff Adjustment".to_string(),
    );
    assert_eq!(trade.category(), "Trade");
    assert_eq!(trade.sentiment(), Sentiment::Positive);
    assert_eq!(trade.tick, 1);
    assert_eq!(trade.epoch, "Dawn");
    assert_eq!(trade.season, "Ashfall");

    let social =
        WorldEvent::social(2, "Dusk", "Ashfall", actor("Lys"), "Feast".to_string(), "Cozy group".to_string());
    assert_eq!(social.category(), "Social");
    assert_eq!(social.sentiment(), Sentiment::Positive);

    let shock = WorldEvent::macro_shock(
        3,
        "Dusk",
        "Ashfall",
        "Drought".to_string(),
        "Festival".to_string(),
        "Severe".to_string(),
        Some(1_234_567),
    );
    assert_eq!(shock.category(), "MacroShock");
    assert_eq!(shock.sentiment(), Sentiment::Negative);

    let war = WorldEvent::warfare(4, "Dusk", "Ashfall", Nation::Tera, Nation::Sora, 500_000, 84_000, true);
    assert_eq!(war.category(), "War");
    assert_eq!(war.sentiment(), Sentiment::Negative);

    assert_eq!(numbered(5).category(), "Era");
    assert_eq!(numbered(5).sentiment(), Sentiment::Positive);
    let progress = WorldEvent::science_progress(6, "Dawn", "Ashfall", Nation::Luna, 25_000_000);
    assert_eq!(progress.category(), "Science");
    let victory = WorldEvent::science_victory(7, "Dawn", "Ashfall", Nation::Luna, 100_000_000);
    assert_eq!(victory.category(), "Science");
    let flight = WorldEvent::interstellar_progress(8, "Dawn", "Ashfall", Nation::Luna, 3_400_000);
    assert_eq!(flight.category(), "Space");
    let arrival = WorldEvent::interstellar_victory(9, "Dawn", "Ashfall", Nation::Luna, 100_000_000);
    assert_eq!(arrival.category(), "Space");
    assert_eq!(arrival.sentiment(), Sentiment::Positive);
}

#[test]
fn headlines_read_as_written() {
    let trade = WorldEvent::trade(
        1,
        "Dawn",
        "Ashfall",
        actor("Calix"),
        "Herbs".to_string(),
        "Tariff Adjustment".to_string(),
    );
    assert_eq!(trade.headline(), "Calix coordinates Herbs trade | Pressure: Tariff Adjustment");

    let social =
        WorldEvent::social(2, "Dusk", "Ashfall", actor("Lys"), "Feast".to_string(), "Cozy group".to_string());
    assert_eq!(social.headline(), "Lys hosts gathering on \"Feast\" | Cozy group".replace("| ", "| Cohesion: "));

    let shock = WorldEvent::macro_shock(
        3,
        "Dusk",
        "Ashfall",
        "Drought".to_string(),
        "Festival".to_string(),
        "Severe".to_string(),
        Some(1_234_567),
    );
    assert_eq!(
        shock.headline(),
        "Drought | Catalyst: Festival | Impact: Severe | Casualties: 1,234,567"
    );
    let quiet = WorldEvent::macro_shock(
        3,
        "Dusk",
        "Ashfall",
        "Drought".to_string(),
        "Festival".to_string(),
        "Severe".to_string(),
        None,
    );
    assert_eq!(quiet.headline(), "Drought | Catalyst: Festival | Impact: Severe");

    let war = WorldEvent::warfare(4, "Dusk", "Ashfall", Nation::Tera, Nation::Sora, 500_000, 84_000, true);
    assert_eq!(
        war.headline(),
        "Tera wins war against Sora, gaining territory 0.50. Casualties 84,000 | Nuclear Strike"
    );
    let skirmish =
        WorldEvent::warfare(4, "Dusk", "Ashfall", Nation::Luna, Nation::Aqua, 1_234_999, 15_000, false);
    assert_eq!(
        skirmish.headline(),
        "Luna wins war against Aqua, gaining territory 1.23. Casualties 15,000"
    );

    assert_eq!(numbered(5).headline(), "Tera has entered Bronze Age | Main Weapon: Bow");

    let progress = WorldEvent::science_progress(6, "Dawn", "Ashfall", Nation::Luna, 25_040_000);
    assert_eq!(
        progress.headline(),
        "Luna Moon Exploration Progress 25.0% / 100% (1 tick = 1 gen)"
    );
    let over = WorldEvent::science_progress(6, "Dawn", "Ashfall", Nation::Luna, 140_000_000);
    assert_eq!(over.headline(), "Luna Moon Exploration Progress 100.0% / 100% (1 tick = 1 gen)");
    let victory = WorldEvent::science_victory(7, "Dawn", "Ashfall", Nation::Solar, 100_000_000);
    assert_eq!(
        victory.headline(),
        "Solar achieved the first Moon Landing! Science Victory for all humanity"
    );
    let flight = WorldEvent::interstellar_progress(8, "Dawn", "Ashfall", Nation::Aqua, 3_450_000);
    assert_eq!(flight.headline(), "Aqua Interstellar Migration Progress 3.5% / 100%");
    let arrival = WorldEvent::interstellar_victory(9, "Dawn", "Ashfall", Nation::Sora, 100_000_000);
    assert_eq!(
        arrival.headline(),
        "Sora completed Interstellar Settlement! Evolved into Space Civilization"
    );
}

#[test]
fn a_cloned_event_equals_its_source() {
    let shock = WorldEvent::macro_shock(
        3,
        "Dusk",
        "Ashfall",
        "Drought".to_string(),
        "Festival".to_string(),
        "Severe".to_string(),
        Some(12),
    );
    let copy = shock.clone();
    assert_eq!(copy.tick, 3);
    assert_eq!(copy.headline(), shock.headline());
    assert_eq!(copy.epoch, shock.epoch);
}

#[test]
fn numbers_are_grouped_by_commas() {
    assert_eq!(format_number_commas(0), "0");
    assert_eq!(format_number_commas(7), "7");
    assert_eq!(format_number_commas(999), "999");
    assert_eq!(format_number_commas(1000), "1,000");
    assert_eq!(format_number_commas(1_000_001), "1,000,001");
    assert_eq!(format_number_commas(1_234_567), "1,234,567");
    assert_eq!(format_number_commas(100_020_003), "100,020,003");
    assert_eq!(format_number_commas(u64::MAX), "18,446,744,073,709,551,615");
}

#[test]
fn labels_are_fixed() {
    assert_eq!(behavior_label(BehaviorState::Idle), "Idle");
    assert_eq!(behavior_label(BehaviorState::Explore), "Explore");
    assert_eq!(behavior_label(BehaviorState::Gather), "Gather");
    assert_eq!(behavior_label(BehaviorState::Trade), "Trade");
    assert_eq!(behavior_label(BehaviorState::Hunt), "Hunt");
    assert_eq!(behavior_label(BehaviorState::Rest), "Rest");
    assert_eq!(faction_label(Faction::Neutral), "Neutral Alliance");
    assert_eq!(faction_label(Faction::MerchantGuild), "Merchant Guild");
    assert_eq!(faction_label(Faction::BanditClans), "Bandit Clans");
    assert_eq!(faction_label(Faction::ExplorersLeague), "Explorers League");
    assert_eq!(faction_label(Faction::SettlersUnion), "Settlers Union");
    assert_eq!(faction_label(Faction::TempleOfSuns), "Temple of Suns");
    assert_eq!(sentiment_label(Sentiment::Positive), "Positive");
    assert_eq!(sentiment_label(Sentiment::Neutral), "Neutral");
    assert_eq!(sentiment_label(Sentiment::Negative), "Negative");
    assert_eq!(Nation::Tera.name(), "Tera");
    assert_eq!(Nation::Sora.name(), "Sora");
    assert_eq!(Nation::Aqua.name(), "Aqua");
    assert_eq!(Nation::Solar.name(), "Solar");
    assert_eq!(Nation::Luna.name(), "Luna");
}
