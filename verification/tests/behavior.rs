use tera_sim::components::BehaviorState;
use tera_sim::components::Biome;
use tera_sim::components::Faction;
use tera_sim::components::GoalKind;
use tera_sim::components::Goals;
use tera_sim::components::Personality;
use tera_sim::events::WorldEventKind;
use tera_sim::events::WorldEventLog;
use tera_sim::nation::Nation;
use tera_sim::resources::AllNationMetrics;
use tera_sim::resources::ScienceVictory;
use tera_sim::resources::WorldTime;
use tera_sim::rng::seed;
use tera_sim::seeding::seed_entities;
use tera_sim::systems::ai::ai_state_transition_system;
use tera_sim::systems::ai::choose_behavior;
use tera_sim::systems::ai::epoch_modifier_for;
use tera_sim::systems::ai::personality_modifier_for;
use tera_sim::systems::ai::season_modifier_for;
use tera_sim::systems::ai::transition_option;
use tera_sim::systems::ai::weigh_option;
use tera_sim::systems::ai::weigh_options;
use tera_sim::systems::ai::Circumstances;
use tera_sim::systems::event_generation::apply_epidemic;
use tera_sim::systems::event_generation::cohesion_level;
use tera_sim::systems::event_generation::die_off;
use tera_sim::systems::event_generation::die_off_event;
use tera_sim::systems::event_generation::event_generation_system;
use tera_sim::systems::event_generation::omega_event;
use tera_sim::systems::event_generation::pulse_event;
use tera_sim::systems::event_generation::pulse_is_epidemic;
use tera_sim::systems::event_generation::reservoir_step;
use tera_sim::systems::event_generation::social_event;
use tera_sim::systems::event_generation::trade_event;
use tera_sim::systems::event_generation::OmegaKind;
use tera_sim::systems::missions::mission_for;
use tera_sim::systems::missions::mission_system;
use tera_sim::systems::movement::movement_and_combat_system;
use tera_sim::text::count_digits;
use tera_sim::world::DaySegment;
use tera_sim::world::Season;
use tera_sim::world::WorldMetadata;

const STATES: [BehaviorState; 6] = [
    BehaviorState::Idle,
    BehaviorState::Explore,
    BehaviorState::Gather,
    BehaviorState::Trade,
    BehaviorState::Hunt,
    BehaviorState::Rest,
];

fn calix() -> Circumstances {
    Circumstances {
        personality: Personality { aggressive: 100_000, cautious: 400_000, social: 600_000, curious: 500_000 },
        biome: Biome::Market,
        faction: Faction::MerchantGuild,
        segment: DaySegment::Dawn,
        season: Season::FlowerBloom,
        race_finished: false,
    }
}

#[test]
fn every_behaviour_offers_four_options_that_add_up_to_one() {
    for state in STATES {
        let mut total = 0;
        for k in 0..4 {
            let (next, weight) = transition_option(state, k);
            assert!(STATES.contains(&next));
            total += weight;
            if k == 0 {
                assert_eq!(next, state, "staying is always the first option");
            }
        }
        assert_eq!(total, 1_000_000);
    }
    assert_eq!(transition_option(BehaviorState::Gather, 1), (BehaviorState::Trade, 400_000));
    assert_eq!(transition_option(BehaviorState::Rest, 3), (BehaviorState::Trade, 150_000));
}

#[test]
fn personality_shifts_the_weights_within_limits() {
    let p = calix().personality;
    assert_eq!(personality_modifier_for(&p, BehaviorState::Trade), 1_465_000);
    assert_eq!(personality_modifier_for(&p, BehaviorState::Hunt), 940_000);
    assert_eq!(personality_modifier_for(&p, BehaviorState::Explore), 1_220_000);
    assert_eq!(personality_modifier_for(&p, BehaviorState::Gather), 1_180_000);
    assert_eq!(personality_modifier_for(&p, BehaviorState::Rest), 1_140_000);
    assert_eq!(personality_modifier_for(&p, BehaviorState::Idle), 990_000);
    let timid = Personality { aggressive: 0, cautious: 1_000_000, social: 0, curious: 0 };
    assert_eq!(personality_modifier_for(&timid, BehaviorState::Hunt), 700_000);
    let eager = Personality { aggressive: 0, cautious: 0, social: 1_000_000, curious: 1_000_000 };
    assert_eq!(personality_modifier_for(&eager, BehaviorState::Trade), 1_800_000);
}

#[test]
fn the_calendar_favours_some_behaviours() {
    assert_eq!(epoch_modifier_for(DaySegment::Dawn, BehaviorState::Explore), 1_150_000);
    assert_eq!(epoch_modifier_for(DaySegment::Dawn, BehaviorState::Rest), 850_000);
    assert_eq!(epoch_modifier_for(DaySegment::Midday, BehaviorState::Trade), 1_250_000);
    assert_eq!(epoch_modifier_for(DaySegment::Midday, BehaviorState::Idle), 750_000);
    assert_eq!(epoch_modifier_for(DaySegment::Dusk, BehaviorState::Hunt), 1_250_000);
    assert_eq!(epoch_modifier_for(DaySegment::Dusk, BehaviorState::Gather), 1_000_000);
    assert_eq!(season_modifier_for(Season::FlowerBloom, BehaviorState::Gather), 1_200_000);
    assert_eq!(season_modifier_for(Season::SunburstPeak, BehaviorState::Rest), 950_000);
    assert_eq!(season_modifier_for(Season::Ashfall, BehaviorState::Rest), 1_250_000);
    assert_eq!(season_modifier_for(Season::Ashfall, BehaviorState::Hunt), 1_000_000);
}

#[test]
fn an_option_is_weighed_by_every_modifier_in_turn() {
    let meta = WorldMetadata::standard();
    let c = calix();
    // 0.25 x 1.465 x 1.35 x 1.4 x 1.0 x 1.05 x 1.25
    assert_eq!(weigh_option(&meta, &c, (BehaviorState::Trade, 250_000)), 908_526);
    let after = Circumstances { race_finished: true, ..calix() };
    assert_eq!(weigh_option(&meta, &after, (BehaviorState::Trade, 250_000)), 726_821);
    assert_eq!(weigh_option(&meta, &c, (BehaviorState::Hunt, 0)), 10_000);
    let weights = weigh_options(&meta, &c, BehaviorState::Idle);
    assert_eq!(weights[2], 908_526);
    // idle: 0.2 x 0.99 x 0.9 x 0.9
    assert_eq!(weights[0], 160_380);
}

#[test]
fn the_threshold_selects_the_first_option_that_exceeds_it() {
    let meta = WorldMetadata::standard();
    let c = calix();
    let w = weigh_options(&meta, &c, BehaviorState::Idle);
    let starts = [0, w[0], w[0] + w[1], w[0] + w[1] + w[2]];
    for k in 0..4 {
        let expected = transition_option(BehaviorState::Idle, k).0;
        assert_eq!(choose_behavior(&meta, &c, BehaviorState::Idle, starts[k]), expected);
        assert_eq!(choose_behavior(&meta, &c, BehaviorState::Idle, starts[k] + w[k] - 1), expected);
    }
    let total: i64 = w.iter().sum();
    assert_eq!(choose_behavior(&meta, &c, BehaviorState::Idle, total - 1), BehaviorState::Rest);
}

#[test]
fn the_same_inputs_give_the_same_choice() {
    let meta = WorldMetadata::standard();
    for state in STATES {
        for threshold in (0..3_000_000).step_by(99_991) {
            let first = choose_behavior(&meta, &calix(), state, threshold);
            let second = choose_behavior(&meta, &calix(), state, threshold);
            assert_eq!(first, second);
        }
    }
    assert_eq!(seed(7, 97, 3, 53), (7 * 97 + 3) * 53);
    assert_eq!(seed(7, 97, 3, 53), seed(7, 97, 3, 53));
    assert_eq!(seed(u64::MAX, 2, 1, 1), u64::MAX);
    assert_eq!(seed(1 << 63, 2, 5, 3), 15);
}

#[test]
fn two_runs_of_the_transition_system_agree() {
    let meta = WorldMetadata::standard();
    let race = ScienceVictory::default();
    let mut first = seed_entities(&meta);
    let mut second = seed_entities(&meta);
    for tick in 0..300 {
        let before: Vec<BehaviorState> = first.iter().map(|e| e.behavior.state).collect();
        ai_state_transition_system(&mut first, &meta, &WorldTime { tick }, &race);
        ai_state_transition_system(&mut second, &meta, &WorldTime { tick }, &race);
        for ((a, b), old) in first.iter().zip(second.iter()).zip(before.iter()) {
            assert_eq!(a.behavior.state, b.behavior.state);
            let options: Vec<BehaviorState> = (0..4).map(|k| transition_option(*old, k).0).collect();
            assert!(options.contains(&a.behavior.state));
            assert_eq!(a.inventory.currency, b.inventory.currency);
        }
    }
    assert_eq!(first[0].identity.name, "Calix");
    assert_eq!(first[0].inventory.currency, 100_000_000);
}

#[test]
fn goals_send_inhabitants_on_missions() {
    let curious = Personality { aggressive: 0, cautious: 0, social: 0, curious: 600_001 };
    let plain = Personality { aggressive: 0, cautious: 0, social: 500_000, curious: 600_000 };
    let sociable = Personality { aggressive: 0, cautious: 0, social: 500_001, curious: 0 };
    let wealth = Goals { primary: GoalKind::Wealth, intensity: 0 };
    let influence = Goals { primary: GoalKind::Influence, intensity: 0 };
    assert_eq!(mission_for(&wealth, &curious), BehaviorState::Explore);
    assert_eq!(mission_for(&wealth, &plain), BehaviorState::Trade);
    assert_eq!(mission_for(&Goals { primary: GoalKind::Glory, intensity: 0 }, &plain), BehaviorState::Hunt);
    assert_eq!(
        mission_for(&Goals { primary: GoalKind::Survival, intensity: 0 }, &plain),
        BehaviorState::Gather
    );
    assert_eq!(mission_for(&influence, &sociable), BehaviorState::Rest);
    assert_eq!(mission_for(&influence, &plain), BehaviorState::Trade);
}

#[test]
fn missions_are_reported_every_48_ticks() {
    let meta = WorldMetadata::standard();
    let mut founders = seed_entities(&meta);
    let mut log = WorldEventLog::new(16);
    mission_system(&mut founders, &WorldTime { tick: 47 }, &mut log);
    let states: Vec<BehaviorState> = founders.iter().map(|e| e.behavior.state).collect();
    assert_eq!(
        states,
        vec![BehaviorState::Trade, BehaviorState::Hunt, BehaviorState::Trade, BehaviorState::Gather]
    );
    assert_eq!(log.len(), 0);
    mission_system(&mut founders, &WorldTime { tick: 48 }, &mut log);
    // Lys means it only half: three reports for four founders
    assert_eq!(log.len(), 3);
    let first = &log.snapshot()[0];
    assert_eq!(first.epoch, "Missions");
    assert_eq!(first.season, "Pos 0,0");
    match &first.kind {
        WorldEventKind::Social { convener, gathering_theme, cohesion_level } => {
            assert_eq!(convener.name, "Calix");
            assert_eq!(convener.faction_label, "MerchantGuild");
            assert_eq!(convener.biome_label, "Market");
            assert_eq!(convener.behavior_hint, BehaviorState::Trade);
            assert_eq!(convener.behavior_hint_label, "Trade");
            assert_eq!(gathering_theme, "Wealth mission");
            assert_eq!(cohesion_level, "Intensity 0.7");
        }
        _ => panic!("a mission report is a gathering"),
    }
    assert_eq!(log.snapshot()[1].season, "Pos 6,5");
}

#[test]
fn those_who_roam_move() {
    let meta = WorldMetadata::standard();
    let mut founders = seed_entities(&meta);
    movement_and_combat_system(&mut founders);
    // Calix idles in the market, Rena explores, Aria gathers, Lys idles
    assert_eq!((founders[0].position.x, founders[0].position.y), (0, 0));
    assert_eq!((founders[1].position.x, founders[1].position.y), (7_000_000, 5_500_000));
    assert_eq!((founders[2].position.x, founders[2].position.y), (2_000_000, 3_000_000));
    assert_eq!((founders[3].position.x, founders[3].position.y), (3_500_000, -3_000_000));
    founders[0].behavior.state = BehaviorState::Hunt;
    founders[0].position.x = 1_000_000_000_000_000;
    movement_and_combat_system(&mut founders);
    assert_eq!(founders[0].position.x, 1_000_000_000_000_000);
    assert_eq!(founders[0].position.y, 1_000_000);
    assert_eq!(founders[0].position.biome, Biome::Market);
}

#[test]
fn a_trade_event_tells_who_what_and_where() {
    let meta = WorldMetadata::standard();
    let founders = seed_entities(&meta);
    let event = trade_event(12, &meta, &founders[0], 2, 1);
    assert_eq!(event.tick, 12);
    assert_eq!(event.epoch, "Dawn");
    assert_eq!(event.season, "Sunburst Peak");
    match &event.kind {
        WorldEventKind::Trade { actor, trade_focus, market_pressure } => {
            assert_eq!(actor.id, 1);
            assert_eq!(actor.name, "Calix");
            assert_eq!(actor.nation, Nation::Tera);
            assert_eq!(actor.faction_label, "Merchant Guild");
            assert_eq!(actor.biome_label, "Golden Confluence");
            assert_eq!(actor.behavior_hint_label, "Idle");
            assert_eq!(trade_focus, "Calix brokers Intel flow at Golden Confluence (liquidity 100.0)");
            assert_eq!(market_pressure, "Supply Contract");
        }
        _ => panic!("a trade event is a trade"),
    }
    // an index past the end, or a faction without profile, selects the fallback
    let mut stranger = seed_entities(&meta).remove(0);
    stranger.identity.faction = Faction::Neutral;
    stranger.inventory.currency = 12_345_678;
    match trade_event(1, &meta, &stranger, 3, 0).kind {
        WorldEventKind::Trade { trade_focus, market_pressure, .. } => {
            assert_eq!(
                trade_focus,
                "Calix brokers General Goods flow at Golden Confluence (liquidity 12.3)"
            );
            assert_eq!(market_pressure, "Local Demand Index");
        }
        _ => panic!("a trade event is a trade"),
    }
}

#[test]
fn a_gathering_is_as_big_as_its_host_is_famous() {
    assert_eq!(cohesion_level(60_000_000), "Legendary crowd");
    assert_eq!(cohesion_level(59_999_999), "Packed hall");
    assert_eq!(cohesion_level(35_000_000), "Packed hall");
    assert_eq!(cohesion_level(15_000_000), "Cozy group");
    assert_eq!(cohesion_level(14_999_999), "Small circle");
    let meta = WorldMetadata::standard();
    let founders = seed_entities(&meta);
    match social_event(4, &meta, &founders[3], 1).kind {
        WorldEventKind::Social { convener, gathering_theme, cohesion_level } => {
            assert_eq!(convener.name, "Lys");
            assert_eq!(gathering_theme, "Disease Spread");
            assert_eq!(cohesion_level, "Legendary crowd");
        }
        _ => panic!("a gathering is social"),
    }
    match social_event(4, &meta, &founders[3], 9).kind {
        WorldEventKind::Social { gathering_theme, .. } => assert_eq!(gathering_theme, "Story circle"),
        _ => panic!("a gathering is social"),
    }
}

#[test]
fn the_pulse_cycles_through_the_lists() {
    let meta = WorldMetadata::standard();
    match pulse_event(7, &meta, None).kind {
        WorldEventKind::MacroShock { stressor, catalyst, projected_impact, casualties } => {
            assert_eq!(stressor, "Currency Devaluation");
            assert_eq!(catalyst, "Temple Festival");
            assert_eq!(
                projected_impact,
                "Currency Devaluation is pressuring the world | Catalyst: Temple Festival | Phase Guild Bidding"
            );
            assert_eq!(casualties, None);
        }
        _ => panic!("the pulse is a shock"),
    }
    match pulse_event(u64::MAX, &meta, Some(9)).kind {
        WorldEventKind::MacroShock { stressor, casualties, .. } => {
            assert_eq!(stressor, "Drought Pressure");
            assert_eq!(casualties, Some(9));
        }
        _ => panic!("the pulse is a shock"),
    }
}

#[test]
fn an_epidemic_is_told_by_its_name() {
    let mut meta = WorldMetadata::standard();
    for tick in 0..10 {
        assert!(!pulse_is_epidemic(&meta, tick), "the standard stressors are capitalised");
    }
    meta.economy.stressors = vec!["Red plague", "Drought", "A disease of cattle", "Plague"];
    assert!(pulse_is_epidemic(&meta, 0));
    assert!(!pulse_is_epidemic(&meta, 1));
    assert!(pulse_is_epidemic(&meta, 2));
    assert!(!pulse_is_epidemic(&meta, 3));
    assert!(pulse_is_epidemic(&meta, 4));
}

#[test]
fn an_epidemic_takes_an_equal_toll_from_each() {
    let mut metrics = AllNationMetrics::default();
    metrics.0[1].set_population(50_000);
    metrics.0[2].destroy();
    apply_epidemic(&mut metrics, 500_004);
    assert_eq!(metrics.0[0].population, 2_900_000);
    assert_eq!(metrics.0[1].population, 0);
    assert_eq!(metrics.0[2].population, 0);
    assert!(!metrics.0[1].is_destroyed);
    for m in &metrics.0 {
        assert_eq!(m.population, m.youth + m.adult + m.elder);
    }
}

#[test]
fn a_die_off_spares_a_remnant() {
    let mut metrics = AllNationMetrics::default();
    metrics.0[0].set_population(12_000);
    metrics.0[1].set_population(4_000);
    metrics.0[2].destroy();
    let total = die_off(&mut metrics, 250_000, 10_000);
    assert_eq!(total, 3_000 + 1_000 + 750_000 + 750_000);
    assert_eq!(metrics.0[0].population, 10_000);
    // a nation under the floor is lifted to it
    assert_eq!(metrics.0[1].population, 10_000);
    assert_eq!(metrics.0[2].population, 0);
    assert_eq!(metrics.0[3].population, 2_250_000);
    for m in &metrics.0 {
        assert_eq!(m.population, m.youth + m.adult + m.elder);
        assert_eq!(m.economy, 50_000_000);
    }
    let meta = WorldMetadata::standard();
    match die_off_event(3, &meta, 234_000, true, total).kind {
        WorldEventKind::MacroShock { stressor, catalyst, projected_impact, casualties } => {
            assert_eq!(stressor, "Global die-off");
            assert_eq!(catalyst, "Mutating pandemic sweeps megacities");
            assert_eq!(projected_impact, "Pop crash 23% | Infrastructure disruption severe");
            assert_eq!(count_digits(&projected_impact), 2);
            assert_eq!(casualties, Some(1_504_000));
        }
        _ => panic!("a die-off is a shock"),
    }
    match die_off_event(3, &meta, 120_000, false, 1).kind {
        WorldEventKind::MacroShock { catalyst, .. } => {
            assert_eq!(catalyst, "Cascade disaster chain (quake/tsunami/famine)")
        }
        _ => panic!("a die-off is a shock"),
    }
}

#[test]
fn omega_events_come_in_three_kinds() {
    assert_eq!(OmegaKind::from_roll(0), OmegaKind::Meteor);
    assert_eq!(OmegaKind::from_roll(1), OmegaKind::GammaBurst);
    assert_eq!(OmegaKind::from_roll(2), OmegaKind::Supervolcano);
    assert_eq!(OmegaKind::Meteor.severity_bounds(), (900_000, 999_000));
    assert_eq!(OmegaKind::GammaBurst.severity_bounds(), (999_000, 999_001));
    assert_eq!(OmegaKind::Supervolcano.severity_bounds(), (700_000, 920_000));
    let meta = WorldMetadata::standard();
    match omega_event(3, &meta, OmegaKind::GammaBurst, 999_000, 77).kind {
        WorldEventKind::MacroShock { stressor, catalyst, projected_impact, casualties } => {
            assert_eq!(stressor, "Gamma-ray burst exposure");
            assert_eq!(catalyst, "Atmospheric stripping / radiation storm");
            assert_eq!(
                projected_impact,
                "Omega event — population crash 99.9% | infrastructure collapse"
            );
            assert_eq!(count_digits(&projected_impact), 3);
            assert_eq!(casualties, Some(77));
        }
        _ => panic!("an omega event is a shock"),
    }
    let mut metrics = AllNationMetrics::default();
    let total = die_off(&mut metrics, 999_000, 1_000);
    assert_eq!(total, 5 * 2_997_000);
    assert_eq!(metrics.0[0].population, 3_000);
}

#[test]
fn a_newcomer_replaces_the_choice_on_a_zero_draw() {
    assert_eq!(reservoir_step(None, 4, 0), Some(4));
    assert_eq!(reservoir_step(Some(1), 4, 0), Some(4));
    assert_eq!(reservoir_step(Some(1), 4, 1), Some(1));
    assert_eq!(reservoir_step(None, 4, 3), None);
}

#[test]
fn digits_are_counted() {
    assert_eq!(count_digits(""), 0);
    assert_eq!(count_digits("no digits"), 0);
    assert_eq!(count_digits("a1b22c333"), 6);
    assert_eq!(count_digits("경제 위축 7"), 1);
    assert_eq!(count_digits("٣ is no ASCII digit"), 0);
}

#[test]
fn generated_events_pick_from_the_lists() {
    let meta = WorldMetadata::standard();
    let mut founders = seed_entities(&meta);
    founders[0].behavior.state = BehaviorState::Trade;
    founders[1].behavior.state = BehaviorState::Trade;
    let mut metrics = AllNationMetrics::default();
    let mut trades = 0;
    let mut gatherings = 0;
    let mut seen_traders = std::collections::BTreeSet::new();
    let mut seen_focus = std::collections::BTreeSet::new();
    for tick in 0..400 {
        let mut log = WorldEventLog::new(16);
        event_generation_system(&WorldTime { tick }, &meta, &mut log, &mut metrics, &founders);
        let events = log.snapshot();
        assert!(events.len() >= 3, "a trade, a gathering and the pulse happen every tick");
        for event in &events {
            assert_eq!(event.tick, tick);
            match &event.kind {
                WorldEventKind::Trade { actor, trade_focus, market_pressure } => {
                    trades += 1;
                    assert!(actor.id == 1 || actor.id == 2, "only traders trade");
                    seen_traders.insert(actor.id);
                    let profile = meta.faction_profile(actor.faction).unwrap();
                    assert!(profile.influence_vectors.contains(&market_pressure.as_str()));
                    assert!(!trade_focus.contains("General Goods"));
                    let biome = meta.biome_profile(actor.biome);
                    let focus = biome
                        .resource_profile
                        .iter()
                        .find(|r| trade_focus.contains(&format!(" brokers {} flow", r)));
                    seen_focus.insert(*focus.expect("the focus is one of the biome's resources"));
                }
                WorldEventKind::Social { convener, gathering_theme, .. } => {
                    gatherings += 1;
                    assert_eq!(convener.id, 4, "only Lys is idle");
                    assert!(meta.biome_profile(convener.biome).tensions.contains(&gathering_theme.as_str()));
                }
                WorldEventKind::MacroShock { .. } => {}
                _ => panic!("no other kind of event is generated here"),
            }
        }
        for m in &metrics.0 {
            assert_eq!(m.population, m.youth + m.adult + m.elder);
            assert_eq!(m.economy, 50_000_000);
            assert!(!m.is_destroyed);
        }
    }
    assert_eq!(trades, 400);
    assert_eq!(gatherings, 400);
    assert_eq!(seen_traders.len(), 2, "both traders get their turn");
    assert!(seen_focus.len() >= 3, "the draw moves through the lists");
    // a die-off comes about once in twenty ticks
    assert!(metrics.0[0].population < 3_000_000);
    assert!(metrics.0[0].population >= 1_000);
}
