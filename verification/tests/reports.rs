use tera_sim::blocs::WorldBlocs;
use tera_sim::events::WorldEventKind;
use tera_sim::events::WorldEventLog;
use tera_sim::grid::AxialCoord;
use tera_sim::nation::Nation;
use tera_sim::nuclear::mark_nuclear_blast;
use tera_sim::nuclear::NuclearBlasts;
use tera_sim::resources::AllNationCivState;
use tera_sim::resources::AllNationMetrics;
use tera_sim::resources::ClimateState;
use tera_sim::resources::CosmicTimeline;
use tera_sim::resources::DiplomaticRelations;
use tera_sim::resources::ScienceVictory;
use tera_sim::resources::SimulationConfig;
use tera_sim::resources::SpaceStage;
use tera_sim::resources::WarFatigue;
use tera_sim::resources::WorldRichness;
use tera_sim::resources::WorldTime;
use tera_sim::simulation::SimulationWorld;
use tera_sim::systems::climate::climate_system;
use tera_sim::systems::cosmic::cosmic_time_system;
use tera_sim::systems::cosmic::extinction_system;
use tera_sim::systems::diplomacy::diplomacy_system;
use tera_sim::systems::technology::technology_system;
use tera_sim::systems::victory::ramp;
use tera_sim::systems::victory::science_victory_system;
use tera_sim::technology::Era;
use tera_sim::technology::Tech;
use tera_sim::technology::WeaponTier;
use tera_sim::world::WorldMetadata;

fn nations() -> [Nation; 5] {
    [Nation::Tera, Nation::Sora, Nation::Aqua, Nation::Solar, Nation::Luna]
}

#[test]
fn the_default_world_signs_no_treaty() {
    let mut diplo = DiplomaticRelations::default();
    let metrics = AllNationMetrics::default();
    let mut log = WorldEventLog::new(16);
    diplomacy_system(&mut diplo, &metrics, &WorldTime { tick: 1 }, &mut log);
    for (i, a) in nations().iter().enumerate() {
        for b in nations().iter().skip(i + 1) {
            assert_eq!(diplo.relation(*a, *b), 12_000_000);
        }
    }
    assert_eq!(diplo.trust, vec![44_000_000; 5]);
    assert_eq!(diplo.fear, vec![35_000_000; 5]);
    assert!(diplo.alliances.is_empty());
    assert!(diplo.sanctions.is_empty());
    assert_eq!(log.len(), 0);
}

#[test]
fn a_forced_low_score_brings_one_sanction_and_one_report() {
    let mut diplo = DiplomaticRelations::default();
    let metrics = AllNationMetrics::default();
    diplo.set_relation(Nation::Tera, Nation::Sora, -50_000_000);
    let mut log = WorldEventLog::new(16);
    diplomacy_system(&mut diplo, &metrics, &WorldTime { tick: 7 }, &mut log);
    assert_eq!(diplo.relation(Nation::Tera, Nation::Sora), -48_000_000);
    assert_eq!(diplo.sanctions, vec![(Nation::Tera, Nation::Sora)]);
    assert!(diplo.alliances.is_empty());
    assert_eq!(log.len(), 1);
    let event = &log.snapshot()[0];
    assert_eq!(event.tick, 7);
    assert_eq!(event.epoch, "외교");
    assert_eq!(event.season, "제재");
    match &event.kind {
        WorldEventKind::MacroShock { stressor, catalyst, projected_impact, casualties } => {
            assert_eq!(stressor, "Tera가 Sora를 제재");
            assert_eq!(catalyst, "무역 차단");
            assert_eq!(projected_impact, "경제 위축");
            assert_eq!(*casualties, None);
        },
        _ => panic!("a sanction is reported as a shock"),
    }
}

#[test]
fn a_score_below_the_threshold_on_entry_is_sanctioned() {
    let mut diplo = DiplomaticRelations::default();
    let metrics = AllNationMetrics::default();
    // balanced nations lift the score above the threshold within the tick
    diplo.set_relation(Nation::Aqua, Nation::Luna, -46_000_000);
    let mut log = WorldEventLog::new(16);
    diplomacy_system(&mut diplo, &metrics, &WorldTime { tick: 2 }, &mut log);
    assert_eq!(diplo.relation(Nation::Aqua, Nation::Luna), -44_000_000);
    assert_eq!(diplo.sanctions, vec![(Nation::Aqua, Nation::Luna)]);
    assert_eq!(log.len(), 1);
    // the sanction stands, and is neither signed nor reported again
    diplomacy_system(&mut diplo, &metrics, &WorldTime { tick: 3 }, &mut log);
    assert_eq!(diplo.relation(Nation::Aqua, Nation::Luna), -42_000_000);
    assert_eq!(diplo.sanctions, vec![(Nation::Aqua, Nation::Luna)]);
    assert!(diplo.alliances.is_empty());
    assert_eq!(log.len(), 1);
}

#[test]
fn a_score_at_the_threshold_brings_no_sanction() {
    let mut diplo = DiplomaticRelations::default();
    let metrics = AllNationMetrics::default();
    diplo.set_relation(Nation::Tera, Nation::Sora, -45_000_000);
    let mut log = WorldEventLog::new(16);
    diplomacy_system(&mut diplo, &metrics, &WorldTime { tick: 2 }, &mut log);
    assert!(diplo.sanctions.is_empty());
    assert_eq!(log.len(), 0);
}

#[test]
fn treaties_are_reported_in_table_order() {
    let mut diplo = DiplomaticRelations::default();
    let metrics = AllNationMetrics::default();
    diplo.set_relation(Nation::Sora, Nation::Luna, -60_000_000);
    diplo.set_relation(Nation::Tera, Nation::Aqua, 54_000_000);
    diplo.set_relation(Nation::Tera, Nation::Sora, -70_000_000);
    let mut log = WorldEventLog::new(16);
    diplomacy_system(&mut diplo, &metrics, &WorldTime { tick: 5 }, &mut log);
    assert_eq!(diplo.alliances, vec![(Nation::Tera, Nation::Aqua)]);
    assert_eq!(diplo.sanctions, vec![(Nation::Tera, Nation::Sora), (Nation::Sora, Nation::Luna)]);
    let events = log.snapshot();
    assert_eq!(events.len(), 3);
    assert!(matches!(&events[0].kind, WorldEventKind::MacroShock { stressor, .. } if stressor == "Tera가 Sora를 제재"));
    assert!(matches!(&events[1].kind, WorldEventKind::Social { convener, .. } if convener.name == "Tera-Aqua 조약" && convener.nation == Nation::Tera));
    assert!(matches!(&events[2].kind, WorldEventKind::MacroShock { stressor, .. } if stressor == "Sora가 Luna를 제재"));
}

#[test]
fn mars_is_reached_without_a_report() {
    let mut race = ScienceVictory {
        moon_done: true,
        winner: Some(Nation::Tera),
        space_stage: SpaceStage::Mars,
        mars_progress: 99_500_000,
        ..Default::default()
    };
    let mut log = WorldEventLog::new(16);
    science_victory_system(
        &mut race,
        &AllNationMetrics::default(),
        &WorldBlocs::default(),
        &mut log,
        &WorldTime { tick: 1 },
        &WorldMetadata::standard(),
    );
    assert_eq!(race.mars_progress, 100_000_000);
    assert!(race.mars_done);
    assert_eq!(race.space_stage, SpaceStage::Jovian);
    assert_eq!(race.jovian_progress, 0);
    assert!(!race.jovian_done);
    assert!(!race.interstellar_mode);
    assert!(!race.finished);
    assert_eq!(race.winner, Some(Nation::Tera));
    assert_eq!(log.len(), 0);
}

#[test]
fn reaching_the_stars_is_reported_once() {
    let mut race = ScienceVictory {
        moon_done: true,
        mars_done: true,
        jovian_done: true,
        winner: Some(Nation::Sora),
        space_stage: SpaceStage::Interstellar,
        interstellar_mode: true,
        interstellar_progress: 99_900_000,
        ..Default::default()
    };
    let mut log = WorldEventLog::new(16);
    let meta = WorldMetadata::standard();
    science_victory_system(
        &mut race,
        &AllNationMetrics::default(),
        &WorldBlocs::default(),
        &mut log,
        &WorldTime { tick: 3 },
        &meta,
    );
    assert_eq!(race.interstellar_progress, 100_000_000);
    assert!(race.finished);
    assert!(!race.interstellar_mode);
    assert_eq!(race.winner, Some(Nation::Sora));
    assert_eq!(race.space_stage, SpaceStage::Interstellar);
    let events = log.snapshot();
    assert_eq!(events.len(), 1);
    assert_eq!(events[0].tick, 3);
    assert!(matches!(
        events[0].kind,
        WorldEventKind::InterstellarVictory { winner: Nation::Sora, progress: 100_000_000 }
    ));
    // a finished race reports nothing more
    science_victory_system(
        &mut race,
        &AllNationMetrics::default(),
        &WorldBlocs::default(),
        &mut log,
        &WorldTime { tick: 8 },
        &meta,
    );
    assert_eq!(log.len(), 1);
}

#[test]
fn the_way_to_mars_is_reported_on_every_eighth_tick() {
    let mut race = ScienceVictory {
        moon_done: true,
        winner: Some(Nation::Luna),
        space_stage: SpaceStage::Mars,
        mars_progress: 10_000_000,
        ..Default::default()
    };
    let mut log = WorldEventLog::new(16);
    let meta = WorldMetadata::standard();
    let metrics = AllNationMetrics::default();
    let blocs = WorldBlocs::default();
    let first = ramp(10_000_000, 100_000_000, 400_000, 900_000);
    science_victory_system(&mut race, &metrics, &blocs, &mut log, &WorldTime { tick: 8 }, &meta);
    assert_eq!(race.mars_progress, first);
    let events = log.snapshot();
    assert_eq!(events.len(), 1);
    match &events[0].kind {
        WorldEventKind::InterstellarProgress { leader, progress } => {
            assert_eq!(*leader, Nation::Luna);
            assert_eq!(*progress, first);
        },
        _ => panic!("the way to Mars is reported as progress"),
    }
    science_victory_system(&mut race, &metrics, &blocs, &mut log, &WorldTime { tick: 9 }, &meta);
    assert_eq!(log.len(), 1);
}

#[test]
fn tera_enters_the_ancient_era_alone() {
    let mut metrics = AllNationMetrics::default();
    metrics.0[0].science = 0;
    metrics.0[0].economy = 0;
    metrics.0[0].culture = 0;
    metrics.0[0].diplomacy = 0;
    metrics.0[0].research_stock = 200_000_000;
    metrics.0[0].culture_stock = 200_000_000;
    let meta = WorldMetadata::standard();
    let mut log = WorldEventLog::new(16);
    technology_system(&mut metrics, &meta, &mut log, &WorldTime { tick: 1 });
    let tera = metrics.get(Nation::Tera);
    assert_eq!(tera.era, Era::Ancient);
    assert_eq!(tera.weapon_tier, WeaponTier::PolishedStone);
    assert_eq!(tera.unlocked_techs, vec![Tech::Knapping, Tech::PolishedTools]);
    for nation in [Nation::Sora, Nation::Aqua, Nation::Solar, Nation::Luna] {
        assert_eq!(metrics.get(nation).era, Era::Dawn);
        assert_eq!(metrics.get(nation).weapon_tier, WeaponTier::KnappedStone);
    }
    let events = log.snapshot();
    assert_eq!(events.len(), 1);
    assert_eq!(events[0].tick, 1);
    assert!(matches!(
        events[0].kind,
        WorldEventKind::EraShift {
            nation: Nation::Tera,
            era: Era::Ancient,
            weapon: WeaponTier::PolishedStone
        }
    ));
}

#[test]
fn no_era_shift_no_report() {
    let mut metrics = AllNationMetrics::default();
    let meta = WorldMetadata::standard();
    let mut log = WorldEventLog::new(16);
    technology_system(&mut metrics, &meta, &mut log, &WorldTime { tick: 1 });
    for nation in nations() {
        assert_eq!(metrics.get(nation).era, Era::Dawn);
    }
    assert_eq!(log.len(), 0);
}

#[test]
fn the_climate_warns_on_every_twenty_fourth_tick() {
    let mut climate = ClimateState::default();
    let mut log = WorldEventLog::new(16);
    for tick in 23..=25 {
        climate_system(
            &mut climate,
            &WorldRichness::default(),
            &NuclearBlasts::new(3),
            &WarFatigue::default(),
            &CosmicTimeline::default(),
            &WorldTime { tick },
            &mut log,
        );
        assert_eq!(log.len(), if tick < 24 { 0 } else { 1 });
    }
    let event = &log.snapshot()[0];
    assert_eq!(event.tick, 24);
    assert_eq!(event.epoch, "Climate");
    assert_eq!(event.season, "Planet");
    match &event.kind {
        WorldEventKind::MacroShock { stressor, projected_impact, casualties, .. } => {
            assert_eq!(stressor, "Climate shift warning");
            assert_eq!(projected_impact, "Productivity loss / population risk");
            assert_eq!(*casualties, None);
        },
        _ => panic!("a climate warning is a shock"),
    }
}

#[test]
fn cosmic_time_is_reported_on_every_sixty_fourth_tick() {
    let mut cosmic = CosmicTimeline::default();
    let meta = WorldMetadata::standard();
    let mut log = WorldEventLog::new(16);
    for tick in 63..=65 {
        cosmic_time_system(&mut cosmic, &WorldTime { tick }, &meta, &mut log);
        assert_eq!(log.len(), if tick < 64 { 0 } else { 1 });
    }
    assert_eq!(cosmic.cosmic_age_years, 3_000_000);
    let event = &log.snapshot()[0];
    assert_eq!(event.tick, 64);
    assert!(matches!(&event.kind, WorldEventKind::MacroShock { stressor, casualties: None, .. } if stressor == "Geologic/space transition"));
}

#[test]
fn an_extinction_resets_the_climate_and_is_reported_once() {
    let mut cosmic = CosmicTimeline::default();
    let mut climate = ClimateState::default();
    climate.climate_risk = 96_000_000;
    let mut richness = WorldRichness::default();
    let mut metrics = AllNationMetrics::default();
    let mut civ = AllNationCivState::default();
    let mut fatigue = WarFatigue::default();
    fatigue.intensity = 30_000_000;
    let mut log = WorldEventLog::new(16);
    let meta = WorldMetadata::standard();
    extinction_system(
        &mut cosmic, &mut climate, &mut richness, &mut metrics, &mut civ, &mut fatigue, &mut log,
        &WorldTime { tick: 4 }, &meta,
    );
    assert_eq!(cosmic.extinction_events, 1);
    assert_eq!(climate.biodiversity, 10_000_000);
    assert_eq!(climate.climate_risk, 10_000_000);
    // 280 ppm at a severity of one half, below what the climate itself ever reaches
    assert_eq!(climate.carbon_ppm, 140_000_000);
    assert_eq!(fatigue.intensity, 0);
    for nation in nations() {
        let m = metrics.get(nation);
        assert_eq!(m.population, 300_000);
        assert_eq!(m.economy, 6_250_000);
        assert_eq!(m.research_stock, 0);
        assert_eq!(m.culture_stock, 0);
        assert!(!m.is_destroyed);
    }
    for s in civ.0.iter() {
        assert_eq!(s.cities, 1);
        assert_eq!(s.happiness, 45_000_000);
        assert_eq!(s.stability, 40_000_000);
        assert_eq!(s.production, 10_000_000);
    }
    let events = log.snapshot();
    assert_eq!(events.len(), 1);
    assert_eq!(events[0].tick, 4);
    assert!(matches!(&events[0].kind, WorldEventKind::MacroShock { stressor, casualties: None, .. } if stressor == "Mass extinction/reboot"));
}

#[test]
fn the_climate_recovers_from_carbon_below_its_floor() {
    let mut climate = ClimateState::default();
    climate.carbon_ppm = 140_000_000;
    let mut log = WorldEventLog::new(16);
    climate_system(
        &mut climate,
        &WorldRichness::default(),
        &NuclearBlasts::new(3),
        &WarFatigue::default(),
        &CosmicTimeline::default(),
        &WorldTime { tick: 1 },
        &mut log,
    );
    assert_eq!(climate.carbon_ppm, 180_000_000);
}

#[test]
fn a_blast_counts_what_it_reaches() {
    let mut blasts = NuclearBlasts::new(2);
    let center = AxialCoord::new(0, 0);
    assert_eq!(mark_nuclear_blast(&mut blasts, center, -1, 8), 0);
    assert_eq!(blasts.marked().len(), 0);
    assert_eq!(mark_nuclear_blast(&mut blasts, center, 0, 8), 1);
    assert_eq!(blasts.marked(), vec![center]);
    assert_eq!(mark_nuclear_blast(&mut blasts, center, 1, 5), 7);
    assert_eq!(blasts.timer(center), Some(5));
    assert_eq!(blasts.total(), 7 * 5);
    // a reach beyond the map marks the whole map
    let all = mark_nuclear_blast(&mut blasts, center, 100, 3);
    assert_eq!(all, blasts.marked().len());
    assert!(all >= 19);
    assert_eq!(blasts.total(), all as u32 * 3);
}

#[test]
fn a_tick_records_the_living_totals() {
    let config = SimulationConfig { grid_radius: 6, ..Default::default() };
    let mut world = SimulationWorld::new(config).unwrap();
    assert_eq!(world.ledger().population_history.len(), 0);
    assert_eq!(world.ledger().gdp_history.len(), 0);
    for tick in 1..=40usize {
        world.tick();
        let people: u64 = world
            .metrics()
            .0
            .iter()
            .filter(|m| !m.is_destroyed)
            .fold(0u64, |sum, m| sum.saturating_add(m.population));
        let economy: i64 =
            world.metrics().0.iter().filter(|m| !m.is_destroyed).map(|m| m.economy).sum();
        assert_eq!(world.ledger().population_history.len(), tick);
        assert_eq!(world.ledger().gdp_history.len(), tick);
        assert_eq!(*world.ledger().population_history.last().unwrap(), people);
        assert_eq!(*world.ledger().gdp_history.last().unwrap(), economy);
    }
}

#[test]
fn the_goals_of_the_race_stay_at_a_hundred() {
    let config = SimulationConfig { grid_radius: 6, ..Default::default() };
    let mut world = SimulationWorld::new(config).unwrap();
    for _ in 0..200 {
        let race = world.science_victory();
        assert_eq!(race.goal, 100_000_000);
        assert_eq!(race.mars_goal, 100_000_000);
        assert_eq!(race.jovian_goal, 100_000_000);
        assert_eq!(race.interstellar_goal, 100_000_000);
        assert!(race.progress.iter().all(|p| *p <= 100_000_000));
        assert!(race.mars_progress <= 100_000_000);
        assert!(race.jovian_progress <= 100_000_000);
        assert!(race.interstellar_progress <= 100_000_000);
        world.tick();
    }
}

#[test]
fn a_tick_ages_the_cosmos_by_the_timescale() {
    let config = SimulationConfig { grid_radius: 6, years_per_tick: 250_000, ..Default::default() };
    let mut world = SimulationWorld::new(config).unwrap();
    assert_eq!(world.cosmic().cosmic_age_years, 0);
    world.tick();
    assert_eq!(world.cosmic().cosmic_age_years, 250_000);
    world.set_timescale(1_000);
    world.tick();
    assert_eq!(world.cosmic().cosmic_age_years, 251_000);
}

#[test]
fn a_new_world_stands_at_its_start() {
    let config = SimulationConfig { grid_radius: 6, ..Default::default() };
    let world = SimulationWorld::new(config).unwrap();
    assert!(world.diplomacy().alliances.is_empty());
    assert!(world.diplomacy().sanctions.is_empty());
    assert_eq!(world.diplomacy().relation(Nation::Tera, Nation::Luna), 10_000_000);
    assert_eq!(world.war_fatigue().intensity, 0);
    assert_eq!(world.richness().richness, 0);
    assert_eq!(world.climate().carbon_ppm, 320_000_000);
    assert!(world.blocs().research_pact.is_none());
    assert!(world.blocs().sanction.is_none());
    assert_eq!(world.cosmic().extinction_events, 0);
    assert_eq!(world.science_victory().winner, None);
    assert_eq!(world.science_victory().space_stage, SpaceStage::Moon);
}
