use tera_sim::grid::HexGrid;
use tera_sim::nation::Nation;
use tera_sim::resources::RacePhase;
use tera_sim::resources::SimulationConfig;
use tera_sim::resources::SpaceStage;
use tera_sim::simulation::validate_config;
use tera_sim::simulation::ConfigError;
use tera_sim::simulation::SimulationWorld;
use tera_sim::technology::Era;
use tera_sim::technology::Tech;
use tera_sim::technology::WeaponTier;

const NATIONS: [Nation; 5] = [Nation::Tera, Nation::Sora, Nation::Aqua, Nation::Solar, Nation::Luna];

fn config(radius: i32) -> SimulationConfig {
    SimulationConfig { tick_duration_ms: 1000, grid_radius: radius, years_per_tick: 1_000_000 }
}

fn owned_by_all(grid: &HexGrid) -> usize {
    NATIONS.iter().map(|n| grid.owned_count(*n)).sum()
}

#[test]
fn fresh_world_has_five_initial_nations() {
    let world = SimulationWorld::new(SimulationConfig::default()).unwrap();
    assert_eq!(world.current_tick(), 0);
    assert_eq!(world.metrics().0.len(), 5);
    for nation in NATIONS {
        let m = world.metrics().get(nation);
        assert_eq!(m.population, 3_000_000);
        assert_eq!(m.youth, 900_000);
        assert_eq!(m.adult, 1_800_000);
        assert_eq!(m.elder, 300_000);
        assert_eq!(m.economy, 50_000_000);
        assert_eq!(m.science, 20_000_000);
        assert_eq!(m.era, Era::Dawn);
        assert_eq!(m.weapon_tier, WeaponTier::KnappedStone);
        assert_eq!(m.unlocked_techs, vec![Tech::Knapping]);
        assert!(!m.is_destroyed);
        let civ = world.civ_state().get(nation);
        assert_eq!(civ.cities, 2);
        assert_eq!(civ.happiness, 65_000_000);
    }
    assert_eq!(world.science_victory().phase(), RacePhase::Moon);
    assert_eq!(world.event_log().len(), 0);
    assert_eq!(world.entities().len(), 4);
    assert_eq!(world.observer().tick, 0);
}

#[test]
fn fresh_world_seeds_a_round_continent() {
    let world = SimulationWorld::new(config(12)).unwrap();
    let grid = world.grid();
    assert_eq!(grid.radius, 12);
    assert_eq!(grid.tiles.len(), 25 * 25);
    // a hex disk of radius ten holds 1 + 3 * 10 * 11 hexes
    assert_eq!(grid.land_count(), 331);
    assert_eq!(owned_by_all(grid), 331);
    for nation in NATIONS {
        assert!(grid.owned_count(nation) > 40);
    }
}

#[test]
fn invalid_configurations_are_rejected() {
    let zero_duration = SimulationConfig { tick_duration_ms: 0, grid_radius: 12, years_per_tick: 1 };
    assert_eq!(SimulationWorld::new(zero_duration).err(), Some(ConfigError::InvalidTickDuration));
    assert_eq!(SimulationWorld::new(config(0)).err(), Some(ConfigError::InvalidGridRadius));
    assert_eq!(SimulationWorld::new(config(-3)).err(), Some(ConfigError::InvalidGridRadius));
    assert_eq!(SimulationWorld::new(config(513)).err(), Some(ConfigError::InvalidGridRadius));
    let no_years = SimulationConfig { tick_duration_ms: 1, grid_radius: 1, years_per_tick: 0 };
    assert_eq!(SimulationWorld::new(no_years).err(), Some(ConfigError::InvalidTimescale));
    let too_many = SimulationConfig {
        tick_duration_ms: 1,
        grid_radius: 1,
        years_per_tick: 1_000_000_000_001,
    };
    assert_eq!(validate_config(&too_many), Err(ConfigError::InvalidTimescale));
    assert!(validate_config(&config(512)).is_ok());
    assert!(validate_config(&config(1)).is_ok());
}

#[test]
fn the_first_fault_is_reported() {
    let all_wrong = SimulationConfig { tick_duration_ms: 0, grid_radius: 0, years_per_tick: 0 };
    assert_eq!(validate_config(&all_wrong), Err(ConfigError::InvalidTickDuration));
    let two_wrong = SimulationConfig { tick_duration_ms: 5, grid_radius: 0, years_per_tick: 0 };
    assert_eq!(validate_config(&two_wrong), Err(ConfigError::InvalidGridRadius));
}

#[test]
fn config_errors_describe_themselves() {
    assert_eq!(
        ConfigError::InvalidTickDuration.message(),
        "tick duration must be at least one millisecond"
    );
    assert_eq!(ConfigError::InvalidGridRadius.message(), "grid radius must be between 1 and 512");
    assert_eq!(
        ConfigError::InvalidTimescale.message(),
        "years per tick must be between 1 and 1,000,000,000,000"
    );
}

#[test]
fn a_tick_advances_time_and_publishes_a_snapshot() {
    let mut world = SimulationWorld::new(config(6)).unwrap();
    assert!(world.can_tick());
    world.tick();
    assert_eq!(world.current_tick(), 1);
    assert_eq!(world.cosmic().cosmic_age_years, 1_000_000);
    let snapshot = world.observer();
    assert_eq!(snapshot.tick, 1);
    assert_eq!(snapshot.cosmic_age_years, 1_000_000);
    assert_eq!(snapshot.epoch, "Midday");
    assert_eq!(snapshot.season, "Flower Bloom");
    assert_eq!(snapshot.geologic_stage, "Primordial Crust");
    assert_eq!(snapshot.entities.len(), 4);
    assert_eq!(snapshot.entities[0].name, "Calix");
    assert_eq!(snapshot.grid.hexes.len(), world.grid().land_count());
    assert_eq!(snapshot.events.len(), world.event_log().len());
    assert_eq!(snapshot.all_metrics.0.len(), 5);
    for (shown, held) in snapshot.all_metrics.0.iter().zip(world.metrics().0.iter()) {
        assert_eq!(shown.population, held.population);
        assert_eq!(shown.economy, held.economy);
        assert_eq!(shown.unlocked_techs, held.unlocked_techs);
    }
    assert_eq!(snapshot.science_victory.total_population, {
        world.metrics().0.iter().map(|m| m.population).sum::<u64>()
    });
}

#[test]
fn set_timescale_changes_only_the_pace() {
    let mut world = SimulationWorld::new(config(4)).unwrap();
    world.tick();
    let age = world.cosmic().cosmic_age_years;
    let economy = world.metrics().get(Nation::Tera).economy;
    world.set_timescale(250_000);
    assert_eq!(world.cosmic().timescale_years_per_tick, 250_000);
    assert_eq!(world.cosmic().cosmic_age_years, age);
    assert_eq!(world.metrics().get(Nation::Tera).economy, economy);
    assert_eq!(world.current_tick(), 1);
    world.tick();
    assert_eq!(world.cosmic().cosmic_age_years, age + 250_000);
    world.set_timescale(0);
    assert_eq!(world.cosmic().timescale_years_per_tick, 1);
    world.set_timescale(u64::MAX);
    assert_eq!(world.cosmic().timescale_years_per_tick, 1_000_000_000_000);
}

#[test]
fn a_thousand_ticks_keep_every_invariant() {
    let mut world = SimulationWorld::new(config(12)).unwrap();
    let land = world.grid().land_count();
    let capacity = world.event_log().capacity();
    let mut destroyed = [false; 5];
    let mut last_rank = 0;
    let mut last_progress = [0i64; 5];
    for tick in 1..=1000u64 {
        world.tick();
        assert_eq!(world.current_tick(), tick);
        for (i, nation) in NATIONS.iter().enumerate() {
            let m = world.metrics().get(*nation);
            assert_eq!(m.population, m.youth + m.adult + m.elder);
            if destroyed[i] {
                assert!(m.is_destroyed, "a destroyed nation came back");
            }
            if m.is_destroyed {
                destroyed[i] = true;
                assert_eq!(m.population, 0);
                assert_eq!(world.civ_state().get(*nation).cities, 0);
            }
            for value in [m.economy, m.science, m.culture, m.diplomacy, m.religion, m.military] {
                assert!((0..=250_000_000).contains(&value));
            }
        }
        assert_eq!(world.grid().land_count(), land);
        assert_eq!(owned_by_all(world.grid()), land);
        assert!(world.event_log().len() <= capacity);
        let climate = world.climate();
        assert!(climate.carbon_history.len() <= 512);
        assert!(climate.climate_risk_history.len() <= 512);
        assert!(climate.biodiversity_history.len() <= 512);
        assert!(world.war_fatigue().history.len() <= 512);
        assert!(world.richness().history.len() <= 512);
        assert!(world.ledger().population_history.len() <= 512);
        assert!(world.ledger().gdp_history.len() <= 512);

        let race = world.science_victory();
        let rank = match race.phase() {
            RacePhase::Moon => 0,
            RacePhase::Mars => 1,
            RacePhase::Jovian => 2,
            RacePhase::Interstellar => 3,
            RacePhase::Finished => 4,
        };
        assert!(rank == last_rank || rank == last_rank + 1, "the race skipped or went back");
        last_rank = rank;
        for (i, progress) in race.progress.iter().enumerate() {
            assert!(*progress >= last_progress[i]);
            assert!(*progress <= race.goal);
            last_progress[i] = *progress;
        }
        assert!(race.mars_progress <= race.mars_goal);
        assert!(race.jovian_progress <= race.jovian_goal);
        assert!(race.interstellar_progress <= race.interstellar_goal);
        assert!(world.observer().science_victory.leader_progress <= 100_000_000);
        if race.finished {
            assert!(race.winner.is_some());
            assert_eq!(race.space_stage, SpaceStage::Interstellar);
        }
        if rank > 0 {
            assert!(race.winner.is_some());
        }
    }
    assert_eq!(world.observer().tick, 1000);
    assert!(world.event_log().len() > 0);
}

#[test]
fn two_worlds_from_one_configuration_agree() {
    let mut a = SimulationWorld::new(config(8)).unwrap();
    let mut b = SimulationWorld::new(config(8)).unwrap();
    for _ in 0..120 {
        a.tick();
        b.tick();
    }
    for nation in NATIONS {
        let ma = a.metrics().get(nation);
        let mb = b.metrics().get(nation);
        assert_eq!(ma.population, mb.population);
        assert_eq!(ma.economy, mb.economy);
        assert_eq!(ma.military, mb.military);
        assert_eq!(ma.territory, mb.territory);
        assert_eq!(ma.era, mb.era);
    }
    for (ea, eb) in a.entities().iter().zip(b.entities().iter()) {
        assert_eq!(ea.behavior.state, eb.behavior.state);
        assert_eq!(ea.inventory.currency, eb.inventory.currency);
    }
    assert_eq!(a.science_victory().progress, b.science_victory().progress);
    assert_eq!(a.event_log().len(), b.event_log().len());
}
