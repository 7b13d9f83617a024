use tera_sim::blocs::WorldBlocs;
use tera_sim::components::BehaviorState;
use tera_sim::components::ItemKind;
use tera_sim::events::WorldEventKind;
use tera_sim::events::WorldEventLog;
use tera_sim::grid::AxialCoord;
use tera_sim::nation::Nation;
use tera_sim::nuclear::mark_nuclear_blast;
use tera_sim::nuclear::NuclearBlasts;
use tera_sim::resources::AllNationCivState;
use tera_sim::resources::AllNationMetrics;
use tera_sim::resources::ClimateState;
use tera_sim::resources::NationMetrics;
use tera_sim::resources::ScienceVictory;
use tera_sim::resources::WarFatigue;
use tera_sim::resources::WorldTime;
use tera_sim::seeding::seed_entities;
use tera_sim::seeding::seed_grid;
use tera_sim::systems::ai::ai_state_transition_system;
use tera_sim::systems::blocs::membership_chances;
use tera_sim::systems::economy::apply_budget;
use tera_sim::systems::economy::apply_limits;
use tera_sim::systems::economy::economy_system;
use tera_sim::systems::warfare::escalation_chance;
use tera_sim::systems::warfare::owned_slots;
use tera_sim::systems::warfare::warfare_system;
use tera_sim::technology::WeaponTier;
use tera_sim::world::WorldMetadata;

#[test]
fn founders_carry_their_goods() {
    let founders = seed_entities(&WorldMetadata::standard());
    match &founders[0].inventory.items[0].item {
        ItemKind::Resource(name) => assert_eq!(name, "약초"),
        _ => panic!("Calix carries a resource"),
    }
    match &founders[1].inventory.items[0].item {
        ItemKind::Equipment(name) => assert_eq!(name, "단검"),
        _ => panic!("Rena carries a weapon"),
    }
    assert_eq!(founders[1].inventory.items[0].quantity, 1);
    match &founders[3].inventory.items[0].item {
        ItemKind::Artifact(name) => assert_eq!(name, "태양 성물함"),
        _ => panic!("Lys carries an artifact"),
    }
}

#[test]
fn bloc_chances_follow_war_and_climate() {
    let calm = WarFatigue::default();
    let mild = ClimateState::default();
    // half, plus a fifth for peace, plus 0.06 x 0.1 for climate stress
    assert_eq!(membership_chances(&calm, &mild), (706_000, 306_000));
    let mut weary = WarFatigue::default();
    weary.intensity = 100_000_000;
    let mut harsh = ClimateState::default();
    harsh.climate_risk = 140_000_000;
    assert_eq!(membership_chances(&weary, &harsh), (600_000, 800_000));
    assert_eq!(escalation_chance(true), 9);
    assert_eq!(escalation_chance(false), 6);
}

#[test]
fn inhabitants_do_change_their_minds() {
    let meta = WorldMetadata::standard();
    let race = ScienceVictory::default();
    let mut founders = seed_entities(&meta);
    let mut changes = 0;
    let mut seen = std::collections::BTreeSet::new();
    for tick in 0..300 {
        let before: Vec<BehaviorState> = founders.iter().map(|e| e.behavior.state).collect();
        ai_state_transition_system(&mut founders, &meta, &WorldTime { tick }, &race);
        for (e, old) in founders.iter().zip(before.iter()) {
            if e.behavior.state != *old {
                changes += 1;
            }
            seen.insert(format!("{:?}", e.behavior.state));
        }
    }
    // staying put has a weight of a fifth to a third: most draws move on
    assert!(changes > 300);
    assert_eq!(seen.len(), 6, "every behaviour is reached");
}

#[test]
fn a_nation_without_dealers_follows_its_budget() {
    let meta = WorldMetadata::standard();
    let mut founders = seed_entities(&meta);
    // Calix and Lys of Tera idle, Rena of Sora explores, Aria of Aqua gathers
    let mut metrics = AllNationMetrics::default();
    let blocs = WorldBlocs::default();
    economy_system(&mut founders, &mut metrics, &blocs, &meta, &WorldTime { tick: 3 });
    let mut expected = NationMetrics::default();
    apply_budget(&mut expected, 0, 0);
    apply_limits(&mut expected);
    for nation in [Nation::Tera, Nation::Sora, Nation::Solar, Nation::Luna] {
        let m = metrics.get(nation);
        assert_eq!(m.economy, expected.economy);
        assert_eq!(m.science, expected.science);
        assert_eq!(m.military, expected.military);
    }
    // a find of three to five units adds three hundredths of itself
    let aqua = metrics.get(Nation::Aqua).economy - expected.economy;
    assert!((3_552_500 * 3 / 100..=5_552_500 * 3 / 100).contains(&aqua));
    assert_eq!(metrics.get(Nation::Aqua).science, expected.science);
    assert!(founders[2].inventory.currency > 73_000_000);
    assert!(founders[2].inventory.currency < 76_000_000);
}

#[test]
fn unarmed_nations_stay_at_peace() {
    let mut metrics = AllNationMetrics::default();
    for m in metrics.0.iter_mut() {
        m.military = 1_000_000;
    }
    metrics.0[0].military = 200_000_000;
    let mut civ = AllNationCivState::default();
    let mut blasts = NuclearBlasts::new(4);
    let mut log = WorldEventLog::new(8);
    let mut grid = seed_grid(4);
    let meta = WorldMetadata::standard();
    for tick in 0..300 {
        warfare_system(
            &mut metrics,
            &mut civ,
            &mut blasts,
            &WorldTime { tick },
            &mut log,
            &meta,
            &ScienceVictory::default(),
            &mut grid,
        );
    }
    assert_eq!(log.len(), 0);
    assert_eq!(metrics.0[0].military, 200_000_000);
    assert_eq!(metrics.0[1].territory, 33_330_000);
}

#[test]
fn nuclear_strikes_fall_on_hexes_picked_at_random() {
    let meta = WorldMetadata::standard();
    let race = ScienceVictory::default();
    let mut differs = 0;
    let mut strikes = 0;
    for tick in 0..400 {
        let mut metrics = AllNationMetrics::default();
        for m in metrics.0.iter_mut() {
            m.military = 0;
        }
        // one pair that can fight, the loser certain: Sora has no strength to roll with
        metrics.0[0].military = 200_000_000;
        metrics.0[0].weapon_tier = WeaponTier::NuclearArsenal;
        metrics.0[1].military = 1_000_001;
        metrics.0[1].science = 0;
        metrics.0[1].diplomacy = 0;
        metrics.0[0].diplomacy = 0;
        let mut civ = AllNationCivState::default();
        let mut blasts = NuclearBlasts::new(12);
        let mut log = WorldEventLog::new(8);
        let mut grid = seed_grid(12);
        warfare_system(
            &mut metrics, &mut civ, &mut blasts, &WorldTime { tick }, &mut log, &meta, &race, &mut grid,
        );
        let nuclear = log.snapshot().iter().any(|e| {
            matches!(e.kind, WorldEventKind::Warfare { nuclear: true, loser: Nation::Sora, .. })
        });
        if !nuclear {
            assert_eq!(blasts.total(), 0);
            continue;
        }
        strikes += 1;
        let owned = owned_slots(&grid, Nation::Sora);
        assert!(owned.len() > 21);
        // every marker lies within two hexes of a hex of the loser
        for c in blasts.marked() {
            assert!(owned.iter().any(|slot| grid.coord(*slot).distance(&c) <= 2));
            assert_eq!(blasts.timer(c), Some(8));
        }
        // the first hex is always struck
        assert_eq!(blasts.timer(grid.coord(owned[0])), Some(8));
        // what the first twenty hexes in table order would have brought
        let mut plain = NuclearBlasts::new(12);
        for slot in owned.iter().take(20) {
            mark_nuclear_blast(&mut plain, grid.coord(*slot), 2, 8);
        }
        let struck: Vec<AxialCoord> = blasts.marked();
        if struck != plain.marked() {
            differs += 1;
        }
    }
    assert!(strikes > 5, "a nuclear power at war escalates six times in ten");
    assert_eq!(differs, strikes, "the targets are shuffled");
}
