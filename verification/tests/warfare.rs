use tera_sim::components::Combatants;
use tera_sim::events::WorldEventLog;
use tera_sim::grid::AxialCoord;
use tera_sim::nation::Nation;
use tera_sim::nuclear::mark_nuclear_blast;
use tera_sim::nuclear::nuclear_decay_system;
use tera_sim::nuclear::NuclearBlasts;
use tera_sim::resources::AllNationCivState;
use tera_sim::resources::AllNationMetrics;
use tera_sim::resources::NationMetrics;
use tera_sim::resources::ScienceVictory;
use tera_sim::resources::WorldTime;
use tera_sim::seeding::seed_grid;
use tera_sim::systems::warfare::apply_battle;
use tera_sim::systems::warfare::apply_defeat;
use tera_sim::systems::warfare::apply_victory;
use tera_sim::systems::warfare::apply_war_science_penalty;
use tera_sim::systems::warfare::can_fight;
use tera_sim::systems::warfare::combat_cleanup_system;
use tera_sim::systems::warfare::effective_military;
use tera_sim::systems::warfare::mark_front;
use tera_sim::systems::warfare::owned_slots;
use tera_sim::systems::warfare::resolve_battle;
use tera_sim::systems::warfare::war_probability;
use tera_sim::systems::warfare::warfare_system;
use tera_sim::systems::warfare::BattleDraws;
use tera_sim::technology::WeaponTier;
use tera_sim::world::WorldMetadata;

fn draws() -> BattleDraws {
    BattleDraws {
        roll_a: 5,
        roll_b: 3,
        intensity: 6_000_000_000,
        escalate: true,
        strikes: 10,
        mutual: true,
    }
}

#[test]
fn war_needs_two_living_armed_nations() {
    let a = NationMetrics::default();
    let mut b = NationMetrics::default();
    assert!(can_fight(&a, &b));
    b.military = 1_000_000;
    assert!(!can_fight(&a, &b));
    b.military = 1_000_001;
    assert!(can_fight(&a, &b));
    b.destroy();
    assert!(!can_fight(&a, &b));
    assert!(!can_fight(&b, &a));
}

#[test]
fn peace_lowers_the_chance_of_war() {
    let a = NationMetrics::default();
    let b = NationMetrics::default();
    // a fifth less a thousandth of (60 + 30 + 25) units
    assert_eq!(war_probability(&a, &b), 85_000);
    let mut saint = NationMetrics::default();
    saint.diplomacy = 200_000_000;
    saint.culture = 200_000_000;
    assert_eq!(war_probability(&saint, &saint), 10_000);
    let mut brute = NationMetrics::default();
    brute.diplomacy = 0;
    brute.culture = 0;
    brute.religion = 0;
    assert_eq!(war_probability(&brute, &brute), 200_000);
}

#[test]
fn science_and_weapons_multiply_strength() {
    let mut m = NationMetrics::default();
    assert_eq!(effective_military(&m), 18_000_000);
    m.weapon_tier = WeaponTier::NuclearArsenal;
    assert_eq!(effective_military(&m), 43_200_000);
    m.science = 100_000_000;
    assert_eq!(effective_military(&m), 72_000_000);
}

#[test]
fn a_conventional_battle_counts_its_dead() {
    let a = NationMetrics::default();
    let b = NationMetrics::default();
    let outcome = resolve_battle(&a, &b, &draws());
    assert!(outcome.a_wins);
    assert!(!outcome.nuclear, "no side holds the top weapon tier");
    assert_eq!(outcome.casualties, 240_000);
    assert_eq!(outcome.winner_casualties, 84_000);
    assert_eq!(outcome.loser_casualties, 156_000);
}

#[test]
fn the_higher_roll_wins() {
    let a = NationMetrics::default();
    let b = NationMetrics::default();
    let mut d = draws();
    d.roll_a = 3;
    d.roll_b = 3;
    assert!(!resolve_battle(&a, &b, &d).a_wins);
    d.roll_b = 4;
    assert!(!resolve_battle(&a, &b, &d).a_wins);
    d.roll_a = 5;
    assert!(resolve_battle(&a, &b, &d).a_wins);
}

#[test]
fn casualties_stay_between_the_limits() {
    let mut weak = NationMetrics::default();
    weak.military = 100_000;
    let small = resolve_battle(&weak, &weak, &draws());
    assert_eq!(small.casualties, 15_000);
    assert_eq!(small.winner_casualties, 5_250);
    assert_eq!(small.loser_casualties, 9_750);

    let mut armed = NationMetrics::default();
    armed.weapon_tier = WeaponTier::NuclearArsenal;
    let mut d = draws();
    d.strikes = 1000;
    d.mutual = false;
    let big = resolve_battle(&armed, &NationMetrics::default(), &d);
    assert!(big.nuclear);
    assert_eq!(big.casualties, 2_000_000);
    assert_eq!(big.winner_casualties, 700_000);
    assert_eq!(big.loser_casualties, 1_300_000);

    let mut strong = NationMetrics::default();
    strong.military = 250_000_000;
    let mut fierce = draws();
    fierce.intensity = 11_999_999_999;
    let outcome = resolve_battle(&strong, &strong, &fierce);
    assert_eq!(outcome.casualties, 2_000_000);
}

#[test]
fn only_the_top_tier_can_go_nuclear() {
    let tiers = [
        WeaponTier::KnappedStone,
        WeaponTier::PolishedStone,
        WeaponTier::Bow,
        WeaponTier::Crossbow,
        WeaponTier::Gunpowder,
        WeaponTier::SteelArmor,
        WeaponTier::ModernArmor,
        WeaponTier::NuclearArsenal,
    ];
    for ta in tiers {
        for tb in tiers {
            let mut a = NationMetrics::default();
            let mut b = NationMetrics::default();
            a.weapon_tier = ta;
            b.weapon_tier = tb;
            let outcome = resolve_battle(&a, &b, &draws());
            let armed = ta == WeaponTier::NuclearArsenal || tb == WeaponTier::NuclearArsenal;
            assert_eq!(outcome.nuclear, armed);
            let mut calm = draws();
            calm.escalate = false;
            assert!(!resolve_battle(&a, &b, &calm).nuclear);
        }
    }
}

#[test]
fn a_nuclear_exchange_multiplies_the_dead() {
    let mut a = NationMetrics::default();
    let mut b = NationMetrics::default();
    a.military = 500_000;
    b.military = 500_000;
    a.weapon_tier = WeaponTier::NuclearArsenal;
    let mut d = draws();
    d.strikes = 4;
    // 6,000 conventional, times five per two warheads
    assert_eq!(resolve_battle(&a, &b, &d).casualties, 60_000);
    b.weapon_tier = WeaponTier::NuclearArsenal;
    // both strike: five per warhead
    assert_eq!(resolve_battle(&a, &b, &d).casualties, 120_000);
    d.mutual = false;
    assert_eq!(resolve_battle(&a, &b, &d).casualties, 60_000);
}

#[test]
fn war_wounds_science_economy_and_culture() {
    let mut m = NationMetrics::default();
    m.research_stock = 10_000_000;
    apply_war_science_penalty(&mut m, 84_000);
    assert_eq!(m.science, 19_328_000);
    assert_eq!(m.economy, 49_146_000);
    assert_eq!(m.culture, 29_832_000);
    assert_eq!(m.research_stock, 9_818_000);
    assert_eq!(m.population, 3_000_000);

    let mut ghost = NationMetrics::default();
    ghost.set_population(0);
    apply_war_science_penalty(&mut ghost, 84_000);
    assert_eq!(ghost.science, 20_000_000);

    let mut tiny = NationMetrics::default();
    tiny.set_population(1000);
    apply_war_science_penalty(&mut tiny, 2_000_000);
    // the ratio is capped at three quarters
    assert_eq!(tiny.science, 20_000_000 - (15_000_000 * 6 / 10 + 750_000 * 12));
    assert_eq!(tiny.culture, 30_000_000 - 750_000 * 6);
}

#[test]
fn the_winner_takes_what_the_loser_gives() {
    let mut winner = NationMetrics::default();
    let mut loser = NationMetrics::default();
    apply_victory(&mut winner, 84_000);
    let destroyed = apply_defeat(&mut loser, 156_000);
    assert!(!destroyed);
    assert_eq!(winner.territory - 33_330_000, 500_000);
    assert_eq!(33_330_000 - loser.territory, 500_000);
    assert_eq!(winner.military, 18_000_000);
    assert_eq!(loser.military, 18_000_000);
    assert_eq!(winner.population, 2_916_000);
    assert_eq!(winner.adult, 1_716_000);
    assert_eq!(winner.youth, 900_000);
    assert_eq!(loser.population, 2_844_000);
    assert_eq!(winner.diplomacy, 30_400_000);
    assert_eq!(winner.culture, 30_432_000);
    assert_eq!(winner.science, 19_328_000);
    assert_eq!(loser.diplomacy, 30_000_000);
}

#[test]
fn a_loser_without_land_is_destroyed() {
    let mut loser = NationMetrics::default();
    loser.territory = 500_000;
    assert!(apply_defeat(&mut loser, 20_000));
    assert!(loser.is_destroyed);
    assert_eq!(loser.population, 0);
    assert_eq!(loser.youth + loser.adult + loser.elder, 0);
    assert_eq!(loser.territory, 0);

    let mut spared = NationMetrics::default();
    spared.territory = 500_001;
    assert!(!apply_defeat(&mut spared, 20_000));
    assert_eq!(spared.territory, 1);
}

#[test]
fn a_destroyed_loser_is_razed() {
    let mut metrics = AllNationMetrics::default();
    let mut civ = AllNationCivState::default();
    metrics.0[1].territory = 400_000;
    let a = NationMetrics::default();
    let outcome = resolve_battle(&a, &a, &draws());
    apply_battle(&mut metrics, &mut civ, Nation::Aqua, Nation::Sora, &outcome);
    assert!(metrics.get(Nation::Sora).is_destroyed);
    assert_eq!(metrics.get(Nation::Sora).population, 0);
    assert_eq!(civ.get(Nation::Sora).cities, 0);
    assert_eq!(civ.get(Nation::Sora).happiness, 0);
    assert_eq!(civ.get(Nation::Sora).production, 0);
    assert_eq!(metrics.get(Nation::Aqua).territory, 33_830_000);
    assert_eq!(civ.get(Nation::Aqua).cities, 2);
    // bystanders are untouched
    assert_eq!(metrics.get(Nation::Tera).population, 3_000_000);
    assert_eq!(metrics.get(Nation::Tera).territory, 33_330_000);
}

#[test]
fn the_front_is_contested_for_five_ticks() {
    let mut grid = seed_grid(6);
    let land = grid.land_count();
    mark_front(&mut grid, Nation::Tera, Nation::Sora);
    let marked: Vec<usize> = (0..grid.tiles.len())
        .filter(|i| grid.tiles[*i].map_or(false, |t| t.in_combat.is_some()))
        .collect();
    assert!(!marked.is_empty());
    for slot in &marked {
        let tile = grid.tiles[*slot].unwrap();
        assert_eq!(tile.hex.owner, Nation::Tera);
        assert_eq!(tile.in_combat.unwrap().ticks_remaining, 5);
        let Combatants { nation_a, nation_b } = tile.combatants.unwrap();
        assert_eq!((nation_a, nation_b), (Nation::Tera, Nation::Sora));
        let around = grid.coord(*slot).neighbors();
        assert!(around.iter().any(|c| grid.owner(*c) == Some(Nation::Sora)));
    }
    assert_eq!(grid.land_count(), land);
    for round in 1..=5u32 {
        combat_cleanup_system(&mut grid);
        for slot in &marked {
            let tile = grid.tiles[*slot].unwrap();
            if round < 5 {
                assert_eq!(tile.in_combat.unwrap().ticks_remaining, 5 - round);
                assert!(tile.combatants.is_some());
            } else {
                assert!(tile.in_combat.is_none());
                assert!(tile.combatants.is_none());
            }
        }
    }
}

#[test]
fn owned_slots_lists_a_nations_hexes() {
    let grid = seed_grid(5);
    let mut total = 0;
    for nation in [Nation::Tera, Nation::Sora, Nation::Aqua, Nation::Solar, Nation::Luna] {
        let slots = owned_slots(&grid, nation);
        assert_eq!(slots.len(), grid.owned_count(nation));
        for slot in &slots {
            assert_eq!(grid.tiles[*slot].unwrap().hex.owner, nation);
        }
        total += slots.len();
    }
    assert_eq!(total, grid.land_count());
}

#[test]
fn a_blast_marks_every_hex_in_reach() {
    let mut blasts = NuclearBlasts::new(6);
    let center = AxialCoord::new(1, -2);
    let hit = mark_nuclear_blast(&mut blasts, center, 2, 8);
    // a hex disk of radius two holds nineteen hexes
    assert_eq!(hit, 19);
    assert_eq!(blasts.total(), 19 * 8);
    assert_eq!(blasts.timer(center), Some(8));
    assert_eq!(blasts.timer(AxialCoord::new(3, -2)), Some(8));
    assert_eq!(blasts.timer(AxialCoord::new(4, -2)), None);
    assert_eq!(blasts.marked().len(), 19);
    for c in blasts.marked() {
        assert!(center.distance(&c) <= 2);
    }
    // at the rim only the part on the map is hit
    let mut rim = NuclearBlasts::new(3);
    assert_eq!(mark_nuclear_blast(&mut rim, AxialCoord::new(3, 3), 1, 4), 3);
    assert_eq!(mark_nuclear_blast(&mut rim, AxialCoord::new(40, 40), 2, 4), 0);
}

#[test]
fn blasts_decay_and_disappear() {
    let mut blasts = NuclearBlasts::new(4);
    mark_nuclear_blast(&mut blasts, AxialCoord::new(0, 0), 0, 2);
    assert_eq!(blasts.timer(AxialCoord::new(0, 0)), Some(2));
    nuclear_decay_system(&mut blasts);
    assert_eq!(blasts.timer(AxialCoord::new(0, 0)), Some(1));
    nuclear_decay_system(&mut blasts);
    assert_eq!(blasts.timer(AxialCoord::new(0, 0)), Some(0));
    assert_eq!(blasts.marked().len(), 1);
    nuclear_decay_system(&mut blasts);
    assert_eq!(blasts.timer(AxialCoord::new(0, 0)), None);
    assert!(blasts.marked().is_empty());
}

#[test]
fn no_war_after_the_race_is_over() {
    let mut metrics = AllNationMetrics::default();
    let mut civ = AllNationCivState::default();
    let mut blasts = NuclearBlasts::new(5);
    let mut log = WorldEventLog::new(16);
    let mut grid = seed_grid(5);
    let meta = WorldMetadata::standard();
    let mut race = ScienceVictory::default();
    race.moon_done = true;
    race.mars_done = true;
    race.jovian_done = true;
    race.winner = Some(Nation::Tera);
    race.space_stage = tera_sim::resources::SpaceStage::Interstellar;
    race.finished = true;
    for tick in 0..200 {
        warfare_system(
            &mut metrics,
            &mut civ,
            &mut blasts,
            &WorldTime { tick },
            &mut log,
            &meta,
            &race,
            &mut grid,
        );
    }
    assert_eq!(log.len(), 0);
    assert_eq!(metrics.get(Nation::Tera).military, 20_000_000);
    assert_eq!(metrics.get(Nation::Tera).population, 3_000_000);
    assert_eq!(blasts.total(), 0);
}

#[test]
fn wars_leave_the_world_consistent() {
    let mut metrics = AllNationMetrics::default();
    let mut civ = AllNationCivState::default();
    let mut blasts = NuclearBlasts::new(6);
    let mut log = WorldEventLog::new(64);
    let mut grid = seed_grid(6);
    let land = grid.land_count();
    let meta = WorldMetadata::standard();
    let race = ScienceVictory::default();
    for m in metrics.0.iter_mut() {
        m.weapon_tier = WeaponTier::NuclearArsenal;
        m.military = 200_000_000;
        m.diplomacy = 0;
        m.culture = 0;
        m.religion = 0;
        m.territory = 2_000_000;
    }
    let mut wars = 0;
    for tick in 0..60 {
        for m in metrics.0.iter_mut() {
            if !m.is_destroyed {
                m.military = 200_000_000;
            }
        }
        warfare_system(
            &mut metrics,
            &mut civ,
            &mut blasts,
            &WorldTime { tick },
            &mut log,
            &meta,
            &race,
            &mut grid,
        );
        for (i, m) in metrics.0.iter().enumerate() {
            assert_eq!(m.population, m.youth + m.adult + m.elder);
            if m.is_destroyed {
                assert_eq!(m.population, 0);
                assert_eq!(civ.0[i].cities, 0);
            }
        }
        assert_eq!(grid.land_count(), land);
        assert!(log.len() <= 64);
        wars = log.len().max(wars);
    }
    assert!(wars > 0, "with a fifth chance per pair and tick, sixty ticks bring war");
    assert!(metrics.0.iter().any(|m| m.is_destroyed));
    // nuclear powers at war leave fallout on the map
    assert!(blasts.total() > 0);
    for c in blasts.marked() {
        assert!(c.q.abs() <= 6 && c.r.abs() <= 6);
    }
}
