use tera_sim::components::Biome;
use tera_sim::grid::default_continent_centers;
use tera_sim::grid::pentagon_centers;
use tera_sim::grid::table_coord;
use tera_sim::grid::table_len;
use tera_sim::grid::table_slot;
use tera_sim::grid::AxialCoord;
use tera_sim::nation::ordered_pair;
use tera_sim::nation::Nation;
use tera_sim::resources::AllNationMetrics;
use tera_sim::resources::ClimateState;
use tera_sim::resources::WorldRichness;
use tera_sim::seeding::sector;
use tera_sim::seeding::seed_entities;
use tera_sim::seeding::seed_grid;
use tera_sim::systems::flood::flood_system;
use tera_sim::systems::richness::territorial_richness_system;
use tera_sim::systems::territory::territory_system;
use tera_sim::world::WorldMetadata;

const NATIONS: [Nation; 5] = [Nation::Tera, Nation::Sora, Nation::Aqua, Nation::Solar, Nation::Luna];

#[test]
fn a_hex_has_six_neighbours() {
    let c = AxialCoord::new(2, -3);
    let around = c.neighbors();
    assert_eq!(
        around,
        [
            AxialCoord::new(3, -3),
            AxialCoord::new(1, -3),
            AxialCoord::new(2, -2),
            AxialCoord::new(2, -4),
            AxialCoord::new(3, -4),
            AxialCoord::new(1, -2),
        ]
    );
    for n in around {
        assert_eq!(c.distance(&n), 1);
    }
}

#[test]
fn distance_counts_hex_steps() {
    let origin = AxialCoord::new(0, 0);
    assert_eq!(origin.distance(&origin), 0);
    assert_eq!(origin.distance(&AxialCoord::new(3, 0)), 3);
    assert_eq!(origin.distance(&AxialCoord::new(3, -3)), 3);
    assert_eq!(origin.distance(&AxialCoord::new(2, 2)), 4);
    assert_eq!(AxialCoord::new(-4, 1).distance(&AxialCoord::new(5, -2)), 9);
    let far = AxialCoord::new(i32::MAX, i32::MIN);
    let back = AxialCoord::new(i32::MIN, i32::MAX);
    assert_eq!(far.distance(&back), 4_294_967_295);
}

#[test]
fn capitals_sit_on_a_pentagon() {
    assert_eq!(
        pentagon_centers(12),
        [
            (Nation::Tera, AxialCoord::new(0, -10)),
            (Nation::Sora, AxialCoord::new(10, -5)),
            (Nation::Aqua, AxialCoord::new(10, 5)),
            (Nation::Solar, AxialCoord::new(0, 10)),
            (Nation::Luna, AxialCoord::new(-10, 0)),
        ]
    );
    assert_eq!(
        pentagon_centers(9),
        [
            (Nation::Tera, AxialCoord::new(0, -7)),
            (Nation::Sora, AxialCoord::new(7, -3)),
            (Nation::Aqua, AxialCoord::new(7, 3)),
            (Nation::Solar, AxialCoord::new(0, 7)),
            (Nation::Luna, AxialCoord::new(-7, 0)),
        ]
    );
}

#[test]
fn continent_centers_follow_the_radius() {
    assert_eq!(
        default_continent_centers(12),
        [
            (Nation::Tera, AxialCoord::new(-9, 4)),
            (Nation::Sora, AxialCoord::new(9, -3)),
            (Nation::Aqua, AxialCoord::new(0, -9)),
        ]
    );
    assert_eq!(
        default_continent_centers(10),
        [
            (Nation::Tera, AxialCoord::new(-7, 3)),
            (Nation::Sora, AxialCoord::new(7, -2)),
            (Nation::Aqua, AxialCoord::new(0, -7)),
        ]
    );
}

#[test]
fn slots_and_coordinates_correspond() {
    let radius = 4;
    assert_eq!(table_len(radius), 81);
    for slot in 0..81 {
        let c = table_coord(radius, slot);
        assert!(c.q.abs() <= radius && c.r.abs() <= radius);
        assert_eq!(table_slot(radius, c), Some(slot));
    }
    assert_eq!(table_coord(radius, 0), AxialCoord::new(-4, -4));
    assert_eq!(table_coord(radius, 80), AxialCoord::new(4, 4));
    assert_eq!(table_slot(radius, AxialCoord::new(0, 0)), Some(40));
    assert_eq!(table_slot(radius, AxialCoord::new(5, 0)), None);
    assert_eq!(table_slot(radius, AxialCoord::new(0, -5)), None);
}

#[test]
fn pairs_are_ordered_by_nation() {
    assert_eq!(ordered_pair(Nation::Sora, Nation::Tera), (Nation::Tera, Nation::Sora));
    assert_eq!(ordered_pair(Nation::Tera, Nation::Sora), (Nation::Tera, Nation::Sora));
    assert_eq!(ordered_pair(Nation::Luna, Nation::Aqua), (Nation::Aqua, Nation::Luna));
    assert_eq!(ordered_pair(Nation::Luna, Nation::Luna), (Nation::Luna, Nation::Luna));
    for (i, nation) in NATIONS.iter().enumerate() {
        assert_eq!(nation.index(), i);
        assert_eq!(Nation::from_index(i), *nation);
    }
}

#[test]
fn the_map_is_cut_into_five_wedges() {
    assert_eq!(sector(AxialCoord::new(0, 0)), Nation::Tera);
    assert_eq!(sector(AxialCoord::new(5, 0)), Nation::Tera);
    assert_eq!(sector(AxialCoord::new(0, 5)), Nation::Sora);
    assert_eq!(sector(AxialCoord::new(-5, 5)), Nation::Aqua);
    // straight opposite the first wedge lies the border between the third and fourth
    assert_eq!(sector(AxialCoord::new(-5, 0)), Nation::Solar);
    assert_eq!(sector(AxialCoord::new(-3, -2)), Nation::Solar);
    assert_eq!(sector(AxialCoord::new(2, -5)), Nation::Luna);
    assert_eq!(sector(AxialCoord::new(5, -1)), Nation::Tera);
}

#[test]
fn a_new_map_is_a_disk_of_land() {
    for radius in [1, 2, 3, 7, 12] {
        let grid = seed_grid(radius);
        let reach = (radius - 2).max(1) as i64;
        let origin = AxialCoord::new(0, 0);
        let mut land = 0;
        for slot in 0..grid.tiles.len() {
            let c = grid.coord(slot);
            let inside = origin.distance(&c) <= reach;
            assert_eq!(grid.tiles[slot].is_some(), inside);
            if let Some(tile) = grid.tiles[slot] {
                land += 1;
                assert_eq!(tile.hex.owner, sector(c));
                assert!((100_000..=1_400_000).contains(&tile.hex.elevation));
                let expected = if tile.hex.elevation < 350_000 {
                    Biome::Market
                } else if tile.hex.elevation < 600_000 {
                    Biome::Plains
                } else if tile.hex.elevation < 900_000 {
                    Biome::Forest
                } else {
                    Biome::Village
                };
                assert_eq!(tile.hex.biome, expected);
                assert!(tile.in_combat.is_none());
                assert_eq!(grid.owner(c), Some(tile.hex.owner));
            }
        }
        assert_eq!(land as i64, 1 + 3 * reach * (reach + 1));
        assert_eq!(grid.land_count(), land);
        assert_eq!(grid.owner(AxialCoord::new(radius, radius)), None);
        assert_eq!(grid.owner(AxialCoord::new(radius + 1, 0)), None);
    }
    let grid = seed_grid(12);
    let centre = grid.tile(AxialCoord::new(0, 0)).unwrap();
    assert_eq!(centre.hex.elevation, 590_500);
    assert_eq!(centre.hex.biome, Biome::Plains);
}

#[test]
fn every_hex_goes_to_the_strongest_pull() {
    let mut grid = seed_grid(12);
    let land = grid.land_count();
    let metrics = AllNationMetrics::default();
    territory_system(&metrics, &mut grid);
    assert_eq!(grid.land_count(), land);
    let total: usize = NATIONS.iter().map(|n| grid.owned_count(*n)).sum();
    assert_eq!(total, land);
    // every capital on land belongs to its nation; the third lies off the coast
    for (nation, capital) in pentagon_centers(12) {
        if nation == Nation::Aqua {
            assert_eq!(grid.owner(capital), None);
        } else {
            assert_eq!(grid.owner(capital), Some(nation));
        }
    }
    // with equal territory the nearest capital wins
    assert_eq!(grid.owner(AxialCoord::new(0, -9)), Some(Nation::Tera));
    assert_eq!(grid.owner(AxialCoord::new(-8, 0)), Some(Nation::Luna));
    // at equal distance the first nation wins
    assert_eq!(grid.owner(AxialCoord::new(0, 0)), Some(Nation::Tera));

    // a nation with a hundred times the territory pulls ten times as far
    let mut lopsided = AllNationMetrics::default();
    lopsided.0[4].territory = 200_000_000;
    for i in 0..4 {
        lopsided.0[i].territory = 1_000_000;
    }
    territory_system(&lopsided, &mut grid);
    assert_eq!(grid.owner(AxialCoord::new(0, 0)), Some(Nation::Luna));
    assert_eq!(grid.owner(AxialCoord::new(0, -10)), Some(Nation::Tera));
    assert!(grid.owned_count(Nation::Luna) > land / 2);
    assert_eq!(grid.land_count(), land);
}

#[test]
fn territory_keeps_terrain_and_markers() {
    let mut grid = seed_grid(6);
    tera_sim::systems::warfare::mark_front(&mut grid, Nation::Tera, Nation::Sora);
    let before: Vec<_> = grid.tiles.clone();
    territory_system(&AllNationMetrics::default(), &mut grid);
    for (old, new) in before.iter().zip(grid.tiles.iter()) {
        assert_eq!(old.is_some(), new.is_some());
        if let (Some(o), Some(n)) = (old, new) {
            assert_eq!(o.hex.elevation, n.hex.elevation);
            assert_eq!(o.hex.biome, n.hex.biome);
            assert_eq!(o.in_combat.map(|c| c.ticks_remaining), n.in_combat.map(|c| c.ticks_remaining));
        }
    }
}

#[test]
fn sea_and_ice_change_biomes_only() {
    let mut grid = seed_grid(8);
    let before: Vec<_> = grid.tiles.clone();
    let mut climate = ClimateState::default();
    climate.sea_level = 600_000;
    climate.ice_line = 300_000;
    flood_system(&climate, &mut grid);
    let mut frozen = 0;
    let mut flooded = 0;
    for (slot, (old, new)) in before.iter().zip(grid.tiles.iter()).enumerate() {
        assert_eq!(old.is_some(), new.is_some());
        if let (Some(o), Some(n)) = (old, new) {
            assert_eq!(o.hex.owner, n.hex.owner);
            assert_eq!(o.hex.elevation, n.hex.elevation);
            let r = grid.coord(slot).r as i64;
            let height = 500_000 + (r * 1_000_000).div_euclid(17);
            if height < 300_000 {
                assert_eq!(n.hex.biome, Biome::Desert);
                frozen += 1;
            } else if o.hex.elevation < 700_000 && height > 600_000 {
                assert_eq!(n.hex.biome, Biome::Market);
                flooded += 1;
            } else {
                assert_eq!(n.hex.biome, o.hex.biome);
            }
        }
    }
    assert!(frozen > 0);
    assert!(flooded > 0);
}

#[test]
fn an_evenly_shared_map_is_rich() {
    let grid = seed_grid(12);
    let mut overlay = WorldRichness::default();
    territorial_richness_system(&grid, &mut overlay);
    let land = grid.land_count() as i64;
    let mut expected = 1_000_000;
    for nation in NATIONS {
        let part = grid.owned_count(nation) as i64 * 1_000_000 / land;
        expected -= (part - 200_000).abs();
    }
    assert_eq!(overlay.richness, expected);
    assert!(overlay.richness > 800_000);

    let mut grid = seed_grid(6);
    let mut monopoly = AllNationMetrics::default();
    for i in 1..5 {
        monopoly.0[i].territory = 0;
    }
    territory_system(&monopoly, &mut grid);
    territorial_richness_system(&grid, &mut overlay);
    let land = grid.land_count() as i64;
    let mut expected = 0;
    let mut owners = 0;
    for nation in NATIONS {
        let owned = grid.owned_count(nation) as i64;
        if owned > 0 {
            owners += 1;
            expected -= (owned * 1_000_000 / land - 200_000).abs();
        }
    }
    expected += owners * 200_000;
    assert_eq!(overlay.richness, expected.clamp(0, 1_000_000));
}

#[test]
fn four_founders_settle_the_world() {
    let meta = WorldMetadata::standard();
    let founders = seed_entities(&meta);
    assert_eq!(founders.len(), 4);
    let names: Vec<&str> = founders.iter().map(|e| e.identity.name.as_str()).collect();
    assert_eq!(names, vec!["Calix", "Rena", "Aria", "Lys"]);
    let ids: Vec<u64> = founders.iter().map(|e| e.identity.id).collect();
    assert_eq!(ids, vec![1, 2, 3, 4]);
    let homes: Vec<Nation> = founders.iter().map(|e| e.identity.nation).collect();
    assert_eq!(homes, vec![Nation::Tera, Nation::Sora, Nation::Aqua, Nation::Tera]);
    assert_eq!((founders[0].position.x, founders[0].position.y), (0, 0));
    assert_eq!((founders[1].position.x, founders[1].position.y), (6_000_000, 4_500_000));
    assert_eq!((founders[2].position.x, founders[2].position.y), (1_000_000, 2_000_000));
    assert_eq!((founders[3].position.x, founders[3].position.y), (3_500_000, -3_000_000));
    assert_eq!(founders[0].inventory.currency, 100_000_000);
    assert_eq!(founders[0].inventory.items[0].quantity, 10);
    assert_eq!(founders[2].inventory.items.len(), 0);
    assert_eq!(founders[1].personality.aggressive, 600_000);
    assert_eq!(founders[3].attributes.fame, 65_000_000);
    assert_eq!(founders[3].goals.intensity, 500_000);
}
