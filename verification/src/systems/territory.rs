//! Who owns which hex: every hex goes to the nation whose capital pulls hardest.

use vstd::prelude::*;
use crate::grid::AxialCoord;
use crate::grid::Hex;
use crate::grid::HexGrid;
use crate::grid::HexTile;
use crate::grid::axial_distance;
use crate::grid::coord_at;
use crate::grid::pentagon_centers;
use crate::grid::pentagon_centers_of;
use crate::nation::Nation;
use crate::nation::NATION_COUNT;
use crate::resources::AllNationMetrics;
use crate::resources::METRIC_MAX;
use crate::resources::NationMetrics;

verus! {

/// Whether the pull of a capital with `territory` at distance `dist` is stronger
/// than that of one with `best_territory` at distance `best_dist`. The pull is
/// the territory divided by the square of the distance; at its own capital a
/// nation's pull is beyond any other.
pub open spec fn pulls_harder(territory: int, dist: int, best_territory: int, best_dist: int) -> bool {
    if best_dist == 0 {
        false
    } else if dist == 0 {
        true
    } else {
        territory * (best_dist * best_dist) > best_territory * (dist * dist)
    }
}

/// The nation whose capital pulls hardest on `c` among the first `n`; among equals
/// the one that comes first.
pub open spec fn strongest_pull(
    metrics: Seq<NationMetrics>,
    capitals: Seq<(Nation, AxialCoord)>,
    c: AxialCoord,
    n: int,
) -> int
    decreases n,
{
    if n <= 1 {
        0
    } else {
        let best = strongest_pull(metrics, capitals, c, n - 1);
        if pulls_harder(
            metrics[n - 1].territory as int,
            axial_distance(c, capitals[n - 1].1),
            metrics[best].territory as int,
            axial_distance(c, capitals[best].1),
        ) {
            n - 1
        } else {
            best
        }
    }
}

/// The owner of the hex at `c` once territory has been redistributed.
pub open spec fn rightful_owner(metrics: Seq<NationMetrics>, radius: int, c: AxialCoord) -> Nation {
    Nation::at(strongest_pull(metrics, pentagon_centers_of(radius), c, NATION_COUNT as int))
}

pub proof fn lemma_strongest_pull_in_range(
    metrics: Seq<NationMetrics>,
    capitals: Seq<(Nation, AxialCoord)>,
    c: AxialCoord,
    n: int,
)
    requires
        1 <= n,
    ensures
        0 <= strongest_pull(metrics, capitals, c, n) < n,
    decreases n,
{
    if n > 1 {
        lemma_strongest_pull_in_range(metrics, capitals, c, n - 1);
    }
}

fn harder(territory: i64, dist: i64, best_territory: i64, best_dist: i64) -> (r: bool)
    requires
        0 <= territory <= METRIC_MAX,
        0 <= best_territory <= METRIC_MAX,
        0 <= dist <= 4096,
        0 <= best_dist <= 4096,
    ensures
        r == pulls_harder(territory as int, dist as int, best_territory as int, best_dist as int),
{
    if best_dist == 0 {
        false
    } else if dist == 0 {
        true
    } else {
        assert(0 <= best_dist * best_dist <= 4096 * 4096) by (nonlinear_arith)
            requires
                0 <= best_dist <= 4096,
        ;
        assert(0 <= dist * dist <= 4096 * 4096) by (nonlinear_arith)
            requires
                0 <= dist <= 4096,
        ;
        let a: i64 = best_dist * best_dist;
        let b: i64 = dist * dist;
        assert(0 <= territory * a <= METRIC_MAX * (4096 * 4096)) by (nonlinear_arith)
            requires
                0 <= territory <= METRIC_MAX,
                0 <= a <= 4096 * 4096,
        ;
        assert(0 <= best_territory * b <= METRIC_MAX * (4096 * 4096)) by (nonlinear_arith)
            requires
                0 <= best_territory <= METRIC_MAX,
                0 <= b <= 4096 * 4096,
        ;
        territory * a > best_territory * b
    }
}

fn reach(c: AxialCoord, capital: AxialCoord, radius: i32) -> (d: i64)
    requires
        1 <= radius <= crate::grid::MAX_GRID_RADIUS,
        crate::grid::in_table(radius as int, c),
        crate::grid::in_table(radius as int, capital),
    ensures
        d == axial_distance(c, capital),
        0 <= d <= 4096,
{
    c.distance(&capital)
}

fn owner_for(metrics: &AllNationMetrics, capitals: &[(Nation, AxialCoord); 5], radius: i32, c: AxialCoord) -> (r:
    Nation)
    requires
        metrics.wf(),
        1 <= radius <= crate::grid::MAX_GRID_RADIUS,
        capitals@ =~= pentagon_centers_of(radius as int),
        forall|i: int|
            0 <= i < NATION_COUNT ==> crate::grid::in_table(radius as int, (#[trigger] capitals@[i]).1),
        crate::grid::in_table(radius as int, c),
    ensures
        r == rightful_owner(metrics.0@, radius as int, c),
{
    let mut best: usize = 0;
    let mut n: usize = 1;
    while n < NATION_COUNT
        invariant
            1 <= n <= NATION_COUNT,
            metrics.wf(),
            1 <= radius <= crate::grid::MAX_GRID_RADIUS,
            forall|i: int|
                0 <= i < NATION_COUNT ==> crate::grid::in_table(
                    radius as int,
                    (#[trigger] capitals@[i]).1,
                ),
            crate::grid::in_table(radius as int, c),
            best == strongest_pull(metrics.0@, capitals@, c, n as int),
            best < n,
        decreases NATION_COUNT - n,
    {
        let dist: i64 = reach(c, capitals[n].1, radius);
        let best_dist: i64 = reach(c, capitals[best].1, radius);
        let wins: bool = harder(metrics.0[n].territory, dist, metrics.0[best].territory, best_dist);
        assert(strongest_pull(metrics.0@, capitals@, c, n as int + 1) == if wins {
            n as int
        } else {
            best as int
        });
        if wins {
            best = n;
        }
        n += 1;
    }
    assert(capitals@ == pentagon_centers_of(radius as int));
    Nation::from_index(best)
}

/// Hands every land hex to the nation whose capital pulls hardest on it. The map
/// keeps its land, its terrain and its combat markers.
pub fn territory_system(metrics: &AllNationMetrics, grid: &mut HexGrid)
    requires
        metrics.wf(),
        old(grid).wf(),
    ensures
        final(grid).wf(),
        final(grid).radius == old(grid).radius,
        final(grid).tiles@.len() == old(grid).tiles@.len(),
        final(grid).same_terrain(&*old(grid)),
        forall|i: int|
            0 <= i < old(grid).tiles@.len() ==> #[trigger] final(grid).tiles@[i] == match old(
                grid,
            ).tiles@[i] {
                Some(t) => Some(
                    HexTile {
                        hex: Hex {
                            owner: rightful_owner(
                                metrics.0@,
                                old(grid).radius as int,
                                coord_at(old(grid).radius as int, i),
                            ),
                            ..t.hex
                        },
                        ..t
                    },
                ),
                None => None,
            },
{
    let capitals = pentagon_centers(grid.radius);
    let len: usize = grid.tiles.len();
    let mut i: usize = 0;
    while i < len
        invariant
            metrics.wf(),
            old(grid).wf(),
            grid.wf(),
            len == grid.tiles@.len(),
            len == old(grid).tiles@.len(),
            grid.radius == old(grid).radius,
            capitals@ =~= pentagon_centers_of(grid.radius as int),
            i <= len,
            forall|j: int|
                0 <= j < i ==> #[trigger] grid.tiles@[j] == match old(grid).tiles@[j] {
                    Some(t) => Some(
                        HexTile {
                            hex: Hex {
                                owner: rightful_owner(
                                    metrics.0@,
                                    old(grid).radius as int,
                                    coord_at(old(grid).radius as int, j),
                                ),
                                ..t.hex
                            },
                            ..t
                        },
                    ),
                    None => None,
                },
            forall|j: int| i <= j < len ==> #[trigger] grid.tiles@[j] == old(grid).tiles@[j],
        decreases len - i,
    {
        match grid.tiles[i] {
            Some(t) => {
                let c = grid.coord(i);
                let owner: Nation = owner_for(metrics, &capitals, grid.radius, c);
                grid.tiles.set(
                    i,
                    Some(
                        HexTile {
                            hex: Hex { owner, elevation: t.hex.elevation, biome: t.hex.biome },
                            in_combat: t.in_combat,
                            combatants: t.combatants,
                        },
                    ),
                );
            },
            None => {},
        }
        i += 1;
    }
}

} // verus!
