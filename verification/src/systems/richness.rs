//! A second reading of richness: how evenly the land is shared.

use vstd::prelude::*;
use crate::fixed::SCALE;
use crate::fixed::abs_diff;
use crate::fixed::clamp;
use crate::fixed::clamp_int;
use crate::fixed::lemma_scaled_bounds;
use crate::fixed::scale;
use crate::fixed::scaled;
use crate::grid::HexGrid;
use crate::grid::lemma_owners_partition_land;
use crate::nation::Nation;
use crate::nation::NATION_COUNT;
use crate::resources::WorldRichness;

verus! {

/// How far a nation's share of the land is from a fifth, in millionths.
pub open spec fn share_gap(owned: int, land: int) -> int {
    abs_diff(scaled(owned, SCALE as int, land), 200_000)
}

/// Number of the first `n` nations that own land.
pub open spec fn owners_among(grid: &HexGrid, n: int) -> int
    decreases n,
{
    if n <= 0 {
        0
    } else {
        owners_among(grid, n - 1) + if grid.owned_total(Nation::at(n - 1)) > 0 {
            1int
        } else {
            0int
        }
    }
}

/// Sum of the share gaps of the first `n` nations that own land.
pub open spec fn imbalance(grid: &HexGrid, n: int) -> int
    decreases n,
{
    if n <= 0 {
        0
    } else {
        imbalance(grid, n - 1) + if grid.owned_total(Nation::at(n - 1)) > 0 {
            share_gap(grid.owned_total(Nation::at(n - 1)), grid.land_total())
        } else {
            0
        }
    }
}

/// The richness of a map: the share of nations that own land, less the
/// imbalance of their shares, between zero and one; zero for a map without land.
pub open spec fn territorial_richness(grid: &HexGrid) -> int {
    if grid.land_total() == 0 {
        0
    } else {
        clamp_int(
            owners_among(grid, NATION_COUNT as int) * SCALE / 5 - imbalance(
                grid,
                NATION_COUNT as int,
            ),
            0,
            SCALE as int,
        )
    }
}

/// Reads richness off the map: the more nations own land and the more evenly,
/// the richer the world.
pub fn territorial_richness_system(grid: &HexGrid, overlay: &mut WorldRichness)
    requires
        grid.wf(),
        old(overlay).wf(),
    ensures
        final(overlay).wf(),
        final(overlay).richness == territorial_richness(grid),
        final(overlay).history == old(overlay).history,
{
    let land: usize = grid.land_count();
    if land == 0 {
        overlay.richness = 0;
        return ;
    }
    proof {
        lemma_owners_partition_land(grid.tiles@, grid.tiles@.len() as int);
        assert(grid.tiles@.len() <= 1025 * 1025) by (nonlinear_arith)
            requires
                grid.tiles@.len() == crate::grid::table_side(grid.radius as int)
                    * crate::grid::table_side(grid.radius as int),
                1 <= grid.radius <= 512,
        ;
    }
    let mut owners: i64 = 0;
    let mut gap: i64 = 0;
    let mut i: usize = 0;
    while i < NATION_COUNT
        invariant
            i <= NATION_COUNT,
            grid.wf(),
            land == grid.land_total(),
            0 < land <= 1025 * 1025,
            owners == owners_among(grid, i as int),
            gap == imbalance(grid, i as int),
            0 <= owners <= i,
            0 <= gap <= i * SCALE,
        decreases NATION_COUNT - i,
    {
        let owned: usize = grid.owned_count(Nation::from_index(i));
        if owned > 0 {
            proof {
                lemma_scaled_bounds(owned as int, SCALE as int, land as int, land as int, SCALE as int);
                assert(scaled(land as int, SCALE as int, land as int) == SCALE) by (nonlinear_arith)
                    requires
                        land > 0,
                ;
            }
            let part: i64 = scale(owned as i64, SCALE, land as i64);
            owners = owners + 1;
            gap = gap + if part >= 200_000 {
                part - 200_000
            } else {
                200_000 - part
            };
        }
        i += 1;
    }
    overlay.richness = clamp(owners * SCALE / 5 - gap, 0, SCALE);
}

} // verus!
