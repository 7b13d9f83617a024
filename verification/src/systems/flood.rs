//! Flood and ice: what rising seas and creeping ice do to the land.

use vstd::prelude::*;
use crate::components::Biome;
use crate::fixed::SCALE;
use crate::fixed::clamp;
use crate::fixed::scale_clamped;
use crate::fixed::scaled;
use crate::fixed::clamp_int;
use crate::grid::AxialCoord;
use crate::grid::Hex;
use crate::grid::HexGrid;
use crate::grid::HexTile;
use crate::grid::coord_at;
use crate::resources::ClimateState;

verus! {

/// How far down the map a row lies, between zero (top) and one (bottom).
pub open spec fn row_height(r: int, radius: int) -> int {
    clamp_int(SCALE / 2 + scaled(r, SCALE as int, 2 * radius + 1), 0, SCALE as int)
}

/// The biome of a hex under the climate: lowland above the waterline turns to
/// market lowland, and whatever lies above the ice line freezes to desert.
pub open spec fn biome_under_climate(hex: Hex, height: int, sea: int, ice: int) -> Biome {
    if height < ice {
        Biome::Desert
    } else if hex.elevation < sea + 100_000 && height > sea {
        Biome::Market
    } else {
        hex.biome
    }
}

/// A tile under the climate.
pub open spec fn tile_under_climate(
    tile: Option<HexTile>,
    c: AxialCoord,
    radius: int,
    climate: &ClimateState,
) -> Option<HexTile> {
    match tile {
        Some(t) => Some(
            HexTile {
                hex: Hex {
                    biome: biome_under_climate(
                        t.hex,
                        row_height(c.r as int, radius),
                        climate.sea_level as int,
                        climate.ice_line as int,
                    ),
                    ..t.hex
                },
                ..t
            },
        ),
        None => None,
    }
}

/// Applies sea level and ice line to the biomes of the map. Owners, elevations
/// and the land itself stay as they are.
pub fn flood_system(climate: &ClimateState, grid: &mut HexGrid)
    requires
        climate.wf(),
        old(grid).wf(),
    ensures
        final(grid).wf(),
        final(grid).radius == old(grid).radius,
        final(grid).same_land(&*old(grid)),
        forall|i: int|
            0 <= i < old(grid).tiles@.len() ==> #[trigger] final(grid).tiles@[i]
                == tile_under_climate(
                old(grid).tiles@[i],
                coord_at(old(grid).radius as int, i),
                old(grid).radius as int,
                climate,
            ),
{
    let sea: i64 = climate.sea_level;
    let ice: i64 = climate.ice_line;
    let radius: i32 = grid.radius;
    let len: usize = grid.tiles.len();
    let mut i: usize = 0;
    while i < len
        invariant
            climate.wf(),
            old(grid).wf(),
            grid.wf(),
            sea == climate.sea_level,
            ice == climate.ice_line,
            radius == grid.radius,
            len == grid.tiles@.len(),
            len == old(grid).tiles@.len(),
            grid.radius == old(grid).radius,
            i <= len,
            forall|j: int|
                0 <= j < i ==> #[trigger] grid.tiles@[j] == tile_under_climate(
                    old(grid).tiles@[j],
                    coord_at(old(grid).radius as int, j),
                    old(grid).radius as int,
                    climate,
                ),
            forall|j: int| i <= j < len ==> #[trigger] grid.tiles@[j] == old(grid).tiles@[j],
        decreases len - i,
    {
        match grid.tiles[i] {
            Some(t) => {
                let c = grid.coord(i);
                let height: i64 = clamp(
                    SCALE / 2 + scale_clamped(
                        c.r as i64,
                        SCALE,
                        2 * (radius as i64) + 1,
                        -SCALE,
                        SCALE,
                    ),
                    0,
                    SCALE,
                );
                let biome: Biome = if height < ice {
                    Biome::Desert
                } else if t.hex.elevation < sea + 100_000 && height > sea {
                    Biome::Market
                } else {
                    t.hex.biome
                };
                grid.tiles.set(
                    i,
                    Some(
                        HexTile {
                            hex: Hex { owner: t.hex.owner, elevation: t.hex.elevation, biome },
                            in_combat: t.in_combat,
                            combatants: t.combatants,
                        },
                    ),
                );
            },
            None => {},
        }
        i += 1;
    }
}

} // verus!
