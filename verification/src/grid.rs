//! The hexagonal world: axial coordinates, land hexes and who owns them.

use vstd::prelude::*;
use vstd::arithmetic::div_mod::lemma_fundamental_div_mod;
use vstd::arithmetic::div_mod::lemma_fundamental_div_mod_converse;
use crate::components::Biome;
use crate::components::Combatants;
use crate::components::InCombat;
use crate::nation::Nation;
use crate::nation::NATION_COUNT;

verus! {

/// Largest grid radius a world can have.
pub const MAX_GRID_RADIUS: i32 = 512;

/// Largest stored elevation, in millionths.
pub const ELEVATION_MAX: i64 = 2_000_000;

#[derive(Clone, Copy, Debug, PartialEq, Eq, Structural, Hash)]
pub struct AxialCoord {
    pub q: i32,
    pub r: i32,
}

/// Hex distance between two axial coordinates.
pub open spec fn axial_distance(a: AxialCoord, b: AxialCoord) -> int {
    (abs_int(a.q - b.q) + abs_int((a.q + a.r) - (b.q + b.r)) + abs_int(a.r - b.r)) / 2
}

pub open spec fn abs_int(x: int) -> int {
    if x < 0 {
        -x
    } else {
        x
    }
}

/// The six coordinates that touch `c`, in a fixed order.
pub open spec fn neighbors_of(c: AxialCoord) -> Seq<AxialCoord> {
    seq![
        AxialCoord { q: (c.q + 1) as i32, r: c.r },
        AxialCoord { q: (c.q - 1) as i32, r: c.r },
        AxialCoord { q: c.q, r: (c.r + 1) as i32 },
        AxialCoord { q: c.q, r: (c.r - 1) as i32 },
        AxialCoord { q: (c.q + 1) as i32, r: (c.r - 1) as i32 },
        AxialCoord { q: (c.q - 1) as i32, r: (c.r + 1) as i32 },
    ]
}

fn abs64(x: i64) -> (r: i64)
    requires
        x > i64::MIN,
    ensures
        r == abs_int(x as int),
{
    if x < 0 {
        -x
    } else {
        x
    }
}

impl AxialCoord {
    pub fn new(q: i32, r: i32) -> (c: Self)
        ensures
            c.q == q,
            c.r == r,
    {
        Self { q, r }
    }

    /// Whether all six neighbours can be represented.
    pub open spec fn has_neighbors(&self) -> bool {
        &&& i32::MIN < self.q < i32::MAX
        &&& i32::MIN < self.r < i32::MAX
    }

    pub fn neighbors(&self) -> (n: [AxialCoord; 6])
        requires
            self.has_neighbors(),
        ensures
            n@ =~= neighbors_of(*self),
            forall|i: int| 0 <= i < 6 ==> axial_distance(*self, #[trigger] n@[i]) == 1,
    {
        [
            AxialCoord::new(self.q + 1, self.r),
            AxialCoord::new(self.q - 1, self.r),
            AxialCoord::new(self.q, self.r + 1),
            AxialCoord::new(self.q, self.r - 1),
            AxialCoord::new(self.q + 1, self.r - 1),
            AxialCoord::new(self.q - 1, self.r + 1),
        ]
    }

    /// Hex distance to another coordinate.
    pub fn distance(&self, other: &AxialCoord) -> (d: i64)
        ensures
            d == axial_distance(*self, *other),
            d >= 0,
    {
        let dq: i64 = self.q as i64 - other.q as i64;
        let dr: i64 = self.r as i64 - other.r as i64;
        let ds: i64 = dq + dr;
        (abs64(dq) + abs64(ds) + abs64(dr)) / 2
    }
}

/// The three continent anchors of the older three-nation layout.
pub open spec fn continent_centers_of(radius: int) -> Seq<(Nation, AxialCoord)> {
    seq![
        (Nation::Tera, AxialCoord { q: (-radius + 3) as i32, r: trunc_div(radius, 3) as i32 }),
        (Nation::Sora, AxialCoord { q: (radius - 3) as i32, r: trunc_div(-radius, 4) as i32 }),
        (Nation::Aqua, AxialCoord { q: 0, r: (-radius + 3) as i32 }),
    ]
}

/// The five capitals, placed on a pentagon two hexes inside the rim.
pub open spec fn pentagon_centers_of(radius: int) -> Seq<(Nation, AxialCoord)> {
    let r = radius - 2;
    seq![
        (Nation::Tera, AxialCoord { q: 0, r: (-r) as i32 }),
        (Nation::Sora, AxialCoord { q: r as i32, r: trunc_div(-r, 2) as i32 }),
        (Nation::Aqua, AxialCoord { q: r as i32, r: trunc_div(r, 2) as i32 }),
        (Nation::Solar, AxialCoord { q: 0, r: r as i32 }),
        (Nation::Luna, AxialCoord { q: (-r) as i32, r: 0 }),
    ]
}

/// Division that rounds toward zero.
pub open spec fn trunc_div(a: int, d: int) -> int {
    if a >= 0 {
        a / d
    } else {
        -((-a) / d)
    }
}

/// Radii for which every anchor coordinate can be represented.
pub open spec fn radius_in_range(radius: int) -> bool {
    -1_000_000_000 <= radius <= 1_000_000_000
}

pub fn default_continent_centers(radius: i32) -> (c: [(Nation, AxialCoord); 3])
    requires
        radius_in_range(radius as int),
    ensures
        c@ =~= continent_centers_of(radius as int),
{
    [
        (Nation::Tera, AxialCoord::new(-radius + 3, radius / 3)),
        (Nation::Sora, AxialCoord::new(radius - 3, -radius / 4)),
        (Nation::Aqua, AxialCoord::new(0, -radius + 3)),
    ]
}

pub fn pentagon_centers(radius: i32) -> (c: [(Nation, AxialCoord); 5])
    requires
        radius_in_range(radius as int),
    ensures
        c@ =~= pentagon_centers_of(radius as int),
        forall|i: int| 0 <= i < NATION_COUNT ==> (#[trigger] c@[i]).0 == Nation::at(i),
        radius >= 1 ==> forall|i: int|
            0 <= i < NATION_COUNT ==> in_table(radius as int, (#[trigger] c@[i]).1),
{
    let r: i32 = radius - 2;
    [
        (Nation::Tera, AxialCoord::new(0, -r)),
        (Nation::Sora, AxialCoord::new(r, -r / 2)),
        (Nation::Aqua, AxialCoord::new(r, r / 2)),
        (Nation::Solar, AxialCoord::new(0, r)),
        (Nation::Luna, AxialCoord::new(-r, 0)),
    ]
}

/// One land hex: who holds it, how high it lies and what grows there.
#[derive(Clone, Copy, Debug)]
pub struct Hex {
    pub owner: Nation,
    pub elevation: i64,
    pub biome: Biome,
}

/// A land hex together with its transient combat marker.
#[derive(Clone, Copy, Debug)]
pub struct HexTile {
    pub hex: Hex,
    pub in_combat: Option<InCombat>,
    pub combatants: Option<Combatants>,
}

impl HexTile {
    pub open spec fn wf(&self) -> bool {
        &&& 0 <= self.hex.elevation <= ELEVATION_MAX
        &&& self.in_combat is Some <==> self.combatants is Some
    }
}

/// Width of the square table that holds a grid of the given radius.
pub open spec fn table_side(radius: int) -> int {
    2 * radius + 1
}

/// Whether a coordinate lies inside the table of the given radius.
pub open spec fn in_table(radius: int, c: AxialCoord) -> bool {
    &&& -radius <= c.q <= radius
    &&& -radius <= c.r <= radius
}

/// Table slot of a coordinate.
pub open spec fn slot_of(radius: int, c: AxialCoord) -> int {
    (c.q + radius) * table_side(radius) + (c.r + radius)
}

/// Coordinate stored at a table slot.
pub open spec fn coord_at(radius: int, slot: int) -> AxialCoord {
    AxialCoord {
        q: (slot / table_side(radius) - radius) as i32,
        r: (slot % table_side(radius) - radius) as i32,
    }
}

/// Number of land hexes among the first `n` slots.
pub open spec fn count_land(tiles: Seq<Option<HexTile>>, n: int) -> int
    decreases n,
{
    if n <= 0 {
        0
    } else {
        count_land(tiles, n - 1) + if tiles[n - 1] is Some {
            1int
        } else {
            0int
        }
    }
}

/// Number of hexes among the first `n` slots that `nation` owns.
pub open spec fn count_owned(tiles: Seq<Option<HexTile>>, nation: Nation, n: int) -> int
    decreases n,
{
    if n <= 0 {
        0
    } else {
        count_owned(tiles, nation, n - 1) + if tiles[n - 1] is Some && tiles[n - 1]->0.hex.owner
            == nation {
            1int
        } else {
            0int
        }
    }
}

/// Slots and in-table coordinates correspond one to one.
pub proof fn lemma_slot_roundtrip(radius: int, c: AxialCoord)
    requires
        0 <= radius <= MAX_GRID_RADIUS,
        in_table(radius, c),
    ensures
        0 <= slot_of(radius, c) < table_side(radius) * table_side(radius),
        coord_at(radius, slot_of(radius, c)) == c,
{
    let side = table_side(radius);
    let a = c.q + radius;
    let b = c.r + radius;
    assert(0 <= a * side + b < side * side) by (nonlinear_arith)
        requires
            0 <= a < side,
            0 <= b < side,
    ;
    lemma_fundamental_div_mod_converse(a * side + b, side, a, b);
}

/// Every slot of the table holds an in-table coordinate that maps back to it.
pub proof fn lemma_coord_roundtrip(radius: int, slot: int)
    requires
        0 <= radius <= MAX_GRID_RADIUS,
        0 <= slot < table_side(radius) * table_side(radius),
    ensures
        in_table(radius, coord_at(radius, slot)),
        slot_of(radius, coord_at(radius, slot)) == slot,
{
    let side = table_side(radius);
    lemma_fundamental_div_mod(slot, side);
    let a = slot / side;
    let b = slot % side;
    assert(0 <= b < side);
    assert(0 <= a < side) by (nonlinear_arith)
        requires
            slot == side * a + b,
            0 <= b < side,
            0 <= slot < side * side,
            side > 0,
    ;
    assert(side * a == a * side) by (nonlinear_arith);
}

/// Each land hex has exactly one owner: the per-nation counts add up to the land count.
pub proof fn lemma_owners_partition_land(tiles: Seq<Option<HexTile>>, n: int)
    requires
        0 <= n <= tiles.len(),
    ensures
        count_owned(tiles, Nation::Tera, n) + count_owned(tiles, Nation::Sora, n) + count_owned(
            tiles,
            Nation::Aqua,
            n,
        ) + count_owned(tiles, Nation::Solar, n) + count_owned(tiles, Nation::Luna, n)
            == count_land(tiles, n),
        0 <= count_land(tiles, n) <= n,
    decreases n,
{
    if n > 0 {
        lemma_owners_partition_land(tiles, n - 1);
    }
}

/// The land count depends only on which slots hold a hex.
pub proof fn lemma_count_land_same_shape(
    a: Seq<Option<HexTile>>,
    b: Seq<Option<HexTile>>,
    n: int,
)
    requires
        0 <= n <= a.len(),
        a.len() == b.len(),
        forall|i: int| 0 <= i < a.len() ==> ((#[trigger] a[i]) is Some <==> b[i] is Some),
    ensures
        count_land(a, n) == count_land(b, n),
    decreases n,
{
    if n > 0 {
        lemma_count_land_same_shape(a, b, n - 1);
    }
}

/// Table slot of a coordinate in a table of the given radius, if it lies inside.
pub fn table_slot(radius: i32, c: AxialCoord) -> (r: Option<usize>)
    requires
        1 <= radius <= MAX_GRID_RADIUS,
    ensures
        r is Some <==> in_table(radius as int, c),
        r is Some ==> r->0 == slot_of(radius as int, c) && r->0 < table_side(radius as int)
            * table_side(radius as int),
{
    if c.q < -radius || c.q > radius || c.r < -radius || c.r > radius {
        return None;
    }
    proof {
        lemma_slot_roundtrip(radius as int, c);
    }
    let side: usize = (2 * radius + 1) as usize;
    let a: usize = (c.q + radius) as usize;
    let b: usize = (c.r + radius) as usize;
    proof {
        let target = slot_of(radius as int, c);
        assert(target == a * side + b);
        assert(0 <= a * side <= target) by (nonlinear_arith)
            requires
                target == a * side + b,
                0 <= b,
                0 <= a,
                0 <= side,
        ;
        assert(side * side <= 1025 * 1025) by (nonlinear_arith)
            requires
                0 <= side <= 1025,
        ;
    }
    Some(a * side + b)
}

/// The coordinate stored at a slot of a table of the given radius.
pub fn table_coord(radius: i32, slot: usize) -> (c: AxialCoord)
    requires
        1 <= radius <= MAX_GRID_RADIUS,
        slot < table_side(radius as int) * table_side(radius as int),
    ensures
        c == coord_at(radius as int, slot as int),
        in_table(radius as int, c),
        slot_of(radius as int, c) == slot,
{
    proof {
        lemma_coord_roundtrip(radius as int, slot as int);
    }
    let side: usize = (2 * radius + 1) as usize;
    let a: usize = slot / side;
    let b: usize = slot % side;
    proof {
        let c = coord_at(radius as int, slot as int);
        assert(in_table(radius as int, c));
        assert(a == slot as int / table_side(radius as int));
        assert(b == slot as int % table_side(radius as int));
        assert(0 <= b < side);
        assert(0 <= a < side) by (nonlinear_arith)
            requires
                0 <= slot < side * side,
                a == slot as int / (side as int),
                side > 0,
        ;
    }
    AxialCoord { q: a as i32 - radius, r: b as i32 - radius }
}

/// Number of slots in a table of the given radius.
pub fn table_len(radius: i32) -> (n: usize)
    requires
        1 <= radius <= MAX_GRID_RADIUS,
    ensures
        n == table_side(radius as int) * table_side(radius as int),
        n <= 1025 * 1025,
{
    let side: usize = (2 * radius + 1) as usize;
    assert(side * side <= 1025 * 1025) by (nonlinear_arith)
        requires
            0 <= side <= 1025,
    ;
    side * side
}

/// The world map: a dense table over axial coordinates, `None` where there is sea.
#[derive(Debug)]
pub struct HexGrid {
    pub radius: i32,
    pub tiles: Vec<Option<HexTile>>,
}

impl HexGrid {
    pub open spec fn wf(&self) -> bool {
        &&& 1 <= self.radius <= MAX_GRID_RADIUS
        &&& self.tiles@.len() == table_side(self.radius as int) * table_side(self.radius as int)
        &&& forall|i: int|
            0 <= i < self.tiles@.len() && (#[trigger] self.tiles@[i]) is Some
                ==> self.tiles@[i]->0.wf()
    }

    /// What the map holds at a coordinate.
    pub open spec fn tile_at(&self, c: AxialCoord) -> Option<HexTile> {
        if in_table(self.radius as int, c) {
            self.tiles@[slot_of(self.radius as int, c)]
        } else {
            None
        }
    }

    pub open spec fn is_land(&self, c: AxialCoord) -> bool {
        self.tile_at(c) is Some
    }

    /// The owner of a coordinate: exactly one nation for land, none for sea.
    pub open spec fn owner_at(&self, c: AxialCoord) -> Option<Nation> {
        match self.tile_at(c) {
            Some(tile) => Some(tile.hex.owner),
            None => None,
        }
    }

    /// Whether two maps have the same radius and the same land coordinates.
    pub open spec fn same_land(&self, other: &HexGrid) -> bool {
        &&& self.radius == other.radius
        &&& self.tiles@.len() == other.tiles@.len()
        &&& forall|i: int|
            0 <= i < self.tiles@.len() ==> ((#[trigger] self.tiles@[i]) is Some
                <==> other.tiles@[i] is Some)
    }

    /// Whether two maps agree on land, elevation and biome, differing at most in owners
    /// and combat markers.
    pub open spec fn same_terrain(&self, other: &HexGrid) -> bool {
        &&& self.same_land(other)
        &&& forall|i: int|
            0 <= i < self.tiles@.len() && (#[trigger] self.tiles@[i]) is Some ==> {
                &&& self.tiles@[i]->0.hex.elevation == other.tiles@[i]->0.hex.elevation
                &&& self.tiles@[i]->0.hex.biome == other.tiles@[i]->0.hex.biome
            }
    }

    pub open spec fn land_total(&self) -> int {
        count_land(self.tiles@, self.tiles@.len() as int)
    }

    pub open spec fn owned_total(&self, nation: Nation) -> int {
        count_owned(self.tiles@, nation, self.tiles@.len() as int)
    }

    /// Width of the table.
    pub fn side(&self) -> (s: usize)
        requires
            self.wf(),
        ensures
            s == table_side(self.radius as int),
            s * s == self.tiles@.len(),
    {
        (2 * self.radius + 1) as usize
    }

    /// Table slot of a coordinate, if it lies inside the table.
    pub fn slot(&self, c: AxialCoord) -> (r: Option<usize>)
        requires
            self.wf(),
        ensures
            r is Some <==> in_table(self.radius as int, c),
            r is Some ==> r->0 == slot_of(self.radius as int, c) && r->0 < self.tiles@.len(),
    {
        table_slot(self.radius, c)
    }

    /// The coordinate stored at a table slot.
    pub fn coord(&self, slot: usize) -> (c: AxialCoord)
        requires
            self.wf(),
            slot < self.tiles@.len(),
        ensures
            c == coord_at(self.radius as int, slot as int),
            in_table(self.radius as int, c),
            slot_of(self.radius as int, c) == slot,
    {
        table_coord(self.radius, slot)
    }

    /// The land hex at a coordinate, if there is one.
    pub fn tile(&self, c: AxialCoord) -> (r: Option<HexTile>)
        requires
            self.wf(),
        ensures
            r == self.tile_at(c),
    {
        match self.slot(c) {
            Some(i) => self.tiles[i],
            None => None,
        }
    }

    /// The nation that owns a coordinate, if it is land.
    pub fn owner(&self, c: AxialCoord) -> (r: Option<Nation>)
        requires
            self.wf(),
        ensures
            r == self.owner_at(c),
    {
        match self.tile(c) {
            Some(tile) => Some(tile.hex.owner),
            None => None,
        }
    }

    /// Number of land hexes.
    pub fn land_count(&self) -> (n: usize)
        requires
            self.wf(),
        ensures
            n == self.land_total(),
    {
        let mut n: usize = 0;
        let mut i: usize = 0;
        while i < self.tiles.len()
            invariant
                0 <= i <= self.tiles@.len(),
                n == count_land(self.tiles@, i as int),
                n <= i,
            decreases self.tiles@.len() - i,
        {
            if self.tiles[i].is_some() {
                n += 1;
            }
            i += 1;
        }
        n
    }

    /// Number of land hexes that `nation` owns.
    pub fn owned_count(&self, nation: Nation) -> (n: usize)
        requires
            self.wf(),
        ensures
            n == self.owned_total(nation),
            n <= self.land_total(),
    {
        let mut n: usize = 0;
        let mut i: usize = 0;
        while i < self.tiles.len()
            invariant
                0 <= i <= self.tiles@.len(),
                n == count_owned(self.tiles@, nation, i as int),
                n <= count_land(self.tiles@, i as int) <= i,
            decreases self.tiles@.len() - i,
        {
            match self.tiles[i] {
                Some(tile) => {
                    if tile.hex.owner == nation {
                        n += 1;
                    }
                },
                None => {},
            }
            i += 1;
        }
        n
    }
}

/// A map that keeps its land keeps its count of land hexes; every land hex has
/// exactly one owner, so the hexes the five nations own are exactly the land
/// hexes, before and after.
pub proof fn lemma_land_is_kept(before: &HexGrid, after: &HexGrid)
    requires
        before.wf(),
        after.wf(),
        after.same_land(before),
    ensures
        after.land_total() == before.land_total(),
        after.owned_total(Nation::Tera) + after.owned_total(Nation::Sora) + after.owned_total(
            Nation::Aqua,
        ) + after.owned_total(Nation::Solar) + after.owned_total(Nation::Luna)
            == before.land_total(),
        forall|c: AxialCoord| after.is_land(c) == before.is_land(c),
        forall|c: AxialCoord| after.is_land(c) <==> after.owner_at(c) is Some,
{
    lemma_count_land_same_shape(after.tiles@, before.tiles@, after.tiles@.len() as int);
    lemma_owners_partition_land(after.tiles@, after.tiles@.len() as int);
    assert forall|c: AxialCoord| after.is_land(c) == before.is_land(c) by {
        if in_table(after.radius as int, c) {
            lemma_slot_roundtrip(after.radius as int, c);
        }
    }
}

} // verus!
