//! Fallout markers left by nuclear strikes.

use vstd::prelude::*;
use crate::grid::AxialCoord;
use crate::grid::MAX_GRID_RADIUS;
use crate::grid::axial_distance;
use crate::grid::coord_at;
use crate::grid::in_table;
use crate::grid::slot_of;
use crate::grid::table_coord;
use crate::grid::table_len;
use crate::grid::table_side;
use crate::grid::table_slot;

verus! {

/// Largest blast radius a strike can have.
/// Sum of the timers in the first `n` slots.
pub open spec fn timer_sum(timers: Seq<Option<u8>>, n: int) -> int
    decreases n,
{
    if n <= 0 {
        0
    } else {
        timer_sum(timers, n - 1) + match timers[n - 1] {
            Some(t) => t as int,
            None => 0,
        }
    }
}

/// Number of markers in the first `n` slots.
pub open spec fn marker_count(timers: Seq<Option<u8>>, n: int) -> int
    decreases n,
{
    if n <= 0 {
        0
    } else {
        marker_count(timers, n - 1) + if timers[n - 1] is Some {
            1int
        } else {
            0int
        }
    }
}

pub proof fn lemma_timer_sum_bounds(timers: Seq<Option<u8>>, n: int)
    requires
        0 <= n <= timers.len(),
    ensures
        0 <= timer_sum(timers, n) <= 255 * n,
        0 <= marker_count(timers, n) <= n,
    decreases n,
{
    if n > 0 {
        lemma_timer_sum_bounds(timers, n - 1);
    }
}

/// Decaying blast markers over the map: a timer for every coordinate that was hit.
#[derive(Debug)]
pub struct NuclearBlasts {
    pub radius: i32,
    pub timers: Vec<Option<u8>>,
}

impl NuclearBlasts {
    pub open spec fn wf(&self) -> bool {
        &&& 1 <= self.radius <= MAX_GRID_RADIUS
        &&& self.timers@.len() == table_side(self.radius as int) * table_side(self.radius as int)
    }

    /// The timer at a coordinate, if it carries a marker.
    pub open spec fn timer_at(&self, c: AxialCoord) -> Option<u8> {
        if in_table(self.radius as int, c) {
            self.timers@[slot_of(self.radius as int, c)]
        } else {
            None
        }
    }

    /// Sum of all timers, the measure of fallout.
    pub open spec fn total_of(&self) -> int {
        timer_sum(self.timers@, self.timers@.len() as int)
    }

    /// A map of the given radius without any marker.
    pub fn new(radius: i32) -> (b: Self)
        requires
            1 <= radius <= MAX_GRID_RADIUS,
        ensures
            b.wf(),
            b.radius == radius,
            forall|i: int| 0 <= i < b.timers@.len() ==> b.timers@[i] is None,
    {
        let n: usize = table_len(radius);
        let mut timers: Vec<Option<u8>> = Vec::new();
        let mut i: usize = 0;
        while i < n
            invariant
                i <= n,
                timers@.len() == i,
                forall|j: int| 0 <= j < i ==> timers@[j] is None,
            decreases n - i,
        {
            timers.push(None);
            i += 1;
        }
        Self { radius, timers }
    }

    pub fn timer(&self, c: AxialCoord) -> (r: Option<u8>)
        requires
            self.wf(),
        ensures
            r == self.timer_at(c),
    {
        match table_slot(self.radius, c) {
            Some(i) => self.timers[i],
            None => None,
        }
    }

    /// Sum of all timers.
    pub fn total(&self) -> (n: u32)
        requires
            self.wf(),
        ensures
            n == self.total_of(),
    {
        let len: usize = self.timers.len();
        let mut n: u32 = 0;
        let mut i: usize = 0;
        assert(len <= 1025 * 1025) by (nonlinear_arith)
            requires
                len == table_side(self.radius as int) * table_side(self.radius as int),
                1 <= self.radius <= 512,
        ;
        while i < len
            invariant
                len == self.timers@.len(),
                len <= 1025 * 1025,
                i <= len,
                n == timer_sum(self.timers@, i as int),
                n <= 255 * i,
            decreases len - i,
        {
            match self.timers[i] {
                Some(t) => {
                    n = n + t as u32;
                },
                None => {},
            }
            i += 1;
        }
        n
    }

    /// The coordinates that carry a marker, in table order.
    pub fn marked(&self) -> (r: Vec<AxialCoord>)
        requires
            self.wf(),
        ensures
            forall|k: int| 0 <= k < r@.len() ==> self.timer_at(#[trigger] r@[k]) is Some,
            forall|c: AxialCoord| self.timer_at(c) is Some ==> r@.contains(c),
    {
        let len: usize = self.timers.len();
        let mut out: Vec<AxialCoord> = Vec::new();
        let mut i: usize = 0;
        while i < len
            invariant
                self.wf(),
                len == self.timers@.len(),
                i <= len,
                forall|k: int| 0 <= k < out@.len() ==> self.timer_at(#[trigger] out@[k]) is Some,
                forall|j: int|
                    0 <= j < i && self.timers@[j] is Some ==> out@.contains(
                        #[trigger] coord_at(self.radius as int, j),
                    ),
            decreases len - i,
        {
            if self.timers[i].is_some() {
                let c = table_coord(self.radius, i);
                let ghost before = out@;
                out.push(c);
                proof {
                    assert(out@[before.len() as int] == c);
                    assert forall|j: int| 0 <= j < i && self.timers@[j] is Some implies out@.contains(
                        #[trigger] coord_at(self.radius as int, j),
                    ) by {
                        let w = coord_at(self.radius as int, j);
                        let k = choose|k: int| 0 <= k < before.len() && before[k] == w;
                        assert(out@[k] == w);
                    }
                }
            }
            i += 1;
        }
        proof {
            assert forall|c: AxialCoord| self.timer_at(c) is Some implies out@.contains(c) by {
                crate::grid::lemma_slot_roundtrip(self.radius as int, c);
                let j = slot_of(self.radius as int, c);
                assert(coord_at(self.radius as int, j) == c);
            }
        }
        out
    }
}

/// The markers after one tick of decay: a spent marker disappears, any other loses
/// one tick.
pub open spec fn decayed(timer: Option<u8>) -> Option<u8> {
    match timer {
        Some(t) => if t == 0 {
            None
        } else {
            Some((t - 1) as u8)
        },
        None => None,
    }
}

/// Decays nuclear blast markers over time.
pub fn nuclear_decay_system(blasts: &mut NuclearBlasts)
    requires
        old(blasts).wf(),
    ensures
        final(blasts).wf(),
        final(blasts).radius == old(blasts).radius,
        forall|i: int|
            0 <= i < old(blasts).timers@.len() ==> #[trigger] final(blasts).timers@[i] == decayed(
                old(blasts).timers@[i],
            ),
{
    let len: usize = blasts.timers.len();
    let mut i: usize = 0;
    while i < len
        invariant
            len == blasts.timers@.len(),
            len == old(blasts).timers@.len(),
            blasts.radius == old(blasts).radius,
            i <= len,
            forall|j: int| 0 <= j < i ==> #[trigger] blasts.timers@[j] == decayed(
                old(blasts).timers@[j],
            ),
            forall|j: int| i <= j < len ==> #[trigger] blasts.timers@[j] == old(blasts).timers@[j],
        decreases len - i,
    {
        let next: Option<u8> = match blasts.timers[i] {
            Some(t) => if t == 0 {
                None
            } else {
                Some(t - 1)
            },
            None => None,
        };
        blasts.timers.set(i, next);
        i += 1;
    }
}

/// Whether a strike at `center` with the given radius reaches `c`.
pub open spec fn in_blast(center: AxialCoord, radius: int, c: AxialCoord) -> bool {
    axial_distance(center, c) <= radius
}

/// The marker at `c` after a strike: hit coordinates carry the full duration, the
/// rest keep what they had.
pub open spec fn after_strike(
    before: Option<u8>,
    center: AxialCoord,
    radius: int,
    duration: u8,
    c: AxialCoord,
) -> Option<u8> {
    if in_blast(center, radius, c) {
        Some(duration)
    } else {
        before
    }
}

/// How many of the first `n` slots of a map of radius `map_radius` a strike at
/// `center` with the given radius reaches.
pub open spec fn struck_count(map_radius: int, center: AxialCoord, radius: int, n: int) -> int
    decreases n,
{
    if n <= 0 {
        0
    } else {
        struck_count(map_radius, center, radius, n - 1) + if in_blast(
            center,
            radius,
            coord_at(map_radius, n - 1),
        ) {
            1int
        } else {
            0int
        }
    }
}

/// Marks every coordinate of the map within `radius` of `center` and returns how
/// many were hit. A negative radius reaches nothing.
pub fn mark_nuclear_blast(blasts: &mut NuclearBlasts, center: AxialCoord, radius: i32, duration: u8) -> (hit:
    usize)
    requires
        old(blasts).wf(),
    ensures
        final(blasts).wf(),
        final(blasts).radius == old(blasts).radius,
        hit == struck_count(
            old(blasts).radius as int,
            center,
            radius as int,
            old(blasts).timers@.len() as int,
        ),
        forall|i: int|
            0 <= i < old(blasts).timers@.len() ==> #[trigger] final(blasts).timers@[i]
                == after_strike(
                old(blasts).timers@[i],
                center,
                radius as int,
                duration,
                coord_at(old(blasts).radius as int, i),
            ),
{
    let len: usize = blasts.timers.len();
    let mut hit: usize = 0;
    let mut i: usize = 0;
    assert(len <= 1025 * 1025) by (nonlinear_arith)
        requires
            len == table_side(blasts.radius as int) * table_side(blasts.radius as int),
            1 <= blasts.radius <= 512,
    ;
    while i < len
        invariant
            blasts.wf(),
            len == blasts.timers@.len(),
            len == old(blasts).timers@.len(),
            len <= 1025 * 1025,
            blasts.radius == old(blasts).radius,
            i <= len,
            hit <= i,
            hit == struck_count(old(blasts).radius as int, center, radius as int, i as int),
            forall|j: int| 0 <= j < i ==> #[trigger] blasts.timers@[j] == after_strike(
                old(blasts).timers@[j],
                center,
                radius as int,
                duration,
                coord_at(old(blasts).radius as int, j),
            ),
            forall|j: int| i <= j < len ==> #[trigger] blasts.timers@[j] == old(blasts).timers@[j],
        decreases len - i,
    {
        let c = table_coord(blasts.radius, i);
        if center.distance(&c) <= radius as i64 {
            blasts.timers.set(i, Some(duration));
            hit += 1;
        }
        i += 1;
    }
    hit
}

} // verus!
