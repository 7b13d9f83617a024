//! War fatigue: how wars, fallout and shocks wear the world down.

use vstd::prelude::*;
use crate::events::WorldEvent;
use crate::events::WorldEventKind;
use crate::events::WorldEventLog;
use crate::fixed::SCALE;
use crate::fixed::clamp;
use crate::fixed::clamp_int;
use crate::history::HISTORY_CAP;
use crate::history::push_history;
use crate::history::pushed_bounded;
use crate::nation::NATION_COUNT;
use crate::nuclear::NuclearBlasts;
use crate::resources::AllNationMetrics;
use crate::resources::METRIC_MAX;
use crate::resources::NationMetrics;
use crate::resources::WarFatigue;
use crate::resources::same_fates;
use crate::text::count_digits;
use crate::text::digit_count;

verus! {

/// How many of the latest events weigh on the world.
pub const RECENT_EVENTS: usize = 8;

/// Upper end of war fatigue: 100 units.
pub const FATIGUE_MAX: i64 = 100_000_000;

/// What an event adds to war fatigue: a war a unit per 100,000 casualties (at most
/// twelve) and eight more if nuclear; a shock a unit per digit in its impact
/// report (at most eight); anything else nothing.
pub open spec fn event_fatigue(e: WorldEvent) -> int {
    match e.kind {
        WorldEventKind::Warfare { casualties, nuclear, .. } => (if casualties * 10 > 12 * SCALE {
            12 * SCALE as int
        } else {
            casualties * 10
        }) + if nuclear {
            8 * SCALE as int
        } else {
            0
        },
        WorldEventKind::MacroShock { projected_impact, .. } => {
            let digits = digit_count(projected_impact@, projected_impact@.len() as int);
            if digits > 8 {
                8 * SCALE as int
            } else {
                digits * SCALE
            }
        },
        _ => 0,
    }
}

/// What the events from position `from` on add together.
pub open spec fn fatigue_from(log: Seq<WorldEvent>, from: int) -> int
    decreases log.len() - from,
{
    if from < 0 || from >= log.len() {
        0
    } else {
        event_fatigue(log[from]) + fatigue_from(log, from + 1)
    }
}

/// Position of the first of the latest events.
pub open spec fn recent_start(len: int) -> int {
    if len > RECENT_EVENTS {
        len - RECENT_EVENTS
    } else {
        0
    }
}

pub fn fatigue_of(e: &WorldEvent) -> (r: i64)
    ensures
        r == event_fatigue(*e),
        0 <= r <= 20 * SCALE,
{
    match &e.kind {
        WorldEventKind::Warfare { casualties, nuclear, .. } => {
            let toll: i64 = if *casualties > 1_200_000 {
                12 * SCALE
            } else {
                (*casualties * 10) as i64
            };
            toll + if *nuclear {
                8 * SCALE
            } else {
                0
            }
        },
        WorldEventKind::MacroShock { projected_impact, .. } => {
            let digits: usize = count_digits(projected_impact.as_str());
            if digits > 8 {
                8 * SCALE
            } else {
                (digits as i64) * SCALE
            }
        },
        _ => 0,
    }
}

/// A marker after a tick of cooling: a live one loses a tick, a spent one stays.
pub open spec fn cooled(timer: Option<u8>) -> Option<u8> {
    match timer {
        Some(t) => if t > 0 {
            Some((t - 1) as u8)
        } else {
            Some(t)
        },
        None => None,
    }
}

/// Number of live markers among the first `n` slots.
pub open spec fn live_markers(timers: Seq<Option<u8>>, n: int) -> int
    decreases n,
{
    if n <= 0 {
        0
    } else {
        live_markers(timers, n - 1) + if timers[n - 1] is Some && timers[n - 1]->0 > 0 {
            1int
        } else {
            0int
        }
    }
}

/// War fatigue after a tick: what is left of the old fatigue (two percent fade,
/// and less than a unit counts as none), a unit and a half per live blast marker,
/// and the weight of the latest events; between 0 and 100 units.
pub open spec fn fatigue_after(intensity: int, live: int, recent: int) -> int {
    let faded = if intensity * 98 / 100 < SCALE {
        0
    } else {
        intensity * 98 / 100
    };
    clamp_int(faded + live * 1_500_000 + recent, 0, FATIGUE_MAX as int)
}

/// A nation under war fatigue: economy, culture and military pay for it.
pub open spec fn nation_under_fatigue(m: NationMetrics, intensity: int) -> NationMetrics {
    let penalty = intensity * 2 / 100;
    NationMetrics {
        economy: clamp_int(m.economy - penalty, 0, METRIC_MAX as int) as i64,
        culture: clamp_int(m.culture - penalty / 2, 0, METRIC_MAX as int) as i64,
        military: clamp_int(m.military - penalty / 4, 0, METRIC_MAX as int) as i64,
        ..m
    }
}

fn cool_markers(blasts: &mut NuclearBlasts) -> (live: usize)
    requires
        old(blasts).wf(),
    ensures
        final(blasts).wf(),
        final(blasts).radius == old(blasts).radius,
        forall|i: int|
            0 <= i < old(blasts).timers@.len() ==> #[trigger] final(blasts).timers@[i] == cooled(
                old(blasts).timers@[i],
            ),
        live == live_markers(old(blasts).timers@, old(blasts).timers@.len() as int),
        live <= 1025 * 1025,
{
    let len: usize = blasts.timers.len();
    assert(len <= 1025 * 1025) by (nonlinear_arith)
        requires
            len == crate::grid::table_side(blasts.radius as int) * crate::grid::table_side(
                blasts.radius as int,
            ),
            1 <= blasts.radius <= 512,
    ;
    let mut live: usize = 0;
    let mut i: usize = 0;
    while i < len
        invariant
            len == blasts.timers@.len(),
            len == old(blasts).timers@.len(),
            len <= 1025 * 1025,
            blasts.radius == old(blasts).radius,
            i <= len,
            live == live_markers(old(blasts).timers@, i as int),
            live <= i,
            forall|j: int| 0 <= j < i ==> #[trigger] blasts.timers@[j] == cooled(
                old(blasts).timers@[j],
            ),
            forall|j: int| i <= j < len ==> #[trigger] blasts.timers@[j] == old(blasts).timers@[j],
        decreases len - i,
    {
        match blasts.timers[i] {
            Some(t) => {
                if t > 0 {
                    blasts.timers.set(i, Some(t - 1));
                    live += 1;
                }
            },
            None => {},
        }
        i += 1;
    }
    live
}

fn recent_weight(events: &WorldEventLog) -> (r: i64)
    requires
        events.wf(),
    ensures
        r == fatigue_from(events@, recent_start(events@.len() as int)),
        0 <= r <= 160 * SCALE,
{
    let len: usize = events.len();
    let start: usize = if len > RECENT_EVENTS {
        len - RECENT_EVENTS
    } else {
        0
    };
    let mut total: i64 = 0;
    let mut i: usize = len;
    while i > start
        invariant
            events.wf(),
            len == events@.len(),
            start == recent_start(len as int),
            start <= i <= len,
            total == fatigue_from(events@, i as int),
            0 <= total <= (len - i) * 20 * SCALE,
        decreases i,
    {
        i -= 1;
        total = total + fatigue_of(events.get(i));
    }
    total
}

/// Tracks war fatigue for one tick and makes every nation pay for it.
pub fn war_fatigue_system(
    fatigue: &mut WarFatigue,
    blasts: &mut NuclearBlasts,
    events: &WorldEventLog,
    metrics: &mut AllNationMetrics,
)
    requires
        old(fatigue).wf(),
        old(blasts).wf(),
        events.wf(),
        old(metrics).wf(),
    ensures
        final(fatigue).wf(),
        final(blasts).wf(),
        final(metrics).wf(),
        final(blasts).radius == old(blasts).radius,
        forall|i: int|
            0 <= i < old(blasts).timers@.len() ==> #[trigger] final(blasts).timers@[i] == cooled(
                old(blasts).timers@[i],
            ),
        final(fatigue).intensity == fatigue_after(
            old(fatigue).intensity as int,
            live_markers(old(blasts).timers@, old(blasts).timers@.len() as int),
            fatigue_from(events@, recent_start(events@.len() as int)),
        ),
        final(fatigue).history@ == pushed_bounded(
            old(fatigue).history@,
            final(fatigue).intensity,
            HISTORY_CAP as int,
        ),
        forall|i: int|
            0 <= i < NATION_COUNT ==> #[trigger] final(metrics).0@[i] == nation_under_fatigue(
                old(metrics).0@[i],
                final(fatigue).intensity as int,
            ),
        same_fates(old(metrics).0@, final(metrics).0@),
{
    let kept: i64 = fatigue.intensity * 98 / 100;
    let faded: i64 = if kept < SCALE {
        0
    } else {
        kept
    };
    let live: usize = cool_markers(blasts);
    let recent: i64 = recent_weight(events);
    let intensity: i64 = clamp(faded + (live as i64) * 1_500_000 + recent, 0, FATIGUE_MAX);
    fatigue.intensity = intensity;
    push_history(&mut fatigue.history, intensity);
    let penalty: i64 = intensity * 2 / 100;
    let mut i: usize = 0;
    while i < NATION_COUNT
        invariant
            i <= NATION_COUNT,
            0 <= intensity <= FATIGUE_MAX,
            penalty == intensity * 2 / 100,
            metrics.0@.len() == NATION_COUNT,
            forall|j: int| 0 <= j < NATION_COUNT ==> (#[trigger] metrics.0@[j]).wf(),
            forall|j: int|
                0 <= j < i ==> #[trigger] metrics.0@[j] == nation_under_fatigue(
                    old(metrics).0@[j],
                    intensity as int,
                ),
            forall|j: int| i <= j < NATION_COUNT ==> #[trigger] metrics.0@[j] == old(metrics).0@[j],
        decreases NATION_COUNT - i,
    {
        let m = &mut metrics.0[i];
        m.economy = clamp(m.economy - penalty, 0, METRIC_MAX);
        m.culture = clamp(m.culture - penalty / 2, 0, METRIC_MAX);
        m.military = clamp(m.military - penalty / 4, 0, METRIC_MAX);
        i += 1;
    }
}

} // verus!
