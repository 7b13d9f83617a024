//! Recovery in times of peace.

use vstd::prelude::*;
use crate::resources::same_fates;
use crate::fixed::SCALE;
use crate::fixed::clamp;
use crate::fixed::clamp_int;
use crate::nation::NATION_COUNT;
use crate::resources::AllNationMetrics;
use crate::resources::NationMetrics;
use crate::resources::STOCK_MAX;
use crate::resources::ScienceVictory;
use crate::resources::WarFatigue;

verus! {

/// War fatigue above which there is no recovery: 40 units.
pub const CALM_LIMIT: i64 = 40_000_000;

/// What a tick of peace gives back at a level of war fatigue.
pub open spec fn recovery_at(fatigue: int) -> int {
    (CALM_LIMIT - fatigue) * 4 / 100
}

/// A living nation after a tick of peace; a destroyed one is left alone.
pub open spec fn after_peace(m: NationMetrics, fatigue: int) -> NationMetrics {
    if m.is_destroyed {
        m
    } else {
        let recovery = recovery_at(fatigue);
        NationMetrics {
            economy: clamp_int(m.economy + recovery * 35 / 100, 0, 120 * SCALE) as i64,
            culture: clamp_int(m.culture + recovery * 25 / 100, 0, 120 * SCALE) as i64,
            science: clamp_int(m.science + recovery * 30 / 100, 0, 150 * SCALE) as i64,
            research_stock: clamp_int(
                m.research_stock + recovery * 12 / 100,
                0,
                STOCK_MAX as int,
            ) as i64,
            ..m
        }
    }
}

/// Whether peace does its work: the race is still on and the world is calm enough.
pub open spec fn peace_holds(fatigue: int, finished: bool) -> bool {
    !finished && fatigue <= CALM_LIMIT
}

/// Lets economy, culture and science recover while war fatigue is low.
pub fn peace_recovery_system(
    metrics: &mut AllNationMetrics,
    warfatigue: &WarFatigue,
    science_victory: &ScienceVictory,
)
    requires
        old(metrics).wf(),
        warfatigue.wf(),
    ensures
        final(metrics).wf(),
        forall|i: int|
            0 <= i < NATION_COUNT ==> #[trigger] final(metrics).0@[i] == if peace_holds(
                warfatigue.intensity as int,
                science_victory.finished,
            ) {
                after_peace(old(metrics).0@[i], warfatigue.intensity as int)
            } else {
                old(metrics).0@[i]
            },
        same_fates(old(metrics).0@, final(metrics).0@),
{
    if science_victory.finished {
        return ;
    }
    let fatigue: i64 = warfatigue.intensity;
    if fatigue > CALM_LIMIT {
        return ;
    }
    let recovery: i64 = (CALM_LIMIT - fatigue) * 4 / 100;
    let mut i: usize = 0;
    while i < NATION_COUNT
        invariant
            i <= NATION_COUNT,
            0 <= fatigue <= CALM_LIMIT,
            recovery == recovery_at(fatigue as int),
            metrics.0@.len() == NATION_COUNT,
            forall|j: int| 0 <= j < NATION_COUNT ==> (#[trigger] metrics.0@[j]).wf(),
            forall|j: int|
                0 <= j < i ==> #[trigger] metrics.0@[j] == after_peace(
                    old(metrics).0@[j],
                    fatigue as int,
                ),
            forall|j: int| i <= j < NATION_COUNT ==> #[trigger] metrics.0@[j] == old(metrics).0@[j],
        decreases NATION_COUNT - i,
    {
        if !metrics.0[i].is_destroyed {
            let m = &mut metrics.0[i];
            m.economy = clamp(m.economy + recovery * 35 / 100, 0, 120 * SCALE);
            m.culture = clamp(m.culture + recovery * 25 / 100, 0, 120 * SCALE);
            m.science = clamp(m.science + recovery * 30 / 100, 0, 150 * SCALE);
            m.research_stock = clamp(m.research_stock + recovery * 12 / 100, 0, STOCK_MAX);
        }
        i += 1;
    }
}

} // verus!
