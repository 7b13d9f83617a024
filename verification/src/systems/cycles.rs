//! Golden ages and declines.

use vstd::prelude::*;
use crate::resources::destroyed_are_empty;
use crate::resources::same_fates;
use crate::fixed::SCALE;
use crate::fixed::clamp;
use crate::fixed::clamp_int;
use crate::fixed::lemma_scaled_bounds;
use crate::fixed::scale;
use crate::fixed::scale_clamped;
use crate::fixed::scaled;
use crate::nation::NATION_COUNT;
use crate::resources::AllNationCivState;
use crate::resources::AllNationMetrics;
use crate::resources::CivilizationalCycles;
use crate::resources::METRIC_MAX;
use crate::resources::NationCivState;
use crate::resources::NationMetrics;
use crate::resources::WorldTime;

verus! {

/// Upper end of both cycle scores: 120 units.
pub const CYCLE_MAX: i64 = 120_000_000;

/// How settled a nation is, judged by culture, diplomacy and religion.
pub open spec fn settledness(m: NationMetrics) -> int {
    (m.culture * 3 / 10 + m.diplomacy * 4 / 10 + m.religion * 3 / 10) / 3
}

/// Mean of economy, culture and science.
pub open spec fn prosperity(m: NationMetrics) -> int {
    (m.economy + m.culture + m.science) / 3
}

/// What weighs on a nation: lacking diplomacy and lacking settledness.
pub open spec fn stress(m: NationMetrics) -> int {
    (if m.diplomacy > 100 * SCALE {
        0
    } else {
        100 * SCALE - m.diplomacy
    }) + (if settledness(m) > 80 * SCALE {
        0
    } else {
        80 * SCALE - settledness(m)
    })
}

/// The golden-age score after a tick, before it fades.
pub open spec fn golden_next(m: NationMetrics, golden: int, decline: int) -> int {
    clamp_int(
        golden + scaled(prosperity(m) - 55 * SCALE, 2, 100) - decline / 100,
        0,
        CYCLE_MAX as int,
    )
}

/// The decline score after a tick, before it fades.
pub open spec fn decline_next(m: NationMetrics, golden: int, decline: int) -> int {
    clamp_int(decline + stress(m) * 15 / 1000 - golden / 100, 0, CYCLE_MAX as int)
}

/// The factor a golden age multiplies by: up to a quarter more.
pub open spec fn golden_factor(golden: int) -> int {
    SCALE + golden * 25 / 12_000
}

/// The factor a decline multiplies by: up to three tenths less.
pub open spec fn decline_factor(decline: int) -> int {
    SCALE - decline * 30 / 12_000
}

/// A living nation under its cycle scores.
pub open spec fn nation_under_cycles(m: NationMetrics, golden: int, decline: int) -> NationMetrics {
    let gf = golden_factor(golden);
    let df = decline_factor(decline);
    NationMetrics {
        economy: clamp_int(
            scaled(scaled(m.economy as int, gf, SCALE as int), df, SCALE as int),
            10 * SCALE,
            240 * SCALE,
        ) as i64,
        culture: clamp_int(
            scaled(scaled(m.culture as int, gf, SCALE as int), df, SCALE as int),
            10 * SCALE,
            240 * SCALE,
        ) as i64,
        science: clamp_int(
            scaled(scaled(m.science as int, gf, SCALE as int), df, SCALE as int),
            5 * SCALE,
            240 * SCALE,
        ) as i64,
        military: clamp_int(
            scaled(m.military as int, df, SCALE as int) + golden * 5 / 100,
            5 * SCALE,
            220 * SCALE,
        ) as i64,
        ..m
    }
}

/// Civic state of a living nation under its cycle scores.
pub open spec fn civ_under_cycles(s: NationCivState, golden: int, decline: int) -> NationCivState {
    let gf = golden_factor(golden);
    let df = decline_factor(decline);
    NationCivState {
        happiness: clamp_int(
            scaled(s.happiness as int, gf, SCALE as int) - decline * 15 / 100,
            5 * SCALE,
            150 * SCALE,
        ) as i64,
        production: clamp_int(
            scaled(scaled(s.production as int, gf, SCALE as int), df, SCALE as int),
            5 * SCALE,
            180 * SCALE,
        ) as i64,
        stability: clamp_int(
            s.stability - decline * 20 / 100 + golden * 5 / 100,
            5 * SCALE,
            150 * SCALE,
        ) as i64,
        ..s
    }
}

/// A score after fading: every twelfth tick it loses the given percentage.
pub open spec fn faded(score: int, tick: u64, keep_percent: int) -> int {
    if tick % 12 == 0 {
        score * keep_percent / 100
    } else {
        score
    }
}

fn twice_scaled(x: i64, a: i64, b: i64) -> (r: i64)
    requires
        0 <= x <= METRIC_MAX,
        0 <= a <= 2 * SCALE,
        0 <= b <= 2 * SCALE,
    ensures
        r == scaled(scaled(x as int, a as int, SCALE as int), b as int, SCALE as int),
        0 <= r <= 4 * METRIC_MAX,
{
    proof {
        lemma_scaled_bounds(x as int, a as int, SCALE as int, METRIC_MAX as int, 2 * SCALE);
        lemma_scaled_bounds(
            scaled(x as int, a as int, SCALE as int),
            b as int,
            SCALE as int,
            2 * METRIC_MAX,
            2 * SCALE,
        );
    }
    scale(scale(x, a, SCALE), b, SCALE)
}

/// One tick of the cycles for one living nation. Returns the new golden-age and
/// decline scores.
#[verifier::rlimit(50)]
pub fn cycle_nation(
    m: &mut NationMetrics,
    s: &mut NationCivState,
    golden_before: i64,
    decline_before: i64,
    tick: u64,
) -> (r: (i64, i64))
    requires
        old(m).wf(),
        old(s).wf(),
        0 <= golden_before <= CYCLE_MAX,
        0 <= decline_before <= CYCLE_MAX,
    ensures
        *final(m) == nation_under_cycles(
            *old(m),
            golden_next(*old(m), golden_before as int, decline_before as int),
            decline_next(*old(m), golden_before as int, decline_before as int),
        ),
        *final(s) == civ_under_cycles(
            *old(s),
            golden_next(*old(m), golden_before as int, decline_before as int),
            decline_next(*old(m), golden_before as int, decline_before as int),
        ),
        r.0 == faded(golden_next(*old(m), golden_before as int, decline_before as int), tick, 97),
        r.1 == faded(decline_next(*old(m), golden_before as int, decline_before as int), tick, 98),
        0 <= r.0 <= CYCLE_MAX,
        0 <= r.1 <= CYCLE_MAX,
        final(m).wf(),
        final(s).wf(),
{
    let settled: i64 = (m.culture * 3 / 10 + m.diplomacy * 4 / 10 + m.religion * 3 / 10) / 3;
    let wealth: i64 = (m.economy + m.culture + m.science) / 3;
    let strain: i64 = (if m.diplomacy > 100 * SCALE {
        0
    } else {
        100 * SCALE - m.diplomacy
    }) + (if settled > 80 * SCALE {
        0
    } else {
        80 * SCALE - settled
    });
    let golden: i64 = clamp(
        golden_before + scale_clamped(wealth - 55 * SCALE, 2, 100, -METRIC_MAX, METRIC_MAX)
            - decline_before / 100,
        0,
        CYCLE_MAX,
    );
    let decline: i64 = clamp(
        decline_before + strain * 15 / 1000 - golden_before / 100,
        0,
        CYCLE_MAX,
    );
    let gf: i64 = SCALE + golden * 25 / 12_000;
    let df: i64 = SCALE - decline * 30 / 12_000;
    proof {
        lemma_scaled_bounds(m.military as int, df as int, SCALE as int, METRIC_MAX as int, SCALE as int);
        lemma_scaled_bounds(
            s.happiness as int,
            gf as int,
            SCALE as int,
            METRIC_MAX as int,
            2 * SCALE,
        );
    }
    m.economy = clamp(twice_scaled(m.economy, gf, df), 10 * SCALE, 240 * SCALE);
    m.culture = clamp(twice_scaled(m.culture, gf, df), 10 * SCALE, 240 * SCALE);
    m.science = clamp(twice_scaled(m.science, gf, df), 5 * SCALE, 240 * SCALE);
    m.military = clamp(scale(m.military, df, SCALE) + golden * 5 / 100, 5 * SCALE, 220 * SCALE);
    s.happiness = clamp(
        scale(s.happiness, gf, SCALE) - decline * 15 / 100,
        5 * SCALE,
        150 * SCALE,
    );
    s.production = clamp(twice_scaled(s.production, gf, df), 5 * SCALE, 180 * SCALE);
    s.stability = clamp(
        s.stability - decline * 20 / 100 + golden * 5 / 100,
        5 * SCALE,
        150 * SCALE,
    );
    if tick % 12 == 0 {
        (golden * 97 / 100, decline * 98 / 100)
    } else {
        (golden, decline)
    }
}

/// Whether a nation, its civic state and its scores are what a tick of the cycles
/// makes of them. Destroyed nations take no part.
pub open spec fn cycled(
    m: NationMetrics,
    s: NationCivState,
    golden: int,
    decline: int,
    tick: u64,
    after_m: NationMetrics,
    after_s: NationCivState,
    after_golden: int,
    after_decline: int,
) -> bool {
    if m.is_destroyed {
        after_m == m && after_s == s && after_golden == golden && after_decline == decline
    } else {
        &&& after_m == nation_under_cycles(m, golden_next(m, golden, decline), decline_next(m, golden, decline))
        &&& after_s == civ_under_cycles(s, golden_next(m, golden, decline), decline_next(m, golden, decline))
        &&& after_golden == faded(golden_next(m, golden, decline), tick, 97)
        &&& after_decline == faded(decline_next(m, golden, decline), tick, 98)
    }
}

/// Applies golden-age and decline cycles to every living nation.
pub fn cycle_system(
    cycles: &mut CivilizationalCycles,
    metrics: &mut AllNationMetrics,
    civ_state: &mut AllNationCivState,
    time: &WorldTime,
)
    requires
        old(cycles).wf(),
        old(metrics).wf(),
        old(civ_state).wf(),
    ensures
        final(cycles).wf(),
        final(metrics).wf(),
        final(civ_state).wf(),
        forall|i: int|
            0 <= i < NATION_COUNT ==> cycled(
                old(metrics).0@[i],
                old(civ_state).0@[i],
                old(cycles).golden_age@[i] as int,
                old(cycles).decline@[i] as int,
                time.tick,
                #[trigger] final(metrics).0@[i],
                final(civ_state).0@[i],
                final(cycles).golden_age@[i] as int,
                final(cycles).decline@[i] as int,
            ),
        same_fates(old(metrics).0@, final(metrics).0@),
        destroyed_are_empty(old(metrics).0@, old(civ_state).0@) ==> destroyed_are_empty(final(metrics).0@, final(civ_state).0@),
{
    let mut i: usize = 0;
    while i < NATION_COUNT
        invariant
            i <= NATION_COUNT,
            old(cycles).wf(),
            old(metrics).wf(),
            old(civ_state).wf(),
            cycles.wf(),
            metrics.wf(),
            civ_state.wf(),
            forall|j: int|
                0 <= j < i ==> cycled(
                    old(metrics).0@[j],
                    old(civ_state).0@[j],
                    old(cycles).golden_age@[j] as int,
                    old(cycles).decline@[j] as int,
                    time.tick,
                    #[trigger] metrics.0@[j],
                    civ_state.0@[j],
                    cycles.golden_age@[j] as int,
                    cycles.decline@[j] as int,
                ),
            forall|j: int|
                i <= j < NATION_COUNT ==> #[trigger] metrics.0@[j] == old(metrics).0@[j]
                    && civ_state.0@[j] == old(civ_state).0@[j] && cycles.golden_age@[j] == old(
                    cycles,
                ).golden_age@[j] && cycles.decline@[j] == old(cycles).decline@[j],
        decreases NATION_COUNT - i,
    {
        if !metrics.0[i].is_destroyed {
            let golden: i64 = cycles.golden_age[i];
            let decline: i64 = cycles.decline[i];
            let (g, d) = cycle_nation(
                &mut metrics.0[i],
                &mut civ_state.0[i],
                golden,
                decline,
                time.tick,
            );
            cycles.golden_age.set(i, g);
            cycles.decline.set(i, d);
        }
        i += 1;
    }
}

} // verus!
