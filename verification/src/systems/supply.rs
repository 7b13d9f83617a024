//! Supply chains: food, energy and rare materials, and what a shortage costs.

use vstd::prelude::*;
use crate::fixed::SCALE;
use crate::fixed::clamp;
use crate::fixed::clamp_int;
use crate::fixed::lemma_scaled_shrinks;
use crate::fixed::scale;
use crate::fixed::scale_clamped;
use crate::fixed::scaled;
use crate::fixed::share;
use crate::history::push_sliding;
use crate::history::pushed_sliding;
use crate::nation::NATION_COUNT;
use crate::resources::AllNationCivState;
use crate::resources::AllNationMetrics;
use crate::resources::ClimateState;
use crate::resources::METRIC_MAX;
use crate::resources::NationCivState;
use crate::resources::NationMetrics;
use crate::resources::SUPPLY_HISTORY_CAP;
use crate::resources::SUPPLY_MAX;
use crate::resources::SupplyState;
use crate::resources::WorldRichness;
use crate::resources::destroyed_are_empty;
use crate::resources::same_fates;
use crate::systems::environment::living_count;

verus! {

/// What a nation adds to the food, energy and rare supply; a destroyed one nothing.
pub open spec fn yields(m: NationMetrics) -> (int, int, int) {
    if m.is_destroyed {
        (0, 0, 0)
    } else {
        (
            m.territory / 2 + m.culture * 2 / 10,
            m.economy * 4 / 10 + m.territory / 10,
            m.science * 3 / 10 + m.economy * 2 / 10,
        )
    }
}

/// What the first `n` nations add together.
pub open spec fn yield_sum(metrics: Seq<NationMetrics>, n: int) -> (int, int, int)
    decreases n,
{
    if n <= 0 {
        (0, 0, 0)
    } else {
        let rest = yield_sum(metrics, n - 1);
        let own = yields(metrics[n - 1]);
        (rest.0 + own.0, rest.1 + own.1, rest.2 + own.2)
    }
}

/// How much climate holds supply back, between 0 and 1.2.
pub open spec fn supply_drag(climate: &ClimateState) -> int {
    clamp_int(climate.sea_level * 6 / 10 + climate.climate_risk / 100 * 4 / 10, 0, 1_200_000)
}

/// How much richness lifts supply, between 0 and 0.6.
pub open spec fn supply_boost(richness: int) -> int {
    clamp_int(richness / 2, 0, 600_000)
}

/// A supply after drag and boost; `rate` is what the drag leaves of it (it may
/// be negative, which leaves nothing).
pub open spec fn delivered(raw: int, rate: int, boost: int) -> int {
    clamp_int(
        scaled(scaled(raw, rate, SCALE as int), SCALE + boost, SCALE as int),
        0,
        SUPPLY_MAX as int,
    )
}

/// Whether supply falls short of demand: 80 units of food per living nation
/// (counting at least one), eight tenths of that in energy, six tenths in rare materials.
pub open spec fn falls_short(food: int, energy: int, rare: int, living: int) -> bool {
    let demand = (if living < 1 {
        1
    } else {
        living
    }) * 80 * SCALE;
    food < demand || energy < demand * 8 / 10 || rare < demand * 6 / 10
}

pub proof fn lemma_yield_bounds(metrics: Seq<NationMetrics>, n: int)
    requires
        0 <= n <= metrics.len(),
        forall|i: int| 0 <= i < metrics.len() ==> (#[trigger] metrics[i]).wf(),
    ensures
        0 <= yield_sum(metrics, n).0 <= n * METRIC_MAX,
        0 <= yield_sum(metrics, n).1 <= n * METRIC_MAX,
        0 <= yield_sum(metrics, n).2 <= n * METRIC_MAX,
        0 <= living_count(metrics, n) <= n,
    decreases n,
{
    if n > 0 {
        lemma_yield_bounds(metrics, n - 1);
    }
}

fn deliver(raw: i64, rate: i64, boost: i64) -> (r: i64)
    requires
        0 <= raw <= 5 * METRIC_MAX,
        -200_000 <= rate <= SCALE,
        0 <= boost <= 600_000,
    ensures
        r == delivered(raw as int, rate as int, boost as int),
        0 <= r <= SUPPLY_MAX,
{
    let kept: i64 = scale_clamped(raw, rate, SCALE, -5 * METRIC_MAX, 5 * METRIC_MAX);
    proof {
        if rate >= 0 {
            lemma_scaled_shrinks(raw as int, rate as int, SCALE as int);
        } else {
            assert(scaled(raw as int, rate as int, SCALE as int) >= -raw) by (nonlinear_arith)
                requires
                    0 <= raw,
                    -200_000 <= rate < 0,
                    SCALE == 1_000_000,
            ;
            assert(scaled(raw as int, rate as int, SCALE as int) <= 0) by (nonlinear_arith)
                requires
                    0 <= raw,
                    rate < 0,
                    SCALE == 1_000_000,
            ;
        }
    }
    scale_clamped(kept, SCALE + boost, SCALE, 0, SUPPLY_MAX)
}

/// Aggregates what the living nations supply and counts how long a shortage has lasted.
pub fn supply_chain_system(
    supply: &mut SupplyState,
    metrics: &AllNationMetrics,
    climate: &ClimateState,
    richness: &WorldRichness,
)
    requires
        old(supply).wf(),
        metrics.wf(),
        climate.wf(),
        richness.wf(),
    ensures
        final(supply).wf(),
        final(supply).food == delivered(
            yield_sum(metrics.0@, NATION_COUNT as int).0,
            SCALE - supply_drag(climate),
            supply_boost(richness.richness as int),
        ),
        final(supply).energy == delivered(
            yield_sum(metrics.0@, NATION_COUNT as int).1,
            SCALE - supply_drag(climate) * 7 / 10,
            supply_boost(richness.richness as int),
        ),
        final(supply).rare == delivered(
            yield_sum(metrics.0@, NATION_COUNT as int).2,
            SCALE - supply_drag(climate) * 5 / 10,
            supply_boost(richness.richness as int),
        ),
        final(supply).deficit_ticks == if falls_short(
            final(supply).food as int,
            final(supply).energy as int,
            final(supply).rare as int,
            living_count(metrics.0@, NATION_COUNT as int),
        ) {
            if old(supply).deficit_ticks < u32::MAX {
                (old(supply).deficit_ticks + 1) as u32
            } else {
                old(supply).deficit_ticks
            }
        } else if old(supply).deficit_ticks > 0 {
            (old(supply).deficit_ticks - 1) as u32
        } else {
            0
        },
        final(supply).history@ == pushed_sliding(
            old(supply).history@,
            (final(supply).food, final(supply).energy, final(supply).rare),
            SUPPLY_HISTORY_CAP as int,
        ),
{
    let mut food: i64 = 0;
    let mut energy: i64 = 0;
    let mut rare: i64 = 0;
    let mut living: i64 = 0;
    let mut i: usize = 0;
    while i < NATION_COUNT
        invariant
            i <= NATION_COUNT,
            metrics.wf(),
            (food as int, energy as int, rare as int) == yield_sum(metrics.0@, i as int),
            living == living_count(metrics.0@, i as int),
            0 <= food <= i * METRIC_MAX,
            0 <= energy <= i * METRIC_MAX,
            0 <= rare <= i * METRIC_MAX,
            0 <= living <= i,
        decreases NATION_COUNT - i,
    {
        let m = &metrics.0[i];
        if !m.is_destroyed {
            food = food + (m.territory / 2 + m.culture * 2 / 10);
            energy = energy + (m.economy * 4 / 10 + m.territory / 10);
            rare = rare + (m.science * 3 / 10 + m.economy * 2 / 10);
            living = living + 1;
        }
        i += 1;
    }
    let drag: i64 = clamp(
        climate.sea_level * 6 / 10 + climate.climate_risk / 100 * 4 / 10,
        0,
        1_200_000,
    );
    let boost: i64 = clamp(richness.richness / 2, 0, 600_000);
    supply.food = deliver(food, SCALE - drag, boost);
    supply.energy = deliver(energy, SCALE - drag * 7 / 10, boost);
    supply.rare = deliver(rare, SCALE - drag * 5 / 10, boost);
    let demand: i64 = (if living < 1 {
        1
    } else {
        living
    }) * 80 * SCALE;
    let short: bool = supply.food < demand || supply.energy < demand * 8 / 10 || supply.rare
        < demand * 6 / 10;
    if short {
        if supply.deficit_ticks < u32::MAX {
            supply.deficit_ticks = supply.deficit_ticks + 1;
        }
    } else if supply.deficit_ticks > 0 {
        supply.deficit_ticks = supply.deficit_ticks - 1;
    }
    let sample = (supply.food, supply.energy, supply.rare);
    push_sliding(&mut supply.history, sample, SUPPLY_HISTORY_CAP);
}

/// How hard a shortage bites: five percent per tick it has lasted, at most fully.
pub open spec fn deficit_strength(ticks: u32) -> int {
    if ticks >= 20 {
        SCALE as int
    } else {
        ticks * 50_000
    }
}

/// A living nation under a shortage of the given strength.
pub open spec fn nation_under_deficit(m: NationMetrics, strength: int) -> NationMetrics {
    if m.is_destroyed {
        m
    } else {
        let economy = scaled(m.economy as int, SCALE - strength * 2 / 100, SCALE as int);
        let military = scaled(m.military as int, SCALE - strength * 15 / 1000, SCALE as int);
        let people = scaled(m.population as int, SCALE - strength / 1000, SCALE as int);
        (NationMetrics {
            economy: if economy < 5 * SCALE {
                5 * SCALE as int
            } else {
                economy
            } as i64,
            military: if military < 5 * SCALE {
                5 * SCALE as int
            } else {
                military
            } as i64,
            ..m
        }).with_population(
            if people < 5_000 {
                5_000
            } else {
                people
            },
        )
    }
}

/// Civic state of a living nation under a shortage of the given strength.
pub open spec fn civ_under_deficit(s: NationCivState, strength: int) -> NationCivState {
    NationCivState {
        happiness: clamp_int(s.happiness - strength * 15 / 10, 0, METRIC_MAX as int) as i64,
        production: scaled(s.production as int, SCALE - strength / 100, SCALE as int) as i64,
        ..s
    }
}

/// Makes every living nation pay for a lasting shortage.
pub fn supply_impact_system(
    supply: &SupplyState,
    metrics: &mut AllNationMetrics,
    civ: &mut AllNationCivState,
)
    requires
        supply.wf(),
        old(metrics).wf(),
        old(civ).wf(),
    ensures
        final(metrics).wf(),
        final(civ).wf(),
        forall|i: int|
            0 <= i < NATION_COUNT ==> #[trigger] final(metrics).0@[i] == if supply.deficit_ticks
                == 0 {
                old(metrics).0@[i]
            } else {
                nation_under_deficit(old(metrics).0@[i], deficit_strength(supply.deficit_ticks))
            },
        forall|i: int|
            0 <= i < NATION_COUNT ==> #[trigger] final(civ).0@[i] == if supply.deficit_ticks == 0
                || old(metrics).0@[i].is_destroyed {
                old(civ).0@[i]
            } else {
                civ_under_deficit(old(civ).0@[i], deficit_strength(supply.deficit_ticks))
            },
        same_fates(old(metrics).0@, final(metrics).0@),
        destroyed_are_empty(old(metrics).0@, old(civ).0@) ==> destroyed_are_empty(
            final(metrics).0@,
            final(civ).0@,
        ),
{
    if supply.deficit_ticks == 0 {
        return ;
    }
    let strength: i64 = if supply.deficit_ticks >= 20 {
        SCALE
    } else {
        (supply.deficit_ticks as i64) * 50_000
    };
    let mut i: usize = 0;
    while i < NATION_COUNT
        invariant
            i <= NATION_COUNT,
            supply.deficit_ticks != 0,
            strength == deficit_strength(supply.deficit_ticks),
            0 <= strength <= SCALE,
            metrics.0@.len() == NATION_COUNT,
            civ.0@.len() == NATION_COUNT,
            forall|j: int| 0 <= j < NATION_COUNT ==> (#[trigger] metrics.0@[j]).wf(),
            forall|j: int| 0 <= j < NATION_COUNT ==> (#[trigger] civ.0@[j]).wf(),
            forall|j: int|
                0 <= j < i ==> #[trigger] metrics.0@[j] == nation_under_deficit(
                    old(metrics).0@[j],
                    strength as int,
                ),
            forall|j: int| i <= j < NATION_COUNT ==> #[trigger] metrics.0@[j] == old(metrics).0@[j],
            forall|j: int|
                0 <= j < i ==> #[trigger] civ.0@[j] == if old(metrics).0@[j].is_destroyed {
                    old(civ).0@[j]
                } else {
                    civ_under_deficit(old(civ).0@[j], strength as int)
                },
            forall|j: int| i <= j < NATION_COUNT ==> #[trigger] civ.0@[j] == old(civ).0@[j],
        decreases NATION_COUNT - i,
    {
        if !metrics.0[i].is_destroyed {
            let m = &mut metrics.0[i];
            proof {
                lemma_scaled_shrinks(m.economy as int, SCALE - strength * 2 / 100, SCALE as int);
                lemma_scaled_shrinks(m.military as int, SCALE - strength * 15 / 1000, SCALE as int);
            }
            let economy: i64 = scale(m.economy, SCALE - strength * 2 / 100, SCALE);
            let military: i64 = scale(m.military, SCALE - strength * 15 / 1000, SCALE);
            let people: u64 = share(m.population, (SCALE - strength / 1000) as u64, SCALE as u64);
            m.economy = if economy < 5 * SCALE {
                5 * SCALE
            } else {
                economy
            };
            m.military = if military < 5 * SCALE {
                5 * SCALE
            } else {
                military
            };
            m.set_population(if people < 5_000 {
                5_000
            } else {
                people
            });
            let s = &mut civ.0[i];
            proof {
                lemma_scaled_shrinks(s.production as int, SCALE - strength / 100, SCALE as int);
            }
            s.happiness = clamp(s.happiness - strength * 15 / 10, 0, METRIC_MAX);
            s.production = scale(s.production, SCALE - strength / 100, SCALE);
        }
        i += 1;
    }
}

} // verus!
