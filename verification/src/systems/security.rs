//! Sanctions and alliances at work.

use vstd::prelude::*;
use crate::fixed::SCALE;
use crate::fixed::clamp;
use crate::fixed::clamp_int;
use crate::fixed::lemma_scaled_shrinks;
use crate::fixed::scale;
use crate::fixed::scaled;
use crate::nation::Nation;
use crate::nation::NATION_COUNT;
use crate::resources::AllNationMetrics;
use crate::resources::DiplomaticRelations;
use crate::resources::IdeologyMatrix;
use crate::resources::METRIC_MAX;
use crate::resources::NationMetrics;
use crate::resources::WarFatigue;
use crate::resources::same_fates;

verus! {

/// A nation after one sanction has bitten: the economy shrinks by eight percent
/// and a further percent per unit of trade penalty (to half at most), science by
/// two percent, and the trade penalty grows by two units.
pub open spec fn after_sanction(m: NationMetrics) -> NationMetrics {
    let rate = if 920_000 - m.trade_penalty / 100 < 500_000 {
        500_000
    } else {
        920_000 - m.trade_penalty / 100
    };
    NationMetrics {
        economy: scaled(m.economy as int, rate, SCALE as int) as i64,
        trade_penalty: clamp_int(m.trade_penalty + 2 * SCALE, 0, METRIC_MAX as int) as i64,
        science: (m.science * 98 / 100) as i64,
        ..m
    }
}

/// A nation after `times` sanctions in a row.
pub open spec fn after_sanctions(m: NationMetrics, times: int) -> NationMetrics
    decreases times,
{
    if times <= 0 {
        m
    } else {
        after_sanction(after_sanctions(m, times - 1))
    }
}

/// How many of the first `n` sanctions target `nation`.
pub open spec fn sanctions_against(sanctions: Seq<(Nation, Nation)>, nation: Nation, n: int) -> int
    decreases n,
{
    if n <= 0 {
        0
    } else {
        sanctions_against(sanctions, nation, n - 1) + if sanctions[n - 1].1 == nation {
            1int
        } else {
            0int
        }
    }
}

/// How many of the first `n` alliances `nation` is part of, counting both seats.
pub open spec fn alliances_of(alliances: Seq<(Nation, Nation)>, nation: Nation, n: int) -> int
    decreases n,
{
    if n <= 0 {
        0
    } else {
        alliances_of(alliances, nation, n - 1) + (if alliances[n - 1].0 == nation {
            1int
        } else {
            0int
        }) + (if alliances[n - 1].1 == nation {
            1int
        } else {
            0int
        })
    }
}

/// A value after `times` boosts of `step` under a ceiling.
pub open spec fn boosted(value: int, step: int, ceiling: int, times: int) -> int
    decreases times,
{
    if times <= 0 {
        value
    } else {
        let before = boosted(value, step, ceiling, times - 1);
        if before + step > ceiling {
            ceiling
        } else {
            before + step
        }
    }
}

/// The pressure war fatigue puts on diplomacy, between zero and one.
pub open spec fn war_pressure(intensity: int) -> int {
    clamp_int(intensity / 100, 0, SCALE as int)
}

/// A nation after war pressure and its trade penalty have told on its diplomacy.
pub open spec fn after_pressure(m: NationMetrics, pressure: int) -> NationMetrics {
    NationMetrics {
        diplomacy: clamp_int(
            m.diplomacy - pressure * 10 - m.trade_penalty * 2 / 10,
            0,
            METRIC_MAX as int,
        ) as i64,
        trade_penalty: (m.trade_penalty * 95 / 100) as i64,
        ..m
    }
}

/// A nation after the whole security round.
pub open spec fn nation_after_security(
    m: NationMetrics,
    nation: Nation,
    diplo: &DiplomaticRelations,
    intensity: int,
) -> NationMetrics {
    let pressed = after_pressure(
        after_sanctions(m, sanctions_against(diplo.sanctions@, nation, diplo.sanctions@.len() as int)),
        war_pressure(intensity),
    );
    reassured(pressed, alliances_of(diplo.alliances@, nation, diplo.alliances@.len() as int))
}

pub proof fn lemma_boosted_bounds(value: int, step: int, ceiling: int, times: int)
    requires
        0 <= value,
        0 <= step,
        0 <= ceiling,
    ensures
        0 <= boosted(value, step, ceiling, times),
        boosted(value, step, ceiling, times) <= if value > ceiling {
            value
        } else {
            ceiling
        },
    decreases times,
{
    if times > 0 {
        lemma_boosted_bounds(value, step, ceiling, times - 1);
    }
}

fn sanction_nation(m: &mut NationMetrics)
    requires
        old(m).wf(),
    ensures
        *final(m) == after_sanction(*old(m)),
        final(m).wf(),
{
    let rate: i64 = if 920_000 - m.trade_penalty / 100 < 500_000 {
        500_000
    } else {
        920_000 - m.trade_penalty / 100
    };
    proof {
        lemma_scaled_shrinks(m.economy as int, rate as int, SCALE as int);
    }
    m.economy = scale(m.economy, rate, SCALE);
    m.trade_penalty = clamp(m.trade_penalty + 2 * SCALE, 0, METRIC_MAX);
    m.science = m.science * 98 / 100;
}

fn boost(value: i64, step: i64, ceiling: i64) -> (r: i64)
    requires
        0 <= value <= METRIC_MAX,
        0 <= step <= METRIC_MAX,
        0 <= ceiling <= METRIC_MAX,
    ensures
        r == if value + step > ceiling {
            ceiling as int
        } else {
            value + step
        },
        0 <= r <= METRIC_MAX,
{
    if value + step > ceiling {
        ceiling
    } else {
        value + step
    }
}

fn apply_sanctions(diplo: &DiplomaticRelations, metrics: &mut AllNationMetrics)
    requires
        diplo.wf(),
        old(metrics).wf(),
    ensures
        final(metrics).wf(),
        forall|j: int|
            0 <= j < NATION_COUNT ==> #[trigger] final(metrics).0@[j] == after_sanctions(
                old(metrics).0@[j],
                sanctions_against(diplo.sanctions@, Nation::at(j), diplo.sanctions@.len() as int),
            ),
{
    let mut k: usize = 0;
    while k < diplo.sanctions.len()
        invariant
            k <= diplo.sanctions@.len(),
            metrics.0@.len() == NATION_COUNT,
            old(metrics).0@.len() == NATION_COUNT,
            forall|j: int| 0 <= j < NATION_COUNT ==> (#[trigger] metrics.0@[j]).wf(),
            forall|j: int|
                0 <= j < NATION_COUNT ==> #[trigger] metrics.0@[j] == after_sanctions(
                    old(metrics).0@[j],
                    sanctions_against(diplo.sanctions@, Nation::at(j), k as int),
                ),
        decreases diplo.sanctions@.len() - k,
    {
        let target: Nation = diplo.sanctions[k].1;
        let t: usize = target.index();
        let ghost before = metrics.0@;
        sanction_nation(&mut metrics.0[t]);
        proof {
            assert forall|j: int| 0 <= j < NATION_COUNT implies #[trigger] metrics.0@[j]
                == after_sanctions(
                old(metrics).0@[j],
                sanctions_against(diplo.sanctions@, Nation::at(j), k as int + 1),
            ) by {
                let hits = sanctions_against(diplo.sanctions@, Nation::at(j), k as int);
                lemma_seats_nonnegative(diplo.sanctions@, Nation::at(j), k as int);
                assert(before[j] == after_sanctions(old(metrics).0@[j], hits));
                if j == t {
                    assert(Nation::at(j) == target);
                    assert(sanctions_against(diplo.sanctions@, Nation::at(j), k as int + 1) == hits
                        + 1);
                    assert(after_sanctions(old(metrics).0@[j], hits + 1) == after_sanction(
                        after_sanctions(old(metrics).0@[j], hits),
                    ));
                } else {
                    assert(Nation::at(j) != target);
                    assert(sanctions_against(diplo.sanctions@, Nation::at(j), k as int + 1)
                        == hits);
                }
            }
        }
        k += 1;
    }
}

/// Volatility after war pressure has stirred it.
pub open spec fn stirred(volatility: int, pressure: int) -> int {
    clamp_int(volatility + pressure * 8, 0, 140 * SCALE)
}

fn apply_pressure(metrics: &mut AllNationMetrics, ideology: &mut IdeologyMatrix, pressure: i64)
    requires
        old(metrics).wf(),
        old(ideology).wf(),
        0 <= pressure <= SCALE,
    ensures
        final(metrics).wf(),
        final(ideology).wf(),
        final(ideology).leaning@ == old(ideology).leaning@,
        final(ideology).cohesion@ == old(ideology).cohesion@,
        forall|j: int|
            0 <= j < NATION_COUNT ==> #[trigger] final(metrics).0@[j] == after_pressure(
                old(metrics).0@[j],
                pressure as int,
            ),
        forall|j: int|
            0 <= j < NATION_COUNT ==> #[trigger] final(ideology).volatility@[j] == stirred(
                old(ideology).volatility@[j] as int,
                pressure as int,
            ),
{
    let mut i: usize = 0;
    while i < NATION_COUNT
        invariant
            i <= NATION_COUNT,
            0 <= pressure <= SCALE,
            metrics.0@.len() == NATION_COUNT,
            old(metrics).0@.len() == NATION_COUNT,
            old(ideology).wf(),
            ideology.wf(),
            ideology.leaning@ == old(ideology).leaning@,
            ideology.cohesion@ == old(ideology).cohesion@,
            forall|j: int| 0 <= j < NATION_COUNT ==> (#[trigger] metrics.0@[j]).wf(),
            forall|j: int| 0 <= j < i ==> #[trigger] metrics.0@[j] == after_pressure(
                old(metrics).0@[j],
                pressure as int,
            ),
            forall|j: int| i <= j < NATION_COUNT ==> #[trigger] metrics.0@[j] == old(metrics).0@[j],
            forall|j: int|
                0 <= j < i ==> #[trigger] ideology.volatility@[j] == stirred(
                    old(ideology).volatility@[j] as int,
                    pressure as int,
                ),
            forall|j: int|
                i <= j < NATION_COUNT ==> #[trigger] ideology.volatility@[j] == old(
                    ideology,
                ).volatility@[j],
        decreases NATION_COUNT - i,
    {
        let m = &mut metrics.0[i];
        m.diplomacy = clamp(m.diplomacy - pressure * 10 - m.trade_penalty * 2 / 10, 0, METRIC_MAX);
        m.trade_penalty = m.trade_penalty * 95 / 100;
        let volatility: i64 = clamp(ideology.volatility[i] + pressure * 8, 0, 140 * SCALE);
        ideology.volatility.set(i, volatility);
        i += 1;
    }
}

/// A nation whose diplomacy has been reassured by `times` seats in alliances.
pub open spec fn reassured(m: NationMetrics, times: int) -> NationMetrics {
    NationMetrics { diplomacy: boosted(m.diplomacy as int, 2 * SCALE, 200 * SCALE, times) as i64, ..m }
}

/// One more boost is one more step.
pub proof fn lemma_boosted_step(value: int, step: int, ceiling: int, times: int)
    requires
        times >= 0,
    ensures
        boosted(value, step, ceiling, times + 1) == if boosted(value, step, ceiling, times) + step
            > ceiling {
            ceiling
        } else {
            boosted(value, step, ceiling, times) + step
        },
{
}

#[verifier::rlimit(50)]
fn apply_alliances(diplo: &DiplomaticRelations, metrics: &mut AllNationMetrics, ideology: &mut IdeologyMatrix)
    requires
        diplo.wf(),
        old(metrics).wf(),
        old(ideology).wf(),
    ensures
        final(metrics).wf(),
        final(ideology).wf(),
        final(ideology).leaning@ == old(ideology).leaning@,
        final(ideology).volatility@ == old(ideology).volatility@,
        forall|j: int|
            0 <= j < NATION_COUNT ==> #[trigger] final(metrics).0@[j] == reassured(
                old(metrics).0@[j],
                alliances_of(diplo.alliances@, Nation::at(j), diplo.alliances@.len() as int),
            ),
        forall|j: int|
            0 <= j < NATION_COUNT ==> #[trigger] final(ideology).cohesion@[j] == boosted(
                old(ideology).cohesion@[j] as int,
                SCALE as int,
                120 * SCALE,
                alliances_of(diplo.alliances@, Nation::at(j), diplo.alliances@.len() as int),
            ),
{
    let mut k: usize = 0;
    while k < diplo.alliances.len()
        invariant
            k <= diplo.alliances@.len(),
            metrics.0@.len() == NATION_COUNT,
            old(metrics).wf(),
            old(ideology).wf(),
            ideology.wf(),
            ideology.leaning@ == old(ideology).leaning@,
            ideology.volatility@ == old(ideology).volatility@,
            forall|j: int| 0 <= j < NATION_COUNT ==> (#[trigger] metrics.0@[j]).wf(),
            forall|j: int|
                0 <= j < NATION_COUNT ==> #[trigger] metrics.0@[j] == reassured(
                    old(metrics).0@[j],
                    alliances_of(diplo.alliances@, Nation::at(j), k as int),
                ),
            forall|j: int|
                0 <= j < NATION_COUNT ==> #[trigger] ideology.cohesion@[j] == boosted(
                    old(ideology).cohesion@[j] as int,
                    SCALE as int,
                    120 * SCALE,
                    alliances_of(diplo.alliances@, Nation::at(j), k as int),
                ),
        decreases diplo.alliances@.len() - k,
    {
        let (a, b) = diplo.alliances[k];
        let ia: usize = a.index();
        let ib: usize = b.index();
        let ghost m0 = metrics.0@;
        let ghost c0 = ideology.cohesion@;
        let da: i64 = boost(metrics.0[ia].diplomacy, 2 * SCALE, 200 * SCALE);
        metrics.0[ia].diplomacy = da;
        let db: i64 = boost(metrics.0[ib].diplomacy, 2 * SCALE, 200 * SCALE);
        metrics.0[ib].diplomacy = db;
        let ca: i64 = boost(ideology.cohesion[ia], SCALE, 120 * SCALE);
        ideology.cohesion.set(ia, ca);
        let cb: i64 = boost(ideology.cohesion[ib], SCALE, 120 * SCALE);
        ideology.cohesion.set(ib, cb);
        proof {
            assert(diplo.alliances@[k as int] == (a, b));
            assert forall|j: int| 0 <= j < NATION_COUNT implies #[trigger] metrics.0@[j]
                == reassured(
                old(metrics).0@[j],
                alliances_of(diplo.alliances@, Nation::at(j), k as int + 1),
            ) by {
                let seats = alliances_of(diplo.alliances@, Nation::at(j), k as int);
                lemma_seats_nonnegative(diplo.alliances@, Nation::at(j), k as int);
                let d = old(metrics).0@[j].diplomacy as int;
                assert(m0[j] == reassured(old(metrics).0@[j], seats));
                assert(Nation::at(j) == a <==> j == ia);
                assert(Nation::at(j) == b <==> j == ib);
                lemma_boosted_step(d, 2 * SCALE, 200 * SCALE, seats);
                lemma_boosted_step(d, 2 * SCALE, 200 * SCALE, seats + 1);
                lemma_boosted_bounds(d, 2 * SCALE, 200 * SCALE, seats);
                lemma_boosted_bounds(d, 2 * SCALE, 200 * SCALE, seats + 1);
                lemma_boosted_bounds(d, 2 * SCALE, 200 * SCALE, seats + 2);
                if j == ia && j == ib {
                    assert(alliances_of(diplo.alliances@, Nation::at(j), k as int + 1) == seats + 2);
                    assert(metrics.0@[j].diplomacy == db);
                } else if j == ia {
                    assert(alliances_of(diplo.alliances@, Nation::at(j), k as int + 1) == seats + 1);
                    assert(metrics.0@[j].diplomacy == da);
                } else if j == ib {
                    assert(alliances_of(diplo.alliances@, Nation::at(j), k as int + 1) == seats + 1);
                    assert(metrics.0@[j].diplomacy == db);
                } else {
                    assert(alliances_of(diplo.alliances@, Nation::at(j), k as int + 1) == seats);
                    assert(metrics.0@[j] == m0[j]);
                }
            }
            assert forall|j: int| 0 <= j < NATION_COUNT implies #[trigger] ideology.cohesion@[j]
                == boosted(
                old(ideology).cohesion@[j] as int,
                SCALE as int,
                120 * SCALE,
                alliances_of(diplo.alliances@, Nation::at(j), k as int + 1),
            ) by {
                let seats = alliances_of(diplo.alliances@, Nation::at(j), k as int);
                lemma_seats_nonnegative(diplo.alliances@, Nation::at(j), k as int);
                let c = old(ideology).cohesion@[j] as int;
                assert(c0[j] == boosted(c, SCALE as int, 120 * SCALE, seats));
                assert(Nation::at(j) == a <==> j == ia);
                assert(Nation::at(j) == b <==> j == ib);
                lemma_boosted_step(c, SCALE as int, 120 * SCALE, seats);
                lemma_boosted_step(c, SCALE as int, 120 * SCALE, seats + 1);
                if j == ia && j == ib {
                    assert(alliances_of(diplo.alliances@, Nation::at(j), k as int + 1) == seats + 2);
                } else if j == ia {
                    assert(alliances_of(diplo.alliances@, Nation::at(j), k as int + 1) == seats + 1);
                } else if j == ib {
                    assert(alliances_of(diplo.alliances@, Nation::at(j), k as int + 1) == seats + 1);
                } else {
                    assert(alliances_of(diplo.alliances@, Nation::at(j), k as int + 1) == seats);
                }
            }
        }
        k += 1;
    }
}

pub proof fn lemma_seats_nonnegative(alliances: Seq<(Nation, Nation)>, nation: Nation, n: int)
    ensures
        alliances_of(alliances, nation, n) >= 0,
        sanctions_against(alliances, nation, n) >= 0,
    decreases n,
{
    if n > 0 {
        lemma_seats_nonnegative(alliances, nation, n - 1);
    }
}

/// Applies sanctions, war pressure and the reassurance of alliances.
pub fn security_system(
    diplo: &DiplomaticRelations,
    metrics: &mut AllNationMetrics,
    war: &WarFatigue,
    ideology: &mut IdeologyMatrix,
)
    requires
        diplo.wf(),
        old(metrics).wf(),
        war.wf(),
        old(ideology).wf(),
    ensures
        final(metrics).wf(),
        final(ideology).wf(),
        forall|i: int|
            0 <= i < NATION_COUNT ==> #[trigger] final(metrics).0@[i] == nation_after_security(
                old(metrics).0@[i],
                Nation::at(i),
                diplo,
                war.intensity as int,
            ),
        forall|i: int|
            0 <= i < NATION_COUNT ==> #[trigger] final(ideology).volatility@[i] == stirred(
                old(ideology).volatility@[i] as int,
                war_pressure(war.intensity as int),
            ),
        forall|i: int|
            0 <= i < NATION_COUNT ==> #[trigger] final(ideology).cohesion@[i] == boosted(
                old(ideology).cohesion@[i] as int,
                SCALE as int,
                120 * SCALE,
                alliances_of(diplo.alliances@, Nation::at(i), diplo.alliances@.len() as int),
            ),
        final(ideology).leaning@ == old(ideology).leaning@,
        same_fates(old(metrics).0@, final(metrics).0@),
{
    apply_sanctions(diplo, metrics);
    let pressure: i64 = clamp(war.intensity / 100, 0, SCALE);
    apply_pressure(metrics, ideology, pressure);
    apply_alliances(diplo, metrics, ideology);
    proof {
        assert forall|i: int| 0 <= i < NATION_COUNT implies (#[trigger] metrics.0@[i]).is_destroyed
            == old(metrics).0@[i].is_destroyed by {
            lemma_sanctions_keep_fate(
                old(metrics).0@[i],
                sanctions_against(diplo.sanctions@, Nation::at(i), diplo.sanctions@.len() as int),
            );
        }
    }
}

/// Sanctions neither destroy nor revive.
pub proof fn lemma_sanctions_keep_fate(m: NationMetrics, times: int)
    ensures
        after_sanctions(m, times).is_destroyed == m.is_destroyed,
    decreases times,
{
    if times > 0 {
        lemma_sanctions_keep_fate(m, times - 1);
    }
}

} // verus!
