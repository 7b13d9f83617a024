//! Cities: how they grow a nation and when a new one is founded.

use vstd::prelude::*;
use crate::resources::same_fates;
use crate::fixed::SCALE;
use crate::fixed::clamp;
use crate::fixed::clamp_int;
use crate::fixed::scaled;
use crate::fixed::share;
use crate::nation::NATION_COUNT;
use crate::resources::AllNationCivState;
use crate::resources::AllNationMetrics;
use crate::resources::CITY_MAX;
use crate::resources::METRIC_MAX;
use crate::resources::NationCivState;
use crate::resources::NationMetrics;
use crate::resources::WorldTime;
use crate::resources::destroyed_are_empty;
use crate::resources::destruction_is_final;
use crate::rng::rng_from_seed;
use crate::rng::rng_ratio;
use crate::rng::seed;

verus! {

/// People a new city brings.
pub const SETTLERS: u64 = 120_000;

/// How many cities a nation of the given territory has room for: one per eight
/// units or part thereof, and one more.
pub open spec fn city_room(territory: int) -> int {
    (territory + 8 * SCALE - 1) / (8 * SCALE) + 1
}

/// Chance that a nation with room founds a city, in millionths: four percent
/// plus a thousandth of its culture, which counts as at least ten units.
pub open spec fn founding_chance(culture: int) -> int {
    40_000 + (if culture < 10 * SCALE {
        10 * SCALE as int
    } else {
        culture
    }) / 1000
}

/// People a living nation gains in a tick: 5,000 per city and 0.05 percent of its people.
pub open spec fn natural_growth(m: NationMetrics, s: NationCivState) -> int {
    s.cities * 5_000 + scaled(m.population as int, 5, 10_000)
}

/// The economy after production has fed it and the mood of the people has told on it.
pub open spec fn economy_after_mood(m: NationMetrics, s: NationCivState) -> int {
    let fed = clamp_int(m.economy + s.production * 15 / 100, 0, 120 * SCALE);
    if s.happiness < 40 * SCALE {
        fed * 995 / 1000
    } else if s.happiness > 75 * SCALE {
        fed * 1003 / 1000
    } else {
        fed
    }
}

/// Whether a nation could found a city this tick.
pub open spec fn has_room(m: NationMetrics, s: NationCivState) -> bool {
    !m.is_destroyed && s.cities < city_room(m.territory as int)
}

/// A nation after a tick of civic life. `founds` says whether it founds a city,
/// which only counts where there is room.
pub open spec fn nation_after_civics(m: NationMetrics, s: NationCivState, founds: bool) -> NationMetrics {
    if m.is_destroyed {
        m
    } else {
        let settled = founds && has_room(m, s);
        (NationMetrics {
            economy: economy_after_mood(m, s) as i64,
            science: clamp_int(m.science + s.production * 12 / 100, 0, 120 * SCALE) as i64,
            culture: clamp_int(m.culture + s.production * 10 / 100, 0, 120 * SCALE) as i64,
            ..m
        }).with_population(
            m.population + natural_growth(m, s) + if settled {
                SETTLERS as int
            } else {
                0
            },
        )
    }
}

/// Civic state after a tick. A destroyed nation is razed.
pub open spec fn civ_after_civics(m: NationMetrics, s: NationCivState, founds: bool) -> NationCivState {
    if m.is_destroyed {
        NationCivState::razed()
    } else {
        let settled = founds && has_room(m, s);
        let stability = clamp_int(
            if s.happiness < 40 * SCALE {
                s.stability - 200_000
            } else if s.happiness > 75 * SCALE {
                s.stability + 150_000
            } else {
                s.stability as int
            },
            0,
            100 * SCALE,
        );
        let calm = clamp_int(s.happiness as int, 0, 100 * SCALE);
        NationCivState {
            cities: if settled && s.cities < CITY_MAX {
                (s.cities + 1) as u32
            } else {
                s.cities
            },
            production: if settled {
                clamp_int(s.production + 3 * SCALE, 0, METRIC_MAX as int) as i64
            } else {
                s.production
            },
            happiness: clamp_int(
                calm + if settled {
                    2 * SCALE as int
                } else {
                    0
                } + 50_000,
                0,
                100 * SCALE,
            ) as i64,
            stability: stability as i64,
        }
    }
}

/// One tick of civic life for one nation.
pub fn civics_step(m: &mut NationMetrics, s: &mut NationCivState, founds: bool)
    requires
        old(m).wf(),
        old(s).wf(),
    ensures
        *final(m) == nation_after_civics(*old(m), *old(s), founds),
        *final(s) == civ_after_civics(*old(m), *old(s), founds),
        final(m).wf(),
        final(s).wf(),
        final(m).is_destroyed == old(m).is_destroyed,
        final(m).is_destroyed ==> final(s).cities == 0,
{
    if m.is_destroyed {
        s.cities = 0;
        s.production = 0;
        s.happiness = 0;
        s.stability = 0;
        return ;
    }
    let room: i64 = (m.territory + 8 * SCALE - 1) / (8 * SCALE) + 1;
    let settled: bool = founds && (s.cities as i64) < room;
    let growth: u64 = (s.cities as u64) * 5_000 + share(m.population, 5, 10_000);
    let fed: i64 = clamp(m.economy + s.production * 15 / 100, 0, 120 * SCALE);
    m.economy = if s.happiness < 40 * SCALE {
        fed * 995 / 1000
    } else if s.happiness > 75 * SCALE {
        fed * 1003 / 1000
    } else {
        fed
    };
    m.science = clamp(m.science + s.production * 12 / 100, 0, 120 * SCALE);
    m.culture = clamp(m.culture + s.production * 10 / 100, 0, 120 * SCALE);
    let target: u64 = m.population + growth + if settled {
        SETTLERS
    } else {
        0
    };
    m.set_population(target);
    let stability: i64 = clamp(
        if s.happiness < 40 * SCALE {
            s.stability - 200_000
        } else if s.happiness > 75 * SCALE {
            s.stability + 150_000
        } else {
            s.stability
        },
        0,
        100 * SCALE,
    );
    let calm: i64 = clamp(s.happiness, 0, 100 * SCALE);
    if settled {
        if s.cities < CITY_MAX {
            s.cities = s.cities + 1;
        }
        s.production = clamp(s.production + 3 * SCALE, 0, METRIC_MAX);
    }
    s.happiness = clamp(calm + if settled {
        2 * SCALE
    } else {
        0
    } + 50_000, 0, 100 * SCALE);
    s.stability = stability;
}

/// Whether a nation and its civic state are what a tick of civic life leaves, with
/// or without a new city.
pub open spec fn is_civics_result(
    m: NationMetrics,
    s: NationCivState,
    after_m: NationMetrics,
    after_s: NationCivState,
) -> bool {
    ||| after_m == nation_after_civics(m, s, true) && after_s == civ_after_civics(m, s, true)
    ||| after_m == nation_after_civics(m, s, false) && after_s == civ_after_civics(m, s, false)
}

pub fn founding_probability(culture: i64) -> (r: u32)
    requires
        0 <= culture <= METRIC_MAX,
    ensures
        r == founding_chance(culture as int),
        r <= SCALE,
{
    let base: i64 = if culture < 10 * SCALE {
        10 * SCALE
    } else {
        culture
    };
    (40_000 + base / 1000) as u32
}

/// Lets cities feed their nations and found new ones.
///
/// Whether a nation with room founds a city is up to the draws. Whatever they
/// are, every nation ends as `civics_step` leaves it for one of the two answers,
/// no nation is destroyed or revived, and a destroyed nation is razed.
pub fn civilization_system(
    civ: &mut AllNationCivState,
    metrics: &mut AllNationMetrics,
    time: &WorldTime,
)
    requires
        old(civ).wf(),
        old(metrics).wf(),
    ensures
        final(civ).wf(),
        final(metrics).wf(),
        forall|i: int|
            0 <= i < NATION_COUNT ==> is_civics_result(
                old(metrics).0@[i],
                old(civ).0@[i],
                #[trigger] final(metrics).0@[i],
                final(civ).0@[i],
            ),
        destruction_is_final(old(metrics).0@, final(metrics).0@),
        destroyed_are_empty(final(metrics).0@, final(civ).0@),
        same_fates(old(metrics).0@, final(metrics).0@),
{
    let mut rng = rng_from_seed(seed(time.tick, 911, 0, 1));
    let mut i: usize = 0;
    while i < NATION_COUNT
        invariant
            i <= NATION_COUNT,
            metrics.0@.len() == NATION_COUNT,
            civ.0@.len() == NATION_COUNT,
            forall|j: int| 0 <= j < NATION_COUNT ==> (#[trigger] metrics.0@[j]).wf(),
            forall|j: int| 0 <= j < NATION_COUNT ==> (#[trigger] civ.0@[j]).wf(),
            old(metrics).wf(),
            old(civ).wf(),
            forall|j: int|
                0 <= j < i ==> is_civics_result(
                    old(metrics).0@[j],
                    old(civ).0@[j],
                    #[trigger] metrics.0@[j],
                    civ.0@[j],
                ),
            forall|j: int|
                0 <= j < i ==> (#[trigger] metrics.0@[j]).is_destroyed == old(
                    metrics,
                ).0@[j].is_destroyed && (metrics.0@[j].is_destroyed ==> civ.0@[j].cities == 0),
            forall|j: int| i <= j < NATION_COUNT ==> #[trigger] metrics.0@[j] == old(metrics).0@[j],
            forall|j: int| i <= j < NATION_COUNT ==> #[trigger] civ.0@[j] == old(civ).0@[j],
        decreases NATION_COUNT - i,
    {
        let m = &metrics.0[i];
        let s = &civ.0[i];
        let room: i64 = (m.territory + 8 * SCALE - 1) / (8 * SCALE) + 1;
        let founds: bool = if !m.is_destroyed && (s.cities as i64) < room {
            rng_ratio(&mut rng, founding_probability(m.culture), 1_000_000)
        } else {
            false
        };
        civics_step(&mut metrics.0[i], &mut civ.0[i], founds);
        i += 1;
    }
}

} // verus!
