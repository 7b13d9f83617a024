//! Births, ageing, deaths and what the age structure means for productivity.

use vstd::prelude::*;
use crate::resources::same_fates;
use crate::fixed::SCALE;
use crate::fixed::clamp;
use crate::fixed::clamp_int;
use crate::fixed::lemma_scaled_bounds;
use crate::fixed::rounded_share;
use crate::fixed::scale;
use crate::fixed::scaled;
use crate::fixed::share_rounded;
use crate::nation::NATION_COUNT;
use crate::resources::AllNationMetrics;
use crate::resources::ClimateState;
use crate::resources::METRIC_MAX;
use crate::resources::NationMetrics;
use crate::resources::POPULATION_MAX;
use crate::resources::WorldTime;

verus! {

/// Where the six-tick business cycle stands at a tick, between zero and one.
pub open spec fn business_cycle(tick: u64) -> int {
    let phase = tick % 6;
    if phase == 0 {
        500_000
    } else if phase == 1 {
        920_000
    } else if phase == 2 {
        950_000
    } else if phase == 3 {
        570_000
    } else if phase == 4 {
        120_000
    } else {
        20_000
    }
}

pub fn business_cycle_at(tick: u64) -> (r: i64)
    ensures
        r == business_cycle(tick),
        0 <= r <= SCALE,
{
    let phase: u64 = tick % 6;
    if phase == 0 {
        500_000
    } else if phase == 1 {
        920_000
    } else if phase == 2 {
        950_000
    } else if phase == 3 {
        570_000
    } else if phase == 4 {
        120_000
    } else {
        20_000
    }
}

/// How much climate risk drags on productivity: 0.3 percent of the risk, at most a quarter.
pub open spec fn climate_drag(risk: int) -> int {
    if risk * 3 / 1000 > 250_000 {
        250_000
    } else {
        risk * 3 / 1000
    }
}

/// Productivity at a point of the cycle under a climate drag, at least 0.4.
pub open spec fn productivity_at(cycle: int, drag: int) -> int {
    if SCALE + cycle * 2 / 10 - drag < 400_000 {
        400_000
    } else {
        SCALE + cycle * 2 / 10 - drag
    }
}

/// Unemployment in percent at a point of the cycle under a climate drag, at most 40.
pub open spec fn unemployment_at(cycle: int, drag: int) -> int {
    if 6 * SCALE + (SCALE - cycle) * 5 + drag * 10 > 40 * SCALE {
        40 * SCALE as int
    } else {
        6 * SCALE + (SCALE - cycle) * 5 + drag * 10
    }
}

/// Births in a tick; none that would lift the nation over the population limit.
pub open spec fn births_of(m: NationMetrics) -> int {
    let due = rounded_share(m.adult as int, 8, 10_000);
    if m.population + due > POPULATION_MAX {
        POPULATION_MAX - m.population
    } else {
        due
    }
}

/// A living nation after a tick of demography; a destroyed one is left alone.
pub open spec fn after_demography(m: NationMetrics, risk: int, tick: u64) -> NationMetrics {
    if m.is_destroyed {
        m
    } else {
        let births = births_of(m);
        let coming_of_age = rounded_share(m.youth as int, 15, 10_000);
        let retiring = rounded_share(m.adult as int, 9, 10_000);
        let deaths = rounded_share(m.elder as int, 25, 10_000);
        let youth = m.youth + births - coming_of_age;
        let adult = m.adult + coming_of_age - retiring;
        let elder = m.elder + retiring - deaths;
        let cycle = business_cycle(tick);
        let drag = climate_drag(risk);
        let productivity = productivity_at(cycle, drag);
        let unemployment = unemployment_at(cycle, drag);
        let workers = scaled(adult, SCALE - unemployment / 100, SCALE as int);
        NationMetrics {
            youth: youth as u64,
            adult: adult as u64,
            elder: elder as u64,
            population: (youth + adult + elder) as u64,
            productivity: productivity as i64,
            unemployment: unemployment as i64,
            economy: clamp_int(
                m.economy + scaled(workers, productivity, SCALE as int) * 8 / 10,
                0,
                METRIC_MAX as int,
            ) as i64,
            science: clamp_int(
                m.science + scaled(elder, productivity, SCALE as int) * 3 / 10,
                0,
                METRIC_MAX as int,
            ) as i64,
            culture: clamp_int(m.culture + elder * 4 / 10, 0, METRIC_MAX as int) as i64,
            ..m
        }
    }
}

/// Whether the head count is the sum of the three age groups.
pub open spec fn counts_add_up(m: NationMetrics) -> bool {
    m.population == m.youth + m.adult + m.elder
}

fn demography_nation(m: &mut NationMetrics, risk: i64, tick: u64)
    requires
        old(m).wf(),
        !old(m).is_destroyed,
        0 <= risk <= crate::resources::RISK_MAX,
    ensures
        *final(m) == after_demography(*old(m), risk as int, tick),
        final(m).wf(),
        !final(m).is_destroyed,
{
    let due: u64 = share_rounded(m.adult, 8, 10_000);
    let births: u64 = if m.population + due > POPULATION_MAX {
        POPULATION_MAX - m.population
    } else {
        due
    };
    let coming_of_age: u64 = share_rounded(m.youth, 15, 10_000);
    let retiring: u64 = share_rounded(m.adult, 9, 10_000);
    let deaths: u64 = share_rounded(m.elder, 25, 10_000);
    let youth: u64 = m.youth + births - coming_of_age;
    let adult: u64 = m.adult + coming_of_age - retiring;
    let elder: u64 = m.elder + retiring - deaths;
    let cycle: i64 = business_cycle_at(tick);
    let drag: i64 = if risk * 3 / 1000 > 250_000 {
        250_000
    } else {
        risk * 3 / 1000
    };
    let productivity: i64 = if SCALE + cycle * 2 / 10 - drag < 400_000 {
        400_000
    } else {
        SCALE + cycle * 2 / 10 - drag
    };
    let unemployment: i64 = if 6 * SCALE + (SCALE - cycle) * 5 + drag * 10 > 40 * SCALE {
        40 * SCALE
    } else {
        6 * SCALE + (SCALE - cycle) * 5 + drag * 10
    };
    proof {
        lemma_scaled_bounds(
            adult as int,
            SCALE - unemployment / 100,
            SCALE as int,
            POPULATION_MAX as int,
            SCALE as int,
        );
        lemma_scaled_bounds(
            scaled(adult as int, SCALE - unemployment / 100, SCALE as int),
            productivity as int,
            SCALE as int,
            POPULATION_MAX as int,
            1_200_000,
        );
        lemma_scaled_bounds(
            elder as int,
            productivity as int,
            SCALE as int,
            POPULATION_MAX as int,
            1_200_000,
        );
    }
    let workers: i64 = scale(adult as i64, SCALE - unemployment / 100, SCALE);
    m.youth = youth;
    m.adult = adult;
    m.elder = elder;
    m.population = youth + adult + elder;
    m.productivity = productivity;
    m.unemployment = unemployment;
    m.economy = clamp(m.economy + scale(workers, productivity, SCALE) * 8 / 10, 0, METRIC_MAX);
    m.science = clamp(
        m.science + scale(elder as i64, productivity, SCALE) * 3 / 10,
        0,
        METRIC_MAX,
    );
    m.culture = clamp(m.culture + (elder as i64) * 4 / 10, 0, METRIC_MAX);
}

/// Moves every living nation's people through the age groups and updates what the
/// age structure yields. Afterwards the head count of every nation is again the
/// sum of its three age groups.
pub fn demography_system(metrics: &mut AllNationMetrics, climate: &ClimateState, time: &WorldTime)
    requires
        old(metrics).wf(),
        climate.wf(),
    ensures
        final(metrics).wf(),
        forall|i: int|
            0 <= i < NATION_COUNT ==> #[trigger] final(metrics).0@[i] == after_demography(
                old(metrics).0@[i],
                climate.climate_risk as int,
                time.tick,
            ),
        forall|i: int| 0 <= i < NATION_COUNT ==> counts_add_up(#[trigger] final(metrics).0@[i]),
        same_fates(old(metrics).0@, final(metrics).0@),
{
    let mut i: usize = 0;
    while i < NATION_COUNT
        invariant
            i <= NATION_COUNT,
            climate.wf(),
            metrics.0@.len() == NATION_COUNT,
            forall|j: int| 0 <= j < NATION_COUNT ==> (#[trigger] metrics.0@[j]).wf(),
            forall|j: int|
                0 <= j < i ==> #[trigger] metrics.0@[j] == after_demography(
                    old(metrics).0@[j],
                    climate.climate_risk as int,
                    time.tick,
                ),
            forall|j: int| i <= j < NATION_COUNT ==> #[trigger] metrics.0@[j] == old(metrics).0@[j],
        decreases NATION_COUNT - i,
    {
        if !metrics.0[i].is_destroyed {
            demography_nation(&mut metrics.0[i], climate.climate_risk, time.tick);
        }
        i += 1;
    }
}

} // verus!
