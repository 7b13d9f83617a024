//! Seasons, the prosperity overlay and what the climate does to nations.

use vstd::prelude::*;
use crate::resources::same_fates;
use crate::fixed::SCALE;
use crate::fixed::clamp;
use crate::fixed::clamp_int;
use crate::fixed::lemma_scaled_shrinks;
use crate::fixed::scale;
use crate::fixed::scaled;
use crate::fixed::share;
use crate::history::push_history;
use crate::history::pushed_bounded;
use crate::history::HISTORY_CAP;
use crate::nation::NATION_COUNT;
use crate::resources::AllNationCivState;
use crate::resources::AllNationMetrics;
use crate::resources::ClimateState;
use crate::resources::METRIC_MAX;
use crate::resources::NationCivState;
use crate::resources::NationMetrics;
use crate::resources::STOCK_MAX;
use crate::resources::WorldRichness;
use crate::resources::WorldTime;
use crate::resources::destroyed_are_empty;
use crate::resources::destruction_is_final;
use crate::world::Season;
use crate::world::WorldMetadata;

verus! {

/// How a season shifts morale, yield and risk, in millionths.
pub open spec fn season_shifts(season: Season) -> (int, int, int) {
    match season {
        Season::SunburstPeak => (-4_000_000, 6_000_000, 5_000_000),
        Season::Ashfall => (-2_000_000, -2_000_000, 4_000_000),
        Season::FlowerBloom => (4_000_000, 3_000_000, -2_000_000),
    }
}

fn shifts_for(season: Season) -> (r: (i64, i64, i64))
    ensures
        (r.0 as int, r.1 as int, r.2 as int) == season_shifts(season),
{
    match season {
        Season::SunburstPeak => (-4_000_000, 6_000_000, 5_000_000),
        Season::Ashfall => (-2_000_000, -2_000_000, 4_000_000),
        Season::FlowerBloom => (4_000_000, 3_000_000, -2_000_000),
    }
}

/// Civic state after a tick of a season.
pub open spec fn civ_after_season(s: NationCivState, season: Season) -> NationCivState {
    let (morale, harvest, risk) = season_shifts(season);
    NationCivState {
        happiness: clamp_int(s.happiness + morale / 10, 0, 120 * SCALE) as i64,
        production: clamp_int(s.production + harvest / 10, 0, 150 * SCALE) as i64,
        stability: clamp_int(s.stability - risk / 20, 0, 120 * SCALE) as i64,
        ..s
    }
}

/// A nation after a tick of a season.
pub open spec fn nation_after_season(m: NationMetrics, season: Season) -> NationMetrics {
    let (morale, harvest, risk) = season_shifts(season);
    NationMetrics {
        economy: clamp_int(m.economy + harvest * 15 / 100, 0, 200 * SCALE) as i64,
        culture: clamp_int(m.culture + morale / 10, 0, 200 * SCALE) as i64,
        military: clamp_int(m.military - risk / 10, 0, 200 * SCALE) as i64,
        ..m
    }
}

/// Applies the season's pulse to civic life and to the nations' surface metrics.
pub fn environment_system(
    metrics: &mut AllNationMetrics,
    civ_state: &mut AllNationCivState,
    time: &WorldTime,
    meta: &WorldMetadata,
)
    requires
        old(metrics).wf(),
        old(civ_state).wf(),
        meta.wf(),
    ensures
        final(metrics).wf(),
        final(civ_state).wf(),
        forall|i: int|
            0 <= i < NATION_COUNT ==> #[trigger] final(metrics).0@[i] == nation_after_season(
                old(metrics).0@[i],
                meta.epochs.season_at(time.tick as int),
            ),
        forall|i: int|
            0 <= i < NATION_COUNT ==> #[trigger] final(civ_state).0@[i] == civ_after_season(
                old(civ_state).0@[i],
                meta.epochs.season_at(time.tick as int),
            ),
        same_fates(old(metrics).0@, final(metrics).0@),
        destroyed_are_empty(old(metrics).0@, old(civ_state).0@) ==> destroyed_are_empty(final(metrics).0@, final(civ_state).0@),
{
    let season: Season = meta.cadence_for_tick(time.tick).1;
    let (morale, harvest, risk) = shifts_for(season);
    let mut i: usize = 0;
    while i < NATION_COUNT
        invariant
            i <= NATION_COUNT,
            (morale as int, harvest as int, risk as int) == season_shifts(season),
            metrics.0@.len() == NATION_COUNT,
            civ_state.0@.len() == NATION_COUNT,
            forall|j: int| 0 <= j < NATION_COUNT ==> (#[trigger] metrics.0@[j]).wf(),
            forall|j: int| 0 <= j < NATION_COUNT ==> (#[trigger] civ_state.0@[j]).wf(),
            forall|j: int|
                0 <= j < i ==> #[trigger] metrics.0@[j] == nation_after_season(
                    old(metrics).0@[j],
                    season,
                ),
            forall|j: int| i <= j < NATION_COUNT ==> #[trigger] metrics.0@[j] == old(metrics).0@[j],
            forall|j: int|
                0 <= j < i ==> #[trigger] civ_state.0@[j] == civ_after_season(
                    old(civ_state).0@[j],
                    season,
                ),
            forall|j: int|
                i <= j < NATION_COUNT ==> #[trigger] civ_state.0@[j] == old(civ_state).0@[j],
        decreases NATION_COUNT - i,
    {
        let s = &mut civ_state.0[i];
        s.happiness = clamp(s.happiness + morale / 10, 0, 120 * SCALE);
        s.production = clamp(s.production + harvest / 10, 0, 150 * SCALE);
        s.stability = clamp(s.stability - risk / 20, 0, 120 * SCALE);
        let m = &mut metrics.0[i];
        m.economy = clamp(m.economy + harvest * 15 / 100, 0, 200 * SCALE);
        m.culture = clamp(m.culture + morale / 10, 0, 200 * SCALE);
        m.military = clamp(m.military - risk / 10, 0, 200 * SCALE);
        i += 1;
    }
}

/// Sum over the living among the first `n` nations of the mean of economy and science.
pub open spec fn prosperity_sum(metrics: Seq<NationMetrics>, n: int) -> int
    decreases n,
{
    if n <= 0 {
        0
    } else {
        prosperity_sum(metrics, n - 1) + if metrics[n - 1].is_destroyed {
            0
        } else {
            metrics[n - 1].economy / 2 + metrics[n - 1].science / 2
        }
    }
}

/// Number of living nations among the first `n`.
pub open spec fn living_count(metrics: Seq<NationMetrics>, n: int) -> int
    decreases n,
{
    if n <= 0 {
        0
    } else {
        living_count(metrics, n - 1) + if metrics[n - 1].is_destroyed {
            0int
        } else {
            1int
        }
    }
}

/// The richness of the world: mean prosperity of the living nations, in hundreds
/// of units; nothing when no nation lives.
pub open spec fn richness_of(metrics: Seq<NationMetrics>) -> int {
    let living = living_count(metrics, NATION_COUNT as int);
    if living > 0 {
        prosperity_sum(metrics, NATION_COUNT as int) / living / 100
    } else {
        0
    }
}

pub proof fn lemma_prosperity_bounds(metrics: Seq<NationMetrics>, n: int)
    requires
        0 <= n <= metrics.len(),
        forall|i: int| 0 <= i < metrics.len() ==> (#[trigger] metrics[i]).wf(),
    ensures
        0 <= living_count(metrics, n) <= n,
        0 <= prosperity_sum(metrics, n) <= living_count(metrics, n) * METRIC_MAX,
    decreases n,
{
    if n > 0 {
        lemma_prosperity_bounds(metrics, n - 1);
    }
}

/// Aggregates the prosperity of the living nations into the richness overlay.
pub fn richness_overlay_system(richness: &mut WorldRichness, all_metrics: &AllNationMetrics)
    requires
        old(richness).wf(),
        all_metrics.wf(),
    ensures
        final(richness).wf(),
        final(richness).richness == richness_of(all_metrics.0@),
        final(richness).history@ == pushed_bounded(
            old(richness).history@,
            (richness_of(all_metrics.0@) * 100) as i64,
            HISTORY_CAP as int,
        ),
{
    let mut total: i64 = 0;
    let mut count: i64 = 0;
    let mut i: usize = 0;
    while i < NATION_COUNT
        invariant
            i <= NATION_COUNT,
            all_metrics.wf(),
            total == prosperity_sum(all_metrics.0@, i as int),
            count == living_count(all_metrics.0@, i as int),
            0 <= count <= i,
            0 <= total <= count * METRIC_MAX,
        decreases NATION_COUNT - i,
    {
        let m = &all_metrics.0[i];
        if !m.is_destroyed {
            total = total + (m.economy / 2 + m.science / 2);
            count = count + 1;
        }
        i += 1;
    }
    let value: i64 = if count > 0 {
        assert(total / count <= METRIC_MAX) by (nonlinear_arith)
            requires
                0 <= total <= count * METRIC_MAX,
                count > 0,
        ;
        total / count / 100
    } else {
        0
    };
    richness.richness = value;
    push_history(&mut richness.history, value * 100);
}

/// The share of land lost to sea and ice, between zero and one.
pub open spec fn land_loss(sea: int, ice: int) -> int {
    clamp_int(sea * 8 / 10 + (SCALE - ice) * 2 / 10, 0, SCALE as int)
}

/// The toll climate risk takes on productivity: eight percent of the risk, at most 25 units.
pub open spec fn risk_penalty(risk: int) -> int {
    if risk * 8 / 100 > 25 * SCALE {
        25 * SCALE as int
    } else {
        risk * 8 / 100
    }
}

/// Whether the climate is kind enough for recovery.
pub open spec fn is_habitable(climate: &ClimateState) -> bool {
    SCALE - land_loss(climate.sea_level as int, climate.ice_line as int) > 800_000
        && climate.climate_risk < 25 * SCALE
}

/// The head count the climate leaves a living nation with.
pub open spec fn population_after_climate(population: int, loss: int) -> int {
    let kept = scaled(population, 999_000 - loss * 8 / 100, SCALE as int);
    if kept < 10_000 {
        10_000
    } else {
        kept
    }
}

/// A living nation after the climate has taken its toll; a destroyed one is left alone.
pub open spec fn nation_after_climate(m: NationMetrics, climate: &ClimateState) -> NationMetrics {
    if m.is_destroyed {
        m
    } else {
        let sea = climate.sea_level as int;
        let loss = land_loss(sea, climate.ice_line as int);
        let penalty = risk_penalty(climate.climate_risk as int);
        let worked = if m.economy - penalty < 0 {
            0
        } else {
            m.economy - penalty
        };
        let economy_rate = if 990_000 - sea * 15 / 100 < 600_000 {
            600_000
        } else {
            990_000 - sea * 15 / 100
        };
        let military_rate = if 995_000 - loss * 15 / 100 < 500_000 {
            500_000
        } else {
            995_000 - loss * 15 / 100
        };
        let shore = scaled(m.territory as int, 980_000 - sea * 25 / 100, SCALE as int);
        let territory = if shore < 5 * SCALE {
            5 * SCALE as int
        } else {
            shore
        };
        let economy = scaled(worked, economy_rate, SCALE as int);
        let fragile = climate.biodiversity < 40 * SCALE;
        let kind = is_habitable(climate);
        (NationMetrics {
            economy: if kind {
                clamp_int(economy + 800_000, 0, 220 * SCALE)
            } else {
                economy
            } as i64,
            territory: if kind {
                clamp_int(territory + 200_000, 0, 120 * SCALE)
            } else {
                territory
            } as i64,
            military: scaled(m.military as int, military_rate, SCALE as int) as i64,
            science: clamp_int(m.science - penalty * 4 / 10, 0, METRIC_MAX as int) as i64,
            research_stock: if climate.biodiversity > 30 * SCALE {
                clamp_int(m.research_stock + climate.biodiversity * 2 / 100, 0, STOCK_MAX as int)
            } else {
                m.research_stock as int
            } as i64,
            culture: if fragile {
                clamp_int(m.culture - 600_000, 0, METRIC_MAX as int)
            } else {
                m.culture as int
            } as i64,
            diplomacy: if fragile {
                clamp_int(m.diplomacy - 400_000, 0, METRIC_MAX as int)
            } else {
                m.diplomacy as int
            } as i64,
            ..m
        }).with_population(population_after_climate(m.population as int, loss))
    }
}

/// Civic state of a living nation after the climate has taken its toll.
pub open spec fn civ_after_climate(s: NationCivState, climate: &ClimateState) -> NationCivState {
    let sea = climate.sea_level as int;
    let risk = climate.climate_risk as int;
    let loss = land_loss(sea, climate.ice_line as int);
    let habitability = SCALE - loss;
    NationCivState {
        happiness: clamp_int(
            s.happiness - risk * 4 / 100 - loss * 12 + habitability * 4,
            5 * SCALE,
            130 * SCALE,
        ) as i64,
        production: clamp_int(
            scaled(s.production as int, 995_000 - sea * 8 / 100, SCALE as int) + habitability * 12
                / 10,
            0,
            160 * SCALE,
        ) as i64,
        stability: clamp_int(s.stability - risk * 3 / 100 - loss * 8, 0, 140 * SCALE) as i64,
        ..s
    }
}

fn climate_hits_nation(m: &mut NationMetrics, climate: &ClimateState)
    requires
        old(m).wf(),
        !old(m).is_destroyed,
        climate.wf(),
    ensures
        *final(m) == nation_after_climate(*old(m), climate),
        final(m).wf(),
        !final(m).is_destroyed,
{
    let sea: i64 = climate.sea_level;
    let loss: i64 = clamp(sea * 8 / 10 + (SCALE - climate.ice_line) * 2 / 10, 0, SCALE);
    let penalty: i64 = if climate.climate_risk * 8 / 100 > 25 * SCALE {
        25 * SCALE
    } else {
        climate.climate_risk * 8 / 100
    };
    let worked: i64 = if m.economy - penalty < 0 {
        0
    } else {
        m.economy - penalty
    };
    let economy_rate: i64 = if 990_000 - sea * 15 / 100 < 600_000 {
        600_000
    } else {
        990_000 - sea * 15 / 100
    };
    let military_rate: i64 = if 995_000 - loss * 15 / 100 < 500_000 {
        500_000
    } else {
        995_000 - loss * 15 / 100
    };
    proof {
        lemma_scaled_shrinks(m.territory as int, 980_000 - sea * 25 / 100, SCALE as int);
        lemma_scaled_shrinks(worked as int, economy_rate as int, SCALE as int);
        lemma_scaled_shrinks(m.military as int, military_rate as int, SCALE as int);
        lemma_scaled_shrinks(m.population as int, 999_000 - loss * 8 / 100, SCALE as int);
    }
    let shore: i64 = scale(m.territory, 980_000 - sea * 25 / 100, SCALE);
    let territory: i64 = if shore < 5 * SCALE {
        5 * SCALE
    } else {
        shore
    };
    let economy: i64 = scale(worked, economy_rate, SCALE);
    let fragile: bool = climate.biodiversity < 40 * SCALE;
    let kind: bool = SCALE - loss > 800_000 && climate.climate_risk < 25 * SCALE;
    let kept: u64 = share(m.population, (999_000 - loss * 8 / 100) as u64, SCALE as u64);
    let population: u64 = if kept < 10_000 {
        10_000
    } else {
        kept
    };
    m.economy = if kind {
        clamp(economy + 800_000, 0, 220 * SCALE)
    } else {
        economy
    };
    m.territory = if kind {
        clamp(territory + 200_000, 0, 120 * SCALE)
    } else {
        territory
    };
    m.military = scale(m.military, military_rate, SCALE);
    m.science = clamp(m.science - penalty * 4 / 10, 0, METRIC_MAX);
    if climate.biodiversity > 30 * SCALE {
        m.research_stock = clamp(m.research_stock + climate.biodiversity * 2 / 100, 0, STOCK_MAX);
    }
    if fragile {
        m.culture = clamp(m.culture - 600_000, 0, METRIC_MAX);
        m.diplomacy = clamp(m.diplomacy - 400_000, 0, METRIC_MAX);
    }
    m.set_population(population);
}

fn climate_hits_civ(s: &mut NationCivState, climate: &ClimateState)
    requires
        old(s).wf(),
        climate.wf(),
    ensures
        *final(s) == civ_after_climate(*old(s), climate),
        final(s).wf(),
{
    let sea: i64 = climate.sea_level;
    let risk: i64 = climate.climate_risk;
    let loss: i64 = clamp(sea * 8 / 10 + (SCALE - climate.ice_line) * 2 / 10, 0, SCALE);
    let habitability: i64 = SCALE - loss;
    proof {
        lemma_scaled_shrinks(s.production as int, 995_000 - sea * 8 / 100, SCALE as int);
    }
    s.happiness = clamp(
        s.happiness - risk * 4 / 100 - loss * 12 + habitability * 4,
        5 * SCALE,
        130 * SCALE,
    );
    s.production = clamp(
        scale(s.production, 995_000 - sea * 8 / 100, SCALE) + habitability * 12 / 10,
        0,
        160 * SCALE,
    );
    s.stability = clamp(s.stability - risk * 3 / 100 - loss * 8, 0, 140 * SCALE);
}

/// Applies the climate's penalties and bonuses to every living nation.
pub fn climate_impact_system(
    climate: &ClimateState,
    metrics: &mut AllNationMetrics,
    civ_state: &mut AllNationCivState,
)
    requires
        climate.wf(),
        old(metrics).wf(),
        old(civ_state).wf(),
        destroyed_are_empty(old(metrics).0@, old(civ_state).0@),
    ensures
        final(metrics).wf(),
        final(civ_state).wf(),
        forall|i: int|
            0 <= i < NATION_COUNT ==> #[trigger] final(metrics).0@[i] == nation_after_climate(
                old(metrics).0@[i],
                climate,
            ),
        forall|i: int|
            0 <= i < NATION_COUNT ==> #[trigger] final(civ_state).0@[i] == if old(
                metrics,
            ).0@[i].is_destroyed {
                old(civ_state).0@[i]
            } else {
                civ_after_climate(old(civ_state).0@[i], climate)
            },
        destruction_is_final(old(metrics).0@, final(metrics).0@),
        destroyed_are_empty(final(metrics).0@, final(civ_state).0@),
        same_fates(old(metrics).0@, final(metrics).0@),
{
    let mut i: usize = 0;
    while i < NATION_COUNT
        invariant
            i <= NATION_COUNT,
            climate.wf(),
            metrics.0@.len() == NATION_COUNT,
            civ_state.0@.len() == NATION_COUNT,
            forall|j: int| 0 <= j < NATION_COUNT ==> (#[trigger] metrics.0@[j]).wf(),
            forall|j: int| 0 <= j < NATION_COUNT ==> (#[trigger] civ_state.0@[j]).wf(),
            forall|j: int|
                0 <= j < i ==> #[trigger] metrics.0@[j] == nation_after_climate(
                    old(metrics).0@[j],
                    climate,
                ),
            forall|j: int| i <= j < NATION_COUNT ==> #[trigger] metrics.0@[j] == old(metrics).0@[j],
            forall|j: int|
                0 <= j < i ==> #[trigger] civ_state.0@[j] == if old(metrics).0@[j].is_destroyed {
                    old(civ_state).0@[j]
                } else {
                    civ_after_climate(old(civ_state).0@[j], climate)
                },
            forall|j: int|
                i <= j < NATION_COUNT ==> #[trigger] civ_state.0@[j] == old(civ_state).0@[j],
        decreases NATION_COUNT - i,
    {
        if !metrics.0[i].is_destroyed {
            climate_hits_nation(&mut metrics.0[i], climate);
            climate_hits_civ(&mut civ_state.0[i], climate);
        }
        i += 1;
    }
}

} // verus!
