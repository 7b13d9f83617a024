//! Cosmic time, geologic ages and the mass extinctions that reset the world.

use vstd::prelude::*;
use vstd::string::*;
use crate::events::WorldEvent;
use crate::events::WorldEventKind;
use crate::events::WorldEventLog;
use crate::events::log_after_push;
use crate::events::only_added;
use crate::fixed::SCALE;
use crate::fixed::clamp;
use crate::fixed::clamp_int;
use crate::fixed::lemma_scaled_bounds;
use crate::fixed::lemma_scaled_shrinks;
use crate::fixed::scale;
use crate::fixed::scaled;
use crate::fixed::share;
use crate::nation::NATION_COUNT;
use crate::resources::AllNationCivState;
use crate::resources::AllNationMetrics;
use crate::resources::ClimateState;
use crate::resources::CosmicTimeline;
use crate::resources::GeologicStage;
use crate::resources::NationCivState;
use crate::resources::NationMetrics;
use crate::resources::WarFatigue;
use crate::resources::WorldRichness;
use crate::resources::WorldTime;
use crate::resources::destroyed_are_empty;
use crate::resources::same_fates;
use crate::text::append_decimal;
use crate::text::append_fixed;
use crate::world::WorldMetadata;

verus! {

/// The geologic age of a planet that many years old.
pub open spec fn stage_of_age(age: u64) -> GeologicStage {
    if age < 500_000_000 {
        GeologicStage::PrimordialCrust
    } else if age < 1_000_000_000 {
        GeologicStage::AncientOcean
    } else if age < 2_500_000_000 {
        GeologicStage::OxygenBloom
    } else if age < 3_500_000_000 {
        GeologicStage::ContinentalSplit
    } else if age < 4_500_000_000 {
        GeologicStage::ExtinctionCycle
    } else {
        GeologicStage::SpaceAge
    }
}

pub fn stage_for_age(age_years: u64) -> (s: GeologicStage)
    ensures
        s == stage_of_age(age_years),
{
    if age_years < 500_000_000 {
        GeologicStage::PrimordialCrust
    } else if age_years < 1_000_000_000 {
        GeologicStage::AncientOcean
    } else if age_years < 2_500_000_000 {
        GeologicStage::OxygenBloom
    } else if age_years < 3_500_000_000 {
        GeologicStage::ContinentalSplit
    } else if age_years < 4_500_000_000 {
        GeologicStage::ExtinctionCycle
    } else {
        GeologicStage::SpaceAge
    }
}

/// The age after one more tick; it stops at the largest age that can be stored.
pub open spec fn age_after(age: u64, years: u64) -> u64 {
    if age + years > u64::MAX {
        u64::MAX
    } else {
        (age + years) as u64
    }
}

/// Whether an event is a shock of a tick with the given headline and outlook,
/// under the labels of the tick, that names no casualties.
pub open spec fn is_shock_report(
    e: WorldEvent,
    tick: u64,
    meta: &WorldMetadata,
    headline: Seq<char>,
    outlook: Seq<char>,
) -> bool {
    &&& e.tick == tick
    &&& e.epoch@ == meta.epochs.segment_at(tick as int).label_text()
    &&& e.season@ == meta.epochs.season_at(tick as int).label_text()
    &&& match e.kind {
        WorldEventKind::MacroShock { stressor, catalyst, projected_impact, casualties } => {
            &&& stressor@ == headline
            &&& projected_impact@ == outlook
            &&& casualties is None
        },
        _ => false,
    }
}

/// Whether an event reports the passing of cosmic time at a tick.
pub open spec fn is_transition_report(e: WorldEvent, tick: u64, meta: &WorldMetadata) -> bool {
    is_shock_report(
        e,
        tick,
        meta,
        "Geologic/space transition"@,
        "Environment/biosphere reset possible"@,
    )
}

/// Whether an event reports a mass extinction at a tick.
pub open spec fn is_extinction_report(e: WorldEvent, tick: u64, meta: &WorldMetadata) -> bool {
    is_shock_report(
        e,
        tick,
        meta,
        "Mass extinction/reboot"@,
        "Population/resource reset then regrowth"@,
    )
}

/// Whether `after` is the log `before` after a tick of cosmic time: one
/// transition report more on every sixty-fourth tick, and the same log otherwise.
pub open spec fn transition_logged(
    before: Seq<WorldEvent>,
    after: Seq<WorldEvent>,
    capacity: int,
    tick: u64,
    meta: &WorldMetadata,
) -> bool {
    if tick % 64 == 0 {
        exists|e: WorldEvent| #[trigger]
            is_transition_report(e, tick, meta) && after == log_after_push(before, capacity, e)
    } else {
        after == before
    }
}

/// Whether `after` is the log `before` with one report of a mass extinction more.
pub open spec fn extinction_logged(
    before: Seq<WorldEvent>,
    after: Seq<WorldEvent>,
    capacity: int,
    tick: u64,
    meta: &WorldMetadata,
) -> bool {
    exists|e: WorldEvent| #[trigger]
        is_extinction_report(e, tick, meta) && after == log_after_push(before, capacity, e)
}

fn transition_event(tick: u64, meta: &WorldMetadata, cosmic: &CosmicTimeline) -> (e: WorldEvent)
    requires
        meta.wf(),
    ensures
        e.tick == tick,
        e.kind is MacroShock,
        is_transition_report(e, tick, meta),
{
    let (epoch, season) = meta.epoch_for_tick(tick);
    let mut catalyst = String::from_str("Age ");
    append_fixed(&mut catalyst, (cosmic.cosmic_age_years / 100) as i64, 2);
    catalyst.append("e8 yrs | Stage ");
    catalyst.append(cosmic.geologic_stage.label());
    WorldEvent::macro_shock(
        tick,
        epoch,
        season,
        String::from_str("Geologic/space transition"),
        catalyst,
        String::from_str("Environment/biosphere reset possible"),
        None,
    )
}

/// Whether an event is a shock reported at a tick.
pub open spec fn is_cosmic_news(e: WorldEvent, tick: u64) -> bool {
    e.tick == tick && e.kind is MacroShock
}

/// Advances cosmic time by one tick and names the geologic age; every 64 ticks the
/// transition is reported.
pub fn cosmic_time_system(
    cosmic: &mut CosmicTimeline,
    time: &WorldTime,
    meta: &WorldMetadata,
    log: &mut WorldEventLog,
)
    requires
        old(cosmic).wf(),
        meta.wf(),
        old(log).wf(),
    ensures
        final(cosmic).wf(),
        final(cosmic).cosmic_age_years == age_after(
            old(cosmic).cosmic_age_years,
            old(cosmic).timescale_years_per_tick,
        ),
        final(cosmic).geologic_stage == stage_of_age(final(cosmic).cosmic_age_years),
        final(cosmic).timescale_years_per_tick == old(cosmic).timescale_years_per_tick,
        final(cosmic).extinction_events == old(cosmic).extinction_events,
        final(cosmic).cosmic_age_years >= old(cosmic).cosmic_age_years,
        final(log).wf(),
        final(log).capacity_of() == old(log).capacity_of(),
        only_added(old(log)@, final(log)@, |e: WorldEvent| is_cosmic_news(e, time.tick)),
        time.tick % 64 != 0 ==> final(log)@ == old(log)@,
        transition_logged(old(log)@, final(log)@, old(log).capacity_of(), time.tick, meta),
{
    cosmic.cosmic_age_years = cosmic.cosmic_age_years.saturating_add(
        cosmic.timescale_years_per_tick,
    );
    cosmic.geologic_stage = stage_for_age(cosmic.cosmic_age_years);
    if time.tick % 64 == 0 {
        let event = transition_event(time.tick, meta, cosmic);
        log.record(
            event,
            Ghost(old(log)@),
            Ghost(|e: WorldEvent| is_cosmic_news(e, time.tick)),
        );
        assert(is_transition_report(event, time.tick, meta) && log@ == log_after_push(
            old(log)@,
            old(log).capacity_of(),
            event,
        ));
    }
}

/// Whether the world is due for a mass extinction: the climate is beyond
/// bearing, or an old planet crosses a round billion of years.
pub open spec fn extinction_due(climate: &ClimateState, cosmic: &CosmicTimeline) -> bool {
    ||| climate.climate_risk > 95 * SCALE
    ||| climate.biodiversity < SCALE
    ||| (cosmic.cosmic_age_years > 5_000_000_000 && cosmic.cosmic_age_years % 1_000_000_000 == 0)
}

/// How severe an extinction is, in millionths: harsher on an older planet, softer
/// the more years a tick stands for.
pub open spec fn severity_of(cosmic: &CosmicTimeline) -> int {
    let pace = clamp_int(cosmic.timescale_years_per_tick as int, 100_000, 100_000_000);
    let age = clamp_int((cosmic.cosmic_age_years / 5000) as int, 500_000, 2_000_000);
    scaled(age, SCALE as int, pace)
}

/// What is left after an extinction: `hundredths` hundredths of the severity, at most `cap`.
pub open spec fn survival_rate(severity: int, hundredths: int, cap: int) -> int {
    if severity * hundredths / 100 > cap {
        cap
    } else {
        severity * hundredths / 100
    }
}

/// A living nation after an extinction; a destroyed one is left alone.
pub open spec fn nation_after_extinction(m: NationMetrics, severity: int) -> NationMetrics {
    if m.is_destroyed {
        m
    } else {
        (NationMetrics {
            economy: scaled(m.economy as int, survival_rate(severity, 25, 800_000), SCALE as int) as i64,
            culture: scaled(m.culture as int, survival_rate(severity, 30, 850_000), SCALE as int) as i64,
            military: scaled(m.military as int, survival_rate(severity, 20, 700_000), SCALE as int) as i64,
            science: scaled(m.science as int, survival_rate(severity, 20, 700_000), SCALE as int) as i64,
            research_stock: 0,
            culture_stock: 0,
            ..m
        }).with_population(
            scaled(m.population as int, survival_rate(severity, 20, 600_000), SCALE as int),
        )
    }
}

/// Civic state of a living nation after an extinction: three cities in ten
/// remain, but at least one.
pub open spec fn civ_after_extinction(s: NationCivState) -> NationCivState {
    NationCivState {
        cities: if s.cities * 3 / 10 < 1 {
            1
        } else {
            (s.cities * 3 / 10) as u32
        },
        happiness: 45_000_000,
        production: (s.production / 4) as i64,
        stability: 40_000_000,
    }
}

/// The climate after an extinction has reset it.
pub open spec fn climate_after_extinction(c: ClimateState, severity: int) -> ClimateState {
    ClimateState {
        biodiversity: clamp_int(severity * 20, 5 * SCALE, 80 * SCALE) as i64,
        climate_risk: clamp_int(severity * 20, 0, 80 * SCALE) as i64,
        carbon_ppm: if severity * 280 > 600 * SCALE {
            (600 * SCALE) as i64
        } else {
            (severity * 280) as i64
        },
        ..c
    }
}

fn rate(severity: i64, hundredths: i64, cap: i64) -> (r: i64)
    requires
        0 <= severity <= 20 * SCALE,
        0 <= hundredths <= 100,
        0 <= cap <= SCALE,
    ensures
        r == survival_rate(severity as int, hundredths as int, cap as int),
        0 <= r <= cap,
{
    assert(0 <= severity * hundredths <= 20 * SCALE * 100) by (nonlinear_arith)
        requires
            0 <= severity <= 20 * SCALE,
            0 <= hundredths <= 100,
    ;
    if severity * hundredths / 100 > cap {
        cap
    } else {
        severity * hundredths / 100
    }
}

fn extinction_hits_nation(m: &mut NationMetrics, severity: i64)
    requires
        old(m).wf(),
        !old(m).is_destroyed,
        0 <= severity <= 20 * SCALE,
    ensures
        *final(m) == nation_after_extinction(*old(m), severity as int),
        final(m).wf(),
        !final(m).is_destroyed,
{
    let economy_rate: i64 = rate(severity, 25, 800_000);
    let culture_rate: i64 = rate(severity, 30, 850_000);
    let force_rate: i64 = rate(severity, 20, 700_000);
    let people_rate: i64 = rate(severity, 20, 600_000);
    proof {
        lemma_scaled_shrinks(m.economy as int, economy_rate as int, SCALE as int);
        lemma_scaled_shrinks(m.culture as int, culture_rate as int, SCALE as int);
        lemma_scaled_shrinks(m.military as int, force_rate as int, SCALE as int);
        lemma_scaled_shrinks(m.science as int, force_rate as int, SCALE as int);
    }
    let people: u64 = share(m.population, people_rate as u64, SCALE as u64);
    m.economy = scale(m.economy, economy_rate, SCALE);
    m.culture = scale(m.culture, culture_rate, SCALE);
    m.military = scale(m.military, force_rate, SCALE);
    m.science = scale(m.science, force_rate, SCALE);
    m.research_stock = 0;
    m.culture_stock = 0;
    m.set_population(people);
}

fn extinction_event(tick: u64, meta: &WorldMetadata, cosmic: &CosmicTimeline) -> (e: WorldEvent)
    requires
        meta.wf(),
    ensures
        e.tick == tick,
        e.kind is MacroShock,
        is_extinction_report(e, tick, meta),
{
    let (epoch, season) = meta.epoch_for_tick(tick);
    let mut catalyst = String::from_str("Events ");
    append_decimal(&mut catalyst, cosmic.extinction_events as u64);
    catalyst.append(" | Age ");
    append_fixed(&mut catalyst, (cosmic.cosmic_age_years / 100) as i64, 2);
    catalyst.append("e8 yrs");
    WorldEvent::macro_shock(
        tick,
        epoch,
        season,
        String::from_str("Mass extinction/reboot"),
        catalyst,
        String::from_str("Population/resource reset then regrowth"),
        None,
    )
}

/// Whether the world is what an extinction of the given severity makes of it.
pub open spec fn reset_by_extinction(
    severity: int,
    climate: (ClimateState, ClimateState),
    richness: (int, int),
    fatigue: int,
    metrics: (Seq<NationMetrics>, Seq<NationMetrics>),
    civ: (Seq<NationCivState>, Seq<NationCivState>),
) -> bool {
    &&& climate.1 == climate_after_extinction(climate.0, severity)
    &&& richness.1 == scaled(richness.0, clamp_int(severity * 25 / 100, 50_000, 800_000), SCALE as int)
    &&& fatigue == 0
    &&& forall|i: int|
        0 <= i < NATION_COUNT ==> #[trigger] metrics.1[i] == nation_after_extinction(
            metrics.0[i],
            severity,
        )
    &&& forall|i: int|
        0 <= i < NATION_COUNT ==> #[trigger] civ.1[i] == if metrics.0[i].is_destroyed {
            civ.0[i]
        } else {
            civ_after_extinction(civ.0[i])
        }
}

/// Triggers a mass extinction when one is due: the climate, richness and war
/// fatigue are reset, and every living nation is cut down but not destroyed.
pub fn extinction_system(
    cosmic: &mut CosmicTimeline,
    climate: &mut ClimateState,
    richness: &mut WorldRichness,
    metrics: &mut AllNationMetrics,
    civ: &mut AllNationCivState,
    fatigue: &mut WarFatigue,
    log: &mut WorldEventLog,
    time: &WorldTime,
    meta: &WorldMetadata,
)
    requires
        old(cosmic).wf(),
        old(climate).wf(),
        old(richness).wf(),
        old(metrics).wf(),
        old(civ).wf(),
        old(fatigue).wf(),
        old(log).wf(),
        meta.wf(),
    ensures
        final(cosmic).wf(),
        final(climate).wf(),
        final(richness).wf(),
        final(metrics).wf(),
        final(civ).wf(),
        final(fatigue).wf(),
        final(log).wf(),
        final(log).capacity_of() == old(log).capacity_of(),
        only_added(old(log)@, final(log)@, |e: WorldEvent| is_cosmic_news(e, time.tick)),
        same_fates(old(metrics).0@, final(metrics).0@),
        destroyed_are_empty(old(metrics).0@, old(civ).0@) ==> destroyed_are_empty(
            final(metrics).0@,
            final(civ).0@,
        ),
        final(cosmic).cosmic_age_years == old(cosmic).cosmic_age_years,
        final(cosmic).timescale_years_per_tick == old(cosmic).timescale_years_per_tick,
        final(cosmic).geologic_stage == old(cosmic).geologic_stage,
        if extinction_due(&*old(climate), &*old(cosmic)) {
            &&& final(cosmic).extinction_events == if old(cosmic).extinction_events < u32::MAX {
                (old(cosmic).extinction_events + 1) as u32
            } else {
                old(cosmic).extinction_events
            }
            &&& reset_by_extinction(
                severity_of(&*old(cosmic)),
                (*old(climate), *final(climate)),
                (old(richness).richness as int, final(richness).richness as int),
                final(fatigue).intensity as int,
                (old(metrics).0@, final(metrics).0@),
                (old(civ).0@, final(civ).0@),
            )
            &&& final(richness).history == old(richness).history
            &&& final(fatigue).history == old(fatigue).history
            &&& extinction_logged(
                old(log)@,
                final(log)@,
                old(log).capacity_of(),
                time.tick,
                meta,
            )
        } else {
            &&& *final(cosmic) == *old(cosmic)
            &&& *final(climate) == *old(climate)
            &&& *final(richness) == *old(richness)
            &&& *final(metrics) == *old(metrics)
            &&& *final(civ) == *old(civ)
            &&& *final(fatigue) == *old(fatigue)
            &&& *final(log) == *old(log)
        },
{
    let extreme: bool = climate.climate_risk > 95 * SCALE || climate.biodiversity < SCALE;
    let ancient: bool = cosmic.cosmic_age_years > 5_000_000_000 && cosmic.cosmic_age_years
        % 1_000_000_000 == 0;
    if !extreme && !ancient {
        return ;
    }
    let pace: i64 = if cosmic.timescale_years_per_tick < 100_000 {
        100_000
    } else if cosmic.timescale_years_per_tick > 100_000_000 {
        100_000_000
    } else {
        cosmic.timescale_years_per_tick as i64
    };
    let age: i64 = if cosmic.cosmic_age_years / 5000 < 500_000 {
        500_000
    } else if cosmic.cosmic_age_years / 5000 > 2_000_000 {
        2_000_000
    } else {
        (cosmic.cosmic_age_years / 5000) as i64
    };
    proof {
        lemma_scaled_bounds(age as int, SCALE as int, pace as int, 2_000_000, SCALE as int);
        assert(scaled(2_000_000, SCALE as int, pace as int) <= 20 * SCALE) by (nonlinear_arith)
            requires
                pace >= 100_000,
                SCALE == 1_000_000,
        ;
    }
    let severity: i64 = scale(age, SCALE, pace);
    if cosmic.extinction_events < u32::MAX {
        cosmic.extinction_events = cosmic.extinction_events + 1;
    }
    climate.biodiversity = clamp(severity * 20, 5 * SCALE, 80 * SCALE);
    climate.climate_risk = clamp(severity * 20, 0, 80 * SCALE);
    climate.carbon_ppm = if severity * 280 > 600 * SCALE {
        600 * SCALE
    } else {
        severity * 280
    };
    let keep: i64 = clamp(severity * 25 / 100, 50_000, 800_000);
    proof {
        lemma_scaled_shrinks(richness.richness as int, keep as int, SCALE as int);
    }
    richness.richness = scale(richness.richness, keep, SCALE);
    fatigue.intensity = 0;
    let mut i: usize = 0;
    while i < NATION_COUNT
        invariant
            i <= NATION_COUNT,
            0 <= severity <= 20 * SCALE,
            old(metrics).wf(),
            old(civ).wf(),
            metrics.0@.len() == NATION_COUNT,
            civ.0@.len() == NATION_COUNT,
            forall|j: int| 0 <= j < NATION_COUNT ==> (#[trigger] metrics.0@[j]).wf(),
            forall|j: int| 0 <= j < NATION_COUNT ==> (#[trigger] civ.0@[j]).wf(),
            forall|j: int|
                0 <= j < i ==> #[trigger] metrics.0@[j] == nation_after_extinction(
                    old(metrics).0@[j],
                    severity as int,
                ),
            forall|j: int| i <= j < NATION_COUNT ==> #[trigger] metrics.0@[j] == old(metrics).0@[j],
            forall|j: int|
                0 <= j < i ==> #[trigger] civ.0@[j] == if old(metrics).0@[j].is_destroyed {
                    old(civ).0@[j]
                } else {
                    civ_after_extinction(old(civ).0@[j])
                },
            forall|j: int| i <= j < NATION_COUNT ==> #[trigger] civ.0@[j] == old(civ).0@[j],
        decreases NATION_COUNT - i,
    {
        if !metrics.0[i].is_destroyed {
            extinction_hits_nation(&mut metrics.0[i], severity);
            let s = &mut civ.0[i];
            s.cities = if s.cities * 3 / 10 < 1 {
                1
            } else {
                s.cities * 3 / 10
            };
            s.happiness = 45 * SCALE;
            s.production = s.production / 4;
            s.stability = 40 * SCALE;
        }
        i += 1;
    }
    let event = extinction_event(time.tick, meta, cosmic);
    log.record(event, Ghost(old(log)@), Ghost(|e: WorldEvent| is_cosmic_news(e, time.tick)));
    assert(is_extinction_report(event, time.tick, meta) && log@ == log_after_push(
        old(log)@,
        old(log).capacity_of(),
        event,
    ));
}

} // verus!
