//! The climate: carbon, biodiversity, risk, and the slow drift of sea and ice.

use vstd::prelude::*;
use vstd::string::*;
use crate::events::WorldEvent;
use crate::events::WorldEventKind;
use crate::events::WorldEventLog;
use crate::events::log_after_push;
use crate::events::only_added;
use crate::fixed::SCALE;
use crate::fixed::between;
use crate::fixed::clamp;
use crate::fixed::clamp_int;
use crate::fixed::interpolate;
use crate::fixed::lemma_scaled_bounds;
use crate::fixed::scale;
use crate::fixed::scale_clamped;
use crate::fixed::scaled;
use crate::history::HISTORY_CAP;
use crate::history::push_history;
use crate::history::pushed_bounded;
use crate::nuclear::NuclearBlasts;
use crate::resources::BIODIVERSITY_MAX;
use crate::resources::BIODIVERSITY_MIN;
use crate::resources::CARBON_MAX;
use crate::resources::CARBON_MIN;
use crate::resources::ClimateState;
use crate::resources::CosmicTimeline;
use crate::resources::GeologicStage;
use crate::resources::RISK_MAX;
use crate::resources::WarFatigue;
use crate::resources::WorldRichness;
use crate::resources::WorldTime;
use crate::text::append_fixed;

verus! {

/// Largest fallout total the climate reckons with.
pub const FALLOUT_MAX: i64 = 300_000_000;

/// How strongly a geologic age drives the carbon cycle, in millionths.
pub open spec fn stage_factor(stage: GeologicStage) -> int {
    match stage {
        GeologicStage::PrimordialCrust => 450_000,
        GeologicStage::AncientOcean => 700_000,
        GeologicStage::OxygenBloom => 1_000_000,
        GeologicStage::ContinentalSplit => 1_150_000,
        GeologicStage::ExtinctionCycle => 1_350_000,
        _ => 1_500_000,
    }
}

pub fn stage_factor_for(stage: GeologicStage) -> (r: i64)
    ensures
        r == stage_factor(stage),
        450_000 <= r <= 1_500_000,
{
    match stage {
        GeologicStage::PrimordialCrust => 450_000,
        GeologicStage::AncientOcean => 700_000,
        GeologicStage::OxygenBloom => 1_000_000,
        GeologicStage::ContinentalSplit => 1_150_000,
        GeologicStage::ExtinctionCycle => 1_350_000,
        _ => 1_500_000,
    }
}

/// The pressure carbon puts on the climate: a curve that rises a little slower
/// than the carbon itself, drawn as straight lines between fixed points.
pub open spec fn carbon_pressure(carbon: int) -> int {
    if carbon <= 400 * SCALE {
        between(carbon, 180 * SCALE, 14_284_028, 400 * SCALE, 29_777_977)
    } else if carbon <= 700 * SCALE {
        between(carbon, 400 * SCALE, 29_777_977, 700 * SCALE, 49_829_921)
    } else if carbon <= 1000 * SCALE {
        between(carbon, 700 * SCALE, 49_829_921, 1000 * SCALE, 69_183_097)
    } else {
        between(carbon, 1000 * SCALE, 69_183_097, 1500 * SCALE, 100_462_495)
    }
}

/// The sea level a climate risk calls for, before richness adds to it: a curve
/// that rises faster the higher the risk, drawn as straight lines between fixed points.
pub open spec fn sea_curve(risk: int) -> int {
    if risk <= 35 * SCALE {
        between(risk, 0, 0, 35 * SCALE, 151_572)
    } else if risk <= 70 * SCALE {
        between(risk, 35 * SCALE, 151_572, 70 * SCALE, 348_220)
    } else if risk <= 105 * SCALE {
        between(risk, 70 * SCALE, 348_220, 105 * SCALE, 566_453)
    } else {
        between(risk, 105 * SCALE, 566_453, 140 * SCALE, 800_000)
    }
}

/// The ice line a carbon level calls for: a curve that falls as carbon rises and
/// reaches zero at 1,400 ppm, drawn as straight lines between fixed points.
pub open spec fn ice_curve(carbon: int) -> int {
    if carbon <= 400 * SCALE {
        between(carbon, 180 * SCALE, 825_107, 400 * SCALE, 655_220)
    } else if carbon <= 700 * SCALE {
        between(carbon, 400 * SCALE, 655_220, 700 * SCALE, 445_215)
    } else if carbon <= 1000 * SCALE {
        between(carbon, 700 * SCALE, 445_215, 1000 * SCALE, 248_738)
    } else if carbon <= 1400 * SCALE {
        between(carbon, 1000 * SCALE, 248_738, 1400 * SCALE, 0)
    } else {
        0
    }
}

pub fn carbon_pressure_at(carbon: i64) -> (r: i64)
    requires
        CARBON_MIN <= carbon <= CARBON_MAX,
    ensures
        r == carbon_pressure(carbon as int),
        14_284_028 <= r <= 100_462_495,
{
    if carbon <= 400 * SCALE {
        interpolate(carbon, 180 * SCALE, 14_284_028, 400 * SCALE, 29_777_977)
    } else if carbon <= 700 * SCALE {
        interpolate(carbon, 400 * SCALE, 29_777_977, 700 * SCALE, 49_829_921)
    } else if carbon <= 1000 * SCALE {
        interpolate(carbon, 700 * SCALE, 49_829_921, 1000 * SCALE, 69_183_097)
    } else {
        interpolate(carbon, 1000 * SCALE, 69_183_097, 1500 * SCALE, 100_462_495)
    }
}

pub fn sea_curve_at(risk: i64) -> (r: i64)
    requires
        0 <= risk <= RISK_MAX,
    ensures
        r == sea_curve(risk as int),
        0 <= r <= 800_000,
{
    if risk <= 35 * SCALE {
        interpolate(risk, 0, 0, 35 * SCALE, 151_572)
    } else if risk <= 70 * SCALE {
        interpolate(risk, 35 * SCALE, 151_572, 70 * SCALE, 348_220)
    } else if risk <= 105 * SCALE {
        interpolate(risk, 70 * SCALE, 348_220, 105 * SCALE, 566_453)
    } else {
        interpolate(risk, 105 * SCALE, 566_453, 140 * SCALE, 800_000)
    }
}

pub fn ice_curve_at(carbon: i64) -> (r: i64)
    requires
        CARBON_MIN <= carbon <= CARBON_MAX,
    ensures
        r == ice_curve(carbon as int),
        0 <= r <= 825_107,
{
    if carbon <= 400 * SCALE {
        interpolate(carbon, 180 * SCALE, 825_107, 400 * SCALE, 655_220)
    } else if carbon <= 700 * SCALE {
        interpolate(carbon, 400 * SCALE, 655_220, 700 * SCALE, 445_215)
    } else if carbon <= 1000 * SCALE {
        interpolate(carbon, 700 * SCALE, 445_215, 1000 * SCALE, 248_738)
    } else if carbon <= 1400 * SCALE {
        interpolate(carbon, 1000 * SCALE, 248_738, 1400 * SCALE, 0)
    } else {
        0
    }
}

/// Carbon after a tick: emissions from the age, from prosperity, from war and
/// from fallout, softened by up to a quarter where life is rich.
pub open spec fn carbon_after(
    carbon: int,
    biodiversity: int,
    richness: int,
    fatigue: int,
    fallout: int,
    factor: int,
) -> int {
    let raw = scaled(40_000 + richness * 75 / 100 + fatigue * 2 / 100, factor, SCALE as int)
        + fallout * 60_000;
    let mitigation = clamp_int(biodiversity / 100, 100_000, SCALE as int);
    clamp_int(
        carbon + scaled(raw, SCALE - mitigation / 4, SCALE as int),
        CARBON_MIN as int,
        CARBON_MAX as int,
    )
}

/// Biodiversity after a tick: eroded by carbon, war and fallout, recovering where
/// the world is poor.
pub open spec fn biodiversity_after(
    biodiversity: int,
    carbon: int,
    richness: int,
    fatigue: int,
    fallout: int,
    factor: int,
) -> int {
    let erosion = scaled(carbon / 1200, factor, SCALE as int) * 8 / 10 + fatigue / 100 + fallout
        * 50_000;
    let spare = if SCALE - richness < 50_000 {
        50_000
    } else {
        SCALE - richness
    };
    clamp_int(
        biodiversity - erosion + spare * 6 / 10,
        BIODIVERSITY_MIN as int,
        BIODIVERSITY_MAX as int,
    )
}

/// Climate risk: the pressure of carbon, of war, of prosperity and of fallout together.
pub open spec fn risk_of(carbon: int, richness: int, fatigue: int, fallout: int) -> int {
    clamp_int(
        carbon_pressure(carbon) + fatigue / 2 + richness * 22 + fallout * 1_200_000,
        0,
        RISK_MAX as int,
    )
}

/// A level after it has gone eight hundredths of the way to its target.
pub open spec fn eased(level: int, target: int) -> int {
    level + scaled(target - level, 8, 100)
}

/// The sea level a risk and a richness call for.
pub open spec fn sea_target(risk: int, richness: int) -> int {
    clamp_int(sea_curve(risk) + richness * 2 / 10, 20_000, 980_000)
}

/// The ice line a carbon level calls for.
pub open spec fn ice_target(carbon: int) -> int {
    clamp_int(ice_curve(carbon), 0, 900_000)
}

fn ease(level: i64, target: i64) -> (r: i64)
    requires
        0 <= level <= SCALE,
        0 <= target <= SCALE,
    ensures
        r == eased(level as int, target as int),
        0 <= r <= SCALE,
        level <= target ==> level <= r <= target,
        target <= level ==> target <= r <= level,
{
    level + scale_clamped(target - level, 8, 100, -SCALE, SCALE)
}

/// Whether `after` is the climate one tick after `before`, histories included.
pub open spec fn climate_stepped(
    before: &ClimateState,
    after: &ClimateState,
    richness: int,
    fatigue: int,
    fallout: int,
    factor: int,
) -> bool {
    let carbon = carbon_after(
        before.carbon_ppm as int,
        before.biodiversity as int,
        richness,
        fatigue,
        fallout,
        factor,
    );
    let risk = risk_of(carbon, richness, fatigue, fallout);
    &&& after.carbon_ppm == carbon
    &&& after.biodiversity == biodiversity_after(
        before.biodiversity as int,
        carbon,
        richness,
        fatigue,
        fallout,
        factor,
    )
    &&& after.climate_risk == risk
    &&& after.sea_level == eased(before.sea_level as int, sea_target(risk, richness))
    &&& after.ice_line == eased(before.ice_line as int, ice_target(carbon))
    &&& after.carbon_history@ == pushed_bounded(
        before.carbon_history@,
        after.carbon_ppm,
        HISTORY_CAP as int,
    )
    &&& after.climate_risk_history@ == pushed_bounded(
        before.climate_risk_history@,
        after.climate_risk,
        HISTORY_CAP as int,
    )
    &&& after.biodiversity_history@ == pushed_bounded(
        before.biodiversity_history@,
        after.biodiversity,
        HISTORY_CAP as int,
    )
}

/// The fallout the climate reckons with: the sum of all blast timers, up to a limit.
pub open spec fn fallout_of(blasts: &NuclearBlasts) -> int {
    if blasts.total_of() > FALLOUT_MAX {
        FALLOUT_MAX as int
    } else {
        blasts.total_of()
    }
}

/// Whether an event is the climate warning of a tick.
pub open spec fn is_climate_warning(e: WorldEvent, tick: u64) -> bool {
    &&& e.tick == tick
    &&& e.epoch@ == "Climate"@
    &&& e.season@ == "Planet"@
    &&& match e.kind {
        WorldEventKind::MacroShock { stressor, catalyst, projected_impact, casualties } => {
            &&& stressor@ == "Climate shift warning"@
            &&& projected_impact@ == "Productivity loss / population risk"@
            &&& casualties is None
        },
        _ => false,
    }
}

/// Whether `after` is the log `before` after a tick of the climate: one warning
/// more on every twenty-fourth tick, and the same log otherwise.
pub open spec fn climate_warned(
    before: Seq<WorldEvent>,
    after: Seq<WorldEvent>,
    capacity: int,
    tick: u64,
) -> bool {
    if tick % 24 == 0 {
        exists|e: WorldEvent| #[trigger]
            is_climate_warning(e, tick) && after == log_after_push(before, capacity, e)
    } else {
        after == before
    }
}

fn warning_event(tick: u64, climate: &ClimateState) -> (e: WorldEvent)
    ensures
        e.tick == tick,
        e.kind is MacroShock,
        is_climate_warning(e, tick),
{
    let mut catalyst = String::from_str("Carbon ");
    append_fixed(&mut catalyst, climate.carbon_ppm, 0);
    catalyst.append("ppm | Risk ");
    append_fixed(&mut catalyst, climate.climate_risk, 1);
    catalyst.append("%");
    WorldEvent {
        tick,
        epoch: String::from_str("Climate"),
        season: String::from_str("Planet"),
        kind: WorldEventKind::MacroShock {
            stressor: String::from_str("Climate shift warning"),
            catalyst,
            projected_impact: String::from_str("Productivity loss / population risk"),
            casualties: None,
        },
    }
}

/// Whether an event is a climate warning of a tick.
pub open spec fn is_climate_news(e: WorldEvent, tick: u64) -> bool {
    e.tick == tick && e.kind is MacroShock
}

/// Updates the climate for one tick and warns of it every 24 ticks.
pub fn climate_system(
    climate: &mut ClimateState,
    richness: &WorldRichness,
    blasts: &NuclearBlasts,
    fatigue: &WarFatigue,
    cosmic: &CosmicTimeline,
    time: &WorldTime,
    log: &mut WorldEventLog,
)
    requires
        old(climate).wf(),
        richness.wf(),
        blasts.wf(),
        fatigue.wf(),
        old(log).wf(),
    ensures
        final(climate).wf(),
        climate_stepped(
            &*old(climate),
            &*final(climate),
            richness.richness as int,
            fatigue.intensity as int,
            fallout_of(blasts),
            stage_factor(cosmic.geologic_stage),
        ),
        final(log).wf(),
        final(log).capacity_of() == old(log).capacity_of(),
        only_added(old(log)@, final(log)@, |e: WorldEvent| is_climate_news(e, time.tick)),
        time.tick % 24 != 0 ==> final(log)@ == old(log)@,
        climate_warned(old(log)@, final(log)@, old(log).capacity_of(), time.tick),
{
    let factor: i64 = stage_factor_for(cosmic.geologic_stage);
    let total: u32 = blasts.total();
    let fallout: i64 = if total as i64 > FALLOUT_MAX {
        FALLOUT_MAX
    } else {
        total as i64
    };
    let rich: i64 = richness.richness;
    let weary: i64 = fatigue.intensity;
    let emitted: i64 = 40_000 + rich * 75 / 100 + weary * 2 / 100;
    proof {
        lemma_scaled_bounds(emitted as int, factor as int, SCALE as int, 4_000_000, 1_500_000);
    }
    let raw: i64 = scale(emitted, factor, SCALE) + fallout * 60_000;
    let mitigation: i64 = clamp(climate.biodiversity / 100, 100_000, SCALE);
    proof {
        lemma_scaled_bounds(
            raw as int,
            SCALE - mitigation / 4,
            SCALE as int,
            18_000_006_000_000,
            SCALE as int,
        );
    }
    let carbon: i64 = clamp(
        climate.carbon_ppm + scale(raw, SCALE - mitigation / 4, SCALE),
        CARBON_MIN,
        CARBON_MAX,
    );
    proof {
        lemma_scaled_bounds(carbon as int / 1200, factor as int, SCALE as int, 1_250_000, 1_500_000);
    }
    let erosion: i64 = scale(carbon / 1200, factor, SCALE) * 8 / 10 + weary / 100 + fallout
        * 50_000;
    let spare: i64 = if SCALE - rich < 50_000 {
        50_000
    } else {
        SCALE - rich
    };
    let biodiversity: i64 = clamp(
        climate.biodiversity - erosion + spare * 6 / 10,
        BIODIVERSITY_MIN,
        BIODIVERSITY_MAX,
    );
    let risk: i64 = clamp(
        carbon_pressure_at(carbon) + weary / 2 + rich * 22 + fallout * 1_200_000,
        0,
        RISK_MAX,
    );
    let sea_goal: i64 = clamp(sea_curve_at(risk) + rich * 2 / 10, 20_000, 980_000);
    let ice_goal: i64 = clamp(ice_curve_at(carbon), 0, 900_000);
    climate.carbon_ppm = carbon;
    climate.biodiversity = biodiversity;
    climate.climate_risk = risk;
    climate.sea_level = ease(climate.sea_level, sea_goal);
    climate.ice_line = ease(climate.ice_line, ice_goal);
    push_history(&mut climate.carbon_history, carbon);
    push_history(&mut climate.climate_risk_history, risk);
    push_history(&mut climate.biodiversity_history, biodiversity);
    if time.tick % 24 == 0 {
        let event = warning_event(time.tick, climate);
        log.record(
            event,
            Ghost(old(log)@),
            Ghost(|e: WorldEvent| is_climate_news(e, time.tick)),
        );
        assert(is_climate_warning(event, time.tick) && log@ == log_after_push(
            old(log)@,
            old(log).capacity_of(),
            event,
        ));
    }
}

} // verus!
