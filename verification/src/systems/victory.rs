//! The race to the Moon and on to the stars.

use vstd::prelude::*;
use crate::blocs::BLOC_STRENGTH_MAX;
use crate::blocs::WorldBlocs;
use crate::blocs::bloc_pull;
use crate::blocs::bloc_strength_for;
use crate::events::WorldEvent;
use crate::events::WorldEventKind;
use crate::events::WorldEventLog;
use crate::events::lemma_logged_few;
use crate::events::lemma_logged_nothing;
use crate::events::logged_few;
use crate::events::lemma_logged_one_more;
use crate::events::logged;
use crate::events::only_added;
use crate::fixed::SCALE;
use crate::fixed::clamp;
use crate::fixed::clamp_int;
use crate::fixed::lemma_scaled_bounds;
use crate::fixed::scale;
use crate::fixed::scaled;
use crate::history::push_sliding;
use crate::history::pushed_sliding;
use crate::nation::Nation;
use crate::nation::NATION_COUNT;
use crate::resources::AllNationMetrics;
use crate::resources::LEADER_HISTORY_CAP;
use crate::resources::METRIC_MAX;
use crate::resources::NationMetrics;
use crate::resources::RacePhase;
use crate::resources::ScienceVictory;
use crate::resources::SpaceStage;
use crate::resources::WorldTime;
use crate::technology::Era;
use crate::world::WorldMetadata;

verus! {

/// How much an era speeds research up, in millionths.
pub open spec fn era_bonus(era: Era) -> int {
    match era {
        Era::Dawn => 800_000,
        Era::Ancient => 900_000,
        Era::Classical => 1_000_000,
        Era::Medieval => 1_050_000,
        Era::Industrial => 1_120_000,
        Era::Modern => 1_200_000,
        Era::Nuclear => 1_350_000,
    }
}

pub fn era_bonus_for(era: Era) -> (r: i64)
    ensures
        r == era_bonus(era),
        800_000 <= r <= 1_350_000,
{
    match era {
        Era::Dawn => 800_000,
        Era::Ancient => 900_000,
        Era::Classical => 1_000_000,
        Era::Medieval => 1_050_000,
        Era::Industrial => 1_120_000,
        Era::Modern => 1_200_000,
        Era::Nuclear => 1_350_000,
    }
}

/// How much the size of a nation speeds its programme up: a five-millionth of the
/// head count, between 0.35 and 2.3.
pub open spec fn population_factor(population: int) -> int {
    clamp_int(population / 5, 350_000, 2_300_000)
}

/// Whether a nation takes part in the race.
pub open spec fn races(m: NationMetrics) -> bool {
    !m.is_destroyed && m.population > 0
}

/// The momentum of a nation's programme: science, economy, culture, research
/// stock, collaboration and the research pact push, an embargo pulls, the era
/// and peace multiply. Momentum is never negative.
pub open spec fn moon_momentum(m: NationMetrics, pact: int, embargo: int) -> int {
    let collaboration = m.diplomacy * 6 / 1000 + m.culture * 4 / 1000;
    let bonus = if collaboration > 4 * SCALE {
        4 * SCALE as int
    } else {
        collaboration
    };
    let push = m.science * 42 / 1000 + m.economy * 12 / 1000 + m.culture * 7 / 1000
        + m.research_stock * 25 / 10_000 + bonus + pact * 3 / 10 - embargo * 2 / 10;
    let drive = if push < 0 {
        0
    } else {
        push
    };
    let idle = if m.military > 100 * SCALE {
        0
    } else {
        100 * SCALE - m.military
    };
    let drag = idle * 9 / 10_000;
    let keep = if SCALE - drag < 600_000 {
        600_000
    } else {
        SCALE - drag
    };
    scaled(scaled(drive, era_bonus(m.era), SCALE as int), keep, SCALE as int)
}

/// Progress a racing nation makes in a tick: a hundredth of its momentum times
/// its population factor.
pub open spec fn moon_gain(m: NationMetrics, pact: int, embargo: int) -> int {
    scaled(moon_momentum(m, pact, embargo), population_factor(m.population as int), SCALE as int)
        / 100
}

/// A nation's progress after a tick of the Moon race.
pub open spec fn moon_progress_after(
    progress: int,
    goal: int,
    m: NationMetrics,
    pact: int,
    embargo: int,
) -> int {
    if races(m) {
        let next = progress + moon_gain(m, pact, embargo);
        if next > goal {
            goal
        } else {
            next
        }
    } else {
        progress
    }
}

pub fn moon_gain_for(m: &NationMetrics, pact: i64, embargo: i64) -> (r: i64)
    requires
        m.wf(),
        0 <= pact <= BLOC_STRENGTH_MAX,
        0 <= embargo <= BLOC_STRENGTH_MAX,
    ensures
        r == moon_gain(*m, pact as int, embargo as int),
        0 <= r <= 100_000_000,
{
    let collaboration: i64 = m.diplomacy * 6 / 1000 + m.culture * 4 / 1000;
    let bonus: i64 = if collaboration > 4 * SCALE {
        4 * SCALE
    } else {
        collaboration
    };
    let push: i64 = m.science * 42 / 1000 + m.economy * 12 / 1000 + m.culture * 7 / 1000
        + m.research_stock * 25 / 10_000 + bonus + pact * 3 / 10 - embargo * 2 / 10;
    let drive: i64 = if push < 0 {
        0
    } else {
        push
    };
    let idle: i64 = if m.military > 100 * SCALE {
        0
    } else {
        100 * SCALE - m.military
    };
    let drag: i64 = idle * 9 / 10_000;
    let keep: i64 = if SCALE - drag < 600_000 {
        600_000
    } else {
        SCALE - drag
    };
    let bonus_era: i64 = era_bonus_for(m.era);
    assert(0 <= drive <= 2_530_000_000);
    proof {
        lemma_scaled_bounds(drive as int, bonus_era as int, SCALE as int, 2_530_000_000, 1_350_000);
        lemma_scaled_bounds(
            scaled(drive as int, bonus_era as int, SCALE as int),
            keep as int,
            SCALE as int,
            3_415_500_000,
            1_000_000,
        );
    }
    let momentum: i64 = scale(scale(drive, bonus_era, SCALE), keep, SCALE);
    let people: i64 = clamp((m.population / 5) as i64, 350_000, 2_300_000);
    proof {
        lemma_scaled_bounds(momentum as int, people as int, SCALE as int, 3_415_500_000, 2_300_000);
    }
    scale(momentum, people, SCALE) / 100
}

/// Whether a nation has reached its next quarter of the way.
pub open spec fn milestone_due(count: u8, progress: int) -> bool {
    count < 4 && progress >= (count + 1) * 25 * SCALE
}

/// The racing nation with the most progress among the first `n`; among equals the
/// one that comes first.
pub open spec fn race_leader(progress: Seq<i64>, metrics: Seq<NationMetrics>, n: int) -> Option<int>
    decreases n,
{
    if n <= 0 {
        None
    } else {
        let before = race_leader(progress, metrics, n - 1);
        if !races(metrics[n - 1]) {
            before
        } else {
            match before {
                None => Some(n - 1),
                Some(p) => if progress[n - 1] > progress[p] {
                    Some(n - 1)
                } else {
                    before
                },
            }
        }
    }
}

pub proof fn lemma_race_leader_in_range(progress: Seq<i64>, metrics: Seq<NationMetrics>, n: int)
    requires
        0 <= n <= progress.len(),
        n <= metrics.len(),
    ensures
        race_leader(progress, metrics, n) is Some ==> 0 <= race_leader(progress, metrics, n)->0 < n,
    decreases n,
{
    if n > 0 {
        lemma_race_leader_in_range(progress, metrics, n - 1);
    }
}

/// Progress of an automatic ramp after a tick: a fixed step plus a share that
/// grows with the progress made, never past the goal.
pub open spec fn ramp_after(base: int, goal: int, step: int, slope: int) -> int {
    let next = base + step + scaled(base, slope, goal);
    if next > goal {
        goal
    } else {
        next
    }
}

pub fn ramp(base: i64, goal: i64, step: i64, slope: i64) -> (r: i64)
    requires
        0 <= base <= goal,
        SCALE <= goal <= METRIC_MAX,
        0 < step <= SCALE,
        0 <= slope <= SCALE,
    ensures
        r == ramp_after(base as int, goal as int, step as int, slope as int),
        base <= r <= goal,
        r > base || r == goal,
{
    proof {
        lemma_scaled_bounds(base as int, slope as int, goal as int, goal as int, SCALE as int);
        assert(scaled(goal as int, SCALE as int, goal as int) == SCALE) by (nonlinear_arith)
            requires
                goal > 0,
        ;
    }
    let next: i64 = base + step + scale(base, slope, goal);
    if next > goal {
        goal
    } else {
        next
    }
}

/// The tracker's per-nation progress after a tick of the Moon race.
pub open spec fn moon_table_after(
    tracker: &ScienceVictory,
    metrics: Seq<NationMetrics>,
    blocs: &WorldBlocs,
) -> Seq<i64> {
    Seq::new(
        NATION_COUNT as nat,
        |i: int|
            moon_progress_after(
                tracker.progress@[i] as int,
                tracker.goal as int,
                metrics[i],
                bloc_pull(blocs.research_pact, Nation::at(i)),
                bloc_pull(blocs.sanction, Nation::at(i)),
            ) as i64,
    )
}

/// What a tick does to the race, events aside.
pub open spec fn race_step(
    before: &ScienceVictory,
    after: &ScienceVictory,
    metrics: Seq<NationMetrics>,
    blocs: &WorldBlocs,
) -> bool {
    &&& after.goal == before.goal
    &&& after.mars_goal == before.mars_goal
    &&& after.jovian_goal == before.jovian_goal
    &&& after.interstellar_goal == before.interstellar_goal
    &&& match before.phase_of() {
        RacePhase::Moon => {
            let table = moon_table_after(before, metrics, blocs);
            let leader = race_leader(table, metrics, NATION_COUNT as int);
            &&& after.progress@ =~= table
            &&& after.milestones@.len() == NATION_COUNT
            &&& forall|i: int|
                0 <= i < NATION_COUNT ==> #[trigger] after.milestones@[i] == if races(metrics[i])
                    && milestone_due(before.milestones@[i], table[i] as int) {
                    (before.milestones@[i] + 1) as u8
                } else {
                    before.milestones@[i]
                }
            &&& after.mars_progress == before.mars_progress
            &&& after.jovian_progress == before.jovian_progress
            &&& after.interstellar_progress == before.interstellar_progress
            &&& match leader {
                Some(l) => {
                    &&& after.leader_history@ == pushed_sliding(
                        before.leader_history@,
                        table[l],
                        LEADER_HISTORY_CAP as int,
                    )
                    &&& if table[l] >= before.goal {
                        after.phase_of() == RacePhase::Mars && after.winner == Some(Nation::at(l))
                    } else {
                        after.phase_of() == RacePhase::Moon && after.winner == before.winner
                    }
                },
                None => after.phase_of() == RacePhase::Moon && after.winner == before.winner
                    && after.leader_history@ == before.leader_history@,
            }
        },
        RacePhase::Mars => {
            &&& after.progress@ == before.progress@
            &&& after.milestones@ == before.milestones@
            &&& after.leader_history@ == before.leader_history@
            &&& after.winner == before.winner
            &&& after.mars_progress == ramp_after(
                before.mars_progress as int,
                before.mars_goal as int,
                400_000,
                900_000,
            )
            &&& after.jovian_progress == before.jovian_progress
            &&& after.interstellar_progress == before.interstellar_progress
            &&& after.phase_of() == if after.mars_progress >= after.mars_goal {
                RacePhase::Jovian
            } else {
                RacePhase::Mars
            }
        },
        RacePhase::Jovian => {
            &&& after.progress@ == before.progress@
            &&& after.milestones@ == before.milestones@
            &&& after.leader_history@ == before.leader_history@
            &&& after.winner == before.winner
            &&& after.mars_progress == before.mars_progress
            &&& after.jovian_progress == ramp_after(
                before.jovian_progress as int,
                before.jovian_goal as int,
                350_000,
                800_000,
            )
            &&& after.interstellar_progress == before.interstellar_progress
            &&& after.phase_of() == if after.jovian_progress >= after.jovian_goal {
                RacePhase::Interstellar
            } else {
                RacePhase::Jovian
            }
        },
        RacePhase::Interstellar => {
            &&& after.progress@ == before.progress@
            &&& after.milestones@ == before.milestones@
            &&& after.leader_history@ == before.leader_history@
            &&& after.winner == before.winner
            &&& after.mars_progress == before.mars_progress
            &&& after.jovian_progress == before.jovian_progress
            &&& after.interstellar_progress == ramp_after(
                before.interstellar_progress as int,
                before.interstellar_goal as int,
                600_000,
                800_000,
            )
            &&& after.phase_of() == if after.interstellar_progress >= after.interstellar_goal {
                RacePhase::Finished
            } else {
                RacePhase::Interstellar
            }
        },
        RacePhase::Finished => *after == *before,
    }
}

/// Whether the race only moved forward between two states: no progress figure
/// fell, none exceeds its goal, the phase stayed or advanced by one, and the
/// goals are what they were.
pub open spec fn race_moved_forward(before: &ScienceVictory, after: &ScienceVictory) -> bool {
    &&& forall|i: int|
        0 <= i < NATION_COUNT ==> before.progress@[i] <= #[trigger] after.progress@[i] <= after.goal
    &&& before.mars_progress <= after.mars_progress <= after.mars_goal
    &&& before.jovian_progress <= after.jovian_progress <= after.jovian_goal
    &&& before.interstellar_progress <= after.interstellar_progress <= after.interstellar_goal
    &&& after.phase_of().rank() == before.phase_of().rank() || after.phase_of().rank()
        == before.phase_of().rank() + 1
    &&& after.same_goals(before)
}

/// One tick of any phase moves the race forward only.
pub proof fn lemma_race_step_moves_forward(
    before: &ScienceVictory,
    after: &ScienceVictory,
    metrics: Seq<NationMetrics>,
    blocs: &WorldBlocs,
)
    requires
        before.wf(),
        after.wf(),
        metrics.len() == NATION_COUNT,
        forall|i: int| 0 <= i < NATION_COUNT ==> (#[trigger] metrics[i]).wf(),
        blocs.wf(),
        race_step(before, after, metrics, blocs),
    ensures
        race_moved_forward(before, after),
{
    match before.phase_of() {
        RacePhase::Moon => {
            assert forall|i: int| 0 <= i < NATION_COUNT implies before.progress@[i]
                <= #[trigger] after.progress@[i] by {
                lemma_moon_gain_nonnegative(
                    metrics[i],
                    bloc_pull(blocs.research_pact, Nation::at(i)),
                    bloc_pull(blocs.sanction, Nation::at(i)),
                );
            }
        },
        RacePhase::Mars => {
            lemma_ramp_rises(
                before.mars_progress as int,
                before.mars_goal as int,
                400_000,
                900_000,
            );
        },
        RacePhase::Jovian => {
            lemma_ramp_rises(
                before.jovian_progress as int,
                before.jovian_goal as int,
                350_000,
                800_000,
            );
        },
        RacePhase::Interstellar => {
            lemma_ramp_rises(
                before.interstellar_progress as int,
                before.interstellar_goal as int,
                600_000,
                800_000,
            );
        },
        RacePhase::Finished => {},
    }
}

pub proof fn lemma_moon_gain_nonnegative(m: NationMetrics, pact: int, embargo: int)
    requires
        m.wf(),
        0 <= pact <= BLOC_STRENGTH_MAX,
        0 <= embargo <= BLOC_STRENGTH_MAX,
    ensures
        moon_gain(m, pact, embargo) >= 0,
{
    let collaboration = m.diplomacy * 6 / 1000 + m.culture * 4 / 1000;
    let bonus = if collaboration > 4 * SCALE {
        4 * SCALE as int
    } else {
        collaboration
    };
    let push = m.science * 42 / 1000 + m.economy * 12 / 1000 + m.culture * 7 / 1000
        + m.research_stock * 25 / 10_000 + bonus + pact * 3 / 10 - embargo * 2 / 10;
    let drive = if push < 0 {
        0
    } else {
        push
    };
    let idle = if m.military > 100 * SCALE {
        0
    } else {
        100 * SCALE - m.military
    };
    let drag = idle * 9 / 10_000;
    let keep = if SCALE - drag < 600_000 {
        600_000
    } else {
        SCALE - drag
    };
    lemma_scaled_bounds(drive, era_bonus(m.era), SCALE as int, 2_530_000_000, 1_350_000);
    lemma_scaled_bounds(
        scaled(drive, era_bonus(m.era), SCALE as int),
        keep,
        SCALE as int,
        3_415_500_000,
        1_000_000,
    );
    lemma_scaled_bounds(
        moon_momentum(m, pact, embargo),
        population_factor(m.population as int),
        SCALE as int,
        3_415_500_000,
        2_300_000,
    );
}

pub proof fn lemma_ramp_rises(base: int, goal: int, step: int, slope: int)
    requires
        0 <= base <= goal,
        goal > 0,
        0 < step,
        0 <= slope,
    ensures
        base <= ramp_after(base, goal, step, slope) <= goal,
{
    lemma_scaled_bounds(base, slope, goal, base, slope);
}

/// The nation that leads the race once the Moon is reached: the recorded winner,
/// and the first nation of the table where none is recorded.
pub open spec fn ramp_leader(tracker: &ScienceVictory) -> Nation {
    match tracker.winner {
        Some(n) => n,
        None => Nation::Tera,
    }
}

/// The milestone reports of the first `n` nations in the Moon race, in table
/// order: one for each racing nation whose progress passed its next quarter.
pub open spec fn milestone_reports_upto(
    milestones: Seq<u8>,
    table: Seq<i64>,
    metrics: Seq<NationMetrics>,
    n: int,
) -> Seq<WorldEventKind>
    decreases n,
{
    if n <= 0 {
        Seq::empty()
    } else if races(metrics[n - 1]) && milestone_due(milestones[n - 1], table[n - 1] as int) {
        milestone_reports_upto(milestones, table, metrics, n - 1).push(
            WorldEventKind::ScienceProgress { nation: Nation::at(n - 1), progress: table[n - 1] },
        )
    } else {
        milestone_reports_upto(milestones, table, metrics, n - 1)
    }
}

/// A progress report every `beat` ticks, and none in between.
pub open spec fn beat_report(tick: u64, beat: int, leader: Nation, progress: i64) -> Seq<
    WorldEventKind,
> {
    if tick % (beat as u64) == 0 {
        Seq::<WorldEventKind>::empty().push(WorldEventKind::InterstellarProgress { leader, progress })
    } else {
        Seq::<WorldEventKind>::empty()
    }
}

/// What a tick of the race reports, in order. In the Moon race: the milestones
/// passed, then the victory of the leader if it reached the goal. On the way to
/// Mars and to the stars a progress report every eighth tick, on the way to the
/// Jovian system every tenth; reaching the stars is reported as the victory.
/// Reaching Mars or the Jovian system is not reported, and a finished race
/// reports nothing.
pub open spec fn race_reports(
    before: &ScienceVictory,
    after: &ScienceVictory,
    metrics: Seq<NationMetrics>,
    blocs: &WorldBlocs,
    tick: u64,
) -> Seq<WorldEventKind> {
    match before.phase_of() {
        RacePhase::Moon => {
            let table = moon_table_after(before, metrics, blocs);
            let passed = milestone_reports_upto(
                before.milestones@,
                table,
                metrics,
                NATION_COUNT as int,
            );
            match race_leader(table, metrics, NATION_COUNT as int) {
                Some(l) => if table[l] >= before.goal {
                    passed.push(
                        WorldEventKind::ScienceVictory { winner: Nation::at(l), progress: table[l] },
                    )
                } else {
                    passed
                },
                None => passed,
            }
        },
        RacePhase::Mars => beat_report(tick, 8, ramp_leader(before), after.mars_progress),
        RacePhase::Jovian => beat_report(tick, 10, ramp_leader(before), after.jovian_progress),
        RacePhase::Interstellar => {
            let progress = beat_report(tick, 8, ramp_leader(before), after.interstellar_progress);
            if after.interstellar_progress >= before.interstellar_goal {
                progress.push(
                    WorldEventKind::InterstellarVictory {
                        winner: ramp_leader(before),
                        progress: after.interstellar_progress,
                    },
                )
            } else {
                progress
            }
        },
        RacePhase::Finished => Seq::empty(),
    }
}

/// Whether an event reports on the race at a tick.
pub open spec fn is_race_news(e: WorldEvent, tick: u64) -> bool {
    e.tick == tick && (e.kind is ScienceProgress || e.kind is ScienceVictory
        || e.kind is InterstellarProgress || e.kind is InterstellarVictory)
}

/// Runs the Moon race for one tick.
fn moon_phase(
    tracker: &mut ScienceVictory,
    all_metrics: &AllNationMetrics,
    blocs: &WorldBlocs,
    event_log: &mut WorldEventLog,
    tick: u64,
    world_meta: &WorldMetadata,
)
    requires
        old(tracker).wf(),
        old(tracker).phase_of() == RacePhase::Moon,
        all_metrics.wf(),
        blocs.wf(),
        old(event_log).wf(),
        world_meta.wf(),
    ensures
        final(tracker).wf(),
        race_step(&*old(tracker), &*final(tracker), all_metrics.0@, blocs),
        final(event_log).wf(),
        final(event_log).capacity_of() == old(event_log).capacity_of(),
        only_added(old(event_log)@, final(event_log)@, |e: WorldEvent| is_race_news(e, tick)),
        logged(
            old(event_log)@,
            final(event_log)@,
            old(event_log).capacity_of(),
            tick,
            world_meta.epochs.segment_at(tick as int).label_text(),
            world_meta.epochs.season_at(tick as int).label_text(),
            race_reports(&*old(tracker), &*final(tracker), all_metrics.0@, blocs, tick),
        ),
{
    let (epoch, season) = world_meta.epoch_for_tick(tick);
    let goal: i64 = tracker.goal;
    let ghost table = moon_table_after(&*old(tracker), all_metrics.0@, blocs);
    let ghost cap = event_log.capacity_of();
    proof {
        lemma_logged_nothing(event_log@, cap, tick, epoch@, season@);
    }
    let mut leader: Option<usize> = None;
    let mut i: usize = 0;
    while i < NATION_COUNT
        invariant
            i <= NATION_COUNT,
            all_metrics.wf(),
            blocs.wf(),
            world_meta.wf(),
            old(tracker).wf(),
            old(tracker).phase_of() == RacePhase::Moon,
            tracker.wf(),
            goal == tracker.goal,
            table == moon_table_after(&*old(tracker), all_metrics.0@, blocs),
            tracker.goal == old(tracker).goal,
            tracker.mars_goal == old(tracker).mars_goal,
            tracker.jovian_goal == old(tracker).jovian_goal,
            tracker.interstellar_goal == old(tracker).interstellar_goal,
            tracker.mars_progress == old(tracker).mars_progress,
            tracker.jovian_progress == old(tracker).jovian_progress,
            tracker.interstellar_progress == old(tracker).interstellar_progress,
            tracker.leader_history == old(tracker).leader_history,
            tracker.winner == old(tracker).winner,
            tracker.phase_of() == RacePhase::Moon,
            tracker.progress@.len() == NATION_COUNT,
            forall|j: int| 0 <= j < i ==> #[trigger] tracker.progress@[j] == table[j],
            tracker.milestones@.len() == NATION_COUNT,
            forall|j: int|
                0 <= j < i ==> #[trigger] tracker.milestones@[j] == if races(all_metrics.0@[j])
                    && milestone_due(old(tracker).milestones@[j], table[j] as int) {
                    (old(tracker).milestones@[j] + 1) as u8
                } else {
                    old(tracker).milestones@[j]
                },
            forall|j: int|
                i <= j < NATION_COUNT ==> #[trigger] tracker.milestones@[j] == old(
                    tracker,
                ).milestones@[j],
            forall|j: int|
                i <= j < NATION_COUNT ==> #[trigger] tracker.progress@[j] == old(tracker).progress@[j],
            match leader {
                Some(l) => race_leader(table, all_metrics.0@, i as int) == Some(l as int) && l < i,
                None => race_leader(table, all_metrics.0@, i as int) is None,
            },
            event_log.wf(),
            event_log.capacity_of() == old(event_log).capacity_of(),
            only_added(old(event_log)@, event_log@, |e: WorldEvent| is_race_news(e, tick)),
            cap == old(event_log).capacity_of(),
            epoch@ == world_meta.epochs.segment_at(tick as int).label_text(),
            season@ == world_meta.epochs.season_at(tick as int).label_text(),
            logged(
                old(event_log)@,
                event_log@,
                cap,
                tick,
                epoch@,
                season@,
                milestone_reports_upto(old(tracker).milestones@, table, all_metrics.0@, i as int),
            ),
        decreases NATION_COUNT - i,
    {
        let m = &all_metrics.0[i];
        let nation: Nation = Nation::from_index(i);
        proof {
            assert(table[i as int] == moon_progress_after(
                old(tracker).progress@[i as int] as int,
                old(tracker).goal as int,
                all_metrics.0@[i as int],
                bloc_pull(blocs.research_pact, Nation::at(i as int)),
                bloc_pull(blocs.sanction, Nation::at(i as int)),
            ) as i64);
            assert(races(all_metrics.0@[i as int]) == (!m.is_destroyed && m.population > 0));
        }
        if !m.is_destroyed && m.population > 0 {
            let pact: i64 = bloc_strength_for(&blocs.research_pact, nation);
            let embargo: i64 = bloc_strength_for(&blocs.sanction, nation);
            let gain: i64 = moon_gain_for(m, pact, embargo);
            let next: i64 = if tracker.progress[i] + gain > goal {
                goal
            } else {
                tracker.progress[i] + gain
            };
            tracker.progress.set(i, next);
            leader = match leader {
                None => Some(i),
                Some(p) => if next > tracker.progress[p] {
                    Some(i)
                } else {
                    leader
                },
            };
            let count: u8 = tracker.milestones[i];
            if count < 4 && next >= (count as i64 + 1) * 25 * SCALE {
                tracker.milestones.set(i, count + 1);
                let event = WorldEvent::science_progress(tick, epoch, season, nation, next);
                let ghost middle = event_log@;
                event_log.record(
                    event,
                    Ghost(old(event_log)@),
                    Ghost(|e: WorldEvent| is_race_news(e, tick)),
                );
                proof {
                    lemma_logged_one_more(
                        old(event_log)@,
                        middle,
                        cap,
                        tick,
                        epoch@,
                        season@,
                        milestone_reports_upto(
                            old(tracker).milestones@,
                            table,
                            all_metrics.0@,
                            i as int,
                        ),
                        event,
                    );
                }
            }
        }
        i += 1;
    }
    assert(tracker.progress@ =~= table);
    match leader {
        Some(l) => {
            let value: i64 = tracker.progress[l];
            push_sliding(&mut tracker.leader_history, value, LEADER_HISTORY_CAP);
            if value >= goal {
                let nation: Nation = Nation::from_index(l);
                tracker.moon_done = true;
                tracker.winner = Some(nation);
                tracker.space_stage = SpaceStage::Mars;
                let event = WorldEvent::science_victory(tick, epoch, season, nation, value);
                let ghost middle = event_log@;
                event_log.record(
                    event,
                    Ghost(old(event_log)@),
                    Ghost(|e: WorldEvent| is_race_news(e, tick)),
                );
                proof {
                    lemma_logged_one_more(
                        old(event_log)@,
                        middle,
                        cap,
                        tick,
                        epoch@,
                        season@,
                        milestone_reports_upto(
                            old(tracker).milestones@,
                            table,
                            all_metrics.0@,
                            NATION_COUNT as int,
                        ),
                        event,
                    );
                }
            }
            proof {
                assert(tracker.leader_history@ =~= pushed_sliding(
                    old(tracker).leader_history@,
                    table[l as int],
                    LEADER_HISTORY_CAP as int,
                ));
            }
        },
        None => {},
    }
}

/// Tracks the race for one tick: the Moon race among all living nations, then the
/// automatic ramps to Mars, the Jovian system and the stars.
pub fn science_victory_system(
    tracker: &mut ScienceVictory,
    all_metrics: &AllNationMetrics,
    blocs: &WorldBlocs,
    event_log: &mut WorldEventLog,
    time: &WorldTime,
    world_meta: &WorldMetadata,
)
    requires
        old(tracker).wf(),
        all_metrics.wf(),
        blocs.wf(),
        old(event_log).wf(),
        world_meta.wf(),
    ensures
        final(tracker).wf(),
        race_step(&*old(tracker), &*final(tracker), all_metrics.0@, blocs),
        race_moved_forward(&*old(tracker), &*final(tracker)),
        final(event_log).wf(),
        final(event_log).capacity_of() == old(event_log).capacity_of(),
        only_added(old(event_log)@, final(event_log)@, |e: WorldEvent| is_race_news(e, time.tick)),
        old(tracker).finished ==> final(event_log)@ == old(event_log)@,
        logged(
            old(event_log)@,
            final(event_log)@,
            old(event_log).capacity_of(),
            time.tick,
            world_meta.epochs.segment_at(time.tick as int).label_text(),
            world_meta.epochs.season_at(time.tick as int).label_text(),
            race_reports(&*old(tracker), &*final(tracker), all_metrics.0@, blocs, time.tick),
        ),
        logged_few(
            old(event_log)@,
            final(event_log)@,
            old(event_log).capacity_of(),
            time.tick,
            world_meta.epochs.segment_at(time.tick as int).label_text(),
            world_meta.epochs.season_at(time.tick as int).label_text(),
            race_reports(&*old(tracker), &*final(tracker), all_metrics.0@, blocs, time.tick),
        ),
{
    let tick: u64 = time.tick;
    let ghost cap = event_log.capacity_of();
    let ghost none = Seq::<WorldEventKind>::empty();
    proof {
        lemma_logged_nothing(
            event_log@,
            cap,
            tick,
            world_meta.epochs.segment_at(tick as int).label_text(),
            world_meta.epochs.season_at(tick as int).label_text(),
        );
    }
    if tracker.finished {
    } else if !tracker.moon_done {
        moon_phase(tracker, all_metrics, blocs, event_log, tick, world_meta);
    } else {
        let (epoch, season) = world_meta.epoch_for_tick(tick);
        let leader: Nation = match tracker.winner {
            Some(n) => n,
            None => Nation::Tera,
        };
        match tracker.space_stage {
            SpaceStage::Moon => {},
            SpaceStage::Mars => {
                tracker.mars_progress = ramp(
                    tracker.mars_progress,
                    tracker.mars_goal,
                    400_000,
                    900_000,
                );
                if tick % 8 == 0 {
                    let event = WorldEvent::interstellar_progress(
                        tick,
                        epoch,
                        season,
                        leader,
                        tracker.mars_progress,
                    );
                    let ghost middle = event_log@;
                    event_log.record(
                        event,
                        Ghost(old(event_log)@),
                        Ghost(|e: WorldEvent| is_race_news(e, tick)),
                    );
                    proof {
                        lemma_logged_one_more(
                            old(event_log)@,
                            middle,
                            cap,
                            tick,
                            epoch@,
                            season@,
                            none,
                            event,
                        );
                    }
                }
                if tracker.mars_progress >= tracker.mars_goal {
                    tracker.mars_done = true;
                    tracker.space_stage = SpaceStage::Jovian;
                }
            },
            SpaceStage::Jovian => {
                tracker.jovian_progress = ramp(
                    tracker.jovian_progress,
                    tracker.jovian_goal,
                    350_000,
                    800_000,
                );
                if tick % 10 == 0 {
                    let event = WorldEvent::interstellar_progress(
                        tick,
                        epoch,
                        season,
                        leader,
                        tracker.jovian_progress,
                    );
                    let ghost middle = event_log@;
                    event_log.record(
                        event,
                        Ghost(old(event_log)@),
                        Ghost(|e: WorldEvent| is_race_news(e, tick)),
                    );
                    proof {
                        lemma_logged_one_more(
                            old(event_log)@,
                            middle,
                            cap,
                            tick,
                            epoch@,
                            season@,
                            none,
                            event,
                        );
                    }
                }
                if tracker.jovian_progress >= tracker.jovian_goal {
                    tracker.jovian_done = true;
                    tracker.space_stage = SpaceStage::Interstellar;
                    tracker.interstellar_mode = true;
                }
            },
            SpaceStage::Interstellar => {
                tracker.interstellar_progress = ramp(
                    tracker.interstellar_progress,
                    tracker.interstellar_goal,
                    600_000,
                    800_000,
                );
                if tick % 8 == 0 {
                    let event = WorldEvent::interstellar_progress(
                        tick,
                        epoch,
                        season,
                        leader,
                        tracker.interstellar_progress,
                    );
                    let ghost middle = event_log@;
                    event_log.record(
                        event,
                        Ghost(old(event_log)@),
                        Ghost(|e: WorldEvent| is_race_news(e, tick)),
                    );
                    proof {
                        lemma_logged_one_more(
                            old(event_log)@,
                            middle,
                            cap,
                            tick,
                            epoch@,
                            season@,
                            none,
                            event,
                        );
                    }
                }
                if tracker.interstellar_progress >= tracker.interstellar_goal {
                    tracker.interstellar_mode = false;
                    tracker.finished = true;
                    let event = WorldEvent::interstellar_victory(
                        tick,
                        epoch,
                        season,
                        leader,
                        tracker.interstellar_progress,
                    );
                    let ghost middle = event_log@;
                    event_log.record(
                        event,
                        Ghost(old(event_log)@),
                        Ghost(|e: WorldEvent| is_race_news(e, tick)),
                    );
                    proof {
                        lemma_logged_one_more(
                            old(event_log)@,
                            middle,
                            cap,
                            tick,
                            epoch@,
                            season@,
                            beat_report(tick, 8, leader, tracker.interstellar_progress),
                            event,
                        );
                    }
                }
            },
        }
    }
    proof {
        lemma_race_step_moves_forward(&*old(tracker), &*tracker, all_metrics.0@, blocs);
        lemma_logged_few(
            old(event_log)@,
            event_log@,
            cap,
            tick,
            world_meta.epochs.segment_at(tick as int).label_text(),
            world_meta.epochs.season_at(tick as int).label_text(),
            race_reports(&*old(tracker), &*tracker, all_metrics.0@, blocs, tick),
        );
    }
}

} // verus!
