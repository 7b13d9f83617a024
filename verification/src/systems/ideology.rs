//! Ideology: where nations lean, how well they hold together, and when they boil over.

use vstd::prelude::*;
use vstd::string::*;
use crate::components::BehaviorState;
use crate::components::Biome;
use crate::components::Faction;
use crate::events::EventActor;
use crate::events::WorldEvent;
use crate::events::WorldEventKind;
use crate::events::WorldEventLog;
use crate::events::lemma_one_more_pushed;
use crate::events::log_after_all;
use crate::events::log_after_push;
use crate::events::only_added;
use crate::fixed::SCALE;
use crate::fixed::clamp;
use crate::fixed::clamp_int;
use crate::fixed::scale_clamped;
use crate::fixed::scaled;
use crate::nation::Nation;
use crate::nation::NATION_COUNT;
use crate::resources::AllNationMetrics;
use crate::resources::IdeologyMatrix;
use crate::resources::METRIC_MAX;
use crate::resources::NationMetrics;
use crate::resources::WorldTime;
use crate::text::append_fixed;

verus! {

/// Volatility above which a nation boils over: 80 units.
pub const UNREST_THRESHOLD: i64 = 80_000_000;

/// Where a living nation leans after a tick: prosperity pushes it on, religion
/// and military hold it back, by at most three units either way.
pub open spec fn leaning_after(leaning: int, m: NationMetrics) -> int {
    if m.is_destroyed {
        leaning
    } else {
        clamp_int(
            leaning + clamp_int(
                (m.economy + m.culture) * 2 / 100 - (m.religion + m.military) / 100,
                -3 * SCALE,
                3 * SCALE,
            ),
            0,
            100 * SCALE,
        )
    }
}

/// Volatility of a living nation after a tick, before any outburst: it rises
/// where cohesion is under 50 and prosperity under 60 units.
pub open spec fn volatility_raised(volatility: int, cohesion: int, m: NationMetrics) -> int {
    if m.is_destroyed {
        volatility
    } else {
        clamp_int(
            volatility + scaled(50 * SCALE - cohesion, 5, 100) + scaled(
                60 * SCALE - (m.economy + m.culture + m.science) / 3,
                2,
                100,
            ),
            0,
            100 * SCALE,
        )
    }
}

/// Cohesion after a tick: it returns a twentieth of the way to 55 units and
/// loses a fiftieth of the volatility.
pub open spec fn cohesion_after(cohesion: int, volatility: int) -> int {
    clamp_int(
        cohesion + scaled(55 * SCALE - cohesion, 5, 100) - volatility * 2 / 100,
        5 * SCALE,
        100 * SCALE,
    )
}

/// Whether a nation boils over.
pub open spec fn boils_over(volatility: int) -> bool {
    volatility > UNREST_THRESHOLD
}

/// Volatility after an outburst has let ten units off.
pub open spec fn volatility_settled(volatility: int) -> int {
    if boils_over(volatility) {
        volatility - 10 * SCALE
    } else {
        volatility
    }
}

/// Whether an event reports the unrest of a nation at a tick.
pub open spec fn is_unrest_report(e: WorldEvent, tick: u64, nation: Nation) -> bool {
    &&& e.tick == tick
    &&& e.epoch@ == "사상"@
    &&& e.season@ == "불안"@
    &&& match e.kind {
        WorldEventKind::Social { convener, gathering_theme, cohesion_level } => {
            &&& convener.nation == nation
            &&& convener.name@ == nation.name_text() + " 내부 파벌"@
            &&& gathering_theme@ == "이념 충돌/폭동"@
        },
        _ => false,
    }
}

/// The table positions of the nations among the first `n` that boil over this
/// tick, in table order.
pub open spec fn rebels_upto(matrix: &IdeologyMatrix, metrics: Seq<NationMetrics>, n: int) -> Seq<int>
    decreases n,
{
    if n <= 0 {
        Seq::empty()
    } else if boils_over(
        volatility_raised(
            matrix.volatility@[n - 1] as int,
            matrix.cohesion@[n - 1] as int,
            metrics[n - 1],
        ),
    ) {
        rebels_upto(matrix, metrics, n - 1).push(n - 1)
    } else {
        rebels_upto(matrix, metrics, n - 1)
    }
}

/// Whether `news` reports the unrest of the given nations at a tick, one event
/// each, in order.
pub open spec fn reports_unrest(news: Seq<WorldEvent>, rebels: Seq<int>, tick: u64) -> bool {
    &&& news.len() == rebels.len()
    &&& forall|k: int|
        0 <= k < news.len() ==> is_unrest_report(#[trigger] news[k], tick, Nation::at(rebels[k]))
}

/// Whether `after` is the log `before` once it took one report of unrest for
/// each of the given nations, in order, and nothing else.
pub open spec fn unrest_logged(
    before: Seq<WorldEvent>,
    after: Seq<WorldEvent>,
    capacity: int,
    tick: u64,
    rebels: Seq<int>,
) -> bool {
    exists|news: Seq<WorldEvent>| #[trigger]
        reports_unrest(news, rebels, tick) && after == log_after_all(before, capacity, news)
}

proof fn lemma_no_unrest_logged(log: Seq<WorldEvent>, capacity: int, tick: u64)
    ensures
        unrest_logged(log, log, capacity, tick, Seq::empty()),
{
    assert(reports_unrest(Seq::empty(), Seq::empty(), tick));
    assert(log_after_all(log, capacity, Seq::empty()) == log);
}

proof fn lemma_more_unrest_logged(
    before: Seq<WorldEvent>,
    middle: Seq<WorldEvent>,
    capacity: int,
    tick: u64,
    rebels: Seq<int>,
    event: WorldEvent,
    rebel: int,
)
    requires
        unrest_logged(before, middle, capacity, tick, rebels),
        is_unrest_report(event, tick, Nation::at(rebel)),
    ensures
        unrest_logged(
            before,
            log_after_push(middle, capacity, event),
            capacity,
            tick,
            rebels.push(rebel),
        ),
{
    let news = choose|news: Seq<WorldEvent>| #[trigger]
        reports_unrest(news, rebels, tick) && middle == log_after_all(before, capacity, news);
    lemma_one_more_pushed(before, capacity, news, event);
    assert(reports_unrest(news.push(event), rebels.push(rebel), tick));
}

fn unrest_event(tick: u64, nation: Nation, volatility: i64) -> (e: WorldEvent)
    ensures
        e.tick == tick,
        e.kind is Social,
        is_unrest_report(e, tick, nation),
{
    let mut name = String::from_str(nation.name());
    name.append(" 내부 파벌");
    let mut level = String::from_str("vol ");
    append_fixed(&mut level, volatility, 0);
    WorldEvent {
        tick,
        epoch: String::from_str("사상"),
        season: String::from_str("불안"),
        kind: WorldEventKind::Social {
            convener: EventActor {
                id: 0,
                name,
                nation,
                faction: Faction::Neutral,
                faction_label: String::from_str("내부"),
                biome: Biome::Plains,
                biome_label: String::from_str("Plains"),
                behavior_hint: BehaviorState::Idle,
                behavior_hint_label: String::from_str("Idle"),
            },
            gathering_theme: String::from_str("이념 충돌/폭동"),
            cohesion_level: level,
        },
    }
}

/// Whether an event reports unrest at a tick.
pub open spec fn is_unrest_news(e: WorldEvent, tick: u64) -> bool {
    e.tick == tick && e.kind is Social
}

/// Lets ideology drift for a tick and reports every outburst.
pub fn ideology_system(
    matrix: &mut IdeologyMatrix,
    metrics: &AllNationMetrics,
    time: &WorldTime,
    log: &mut WorldEventLog,
)
    requires
        old(matrix).wf(),
        metrics.wf(),
        old(log).wf(),
    ensures
        final(matrix).wf(),
        forall|i: int|
            0 <= i < NATION_COUNT ==> #[trigger] final(matrix).leaning@[i] == leaning_after(
                old(matrix).leaning@[i] as int,
                metrics.0@[i],
            ),
        forall|i: int|
            0 <= i < NATION_COUNT ==> #[trigger] final(matrix).volatility@[i]
                == volatility_settled(
                volatility_raised(
                    old(matrix).volatility@[i] as int,
                    old(matrix).cohesion@[i] as int,
                    metrics.0@[i],
                ),
            ),
        forall|i: int|
            0 <= i < NATION_COUNT ==> #[trigger] final(matrix).cohesion@[i] == cohesion_after(
                old(matrix).cohesion@[i] as int,
                volatility_raised(
                    old(matrix).volatility@[i] as int,
                    old(matrix).cohesion@[i] as int,
                    metrics.0@[i],
                ),
            ),
        final(log).wf(),
        final(log).capacity_of() == old(log).capacity_of(),
        only_added(old(log)@, final(log)@, |e: WorldEvent| is_unrest_news(e, time.tick)),
        unrest_logged(
            old(log)@,
            final(log)@,
            old(log).capacity_of(),
            time.tick,
            rebels_upto(&*old(matrix), metrics.0@, NATION_COUNT as int),
        ),
{
    proof {
        lemma_no_unrest_logged(log@, log.capacity_of(), time.tick);
    }
    let mut i: usize = 0;
    while i < NATION_COUNT
        invariant
            i <= NATION_COUNT,
            metrics.wf(),
            old(matrix).wf(),
            matrix.wf(),
            forall|j: int|
                0 <= j < i ==> #[trigger] matrix.leaning@[j] == leaning_after(
                    old(matrix).leaning@[j] as int,
                    metrics.0@[j],
                ),
            forall|j: int|
                0 <= j < i ==> #[trigger] matrix.volatility@[j] == volatility_settled(
                    volatility_raised(
                        old(matrix).volatility@[j] as int,
                        old(matrix).cohesion@[j] as int,
                        metrics.0@[j],
                    ),
                ),
            forall|j: int|
                0 <= j < i ==> #[trigger] matrix.cohesion@[j] == cohesion_after(
                    old(matrix).cohesion@[j] as int,
                    volatility_raised(
                        old(matrix).volatility@[j] as int,
                        old(matrix).cohesion@[j] as int,
                        metrics.0@[j],
                    ),
                ),
            forall|j: int|
                i <= j < NATION_COUNT ==> #[trigger] matrix.leaning@[j] == old(matrix).leaning@[j],
            forall|j: int|
                i <= j < NATION_COUNT ==> #[trigger] matrix.volatility@[j] == old(
                    matrix,
                ).volatility@[j],
            forall|j: int|
                i <= j < NATION_COUNT ==> #[trigger] matrix.cohesion@[j] == old(matrix).cohesion@[j],
            log.wf(),
            log.capacity_of() == old(log).capacity_of(),
            only_added(old(log)@, log@, |e: WorldEvent| is_unrest_news(e, time.tick)),
            unrest_logged(
                old(log)@,
                log@,
                old(log).capacity_of(),
                time.tick,
                rebels_upto(&*old(matrix), metrics.0@, i as int),
            ),
        decreases NATION_COUNT - i,
    {
        let m = &metrics.0[i];
        let cohesion: i64 = matrix.cohesion[i];
        let mut volatility: i64 = matrix.volatility[i];
        if !m.is_destroyed {
            let push: i64 = clamp(
                (m.economy + m.culture) * 2 / 100 - (m.religion + m.military) / 100,
                -3 * SCALE,
                3 * SCALE,
            );
            let leaning: i64 = clamp(matrix.leaning[i] + push, 0, 100 * SCALE);
            matrix.leaning.set(i, leaning);
            volatility = clamp(
                volatility + scale_clamped(50 * SCALE - cohesion, 5, 100, -METRIC_MAX, METRIC_MAX)
                    + scale_clamped(
                    60 * SCALE - (m.economy + m.culture + m.science) / 3,
                    2,
                    100,
                    -METRIC_MAX,
                    METRIC_MAX,
                ),
                0,
                100 * SCALE,
            );
        }
        let held: i64 = clamp(
            cohesion + scale_clamped(55 * SCALE - cohesion, 5, 100, -METRIC_MAX, METRIC_MAX)
                - volatility * 2 / 100,
            5 * SCALE,
            100 * SCALE,
        );
        matrix.cohesion.set(i, held);
        if volatility > UNREST_THRESHOLD {
            volatility = volatility - 10 * SCALE;
            let event = unrest_event(time.tick, Nation::from_index(i), volatility);
            let ghost middle = log@;
            log.record(
                event,
                Ghost(old(log)@),
                Ghost(|e: WorldEvent| is_unrest_news(e, time.tick)),
            );
            proof {
                lemma_more_unrest_logged(
                    old(log)@,
                    middle,
                    old(log).capacity_of(),
                    time.tick,
                    rebels_upto(&*old(matrix), metrics.0@, i as int),
                    event,
                    i as int,
                );
            }
        }
        matrix.volatility.set(i, volatility);
        i += 1;
    }
}

} // verus!
