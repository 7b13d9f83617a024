//! Missions: what their goals send inhabitants to do.

use vstd::prelude::*;
use vstd::string::*;
use crate::components::BehaviorState;
use crate::components::Entity;
use crate::components::GoalKind;
use crate::components::Goals;
use crate::components::Personality;
use crate::components::entities_wf;
use crate::events::EventActor;
use crate::events::WorldEvent;
use crate::events::WorldEventKind;
use crate::events::WorldEventLog;
use crate::events::lemma_one_more_pushed;
use crate::events::log_after_all;
use crate::events::log_after_push;
use crate::events::only_added;
use crate::fixed::SCALE;
use crate::localization::behavior_label;
use crate::localization::biome_name;
use crate::localization::faction_name;
use crate::localization::goal_label;
use crate::resources::WorldTime;
use crate::systems::ai::same_but_behavior;
use crate::text::append_fixed;

verus! {

/// How often missions are reported, in ticks.
pub const MISSION_REPORT_PERIOD: u64 = 48;

/// What a goal sends an inhabitant to do: wealth to trade (or to explore, for
/// the very curious), glory to hunt, survival to gather, influence to trade (or
/// to rest, for the sociable).
pub open spec fn mission_of(goals: Goals, personality: Personality) -> BehaviorState {
    match goals.primary {
        GoalKind::Wealth => if personality.curious > 600_000 {
            BehaviorState::Explore
        } else {
            BehaviorState::Trade
        },
        GoalKind::Glory => BehaviorState::Hunt,
        GoalKind::Survival => BehaviorState::Gather,
        GoalKind::Influence => if personality.social > 500_000 {
            BehaviorState::Rest
        } else {
            BehaviorState::Trade
        },
    }
}

pub fn mission_for(goals: &Goals, personality: &Personality) -> (r: BehaviorState)
    ensures
        r == mission_of(*goals, *personality),
{
    match goals.primary {
        GoalKind::Wealth => if personality.curious > 600_000 {
            BehaviorState::Explore
        } else {
            BehaviorState::Trade
        },
        GoalKind::Glory => BehaviorState::Hunt,
        GoalKind::Survival => BehaviorState::Gather,
        GoalKind::Influence => if personality.social > 500_000 {
            BehaviorState::Rest
        } else {
            BehaviorState::Trade
        },
    }
}

/// Whether a mission is reported: every 48th tick, for those who mean it.
pub open spec fn is_reported(tick: u64, goals: Goals) -> bool {
    tick % MISSION_REPORT_PERIOD == 0 && goals.intensity > SCALE / 2
}

/// Whether an event reports the mission that an inhabitant took up at a tick.
pub open spec fn is_mission_report(e: WorldEvent, tick: u64, entity: Entity) -> bool {
    &&& e.tick == tick
    &&& e.epoch@ == "Missions"@
    &&& match e.kind {
        WorldEventKind::Social { convener, gathering_theme, cohesion_level } => {
            &&& convener.id == entity.identity.id
            &&& convener.nation == entity.identity.nation
            &&& convener.faction == entity.identity.faction
            &&& convener.biome == entity.position.biome
            &&& convener.behavior_hint == mission_of(entity.goals, entity.personality)
        },
        _ => false,
    }
}

/// The positions of the inhabitants among the first `n` whose mission is
/// reported at a tick, in order.
pub open spec fn reporters_upto(entities: Seq<Entity>, tick: u64, n: int) -> Seq<int>
    decreases n,
{
    if n <= 0 {
        Seq::empty()
    } else if is_reported(tick, entities[n - 1].goals) {
        reporters_upto(entities, tick, n - 1).push(n - 1)
    } else {
        reporters_upto(entities, tick, n - 1)
    }
}

/// Whether `news` reports the missions of the given inhabitants at a tick, one
/// event each, in order.
pub open spec fn reports_missions(
    news: Seq<WorldEvent>,
    entities: Seq<Entity>,
    reporters: Seq<int>,
    tick: u64,
) -> bool {
    &&& news.len() == reporters.len()
    &&& forall|k: int|
        0 <= k < news.len() ==> is_mission_report(#[trigger] news[k], tick, entities[reporters[k]])
}

/// Whether `after` is the log `before` once it took one mission report for each
/// of the given inhabitants, in order, and nothing else.
pub open spec fn missions_logged(
    before: Seq<WorldEvent>,
    after: Seq<WorldEvent>,
    capacity: int,
    tick: u64,
    entities: Seq<Entity>,
    reporters: Seq<int>,
) -> bool {
    exists|news: Seq<WorldEvent>| #[trigger]
        reports_missions(news, entities, reporters, tick) && after == log_after_all(
            before,
            capacity,
            news,
        )
}

proof fn lemma_no_mission_logged(log: Seq<WorldEvent>, capacity: int, tick: u64, entities: Seq<Entity>)
    ensures
        missions_logged(log, log, capacity, tick, entities, Seq::empty()),
{
    assert(reports_missions(Seq::empty(), entities, Seq::empty(), tick));
    assert(log_after_all(log, capacity, Seq::empty()) == log);
}

proof fn lemma_more_missions_logged(
    before: Seq<WorldEvent>,
    middle: Seq<WorldEvent>,
    capacity: int,
    tick: u64,
    entities: Seq<Entity>,
    reporters: Seq<int>,
    event: WorldEvent,
    reporter: int,
)
    requires
        missions_logged(before, middle, capacity, tick, entities, reporters),
        is_mission_report(event, tick, entities[reporter]),
    ensures
        missions_logged(
            before,
            log_after_push(middle, capacity, event),
            capacity,
            tick,
            entities,
            reporters.push(reporter),
        ),
{
    let news = choose|news: Seq<WorldEvent>| #[trigger]
        reports_missions(news, entities, reporters, tick) && middle == log_after_all(
            before,
            capacity,
            news,
        );
    lemma_one_more_pushed(before, capacity, news, event);
    assert(reports_missions(news.push(event), entities, reporters.push(reporter), tick));
}

fn mission_event(tick: u64, entity: &Entity, target: BehaviorState) -> (e: WorldEvent)
    requires
        entity.wf(),
    ensures
        e.tick == tick,
        e.kind is Social,
        e.epoch@ == "Missions"@,
        match e.kind {
            WorldEventKind::Social { convener, gathering_theme, cohesion_level } => {
                &&& convener.id == entity.identity.id
                &&& convener.nation == entity.identity.nation
                &&& convener.faction == entity.identity.faction
                &&& convener.biome == entity.position.biome
                &&& convener.behavior_hint == target
            },
            _ => false,
        },
{
    let mut place = String::from_str("Pos ");
    append_fixed(&mut place, entity.position.x, 0);
    place.append(",");
    append_fixed(&mut place, entity.position.y, 0);
    let mut theme = String::from_str(goal_label(entity.goals.primary));
    theme.append(" mission");
    let mut level = String::from_str("Intensity ");
    append_fixed(&mut level, entity.goals.intensity, 1);
    WorldEvent {
        tick,
        epoch: String::from_str("Missions"),
        season: place,
        kind: WorldEventKind::Social {
            convener: EventActor {
                id: entity.identity.id,
                name: entity.identity.name.clone(),
                nation: entity.identity.nation,
                faction: entity.identity.faction,
                faction_label: String::from_str(faction_name(entity.identity.faction)),
                biome: entity.position.biome,
                biome_label: String::from_str(biome_name(entity.position.biome)),
                behavior_hint: target,
                behavior_hint_label: String::from_str(behavior_label(target)),
            },
            gathering_theme: theme,
            cohesion_level: level,
        },
    }
}

/// Whether an event reports a mission at a tick.
pub open spec fn is_mission_news(e: WorldEvent, tick: u64) -> bool {
    e.tick == tick && e.kind is Social
}

/// Sends every inhabitant on the mission of its goal and reports, every 48th tick,
/// the missions of those whose resolve is above a half.
pub fn mission_system(entities: &mut Vec<Entity>, time: &WorldTime, log: &mut WorldEventLog)
    requires
        entities_wf(old(entities)@),
        old(log).wf(),
    ensures
        entities_wf(final(entities)@),
        final(entities)@.len() == old(entities)@.len(),
        forall|k: int|
            0 <= k < old(entities)@.len() ==> same_but_behavior(
                old(entities)@[k],
                #[trigger] final(entities)@[k],
            ) && final(entities)@[k].behavior.state == mission_of(
                old(entities)@[k].goals,
                old(entities)@[k].personality,
            ),
        final(log).wf(),
        final(log).capacity_of() == old(log).capacity_of(),
        only_added(old(log)@, final(log)@, |e: WorldEvent| is_mission_news(e, time.tick)),
        (forall|k: int|
            0 <= k < old(entities)@.len() ==> !is_reported(
                time.tick,
                (#[trigger] old(entities)@[k]).goals,
            )) ==> final(log)@ == old(log)@,
        missions_logged(
            old(log)@,
            final(log)@,
            old(log).capacity_of(),
            time.tick,
            old(entities)@,
            reporters_upto(old(entities)@, time.tick, old(entities)@.len() as int),
        ),
{
    proof {
        lemma_no_mission_logged(log@, log.capacity_of(), time.tick, entities@);
    }
    let count: usize = entities.len();
    let mut k: usize = 0;
    while k < count
        invariant
            k <= count,
            count == entities@.len(),
            count == old(entities)@.len(),
            entities_wf(entities@),
            forall|n: int|
                0 <= n < k ==> same_but_behavior(old(entities)@[n], #[trigger] entities@[n])
                    && entities@[n].behavior.state == mission_of(
                    old(entities)@[n].goals,
                    old(entities)@[n].personality,
                ),
            forall|n: int| k <= n < count ==> #[trigger] entities@[n] == old(entities)@[n],
            log.wf(),
            log.capacity_of() == old(log).capacity_of(),
            only_added(old(log)@, log@, |e: WorldEvent| is_mission_news(e, time.tick)),
            (forall|n: int|
                0 <= n < k ==> !is_reported(time.tick, (#[trigger] old(entities)@[n]).goals))
                ==> log@ == old(log)@,
            missions_logged(
                old(log)@,
                log@,
                old(log).capacity_of(),
                time.tick,
                old(entities)@,
                reporters_upto(old(entities)@, time.tick, k as int),
            ),
        decreases count - k,
    {
        let target: BehaviorState = mission_for(&entities[k].goals, &entities[k].personality);
        entities[k].behavior.state = target;
        if time.tick % MISSION_REPORT_PERIOD == 0 && entities[k].goals.intensity > SCALE / 2 {
            let event = mission_event(time.tick, &entities[k], target);
            let ghost middle = log@;
            log.record(
                event,
                Ghost(old(log)@),
                Ghost(|e: WorldEvent| is_mission_news(e, time.tick)),
            );
            proof {
                lemma_more_missions_logged(
                    old(log)@,
                    middle,
                    old(log).capacity_of(),
                    time.tick,
                    old(entities)@,
                    reporters_upto(old(entities)@, time.tick, k as int),
                    event,
                    k as int,
                );
            }
        }
        k += 1;
    }
}

} // verus!
