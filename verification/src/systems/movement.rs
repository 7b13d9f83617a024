//! Movement of those who are out and about.

use vstd::prelude::*;
use crate::components::BehaviorState;
use crate::components::Entity;
use crate::components::Position;
use crate::components::QUANTITY_MAX;
use crate::components::entities_wf;
use crate::fixed::SCALE;
use crate::fixed::clamp;
use crate::fixed::clamp_int;

verus! {

/// Whether a behaviour takes an inhabitant across the land.
pub open spec fn roams(state: BehaviorState) -> bool {
    state == BehaviorState::Explore || state == BehaviorState::Gather || state
        == BehaviorState::Hunt
}

/// A position after a tick: those who roam move one unit along both axes.
pub open spec fn position_after(p: Position, state: BehaviorState) -> Position {
    if roams(state) {
        Position {
            x: clamp_int(p.x + SCALE, -QUANTITY_MAX as int, QUANTITY_MAX as int) as i64,
            y: clamp_int(p.y + SCALE, -QUANTITY_MAX as int, QUANTITY_MAX as int) as i64,
            biome: p.biome,
        }
    } else {
        p
    }
}

/// Moves everyone who explores, gathers or hunts.
pub fn movement_and_combat_system(entities: &mut Vec<Entity>)
    requires
        entities_wf(old(entities)@),
    ensures
        entities_wf(final(entities)@),
        final(entities)@.len() == old(entities)@.len(),
        forall|k: int|
            0 <= k < old(entities)@.len() ==> #[trigger] final(entities)@[k] == (Entity {
                position: position_after(
                    old(entities)@[k].position,
                    old(entities)@[k].behavior.state,
                ),
                ..old(entities)@[k]
            }),
{
    let count: usize = entities.len();
    let mut k: usize = 0;
    while k < count
        invariant
            k <= count,
            count == entities@.len(),
            count == old(entities)@.len(),
            entities_wf(entities@),
            forall|n: int|
                0 <= n < k ==> #[trigger] entities@[n] == (Entity {
                    position: position_after(
                        old(entities)@[n].position,
                        old(entities)@[n].behavior.state,
                    ),
                    ..old(entities)@[n]
                }),
            forall|n: int| k <= n < count ==> #[trigger] entities@[n] == old(entities)@[n],
        decreases count - k,
    {
        match entities[k].behavior.state {
            BehaviorState::Explore | BehaviorState::Gather | BehaviorState::Hunt => {
                let x: i64 = clamp(entities[k].position.x + SCALE, -QUANTITY_MAX, QUANTITY_MAX);
                let y: i64 = clamp(entities[k].position.y + SCALE, -QUANTITY_MAX, QUANTITY_MAX);
                entities[k].position.x = x;
                entities[k].position.y = y;
            },
            _ => {},
        }
        k += 1;
    }
}

} // verus!
