//! What inhabitants decide to do next.

use vstd::prelude::*;
use crate::components::Behavior;
use crate::components::BehaviorState;
use crate::components::Biome;
use crate::components::Entity;
use crate::components::Faction;
use crate::components::Personality;
use crate::components::entities_wf;
use crate::fixed::SCALE;
use crate::fixed::clamp;
use crate::fixed::clamp_int;
use crate::fixed::lemma_scaled_bounds;
use crate::fixed::scale;
use crate::fixed::scale_clamped;
use crate::fixed::scaled;
use crate::resources::ScienceVictory;
use crate::resources::WorldTime;
use crate::rng::rng_from_seed;
use crate::rng::rng_range;
use crate::rng::seed;
use crate::world::DaySegment;
use crate::world::FACTOR_MAX;
use crate::world::Season;
use crate::world::WorldMetadata;

verus! {

/// Number of things an inhabitant can turn to from any behaviour.
pub const OPTION_COUNT: usize = 4;

/// Smallest weight an option can have: a hundredth.
pub const WEIGHT_MIN: i64 = 10_000;

/// What an inhabitant in `state` can turn to, with base weights in millionths.
pub open spec fn transition_table(state: BehaviorState) -> Seq<(BehaviorState, int)> {
    match state {
        BehaviorState::Idle => seq![
            (BehaviorState::Idle, 200_000int),
            (BehaviorState::Explore, 300_000int),
            (BehaviorState::Trade, 250_000int),
            (BehaviorState::Rest, 250_000int),
        ],
        BehaviorState::Explore => seq![
            (BehaviorState::Explore, 200_000int),
            (BehaviorState::Gather, 350_000int),
            (BehaviorState::Hunt, 250_000int),
            (BehaviorState::Trade, 200_000int),
        ],
        BehaviorState::Gather => seq![
            (BehaviorState::Gather, 250_000int),
            (BehaviorState::Trade, 400_000int),
            (BehaviorState::Rest, 200_000int),
            (BehaviorState::Explore, 150_000int),
        ],
        BehaviorState::Trade => seq![
            (BehaviorState::Trade, 350_000int),
            (BehaviorState::Rest, 200_000int),
            (BehaviorState::Idle, 150_000int),
            (BehaviorState::Explore, 300_000int),
        ],
        BehaviorState::Hunt => seq![
            (BehaviorState::Hunt, 250_000int),
            (BehaviorState::Rest, 300_000int),
            (BehaviorState::Gather, 200_000int),
            (BehaviorState::Trade, 250_000int),
        ],
        BehaviorState::Rest => seq![
            (BehaviorState::Rest, 300_000int),
            (BehaviorState::Idle, 350_000int),
            (BehaviorState::Explore, 200_000int),
            (BehaviorState::Trade, 150_000int),
        ],
    }
}

/// The `k`-th option of an inhabitant in `state`.
pub fn transition_option(state: BehaviorState, k: usize) -> (r: (BehaviorState, i64))
    requires
        k < OPTION_COUNT,
    ensures
        r.0 == transition_table(state)[k as int].0,
        r.1 == transition_table(state)[k as int].1,
        150_000 <= r.1 <= 400_000,
{
    match state {
        BehaviorState::Idle => if k == 0 {
            (BehaviorState::Idle, 200_000)
        } else if k == 1 {
            (BehaviorState::Explore, 300_000)
        } else if k == 2 {
            (BehaviorState::Trade, 250_000)
        } else {
            (BehaviorState::Rest, 250_000)
        },
        BehaviorState::Explore => if k == 0 {
            (BehaviorState::Explore, 200_000)
        } else if k == 1 {
            (BehaviorState::Gather, 350_000)
        } else if k == 2 {
            (BehaviorState::Hunt, 250_000)
        } else {
            (BehaviorState::Trade, 200_000)
        },
        BehaviorState::Gather => if k == 0 {
            (BehaviorState::Gather, 250_000)
        } else if k == 1 {
            (BehaviorState::Trade, 400_000)
        } else if k == 2 {
            (BehaviorState::Rest, 200_000)
        } else {
            (BehaviorState::Explore, 150_000)
        },
        BehaviorState::Trade => if k == 0 {
            (BehaviorState::Trade, 350_000)
        } else if k == 1 {
            (BehaviorState::Rest, 200_000)
        } else if k == 2 {
            (BehaviorState::Idle, 150_000)
        } else {
            (BehaviorState::Explore, 300_000)
        },
        BehaviorState::Hunt => if k == 0 {
            (BehaviorState::Hunt, 250_000)
        } else if k == 1 {
            (BehaviorState::Rest, 300_000)
        } else if k == 2 {
            (BehaviorState::Gather, 200_000)
        } else {
            (BehaviorState::Trade, 250_000)
        },
        BehaviorState::Rest => if k == 0 {
            (BehaviorState::Rest, 300_000)
        } else if k == 1 {
            (BehaviorState::Idle, 350_000)
        } else if k == 2 {
            (BehaviorState::Explore, 200_000)
        } else {
            (BehaviorState::Trade, 150_000)
        },
    }
}

/// How much a personality likes a behaviour: one, shifted by its traits, between
/// 0.1 and 2.5.
pub open spec fn personality_modifier(p: Personality, state: BehaviorState) -> int {
    let shift = match state {
        BehaviorState::Hunt => scaled(p.aggressive * 6 - p.cautious * 3, 1, 10),
        BehaviorState::Trade => scaled(p.social * 65 + p.curious * 15, 1, 100),
        BehaviorState::Explore => scaled(p.curious * 6 - p.cautious * 2, 1, 10),
        BehaviorState::Gather => scaled(p.curious * 2 + p.cautious * 2, 1, 10),
        BehaviorState::Rest => scaled(p.cautious * 4 - p.aggressive * 2, 1, 10),
        BehaviorState::Idle => scaled(p.cautious - p.curious, 1, 10),
    };
    clamp_int(SCALE + shift, 100_000, 2_500_000)
}

/// How much a part of the day favours a behaviour.
pub open spec fn epoch_modifier(segment: DaySegment, state: BehaviorState) -> int {
    match segment {
        DaySegment::Dawn => match state {
            BehaviorState::Explore => 1_150_000,
            BehaviorState::Gather => 1_150_000,
            BehaviorState::Rest => 850_000,
            _ => 1_000_000,
        },
        DaySegment::Midday => match state {
            BehaviorState::Trade => 1_250_000,
            BehaviorState::Idle => 750_000,
            _ => 1_000_000,
        },
        DaySegment::Dusk => match state {
            BehaviorState::Hunt => 1_250_000,
            BehaviorState::Rest => 1_100_000,
            BehaviorState::Trade => 750_000,
            _ => 1_000_000,
        },
    }
}

/// How much a season favours a behaviour.
pub open spec fn season_modifier(season: Season, state: BehaviorState) -> int {
    match season {
        Season::FlowerBloom => match state {
            BehaviorState::Gather => 1_200_000,
            BehaviorState::Trade => 1_050_000,
            _ => 1_000_000,
        },
        Season::SunburstPeak => match state {
            BehaviorState::Explore => 1_100_000,
            BehaviorState::Hunt => 1_100_000,
            BehaviorState::Rest => 950_000,
            _ => 1_000_000,
        },
        Season::Ashfall => match state {
            BehaviorState::Rest => 1_250_000,
            BehaviorState::Trade => 900_000,
            _ => 1_000_000,
        },
    }
}

/// How the science race tilts behaviour while it lasts: toward trade and
/// gathering, away from hunting.
pub open spec fn race_tilt(finished: bool, state: BehaviorState) -> int {
    if finished {
        1_000_000
    } else {
        match state {
            BehaviorState::Trade => 1_250_000,
            BehaviorState::Gather => 1_100_000,
            BehaviorState::Hunt => 800_000,
            _ => 1_000_000,
        }
    }
}

pub fn personality_modifier_for(p: &Personality, state: BehaviorState) -> (r: i64)
    requires
        p.wf(),
    ensures
        r == personality_modifier(*p, state),
        100_000 <= r <= 2_500_000,
{
    let shift: i64 = match state {
        BehaviorState::Hunt => scale_clamped(
            p.aggressive * 6 - p.cautious * 3,
            1,
            10,
            -SCALE,
            SCALE,
        ),
        BehaviorState::Trade => scale_clamped(p.social * 65 + p.curious * 15, 1, 100, -SCALE, SCALE),
        BehaviorState::Explore => scale_clamped(
            p.curious * 6 - p.cautious * 2,
            1,
            10,
            -SCALE,
            SCALE,
        ),
        BehaviorState::Gather => scale_clamped(
            p.curious * 2 + p.cautious * 2,
            1,
            10,
            -SCALE,
            SCALE,
        ),
        BehaviorState::Rest => scale_clamped(
            p.cautious * 4 - p.aggressive * 2,
            1,
            10,
            -SCALE,
            SCALE,
        ),
        BehaviorState::Idle => scale_clamped(p.cautious - p.curious, 1, 10, -SCALE, SCALE),
    };
    clamp(SCALE + shift, 100_000, 2_500_000)
}

pub fn epoch_modifier_for(segment: DaySegment, state: BehaviorState) -> (r: i64)
    ensures
        r == epoch_modifier(segment, state),
        750_000 <= r <= 1_250_000,
{
    match segment {
        DaySegment::Dawn => match state {
            BehaviorState::Explore => 1_150_000,
            BehaviorState::Gather => 1_150_000,
            BehaviorState::Rest => 850_000,
            _ => 1_000_000,
        },
        DaySegment::Midday => match state {
            BehaviorState::Trade => 1_250_000,
            BehaviorState::Idle => 750_000,
            _ => 1_000_000,
        },
        DaySegment::Dusk => match state {
            BehaviorState::Hunt => 1_250_000,
            BehaviorState::Rest => 1_100_000,
            BehaviorState::Trade => 750_000,
            _ => 1_000_000,
        },
    }
}

pub fn season_modifier_for(season: Season, state: BehaviorState) -> (r: i64)
    ensures
        r == season_modifier(season, state),
        900_000 <= r <= 1_250_000,
{
    match season {
        Season::FlowerBloom => match state {
            BehaviorState::Gather => 1_200_000,
            BehaviorState::Trade => 1_050_000,
            _ => 1_000_000,
        },
        Season::SunburstPeak => match state {
            BehaviorState::Explore => 1_100_000,
            BehaviorState::Hunt => 1_100_000,
            BehaviorState::Rest => 950_000,
            _ => 1_000_000,
        },
        Season::Ashfall => match state {
            BehaviorState::Rest => 1_250_000,
            BehaviorState::Trade => 900_000,
            _ => 1_000_000,
        },
    }
}

fn race_tilt_for(finished: bool, state: BehaviorState) -> (r: i64)
    ensures
        r == race_tilt(finished, state),
        800_000 <= r <= 1_250_000,
{
    if finished {
        1_000_000
    } else {
        match state {
            BehaviorState::Trade => 1_250_000,
            BehaviorState::Gather => 1_100_000,
            BehaviorState::Hunt => 800_000,
            _ => 1_000_000,
        }
    }
}

/// What an inhabitant's choice depends on besides chance.
#[derive(Clone, Copy, Debug)]
pub struct Circumstances {
    pub personality: Personality,
    pub biome: Biome,
    pub faction: Faction,
    pub segment: DaySegment,
    pub season: Season,
    pub race_finished: bool,
}

/// The weight of an option: its base weight times every modifier in turn, never
/// under a hundredth.
pub open spec fn option_weight(
    meta: &WorldMetadata,
    c: Circumstances,
    option: (BehaviorState, int),
) -> int {
    let w1 = scaled(option.1, personality_modifier(c.personality, option.0), SCALE as int);
    let w2 = scaled(w1, meta.bias_of(c.biome, option.0), SCALE as int);
    let w3 = scaled(w2, meta.modifier_of(c.faction, option.0), SCALE as int);
    let w4 = scaled(w3, epoch_modifier(c.segment, option.0), SCALE as int);
    let w5 = scaled(w4, season_modifier(c.season, option.0), SCALE as int);
    let w6 = scaled(w5, race_tilt(c.race_finished, option.0), SCALE as int);
    if w6 < WEIGHT_MIN {
        WEIGHT_MIN as int
    } else {
        w6
    }
}

pub fn weigh_option(meta: &WorldMetadata, c: &Circumstances, option: (BehaviorState, i64)) -> (r: i64)
    requires
        meta.wf(),
        c.personality.wf(),
        0 <= option.1 <= 400_000,
    ensures
        r == option_weight(meta, *c, (option.0, option.1 as int)),
        WEIGHT_MIN <= r <= 200_000_000,
{
    let pm: i64 = personality_modifier_for(&c.personality, option.0);
    let bias: i64 = meta.biome_behavior_bias(c.biome, option.0);
    let fm: i64 = meta.faction_behavior_modifier(c.faction, option.0);
    let em: i64 = epoch_modifier_for(c.segment, option.0);
    let sm: i64 = season_modifier_for(c.season, option.0);
    let tilt: i64 = race_tilt_for(c.race_finished, option.0);
    proof {
        lemma_scaled_bounds(option.1 as int, pm as int, SCALE as int, 400_000, 2_500_000);
        let w1 = scaled(option.1 as int, pm as int, SCALE as int);
        lemma_scaled_bounds(w1, bias as int, SCALE as int, 1_000_000, FACTOR_MAX as int);
        let w2 = scaled(w1, bias as int, SCALE as int);
        lemma_scaled_bounds(w2, fm as int, SCALE as int, 10_000_000, FACTOR_MAX as int);
        let w3 = scaled(w2, fm as int, SCALE as int);
        lemma_scaled_bounds(w3, em as int, SCALE as int, 100_000_000, 1_250_000);
        let w4 = scaled(w3, em as int, SCALE as int);
        lemma_scaled_bounds(w4, sm as int, SCALE as int, 125_000_000, 1_250_000);
        let w5 = scaled(w4, sm as int, SCALE as int);
        lemma_scaled_bounds(w5, tilt as int, SCALE as int, 156_250_000, 1_250_000);
    }
    let w1: i64 = scale(option.1, pm, SCALE);
    let w2: i64 = scale(w1, bias, SCALE);
    let w3: i64 = scale(w2, fm, SCALE);
    let w4: i64 = scale(w3, em, SCALE);
    let w5: i64 = scale(w4, sm, SCALE);
    let w6: i64 = scale(w5, tilt, SCALE);
    if w6 < WEIGHT_MIN {
        WEIGHT_MIN
    } else {
        w6
    }
}

/// The four weights of an inhabitant's options, in table order.
pub open spec fn option_weights(meta: &WorldMetadata, c: Circumstances, state: BehaviorState) -> Seq<int> {
    Seq::new(
        OPTION_COUNT as nat,
        |k: int| option_weight(meta, c, transition_table(state)[k]),
    )
}

/// The option a threshold selects: the first whose weight, added to those before
/// it, exceeds the threshold; the last if none does.
pub open spec fn selected(weights: Seq<int>, threshold: int, from: int) -> int
    decreases weights.len() - from,
{
    if from < 0 || from >= weights.len() - 1 {
        weights.len() - 1
    } else if threshold < weights[from] {
        from
    } else {
        selected(weights, threshold - weights[from], from + 1)
    }
}

/// What an inhabitant in `state` does next for a given threshold.
pub open spec fn next_behavior(
    meta: &WorldMetadata,
    c: Circumstances,
    state: BehaviorState,
    threshold: int,
) -> BehaviorState {
    transition_table(state)[selected(option_weights(meta, c, state), threshold, 0)].0
}

/// Weighs the four options of an inhabitant in `state`.
pub fn weigh_options(meta: &WorldMetadata, c: &Circumstances, state: BehaviorState) -> (w: [i64; 4])
    requires
        meta.wf(),
        c.personality.wf(),
    ensures
        forall|k: int| 0 <= k < 4 ==> #[trigger] w@[k] == option_weights(meta, *c, state)[k],
        forall|k: int| 0 <= k < 4 ==> WEIGHT_MIN <= #[trigger] w@[k] <= 200_000_000,
{
    let w0: i64 = weigh_option(meta, c, transition_option(state, 0));
    let w1: i64 = weigh_option(meta, c, transition_option(state, 1));
    let w2: i64 = weigh_option(meta, c, transition_option(state, 2));
    let w3: i64 = weigh_option(meta, c, transition_option(state, 3));
    [w0, w1, w2, w3]
}

/// Picks what an inhabitant does next. The same circumstances, state and
/// threshold always give the same choice.
pub fn choose_behavior(
    meta: &WorldMetadata,
    c: &Circumstances,
    state: BehaviorState,
    threshold: i64,
) -> (next: BehaviorState)
    requires
        meta.wf(),
        c.personality.wf(),
    ensures
        next == next_behavior(meta, *c, state, threshold as int),
        is_option(state, next),
{
    let w = weigh_options(meta, c, state);
    let ghost weights = option_weights(meta, *c, state);
    let k: usize = if threshold < w[0] {
        0
    } else if threshold - w[0] < w[1] {
        1
    } else if threshold - w[0] - w[1] < w[2] {
        2
    } else {
        3
    };
    proof {
        assert(weights.len() == 4);
        assert(selected(weights, threshold - weights[0] - weights[1] - weights[2], 3) == 3);
        assert(selected(weights, threshold - weights[0] - weights[1], 2) == if threshold
            - weights[0] - weights[1] < weights[2] {
            2int
        } else {
            3int
        });
        assert(selected(weights, threshold - weights[0], 1) == if threshold - weights[0]
            < weights[1] {
            1int
        } else {
            selected(weights, threshold - weights[0] - weights[1], 2)
        });
        assert(selected(weights, threshold as int, 0) == k);
    }
    transition_option(state, k).0
}

/// Whether `next` is one of the options of an inhabitant in `state`.
pub open spec fn is_option(state: BehaviorState, next: BehaviorState) -> bool {
    let table = transition_table(state);
    next == table[0].0 || next == table[1].0 || next == table[2].0 || next == table[3].0
}

/// Whether an inhabitant is the same as before but for what it does.
pub open spec fn same_but_behavior(before: Entity, after: Entity) -> bool {
    after == (Entity { behavior: after.behavior, ..before })
}

/// What the choice of an inhabitant depends on at a point of the day and the year.
pub open spec fn circumstances_of(
    e: Entity,
    segment: DaySegment,
    season: Season,
    race_finished: bool,
) -> Circumstances {
    Circumstances {
        personality: e.personality,
        biome: e.position.biome,
        faction: e.identity.faction,
        segment,
        season,
        race_finished,
    }
}

/// The sum of an inhabitant's four weights.
pub open spec fn total_weight(weights: Seq<int>) -> int {
    weights[0] + weights[1] + weights[2] + weights[3]
}

/// Whether `after` is the inhabitant `before` once it has decided with a given
/// threshold: the threshold lies below the total weight of its options, it does
/// what that threshold selects, and nothing else about it has changed.
pub open spec fn is_decision(
    before: Entity,
    after: Entity,
    meta: &WorldMetadata,
    segment: DaySegment,
    season: Season,
    race_finished: bool,
    threshold: int,
) -> bool {
    let c = circumstances_of(before, segment, season, race_finished);
    let state = before.behavior.state;
    &&& 0 <= threshold < total_weight(option_weights(meta, c, state))
    &&& after == (Entity {
        behavior: Behavior { state: next_behavior(meta, c, state, threshold) },
        ..before
    })
}

/// Whether `after` is the inhabitant `before` once it has decided, whatever
/// threshold it drew.
pub open spec fn decided(
    before: Entity,
    after: Entity,
    meta: &WorldMetadata,
    segment: DaySegment,
    season: Season,
    race_finished: bool,
) -> bool {
    exists|threshold: int| #[trigger]
        is_decision(before, after, meta, segment, season, race_finished, threshold)
}

/// Lets every inhabitant decide what to do next.
///
/// Each draws a threshold below the total weight of its options from a
/// generator seeded by the tick and its id, and does what that threshold selects
/// among the weighted options of its behaviour. Nothing else about it changes.
pub fn ai_state_transition_system(
    entities: &mut Vec<Entity>,
    world_meta: &WorldMetadata,
    time: &WorldTime,
    science: &ScienceVictory,
)
    requires
        entities_wf(old(entities)@),
        world_meta.wf(),
    ensures
        entities_wf(final(entities)@),
        final(entities)@.len() == old(entities)@.len(),
        forall|k: int|
            0 <= k < old(entities)@.len() ==> same_but_behavior(
                old(entities)@[k],
                #[trigger] final(entities)@[k],
            ) && is_option(old(entities)@[k].behavior.state, final(entities)@[k].behavior.state),
        forall|k: int|
            0 <= k < old(entities)@.len() ==> decided(
                old(entities)@[k],
                #[trigger] final(entities)@[k],
                world_meta,
                world_meta.epochs.segment_at(time.tick as int),
                world_meta.epochs.season_at(time.tick as int),
                science.finished,
            ),
{
    let (segment, season) = world_meta.cadence_for_tick(time.tick);
    let count: usize = entities.len();
    let mut k: usize = 0;
    while k < count
        invariant
            k <= count,
            count == entities@.len(),
            count == old(entities)@.len(),
            world_meta.wf(),
            entities_wf(entities@),
            forall|n: int|
                0 <= n < k ==> same_but_behavior(old(entities)@[n], #[trigger] entities@[n])
                    && is_option(old(entities)@[n].behavior.state, entities@[n].behavior.state),
            forall|n: int|
                0 <= n < k ==> decided(
                    old(entities)@[n],
                    #[trigger] entities@[n],
                    world_meta,
                    segment,
                    season,
                    science.finished,
                ),
            segment == world_meta.epochs.segment_at(time.tick as int),
            season == world_meta.epochs.season_at(time.tick as int),
            forall|n: int| k <= n < count ==> #[trigger] entities@[n] == old(entities)@[n],
        decreases count - k,
    {
        let c = Circumstances {
            personality: entities[k].personality,
            biome: entities[k].position.biome,
            faction: entities[k].identity.faction,
            segment,
            season,
            race_finished: science.finished,
        };
        let state: BehaviorState = entities[k].behavior.state;
        let w = weigh_options(world_meta, &c, state);
        let total: i64 = w[0] + w[1] + w[2] + w[3];
        let mut rng = rng_from_seed(seed(time.tick, 97, entities[k].identity.id, 53));
        let threshold: i64 = rng_range(&mut rng, 0, total as u64) as i64;
        let next: BehaviorState = choose_behavior(world_meta, &c, state, threshold);
        entities[k].behavior.state = next;
        proof {
            assert(c == circumstances_of(old(entities)@[k as int], segment, season, science.finished));
            assert(is_decision(
                old(entities)@[k as int],
                entities@[k as int],
                world_meta,
                segment,
                season,
                science.finished,
                threshold as int,
            ));
        }
        k += 1;
    }
}

} // verus!
