//! Blocs form once and are then kept up to date: how strong they are and who leads them.

use vstd::prelude::*;
use rand::rngs::SmallRng;
use crate::blocs::BLOC_STRENGTH_MAX;
use crate::blocs::Bloc;
use crate::blocs::BlocKind;
use crate::blocs::WorldBlocs;
use crate::fixed::SCALE;
use crate::fixed::clamp;
use crate::fixed::clamp_int;
use crate::nation::Nation;
use crate::nation::NATION_COUNT;
use crate::resources::AllNationMetrics;
use crate::resources::ClimateState;
use crate::resources::NationMetrics;
use crate::resources::WarFatigue;
use crate::resources::WorldTime;
use crate::rng::rng_from_seed;
use crate::rng::rng_ratio;
use crate::rng::seed;

verus! {

/// Chance that a nation joins a research pact, in millionths: a half, more in
/// peace and under climate stress.
pub open spec fn cooperation_bias(fatigue: int, risk: int) -> int {
    500_000 + (SCALE - clamp_int(fatigue / 100, 0, SCALE as int)) * 2 / 10 + clamp_int(
        risk / 100,
        0,
        SCALE as int,
    ) / 10
}

/// Chance that a nation falls under a sanction bloc, in millionths: three tenths,
/// more in war and under climate stress.
pub open spec fn sanction_bias(fatigue: int, risk: int) -> int {
    300_000 + clamp_int(fatigue / 100, 0, SCALE as int) * 4 / 10 + clamp_int(
        risk / 100,
        0,
        SCALE as int,
    ) / 10
}

/// What the first `n` nations add to a bloc's strength: a hundredth of the
/// science and a two-hundredth of the economy of every living member.
pub open spec fn member_weight(members: Seq<bool>, metrics: Seq<NationMetrics>, n: int) -> int
    decreases n,
{
    if n <= 0 {
        0
    } else {
        member_weight(members, metrics, n - 1) + if members[n - 1] && !metrics[n - 1].is_destroyed {
            metrics[n - 1].science / 100 + metrics[n - 1].economy * 5 / 1000
        } else {
            0
        }
    }
}

/// The strength of a bloc with the given members, at most ten units.
pub open spec fn bloc_strength(members: Seq<bool>, metrics: Seq<NationMetrics>) -> int {
    if member_weight(members, metrics, NATION_COUNT as int) > BLOC_STRENGTH_MAX {
        BLOC_STRENGTH_MAX as int
    } else {
        member_weight(members, metrics, NATION_COUNT as int)
    }
}

/// The member with the most science among the first `n` nations; among equals the
/// one that comes last.
pub open spec fn bloc_leader(members: Seq<bool>, metrics: Seq<NationMetrics>, n: int) -> Option<int>
    decreases n,
{
    if n <= 0 {
        None
    } else {
        let before = bloc_leader(members, metrics, n - 1);
        if !members[n - 1] {
            before
        } else {
            match before {
                None => Some(n - 1),
                Some(p) => if metrics[n - 1].science >= metrics[p].science {
                    Some(n - 1)
                } else {
                    before
                },
            }
        }
    }
}

/// Whether a bloc is up to date with the nations' metrics.
pub open spec fn is_current(bloc: Bloc, metrics: Seq<NationMetrics>) -> bool {
    &&& bloc.strength == bloc_strength(bloc.members@, metrics)
    &&& bloc.leader == match bloc_leader(bloc.members@, metrics, NATION_COUNT as int) {
        Some(l) => Some(Nation::at(l)),
        None => None,
    }
}

pub proof fn lemma_member_weight_bounds(members: Seq<bool>, metrics: Seq<NationMetrics>, n: int)
    requires
        0 <= n <= metrics.len(),
        n <= members.len(),
        forall|i: int| 0 <= i < metrics.len() ==> (#[trigger] metrics[i]).wf(),
    ensures
        0 <= member_weight(members, metrics, n) <= n * 4_000_000,
        bloc_leader(members, metrics, n) is Some ==> 0 <= bloc_leader(members, metrics, n)->0 < n,
    decreases n,
{
    if n > 0 {
        lemma_member_weight_bounds(members, metrics, n - 1);
    }
}

/// Brings a bloc's strength and leader up to date.
pub fn refresh_bloc(bloc: &mut Bloc, metrics: &AllNationMetrics)
    requires
        metrics.wf(),
    ensures
        final(bloc).members == old(bloc).members,
        final(bloc).kind == old(bloc).kind,
        is_current(*final(bloc), metrics.0@),
        final(bloc).wf(),
{
    let mut weight: i64 = 0;
    let mut leader: Option<usize> = None;
    let mut i: usize = 0;
    while i < NATION_COUNT
        invariant
            i <= NATION_COUNT,
            metrics.wf(),
            weight == member_weight(bloc.members@, metrics.0@, i as int),
            0 <= weight <= i * 4_000_000,
            match leader {
                Some(l) => bloc_leader(bloc.members@, metrics.0@, i as int) == Some(l as int) && l
                    < i,
                None => bloc_leader(bloc.members@, metrics.0@, i as int) is None,
            },
        decreases NATION_COUNT - i,
    {
        if bloc.members[i] {
            let m = &metrics.0[i];
            if !m.is_destroyed {
                weight = weight + (m.science / 100 + m.economy * 5 / 1000);
            }
            leader = match leader {
                None => Some(i),
                Some(p) => if m.science >= metrics.0[p].science {
                    Some(i)
                } else {
                    leader
                },
            };
        }
        i += 1;
    }
    bloc.strength = if weight > BLOC_STRENGTH_MAX {
        BLOC_STRENGTH_MAX
    } else {
        weight
    };
    bloc.leader = match leader {
        Some(l) => Some(Nation::from_index(l)),
        None => None,
    };
}

/// A new bloc with the given members, not yet brought up to date.
pub fn form_bloc(kind: BlocKind, members: [bool; 5]) -> (bloc: Bloc)
    ensures
        bloc.kind == kind,
        bloc.members == members,
        bloc.leader is None,
        bloc.strength == SCALE,
        bloc.wf(),
{
    Bloc { kind, members, leader: None, strength: SCALE }
}

/// The chances, in millionths, that a nation joins a new research pact and that it
/// falls under a new sanction bloc.
pub fn membership_chances(fatigue: &WarFatigue, climate: &ClimateState) -> (r: (u32, u32))
    requires
        fatigue.wf(),
        climate.wf(),
    ensures
        r.0 == cooperation_bias(fatigue.intensity as int, climate.climate_risk as int),
        r.1 == sanction_bias(fatigue.intensity as int, climate.climate_risk as int),
        500_000 <= r.0 <= 800_000,
        300_000 <= r.1 <= 800_000,
{
    let tension: i64 = clamp(fatigue.intensity / 100, 0, SCALE);
    let stress: i64 = clamp(climate.climate_risk / 100, 0, SCALE);
    (
        (500_000 + (SCALE - tension) * 2 / 10 + stress / 10) as u32,
        (300_000 + tension * 4 / 10 + stress / 10) as u32,
    )
}

/// Draws for each of the five nations whether it joins, each with the given chance
/// in millionths. With a chance of one every nation joins, with none at all no
/// nation does; in between the draws decide.
fn draw_members(rng: &mut SmallRng, chance: u32) -> (members: [bool; 5])
    requires
        chance <= SCALE,
    ensures
        chance == SCALE ==> forall|i: int| 0 <= i < NATION_COUNT ==> #[trigger] members@[i],
        chance == 0 ==> forall|i: int| 0 <= i < NATION_COUNT ==> !#[trigger] members@[i],
{
    let m0: bool = rng_ratio(rng, chance, 1_000_000);
    let m1: bool = rng_ratio(rng, chance, 1_000_000);
    let m2: bool = rng_ratio(rng, chance, 1_000_000);
    let m3: bool = rng_ratio(rng, chance, 1_000_000);
    let m4: bool = rng_ratio(rng, chance, 1_000_000);
    [m0, m1, m2, m3, m4]
}

/// Whether a bloc of a kind is what a tick makes of it: one that stood keeps its
/// kind and members, one that did not is formed; either way it is brought up to
/// date with the nations.
pub open spec fn bloc_kept(
    before: Option<Bloc>,
    after: Option<Bloc>,
    kind: BlocKind,
    metrics: Seq<NationMetrics>,
) -> bool {
    &&& after is Some
    &&& is_current(after->0, metrics)
    &&& match before {
        Some(b) => after->0.members == b.members && after->0.kind == b.kind,
        None => after->0.kind == kind,
    }
}

/// Whether the blocs are what a tick makes of them.
pub open spec fn blocs_updated(before: &WorldBlocs, after: &WorldBlocs, metrics: Seq<NationMetrics>) -> bool {
    &&& bloc_kept(before.research_pact, after.research_pact, BlocKind::ResearchPact, metrics)
    &&& bloc_kept(before.sanction, after.sanction, BlocKind::Sanction, metrics)
    &&& after.defense_treaty == before.defense_treaty
}

/// Forms the research pact and the sanction bloc where they are missing and
/// brings both up to date.
///
/// Who joins a new bloc is up to the draws. Whatever they are, both blocs exist
/// afterwards, an existing bloc keeps its members, and both are current.
pub fn bloc_system(
    blocs: &mut WorldBlocs,
    metrics: &AllNationMetrics,
    fatigue: &WarFatigue,
    climate: &ClimateState,
    time: &WorldTime,
)
    requires
        old(blocs).wf(),
        metrics.wf(),
        fatigue.wf(),
        climate.wf(),
    ensures
        final(blocs).wf(),
        final(blocs).research_pact is Some,
        final(blocs).sanction is Some,
        final(blocs).defense_treaty == old(blocs).defense_treaty,
        old(blocs).research_pact is Some ==> final(blocs).research_pact->0.members == old(
            blocs,
        ).research_pact->0.members,
        old(blocs).sanction is Some ==> final(blocs).sanction->0.members == old(
            blocs,
        ).sanction->0.members,
        is_current(final(blocs).research_pact->0, metrics.0@),
        is_current(final(blocs).sanction->0, metrics.0@),
        blocs_updated(&*old(blocs), &*final(blocs), metrics.0@),
{
    let mut rng = rng_from_seed(seed(time.tick, 313, 0, 1));
    let (cooperation, sanctioning) = membership_chances(fatigue, climate);
    let joiners: [bool; 5] = draw_members(&mut rng, cooperation);
    let targets: [bool; 5] = draw_members(&mut rng, sanctioning);
    let mut pact: Bloc = match blocs.research_pact {
        Some(b) => b,
        None => form_bloc(BlocKind::ResearchPact, joiners),
    };
    let mut sanction: Bloc = match blocs.sanction {
        Some(b) => b,
        None => form_bloc(BlocKind::Sanction, targets),
    };
    refresh_bloc(&mut pact, metrics);
    refresh_bloc(&mut sanction, metrics);
    blocs.research_pact = Some(pact);
    blocs.sanction = Some(sanction);
}

} // verus!
