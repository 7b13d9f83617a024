//! Research, culture and the climb from era to era.

use vstd::prelude::*;
use crate::resources::same_fates;
use crate::events::WorldEvent;
use crate::events::WorldEventKind;
use crate::events::WorldEventLog;
use crate::events::lemma_logged_few;
use crate::events::lemma_logged_nothing;
use crate::events::logged_few;
use crate::events::lemma_logged_one_more;
use crate::events::logged;
use crate::events::only_added;
use crate::fixed::clamp;
use crate::fixed::clamp_int;
use crate::nation::Nation;
use crate::nation::NATION_COUNT;
use crate::resources::AllNationMetrics;
use crate::resources::NationMetrics;
use crate::resources::STOCK_MAX;
use crate::resources::WorldTime;
use crate::resources::destruction_is_final;
use crate::technology::EraTechTier;
use crate::technology::Tech;
use crate::technology::TechTree;
use crate::world::WorldMetadata;

verus! {

/// A stock after a tick: it takes in `inflow` and then loses 0.15 percent.
pub open spec fn stock_after(stock: int, inflow: int) -> int {
    clamp_int((stock + inflow) * 9985 / 10_000, 0, STOCK_MAX as int)
}

/// What flows into the research stock in a tick.
pub open spec fn research_inflow(m: NationMetrics) -> int {
    m.science * 45 / 100 + m.economy / 10
}

/// What flows into the culture stock in a tick.
pub open spec fn culture_inflow(m: NationMetrics) -> int {
    m.culture * 35 / 100 + m.diplomacy * 5 / 100
}

/// Whether a nation with the given stocks and military passes all three gates of a tier.
pub open spec fn passes_gates(research: int, culture: int, military: int, tier: EraTechTier) -> bool {
    &&& research >= tier.science_gate
    &&& culture >= tier.culture_gate
    &&& military >= tier.military_gate
}

/// The known techs after `unlocks` are learned: each new one is appended once, in order.
pub open spec fn learned(known: Seq<Tech>, unlocks: Seq<Tech>) -> Seq<Tech>
    decreases unlocks.len(),
{
    if unlocks.len() == 0 {
        known
    } else {
        let before = learned(known, unlocks.drop_last());
        if before.contains(unlocks.last()) {
            before
        } else {
            before.push(unlocks.last())
        }
    }
}

/// Whether `after` is `before` one tick of research later, given the tier it could enter.
pub open spec fn researched(before: NationMetrics, after: NationMetrics, next: Option<EraTechTier>) -> bool {
    if before.is_destroyed {
        after == before
    } else {
        let research = stock_after(before.research_stock as int, research_inflow(before));
        let culture = stock_after(before.culture_stock as int, culture_inflow(before));
        if next is Some && passes_gates(research, culture, before.military as int, next->0) {
            &&& after.unlocked_techs@ == learned(before.unlocked_techs@, next->0.unlocks@)
            &&& after == (NationMetrics {
                era: next->0.era,
                weapon_tier: next->0.weapon_tier,
                research_stock: clamp_int(
                    research - next->0.science_gate * 4 / 10,
                    0,
                    STOCK_MAX as int,
                ) as i64,
                culture_stock: clamp_int(
                    culture - next->0.culture_gate * 3 / 10,
                    0,
                    STOCK_MAX as int,
                ) as i64,
                unlocked_techs: after.unlocked_techs,
                ..before
            })
        } else {
            after == (NationMetrics {
                research_stock: research as i64,
                culture_stock: culture as i64,
                ..before
            })
        }
    }
}

fn knows(known: &Vec<Tech>, tech: Tech) -> (r: bool)
    ensures
        r == known@.contains(tech),
{
    let mut i: usize = 0;
    while i < known.len()
        invariant
            i <= known@.len(),
            forall|j: int| 0 <= j < i ==> known@[j] != tech,
        decreases known@.len() - i,
    {
        if known[i] == tech {
            return true;
        }
        i += 1;
    }
    false
}

/// Appends every tech of `unlocks` that is not known yet.
pub fn learn(known: &mut Vec<Tech>, unlocks: &Vec<Tech>)
    ensures
        final(known)@ == learned(old(known)@, unlocks@),
{
    let mut i: usize = 0;
    while i < unlocks.len()
        invariant
            i <= unlocks@.len(),
            known@ == learned(old(known)@, unlocks@.subrange(0, i as int)),
        decreases unlocks@.len() - i,
    {
        let tech: Tech = unlocks[i];
        proof {
            let upto = unlocks@.subrange(0, i as int + 1);
            assert(upto.drop_last() =~= unlocks@.subrange(0, i as int));
            assert(upto.last() == tech);
        }
        if !knows(known, tech) {
            known.push(tech);
        }
        i += 1;
    }
    assert(unlocks@.subrange(0, unlocks@.len() as int) =~= unlocks@);
}

/// One tick of research for one nation. Returns whether the nation entered a new era.
pub fn research_nation(m: &mut NationMetrics, tree: &TechTree) -> (advanced: bool)
    requires
        old(m).wf(),
        tree.wf(),
    ensures
        final(m).wf(),
        researched(*old(m), *final(m), tree.next_tier_of(old(m).era)),
        final(m).is_destroyed == old(m).is_destroyed,
        advanced <==> final(m).era != old(m).era,
        final(m).era.rank() >= old(m).era.rank(),
        final(m).era.rank() <= old(m).era.rank() + 1,
{
    if m.is_destroyed {
        return false;
    }
    let research: i64 = clamp(
        (m.research_stock + (m.science * 45 / 100 + m.economy / 10)) * 9985 / 10_000,
        0,
        STOCK_MAX,
    );
    let culture: i64 = clamp(
        (m.culture_stock + (m.culture * 35 / 100 + m.diplomacy * 5 / 100)) * 9985 / 10_000,
        0,
        STOCK_MAX,
    );
    m.research_stock = research;
    m.culture_stock = culture;
    match tree.next_tier(m.era) {
        Some(tier) => {
            if research >= tier.science_gate && culture >= tier.culture_gate && m.military
                >= tier.military_gate {
                m.era = tier.era;
                m.weapon_tier = tier.weapon_tier;
                learn(&mut m.unlocked_techs, &tier.unlocks);
                m.research_stock = clamp(research - tier.science_gate * 4 / 10, 0, STOCK_MAX);
                m.culture_stock = clamp(culture - tier.culture_gate * 3 / 10, 0, STOCK_MAX);
                true
            } else {
                false
            }
        },
        None => false,
    }
}

/// Whether an event reports an era shift at a tick.
pub open spec fn is_era_news(e: WorldEvent, tick: u64) -> bool {
    e.tick == tick && e.kind is EraShift
}

/// The era shifts among the first `n` nations, in table order: one for each
/// nation whose era is no longer what it was, with its new era and weapons.
pub open spec fn era_shifts_upto(
    before: Seq<NationMetrics>,
    after: Seq<NationMetrics>,
    n: int,
) -> Seq<WorldEventKind>
    decreases n,
{
    if n <= 0 {
        Seq::empty()
    } else if after[n - 1].era != before[n - 1].era {
        era_shifts_upto(before, after, n - 1).push(
            WorldEventKind::EraShift {
                nation: Nation::at(n - 1),
                era: after[n - 1].era,
                weapon: after[n - 1].weapon_tier,
            },
        )
    } else {
        era_shifts_upto(before, after, n - 1)
    }
}

/// The era shifts among the first `n` nations depend on those nations only.
pub proof fn lemma_era_shifts_local(
    before: Seq<NationMetrics>,
    a: Seq<NationMetrics>,
    b: Seq<NationMetrics>,
    n: int,
)
    requires
        forall|j: int| 0 <= j < n ==> a[j] == b[j],
    ensures
        era_shifts_upto(before, a, n) == era_shifts_upto(before, b, n),
    decreases n,
{
    if n > 0 {
        lemma_era_shifts_local(before, a, b, n - 1);
    }
}

/// Advances nations through eras and weapon tiers as their stocks pass the gates,
/// and logs one era shift for every nation that advanced, in table order, and
/// nothing else.
pub fn technology_system(
    all_metrics: &mut AllNationMetrics,
    world_meta: &WorldMetadata,
    event_log: &mut WorldEventLog,
    time: &WorldTime,
)
    requires
        old(all_metrics).wf(),
        world_meta.wf(),
        old(event_log).wf(),
    ensures
        final(all_metrics).wf(),
        forall|i: int|
            0 <= i < NATION_COUNT ==> researched(
                old(all_metrics).0@[i],
                #[trigger] final(all_metrics).0@[i],
                world_meta.tech_tree.next_tier_of(old(all_metrics).0@[i].era),
            ) && final(all_metrics).0@[i].era.rank() >= old(all_metrics).0@[i].era.rank(),
        destruction_is_final(old(all_metrics).0@, final(all_metrics).0@),
        final(event_log).wf(),
        final(event_log).capacity_of() == old(event_log).capacity_of(),
        only_added(old(event_log)@, final(event_log)@, |e: WorldEvent| is_era_news(e, time.tick)),
        same_fates(old(all_metrics).0@, final(all_metrics).0@),
        logged(
            old(event_log)@,
            final(event_log)@,
            old(event_log).capacity_of(),
            time.tick,
            world_meta.epochs.segment_at(time.tick as int).label_text(),
            world_meta.epochs.season_at(time.tick as int).label_text(),
            era_shifts_upto(old(all_metrics).0@, final(all_metrics).0@, NATION_COUNT as int),
        ),
        logged_few(
            old(event_log)@,
            final(event_log)@,
            old(event_log).capacity_of(),
            time.tick,
            world_meta.epochs.segment_at(time.tick as int).label_text(),
            world_meta.epochs.season_at(time.tick as int).label_text(),
            era_shifts_upto(old(all_metrics).0@, final(all_metrics).0@, NATION_COUNT as int),
        ),
{
    let (epoch, season) = world_meta.epoch_for_tick(time.tick);
    proof {
        lemma_logged_nothing(
            event_log@,
            event_log.capacity_of(),
            time.tick,
            epoch@,
            season@,
        );
    }
    let mut i: usize = 0;
    while i < NATION_COUNT
        invariant
            i <= NATION_COUNT,
            world_meta.wf(),
            all_metrics.0@.len() == NATION_COUNT,
            forall|j: int| 0 <= j < NATION_COUNT ==> (#[trigger] all_metrics.0@[j]).wf(),
            forall|j: int|
                0 <= j < i ==> researched(
                    old(all_metrics).0@[j],
                    #[trigger] all_metrics.0@[j],
                    world_meta.tech_tree.next_tier_of(old(all_metrics).0@[j].era),
                ) && all_metrics.0@[j].era.rank() >= old(all_metrics).0@[j].era.rank()
                    && all_metrics.0@[j].is_destroyed == old(all_metrics).0@[j].is_destroyed,
            forall|j: int| i <= j < NATION_COUNT ==> #[trigger] all_metrics.0@[j] == old(all_metrics).0@[j],
            event_log.wf(),
            event_log.capacity_of() == old(event_log).capacity_of(),
            only_added(old(event_log)@, event_log@, |e: WorldEvent| is_era_news(e, time.tick)),
            epoch@ == world_meta.epochs.segment_at(time.tick as int).label_text(),
            season@ == world_meta.epochs.season_at(time.tick as int).label_text(),
            logged(
                old(event_log)@,
                event_log@,
                old(event_log).capacity_of(),
                time.tick,
                epoch@,
                season@,
                era_shifts_upto(old(all_metrics).0@, all_metrics.0@, i as int),
            ),
        decreases NATION_COUNT - i,
    {
        let ghost earlier = all_metrics.0@;
        let advanced: bool = research_nation(&mut all_metrics.0[i], &world_meta.tech_tree);
        proof {
            lemma_era_shifts_local(old(all_metrics).0@, earlier, all_metrics.0@, i as int);
        }
        if advanced {
            let m = &all_metrics.0[i];
            let event = WorldEvent::era_shift(
                time.tick,
                epoch,
                season,
                Nation::from_index(i),
                m.era,
                m.weapon_tier,
            );
            let ghost middle = event_log@;
            event_log.record(
                event,
                Ghost(old(event_log)@),
                Ghost(|e: WorldEvent| is_era_news(e, time.tick)),
            );
            proof {
                lemma_logged_one_more(
                    old(event_log)@,
                    middle,
                    old(event_log).capacity_of(),
                    time.tick,
                    epoch@,
                    season@,
                    era_shifts_upto(old(all_metrics).0@, all_metrics.0@, i as int),
                    event,
                );
            }
        }
        i += 1;
    }
    proof {
        lemma_logged_few(
            old(event_log)@,
            event_log@,
            old(event_log).capacity_of(),
            time.tick,
            epoch@,
            season@,
            era_shifts_upto(old(all_metrics).0@, all_metrics.0@, NATION_COUNT as int),
        );
    }
}

} // verus!
