//! Relations between nations, and the alliances and sanctions that grow out of them.

use vstd::prelude::*;
use vstd::string::*;
use crate::components::BehaviorState;
use crate::components::Biome;
use crate::components::Faction;
use crate::events::EventActor;
use crate::events::WorldEvent;
use crate::events::WorldEventKind;
use crate::events::WorldEventLog;
use crate::events::lemma_one_more_pushed;
use crate::events::log_after_all;
use crate::events::only_added;
use crate::history::copy_of;
use crate::nation::lemma_nation_index_roundtrip;
use crate::fixed::SCALE;
use crate::fixed::clamp;
use crate::fixed::clamp_int;
use crate::fixed::scale_clamped;
use crate::fixed::scaled;
use crate::nation::Nation;
use crate::nation::NATION_COUNT;
use crate::resources::AllNationMetrics;
use crate::resources::DiplomaticRelations;
use crate::resources::METRIC_MAX;
use crate::resources::NationMetrics;
use crate::resources::WorldTime;
use crate::resources::pair_count;
use crate::resources::pairs_distinct;
use crate::text::append_fixed;

verus! {

/// Relation score above which two nations ally: 55 units.
pub const ALLIANCE_THRESHOLD: i64 = 55_000_000;

/// Relation score below which the first nation sanctions the second: -45 units.
pub const SANCTION_THRESHOLD: i64 = -45_000_000;

/// The power of a nation: military, economy, science and diplomacy, weighted.
pub open spec fn power_score(m: NationMetrics) -> int {
    (m.military * 4 / 10 + m.economy * 3 / 10 + m.science * 2 / 10 + m.diplomacy / 10) / 10
}

/// What a tick does to the relation of two nations: two units closer when their
/// power differs by less than eight units, one and a half apart otherwise.
pub open spec fn parity_bonus(a: NationMetrics, b: NationMetrics) -> int {
    let gap = power_score(a) - power_score(b);
    if -8 * SCALE < gap && gap < 8 * SCALE {
        2 * SCALE as int
    } else {
        -1_500_000
    }
}

/// The relation score of two nations after a tick.
pub open spec fn relation_after(score: int, a: NationMetrics, b: NationMetrics) -> int {
    clamp_int(score + parity_bonus(a, b), -100 * SCALE, 100 * SCALE)
}

/// Trust after meeting one other nation.
pub open spec fn trust_step(trust: int, own: NationMetrics, other: NationMetrics) -> int {
    clamp_int(trust + parity_bonus(own, other) / 2, 0, 100 * SCALE)
}

/// Fear after meeting one other nation: it grows with the other's lead in power.
pub open spec fn fear_step(fear: int, own: NationMetrics, other: NationMetrics) -> int {
    clamp_int(fear + scaled(power_score(other) - power_score(own), 2, 100), 0, 100 * SCALE)
}

/// Trust of nation `n` after meeting the others among the first `upto` nations, in order.
pub open spec fn trust_after(trust: int, metrics: Seq<NationMetrics>, n: int, upto: int) -> int
    decreases upto,
{
    if upto <= 0 {
        trust
    } else {
        let before = trust_after(trust, metrics, n, upto - 1);
        if upto - 1 == n {
            before
        } else {
            trust_step(before, metrics[n], metrics[upto - 1])
        }
    }
}

/// Fear of nation `n` after meeting the others among the first `upto` nations, in order.
pub open spec fn fear_after(fear: int, metrics: Seq<NationMetrics>, n: int, upto: int) -> int
    decreases upto,
{
    if upto <= 0 {
        fear
    } else {
        let before = fear_after(fear, metrics, n, upto - 1);
        if upto - 1 == n {
            before
        } else {
            fear_step(before, metrics[n], metrics[upto - 1])
        }
    }
}

pub fn power_of(m: &NationMetrics) -> (r: i64)
    requires
        m.wf(),
    ensures
        r == power_score(*m),
        0 <= r <= METRIC_MAX,
{
    (m.military * 4 / 10 + m.economy * 3 / 10 + m.science * 2 / 10 + m.diplomacy / 10) / 10
}

pub fn parity_of(a: &NationMetrics, b: &NationMetrics) -> (r: i64)
    requires
        a.wf(),
        b.wf(),
    ensures
        r == parity_bonus(*a, *b),
        r == 2 * SCALE || r == -1_500_000,
{
    let gap: i64 = power_of(a) - power_of(b);
    if -8 * SCALE < gap && gap < 8 * SCALE {
        2 * SCALE
    } else {
        -1_500_000
    }
}

/// Whether the relation table is what a tick makes of it: every pair moves by its
/// parity bonus, the unused slots stay.
pub open spec fn relations_drifted(
    before: Seq<i64>,
    after: Seq<i64>,
    metrics: Seq<NationMetrics>,
) -> bool {
    &&& after.len() == before.len()
    &&& forall|i: int, j: int|
        0 <= i < NATION_COUNT && 0 <= j < NATION_COUNT ==> #[trigger] after[i * NATION_COUNT as int
            + j] == if i < j {
            relation_after(before[i * NATION_COUNT as int + j] as int, metrics[i], metrics[j]) as i64
        } else {
            before[i * NATION_COUNT as int + j]
        }
}

fn drift_relations(diplo: &mut DiplomaticRelations, metrics: &AllNationMetrics)
    requires
        old(diplo).wf(),
        metrics.wf(),
    ensures
        final(diplo).wf(),
        relations_drifted(old(diplo).relations@, final(diplo).relations@, metrics.0@),
        final(diplo).alliances == old(diplo).alliances,
        final(diplo).sanctions == old(diplo).sanctions,
        final(diplo).trust == old(diplo).trust,
        final(diplo).fear == old(diplo).fear,
{
    let mut slot: usize = 0;
    while slot < 25
        invariant
            slot <= 25,
            metrics.wf(),
            old(diplo).wf(),
            diplo.wf(),
            diplo.alliances == old(diplo).alliances,
            diplo.sanctions == old(diplo).sanctions,
            diplo.trust == old(diplo).trust,
            diplo.fear == old(diplo).fear,
            forall|s: int|
                0 <= s < slot ==> #[trigger] diplo.relations@[s] == if s / 5 < s % 5 {
                    relation_after(
                        old(diplo).relations@[s] as int,
                        metrics.0@[s / 5],
                        metrics.0@[s % 5],
                    ) as i64
                } else {
                    old(diplo).relations@[s]
                },
            forall|s: int| slot <= s < 25 ==> #[trigger] diplo.relations@[s] == old(diplo).relations@[s],
        decreases 25 - slot,
    {
        let i: usize = slot / 5;
        let j: usize = slot % 5;
        if i < j {
            let bonus: i64 = parity_of(&metrics.0[i], &metrics.0[j]);
            let score: i64 = clamp(diplo.relations[slot] + bonus, -100 * SCALE, 100 * SCALE);
            diplo.relations.set(slot, score);
        }
        slot += 1;
    }
    proof {
        assert forall|i: int, j: int| 0 <= i < NATION_COUNT && 0 <= j < NATION_COUNT implies #[trigger] diplo.relations@[i
            * NATION_COUNT as int + j] == if i < j {
            relation_after(
                old(diplo).relations@[i * NATION_COUNT as int + j] as int,
                metrics.0@[i],
                metrics.0@[j],
            ) as i64
        } else {
            old(diplo).relations@[i * NATION_COUNT as int + j]
        } by {
            let s = i * 5 + j;
            assert(s / 5 == i && s % 5 == j);
        }
    }
}

fn drift_feelings(diplo: &mut DiplomaticRelations, metrics: &AllNationMetrics)
    requires
        old(diplo).wf(),
        metrics.wf(),
    ensures
        final(diplo).wf(),
        final(diplo).relations == old(diplo).relations,
        final(diplo).alliances == old(diplo).alliances,
        final(diplo).sanctions == old(diplo).sanctions,
        forall|n: int|
            0 <= n < NATION_COUNT ==> #[trigger] final(diplo).trust@[n] == trust_after(
                old(diplo).trust@[n] as int,
                metrics.0@,
                n,
                NATION_COUNT as int,
            ),
        forall|n: int|
            0 <= n < NATION_COUNT ==> #[trigger] final(diplo).fear@[n] == fear_after(
                old(diplo).fear@[n] as int,
                metrics.0@,
                n,
                NATION_COUNT as int,
            ),
{
    let mut n: usize = 0;
    while n < NATION_COUNT
        invariant
            n <= NATION_COUNT,
            metrics.wf(),
            old(diplo).wf(),
            diplo.wf(),
            diplo.relations == old(diplo).relations,
            diplo.alliances == old(diplo).alliances,
            diplo.sanctions == old(diplo).sanctions,
            forall|k: int|
                0 <= k < n ==> #[trigger] diplo.trust@[k] == trust_after(
                    old(diplo).trust@[k] as int,
                    metrics.0@,
                    k,
                    NATION_COUNT as int,
                ),
            forall|k: int|
                0 <= k < n ==> #[trigger] diplo.fear@[k] == fear_after(
                    old(diplo).fear@[k] as int,
                    metrics.0@,
                    k,
                    NATION_COUNT as int,
                ),
            forall|k: int| n <= k < NATION_COUNT ==> #[trigger] diplo.trust@[k] == old(diplo).trust@[k],
            forall|k: int| n <= k < NATION_COUNT ==> #[trigger] diplo.fear@[k] == old(diplo).fear@[k],
        decreases NATION_COUNT - n,
    {
        let mut trust: i64 = diplo.trust[n];
        let mut fear: i64 = diplo.fear[n];
        let mut o: usize = 0;
        while o < NATION_COUNT
            invariant
                o <= NATION_COUNT,
                n < NATION_COUNT,
                metrics.wf(),
                old(diplo).wf(),
                0 <= trust <= 100 * SCALE,
                0 <= fear <= 100 * SCALE,
                trust == trust_after(old(diplo).trust@[n as int] as int, metrics.0@, n as int, o as int),
                fear == fear_after(old(diplo).fear@[n as int] as int, metrics.0@, n as int, o as int),
            decreases NATION_COUNT - o,
        {
            if o != n {
                let own = &metrics.0[n];
                let other = &metrics.0[o];
                trust = clamp(trust + parity_of(own, other) / 2, 0, 100 * SCALE);
                let lead: i64 = power_of(other) - power_of(own);
                fear = clamp(
                    fear + scale_clamped(lead, 2, 100, -METRIC_MAX, METRIC_MAX),
                    0,
                    100 * SCALE,
                );
            }
            o += 1;
        }
        diplo.trust.set(n, trust);
        diplo.fear.set(n, fear);
        n += 1;
    }
}

fn has_pair(list: &Vec<(Nation, Nation)>, pair: (Nation, Nation)) -> (r: bool)
    ensures
        r == list@.contains(pair),
{
    let mut i: usize = 0;
    while i < list.len()
        invariant
            i <= list@.len(),
            forall|j: int| 0 <= j < i ==> list@[j] != pair,
        decreases list@.len() - i,
    {
        if list[i].0 == pair.0 && list[i].1 == pair.1 {
            return true;
        }
        i += 1;
    }
    false
}

/// A list with one more pair, unless it is already there.
pub open spec fn with_pair(list: Seq<(Nation, Nation)>, pair: (Nation, Nation)) -> Seq<(Nation, Nation)> {
    if list.contains(pair) {
        list
    } else {
        list.push(pair)
    }
}

pub proof fn lemma_with_pair_keeps_distinct(list: Seq<(Nation, Nation)>, pair: (Nation, Nation))
    requires
        pairs_distinct(list),
    ensures
        pairs_distinct(with_pair(list, pair)),
        with_pair(list, pair).contains(pair),
        forall|p: (Nation, Nation)| list.contains(p) ==> with_pair(list, pair).contains(p),
{
    let out = with_pair(list, pair);
    if list.contains(pair) {
    } else {
        assert(out[list.len() as int] == pair);
        assert forall|p: (Nation, Nation)| list.contains(p) implies out.contains(p) by {
            let k = choose|k: int| 0 <= k < list.len() && list[k] == p;
            assert(out[k] == p);
        }
    }
}

/// A pair that occurs in a list without repetitions occurs in it exactly once.
pub proof fn lemma_listed_once(list: Seq<(Nation, Nation)>, pair: (Nation, Nation))
    requires
        pairs_distinct(list),
    ensures
        list.contains(pair) ==> pair_count(list, pair) == 1,
        !list.contains(pair) ==> pair_count(list, pair) == 0,
    decreases list.len(),
{
    if list.len() > 0 {
        let rest = list.drop_last();
        assert(pairs_distinct(rest));
        lemma_listed_once(rest, pair);
        if list.last() == pair {
            if rest.contains(pair) {
                let k = choose|k: int| 0 <= k < rest.len() && rest[k] == pair;
                assert(list[k] == list[list.len() - 1]);
            }
            assert(list[list.len() - 1] == pair);
        } else {
            if list.contains(pair) {
                let k = choose|k: int| 0 <= k < list.len() && list[k] == pair;
                assert(rest[k] == pair);
            }
            if rest.contains(pair) {
                let k = choose|k: int| 0 <= k < rest.len() && rest[k] == pair;
                assert(list[k] == pair);
            }
        }
    }
}

/// The name under which a treaty between two nations acts.
pub open spec fn treaty_name(a: Nation, b: Nation) -> Seq<char> {
    a.name_text() + "-"@ + b.name_text() + " 조약"@
}

/// What a sanction report says of the two nations.
pub open spec fn sanction_text(a: Nation, b: Nation) -> Seq<char> {
    a.name_text() + "가 "@ + b.name_text() + "를 제재"@
}

fn treaty_actor(a: Nation, b: Nation) -> (actor: EventActor)
    ensures
        actor.nation == a,
        actor.name@ == treaty_name(a, b),
{
    let mut name = String::from_str(a.name());
    name.append("-");
    name.append(b.name());
    name.append(" 조약");
    EventActor {
        id: 0,
        name,
        nation: a,
        faction: Faction::Neutral,
        faction_label: String::from_str("조약"),
        biome: Biome::Plains,
        biome_label: String::from_str("Plains"),
        behavior_hint: BehaviorState::Idle,
        behavior_hint_label: String::from_str("Treaty"),
    }
}

/// Whether an event reports the alliance that `a` and `b` signed at a tick.
pub open spec fn is_alliance_report(e: WorldEvent, tick: u64, a: Nation, b: Nation) -> bool {
    &&& e.tick == tick
    &&& e.epoch@ == "외교"@
    &&& e.season@ == "동맹"@
    &&& match e.kind {
        WorldEventKind::Social { convener, gathering_theme, cohesion_level } => {
            &&& convener.nation == a
            &&& convener.name@ == treaty_name(a, b)
            &&& gathering_theme@ == "동맹 체결"@
        },
        _ => false,
    }
}

/// Whether an event reports the sanction that `a` laid on `b` at a tick.
pub open spec fn is_sanction_report(e: WorldEvent, tick: u64, a: Nation, b: Nation) -> bool {
    &&& e.tick == tick
    &&& e.epoch@ == "외교"@
    &&& e.season@ == "제재"@
    &&& match e.kind {
        WorldEventKind::MacroShock { stressor, catalyst, projected_impact, casualties } => {
            &&& stressor@ == sanction_text(a, b)
            &&& catalyst@ == "무역 차단"@
            &&& projected_impact@ == "경제 위축"@
            &&& casualties is None
        },
        _ => false,
    }
}

fn alliance_event(tick: u64, a: Nation, b: Nation, score: i64) -> (e: WorldEvent)
    ensures
        e.tick == tick,
        e.kind is Social,
        is_alliance_report(e, tick, a, b),
{
    let mut level = String::from_str("score ");
    append_fixed(&mut level, score, 0);
    WorldEvent {
        tick,
        epoch: String::from_str("외교"),
        season: String::from_str("동맹"),
        kind: WorldEventKind::Social {
            convener: treaty_actor(a, b),
            gathering_theme: String::from_str("동맹 체결"),
            cohesion_level: level,
        },
    }
}

fn sanction_event(tick: u64, a: Nation, b: Nation) -> (e: WorldEvent)
    ensures
        e.tick == tick,
        e.kind is MacroShock,
        is_sanction_report(e, tick, a, b),
{
    let mut stressor = String::from_str(a.name());
    stressor.append("가 ");
    stressor.append(b.name());
    stressor.append("를 제재");
    WorldEvent {
        tick,
        epoch: String::from_str("외교"),
        season: String::from_str("제재"),
        kind: WorldEventKind::MacroShock {
            stressor,
            catalyst: String::from_str("무역 차단"),
            projected_impact: String::from_str("경제 위축"),
            casualties: None,
        },
    }
}

/// Whether the treaties match the relations: every pair above the alliance
/// threshold is allied, every pair below the sanction threshold sanctioned, each
/// exactly once.
pub open spec fn treaties_follow(diplo: &DiplomaticRelations) -> bool {
    forall|i: int, j: int|
        0 <= i < j < NATION_COUNT ==> {
            &&& #[trigger] diplo.relations@[i * NATION_COUNT as int + j] > ALLIANCE_THRESHOLD
                ==> pair_count(diplo.alliances@, (Nation::at(i), Nation::at(j))) == 1
            &&& diplo.relations@[i * NATION_COUNT as int + j] < SANCTION_THRESHOLD ==> pair_count(
                diplo.sanctions@,
                (Nation::at(i), Nation::at(j)),
            ) == 1
        }
}

/// Whether `before` is the start of `after`.
pub open spec fn extends(before: Seq<(Nation, Nation)>, after: Seq<(Nation, Nation)>) -> bool {
    before.len() <= after.len() && after.subrange(0, before.len() as int) =~= before
}

/// Whether an event reports a treaty or a sanction signed at a tick.
pub open spec fn is_treaty_news(e: WorldEvent, tick: u64) -> bool {
    e.tick == tick && (e.kind is Social || e.kind is MacroShock)
}

/// The two nations a slot of the relation table stands for.
pub open spec fn pair_at(slot: int) -> (Nation, Nation) {
    (Nation::at(slot / 5), Nation::at(slot % 5))
}

/// The slot of the relation table that stands for a pair.
pub open spec fn slot_of(pair: (Nation, Nation)) -> int {
    pair.0.index_of() * 5 + pair.1.index_of()
}

/// Whether the pair of a slot is to be allied: the first nation stands before
/// the second in the table and their score is above the alliance threshold.
pub open spec fn alliance_due(relations: Seq<i64>, slot: int) -> bool {
    0 <= slot < 25 && slot / 5 < slot % 5 && relations[slot] > ALLIANCE_THRESHOLD
}

/// Whether the first nation of a slot's pair is to sanction the second: the
/// first stands before the second in the table, and their score is below the
/// sanction threshold as they enter the tick or after the tick's drift.
pub open spec fn sanction_due(entry: Seq<i64>, relations: Seq<i64>, slot: int) -> bool {
    0 <= slot < 25 && slot / 5 < slot % 5 && (entry[slot] < SANCTION_THRESHOLD || relations[slot]
        < SANCTION_THRESHOLD)
}

/// The alliances once the first `n` slots of the table were walked.
pub open spec fn allies_upto(allies: Seq<(Nation, Nation)>, relations: Seq<i64>, n: int) -> Seq<
    (Nation, Nation),
>
    decreases n,
{
    if n <= 0 {
        allies
    } else if alliance_due(relations, n - 1) {
        with_pair(allies_upto(allies, relations, n - 1), pair_at(n - 1))
    } else {
        allies_upto(allies, relations, n - 1)
    }
}

/// The sanctions once the first `n` slots of the table were walked.
pub open spec fn bans_upto(
    bans: Seq<(Nation, Nation)>,
    entry: Seq<i64>,
    relations: Seq<i64>,
    n: int,
) -> Seq<(Nation, Nation)>
    decreases n,
{
    if n <= 0 {
        bans
    } else if sanction_due(entry, relations, n - 1) {
        with_pair(bans_upto(bans, entry, relations, n - 1), pair_at(n - 1))
    } else {
        bans_upto(bans, entry, relations, n - 1)
    }
}

/// The treaties newly signed while the first `n` slots of the table were walked,
/// in the order of signing: for each its slot, and whether it is an alliance
/// rather than a sanction. At one slot the alliance comes first.
pub open spec fn signings_upto(
    allies: Seq<(Nation, Nation)>,
    bans: Seq<(Nation, Nation)>,
    entry: Seq<i64>,
    relations: Seq<i64>,
    n: int,
) -> Seq<(bool, int)>
    decreases n,
{
    if n <= 0 {
        Seq::empty()
    } else {
        let earlier = signings_upto(allies, bans, entry, relations, n - 1);
        let allied = if alliance_due(relations, n - 1) && !allies_upto(
            allies,
            relations,
            n - 1,
        ).contains(pair_at(n - 1)) {
            earlier.push((true, n - 1))
        } else {
            earlier
        };
        if sanction_due(entry, relations, n - 1) && !bans_upto(bans, entry, relations, n - 1).contains(
            pair_at(n - 1),
        ) {
            allied.push((false, n - 1))
        } else {
            allied
        }
    }
}

/// Whether `news` reports the given signings at a tick, one event each, in order.
pub open spec fn reports_signings(news: Seq<WorldEvent>, signings: Seq<(bool, int)>, tick: u64) -> bool {
    &&& news.len() == signings.len()
    &&& forall|k: int|
        0 <= k < news.len() ==> if signings[k].0 {
            is_alliance_report(
                #[trigger] news[k],
                tick,
                pair_at(signings[k].1).0,
                pair_at(signings[k].1).1,
            )
        } else {
            is_sanction_report(news[k], tick, pair_at(signings[k].1).0, pair_at(signings[k].1).1)
        }
}

/// Whether `news` is what the signing of treaties logs: one report for each
/// treaty newly signed, in table order, and nothing else.
pub open spec fn is_treaty_roll(
    news: Seq<WorldEvent>,
    before: &DiplomaticRelations,
    after: &DiplomaticRelations,
    tick: u64,
) -> bool {
    &&& reports_signings(
        news,
        signings_upto(before.alliances@, before.sanctions@, before.relations@, after.relations@, 25),
        tick,
    )
    &&& news.len() == (after.alliances@.len() - before.alliances@.len()) + (after.sanctions@.len()
        - before.sanctions@.len())
}

/// Whether the treaties of `after` are what a tick's signing makes of those of
/// `before`, given the scores after the drift: a pair is allied exactly if it was
/// before or its score calls for it now, and sanctioned exactly if it was before
/// or its score called for it on entry or calls for it now; new treaties are
/// appended in table order.
pub open spec fn treaties_signed(before: &DiplomaticRelations, after: &DiplomaticRelations) -> bool {
    &&& after.alliances@ == allies_upto(before.alliances@, after.relations@, 25)
    &&& after.sanctions@ == bans_upto(
        before.sanctions@,
        before.relations@,
        after.relations@,
        25,
    )
    &&& forall|p: (Nation, Nation)| #[trigger]
        after.alliances@.contains(p) <==> before.alliances@.contains(p) || alliance_due(
            after.relations@,
            slot_of(p),
        )
    &&& forall|p: (Nation, Nation)| #[trigger]
        after.sanctions@.contains(p) <==> before.sanctions@.contains(p) || sanction_due(
            before.relations@,
            after.relations@,
            slot_of(p),
        )
}

/// Whether a list of treaties stays as it was wherever no pair is due one.
pub open spec fn kept_where_none_due(before: &DiplomaticRelations, after: &DiplomaticRelations) -> bool {
    &&& (forall|s: int| 0 <= s < 25 ==> !alliance_due(after.relations@, s)) ==> after.alliances@
        == before.alliances@
    &&& (forall|s: int| 0 <= s < 25 ==> !sanction_due(before.relations@, after.relations@, s))
        ==> after.sanctions@ == before.sanctions@
}

/// Whether as many treaties stand after as before.
pub open spec fn same_treaties(before: &DiplomaticRelations, after: &DiplomaticRelations) -> bool {
    after.alliances@.len() == before.alliances@.len() && after.sanctions@.len()
        == before.sanctions@.len()
}

/// Who is allied after the first `n` slots: who was before, and every pair due
/// an alliance among those slots.
pub proof fn lemma_allies_listed(allies: Seq<(Nation, Nation)>, relations: Seq<i64>, n: int)
    requires
        0 <= n <= 25,
    ensures
        forall|p: (Nation, Nation)| #[trigger]
            allies_upto(allies, relations, n).contains(p) <==> allies.contains(p) || (alliance_due(
                relations,
                slot_of(p),
            ) && slot_of(p) < n),
    decreases n,
{
    if n > 0 {
        lemma_allies_listed(allies, relations, n - 1);
        let earlier = allies_upto(allies, relations, n - 1);
        let now = allies_upto(allies, relations, n);
        let s = n - 1;
        assert forall|p: (Nation, Nation)| #[trigger]
            now.contains(p) <==> allies.contains(p) || (alliance_due(relations, slot_of(p))
                && slot_of(p) < n) by {
            lemma_nation_index_roundtrip(p.0);
            lemma_nation_index_roundtrip(p.1);
            lemma_with_pair_holds(earlier, pair_at(s), p);
            if slot_of(p) == s {
                assert(s / 5 == p.0.index_of() && s % 5 == p.1.index_of());
                assert(pair_at(s) == p);
            }
            if pair_at(s) == p && s / 5 < s % 5 {
                assert(slot_of(p) == s);
            }
        }
    }
}

/// Who is sanctioned after the first `n` slots: who was before, and every pair
/// due a sanction among those slots.
pub proof fn lemma_bans_listed(
    bans: Seq<(Nation, Nation)>,
    entry: Seq<i64>,
    relations: Seq<i64>,
    n: int,
)
    requires
        0 <= n <= 25,
    ensures
        forall|p: (Nation, Nation)| #[trigger]
            bans_upto(bans, entry, relations, n).contains(p) <==> bans.contains(p) || (sanction_due(
                entry,
                relations,
                slot_of(p),
            ) && slot_of(p) < n),
    decreases n,
{
    if n > 0 {
        lemma_bans_listed(bans, entry, relations, n - 1);
        let earlier = bans_upto(bans, entry, relations, n - 1);
        let now = bans_upto(bans, entry, relations, n);
        let s = n - 1;
        assert forall|p: (Nation, Nation)| #[trigger]
            now.contains(p) <==> bans.contains(p) || (sanction_due(entry, relations, slot_of(p))
                && slot_of(p) < n) by {
            lemma_nation_index_roundtrip(p.0);
            lemma_nation_index_roundtrip(p.1);
            lemma_with_pair_holds(earlier, pair_at(s), p);
            if slot_of(p) == s {
                assert(s / 5 == p.0.index_of() && s % 5 == p.1.index_of());
                assert(pair_at(s) == p);
            }
            if pair_at(s) == p && s / 5 < s % 5 {
                assert(slot_of(p) == s);
            }
        }
    }
}

/// A list with one more pair holds that pair and what it held, and nothing else.
pub proof fn lemma_with_pair_holds(
    list: Seq<(Nation, Nation)>,
    pair: (Nation, Nation),
    p: (Nation, Nation),
)
    ensures
        with_pair(list, pair).contains(p) <==> list.contains(p) || p == pair,
{
    let out = with_pair(list, pair);
    if !list.contains(pair) {
        assert(out[list.len() as int] == pair);
        if list.contains(p) {
            let k = choose|k: int| 0 <= k < list.len() && list[k] == p;
            assert(out[k] == p);
        }
        if out.contains(p) {
            let k = choose|k: int| 0 <= k < out.len() && out[k] == p;
            if k < list.len() {
                assert(list[k] == p);
            }
        }
    }
}

/// Where no pair among the first `n` slots is due an alliance, the alliances stay.
pub proof fn lemma_no_alliance_due(allies: Seq<(Nation, Nation)>, relations: Seq<i64>, n: int)
    requires
        0 <= n <= 25,
        forall|s: int| 0 <= s < n ==> !alliance_due(relations, s),
    ensures
        allies_upto(allies, relations, n) == allies,
    decreases n,
{
    if n > 0 {
        lemma_no_alliance_due(allies, relations, n - 1);
    }
}

/// Where no pair among the first `n` slots is due a sanction, the sanctions stay.
pub proof fn lemma_no_sanction_due(
    bans: Seq<(Nation, Nation)>,
    entry: Seq<i64>,
    relations: Seq<i64>,
    n: int,
)
    requires
        0 <= n <= 25,
        forall|s: int| 0 <= s < n ==> !sanction_due(entry, relations, s),
    ensures
        bans_upto(bans, entry, relations, n) == bans,
    decreases n,
{
    if n > 0 {
        lemma_no_sanction_due(bans, entry, relations, n - 1);
    }
}

/// As many treaties are newly signed as the two lists grow by.
pub proof fn lemma_signings_counted(
    allies: Seq<(Nation, Nation)>,
    bans: Seq<(Nation, Nation)>,
    entry: Seq<i64>,
    relations: Seq<i64>,
    n: int,
)
    requires
        0 <= n <= 25,
    ensures
        signings_upto(allies, bans, entry, relations, n).len() == (allies_upto(
            allies,
            relations,
            n,
        ).len() - allies.len()) + (bans_upto(bans, entry, relations, n).len() - bans.len()),
    decreases n,
{
    if n > 0 {
        lemma_signings_counted(allies, bans, entry, relations, n - 1);
    }
}

#[verifier::rlimit(50)]
fn sign_treaties(diplo: &mut DiplomaticRelations, entry: &Vec<i64>, tick: u64, log: &mut WorldEventLog)
    requires
        old(diplo).wf(),
        old(log).wf(),
        entry@.len() == 25,
    ensures
        final(diplo).wf(),
        final(diplo).relations == old(diplo).relations,
        final(diplo).trust == old(diplo).trust,
        final(diplo).fear == old(diplo).fear,
        extends(old(diplo).alliances@, final(diplo).alliances@),
        extends(old(diplo).sanctions@, final(diplo).sanctions@),
        treaties_follow(&*final(diplo)),
        final(diplo).alliances@ == allies_upto(old(diplo).alliances@, old(diplo).relations@, 25),
        final(diplo).sanctions@ == bans_upto(old(diplo).sanctions@, entry@, old(diplo).relations@, 25),
        final(log).wf(),
        final(log).capacity_of() == old(log).capacity_of(),
        only_added(old(log)@, final(log)@, |e: WorldEvent| is_treaty_news(e, tick)),
        exists|news: Seq<WorldEvent>| #[trigger]
            reports_signings(
                news,
                signings_upto(
                    old(diplo).alliances@,
                    old(diplo).sanctions@,
                    entry@,
                    old(diplo).relations@,
                    25,
                ),
                tick,
            ) && final(log)@ == log_after_all(old(log)@, old(log).capacity_of(), news),
{
    let ghost mut news: Seq<WorldEvent> = Seq::empty();
    let ghost allies0 = diplo.alliances@;
    let ghost bans0 = diplo.sanctions@;
    let ghost rel = diplo.relations@;
    let mut slot: usize = 0;
    while slot < 25
        invariant
            slot <= 25,
            old(diplo).wf(),
            entry@.len() == 25,
            allies0 == old(diplo).alliances@,
            bans0 == old(diplo).sanctions@,
            rel == old(diplo).relations@,
            diplo.wf(),
            diplo.relations == old(diplo).relations,
            diplo.trust == old(diplo).trust,
            diplo.fear == old(diplo).fear,
            extends(old(diplo).alliances@, diplo.alliances@),
            extends(old(diplo).sanctions@, diplo.sanctions@),
            forall|s: int|
                0 <= s < slot && s / 5 < s % 5 ==> {
                    &&& #[trigger] diplo.relations@[s] > ALLIANCE_THRESHOLD
                        ==> diplo.alliances@.contains((Nation::at(s / 5), Nation::at(s % 5)))
                    &&& diplo.relations@[s] < SANCTION_THRESHOLD ==> diplo.sanctions@.contains(
                        (Nation::at(s / 5), Nation::at(s % 5)),
                    )
                },
            diplo.alliances@ == allies_upto(allies0, rel, slot as int),
            diplo.sanctions@ == bans_upto(bans0, entry@, rel, slot as int),
            reports_signings(news, signings_upto(allies0, bans0, entry@, rel, slot as int), tick),
            log@ == log_after_all(old(log)@, old(log).capacity_of(), news),
            log.wf(),
            log.capacity_of() == old(log).capacity_of(),
            only_added(old(log)@, log@, |e: WorldEvent| is_treaty_news(e, tick)),
        decreases 25 - slot,
    {
        let i: usize = slot / 5;
        let j: usize = slot % 5;
        if i < j {
            let a: Nation = Nation::from_index(i);
            let b: Nation = Nation::from_index(j);
            let score: i64 = diplo.relations[slot];
            let owed: bool = score < SANCTION_THRESHOLD || entry[slot] < SANCTION_THRESHOLD;
            let ghost allies = diplo.alliances@;
            let ghost bans = diplo.sanctions@;
            let ghost signed = signings_upto(allies0, bans0, entry@, rel, slot as int);
            proof {
                lemma_with_pair_keeps_distinct(allies, (a, b));
                lemma_with_pair_keeps_distinct(bans, (a, b));
                assert(pair_at(slot as int) == (a, b));
            }
            if score > ALLIANCE_THRESHOLD && !has_pair(&diplo.alliances, (a, b)) {
                diplo.alliances.push((a, b));
                let event = alliance_event(tick, a, b, score);
                log.record(event, Ghost(old(log)@), Ghost(|e: WorldEvent| is_treaty_news(e, tick)));
                proof {
                    lemma_one_more_pushed(old(log)@, old(log).capacity_of(), news, event);
                    news = news.push(event);
                }
            }
            let ghost allied = if score > ALLIANCE_THRESHOLD && !allies.contains((a, b)) {
                signed.push((true, slot as int))
            } else {
                signed
            };
            assert(reports_signings(news, allied, tick));
            if owed && !has_pair(&diplo.sanctions, (a, b)) {
                diplo.sanctions.push((a, b));
                let event = sanction_event(tick, a, b);
                log.record(event, Ghost(old(log)@), Ghost(|e: WorldEvent| is_treaty_news(e, tick)));
                proof {
                    lemma_one_more_pushed(old(log)@, old(log).capacity_of(), news, event);
                    news = news.push(event);
                }
            }
            proof {
                assert(score > ALLIANCE_THRESHOLD ==> diplo.alliances@ == with_pair(allies, (a, b)));
                assert(score <= ALLIANCE_THRESHOLD ==> diplo.alliances@ == allies);
                assert(owed ==> diplo.sanctions@ == with_pair(bans, (a, b)));
                assert(!owed ==> diplo.sanctions@ == bans);
                assert(alliance_due(rel, slot as int) == (score > ALLIANCE_THRESHOLD));
                assert(sanction_due(entry@, rel, slot as int) == owed);
                assert(reports_signings(
                    news,
                    signings_upto(allies0, bans0, entry@, rel, slot as int + 1),
                    tick,
                ));
                assert(diplo.alliances@.subrange(0, old(diplo).alliances@.len() as int)
                    =~= old(diplo).alliances@);
                assert(diplo.sanctions@.subrange(0, old(diplo).sanctions@.len() as int)
                    =~= old(diplo).sanctions@);
                assert forall|s: int| 0 <= s <= slot && s / 5 < s % 5 implies {
                    &&& #[trigger] diplo.relations@[s] > ALLIANCE_THRESHOLD
                        ==> diplo.alliances@.contains((Nation::at(s / 5), Nation::at(s % 5)))
                    &&& diplo.relations@[s] < SANCTION_THRESHOLD ==> diplo.sanctions@.contains(
                        (Nation::at(s / 5), Nation::at(s % 5)),
                    )
                } by {
                    if s < slot {
                        if diplo.relations@[s] > ALLIANCE_THRESHOLD {
                            assert(allies.contains((Nation::at(s / 5), Nation::at(s % 5))));
                        }
                        if diplo.relations@[s] < SANCTION_THRESHOLD {
                            assert(bans.contains((Nation::at(s / 5), Nation::at(s % 5))));
                        }
                    }
                }
            }
        } else {
            proof {
                assert(!alliance_due(rel, slot as int));
                assert(!sanction_due(entry@, rel, slot as int));
            }
        }
        slot += 1;
    }
    proof {
        assert forall|i: int, j: int| 0 <= i < j < NATION_COUNT implies {
            &&& #[trigger] diplo.relations@[i * NATION_COUNT as int + j] > ALLIANCE_THRESHOLD
                ==> pair_count(diplo.alliances@, (Nation::at(i), Nation::at(j))) == 1
            &&& diplo.relations@[i * NATION_COUNT as int + j] < SANCTION_THRESHOLD ==> pair_count(
                diplo.sanctions@,
                (Nation::at(i), Nation::at(j)),
            ) == 1
        } by {
            let s = i * 5 + j;
            assert(s / 5 == i && s % 5 == j);
            lemma_listed_once(diplo.alliances@, (Nation::at(i), Nation::at(j)));
            lemma_listed_once(diplo.sanctions@, (Nation::at(i), Nation::at(j)));
        }
    }
}

/// Lets relations drift with the balance of power and signs the treaties they call for.
///
/// A pair whose score is above the alliance threshold after the drift is allied.
/// A pair whose score is below the sanction threshold, as it enters the tick or
/// after the drift, is sanctioned. A treaty once signed stays, no pair is ever
/// listed twice, and the log takes one report for each treaty newly signed, in
/// table order, and nothing else.
pub fn diplomacy_system(
    diplo: &mut DiplomaticRelations,
    metrics: &AllNationMetrics,
    time: &WorldTime,
    log: &mut WorldEventLog,
)
    requires
        old(diplo).wf(),
        metrics.wf(),
        old(log).wf(),
    ensures
        final(diplo).wf(),
        relations_drifted(old(diplo).relations@, final(diplo).relations@, metrics.0@),
        forall|n: int|
            0 <= n < NATION_COUNT ==> #[trigger] final(diplo).trust@[n] == trust_after(
                old(diplo).trust@[n] as int,
                metrics.0@,
                n,
                NATION_COUNT as int,
            ),
        forall|n: int|
            0 <= n < NATION_COUNT ==> #[trigger] final(diplo).fear@[n] == fear_after(
                old(diplo).fear@[n] as int,
                metrics.0@,
                n,
                NATION_COUNT as int,
            ),
        extends(old(diplo).alliances@, final(diplo).alliances@),
        extends(old(diplo).sanctions@, final(diplo).sanctions@),
        treaties_follow(&*final(diplo)),
        treaties_signed(&*old(diplo), &*final(diplo)),
        final(log).wf(),
        final(log).capacity_of() == old(log).capacity_of(),
        only_added(old(log)@, final(log)@, |e: WorldEvent| is_treaty_news(e, time.tick)),
        exists|news: Seq<WorldEvent>| #[trigger]
            is_treaty_roll(news, &*old(diplo), &*final(diplo), time.tick) && final(log)@
                == log_after_all(old(log)@, old(log).capacity_of(), news),
        kept_where_none_due(&*old(diplo), &*final(diplo)),
        same_treaties(&*old(diplo), &*final(diplo)) ==> final(log)@ == old(log)@,
{
    let entry: Vec<i64> = copy_of(&diplo.relations);
    drift_relations(diplo, metrics);
    drift_feelings(diplo, metrics);
    let ghost allies = diplo.alliances@;
    let ghost bans = diplo.sanctions@;
    sign_treaties(diplo, &entry, time.tick, log);
    proof {
        lemma_allies_listed(allies, diplo.relations@, 25);
        lemma_bans_listed(bans, entry@, diplo.relations@, 25);
        lemma_signings_counted(allies, bans, entry@, diplo.relations@, 25);
        let news = choose|news: Seq<WorldEvent>| #[trigger]
            reports_signings(news, signings_upto(allies, bans, entry@, diplo.relations@, 25), time.tick)
                && log@ == log_after_all(old(log)@, old(log).capacity_of(), news);
        assert(is_treaty_roll(news, &*old(diplo), &*diplo, time.tick));
        if forall|s: int| 0 <= s < 25 ==> !alliance_due(diplo.relations@, s) {
            lemma_no_alliance_due(allies, diplo.relations@, 25);
        }
        if forall|s: int| 0 <= s < 25 ==> !sanction_due(entry@, diplo.relations@, s) {
            lemma_no_sanction_due(bans, entry@, diplo.relations@, 25);
        }
        if news.len() == 0 {
            assert(log@ == old(log)@);
        }
    }
}

} // verus!
