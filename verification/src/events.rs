//! Structured world events and the bounded log that keeps the most recent ones.

use vstd::prelude::*;
use vstd::string::*;
use std::collections::VecDeque;
use crate::components::BehaviorState;
use crate::components::Biome;
use crate::components::Faction;
use crate::fixed::SCALE;
use crate::nation::Nation;
use crate::technology::Era;
use crate::technology::WeaponTier;
use crate::text::append_fixed;
use crate::text::append_grouped;
use crate::text::fixed_text;
use crate::text::grouped_text;

verus! {

#[derive(Clone, Copy, Debug, PartialEq, Eq, Structural, Hash)]
pub enum Sentiment {
    Positive,
    Neutral,
    Negative,
}

/// The inhabitant at the centre of a trade or social event.
#[derive(Debug)]
pub struct EventActor {
    pub id: u64,
    pub name: String,
    pub nation: Nation,
    pub faction: Faction,
    pub faction_label: String,
    pub biome: Biome,
    pub biome_label: String,
    pub behavior_hint: BehaviorState,
    pub behavior_hint_label: String,
}

impl Clone for EventActor {
    fn clone(&self) -> (r: Self)
        ensures
            r == *self,
    {
        EventActor {
            id: self.id,
            name: self.name.clone(),
            nation: self.nation,
            faction: self.faction,
            faction_label: self.faction_label.clone(),
            biome: self.biome,
            biome_label: self.biome_label.clone(),
            behavior_hint: self.behavior_hint,
            behavior_hint_label: self.behavior_hint_label.clone(),
        }
    }
}

/// What happened. Territory and progress figures are in millionths.
#[derive(Debug)]
pub enum WorldEventKind {
    Trade { actor: EventActor, trade_focus: String, market_pressure: String },
    Social { convener: EventActor, gathering_theme: String, cohesion_level: String },
    MacroShock {
        stressor: String,
        catalyst: String,
        projected_impact: String,
        casualties: Option<u64>,
    },
    Warfare { winner: Nation, loser: Nation, territory_change: i64, casualties: u64, nuclear: bool },
    EraShift { nation: Nation, era: Era, weapon: WeaponTier },
    ScienceProgress { nation: Nation, progress: i64 },
    ScienceVictory { winner: Nation, progress: i64 },
    InterstellarProgress { leader: Nation, progress: i64 },
    InterstellarVictory { winner: Nation, progress: i64 },
}

impl Clone for WorldEventKind {
    fn clone(&self) -> (r: Self)
        ensures
            r == *self,
    {
        match self {
            WorldEventKind::Trade { actor, trade_focus, market_pressure } => WorldEventKind::Trade {
                actor: actor.clone(),
                trade_focus: trade_focus.clone(),
                market_pressure: market_pressure.clone(),
            },
            WorldEventKind::Social {
                convener,
                gathering_theme,
                cohesion_level,
            } => WorldEventKind::Social {
                convener: convener.clone(),
                gathering_theme: gathering_theme.clone(),
                cohesion_level: cohesion_level.clone(),
            },
            WorldEventKind::MacroShock {
                stressor,
                catalyst,
                projected_impact,
                casualties,
            } => WorldEventKind::MacroShock {
                stressor: stressor.clone(),
                catalyst: catalyst.clone(),
                projected_impact: projected_impact.clone(),
                casualties: *casualties,
            },
            WorldEventKind::Warfare {
                winner,
                loser,
                territory_change,
                casualties,
                nuclear,
            } => WorldEventKind::Warfare {
                winner: *winner,
                loser: *loser,
                territory_change: *territory_change,
                casualties: *casualties,
                nuclear: *nuclear,
            },
            WorldEventKind::EraShift { nation, era, weapon } => WorldEventKind::EraShift {
                nation: *nation,
                era: *era,
                weapon: *weapon,
            },
            WorldEventKind::ScienceProgress { nation, progress } => WorldEventKind::ScienceProgress {
                nation: *nation,
                progress: *progress,
            },
            WorldEventKind::ScienceVictory { winner, progress } => WorldEventKind::ScienceVictory {
                winner: *winner,
                progress: *progress,
            },
            WorldEventKind::InterstellarProgress {
                leader,
                progress,
            } => WorldEventKind::InterstellarProgress { leader: *leader, progress: *progress },
            WorldEventKind::InterstellarVictory {
                winner,
                progress,
            } => WorldEventKind::InterstellarVictory { winner: *winner, progress: *progress },
        }
    }
}

/// An event with the tick, time of day and season it happened in.
#[derive(Debug)]
pub struct WorldEvent {
    pub tick: u64,
    pub epoch: String,
    pub season: String,
    pub kind: WorldEventKind,
}

impl Clone for WorldEvent {
    fn clone(&self) -> (r: Self)
        ensures
            r == *self,
    {
        WorldEvent {
            tick: self.tick,
            epoch: self.epoch.clone(),
            season: self.season.clone(),
            kind: self.kind.clone(),
        }
    }
}

/// The smaller of a progress figure and one hundred units.
pub open spec fn capped_percent(progress: int) -> int {
    if progress > 100 * SCALE {
        100 * SCALE as int
    } else {
        progress
    }
}

impl WorldEvent {
    pub open spec fn category_text(&self) -> Seq<char> {
        match self.kind {
            WorldEventKind::Trade { .. } => "Trade"@,
            WorldEventKind::Social { .. } => "Social"@,
            WorldEventKind::MacroShock { .. } => "MacroShock"@,
            WorldEventKind::Warfare { .. } => "War"@,
            WorldEventKind::EraShift { .. } => "Era"@,
            WorldEventKind::ScienceProgress { .. } => "Science"@,
            WorldEventKind::ScienceVictory { .. } => "Science"@,
            WorldEventKind::InterstellarProgress { .. } => "Space"@,
            WorldEventKind::InterstellarVictory { .. } => "Space"@,
        }
    }

    pub open spec fn sentiment_of(&self) -> Sentiment {
        match self.kind {
            WorldEventKind::MacroShock { .. } => Sentiment::Negative,
            WorldEventKind::Warfare { .. } => Sentiment::Negative,
            _ => Sentiment::Positive,
        }
    }

    /// The one-line summary of the event.
    pub open spec fn headline_text(&self) -> Seq<char> {
        match self.kind {
            WorldEventKind::Trade { actor, trade_focus, market_pressure } => actor.name@
                + " coordinates "@ + trade_focus@ + " trade | Pressure: "@ + market_pressure@,
            WorldEventKind::Social { convener, gathering_theme, cohesion_level } => convener.name@
                + " hosts gathering on \""@ + gathering_theme@ + "\" | Cohesion: "@
                + cohesion_level@,
            WorldEventKind::MacroShock { stressor, catalyst, projected_impact, casualties } => {
                let base = stressor@ + " | Catalyst: "@ + catalyst@ + " | Impact: "@
                    + projected_impact@;
                match casualties {
                    Some(c) => base + " | Casualties: "@ + grouped_text(c as nat),
                    None => base,
                }
            },
            WorldEventKind::Warfare { winner, loser, territory_change, casualties, nuclear } => {
                let base = winner.name_text() + " wins war against "@ + loser.name_text()
                    + ", gaining territory "@ + fixed_text(territory_change as int, 2)
                    + ". Casualties "@ + grouped_text(casualties as nat);
                if nuclear {
                    base + " | Nuclear Strike"@
                } else {
                    base
                }
            },
            WorldEventKind::EraShift { nation, era, weapon } => nation.name_text()
                + " has entered "@ + era.label_text() + " | Main Weapon: "@ + weapon.label_text(),
            WorldEventKind::ScienceProgress { nation, progress } => nation.name_text()
                + " Moon Exploration Progress "@ + fixed_text(capped_percent(progress as int), 1)
                + "% / 100% (1 tick = 1 gen)"@,
            WorldEventKind::ScienceVictory { winner, .. } => winner.name_text()
                + " achieved the first Moon Landing! Science Victory for all humanity"@,
            WorldEventKind::InterstellarProgress { leader, progress } => leader.name_text()
                + " Interstellar Migration Progress "@ + fixed_text(
                capped_percent(progress as int),
                1,
            ) + "% / 100%"@,
            WorldEventKind::InterstellarVictory { winner, .. } => winner.name_text()
                + " completed Interstellar Settlement! Evolved into Space Civilization"@,
        }
    }

    pub fn category(&self) -> (r: &'static str)
        ensures
            r@ == self.category_text(),
    {
        match &self.kind {
            WorldEventKind::Trade { .. } => "Trade",
            WorldEventKind::Social { .. } => "Social",
            WorldEventKind::MacroShock { .. } => "MacroShock",
            WorldEventKind::Warfare { .. } => "War",
            WorldEventKind::EraShift { .. } => "Era",
            WorldEventKind::ScienceProgress { .. } => "Science",
            WorldEventKind::ScienceVictory { .. } => "Science",
            WorldEventKind::InterstellarProgress { .. } => "Space",
            WorldEventKind::InterstellarVictory { .. } => "Space",
        }
    }

    pub fn sentiment(&self) -> (r: Sentiment)
        ensures
            r == self.sentiment_of(),
    {
        match &self.kind {
            WorldEventKind::Trade { .. } => Sentiment::Positive,
            WorldEventKind::Social { .. } => Sentiment::Positive,
            WorldEventKind::MacroShock { .. } => Sentiment::Negative,
            WorldEventKind::Warfare { .. } => Sentiment::Negative,
            WorldEventKind::EraShift { .. } => Sentiment::Positive,
            WorldEventKind::ScienceProgress { .. } => Sentiment::Positive,
            WorldEventKind::ScienceVictory { .. } => Sentiment::Positive,
            WorldEventKind::InterstellarProgress { .. } => Sentiment::Positive,
            WorldEventKind::InterstellarVictory { .. } => Sentiment::Positive,
        }
    }

    pub fn headline(&self) -> (r: String)
        ensures
            r@ == self.headline_text(),
    {
        let mut out = String::new();
        match &self.kind {
            WorldEventKind::Trade { actor, trade_focus, market_pressure } => {
                out.append(actor.name.as_str());
                out.append(" coordinates ");
                out.append(trade_focus.as_str());
                out.append(" trade | Pressure: ");
                out.append(market_pressure.as_str());
            },
            WorldEventKind::Social { convener, gathering_theme, cohesion_level } => {
                out.append(convener.name.as_str());
                out.append(" hosts gathering on \"");
                out.append(gathering_theme.as_str());
                out.append("\" | Cohesion: ");
                out.append(cohesion_level.as_str());
            },
            WorldEventKind::MacroShock { stressor, catalyst, projected_impact, casualties } => {
                out.append(stressor.as_str());
                out.append(" | Catalyst: ");
                out.append(catalyst.as_str());
                out.append(" | Impact: ");
                out.append(projected_impact.as_str());
                match casualties {
                    Some(c) => {
                        out.append(" | Casualties: ");
                        append_grouped(&mut out, *c);
                    },
                    None => {},
                }
            },
            WorldEventKind::Warfare { winner, loser, territory_change, casualties, nuclear } => {
                out.append(winner.name());
                out.append(" wins war against ");
                out.append(loser.name());
                out.append(", gaining territory ");
                append_fixed(&mut out, *territory_change, 2);
                out.append(". Casualties ");
                append_grouped(&mut out, *casualties);
                if *nuclear {
                    out.append(" | Nuclear Strike");
                }
            },
            WorldEventKind::EraShift { nation, era, weapon } => {
                out.append(nation.name());
                out.append(" has entered ");
                out.append(era.label());
                out.append(" | Main Weapon: ");
                out.append(weapon.label());
            },
            WorldEventKind::ScienceProgress { nation, progress } => {
                out.append(nation.name());
                out.append(" Moon Exploration Progress ");
                let shown: i64 = if *progress > 100 * SCALE {
                    100 * SCALE
                } else {
                    *progress
                };
                append_fixed(&mut out, shown, 1);
                out.append("% / 100% (1 tick = 1 gen)");
            },
            WorldEventKind::ScienceVictory { winner, .. } => {
                out.append(winner.name());
                out.append(" achieved the first Moon Landing! Science Victory for all humanity");
            },
            WorldEventKind::InterstellarProgress { leader, progress } => {
                out.append(leader.name());
                out.append(" Interstellar Migration Progress ");
                let shown: i64 = if *progress > 100 * SCALE {
                    100 * SCALE
                } else {
                    *progress
                };
                append_fixed(&mut out, shown, 1);
                out.append("% / 100%");
            },
            WorldEventKind::InterstellarVictory { winner, .. } => {
                out.append(winner.name());
                out.append(" completed Interstellar Settlement! Evolved into Space Civilization");
            },
        }
        assert(out@ =~= self.headline_text());
        out
    }

    pub fn trade(
        tick: u64,
        epoch: &str,
        season: &str,
        actor: EventActor,
        trade_focus: String,
        market_pressure: String,
    ) -> (e: Self)
        ensures
            e.tick == tick,
            e.epoch@ == epoch@,
            e.season@ == season@,
            e.kind == (WorldEventKind::Trade { actor, trade_focus, market_pressure }),
    {
        Self {
            tick,
            epoch: String::from_str(epoch),
            season: String::from_str(season),
            kind: WorldEventKind::Trade { actor, trade_focus, market_pressure },
        }
    }

    pub fn social(
        tick: u64,
        epoch: &str,
        season: &str,
        convener: EventActor,
        gathering_theme: String,
        cohesion_level: String,
    ) -> (e: Self)
        ensures
            e.tick == tick,
            e.epoch@ == epoch@,
            e.season@ == season@,
            e.kind == (WorldEventKind::Social { convener, gathering_theme, cohesion_level }),
    {
        Self {
            tick,
            epoch: String::from_str(epoch),
            season: String::from_str(season),
            kind: WorldEventKind::Social { convener, gathering_theme, cohesion_level },
        }
    }

    pub fn macro_shock(
        tick: u64,
        epoch: &str,
        season: &str,
        stressor: String,
        catalyst: String,
        projected_impact: String,
        casualties: Option<u64>,
    ) -> (e: Self)
        ensures
            e.tick == tick,
            e.epoch@ == epoch@,
            e.season@ == season@,
            e.kind == (WorldEventKind::MacroShock {
                stressor,
                catalyst,
                projected_impact,
                casualties,
            }),
    {
        Self {
            tick,
            epoch: String::from_str(epoch),
            season: String::from_str(season),
            kind: WorldEventKind::MacroShock { stressor, catalyst, projected_impact, casualties },
        }
    }

    pub fn warfare(
        tick: u64,
        epoch: &str,
        season: &str,
        winner: Nation,
        loser: Nation,
        territory_change: i64,
        casualties: u64,
        nuclear: bool,
    ) -> (e: Self)
        ensures
            e.tick == tick,
            e.epoch@ == epoch@,
            e.season@ == season@,
            e.kind == (WorldEventKind::Warfare {
                winner,
                loser,
                territory_change,
                casualties,
                nuclear,
            }),
    {
        Self {
            tick,
            epoch: String::from_str(epoch),
            season: String::from_str(season),
            kind: WorldEventKind::Warfare { winner, loser, territory_change, casualties, nuclear },
        }
    }

    pub fn era_shift(
        tick: u64,
        epoch: &str,
        season: &str,
        nation: Nation,
        era: Era,
        weapon: WeaponTier,
    ) -> (e: Self)
        ensures
            e.tick == tick,
            e.epoch@ == epoch@,
            e.season@ == season@,
            e.kind == (WorldEventKind::EraShift { nation, era, weapon }),
    {
        Self {
            tick,
            epoch: String::from_str(epoch),
            season: String::from_str(season),
            kind: WorldEventKind::EraShift { nation, era, weapon },
        }
    }

    pub fn science_progress(
        tick: u64,
        epoch: &str,
        season: &str,
        nation: Nation,
        progress: i64,
    ) -> (e: Self)
        ensures
            e.tick == tick,
            e.epoch@ == epoch@,
            e.season@ == season@,
            e.kind == (WorldEventKind::ScienceProgress { nation, progress }),
    {
        Self {
            tick,
            epoch: String::from_str(epoch),
            season: String::from_str(season),
            kind: WorldEventKind::ScienceProgress { nation, progress },
        }
    }

    pub fn science_victory(
        tick: u64,
        epoch: &str,
        season: &str,
        winner: Nation,
        progress: i64,
    ) -> (e: Self)
        ensures
            e.tick == tick,
            e.epoch@ == epoch@,
            e.season@ == season@,
            e.kind == (WorldEventKind::ScienceVictory { winner, progress }),
    {
        Self {
            tick,
            epoch: String::from_str(epoch),
            season: String::from_str(season),
            kind: WorldEventKind::ScienceVictory { winner, progress },
        }
    }

    pub fn interstellar_progress(
        tick: u64,
        epoch: &str,
        season: &str,
        leader: Nation,
        progress: i64,
    ) -> (e: Self)
        ensures
            e.tick == tick,
            e.epoch@ == epoch@,
            e.season@ == season@,
            e.kind == (WorldEventKind::InterstellarProgress { leader, progress }),
    {
        Self {
            tick,
            epoch: String::from_str(epoch),
            season: String::from_str(season),
            kind: WorldEventKind::InterstellarProgress { leader, progress },
        }
    }

    pub fn interstellar_victory(
        tick: u64,
        epoch: &str,
        season: &str,
        winner: Nation,
        progress: i64,
    ) -> (e: Self)
        ensures
            e.tick == tick,
            e.epoch@ == epoch@,
            e.season@ == season@,
            e.kind == (WorldEventKind::InterstellarVictory { winner, progress }),
    {
        Self {
            tick,
            epoch: String::from_str(epoch),
            season: String::from_str(season),
            kind: WorldEventKind::InterstellarVictory { winner, progress },
        }
    }
}

/// Number of events the log of a new world keeps.
pub const DEFAULT_LOG_CAPACITY: usize = 256;

/// The log after one more event: the oldest entry leaves when the log is full, and
/// a log without room keeps nothing.
pub open spec fn log_after_push(log: Seq<WorldEvent>, capacity: int, event: WorldEvent) -> Seq<
    WorldEvent,
> {
    if capacity <= 0 {
        log
    } else if log.len() >= capacity {
        log.subrange(1, log.len() as int).push(event)
    } else {
        log.push(event)
    }
}

/// The log after the events of `news` were pushed one after the other.
pub open spec fn log_after_all(log: Seq<WorldEvent>, capacity: int, news: Seq<WorldEvent>) -> Seq<
    WorldEvent,
>
    decreases news.len(),
{
    if news.len() == 0 {
        log
    } else {
        log_after_push(log_after_all(log, capacity, news.drop_last()), capacity, news.last())
    }
}

/// One more push extends what was pushed by one event.
pub proof fn lemma_one_more_pushed(
    log: Seq<WorldEvent>,
    capacity: int,
    news: Seq<WorldEvent>,
    event: WorldEvent,
)
    ensures
        log_after_all(log, capacity, news.push(event)) == log_after_push(
            log_after_all(log, capacity, news),
            capacity,
            event,
        ),
{
    assert(news.push(event).drop_last() =~= news);
}

/// Whether `news` are events of a tick under the given labels, one of each of the
/// given kinds, in order.
pub open spec fn reports_kinds(
    news: Seq<WorldEvent>,
    tick: u64,
    epoch: Seq<char>,
    season: Seq<char>,
    kinds: Seq<WorldEventKind>,
) -> bool {
    &&& news.len() == kinds.len()
    &&& forall|k: int|
        0 <= k < news.len() ==> {
            &&& (#[trigger] news[k]).tick == tick
            &&& news[k].epoch@ == epoch
            &&& news[k].season@ == season
            &&& news[k].kind == kinds[k]
        }
}

/// Whether `after` is the log `before` once it took one event of each of the
/// given kinds, in order, all of a tick and under the given labels, and nothing
/// else.
pub open spec fn logged(
    before: Seq<WorldEvent>,
    after: Seq<WorldEvent>,
    capacity: int,
    tick: u64,
    epoch: Seq<char>,
    season: Seq<char>,
    kinds: Seq<WorldEventKind>,
) -> bool {
    exists|news: Seq<WorldEvent>| #[trigger]
        reports_kinds(news, tick, epoch, season, kinds) && after == log_after_all(
            before,
            capacity,
            news,
        )
}

/// Whether an event is of a tick, under the given labels, and of the given kind.
pub open spec fn is_report(
    e: WorldEvent,
    tick: u64,
    epoch: Seq<char>,
    season: Seq<char>,
    kind: WorldEventKind,
) -> bool {
    e.tick == tick && e.epoch@ == epoch && e.season@ == season && e.kind == kind
}

/// What `logged` comes to for no kind and for one: a log that was to take
/// nothing is the log it was, and a log that was to take one kind is the old log
/// after the push of one event of that kind.
pub open spec fn logged_few(
    before: Seq<WorldEvent>,
    after: Seq<WorldEvent>,
    capacity: int,
    tick: u64,
    epoch: Seq<char>,
    season: Seq<char>,
    kinds: Seq<WorldEventKind>,
) -> bool {
    &&& kinds.len() == 0 ==> after == before
    &&& kinds.len() == 1 ==> exists|e: WorldEvent| #[trigger]
        is_report(e, tick, epoch, season, kinds[0]) && after == log_after_push(before, capacity, e)
}

/// A log that has logged no kind or one is as `logged_few` says.
pub proof fn lemma_logged_few(
    before: Seq<WorldEvent>,
    after: Seq<WorldEvent>,
    capacity: int,
    tick: u64,
    epoch: Seq<char>,
    season: Seq<char>,
    kinds: Seq<WorldEventKind>,
)
    requires
        logged(before, after, capacity, tick, epoch, season, kinds),
    ensures
        logged_few(before, after, capacity, tick, epoch, season, kinds),
{
    let news = choose|news: Seq<WorldEvent>| #[trigger]
        reports_kinds(news, tick, epoch, season, kinds) && after == log_after_all(
            before,
            capacity,
            news,
        );
    if kinds.len() == 1 {
        assert(news.drop_last().len() == 0);
        assert(log_after_all(before, capacity, news.drop_last()) == before);
        assert(is_report(news[0], tick, epoch, season, kinds[0]));
        assert(news.last() == news[0]);
    }
}

/// A log that took nothing has logged no kind.
pub proof fn lemma_logged_nothing(
    log: Seq<WorldEvent>,
    capacity: int,
    tick: u64,
    epoch: Seq<char>,
    season: Seq<char>,
)
    ensures
        logged(log, log, capacity, tick, epoch, season, Seq::empty()),
{
    assert(reports_kinds(Seq::empty(), tick, epoch, season, Seq::empty()));
    assert(log_after_all(log, capacity, Seq::empty()) == log);
}

/// A log that has taken some kinds and takes one more event has taken one more kind.
pub proof fn lemma_logged_one_more(
    before: Seq<WorldEvent>,
    middle: Seq<WorldEvent>,
    capacity: int,
    tick: u64,
    epoch: Seq<char>,
    season: Seq<char>,
    kinds: Seq<WorldEventKind>,
    event: WorldEvent,
)
    requires
        logged(before, middle, capacity, tick, epoch, season, kinds),
        event.tick == tick,
        event.epoch@ == epoch,
        event.season@ == season,
    ensures
        logged(
            before,
            log_after_push(middle, capacity, event),
            capacity,
            tick,
            epoch,
            season,
            kinds.push(event.kind),
        ),
{
    let news = choose|news: Seq<WorldEvent>| #[trigger]
        reports_kinds(news, tick, epoch, season, kinds) && middle == log_after_all(
            before,
            capacity,
            news,
        );
    lemma_one_more_pushed(before, capacity, news, event);
    assert(reports_kinds(news.push(event), tick, epoch, season, kinds.push(event.kind)));
}

/// A ring of the most recent events, oldest first.
#[derive(Debug)]
pub struct WorldEventLog {
    events: VecDeque<WorldEvent>,
    capacity: usize,
}

impl View for WorldEventLog {
    type V = Seq<WorldEvent>;

    closed spec fn view(&self) -> Seq<WorldEvent> {
        self.events@
    }
}

impl WorldEventLog {
    /// How many events the log holds at most.
    pub closed spec fn capacity_of(&self) -> int {
        self.capacity as int
    }

    /// The log never holds more events than its capacity.
    pub closed spec fn wf(&self) -> bool {
        self.events@.len() <= self.capacity
    }

    /// A well-formed log holds at most as many events as its capacity.
    pub proof fn lemma_within_capacity(&self)
        requires
            self.wf(),
        ensures
            self@.len() <= self.capacity_of(),
    {
    }

    pub fn new(capacity: usize) -> (log: Self)
        ensures
            log@.len() == 0,
            log.capacity_of() == capacity,
            log.wf(),
    {
        Self { events: VecDeque::new(), capacity }
    }

    pub fn capacity(&self) -> (c: usize)
        ensures
            c == self.capacity_of(),
    {
        self.capacity
    }

    pub fn len(&self) -> (n: usize)
        requires
            self.wf(),
        ensures
            n == self@.len(),
            n <= self.capacity_of(),
    {
        self.events.len()
    }

    pub fn push(&mut self, event: WorldEvent)
        requires
            old(self).wf(),
        ensures
            final(self).wf(),
            final(self).capacity_of() == old(self).capacity_of(),
            final(self)@ == log_after_push(old(self)@, old(self).capacity_of(), event),
            final(self)@.len() <= final(self).capacity_of(),
    {
        if self.capacity == 0 {
            return ;
        }
        if self.events.len() == self.capacity {
            let _ = self.events.pop_front();
        }
        self.events.push_back(event);
        assert(self.events@ =~= log_after_push(old(self)@, old(self).capacity_of(), event));
    }

    /// Pushes an event that `fresh` admits onto a log that has only taken such events
    /// since it held `before`.
    pub(crate) fn record(
        &mut self,
        event: WorldEvent,
        Ghost(before): Ghost<Seq<WorldEvent>>,
        Ghost(fresh): Ghost<spec_fn(WorldEvent) -> bool>,
    )
        requires
            old(self).wf(),
            only_added(before, old(self)@, fresh),
            fresh(event),
        ensures
            final(self).wf(),
            final(self).capacity_of() == old(self).capacity_of(),
            final(self)@ == log_after_push(old(self)@, old(self).capacity_of(), event),
            only_added(before, final(self)@, fresh),
    {
        proof {
            lemma_push_only_adds(before, self@, self.capacity_of(), event, fresh);
        }
        self.push(event);
    }

    /// The event at a position, the oldest at position zero.
    pub fn get(&self, i: usize) -> (e: &WorldEvent)
        requires
            self.wf(),
            i < self@.len(),
        ensures
            *e == self@[i as int],
    {
        &self.events[i]
    }

    /// A copy of the logged events, oldest first.
    pub fn snapshot(&self) -> (r: Vec<WorldEvent>)
        requires
            self.wf(),
        ensures
            r@ == self@,
    {
        let mut out: Vec<WorldEvent> = Vec::new();
        let mut i: usize = 0;
        let n: usize = self.events.len();
        while i < n
            invariant
                n == self.events@.len(),
                i <= n,
                out@.len() == i,
                forall|j: int| 0 <= j < i ==> out@[j] == self.events@[j],
            decreases n - i,
        {
            out.push(self.events[i].clone());
            i += 1;
        }
        assert(out@ =~= self.events@);
        out
    }
}

impl Default for WorldEventLog {
    fn default() -> (log: Self)
        ensures
            log@.len() == 0,
            log.capacity_of() == DEFAULT_LOG_CAPACITY,
            log.wf(),
    {
        Self::new(DEFAULT_LOG_CAPACITY)
    }
}

/// Whether every event of `after` was in `before` already or is of the kind `fresh` admits.
pub open spec fn only_added(
    before: Seq<WorldEvent>,
    after: Seq<WorldEvent>,
    fresh: spec_fn(WorldEvent) -> bool,
) -> bool {
    forall|i: int| 0 <= i < after.len() ==> before.contains(#[trigger] after[i]) || fresh(after[i])
}

/// A log to which nothing was added holds only what it held.
pub proof fn lemma_nothing_added(log: Seq<WorldEvent>, fresh: spec_fn(WorldEvent) -> bool)
    ensures
        only_added(log, log, fresh),
{
}

/// A push adds the pushed event and nothing else.
pub proof fn lemma_push_only_adds(
    before: Seq<WorldEvent>,
    log: Seq<WorldEvent>,
    capacity: int,
    event: WorldEvent,
    fresh: spec_fn(WorldEvent) -> bool,
)
    requires
        only_added(before, log, fresh),
        fresh(event),
    ensures
        only_added(before, log_after_push(log, capacity, event), fresh),
{
    let after = log_after_push(log, capacity, event);
    assert forall|i: int| 0 <= i < after.len() implies before.contains(#[trigger] after[i]) || fresh(
        after[i],
    ) by {
        if capacity <= 0 {
        } else if log.len() >= capacity {
            if i < after.len() - 1 {
                assert(after[i] == log[i + 1]);
            }
        } else {
            if i < after.len() - 1 {
                assert(after[i] == log[i]);
            }
        }
    }
}

/// What was only added under a narrow reading was only added under a wider one, and
/// additions in two steps are additions.
pub proof fn lemma_only_added_chain(
    a: Seq<WorldEvent>,
    b: Seq<WorldEvent>,
    c: Seq<WorldEvent>,
    first: spec_fn(WorldEvent) -> bool,
    second: spec_fn(WorldEvent) -> bool,
    both: spec_fn(WorldEvent) -> bool,
)
    requires
        only_added(a, b, first),
        only_added(b, c, second),
        forall|e: WorldEvent| first(e) || second(e) ==> #[trigger] both(e),
    ensures
        only_added(a, c, both),
{
    assert forall|i: int| 0 <= i < c.len() implies a.contains(#[trigger] c[i]) || both(c[i]) by {
        if b.contains(c[i]) {
            let k = choose|k: int| 0 <= k < b.len() && b[k] == c[i];
            assert(a.contains(b[k]) || first(b[k]));
        }
    }
}

/// Pushing onto a full log drops exactly the oldest entry and keeps the order of the rest.
pub proof fn lemma_full_log_drops_oldest(log: Seq<WorldEvent>, capacity: int, event: WorldEvent)
    requires
        capacity >= 1,
        log.len() == capacity,
    ensures
        log_after_push(log, capacity, event).len() == capacity,
        log_after_push(log, capacity, event).last() == event,
        forall|i: int|
            0 <= i < capacity - 1 ==> log_after_push(log, capacity, event)[i] == log[i + 1],
{
}

/// Pushing never lets the log outgrow its capacity.
pub proof fn lemma_log_stays_bounded(log: Seq<WorldEvent>, capacity: int, event: WorldEvent)
    requires
        log.len() <= capacity,
    ensures
        log_after_push(log, capacity, event).len() <= capacity,
        log.len() < capacity ==> log_after_push(log, capacity, event) == log.push(event),
{
}

} // verus!
