//! Turns the state of the world into structured events: trade, gatherings, the
//! economic pulse of the tick and the rare catastrophes that cut populations.

use vstd::prelude::*;
use crate::resources::same_fates;
use vstd::string::*;
use rand::rngs::SmallRng;
use crate::components::BehaviorState;
use crate::components::Entity;
use crate::components::entities_wf;
use crate::events::EventActor;
use crate::events::WorldEvent;
use crate::events::WorldEventLog;
use crate::events::log_after_push;
use crate::events::only_added;
use crate::fixed::SCALE;
use crate::fixed::scaled;
use crate::fixed::share;
use crate::localization::behavior_label;
use crate::localization::behavior_label_text;
use crate::localization::faction_label;
use crate::localization::faction_label_text;
use crate::nation::NATION_COUNT;
use crate::resources::AllNationMetrics;
use crate::resources::NationMetrics;
use crate::resources::WorldTime;
use crate::resources::destruction_is_final;
use crate::rng::rng_from_seed;
use crate::rng::rng_range;
use crate::rng::rng_ratio;
use crate::rng::seed;
use crate::text::append_fixed;
use crate::text::contains_text;
use crate::text::fixed_text;
use crate::text::text_contains;
use crate::world::WorldMetadata;

verus! {

/// Which inhabitants an event looks for.
#[derive(Clone, Copy, Debug, PartialEq, Eq, Structural)]
pub enum Casting {
    /// Those who are trading.
    Traders,
    /// Those who are idle or resting.
    Hosts,
}

/// Whether an inhabitant in `state` fits the casting.
pub open spec fn fits(casting: Casting, state: BehaviorState) -> bool {
    match casting {
        Casting::Traders => state == BehaviorState::Trade,
        Casting::Hosts => state == BehaviorState::Idle || state == BehaviorState::Rest,
    }
}

pub fn fits_casting(casting: Casting, state: BehaviorState) -> (r: bool)
    ensures
        r == fits(casting, state),
{
    match casting {
        Casting::Traders => state == BehaviorState::Trade,
        Casting::Hosts => state == BehaviorState::Idle || state == BehaviorState::Rest,
    }
}

/// One step of picking uniformly among candidates as they come: the newcomer
/// replaces the current choice exactly when the draw is zero.
pub open spec fn reservoir_pick(current: Option<usize>, candidate: usize, draw: u64) -> Option<
    usize,
> {
    if draw == 0 {
        Some(candidate)
    } else {
        current
    }
}

pub fn reservoir_step(current: Option<usize>, candidate: usize, draw: u64) -> (r: Option<usize>)
    ensures
        r == reservoir_pick(current, candidate, draw),
{
    if draw == 0 {
        Some(candidate)
    } else {
        current
    }
}

/// Whether any inhabitant fits the casting.
pub open spec fn has_candidate(entities: Seq<Entity>, casting: Casting) -> bool {
    exists|i: int| 0 <= i < entities.len() && fits(casting, (#[trigger] entities[i]).behavior.state)
}

/// Picks one inhabitant that fits the casting, each with the same chance.
///
/// Whatever the draws, someone is picked exactly when someone fits, and the one
/// picked fits.
fn sample_entity(rng: &mut SmallRng, entities: &Vec<Entity>, casting: Casting) -> (r: Option<usize>)
    ensures
        r is Some <==> has_candidate(entities@, casting),
        r is Some ==> r->0 < entities@.len() && fits(casting, entities@[r->0 as int].behavior.state),
{
    let mut choice: Option<usize> = None;
    let mut count: u64 = 0;
    let mut i: usize = 0;
    while i < entities.len()
        invariant
            i <= entities@.len(),
            count <= i,
            choice is Some <==> count > 0,
            count > 0 <==> exists|j: int|
                0 <= j < i && fits(casting, (#[trigger] entities@[j]).behavior.state),
            choice is Some ==> choice->0 < i && fits(
                casting,
                entities@[choice->0 as int].behavior.state,
            ),
        decreases entities@.len() - i,
    {
        if fits_casting(casting, entities[i].behavior.state) {
            count += 1;
            let draw: u64 = rng_range(rng, 0, count);
            choice = reservoir_step(choice, i, draw);
        }
        i += 1;
    }
    choice
}

/// Whether `actor` describes `entity`, labels included.
pub open spec fn describes(actor: EventActor, meta: &WorldMetadata, entity: Entity) -> bool {
    &&& actor.id == entity.identity.id
    &&& actor.name@ == entity.identity.name@
    &&& actor.nation == entity.identity.nation
    &&& actor.faction == entity.identity.faction
    &&& actor.faction_label@ == faction_label_text(entity.identity.faction)
    &&& actor.biome == entity.position.biome
    &&& actor.biome_label@ == meta.biome_of(entity.position.biome).label@
    &&& actor.behavior_hint == entity.behavior.state
    &&& actor.behavior_hint_label@ == behavior_label_text(entity.behavior.state)
}

pub fn event_actor(meta: &WorldMetadata, entity: &Entity) -> (actor: EventActor)
    requires
        meta.wf(),
    ensures
        describes(actor, meta, *entity),
{
    EventActor {
        id: entity.identity.id,
        name: entity.identity.name.clone(),
        nation: entity.identity.nation,
        faction: entity.identity.faction,
        faction_label: String::from_str(faction_label(entity.identity.faction)),
        biome: entity.position.biome,
        biome_label: String::from_str(meta.biome_profile(entity.position.biome).label),
        behavior_hint: entity.behavior.state,
        behavior_hint_label: String::from_str(behavior_label(entity.behavior.state)),
    }
}

/// The entry of a list a draw selects, or a fallback for an empty list.
pub open spec fn chosen_text(list: Seq<&'static str>, index: int, fallback: Seq<char>) -> Seq<char> {
    if 0 <= index < list.len() {
        list[index]@
    } else {
        fallback
    }
}

fn choose_text(list: &Vec<&'static str>, index: usize, fallback: &'static str) -> (r: &'static str)
    ensures
        r@ == chosen_text(list@, index as int, fallback@),
{
    if index < list.len() {
        list[index]
    } else {
        fallback
    }
}

/// What a trade event says about the deal.
pub open spec fn trade_summary_text(
    name: Seq<char>,
    focus: Seq<char>,
    market: Seq<char>,
    currency: int,
) -> Seq<char> {
    name + " brokers "@ + focus + " flow at "@ + market + " (liquidity "@ + fixed_text(currency, 1)
        + ")"@
}

/// Whether `event` is the trade event of `entity` with the drawn focus and pressure.
pub open spec fn is_trade_event(
    event: WorldEvent,
    tick: u64,
    meta: &WorldMetadata,
    entity: Entity,
    focus_index: int,
    pressure_index: int,
) -> bool {
    let biome = meta.biome_of(entity.position.biome);
    let focus = chosen_text(biome.resource_profile@, focus_index, "General Goods"@);
    let pressure = match meta.faction_of(entity.identity.faction) {
        Some(f) => chosen_text(f.influence_vectors@, pressure_index, "Local Demand Index"@),
        None => "Local Demand Index"@,
    };
    &&& event.tick == tick
    &&& event.epoch@ == meta.epochs.segment_at(tick as int).label_text()
    &&& event.season@ == meta.epochs.season_at(tick as int).label_text()
    &&& event.kind is Trade
    &&& describes(event.kind->Trade_actor, meta, entity)
    &&& event.kind->trade_focus@ == trade_summary_text(
        entity.identity.name@,
        focus,
        biome.label@,
        entity.inventory.currency as int,
    )
    &&& event.kind->market_pressure@ == pressure
}

/// The trade event of an inhabitant. An index past the end of a list selects the fallback.
pub fn trade_event(
    tick: u64,
    meta: &WorldMetadata,
    entity: &Entity,
    focus_index: usize,
    pressure_index: usize,
) -> (event: WorldEvent)
    requires
        meta.wf(),
    ensures
        is_trade_event(event, tick, meta, *entity, focus_index as int, pressure_index as int),
{
    let (epoch, season) = meta.epoch_for_tick(tick);
    let biome = meta.biome_profile(entity.position.biome);
    let focus = choose_text(&biome.resource_profile, focus_index, "General Goods");
    let pressure = match meta.faction_profile(entity.identity.faction) {
        Some(f) => choose_text(&f.influence_vectors, pressure_index, "Local Demand Index"),
        None => "Local Demand Index",
    };
    let actor = event_actor(meta, entity);
    let mut summary = String::new();
    summary.append(entity.identity.name.as_str());
    summary.append(" brokers ");
    summary.append(focus);
    summary.append(" flow at ");
    summary.append(biome.label);
    summary.append(" (liquidity ");
    append_fixed(&mut summary, entity.inventory.currency, 1);
    summary.append(")");
    assert(summary@ =~= trade_summary_text(
        entity.identity.name@,
        focus@,
        biome.label@,
        entity.inventory.currency as int,
    ));
    WorldEvent::trade(tick, epoch, season, actor, summary, String::from_str(pressure))
}

/// How a crowd is described, by the fame of its host.
pub open spec fn cohesion_text(fame: int) -> Seq<char> {
    if fame >= 60 * SCALE {
        "Legendary crowd"@
    } else if fame >= 35 * SCALE {
        "Packed hall"@
    } else if fame >= 15 * SCALE {
        "Cozy group"@
    } else {
        "Small circle"@
    }
}

pub fn cohesion_level(fame: i64) -> (r: &'static str)
    ensures
        r@ == cohesion_text(fame as int),
{
    if fame >= 60 * SCALE {
        "Legendary crowd"
    } else if fame >= 35 * SCALE {
        "Packed hall"
    } else if fame >= 15 * SCALE {
        "Cozy group"
    } else {
        "Small circle"
    }
}

/// Whether `event` is the gathering hosted by `entity` on the drawn theme.
pub open spec fn is_social_event(
    event: WorldEvent,
    tick: u64,
    meta: &WorldMetadata,
    entity: Entity,
    theme_index: int,
) -> bool {
    let biome = meta.biome_of(entity.position.biome);
    &&& event.tick == tick
    &&& event.epoch@ == meta.epochs.segment_at(tick as int).label_text()
    &&& event.season@ == meta.epochs.season_at(tick as int).label_text()
    &&& event.kind is Social
    &&& describes(event.kind->convener, meta, entity)
    &&& event.kind->gathering_theme@ == chosen_text(biome.tensions@, theme_index, "Story circle"@)
    &&& event.kind->cohesion_level@ == cohesion_text(entity.attributes.fame as int)
}

/// The gathering an inhabitant hosts. An index past the end of the list selects the fallback.
pub fn social_event(tick: u64, meta: &WorldMetadata, entity: &Entity, theme_index: usize) -> (event:
    WorldEvent)
    requires
        meta.wf(),
    ensures
        is_social_event(event, tick, meta, *entity, theme_index as int),
{
    let (epoch, season) = meta.epoch_for_tick(tick);
    let biome = meta.biome_profile(entity.position.biome);
    let theme = choose_text(&biome.tensions, theme_index, "Story circle");
    let actor = event_actor(meta, entity);
    WorldEvent::social(
        tick,
        epoch,
        season,
        actor,
        String::from_str(theme),
        String::from_str(cohesion_level(entity.attributes.fame)),
    )
}

/// Whether the economic pulse can be told: all three lists have entries.
pub open spec fn has_pulse(meta: &WorldMetadata) -> bool {
    &&& meta.economy.stressors@.len() > 0
    &&& meta.economy.catalysts@.len() > 0
    &&& meta.economy.circulation_cycle@.len() > 0
}

/// The stressor of a tick.
pub open spec fn pulse_stressor(meta: &WorldMetadata, tick: u64) -> Seq<char> {
    meta.economy.stressors@[(tick as int) % (meta.economy.stressors@.len() as int)]@
}

/// The catalyst of a tick.
pub open spec fn pulse_catalyst(meta: &WorldMetadata, tick: u64) -> Seq<char> {
    meta.economy.catalysts@[(tick as int + meta.economy.circulation_cycle@.len()) % (
    meta.economy.catalysts@.len() as int)]@
}

/// The circulation stage of a tick.
pub open spec fn pulse_stage(meta: &WorldMetadata, tick: u64) -> Seq<char> {
    meta.economy.circulation_cycle@[(tick as int + meta.economy.catalysts@.len()) % (
    meta.economy.circulation_cycle@.len() as int)]@
}

/// Whether a stressor brings an epidemic with it.
pub open spec fn is_epidemic(stressor: Seq<char>) -> bool {
    contains_text(stressor, "plague"@) || contains_text(stressor, "disease"@)
}

pub open spec fn pulse_impact_text(stressor: Seq<char>, catalyst: Seq<char>, stage: Seq<char>) -> Seq<
    char,
> {
    stressor + " is pressuring the world | Catalyst: "@ + catalyst + " | Phase "@ + stage
}

/// Whether `event` is the economic pulse of the tick with the given casualties.
pub open spec fn is_pulse_event(
    event: WorldEvent,
    tick: u64,
    meta: &WorldMetadata,
    casualties: Option<u64>,
) -> bool {
    &&& event.tick == tick
    &&& event.epoch@ == meta.epochs.segment_at(tick as int).label_text()
    &&& event.season@ == meta.epochs.season_at(tick as int).label_text()
    &&& event.kind is MacroShock
    &&& event.kind->stressor@ == pulse_stressor(meta, tick)
    &&& event.kind->catalyst@ == pulse_catalyst(meta, tick)
    &&& event.kind->projected_impact@ == pulse_impact_text(
        pulse_stressor(meta, tick),
        pulse_catalyst(meta, tick),
        pulse_stage(meta, tick),
    )
    &&& event.kind->MacroShock_casualties == casualties
}

/// Index of the tick's entry in a list of `len` entries, `shift` places on.
fn cycle_index(tick: u64, shift: usize, len: usize) -> (i: usize)
    requires
        len > 0,
    ensures
        i == (tick as int + shift as int) % (len as int),
        i < len,
{
    (((tick as u128) + (shift as u128)) % (len as u128)) as usize
}

/// The stressor of the tick and whether it brings an epidemic.
pub fn pulse_is_epidemic(meta: &WorldMetadata, tick: u64) -> (r: bool)
    requires
        has_pulse(meta),
    ensures
        r == is_epidemic(pulse_stressor(meta, tick)),
{
    let stressor = meta.economy.stressors[cycle_index(tick, 0, meta.economy.stressors.len())];
    text_contains(stressor, "plague") || text_contains(stressor, "disease")
}

/// The economic pulse of the tick.
pub fn pulse_event(tick: u64, meta: &WorldMetadata, casualties: Option<u64>) -> (event: WorldEvent)
    requires
        meta.wf(),
        has_pulse(meta),
    ensures
        is_pulse_event(event, tick, meta, casualties),
{
    let (epoch, season) = meta.epoch_for_tick(tick);
    let stressors = &meta.economy.stressors;
    let catalysts = &meta.economy.catalysts;
    let circulation = &meta.economy.circulation_cycle;
    let stressor = stressors[cycle_index(tick, 0, stressors.len())];
    let catalyst = catalysts[cycle_index(tick, circulation.len(), catalysts.len())];
    let stage = circulation[cycle_index(tick, catalysts.len(), circulation.len())];
    let mut impact = String::new();
    impact.append(stressor);
    impact.append(" is pressuring the world | Catalyst: ");
    impact.append(catalyst);
    impact.append(" | Phase ");
    impact.append(stage);
    assert(impact@ =~= pulse_impact_text(stressor@, catalyst@, stage@));
    WorldEvent::macro_shock(
        tick,
        epoch,
        season,
        String::from_str(stressor),
        String::from_str(catalyst),
        impact,
        casualties,
    )
}

/// A nation after an epidemic that takes `per_nation` lives from each living nation.
pub open spec fn after_epidemic(m: NationMetrics, per_nation: int) -> NationMetrics {
    m.with_population(
        if per_nation >= m.population {
            0
        } else {
            m.population - per_nation
        },
    )
}

/// Spreads the casualties of an epidemic evenly over the nations.
pub fn apply_epidemic(metrics: &mut AllNationMetrics, total: u64)
    requires
        old(metrics).wf(),
    ensures
        final(metrics).wf(),
        forall|i: int|
            0 <= i < NATION_COUNT ==> #[trigger] final(metrics).0@[i] == after_epidemic(
                old(metrics).0@[i],
                (total / NATION_COUNT as u64) as int,
            ),
{
    let per: u64 = total / (NATION_COUNT as u64);
    let mut i: usize = 0;
    while i < NATION_COUNT
        invariant
            i <= NATION_COUNT,
            metrics.0@.len() == NATION_COUNT,
            per == total / NATION_COUNT as u64,
            forall|j: int| 0 <= j < i ==> #[trigger] metrics.0@[j] == after_epidemic(
                old(metrics).0@[j],
                per as int,
            ),
            forall|j: int| 0 <= j < NATION_COUNT ==> (#[trigger] metrics.0@[j]).wf(),
            forall|j: int| i <= j < NATION_COUNT ==> #[trigger] metrics.0@[j] == old(metrics).0@[j],
        decreases NATION_COUNT - i,
    {
        metrics.0[i].lose_population(per);
        i += 1;
    }
}

/// Lives a die-off of the given severity (in millionths) costs a nation.
pub open spec fn die_off_loss(m: NationMetrics, severity: int) -> int {
    if m.is_destroyed {
        0
    } else {
        scaled(m.population as int, severity, SCALE as int)
    }
}

/// A nation after a die-off: it loses the share `severity` of its people, but a
/// living nation is never left with fewer than `floor`.
pub open spec fn after_die_off(m: NationMetrics, severity: int, floor: int) -> NationMetrics {
    let rest = m.population - die_off_loss(m, severity);
    m.with_population(
        if rest < floor {
            floor
        } else {
            rest
        },
    )
}

/// Lives a die-off costs the first `n` nations together.
pub open spec fn die_off_total(metrics: Seq<NationMetrics>, severity: int, n: int) -> int
    decreases n,
{
    if n <= 0 {
        0
    } else {
        die_off_total(metrics, severity, n - 1) + die_off_loss(metrics[n - 1], severity)
    }
}

/// Cuts every living nation's population by the share `severity` and returns the
/// lives lost.
pub fn die_off(metrics: &mut AllNationMetrics, severity: u64, floor: u64) -> (total: u64)
    requires
        old(metrics).wf(),
        severity <= SCALE,
    ensures
        final(metrics).wf(),
        total == die_off_total(old(metrics).0@, severity as int, NATION_COUNT as int),
        forall|i: int|
            0 <= i < NATION_COUNT ==> #[trigger] final(metrics).0@[i] == after_die_off(
                old(metrics).0@[i],
                severity as int,
                floor as int,
            ),
{
    let mut total: u64 = 0;
    let mut i: usize = 0;
    while i < NATION_COUNT
        invariant
            i <= NATION_COUNT,
            severity <= SCALE,
            metrics.0@.len() == NATION_COUNT,
            total == die_off_total(old(metrics).0@, severity as int, i as int),
            total <= i * crate::resources::POPULATION_MAX,
            old(metrics).wf(),
            forall|j: int| 0 <= j < i ==> #[trigger] metrics.0@[j] == after_die_off(
                old(metrics).0@[j],
                severity as int,
                floor as int,
            ),
            forall|j: int| 0 <= j < NATION_COUNT ==> (#[trigger] metrics.0@[j]).wf(),
            forall|j: int| i <= j < NATION_COUNT ==> #[trigger] metrics.0@[j] == old(metrics).0@[j],
        decreases NATION_COUNT - i,
    {
        if !metrics.0[i].is_destroyed {
            let population: u64 = metrics.0[i].population;
            let loss: u64 = share(population, severity, SCALE as u64);
            let rest: u64 = population - loss;
            total = total + loss;
            metrics.0[i].set_population(if rest < floor {
                floor
            } else {
                rest
            });
        } else {
            assert(metrics.0@[i as int] == after_die_off(
                old(metrics).0@[i as int],
                severity as int,
                floor as int,
            ));
        }
        i += 1;
    }
    total
}

/// What a die-off event says about the crash.
pub open spec fn crash_text(severity: int) -> Seq<char> {
    "Pop crash "@ + fixed_text(severity * 100, 0) + "% | Infrastructure disruption severe"@
}

/// What an omega event says about the crash.
pub open spec fn omega_text(severity: int) -> Seq<char> {
    "Omega event — population crash "@ + fixed_text(severity * 100, 1)
        + "% | infrastructure collapse"@
}

/// The three catastrophes that can end almost all life.
#[derive(Clone, Copy, Debug, PartialEq, Eq, Structural)]
pub enum OmegaKind {
    Meteor,
    GammaBurst,
    Supervolcano,
}

impl OmegaKind {
    pub open spec fn stressor_text(self) -> Seq<char> {
        match self {
            OmegaKind::Meteor => "Planet-killer meteor strike"@,
            OmegaKind::GammaBurst => "Gamma-ray burst exposure"@,
            OmegaKind::Supervolcano => "Supervolcano cascade"@,
        }
    }

    pub open spec fn catalyst_text(self) -> Seq<char> {
        match self {
            OmegaKind::Meteor => "Impact winter + ejecta plume"@,
            OmegaKind::GammaBurst => "Atmospheric stripping / radiation storm"@,
            OmegaKind::Supervolcano => "Ash cloud + famine + climate dive"@,
        }
    }

    /// The severities (in millionths) this catastrophe can have: from `.0` up to but
    /// not including `.1`.
    pub open spec fn severity_range(self) -> (int, int) {
        match self {
            OmegaKind::Meteor => (900_000, 999_000),
            OmegaKind::GammaBurst => (999_000, 999_001),
            OmegaKind::Supervolcano => (700_000, 920_000),
        }
    }

    pub fn stressor(&self) -> (r: &'static str)
        ensures
            r@ == self.stressor_text(),
    {
        match self {
            OmegaKind::Meteor => "Planet-killer meteor strike",
            OmegaKind::GammaBurst => "Gamma-ray burst exposure",
            OmegaKind::Supervolcano => "Supervolcano cascade",
        }
    }

    pub fn catalyst(&self) -> (r: &'static str)
        ensures
            r@ == self.catalyst_text(),
    {
        match self {
            OmegaKind::Meteor => "Impact winter + ejecta plume",
            OmegaKind::GammaBurst => "Atmospheric stripping / radiation storm",
            OmegaKind::Supervolcano => "Ash cloud + famine + climate dive",
        }
    }

    pub fn severity_bounds(&self) -> (r: (u64, u64))
        ensures
            r.0 == self.severity_range().0,
            r.1 == self.severity_range().1,
            r.0 < r.1 <= SCALE,
    {
        match self {
            OmegaKind::Meteor => (900_000, 999_000),
            OmegaKind::GammaBurst => (999_000, 999_001),
            OmegaKind::Supervolcano => (700_000, 920_000),
        }
    }

    /// The catastrophe a roll of 0, 1 or anything else stands for.
    pub fn from_roll(roll: u64) -> (k: OmegaKind)
        ensures
            k == if roll == 0 {
                OmegaKind::Meteor
            } else if roll == 1 {
                OmegaKind::GammaBurst
            } else {
                OmegaKind::Supervolcano
            },
    {
        if roll == 0 {
            OmegaKind::Meteor
        } else if roll == 1 {
            OmegaKind::GammaBurst
        } else {
            OmegaKind::Supervolcano
        }
    }
}

/// Whether `event` reports a global die-off of the given severity and toll.
pub open spec fn is_die_off_event(
    event: WorldEvent,
    tick: u64,
    meta: &WorldMetadata,
    severity: int,
    pandemic: bool,
    total: u64,
) -> bool {
    &&& event.tick == tick
    &&& event.epoch@ == meta.epochs.segment_at(tick as int).label_text()
    &&& event.season@ == meta.epochs.season_at(tick as int).label_text()
    &&& event.kind is MacroShock
    &&& event.kind->stressor@ == "Global die-off"@
    &&& event.kind->catalyst@ == if pandemic {
        "Mutating pandemic sweeps megacities"@
    } else {
        "Cascade disaster chain (quake/tsunami/famine)"@
    }
    &&& event.kind->projected_impact@ == crash_text(severity)
    &&& event.kind->MacroShock_casualties == Some(total)
}

pub fn die_off_event(tick: u64, meta: &WorldMetadata, severity: u64, pandemic: bool, total: u64) -> (event:
    WorldEvent)
    requires
        meta.wf(),
        severity <= SCALE,
    ensures
        is_die_off_event(event, tick, meta, severity as int, pandemic, total),
{
    let (epoch, season) = meta.epoch_for_tick(tick);
    let catalyst = if pandemic {
        "Mutating pandemic sweeps megacities"
    } else {
        "Cascade disaster chain (quake/tsunami/famine)"
    };
    let mut impact = String::from_str("Pop crash ");
    append_fixed(&mut impact, (severity * 100) as i64, 0);
    impact.append("% | Infrastructure disruption severe");
    assert(impact@ =~= crash_text(severity as int));
    WorldEvent::macro_shock(
        tick,
        epoch,
        season,
        String::from_str("Global die-off"),
        String::from_str(catalyst),
        impact,
        Some(total),
    )
}

/// Whether `event` reports an omega catastrophe of the given kind, severity and toll.
pub open spec fn is_omega_event(
    event: WorldEvent,
    tick: u64,
    meta: &WorldMetadata,
    kind: OmegaKind,
    severity: int,
    total: u64,
) -> bool {
    &&& event.tick == tick
    &&& event.epoch@ == meta.epochs.segment_at(tick as int).label_text()
    &&& event.season@ == meta.epochs.season_at(tick as int).label_text()
    &&& event.kind is MacroShock
    &&& event.kind->stressor@ == kind.stressor_text()
    &&& event.kind->catalyst@ == kind.catalyst_text()
    &&& event.kind->projected_impact@ == omega_text(severity)
    &&& event.kind->MacroShock_casualties == Some(total)
}

pub fn omega_event(tick: u64, meta: &WorldMetadata, kind: OmegaKind, severity: u64, total: u64) -> (event:
    WorldEvent)
    requires
        meta.wf(),
        severity <= SCALE,
    ensures
        is_omega_event(event, tick, meta, kind, severity as int, total),
{
    let (epoch, season) = meta.epoch_for_tick(tick);
    let mut impact = String::from_str("Omega event — population crash ");
    append_fixed(&mut impact, (severity * 100) as i64, 1);
    impact.append("% | infrastructure collapse");
    assert(impact@ =~= omega_text(severity as int));
    WorldEvent::macro_shock(
        tick,
        epoch,
        season,
        String::from_str(kind.stressor()),
        String::from_str(kind.catalyst()),
        impact,
        Some(total),
    )
}

/// Whether only head counts changed between two states of the nations and every
/// nation is still well formed.
pub open spec fn only_population_changed(before: Seq<NationMetrics>, after: Seq<NationMetrics>) -> bool {
    &&& before.len() == after.len()
    &&& forall|i: int|
        0 <= i < before.len() ==> (#[trigger] after[i]).wf() && before[i].same_but_people(after[i])
}

/// Whether an event is one of those a tick generates: a trade, a gathering or a shock.
pub open spec fn is_tick_news(e: WorldEvent, tick: u64) -> bool {
    e.tick == tick && (e.kind is Trade || e.kind is Social || e.kind is MacroShock)
}

/// Changes of head counts in two steps are changes of head counts.
pub proof fn lemma_population_changes_chain(
    a: Seq<NationMetrics>,
    b: Seq<NationMetrics>,
    c: Seq<NationMetrics>,
)
    requires
        only_population_changed(a, b),
        only_population_changed(b, c),
    ensures
        only_population_changed(a, c),
        same_fates(a, c),
        destruction_is_final(a, c),
{
    assert forall|i: int| 0 <= i < a.len() implies (#[trigger] c[i]).wf() && a[i].same_but_people(
        c[i],
    ) by {
        assert(b[i].wf() && a[i].same_but_people(b[i]));
        assert(b[i].same_but_people(c[i]));
    }
    assert forall|i: int| 0 <= i < a.len() implies (#[trigger] c[i]).is_destroyed
        == a[i].is_destroyed by {
        assert(a[i].same_but_people(c[i]));
    }
}

/// Nothing changed is only head counts changed.
pub proof fn lemma_population_unchanged(a: Seq<NationMetrics>)
    requires
        forall|i: int| 0 <= i < a.len() ==> (#[trigger] a[i]).wf(),
    ensures
        only_population_changed(a, a),
{
}

/// Whether a draw selects an entry of a list that has any.
pub open spec fn picks_from(len: int, index: int) -> bool {
    len > 0 ==> 0 <= index < len
}

/// Whether `after` is the log `before` with the trade event `e` about the inhabitant
/// at position `i`, a trader, with a focus and a pressure from its biome's and its
/// faction's lists.
pub open spec fn is_trade_report(
    before: Seq<WorldEvent>,
    after: Seq<WorldEvent>,
    capacity: int,
    e: WorldEvent,
    tick: u64,
    meta: &WorldMetadata,
    entities: Seq<Entity>,
    i: int,
    focus: int,
    pressure: int,
) -> bool {
    &&& 0 <= i < entities.len()
    &&& fits(Casting::Traders, entities[i].behavior.state)
    &&& picks_from(
        meta.biome_of(entities[i].position.biome).resource_profile@.len() as int,
        focus,
    )
    &&& meta.faction_of(entities[i].identity.faction) is Some ==> picks_from(
        meta.faction_of(entities[i].identity.faction)->0.influence_vectors@.len() as int,
        pressure,
    )
    &&& is_trade_event(e, tick, meta, entities[i], focus, pressure)
    &&& after == log_after_push(before, capacity, e)
}

/// Whether the log has taken the trade event of the tick: one event about one of
/// the traders if anyone trades, and nothing otherwise.
pub open spec fn trade_reported(
    before: Seq<WorldEvent>,
    after: Seq<WorldEvent>,
    capacity: int,
    tick: u64,
    meta: &WorldMetadata,
    entities: Seq<Entity>,
) -> bool {
    if has_candidate(entities, Casting::Traders) {
        exists|e: WorldEvent, i: int, focus: int, pressure: int| #[trigger]
            is_trade_report(before, after, capacity, e, tick, meta, entities, i, focus, pressure)
    } else {
        after == before
    }
}

/// Whether `after` is the log `before` with the gathering `e` hosted by the
/// inhabitant at position `i`, who idles or rests, on a theme from its biome's list.
pub open spec fn is_gathering_report(
    before: Seq<WorldEvent>,
    after: Seq<WorldEvent>,
    capacity: int,
    e: WorldEvent,
    tick: u64,
    meta: &WorldMetadata,
    entities: Seq<Entity>,
    i: int,
    theme: int,
) -> bool {
    &&& 0 <= i < entities.len()
    &&& fits(Casting::Hosts, entities[i].behavior.state)
    &&& picks_from(meta.biome_of(entities[i].position.biome).tensions@.len() as int, theme)
    &&& is_social_event(e, tick, meta, entities[i], theme)
    &&& after == log_after_push(before, capacity, e)
}

/// Whether the log has taken the gathering of the tick: one event about one of
/// those who idle or rest if there is anyone, and nothing otherwise.
pub open spec fn gathering_reported(
    before: Seq<WorldEvent>,
    after: Seq<WorldEvent>,
    capacity: int,
    tick: u64,
    meta: &WorldMetadata,
    entities: Seq<Entity>,
) -> bool {
    if has_candidate(entities, Casting::Hosts) {
        exists|e: WorldEvent, i: int, theme: int| #[trigger]
            is_gathering_report(before, after, capacity, e, tick, meta, entities, i, theme)
    } else {
        after == before
    }
}

/// Whether log and nations are what the pulse `e` with the toll `toll` makes of
/// them: an epidemic, and only an epidemic, takes a toll of 50,000 up to 750,000
/// lives, spread evenly over the nations.
pub open spec fn is_pulse_report(
    before: Seq<WorldEvent>,
    after: Seq<WorldEvent>,
    capacity: int,
    e: WorldEvent,
    toll: Option<u64>,
    tick: u64,
    meta: &WorldMetadata,
    nations: Seq<NationMetrics>,
    nations_after: Seq<NationMetrics>,
) -> bool {
    &&& is_pulse_event(e, tick, meta, toll)
    &&& after == log_after_push(before, capacity, e)
    &&& toll is Some <==> is_epidemic(pulse_stressor(meta, tick))
    &&& match toll {
        Some(total) => {
            &&& 50_000 <= total < 750_000
            &&& nations_after.len() == NATION_COUNT
            &&& forall|n: int|
                0 <= n < NATION_COUNT ==> #[trigger] nations_after[n] == after_epidemic(
                    nations[n],
                    (total / NATION_COUNT as u64) as int,
                )
        },
        None => nations_after == nations,
    }
}

/// Whether log and nations have taken the economic pulse of the tick: one event
/// where the pulse can be told, and nothing otherwise.
pub open spec fn pulse_reported(
    before: Seq<WorldEvent>,
    after: Seq<WorldEvent>,
    capacity: int,
    tick: u64,
    meta: &WorldMetadata,
    nations: Seq<NationMetrics>,
    nations_after: Seq<NationMetrics>,
) -> bool {
    if has_pulse(meta) {
        exists|e: WorldEvent, toll: Option<u64>| #[trigger]
            is_pulse_report(before, after, capacity, e, toll, tick, meta, nations, nations_after)
    } else {
        after == before && nations_after == nations
    }
}

/// Whether log and nations are what a die-off of the given severity makes of them:
/// every living nation loses that share of its people down to a remnant of
/// `floor`, and the event reports the lives lost.
pub open spec fn is_crash_report(
    before: Seq<WorldEvent>,
    after: Seq<WorldEvent>,
    capacity: int,
    e: WorldEvent,
    severity: u64,
    floor: u64,
    nations: Seq<NationMetrics>,
    nations_after: Seq<NationMetrics>,
) -> bool {
    &&& after == log_after_push(before, capacity, e)
    &&& e.kind is MacroShock
    &&& e.kind->MacroShock_casualties == Some(
        die_off_total(nations, severity as int, NATION_COUNT as int) as u64,
    )
    &&& nations_after.len() == NATION_COUNT
    &&& forall|n: int|
        0 <= n < NATION_COUNT ==> #[trigger] nations_after[n] == after_die_off(
            nations[n],
            severity as int,
            floor as int,
        )
}

/// Whether log and nations are what the global die-off `e` makes of them: a
/// severity of 12 up to 35 percent and a remnant of 10,000.
pub open spec fn is_die_off_report(
    before: Seq<WorldEvent>,
    after: Seq<WorldEvent>,
    capacity: int,
    e: WorldEvent,
    severity: u64,
    pandemic: bool,
    tick: u64,
    meta: &WorldMetadata,
    nations: Seq<NationMetrics>,
    nations_after: Seq<NationMetrics>,
) -> bool {
    &&& 120_000 <= severity < 350_000
    &&& is_die_off_event(
        e,
        tick,
        meta,
        severity as int,
        pandemic,
        die_off_total(nations, severity as int, NATION_COUNT as int) as u64,
    )
    &&& is_crash_report(before, after, capacity, e, severity, 10_000, nations, nations_after)
}

/// Whether log and nations have taken what the tick brings of global die-offs:
/// nothing, or one die-off.
pub open spec fn die_off_reported(
    before: Seq<WorldEvent>,
    after: Seq<WorldEvent>,
    capacity: int,
    tick: u64,
    meta: &WorldMetadata,
    nations: Seq<NationMetrics>,
    nations_after: Seq<NationMetrics>,
) -> bool {
    ||| after == before && nations_after == nations
    ||| exists|e: WorldEvent, severity: u64, pandemic: bool| #[trigger]
        is_die_off_report(
            before,
            after,
            capacity,
            e,
            severity,
            pandemic,
            tick,
            meta,
            nations,
            nations_after,
        )
}

/// Whether log and nations are what the omega catastrophe `e` makes of them: a
/// severity from the range of its kind and a remnant of 1,000.
pub open spec fn is_omega_report(
    before: Seq<WorldEvent>,
    after: Seq<WorldEvent>,
    capacity: int,
    e: WorldEvent,
    kind: OmegaKind,
    severity: u64,
    tick: u64,
    meta: &WorldMetadata,
    nations: Seq<NationMetrics>,
    nations_after: Seq<NationMetrics>,
) -> bool {
    &&& kind.severity_range().0 <= severity < kind.severity_range().1
    &&& is_omega_event(
        e,
        tick,
        meta,
        kind,
        severity as int,
        die_off_total(nations, severity as int, NATION_COUNT as int) as u64,
    )
    &&& is_crash_report(before, after, capacity, e, severity, 1_000, nations, nations_after)
}

/// Whether log and nations have taken what the tick brings of omega catastrophes:
/// nothing, or one catastrophe.
pub open spec fn omega_reported(
    before: Seq<WorldEvent>,
    after: Seq<WorldEvent>,
    capacity: int,
    tick: u64,
    meta: &WorldMetadata,
    nations: Seq<NationMetrics>,
    nations_after: Seq<NationMetrics>,
) -> bool {
    ||| after == before && nations_after == nations
    ||| exists|e: WorldEvent, kind: OmegaKind, severity: u64| #[trigger]
        is_omega_report(
            before,
            after,
            capacity,
            e,
            kind,
            severity,
            tick,
            meta,
            nations,
            nations_after,
        )
}

/// Logs the trade of the tick: if anyone trades, one trader is picked and with it
/// a focus from its biome's resources and a pressure from its faction's means.
fn report_trade(
    rng: &mut SmallRng,
    tick: u64,
    world_meta: &WorldMetadata,
    event_log: &mut WorldEventLog,
    entities: &Vec<Entity>,
    Ghost(before): Ghost<Seq<WorldEvent>>,
)
    requires
        world_meta.wf(),
        old(event_log).wf(),
        only_added(before, old(event_log)@, |e: WorldEvent| is_tick_news(e, tick)),
    ensures
        final(event_log).wf(),
        final(event_log).capacity_of() == old(event_log).capacity_of(),
        only_added(before, final(event_log)@, |e: WorldEvent| is_tick_news(e, tick)),
        trade_reported(
            old(event_log)@,
            final(event_log)@,
            old(event_log).capacity_of(),
            tick,
            world_meta,
            entities@,
        ),
{
    match sample_entity(rng, entities, Casting::Traders) {
        Some(i) => {
            let entity = &entities[i];
            let biome = world_meta.biome_profile(entity.position.biome);
            let focus_index: usize = if biome.resource_profile.len() > 0 {
                rng_range(rng, 0, biome.resource_profile.len() as u64) as usize
            } else {
                0
            };
            let pressure_index: usize = match world_meta.faction_profile(entity.identity.faction) {
                Some(f) => if f.influence_vectors.len() > 0 {
                    rng_range(rng, 0, f.influence_vectors.len() as u64) as usize
                } else {
                    0
                },
                None => 0,
            };
            let event = trade_event(tick, world_meta, entity, focus_index, pressure_index);
            event_log.record(event, Ghost(before), Ghost(|e: WorldEvent| is_tick_news(e, tick)));
            assert(is_trade_report(
                old(event_log)@,
                event_log@,
                old(event_log).capacity_of(),
                event,
                tick,
                world_meta,
                entities@,
                i as int,
                focus_index as int,
                pressure_index as int,
            ));
        },
        None => {},
    }
}

/// Logs the gathering of the tick: if anyone idles or rests, one of them is picked
/// as host and with it a theme from the tensions of its biome.
fn report_gathering(
    rng: &mut SmallRng,
    tick: u64,
    world_meta: &WorldMetadata,
    event_log: &mut WorldEventLog,
    entities: &Vec<Entity>,
    Ghost(before): Ghost<Seq<WorldEvent>>,
)
    requires
        world_meta.wf(),
        old(event_log).wf(),
        only_added(before, old(event_log)@, |e: WorldEvent| is_tick_news(e, tick)),
    ensures
        final(event_log).wf(),
        final(event_log).capacity_of() == old(event_log).capacity_of(),
        only_added(before, final(event_log)@, |e: WorldEvent| is_tick_news(e, tick)),
        gathering_reported(
            old(event_log)@,
            final(event_log)@,
            old(event_log).capacity_of(),
            tick,
            world_meta,
            entities@,
        ),
{
    match sample_entity(rng, entities, Casting::Hosts) {
        Some(i) => {
            let entity = &entities[i];
            let biome = world_meta.biome_profile(entity.position.biome);
            let theme_index: usize = if biome.tensions.len() > 0 {
                rng_range(rng, 0, biome.tensions.len() as u64) as usize
            } else {
                0
            };
            let event = social_event(tick, world_meta, entity, theme_index);
            event_log.record(event, Ghost(before), Ghost(|e: WorldEvent| is_tick_news(e, tick)));
            assert(is_gathering_report(
                old(event_log)@,
                event_log@,
                old(event_log).capacity_of(),
                event,
                tick,
                world_meta,
                entities@,
                i as int,
                theme_index as int,
            ));
        },
        None => {},
    }
}

/// Logs the economic pulse of the tick where it can be told; a stressor that
/// brings an epidemic takes its toll first.
fn report_pulse(
    rng: &mut SmallRng,
    tick: u64,
    world_meta: &WorldMetadata,
    event_log: &mut WorldEventLog,
    all_metrics: &mut AllNationMetrics,
    Ghost(before): Ghost<Seq<WorldEvent>>,
)
    requires
        world_meta.wf(),
        old(event_log).wf(),
        old(all_metrics).wf(),
        only_added(before, old(event_log)@, |e: WorldEvent| is_tick_news(e, tick)),
    ensures
        final(event_log).wf(),
        final(event_log).capacity_of() == old(event_log).capacity_of(),
        only_added(before, final(event_log)@, |e: WorldEvent| is_tick_news(e, tick)),
        final(all_metrics).wf(),
        only_population_changed(old(all_metrics).0@, final(all_metrics).0@),
        pulse_reported(
            old(event_log)@,
            final(event_log)@,
            old(event_log).capacity_of(),
            tick,
            world_meta,
            old(all_metrics).0@,
            final(all_metrics).0@,
        ),
{
    if world_meta.economy.stressors.len() > 0 && world_meta.economy.catalysts.len() > 0
        && world_meta.economy.circulation_cycle.len() > 0 {
        let casualties: Option<u64> = if pulse_is_epidemic(world_meta, tick) {
            Some(rng_range(rng, 50_000, 750_000))
        } else {
            None
        };
        match casualties {
            Some(total) => {
                apply_epidemic(all_metrics, total);
            },
            None => {},
        }
        let event = pulse_event(tick, world_meta, casualties);
        event_log.record(event, Ghost(before), Ghost(|e: WorldEvent| is_tick_news(e, tick)));
        assert(is_pulse_report(
            old(event_log)@,
            event_log@,
            old(event_log).capacity_of(),
            event,
            casualties,
            tick,
            world_meta,
            old(all_metrics).0@,
            all_metrics.0@,
        ));
    }
}

/// With a chance of one in twenty, lets a global die-off of 12 up to 35 percent
/// sweep the nations and logs it.
fn report_die_off(
    rng: &mut SmallRng,
    tick: u64,
    world_meta: &WorldMetadata,
    event_log: &mut WorldEventLog,
    all_metrics: &mut AllNationMetrics,
    Ghost(before): Ghost<Seq<WorldEvent>>,
)
    requires
        world_meta.wf(),
        old(event_log).wf(),
        old(all_metrics).wf(),
        only_added(before, old(event_log)@, |e: WorldEvent| is_tick_news(e, tick)),
    ensures
        final(event_log).wf(),
        final(event_log).capacity_of() == old(event_log).capacity_of(),
        only_added(before, final(event_log)@, |e: WorldEvent| is_tick_news(e, tick)),
        final(all_metrics).wf(),
        only_population_changed(old(all_metrics).0@, final(all_metrics).0@),
        die_off_reported(
            old(event_log)@,
            final(event_log)@,
            old(event_log).capacity_of(),
            tick,
            world_meta,
            old(all_metrics).0@,
            final(all_metrics).0@,
        ),
{
    if rng_ratio(rng, 5, 100) {
        let severity: u64 = rng_range(rng, 120_000, 350_000);
        let total: u64 = die_off(all_metrics, severity, 10_000);
        let pandemic: bool = rng_ratio(rng, 1, 2);
        let event = die_off_event(tick, world_meta, severity, pandemic, total);
        event_log.record(event, Ghost(before), Ghost(|e: WorldEvent| is_tick_news(e, tick)));
        assert(is_die_off_report(
            old(event_log)@,
            event_log@,
            old(event_log).capacity_of(),
            event,
            severity,
            pandemic,
            tick,
            world_meta,
            old(all_metrics).0@,
            all_metrics.0@,
        ));
    }
}

/// With a chance of one in a hundred, lets an omega catastrophe strike the
/// nations and logs it.
fn report_omega(
    rng: &mut SmallRng,
    tick: u64,
    world_meta: &WorldMetadata,
    event_log: &mut WorldEventLog,
    all_metrics: &mut AllNationMetrics,
    Ghost(before): Ghost<Seq<WorldEvent>>,
)
    requires
        world_meta.wf(),
        old(event_log).wf(),
        old(all_metrics).wf(),
        only_added(before, old(event_log)@, |e: WorldEvent| is_tick_news(e, tick)),
    ensures
        final(event_log).wf(),
        final(event_log).capacity_of() == old(event_log).capacity_of(),
        only_added(before, final(event_log)@, |e: WorldEvent| is_tick_news(e, tick)),
        final(all_metrics).wf(),
        only_population_changed(old(all_metrics).0@, final(all_metrics).0@),
        omega_reported(
            old(event_log)@,
            final(event_log)@,
            old(event_log).capacity_of(),
            tick,
            world_meta,
            old(all_metrics).0@,
            final(all_metrics).0@,
        ),
{
    if rng_ratio(rng, 1, 100) {
        let kind = OmegaKind::from_roll(rng_range(rng, 0, 3));
        let (lo, hi) = kind.severity_bounds();
        let severity: u64 = rng_range(rng, lo, hi);
        let total: u64 = die_off(all_metrics, severity, 1_000);
        let event = omega_event(tick, world_meta, kind, severity, total);
        event_log.record(event, Ghost(before), Ghost(|e: WorldEvent| is_tick_news(e, tick)));
        assert(is_omega_report(
            old(event_log)@,
            event_log@,
            old(event_log).capacity_of(),
            event,
            kind,
            severity,
            tick,
            world_meta,
            old(all_metrics).0@,
            all_metrics.0@,
        ));
    }
}

/// Whether log and nations are what the five steps of event generation make of
/// them in turn, `logs` and `nations` holding what stands between the steps:
/// the trade, the gathering, the pulse, the die-off and the omega catastrophe.
pub open spec fn is_generation(
    before: Seq<WorldEvent>,
    after: Seq<WorldEvent>,
    capacity: int,
    tick: u64,
    meta: &WorldMetadata,
    entities: Seq<Entity>,
    nations: Seq<NationMetrics>,
    nations_after: Seq<NationMetrics>,
    logs: (Seq<WorldEvent>, Seq<WorldEvent>, Seq<WorldEvent>, Seq<WorldEvent>),
    between: (Seq<NationMetrics>, Seq<NationMetrics>),
) -> bool {
    &&& trade_reported(before, logs.0, capacity, tick, meta, entities)
    &&& gathering_reported(logs.0, logs.1, capacity, tick, meta, entities)
    &&& pulse_reported(logs.1, logs.2, capacity, tick, meta, nations, between.0)
    &&& die_off_reported(logs.2, logs.3, capacity, tick, meta, between.0, between.1)
    &&& omega_reported(logs.3, after, capacity, tick, meta, between.1, nations_after)
}

/// Whether log and nations are what a tick of event generation makes of them.
pub open spec fn generated(
    before: Seq<WorldEvent>,
    after: Seq<WorldEvent>,
    capacity: int,
    tick: u64,
    meta: &WorldMetadata,
    entities: Seq<Entity>,
    nations: Seq<NationMetrics>,
    nations_after: Seq<NationMetrics>,
) -> bool {
    exists|
        logs: (Seq<WorldEvent>, Seq<WorldEvent>, Seq<WorldEvent>, Seq<WorldEvent>),
        between: (Seq<NationMetrics>, Seq<NationMetrics>),
    | #[trigger]
        is_generation(
            before,
            after,
            capacity,
            tick,
            meta,
            entities,
            nations,
            nations_after,
            logs,
            between,
        )
}

/// Generates the events of a tick, in this order.
///
/// One trade event if anyone trades and one gathering if anyone is idle or resting,
/// each about an inhabitant picked at random; the economic pulse of the tick, with
/// the toll of an epidemic where the stressor brings one; with a chance of one in
/// twenty a global die-off of 12 to 35 percent; and with a chance of one in a
/// hundred an omega catastrophe. Who is picked, how severe a catastrophe is and
/// whether it happens is up to the draws. Whatever they are, only head counts
/// change, no nation is destroyed or revived, and the log stays within its
/// capacity.
#[verifier::rlimit(50)]
pub fn event_generation_system(
    time: &WorldTime,
    world_meta: &WorldMetadata,
    event_log: &mut WorldEventLog,
    all_metrics: &mut AllNationMetrics,
    entities: &Vec<Entity>,
)
    requires
        world_meta.wf(),
        old(event_log).wf(),
        old(all_metrics).wf(),
        entities_wf(entities@),
    ensures
        final(event_log).wf(),
        final(event_log).capacity_of() == old(event_log).capacity_of(),
        only_added(old(event_log)@, final(event_log)@, |e: WorldEvent| is_tick_news(e, time.tick)),
        final(all_metrics).wf(),
        only_population_changed(old(all_metrics).0@, final(all_metrics).0@),
        destruction_is_final(old(all_metrics).0@, final(all_metrics).0@),
        same_fates(old(all_metrics).0@, final(all_metrics).0@),
        generated(
            old(event_log)@,
            final(event_log)@,
            old(event_log).capacity_of(),
            time.tick,
            world_meta,
            entities@,
            old(all_metrics).0@,
            final(all_metrics).0@,
        ),
{
    let tick: u64 = time.tick;
    let mut rng = rng_from_seed(seed(tick, 421, 17, 1));
    let ghost before = event_log@;
    let ghost m0 = all_metrics.0@;
    report_trade(&mut rng, tick, world_meta, event_log, entities, Ghost(before));
    let ghost l1 = event_log@;
    report_gathering(&mut rng, tick, world_meta, event_log, entities, Ghost(before));
    let ghost l2 = event_log@;
    report_pulse(&mut rng, tick, world_meta, event_log, all_metrics, Ghost(before));
    let ghost m1 = all_metrics.0@;
    let ghost l3 = event_log@;
    report_die_off(&mut rng, tick, world_meta, event_log, all_metrics, Ghost(before));
    let ghost m2 = all_metrics.0@;
    let ghost l4 = event_log@;
    report_omega(&mut rng, tick, world_meta, event_log, all_metrics, Ghost(before));
    proof {
        lemma_population_changes_chain(m0, m1, m2);
        lemma_population_changes_chain(m0, m2, all_metrics.0@);
        assert(is_generation(
            before,
            event_log@,
            old(event_log).capacity_of(),
            tick,
            world_meta,
            entities@,
            m0,
            all_metrics.0@,
            (l1, l2, l3, l4),
            (m1, m2),
        ));
    }
}

} // verus!
