//! The world and its tick: every system in its fixed order, then a fresh snapshot.

use vstd::prelude::*;
use vstd::string::*;
use crate::blocs::WorldBlocs;
use crate::components::Entity;
use crate::components::entities_wf;
use crate::events::WorldEvent;
use crate::events::WorldEventLog;
use crate::events::lemma_nothing_added;
use crate::events::lemma_only_added_chain;
use crate::events::only_added;
use crate::grid::HexGrid;
use crate::grid::MAX_GRID_RADIUS;
use crate::history::HISTORY_CAP;
use crate::history::push_bounded;
use crate::nation::NATION_COUNT;
use crate::nuclear::NuclearBlasts;
use crate::nuclear::nuclear_decay_system;
use crate::observer::ObserverSnapshot;
use crate::observer::combat_hexes;
use crate::observer::diplomatic_snapshot;
use crate::observer::entity_snapshots;
use crate::observer::grid_snapshot;
use crate::observer::overlay_snapshot;
use crate::observer::race_snapshot;
use crate::observer::seasonal_effect_for;
use crate::observer::world_totals;
use crate::resources::AllNationCivState;
use crate::resources::AllNationMetrics;
use crate::resources::CivilizationalCycles;
use crate::resources::CivilizationalLedger;
use crate::resources::ClimateState;
use crate::resources::CosmicTimeline;
use crate::resources::DiplomaticRelations;
use crate::resources::IdeologyMatrix;
use crate::resources::NationCivState;
use crate::resources::NationMetrics;
use crate::resources::ScienceVictory;
use crate::resources::SimulationConfig;
use crate::resources::SupplyState;
use crate::resources::TIMESCALE_MAX;
use crate::resources::WarFatigue;
use crate::resources::WorldRichness;
use crate::resources::WorldTime;
use crate::resources::destroyed_are_empty;
use crate::resources::destruction_is_final;
use crate::resources::same_fates;
use crate::seeding::seed_entities;
use crate::steps::WorldState;
use crate::steps::blasts_decayed;
use crate::steps::blocs_kept;
use crate::steps::civics_ran;
use crate::steps::climate_ran;
use crate::steps::climate_weighed;
use crate::steps::coasts_flooded;
use crate::steps::combat_cleaned;
use crate::steps::cosmic_time_passed;
use crate::steps::counted;
use crate::steps::cycles_turned;
use crate::steps::diplomacy_ran;
use crate::steps::economy_ran;
use crate::steps::extinction_checked;
use crate::steps::fatigue_felt;
use crate::steps::first_chain;
use crate::steps::happenings_reported;
use crate::steps::ideology_drifted;
use crate::steps::inhabitants_decided;
use crate::steps::is_tick;
use crate::steps::lemma_first_chain;
use crate::steps::lemma_second_chain;
use crate::steps::missions_taken;
use crate::steps::peace_recovered;
use crate::steps::people_aged;
use crate::steps::race_ran;
use crate::steps::research_ran;
use crate::steps::richness_measured;
use crate::steps::season_acted;
use crate::steps::second_chain;
use crate::steps::security_weighed;
use crate::steps::snapshot_refreshed;
use crate::steps::supplies_delivered;
use crate::steps::territory_shared;
use crate::steps::ticked;
use crate::steps::wars_fought;
use crate::seeding::seed_grid;
use crate::systems::ai::ai_state_transition_system;
use crate::systems::blocs::bloc_system;
use crate::systems::civilization::civilization_system;
use crate::systems::climate::climate_system;
use crate::systems::cosmic::cosmic_time_system;
use crate::systems::cosmic::extinction_system;
use crate::systems::cycles::cycle_system;
use crate::systems::demography::demography_system;
use crate::systems::diplomacy::diplomacy_system;
use crate::systems::economy::economy_system;
use crate::systems::environment::climate_impact_system;
use crate::systems::environment::environment_system;
use crate::systems::environment::richness_overlay_system;
use crate::systems::event_generation::event_generation_system;
use crate::systems::flood::flood_system;
use crate::systems::ideology::ideology_system;
use crate::systems::missions::mission_system;
use crate::systems::peace::peace_recovery_system;
use crate::systems::security::security_system;
use crate::systems::supply::supply_chain_system;
use crate::systems::technology::technology_system;
use crate::systems::territory::territory_system;
use crate::systems::victory::race_moved_forward;
use crate::systems::victory::science_victory_system;
use crate::systems::warfare::combat_cleanup_system;
use crate::systems::warfare::warfare_system;
use crate::systems::warfatigue::war_fatigue_system;
use crate::world::WorldMetadata;

verus! {

/// Why a configuration was turned down.
#[derive(Clone, Copy, Debug, PartialEq, Eq, Structural)]
pub enum ConfigError {
    /// The tick duration is zero.
    InvalidTickDuration,
    /// The grid radius is not between one and the largest radius.
    InvalidGridRadius,
    /// The years per tick are not between one and the largest timescale.
    InvalidTimescale,
}

impl ConfigError {
    pub open spec fn message_text(self) -> Seq<char> {
        match self {
            ConfigError::InvalidTickDuration => "tick duration must be at least one millisecond"@,
            ConfigError::InvalidGridRadius => "grid radius must be between 1 and 512"@,
            ConfigError::InvalidTimescale => "years per tick must be between 1 and 1,000,000,000,000"@,
        }
    }

    /// What is wrong, in words.
    pub fn message(&self) -> (r: &'static str)
        ensures
            r@ == self.message_text(),
    {
        match self {
            ConfigError::InvalidTickDuration => "tick duration must be at least one millisecond",
            ConfigError::InvalidGridRadius => "grid radius must be between 1 and 512",
            ConfigError::InvalidTimescale => "years per tick must be between 1 and 1,000,000,000,000",
        }
    }
}

/// What is wrong with a configuration, if anything: the first of tick duration,
/// grid radius and timescale that is out of range.
pub open spec fn config_fault(config: SimulationConfig) -> Option<ConfigError> {
    if config.tick_duration_ms == 0 {
        Some(ConfigError::InvalidTickDuration)
    } else if config.grid_radius < 1 || config.grid_radius > MAX_GRID_RADIUS {
        Some(ConfigError::InvalidGridRadius)
    } else if config.years_per_tick < 1 || config.years_per_tick > TIMESCALE_MAX {
        Some(ConfigError::InvalidTimescale)
    } else {
        None
    }
}

/// Checks a configuration.
pub fn validate_config(config: &SimulationConfig) -> (r: Result<(), ConfigError>)
    ensures
        r is Ok <==> config_fault(*config) is None,
        r is Err ==> Some(r->Err_0) == config_fault(*config),
{
    if config.tick_duration_ms == 0 {
        Err(ConfigError::InvalidTickDuration)
    } else if config.grid_radius < 1 || config.grid_radius > MAX_GRID_RADIUS {
        Err(ConfigError::InvalidGridRadius)
    } else if config.years_per_tick < 1 || config.years_per_tick > TIMESCALE_MAX {
        Err(ConfigError::InvalidTimescale)
    } else {
        Ok(())
    }
}

/// The whole state of a world.
pub struct SimulationWorld {
    config: SimulationConfig,
    time: WorldTime,
    metadata: WorldMetadata,
    metrics: AllNationMetrics,
    civ_state: AllNationCivState,
    blasts: NuclearBlasts,
    war_fatigue: WarFatigue,
    richness: WorldRichness,
    climate: ClimateState,
    blocs: WorldBlocs,
    event_log: WorldEventLog,
    science_victory: ScienceVictory,
    ideology: IdeologyMatrix,
    diplomacy: DiplomaticRelations,
    cycles: CivilizationalCycles,
    supply: SupplyState,
    cosmic: CosmicTimeline,
    ledger: CivilizationalLedger,
    entities: Vec<Entity>,
    grid: HexGrid,
    snapshot: ObserverSnapshot,
}

/// A world whose nations are alive stays consistent when their fates do not change.
pub proof fn lemma_fates_keep_empty(
    before: Seq<NationMetrics>,
    after: Seq<NationMetrics>,
    civ: Seq<NationCivState>,
)
    requires
        same_fates(before, after),
        destroyed_are_empty(before, civ),
        forall|i: int| 0 <= i < after.len() ==> (#[trigger] after[i]).wf(),
    ensures
        destroyed_are_empty(after, civ),
        destruction_is_final(before, after),
{
    assert forall|i: int| 0 <= i < after.len() && (#[trigger] after[i]).is_destroyed implies after[i].population
        == 0 && civ[i].cities == 0 by {
        assert(before[i].is_destroyed);
    }
}

/// What has been final stays final over any number of steps.
pub proof fn lemma_final_is_transitive(
    a: Seq<NationMetrics>,
    b: Seq<NationMetrics>,
    c: Seq<NationMetrics>,
)
    requires
        destruction_is_final(a, b),
        destruction_is_final(b, c),
    ensures
        destruction_is_final(a, c),
{
    assert forall|i: int| 0 <= i < a.len() && (#[trigger] a[i]).is_destroyed implies c[i].is_destroyed by {
        assert(b[i].is_destroyed);
    }
}

/// Whether an event carries a tick.
pub open spec fn is_news_of(e: WorldEvent, tick: u64) -> bool {
    e.tick == tick
}

/// Events of a tick added to events of that tick are events of that tick.
pub proof fn lemma_news_accumulates(
    start: Seq<WorldEvent>,
    middle: Seq<WorldEvent>,
    end: Seq<WorldEvent>,
    fresh: spec_fn(WorldEvent) -> bool,
    tick: u64,
)
    requires
        only_added(start, middle, |e: WorldEvent| is_news_of(e, tick)),
        only_added(middle, end, fresh),
        forall|e: WorldEvent| #[trigger] fresh(e) ==> e.tick == tick,
    ensures
        only_added(start, end, |e: WorldEvent| is_news_of(e, tick)),
{
    lemma_only_added_chain(
        start,
        middle,
        end,
        |e: WorldEvent| is_news_of(e, tick),
        fresh,
        |e: WorldEvent| is_news_of(e, tick),
    );
}

impl View for SimulationWorld {
    type V = WorldState;

    closed spec fn view(&self) -> WorldState {
        WorldState {
            config: self.config,
            time: self.time,
            metadata: self.metadata,
            metrics: self.metrics,
            civ_state: self.civ_state,
            blasts: self.blasts,
            war_fatigue: self.war_fatigue,
            richness: self.richness,
            climate: self.climate,
            blocs: self.blocs,
            event_log: self.event_log,
            science_victory: self.science_victory,
            ideology: self.ideology,
            diplomacy: self.diplomacy,
            cycles: self.cycles,
            supply: self.supply,
            cosmic: self.cosmic,
            ledger: self.ledger,
            entities: self.entities,
            grid: self.grid,
            snapshot: self.snapshot,
        }
    }
}

impl SimulationWorld {
    /// Whether every part of the world is well formed and every destroyed nation
    /// is empty.
    pub closed spec fn wf(&self) -> bool {
        &&& config_fault(self.config) is None
        &&& self.metadata.wf()
        &&& self.metrics.wf()
        &&& self.civ_state.wf()
        &&& self.blasts.wf()
        &&& self.war_fatigue.wf()
        &&& self.richness.wf()
        &&& self.climate.wf()
        &&& self.blocs.wf()
        &&& self.event_log.wf()
        &&& self.science_victory.wf()
        &&& self.ideology.wf()
        &&& self.diplomacy.wf()
        &&& self.cycles.wf()
        &&& self.supply.wf()
        &&& self.cosmic.wf()
        &&& self.ledger.wf()
        &&& entities_wf(self.entities@)
        &&& self.grid.wf()
        &&& destroyed_are_empty(self.metrics.0@, self.civ_state.0@)
    }

    pub open spec fn tick_of(&self) -> u64 {
        self@.time.tick
    }

    pub open spec fn config_of(&self) -> SimulationConfig {
        self@.config
    }

    pub open spec fn metrics_of(&self) -> AllNationMetrics {
        self@.metrics
    }

    pub open spec fn civ_of(&self) -> AllNationCivState {
        self@.civ_state
    }

    pub open spec fn grid_of(&self) -> HexGrid {
        self@.grid
    }

    pub open spec fn race_of(&self) -> ScienceVictory {
        self@.science_victory
    }

    pub open spec fn log_of(&self) -> WorldEventLog {
        self@.event_log
    }

    pub open spec fn cosmic_of(&self) -> CosmicTimeline {
        self@.cosmic
    }

    pub open spec fn climate_of(&self) -> ClimateState {
        self@.climate
    }

    pub open spec fn diplomacy_of(&self) -> DiplomaticRelations {
        self@.diplomacy
    }

    pub open spec fn entities_of(&self) -> Seq<Entity> {
        self@.entities@
    }

    pub open spec fn snapshot_of(&self) -> ObserverSnapshot {
        self@.snapshot
    }

    pub open spec fn metadata_of(&self) -> WorldMetadata {
        self@.metadata
    }

    pub open spec fn blasts_of(&self) -> NuclearBlasts {
        self@.blasts
    }

    pub open spec fn war_fatigue_of(&self) -> WarFatigue {
        self@.war_fatigue
    }

    pub open spec fn richness_of(&self) -> WorldRichness {
        self@.richness
    }

    pub open spec fn blocs_of(&self) -> WorldBlocs {
        self@.blocs
    }

    pub open spec fn ideology_of(&self) -> IdeologyMatrix {
        self@.ideology
    }

    pub open spec fn cycles_of(&self) -> CivilizationalCycles {
        self@.cycles
    }

    pub open spec fn supply_of(&self) -> SupplyState {
        self@.supply
    }

    pub open spec fn ledger_of(&self) -> CivilizationalLedger {
        self@.ledger
    }

    /// Builds a world from a configuration, or says what is wrong with it.
    ///
    /// A new world stands at tick zero with five nations at their starting
    /// metrics, the standard metadata, a seeded map and the four founders; the
    /// race, the relations, the climate and the ledgers stand at their start.
    pub fn new(config: SimulationConfig) -> (r: Result<SimulationWorld, ConfigError>)
        ensures
            r is Ok <==> config_fault(config) is None,
            r is Err ==> Some(r->Err_0) == config_fault(config),
            r is Ok ==> {
                let w = r->Ok_0;
                &&& w.wf()
                &&& w.tick_of() == 0
                &&& w.config_of() == config
                &&& forall|i: int|
                    0 <= i < NATION_COUNT ==> (#[trigger] w.metrics_of().0@[i]).is_initial()
                &&& forall|i: int|
                    0 <= i < NATION_COUNT ==> (#[trigger] w.civ_of().0@[i]).is_initial()
                &&& w.grid_of().radius == config.grid_radius
                &&& w.cosmic_of().timescale_years_per_tick == config.years_per_tick
                &&& w.cosmic_of().cosmic_age_years == 0
                &&& w.race_of().phase_of() == crate::resources::RacePhase::Moon
                &&& w.race_of().is_initial()
                &&& w.cosmic_of().extinction_events == 0
                &&& w.diplomacy_of().alliances@.len() == 0
                &&& w.diplomacy_of().sanctions@.len() == 0
                &&& forall|i: int|
                    0 <= i < crate::resources::RELATION_SLOTS ==> w.diplomacy_of().relations@[i]
                        == 10 * crate::fixed::SCALE
                &&& forall|i: int|
                    0 <= i < NATION_COUNT ==> w.diplomacy_of().trust@[i] == 40 * crate::fixed::SCALE
                        && w.diplomacy_of().fear@[i] == 35 * crate::fixed::SCALE
                &&& w.war_fatigue_of().intensity == 0
                &&& w.richness_of().richness == 0
                &&& w.climate_of().carbon_ppm == 320 * crate::fixed::SCALE
                &&& w.climate_of().climate_risk == 6 * crate::fixed::SCALE
                &&& w.climate_of().biodiversity == 85 * crate::fixed::SCALE
                &&& w.blocs_of().research_pact is None
                &&& w.blocs_of().sanction is None
                &&& w.blocs_of().defense_treaty is None
                &&& w.ledger_of().population_history@.len() == 0
                &&& w.ledger_of().gdp_history@.len() == 0
                &&& w.blasts_of().radius == config.grid_radius
                &&& w.log_of()@.len() == 0
                &&& w.metadata_of().is_standard()
                &&& crate::seeding::are_founders(w.entities_of(), &w.metadata_of())
                &&& crate::seeding::carry_their_goods(w.entities_of())
                &&& forall|c: crate::grid::AxialCoord| #[trigger]
                    w.grid_of().tile_at(c) == crate::seeding::seeded_tile(
                        config.grid_radius as int,
                        c,
                    )
                &&& w.snapshot_of().tick == 0
            },
    {
        match validate_config(&config) {
            Err(e) => {
                return Err(e);
            },
            Ok(_) => {},
        }
        let metadata = WorldMetadata::standard();
        let mut cosmic = CosmicTimeline::default();
        cosmic.timescale_years_per_tick = config.years_per_tick;
        let entities = seed_entities(&metadata);
        let grid = seed_grid(config.grid_radius);
        let world = SimulationWorld {
            config,
            time: WorldTime::default(),
            metadata,
            metrics: AllNationMetrics::default(),
            civ_state: AllNationCivState::default(),
            blasts: NuclearBlasts::new(config.grid_radius),
            war_fatigue: WarFatigue::default(),
            richness: WorldRichness::default(),
            climate: ClimateState::default(),
            blocs: WorldBlocs::default(),
            event_log: WorldEventLog::default(),
            science_victory: ScienceVictory::default(),
            ideology: IdeologyMatrix::default(),
            diplomacy: DiplomaticRelations::default(),
            cycles: CivilizationalCycles::default(),
            supply: SupplyState::default(),
            cosmic,
            ledger: CivilizationalLedger::default(),
            entities,
            grid,
            snapshot: ObserverSnapshot::new(),
        };
        Ok(world)
    }

    /// The tick the world stands at.
    pub fn current_tick(&self) -> (t: u64)
        ensures
            t == self.tick_of(),
    {
        self.time.tick
    }

    pub fn config(&self) -> (r: &SimulationConfig)
        ensures
            *r == self.config_of(),
    {
        &self.config
    }

    pub fn metrics(&self) -> (r: &AllNationMetrics)
        requires
            self.wf(),
        ensures
            *r == self.metrics_of(),
            r.wf(),
    {
        &self.metrics
    }

    pub fn civ_state(&self) -> (r: &AllNationCivState)
        requires
            self.wf(),
        ensures
            *r == self.civ_of(),
            r.wf(),
            destroyed_are_empty(self.metrics_of().0@, r.0@),
    {
        &self.civ_state
    }

    pub fn grid(&self) -> (r: &HexGrid)
        requires
            self.wf(),
        ensures
            *r == self.grid_of(),
            r.wf(),
    {
        &self.grid
    }

    pub fn science_victory(&self) -> (r: &ScienceVictory)
        requires
            self.wf(),
        ensures
            *r == self.race_of(),
            r.wf(),
    {
        &self.science_victory
    }

    pub fn event_log(&self) -> (r: &WorldEventLog)
        requires
            self.wf(),
        ensures
            *r == self.log_of(),
            r.wf(),
    {
        &self.event_log
    }

    pub fn cosmic(&self) -> (r: &CosmicTimeline)
        requires
            self.wf(),
        ensures
            *r == self.cosmic_of(),
            r.wf(),
    {
        &self.cosmic
    }

    pub fn climate(&self) -> (r: &ClimateState)
        requires
            self.wf(),
        ensures
            *r == self.climate_of(),
            r.wf(),
    {
        &self.climate
    }

    pub fn diplomacy(&self) -> (r: &DiplomaticRelations)
        requires
            self.wf(),
        ensures
            *r == self.diplomacy_of(),
            r.wf(),
    {
        &self.diplomacy
    }

    pub fn entities(&self) -> (r: &Vec<Entity>)
        requires
            self.wf(),
        ensures
            r@ == self.entities_of(),
            entities_wf(r@),
    {
        &self.entities
    }

    pub fn metadata(&self) -> (r: &WorldMetadata)
        requires
            self.wf(),
        ensures
            *r == self.metadata_of(),
            r.wf(),
    {
        &self.metadata
    }

    pub fn blasts(&self) -> (r: &NuclearBlasts)
        requires
            self.wf(),
        ensures
            *r == self.blasts_of(),
            r.wf(),
    {
        &self.blasts
    }

    pub fn war_fatigue(&self) -> (r: &WarFatigue)
        requires
            self.wf(),
        ensures
            *r == self.war_fatigue_of(),
            r.wf(),
    {
        &self.war_fatigue
    }

    pub fn richness(&self) -> (r: &WorldRichness)
        requires
            self.wf(),
        ensures
            *r == self.richness_of(),
            r.wf(),
    {
        &self.richness
    }

    pub fn blocs(&self) -> (r: &WorldBlocs)
        requires
            self.wf(),
        ensures
            *r == self.blocs_of(),
            r.wf(),
    {
        &self.blocs
    }

    pub fn ideology(&self) -> (r: &IdeologyMatrix)
        requires
            self.wf(),
        ensures
            *r == self.ideology_of(),
            r.wf(),
    {
        &self.ideology
    }

    pub fn cycles(&self) -> (r: &CivilizationalCycles)
        requires
            self.wf(),
        ensures
            *r == self.cycles_of(),
            r.wf(),
    {
        &self.cycles
    }

    pub fn supply(&self) -> (r: &SupplyState)
        requires
            self.wf(),
        ensures
            *r == self.supply_of(),
            r.wf(),
    {
        &self.supply
    }

    pub fn ledger(&self) -> (r: &CivilizationalLedger)
        requires
            self.wf(),
        ensures
            *r == self.ledger_of(),
            r.wf(),
    {
        &self.ledger
    }

    /// The snapshot published after the latest tick.
    pub fn observer(&self) -> (r: &ObserverSnapshot)
        ensures
            *r == self.snapshot_of(),
    {
        &self.snapshot
    }

    /// Whether the world can take another tick: the tick counter has room.
    pub fn can_tick(&self) -> (r: bool)
        ensures
            r == (self.tick_of() < u64::MAX),
    {
        self.time.tick < u64::MAX
    }

    /// Changes how many years a tick stands for; values out of range are brought
    /// to the nearest end of the range. Nothing else changes.
    pub fn set_timescale(&mut self, years_per_tick: u64)
        requires
            old(self).wf(),
        ensures
            final(self).wf(),
            final(self).cosmic_of().timescale_years_per_tick == if years_per_tick < 1 {
                1
            } else if years_per_tick > TIMESCALE_MAX {
                TIMESCALE_MAX
            } else {
                years_per_tick
            },
            final(self).cosmic_of().cosmic_age_years == old(self).cosmic_of().cosmic_age_years,
            final(self).tick_of() == old(self).tick_of(),
            final(self).metrics_of() == old(self).metrics_of(),
            final(self).civ_of() == old(self).civ_of(),
            final(self).grid_of() == old(self).grid_of(),
            final(self).race_of() == old(self).race_of(),
            final(self).log_of() == old(self).log_of(),
    {
        self.cosmic.timescale_years_per_tick = if years_per_tick < 1 {
            1
        } else if years_per_tick > TIMESCALE_MAX {
            TIMESCALE_MAX
        } else {
            years_per_tick
        };
    }

    /// The first chain of systems, from cosmic time to peace recovery: each system
    /// works on what the one before it left.
    #[verifier::rlimit(50)]
    fn phase_one(&mut self)
        requires
            old(self).wf(),
        ensures
            final(self).wf(),
            final(self).time == old(self).time,
            final(self).config == old(self).config,
            destruction_is_final(old(self).metrics.0@, final(self).metrics.0@),
            final(self).grid.same_land(&old(self).grid),
            race_moved_forward(&old(self).science_victory, &final(self).science_victory),
            final(self).event_log.capacity_of() == old(self).event_log.capacity_of(),
            final(self).cosmic.timescale_years_per_tick == old(self).cosmic.timescale_years_per_tick,
            final(self).cosmic.cosmic_age_years >= old(self).cosmic.cosmic_age_years,
            final(self).cosmic.extinction_events == old(self).cosmic.extinction_events,
            final(self).diplomacy == old(self).diplomacy,
            only_added(
                old(self).event_log@,
                final(self).event_log@,
                |e: WorldEvent| is_news_of(e, old(self).time.tick),
            ),
            final(self).cosmic.cosmic_age_years == crate::systems::cosmic::age_after(
                old(self).cosmic.cosmic_age_years,
                old(self).cosmic.timescale_years_per_tick,
            ),
            final(self).ledger == old(self).ledger,
            first_chain(old(self)@, final(self)@),
    {
        let ghost tick = self.time.tick;
        let ghost log0 = self.event_log@;
        let ghost w0 = self@;
        proof {
            lemma_nothing_added(log0, |e: WorldEvent| is_news_of(e, tick));
        }
        cosmic_time_system(&mut self.cosmic, &self.time, &self.metadata, &mut self.event_log);
        let ghost w1 = self@;
        assert(cosmic_time_passed(w0, w1));
        let ghost log1 = self.event_log@;
        proof {
            lemma_news_accumulates(
                log0,
                log0,
                log1,
                |e: WorldEvent| crate::systems::cosmic::is_cosmic_news(e, tick),
                tick,
            );
        }
        ai_state_transition_system(
            &mut self.entities,
            &self.metadata,
            &self.time,
            &self.science_victory,
        );
        let ghost w2 = self@;
        assert(inhabitants_decided(w1, w2));
        combat_cleanup_system(&mut self.grid);
        let ghost w3 = self@;
        assert(combat_cleaned(w2, w3));
        let ghost m0 = self.metrics.0@;
        economy_system(
            &mut self.entities,
            &mut self.metrics,
            &self.blocs,
            &self.metadata,
            &self.time,
        );
        let ghost w4 = self@;
        assert(economy_ran(w3, w4));
        proof {
            lemma_fates_keep_empty(m0, self.metrics.0@, self.civ_state.0@);
        }
        environment_system(&mut self.metrics, &mut self.civ_state, &self.time, &self.metadata);
        let ghost w5 = self@;
        assert(season_acted(w4, w5));
        civilization_system(&mut self.civ_state, &mut self.metrics, &self.time);
        let ghost w6 = self@;
        assert(civics_ran(w5, w6));
        let ghost m1 = self.metrics.0@;
        technology_system(&mut self.metrics, &self.metadata, &mut self.event_log, &self.time);
        let ghost w7 = self@;
        assert(research_ran(w6, w7));
        let ghost log2 = self.event_log@;
        proof {
            lemma_fates_keep_empty(m1, self.metrics.0@, self.civ_state.0@);
            lemma_news_accumulates(
                log0,
                log1,
                log2,
                |e: WorldEvent| crate::systems::technology::is_era_news(e, tick),
                tick,
            );
        }
        let ghost m2 = self.metrics.0@;
        warfare_system(
            &mut self.metrics,
            &mut self.civ_state,
            &mut self.blasts,
            &self.time,
            &mut self.event_log,
            &self.metadata,
            &self.science_victory,
            &mut self.grid,
        );
        let ghost w8 = self@;
        assert(wars_fought(w7, w8));
        let ghost m3 = self.metrics.0@;
        let ghost log3 = self.event_log@;
        proof {
            lemma_news_accumulates(
                log0,
                log2,
                log3,
                |e: WorldEvent| crate::systems::warfare::is_war_news(e, tick),
                tick,
            );
        }
        science_victory_system(
            &mut self.science_victory,
            &self.metrics,
            &self.blocs,
            &mut self.event_log,
            &self.time,
            &self.metadata,
        );
        let ghost w9 = self@;
        assert(race_ran(w8, w9));
        let ghost log4 = self.event_log@;
        proof {
            lemma_news_accumulates(
                log0,
                log3,
                log4,
                |e: WorldEvent| crate::systems::victory::is_race_news(e, tick),
                tick,
            );
        }
        climate_system(
            &mut self.climate,
            &self.richness,
            &self.blasts,
            &self.war_fatigue,
            &self.cosmic,
            &self.time,
            &mut self.event_log,
        );
        proof {
            lemma_news_accumulates(
                log0,
                log4,
                self.event_log@,
                |e: WorldEvent| crate::systems::climate::is_climate_news(e, tick),
                tick,
            );
        }
        let ghost w10 = self@;
        assert(climate_ran(w9, w10));
        nuclear_decay_system(&mut self.blasts);
        let ghost w11 = self@;
        assert(blasts_decayed(w10, w11));
        peace_recovery_system(&mut self.metrics, &self.war_fatigue, &self.science_victory);
        proof {
            lemma_fates_keep_empty(m3, self.metrics.0@, self.civ_state.0@);
            assert(same_fates(old(self).metrics.0@, m2));
            assert(destruction_is_final(old(self).metrics.0@, m2));
            lemma_final_is_transitive(old(self).metrics.0@, m2, m3);
            lemma_final_is_transitive(old(self).metrics.0@, m3, self.metrics.0@);
            assert(peace_recovered(w11, self@));
            lemma_first_chain(w0, w1, w2, w3, w4, w5, w6, w7, w8, w9, w10, w11, self@);
        }
    }

    /// The second chain of systems, from the richness overlay to diplomacy, and
    /// the extinction check that follows it.
    #[verifier::rlimit(50)]
    fn phase_two(&mut self)
        requires
            old(self).wf(),
        ensures
            final(self).wf(),
            final(self).time == old(self).time,
            final(self).config == old(self).config,
            same_fates(old(self).metrics.0@, final(self).metrics.0@),
            final(self).grid.same_land(&old(self).grid),
            final(self).science_victory == old(self).science_victory,
            final(self).event_log.capacity_of() == old(self).event_log.capacity_of(),
            final(self).cosmic.timescale_years_per_tick == old(self).cosmic.timescale_years_per_tick,
            final(self).cosmic.cosmic_age_years == old(self).cosmic.cosmic_age_years,
            crate::systems::diplomacy::extends(old(self).diplomacy.alliances@, final(self).diplomacy.alliances@),
            crate::systems::diplomacy::extends(old(self).diplomacy.sanctions@, final(self).diplomacy.sanctions@),
            crate::systems::diplomacy::treaties_follow(&final(self).diplomacy),
            only_added(
                old(self).event_log@,
                final(self).event_log@,
                |e: WorldEvent| is_news_of(e, old(self).time.tick),
            ),
            final(self).ledger == old(self).ledger,
            second_chain(old(self)@, final(self)@),
    {
        let ghost tick = self.time.tick;
        let ghost log0 = self.event_log@;
        let ghost w0 = self@;
        proof {
            lemma_nothing_added(log0, |e: WorldEvent| is_news_of(e, tick));
        }
        richness_overlay_system(&mut self.richness, &self.metrics);
        let ghost w1 = self@;
        assert(richness_measured(w0, w1));
        climate_impact_system(&self.climate, &mut self.metrics, &mut self.civ_state);
        let ghost w2 = self@;
        assert(climate_weighed(w1, w2));
        flood_system(&self.climate, &mut self.grid);
        let ghost w3 = self@;
        assert(coasts_flooded(w2, w3));
        supply_chain_system(&mut self.supply, &self.metrics, &self.climate, &self.richness);
        let ghost w4 = self@;
        assert(supplies_delivered(w3, w4));
        bloc_system(&mut self.blocs, &self.metrics, &self.war_fatigue, &self.climate, &self.time);
        let ghost w5 = self@;
        assert(blocs_kept(w4, w5));
        let ghost m0 = self.metrics.0@;
        war_fatigue_system(
            &mut self.war_fatigue,
            &mut self.blasts,
            &self.event_log,
            &mut self.metrics,
        );
        let ghost w6 = self@;
        assert(fatigue_felt(w5, w6));
        proof {
            lemma_fates_keep_empty(m0, self.metrics.0@, self.civ_state.0@);
        }
        territory_system(&self.metrics, &mut self.grid);
        let ghost w7 = self@;
        assert(territory_shared(w6, w7));
        cycle_system(&mut self.cycles, &mut self.metrics, &mut self.civ_state, &self.time);
        let ghost w8 = self@;
        assert(cycles_turned(w7, w8));
        let ghost m1 = self.metrics.0@;
        security_system(&self.diplomacy, &mut self.metrics, &self.war_fatigue, &mut self.ideology);
        let ghost w9 = self@;
        assert(security_weighed(w8, w9));
        proof {
            lemma_fates_keep_empty(m1, self.metrics.0@, self.civ_state.0@);
        }
        let ghost m2 = self.metrics.0@;
        demography_system(&mut self.metrics, &self.climate, &self.time);
        let ghost w10 = self@;
        assert(people_aged(w9, w10));
        proof {
            lemma_fates_keep_empty(m2, self.metrics.0@, self.civ_state.0@);
        }
        let ghost m3 = self.metrics.0@;
        event_generation_system(
            &self.time,
            &self.metadata,
            &mut self.event_log,
            &mut self.metrics,
            &self.entities,
        );
        let ghost w11 = self@;
        assert(happenings_reported(w10, w11));
        let ghost log1 = self.event_log@;
        proof {
            lemma_fates_keep_empty(m3, self.metrics.0@, self.civ_state.0@);
            lemma_news_accumulates(
                log0,
                log0,
                log1,
                |e: WorldEvent| crate::systems::event_generation::is_tick_news(e, tick),
                tick,
            );
        }
        ideology_system(&mut self.ideology, &self.metrics, &self.time, &mut self.event_log);
        let ghost w12 = self@;
        assert(ideology_drifted(w11, w12));
        let ghost log2 = self.event_log@;
        proof {
            lemma_news_accumulates(
                log0,
                log1,
                log2,
                |e: WorldEvent| crate::systems::ideology::is_unrest_news(e, tick),
                tick,
            );
        }
        mission_system(&mut self.entities, &self.time, &mut self.event_log);
        let ghost w13 = self@;
        assert(missions_taken(w12, w13));
        let ghost log3 = self.event_log@;
        proof {
            lemma_news_accumulates(
                log0,
                log2,
                log3,
                |e: WorldEvent| crate::systems::missions::is_mission_news(e, tick),
                tick,
            );
        }
        diplomacy_system(&mut self.diplomacy, &self.metrics, &self.time, &mut self.event_log);
        let ghost w14 = self@;
        assert(diplomacy_ran(w13, w14));
        let ghost log4 = self.event_log@;
        proof {
            lemma_news_accumulates(
                log0,
                log3,
                log4,
                |e: WorldEvent| crate::systems::diplomacy::is_treaty_news(e, tick),
                tick,
            );
        }
        extinction_system(
            &mut self.cosmic,
            &mut self.climate,
            &mut self.richness,
            &mut self.metrics,
            &mut self.civ_state,
            &mut self.war_fatigue,
            &mut self.event_log,
            &self.time,
            &self.metadata,
        );
        proof {
            assert(extinction_checked(w14, self@));
            lemma_second_chain(
                w0,
                w1,
                w2,
                w3,
                w4,
                w5,
                w6,
                w7,
                w8,
                w9,
                w10,
                w11,
                w12,
                w13,
                w14,
                self@,
            );
        }
        proof {
            lemma_news_accumulates(
                log0,
                log4,
                self.event_log@,
                |e: WorldEvent| crate::systems::cosmic::is_cosmic_news(e, tick),
                tick,
            );
        }
    }

    /// Records the world totals and rebuilds the observer snapshot.
    fn refresh_observer_snapshot(&mut self)
        requires
            old(self).wf(),
        ensures
            final(self).wf(),
            final(self).time == old(self).time,
            final(self).config == old(self).config,
            final(self).metrics == old(self).metrics,
            final(self).civ_state == old(self).civ_state,
            final(self).grid == old(self).grid,
            final(self).science_victory == old(self).science_victory,
            final(self).event_log == old(self).event_log,
            final(self).cosmic == old(self).cosmic,
            final(self).climate == old(self).climate,
            final(self).diplomacy == old(self).diplomacy,
            final(self).entities == old(self).entities,
            shows_world(&final(self).snapshot, final(self)@),
            snapshot_refreshed(old(self)@, final(self)@),
    {
        let tick: u64 = self.time.tick;
        let (people, economy) = world_totals(&self.metrics);
        push_bounded(&mut self.ledger.population_history, people, HISTORY_CAP);
        push_bounded(&mut self.ledger.gdp_history, economy, HISTORY_CAP);
        let (segment, season) = self.metadata.cadence_for_tick(tick);
        let civ = AllNationCivState(crate::history::copy_of(&self.civ_state.0));
        self.snapshot.update(
            tick,
            String::from_str(segment.label()),
            String::from_str(season.label()),
            self.cosmic.cosmic_age_years,
            self.cosmic.timescale_years_per_tick,
            String::from_str(self.cosmic.geologic_stage.label()),
            self.cosmic.extinction_events,
            seasonal_effect_for(season, tick),
            &self.metrics,
            civ,
            grid_snapshot(&self.grid),
            overlay_snapshot(
                &self.war_fatigue,
                &self.blasts,
                &self.richness,
                &self.climate,
                &self.ideology,
            ),
            diplomatic_snapshot(&self.diplomacy),
            race_snapshot(&self.science_victory, &self.climate, &self.ledger),
            entity_snapshots(&self.metadata, &self.entities),
            self.event_log.snapshot(),
            combat_hexes(&self.grid),
            self.blasts.marked(),
        );
    }

    /// Advances the world by one tick: the tick counter, then every system once
    /// in its fixed order, each on what the one before it left, then the living
    /// totals into the ledger and the snapshot.
    ///
    /// Whatever chance brings: the head count of every nation is the sum of its
    /// age groups; a destroyed nation stays destroyed, without people or cities;
    /// the map keeps exactly its land hexes, each with one owner; the event log
    /// stays within its capacity; the race only moves forward, no progress
    /// figure exceeding its goal and no goal moving; treaties once signed stay,
    /// no pair listed twice; the cosmos ages by the timescale.
    ///
    /// The counter must have room for one more tick.
    #[verifier::rlimit(50)]
    pub fn tick(&mut self)
        requires
            old(self).wf(),
            old(self).tick_of() < u64::MAX,
        ensures
            final(self).wf(),
            final(self).tick_of() == old(self).tick_of() + 1,
            final(self).config_of() == old(self).config_of(),
            final(self).metrics_of().wf(),
            destruction_is_final(old(self).metrics_of().0@, final(self).metrics_of().0@),
            destroyed_are_empty(final(self).metrics_of().0@, final(self).civ_of().0@),
            final(self).grid_of().wf(),
            final(self).grid_of().same_land(&old(self).grid_of()),
            final(self).log_of().wf(),
            final(self).log_of().capacity_of() == old(self).log_of().capacity_of(),
            final(self).race_of().wf(),
            race_moved_forward(&old(self).race_of(), &final(self).race_of()),
            crate::systems::diplomacy::extends(
                old(self).diplomacy_of().alliances@,
                final(self).diplomacy_of().alliances@,
            ),
            crate::systems::diplomacy::extends(
                old(self).diplomacy_of().sanctions@,
                final(self).diplomacy_of().sanctions@,
            ),
            crate::systems::diplomacy::treaties_follow(&final(self).diplomacy_of()),
            final(self).cosmic_of().cosmic_age_years >= old(self).cosmic_of().cosmic_age_years,
            only_added(
                old(self).log_of()@,
                final(self).log_of()@,
                |e: WorldEvent| is_news_of(e, final(self).tick_of()),
            ),
            shows_world(&final(self).snapshot_of(), final(self)@),
            final(self).cosmic_of().cosmic_age_years == crate::systems::cosmic::age_after(
                old(self).cosmic_of().cosmic_age_years,
                old(self).cosmic_of().timescale_years_per_tick,
            ),
            final(self).cosmic_of().timescale_years_per_tick == old(
                self,
            ).cosmic_of().timescale_years_per_tick,
            final(self).ledger_of().population_history@ == crate::history::pushed_bounded(
                old(self).ledger_of().population_history@,
                crate::observer::living_population(
                    final(self).metrics_of().0@,
                    NATION_COUNT as int,
                ) as u64,
                HISTORY_CAP as int,
            ),
            final(self).ledger_of().gdp_history@ == crate::history::pushed_bounded(
                old(self).ledger_of().gdp_history@,
                crate::observer::living_economy(final(self).metrics_of().0@, NATION_COUNT as int) as i64,
                HISTORY_CAP as int,
            ),
            ticked(old(self)@, final(self)@),
    {
        self.time.tick = self.time.tick + 1;
        assert(self@ == counted(old(self)@));
        let ghost start = self.metrics.0@;
        let ghost tick = self.time.tick;
        let ghost log0 = self.event_log@;
        self.phase_one();
        let ghost first = self@;
        let ghost middle = self.metrics.0@;
        let ghost log1 = self.event_log@;
        self.phase_two();
        proof {
            assert(destruction_is_final(middle, self.metrics.0@));
            lemma_final_is_transitive(start, middle, self.metrics.0@);
            lemma_news_accumulates(
                log0,
                log1,
                self.event_log@,
                |e: WorldEvent| is_news_of(e, tick),
                tick,
            );
        }
        let ghost second = self@;
        self.refresh_observer_snapshot();
        assert(is_tick(old(self)@, self@, first, second));
    }
}

/// Whether a snapshot shows a world as it is.
pub open spec fn shows_world(s: &ObserverSnapshot, w: WorldState) -> bool {
    &&& s.tick == w.time.tick
    &&& s.epoch@ == w.metadata.epochs.segment_at(w.time.tick as int).label_text()
    &&& s.season@ == w.metadata.epochs.season_at(w.time.tick as int).label_text()
    &&& s.cosmic_age_years == w.cosmic.cosmic_age_years
    &&& s.timescale_years_per_tick == w.cosmic.timescale_years_per_tick
    &&& s.geologic_stage@ == w.cosmic.geologic_stage.label_text()
    &&& s.extinction_events == w.cosmic.extinction_events
    &&& s.season_effect.label@ == crate::observer::season_effect_label(
        w.metadata.epochs.season_at(w.time.tick as int),
    )
    &&& (
        s.season_effect.temperature as int,
        s.season_effect.morale_shift as int,
        s.season_effect.yield_shift as int,
        s.season_effect.risk_shift as int,
    ) == crate::observer::season_effect_figures(
        w.metadata.epochs.season_at(w.time.tick as int),
        w.time.tick,
    )
    &&& w.metrics.same_as(&s.all_metrics)
    &&& s.civ_state.0@ == w.civ_state.0@
    &&& crate::observer::shows_grid(&s.grid, &w.grid)
    &&& crate::observer::shows_overlay(
        &s.overlay,
        &w.war_fatigue,
        &w.blasts,
        &w.richness,
        &w.climate,
        &w.ideology,
    )
    &&& crate::observer::shows_diplomacy(&s.diplomacy, &w.diplomacy)
    &&& crate::observer::shows_race(&s.science_victory, &w.science_victory, &w.climate, &w.ledger)
    &&& s.entities@.len() == w.entities@.len()
    &&& forall|k: int|
        0 <= k < s.entities@.len() ==> crate::observer::shows_entity(
            #[trigger] s.entities@[k],
            w.entities@[k],
            &w.metadata,
        )
    &&& s.events@ == w.event_log@
    &&& forall|k: int|
        0 <= k < s.combat_hexes@.len() ==> crate::observer::is_contested(
            &w.grid,
            #[trigger] s.combat_hexes@[k],
        )
    &&& forall|c: crate::grid::AxialCoord|
        crate::observer::is_contested(&w.grid, c) ==> s.combat_hexes@.contains(c)
    &&& forall|k: int|
        0 <= k < s.nuclear_hexes@.len() ==> w.blasts.timer_at(#[trigger] s.nuclear_hexes@[k]) is Some
    &&& forall|c: crate::grid::AxialCoord|
        w.blasts.timer_at(c) is Some ==> s.nuclear_hexes@.contains(c)
}

/// A snapshot that shows a world shows its tick, its metrics, its race and its events.
pub proof fn lemma_snapshot_shows(s: &ObserverSnapshot, w: &SimulationWorld)
    requires
        shows_world(s, w@),
    ensures
        s.tick == w.tick_of(),
        w.metrics_of().same_as(&s.all_metrics),
        s.civ_state.0@ == w.civ_of().0@,
        crate::observer::shows_grid(&s.grid, &w.grid_of()),
        crate::observer::shows_diplomacy(&s.diplomacy, &w.diplomacy_of()),
        s.science_victory.finished == w.race_of().finished,
        s.science_victory.winner == w.race_of().winner,
        s.events@ == w.log_of()@,
        s.cosmic_age_years == w.cosmic_of().cosmic_age_years,
        forall|c: crate::grid::AxialCoord|
            crate::observer::is_contested(&w.grid_of(), c) <==> s.combat_hexes@.contains(c),
        forall|c: crate::grid::AxialCoord|
            w.blasts_of().timer_at(c) is Some <==> s.nuclear_hexes@.contains(c),
{
    assert forall|c: crate::grid::AxialCoord| s.combat_hexes@.contains(c) implies crate::observer::is_contested(
        &w.grid_of(),
        c,
    ) by {
        let k = choose|k: int| 0 <= k < s.combat_hexes@.len() && s.combat_hexes@[k] == c;
        assert(crate::observer::is_contested(&w.grid, s.combat_hexes@[k]));
    }
    assert forall|c: crate::grid::AxialCoord| s.nuclear_hexes@.contains(c) implies w.blasts_of().timer_at(
        c,
    ) is Some by {
        let k = choose|k: int| 0 <= k < s.nuclear_hexes@.len() && s.nuclear_hexes@[k] == c;
        assert(w.blasts.timer_at(s.nuclear_hexes@[k]) is Some);
    }
}

} // verus!
