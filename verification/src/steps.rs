//! A tick, step by step: what each system makes of the world the one before it
//! left, and the chain they form together.

use vstd::prelude::*;
use crate::blocs::WorldBlocs;
use crate::components::Entity;
use crate::events::WorldEvent;
use crate::events::WorldEventLog;
use crate::grid::Hex;
use crate::grid::HexGrid;
use crate::grid::HexTile;
use crate::grid::coord_at;
use crate::history::HISTORY_CAP;
use crate::history::pushed_bounded;
use crate::history::pushed_sliding;
use crate::nation::NATION_COUNT;
use crate::nation::Nation;
use crate::nuclear::NuclearBlasts;
use crate::observer::ObserverSnapshot;
use crate::resources::AllNationCivState;
use crate::resources::AllNationMetrics;
use crate::resources::CivilizationalCycles;
use crate::resources::CivilizationalLedger;
use crate::resources::ClimateState;
use crate::resources::CosmicTimeline;
use crate::resources::DiplomaticRelations;
use crate::resources::IdeologyMatrix;
use crate::resources::ScienceVictory;
use crate::resources::SimulationConfig;
use crate::resources::SupplyState;
use crate::resources::WarFatigue;
use crate::resources::WorldRichness;
use crate::resources::WorldTime;
use crate::fixed::SCALE;
use crate::world::WorldMetadata;

verus! {

/// Everything a world consists of.
pub struct WorldState {
    pub config: SimulationConfig,
    pub time: WorldTime,
    pub metadata: WorldMetadata,
    pub metrics: AllNationMetrics,
    pub civ_state: AllNationCivState,
    pub blasts: NuclearBlasts,
    pub war_fatigue: WarFatigue,
    pub richness: WorldRichness,
    pub climate: ClimateState,
    pub blocs: WorldBlocs,
    pub event_log: WorldEventLog,
    pub science_victory: ScienceVictory,
    pub ideology: IdeologyMatrix,
    pub diplomacy: DiplomaticRelations,
    pub cycles: CivilizationalCycles,
    pub supply: SupplyState,
    pub cosmic: CosmicTimeline,
    pub ledger: CivilizationalLedger,
    pub entities: Vec<Entity>,
    pub grid: HexGrid,
    pub snapshot: ObserverSnapshot,
}

/// Whether `b` is `a` after cosmic time has moved on: the age has grown by the
/// timescale, the stage follows the age, and on every sixty-fourth tick the log
/// has taken the report of it.
pub open spec fn cosmic_time_passed(a: WorldState, b: WorldState) -> bool {
    &&& b == (WorldState { cosmic: b.cosmic, event_log: b.event_log, ..a })
    &&& b.cosmic.cosmic_age_years == crate::systems::cosmic::age_after(
        a.cosmic.cosmic_age_years,
        a.cosmic.timescale_years_per_tick,
    )
    &&& b.cosmic.geologic_stage == crate::systems::cosmic::stage_of_age(b.cosmic.cosmic_age_years)
    &&& b.cosmic.timescale_years_per_tick == a.cosmic.timescale_years_per_tick
    &&& b.cosmic.extinction_events == a.cosmic.extinction_events
    &&& b.event_log.capacity_of() == a.event_log.capacity_of()
    &&& crate::systems::cosmic::transition_logged(
        a.event_log@,
        b.event_log@,
        a.event_log.capacity_of(),
        a.time.tick,
        &a.metadata,
    )
}

/// Whether `b` is `a` after every inhabitant has decided what to do next.
pub open spec fn inhabitants_decided(a: WorldState, b: WorldState) -> bool {
    &&& b == (WorldState { entities: b.entities, ..a })
    &&& b.entities@.len() == a.entities@.len()
    &&& forall|k: int|
        0 <= k < a.entities@.len() ==> crate::systems::ai::decided(
            a.entities@[k],
            #[trigger] b.entities@[k],
            &a.metadata,
            a.metadata.epochs.segment_at(a.time.tick as int),
            a.metadata.epochs.season_at(a.time.tick as int),
            a.science_victory.finished,
        )
}

/// Whether `b` is `a` after every combat marker has counted down.
pub open spec fn combat_cleaned(a: WorldState, b: WorldState) -> bool {
    &&& b == (WorldState { grid: b.grid, ..a })
    &&& b.grid.radius == a.grid.radius
    &&& b.grid.tiles@.len() == a.grid.tiles@.len()
    &&& forall|i: int|
        0 <= i < a.grid.tiles@.len() ==> #[trigger] b.grid.tiles@[i]
            == crate::systems::warfare::after_cleanup(a.grid.tiles@[i])
}

/// Whether `b` is `a` after the economy has run: inhabitants differ in their
/// purse only, nations in their economy only and within the cap, and a nation
/// none of whose inhabitants deals is exactly what its budget makes of it.
pub open spec fn economy_ran(a: WorldState, b: WorldState) -> bool {
    &&& b == (WorldState { entities: b.entities, metrics: b.metrics, ..a })
    &&& b.entities@.len() == a.entities@.len()
    &&& forall|k: int|
        0 <= k < a.entities@.len() ==> crate::systems::economy::same_but_purse(
            a.entities@[k],
            #[trigger] b.entities@[k],
        )
    &&& forall|i: int|
        0 <= i < NATION_COUNT ==> crate::systems::economy::same_but_economy(
            a.metrics.0@[i],
            #[trigger] b.metrics.0@[i],
        ) && crate::systems::economy::within_cap(b.metrics.0@[i])
    &&& forall|i: int|
        0 <= i < NATION_COUNT && !crate::systems::economy::has_dealer(
            a.entities@,
            crate::nation::Nation::at(i),
            a.entities@.len() as int,
        ) ==> #[trigger] b.metrics.0@[i] == crate::systems::economy::after_limits(
            crate::systems::economy::after_budget(
                a.metrics.0@[i],
                crate::blocs::bloc_pull(a.blocs.research_pact, crate::nation::Nation::at(i)),
                crate::blocs::bloc_pull(a.blocs.sanction, crate::nation::Nation::at(i)),
            ),
        )
    &&& crate::systems::economy::traded(
        (a.entities@, b.entities@),
        (a.metrics.0@, b.metrics.0@),
        &a.blocs,
        &a.metadata,
        a.metadata.epochs.segment_at(a.time.tick as int),
        a.metadata.epochs.season_at(a.time.tick as int),
    )
}

/// Whether `b` is `a` after the season has acted on every nation.
pub open spec fn season_acted(a: WorldState, b: WorldState) -> bool {
    let season = a.metadata.epochs.season_at(a.time.tick as int);
    &&& b == (WorldState { metrics: b.metrics, civ_state: b.civ_state, ..a })
    &&& forall|i: int|
        0 <= i < NATION_COUNT ==> #[trigger] b.metrics.0@[i]
            == crate::systems::environment::nation_after_season(a.metrics.0@[i], season)
    &&& forall|i: int|
        0 <= i < NATION_COUNT ==> #[trigger] b.civ_state.0@[i]
            == crate::systems::environment::civ_after_season(a.civ_state.0@[i], season)
}

/// Whether `b` is `a` after every nation's civic life has taken its step.
pub open spec fn civics_ran(a: WorldState, b: WorldState) -> bool {
    &&& b == (WorldState { metrics: b.metrics, civ_state: b.civ_state, ..a })
    &&& forall|i: int|
        0 <= i < NATION_COUNT ==> crate::systems::civilization::is_civics_result(
            a.metrics.0@[i],
            a.civ_state.0@[i],
            #[trigger] b.metrics.0@[i],
            b.civ_state.0@[i],
        )
}

/// Whether `b` is `a` after every nation has researched towards its next era.
pub open spec fn research_ran(a: WorldState, b: WorldState) -> bool {
    &&& b == (WorldState { metrics: b.metrics, event_log: b.event_log, ..a })
    &&& forall|i: int|
        0 <= i < NATION_COUNT ==> crate::systems::technology::researched(
            a.metrics.0@[i],
            #[trigger] b.metrics.0@[i],
            a.metadata.tech_tree.next_tier_of(a.metrics.0@[i].era),
        )
    &&& b.event_log.capacity_of() == a.event_log.capacity_of()
    &&& crate::events::logged(
        a.event_log@,
        b.event_log@,
        a.event_log.capacity_of(),
        a.time.tick,
        a.metadata.epochs.segment_at(a.time.tick as int).label_text(),
        a.metadata.epochs.season_at(a.time.tick as int).label_text(),
        crate::systems::technology::era_shifts_upto(a.metrics.0@, b.metrics.0@, NATION_COUNT as int),
    )
}

/// Whether `b` is `a` after the tick's wars: none once the science race is over,
/// and otherwise the wars that broke out, fought one after the other.
pub open spec fn wars_fought(a: WorldState, b: WorldState) -> bool {
    &&& b == (WorldState {
        metrics: b.metrics,
        civ_state: b.civ_state,
        blasts: b.blasts,
        event_log: b.event_log,
        grid: b.grid,
        ..a
    })
    &&& b.event_log.capacity_of() == a.event_log.capacity_of()
    &&& if a.science_victory.finished {
        b == a
    } else {
        crate::systems::warfare::campaigned(
            a.time.tick,
            &a.metadata,
            a.event_log.capacity_of(),
            (a.metrics.0@, a.civ_state.0@, a.blasts, a.event_log@, a.grid),
            (b.metrics.0@, b.civ_state.0@, b.blasts, b.event_log@, b.grid),
        )
    }
}

/// Whether `b` is `a` after the science race has taken its step.
pub open spec fn race_ran(a: WorldState, b: WorldState) -> bool {
    &&& b == (WorldState { science_victory: b.science_victory, event_log: b.event_log, ..a })
    &&& crate::systems::victory::race_step(
        &a.science_victory,
        &b.science_victory,
        a.metrics.0@,
        &a.blocs,
    )
    &&& b.event_log.capacity_of() == a.event_log.capacity_of()
    &&& crate::events::logged(
        a.event_log@,
        b.event_log@,
        a.event_log.capacity_of(),
        a.time.tick,
        a.metadata.epochs.segment_at(a.time.tick as int).label_text(),
        a.metadata.epochs.season_at(a.time.tick as int).label_text(),
        crate::systems::victory::race_reports(
            &a.science_victory,
            &b.science_victory,
            a.metrics.0@,
            &a.blocs,
            a.time.tick,
        ),
    )
}

/// Whether `b` is `a` after the climate has taken its step.
pub open spec fn climate_ran(a: WorldState, b: WorldState) -> bool {
    &&& b == (WorldState { climate: b.climate, event_log: b.event_log, ..a })
    &&& crate::systems::climate::climate_stepped(
        &a.climate,
        &b.climate,
        a.richness.richness as int,
        a.war_fatigue.intensity as int,
        crate::systems::climate::fallout_of(&a.blasts),
        crate::systems::climate::stage_factor(a.cosmic.geologic_stage),
    )
    &&& b.event_log.capacity_of() == a.event_log.capacity_of()
    &&& crate::systems::climate::climate_warned(
        a.event_log@,
        b.event_log@,
        a.event_log.capacity_of(),
        a.time.tick,
    )
}

/// Whether `b` is `a` after every blast marker has decayed by a tick.
pub open spec fn blasts_decayed(a: WorldState, b: WorldState) -> bool {
    &&& b == (WorldState { blasts: b.blasts, ..a })
    &&& b.blasts.radius == a.blasts.radius
    &&& b.blasts.timers@.len() == a.blasts.timers@.len()
    &&& forall|i: int|
        0 <= i < a.blasts.timers@.len() ==> #[trigger] b.blasts.timers@[i] == crate::nuclear::decayed(
            a.blasts.timers@[i],
        )
}

/// Whether `b` is `a` after peace has let the nations recover, where it holds.
pub open spec fn peace_recovered(a: WorldState, b: WorldState) -> bool {
    let fatigue = a.war_fatigue.intensity as int;
    &&& b == (WorldState { metrics: b.metrics, ..a })
    &&& forall|i: int|
        0 <= i < NATION_COUNT ==> #[trigger] b.metrics.0@[i] == if crate::systems::peace::peace_holds(
            fatigue,
            a.science_victory.finished,
        ) {
            crate::systems::peace::after_peace(a.metrics.0@[i], fatigue)
        } else {
            a.metrics.0@[i]
        }
}

/// Whether `steps` are the worlds that the first chain of systems passes through
/// on its way from `before` to `after`: cosmic time, the inhabitants' decisions,
/// the combat markers, the economy, the season, civic life, research, the wars,
/// the science race, the climate, the decay of blasts and the recovery in peace,
/// in this order.
pub open spec fn is_first_chain(before: WorldState, after: WorldState, steps: Seq<WorldState>) -> bool {
    &&& steps.len() == 13
    &&& steps[0] == before
    &&& steps[12] == after
    &&& cosmic_time_passed(steps[0], steps[1])
    &&& inhabitants_decided(steps[1], steps[2])
    &&& combat_cleaned(steps[2], steps[3])
    &&& economy_ran(steps[3], steps[4])
    &&& season_acted(steps[4], steps[5])
    &&& civics_ran(steps[5], steps[6])
    &&& research_ran(steps[6], steps[7])
    &&& wars_fought(steps[7], steps[8])
    &&& race_ran(steps[8], steps[9])
    &&& climate_ran(steps[9], steps[10])
    &&& blasts_decayed(steps[10], steps[11])
    &&& peace_recovered(steps[11], steps[12])
}

/// Whether `after` is what the first chain of systems makes of `before`,
/// whatever the draws.
pub open spec fn first_chain(before: WorldState, after: WorldState) -> bool {
    exists|steps: Seq<WorldState>| #[trigger] is_first_chain(before, after, steps)
}

/// Twelve steps, each from where the one before it ended, make the first chain.
pub proof fn lemma_first_chain(
    w0: WorldState,
    w1: WorldState,
    w2: WorldState,
    w3: WorldState,
    w4: WorldState,
    w5: WorldState,
    w6: WorldState,
    w7: WorldState,
    w8: WorldState,
    w9: WorldState,
    w10: WorldState,
    w11: WorldState,
    w12: WorldState,
)
    requires
        cosmic_time_passed(w0, w1),
        inhabitants_decided(w1, w2),
        combat_cleaned(w2, w3),
        economy_ran(w3, w4),
        season_acted(w4, w5),
        civics_ran(w5, w6),
        research_ran(w6, w7),
        wars_fought(w7, w8),
        race_ran(w8, w9),
        climate_ran(w9, w10),
        blasts_decayed(w10, w11),
        peace_recovered(w11, w12),
    ensures
        first_chain(w0, w12),
{
    let steps = seq![w0, w1, w2, w3, w4, w5, w6, w7, w8, w9, w10, w11, w12];
    assert(is_first_chain(w0, w12, steps));
}

/// Whether `b` is `a` after the world's richness was measured anew.
pub open spec fn richness_measured(a: WorldState, b: WorldState) -> bool {
    let richness = crate::systems::environment::richness_of(a.metrics.0@);
    &&& b == (WorldState { richness: b.richness, ..a })
    &&& b.richness.richness == richness
    &&& b.richness.history@ == pushed_bounded(
        a.richness.history@,
        (richness * 100) as i64,
        HISTORY_CAP as int,
    )
}

/// Whether `b` is `a` after the climate has weighed on every living nation.
pub open spec fn climate_weighed(a: WorldState, b: WorldState) -> bool {
    &&& b == (WorldState { metrics: b.metrics, civ_state: b.civ_state, ..a })
    &&& forall|i: int|
        0 <= i < NATION_COUNT ==> #[trigger] b.metrics.0@[i]
            == crate::systems::environment::nation_after_climate(a.metrics.0@[i], &a.climate)
    &&& forall|i: int|
        0 <= i < NATION_COUNT ==> #[trigger] b.civ_state.0@[i] == if a.metrics.0@[i].is_destroyed {
            a.civ_state.0@[i]
        } else {
            crate::systems::environment::civ_after_climate(a.civ_state.0@[i], &a.climate)
        }
}

/// Whether `b` is `a` after the sea has risen or fallen over the map.
pub open spec fn coasts_flooded(a: WorldState, b: WorldState) -> bool {
    &&& b == (WorldState { grid: b.grid, ..a })
    &&& b.grid.radius == a.grid.radius
    &&& b.grid.tiles@.len() == a.grid.tiles@.len()
    &&& forall|i: int|
        0 <= i < a.grid.tiles@.len() ==> #[trigger] b.grid.tiles@[i]
            == crate::systems::flood::tile_under_climate(
            a.grid.tiles@[i],
            coord_at(a.grid.radius as int, i),
            a.grid.radius as int,
            &a.climate,
        )
}

/// Whether `b` is `a` after the supply chains have delivered.
pub open spec fn supplies_delivered(a: WorldState, b: WorldState) -> bool {
    let yields = crate::systems::supply::yield_sum(a.metrics.0@, NATION_COUNT as int);
    let drag = crate::systems::supply::supply_drag(&a.climate);
    let boost = crate::systems::supply::supply_boost(a.richness.richness as int);
    &&& b == (WorldState { supply: b.supply, ..a })
    &&& b.supply.food == crate::systems::supply::delivered(yields.0, SCALE - drag, boost)
    &&& b.supply.energy == crate::systems::supply::delivered(yields.1, SCALE - drag * 7 / 10, boost)
    &&& b.supply.rare == crate::systems::supply::delivered(yields.2, SCALE - drag * 5 / 10, boost)
    &&& b.supply.deficit_ticks == if crate::systems::supply::falls_short(
        b.supply.food as int,
        b.supply.energy as int,
        b.supply.rare as int,
        crate::systems::environment::living_count(a.metrics.0@, NATION_COUNT as int),
    ) {
        if a.supply.deficit_ticks < u32::MAX {
            (a.supply.deficit_ticks + 1) as u32
        } else {
            a.supply.deficit_ticks
        }
    } else if a.supply.deficit_ticks > 0 {
        (a.supply.deficit_ticks - 1) as u32
    } else {
        0
    }
    &&& b.supply.history@ == pushed_sliding(
        a.supply.history@,
        (b.supply.food, b.supply.energy, b.supply.rare),
        crate::resources::SUPPLY_HISTORY_CAP as int,
    )
}

/// Whether `b` is `a` after the blocs were formed or brought up to date.
pub open spec fn blocs_kept(a: WorldState, b: WorldState) -> bool {
    &&& b == (WorldState { blocs: b.blocs, ..a })
    &&& crate::systems::blocs::blocs_updated(&a.blocs, &b.blocs, a.metrics.0@)
}

/// Whether `b` is `a` after war fatigue was taken and felt.
pub open spec fn fatigue_felt(a: WorldState, b: WorldState) -> bool {
    &&& b == (WorldState { war_fatigue: b.war_fatigue, blasts: b.blasts, metrics: b.metrics, ..a })
    &&& b.blasts.radius == a.blasts.radius
    &&& b.blasts.timers@.len() == a.blasts.timers@.len()
    &&& forall|i: int|
        0 <= i < a.blasts.timers@.len() ==> #[trigger] b.blasts.timers@[i]
            == crate::systems::warfatigue::cooled(a.blasts.timers@[i])
    &&& b.war_fatigue.intensity == crate::systems::warfatigue::fatigue_after(
        a.war_fatigue.intensity as int,
        crate::systems::warfatigue::live_markers(a.blasts.timers@, a.blasts.timers@.len() as int),
        crate::systems::warfatigue::fatigue_from(
            a.event_log@,
            crate::systems::warfatigue::recent_start(a.event_log@.len() as int),
        ),
    )
    &&& b.war_fatigue.history@ == pushed_bounded(
        a.war_fatigue.history@,
        b.war_fatigue.intensity,
        HISTORY_CAP as int,
    )
    &&& forall|i: int|
        0 <= i < NATION_COUNT ==> #[trigger] b.metrics.0@[i]
            == crate::systems::warfatigue::nation_under_fatigue(
            a.metrics.0@[i],
            b.war_fatigue.intensity as int,
        )
}

/// Whether `b` is `a` after every hex went to its rightful owner.
pub open spec fn territory_shared(a: WorldState, b: WorldState) -> bool {
    &&& b == (WorldState { grid: b.grid, ..a })
    &&& b.grid.radius == a.grid.radius
    &&& b.grid.tiles@.len() == a.grid.tiles@.len()
    &&& forall|i: int|
        0 <= i < a.grid.tiles@.len() ==> #[trigger] b.grid.tiles@[i] == match a.grid.tiles@[i] {
            Some(t) => Some(
                HexTile {
                    hex: Hex {
                        owner: crate::systems::territory::rightful_owner(
                            a.metrics.0@,
                            a.grid.radius as int,
                            coord_at(a.grid.radius as int, i),
                        ),
                        ..t.hex
                    },
                    ..t
                },
            ),
            None => None,
        }
}

/// Whether `b` is `a` after golden ages and declines have turned.
pub open spec fn cycles_turned(a: WorldState, b: WorldState) -> bool {
    &&& b == (WorldState { cycles: b.cycles, metrics: b.metrics, civ_state: b.civ_state, ..a })
    &&& forall|i: int|
        0 <= i < NATION_COUNT ==> crate::systems::cycles::cycled(
            a.metrics.0@[i],
            a.civ_state.0@[i],
            a.cycles.golden_age@[i] as int,
            a.cycles.decline@[i] as int,
            a.time.tick,
            #[trigger] b.metrics.0@[i],
            b.civ_state.0@[i],
            b.cycles.golden_age@[i] as int,
            b.cycles.decline@[i] as int,
        )
}

/// Whether `b` is `a` after treaties and war have weighed on security.
pub open spec fn security_weighed(a: WorldState, b: WorldState) -> bool {
    &&& b == (WorldState { metrics: b.metrics, ideology: b.ideology, ..a })
    &&& forall|i: int|
        0 <= i < NATION_COUNT ==> #[trigger] b.metrics.0@[i]
            == crate::systems::security::nation_after_security(
            a.metrics.0@[i],
            Nation::at(i),
            &a.diplomacy,
            a.war_fatigue.intensity as int,
        )
    &&& forall|i: int|
        0 <= i < NATION_COUNT ==> #[trigger] b.ideology.volatility@[i]
            == crate::systems::security::stirred(
            a.ideology.volatility@[i] as int,
            crate::systems::security::war_pressure(a.war_fatigue.intensity as int),
        )
    &&& forall|i: int|
        0 <= i < NATION_COUNT ==> #[trigger] b.ideology.cohesion@[i]
            == crate::systems::security::boosted(
            a.ideology.cohesion@[i] as int,
            SCALE as int,
            120 * SCALE,
            crate::systems::security::alliances_of(
                a.diplomacy.alliances@,
                Nation::at(i),
                a.diplomacy.alliances@.len() as int,
            ),
        )
    &&& b.ideology.leaning@ == a.ideology.leaning@
}

/// Whether `b` is `a` after births, deaths and ageing.
pub open spec fn people_aged(a: WorldState, b: WorldState) -> bool {
    &&& b == (WorldState { metrics: b.metrics, ..a })
    &&& forall|i: int|
        0 <= i < NATION_COUNT ==> #[trigger] b.metrics.0@[i]
            == crate::systems::demography::after_demography(
            a.metrics.0@[i],
            a.climate.climate_risk as int,
            a.time.tick,
        )
}

/// Whether `b` is `a` after the tick's happenings were reported.
pub open spec fn happenings_reported(a: WorldState, b: WorldState) -> bool {
    &&& b == (WorldState { event_log: b.event_log, metrics: b.metrics, ..a })
    &&& b.event_log.capacity_of() == a.event_log.capacity_of()
    &&& crate::systems::event_generation::generated(
        a.event_log@,
        b.event_log@,
        a.event_log.capacity_of(),
        a.time.tick,
        &a.metadata,
        a.entities@,
        a.metrics.0@,
        b.metrics.0@,
    )
}

/// Whether `b` is `a` after every nation's ideology has drifted.
pub open spec fn ideology_drifted(a: WorldState, b: WorldState) -> bool {
    &&& b == (WorldState { ideology: b.ideology, event_log: b.event_log, ..a })
    &&& forall|i: int|
        0 <= i < NATION_COUNT ==> #[trigger] b.ideology.leaning@[i]
            == crate::systems::ideology::leaning_after(
            a.ideology.leaning@[i] as int,
            a.metrics.0@[i],
        )
    &&& forall|i: int|
        0 <= i < NATION_COUNT ==> #[trigger] b.ideology.volatility@[i]
            == crate::systems::ideology::volatility_settled(
            crate::systems::ideology::volatility_raised(
                a.ideology.volatility@[i] as int,
                a.ideology.cohesion@[i] as int,
                a.metrics.0@[i],
            ),
        )
    &&& forall|i: int|
        0 <= i < NATION_COUNT ==> #[trigger] b.ideology.cohesion@[i]
            == crate::systems::ideology::cohesion_after(
            a.ideology.cohesion@[i] as int,
            crate::systems::ideology::volatility_raised(
                a.ideology.volatility@[i] as int,
                a.ideology.cohesion@[i] as int,
                a.metrics.0@[i],
            ),
        )
    &&& b.event_log.capacity_of() == a.event_log.capacity_of()
    &&& crate::systems::ideology::unrest_logged(
        a.event_log@,
        b.event_log@,
        a.event_log.capacity_of(),
        a.time.tick,
        crate::systems::ideology::rebels_upto(&a.ideology, a.metrics.0@, NATION_COUNT as int),
    )
}

/// Whether `b` is `a` after every inhabitant took up its mission.
pub open spec fn missions_taken(a: WorldState, b: WorldState) -> bool {
    &&& b == (WorldState { entities: b.entities, event_log: b.event_log, ..a })
    &&& b.entities@.len() == a.entities@.len()
    &&& forall|k: int|
        0 <= k < a.entities@.len() ==> crate::systems::ai::same_but_behavior(
            a.entities@[k],
            #[trigger] b.entities@[k],
        ) && b.entities@[k].behavior.state == crate::systems::missions::mission_of(
            a.entities@[k].goals,
            a.entities@[k].personality,
        )
    &&& b.event_log.capacity_of() == a.event_log.capacity_of()
    &&& crate::systems::missions::missions_logged(
        a.event_log@,
        b.event_log@,
        a.event_log.capacity_of(),
        a.time.tick,
        a.entities@,
        crate::systems::missions::reporters_upto(a.entities@, a.time.tick, a.entities@.len() as int),
    )
}

/// Whether `b` is `a` after relations have drifted and treaties were signed.
pub open spec fn diplomacy_ran(a: WorldState, b: WorldState) -> bool {
    &&& b == (WorldState { diplomacy: b.diplomacy, event_log: b.event_log, ..a })
    &&& crate::systems::diplomacy::relations_drifted(
        a.diplomacy.relations@,
        b.diplomacy.relations@,
        a.metrics.0@,
    )
    &&& forall|n: int|
        0 <= n < NATION_COUNT ==> #[trigger] b.diplomacy.trust@[n]
            == crate::systems::diplomacy::trust_after(
            a.diplomacy.trust@[n] as int,
            a.metrics.0@,
            n,
            NATION_COUNT as int,
        )
    &&& forall|n: int|
        0 <= n < NATION_COUNT ==> #[trigger] b.diplomacy.fear@[n]
            == crate::systems::diplomacy::fear_after(
            a.diplomacy.fear@[n] as int,
            a.metrics.0@,
            n,
            NATION_COUNT as int,
        )
    &&& crate::systems::diplomacy::treaties_signed(&a.diplomacy, &b.diplomacy)
    &&& b.event_log.capacity_of() == a.event_log.capacity_of()
    &&& exists|news: Seq<WorldEvent>| #[trigger]
        crate::systems::diplomacy::is_treaty_roll(news, &a.diplomacy, &b.diplomacy, a.time.tick)
            && b.event_log@ == crate::events::log_after_all(
            a.event_log@,
            a.event_log.capacity_of(),
            news,
        )
}

/// Whether `b` is `a` after the check for a mass extinction: where none is due
/// nothing changes, and where one is due the world is reset by its severity.
pub open spec fn extinction_checked(a: WorldState, b: WorldState) -> bool {
    &&& b == (WorldState {
        cosmic: b.cosmic,
        climate: b.climate,
        richness: b.richness,
        metrics: b.metrics,
        civ_state: b.civ_state,
        war_fatigue: b.war_fatigue,
        event_log: b.event_log,
        ..a
    })
    &&& b.event_log.capacity_of() == a.event_log.capacity_of()
    &&& b.cosmic.cosmic_age_years == a.cosmic.cosmic_age_years
    &&& b.cosmic.timescale_years_per_tick == a.cosmic.timescale_years_per_tick
    &&& b.cosmic.geologic_stage == a.cosmic.geologic_stage
    &&& if crate::systems::cosmic::extinction_due(&a.climate, &a.cosmic) {
        &&& b.cosmic.extinction_events == if a.cosmic.extinction_events < u32::MAX {
            (a.cosmic.extinction_events + 1) as u32
        } else {
            a.cosmic.extinction_events
        }
        &&& crate::systems::cosmic::reset_by_extinction(
            crate::systems::cosmic::severity_of(&a.cosmic),
            (a.climate, b.climate),
            (a.richness.richness as int, b.richness.richness as int),
            b.war_fatigue.intensity as int,
            (a.metrics.0@, b.metrics.0@),
            (a.civ_state.0@, b.civ_state.0@),
        )
        &&& b.richness.history == a.richness.history
        &&& b.war_fatigue.history == a.war_fatigue.history
        &&& crate::systems::cosmic::extinction_logged(
            a.event_log@,
            b.event_log@,
            a.event_log.capacity_of(),
            a.time.tick,
            &a.metadata,
        )
    } else {
        b == a
    }
}

/// Whether `steps` are the worlds that the second chain of systems passes
/// through on its way from `before` to `after`: richness, the weight of the
/// climate, floods, supply, blocs, war fatigue, territory, the cycles, security,
/// demography, the tick's happenings, ideology, missions, diplomacy and the check
/// for an extinction, in this order.
pub open spec fn is_second_chain(before: WorldState, after: WorldState, steps: Seq<WorldState>) -> bool {
    &&& steps.len() == 16
    &&& steps[0] == before
    &&& steps[15] == after
    &&& richness_measured(steps[0], steps[1])
    &&& climate_weighed(steps[1], steps[2])
    &&& coasts_flooded(steps[2], steps[3])
    &&& supplies_delivered(steps[3], steps[4])
    &&& blocs_kept(steps[4], steps[5])
    &&& fatigue_felt(steps[5], steps[6])
    &&& territory_shared(steps[6], steps[7])
    &&& cycles_turned(steps[7], steps[8])
    &&& security_weighed(steps[8], steps[9])
    &&& people_aged(steps[9], steps[10])
    &&& happenings_reported(steps[10], steps[11])
    &&& ideology_drifted(steps[11], steps[12])
    &&& missions_taken(steps[12], steps[13])
    &&& diplomacy_ran(steps[13], steps[14])
    &&& extinction_checked(steps[14], steps[15])
}

/// Whether `after` is what the second chain of systems makes of `before`,
/// whatever the draws.
pub open spec fn second_chain(before: WorldState, after: WorldState) -> bool {
    exists|steps: Seq<WorldState>| #[trigger] is_second_chain(before, after, steps)
}

/// Fifteen steps, each from where the one before it ended, make the second chain.
pub proof fn lemma_second_chain(
    w0: WorldState,
    w1: WorldState,
    w2: WorldState,
    w3: WorldState,
    w4: WorldState,
    w5: WorldState,
    w6: WorldState,
    w7: WorldState,
    w8: WorldState,
    w9: WorldState,
    w10: WorldState,
    w11: WorldState,
    w12: WorldState,
    w13: WorldState,
    w14: WorldState,
    w15: WorldState,
)
    requires
        richness_measured(w0, w1),
        climate_weighed(w1, w2),
        coasts_flooded(w2, w3),
        supplies_delivered(w3, w4),
        blocs_kept(w4, w5),
        fatigue_felt(w5, w6),
        territory_shared(w6, w7),
        cycles_turned(w7, w8),
        security_weighed(w8, w9),
        people_aged(w9, w10),
        happenings_reported(w10, w11),
        ideology_drifted(w11, w12),
        missions_taken(w12, w13),
        diplomacy_ran(w13, w14),
        extinction_checked(w14, w15),
    ensures
        second_chain(w0, w15),
{
    let steps = seq![w0, w1, w2, w3, w4, w5, w6, w7, w8, w9, w10, w11, w12, w13, w14, w15];
    assert(is_second_chain(w0, w15, steps));
}

/// Whether `b` is `a` with the living totals recorded in the ledger and the
/// snapshot rebuilt to show the world.
pub open spec fn snapshot_refreshed(a: WorldState, b: WorldState) -> bool {
    &&& b == (WorldState { ledger: b.ledger, snapshot: b.snapshot, ..a })
    &&& b.ledger.population_history@ == pushed_bounded(
        a.ledger.population_history@,
        crate::observer::living_population(a.metrics.0@, NATION_COUNT as int) as u64,
        HISTORY_CAP as int,
    )
    &&& b.ledger.gdp_history@ == pushed_bounded(
        a.ledger.gdp_history@,
        crate::observer::living_economy(a.metrics.0@, NATION_COUNT as int) as i64,
        HISTORY_CAP as int,
    )
    &&& crate::simulation::shows_world(&b.snapshot, b)
}

/// The world as a tick finds it, its counter moved on by one.
pub open spec fn counted(before: WorldState) -> WorldState {
    WorldState { time: WorldTime { tick: (before.time.tick + 1) as u64 }, ..before }
}

/// Whether `after` is `before` one tick later, with `first` the world after the
/// first chain and `second` the world after the second.
pub open spec fn is_tick(before: WorldState, after: WorldState, first: WorldState, second: WorldState) -> bool {
    &&& first_chain(counted(before), first)
    &&& second_chain(first, second)
    &&& snapshot_refreshed(second, after)
}

/// Whether `after` is `before` one tick later: the counter moved on, then every
/// system ran once in its fixed order on what the one before it left, then the
/// totals were recorded and the snapshot rebuilt. The draws of the systems that
/// draw are left open.
pub open spec fn ticked(before: WorldState, after: WorldState) -> bool {
    exists|first: WorldState, second: WorldState| #[trigger] is_tick(before, after, first, second)
}

} // verus!
