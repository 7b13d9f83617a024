//! The observer snapshot: a complete, self-contained view of the world, rebuilt
//! after every tick for whoever watches.

use vstd::prelude::*;
use vstd::string::*;
use crate::components::BehaviorState;
use crate::components::Biome;
use crate::components::Entity;
use crate::components::Faction;
use crate::events::WorldEvent;
use crate::fixed::SCALE;
use crate::grid::AxialCoord;
use crate::grid::HexGrid;
use crate::grid::coord_at;
use crate::grid::count_land;
use crate::history::copy_of;
use crate::localization::behavior_label;
use crate::localization::behavior_label_text;
use crate::localization::faction_label;
use crate::localization::faction_label_text;
use crate::nation::Nation;
use crate::nation::NATION_COUNT;
use crate::nuclear::NuclearBlasts;
use crate::resources::AllNationCivState;
use crate::resources::AllNationMetrics;
use crate::resources::CivilizationalLedger;
use crate::resources::ClimateState;
use crate::resources::DiplomaticRelations;
use crate::resources::IdeologyMatrix;
use crate::resources::METRIC_MAX;
use crate::resources::NationMetrics;
use crate::resources::POPULATION_MAX;
use crate::resources::ScienceVictory;
use crate::resources::WarFatigue;
use crate::resources::WorldRichness;
use crate::world::Season;
use crate::world::WorldMetadata;

verus! {

/// What an observer sees of an inhabitant. Money figures are in millionths.
#[derive(Debug)]
pub struct EntitySnapshot {
    pub id: u64,
    pub name: String,
    pub faction: Faction,
    pub faction_label: String,
    pub biome: Biome,
    pub biome_label: String,
    pub behavior_state: BehaviorState,
    pub behavior_label: String,
    pub currency: i64,
    pub wealth: i64,
    pub fame: i64,
}

#[derive(Clone, Copy, Debug)]
pub struct HexSnapshot {
    pub owner: Nation,
}

/// The land hexes of the map with their owners, in table order.
#[derive(Debug)]
pub struct HexGridSnapshot {
    pub hexes: Vec<(AxialCoord, HexSnapshot)>,
    pub radius: i32,
}

impl Default for HexGridSnapshot {
    fn default() -> (s: Self)
        ensures
            s.hexes@.len() == 0,
            s.radius == 0,
    {
        Self { hexes: Vec::new(), radius: 0 }
    }
}

/// How the season feels. All figures are in millionths.
#[derive(Debug)]
pub struct SeasonEffectSnapshot {
    pub label: String,
    pub temperature: i64,
    pub morale_shift: i64,
    pub yield_shift: i64,
    pub risk_shift: i64,
}

/// Overlays drawn over the map. All figures are in millionths.
#[derive(Debug)]
pub struct WorldOverlaySnapshot {
    pub war_fatigue: i64,
    /// Sum of all blast timers, in whole ticks.
    pub fallout: u32,
    pub resource_richness: i64,
    pub war_fatigue_history: Vec<i64>,
    pub richness_history: Vec<i64>,
    pub carbon_history: Vec<i64>,
    pub climate_risk_history: Vec<i64>,
    pub biodiversity_history: Vec<i64>,
    pub sea_level: i64,
    pub ice_line: i64,
    pub ideology_leaning: Vec<i64>,
    pub ideology_cohesion: Vec<i64>,
    pub ideology_volatility: Vec<i64>,
}

impl Default for WorldOverlaySnapshot {
    fn default() -> (s: Self)
        ensures
            s.war_fatigue == 0,
            s.fallout == 0,
            s.resource_richness == 0,
            s.war_fatigue_history@.len() == 0,
            s.carbon_history@.len() == 0,
    {
        Self {
            war_fatigue: 0,
            fallout: 0,
            resource_richness: 0,
            war_fatigue_history: Vec::new(),
            richness_history: Vec::new(),
            carbon_history: Vec::new(),
            climate_risk_history: Vec::new(),
            biodiversity_history: Vec::new(),
            sea_level: 0,
            ice_line: 0,
            ideology_leaning: Vec::new(),
            ideology_cohesion: Vec::new(),
            ideology_volatility: Vec::new(),
        }
    }
}

/// Trust, fear and treaties. Trust and fear are indexed by `Nation::index`.
#[derive(Debug)]
pub struct DiplomaticSnapshot {
    pub trust: Vec<i64>,
    pub fear: Vec<i64>,
    pub alliances: Vec<(Nation, Nation)>,
    pub sanctions: Vec<(Nation, Nation)>,
}

impl Default for DiplomaticSnapshot {
    fn default() -> (s: Self)
        ensures
            s.alliances@.len() == 0,
            s.sanctions@.len() == 0,
    {
        Self { trust: Vec::new(), fear: Vec::new(), alliances: Vec::new(), sanctions: Vec::new() }
    }
}

/// The state of the race and the world figures shown next to it.
#[derive(Debug)]
pub struct ScienceVictorySnapshot {
    pub leader: Option<Nation>,
    pub leader_progress: i64,
    pub runner_up_progress: i64,
    pub history: Vec<i64>,
    pub goal: i64,
    pub finished: bool,
    pub winner: Option<Nation>,
    pub interstellar_mode: bool,
    pub interstellar_progress: i64,
    pub interstellar_goal: i64,
    pub space_stage: String,
    pub mars_progress: i64,
    pub mars_goal: i64,
    pub jovian_progress: i64,
    pub jovian_goal: i64,
    pub carbon_ppm: i64,
    pub climate_risk: i64,
    pub biodiversity: i64,
    pub total_population: u64,
    pub total_economy: i64,
    pub population_history: Vec<u64>,
    pub economy_history: Vec<i64>,
}

impl Default for ScienceVictorySnapshot {
    fn default() -> (s: Self)
        ensures
            s.leader is None,
            s.winner is None,
            !s.finished,
            s.leader_progress == 0,
    {
        Self {
            leader: None,
            leader_progress: 0,
            runner_up_progress: 0,
            history: Vec::new(),
            goal: 0,
            finished: false,
            winner: None,
            interstellar_mode: false,
            interstellar_progress: 0,
            interstellar_goal: 0,
            space_stage: String::new(),
            mars_progress: 0,
            mars_goal: 0,
            jovian_progress: 0,
            jovian_goal: 0,
            carbon_ppm: 0,
            climate_risk: 0,
            biodiversity: 0,
            total_population: 0,
            total_economy: 0,
            population_history: Vec::new(),
            economy_history: Vec::new(),
        }
    }
}

/// Everything an observer may read.
#[derive(Debug)]
pub struct ObserverSnapshot {
    pub tick: u64,
    pub epoch: String,
    pub season: String,
    pub cosmic_age_years: u64,
    pub timescale_years_per_tick: u64,
    pub geologic_stage: String,
    pub extinction_events: u32,
    pub season_effect: SeasonEffectSnapshot,
    pub all_metrics: AllNationMetrics,
    pub civ_state: AllNationCivState,
    pub grid: HexGridSnapshot,
    pub overlay: WorldOverlaySnapshot,
    pub diplomacy: DiplomaticSnapshot,
    pub science_victory: ScienceVictorySnapshot,
    pub entities: Vec<EntitySnapshot>,
    pub events: Vec<WorldEvent>,
    pub combat_hexes: Vec<AxialCoord>,
    pub nuclear_hexes: Vec<AxialCoord>,
}

/// Where the 32-tick wave of the seasons stands at a tick, between minus one and one.
pub open spec fn wave_at(tick: u64) -> int {
    let phase = (tick % 32) as int;
    let step = if phase % 16 <= 8 {
        phase % 16
    } else {
        16 - phase % 16
    };
    let height = if step == 0 {
        0
    } else if step == 1 {
        195_090
    } else if step == 2 {
        382_683
    } else if step == 3 {
        555_570
    } else if step == 4 {
        707_107
    } else if step == 5 {
        831_470
    } else if step == 6 {
        923_880
    } else if step == 7 {
        980_785
    } else {
        1_000_000
    };
    if phase < 16 {
        height
    } else {
        -height
    }
}

pub fn wave(tick: u64) -> (r: i64)
    ensures
        r == wave_at(tick),
        -SCALE <= r <= SCALE,
{
    let phase: u64 = tick % 32;
    let step: u64 = if phase % 16 <= 8 {
        phase % 16
    } else {
        16 - phase % 16
    };
    let height: i64 = if step == 0 {
        0
    } else if step == 1 {
        195_090
    } else if step == 2 {
        382_683
    } else if step == 3 {
        555_570
    } else if step == 4 {
        707_107
    } else if step == 5 {
        831_470
    } else if step == 6 {
        923_880
    } else if step == 7 {
        980_785
    } else {
        1_000_000
    };
    if phase < 16 {
        height
    } else {
        -height
    }
}

pub open spec fn season_effect_label(season: Season) -> Seq<char> {
    match season {
        Season::FlowerBloom => "꽃가루 축제"@,
        Season::SunburstPeak => "태양 쇄도"@,
        Season::Ashfall => "연기 어린 밤"@,
    }
}

/// Temperature, morale, yield and risk of a season at a tick, in millionths.
pub open spec fn season_effect_figures(season: Season, tick: u64) -> (int, int, int, int) {
    match season {
        Season::FlowerBloom => (200_000 + wave_at(tick) / 10, 5_000_000, 3_000_000, -2_000_000),
        Season::SunburstPeak => (
            650_000 + wave_at(tick) * 2 / 10,
            -3_000_000,
            6_000_000,
            4_000_000,
        ),
        Season::Ashfall => (-150_000 + wave_at(tick) / 10, -1_000_000, -2_000_000, 3_000_000),
    }
}

/// How a season feels at a tick.
pub fn seasonal_effect_for(season: Season, tick: u64) -> (s: SeasonEffectSnapshot)
    ensures
        s.label@ == season_effect_label(season),
        (s.temperature as int, s.morale_shift as int, s.yield_shift as int, s.risk_shift as int)
            == season_effect_figures(season, tick),
{
    let w: i64 = wave(tick);
    let tenth: i64 = crate::fixed::scale_clamped(w, 1, 10, -SCALE, SCALE);
    let fifth: i64 = crate::fixed::scale_clamped(w * 2, 1, 10, -SCALE, SCALE);
    match season {
        Season::FlowerBloom => SeasonEffectSnapshot {
            label: String::from_str("꽃가루 축제"),
            temperature: 200_000 + tenth,
            morale_shift: 5_000_000,
            yield_shift: 3_000_000,
            risk_shift: -2_000_000,
        },
        Season::SunburstPeak => SeasonEffectSnapshot {
            label: String::from_str("태양 쇄도"),
            temperature: 650_000 + fifth,
            morale_shift: -3_000_000,
            yield_shift: 6_000_000,
            risk_shift: 4_000_000,
        },
        Season::Ashfall => SeasonEffectSnapshot {
            label: String::from_str("연기 어린 밤"),
            temperature: -150_000 + tenth,
            morale_shift: -1_000_000,
            yield_shift: -2_000_000,
            risk_shift: 3_000_000,
        },
    }
}

/// Whether a grid snapshot shows exactly the land hexes of a map, in table order,
/// each with its owner.
pub open spec fn shows_grid(snapshot: &HexGridSnapshot, grid: &HexGrid) -> bool {
    &&& snapshot.radius == grid.radius
    &&& snapshot.hexes@.len() == grid.land_total()
    &&& forall|k: int|
        0 <= k < snapshot.hexes@.len() ==> grid.owner_at((#[trigger] snapshot.hexes@[k]).0) == Some(
            snapshot.hexes@[k].1.owner,
        )
    &&& forall|c: AxialCoord|
        grid.is_land(c) ==> exists|k: int|
            0 <= k < snapshot.hexes@.len() && (#[trigger] snapshot.hexes@[k]).0 == c
}

/// The land hexes of a map with their owners.
pub fn grid_snapshot(grid: &HexGrid) -> (s: HexGridSnapshot)
    requires
        grid.wf(),
    ensures
        shows_grid(&s, grid),
{
    let mut hexes: Vec<(AxialCoord, HexSnapshot)> = Vec::new();
    let len: usize = grid.tiles.len();
    let mut i: usize = 0;
    while i < len
        invariant
            grid.wf(),
            len == grid.tiles@.len(),
            i <= len,
            hexes@.len() == count_land(grid.tiles@, i as int),
            hexes@.len() <= i,
            forall|k: int|
                0 <= k < hexes@.len() ==> grid.owner_at((#[trigger] hexes@[k]).0) == Some(
                    hexes@[k].1.owner,
                ),
            forall|j: int|
                0 <= j < i && grid.tiles@[j] is Some ==> exists|k: int|
                    0 <= k < hexes@.len() && (#[trigger] hexes@[k]).0 == coord_at(
                        grid.radius as int,
                        j,
                    ),
        decreases len - i,
    {
        match grid.tiles[i] {
            Some(t) => {
                let c = grid.coord(i);
                let ghost before = hexes@;
                hexes.push((c, HexSnapshot { owner: t.hex.owner }));
                proof {
                    assert(hexes@[before.len() as int].0 == c);
                    assert forall|j: int| 0 <= j < i && grid.tiles@[j] is Some implies exists|k: int|
                        0 <= k < hexes@.len() && (#[trigger] hexes@[k]).0 == coord_at(
                            grid.radius as int,
                            j,
                        ) by {
                        let k = choose|k: int|
                            0 <= k < before.len() && (#[trigger] before[k]).0 == coord_at(
                                grid.radius as int,
                                j,
                            );
                        assert(hexes@[k].0 == coord_at(grid.radius as int, j));
                    }
                }
            },
            None => {},
        }
        i += 1;
    }
    proof {
        assert forall|c: AxialCoord| grid.is_land(c) implies exists|k: int|
            0 <= k < hexes@.len() && (#[trigger] hexes@[k]).0 == c by {
            crate::grid::lemma_slot_roundtrip(grid.radius as int, c);
            let j = crate::grid::slot_of(grid.radius as int, c);
            assert(coord_at(grid.radius as int, j) == c);
        }
    }
    HexGridSnapshot { hexes, radius: grid.radius }
}

/// Whether a coordinate is a contested land hex.
pub open spec fn is_contested(grid: &HexGrid, c: AxialCoord) -> bool {
    grid.tile_at(c) is Some && grid.tile_at(c)->0.in_combat is Some
}

/// The coordinates of the contested hexes of a map, in table order.
pub fn combat_hexes(grid: &HexGrid) -> (r: Vec<AxialCoord>)
    requires
        grid.wf(),
    ensures
        forall|k: int| 0 <= k < r@.len() ==> is_contested(grid, #[trigger] r@[k]),
        forall|c: AxialCoord| is_contested(grid, c) ==> r@.contains(c),
{
    let mut out: Vec<AxialCoord> = Vec::new();
    let len: usize = grid.tiles.len();
    let mut i: usize = 0;
    while i < len
        invariant
            grid.wf(),
            len == grid.tiles@.len(),
            i <= len,
            forall|k: int| 0 <= k < out@.len() ==> is_contested(grid, #[trigger] out@[k]),
            forall|j: int|
                0 <= j < i && grid.tiles@[j] is Some && grid.tiles@[j]->0.in_combat is Some
                    ==> out@.contains(#[trigger] coord_at(grid.radius as int, j)),
        decreases len - i,
    {
        match grid.tiles[i] {
            Some(t) => {
                if t.in_combat.is_some() {
                    let c = grid.coord(i);
                    let ghost before = out@;
                    out.push(c);
                    proof {
                        assert(out@[before.len() as int] == c);
                        assert forall|j: int|
                            0 <= j < i && grid.tiles@[j] is Some
                                && grid.tiles@[j]->0.in_combat is Some implies out@.contains(
                            #[trigger] coord_at(grid.radius as int, j),
                        ) by {
                            let w = coord_at(grid.radius as int, j);
                            let k = choose|k: int| 0 <= k < before.len() && before[k] == w;
                            assert(out@[k] == w);
                        }
                    }
                }
            },
            None => {},
        }
        i += 1;
    }
    proof {
        assert forall|c: AxialCoord| is_contested(grid, c) implies out@.contains(c) by {
            crate::grid::lemma_slot_roundtrip(grid.radius as int, c);
            let j = crate::grid::slot_of(grid.radius as int, c);
            assert(coord_at(grid.radius as int, j) == c);
        }
    }
    out
}

/// Whether a snapshot shows an inhabitant as it is.
pub open spec fn shows_entity(s: EntitySnapshot, e: Entity, meta: &WorldMetadata) -> bool {
    &&& s.id == e.identity.id
    &&& s.name@ == e.identity.name@
    &&& s.faction == e.identity.faction
    &&& s.faction_label@ == faction_label_text(e.identity.faction)
    &&& s.biome == e.position.biome
    &&& s.biome_label@ == meta.biome_of(e.position.biome).label@
    &&& s.behavior_state == e.behavior.state
    &&& s.behavior_label@ == behavior_label_text(e.behavior.state)
    &&& s.currency == e.inventory.currency
    &&& s.wealth == e.attributes.wealth
    &&& s.fame == e.attributes.fame
}

pub fn entity_snapshot(meta: &WorldMetadata, e: &Entity) -> (s: EntitySnapshot)
    requires
        meta.wf(),
    ensures
        shows_entity(s, *e, meta),
{
    EntitySnapshot {
        id: e.identity.id,
        name: e.identity.name.clone(),
        faction: e.identity.faction,
        faction_label: String::from_str(faction_label(e.identity.faction)),
        biome: e.position.biome,
        biome_label: String::from_str(meta.biome_profile(e.position.biome).label),
        behavior_state: e.behavior.state,
        behavior_label: String::from_str(behavior_label(e.behavior.state)),
        currency: e.inventory.currency,
        wealth: e.attributes.wealth,
        fame: e.attributes.fame,
    }
}

pub fn entity_snapshots(meta: &WorldMetadata, entities: &Vec<Entity>) -> (r: Vec<EntitySnapshot>)
    requires
        meta.wf(),
    ensures
        r@.len() == entities@.len(),
        forall|k: int| 0 <= k < r@.len() ==> shows_entity(#[trigger] r@[k], entities@[k], meta),
{
    let mut out: Vec<EntitySnapshot> = Vec::new();
    let mut i: usize = 0;
    while i < entities.len()
        invariant
            meta.wf(),
            i <= entities@.len(),
            out@.len() == i,
            forall|k: int| 0 <= k < i ==> shows_entity(#[trigger] out@[k], entities@[k], meta),
        decreases entities@.len() - i,
    {
        out.push(entity_snapshot(meta, &entities[i]));
        i += 1;
    }
    out
}

/// Sum of the head counts of the living among the first `n` nations.
pub open spec fn living_population(metrics: Seq<NationMetrics>, n: int) -> int
    decreases n,
{
    if n <= 0 {
        0
    } else {
        living_population(metrics, n - 1) + if metrics[n - 1].is_destroyed {
            0
        } else {
            metrics[n - 1].population as int
        }
    }
}

/// Sum of the economies of the living among the first `n` nations.
pub open spec fn living_economy(metrics: Seq<NationMetrics>, n: int) -> int
    decreases n,
{
    if n <= 0 {
        0
    } else {
        living_economy(metrics, n - 1) + if metrics[n - 1].is_destroyed {
            0
        } else {
            metrics[n - 1].economy as int
        }
    }
}

/// Head count and economy of the living nations together.
pub fn world_totals(metrics: &AllNationMetrics) -> (r: (u64, i64))
    requires
        metrics.wf(),
    ensures
        r.0 == living_population(metrics.0@, NATION_COUNT as int),
        r.1 == living_economy(metrics.0@, NATION_COUNT as int),
{
    let mut people: u64 = 0;
    let mut economy: i64 = 0;
    let mut i: usize = 0;
    while i < NATION_COUNT
        invariant
            i <= NATION_COUNT,
            metrics.wf(),
            people == living_population(metrics.0@, i as int),
            economy == living_economy(metrics.0@, i as int),
            people <= i * POPULATION_MAX,
            0 <= economy <= i * METRIC_MAX,
        decreases NATION_COUNT - i,
    {
        let m = &metrics.0[i];
        if !m.is_destroyed {
            people = people + m.population;
            economy = economy + m.economy;
        }
        i += 1;
    }
    (people, economy)
}

/// Position of the largest of the first `n` entries; among equals the first.
pub open spec fn top_index(table: Seq<i64>, n: int) -> int
    decreases n,
{
    if n <= 1 {
        0
    } else {
        let best = top_index(table, n - 1);
        if table[n - 1] > table[best] {
            n - 1
        } else {
            best
        }
    }
}

/// The largest of the first `n` entries other than the one at `skip`; zero if
/// there is none.
pub open spec fn runner_up(table: Seq<i64>, skip: int, n: int) -> int
    decreases n,
{
    if n <= 0 {
        0
    } else {
        let rest = runner_up(table, skip, n - 1);
        if n - 1 != skip && table[n - 1] > rest {
            table[n - 1] as int
        } else {
            rest
        }
    }
}

/// Whether a snapshot shows the race as it stands.
pub open spec fn shows_race(
    s: &ScienceVictorySnapshot,
    tracker: &ScienceVictory,
    climate: &ClimateState,
    ledger: &CivilizationalLedger,
) -> bool {
    let lead = top_index(tracker.progress@, NATION_COUNT as int);
    &&& s.leader == Some(Nation::at(lead))
    &&& s.leader_progress == tracker.progress@[lead]
    &&& s.runner_up_progress == runner_up(tracker.progress@, lead, NATION_COUNT as int)
    &&& s.history@ == tracker.leader_history@
    &&& s.goal == tracker.goal
    &&& s.finished == tracker.finished
    &&& s.winner == tracker.winner
    &&& s.interstellar_mode == tracker.interstellar_mode
    &&& s.interstellar_progress == tracker.interstellar_progress
    &&& s.interstellar_goal == tracker.interstellar_goal
    &&& s.space_stage@ == tracker.space_stage.label_text()
    &&& s.mars_progress == tracker.mars_progress
    &&& s.mars_goal == tracker.mars_goal
    &&& s.jovian_progress == tracker.jovian_progress
    &&& s.jovian_goal == tracker.jovian_goal
    &&& s.carbon_ppm == climate.carbon_ppm
    &&& s.climate_risk == climate.climate_risk
    &&& s.biodiversity == climate.biodiversity
    &&& s.total_population == if ledger.population_history@.len() > 0 {
        ledger.population_history@.last()
    } else {
        0
    }
    &&& s.total_economy == if ledger.gdp_history@.len() > 0 {
        ledger.gdp_history@.last()
    } else {
        0
    }
    &&& s.population_history@ == ledger.population_history@
    &&& s.economy_history@ == ledger.gdp_history@
}

pub fn race_snapshot(
    tracker: &ScienceVictory,
    climate: &ClimateState,
    ledger: &CivilizationalLedger,
) -> (s: ScienceVictorySnapshot)
    requires
        tracker.wf(),
    ensures
        shows_race(&s, tracker, climate, ledger),
{
    let mut lead: usize = 0;
    let mut n: usize = 1;
    while n < NATION_COUNT
        invariant
            1 <= n <= NATION_COUNT,
            tracker.wf(),
            lead == top_index(tracker.progress@, n as int),
            lead < n,
        decreases NATION_COUNT - n,
    {
        if tracker.progress[n] > tracker.progress[lead] {
            lead = n;
        }
        n += 1;
    }
    let mut second: i64 = 0;
    let mut k: usize = 0;
    while k < NATION_COUNT
        invariant
            k <= NATION_COUNT,
            tracker.wf(),
            lead < NATION_COUNT,
            second == runner_up(tracker.progress@, lead as int, k as int),
        decreases NATION_COUNT - k,
    {
        if k != lead && tracker.progress[k] > second {
            second = tracker.progress[k];
        }
        k += 1;
    }
    let people = &ledger.population_history;
    let economy = &ledger.gdp_history;
    ScienceVictorySnapshot {
        leader: Some(Nation::from_index(lead)),
        leader_progress: tracker.progress[lead],
        runner_up_progress: second,
        history: copy_of(&tracker.leader_history),
        goal: tracker.goal,
        finished: tracker.finished,
        winner: tracker.winner,
        interstellar_mode: tracker.interstellar_mode,
        interstellar_progress: tracker.interstellar_progress,
        interstellar_goal: tracker.interstellar_goal,
        space_stage: String::from_str(tracker.space_stage.label()),
        mars_progress: tracker.mars_progress,
        mars_goal: tracker.mars_goal,
        jovian_progress: tracker.jovian_progress,
        jovian_goal: tracker.jovian_goal,
        carbon_ppm: climate.carbon_ppm,
        climate_risk: climate.climate_risk,
        biodiversity: climate.biodiversity,
        total_population: if people.len() > 0 {
            people[people.len() - 1]
        } else {
            0
        },
        total_economy: if economy.len() > 0 {
            economy[economy.len() - 1]
        } else {
            0
        },
        population_history: copy_of(people),
        economy_history: copy_of(economy),
    }
}

/// Whether an overlay snapshot shows the overlays as they are.
pub open spec fn shows_overlay(
    s: &WorldOverlaySnapshot,
    war_fatigue: &WarFatigue,
    blasts: &NuclearBlasts,
    richness: &WorldRichness,
    climate: &ClimateState,
    ideology: &IdeologyMatrix,
) -> bool {
    &&& s.war_fatigue == war_fatigue.intensity
    &&& s.fallout == blasts.total_of()
    &&& s.resource_richness == richness.richness
    &&& s.war_fatigue_history@ == war_fatigue.history@
    &&& s.richness_history@ == richness.history@
    &&& s.carbon_history@ == climate.carbon_history@
    &&& s.climate_risk_history@ == climate.climate_risk_history@
    &&& s.biodiversity_history@ == climate.biodiversity_history@
    &&& s.sea_level == climate.sea_level
    &&& s.ice_line == climate.ice_line
    &&& s.ideology_leaning@ == ideology.leaning@
    &&& s.ideology_cohesion@ == ideology.cohesion@
    &&& s.ideology_volatility@ == ideology.volatility@
}

pub fn overlay_snapshot(
    war_fatigue: &WarFatigue,
    blasts: &NuclearBlasts,
    richness: &WorldRichness,
    climate: &ClimateState,
    ideology: &IdeologyMatrix,
) -> (s: WorldOverlaySnapshot)
    requires
        blasts.wf(),
    ensures
        shows_overlay(&s, war_fatigue, blasts, richness, climate, ideology),
{
    WorldOverlaySnapshot {
        war_fatigue: war_fatigue.intensity,
        fallout: blasts.total(),
        resource_richness: richness.richness,
        war_fatigue_history: copy_of(&war_fatigue.history),
        richness_history: copy_of(&richness.history),
        carbon_history: copy_of(&climate.carbon_history),
        climate_risk_history: copy_of(&climate.climate_risk_history),
        biodiversity_history: copy_of(&climate.biodiversity_history),
        sea_level: climate.sea_level,
        ice_line: climate.ice_line,
        ideology_leaning: copy_of(&ideology.leaning),
        ideology_cohesion: copy_of(&ideology.cohesion),
        ideology_volatility: copy_of(&ideology.volatility),
    }
}

/// Whether a diplomatic snapshot shows relations as they are.
pub open spec fn shows_diplomacy(s: &DiplomaticSnapshot, diplo: &DiplomaticRelations) -> bool {
    &&& s.trust@ == diplo.trust@
    &&& s.fear@ == diplo.fear@
    &&& s.alliances@ == diplo.alliances@
    &&& s.sanctions@ == diplo.sanctions@
}

pub fn diplomatic_snapshot(diplo: &DiplomaticRelations) -> (s: DiplomaticSnapshot)
    ensures
        shows_diplomacy(&s, diplo),
{
    DiplomaticSnapshot {
        trust: copy_of(&diplo.trust),
        fear: copy_of(&diplo.fear),
        alliances: copy_of(&diplo.alliances),
        sanctions: copy_of(&diplo.sanctions),
    }
}

impl ObserverSnapshot {
    /// The snapshot of a world that has not ticked yet.
    pub fn new() -> (s: Self)
        ensures
            s.tick == 0,
            s.all_metrics.wf(),
            s.civ_state.wf(),
            forall|i: int| 0 <= i < NATION_COUNT ==> (#[trigger] s.all_metrics.0@[i]).is_initial(),
            s.entities@.len() == 0,
            s.events@.len() == 0,
            s.combat_hexes@.len() == 0,
            s.nuclear_hexes@.len() == 0,
            s.extinction_events == 0,
            s.cosmic_age_years == 0,
            s.timescale_years_per_tick == 1_000_000,
    {
        Self {
            tick: 0,
            epoch: String::from_str("새벽"),
            season: String::from_str("꽃피움 계절"),
            cosmic_age_years: 0,
            timescale_years_per_tick: 1_000_000,
            geologic_stage: String::from_str("행성 형성"),
            extinction_events: 0,
            season_effect: SeasonEffectSnapshot {
                label: String::from_str("온화한 바람"),
                temperature: 0,
                morale_shift: 0,
                yield_shift: 0,
                risk_shift: 0,
            },
            all_metrics: AllNationMetrics::default(),
            civ_state: AllNationCivState::default(),
            grid: HexGridSnapshot::default(),
            overlay: WorldOverlaySnapshot::default(),
            diplomacy: DiplomaticSnapshot::default(),
            science_victory: ScienceVictorySnapshot::default(),
            entities: Vec::new(),
            events: Vec::new(),
            combat_hexes: Vec::new(),
            nuclear_hexes: Vec::new(),
        }
    }

    /// Replaces everything the snapshot shows.
    pub fn update(
        &mut self,
        tick: u64,
        epoch: String,
        season: String,
        cosmic_age_years: u64,
        timescale_years_per_tick: u64,
        geologic_stage: String,
        extinction_events: u32,
        season_effect: SeasonEffectSnapshot,
        metrics: &AllNationMetrics,
        civ_state: AllNationCivState,
        grid: HexGridSnapshot,
        overlay: WorldOverlaySnapshot,
        diplomacy: DiplomaticSnapshot,
        science_victory: ScienceVictorySnapshot,
        entities: Vec<EntitySnapshot>,
        events: Vec<WorldEvent>,
        combat_hexes: Vec<AxialCoord>,
        nuclear_hexes: Vec<AxialCoord>,
    )
        ensures
            final(self).tick == tick,
            final(self).epoch == epoch,
            final(self).season == season,
            final(self).cosmic_age_years == cosmic_age_years,
            final(self).timescale_years_per_tick == timescale_years_per_tick,
            final(self).geologic_stage == geologic_stage,
            final(self).extinction_events == extinction_events,
            final(self).season_effect == season_effect,
            metrics.same_as(&final(self).all_metrics),
            final(self).civ_state == civ_state,
            final(self).grid == grid,
            final(self).overlay == overlay,
            final(self).diplomacy == diplomacy,
            final(self).science_victory == science_victory,
            final(self).entities == entities,
            final(self).events == events,
            final(self).combat_hexes == combat_hexes,
            final(self).nuclear_hexes == nuclear_hexes,
    {
        self.tick = tick;
        self.epoch = epoch;
        self.season = season;
        self.cosmic_age_years = cosmic_age_years;
        self.timescale_years_per_tick = timescale_years_per_tick;
        self.geologic_stage = geologic_stage;
        self.extinction_events = extinction_events;
        self.season_effect = season_effect;
        self.all_metrics = metrics.duplicate();
        self.civ_state = civ_state;
        self.grid = grid;
        self.overlay = overlay;
        self.diplomacy = diplomacy;
        self.science_victory = science_victory;
        self.entities = entities;
        self.events = events;
        self.combat_hexes = combat_hexes;
        self.nuclear_hexes = nuclear_hexes;
    }
}

impl Default for ObserverSnapshot {
    fn default() -> (s: Self)
        ensures
            s.tick == 0,
            s.all_metrics.wf(),
            s.civ_state.wf(),
    {
        Self::new()
    }
}

} // verus!
