//! The state every system reads and writes: per-nation metrics and the global resources.

use vstd::prelude::*;
use crate::fixed::SCALE;
use crate::history::HISTORY_CAP;
use crate::nation::Nation;
use crate::nation::NATION_COUNT;
use crate::technology::Era;
use crate::technology::Tech;
use crate::technology::WeaponTier;

verus! {

/// Largest value of any nation metric or civic reading, in millionths (250 units).
pub const METRIC_MAX: i64 = 250_000_000;

/// Largest research or culture stock, in millionths.
pub const STOCK_MAX: i64 = 1_000_000_000_000;

/// Largest population a nation can reach.
pub const POPULATION_MAX: u64 = 1_000_000_000_000;

/// Largest number of cities a nation can hold.
pub const CITY_MAX: u32 = 100_000;

/// Most leader samples the science race keeps.
pub const LEADER_HISTORY_CAP: usize = 256;

/// Whether a stored value lies in the metric range.
pub open spec fn is_metric(x: int) -> bool {
    0 <= x <= METRIC_MAX
}

/// Whether a table has one in-range entry per nation.
pub open spec fn per_nation_in(table: Seq<i64>, lo: int, hi: int) -> bool {
    &&& table.len() == NATION_COUNT
    &&& forall|i: int| 0 <= i < table.len() ==> lo <= #[trigger] table[i] <= hi
}

/// Whether every sample of a series lies in a range.
pub open spec fn series_in(series: Seq<i64>, lo: int, hi: int) -> bool {
    forall|i: int| 0 <= i < series.len() ==> lo <= #[trigger] series[i] <= hi
}

#[derive(Debug)]
pub struct NationMetrics {
    pub economy: i64,
    pub science: i64,
    pub culture: i64,
    pub diplomacy: i64,
    pub religion: i64,
    pub military: i64,
    pub territory: i64,
    pub is_destroyed: bool,
    pub era: Era,
    pub weapon_tier: WeaponTier,
    pub unlocked_techs: Vec<Tech>,
    pub research_stock: i64,
    pub culture_stock: i64,
    pub population: u64,
    pub youth: u64,
    pub adult: u64,
    pub elder: u64,
    pub productivity: i64,
    pub unemployment: i64,
    pub trade_penalty: i64,
}

impl NationMetrics {
    pub open spec fn wf(&self) -> bool {
        &&& is_metric(self.economy as int)
        &&& is_metric(self.science as int)
        &&& is_metric(self.culture as int)
        &&& is_metric(self.diplomacy as int)
        &&& is_metric(self.religion as int)
        &&& is_metric(self.military as int)
        &&& is_metric(self.territory as int)
        &&& 0 <= self.research_stock <= STOCK_MAX
        &&& 0 <= self.culture_stock <= STOCK_MAX
        &&& self.population == self.youth + self.adult + self.elder
        &&& self.population <= POPULATION_MAX
        &&& is_metric(self.productivity as int)
        &&& is_metric(self.unemployment as int)
        &&& is_metric(self.trade_penalty as int)
        &&& self.is_destroyed ==> self.population == 0 && self.territory == 0
    }

    /// The metrics after the head count is moved to `target` (capped at the
    /// population limit). Newcomers join the young; losses fall on adults first,
    /// then on the young, then on elders. A destroyed nation stays empty.
    pub open spec fn with_population(self, target: int) -> NationMetrics {
        let t = if target > POPULATION_MAX {
            POPULATION_MAX as int
        } else {
            target
        };
        if self.is_destroyed || t < 0 {
            self
        } else if t >= self.population {
            NationMetrics {
                population: t as u64,
                youth: (self.youth + (t - self.population)) as u64,
                ..self
            }
        } else {
            let loss = self.population - t;
            let from_adult = if loss <= self.adult {
                loss
            } else {
                self.adult as int
            };
            let rest = loss - from_adult;
            let from_youth = if rest <= self.youth {
                rest
            } else {
                self.youth as int
            };
            let from_elder = rest - from_youth;
            NationMetrics {
                population: t as u64,
                youth: (self.youth - from_youth) as u64,
                adult: (self.adult - from_adult) as u64,
                elder: (self.elder - from_elder) as u64,
                ..self
            }
        }
    }

    /// Whether `other` differs from these metrics at most in the head count and its
    /// split into age groups.
    pub open spec fn same_but_people(self, other: NationMetrics) -> bool {
        other == (NationMetrics {
            population: other.population,
            youth: other.youth,
            adult: other.adult,
            elder: other.elder,
            ..self
        })
    }

    /// The metrics of a nation that has just been wiped out.
    pub open spec fn destroyed(self) -> NationMetrics {
        NationMetrics {
            is_destroyed: true,
            population: 0,
            youth: 0,
            adult: 0,
            elder: 0,
            territory: 0,
            ..self
        }
    }

    /// Moves the head count to `target`, keeping the three age groups in step.
    pub fn set_population(&mut self, target: u64)
        requires
            old(self).wf(),
        ensures
            *final(self) == old(self).with_population(target as int),
            final(self).wf(),
            !old(self).is_destroyed ==> final(self).population == if target > POPULATION_MAX {
                POPULATION_MAX
            } else {
                target
            },
    {
        let t: u64 = if target > POPULATION_MAX {
            POPULATION_MAX
        } else {
            target
        };
        if self.is_destroyed {
            return ;
        }
        if t >= self.population {
            self.youth = self.youth + (t - self.population);
            self.population = t;
        } else {
            let loss: u64 = self.population - t;
            let from_adult: u64 = if loss <= self.adult {
                loss
            } else {
                self.adult
            };
            let rest: u64 = loss - from_adult;
            let from_youth: u64 = if rest <= self.youth {
                rest
            } else {
                self.youth
            };
            let from_elder: u64 = rest - from_youth;
            self.youth = self.youth - from_youth;
            self.adult = self.adult - from_adult;
            self.elder = self.elder - from_elder;
            self.population = t;
        }
    }

    /// Removes up to `loss` people.
    pub fn lose_population(&mut self, loss: u64)
        requires
            old(self).wf(),
        ensures
            *final(self) == old(self).with_population(
                if loss >= old(self).population {
                    0
                } else {
                    old(self).population - loss
                },
            ),
            final(self).wf(),
            final(self).population <= old(self).population,
    {
        let target: u64 = if loss >= self.population {
            0
        } else {
            self.population - loss
        };
        self.set_population(target);
    }

    /// Marks the nation destroyed and empties it.
    pub fn destroy(&mut self)
        requires
            old(self).wf(),
        ensures
            *final(self) == old(self).destroyed(),
            final(self).wf(),
    {
        self.is_destroyed = true;
        self.population = 0;
        self.youth = 0;
        self.adult = 0;
        self.elder = 0;
        self.territory = 0;
    }

    /// Whether `other` holds the same figures and the same techs in the same order.
    pub open spec fn same_as(self, other: NationMetrics) -> bool {
        &&& other.unlocked_techs@ == self.unlocked_techs@
        &&& other == (NationMetrics { unlocked_techs: other.unlocked_techs, ..self })
    }

    /// A copy of these metrics.
    pub fn duplicate(&self) -> (r: NationMetrics)
        ensures
            self.same_as(r),
            self.wf() ==> r.wf(),
    {
        let mut techs: Vec<Tech> = Vec::new();
        let mut i: usize = 0;
        while i < self.unlocked_techs.len()
            invariant
                i <= self.unlocked_techs@.len(),
                techs@ == self.unlocked_techs@.subrange(0, i as int),
            decreases self.unlocked_techs@.len() - i,
        {
            techs.push(self.unlocked_techs[i]);
            assert(techs@ =~= self.unlocked_techs@.subrange(0, i as int + 1));
            i += 1;
        }
        assert(techs@ =~= self.unlocked_techs@);
        NationMetrics {
            economy: self.economy,
            science: self.science,
            culture: self.culture,
            diplomacy: self.diplomacy,
            religion: self.religion,
            military: self.military,
            territory: self.territory,
            is_destroyed: self.is_destroyed,
            era: self.era,
            weapon_tier: self.weapon_tier,
            unlocked_techs: techs,
            research_stock: self.research_stock,
            culture_stock: self.culture_stock,
            population: self.population,
            youth: self.youth,
            adult: self.adult,
            elder: self.elder,
            productivity: self.productivity,
            unemployment: self.unemployment,
            trade_penalty: self.trade_penalty,
        }
    }

    /// Whether these are the metrics every nation starts with.
    pub open spec fn is_initial(&self) -> bool {
        &&& self.economy == 50 * SCALE
        &&& self.science == 20 * SCALE
        &&& self.culture == 30 * SCALE
        &&& self.diplomacy == 30 * SCALE
        &&& self.religion == 25 * SCALE
        &&& self.military == 20 * SCALE
        &&& self.territory == 33_330_000
        &&& !self.is_destroyed
        &&& self.era == Era::Dawn
        &&& self.weapon_tier == WeaponTier::KnappedStone
        &&& self.unlocked_techs@ =~= seq![Tech::Knapping]
        &&& self.research_stock == 0
        &&& self.culture_stock == 0
        &&& self.population == 3_000_000
        &&& self.youth == 900_000
        &&& self.adult == 1_800_000
        &&& self.elder == 300_000
        &&& self.productivity == SCALE
        &&& self.unemployment == 6 * SCALE
        &&& self.trade_penalty == 0
    }
}

impl Default for NationMetrics {
    fn default() -> (m: Self)
        ensures
            m.is_initial(),
            m.wf(),
    {
        Self {
            economy: 50 * SCALE,
            science: 20 * SCALE,
            culture: 30 * SCALE,
            diplomacy: 30 * SCALE,
            religion: 25 * SCALE,
            military: 20 * SCALE,
            territory: 33_330_000,
            is_destroyed: false,
            era: Era::Dawn,
            weapon_tier: WeaponTier::KnappedStone,
            unlocked_techs: vec![Tech::Knapping],
            research_stock: 0,
            culture_stock: 0,
            population: 3_000_000,
            youth: 900_000,
            adult: 1_800_000,
            elder: 300_000,
            productivity: SCALE,
            unemployment: 6 * SCALE,
            trade_penalty: 0,
        }
    }
}

#[derive(Clone, Copy, Debug)]
pub struct NationCivState {
    pub cities: u32,
    pub happiness: i64,
    pub stability: i64,
    pub production: i64,
}

impl NationCivState {
    pub open spec fn wf(&self) -> bool {
        &&& self.cities <= CITY_MAX
        &&& is_metric(self.happiness as int)
        &&& is_metric(self.stability as int)
        &&& is_metric(self.production as int)
    }

    /// The civic state of a nation that has been wiped out.
    pub open spec fn razed() -> NationCivState {
        NationCivState { cities: 0, happiness: 0, stability: 0, production: 0 }
    }

    pub open spec fn is_initial(&self) -> bool {
        &&& self.cities == 2
        &&& self.happiness == 65 * SCALE
        &&& self.stability == 60 * SCALE
        &&& self.production == 40 * SCALE
    }
}

impl Default for NationCivState {
    fn default() -> (s: Self)
        ensures
            s.is_initial(),
            s.wf(),
    {
        Self { cities: 2, happiness: 65 * SCALE, stability: 60 * SCALE, production: 40 * SCALE }
    }
}

/// Civic state of all nations, indexed by `Nation::index`.
#[derive(Debug)]
pub struct AllNationCivState(pub Vec<NationCivState>);

impl AllNationCivState {
    pub open spec fn wf(&self) -> bool {
        &&& self.0@.len() == NATION_COUNT
        &&& forall|i: int| 0 <= i < self.0@.len() ==> (#[trigger] self.0@[i]).wf()
    }

    pub open spec fn of(&self, nation: Nation) -> NationCivState {
        self.0@[nation.index_of()]
    }

    pub fn get(&self, nation: Nation) -> (r: &NationCivState)
        requires
            self.wf(),
        ensures
            *r == self.of(nation),
    {
        &self.0[nation.index()]
    }
}

impl Default for AllNationCivState {
    fn default() -> (s: Self)
        ensures
            s.wf(),
            forall|i: int| 0 <= i < NATION_COUNT ==> (#[trigger] s.0@[i]).is_initial(),
    {
        let mut states: Vec<NationCivState> = Vec::new();
        let mut i: usize = 0;
        while i < NATION_COUNT
            invariant
                i <= NATION_COUNT,
                states@.len() == i,
                forall|j: int| 0 <= j < i ==> (#[trigger] states@[j]).is_initial() && states@[j].wf(),
            decreases NATION_COUNT - i,
        {
            states.push(NationCivState::default());
            i += 1;
        }
        AllNationCivState(states)
    }
}

/// Metrics of all nations, indexed by `Nation::index`.
#[derive(Debug)]
pub struct AllNationMetrics(pub Vec<NationMetrics>);

impl AllNationMetrics {
    pub open spec fn wf(&self) -> bool {
        &&& self.0@.len() == NATION_COUNT
        &&& forall|i: int| 0 <= i < self.0@.len() ==> (#[trigger] self.0@[i]).wf()
    }

    pub open spec fn of(&self, nation: Nation) -> NationMetrics {
        self.0@[nation.index_of()]
    }

    pub fn get(&self, nation: Nation) -> (r: &NationMetrics)
        requires
            self.wf(),
        ensures
            *r == self.of(nation),
    {
        &self.0[nation.index()]
    }
}

impl AllNationMetrics {
    /// Whether `other` holds the same metrics for every nation.
    pub open spec fn same_as(&self, other: &AllNationMetrics) -> bool {
        &&& other.0@.len() == self.0@.len()
        &&& forall|i: int| 0 <= i < self.0@.len() ==> (#[trigger] self.0@[i]).same_as(other.0@[i])
    }

    /// A copy of the metrics of all nations.
    pub fn duplicate(&self) -> (r: AllNationMetrics)
        ensures
            self.same_as(&r),
            self.wf() ==> r.wf(),
    {
        let mut out: Vec<NationMetrics> = Vec::new();
        let mut i: usize = 0;
        while i < self.0.len()
            invariant
                i <= self.0@.len(),
                out@.len() == i,
                forall|j: int| 0 <= j < i ==> (#[trigger] self.0@[j]).same_as(out@[j]),
                self.wf() ==> forall|j: int| 0 <= j < i ==> (#[trigger] out@[j]).wf(),
            decreases self.0@.len() - i,
        {
            out.push(self.0[i].duplicate());
            i += 1;
        }
        AllNationMetrics(out)
    }
}

impl Default for AllNationMetrics {
    fn default() -> (s: Self)
        ensures
            s.wf(),
            forall|i: int| 0 <= i < NATION_COUNT ==> (#[trigger] s.0@[i]).is_initial(),
    {
        let mut metrics: Vec<NationMetrics> = Vec::new();
        let mut i: usize = 0;
        while i < NATION_COUNT
            invariant
                i <= NATION_COUNT,
                metrics@.len() == i,
                forall|j: int|
                    0 <= j < i ==> (#[trigger] metrics@[j]).is_initial() && metrics@[j].wf(),
            decreases NATION_COUNT - i,
        {
            metrics.push(NationMetrics::default());
            i += 1;
        }
        AllNationMetrics(metrics)
    }
}

/// Whether no nation has come back from destruction and every destroyed nation is
/// still empty, between an earlier and a later state.
pub open spec fn destruction_is_final(before: Seq<NationMetrics>, after: Seq<NationMetrics>) -> bool {
    &&& before.len() == after.len()
    &&& forall|i: int|
        0 <= i < before.len() && (#[trigger] before[i]).is_destroyed ==> after[i].is_destroyed
}

/// Whether exactly the same nations are destroyed in both states.
pub open spec fn same_fates(before: Seq<NationMetrics>, after: Seq<NationMetrics>) -> bool {
    &&& before.len() == after.len()
    &&& forall|i: int|
        0 <= i < before.len() ==> (#[trigger] after[i]).is_destroyed == before[i].is_destroyed
}

/// Whether every destroyed nation has neither people nor cities.
pub open spec fn destroyed_are_empty(metrics: Seq<NationMetrics>, civ: Seq<NationCivState>) -> bool {
    &&& metrics.len() == civ.len()
    &&& forall|i: int|
        0 <= i < metrics.len() && (#[trigger] metrics[i]).is_destroyed ==> metrics[i].population
            == 0 && civ[i].cities == 0
}

/// The head count of every well-formed nation is the sum of its three age groups,
/// and a destroyed nation has no people and no territory.
pub proof fn lemma_head_count_is_sum(m: NationMetrics)
    requires
        m.wf(),
    ensures
        m.population == m.youth + m.adult + m.elder,
        m.is_destroyed ==> m.population == 0 && m.youth == 0 && m.adult == 0 && m.elder == 0
            && m.territory == 0,
{
}

/// A table with one copy of `value` per nation.
pub fn per_nation(value: i64) -> (table: Vec<i64>)
    ensures
        table@.len() == NATION_COUNT,
        forall|i: int| 0 <= i < NATION_COUNT ==> table@[i] == value,
{
    let mut table: Vec<i64> = Vec::new();
    let mut i: usize = 0;
    while i < NATION_COUNT
        invariant
            i <= NATION_COUNT,
            table@.len() == i,
            forall|j: int| 0 <= j < i ==> table@[j] == value,
        decreases NATION_COUNT - i,
    {
        table.push(value);
        i += 1;
    }
    table
}

/// Global weariness from war, 0 to 100 units.
#[derive(Debug)]
pub struct WarFatigue {
    pub intensity: i64,
    pub history: Vec<i64>,
}

impl WarFatigue {
    pub open spec fn wf(&self) -> bool {
        &&& 0 <= self.intensity <= 100 * SCALE
        &&& self.history@.len() <= HISTORY_CAP
    }
}

impl Default for WarFatigue {
    fn default() -> (s: Self)
        ensures
            s.wf(),
            s.intensity == 0,
            s.history@.len() == 0,
    {
        Self { intensity: 0, history: Vec::new() }
    }
}

/// Largest stored richness, in millionths: two and a half units.
pub const RICHNESS_MAX: i64 = 2_500_000;

/// Aggregate prosperity of the world: the mean of economy and science of the
/// living nations, in hundreds of units.
#[derive(Debug)]
pub struct WorldRichness {
    pub richness: i64,
    pub history: Vec<i64>,
}

impl WorldRichness {
    pub open spec fn wf(&self) -> bool {
        &&& 0 <= self.richness <= RICHNESS_MAX
        &&& self.history@.len() <= HISTORY_CAP
    }
}

impl Default for WorldRichness {
    fn default() -> (s: Self)
        ensures
            s.wf(),
            s.richness == 0,
            s.history@.len() == 0,
    {
        Self { richness: 0, history: Vec::new() }
    }
}

/// Per-nation ideology: leaning (0 traditional to 100 progressive), cohesion and volatility.
#[derive(Debug)]
pub struct IdeologyMatrix {
    pub leaning: Vec<i64>,
    pub cohesion: Vec<i64>,
    pub volatility: Vec<i64>,
}

impl IdeologyMatrix {
    pub open spec fn wf(&self) -> bool {
        &&& per_nation_in(self.leaning@, 0, 100 * SCALE)
        &&& per_nation_in(self.cohesion@, 0, 120 * SCALE)
        &&& per_nation_in(self.volatility@, 0, 140 * SCALE)
    }
}

impl Default for IdeologyMatrix {
    fn default() -> (s: Self)
        ensures
            s.wf(),
            forall|i: int|
                0 <= i < NATION_COUNT ==> s.leaning@[i] == 50 * SCALE && s.cohesion@[i] == 55
                    * SCALE && s.volatility@[i] == 20 * SCALE,
    {
        Self {
            leaning: per_nation(50 * SCALE),
            cohesion: per_nation(55 * SCALE),
            volatility: per_nation(20 * SCALE),
        }
    }
}

/// Number of slots in the pairwise relation table.
pub const RELATION_SLOTS: usize = 25;

/// Slot of the relation between two nations; both orders share one slot.
pub open spec fn relation_slot(a: Nation, b: Nation) -> int {
    if a.index_of() < b.index_of() {
        a.index_of() * NATION_COUNT as int + b.index_of()
    } else {
        b.index_of() * NATION_COUNT as int + a.index_of()
    }
}

/// Pairwise relations and the treaties that grew out of them.
#[derive(Debug)]
pub struct DiplomaticRelations {
    /// Symmetric score per pair, -100 to 100 units.
    pub relations: Vec<i64>,
    /// Alliances, each pair with the lower-indexed nation first.
    pub alliances: Vec<(Nation, Nation)>,
    /// Sanctions, issuer first.
    pub sanctions: Vec<(Nation, Nation)>,
    pub trust: Vec<i64>,
    pub fear: Vec<i64>,
}

/// Whether no pair occurs twice in a treaty list.
pub open spec fn pairs_distinct(pairs: Seq<(Nation, Nation)>) -> bool {
    forall|i: int, j: int| 0 <= i < j < pairs.len() ==> pairs[i] != pairs[j]
}

/// How often a pair occurs in a treaty list.
pub open spec fn pair_count(pairs: Seq<(Nation, Nation)>, pair: (Nation, Nation)) -> int
    decreases pairs.len(),
{
    if pairs.len() == 0 {
        0
    } else {
        pair_count(pairs.drop_last(), pair) + if pairs.last() == pair {
            1int
        } else {
            0int
        }
    }
}

impl DiplomaticRelations {
    pub open spec fn wf(&self) -> bool {
        &&& self.relations@.len() == RELATION_SLOTS
        &&& forall|i: int|
            0 <= i < self.relations@.len() ==> -100 * SCALE <= #[trigger] self.relations@[i] <= 100
                * SCALE
        &&& per_nation_in(self.trust@, 0, 100 * SCALE)
        &&& per_nation_in(self.fear@, 0, 100 * SCALE)
        &&& pairs_distinct(self.alliances@)
        &&& pairs_distinct(self.sanctions@)
    }

    pub open spec fn relation_of(&self, a: Nation, b: Nation) -> int {
        self.relations@[relation_slot(a, b)] as int
    }

    /// The score between two nations; the order of the two does not matter.
    pub fn relation(&self, a: Nation, b: Nation) -> (r: i64)
        requires
            self.wf(),
        ensures
            r == self.relation_of(a, b),
            r == self.relation_of(b, a),
    {
        let i: usize = a.index();
        let j: usize = b.index();
        if i < j {
            self.relations[i * NATION_COUNT + j]
        } else {
            self.relations[j * NATION_COUNT + i]
        }
    }

    /// Sets the score between two nations, limited to -100..100 units.
    pub fn set_relation(&mut self, a: Nation, b: Nation, score: i64)
        requires
            old(self).wf(),
        ensures
            final(self).wf(),
            final(self).relations@ == old(self).relations@.update(
                relation_slot(a, b),
                crate::fixed::clamp_int(score as int, -100 * SCALE, 100 * SCALE) as i64,
            ),
            final(self).alliances == old(self).alliances,
            final(self).sanctions == old(self).sanctions,
            final(self).trust == old(self).trust,
            final(self).fear == old(self).fear,
    {
        let i: usize = a.index();
        let j: usize = b.index();
        let slot: usize = if i < j {
            i * NATION_COUNT + j
        } else {
            j * NATION_COUNT + i
        };
        let v: i64 = crate::fixed::clamp(score, -100 * SCALE, 100 * SCALE);
        self.relations.set(slot, v);
    }
}

impl Default for DiplomaticRelations {
    fn default() -> (s: Self)
        ensures
            s.wf(),
            forall|i: int| 0 <= i < RELATION_SLOTS ==> s.relations@[i] == 10 * SCALE,
            forall|i: int|
                0 <= i < NATION_COUNT ==> s.trust@[i] == 40 * SCALE && s.fear@[i] == 35 * SCALE,
            s.alliances@.len() == 0,
            s.sanctions@.len() == 0,
    {
        let mut relations: Vec<i64> = Vec::new();
        let mut i: usize = 0;
        while i < RELATION_SLOTS
            invariant
                i <= RELATION_SLOTS,
                relations@.len() == i,
                forall|j: int| 0 <= j < i ==> relations@[j] == 10 * SCALE,
            decreases RELATION_SLOTS - i,
        {
            relations.push(10 * SCALE);
            i += 1;
        }
        Self {
            relations,
            alliances: Vec::new(),
            sanctions: Vec::new(),
            trust: per_nation(40 * SCALE),
            fear: per_nation(35 * SCALE),
        }
    }
}

/// Golden-age and decline momentum per nation, 0 to 120 units each.
#[derive(Debug)]
pub struct CivilizationalCycles {
    pub golden_age: Vec<i64>,
    pub decline: Vec<i64>,
}

impl CivilizationalCycles {
    pub open spec fn wf(&self) -> bool {
        &&& per_nation_in(self.golden_age@, 0, 120 * SCALE)
        &&& per_nation_in(self.decline@, 0, 120 * SCALE)
    }
}

impl Default for CivilizationalCycles {
    fn default() -> (s: Self)
        ensures
            s.wf(),
            forall|i: int| 0 <= i < NATION_COUNT ==> s.golden_age@[i] == 0 && s.decline@[i] == 0,
    {
        Self { golden_age: per_nation(0), decline: per_nation(0) }
    }
}

/// Lowest carbon level a tick of the climate leaves, in millionths of a ppm. A
/// mass extinction can reset the carbon to less; the next tick of the climate
/// lifts it back.
pub const CARBON_MIN: i64 = 180_000_000;

/// Highest carbon level, in millionths of a ppm.
pub const CARBON_MAX: i64 = 1_500_000_000;

pub const RISK_MAX: i64 = 140_000_000;

pub const BIODIVERSITY_MIN: i64 = 5_000_000;

pub const BIODIVERSITY_MAX: i64 = 120_000_000;

/// The planet's climate: carbon in ppm, risk and biodiversity in units, sea level and
/// ice line as fractions of the map.
#[derive(Debug)]
pub struct ClimateState {
    pub carbon_ppm: i64,
    pub climate_risk: i64,
    pub biodiversity: i64,
    pub carbon_history: Vec<i64>,
    pub climate_risk_history: Vec<i64>,
    pub biodiversity_history: Vec<i64>,
    pub sea_level: i64,
    pub ice_line: i64,
}

impl ClimateState {
    pub open spec fn wf(&self) -> bool {
        &&& 0 <= self.carbon_ppm <= CARBON_MAX
        &&& 0 <= self.climate_risk <= RISK_MAX
        &&& BIODIVERSITY_MIN <= self.biodiversity <= BIODIVERSITY_MAX
        &&& 0 <= self.sea_level <= SCALE
        &&& 0 <= self.ice_line <= SCALE
        &&& self.carbon_history@.len() <= HISTORY_CAP
        &&& self.climate_risk_history@.len() <= HISTORY_CAP
        &&& self.biodiversity_history@.len() <= HISTORY_CAP
    }
}

impl Default for ClimateState {
    fn default() -> (s: Self)
        ensures
            s.wf(),
            s.carbon_ppm == 320 * SCALE,
            s.climate_risk == 6 * SCALE,
            s.biodiversity == 85 * SCALE,
            s.sea_level == 80_000,
            s.ice_line == 300_000,
            s.carbon_history@ =~= seq![320_000_000i64],
            s.climate_risk_history@ =~= seq![6_000_000i64],
            s.biodiversity_history@ =~= seq![85_000_000i64],
    {
        Self {
            carbon_ppm: 320 * SCALE,
            climate_risk: 6 * SCALE,
            biodiversity: 85 * SCALE,
            carbon_history: vec![320 * SCALE],
            climate_risk_history: vec![6 * SCALE],
            biodiversity_history: vec![85 * SCALE],
            sea_level: 80_000,
            ice_line: 300_000,
        }
    }
}

/// How far the space programme has come.
#[derive(Clone, Copy, Debug, PartialEq, Eq, Structural, Hash)]
pub enum SpaceStage {
    Moon,
    Mars,
    Jovian,
    Interstellar,
}

impl SpaceStage {
    pub open spec fn label_text(self) -> Seq<char> {
        match self {
            SpaceStage::Moon => "달"@,
            SpaceStage::Mars => "화성"@,
            SpaceStage::Jovian => "목성권"@,
            SpaceStage::Interstellar => "성간"@,
        }
    }

    pub fn label(&self) -> (r: &'static str)
        ensures
            r@ == self.label_text(),
    {
        match self {
            SpaceStage::Moon => "달",
            SpaceStage::Mars => "화성",
            SpaceStage::Jovian => "목성권",
            SpaceStage::Interstellar => "성간",
        }
    }
}

impl Default for SpaceStage {
    fn default() -> (s: Self)
        ensures
            s == SpaceStage::Moon,
    {
        SpaceStage::Moon
    }
}

/// The phase of the science race, including its end.
#[derive(Clone, Copy, Debug, PartialEq, Eq, Structural, Hash)]
pub enum RacePhase {
    Moon,
    Mars,
    Jovian,
    Interstellar,
    Finished,
}

impl RacePhase {
    pub open spec fn rank(self) -> int {
        match self {
            RacePhase::Moon => 0,
            RacePhase::Mars => 1,
            RacePhase::Jovian => 2,
            RacePhase::Interstellar => 3,
            RacePhase::Finished => 4,
        }
    }
}

/// Progress of the race to the Moon and beyond.
#[derive(Debug)]
pub struct ScienceVictory {
    pub progress: Vec<i64>,
    pub goal: i64,
    pub leader_history: Vec<i64>,
    pub milestones: Vec<u8>,
    pub finished: bool,
    pub winner: Option<Nation>,
    pub interstellar_mode: bool,
    pub interstellar_progress: i64,
    pub interstellar_goal: i64,
    pub space_stage: SpaceStage,
    pub mars_progress: i64,
    pub mars_goal: i64,
    pub mars_done: bool,
    pub jovian_progress: i64,
    pub jovian_goal: i64,
    pub jovian_done: bool,
    pub moon_done: bool,
}

impl ScienceVictory {
    /// Whether the race stands at its start: every goal at a hundred, no
    /// progress, no milestone, no leader recorded, the Moon ahead.
    pub open spec fn is_initial(&self) -> bool {
        &&& self.goal == 100 * SCALE
        &&& self.mars_goal == 100 * SCALE
        &&& self.jovian_goal == 100 * SCALE
        &&& self.interstellar_goal == 100 * SCALE
        &&& self.progress@ =~= Seq::new(NATION_COUNT as nat, |i: int| 0i64)
        &&& self.milestones@ =~= Seq::new(NATION_COUNT as nat, |i: int| 0u8)
        &&& self.leader_history@.len() == 0
        &&& self.mars_progress == 0
        &&& self.jovian_progress == 0
        &&& self.interstellar_progress == 0
        &&& self.space_stage == SpaceStage::Moon
        &&& self.winner is None
        &&& !self.finished
        &&& !self.interstellar_mode
        &&& !self.moon_done
        &&& !self.mars_done
        &&& !self.jovian_done
    }

    /// Whether two states of the race have the same four goals.
    pub open spec fn same_goals(&self, other: &ScienceVictory) -> bool {
        &&& self.goal == other.goal
        &&& self.mars_goal == other.mars_goal
        &&& self.jovian_goal == other.jovian_goal
        &&& self.interstellar_goal == other.interstellar_goal
    }

    pub open spec fn wf(&self) -> bool {
        &&& SCALE <= self.goal <= METRIC_MAX
        &&& SCALE <= self.mars_goal <= METRIC_MAX
        &&& SCALE <= self.jovian_goal <= METRIC_MAX
        &&& SCALE <= self.interstellar_goal <= METRIC_MAX
        &&& per_nation_in(self.progress@, 0, self.goal as int)
        &&& self.milestones@.len() == NATION_COUNT
        &&& forall|i: int| 0 <= i < self.milestones@.len() ==> #[trigger] self.milestones@[i] <= 4
        &&& self.leader_history@.len() <= LEADER_HISTORY_CAP
        &&& series_in(self.leader_history@, 0, self.goal as int)
        &&& 0 <= self.mars_progress <= self.mars_goal
        &&& 0 <= self.jovian_progress <= self.jovian_goal
        &&& 0 <= self.interstellar_progress <= self.interstellar_goal
        &&& self.moon_done <==> self.space_stage != SpaceStage::Moon
        &&& self.moon_done ==> self.winner is Some
        &&& self.mars_done <==> (self.space_stage == SpaceStage::Jovian || self.space_stage
            == SpaceStage::Interstellar)
        &&& self.jovian_done <==> self.space_stage == SpaceStage::Interstellar
        &&& self.interstellar_mode <==> (self.space_stage == SpaceStage::Interstellar
            && !self.finished)
        &&& self.finished ==> self.space_stage == SpaceStage::Interstellar
    }

    /// The phase the race is in.
    pub open spec fn phase_of(&self) -> RacePhase {
        if self.finished {
            RacePhase::Finished
        } else {
            match self.space_stage {
                SpaceStage::Moon => RacePhase::Moon,
                SpaceStage::Mars => RacePhase::Mars,
                SpaceStage::Jovian => RacePhase::Jovian,
                SpaceStage::Interstellar => RacePhase::Interstellar,
            }
        }
    }

    /// Progress of the current phase's leader and the goal it is measured against.
    pub open spec fn leader_progress_of(&self) -> int {
        match self.phase_of() {
            RacePhase::Moon => max_of_table(self.progress@, self.progress@.len() as int),
            RacePhase::Mars => self.mars_progress as int,
            RacePhase::Jovian => self.jovian_progress as int,
            RacePhase::Interstellar => self.interstellar_progress as int,
            RacePhase::Finished => self.interstellar_progress as int,
        }
    }

    pub fn phase(&self) -> (p: RacePhase)
        ensures
            p == self.phase_of(),
    {
        if self.finished {
            RacePhase::Finished
        } else {
            match self.space_stage {
                SpaceStage::Moon => RacePhase::Moon,
                SpaceStage::Mars => RacePhase::Mars,
                SpaceStage::Jovian => RacePhase::Jovian,
                SpaceStage::Interstellar => RacePhase::Interstellar,
            }
        }
    }
}

/// Largest of the first `n` entries of a table of non-negative values.
pub open spec fn max_of_table(table: Seq<i64>, n: int) -> int
    decreases n,
{
    if n <= 0 {
        0
    } else {
        let rest = max_of_table(table, n - 1);
        if table[n - 1] > rest {
            table[n - 1] as int
        } else {
            rest
        }
    }
}

pub proof fn lemma_max_of_table_bounds(table: Seq<i64>, n: int, hi: int)
    requires
        0 <= n <= table.len(),
        0 <= hi,
        forall|i: int| 0 <= i < table.len() ==> 0 <= #[trigger] table[i] <= hi,
    ensures
        0 <= max_of_table(table, n) <= hi,
    decreases n,
{
    if n > 0 {
        lemma_max_of_table_bounds(table, n - 1, hi);
    }
}

/// In every phase of a well-formed race the leader's progress lies between
/// nothing and a hundred units' worth of goal, and a race that is finished or
/// past the Moon has a winner.
pub proof fn lemma_leader_within_goal(race: &ScienceVictory)
    requires
        race.wf(),
    ensures
        0 <= race.leader_progress_of() <= METRIC_MAX,
        race.phase_of() == RacePhase::Moon ==> race.leader_progress_of() <= race.goal,
        race.phase_of() == RacePhase::Mars ==> race.leader_progress_of() <= race.mars_goal,
        race.phase_of() == RacePhase::Jovian ==> race.leader_progress_of() <= race.jovian_goal,
        race.phase_of().rank() >= 3 ==> race.leader_progress_of() <= race.interstellar_goal,
        race.phase_of() != RacePhase::Moon ==> race.winner is Some,
        race.finished ==> race.space_stage == SpaceStage::Interstellar,
{
    lemma_max_of_table_bounds(race.progress@, race.progress@.len() as int, race.goal as int);
}

impl Default for ScienceVictory {
    fn default() -> (s: Self)
        ensures
            s.wf(),
            s.is_initial(),
            s.phase_of() == RacePhase::Moon,
            s.goal == 100 * SCALE,
            s.winner is None,
            forall|i: int| 0 <= i < NATION_COUNT ==> s.progress@[i] == 0,
    {
        let mut milestones: Vec<u8> = Vec::new();
        let mut i: usize = 0;
        while i < NATION_COUNT
            invariant
                i <= NATION_COUNT,
                milestones@.len() == i,
                forall|j: int| 0 <= j < i ==> milestones@[j] == 0,
            decreases NATION_COUNT - i,
        {
            milestones.push(0);
            i += 1;
        }
        Self {
            progress: per_nation(0),
            goal: 100 * SCALE,
            leader_history: Vec::new(),
            milestones,
            finished: false,
            winner: None,
            interstellar_mode: false,
            interstellar_progress: 0,
            interstellar_goal: 100 * SCALE,
            space_stage: SpaceStage::Moon,
            mars_progress: 0,
            mars_goal: 100 * SCALE,
            mars_done: false,
            jovian_progress: 0,
            jovian_goal: 100 * SCALE,
            jovian_done: false,
            moon_done: false,
        }
    }
}

/// The label of the geologic age the planet is in.
#[derive(Clone, Copy, Debug, PartialEq, Eq, Structural, Hash)]
pub enum GeologicStage {
    PlanetFormation,
    PrimordialCrust,
    AncientOcean,
    OxygenBloom,
    ContinentalSplit,
    ExtinctionCycle,
    SpaceAge,
}

impl GeologicStage {
    pub open spec fn label_text(self) -> Seq<char> {
        match self {
            GeologicStage::PlanetFormation => "행성 형성"@,
            GeologicStage::PrimordialCrust => "Primordial Crust"@,
            GeologicStage::AncientOcean => "Ancient Ocean"@,
            GeologicStage::OxygenBloom => "Oxygen Bloom"@,
            GeologicStage::ContinentalSplit => "Cambrian/Continental Split"@,
            GeologicStage::ExtinctionCycle => "Extinction Cycle"@,
            GeologicStage::SpaceAge => "Civilization/Space Age"@,
        }
    }

    pub fn label(&self) -> (r: &'static str)
        ensures
            r@ == self.label_text(),
    {
        match self {
            GeologicStage::PlanetFormation => "행성 형성",
            GeologicStage::PrimordialCrust => "Primordial Crust",
            GeologicStage::AncientOcean => "Ancient Ocean",
            GeologicStage::OxygenBloom => "Oxygen Bloom",
            GeologicStage::ContinentalSplit => "Cambrian/Continental Split",
            GeologicStage::ExtinctionCycle => "Extinction Cycle",
            GeologicStage::SpaceAge => "Civilization/Space Age",
        }
    }
}

/// Largest number of years one tick may stand for.
pub const TIMESCALE_MAX: u64 = 1_000_000_000_000;

/// Cosmic time: how old the planet is and how many years pass per tick.
#[derive(Clone, Copy, Debug)]
pub struct CosmicTimeline {
    pub timescale_years_per_tick: u64,
    pub cosmic_age_years: u64,
    pub geologic_stage: GeologicStage,
    pub extinction_events: u32,
}

impl CosmicTimeline {
    pub open spec fn wf(&self) -> bool {
        1 <= self.timescale_years_per_tick <= TIMESCALE_MAX
    }
}

impl Default for CosmicTimeline {
    fn default() -> (s: Self)
        ensures
            s.wf(),
            s.timescale_years_per_tick == 1_000_000,
            s.cosmic_age_years == 0,
            s.geologic_stage == GeologicStage::PlanetFormation,
            s.extinction_events == 0,
    {
        Self {
            timescale_years_per_tick: 1_000_000,
            cosmic_age_years: 0,
            geologic_stage: GeologicStage::PlanetFormation,
            extinction_events: 0,
        }
    }
}

/// World totals over time.
#[derive(Debug)]
pub struct CivilizationalLedger {
    pub population_history: Vec<u64>,
    pub gdp_history: Vec<i64>,
}

impl CivilizationalLedger {
    pub open spec fn wf(&self) -> bool {
        &&& self.population_history@.len() <= HISTORY_CAP
        &&& self.gdp_history@.len() <= HISTORY_CAP
    }
}

impl Default for CivilizationalLedger {
    fn default() -> (s: Self)
        ensures
            s.wf(),
            s.population_history@.len() == 0,
            s.gdp_history@.len() == 0,
    {
        Self { population_history: Vec::new(), gdp_history: Vec::new() }
    }
}

/// Length of one step in simulated time units, in millionths.
#[derive(Clone, Copy, Debug)]
pub struct DeltaTime(pub i64);

impl Default for DeltaTime {
    fn default() -> (s: Self)
        ensures
            s.0 == SCALE,
    {
        Self(SCALE)
    }
}

/// What a world is built from.
#[derive(Clone, Copy, Debug)]
pub struct SimulationConfig {
    /// Wall-clock length of a tick in milliseconds.
    pub tick_duration_ms: u64,
    pub grid_radius: i32,
    pub years_per_tick: u64,
}

impl Default for SimulationConfig {
    fn default() -> (s: Self)
        ensures
            s.tick_duration_ms == 1000,
            s.grid_radius == 12,
            s.years_per_tick == 1_000_000,
    {
        Self { tick_duration_ms: 1000, grid_radius: 12, years_per_tick: 1_000_000 }
    }
}

#[derive(Clone, Copy, Debug)]
pub struct WorldTime {
    pub tick: u64,
}

impl Default for WorldTime {
    fn default() -> (s: Self)
        ensures
            s.tick == 0,
    {
        Self { tick: 0 }
    }
}

/// Largest stored supply volume, in millionths.
pub const SUPPLY_MAX: i64 = 10_000_000_000;

/// Most supply samples kept.
pub const SUPPLY_HISTORY_CAP: usize = 256;

/// Coarse world supply of food, energy and rare materials.
#[derive(Debug)]
pub struct SupplyState {
    pub food: i64,
    pub energy: i64,
    pub rare: i64,
    pub deficit_ticks: u32,
    pub history: Vec<(i64, i64, i64)>,
}

impl SupplyState {
    pub open spec fn wf(&self) -> bool {
        &&& 0 <= self.food <= SUPPLY_MAX
        &&& 0 <= self.energy <= SUPPLY_MAX
        &&& 0 <= self.rare <= SUPPLY_MAX
        &&& self.history@.len() <= SUPPLY_HISTORY_CAP
    }
}

impl Default for SupplyState {
    fn default() -> (s: Self)
        ensures
            s.wf(),
            s.food == 0,
            s.energy == 0,
            s.rare == 0,
            s.deficit_ticks == 0,
            s.history@.len() == 0,
    {
        Self { food: 0, energy: 0, rare: 0, deficit_ticks: 0, history: Vec::new() }
    }
}

} // verus!
