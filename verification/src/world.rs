//! The fabric of the world: what each biome and faction is like, how the economy
//! circulates, and how days and seasons turn.

use vstd::prelude::*;
use crate::components::BehaviorState;
use crate::components::Biome;
use crate::components::Faction;
use crate::components::Position;
use crate::fixed::SCALE;
use crate::technology::TechTree;

verus! {

/// Largest weight or factor a metadata table may hold, in millionths.
pub const FACTOR_MAX: i64 = 10_000_000;

/// Whether a stored factor is usable as a multiplier.
pub open spec fn is_factor(x: int) -> bool {
    0 <= x <= FACTOR_MAX
}

/// Whether a stored factor is usable as a divisor too.
pub open spec fn is_divisor(x: int) -> bool {
    10_000 <= x <= FACTOR_MAX
}

/// A part of the day.
#[derive(Clone, Copy, Debug, PartialEq, Eq, Structural, Hash)]
pub enum DaySegment {
    Dawn,
    Midday,
    Dusk,
}

impl DaySegment {
    pub open spec fn label_text(self) -> Seq<char> {
        match self {
            DaySegment::Dawn => "Dawn"@,
            DaySegment::Midday => "Midday"@,
            DaySegment::Dusk => "Dusk"@,
        }
    }

    pub fn label(&self) -> (r: &'static str)
        ensures
            r@ == self.label_text(),
    {
        match self {
            DaySegment::Dawn => "Dawn",
            DaySegment::Midday => "Midday",
            DaySegment::Dusk => "Dusk",
        }
    }
}

#[derive(Clone, Copy, Debug, PartialEq, Eq, Structural, Hash)]
pub enum Season {
    FlowerBloom,
    SunburstPeak,
    Ashfall,
}

impl Season {
    pub open spec fn label_text(self) -> Seq<char> {
        match self {
            Season::FlowerBloom => "Flower Bloom"@,
            Season::SunburstPeak => "Sunburst Peak"@,
            Season::Ashfall => "Ashfall"@,
        }
    }

    pub fn label(&self) -> (r: &'static str)
        ensures
            r@ == self.label_text(),
    {
        match self {
            Season::FlowerBloom => "Flower Bloom",
            Season::SunburstPeak => "Sunburst Peak",
            Season::Ashfall => "Ashfall",
        }
    }
}

impl Biome {
    pub open spec fn index_of(self) -> int {
        match self {
            Biome::Forest => 0,
            Biome::Plains => 1,
            Biome::Desert => 2,
            Biome::Village => 3,
            Biome::Market => 4,
        }
    }

    pub fn index(&self) -> (i: usize)
        ensures
            i == self.index_of(),
            i < 5,
    {
        match self {
            Biome::Forest => 0,
            Biome::Plains => 1,
            Biome::Desert => 2,
            Biome::Village => 3,
            Biome::Market => 4,
        }
    }
}

impl Faction {
    pub open spec fn index_of(self) -> int {
        match self {
            Faction::Neutral => 0,
            Faction::MerchantGuild => 1,
            Faction::BanditClans => 2,
            Faction::ExplorersLeague => 3,
            Faction::SettlersUnion => 4,
            Faction::TempleOfSuns => 5,
        }
    }

    pub fn index(&self) -> (i: usize)
        ensures
            i == self.index_of(),
            i < 6,
    {
        match self {
            Faction::Neutral => 0,
            Faction::MerchantGuild => 1,
            Faction::BanditClans => 2,
            Faction::ExplorersLeague => 3,
            Faction::SettlersUnion => 4,
            Faction::TempleOfSuns => 5,
        }
    }
}

/// One multiplier per behaviour, in millionths.
#[derive(Clone, Copy, Debug)]
pub struct BehaviorWeights {
    pub idle: i64,
    pub explore: i64,
    pub gather: i64,
    pub trade: i64,
    pub hunt: i64,
    pub rest: i64,
}

impl BehaviorWeights {
    pub open spec fn wf(&self) -> bool {
        &&& is_factor(self.idle as int)
        &&& is_factor(self.explore as int)
        &&& is_factor(self.gather as int)
        &&& is_factor(self.trade as int)
        &&& is_factor(self.hunt as int)
        &&& is_factor(self.rest as int)
    }

    pub open spec fn of(&self, state: BehaviorState) -> int {
        match state {
            BehaviorState::Idle => self.idle as int,
            BehaviorState::Explore => self.explore as int,
            BehaviorState::Gather => self.gather as int,
            BehaviorState::Trade => self.trade as int,
            BehaviorState::Hunt => self.hunt as int,
            BehaviorState::Rest => self.rest as int,
        }
    }

    pub fn get(&self, state: BehaviorState) -> (r: i64)
        ensures
            r == self.of(state),
    {
        match state {
            BehaviorState::Idle => self.idle,
            BehaviorState::Explore => self.explore,
            BehaviorState::Gather => self.gather,
            BehaviorState::Trade => self.trade,
            BehaviorState::Hunt => self.hunt,
            BehaviorState::Rest => self.rest,
        }
    }
}

/// How a biome shifts trade, gathering and risk.
#[derive(Clone, Copy, Debug)]
pub struct EconomicShift {
    pub trade_opportunity: i64,
    pub resource_abundance: i64,
    pub risk_factor: i64,
}

impl EconomicShift {
    pub open spec fn wf(&self) -> bool {
        &&& is_factor(self.trade_opportunity as int)
        &&& is_factor(self.resource_abundance as int)
        &&& is_factor(self.risk_factor as int)
    }

    pub fn trade_opportunity(&self) -> (r: i64)
        ensures
            r == self.trade_opportunity,
    {
        self.trade_opportunity
    }

    pub fn resource_abundance(&self) -> (r: i64)
        ensures
            r == self.resource_abundance,
    {
        self.resource_abundance
    }

    pub fn risk_factor(&self) -> (r: i64)
        ensures
            r == self.risk_factor,
    {
        self.risk_factor
    }
}

/// How a faction earns, weathers shocks and pays its way.
#[derive(Clone, Copy, Debug)]
pub struct EconomyProfile {
    pub trade_yield: i64,
    pub volatility_resistance: i64,
    pub upkeep_burden: i64,
}

impl EconomyProfile {
    pub open spec fn wf(&self) -> bool {
        &&& is_factor(self.trade_yield as int)
        &&& is_divisor(self.volatility_resistance as int)
        &&& is_factor(self.upkeep_burden as int)
    }

    pub fn trade_yield(&self) -> (r: i64)
        ensures
            r == self.trade_yield,
    {
        self.trade_yield
    }

    pub fn volatility_resistance(&self) -> (r: i64)
        ensures
            r == self.volatility_resistance,
    {
        self.volatility_resistance
    }

    pub fn upkeep_burden(&self) -> (r: i64)
        ensures
            r == self.upkeep_burden,
    {
        self.upkeep_burden
    }
}

#[derive(Debug)]
pub struct BiomeMetadata {
    pub label: &'static str,
    pub epithet: &'static str,
    pub description: &'static str,
    /// Where inhabitants of this biome gather, in millionths.
    pub anchor: (i64, i64),
    pub resource_profile: Vec<&'static str>,
    pub tensions: Vec<&'static str>,
    pub behavior_bias: BehaviorWeights,
    pub economic_shift: EconomicShift,
}

impl BiomeMetadata {
    pub open spec fn wf(&self) -> bool {
        &&& self.behavior_bias.wf()
        &&& self.economic_shift.wf()
        &&& -1000 * SCALE <= self.anchor.0 <= 1000 * SCALE
        &&& -1000 * SCALE <= self.anchor.1 <= 1000 * SCALE
    }
}

#[derive(Debug)]
pub struct FactionMetadata {
    pub motto: &'static str,
    pub doctrine: &'static str,
    pub influence_vectors: Vec<&'static str>,
    pub strongholds: Vec<Biome>,
    pub behavior_modifiers: BehaviorWeights,
    pub economy_profile: EconomyProfile,
}

impl FactionMetadata {
    pub open spec fn wf(&self) -> bool {
        &&& self.behavior_modifiers.wf()
        &&& self.economy_profile.wf()
    }
}

#[derive(Debug)]
pub struct EconomyMetadata {
    pub circulation_cycle: Vec<&'static str>,
    pub stressors: Vec<&'static str>,
    pub catalysts: Vec<&'static str>,
}

/// The order in which parts of the day and seasons follow each other.
#[derive(Debug)]
pub struct EpochCadence {
    pub day_segments: Vec<DaySegment>,
    pub seasons: Vec<Season>,
}

impl EpochCadence {
    pub open spec fn wf(&self) -> bool {
        &&& self.day_segments@.len() > 0
        &&& self.seasons@.len() > 0
    }

    /// The part of the day a tick falls in.
    pub open spec fn segment_at(&self, tick: int) -> DaySegment {
        self.day_segments@[tick % (self.day_segments@.len() as int)]
    }

    /// The season a tick falls in: the season changes once per full day.
    pub open spec fn season_at(&self, tick: int) -> Season {
        self.seasons@[(tick / (self.day_segments@.len() as int)) % (self.seasons@.len() as int)]
    }
}

/// Everything the systems need to know about biomes, factions and the calendar.
#[derive(Debug)]
pub struct WorldMetadata {
    /// One entry per biome, in the order of `Biome::index`.
    pub biomes: Vec<BiomeMetadata>,
    /// One entry per faction, in the order of `Faction::index`; `None` for a faction
    /// without a profile.
    pub factions: Vec<Option<FactionMetadata>>,
    pub economy: EconomyMetadata,
    pub epochs: EpochCadence,
    pub tech_tree: TechTree,
}

pub open spec fn standard_epithet(biome: Biome) -> Seq<char> {
    match biome {
        Biome::Forest => "Land of Whispering Canopies"@,
        Biome::Plains => "Caravan Procession Under Vast Skies"@,
        Biome::Desert => "Ruins Sleeping Under Dunes"@,
        Biome::Village => "Heart of the Community"@,
        Biome::Market => "Pulse of Commerce"@,
    }
}

pub open spec fn standard_description(biome: Biome) -> Seq<char> {
    match biome {
        Biome::Forest => "Ancient forest where herbs, hidden shrines, and fierce spirits coexist."@,
        Biome::Plains => "Vast grasslands with ceaseless caravans, crop rotation, and mounted patrols."@,
        Biome::Desert => "Desert intertwined with ancient ruins and dangerous mirages, testing all expeditions."@,
        Biome::Village => "A ring of villages where workshops, granaries, and temples are tightly connected."@,
        Biome::Market => "Tiered market city where the Guild Council coordinates trade, tariffs, and truces."@,
    }
}

/// The motto of a faction of the standard world; none for a faction without profile.
pub open spec fn standard_motto(faction: Faction) -> Seq<char> {
    match faction {
        Faction::Neutral => Seq::<char>::empty(),
        Faction::MerchantGuild => "Balance the ledger, stabilize the world."@,
        Faction::BanditClans => "Seize what the world hides."@,
        Faction::ExplorersLeague => "Map the unknown, grasp the invisible."@,
        Faction::SettlersUnion => "Rooted in labor, growing through craft."@,
        Faction::TempleOfSuns => "Three suns, one harmonious light."@,
    }
}

/// The doctrine of a faction of the standard world; none for a faction without profile.
pub open spec fn standard_doctrine(faction: Faction) -> Seq<char> {
    match faction {
        Faction::Neutral => Seq::<char>::empty(),
        Faction::MerchantGuild => "Focuses on trade diplomacy, caravan escort, and price adjustment."@,
        Faction::BanditClans => "Expands influence via asymmetric raids, terror tactics, and relic monopolies."@,
        Faction::ExplorersLeague => "Conducts reconnaissance, anomaly recording, and relic appraisal."@,
        Faction::SettlersUnion => "Leads cooperative labor, agricultural planning, and urban reconstruction."@,
        Faction::TempleOfSuns => "Handles peace mediation, relic purification, and public welfare."@,
    }
}

/// The texts of a list.
pub open spec fn texts(list: Seq<&'static str>) -> Seq<Seq<char>> {
    Seq::new(list.len(), |i: int| list[i]@)
}

/// What the standard world finds in a biome.
pub open spec fn standard_resources(biome: Biome) -> Seq<Seq<char>> {
    match biome {
        Biome::Forest => seq!["Herbs"@, "Lumber"@, "Rare Animals"@],
        Biome::Plains => seq!["Grain"@, "Livestock"@, "Fiber"@],
        Biome::Desert => seq!["Relics"@, "Minerals"@, "Glassroots"@],
        Biome::Village => seq!["Goods"@, "Craftsmanship"@, "Rituals"@],
        Biome::Market => seq!["Currency"@, "Contracts"@, "Intel"@],
    }
}

/// What strains life in a biome of the standard world.
pub open spec fn standard_tensions(biome: Biome) -> Seq<Seq<char>> {
    match biome {
        Biome::Forest => seq!["Bandit Ambush"@, "Expedition Venture"@, "Shrine Guardian"@],
        Biome::Plains => seq!["Harvest Dispute"@, "Beast Migration"@, "Caravan Toll"@],
        Biome::Desert => seq!["Water Scarcity"@, "Sandstorm"@, "Relic Scramble"@],
        Biome::Village => seq!["Civil Conflict"@, "Disease Spread"@, "Supply Shortage"@],
        Biome::Market => seq!["Tariff War"@, "Speculative Crash"@, "Guild Infighting"@],
    }
}

/// How a faction of the standard world exerts its influence.
pub open spec fn standard_influence(faction: Faction) -> Seq<Seq<char>> {
    match faction {
        Faction::Neutral => Seq::<Seq<char>>::empty(),
        Faction::MerchantGuild => seq!["Tariff Adjustment"@, "Supply Contract"@, "Credit Issuance"@],
        Faction::BanditClans => seq!["Ambush Threat"@, "Black Market"@, "Smuggling Network"@],
        Faction::ExplorersLeague => seq!["Discovery Rights"@, "Map Intel"@, "Relic Appraisal"@],
        Faction::SettlersUnion => seq!["Infrastructure"@, "Harvest Mgmt"@, "Community Festivals"@],
        Faction::TempleOfSuns => seq!["Healing Rituals"@, "Pilgrimage Net"@, "Moral Authority"@],
    }
}

/// The strongholds of a faction of the standard world.
pub open spec fn standard_strongholds(faction: Faction) -> Seq<Biome> {
    match faction {
        Faction::Neutral => Seq::<Biome>::empty(),
        Faction::MerchantGuild => seq![Biome::Market, Biome::Plains],
        Faction::BanditClans => seq![Biome::Forest, Biome::Desert],
        Faction::ExplorersLeague => seq![Biome::Forest, Biome::Desert],
        Faction::SettlersUnion => seq![Biome::Plains, Biome::Village],
        Faction::TempleOfSuns => seq![Biome::Village, Biome::Market],
    }
}

/// The bias the standard world gives a behaviour in a biome.
pub open spec fn standard_biome_bias(biome: Biome, state: BehaviorState) -> int {
    match biome {
        Biome::Forest => match state {
            BehaviorState::Explore => 1_250_000,
            BehaviorState::Gather => 1_200_000,
            BehaviorState::Hunt => 1_150_000,
            BehaviorState::Rest => 950_000,
            _ => 1_000_000,
        },
        Biome::Plains => match state {
            BehaviorState::Trade => 1_200_000,
            BehaviorState::Gather => 1_100_000,
            BehaviorState::Explore => 950_000,
            BehaviorState::Rest => 1_050_000,
            _ => 1_000_000,
        },
        Biome::Desert => match state {
            BehaviorState::Explore => 1_100_000,
            BehaviorState::Hunt => 1_250_000,
            BehaviorState::Gather => 850_000,
            BehaviorState::Rest => 900_000,
            _ => 1_000_000,
        },
        Biome::Village => match state {
            BehaviorState::Trade => 1_100_000,
            BehaviorState::Rest => 1_200_000,
            BehaviorState::Idle => 1_050_000,
            _ => 1_000_000,
        },
        Biome::Market => match state {
            BehaviorState::Trade => 1_350_000,
            BehaviorState::Idle => 900_000,
            BehaviorState::Explore => 950_000,
            BehaviorState::Rest => 900_000,
            _ => 1_000_000,
        },
    }
}

/// The standard world's trade opportunity, resource abundance and risk of a biome.
pub open spec fn standard_shift(biome: Biome) -> (int, int, int) {
    match biome {
        Biome::Forest => (900_000, 1_200_000, 1_100_000),
        Biome::Plains => (1_150_000, 1_050_000, 900_000),
        Biome::Desert => (950_000, 800_000, 1_350_000),
        Biome::Village => (1_050_000, 1_100_000, 850_000),
        Biome::Market => (1_400_000, 900_000, 1_050_000),
    }
}

/// The standard world's gathering point of a biome.
pub open spec fn standard_anchor(biome: Biome) -> (int, int) {
    match biome {
        Biome::Forest => (6_000_000, 4_500_000),
        Biome::Plains => (1_000_000, 2_000_000),
        Biome::Desert => (-4_000_000, -1_500_000),
        Biome::Village => (3_500_000, -3_000_000),
        Biome::Market => (0, 0),
    }
}

pub open spec fn standard_biome_label(biome: Biome) -> Seq<char> {
    match biome {
        Biome::Forest => "Silken Veil Forest"@,
        Biome::Plains => "Silverwind Plains"@,
        Biome::Desert => "Ashen Mirage"@,
        Biome::Village => "Hearthfire Corridor"@,
        Biome::Market => "Golden Confluence"@,
    }
}

/// The modifier a standard faction gives a behaviour; one for a faction without profile.
pub open spec fn standard_faction_modifier(faction: Faction, state: BehaviorState) -> int {
    match faction {
        Faction::Neutral => 1_000_000,
        Faction::MerchantGuild => match state {
            BehaviorState::Trade => 1_400_000,
            BehaviorState::Idle => 900_000,
            BehaviorState::Explore => 950_000,
            _ => 1_000_000,
        },
        Faction::BanditClans => match state {
            BehaviorState::Hunt => 1_450_000,
            BehaviorState::Explore => 1_100_000,
            BehaviorState::Trade => 700_000,
            BehaviorState::Rest => 850_000,
            _ => 1_000_000,
        },
        Faction::ExplorersLeague => match state {
            BehaviorState::Explore => 1_500_000,
            BehaviorState::Gather => 1_250_000,
            BehaviorState::Trade => 900_000,
            BehaviorState::Rest => 950_000,
            _ => 1_000_000,
        },
        Faction::SettlersUnion => match state {
            BehaviorState::Gather => 1_350_000,
            BehaviorState::Trade => 1_100_000,
            BehaviorState::Idle => 1_050_000,
            BehaviorState::Hunt => 850_000,
            _ => 1_000_000,
        },
        Faction::TempleOfSuns => match state {
            BehaviorState::Rest => 1_400_000,
            BehaviorState::Trade => 1_050_000,
            BehaviorState::Explore => 900_000,
            BehaviorState::Hunt => 700_000,
            _ => 1_000_000,
        },
    }
}

/// The standard trade yield, volatility resistance and upkeep burden of a faction.
pub open spec fn standard_profile(faction: Faction) -> (int, int, int) {
    match faction {
        Faction::Neutral => (1_000_000, 1_000_000, 1_000_000),
        Faction::MerchantGuild => (1_350_000, 1_100_000, 1_000_000),
        Faction::BanditClans => (850_000, 900_000, 800_000),
        Faction::ExplorersLeague => (1_050_000, 950_000, 1_100_000),
        Faction::SettlersUnion => (1_150_000, 1_050_000, 1_200_000),
        Faction::TempleOfSuns => (1_000_000, 1_250_000, 1_050_000),
    }
}

impl WorldMetadata {
    pub open spec fn wf(&self) -> bool {
        &&& self.biomes@.len() == 5
        &&& forall|i: int| 0 <= i < self.biomes@.len() ==> (#[trigger] self.biomes@[i]).wf()
        &&& self.factions@.len() == 6
        &&& forall|i: int|
            0 <= i < self.factions@.len() && (#[trigger] self.factions@[i]) is Some
                ==> self.factions@[i]->0.wf()
        &&& self.epochs.wf()
        &&& self.tech_tree.wf()
    }

    pub open spec fn biome_of(&self, biome: Biome) -> BiomeMetadata {
        self.biomes@[biome.index_of()]
    }

    pub open spec fn faction_of(&self, faction: Faction) -> Option<FactionMetadata> {
        self.factions@[faction.index_of()]
    }

    pub open spec fn bias_of(&self, biome: Biome, state: BehaviorState) -> int {
        self.biome_of(biome).behavior_bias.of(state)
    }

    pub open spec fn modifier_of(&self, faction: Faction, state: BehaviorState) -> int {
        match self.faction_of(faction) {
            Some(meta) => meta.behavior_modifiers.of(state),
            None => SCALE as int,
        }
    }

    pub open spec fn trade_opportunity_of(&self, biome: Biome) -> int {
        self.biome_of(biome).economic_shift.trade_opportunity as int
    }

    pub open spec fn resource_abundance_of(&self, biome: Biome) -> int {
        self.biome_of(biome).economic_shift.resource_abundance as int
    }

    pub open spec fn risk_factor_of(&self, biome: Biome) -> int {
        self.biome_of(biome).economic_shift.risk_factor as int
    }

    pub open spec fn trade_yield_of(&self, faction: Faction) -> int {
        match self.faction_of(faction) {
            Some(meta) => meta.economy_profile.trade_yield as int,
            None => SCALE as int,
        }
    }

    pub open spec fn volatility_resistance_of(&self, faction: Faction) -> int {
        match self.faction_of(faction) {
            Some(meta) => meta.economy_profile.volatility_resistance as int,
            None => SCALE as int,
        }
    }

    pub open spec fn upkeep_burden_of(&self, faction: Faction) -> int {
        match self.faction_of(faction) {
            Some(meta) => meta.economy_profile.upkeep_burden as int,
            None => SCALE as int,
        }
    }

    /// Whether the numeric tables, labels and calendar are those of the standard world.
    pub open spec fn is_standard(&self) -> bool {
        &&& forall|b: Biome, s: BehaviorState| #[trigger]
            self.bias_of(b, s) == standard_biome_bias(b, s)
        &&& forall|b: Biome|
            (#[trigger] self.trade_opportunity_of(b), self.resource_abundance_of(b), self.risk_factor_of(b))
                == standard_shift(b)
        &&& forall|b: Biome|
            ((#[trigger] self.biome_of(b)).anchor.0 as int, self.biome_of(b).anchor.1 as int)
                == standard_anchor(b)
        &&& forall|b: Biome|
            (#[trigger] self.biome_of(b)).label@ == standard_biome_label(b) && self.biome_of(
                b,
            ).epithet@ == standard_epithet(b) && self.biome_of(b).description@
                == standard_description(b)
        &&& forall|b: Biome|
            texts((#[trigger] self.biome_of(b)).resource_profile@) =~= standard_resources(b)
                && texts(self.biome_of(b).tensions@) =~= standard_tensions(b)
        &&& forall|f: Faction, s: BehaviorState| #[trigger]
            self.modifier_of(f, s) == standard_faction_modifier(f, s)
        &&& forall|f: Faction|
            (#[trigger] self.trade_yield_of(f), self.volatility_resistance_of(f), self.upkeep_burden_of(f))
                == standard_profile(f)
        &&& forall|f: Faction| (#[trigger] self.faction_of(f)) is None <==> f == Faction::Neutral
        &&& forall|f: Faction|
            (#[trigger] self.faction_of(f)) is Some ==> self.faction_of(f)->0.motto@
                == standard_motto(f) && self.faction_of(f)->0.doctrine@ == standard_doctrine(f)
        &&& forall|f: Faction|
            (#[trigger] self.faction_of(f)) is Some ==> texts(
                self.faction_of(f)->0.influence_vectors@,
            ) =~= standard_influence(f) && self.faction_of(f)->0.strongholds@
                =~= standard_strongholds(f)
        &&& texts(self.economy.circulation_cycle@) =~= seq![
            "Market Auction"@,
            "Guild Bidding"@,
            "Village Services"@,
            "Desert Expedition"@,
            "Market Reflux"@,
        ]
        &&& texts(self.economy.stressors@) =~= seq![
            "Drought Pressure"@,
            "Bandit Raid"@,
            "Currency Devaluation"@,
            "Relic Shortage"@,
            "Plague Spread"@,
        ]
        &&& texts(self.economy.catalysts@) =~= seq![
            "Temple Festival"@,
            "Explorer Breakthrough"@,
            "Guild Tariff Cut"@,
            "Union Harvest"@,
        ]
        &&& self.epochs.day_segments@ =~= seq![DaySegment::Dawn, DaySegment::Midday, DaySegment::Dusk]
        &&& self.epochs.seasons@ =~= seq![Season::FlowerBloom, Season::SunburstPeak, Season::Ashfall]
        &&& self.tech_tree.is_standard()
    }

    /// The metadata on record for a biome.
    pub fn biome_profile(&self, biome: Biome) -> (r: &BiomeMetadata)
        requires
            self.wf(),
        ensures
            *r == self.biome_of(biome),
            r.wf(),
    {
        &self.biomes[biome.index()]
    }

    /// The gathering point of a biome.
    pub fn anchor_position(&self, biome: Biome) -> (p: Position)
        requires
            self.wf(),
        ensures
            p.x == self.biome_of(biome).anchor.0,
            p.y == self.biome_of(biome).anchor.1,
            p.biome == biome,
            p.wf(),
    {
        let meta = &self.biomes[biome.index()];
        Position { x: meta.anchor.0, y: meta.anchor.1, biome }
    }

    /// The profile on record for a faction, if it has one.
    pub fn faction_profile(&self, faction: Faction) -> (r: Option<&FactionMetadata>)
        requires
            self.wf(),
        ensures
            r is Some <==> self.faction_of(faction) is Some,
            r is Some ==> *r->0 == self.faction_of(faction)->0 && r->0.wf(),
    {
        self.factions[faction.index()].as_ref()
    }

    pub fn biome_behavior_bias(&self, biome: Biome, state: BehaviorState) -> (r: i64)
        requires
            self.wf(),
        ensures
            r == self.bias_of(biome, state),
            is_factor(r as int),
    {
        self.biomes[biome.index()].behavior_bias.get(state)
    }

    pub fn faction_behavior_modifier(&self, faction: Faction, state: BehaviorState) -> (r: i64)
        requires
            self.wf(),
        ensures
            r == self.modifier_of(faction, state),
            is_factor(r as int),
    {
        match self.faction_profile(faction) {
            Some(meta) => meta.behavior_modifiers.get(state),
            None => SCALE,
        }
    }

    pub fn biome_trade_opportunity(&self, biome: Biome) -> (r: i64)
        requires
            self.wf(),
        ensures
            r == self.trade_opportunity_of(biome),
            is_factor(r as int),
    {
        self.biomes[biome.index()].economic_shift.trade_opportunity()
    }

    pub fn biome_resource_abundance(&self, biome: Biome) -> (r: i64)
        requires
            self.wf(),
        ensures
            r == self.resource_abundance_of(biome),
            is_factor(r as int),
    {
        self.biomes[biome.index()].economic_shift.resource_abundance()
    }

    pub fn biome_risk_factor(&self, biome: Biome) -> (r: i64)
        requires
            self.wf(),
        ensures
            r == self.risk_factor_of(biome),
            is_factor(r as int),
    {
        self.biomes[biome.index()].economic_shift.risk_factor()
    }

    pub fn faction_trade_yield(&self, faction: Faction) -> (r: i64)
        requires
            self.wf(),
        ensures
            r == self.trade_yield_of(faction),
            is_factor(r as int),
    {
        match self.faction_profile(faction) {
            Some(meta) => meta.economy_profile.trade_yield(),
            None => SCALE,
        }
    }

    pub fn faction_volatility_resistance(&self, faction: Faction) -> (r: i64)
        requires
            self.wf(),
        ensures
            r == self.volatility_resistance_of(faction),
            is_divisor(r as int),
    {
        match self.faction_profile(faction) {
            Some(meta) => meta.economy_profile.volatility_resistance(),
            None => SCALE,
        }
    }

    pub fn faction_upkeep_burden(&self, faction: Faction) -> (r: i64)
        requires
            self.wf(),
        ensures
            r == self.upkeep_burden_of(faction),
            is_factor(r as int),
    {
        match self.faction_profile(faction) {
            Some(meta) => meta.economy_profile.upkeep_burden(),
            None => SCALE,
        }
    }

    /// The part of the day and the season of a tick.
    pub fn cadence_for_tick(&self, tick: u64) -> (r: (DaySegment, Season))
        requires
            self.wf(),
        ensures
            r.0 == self.epochs.segment_at(tick as int),
            r.1 == self.epochs.season_at(tick as int),
    {
        let segments: u64 = self.epochs.day_segments.len() as u64;
        let seasons: u64 = self.epochs.seasons.len() as u64;
        let segment = self.epochs.day_segments[(tick % segments) as usize];
        let season = self.epochs.seasons[((tick / segments) % seasons) as usize];
        (segment, season)
    }

    /// The names of the part of the day and of the season of a tick.
    pub fn epoch_for_tick(&self, tick: u64) -> (r: (&'static str, &'static str))
        requires
            self.wf(),
        ensures
            r.0@ == self.epochs.segment_at(tick as int).label_text(),
            r.1@ == self.epochs.season_at(tick as int).label_text(),
    {
        let (segment, season) = self.cadence_for_tick(tick);
        (segment.label(), season.label())
    }

    fn weights(
        idle: i64,
        explore: i64,
        gather: i64,
        trade: i64,
        hunt: i64,
        rest: i64,
    ) -> (w: BehaviorWeights)
        ensures
            w == (BehaviorWeights { idle, explore, gather, trade, hunt, rest }),
    {
        BehaviorWeights { idle, explore, gather, trade, hunt, rest }
    }

    fn standard_biomes() -> (biomes: Vec<BiomeMetadata>)
        ensures
            biomes@.len() == 5,
            forall|i: int| 0 <= i < 5 ==> (#[trigger] biomes@[i]).wf(),
            forall|b: Biome, s: BehaviorState| #[trigger]
                biomes@[b.index_of()].behavior_bias.of(s) == standard_biome_bias(b, s),
            forall|b: Biome|
                (
                    (#[trigger] biomes@[b.index_of()]).economic_shift.trade_opportunity as int,
                    biomes@[b.index_of()].economic_shift.resource_abundance as int,
                    biomes@[b.index_of()].economic_shift.risk_factor as int,
                ) == standard_shift(b),
            forall|b: Biome|
                ((#[trigger] biomes@[b.index_of()]).anchor.0 as int, biomes@[b.index_of()].anchor.1 as int)
                    == standard_anchor(b),
            forall|b: Biome|
                (#[trigger] biomes@[b.index_of()]).label@ == standard_biome_label(b)
                    && biomes@[b.index_of()].epithet@ == standard_epithet(b)
                    && biomes@[b.index_of()].description@ == standard_description(b),
            forall|b: Biome|
                texts((#[trigger] biomes@[b.index_of()]).resource_profile@) =~= standard_resources(b)
                    && texts(biomes@[b.index_of()].tensions@) =~= standard_tensions(b),
    {
        let mut biomes: Vec<BiomeMetadata> = Vec::new();
        biomes.push(
            BiomeMetadata {
                label: "Silken Veil Forest",
                epithet: "Land of Whispering Canopies",
                description: "Ancient forest where herbs, hidden shrines, and fierce spirits coexist.",
                anchor: (6_000_000, 4_500_000),
                resource_profile: vec!["Herbs", "Lumber", "Rare Animals"],
                tensions: vec!["Bandit Ambush", "Expedition Venture", "Shrine Guardian"],
                behavior_bias: Self::weights(
                    1_000_000,
                    1_250_000,
                    1_200_000,
                    1_000_000,
                    1_150_000,
                    950_000,
                ),
                economic_shift: EconomicShift {
                    trade_opportunity: 900_000,
                    resource_abundance: 1_200_000,
                    risk_factor: 1_100_000,
                },
            },
        );
        biomes.push(
            BiomeMetadata {
                label: "Silverwind Plains",
                epithet: "Caravan Procession Under Vast Skies",
                description: "Vast grasslands with ceaseless caravans, crop rotation, and mounted patrols.",
                anchor: (1_000_000, 2_000_000),
                resource_profile: vec!["Grain", "Livestock", "Fiber"],
                tensions: vec!["Harvest Dispute", "Beast Migration", "Caravan Toll"],
                behavior_bias: Self::weights(
                    1_000_000,
                    950_000,
                    1_100_000,
                    1_200_000,
                    1_000_000,
                    1_050_000,
                ),
                economic_shift: EconomicShift {
                    trade_opportunity: 1_150_000,
                    resource_abundance: 1_050_000,
                    risk_factor: 900_000,
                },
            },
        );
        biomes.push(
            BiomeMetadata {
                label: "Ashen Mirage",
                epithet: "Ruins Sleeping Under Dunes",
                description: "Desert intertwined with ancient ruins and dangerous mirages, testing all expeditions.",
                anchor: (-4_000_000, -1_500_000),
                resource_profile: vec!["Relics", "Minerals", "Glassroots"],
                tensions: vec!["Water Scarcity", "Sandstorm", "Relic Scramble"],
                behavior_bias: Self::weights(
                    1_000_000,
                    1_100_000,
                    850_000,
                    1_000_000,
                    1_250_000,
                    900_000,
                ),
                economic_shift: EconomicShift {
                    trade_opportunity: 950_000,
                    resource_abundance: 800_000,
                    risk_factor: 1_350_000,
                },
            },
        );
        biomes.push(
            BiomeMetadata {
                label: "Hearthfire Corridor",
                epithet: "Heart of the Community",
                description: "A ring of villages where workshops, granaries, and temples are tightly connected.",
                anchor: (3_500_000, -3_000_000),
                resource_profile: vec!["Goods", "Craftsmanship", "Rituals"],
                tensions: vec!["Civil Conflict", "Disease Spread", "Supply Shortage"],
                behavior_bias: Self::weights(
                    1_050_000,
                    1_000_000,
                    1_000_000,
                    1_100_000,
                    1_000_000,
                    1_200_000,
                ),
                economic_shift: EconomicShift {
                    trade_opportunity: 1_050_000,
                    resource_abundance: 1_100_000,
                    risk_factor: 850_000,
                },
            },
        );
        biomes.push(
            BiomeMetadata {
                label: "Golden Confluence",
                epithet: "Pulse of Commerce",
                description: "Tiered market city where the Guild Council coordinates trade, tariffs, and truces.",
                anchor: (0, 0),
                resource_profile: vec!["Currency", "Contracts", "Intel"],
                tensions: vec!["Tariff War", "Speculative Crash", "Guild Infighting"],
                behavior_bias: Self::weights(
                    900_000,
                    950_000,
                    1_000_000,
                    1_350_000,
                    1_000_000,
                    900_000,
                ),
                economic_shift: EconomicShift {
                    trade_opportunity: 1_400_000,
                    resource_abundance: 900_000,
                    risk_factor: 1_050_000,
                },
            },
        );
        biomes
    }

    fn standard_factions() -> (factions: Vec<Option<FactionMetadata>>)
        ensures
            factions@.len() == 6,
            forall|i: int|
                0 <= i < 6 && (#[trigger] factions@[i]) is Some ==> factions@[i]->0.wf(),
            forall|f: Faction| (#[trigger] factions@[f.index_of()]) is None <==> f == Faction::Neutral,
            forall|f: Faction, s: BehaviorState|
                f != Faction::Neutral ==> #[trigger] factions@[f.index_of()]->0.behavior_modifiers.of(s)
                    == standard_faction_modifier(f, s),
            forall|f: Faction|
                f != Faction::Neutral ==> (
                    (#[trigger] factions@[f.index_of()])->0.economy_profile.trade_yield as int,
                    factions@[f.index_of()]->0.economy_profile.volatility_resistance as int,
                    factions@[f.index_of()]->0.economy_profile.upkeep_burden as int,
                ) == standard_profile(f),
            forall|f: Faction|
                f != Faction::Neutral ==> (#[trigger] factions@[f.index_of()])->0.motto@
                    == standard_motto(f) && factions@[f.index_of()]->0.doctrine@
                    == standard_doctrine(f),
            forall|f: Faction|
                f != Faction::Neutral ==> texts(
                    (#[trigger] factions@[f.index_of()])->0.influence_vectors@,
                ) =~= standard_influence(f) && factions@[f.index_of()]->0.strongholds@
                    =~= standard_strongholds(f),
    {
        let mut factions: Vec<Option<FactionMetadata>> = Vec::new();
        factions.push(None);
        factions.push(
            Some(
                FactionMetadata {
                    motto: "Balance the ledger, stabilize the world.",
                    doctrine: "Focuses on trade diplomacy, caravan escort, and price adjustment.",
                    influence_vectors: vec!["Tariff Adjustment", "Supply Contract", "Credit Issuance"],
                    strongholds: vec![Biome::Market, Biome::Plains],
                    behavior_modifiers: Self::weights(
                        900_000,
                        950_000,
                        1_000_000,
                        1_400_000,
                        1_000_000,
                        1_000_000,
                    ),
                    economy_profile: EconomyProfile {
                        trade_yield: 1_350_000,
                        volatility_resistance: 1_100_000,
                        upkeep_burden: 1_000_000,
                    },
                },
            ),
        );
        factions.push(
            Some(
                FactionMetadata {
                    motto: "Seize what the world hides.",
                    doctrine: "Expands influence via asymmetric raids, terror tactics, and relic monopolies.",
                    influence_vectors: vec!["Ambush Threat", "Black Market", "Smuggling Network"],
                    strongholds: vec![Biome::Forest, Biome::Desert],
                    behavior_modifiers: Self::weights(
                        1_000_000,
                        1_100_000,
                        1_000_000,
                        700_000,
                        1_450_000,
                        850_000,
                    ),
                    economy_profile: EconomyProfile {
                        trade_yield: 850_000,
                        volatility_resistance: 900_000,
                        upkeep_burden: 800_000,
                    },
                },
            ),
        );
        factions.push(
            Some(
                FactionMetadata {
                    motto: "Map the unknown, grasp the invisible.",
                    doctrine: "Conducts reconnaissance, anomaly recording, and relic appraisal.",
                    influence_vectors: vec!["Discovery Rights", "Map Intel", "Relic Appraisal"],
                    strongholds: vec![Biome::Forest, Biome::Desert],
                    behavior_modifiers: Self::weights(
                        1_000_000,
                        1_500_000,
                        1_250_000,
                        900_000,
                        1_000_000,
                        950_000,
                    ),
                    economy_profile: EconomyProfile {
                        trade_yield: 1_050_000,
                        volatility_resistance: 950_000,
                        upkeep_burden: 1_100_000,
                    },
                },
            ),
        );
        factions.push(
            Some(
                FactionMetadata {
                    motto: "Rooted in labor, growing through craft.",
                    doctrine: "Leads cooperative labor, agricultural planning, and urban reconstruction.",
                    influence_vectors: vec!["Infrastructure", "Harvest Mgmt", "Community Festivals"],
                    strongholds: vec![Biome::Plains, Biome::Village],
                    behavior_modifiers: Self::weights(
                        1_050_000,
                        1_000_000,
                        1_350_000,
                        1_100_000,
                        850_000,
                        1_000_000,
                    ),
                    economy_profile: EconomyProfile {
                        trade_yield: 1_150_000,
                        volatility_resistance: 1_050_000,
                        upkeep_burden: 1_200_000,
                    },
                },
            ),
        );
        factions.push(
            Some(
                FactionMetadata {
                    motto: "Three suns, one harmonious light.",
                    doctrine: "Handles peace mediation, relic purification, and public welfare.",
                    influence_vectors: vec!["Healing Rituals", "Pilgrimage Net", "Moral Authority"],
                    strongholds: vec![Biome::Village, Biome::Market],
                    behavior_modifiers: Self::weights(
                        1_000_000,
                        900_000,
                        1_000_000,
                        1_050_000,
                        700_000,
                        1_400_000,
                    ),
                    economy_profile: EconomyProfile {
                        trade_yield: 1_000_000,
                        volatility_resistance: 1_250_000,
                        upkeep_burden: 1_050_000,
                    },
                },
            ),
        );
        factions
    }

    /// The standard world.
    pub fn standard() -> (m: WorldMetadata)
        ensures
            m.wf(),
            m.is_standard(),
    {
        let economy = EconomyMetadata {
            circulation_cycle: vec![
                "Market Auction",
                "Guild Bidding",
                "Village Services",
                "Desert Expedition",
                "Market Reflux",
            ],
            stressors: vec![
                "Drought Pressure",
                "Bandit Raid",
                "Currency Devaluation",
                "Relic Shortage",
                "Plague Spread",
            ],
            catalysts: vec![
                "Temple Festival",
                "Explorer Breakthrough",
                "Guild Tariff Cut",
                "Union Harvest",
            ],
        };
        let epochs = EpochCadence {
            day_segments: vec![DaySegment::Dawn, DaySegment::Midday, DaySegment::Dusk],
            seasons: vec![Season::FlowerBloom, Season::SunburstPeak, Season::Ashfall],
        };
        let m = WorldMetadata {
            biomes: Self::standard_biomes(),
            factions: Self::standard_factions(),
            economy,
            epochs,
            tech_tree: TechTree::standard(),
        };
        proof {
            assert forall|f: Faction, s: BehaviorState| #[trigger]
                m.modifier_of(f, s) == standard_faction_modifier(f, s) by {
                if f != Faction::Neutral {
                    assert(m.factions@[f.index_of()]->0.behavior_modifiers.of(s)
                        == standard_faction_modifier(f, s));
                }
            }
            assert forall|f: Faction|
                (#[trigger] m.trade_yield_of(f), m.volatility_resistance_of(f), m.upkeep_burden_of(f))
                    == standard_profile(f) by {
                if f != Faction::Neutral {
                    assert(m.factions@[f.index_of()] is Some);
                }
            }
        }
        m
    }
}

impl Default for WorldMetadata {
    fn default() -> (m: Self)
        ensures
            m.wf(),
            m.is_standard(),
    {
        WorldMetadata::standard()
    }
}

} // verus!
