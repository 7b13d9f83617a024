//! The parts an inhabitant of the world is made of.

use vstd::prelude::*;
use crate::fixed::SCALE;
use crate::nation::Nation;

verus! {

/// Largest stored attribute, position offset or purse, in millionths.
pub const QUANTITY_MAX: i64 = 1_000_000_000_000_000;

#[derive(Clone, Copy, Debug, PartialEq, Eq, Structural, Hash)]
pub enum Faction {
    Neutral,
    MerchantGuild,
    BanditClans,
    ExplorersLeague,
    SettlersUnion,
    TempleOfSuns,
}

#[derive(Clone, Copy, Debug, PartialEq, Eq, Structural, Hash)]
pub enum Biome {
    Forest,
    Plains,
    Desert,
    Village,
    Market,
}

#[derive(Clone, Copy, Debug, PartialEq, Eq, Structural, Hash)]
pub enum GoalKind {
    Wealth,
    Glory,
    Survival,
    Influence,
}

#[derive(Clone, Copy, Debug, PartialEq, Eq, Structural, Hash)]
pub enum BehaviorState {
    Idle,
    Explore,
    Gather,
    Trade,
    Hunt,
    Rest,
}

#[derive(Debug)]
pub struct Identity {
    pub id: u64,
    pub name: String,
    pub faction: Faction,
    pub nation: Nation,
}

impl Clone for Identity {
    fn clone(&self) -> (r: Self)
        ensures
            r == *self,
    {
        Identity {
            id: self.id,
            name: self.name.clone(),
            faction: self.faction,
            nation: self.nation,
        }
    }
}

/// Physical and social standing, each in millionths.
#[derive(Clone, Copy, Debug)]
pub struct Attributes {
    pub health: i64,
    pub stamina: i64,
    pub wealth: i64,
    pub fame: i64,
}

impl Attributes {
    pub open spec fn wf(&self) -> bool {
        &&& 0 <= self.health <= QUANTITY_MAX
        &&& 0 <= self.stamina <= QUANTITY_MAX
        &&& 0 <= self.wealth <= QUANTITY_MAX
        &&& 0 <= self.fame <= QUANTITY_MAX
    }
}

/// Where an inhabitant stands: map offsets in millionths and the biome there.
#[derive(Clone, Copy, Debug)]
pub struct Position {
    pub x: i64,
    pub y: i64,
    pub biome: Biome,
}

impl Position {
    pub open spec fn wf(&self) -> bool {
        &&& -QUANTITY_MAX <= self.x <= QUANTITY_MAX
        &&& -QUANTITY_MAX <= self.y <= QUANTITY_MAX
    }
}

#[derive(Clone, Debug)]
pub enum ItemKind {
    Resource(String),
    Equipment(String),
    Artifact(String),
}

#[derive(Clone, Debug)]
pub struct ItemStack {
    pub item: ItemKind,
    pub quantity: u32,
}

/// Carried goods and a purse, the purse in millionths.
#[derive(Clone, Debug)]
pub struct Inventory {
    pub items: Vec<ItemStack>,
    pub currency: i64,
}

impl Inventory {
    pub open spec fn wf(&self) -> bool {
        0 <= self.currency <= QUANTITY_MAX
    }
}

/// Four traits, each between zero and one (in millionths).
#[derive(Clone, Copy, Debug)]
pub struct Personality {
    pub aggressive: i64,
    pub cautious: i64,
    pub social: i64,
    pub curious: i64,
}

impl Personality {
    pub open spec fn wf(&self) -> bool {
        &&& 0 <= self.aggressive <= SCALE
        &&& 0 <= self.cautious <= SCALE
        &&& 0 <= self.social <= SCALE
        &&& 0 <= self.curious <= SCALE
    }
}

/// What an inhabitant strives for and how strongly (zero to one, in millionths).
#[derive(Clone, Copy, Debug)]
pub struct Goals {
    pub primary: GoalKind,
    pub intensity: i64,
}

impl Goals {
    pub open spec fn wf(&self) -> bool {
        0 <= self.intensity <= SCALE
    }
}

#[derive(Clone, Copy, Debug)]
pub struct Behavior {
    pub state: BehaviorState,
}

/// Marks a border hex as contested for a number of ticks.
#[derive(Clone, Copy, Debug)]
pub struct InCombat {
    pub ticks_remaining: u32,
}

/// The two sides fighting over a contested hex.
#[derive(Clone, Copy, Debug)]
pub struct Combatants {
    pub nation_a: Nation,
    pub nation_b: Nation,
}

/// One inhabitant with all of its parts.
#[derive(Debug)]
pub struct Entity {
    pub identity: Identity,
    pub position: Position,
    pub inventory: Inventory,
    pub attributes: Attributes,
    pub personality: Personality,
    pub behavior: Behavior,
    pub goals: Goals,
}

impl Entity {
    pub open spec fn wf(&self) -> bool {
        &&& self.position.wf()
        &&& self.inventory.wf()
        &&& self.attributes.wf()
        &&& self.personality.wf()
        &&& self.goals.wf()
    }
}

/// Whether every inhabitant in the table is well formed.
pub open spec fn entities_wf(entities: Seq<Entity>) -> bool {
    forall|i: int| 0 <= i < entities.len() ==> (#[trigger] entities[i]).wf()
}

} // verus!
