//! How a new world is laid out: its land, who starts where, and who lives there.

use vstd::prelude::*;
use vstd::string::*;
use crate::components::Attributes;
use crate::components::Behavior;
use crate::components::BehaviorState;
use crate::components::Biome;
use crate::components::Entity;
use crate::components::Faction;
use crate::components::GoalKind;
use crate::components::Goals;
use crate::components::Identity;
use crate::components::Inventory;
use crate::components::ItemKind;
use crate::components::ItemStack;
use crate::components::Personality;
use crate::components::entities_wf;
use crate::fixed::SCALE;
use crate::fixed::clamp;
use crate::fixed::clamp_int;
use crate::grid::AxialCoord;
use crate::grid::Hex;
use crate::grid::HexGrid;
use crate::grid::HexTile;
use crate::grid::MAX_GRID_RADIUS;
use crate::grid::axial_distance;
use crate::grid::coord_at;
use crate::grid::table_coord;
use crate::grid::table_len;
use crate::nation::Nation;
use crate::world::WorldMetadata;

verus! {

/// How far from the centre land reaches: two hexes short of the rim, at least one.
pub open spec fn land_radius(radius: int) -> int {
    if radius - 2 < 1 {
        1
    } else {
        radius - 2
    }
}

/// On which side of a boundary ray a hex lies: non-negative on and
/// counter-clockwise of the ray whose direction is given by `cx` and `sy`.
pub open spec fn wedge_side(c: AxialCoord, cx: int, sy: int) -> int {
    cx * c.r - sy * (2 * c.q + c.r)
}

/// The nation whose wedge of the map a hex lies in. The map is cut into five
/// equal wedges around the centre, the first centred on the positive `q` axis;
/// the centre itself belongs to the first.
pub open spec fn sector_of(c: AxialCoord) -> Nation {
    let s0 = wedge_side(c, 1_401_258_538, 587_785_252);
    let s1 = wedge_side(c, -535_233_135, 951_056_516);
    let s2 = wedge_side(c, -1_732_050_808, 0);
    let s3 = wedge_side(c, -535_233_135, -951_056_516);
    let s4 = wedge_side(c, 1_401_258_538, -587_785_252);
    if s4 >= 0 && s0 < 0 {
        Nation::Tera
    } else if s0 >= 0 && s1 < 0 {
        Nation::Sora
    } else if s1 >= 0 && s2 < 0 {
        Nation::Aqua
    } else if s2 >= 0 && s3 < 0 {
        Nation::Solar
    } else if s3 >= 0 && s4 < 0 {
        Nation::Luna
    } else {
        Nation::Tera
    }
}

/// How much higher or lower than the mean a wedge lies, in millionths.
pub open spec fn relief(nation: Nation) -> int {
    match nation {
        Nation::Tera => -109_500,
        Nation::Sora => 242_100,
        Nation::Aqua => 261_600,
        Nation::Solar => 40_500,
        Nation::Luna => -217_800,
    }
}

/// The elevation a hex starts with: the mean of 0.7, the relief of its wedge and a
/// slope that rises with `q + r`, between 0.1 and 1.4.
pub open spec fn seeded_elevation(c: AxialCoord) -> int {
    clamp_int(700_000 + relief(sector_of(c)) + 20_000 * (c.q + c.r), 100_000, 1_400_000)
}

/// The biome that grows at an elevation.
pub open spec fn biome_at(elevation: int) -> Biome {
    if elevation < 350_000 {
        Biome::Market
    } else if elevation < 600_000 {
        Biome::Plains
    } else if elevation < 900_000 {
        Biome::Forest
    } else {
        Biome::Village
    }
}

/// What a new map of the given radius holds at a coordinate.
pub open spec fn seeded_tile(radius: int, c: AxialCoord) -> Option<HexTile> {
    if axial_distance(c, AxialCoord { q: 0, r: 0 }) <= land_radius(radius) {
        Some(
            HexTile {
                hex: Hex {
                    owner: sector_of(c),
                    elevation: seeded_elevation(c) as i64,
                    biome: biome_at(seeded_elevation(c)),
                },
                in_combat: None,
                combatants: None,
            },
        )
    } else {
        None
    }
}

fn wedge(c: AxialCoord, cx: i64, sy: i64) -> (r: i64)
    requires
        -512 <= c.q <= 512,
        -512 <= c.r <= 512,
        -2_000_000_000 <= cx <= 2_000_000_000,
        -2_000_000_000 <= sy <= 2_000_000_000,
    ensures
        r == wedge_side(c, cx as int, sy as int),
{
    assert(-2_000_000_000 * 512 <= cx * c.r <= 2_000_000_000 * 512) by (nonlinear_arith)
        requires
            -512 <= c.r <= 512,
            -2_000_000_000 <= cx <= 2_000_000_000,
    ;
    assert(-2_000_000_000 * 1536 <= sy * (2 * c.q + c.r) <= 2_000_000_000 * 1536)
        by (nonlinear_arith)
        requires
            -1536 <= 2 * c.q + c.r <= 1536,
            -2_000_000_000 <= sy <= 2_000_000_000,
    ;
    cx * (c.r as i64) - sy * (2 * (c.q as i64) + (c.r as i64))
}

/// The nation whose wedge a hex lies in.
pub fn sector(c: AxialCoord) -> (n: Nation)
    requires
        -512 <= c.q <= 512,
        -512 <= c.r <= 512,
    ensures
        n == sector_of(c),
{
    let s0: i64 = wedge(c, 1_401_258_538, 587_785_252);
    let s1: i64 = wedge(c, -535_233_135, 951_056_516);
    let s2: i64 = wedge(c, -1_732_050_808, 0);
    let s3: i64 = wedge(c, -535_233_135, -951_056_516);
    let s4: i64 = wedge(c, 1_401_258_538, -587_785_252);
    if s4 >= 0 && s0 < 0 {
        Nation::Tera
    } else if s0 >= 0 && s1 < 0 {
        Nation::Sora
    } else if s1 >= 0 && s2 < 0 {
        Nation::Aqua
    } else if s2 >= 0 && s3 < 0 {
        Nation::Solar
    } else if s3 >= 0 && s4 < 0 {
        Nation::Luna
    } else {
        Nation::Tera
    }
}

fn relief_of(nation: Nation) -> (r: i64)
    ensures
        r == relief(nation),
{
    match nation {
        Nation::Tera => -109_500,
        Nation::Sora => 242_100,
        Nation::Aqua => 261_600,
        Nation::Solar => 40_500,
        Nation::Luna => -217_800,
    }
}

fn seed_tile(radius: i32, c: AxialCoord) -> (t: Option<HexTile>)
    requires
        1 <= radius <= MAX_GRID_RADIUS,
        crate::grid::in_table(radius as int, c),
    ensures
        t == seeded_tile(radius as int, c),
        t is Some ==> t->0.wf(),
{
    let reach: i64 = if radius - 2 < 1 {
        1
    } else {
        (radius - 2) as i64
    };
    let centre = AxialCoord { q: 0, r: 0 };
    if c.distance(&centre) > reach {
        return None;
    }
    let owner: Nation = sector(c);
    let elevation: i64 = clamp(
        700_000 + relief_of(owner) + 20_000 * ((c.q as i64) + (c.r as i64)),
        100_000,
        1_400_000,
    );
    let biome: Biome = if elevation < 350_000 {
        Biome::Market
    } else if elevation < 600_000 {
        Biome::Plains
    } else if elevation < 900_000 {
        Biome::Forest
    } else {
        Biome::Village
    };
    Some(HexTile { hex: Hex { owner, elevation, biome }, in_combat: None, combatants: None })
}

/// Lays out the map of a new world: a round continent cut into five wedges.
pub fn seed_grid(radius: i32) -> (grid: HexGrid)
    requires
        1 <= radius <= MAX_GRID_RADIUS,
    ensures
        grid.wf(),
        grid.radius == radius,
        forall|i: int|
            0 <= i < grid.tiles@.len() ==> #[trigger] grid.tiles@[i] == seeded_tile(
                radius as int,
                coord_at(radius as int, i),
            ),
        forall|c: AxialCoord| #[trigger] grid.tile_at(c) == seeded_tile(radius as int, c),
{
    let len: usize = table_len(radius);
    let mut tiles: Vec<Option<HexTile>> = Vec::new();
    let mut i: usize = 0;
    while i < len
        invariant
            1 <= radius <= MAX_GRID_RADIUS,
            len == crate::grid::table_side(radius as int) * crate::grid::table_side(radius as int),
            i <= len,
            tiles@.len() == i,
            forall|j: int|
                0 <= j < i ==> #[trigger] tiles@[j] == seeded_tile(
                    radius as int,
                    coord_at(radius as int, j),
                ),
            forall|j: int| 0 <= j < i && (#[trigger] tiles@[j]) is Some ==> tiles@[j]->0.wf(),
        decreases len - i,
    {
        let c = table_coord(radius, i);
        tiles.push(seed_tile(radius, c));
        i += 1;
    }
    let grid = HexGrid { radius, tiles };
    proof {
        assert forall|c: AxialCoord| #[trigger] grid.tile_at(c) == seeded_tile(radius as int, c) by {
            if crate::grid::in_table(radius as int, c) {
                crate::grid::lemma_slot_roundtrip(radius as int, c);
            } else {
                assert(axial_distance(c, AxialCoord { q: 0, r: 0 }) > land_radius(radius as int));
            }
        }
    }
    grid
}

fn npc(
    id: u64,
    name: &'static str,
    faction: Faction,
    nation: Nation,
    meta: &WorldMetadata,
    biome: Biome,
    items: Vec<ItemStack>,
    currency: i64,
    attributes: Attributes,
    personality: Personality,
    state: BehaviorState,
    goals: Goals,
) -> (e: Entity)
    requires
        meta.wf(),
        0 <= currency <= 1000 * SCALE,
        attributes.wf(),
        personality.wf(),
        goals.wf(),
    ensures
        e.wf(),
        e.identity.id == id,
        e.identity.name@ == name@,
        e.identity.faction == faction,
        e.identity.nation == nation,
        e.position.biome == biome,
        e.position.x == meta.biome_of(biome).anchor.0,
        e.position.y == meta.biome_of(biome).anchor.1,
        e.inventory.items == items,
        e.inventory.currency == currency,
        e.attributes == attributes,
        e.personality == personality,
        e.behavior.state == state,
        e.goals == goals,
{
    Entity {
        identity: Identity { id, name: String::from_str(name), faction, nation },
        position: meta.anchor_position(biome),
        inventory: Inventory { items, currency },
        attributes,
        personality,
        behavior: Behavior { state },
        goals,
    }
}

/// Whether these are the four founders of a new world, each at the gathering point
/// of its biome.
pub open spec fn are_founders(entities: Seq<Entity>, meta: &WorldMetadata) -> bool {
    &&& entities.len() == 4
    &&& forall|k: int|
        0 <= k < 4 ==> (#[trigger] entities[k]).identity.id == k + 1 && entities[k].position.x
            == meta.biome_of(entities[k].position.biome).anchor.0 && entities[k].position.y
            == meta.biome_of(entities[k].position.biome).anchor.1
    &&& entities[0].identity.name@ == "Calix"@
    &&& entities[0].identity.faction == Faction::MerchantGuild
    &&& entities[0].identity.nation == Nation::Tera
    &&& entities[0].position.biome == Biome::Market
    &&& entities[0].inventory.currency == 100 * SCALE
    &&& entities[0].behavior.state == BehaviorState::Idle
    &&& entities[0].goals.primary == GoalKind::Wealth
    &&& entities[1].identity.name@ == "Rena"@
    &&& entities[1].identity.faction == Faction::BanditClans
    &&& entities[1].identity.nation == Nation::Sora
    &&& entities[1].position.biome == Biome::Forest
    &&& entities[1].inventory.currency == 45 * SCALE
    &&& entities[1].behavior.state == BehaviorState::Explore
    &&& entities[1].goals.primary == GoalKind::Glory
    &&& entities[2].identity.name@ == "Aria"@
    &&& entities[2].identity.faction == Faction::ExplorersLeague
    &&& entities[2].identity.nation == Nation::Aqua
    &&& entities[2].position.biome == Biome::Plains
    &&& entities[2].inventory.currency == 70 * SCALE
    &&& entities[2].behavior.state == BehaviorState::Gather
    &&& entities[2].goals.primary == GoalKind::Influence
    &&& entities[3].identity.name@ == "Lys"@
    &&& entities[3].identity.faction == Faction::TempleOfSuns
    &&& entities[3].identity.nation == Nation::Tera
    &&& entities[3].position.biome == Biome::Village
    &&& entities[3].inventory.currency == 30 * SCALE
    &&& entities[3].behavior.state == BehaviorState::Idle
    &&& entities[3].goals.primary == GoalKind::Survival
}

/// Whether an item stack holds `quantity` of the item with the given name.
pub open spec fn holds(stack: ItemStack, name: Seq<char>, quantity: u32) -> bool {
    stack.quantity == quantity && match stack.item {
        ItemKind::Resource(n) => n@ == name,
        ItemKind::Equipment(n) => n@ == name,
        ItemKind::Artifact(n) => n@ == name,
    }
}

/// Whether the founders carry what they set out with: herbs, a dagger, nothing,
/// and a reliquary.
pub open spec fn carry_their_goods(entities: Seq<Entity>) -> bool {
    &&& entities.len() == 4
    &&& entities[0].inventory.items@.len() == 1
    &&& entities[0].inventory.items@[0].item is Resource
    &&& holds(entities[0].inventory.items@[0], "약초"@, 10)
    &&& entities[1].inventory.items@.len() == 1
    &&& entities[1].inventory.items@[0].item is Equipment
    &&& holds(entities[1].inventory.items@[0], "단검"@, 1)
    &&& entities[2].inventory.items@.len() == 0
    &&& entities[3].inventory.items@.len() == 1
    &&& entities[3].inventory.items@[0].item is Artifact
    &&& holds(entities[3].inventory.items@[0], "태양 성물함"@, 1)
}

/// The founders' traits, attributes and resolve, in millionths.
pub open spec fn founder_traits(k: int) -> (Attributes, Personality, int) {
    if k == 0 {
        (
            Attributes {
                health: 100_000_000,
                stamina: 80_000_000,
                wealth: 120_000_000,
                fame: 20_000_000,
            },
            Personality { aggressive: 100_000, cautious: 400_000, social: 600_000, curious: 500_000 },
            700_000,
        )
    } else if k == 1 {
        (
            Attributes {
                health: 110_000_000,
                stamina: 95_000_000,
                wealth: 60_000_000,
                fame: 45_000_000,
            },
            Personality { aggressive: 600_000, cautious: 200_000, social: 300_000, curious: 400_000 },
            800_000,
        )
    } else if k == 2 {
        (
            Attributes {
                health: 95_000_000,
                stamina: 100_000_000,
                wealth: 80_000_000,
                fame: 35_000_000,
            },
            Personality { aggressive: 200_000, cautious: 300_000, social: 500_000, curious: 700_000 },
            600_000,
        )
    } else {
        (
            Attributes {
                health: 90_000_000,
                stamina: 70_000_000,
                wealth: 50_000_000,
                fame: 65_000_000,
            },
            Personality { aggressive: 100_000, cautious: 500_000, social: 700_000, curious: 600_000 },
            500_000,
        )
    }
}

/// The four founders of a new world.
pub fn seed_entities(meta: &WorldMetadata) -> (entities: Vec<Entity>)
    requires
        meta.wf(),
    ensures
        entities_wf(entities@),
        are_founders(entities@, meta),
        carry_their_goods(entities@),
        forall|k: int|
            0 <= k < 4 ==> (
                (#[trigger] entities@[k]).attributes,
                entities@[k].personality,
                entities@[k].goals.intensity as int,
            ) == founder_traits(k),
{
    let mut entities: Vec<Entity> = Vec::new();
    entities.push(
        npc(
            1,
            "Calix",
            Faction::MerchantGuild,
            Nation::Tera,
            meta,
            Biome::Market,
            vec![ItemStack { item: ItemKind::Resource(String::from_str("약초")), quantity: 10 }],
            100 * SCALE,
            Attributes {
                health: 100_000_000,
                stamina: 80_000_000,
                wealth: 120_000_000,
                fame: 20_000_000,
            },
            Personality { aggressive: 100_000, cautious: 400_000, social: 600_000, curious: 500_000 },
            BehaviorState::Idle,
            Goals { primary: GoalKind::Wealth, intensity: 700_000 },
        ),
    );
    entities.push(
        npc(
            2,
            "Rena",
            Faction::BanditClans,
            Nation::Sora,
            meta,
            Biome::Forest,
            vec![ItemStack { item: ItemKind::Equipment(String::from_str("단검")), quantity: 1 }],
            45 * SCALE,
            Attributes {
                health: 110_000_000,
                stamina: 95_000_000,
                wealth: 60_000_000,
                fame: 45_000_000,
            },
            Personality { aggressive: 600_000, cautious: 200_000, social: 300_000, curious: 400_000 },
            BehaviorState::Explore,
            Goals { primary: GoalKind::Glory, intensity: 800_000 },
        ),
    );
    entities.push(
        npc(
            3,
            "Aria",
            Faction::ExplorersLeague,
            Nation::Aqua,
            meta,
            Biome::Plains,
            Vec::new(),
            70 * SCALE,
            Attributes {
                health: 95_000_000,
                stamina: 100_000_000,
                wealth: 80_000_000,
                fame: 35_000_000,
            },
            Personality { aggressive: 200_000, cautious: 300_000, social: 500_000, curious: 700_000 },
            BehaviorState::Gather,
            Goals { primary: GoalKind::Influence, intensity: 600_000 },
        ),
    );
    entities.push(
        npc(
            4,
            "Lys",
            Faction::TempleOfSuns,
            Nation::Tera,
            meta,
            Biome::Village,
            vec![
                ItemStack { item: ItemKind::Artifact(String::from_str("태양 성물함")), quantity: 1 },
            ],
            30 * SCALE,
            Attributes {
                health: 90_000_000,
                stamina: 70_000_000,
                wealth: 50_000_000,
                fame: 65_000_000,
            },
            Personality { aggressive: 100_000, cautious: 500_000, social: 700_000, curious: 600_000 },
            BehaviorState::Idle,
            Goals { primary: GoalKind::Survival, intensity: 500_000 },
        ),
    );
    entities
}

} // verus!
