//! War between nations: who fights, who wins, what it costs, and when it turns nuclear.

use vstd::prelude::*;
use rand::rngs::SmallRng;
use crate::components::Combatants;
use crate::components::InCombat;
use crate::events::WorldEvent;
use crate::events::WorldEventKind;
use crate::events::log_after_push;
use crate::events::WorldEventLog;
use crate::events::only_added;
use crate::fixed::SCALE;
use crate::fixed::clamp;
use crate::fixed::clamp_int;
use crate::fixed::lemma_scaled_bounds;
use crate::fixed::lemma_scaled_shrinks;
use crate::fixed::scale;
use crate::fixed::scaled;
use crate::grid::HexGrid;
use crate::grid::HexTile;
use crate::grid::AxialCoord;
use crate::grid::coord_at;
use crate::grid::in_table;
use crate::grid::lemma_slot_roundtrip;
use crate::grid::neighbors_of;
use crate::nation::Nation;
use crate::nation::NATION_COUNT;
use crate::nuclear::NuclearBlasts;
use crate::nuclear::in_blast;
use crate::nuclear::mark_nuclear_blast;
use crate::resources::AllNationCivState;
use crate::resources::AllNationMetrics;
use crate::resources::METRIC_MAX;
use crate::resources::NationCivState;
use crate::resources::NationMetrics;
use crate::resources::ScienceVictory;
use crate::resources::WorldTime;
use crate::resources::destroyed_are_empty;
use crate::resources::destruction_is_final;
use crate::rng::rng_from_seed;
use crate::rng::rng_range;
use crate::rng::rng_ratio;
use crate::rng::rng_shuffle;
use crate::rng::seed;
use crate::world::WorldMetadata;

verus! {

/// Territory that changes hands in a battle, in millionths.
pub const TERRITORY_CHANGE: i64 = 500_000;

/// Military strength both sides lose in a battle, in millionths.
pub const MILITARY_LOSS: i64 = 2_000_000;

/// Fewest casualties of a battle.
pub const CASUALTIES_MIN: u64 = 15_000;

/// Most casualties of a battle.
pub const CASUALTIES_MAX: u64 = 2_000_000;

/// Ticks a border hex stays contested after a battle.
pub const COMBAT_TICKS: u32 = 5;

/// Reach of a nuclear strike in hexes.
pub const BLAST_RADIUS: i32 = 2;

/// Ticks a blast marker lasts.
pub const BLAST_DURATION: u8 = 8;

/// Tick after which every escalation is a late-game one.
pub const LATE_GAME_TICK: u64 = 800;

/// Most hexes struck besides the first in a nuclear exchange.
pub const STRIKE_TARGETS: usize = 20;

/// Whether two nations can go to war: both alive, both with more than one unit of military.
pub open spec fn war_eligible(a: NationMetrics, b: NationMetrics) -> bool {
    &&& !a.is_destroyed
    &&& !b.is_destroyed
    &&& a.military > SCALE
    &&& b.military > SCALE
}

/// How strongly diplomacy, culture and religion of both sides speak against war.
pub open spec fn peace_factor(a: NationMetrics, b: NationMetrics) -> int {
    (a.diplomacy + b.diplomacy) + (a.culture + b.culture) / 2 + (a.religion + b.religion) / 2
}

/// Chance of war in a tick, in millionths: a fifth, lowered by a thousandth of the
/// peace factor, never under one percent.
pub open spec fn war_chance(a: NationMetrics, b: NationMetrics) -> int {
    let chance = 200_000 - peace_factor(a, b) / 1000;
    if chance < 10_000 {
        10_000
    } else {
        chance
    }
}

pub fn can_fight(a: &NationMetrics, b: &NationMetrics) -> (r: bool)
    ensures
        r == war_eligible(*a, *b),
{
    !a.is_destroyed && !b.is_destroyed && a.military > SCALE && b.military > SCALE
}

pub fn war_probability(a: &NationMetrics, b: &NationMetrics) -> (r: u32)
    requires
        a.wf(),
        b.wf(),
    ensures
        r == war_chance(*a, *b),
        10_000 <= r <= 200_000,
{
    let factor: i64 = (a.diplomacy + b.diplomacy) + (a.culture + b.culture) / 2 + (a.religion
        + b.religion) / 2;
    let chance: i64 = 200_000 - factor / 1000;
    if chance < 10_000 {
        10_000
    } else {
        chance as u32
    }
}

/// Military strength in battle: raised by science and by the weapon tier.
pub open spec fn effective_strength(m: NationMetrics) -> int {
    scaled(
        scaled(m.military as int, SCALE + m.science / 100, SCALE as int),
        m.weapon_tier.multiplier(),
        SCALE as int,
    )
}

pub fn effective_military(m: &NationMetrics) -> (r: i64)
    requires
        m.wf(),
    ensures
        r == effective_strength(*m),
        0 <= r <= 1_575_000_000,
{
    let boost: i64 = SCALE + m.science / 100;
    proof {
        lemma_scaled_bounds(m.military as int, boost as int, SCALE as int, METRIC_MAX as int, 3_500_000);
        lemma_scaled_bounds(
            scaled(m.military as int, boost as int, SCALE as int),
            m.weapon_tier.multiplier(),
            SCALE as int,
            875_000_000,
            1_800_000,
        );
    }
    let boosted: i64 = scale(m.military, boost, SCALE);
    scale(boosted, m.weapon_tier.combat_multiplier(), SCALE)
}

/// What chance decides in a battle.
#[derive(Clone, Copy, Debug)]
pub struct BattleDraws {
    /// Battle luck of each side, below its effective strength.
    pub roll_a: i64,
    pub roll_b: i64,
    /// Casualties per unit of combined military, in millionths.
    pub intensity: i64,
    /// Whether a side that can go nuclear does.
    pub escalate: bool,
    /// Number of warheads used in an escalation.
    pub strikes: u64,
    /// Whether a nuclear-armed opponent strikes back.
    pub mutual: bool,
}

impl BattleDraws {
    pub open spec fn wf(&self) -> bool {
        &&& 6_000 * SCALE <= self.intensity < 12_000 * SCALE
        &&& 1 <= self.strikes <= 1000
    }
}

/// How a battle ended.
#[derive(Clone, Copy, Debug)]
pub struct BattleOutcome {
    /// Whether the first of the two nations won.
    pub a_wins: bool,
    pub casualties: u64,
    pub winner_casualties: u64,
    pub loser_casualties: u64,
    pub nuclear: bool,
}

/// Whether a war between the two can only be fought late-game style.
pub open spec fn is_late_game(a: NationMetrics, b: NationMetrics, tick: u64) -> bool {
    tick > LATE_GAME_TICK || (a.weapon_tier.is_top() && b.weapon_tier.is_top())
}

/// Casualties before limits: combined military times intensity, multiplied in a
/// nuclear exchange by two and a half per warhead, or five when both sides strike.
pub open spec fn raw_casualties(a: NationMetrics, b: NationMetrics, d: BattleDraws) -> int {
    let force = if a.military + b.military < SCALE {
        SCALE as int
    } else {
        a.military + b.military
    };
    let conventional = scaled(force, d.intensity as int, SCALE as int * SCALE as int);
    if (a.weapon_tier.is_top() || b.weapon_tier.is_top()) && d.escalate {
        if a.weapon_tier.is_top() && b.weapon_tier.is_top() && d.mutual {
            conventional * 5 * d.strikes
        } else {
            conventional * 5 * d.strikes / 2
        }
    } else {
        conventional
    }
}

/// The outcome of a battle between `a` and `b` for given draws.
pub open spec fn battle_outcome(a: NationMetrics, b: NationMetrics, d: BattleDraws) -> BattleOutcome {
    let casualties = clamp_int(raw_casualties(a, b, d), CASUALTIES_MIN as int, CASUALTIES_MAX as int);
    let winner_casualties = casualties * 35 / 100;
    BattleOutcome {
        a_wins: d.roll_a > d.roll_b,
        casualties: casualties as u64,
        winner_casualties: winner_casualties as u64,
        loser_casualties: (casualties - winner_casualties) as u64,
        nuclear: (a.weapon_tier.is_top() || b.weapon_tier.is_top()) && d.escalate,
    }
}

/// Decides a battle from the metrics of both sides and the draws.
///
/// Casualties always lie between 15,000 and 2,000,000, and the battle is nuclear
/// only if at least one side holds the top weapon tier.
pub fn resolve_battle(a: &NationMetrics, b: &NationMetrics, d: &BattleDraws) -> (o: BattleOutcome)
    requires
        a.wf(),
        b.wf(),
        d.wf(),
    ensures
        o == battle_outcome(*a, *b, *d),
        CASUALTIES_MIN <= o.casualties <= CASUALTIES_MAX,
        o.winner_casualties + o.loser_casualties == o.casualties,
        o.nuclear ==> a.weapon_tier.is_top() || b.weapon_tier.is_top(),
{
    let force: i64 = if a.military + b.military < SCALE {
        SCALE
    } else {
        a.military + b.military
    };
    proof {
        lemma_scaled_bounds(
            force as int,
            d.intensity as int,
            SCALE as int * SCALE as int,
            2 * METRIC_MAX as int,
            12_000 * SCALE as int,
        );
    }
    let conventional: i64 = scale(force, d.intensity, SCALE * SCALE);
    let nuclear_a: bool = a.weapon_tier.is_nuclear();
    let nuclear_b: bool = b.weapon_tier.is_nuclear();
    let nuclear: bool = (nuclear_a || nuclear_b) && d.escalate;
    assert(0 <= conventional <= 6_000_000);
    let raw: i64 = if nuclear {
        assert(conventional * 5 * d.strikes <= 6_000_000 * 5 * 1000) by (nonlinear_arith)
            requires
                0 <= conventional <= 6_000_000,
                1 <= d.strikes <= 1000,
        ;
        assert(0 <= conventional * 5 * d.strikes) by (nonlinear_arith)
            requires
                0 <= conventional <= 6_000_000,
                1 <= d.strikes <= 1000,
        ;
        if nuclear_a && nuclear_b && d.mutual {
            conventional * 5 * (d.strikes as i64)
        } else {
            conventional * 5 * (d.strikes as i64) / 2
        }
    } else {
        conventional
    };
    let casualties: u64 = clamp(raw, CASUALTIES_MIN as i64, CASUALTIES_MAX as i64) as u64;
    let winner_casualties: u64 = casualties * 35 / 100;
    BattleOutcome {
        a_wins: d.roll_a > d.roll_b,
        casualties,
        winner_casualties,
        loser_casualties: casualties - winner_casualties,
        nuclear,
    }
}

/// Share of its people a nation loses, in millionths, at most three quarters.
pub open spec fn casualty_ratio(m: NationMetrics, casualties: int) -> int {
    let ratio = casualties * SCALE / (m.population as int);
    if ratio > 750_000 {
        750_000
    } else {
        ratio
    }
}

/// A nation after the losses in science, research, economy and culture that war
/// casualties bring. A nation without people loses nothing more.
pub open spec fn after_war_penalty(m: NationMetrics, casualties: int) -> NationMetrics {
    if m.population == 0 {
        m
    } else {
        let ratio = casualty_ratio(m, casualties);
        let science_loss = scaled(m.science as int, ratio, SCALE as int) * 6 / 10 + ratio * 12;
        let economy_loss = scaled(m.economy as int, ratio, SCALE as int) * 45 / 100 + ratio * 8;
        NationMetrics {
            science: clamp_int(m.science - science_loss, 0, METRIC_MAX as int) as i64,
            research_stock: scaled(
                m.research_stock as int,
                SCALE - ratio * 65 / 100,
                SCALE as int,
            ) as i64,
            economy: clamp_int(m.economy - economy_loss, 0, METRIC_MAX as int) as i64,
            culture: clamp_int(m.culture - ratio * 6, 0, METRIC_MAX as int) as i64,
            ..m
        }
    }
}

pub fn apply_war_science_penalty(metrics: &mut NationMetrics, casualties: u64)
    requires
        old(metrics).wf(),
        casualties <= CASUALTIES_MAX,
    ensures
        *final(metrics) == after_war_penalty(*old(metrics), casualties as int),
        final(metrics).wf(),
        final(metrics).science <= old(metrics).science,
        final(metrics).economy <= old(metrics).economy,
        final(metrics).culture <= old(metrics).culture,
        final(metrics).research_stock <= old(metrics).research_stock,
{
    if metrics.population == 0 {
        return ;
    }
    let full: u64 = casualties * (SCALE as u64) / metrics.population;
    let ratio: i64 = if full > 750_000 {
        750_000
    } else {
        full as i64
    };
    proof {
        lemma_scaled_shrinks(metrics.science as int, ratio as int, SCALE as int);
        lemma_scaled_shrinks(metrics.economy as int, ratio as int, SCALE as int);
        lemma_scaled_shrinks(
            metrics.research_stock as int,
            SCALE - ratio * 65 / 100,
            SCALE as int,
        );
    }
    let science_loss: i64 = scale(metrics.science, ratio, SCALE) * 6 / 10 + ratio * 12;
    let economy_loss: i64 = scale(metrics.economy, ratio, SCALE) * 45 / 100 + ratio * 8;
    metrics.science = clamp(metrics.science - science_loss, 0, METRIC_MAX);
    metrics.research_stock = scale(metrics.research_stock, SCALE - ratio * 65 / 100, SCALE);
    metrics.economy = clamp(metrics.economy - economy_loss, 0, METRIC_MAX);
    metrics.culture = clamp(metrics.culture - ratio * 6, 0, METRIC_MAX);
}

/// The head count after `casualties` deaths.
pub open spec fn survivors(m: NationMetrics, casualties: int) -> int {
    if casualties >= m.population {
        0
    } else {
        m.population - casualties
    }
}

/// The winner of a battle afterwards: more territory, less military, the wounds
/// of war, and a lift in diplomacy and culture from rebuilding.
pub open spec fn after_victory(m: NationMetrics, casualties: int) -> NationMetrics {
    let fought = NationMetrics {
        territory: clamp_int(m.territory + TERRITORY_CHANGE, 0, METRIC_MAX as int) as i64,
        military: clamp_int(m.military - MILITARY_LOSS, 0, METRIC_MAX as int) as i64,
        ..m
    };
    let hurt = after_war_penalty(fought, casualties).with_population(survivors(m, casualties));
    NationMetrics {
        diplomacy: clamp_int(hurt.diplomacy + 400_000, 0, 100 * SCALE) as i64,
        culture: clamp_int(hurt.culture + 600_000, 0, 100 * SCALE) as i64,
        ..hurt
    }
}

/// The loser of a battle afterwards: less territory and military and the wounds of
/// war; a loser left without territory is destroyed.
pub open spec fn after_defeat(m: NationMetrics, casualties: int) -> NationMetrics {
    let fought = NationMetrics {
        territory: clamp_int(m.territory - TERRITORY_CHANGE, 0, METRIC_MAX as int) as i64,
        military: clamp_int(m.military - MILITARY_LOSS, 0, METRIC_MAX as int) as i64,
        ..m
    };
    let hurt = after_war_penalty(fought, casualties).with_population(survivors(m, casualties));
    if hurt.territory <= 0 {
        hurt.destroyed()
    } else {
        hurt
    }
}

pub fn apply_victory(m: &mut NationMetrics, casualties: u64)
    requires
        old(m).wf(),
        !old(m).is_destroyed,
        casualties <= CASUALTIES_MAX,
    ensures
        *final(m) == after_victory(*old(m), casualties as int),
        final(m).wf(),
        !final(m).is_destroyed,
{
    m.territory = clamp(m.territory + TERRITORY_CHANGE, 0, METRIC_MAX);
    m.military = clamp(m.military - MILITARY_LOSS, 0, METRIC_MAX);
    apply_war_science_penalty(m, casualties);
    m.lose_population(casualties);
    m.diplomacy = clamp(m.diplomacy + 400_000, 0, 100 * SCALE);
    m.culture = clamp(m.culture + 600_000, 0, 100 * SCALE);
}

pub fn apply_defeat(m: &mut NationMetrics, casualties: u64) -> (destroyed: bool)
    requires
        old(m).wf(),
        !old(m).is_destroyed,
        casualties <= CASUALTIES_MAX,
    ensures
        *final(m) == after_defeat(*old(m), casualties as int),
        final(m).wf(),
        destroyed == final(m).is_destroyed,
        destroyed <==> old(m).territory <= TERRITORY_CHANGE,
{
    m.territory = clamp(m.territory - TERRITORY_CHANGE, 0, METRIC_MAX);
    m.military = clamp(m.military - MILITARY_LOSS, 0, METRIC_MAX);
    apply_war_science_penalty(m, casualties);
    m.lose_population(casualties);
    if m.territory <= 0 {
        m.destroy();
        true
    } else {
        false
    }
}

/// In every battle in which the loser holds at least the contested territory and
/// the winner has room to grow, the winner's territory rises and the loser's falls
/// by the same half unit, whatever the casualties.
pub proof fn lemma_territory_changes_hands(winner: NationMetrics, loser: NationMetrics, o: BattleOutcome)
    requires
        winner.wf(),
        loser.wf(),
        !winner.is_destroyed,
        !loser.is_destroyed,
        loser.territory >= TERRITORY_CHANGE,
        winner.territory + TERRITORY_CHANGE <= METRIC_MAX,
    ensures
        after_victory(winner, o.winner_casualties as int).territory - winner.territory
            == TERRITORY_CHANGE,
        loser.territory - after_defeat(loser, o.loser_casualties as int).territory
            == TERRITORY_CHANGE,
{
}

/// The nations after a battle that `winner` won against `loser`.
pub open spec fn metrics_after_battle(
    before: Seq<NationMetrics>,
    winner: Nation,
    loser: Nation,
    o: BattleOutcome,
) -> Seq<NationMetrics> {
    before.update(
        winner.index_of(),
        after_victory(before[winner.index_of()], o.winner_casualties as int),
    ).update(loser.index_of(), after_defeat(before[loser.index_of()], o.loser_casualties as int))
}

/// The civic state after a battle: a destroyed loser is razed.
pub open spec fn civ_after_battle(
    before: Seq<NationCivState>,
    loser: Nation,
    loser_destroyed: bool,
) -> Seq<NationCivState> {
    if loser_destroyed {
        before.update(loser.index_of(), NationCivState::razed())
    } else {
        before
    }
}

/// Applies the outcome of a battle to both sides.
pub fn apply_battle(
    metrics: &mut AllNationMetrics,
    civ: &mut AllNationCivState,
    winner: Nation,
    loser: Nation,
    o: &BattleOutcome,
)
    requires
        old(metrics).wf(),
        old(civ).wf(),
        winner != loser,
        !old(metrics).of(winner).is_destroyed,
        !old(metrics).of(loser).is_destroyed,
        o.winner_casualties <= CASUALTIES_MAX,
        o.loser_casualties <= CASUALTIES_MAX,
    ensures
        final(metrics).wf(),
        final(civ).wf(),
        final(metrics).0@ == metrics_after_battle(old(metrics).0@, winner, loser, *o),
        final(civ).0@ == civ_after_battle(
            old(civ).0@,
            loser,
            final(metrics).of(loser).is_destroyed,
        ),
{
    let w: usize = winner.index();
    let l: usize = loser.index();
    apply_victory(&mut metrics.0[w], o.winner_casualties);
    let destroyed: bool = apply_defeat(&mut metrics.0[l], o.loser_casualties);
    if destroyed {
        civ.0.set(l, NationCivState { cities: 0, happiness: 0, stability: 0, production: 0 });
    }
    assert(metrics.0@ =~= metrics_after_battle(old(metrics).0@, winner, loser, *o));
}

/// A tile after one tick of combat cleanup: the marker counts down and leaves with
/// both combatants when it reaches zero.
pub open spec fn after_cleanup(tile: Option<HexTile>) -> Option<HexTile> {
    match tile {
        Some(t) => match t.in_combat {
            Some(marker) => if marker.ticks_remaining <= 1 {
                Some(HexTile { hex: t.hex, in_combat: None, combatants: None })
            } else {
                Some(
                    HexTile {
                        hex: t.hex,
                        in_combat: Some(
                            InCombat { ticks_remaining: (marker.ticks_remaining - 1) as u32 },
                        ),
                        combatants: t.combatants,
                    },
                )
            },
            None => Some(t),
        },
        None => None,
    }
}

/// Counts down every combat marker and clears the ones that ran out.
pub fn combat_cleanup_system(grid: &mut HexGrid)
    requires
        old(grid).wf(),
    ensures
        final(grid).wf(),
        final(grid).radius == old(grid).radius,
        final(grid).tiles@.len() == old(grid).tiles@.len(),
        forall|i: int|
            0 <= i < old(grid).tiles@.len() ==> #[trigger] final(grid).tiles@[i] == after_cleanup(
                old(grid).tiles@[i],
            ),
        final(grid).same_land(&*old(grid)),
        same_hexes(old(grid).tiles@, final(grid).tiles@),
{
    let len: usize = grid.tiles.len();
    let mut i: usize = 0;
    while i < len
        invariant
            len == grid.tiles@.len(),
            len == old(grid).tiles@.len(),
            grid.radius == old(grid).radius,
            old(grid).wf(),
            i <= len,
            forall|j: int| 0 <= j < i ==> #[trigger] grid.tiles@[j] == after_cleanup(
                old(grid).tiles@[j],
            ),
            forall|j: int| i <= j < len ==> #[trigger] grid.tiles@[j] == old(grid).tiles@[j],
        decreases len - i,
    {
        match grid.tiles[i] {
            Some(t) => match t.in_combat {
                Some(marker) => {
                    if marker.ticks_remaining <= 1 {
                        grid.tiles.set(
                            i,
                            Some(HexTile { hex: t.hex, in_combat: None, combatants: None }),
                        );
                    } else {
                        grid.tiles.set(
                            i,
                            Some(
                                HexTile {
                                    hex: t.hex,
                                    in_combat: Some(
                                        InCombat { ticks_remaining: marker.ticks_remaining - 1 },
                                    ),
                                    combatants: t.combatants,
                                },
                            ),
                        );
                    }
                },
                None => {},
            },
            None => {},
        }
        i += 1;
    }
    assert forall|i: int|
        0 <= i < grid.tiles@.len() && (#[trigger] grid.tiles@[i]) is Some implies grid.tiles@[i]->0.wf() by {
        assert(grid.tiles@[i] == after_cleanup(old(grid).tiles@[i]));
        assert(old(grid).tiles@[i] is Some);
        assert(old(grid).tiles@[i]->0.wf());
    }
}

/// Whether any of the six hexes around `c` belongs to `nation`.
pub open spec fn borders(grid: &HexGrid, c: AxialCoord, nation: Nation) -> bool {
    let around = neighbors_of(c);
    ||| grid.owner_at(around[0]) == Some(nation)
    ||| grid.owner_at(around[1]) == Some(nation)
    ||| grid.owner_at(around[2]) == Some(nation)
    ||| grid.owner_at(around[3]) == Some(nation)
    ||| grid.owner_at(around[4]) == Some(nation)
    ||| grid.owner_at(around[5]) == Some(nation)
}

/// Whether the hex at a slot is held by `winner` and touches a hex of `loser`.
pub open spec fn is_front(grid: &HexGrid, slot: int, winner: Nation, loser: Nation) -> bool {
    &&& grid.tiles@[slot] is Some
    &&& grid.tiles@[slot]->0.hex.owner == winner
    &&& borders(grid, coord_at(grid.radius as int, slot), loser)
}

/// A tile after a battle: hexes on the front become contested for five ticks.
pub open spec fn after_front_marking(
    grid: &HexGrid,
    slot: int,
    winner: Nation,
    loser: Nation,
) -> Option<HexTile> {
    if is_front(grid, slot, winner, loser) {
        Some(
            HexTile {
                hex: grid.tiles@[slot]->0.hex,
                in_combat: Some(InCombat { ticks_remaining: COMBAT_TICKS }),
                combatants: Some(Combatants { nation_a: winner, nation_b: loser }),
            },
        )
    } else {
        grid.tiles@[slot]
    }
}

/// Whether two tables hold the same hexes at the same places, whatever the markers.
pub open spec fn same_hexes(a: Seq<Option<HexTile>>, b: Seq<Option<HexTile>>) -> bool {
    &&& a.len() == b.len()
    &&& forall|i: int|
        0 <= i < a.len() ==> ((#[trigger] a[i]) is Some <==> b[i] is Some) && (a[i] is Some
            ==> a[i]->0.hex == b[i]->0.hex)
}

/// Ownership does not depend on combat markers.
pub proof fn lemma_same_owner(a: &HexGrid, b: &HexGrid, c: AxialCoord)
    requires
        a.wf(),
        b.wf(),
        a.radius == b.radius,
        same_hexes(a.tiles@, b.tiles@),
    ensures
        a.owner_at(c) == b.owner_at(c),
{
    if in_table(a.radius as int, c) {
        lemma_slot_roundtrip(a.radius as int, c);
    }
}

/// Who touches whom does not depend on combat markers.
pub proof fn lemma_same_borders(a: &HexGrid, b: &HexGrid, c: AxialCoord, nation: Nation)
    requires
        a.wf(),
        b.wf(),
        a.radius == b.radius,
        same_hexes(a.tiles@, b.tiles@),
    ensures
        borders(a, c, nation) == borders(b, c, nation),
{
    let around = neighbors_of(c);
    lemma_same_owner(a, b, around[0]);
    lemma_same_owner(a, b, around[1]);
    lemma_same_owner(a, b, around[2]);
    lemma_same_owner(a, b, around[3]);
    lemma_same_owner(a, b, around[4]);
    lemma_same_owner(a, b, around[5]);
}

fn touches(grid: &HexGrid, slot: usize, nation: Nation) -> (r: bool)
    requires
        grid.wf(),
        slot < grid.tiles@.len(),
    ensures
        r == borders(grid, coord_at(grid.radius as int, slot as int), nation),
{
    let c = grid.coord(slot);
    let around = c.neighbors();
    let o0 = grid.owner(around[0]);
    let o1 = grid.owner(around[1]);
    let o2 = grid.owner(around[2]);
    let o3 = grid.owner(around[3]);
    let o4 = grid.owner(around[4]);
    let o5 = grid.owner(around[5]);
    held_by(o0, nation) || held_by(o1, nation) || held_by(o2, nation) || held_by(o3, nation)
        || held_by(o4, nation) || held_by(o5, nation)
}

fn held_by(owner: Option<Nation>, nation: Nation) -> (r: bool)
    ensures
        r == (owner == Some(nation)),
{
    match owner {
        Some(o) => o == nation,
        None => false,
    }
}

/// The tile a slot holds once the front has been marked up to that slot.
fn front_tile(grid: &HexGrid, slot: usize, winner: Nation, loser: Nation) -> (r: Option<HexTile>)
    requires
        grid.wf(),
        slot < grid.tiles@.len(),
    ensures
        r == after_front_marking(grid, slot as int, winner, loser),
        r is Some <==> grid.tiles@[slot as int] is Some,
        r is Some ==> r->0.hex == grid.tiles@[slot as int]->0.hex && r->0.wf(),
{
    match grid.tiles[slot] {
        Some(t) => {
            if t.hex.owner == winner && touches(grid, slot, loser) {
                Some(
                    HexTile {
                        hex: t.hex,
                        in_combat: Some(InCombat { ticks_remaining: COMBAT_TICKS }),
                        combatants: Some(Combatants { nation_a: winner, nation_b: loser }),
                    },
                )
            } else {
                Some(t)
            }
        },
        None => None,
    }
}

/// Marks the winner's hexes along the border with the loser as contested.
pub fn mark_front(grid: &mut HexGrid, winner: Nation, loser: Nation)
    requires
        old(grid).wf(),
    ensures
        final(grid).wf(),
        final(grid).radius == old(grid).radius,
        forall|i: int|
            0 <= i < old(grid).tiles@.len() ==> #[trigger] final(grid).tiles@[i]
                == after_front_marking(&*old(grid), i, winner, loser),
        same_hexes(old(grid).tiles@, final(grid).tiles@),
{
    let len: usize = grid.tiles.len();
    let mut i: usize = 0;
    while i < len
        invariant
            grid.wf(),
            old(grid).wf(),
            len == grid.tiles@.len(),
            len == old(grid).tiles@.len(),
            grid.radius == old(grid).radius,
            i <= len,
            same_hexes(old(grid).tiles@, grid.tiles@),
            forall|j: int| 0 <= j < i ==> #[trigger] grid.tiles@[j] == after_front_marking(
                &*old(grid),
                j,
                winner,
                loser,
            ),
            forall|j: int| i <= j < len ==> #[trigger] grid.tiles@[j] == old(grid).tiles@[j],
        decreases len - i,
    {
        let tile: Option<HexTile> = front_tile(grid, i, winner, loser);
        proof {
            lemma_same_borders(
                &*old(grid),
                &*grid,
                coord_at(grid.radius as int, i as int),
                loser,
            );
        }
        grid.tiles.set(i, tile);
        i += 1;
    }
}

/// The range warhead counts are drawn from: hundreds late in the game, a handful before.
pub open spec fn strike_range(late: bool) -> (int, int) {
    if late {
        (200, 1001)
    } else {
        (3, 13)
    }
}

/// Chance in tenths that a nuclear-armed side escalates.
pub open spec fn escalation_tenths(late: bool) -> int {
    if late {
        9
    } else {
        6
    }
}

/// Whether draws are such as a battle between `a` and `b` at a tick can bring:
/// each roll below the strength of its side, and in an escalation a warhead
/// count from the range of the day.
pub open spec fn draws_fit(a: NationMetrics, b: NationMetrics, tick: u64, d: BattleDraws) -> bool {
    &&& d.wf()
    &&& 0 <= d.roll_a <= effective_strength(a)
    &&& 0 <= d.roll_b <= effective_strength(b)
    &&& d.escalate ==> (a.weapon_tier.is_top() || b.weapon_tier.is_top()) && strike_range(
        is_late_game(a, b, tick),
    ).0 <= d.strikes < strike_range(is_late_game(a, b, tick)).1
    &&& d.mutual ==> d.escalate && a.weapon_tier.is_top() && b.weapon_tier.is_top()
}

/// The chance in tenths that a nuclear-armed side escalates.
pub fn escalation_chance(late: bool) -> (r: u32)
    ensures
        r == escalation_tenths(late),
        r <= 10,
{
    if late {
        9
    } else {
        6
    }
}

/// Draws what chance decides in a battle between `a` and `b`.
///
/// Escalation, warhead count and retaliation are only drawn where they matter.
fn draw_battle(rng: &mut SmallRng, a: &NationMetrics, b: &NationMetrics, tick: u64) -> (d: BattleDraws)
    requires
        a.wf(),
        b.wf(),
    ensures
        draws_fit(*a, *b, tick, d),
{
    let strength_a: i64 = effective_military(a);
    let strength_b: i64 = effective_military(b);
    let roll_a: i64 = if strength_a > 0 {
        rng_range(rng, 0, strength_a as u64) as i64
    } else {
        0
    };
    let roll_b: i64 = if strength_b > 0 {
        rng_range(rng, 0, strength_b as u64) as i64
    } else {
        0
    };
    let intensity: i64 = rng_range(rng, 6_000_000_000, 12_000_000_000) as i64;
    let nuclear_a: bool = a.weapon_tier.is_nuclear();
    let nuclear_b: bool = b.weapon_tier.is_nuclear();
    let late: bool = tick > LATE_GAME_TICK || (nuclear_a && nuclear_b);
    let mut escalate: bool = false;
    let mut strikes: u64 = 1;
    let mut mutual: bool = false;
    if nuclear_a || nuclear_b {
        escalate = rng_ratio(rng, escalation_chance(late), 10);
        if escalate {
            strikes = if late {
                rng_range(rng, 200, 1001)
            } else {
                rng_range(rng, 3, 13)
            };
            mutual = nuclear_a && nuclear_b && rng_ratio(rng, 8, 10);
        }
    }
    BattleDraws { roll_a, roll_b, intensity, escalate, strikes, mutual }
}

/// Whether a slot holds a hex of `nation`.
pub open spec fn is_owned(grid: &HexGrid, slot: int, nation: Nation) -> bool {
    0 <= slot < grid.tiles@.len() && grid.tiles@[slot] is Some && grid.tiles@[slot]->0.hex.owner
        == nation
}

/// The first slot from `from` on that holds a hex of `nation`; the number of slots
/// if there is none.
pub open spec fn first_owned_from(tiles: Seq<Option<HexTile>>, nation: Nation, from: int) -> int
    decreases tiles.len() - from,
{
    if from < 0 || from >= tiles.len() {
        tiles.len() as int
    } else if tiles[from] is Some && tiles[from]->0.hex.owner == nation {
        from
    } else {
        first_owned_from(tiles, nation, from + 1)
    }
}

/// The slots of the hexes `nation` owns, in table order.
pub fn owned_slots(grid: &HexGrid, nation: Nation) -> (slots: Vec<usize>)
    requires
        grid.wf(),
    ensures
        forall|k: int|
            0 <= k < slots@.len() ==> (#[trigger] slots@[k]) < grid.tiles@.len()
                && grid.tiles@[slots@[k] as int] is Some && grid.tiles@[slots@[k] as int]->0.hex.owner
                == nation,
        slots@.len() == grid.owned_total(nation),
        slots@.len() > 0 ==> slots@[0] == first_owned_from(grid.tiles@, nation, 0),
        slots@.len() == 0 ==> first_owned_from(grid.tiles@, nation, 0) == grid.tiles@.len(),
{
    let mut slots: Vec<usize> = Vec::new();
    let len: usize = grid.tiles.len();
    let mut i: usize = 0;
    while i < len
        invariant
            len == grid.tiles@.len(),
            i <= len,
            slots@.len() == crate::grid::count_owned(grid.tiles@, nation, i as int),
            slots@.len() <= i,
            slots@.len() > 0 ==> slots@[0] == first_owned_from(grid.tiles@, nation, 0),
            slots@.len() == 0 ==> first_owned_from(grid.tiles@, nation, 0) == first_owned_from(
                grid.tiles@,
                nation,
                i as int,
            ),
            forall|k: int|
                0 <= k < slots@.len() ==> (#[trigger] slots@[k]) < grid.tiles@.len()
                    && grid.tiles@[slots@[k] as int] is Some
                    && grid.tiles@[slots@[k] as int]->0.hex.owner == nation,
        decreases len - i,
    {
        match grid.tiles[i] {
            Some(t) => {
                if t.hex.owner == nation {
                    slots.push(i);
                }
            },
            None => {},
        }
        i += 1;
    }
    slots
}

/// Whether a coordinate lies within a blast's reach of a hex of `nation`.
pub open spec fn near_land_of(grid: &HexGrid, nation: Nation, c: AxialCoord) -> bool {
    exists|t: int| #[trigger]
        is_owned(grid, t, nation) && in_blast(
            coord_at(grid.radius as int, t),
            BLAST_RADIUS as int,
            c,
        )
}

/// Whether the markers are what a nuclear exchange leaves on the land of `loser`:
/// every marker is as before or fresh, fresh ones lie within reach of a hex of
/// the loser, and everything within reach of the first of its hexes is marked.
pub open spec fn strikes_fell(
    grid: &HexGrid,
    before: &NuclearBlasts,
    after: &NuclearBlasts,
    loser: Nation,
) -> bool {
    let first = first_owned_from(grid.tiles@, loser, 0);
    &&& after.radius == before.radius
    &&& after.timers@.len() == before.timers@.len()
    &&& forall|s: int|
        0 <= s < before.timers@.len() ==> {
            &&& #[trigger] after.timers@[s] == before.timers@[s] || after.timers@[s] == Some(
                BLAST_DURATION,
            )
            &&& after.timers@[s] != before.timers@[s] ==> near_land_of(
                grid,
                loser,
                coord_at(before.radius as int, s),
            )
            &&& first < grid.tiles@.len() && in_blast(
                coord_at(grid.radius as int, first),
                BLAST_RADIUS as int,
                coord_at(before.radius as int, s),
            ) ==> after.timers@[s] == Some(BLAST_DURATION)
        }
}

/// Strikes the loser's land: up to twenty of its hexes picked at random, then the
/// first of its hexes, each with a blast of radius two that lasts eight ticks.
#[verifier::rlimit(50)]
fn nuclear_strikes(rng: &mut SmallRng, grid: &HexGrid, blasts: &mut NuclearBlasts, loser: Nation)
    requires
        grid.wf(),
        old(blasts).wf(),
    ensures
        final(blasts).wf(),
        final(blasts).radius == old(blasts).radius,
        strikes_fell(grid, &*old(blasts), &*final(blasts), loser),
{
    let mut targets: Vec<usize> = owned_slots(grid, loser);
    if targets.len() == 0 {
        return ;
    }
    let first: usize = targets[0];
    let ghost owned = targets@;
    rng_shuffle(rng, &mut targets);
    let count: usize = if targets.len() < STRIKE_TARGETS {
        targets.len()
    } else {
        STRIKE_TARGETS
    };
    let mut k: usize = 0;
    while k < count
        invariant
            grid.wf(),
            old(blasts).wf(),
            blasts.wf(),
            blasts.radius == old(blasts).radius,
            blasts.timers@.len() == old(blasts).timers@.len(),
            count <= targets@.len(),
            k <= count,
            targets@.to_multiset() == owned.to_multiset(),
            forall|j: int| 0 <= j < owned.len() ==> is_owned(grid, (#[trigger] owned[j]) as int, loser),
            forall|s: int|
                0 <= s < old(blasts).timers@.len() ==> (#[trigger] blasts.timers@[s] == old(
                    blasts,
                ).timers@[s] || blasts.timers@[s] == Some(BLAST_DURATION)),
            forall|s: int|
                0 <= s < old(blasts).timers@.len() && #[trigger] blasts.timers@[s] != old(
                    blasts,
                ).timers@[s] ==> near_land_of(grid, loser, coord_at(old(blasts).radius as int, s)),
        decreases count - k,
    {
        let slot: usize = targets[k];
        proof {
            assert(targets@[k as int] == slot);
            assert(targets@.contains(slot));
            targets@.to_multiset_ensures();
            assert(targets@.to_multiset().count(slot) > 0);
            owned.to_multiset_ensures();
            assert(owned.to_multiset().count(slot) > 0);
            assert(owned.contains(slot));
            let j = choose|j: int| 0 <= j < owned.len() && owned[j] == slot;
            assert(is_owned(grid, owned[j] as int, loser));
        }
        let center = grid.coord(slot);
        let ghost marked = blasts.timers@;
        let _ = mark_nuclear_blast(blasts, center, BLAST_RADIUS, BLAST_DURATION);
        proof {
            assert forall|s: int|
                0 <= s < old(blasts).timers@.len() && #[trigger] blasts.timers@[s] != old(
                    blasts,
                ).timers@[s] implies near_land_of(
                grid,
                loser,
                coord_at(old(blasts).radius as int, s),
            ) by {
                if blasts.timers@[s] != marked[s] {
                    assert(is_owned(grid, slot as int, loser));
                }
            }
        }
        k += 1;
    }
    proof {
        assert(is_owned(grid, owned[0] as int, loser));
    }
    let center = grid.coord(first);
    let ghost marked = blasts.timers@;
    let _ = mark_nuclear_blast(blasts, center, BLAST_RADIUS, BLAST_DURATION);
    proof {
        assert forall|s: int|
            0 <= s < old(blasts).timers@.len() && #[trigger] blasts.timers@[s] != old(
                blasts,
            ).timers@[s] implies near_land_of(grid, loser, coord_at(old(blasts).radius as int, s)) by {
            if blasts.timers@[s] != marked[s] {
                assert(is_owned(grid, first as int, loser));
            }
        }
    }
}

/// Whether an event reports a war at a tick.
pub open spec fn is_war_news(e: WorldEvent, tick: u64) -> bool {
    e.tick == tick && e.kind is Warfare
}

/// What a war touches: the nations, their civic state, the blast markers, the log
/// and the map.
pub type WarState = (Seq<NationMetrics>, Seq<NationCivState>, NuclearBlasts, Seq<WorldEvent>, HexGrid);

/// Whether an event reports the battle that `winner` won against `loser` at a tick.
pub open spec fn is_war_report(
    e: WorldEvent,
    tick: u64,
    meta: &WorldMetadata,
    winner: Nation,
    loser: Nation,
    o: BattleOutcome,
) -> bool {
    &&& e.tick == tick
    &&& e.epoch@ == meta.epochs.segment_at(tick as int).label_text()
    &&& e.season@ == meta.epochs.season_at(tick as int).label_text()
    &&& e.kind == (WorldEventKind::Warfare {
        winner,
        loser,
        territory_change: TERRITORY_CHANGE,
        casualties: o.casualties,
        nuclear: o.nuclear,
    })
}

/// Whether `after` is what the battle between the nations at positions `i` and `j`
/// with the draws `d` makes of `before`: both sides changed as the outcome says, a
/// destroyed loser razed, the event `e` logged, the loser's land struck if the
/// battle went nuclear, and the winner's hexes along the border contested.
pub open spec fn is_fight_result(
    d: BattleDraws,
    e: WorldEvent,
    i: int,
    j: int,
    tick: u64,
    meta: &WorldMetadata,
    capacity: int,
    before: WarState,
    after: WarState,
) -> bool {
    let o = battle_outcome(before.0[i], before.0[j], d);
    let winner = if o.a_wins {
        Nation::at(i)
    } else {
        Nation::at(j)
    };
    let loser = if o.a_wins {
        Nation::at(j)
    } else {
        Nation::at(i)
    };
    &&& draws_fit(before.0[i], before.0[j], tick, d)
    &&& after.0 == metrics_after_battle(before.0, winner, loser, o)
    &&& after.1 == civ_after_battle(before.1, loser, after.0[loser.index_of()].is_destroyed)
    &&& is_war_report(e, tick, meta, winner, loser, o)
    &&& after.3 == log_after_push(before.3, capacity, e)
    &&& if o.nuclear {
        strikes_fell(&before.4, &before.2, &after.2, loser)
    } else {
        after.2 == before.2
    }
    &&& after.4.radius == before.4.radius
    &&& after.4.tiles@.len() == before.4.tiles@.len()
    &&& forall|s: int|
        0 <= s < before.4.tiles@.len() ==> #[trigger] after.4.tiles@[s] == after_front_marking(
            &before.4,
            s,
            winner,
            loser,
        )
}

/// Whether `after` is what a war between the nations at positions `i` and `j`
/// makes of `before`: nothing if one of the two is destroyed, and otherwise the
/// result of one battle, whatever its draws.
pub open spec fn fought(
    i: int,
    j: int,
    tick: u64,
    meta: &WorldMetadata,
    capacity: int,
    before: WarState,
    after: WarState,
) -> bool {
    if before.0[i].is_destroyed || before.0[j].is_destroyed {
        after == before
    } else {
        exists|d: BattleDraws, e: WorldEvent| #[trigger]
            is_fight_result(d, e, i, j, tick, meta, capacity, before, after)
    }
}

/// Fights one war between the nations at table positions `i` and `j`, unless one
/// of them has been destroyed in the meantime.
#[verifier::rlimit(50)]
fn fight(
    rng: &mut SmallRng,
    i: usize,
    j: usize,
    all_metrics: &mut AllNationMetrics,
    civ_state: &mut AllNationCivState,
    blasts: &mut NuclearBlasts,
    tick: u64,
    event_log: &mut WorldEventLog,
    world_meta: &WorldMetadata,
    grid: &mut HexGrid,
    Ghost(before): Ghost<Seq<WorldEvent>>,
)
    requires
        only_added(before, old(event_log)@, |e: WorldEvent| is_war_news(e, tick)),
        i < j < NATION_COUNT,
        old(all_metrics).wf(),
        old(civ_state).wf(),
        old(blasts).wf(),
        old(event_log).wf(),
        world_meta.wf(),
        old(grid).wf(),
    ensures
        final(all_metrics).wf(),
        final(civ_state).wf(),
        final(blasts).wf(),
        final(blasts).radius == old(blasts).radius,
        final(event_log).wf(),
        final(event_log).capacity_of() == old(event_log).capacity_of(),
        final(grid).wf(),
        final(grid).radius == old(grid).radius,
        same_hexes(old(grid).tiles@, final(grid).tiles@),
        destroyed_are_empty(old(all_metrics).0@, old(civ_state).0@) ==> destroyed_are_empty(
            final(all_metrics).0@,
            final(civ_state).0@,
        ),
        destruction_is_final(old(all_metrics).0@, final(all_metrics).0@),
        only_added(before, final(event_log)@, |e: WorldEvent| is_war_news(e, tick)),
        fought(
            i as int,
            j as int,
            tick,
            world_meta,
            old(event_log).capacity_of(),
            (old(all_metrics).0@, old(civ_state).0@, *old(blasts), old(event_log)@, *old(grid)),
            (
                final(all_metrics).0@,
                final(civ_state).0@,
                *final(blasts),
                final(event_log)@,
                *final(grid),
            ),
        ),
{
    if all_metrics.0[i].is_destroyed || all_metrics.0[j].is_destroyed {
        return ;
    }
    let draws: BattleDraws = draw_battle(rng, &all_metrics.0[i], &all_metrics.0[j], tick);
    let outcome: BattleOutcome = resolve_battle(&all_metrics.0[i], &all_metrics.0[j], &draws);
    let nation_i: Nation = Nation::from_index(i);
    let nation_j: Nation = Nation::from_index(j);
    let (winner, loser) = if outcome.a_wins {
        (nation_i, nation_j)
    } else {
        (nation_j, nation_i)
    };
    apply_battle(all_metrics, civ_state, winner, loser, &outcome);
    let (epoch, season) = world_meta.epoch_for_tick(tick);
    let event = WorldEvent::warfare(
        tick,
        epoch,
        season,
        winner,
        loser,
        TERRITORY_CHANGE,
        outcome.casualties,
        outcome.nuclear,
    );
    event_log.record(event, Ghost(before), Ghost(|e: WorldEvent| is_war_news(e, tick)));
    if outcome.nuclear {
        nuclear_strikes(rng, grid, blasts, loser);
    }
    mark_front(grid, winner, loser);
    proof {
        assert(is_fight_result(
            draws,
            event,
            i as int,
            j as int,
            tick,
            world_meta,
            old(event_log).capacity_of(),
            (old(all_metrics).0@, old(civ_state).0@, *old(blasts), old(event_log)@, *old(grid)),
            (all_metrics.0@, civ_state.0@, *blasts, event_log@, *grid),
        ));
    }
}

/// Whether no two nations can go to war.
pub open spec fn at_peace(metrics: Seq<NationMetrics>) -> bool {
    forall|i: int, j: int|
        0 <= i < j < NATION_COUNT ==> !war_eligible(#[trigger] metrics[i], #[trigger] metrics[j])
}

/// Whether the pair `a` comes before the pair `b` when pairs are walked by their
/// first nation and then by their second.
pub open spec fn pair_before(a: (usize, usize), b: (usize, usize)) -> bool {
    a.0 < b.0 || (a.0 == b.0 && a.1 < b.1)
}

/// Whether `wars` can be a tick's wars: pairs of two different nations that can
/// fight each other, the first earlier in the table than the second, each pair at
/// most once and in table order.
pub open spec fn are_wars(wars: Seq<(usize, usize)>, metrics: Seq<NationMetrics>) -> bool {
    &&& forall|k: int|
        0 <= k < wars.len() ==> (#[trigger] wars[k]).0 < wars[k].1 < NATION_COUNT && war_eligible(
            metrics[wars[k].0 as int],
            metrics[wars[k].1 as int],
        )
    &&& forall|k: int, l: int|
        0 <= k < l < wars.len() ==> pair_before(#[trigger] wars[k], #[trigger] wars[l])
}

/// Which wars break out this tick: every pair that can fight goes to war with the
/// chance its peace factor leaves. That chance is never zero and never certain, so
/// of the pairs that can fight any selection may come back.
fn draw_wars(rng: &mut SmallRng, all_metrics: &AllNationMetrics) -> (wars: Vec<(usize, usize)>)
    requires
        all_metrics.wf(),
    ensures
        are_wars(wars@, all_metrics.0@),
{
    let mut wars: Vec<(usize, usize)> = Vec::new();
    let mut i: usize = 0;
    while i < NATION_COUNT
        invariant
            all_metrics.wf(),
            i <= NATION_COUNT,
            are_wars(wars@, all_metrics.0@),
            forall|k: int| 0 <= k < wars@.len() ==> (#[trigger] wars@[k]).0 < i,
        decreases NATION_COUNT - i,
    {
        let mut j: usize = i + 1;
        while j < NATION_COUNT
            invariant
                all_metrics.wf(),
                i < NATION_COUNT,
                i < j <= NATION_COUNT,
                are_wars(wars@, all_metrics.0@),
                forall|k: int| 0 <= k < wars@.len() ==> pair_before(#[trigger] wars@[k], (i, j)),
            decreases NATION_COUNT - j,
        {
            let a = &all_metrics.0[i];
            let b = &all_metrics.0[j];
            if can_fight(a, b) {
                let chance: u32 = war_probability(a, b);
                if rng_ratio(rng, chance, 1_000_000) {
                    wars.push((i, j));
                }
            }
            j += 1;
        }
        i += 1;
    }
    wars
}

/// Whether `after` is what fighting `wars` one after the other makes of `before`,
/// with `states` the world before the first war, between the wars and after the
/// last.
pub open spec fn is_campaign(
    wars: Seq<(usize, usize)>,
    states: Seq<WarState>,
    tick: u64,
    meta: &WorldMetadata,
    capacity: int,
    before: WarState,
    after: WarState,
) -> bool {
    &&& are_wars(wars, before.0)
    &&& states.len() == wars.len() + 1
    &&& states[0] == before
    &&& states[wars.len() as int] == after
    &&& forall|k: int|
        0 <= k < wars.len() ==> fought(
            (#[trigger] wars[k]).0 as int,
            wars[k].1 as int,
            tick,
            meta,
            capacity,
            states[k],
            states[k + 1],
        )
}

/// Whether `after` is what a tick's wars make of `before`, whichever of the
/// possible wars break out and whatever the draws of their battles.
pub open spec fn campaigned(
    tick: u64,
    meta: &WorldMetadata,
    capacity: int,
    before: WarState,
    after: WarState,
) -> bool {
    exists|wars: Seq<(usize, usize)>, states: Seq<WarState>| #[trigger]
        is_campaign(wars, states, tick, meta, capacity, before, after)
}

/// Lets wars break out and fights them.
///
/// Which wars break out and how they end is up to the draws. Nothing happens once
/// the science race is over. Otherwise some of the pairs that can fight go to war,
/// in table order, and each war is one battle between two nations that both still
/// stand when their turn comes. Whatever the draws: no destroyed nation returns,
/// and where every destroyed nation was without people and cities, every
/// destroyed nation still is; the map keeps its hexes and their owners; the log
/// stays within its capacity.
#[verifier::rlimit(50)]
pub fn warfare_system(
    all_metrics: &mut AllNationMetrics,
    civ_state: &mut AllNationCivState,
    blasts: &mut NuclearBlasts,
    time: &WorldTime,
    event_log: &mut WorldEventLog,
    world_meta: &WorldMetadata,
    science_victory: &ScienceVictory,
    grid: &mut HexGrid,
)
    requires
        old(all_metrics).wf(),
        old(civ_state).wf(),
        old(blasts).wf(),
        old(event_log).wf(),
        world_meta.wf(),
        old(grid).wf(),
    ensures
        final(all_metrics).wf(),
        final(civ_state).wf(),
        final(blasts).wf(),
        final(blasts).radius == old(blasts).radius,
        final(event_log).wf(),
        final(event_log).capacity_of() == old(event_log).capacity_of(),
        final(grid).wf(),
        final(grid).radius == old(grid).radius,
        same_hexes(old(grid).tiles@, final(grid).tiles@),
        destroyed_are_empty(old(all_metrics).0@, old(civ_state).0@) ==> destroyed_are_empty(
            final(all_metrics).0@,
            final(civ_state).0@,
        ),
        destruction_is_final(old(all_metrics).0@, final(all_metrics).0@),
        science_victory.finished || at_peace(old(all_metrics).0@) ==> {
            &&& *final(all_metrics) == *old(all_metrics)
            &&& *final(civ_state) == *old(civ_state)
            &&& *final(blasts) == *old(blasts)
            &&& *final(event_log) == *old(event_log)
            &&& *final(grid) == *old(grid)
        },
        !science_victory.finished ==> campaigned(
            time.tick,
            world_meta,
            old(event_log).capacity_of(),
            (old(all_metrics).0@, old(civ_state).0@, *old(blasts), old(event_log)@, *old(grid)),
            (
                final(all_metrics).0@,
                final(civ_state).0@,
                *final(blasts),
                final(event_log)@,
                *final(grid),
            ),
        ),
        final(grid).same_land(&*old(grid)),
        only_added(old(event_log)@, final(event_log)@, |e: WorldEvent| is_war_news(e, time.tick)),
{
    if science_victory.finished {
        return ;
    }
    let mut rng = rng_from_seed(seed(time.tick, 257, 0, 1));
    let wars: Vec<(usize, usize)> = draw_wars(&mut rng, all_metrics);
    proof {
        if at_peace(all_metrics.0@) && wars@.len() > 0 {
            let (i, j) = wars@[0];
            assert(war_eligible(all_metrics.0@[i as int], all_metrics.0@[j as int]));
        }
    }
    let ghost start: WarState = (
        old(all_metrics).0@,
        old(civ_state).0@,
        *old(blasts),
        old(event_log)@,
        *old(grid),
    );
    let ghost mut states: Seq<WarState> = seq![start];
    let mut k: usize = 0;
    while k < wars.len()
        invariant
            k <= wars@.len(),
            forall|n: int| 0 <= n < wars@.len() ==> (#[trigger] wars@[n]).0 < wars@[n].1 < NATION_COUNT,
            all_metrics.wf(),
            civ_state.wf(),
            blasts.wf(),
            blasts.radius == old(blasts).radius,
            event_log.wf(),
            event_log.capacity_of() == old(event_log).capacity_of(),
            world_meta.wf(),
            grid.wf(),
            grid.radius == old(grid).radius,
            same_hexes(old(grid).tiles@, grid.tiles@),
            destroyed_are_empty(old(all_metrics).0@, old(civ_state).0@) ==> destroyed_are_empty(
                all_metrics.0@,
                civ_state.0@,
            ),
            destruction_is_final(old(all_metrics).0@, all_metrics.0@),
            only_added(old(event_log)@, event_log@, |e: WorldEvent| is_war_news(e, time.tick)),
            wars@.len() == 0 ==> {
                &&& *all_metrics == *old(all_metrics)
                &&& *civ_state == *old(civ_state)
                &&& *blasts == *old(blasts)
                &&& *event_log == *old(event_log)
                &&& *grid == *old(grid)
            },
            states.len() == k + 1,
            states[0] == start,
            states[k as int] == (all_metrics.0@, civ_state.0@, *blasts, event_log@, *grid),
            forall|n: int|
                0 <= n < k ==> fought(
                    (#[trigger] wars@[n]).0 as int,
                    wars@[n].1 as int,
                    time.tick,
                    world_meta,
                    old(event_log).capacity_of(),
                    states[n],
                    states[n + 1],
                ),
        decreases wars@.len() - k,
    {
        let (i, j) = wars[k];
        let ghost earlier = states;
        fight(
            &mut rng,
            i,
            j,
            all_metrics,
            civ_state,
            blasts,
            time.tick,
            event_log,
            world_meta,
            grid,
            Ghost(old(event_log)@),
        );
        proof {
            states = earlier.push((all_metrics.0@, civ_state.0@, *blasts, event_log@, *grid));
            assert forall|n: int| 0 <= n < k + 1 implies fought(
                (#[trigger] wars@[n]).0 as int,
                wars@[n].1 as int,
                time.tick,
                world_meta,
                old(event_log).capacity_of(),
                states[n],
                states[n + 1],
            ) by {
                if n < k {
                    assert(states[n] == earlier[n]);
                    assert(states[n + 1] == earlier[n + 1]);
                } else {
                    assert(states[n] == earlier[k as int]);
                }
            }
        }
        k += 1;
    }
    proof {
        assert(is_campaign(
            wars@,
            states,
            time.tick,
            world_meta,
            old(event_log).capacity_of(),
            start,
            (all_metrics.0@, civ_state.0@, *blasts, event_log@, *grid),
        ));
    }
}

} // verus!
