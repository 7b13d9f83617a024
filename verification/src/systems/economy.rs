//! The economy: what nations pay and invest each tick, and what traders and
//! gatherers add to it.

use vstd::prelude::*;
use crate::resources::same_fates;
use rand::rngs::SmallRng;
use crate::blocs::BLOC_STRENGTH_MAX;
use crate::blocs::WorldBlocs;
use crate::blocs::bloc_pull;
use crate::blocs::bloc_strength_for;
use crate::components::BehaviorState;
use crate::components::Biome;
use crate::components::Entity;
use crate::components::Faction;
use crate::components::QUANTITY_MAX;
use crate::components::entities_wf;
use crate::fixed::SCALE;
use crate::fixed::clamp;
use crate::fixed::clamp_int;
use crate::fixed::scale_clamped;
use crate::fixed::scaled;
use crate::nation::Nation;
use crate::nation::NATION_COUNT;
use crate::resources::AllNationMetrics;
use crate::resources::NationMetrics;
use crate::resources::WorldTime;
use crate::rng::rng_from_seed;
use crate::rng::rng_range;
use crate::rng::seed;
use crate::world::DaySegment;
use crate::world::Season;
use crate::world::WorldMetadata;

verus! {

/// Widest range a metric may take between the passes of the economy, in millionths.
pub const LOOSE_MAX: i64 = 1_000_000_000;

/// Largest gain or loss a single deal may bring, in millionths.
pub const GAIN_MAX: i64 = 1_000_000_000_000;

/// Upper end of the range the economy leaves every metric in: 100 units.
pub const ECONOMY_CAP: i64 = 100_000_000;

pub open spec fn season_trade_modifier(season: Season) -> int {
    match season {
        Season::FlowerBloom => 1_100_000,
        Season::SunburstPeak => 1_000_000,
        Season::Ashfall => 950_000,
    }
}

pub open spec fn season_gather_modifier(season: Season) -> int {
    match season {
        Season::FlowerBloom => 1_250_000,
        Season::SunburstPeak => 1_050_000,
        Season::Ashfall => 900_000,
    }
}

pub open spec fn segment_trade_modifier(segment: DaySegment) -> int {
    match segment {
        DaySegment::Midday => 1_200_000,
        DaySegment::Dusk => 850_000,
        DaySegment::Dawn => 1_000_000,
    }
}

fn season_trade(season: Season) -> (r: i64)
    ensures
        r == season_trade_modifier(season),
{
    match season {
        Season::FlowerBloom => 1_100_000,
        Season::SunburstPeak => 1_000_000,
        Season::Ashfall => 950_000,
    }
}

fn season_gather(season: Season) -> (r: i64)
    ensures
        r == season_gather_modifier(season),
{
    match season {
        Season::FlowerBloom => 1_250_000,
        Season::SunburstPeak => 1_050_000,
        Season::Ashfall => 900_000,
    }
}

fn segment_trade(segment: DaySegment) -> (r: i64)
    ensures
        r == segment_trade_modifier(segment),
{
    match segment {
        DaySegment::Midday => 1_200_000,
        DaySegment::Dusk => 850_000,
        DaySegment::Dawn => 1_000_000,
    }
}

/// `x` limited to what a single deal may bring.
pub open spec fn bounded_gain(x: int) -> int {
    clamp_int(x, -GAIN_MAX as int, GAIN_MAX as int)
}

/// A product of two factors, limited to what a single deal may bring.
pub open spec fn times(a: int, b: int) -> int {
    bounded_gain(scaled(a, b, SCALE as int))
}

fn product(a: i64, b: i64) -> (r: i64)
    ensures
        r == times(a as int, b as int),
        -GAIN_MAX <= r <= GAIN_MAX,
{
    scale_clamped(a, b, SCALE, -GAIN_MAX, GAIN_MAX)
}

/// The upkeep a deal costs: `base` times the faction's burden, which counts as at
/// least a half.
pub open spec fn upkeep_penalty(base: int, upkeep: int) -> int {
    times(
        base,
        if upkeep < 500_000 {
            500_000
        } else {
            upkeep
        },
    )
}

/// What trade in a biome by a faction yields at a time of day and season,
/// relative to a standard deal.
pub open spec fn trade_multiplier(
    meta: &WorldMetadata,
    biome: Biome,
    faction: Faction,
    segment: DaySegment,
    season: Season,
) -> int {
    times(
        times(
            times(meta.trade_opportunity_of(biome), meta.trade_yield_of(faction)),
            season_trade_modifier(season),
        ),
        segment_trade_modifier(segment),
    )
}

/// How risky deals in a biome are for a faction.
pub open spec fn deal_risk(meta: &WorldMetadata, biome: Biome, faction: Faction) -> int {
    bounded_gain(
        scaled(meta.risk_factor_of(biome), SCALE as int, meta.volatility_resistance_of(faction)),
    )
}

/// What a trader gains in a tick: six units times the trade multiplier, less
/// upkeep, plus the luck of the day scaled by risk. `jitter` is that luck,
/// between minus two and two units.
pub open spec fn trade_gain(
    meta: &WorldMetadata,
    biome: Biome,
    faction: Faction,
    segment: DaySegment,
    season: Season,
    jitter: int,
) -> int {
    times(6 * SCALE, trade_multiplier(meta, biome, faction, segment, season)) - upkeep_penalty(
        750_000,
        meta.upkeep_burden_of(faction),
    ) + times(jitter, deal_risk(meta, biome, faction))
}

/// What a gatherer gains in a tick: three units times the abundance of the biome
/// in this season, less upkeep, plus a find worth `bonus` (up to two units).
pub open spec fn gather_gain(
    meta: &WorldMetadata,
    biome: Biome,
    faction: Faction,
    season: Season,
    bonus: int,
) -> int {
    times(
        3 * SCALE,
        times(meta.resource_abundance_of(biome), season_gather_modifier(season)),
    ) - upkeep_penalty(350_000, meta.upkeep_burden_of(faction)) + bonus
}

pub fn trade_gain_for(
    meta: &WorldMetadata,
    biome: Biome,
    faction: Faction,
    segment: DaySegment,
    season: Season,
    jitter: i64,
) -> (r: i64)
    requires
        meta.wf(),
        -2 * SCALE <= jitter <= 2 * SCALE,
    ensures
        r == trade_gain(meta, biome, faction, segment, season, jitter as int),
        -3 * GAIN_MAX <= r <= 3 * GAIN_MAX,
{
    let multiplier: i64 = product(
        product(
            product(meta.biome_trade_opportunity(biome), meta.faction_trade_yield(faction)),
            season_trade(season),
        ),
        segment_trade(segment),
    );
    let upkeep: i64 = meta.faction_upkeep_burden(faction);
    let burden: i64 = if upkeep < 500_000 {
        500_000
    } else {
        upkeep
    };
    let risk: i64 = scale_clamped(
        meta.biome_risk_factor(biome),
        SCALE,
        meta.faction_volatility_resistance(faction),
        -GAIN_MAX,
        GAIN_MAX,
    );
    product(6 * SCALE, multiplier) - product(750_000, burden) + product(jitter, risk)
}

pub fn gather_gain_for(
    meta: &WorldMetadata,
    biome: Biome,
    faction: Faction,
    season: Season,
    bonus: i64,
) -> (r: i64)
    requires
        meta.wf(),
        0 <= bonus <= 2 * SCALE,
    ensures
        r == gather_gain(meta, biome, faction, season, bonus as int),
        -3 * GAIN_MAX <= r <= 3 * GAIN_MAX,
{
    let multiplier: i64 = product(meta.biome_resource_abundance(biome), season_gather(season));
    let upkeep: i64 = meta.faction_upkeep_burden(faction);
    let burden: i64 = if upkeep < 500_000 {
        500_000
    } else {
        upkeep
    };
    product(3 * SCALE, multiplier) - product(350_000, burden) + bonus
}

/// A purse after a gain or loss: never negative, never above the limit.
pub open spec fn purse_after(currency: int, gain: int) -> int {
    clamp_int(currency + gain, 0, QUANTITY_MAX as int)
}

/// A nation's economy after a deal adds the share `percent` of its gain.
pub open spec fn economy_after_deal(economy: int, gain: int, percent: int) -> int {
    clamp_int(economy + scaled(gain, percent, 100), -LOOSE_MAX as int, LOOSE_MAX as int)
}

/// Whether the six metrics the economy works on are within the range allowed
/// between its passes, and everything else is well formed.
pub open spec fn loosely_wf(m: NationMetrics) -> bool {
    &&& -LOOSE_MAX <= m.economy <= LOOSE_MAX
    &&& -LOOSE_MAX <= m.science <= LOOSE_MAX
    &&& -LOOSE_MAX <= m.culture <= LOOSE_MAX
    &&& -LOOSE_MAX <= m.diplomacy <= LOOSE_MAX
    &&& -LOOSE_MAX <= m.religion <= LOOSE_MAX
    &&& -LOOSE_MAX <= m.military <= LOOSE_MAX
    &&& (NationMetrics {
        economy: 0,
        science: 0,
        culture: 0,
        diplomacy: 0,
        religion: 0,
        military: 0,
        ..m
    }).wf()
}

/// A nation after upkeep, investment, decay and the pull of the blocs, before
/// the final limits are applied.
pub open spec fn after_budget(m: NationMetrics, pact: int, embargo: int) -> NationMetrics {
    let paid = m.economy - m.military * 5 / 100 - (m.science * 2 / 100 + m.culture / 100
        + m.diplomacy * 2 / 100);
    let military0 = if paid < 0 {
        m.military + scaled(paid, 2, 10)
    } else {
        m.military as int
    };
    let economy0 = if paid < 0 {
        0
    } else {
        paid
    };
    let rich = economy0 > 70 * SCALE;
    let solid = !rich && economy0 > 40 * SCALE;
    let military1 = military0 + if rich {
        500_000int
    } else if solid {
        100_000int
    } else {
        0int
    };
    let science1 = m.science + if rich {
        400_000int
    } else if solid {
        150_000int
    } else {
        0int
    };
    let diplomacy1 = m.diplomacy + if rich {
        300_000int
    } else if solid {
        100_000int
    } else {
        0int
    };
    let culture1 = m.culture + if solid {
        200_000int
    } else {
        0int
    };
    let religion1 = m.religion + if solid {
        100_000int
    } else {
        0int
    };
    let economy1 = economy0 - if rich {
        5 * SCALE as int
    } else if solid {
        SCALE as int
    } else {
        0int
    };
    NationMetrics {
        economy: (economy1 - embargo * 6 / 10) as i64,
        science: (science1 * 999 / 1000 + pact * 3 / 10 - embargo * 25 / 100) as i64,
        culture: (culture1 * 998 / 1000) as i64,
        diplomacy: (diplomacy1 * 999 / 1000 + pact * 15 / 100) as i64,
        religion: (religion1 * 9995 / 10_000) as i64,
        military: military1 as i64,
        ..m
    }
}

/// A nation after the economy's final limits: every metric it works on lies
/// between 0 and 100 units.
pub open spec fn after_limits(m: NationMetrics) -> NationMetrics {
    NationMetrics {
        economy: clamp_int(m.economy as int, 0, ECONOMY_CAP as int) as i64,
        science: clamp_int(m.science as int, 0, ECONOMY_CAP as int) as i64,
        culture: clamp_int(m.culture as int, 0, ECONOMY_CAP as int) as i64,
        diplomacy: clamp_int(m.diplomacy as int, 0, ECONOMY_CAP as int) as i64,
        religion: clamp_int(m.religion as int, 0, ECONOMY_CAP as int) as i64,
        military: clamp_int(m.military as int, 0, ECONOMY_CAP as int) as i64,
        ..m
    }
}

#[verifier::rlimit(50)]
pub fn apply_budget(m: &mut NationMetrics, pact: i64, embargo: i64)
    requires
        old(m).wf(),
        0 <= pact <= BLOC_STRENGTH_MAX,
        0 <= embargo <= BLOC_STRENGTH_MAX,
    ensures
        *final(m) == after_budget(*old(m), pact as int, embargo as int),
        loosely_wf(*final(m)),
{
    let paid: i64 = m.economy - m.military * 5 / 100 - (m.science * 2 / 100 + m.culture / 100
        + m.diplomacy * 2 / 100);
    if paid < 0 {
        m.military = m.military + scale_clamped(paid, 2, 10, -LOOSE_MAX, LOOSE_MAX);
        m.economy = 0;
    } else {
        m.economy = paid;
    }
    if m.economy > 70 * SCALE {
        m.military = m.military + 500_000;
        m.science = m.science + 400_000;
        m.diplomacy = m.diplomacy + 300_000;
        m.economy = m.economy - 5 * SCALE;
    } else if m.economy > 40 * SCALE {
        m.military = m.military + 100_000;
        m.science = m.science + 150_000;
        m.culture = m.culture + 200_000;
        m.religion = m.religion + 100_000;
        m.diplomacy = m.diplomacy + 100_000;
        m.economy = m.economy - SCALE;
    }
    m.science = m.science * 999 / 1000;
    m.culture = m.culture * 998 / 1000;
    m.diplomacy = m.diplomacy * 999 / 1000;
    m.religion = m.religion * 9995 / 10_000;
    m.science = m.science + pact * 3 / 10;
    m.diplomacy = m.diplomacy + pact * 15 / 100;
    m.economy = m.economy - embargo * 6 / 10;
    m.science = m.science - embargo * 25 / 100;
}

pub fn apply_limits(m: &mut NationMetrics)
    requires
        loosely_wf(*old(m)),
    ensures
        *final(m) == after_limits(*old(m)),
        final(m).wf(),
{
    m.economy = clamp(m.economy, 0, ECONOMY_CAP);
    m.science = clamp(m.science, 0, ECONOMY_CAP);
    m.culture = clamp(m.culture, 0, ECONOMY_CAP);
    m.diplomacy = clamp(m.diplomacy, 0, ECONOMY_CAP);
    m.religion = clamp(m.religion, 0, ECONOMY_CAP);
    m.military = clamp(m.military, 0, ECONOMY_CAP);
}

/// Settles a trader's deal: the purse takes the gain, the nation's economy a
/// twentieth of it.
pub fn settle_trade(entity: &mut Entity, m: &mut NationMetrics, gain: i64)
    requires
        old(entity).wf(),
        loosely_wf(*old(m)),
        -3 * GAIN_MAX <= gain <= 3 * GAIN_MAX,
    ensures
        *final(entity) == (Entity {
            inventory: crate::components::Inventory {
                items: old(entity).inventory.items,
                currency: purse_after(old(entity).inventory.currency as int, gain as int) as i64,
            },
            ..*old(entity)
        }),
        final(entity).wf(),
        *final(m) == (NationMetrics {
            economy: economy_after_deal(old(m).economy as int, gain as int, 5) as i64,
            ..*old(m)
        }),
        loosely_wf(*final(m)),
{
    entity.inventory.currency = clamp(entity.inventory.currency + gain, 0, QUANTITY_MAX);
    let part: i64 = scale_clamped(gain, 5, 100, -3 * GAIN_MAX, 3 * GAIN_MAX);
    m.economy = clamp(m.economy + part, -LOOSE_MAX, LOOSE_MAX);
}

/// Settles a gatherer's find: the purse takes any gain, the nation's economy three
/// hundredths of the result, gain or loss.
pub fn settle_gather(entity: &mut Entity, m: &mut NationMetrics, gain: i64)
    requires
        old(entity).wf(),
        loosely_wf(*old(m)),
        -3 * GAIN_MAX <= gain <= 3 * GAIN_MAX,
    ensures
        *final(entity) == (Entity {
            inventory: crate::components::Inventory {
                items: old(entity).inventory.items,
                currency: purse_after(
                    old(entity).inventory.currency as int,
                    if gain < 0 {
                        0
                    } else {
                        gain as int
                    },
                ) as i64,
            },
            ..*old(entity)
        }),
        final(entity).wf(),
        *final(m) == (NationMetrics {
            economy: economy_after_deal(old(m).economy as int, gain as int, 3) as i64,
            ..*old(m)
        }),
        loosely_wf(*final(m)),
{
    let kept: i64 = if gain < 0 {
        0
    } else {
        gain
    };
    entity.inventory.currency = clamp(entity.inventory.currency + kept, 0, QUANTITY_MAX);
    let part: i64 = scale_clamped(gain, 3, 100, -3 * GAIN_MAX, 3 * GAIN_MAX);
    m.economy = clamp(m.economy + part, -LOOSE_MAX, LOOSE_MAX);
}

/// Whether an inhabitant is the same as before but for the purse.
pub open spec fn same_but_purse(before: Entity, after: Entity) -> bool {
    after == (Entity {
        inventory: crate::components::Inventory {
            items: before.inventory.items,
            currency: after.inventory.currency,
        },
        ..before
    })
}

/// Whether a nation is the same as before but for the six metrics the economy works on.
pub open spec fn same_but_economy(before: NationMetrics, after: NationMetrics) -> bool {
    after == (NationMetrics {
        economy: after.economy,
        science: after.science,
        culture: after.culture,
        diplomacy: after.diplomacy,
        religion: after.religion,
        military: after.military,
        ..before
    })
}

/// Whether the six metrics the economy works on are at most 100 units.
pub open spec fn within_cap(m: NationMetrics) -> bool {
    &&& m.economy <= ECONOMY_CAP
    &&& m.science <= ECONOMY_CAP
    &&& m.culture <= ECONOMY_CAP
    &&& m.diplomacy <= ECONOMY_CAP
    &&& m.religion <= ECONOMY_CAP
    &&& m.military <= ECONOMY_CAP
}

/// Whether an inhabitant of `nation` trades or gathers among the first `n`.
pub open spec fn has_dealer(entities: Seq<Entity>, nation: Nation, n: int) -> bool {
    exists|k: int|
        0 <= k < n && (#[trigger] entities[k]).identity.nation == nation && (entities[k].behavior.state
            == BehaviorState::Trade || entities[k].behavior.state == BehaviorState::Gather)
}

/// Whether an inhabitant and its nation are what a trade with the luck `jitter`
/// makes of them.
pub open spec fn is_trade_deal(
    before: Entity,
    after: Entity,
    nation: NationMetrics,
    nation_after: NationMetrics,
    meta: &WorldMetadata,
    segment: DaySegment,
    season: Season,
    jitter: int,
) -> bool {
    let gain = trade_gain(
        meta,
        before.position.biome,
        before.identity.faction,
        segment,
        season,
        jitter,
    );
    &&& -2 * SCALE <= jitter < 2 * SCALE
    &&& after == (Entity {
        inventory: crate::components::Inventory {
            items: before.inventory.items,
            currency: purse_after(before.inventory.currency as int, gain) as i64,
        },
        ..before
    })
    &&& nation_after == (NationMetrics {
        economy: economy_after_deal(nation.economy as int, gain, 5) as i64,
        ..nation
    })
}

/// Whether an inhabitant and its nation are what gathering with a find worth
/// `bonus` makes of them.
pub open spec fn is_gather_deal(
    before: Entity,
    after: Entity,
    nation: NationMetrics,
    nation_after: NationMetrics,
    meta: &WorldMetadata,
    season: Season,
    bonus: int,
) -> bool {
    let gain = gather_gain(meta, before.position.biome, before.identity.faction, season, bonus);
    &&& 0 <= bonus < 2 * SCALE
    &&& after == (Entity {
        inventory: crate::components::Inventory {
            items: before.inventory.items,
            currency: purse_after(
                before.inventory.currency as int,
                if gain < 0 {
                    0
                } else {
                    gain
                },
            ) as i64,
        },
        ..before
    })
    &&& nation_after == (NationMetrics {
        economy: economy_after_deal(nation.economy as int, gain, 3) as i64,
        ..nation
    })
}

/// Whether an inhabitant and its nation are what a tick of dealing makes of them:
/// a trader books a trade with some luck between minus two and two units, a
/// gatherer a find worth up to two units, and anyone else nothing.
pub open spec fn dealt(
    before: Entity,
    after: Entity,
    nation: NationMetrics,
    nation_after: NationMetrics,
    meta: &WorldMetadata,
    segment: DaySegment,
    season: Season,
) -> bool {
    match before.behavior.state {
        BehaviorState::Trade => exists|jitter: int| #[trigger]
            is_trade_deal(before, after, nation, nation_after, meta, segment, season, jitter),
        BehaviorState::Gather => exists|bonus: int| #[trigger]
            is_gather_deal(before, after, nation, nation_after, meta, season, bonus),
        _ => after == before && nation_after == nation,
    }
}

/// Lets one inhabitant trade or gather and books the result.
fn entity_pass(
    rng: &mut SmallRng,
    entity: &mut Entity,
    m: &mut NationMetrics,
    meta: &WorldMetadata,
    segment: DaySegment,
    season: Season,
)
    requires
        old(entity).wf(),
        loosely_wf(*old(m)),
        meta.wf(),
    ensures
        final(entity).wf(),
        same_but_purse(*old(entity), *final(entity)),
        loosely_wf(*final(m)),
        same_but_economy(*old(m), *final(m)),
        old(entity).behavior.state != BehaviorState::Trade && old(entity).behavior.state
            != BehaviorState::Gather ==> *final(m) == *old(m) && *final(entity) == *old(entity),
        dealt(*old(entity), *final(entity), *old(m), *final(m), meta, segment, season),
{
    let biome: Biome = entity.position.biome;
    let faction: Faction = entity.identity.faction;
    match entity.behavior.state {
        BehaviorState::Trade => {
            let jitter: i64 = rng_range(rng, 0, 4_000_000) as i64 - 2 * SCALE;
            let gain: i64 = trade_gain_for(meta, biome, faction, segment, season, jitter);
            settle_trade(entity, m, gain);
            assert(is_trade_deal(
                *old(entity),
                *entity,
                *old(m),
                *m,
                meta,
                segment,
                season,
                jitter as int,
            ));
        },
        BehaviorState::Gather => {
            let bonus: i64 = rng_range(rng, 0, 2_000_000) as i64;
            let gain: i64 = gather_gain_for(meta, biome, faction, season, bonus);
            settle_gather(entity, m, gain);
            assert(is_gather_deal(*old(entity), *entity, *old(m), *m, meta, season, bonus as int));
        },
        _ => {},
    }
}

/// Whether `states` are the nations as the inhabitants deal one after the other,
/// from the nations before the first deal to those after the last: each
/// inhabitant in turn changes its own nation, and no other, as its deal says.
pub open spec fn is_dealing(
    states: Seq<Seq<NationMetrics>>,
    inhabitants: (Seq<Entity>, Seq<Entity>),
    nations: (Seq<NationMetrics>, Seq<NationMetrics>),
    meta: &WorldMetadata,
    segment: DaySegment,
    season: Season,
) -> bool {
    &&& states.len() == inhabitants.0.len() + 1
    &&& inhabitants.1.len() == inhabitants.0.len()
    &&& states[0] == nations.0
    &&& states[inhabitants.0.len() as int] == nations.1
    &&& forall|k: int|
        0 <= k < inhabitants.0.len() ==> {
            let home = (#[trigger] inhabitants.0[k]).identity.nation.index_of();
            &&& states[k + 1] == states[k].update(home, states[k + 1][home])
            &&& dealt(
                inhabitants.0[k],
                inhabitants.1[k],
                states[k][home],
                states[k + 1][home],
                meta,
                segment,
                season,
            )
        }
}

/// Whether the nations and inhabitants are what the deals of all inhabitants, one
/// after the other, make of them, whatever their luck.
pub open spec fn dealing(
    inhabitants: (Seq<Entity>, Seq<Entity>),
    nations: (Seq<NationMetrics>, Seq<NationMetrics>),
    meta: &WorldMetadata,
    segment: DaySegment,
    season: Season,
) -> bool {
    exists|states: Seq<Seq<NationMetrics>>| #[trigger]
        is_dealing(states, inhabitants, nations, meta, segment, season)
}

/// Whether a tick of the economy leads from the nations and inhabitants before
/// it to those after it by way of `budgeted`, the nations after their budgets,
/// and `settled`, the nations after the deals of the inhabitants and before they
/// are held to their limits.
pub open spec fn is_economy(
    budgeted: Seq<NationMetrics>,
    settled: Seq<NationMetrics>,
    inhabitants: (Seq<Entity>, Seq<Entity>),
    nations: (Seq<NationMetrics>, Seq<NationMetrics>),
    blocs: &WorldBlocs,
    meta: &WorldMetadata,
    segment: DaySegment,
    season: Season,
) -> bool {
    &&& budgeted.len() == NATION_COUNT
    &&& settled.len() == NATION_COUNT
    &&& forall|i: int|
        0 <= i < NATION_COUNT ==> #[trigger] budgeted[i] == after_budget(
            nations.0[i],
            bloc_pull(blocs.research_pact, Nation::at(i)),
            bloc_pull(blocs.sanction, Nation::at(i)),
        )
    &&& dealing(inhabitants, (budgeted, settled), meta, segment, season)
    &&& forall|i: int| 0 <= i < NATION_COUNT ==> #[trigger] nations.1[i] == after_limits(settled[i])
}

/// Whether the nations and inhabitants after a tick of the economy are what it
/// makes of those before: every nation gets its budget, then the inhabitants
/// deal one after the other, then every nation is held to its limits. The luck
/// of the deals is left open.
pub open spec fn traded(
    inhabitants: (Seq<Entity>, Seq<Entity>),
    nations: (Seq<NationMetrics>, Seq<NationMetrics>),
    blocs: &WorldBlocs,
    meta: &WorldMetadata,
    segment: DaySegment,
    season: Season,
) -> bool {
    exists|budgeted: Seq<NationMetrics>, settled: Seq<NationMetrics>| #[trigger]
        is_economy(budgeted, settled, inhabitants, nations, blocs, meta, segment, season)
}

/// Lets the inhabitants deal one after the other, each with a generator seeded by
/// the tick and its id.
#[verifier::rlimit(50)]
fn deal_all(
    entities: &mut Vec<Entity>,
    all_metrics: &mut AllNationMetrics,
    world_meta: &WorldMetadata,
    tick: u64,
    segment: DaySegment,
    season: Season,
)
    requires
        entities_wf(old(entities)@),
        world_meta.wf(),
        old(all_metrics).0@.len() == NATION_COUNT,
        forall|j: int| 0 <= j < NATION_COUNT ==> loosely_wf(#[trigger] old(all_metrics).0@[j]),
    ensures
        entities_wf(final(entities)@),
        final(entities)@.len() == old(entities)@.len(),
        forall|n: int|
            0 <= n < old(entities)@.len() ==> same_but_purse(
                old(entities)@[n],
                #[trigger] final(entities)@[n],
            ),
        final(all_metrics).0@.len() == NATION_COUNT,
        forall|j: int| 0 <= j < NATION_COUNT ==> loosely_wf(#[trigger] final(all_metrics).0@[j]),
        forall|j: int|
            0 <= j < NATION_COUNT ==> same_but_economy(
                old(all_metrics).0@[j],
                #[trigger] final(all_metrics).0@[j],
            ),
        forall|j: int|
            0 <= j < NATION_COUNT && !has_dealer(
                old(entities)@,
                Nation::at(j),
                old(entities)@.len() as int,
            ) ==> #[trigger] final(all_metrics).0@[j] == old(all_metrics).0@[j],
        dealing(
            (old(entities)@, final(entities)@),
            (old(all_metrics).0@, final(all_metrics).0@),
            world_meta,
            segment,
            season,
        ),
{
    let ghost budgeted = all_metrics.0@;
    let ghost mut states: Seq<Seq<NationMetrics>> = seq![budgeted];
    let count: usize = entities.len();
    let mut k: usize = 0;
    while k < count
        invariant
            k <= count,
            states.len() == k + 1,
            states[0] == budgeted,
            states[k as int] == all_metrics.0@,
            forall|n: int|
                0 <= n < k ==> {
                    let home = (#[trigger] old(entities)@[n]).identity.nation.index_of();
                    &&& states[n + 1] == states[n].update(home, states[n + 1][home])
                    &&& dealt(
                        old(entities)@[n],
                        entities@[n],
                        states[n][home],
                        states[n + 1][home],
                        world_meta,
                        segment,
                        season,
                    )
                },
            count == entities@.len(),
            count == old(entities)@.len(),
            world_meta.wf(),
            entities_wf(entities@),
            budgeted.len() == NATION_COUNT,
            forall|n: int| k <= n < count ==> #[trigger] entities@[n] == old(entities)@[n],
            forall|j: int|
                0 <= j < NATION_COUNT && !has_dealer(old(entities)@, Nation::at(j), k as int)
                    ==> #[trigger] all_metrics.0@[j] == budgeted[j],
            forall|n: int|
                0 <= n < count ==> same_but_purse(old(entities)@[n], #[trigger] entities@[n]),
            all_metrics.0@.len() == NATION_COUNT,
            forall|j: int| 0 <= j < NATION_COUNT ==> loosely_wf(#[trigger] all_metrics.0@[j]),
            forall|j: int|
                0 <= j < NATION_COUNT ==> same_but_economy(
                    old(all_metrics).0@[j],
                    #[trigger] all_metrics.0@[j],
                ),
        decreases count - k,
    {
        let id: u64 = entities[k].identity.id;
        let home: usize = entities[k].identity.nation.index();
        let mut rng = rng_from_seed(seed(tick, 131, id.wrapping_mul(7), 59));
        let ghost before = all_metrics.0@;
        let ghost earlier = states;
        let ghost settled = entities@;
        entity_pass(
            &mut rng,
            &mut entities[k],
            &mut all_metrics.0[home],
            world_meta,
            segment,
            season,
        );
        proof {
            states = earlier.push(all_metrics.0@);
            assert(all_metrics.0@ =~= before.update(home as int, all_metrics.0@[home as int]));
            assert forall|n: int| 0 <= n < k + 1 implies {
                let home = (#[trigger] old(entities)@[n]).identity.nation.index_of();
                &&& states[n + 1] == states[n].update(home, states[n + 1][home])
                &&& dealt(
                    old(entities)@[n],
                    entities@[n],
                    states[n][home],
                    states[n + 1][home],
                    world_meta,
                    segment,
                    season,
                )
            } by {
                if n < k {
                    assert(states[n] == earlier[n]);
                    assert(states[n + 1] == earlier[n + 1]);
                    assert(entities@[n] == settled[n]);
                } else {
                    assert(states[n] == before);
                    assert(settled[n] == old(entities)@[n]);
                }
            }
            assert forall|j: int|
                0 <= j < NATION_COUNT && !has_dealer(
                    old(entities)@,
                    Nation::at(j),
                    k as int + 1,
                ) implies #[trigger] all_metrics.0@[j] == budgeted[j] by {
                if has_dealer(old(entities)@, Nation::at(j), k as int) {
                    let w = choose|w: int|
                        0 <= w < k && (#[trigger] old(entities)@[w]).identity.nation == Nation::at(j)
                            && (old(entities)@[w].behavior.state == BehaviorState::Trade || old(
                            entities,
                        )@[w].behavior.state == BehaviorState::Gather);
                    assert(0 <= w < k + 1);
                }
                assert(before[j] == budgeted[j]);
                if j == home {
                    assert(old(entities)@[k as int].identity.nation == Nation::at(j));
                }
            }
        }
        k += 1;
    }
    proof {
        assert(is_dealing(
            states,
            (old(entities)@, entities@),
            (old(all_metrics).0@, all_metrics.0@),
            world_meta,
            segment,
            season,
        ));
    }
}

/// Runs the economy for one tick.
///
/// Every nation pays upkeep, invests, decays and feels its blocs; every trader
/// and gatherer books a deal whose luck is up to the draws; finally all six
/// metrics are limited to 0..100 units. Whatever the draws, nothing but these
/// six metrics and the purses changes.
#[verifier::rlimit(50)]
pub fn economy_system(
    entities: &mut Vec<Entity>,
    all_metrics: &mut AllNationMetrics,
    blocs: &WorldBlocs,
    world_meta: &WorldMetadata,
    time: &WorldTime,
)
    requires
        entities_wf(old(entities)@),
        old(all_metrics).wf(),
        blocs.wf(),
        world_meta.wf(),
    ensures
        entities_wf(final(entities)@),
        final(entities)@.len() == old(entities)@.len(),
        forall|k: int|
            0 <= k < old(entities)@.len() ==> same_but_purse(
                old(entities)@[k],
                #[trigger] final(entities)@[k],
            ),
        final(all_metrics).wf(),
        forall|i: int|
            0 <= i < NATION_COUNT ==> same_but_economy(
                old(all_metrics).0@[i],
                #[trigger] final(all_metrics).0@[i],
            ) && within_cap(final(all_metrics).0@[i]),
        forall|i: int|
            0 <= i < NATION_COUNT && !has_dealer(
                old(entities)@,
                Nation::at(i),
                old(entities)@.len() as int,
            ) ==> #[trigger] final(all_metrics).0@[i] == after_limits(
                after_budget(
                    old(all_metrics).0@[i],
                    bloc_pull(blocs.research_pact, Nation::at(i)),
                    bloc_pull(blocs.sanction, Nation::at(i)),
                ),
            ),
        same_fates(old(all_metrics).0@, final(all_metrics).0@),
        traded(
            (old(entities)@, final(entities)@),
            (old(all_metrics).0@, final(all_metrics).0@),
            blocs,
            world_meta,
            world_meta.epochs.segment_at(time.tick as int),
            world_meta.epochs.season_at(time.tick as int),
        ),
{
    let (segment, season) = world_meta.cadence_for_tick(time.tick);
    let mut i: usize = 0;
    while i < NATION_COUNT
        invariant
            i <= NATION_COUNT,
            blocs.wf(),
            all_metrics.0@.len() == NATION_COUNT,
            forall|j: int| 0 <= j < i ==> loosely_wf(#[trigger] all_metrics.0@[j]),
            forall|j: int|
                0 <= j < i ==> #[trigger] all_metrics.0@[j] == after_budget(
                    old(all_metrics).0@[j],
                    bloc_pull(blocs.research_pact, Nation::at(j)),
                    bloc_pull(blocs.sanction, Nation::at(j)),
                ),
            forall|j: int| i <= j < NATION_COUNT ==> #[trigger] all_metrics.0@[j] == old(all_metrics).0@[j],
            old(all_metrics).wf(),
            forall|j: int| i <= j < NATION_COUNT ==> (#[trigger] all_metrics.0@[j]).wf(),
            forall|j: int|
                0 <= j < NATION_COUNT ==> same_but_economy(
                    old(all_metrics).0@[j],
                    #[trigger] all_metrics.0@[j],
                ),
        decreases NATION_COUNT - i,
    {
        let nation: Nation = Nation::from_index(i);
        let pact: i64 = bloc_strength_for(&blocs.research_pact, nation);
        let embargo: i64 = bloc_strength_for(&blocs.sanction, nation);
        apply_budget(&mut all_metrics.0[i], pact, embargo);
        i += 1;
    }
    let ghost budgeted = all_metrics.0@;
    deal_all(entities, all_metrics, world_meta, time.tick, segment, season);
    let ghost dealt = all_metrics.0@;
    let mut i: usize = 0;
    while i < NATION_COUNT
        invariant
            i <= NATION_COUNT,
            all_metrics.0@.len() == NATION_COUNT,
            dealt.len() == NATION_COUNT,
            forall|j: int| 0 <= j < i ==> #[trigger] all_metrics.0@[j] == after_limits(dealt[j]),
            forall|j: int| i <= j < NATION_COUNT ==> #[trigger] all_metrics.0@[j] == dealt[j],
            forall|j: int|
                0 <= j < i ==> (#[trigger] all_metrics.0@[j]).wf() && within_cap(all_metrics.0@[j]),
            forall|j: int| i <= j < NATION_COUNT ==> loosely_wf(#[trigger] all_metrics.0@[j]),
            forall|j: int|
                0 <= j < NATION_COUNT ==> same_but_economy(
                    old(all_metrics).0@[j],
                    #[trigger] all_metrics.0@[j],
                ),
        decreases NATION_COUNT - i,
    {
        apply_limits(&mut all_metrics.0[i]);
        i += 1;
    }
    proof {
        assert(is_economy(
            budgeted,
            dealt,
            (old(entities)@, entities@),
            (old(all_metrics).0@, all_metrics.0@),
            blocs,
            world_meta,
            segment,
            season,
        ));
    }
}

} // verus!
