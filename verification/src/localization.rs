//! Display labels and number formatting.

use vstd::prelude::*;
use crate::components::BehaviorState;
use crate::components::Biome;
use crate::components::Faction;
use crate::components::GoalKind;
use crate::events::Sentiment;
use crate::text::append_grouped;
use crate::text::grouped_text;

verus! {

pub open spec fn behavior_label_text(state: BehaviorState) -> Seq<char> {
    match state {
        BehaviorState::Idle => "Idle"@,
        BehaviorState::Explore => "Explore"@,
        BehaviorState::Gather => "Gather"@,
        BehaviorState::Trade => "Trade"@,
        BehaviorState::Hunt => "Hunt"@,
        BehaviorState::Rest => "Rest"@,
    }
}

pub fn behavior_label(state: BehaviorState) -> (r: &'static str)
    ensures
        r@ == behavior_label_text(state),
{
    match state {
        BehaviorState::Idle => "Idle",
        BehaviorState::Explore => "Explore",
        BehaviorState::Gather => "Gather",
        BehaviorState::Trade => "Trade",
        BehaviorState::Hunt => "Hunt",
        BehaviorState::Rest => "Rest",
    }
}

pub open spec fn faction_label_text(faction: Faction) -> Seq<char> {
    match faction {
        Faction::Neutral => "Neutral Alliance"@,
        Faction::MerchantGuild => "Merchant Guild"@,
        Faction::BanditClans => "Bandit Clans"@,
        Faction::ExplorersLeague => "Explorers League"@,
        Faction::SettlersUnion => "Settlers Union"@,
        Faction::TempleOfSuns => "Temple of Suns"@,
    }
}

pub fn faction_label(faction: Faction) -> (r: &'static str)
    ensures
        r@ == faction_label_text(faction),
{
    match faction {
        Faction::Neutral => "Neutral Alliance",
        Faction::MerchantGuild => "Merchant Guild",
        Faction::BanditClans => "Bandit Clans",
        Faction::ExplorersLeague => "Explorers League",
        Faction::SettlersUnion => "Settlers Union",
        Faction::TempleOfSuns => "Temple of Suns",
    }
}

pub open spec fn sentiment_label_text(sentiment: Sentiment) -> Seq<char> {
    match sentiment {
        Sentiment::Positive => "Positive"@,
        Sentiment::Neutral => "Neutral"@,
        Sentiment::Negative => "Negative"@,
    }
}

pub fn sentiment_label(sentiment: Sentiment) -> (r: &'static str)
    ensures
        r@ == sentiment_label_text(sentiment),
{
    match sentiment {
        Sentiment::Positive => "Positive",
        Sentiment::Neutral => "Neutral",
        Sentiment::Negative => "Negative",
    }
}

pub open spec fn goal_label_text(goal: GoalKind) -> Seq<char> {
    match goal {
        GoalKind::Wealth => "Wealth"@,
        GoalKind::Glory => "Glory"@,
        GoalKind::Survival => "Survival"@,
        GoalKind::Influence => "Influence"@,
    }
}

pub fn goal_label(goal: GoalKind) -> (r: &'static str)
    ensures
        r@ == goal_label_text(goal),
{
    match goal {
        GoalKind::Wealth => "Wealth",
        GoalKind::Glory => "Glory",
        GoalKind::Survival => "Survival",
        GoalKind::Influence => "Influence",
    }
}

/// The plain name of a biome, used where no richer label is on record.
pub open spec fn biome_name_text(biome: Biome) -> Seq<char> {
    match biome {
        Biome::Forest => "Forest"@,
        Biome::Plains => "Plains"@,
        Biome::Desert => "Desert"@,
        Biome::Village => "Village"@,
        Biome::Market => "Market"@,
    }
}

pub fn biome_name(biome: Biome) -> (r: &'static str)
    ensures
        r@ == biome_name_text(biome),
{
    match biome {
        Biome::Forest => "Forest",
        Biome::Plains => "Plains",
        Biome::Desert => "Desert",
        Biome::Village => "Village",
        Biome::Market => "Market",
    }
}

/// The plain name of a faction, as written in source.
pub open spec fn faction_name_text(faction: Faction) -> Seq<char> {
    match faction {
        Faction::Neutral => "Neutral"@,
        Faction::MerchantGuild => "MerchantGuild"@,
        Faction::BanditClans => "BanditClans"@,
        Faction::ExplorersLeague => "ExplorersLeague"@,
        Faction::SettlersUnion => "SettlersUnion"@,
        Faction::TempleOfSuns => "TempleOfSuns"@,
    }
}

pub fn faction_name(faction: Faction) -> (r: &'static str)
    ensures
        r@ == faction_name_text(faction),
{
    match faction {
        Faction::Neutral => "Neutral",
        Faction::MerchantGuild => "MerchantGuild",
        Faction::BanditClans => "BanditClans",
        Faction::ExplorersLeague => "ExplorersLeague",
        Faction::SettlersUnion => "SettlersUnion",
        Faction::TempleOfSuns => "TempleOfSuns",
    }
}

/// A count with a comma between every group of three digits: `1234567` reads `1,234,567`.
pub fn format_number_commas(n: u64) -> (r: String)
    ensures
        r@ == grouped_text(n as nat),
{
    let mut out = String::new();
    append_grouped(&mut out, n);
    assert(out@ =~= grouped_text(n as nat));
    out
}

} // verus!
