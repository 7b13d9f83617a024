//! The systems that advance the world by one tick, each a function over the state
//! it reads and writes.

pub mod ai;
pub mod blocs;
pub mod civilization;
pub mod climate;
pub mod cosmic;
pub mod cycles;
pub mod demography;
pub mod diplomacy;
pub mod economy;
pub mod environment;
pub mod event_generation;
pub mod flood;
pub mod ideology;
pub mod missions;
pub mod movement;
pub mod peace;
pub mod richness;
pub mod security;
pub mod supply;
pub mod technology;
pub mod territory;
pub mod victory;
pub mod warfare;
pub mod warfatigue;
