//! A discrete-tick simulation of five nations that compete on a hexagonal world.
//!
//! Each tick advances cosmic time and runs a fixed chain of systems over the
//! state of the world: what inhabitants decide, economy, seasons, cities,
//! technology, war, the race to the Moon and beyond, climate, blocs, war
//! fatigue, territory, golden ages, security, demography, events, ideology,
//! missions and diplomacy, and finally the check for a mass extinction. After
//! the tick the world publishes a snapshot for observers.
//!
//! Continuous quantities are stored as integers counting millionths of a unit
//! (see [`fixed`]), so that every formula has an exact statement in integer
//! arithmetic. Chance enters through one small module ([`rng`]); what is decided
//! from a draw is decided by functions that take the drawn value as an argument.

pub mod blocs;
pub mod charts;
pub mod components;
pub mod events;
pub mod fixed;
pub mod grid;
pub mod history;
pub mod localization;
pub mod nation;
pub mod nuclear;
pub mod observer;
pub mod resources;
pub mod rng;
pub mod seeding;
pub mod simulation;
pub mod steps;
pub mod systems;
pub mod technology;
pub mod text;
pub mod world;
