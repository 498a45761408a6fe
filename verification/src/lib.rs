//! Deterministic, tick-driven combat simulator for a two-player auto-battler.
//!
//! Two boards of items and two players with health are stepped on a fixed
//! 60 Hz clock until one side (or both) is defeated or the tick budget runs
//! out. Every rule of the engine is stated as a contract over a mathematical
//! model of the simulation and proved.

pub mod arith;
pub mod board;
pub mod card;
pub mod catalog;
pub mod combat_event;
pub mod dispatch;
pub mod models;
pub mod parser;
pub mod pattern;
pub mod player;
pub mod random;
pub mod result;
pub mod shared;
pub mod simulation;
pub mod statics;
pub mod summary;
pub mod template;
pub mod text;
pub mod tick;
