//! The simulation: its state, its model, and the engine that runs it.

pub mod apply;
pub mod setup;
pub mod engine;
pub mod laws;
pub mod model;
pub mod run;

pub use setup::BuildError;
pub use engine::{DeriveError, Simulation};
pub use model::{Criterion, Draws, PlayerAction, SimulationView, Status};
