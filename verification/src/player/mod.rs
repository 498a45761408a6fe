//! Players: health, shield and the stacks that act on them over time.

pub mod base_player;
pub mod health;
pub mod template;

pub use base_player::{Player, PlayerView};
pub use health::PlayerHealth;
pub use template::PlayerTemplate;
