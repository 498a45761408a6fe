//! Cards on the board: identity, state machine, templates.

pub mod base_card;
pub mod id;
pub mod modification;
pub mod template;

pub use base_card::{Card, CardView};
pub use id::{CardIdCounter, GlobalCardId};
pub use modification::CardModification;
pub use template::{CardError, CardTemplate};
