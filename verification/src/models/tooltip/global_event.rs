//! Events of the fight as a whole.

use vstd::prelude::*;

verus! {

/// Something that happens to a player rather than to a card.
#[derive(Clone, Copy, Debug, PartialEq, Eq, Structural)]
pub enum GlobalEvent {
    /// The player's health falls below the given percentage of its maximum.
    PlayerFallsBelowHpPercentage(u32),
}

} // verus!
