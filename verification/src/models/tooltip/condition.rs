//! Conditions on the owner's board.

use crate::models::size::Size;
use crate::models::tag::Tag;
use vstd::prelude::*;

verus! {

/// A condition on the board of the player that owns the tooltip.
#[derive(Clone, Copy, Debug, PartialEq, Eq, Structural)]
pub enum Condition {
    HasCardOfSize(Size),
    HasCardOfTag(Tag),
}

} // verus!
