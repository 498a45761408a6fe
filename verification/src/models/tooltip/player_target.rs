//! The two sides of a fight.

use vstd::prelude::*;

verus! {

/// One side of the fight. In an effect it is read from the point of view of
/// the card that carries the effect.
#[derive(Clone, Copy, Debug, PartialEq, Eq, Hash, Structural)]
pub enum PlayerTarget {
    Player,
    Opponent,
}

impl PlayerTarget {
    /// The other side.
    pub open spec fn inverted(self) -> PlayerTarget {
        match self {
            PlayerTarget::Player => PlayerTarget::Opponent,
            PlayerTarget::Opponent => PlayerTarget::Player,
        }
    }

    /// The other side.
    pub fn inverse(&self) -> (other: PlayerTarget)
        ensures
            other == self.inverted(),
            other != *self,
    {
        match self {
            PlayerTarget::Player => PlayerTarget::Opponent,
            PlayerTarget::Opponent => PlayerTarget::Player,
        }
    }
}

/// Taking the other side twice gives the side one started from.
pub proof fn inverse_is_an_involution(side: PlayerTarget)
    ensures
        side.inverted().inverted() == side,
{
}

} // verus!
