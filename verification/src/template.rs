//! Declarative description of a fight.

use crate::player::template::PlayerTemplate;
use vstd::prelude::*;

verus! {

/// The two sides of a fight as they are declared, and the seed for its
/// random draws, if one is fixed.
#[derive(Debug, PartialEq, Eq)]
pub struct SimulationTemplate {
    pub player: PlayerTemplate,
    pub opponent: PlayerTemplate,
    pub seed: Option<u64>,
}

impl Clone for SimulationTemplate {
    fn clone(&self) -> (copy: Self)
        ensures
            copy == *self,
    {
        SimulationTemplate {
            player: self.player.clone(),
            opponent: self.opponent.clone(),
            seed: self.seed,
        }
    }
}

impl SimulationTemplate {
    /// The template with the two sides exchanged.
    pub open spec fn inverted(self) -> SimulationTemplate {
        SimulationTemplate { player: self.opponent, opponent: self.player, seed: self.seed }
    }

    /// The fight seen from the other side: the players change places, the
    /// seed stays.
    pub fn invert(other: &SimulationTemplate) -> (inverted: SimulationTemplate)
        ensures
            inverted == other.inverted(),
    {
        SimulationTemplate {
            player: other.opponent.clone(),
            opponent: other.player.clone(),
            seed: other.seed,
        }
    }
}

/// Inverting a template twice gives the template back.
pub proof fn invert_is_an_involution(template: SimulationTemplate)
    ensures
        template.inverted().inverted() == template,
{
}

} // verus!
