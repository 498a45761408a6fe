//! How many cards an effect applies to, and which.

use crate::models::tooltip::card_target_condition::{TargetCondition, TargetConditionView};
use vstd::prelude::*;

verus! {

/// A number of cards to pick and the predicate they must satisfy.
/// A count of `usize::MAX` means every matching card.
#[derive(Debug, PartialEq, Eq)]
pub struct CardTarget(pub usize, pub TargetCondition);

/// What a card target says.
pub struct CardTargetView(pub usize, pub TargetConditionView);

impl View for CardTarget {
    type V = CardTargetView;

    open spec fn view(&self) -> CardTargetView {
        CardTargetView(self.0, self.1@)
    }
}

impl Clone for CardTarget {
    fn clone(&self) -> (copy: Self)
        ensures
            copy == *self,
    {
        CardTarget(self.0, self.1.clone())
    }
}

impl CardTarget {
    /// How many cards are to be picked.
    pub fn number_of_targets(&self) -> (count: usize)
        ensures
            count == self.0,
    {
        self.0
    }

    /// The predicate a picked card must satisfy.
    pub fn target_condition(&self) -> (condition: &TargetCondition)
        ensures
            *condition == self.1,
    {
        &self.1
    }

    /// Whether every matching card is meant.
    pub fn targets_all(&self) -> (all: bool)
        ensures
            all == (self.0 == usize::MAX),
    {
        self.0 == usize::MAX
    }
}

} // verus!
