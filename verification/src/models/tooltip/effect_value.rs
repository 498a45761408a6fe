//! Flat or relative amounts.

use vstd::prelude::*;

verus! {

/// An amount given either as such or as a percentage of what it modifies.
#[derive(Copy, Debug, PartialEq, Eq)]
pub enum EffectValue<T> {
    Flat(T),
    Percentage(T),
}

impl<T: Copy> Clone for EffectValue<T> {
    fn clone(&self) -> (copy: Self)
        ensures
            copy == *self,
    {
        *self
    }
}

} // verus!
