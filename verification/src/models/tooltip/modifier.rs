//! Static properties of an item.

use crate::models::data::Percentage;
use crate::models::tooltip::effect_value::EffectValue;
use vstd::prelude::*;

verus! {

/// A property that holds of an item for the whole fight.
#[derive(Clone, Copy, Debug, PartialEq, Eq)]
pub enum Modifier {
    DoubleCritDamage,
    WeaponDamage(EffectValue<u32>),
    LessDamageTaken(EffectValue<u32>),
    CritChance(Percentage),
    /// The cooldown, in milliseconds.
    Cooldown(u64),
    Ammo(u32),
    Multicast(u32),
    IncreasedValue(u32),
    /// The item cannot be frozen, slowed or destroyed.
    Radiant,
}

} // verus!
