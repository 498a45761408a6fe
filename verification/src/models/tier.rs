//! Item tiers and per-tier values.

use crate::arith::{clamp_u32, mul_u32};
use crate::text::same_text;
use vstd::prelude::*;

verus! {

/// One value for each tier.
#[derive(Debug, PartialEq, Eq)]
pub struct TieredValue<T> {
    pub bronze: T,
    pub silver: T,
    pub gold: T,
    pub diamond: T,
    pub legendary: T,
}

/// The quality grade of an item.
#[derive(Clone, Copy, Debug, PartialEq, Eq, PartialOrd, Ord, Hash, Structural)]
pub enum Tier {
    Bronze,
    Silver,
    Gold,
    Diamond,
    Legendary,
}

/// The gold value of a legendary item, whatever its size.
pub const LEGENDARY_COST: u32 = 50;

impl Tier {
    /// The value that `t` holds for this tier.
    pub open spec fn selected<T>(self, t: TieredValue<T>) -> T {
        match self {
            Tier::Bronze => t.bronze,
            Tier::Silver => t.silver,
            Tier::Gold => t.gold,
            Tier::Diamond => t.diamond,
            Tier::Legendary => t.legendary,
        }
    }

    /// The value that `t` holds for this tier.
    pub fn select<'a, T>(&self, t: &'a TieredValue<T>) -> (value: &'a T)
        ensures
            *value == self.selected(*t),
    {
        match self {
            Tier::Bronze => &t.bronze,
            Tier::Silver => &t.silver,
            Tier::Gold => &t.gold,
            Tier::Diamond => &t.diamond,
            Tier::Legendary => &t.legendary,
        }
    }

    /// A bronze cost scaled to this tier: doubled with each tier up to diamond,
    /// and `LEGENDARY_COST` for a legendary item.
    pub open spec fn scaled(self, cost: int) -> int {
        match self {
            Tier::Bronze => cost,
            Tier::Silver => cost * 2,
            Tier::Gold => cost * 4,
            Tier::Diamond => cost * 8,
            Tier::Legendary => LEGENDARY_COST as int,
        }
    }

    /// Scales a bronze cost to this tier. The result is held at the largest `u32`.
    pub fn scale_cost(self, cost: u32) -> (scaled: u32)
        ensures
            scaled == clamp_u32(self.scaled(cost as int)),
    {
        match self {
            Tier::Bronze => cost,
            Tier::Silver => mul_u32(cost, 2),
            Tier::Gold => mul_u32(cost, 4),
            Tier::Diamond => mul_u32(cost, 8),
            Tier::Legendary => LEGENDARY_COST,
        }
    }
}

impl Tier {
    /// The value that a name stands for, written as in the data files.
    pub open spec fn of_name(name: Seq<char>) -> Option<Tier> {
        if name == "Bronze"@ {
            Some(Tier::Bronze)
        } else if name == "Silver"@ {
            Some(Tier::Silver)
        } else if name == "Gold"@ {
            Some(Tier::Gold)
        } else if name == "Diamond"@ {
            Some(Tier::Diamond)
        } else if name == "Legendary"@ {
            Some(Tier::Legendary)
        } else {
            None
        }
    }

    /// Reads the value from its name, written as in the data files.
    pub fn from_name(name: &str) -> (value: Option<Tier>)
        ensures
            value == Tier::of_name(name@),
    {
        if same_text(name, "Bronze") {
            Some(Tier::Bronze)
        } else if same_text(name, "Silver") {
            Some(Tier::Silver)
        } else if same_text(name, "Gold") {
            Some(Tier::Gold)
        } else if same_text(name, "Diamond") {
            Some(Tier::Diamond)
        } else if same_text(name, "Legendary") {
            Some(Tier::Legendary)
        } else {
            None
        }
    }
}

} // verus!
