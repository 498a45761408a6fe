//! Ratios.

use crate::arith::{clamp_u32, mul_u32};
use vstd::prelude::*;

verus! {

/// A ratio held in basis points: `Percentage(10000)` is 100 %.
#[derive(Clone, Copy, Debug, PartialEq, Eq, PartialOrd, Ord, Hash, Structural)]
pub struct Percentage(pub u32);

/// Basis points in one percent.
pub const BASIS_POINTS_PER_PERCENT: u32 = 100;

impl Percentage {
    /// From whole percents; the result is held at the largest `u32`.
    pub fn from_percentage_value(value: u32) -> (p: Percentage)
        ensures
            p.0 == clamp_u32(value * 100),
    {
        Percentage(mul_u32(value, BASIS_POINTS_PER_PERCENT))
    }

    /// From a fraction given in ten-thousandths (basis points).
    pub fn from_fraction(basis_points: u32) -> (p: Percentage)
        ensures
            p.0 == basis_points,
    {
        Percentage(basis_points)
    }

    /// The ratio as a fraction in ten-thousandths (basis points).
    pub fn as_fraction(&self) -> (basis_points: u32)
        ensures
            basis_points == self.0,
    {
        self.0
    }

    /// The ratio in whole percents, rounded down.
    pub fn as_percentage(&self) -> (percent: u32)
        ensures
            percent == self.0 / 100,
    {
        self.0 / BASIS_POINTS_PER_PERCENT
    }
}

impl Default for Percentage {
    fn default() -> (p: Percentage)
        ensures
            p.0 == 0,
    {
        Percentage(0)
    }
}

} // verus!
