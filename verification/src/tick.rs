//! The unit of time: all durations inside the engine are counted in ticks.

use crate::arith::{clamp_u64, mul_u64};
use crate::text::{decimal, decimal_text, owned};
use vstd::prelude::*;

verus! {

/// A duration measured in ticks of 1/60 s.
#[derive(Clone, Copy, Debug, PartialEq, Eq, PartialOrd, Ord, Hash, Structural)]
pub struct GameTicks(pub u64);

/// `floor(millis * 60 / 1000)`: the whole ticks that fit in `millis` milliseconds.
pub open spec fn millis_to_ticks(millis: int) -> int {
    millis * 60 / 1000
}

impl GameTicks {
    /// Converts a duration in milliseconds to whole ticks, rounding down.
    pub fn from_millis(millis: u64) -> (ticks: GameTicks)
        ensures
            ticks.0 == millis_to_ticks(millis as int),
    {
        let wide: u128 = millis as u128 * 60;
        GameTicks((wide / 1000) as u64)
    }

    /// Converts whole seconds to ticks; the result is held at the largest `u64`.
    pub fn from_secs(seconds: u64) -> (ticks: GameTicks)
        ensures
            ticks.0 == clamp_u64(seconds * 60),
    {
        GameTicks(mul_u64(seconds, 60))
    }

    /// The duration in words: `GameTicks<n>`.
    pub open spec fn described(self) -> Seq<char> {
        "GameTicks<"@ + decimal_text(self.0 as nat) + ">"@
    }

    /// The duration in words.
    pub fn describe(&self) -> (text: String)
        ensures
            text@ == self.described(),
    {
        owned("GameTicks<").concat(decimal(self.0 as u128).as_str()).concat(">")
    }

    /// The number of ticks.
    pub fn count(&self) -> (n: u64)
        ensures
            n == self.0,
    {
        self.0
    }

    /// Whether no tick is left.
    pub fn is_zero(&self) -> (zero: bool)
        ensures
            zero == (self.0 == 0),
    {
        self.0 == 0
    }

    /// The sum of two durations, held at the largest `u64`.
    pub fn saturating_add(self, other: GameTicks) -> (sum: GameTicks)
        ensures
            sum.0 == clamp_u64(self.0 + other.0),
    {
        GameTicks(self.0.saturating_add(other.0))
    }

    /// One tick less, or zero if none is left.
    pub fn decremented(self) -> (rest: GameTicks)
        ensures
            rest.0 == if self.0 > 0 { self.0 - 1 } else { 0 },
    {
        if self.0 > 0 {
            GameTicks(self.0 - 1)
        } else {
            GameTicks(0)
        }
    }
}

impl Default for GameTicks {
    fn default() -> (ticks: GameTicks)
        ensures
            ticks.0 == 0,
    {
        GameTicks(0)
    }
}

impl std::ops::Add for GameTicks {
    type Output = GameTicks;

    /// The sum of two durations, which must fit a `u64`.
    fn add(self, other: GameTicks) -> (result: GameTicks) {
        GameTicks(self.0 + other.0)
    }
}

impl vstd::std_specs::ops::AddSpecImpl for GameTicks {
    open spec fn obeys_add_spec() -> bool {
        true
    }

    open spec fn add_req(self, other: GameTicks) -> bool {
        self.0 + other.0 <= u64::MAX
    }

    open spec fn add_spec(self, other: GameTicks) -> GameTicks {
        GameTicks((self.0 + other.0) as u64)
    }
}

impl std::ops::Sub for GameTicks {
    type Output = GameTicks;

    /// The difference of two durations, of which the first must be the longer.
    fn sub(self, other: GameTicks) -> (result: GameTicks) {
        GameTicks(self.0 - other.0)
    }
}

impl vstd::std_specs::ops::SubSpecImpl for GameTicks {
    open spec fn obeys_sub_spec() -> bool {
        true
    }

    open spec fn sub_req(self, other: GameTicks) -> bool {
        self.0 >= other.0
    }

    open spec fn sub_spec(self, other: GameTicks) -> GameTicks {
        GameTicks((self.0 - other.0) as u64)
    }
}

impl std::ops::Mul for GameTicks {
    type Output = GameTicks;

    /// The product of two numbers of ticks, which must fit a `u64`.
    fn mul(self, other: GameTicks) -> (result: GameTicks) {
        GameTicks(self.0 * other.0)
    }
}

impl vstd::std_specs::ops::MulSpecImpl for GameTicks {
    open spec fn obeys_mul_spec() -> bool {
        true
    }

    open spec fn mul_req(self, other: GameTicks) -> bool {
        self.0 * other.0 <= u64::MAX
    }

    open spec fn mul_spec(self, other: GameTicks) -> GameTicks {
        GameTicks((self.0 * other.0) as u64)
    }
}

impl std::ops::Div for GameTicks {
    type Output = GameTicks;

    /// The quotient of two numbers of ticks, of which the second must not be zero.
    fn div(self, other: GameTicks) -> (result: GameTicks) {
        GameTicks(self.0 / other.0)
    }
}

impl vstd::std_specs::ops::DivSpecImpl for GameTicks {
    open spec fn obeys_div_spec() -> bool {
        true
    }

    open spec fn div_req(self, other: GameTicks) -> bool {
        other.0 != 0
    }

    open spec fn div_spec(self, other: GameTicks) -> GameTicks {
        GameTicks((self.0 / other.0) as u64)
    }
}

} // verus!
