//! A player's health.

use crate::arith::{add_i64, clamp_i64, sub_i64};
use crate::text::{decimal, decimal_text, owned, signed_decimal, signed_text};
use vstd::prelude::*;

verus! {

/// Current and maximum health. The current health may fall below zero; a
/// player at or below zero is defeated. It never rises above the maximum by
/// an operation of this type.
#[derive(Clone, Copy, Debug, PartialEq, Eq, Structural)]
pub struct PlayerHealth(pub i64, pub u64);

impl PlayerHealth {
    /// The maximum health as a bound on the current health.
    pub open spec fn cap(self) -> int {
        clamp_i64(self.1 as int)
    }

    /// The health after `amount` is added: `min(max, current + amount)`.
    pub open spec fn raised(self, amount: int) -> PlayerHealth {
        let sum = clamp_i64(self.0 + amount);
        PlayerHealth(
            if sum > self.cap() {
                self.cap() as i64
            } else {
                sum as i64
            },
            self.1,
        )
    }

    /// The health after `amount` is taken away: `min(max, current - amount)`.
    pub open spec fn lowered(self, amount: int) -> PlayerHealth {
        let difference = clamp_i64(self.0 - amount);
        PlayerHealth(
            if difference > self.cap() {
                self.cap() as i64
            } else {
                difference as i64
            },
            self.1,
        )
    }

    /// Whether a player with this health is defeated.
    pub open spec fn is_dead(self) -> bool {
        self.0 <= 0
    }

    /// The health in words: `Health (current/maximum)`.
    pub open spec fn described(self) -> Seq<char> {
        "Health ("@ + signed_text(self.0 as int) + "/"@ + decimal_text(self.1 as nat) + ")"@
    }

    /// The health in words.
    pub fn describe(&self) -> (text: String)
        ensures
            text@ == self.described(),
    {
        owned("Health (").concat(signed_decimal(self.0 as i128).as_str()).concat("/").concat(
            decimal(self.1 as u128).as_str(),
        ).concat(")")
    }

    /// The maximum health.
    pub fn max(&self) -> (max: u64)
        ensures
            max == self.1,
    {
        self.1
    }

    /// The current health.
    pub fn current(&self) -> (current: i64)
        ensures
            current == self.0,
    {
        self.0
    }

    /// The maximum health as an `i64`, held at the largest `i64`.
    pub fn limit(&self) -> (limit: i64)
        ensures
            limit == self.cap(),
    {
        if self.1 > i64::MAX as u64 {
            i64::MAX
        } else {
            self.1 as i64
        }
    }

    /// Adds `amount` to the current health, up to the maximum.
    pub fn increase_until_max(&mut self, amount: i64)
        ensures
            *final(self) == old(self).raised(amount as int),
    {
        let sum = add_i64(self.0, amount);
        let limit = self.limit();
        self.0 = if sum > limit { limit } else { sum };
    }

    /// Takes `amount` from the current health. The result may be negative.
    pub fn decrease(&mut self, amount: i64)
        ensures
            *final(self) == old(self).lowered(amount as int),
    {
        let difference = sub_i64(self.0, amount);
        let limit = self.limit();
        self.0 = if difference > limit { limit } else { difference };
    }
}

impl std::ops::Add<i64> for PlayerHealth {
    type Output = PlayerHealth;

    /// The health with `other` added, up to the maximum.
    fn add(self, other: i64) -> (result: PlayerHealth) {
        let mut result = self;
        result.increase_until_max(other);
        result
    }
}

impl vstd::std_specs::ops::AddSpecImpl<i64> for PlayerHealth {
    open spec fn obeys_add_spec() -> bool {
        true
    }

    open spec fn add_req(self, other: i64) -> bool {
        true
    }

    open spec fn add_spec(self, other: i64) -> PlayerHealth {
        self.raised(other as int)
    }
}

impl std::ops::Sub<i64> for PlayerHealth {
    type Output = PlayerHealth;

    /// The health with `other` taken away. The result may be negative.
    fn sub(self, other: i64) -> (result: PlayerHealth) {
        let mut result = self;
        result.decrease(other);
        result
    }
}

impl vstd::std_specs::ops::SubSpecImpl<i64> for PlayerHealth {
    open spec fn obeys_sub_spec() -> bool {
        true
    }

    open spec fn sub_req(self, other: i64) -> bool {
        true
    }

    open spec fn sub_spec(self, other: i64) -> PlayerHealth {
        self.lowered(other as int)
    }
}

} // verus!
