//! Constants of the engine.

use vstd::prelude::*;

verus! {

/// Number of slots on one player's board.
pub const NUMBER_OF_BOARD_SPACES: u8 = 10;

/// Number of ticks in one simulated second.
pub const TICKS_PER_SECOND: u64 = 60;

/// Number of milliseconds in one second.
pub const MILLIS_PER_SECOND: u64 = 1000;

/// Seconds of a fight before the sandstorm starts.
pub const SECONDS_BEFORE_SANDSTORM: u64 = 35;

/// Longest fight, in simulated seconds.
pub const MAX_FIGHT_SECONDS: u64 = 300;

/// Longest fight, in ticks. Status timers are measured against it.
pub const MAX_FIGHT_TICKS: u64 = 300 * 60;

/// Number of ticks after which a run ends in a draw by timeout.
pub const SIMULATION_TICK_COUNT: u64 = 300 * 60;

/// Denominator of a crit roll: rolls are drawn uniformly from `0..CRIT_ROLL_RANGE`
/// and compared with a crit chance in basis points.
pub const CRIT_ROLL_RANGE: u32 = 10000;

/// How deep a derived value may refer to other derived values before the
/// inner value counts as zero.
pub const MAX_DERIVE_DEPTH: u8 = 4;

} // verus!
