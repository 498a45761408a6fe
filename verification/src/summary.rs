//! Statistics over the results of many runs.

use crate::arith::clamp_u64;
use crate::result::{Outcome, SimulationDrawType, SimulationResult, SimulationResultView};
use crate::tick::GameTicks;
use vstd::prelude::*;

verus! {

/// The results of a number of runs, added up. The averages are the totals
/// divided by the number of runs.
#[derive(Clone, Copy, Debug, PartialEq, Eq, Structural)]
pub struct SimulationSummary {
    pub total_runs: usize,
    pub victories: usize,
    pub defeats: usize,
    pub draw_timeout: usize,
    pub draw_simultaneous: usize,
    /// The durations of all runs together, in ticks.
    pub total_duration: u128,
    /// The final health of the player in all runs together.
    pub total_player_health: i128,
    /// The final health of the opponent in all runs together.
    pub total_opponent_health: i128,
}

/// What each result of a list says, in order.
pub open spec fn result_views(results: Seq<SimulationResult>) -> Seq<SimulationResultView> {
    Seq::new(results.len(), |i: int| results[i]@)
}

/// The number of results with the given outcome.
pub open spec fn runs_ending_in(results: Seq<SimulationResultView>, outcome: Outcome) -> int
    decreases results.len(),
{
    if results.len() == 0 {
        0
    } else {
        runs_ending_in(results.drop_last(), outcome) + if results.last().outcome == outcome {
            1int
        } else {
            0int
        }
    }
}

/// The sum of the durations of the results, in ticks.
pub open spec fn duration_sum(results: Seq<SimulationResultView>) -> int
    decreases results.len(),
{
    if results.len() == 0 {
        0
    } else {
        duration_sum(results.drop_last()) + results.last().duration.0
    }
}

/// The sum of the final health of the player over the results.
pub open spec fn player_health_sum(results: Seq<SimulationResultView>) -> int
    decreases results.len(),
{
    if results.len() == 0 {
        0
    } else {
        player_health_sum(results.drop_last()) + results.last().player.health.0
    }
}

/// The sum of the final health of the opponent over the results.
pub open spec fn opponent_health_sum(results: Seq<SimulationResultView>) -> int
    decreases results.len(),
{
    if results.len() == 0 {
        0
    } else {
        opponent_health_sum(results.drop_last()) + results.last().opponent.health.0
    }
}

/// The summary of a list of results.
pub open spec fn summary_of(results: Seq<SimulationResultView>) -> SimulationSummary {
    SimulationSummary {
        total_runs: results.len() as usize,
        victories: runs_ending_in(results, Outcome::Victory) as usize,
        defeats: runs_ending_in(results, Outcome::Defeat) as usize,
        draw_timeout: runs_ending_in(results, Outcome::Draw(SimulationDrawType::Timeout)) as usize,
        draw_simultaneous: runs_ending_in(
            results,
            Outcome::Draw(SimulationDrawType::SimultaneousDefeat),
        ) as usize,
        total_duration: duration_sum(results) as u128,
        total_player_health: player_health_sum(results) as i128,
        total_opponent_health: opponent_health_sum(results) as i128,
    }
}

/// The counts and sums over a list of results stay within what one more
/// result of the largest size could add for each result in the list.
pub proof fn sums_stay_in_range(results: Seq<SimulationResultView>)
    ensures
        0 <= runs_ending_in(results, Outcome::Victory) <= results.len(),
        0 <= runs_ending_in(results, Outcome::Defeat) <= results.len(),
        0 <= runs_ending_in(results, Outcome::Draw(SimulationDrawType::Timeout)) <= results.len(),
        0 <= runs_ending_in(results, Outcome::Draw(SimulationDrawType::SimultaneousDefeat))
            <= results.len(),
        runs_ending_in(results, Outcome::Victory) + runs_ending_in(results, Outcome::Defeat)
            + runs_ending_in(results, Outcome::Draw(SimulationDrawType::Timeout)) + runs_ending_in(
            results,
            Outcome::Draw(SimulationDrawType::SimultaneousDefeat),
        ) == results.len(),
        0 <= duration_sum(results) <= results.len() * 0xffff_ffff_ffff_ffff,
        -(results.len() * 0x8000_0000_0000_0000) <= player_health_sum(results) <= results.len()
            * 0x7fff_ffff_ffff_ffff,
        -(results.len() * 0x8000_0000_0000_0000) <= opponent_health_sum(results) <= results.len()
            * 0x7fff_ffff_ffff_ffff,
    decreases results.len(),
{
    if results.len() > 0 {
        sums_stay_in_range(results.drop_last());
        let n = results.drop_last().len();
        assert((n + 1) * 0xffff_ffff_ffff_ffff == n * 0xffff_ffff_ffff_ffff
            + 0xffff_ffff_ffff_ffff) by (nonlinear_arith);
        assert((n + 1) * 0x8000_0000_0000_0000 == n * 0x8000_0000_0000_0000
            + 0x8000_0000_0000_0000) by (nonlinear_arith);
        assert((n + 1) * 0x7fff_ffff_ffff_ffff == n * 0x7fff_ffff_ffff_ffff
            + 0x7fff_ffff_ffff_ffff) by (nonlinear_arith);
    }
}

/// `total / runs`, rounded down; zero where there is no run.
pub open spec fn mean(total: int, runs: int) -> int {
    if runs > 0 {
        total / runs
    } else {
        0
    }
}

/// `total / runs`, rounded down; zero where there is no run.
fn mean_of(total: i128, runs: usize) -> (average: i128)
    ensures
        average == mean(total as int, runs as int),
{
    if runs == 0 {
        return 0;
    }
    let divisor = runs as u128;
    if total >= 0 {
        (total as u128 / divisor) as i128
    } else {
        let magnitude: u128 = if total == i128::MIN {
            0x8000_0000_0000_0000_0000_0000_0000_0000
        } else {
            (-total) as u128
        };
        let padded = magnitude + (divisor - 1);
        let quotient = padded / divisor;
        let ghost rest = padded as int % divisor as int;
        proof {
            vstd::arithmetic::div_mod::lemma_fundamental_div_mod(padded as int, divisor as int);
            assert(total as int == divisor as int * (-(quotient as int)) + (divisor - 1 - rest))
                by (nonlinear_arith)
                requires
                    padded as int == divisor as int * (quotient as int) + rest,
                    padded == magnitude + divisor - 1,
                    magnitude == -(total as int),
            ;
            vstd::arithmetic::div_mod::lemma_fundamental_div_mod_converse(
                total as int,
                divisor as int,
                -(quotient as int),
                divisor - 1 - rest,
            );
            assert(quotient <= magnitude) by (nonlinear_arith)
                requires
                    padded as int == divisor as int * (quotient as int) + rest,
                    0 <= rest < divisor,
                    padded == magnitude + divisor - 1,
                    magnitude >= 1,
                    divisor >= 1,
            ;
            assert(total as int / divisor as int == -(quotient as int));
        }
        if quotient > i128::MAX as u128 {
            i128::MIN
        } else {
            -(quotient as i128)
        }
    }
}

impl SimulationSummary {
    /// Adds up the results of a number of runs: how many there are, how
    /// many ended in each outcome, and the totals of the durations and of
    /// the final health of both players.
    pub fn from(results: &Vec<SimulationResult>) -> (summary: SimulationSummary)
        ensures
            summary == summary_of(result_views(results@)),
            summary.victories + summary.defeats + summary.draw_timeout
                + summary.draw_simultaneous == summary.total_runs,
    {
        let ghost views = result_views(results@);
        let mut summary = SimulationSummary {
            total_runs: 0,
            victories: 0,
            defeats: 0,
            draw_timeout: 0,
            draw_simultaneous: 0,
            total_duration: 0,
            total_player_health: 0,
            total_opponent_health: 0,
        };
        let mut i: usize = 0;
        proof {
            sums_stay_in_range(views.take(0));
        }
        while i < results.len()
            invariant
                i <= results@.len(),
                views == result_views(results@),
                summary == summary_of(views.take(i as int)),
            decreases results@.len() - i,
        {
            proof {
                assert(views.take(i as int + 1).drop_last() =~= views.take(i as int));
                assert(views.take(i as int + 1).last() == results@[i as int]@);
                sums_stay_in_range(views.take(i as int));
                sums_stay_in_range(views.take(i as int + 1));
                assert(i * 0xffff_ffff_ffff_ffff <= 0xffff_ffff_ffff_ffff * 0xffff_ffff_ffff_ffff)
                    by (nonlinear_arith)
                    requires
                        i <= 0xffff_ffff_ffff_ffff,
                ;
                assert((i + 1) * 0x8000_0000_0000_0000 <= 0xffff_ffff_ffff_ffff
                    * 0x8000_0000_0000_0000) by (nonlinear_arith)
                    requires
                        i + 1 <= 0xffff_ffff_ffff_ffff,
                ;
                assert((i + 1) * 0x7fff_ffff_ffff_ffff <= 0xffff_ffff_ffff_ffff
                    * 0x7fff_ffff_ffff_ffff) by (nonlinear_arith)
                    requires
                        i + 1 <= 0xffff_ffff_ffff_ffff,
                ;
                assert((i + 1) * 0xffff_ffff_ffff_ffff <= 0xffff_ffff_ffff_ffff
                    * 0xffff_ffff_ffff_ffff) by (nonlinear_arith)
                    requires
                        i + 1 <= 0xffff_ffff_ffff_ffff,
                ;
            }
            let result = &results[i];
            match result.outcome() {
                Outcome::Victory => {
                    summary.victories = summary.victories + 1;
                },
                Outcome::Defeat => {
                    summary.defeats = summary.defeats + 1;
                },
                Outcome::Draw(SimulationDrawType::Timeout) => {
                    summary.draw_timeout = summary.draw_timeout + 1;
                },
                Outcome::Draw(SimulationDrawType::SimultaneousDefeat) => {
                    summary.draw_simultaneous = summary.draw_simultaneous + 1;
                },
            }
            let inner = result.inner_ref();
            summary.total_runs = summary.total_runs + 1;
            summary.total_duration = summary.total_duration + inner.duration.0 as u128;
            summary.total_player_health = summary.total_player_health
                + inner.player.health.current() as i128;
            summary.total_opponent_health = summary.total_opponent_health
                + inner.opponent.health.current() as i128;
            i = i + 1;
        }
        proof {
            assert(views.take(i as int) =~= views);
            sums_stay_in_range(views);
        }
        summary
    }

    /// The average duration of a run in ticks, rounded down and held at
    /// the largest `u64`; zero where there is no run.
    pub fn average_duration(&self) -> (average: GameTicks)
        ensures
            average.0 == clamp_u64(mean(self.total_duration as int, self.total_runs as int)),
    {
        if self.total_runs == 0 {
            return GameTicks(0);
        }
        let average = self.total_duration / self.total_runs as u128;
        if average > u64::MAX as u128 {
            GameTicks(u64::MAX)
        } else {
            GameTicks(average as u64)
        }
    }

    /// The average final health of the player, rounded down; zero where
    /// there is no run.
    pub fn average_player_health(&self) -> (average: i128)
        ensures
            average == mean(self.total_player_health as int, self.total_runs as int),
    {
        mean_of(self.total_player_health, self.total_runs)
    }

    /// The average final health of the opponent, rounded down; zero where
    /// there is no run.
    pub fn average_opponent_health(&self) -> (average: i128)
        ensures
            average == mean(self.total_opponent_health as int, self.total_runs as int),
    {
        mean_of(self.total_opponent_health, self.total_runs)
    }
}

} // verus!
