//! The outcome of one run.

use crate::combat_event::{tagged_views, TaggedCombatEvent, TaggedEventView};
use crate::player::base_player::{Player, PlayerView};
use crate::text::owned;
use crate::tick::GameTicks;
use vstd::prelude::*;

verus! {

/// Why a run ended without a winner.
#[derive(Clone, Copy, Debug, PartialEq, Eq, Structural)]
pub enum SimulationDrawType {
    /// The tick budget ran out.
    Timeout,
    /// Both players were defeated in the same tick.
    SimultaneousDefeat,
}

/// How a run ended, from the player's point of view.
#[derive(Clone, Copy, Debug, PartialEq, Eq, Structural)]
pub enum Outcome {
    Victory,
    Defeat,
    Draw(SimulationDrawType),
}

impl Outcome {
    /// The outcome from the other side's point of view.
    pub open spec fn dual(self) -> Outcome {
        match self {
            Outcome::Victory => Outcome::Defeat,
            Outcome::Defeat => Outcome::Victory,
            Outcome::Draw(kind) => Outcome::Draw(kind),
        }
    }

    /// The outcome from the other side's point of view.
    pub fn inverted(&self) -> (other: Outcome)
        ensures
            other == self.dual(),
    {
        match self {
            Outcome::Victory => Outcome::Defeat,
            Outcome::Defeat => Outcome::Victory,
            Outcome::Draw(kind) => Outcome::Draw(*kind),
        }
    }
}

/// What a run leaves behind: the events of all its ticks, the number of
/// ticks it took, and the two players as they ended.
#[derive(Debug, PartialEq, Eq)]
pub struct SimulationResultInner {
    pub events: Vec<TaggedCombatEvent>,
    pub duration: GameTicks,
    pub player: Player,
    pub opponent: Player,
}

/// The result of a run.
#[derive(Debug, PartialEq, Eq)]
pub enum SimulationResult {
    Victory(SimulationResultInner),
    Defeat(SimulationResultInner),
    Draw(SimulationDrawType, SimulationResultInner),
}

/// What a result says.
pub struct SimulationResultView {
    pub outcome: Outcome,
    pub events: Seq<TaggedEventView>,
    pub duration: GameTicks,
    pub player: PlayerView,
    pub opponent: PlayerView,
}

impl SimulationResultView {
    /// The number of tick sentinels among the first `n` events.
    pub open spec fn sentinels(events: Seq<TaggedEventView>, n: int) -> int
        decreases n,
    {
        if n <= 0 {
            0
        } else {
            Self::sentinels(events, n - 1) + if events[n - 1].is_tick() {
                1int
            } else {
                0int
            }
        }
    }

    /// The number of tick sentinels among the events of the result.
    pub open spec fn tick_count(self) -> int {
        Self::sentinels(self.events, self.events.len() as int)
    }
}

impl View for SimulationResult {
    type V = SimulationResultView;

    open spec fn view(&self) -> SimulationResultView {
        let (outcome, inner) = match *self {
            SimulationResult::Victory(inner) => (Outcome::Victory, inner),
            SimulationResult::Defeat(inner) => (Outcome::Defeat, inner),
            SimulationResult::Draw(kind, inner) => (Outcome::Draw(kind), inner),
        };
        SimulationResultView {
            outcome,
            events: tagged_views(inner.events@),
            duration: inner.duration,
            player: inner.player@,
            opponent: inner.opponent@,
        }
    }
}

impl SimulationResult {
    /// A result with the given outcome.
    pub fn new(outcome: Outcome, inner: SimulationResultInner) -> (result: SimulationResult)
        ensures
            result@ == (SimulationResultView {
                outcome,
                events: tagged_views(inner.events@),
                duration: inner.duration,
                player: inner.player@,
                opponent: inner.opponent@,
            }),
    {
        match outcome {
            Outcome::Victory => SimulationResult::Victory(inner),
            Outcome::Defeat => SimulationResult::Defeat(inner),
            Outcome::Draw(kind) => SimulationResult::Draw(kind, inner),
        }
    }

    /// What the run left behind, whatever its outcome.
    pub fn inner_ref(&self) -> (inner: &SimulationResultInner)
        ensures
            tagged_views(inner.events@) == self@.events,
            inner.duration == self@.duration,
            inner.player@ == self@.player,
            inner.opponent@ == self@.opponent,
    {
        match self {
            SimulationResult::Victory(r) => r,
            SimulationResult::Defeat(r) => r,
            SimulationResult::Draw(_, r) => r,
        }
    }

    /// How the run ended.
    pub fn outcome(&self) -> (outcome: Outcome)
        ensures
            outcome == self@.outcome,
    {
        match self {
            SimulationResult::Victory(_) => Outcome::Victory,
            SimulationResult::Defeat(_) => Outcome::Defeat,
            SimulationResult::Draw(kind, _) => Outcome::Draw(*kind),
        }
    }

    /// The name of an outcome.
    pub open spec fn outcome_name(outcome: Outcome) -> Seq<char> {
        match outcome {
            Outcome::Victory => "Victory"@,
            Outcome::Defeat => "Defeat"@,
            Outcome::Draw(SimulationDrawType::Timeout) => "Draw (Timeout)"@,
            Outcome::Draw(SimulationDrawType::SimultaneousDefeat) => "Draw (SimultaneousDefeat)"@,
        }
    }

    /// The outcome in a word or two.
    pub fn short_str(&self) -> (name: String)
        ensures
            name@ == Self::outcome_name(self@.outcome),
    {
        match self {
            SimulationResult::Victory(_) => owned("Victory"),
            SimulationResult::Defeat(_) => owned("Defeat"),
            SimulationResult::Draw(SimulationDrawType::Timeout, _) => owned("Draw (Timeout)"),
            SimulationResult::Draw(SimulationDrawType::SimultaneousDefeat, _) => owned(
                "Draw (SimultaneousDefeat)",
            ),
        }
    }
}

} // verus!
