//! Running a simulation: the tick, the exit condition, the loop.

use crate::board::{board_card_at_mut, board_clone, board_entries, board_len, entry_views};
use crate::combat_event::{event_views, tagged_views, tagged_with, CombatEvent, TaggedCombatEvent};
use crate::dispatch::{report_views, DispatchableEvent};
use crate::models::tooltip::player_target::PlayerTarget;
use crate::random::{clone_rng, entropy_rng};
use crate::result::{Outcome, SimulationDrawType, SimulationResult, SimulationResultInner};
use crate::simulation::engine::Simulation;
use crate::simulation::laws::{
    a_run_emits_one_sentinel_per_tick, a_run_keeps_the_boards, a_tick_keeps_the_boards,
};
use crate::simulation::model::{emitted_by, starts_with, Draws, SimulationView};
use crate::statics::SIMULATION_TICK_COUNT;
use crate::tick::GameTicks;
use rand::rngs::StdRng;
use vstd::prelude::*;

verus! {

/// A copy of a list of events.
fn copy_events(events: &Vec<TaggedCombatEvent>) -> (copy: Vec<TaggedCombatEvent>)
    ensures
        copy@ == events@,
{
    let mut copy: Vec<TaggedCombatEvent> = Vec::new();
    let mut i: usize = 0;
    while i < events.len()
        invariant
            i <= events@.len(),
            copy@ == events@.take(i as int),
        decreases events@.len() - i,
    {
        copy.push(events[i].clone());
        assert(copy@ =~= events@.take(i as int + 1));
        i = i + 1;
    }
    assert(events@.take(i as int) =~= events@);
    copy
}

/// A copy of a list of reports.
fn copy_reports(reports: &Vec<DispatchableEvent>) -> (copy: Vec<DispatchableEvent>)
    ensures
        copy@ == reports@,
{
    let mut copy: Vec<DispatchableEvent> = Vec::new();
    let mut i: usize = 0;
    while i < reports.len()
        invariant
            i <= reports@.len(),
            copy@ == reports@.take(i as int),
        decreases reports@.len() - i,
    {
        copy.push(reports[i].clone());
        assert(copy@ =~= reports@.take(i as int + 1));
        i = i + 1;
    }
    assert(reports@.take(i as int) =~= reports@);
    copy
}

impl Clone for Simulation {
    /// An independent simulation in the same state.
    fn clone(&self) -> (copy: Self)
        ensures
            copy@ == self@,
    {
        let cards = board_clone(&self.cards);
        assert(entry_views(board_entries(cards)) =~= entry_views(board_entries(self.cards)));
        let event_sink = match &self.event_sink {
            Some(log) => Some(copy_reports(log)),
            None => None,
        };
        Simulation {
            player: self.player.clone(),
            opponent: self.opponent.clone(),
            cards,
            ticks: self.ticks,
            event_sink,
        }
    }
}

impl Simulation {
    /// Attaches a sink: from now on the reports of the simulation are
    /// collected until they are taken with `drain_events`.
    pub fn with_channel(self) -> (attached: Simulation)
        ensures
            attached@ == (SimulationView { sink: Some(Seq::empty()), ..self@ }),
    {
        let attached = Simulation {
            player: self.player,
            opponent: self.opponent,
            cards: self.cards,
            ticks: self.ticks,
            event_sink: Some(Vec::new()),
        };
        assert(report_views(attached.event_sink->0@) =~= Seq::empty());
        attached
    }

    /// Takes the reports collected so far out of the sink, oldest first.
    /// Without a sink there are none.
    pub fn drain_events(&mut self) -> (reports: Vec<DispatchableEvent>)
        ensures
            match old(self)@.sink {
                Some(log) => report_views(reports@) == log && final(self)@ == (SimulationView {
                    sink: Some(Seq::empty()),
                    ..old(self)@
                }),
                None => reports@.len() == 0 && final(self)@ == old(self)@,
            },
    {
        match &mut self.event_sink {
            Some(log) => {
                let mut taken: Vec<DispatchableEvent> = Vec::new();
                taken.append(log);
                assert(taken@ =~= old(self).event_sink->0@);
                assert(report_views(log@) =~= Seq::empty());
                taken
            },
            None => Vec::new(),
        }
    }

    /// The emit phase of a tick: both players tick, then every card in board
    /// order; the events of the cards are returned, each tagged with the
    /// owner of its card, and closed by the sentinel of the tick.
    pub fn tick(&mut self) -> (events: Vec<TaggedCombatEvent>)
        ensures
            final(self)@ == old(self)@.advanced(),
            tagged_views(events@) == old(self)@.emitted(),
    {
        let mut events: Vec<TaggedCombatEvent> = Vec::new();
        self.player.tick();
        self.opponent.tick();
        let ghost start = board_entries(self.cards);
        let count = board_len(&self.cards);
        let mut i: usize = 0;
        assert(tagged_views(events@) =~= emitted_by(entry_views(start), 0));
        while i < count
            invariant
                i <= count,
                count == start.len(),
                start == board_entries(old(self).cards),
                board_entries(self.cards).len() == start.len(),
                forall|j: int|
                    0 <= j < i ==> (#[trigger] board_entries(self.cards)[j]).0 == start[j].0
                        && board_entries(self.cards)[j].1@ == start[j].1@.ticked(),
                forall|j: int| i <= j < count ==> #[trigger] board_entries(self.cards)[j] == start[j],
                tagged_views(events@) == emitted_by(entry_views(start), i as int),
                self.player@ == old(self).player@.ticked(),
                self.opponent@ == old(self).opponent@.ticked(),
                self.ticks == old(self).ticks,
                self.event_sink == old(self).event_sink,
            decreases count - i,
        {
            let card = board_card_at_mut(&mut self.cards, i);
            let owner = card.owner;
            let emitted = card.tick();
            let ghost before = tagged_views(events@);
            let ghost views = event_views(emitted@);
            let mut k: usize = 0;
            assert(tagged_views(events@) =~= before + tagged_with(owner, views.take(0)));
            while k < emitted.len()
                invariant
                    k <= emitted@.len(),
                    views == event_views(emitted@),
                    tagged_views(events@) == before + tagged_with(owner, views.take(k as int)),
                decreases emitted@.len() - k,
            {
                let ghost so_far = events@;
                let tagged = TaggedCombatEvent(owner, emitted[k].clone());
                events.push(tagged);
                assert(tagged_views(events@) =~= tagged_views(so_far).push(tagged@));
                assert(views.take(k as int + 1) =~= views.take(k as int).push(views[k as int]));
                assert(tagged_with(owner, views.take(k as int + 1)) =~= tagged_with(
                    owner,
                    views.take(k as int),
                ).push(tagged@));
                k = k + 1;
            }
            assert(views.take(k as int) =~= views);
            i = i + 1;
        }
        events.push(TaggedCombatEvent(PlayerTarget::Player, CombatEvent::Tick(self.ticks)));
        assert(tagged_views(events@) =~= old(self)@.emitted());
        self.ticks = if self.ticks < u64::MAX {
            self.ticks + 1
        } else {
            self.ticks
        };
        assert(entry_views(board_entries(self.cards)) =~= old(self)@.advanced().cards);
        events
    }

    /// One tick: the emit phase, then every emitted event applied in order.
    /// The events of the tick are returned. The simulation ends in the state
    /// that the tick gives for some outcome of the draws it makes.
    pub fn step(&mut self, rng: &mut StdRng) -> (events: Vec<TaggedCombatEvent>)
        ensures
            tagged_views(events@) == old(self)@.emitted(),
            old(self)@.can_step(final(self)@),
            old(self)@.well_formed() ==> final(self)@.well_formed(),
    {
        let events = self.tick();
        let ghost start = self@;
        let ghost views = tagged_views(events@);
        let ghost mut drawn: Seq<Draws> = Seq::empty();
        let mut j: usize = 0;
        while j < events.len()
            invariant
                j <= events@.len(),
                views == tagged_views(events@),
                drawn.len() == j,
                forall|t: Seq<Draws>|
                    starts_with(t, drawn) ==> self@ == #[trigger] start.applied_all(
                        views,
                        t,
                        j as int,
                    ) && start.all_fit(views, t, j as int),
            decreases events@.len() - j,
        {
            let ghost before = self@;
            self.apply_event(&events[j], rng);
            proof {
                let d = choose|d: Draws| #[trigger]
                    before.draws_fit(events@[j as int]@, d) && self@ == before.applied(
                        events@[j as int]@,
                        d,
                    );
                let next = drawn.push(d);
                assert forall|t: Seq<Draws>| starts_with(t, next) implies self@
                    == #[trigger] start.applied_all(views, t, j as int + 1) && start.all_fit(
                    views,
                    t,
                    j as int + 1,
                ) by {
                    assert(starts_with(t, drawn));
                    assert(t[j as int] == next[j as int]);
                    assert(views[j as int] == events@[j as int]@);
                    assert(before == start.applied_all(views, t, j as int));
                }
                drawn = next;
            }
            j = j + 1;
        }
        proof {
            assert(starts_with(drawn, drawn));
            assert(self@ == start.applied_all(views, drawn, j as int));
            assert(old(self)@.step_fits(drawn) && self@ == old(self)@.stepped(drawn));
            if old(self)@.well_formed() {
                a_tick_keeps_the_boards(old(self)@, drawn);
            }
        }
        events
    }

    /// Whether the fight has ended, and with what result: a draw where both
    /// players are defeated, a victory where only the opponent is, a defeat
    /// where only the player is. The result gets the given duration and a
    /// copy of the given events.
    pub fn get_exit_condition(&self, duration: GameTicks, events: &Vec<TaggedCombatEvent>) -> (exit:
        Option<SimulationResult>)
        ensures
            match self@.exit_outcome() {
                Some(outcome) => exit matches Some(result) && result@ == self@.result(
                    outcome,
                    duration.0 as int,
                    tagged_views(events@),
                ),
                None => exit is None,
            },
    {
        let player_dead = self.player.health.current() <= 0;
        let opponent_dead = self.opponent.health.current() <= 0;
        let outcome = if player_dead && opponent_dead {
            Outcome::Draw(SimulationDrawType::SimultaneousDefeat)
        } else if opponent_dead {
            Outcome::Victory
        } else if player_dead {
            Outcome::Defeat
        } else {
            return None;
        };
        Some(
            SimulationResult::new(
                outcome,
                SimulationResultInner {
                    events: copy_events(events),
                    duration,
                    player: self.player.clone(),
                    opponent: self.opponent.clone(),
                },
            ),
        )
    }

    /// Runs the fight to its end with the given generator: tick after tick
    /// until a player is defeated at the start of a tick, or for
    /// `SIMULATION_TICK_COUNT` ticks. The result holds the events of all
    /// ticks and the number of ticks done. Simulation and result are those
    /// that the run gives for some outcome of the draws it makes.
    pub fn run_once_with_rng(&mut self, rng: StdRng) -> (result: SimulationResult)
        ensures
            old(self)@.can_run(final(self)@, result@),
            old(self)@.well_formed() ==> final(self)@.well_formed(),
            result@.tick_count() == result@.duration.0,
            result@.duration.0 <= SIMULATION_TICK_COUNT,
    {
        let mut rng = rng;
        let mut events: Vec<TaggedCombatEvent> = Vec::new();
        let ghost mut tape: Seq<Seq<Draws>> = Seq::empty();
        let mut done: u64 = 0;
        assert(tagged_views(events@) =~= Seq::empty());
        while done < SIMULATION_TICK_COUNT
            invariant
                done <= SIMULATION_TICK_COUNT,
                tape.len() == done,
                forall|t: Seq<Seq<Draws>>|
                    starts_with(t, tape) ==> #[trigger] old(self)@.run(t) == self@.ran(
                        t,
                        done as int,
                        tagged_views(events@),
                    ),
                forall|t: Seq<Seq<Draws>>|
                    starts_with(t, tape) ==> (#[trigger] old(self)@.tape_fits(t, 0)
                        <==> self@.tape_fits(t, done as int)),
            decreases SIMULATION_TICK_COUNT - done,
        {
            match self.get_exit_condition(GameTicks(done), &events) {
                Some(result) => {
                    proof {
                        assert(starts_with(tape, tape));
                        assert(old(self)@.tape_fits(tape, 0) <==> self@.tape_fits(
                            tape,
                            done as int,
                        ));
                        assert(old(self)@.run(tape) == self@.ran(
                            tape,
                            done as int,
                            tagged_views(events@),
                        ));
                        assert(old(self)@.tape_fits(tape, 0) && self@ == old(self)@.run(tape).end
                            && result@ == old(self)@.run(tape).result);
                        a_run_emits_one_sentinel_per_tick(old(self)@, tape);
                        if old(self)@.well_formed() {
                            a_run_keeps_the_boards(old(self)@, tape);
                        }
                    }
                    return result;
                },
                None => {},
            }
            let ghost before = self@;
            let ghost seen = tagged_views(events@);
            let mut tick_events = self.step(&mut rng);
            let ghost emitted = tick_events@;
            events.append(&mut tick_events);
            proof {
                assert(tagged_views(events@) =~= seen + before.emitted());
                let d = choose|d: Seq<Draws>| #[trigger]
                    before.step_fits(d) && self@ == before.stepped(d);
                let next = tape.push(d);
                assert forall|t: Seq<Seq<Draws>>| starts_with(t, next) implies #[trigger] old(
                    self,
                )@.run(t) == self@.ran(t, done as int + 1, tagged_views(events@)) by {
                    assert(starts_with(t, tape));
                    assert(t[done as int] == next[done as int]);
                    assert(old(self)@.run(t) == before.ran(t, done as int, seen));
                }
                assert forall|t: Seq<Seq<Draws>>| starts_with(t, next) implies (#[trigger] old(
                    self,
                )@.tape_fits(t, 0) <==> self@.tape_fits(t, done as int + 1)) by {
                    assert(starts_with(t, tape));
                    assert(t[done as int] == next[done as int]);
                    assert(old(self)@.tape_fits(t, 0) <==> before.tape_fits(t, done as int));
                }
                tape = next;
            }
            done = done + 1;
        }
        let result = SimulationResult::new(
            Outcome::Draw(SimulationDrawType::Timeout),
            SimulationResultInner {
                events,
                duration: GameTicks(done),
                player: self.player.clone(),
                opponent: self.opponent.clone(),
            },
        );
        proof {
            assert(starts_with(tape, tape));
            assert(old(self)@.tape_fits(tape, 0) <==> self@.tape_fits(tape, done as int));
            assert(old(self)@.run(tape) == self@.ran(tape, done as int, result@.events));
            assert(old(self)@.tape_fits(tape, 0) && self@ == old(self)@.run(tape).end && result@
                == old(self)@.run(tape).result);
            a_run_emits_one_sentinel_per_tick(old(self)@, tape);
            if old(self)@.well_formed() {
                a_run_keeps_the_boards(old(self)@, tape);
            }
        }
        result
    }

    /// A generator started from the entropy of the system: what it will draw is open.
    pub fn create_rng() -> (rng: StdRng) {
        entropy_rng()
    }

    /// Runs the fight to its end with a generator started from the entropy
    /// of the system.
    pub fn run_once(&mut self) -> (result: SimulationResult)
        ensures
            old(self)@.can_run(final(self)@, result@),
    {
        let rng = entropy_rng();
        self.run_once_with_rng(rng)
    }

    /// Runs the fight `iterations` times, each time from the state of this
    /// simulation and with a copy of the given generator.
    pub fn run_with_rng(self, iterations: usize, rng: StdRng) -> (results: Vec<SimulationResult>)
        ensures
            results@.len() == iterations,
            forall|i: int| 0 <= i < iterations ==> self@.can_end_in((#[trigger] results@[i])@),
    {
        let mut results: Vec<SimulationResult> = Vec::new();
        let mut i: usize = 0;
        while i < iterations
            invariant
                i <= iterations,
                results@.len() == i,
                forall|k: int| 0 <= k < i ==> self@.can_end_in((#[trigger] results@[k])@),
            decreases iterations - i,
        {
            let mut fight = self.clone();
            let result = fight.run_once_with_rng(clone_rng(&rng));
            let ghost before = results@;
            proof {
                let tape = choose|tape: Seq<Seq<Draws>>| #[trigger]
                    self@.tape_fits(tape, 0) && fight@ == self@.run(tape).end && result@
                        == self@.run(tape).result;
                assert(self@.tape_fits(tape, 0) && result@ == self@.run(tape).result);
                assert(self@.can_end_in(result@));
            }
            results.push(result);
            proof {
                assert forall|k: int| 0 <= k < i + 1 implies self@.can_end_in(
                    (#[trigger] results@[k])@,
                ) by {
                    if k < i {
                        assert(results@[k] == before[k]);
                    }
                }
            }
            i = i + 1;
        }
        results
    }

    /// Runs the fight `iterations` times, each time from the state of this
    /// simulation, with a generator started from the entropy of the system.
    pub fn run(self, iterations: usize) -> (results: Vec<SimulationResult>)
        ensures
            results@.len() == iterations,
            forall|i: int| 0 <= i < iterations ==> self@.can_end_in((#[trigger] results@[i])@),
    {
        let rng = entropy_rng();
        self.run_with_rng(iterations, rng)
    }
}

} // verus!
