//! What holds of every simulation, stated over the model and proved.

use crate::board::{position_of, position_of_finds};
use crate::card::base_card::{repeated, CardView};
use crate::card::id::{CardIdCounter, GlobalCardId};
use crate::card::template::CardTemplate;
use crate::catalog::found;
use crate::combat_event::{tagged_with, CombatEventView, SkipReason, TaggedEventView};
use crate::models::card::Card as CardDefinition;
use crate::models::tooltip::card_target::CardTarget;
use crate::models::tooltip::effect::DerivedValue;
use crate::models::tooltip::player_target::PlayerTarget;
use crate::player::base_player::min_int;
use crate::result::{Outcome, SimulationDrawType, SimulationResultView};
use crate::simulation::model::{
    emitted_by, Criterion, Draws, PlayerAction, SimulationView, Status,
};
use crate::simulation::setup::{
    card_failure_before, held_position, side_cards, side_failure, spaces_before,
};
use crate::statics::{MAX_FIGHT_TICKS, NUMBER_OF_BOARD_SPACES, SIMULATION_TICK_COUNT};
use crate::template::SimulationTemplate;
use crate::tick::GameTicks;
use vstd::prelude::*;

verus! {

impl CardView {
    /// Whether `other` is this card at another moment: the same card in
    /// everything but its clock and its status timers.
    pub open spec fn same_card(self, other: CardView) -> bool {
        other == (CardView {
            cooldown_counter: other.cooldown_counter,
            freeze_ticks: other.freeze_ticks,
            slow_ticks: other.slow_ticks,
            haste_ticks: other.haste_ticks,
            ..self
        })
    }

    /// Whether no status timer exceeds the longest fight.
    pub open spec fn timers_bounded(self) -> bool {
        self.freeze_ticks.0 <= MAX_FIGHT_TICKS && self.slow_ticks.0 <= MAX_FIGHT_TICKS
            && self.haste_ticks.0 <= MAX_FIGHT_TICKS
    }
}

impl SimulationView {
    /// Whether `other` holds the same cards under the same keys in the same
    /// order, each possibly at another moment.
    pub open spec fn same_cards(self, other: SimulationView) -> bool {
        &&& other.cards.len() == self.cards.len()
        &&& forall|i: int|
            0 <= i < self.cards.len() ==> (#[trigger] other.cards[i]).0 == self.cards[i].0
                && self.cards[i].1.same_card(other.cards[i].1)
    }

    /// The simulation seen from the other side: the players exchanged.
    pub open spec fn mirrored(self) -> SimulationView {
        SimulationView { player: self.opponent, opponent: self.player, ..self }
    }
}

/// A tick never prolongs a status: the timers of a card stay within any
/// bound they were within. A frozen card only thaws.
pub proof fn a_tick_shortens_every_status(card: CardView)
    ensures
        card.same_card(card.ticked()),
        card.ticked().freeze_ticks.0 <= card.freeze_ticks.0,
        card.ticked().slow_ticks.0 <= card.slow_ticks.0,
        card.ticked().haste_ticks.0 <= card.haste_ticks.0,
        card.timers_bounded() ==> card.ticked().timers_bounded(),
{
}

/// A status put on a card keeps the timers of the card within the longest
/// fight as long as the timer and the duration together do not exceed it.
pub proof fn a_status_within_the_fight_stays_bounded(
    status: Status,
    card: CardView,
    duration: GameTicks,
)
    requires
        card.timers_bounded(),
        status.timer(card) + duration.0 <= MAX_FIGHT_TICKS,
    ensures
        status.applied_to(card, duration).timers_bounded(),
        status.timer(status.applied_to(card, duration)) == status.timer(card) + duration.0,
        card.same_card(status.applied_to(card, duration)),
{
}

/// A card without a cooldown never fires: in a tick it emits nothing,
/// unless it is frozen, and then only the notice that it is.
pub proof fn a_card_without_cooldown_never_fires(card: CardView)
    requires
        card.cooldown.0 == 0,
    ensures
        card.firings() == 0,
        card.tick_events() == if card.frozen() {
            seq![CombatEventView::Skip(SkipReason::IsFrozen)]
        } else {
            Seq::<CombatEventView>::empty()
        },
{
    assert(repeated(card.volley(), 0) =~= Seq::<CombatEventView>::empty());
}

/// The clock of a card with a cooldown drifts within bounds: after a tick
/// it shows less than one cooldown and one largest increment, provided a
/// frozen card showed no more before.
pub proof fn the_clock_drifts_within_bounds(card: CardView)
    requires
        card.cooldown.0 > 0,
        card.frozen() ==> card.cooldown_counter < 2 * card.cooldown.0 + 4,
    ensures
        card.ticked().cooldown_counter < 2 * card.cooldown.0 + 4,
{
}

/// Where both players are defeated the fight is a draw, whatever else holds.
pub proof fn both_defeated_is_a_draw(simulation: SimulationView, tape: Seq<Seq<Draws>>)
    requires
        simulation.player.is_dead(),
        simulation.opponent.is_dead(),
    ensures
        simulation.exit_outcome() == Some(Outcome::Draw(SimulationDrawType::SimultaneousDefeat)),
        simulation.run(tape).result.outcome == Outcome::Draw(
            SimulationDrawType::SimultaneousDefeat,
        ),
        simulation.run(tape).end == simulation,
{
}

/// The simulation that a build gives is a function of the template, the
/// catalog and the counter, and the result of a run is a function of the
/// simulation and of what chance decides: the same template run twice under
/// the same draws gives the same result.
pub proof fn same_fight_same_result(first: SimulationView, second: SimulationView, tape: Seq<
    Seq<Draws>,
>)
    requires
        first == second,
    ensures
        first.run(tape).result == second.run(tape).result,
        first.run(tape).end == second.run(tape).end,
{
}

/// `same_cards` holds of a simulation and itself, and carries over from one
/// pair to the next.
pub proof fn same_cards_chain(a: SimulationView, b: SimulationView, c: SimulationView)
    requires
        a.same_cards(b),
        b.same_cards(c),
    ensures
        a.same_cards(a),
        a.same_cards(c),
{
    assert forall|i: int| 0 <= i < a.cards.len() implies (#[trigger] c.cards[i]).0 == a.cards[i].0
        && a.cards[i].1.same_card(c.cards[i].1) by {
        assert(b.cards[i].0 == a.cards[i].0);
        assert(c.cards[i].0 == b.cards[i].0);
    }
}

/// A key has the same position among two lists of entries with the same keys.
pub proof fn same_keys_same_position(a: Seq<(u64, CardView)>, b: Seq<(u64, CardView)>, key: u64)
    requires
        a.len() == b.len(),
        forall|i: int| 0 <= i < a.len() ==> (#[trigger] b[i]).0 == a[i].0,
    ensures
        position_of(a, key) == position_of(b, key),
    decreases a.len(),
{
    if a.len() > 0 {
        assert(b.last().0 == a.last().0);
        assert forall|i: int| 0 <= i < a.drop_last().len() implies (#[trigger] b.drop_last()[i]).0
            == a.drop_last()[i].0 by {
            assert(b[i].0 == a[i].0);
        }
        same_keys_same_position(a.drop_last(), b.drop_last(), key);
    }
}

/// Putting a status on a card changes that card's timer and the reports,
/// and nothing else.
pub proof fn one_status_keeps_the_cards(
    simulation: SimulationView,
    status: Status,
    id: GlobalCardId,
    duration: GameTicks,
)
    ensures
        simulation.same_cards(simulation.afflicted_one(status, id, duration)),
        simulation.afflicted_one(status, id, duration).player == simulation.player,
        simulation.afflicted_one(status, id, duration).opponent == simulation.opponent,
        simulation.afflicted_one(status, id, duration).ticks == simulation.ticks,
        forall|i: int|
            0 <= i < simulation.cards.len() && Some(i) != position_of(simulation.cards, id.0)
                ==> #[trigger] simulation.afflicted_one(status, id, duration).cards[i]
                == simulation.cards[i],
{
    position_of_finds(simulation.cards, id.0);
}

/// Putting a status on cards changes timers and reports, and nothing else.
pub proof fn statuses_keep_the_cards(
    simulation: SimulationView,
    status: Status,
    ids: Seq<GlobalCardId>,
    duration: GameTicks,
)
    ensures
        simulation.same_cards(simulation.afflicted_all(status, ids, duration)),
        simulation.afflicted_all(status, ids, duration).player == simulation.player,
        simulation.afflicted_all(status, ids, duration).opponent == simulation.opponent,
        simulation.afflicted_all(status, ids, duration).ticks == simulation.ticks,
    decreases ids.len(),
{
    if ids.len() > 0 {
        let before = simulation.afflicted_all(status, ids.drop_last(), duration);
        statuses_keep_the_cards(simulation, status, ids.drop_last(), duration);
        one_status_keeps_the_cards(before, status, ids.last(), duration);
        same_cards_chain(simulation, before, before.afflicted_one(status, ids.last(), duration));
    } else {
        assert(simulation.same_cards(simulation));
    }
}

/// An event on a player changes nothing of the cards.
pub proof fn a_player_event_keeps_the_cards(
    simulation: SimulationView,
    owner: PlayerTarget,
    action: PlayerAction,
    target: PlayerTarget,
    value: DerivedValue<u32>,
    source: GlobalCardId,
    crit_roll: u32,
)
    ensures
        simulation.same_cards(
            simulation.player_event(owner, action, target, value, source, crit_roll),
        ),
        simulation.player_event(owner, action, target, value, source, crit_roll).ticks
            == simulation.ticks,
{
    let after = simulation.player_event(owner, action, target, value, source, crit_roll);
    assert(after.cards == simulation.cards);
    assert(after.ticks == simulation.ticks);
}

/// An event that puts a status on cards changes timers and reports only.
pub proof fn a_status_event_keeps_the_cards(
    simulation: SimulationView,
    status: Status,
    target: CardTarget,
    duration: GameTicks,
    source: GlobalCardId,
    draws: Draws,
)
    ensures
        simulation.same_cards(simulation.status_event(status, target, duration, source, draws)),
        simulation.status_event(status, target, duration, source, draws).ticks
            == simulation.ticks,
{
    if simulation.card_by_id(source) is Some {
        statuses_keep_the_cards(
            simulation,
            status,
            simulation.chosen(status, target, source, draws),
            duration,
        );
    }
}

/// Applying an event changes the players, the timers of cards and the
/// reports, and nothing else: the cards stay on the board, in their order,
/// under their keys, and none is added or removed.
pub proof fn an_event_keeps_the_cards(simulation: SimulationView, event: TaggedEventView, draws: Draws)
    ensures
        simulation.same_cards(simulation.applied(event, draws)),
        simulation.applied(event, draws).ticks == simulation.ticks,
{
    let owner = event.owner;
    let roll = draws.crit_roll;
    match event.event {
        CombatEventView::Skip(_) => {},
        CombatEventView::Tick(_) => {},
        CombatEventView::Raw(text) => {},
        CombatEventView::DealDamage(target, value, source) => {
            a_player_event_keeps_the_cards(
                simulation,
                owner,
                PlayerAction::Damage,
                target,
                value,
                source,
                roll,
            );
        },
        CombatEventView::ApplyBurn(target, value, source) => {
            a_player_event_keeps_the_cards(
                simulation,
                owner,
                PlayerAction::Burn,
                target,
                value,
                source,
                roll,
            );
        },
        CombatEventView::ApplyPoison(target, value, source) => {
            a_player_event_keeps_the_cards(
                simulation,
                owner,
                PlayerAction::Poison,
                target,
                value,
                source,
                roll,
            );
        },
        CombatEventView::ApplyShield(target, value, source) => {
            a_player_event_keeps_the_cards(
                simulation,
                owner,
                PlayerAction::Shield,
                target,
                value,
                source,
                roll,
            );
        },
        CombatEventView::Heal(target, value, source) => {
            a_player_event_keeps_the_cards(
                simulation,
                owner,
                PlayerAction::Heal,
                target,
                value,
                source,
                roll,
            );
        },
        CombatEventView::Regen(target, value, source) => {
            a_player_event_keeps_the_cards(
                simulation,
                owner,
                PlayerAction::Regen,
                target,
                value,
                source,
                roll,
            );
        },
        CombatEventView::Freeze(target, duration, source) => {
            a_status_event_keeps_the_cards(
                simulation,
                Status::Freeze,
                target,
                duration,
                source,
                draws,
            );
        },
        CombatEventView::Slow(target, duration, source) => {
            a_status_event_keeps_the_cards(
                simulation,
                Status::Slow,
                target,
                duration,
                source,
                draws,
            );
        },
        CombatEventView::Haste(target, duration, source) => {
            a_status_event_keeps_the_cards(
                simulation,
                Status::Haste,
                target,
                duration,
                source,
                draws,
            );
        },
    }
}

/// Applying events one after the other keeps the cards.
pub proof fn events_keep_the_cards(
    simulation: SimulationView,
    events: Seq<TaggedEventView>,
    draws: Seq<Draws>,
    n: int,
)
    ensures
        simulation.same_cards(simulation.applied_all(events, draws, n)),
        simulation.applied_all(events, draws, n).ticks == simulation.ticks,
    decreases n,
{
    if n > 0 {
        let before = simulation.applied_all(events, draws, n - 1);
        events_keep_the_cards(simulation, events, draws, n - 1);
        an_event_keeps_the_cards(before, events[n - 1], draws[n - 1]);
        same_cards_chain(simulation, before, before.applied(events[n - 1], draws[n - 1]));
    } else {
        assert(simulation.same_cards(simulation));
    }
}

/// A tick keeps the cards: it changes the players, the clocks and timers of
/// the cards, the tick count and the reports, and nothing else.
pub proof fn a_tick_keeps_the_cards(simulation: SimulationView, draws: Seq<Draws>)
    ensures
        simulation.same_cards(simulation.advanced()),
        simulation.same_cards(simulation.stepped(draws)),
{
    let advanced = simulation.advanced();
    assert(simulation.same_cards(advanced));
    events_keep_the_cards(advanced, simulation.emitted(), draws, simulation.emitted().len() as int);
    same_cards_chain(simulation, advanced, simulation.stepped(draws));
}

/// The same cards take the same slots.
pub proof fn same_cards_take_the_same_slots(
    a: SimulationView,
    b: SimulationView,
    owner: PlayerTarget,
    n: int,
)
    requires
        a.same_cards(b),
        n <= a.cards.len(),
    ensures
        a.taken(owner, n) == b.taken(owner, n),
    decreases n,
{
    if n > 0 {
        same_cards_take_the_same_slots(a, b, owner, n - 1);
        assert(b.cards[n - 1].0 == a.cards[n - 1].0);
    }
}

/// A simulation with the same cards as a well-formed one is well-formed.
pub proof fn same_cards_keep_the_boards(a: SimulationView, b: SimulationView)
    requires
        a.same_cards(b),
        a.well_formed(),
    ensures
        b.well_formed(),
{
    let n = a.cards.len() as int;
    same_cards_take_the_same_slots(a, b, PlayerTarget::Player, n);
    same_cards_take_the_same_slots(a, b, PlayerTarget::Opponent, n);
    assert forall|i: int| 0 <= i < b.cards.len() implies (#[trigger] b.cards[i]).1.position
        == b.taken(b.cards[i].1.owner, i) by {
        assert(a.cards[i].1.same_card(b.cards[i].1));
        same_cards_take_the_same_slots(a, b, a.cards[i].1.owner, i);
    }
    assert forall|i: int| 0 <= i < b.cards.len() implies (#[trigger] b.cards[i]).0
        == b.cards[i].1.id_for_simulation.0 by {
        assert(a.cards[i].1.same_card(b.cards[i].1));
        assert(b.cards[i].0 == a.cards[i].0);
    }
    assert forall|i: int, j: int| 0 <= i < j < b.cards.len() implies (#[trigger] b.cards[i]).0
        != (#[trigger] b.cards[j]).0 by {
        assert(b.cards[i].0 == a.cards[i].0);
        assert(b.cards[j].0 == a.cards[j].0);
    }
}

/// In every tick of a fight the boards stay as they were built: no tick
/// moves, adds or removes a card, so the cards of a player never overlap
/// and never take more slots than a board has.
pub proof fn a_tick_keeps_the_boards(simulation: SimulationView, draws: Seq<Draws>)
    requires
        simulation.well_formed(),
    ensures
        simulation.stepped(draws).well_formed(),
        simulation.same_cards(simulation.stepped(draws)),
{
    a_tick_keeps_the_cards(simulation, draws);
    same_cards_keep_the_boards(simulation, simulation.stepped(draws));
}

/// The rest of a run keeps the cards and the boards.
pub proof fn the_rest_of_a_run_keeps_the_boards(
    simulation: SimulationView,
    tape: Seq<Seq<Draws>>,
    done: int,
    events: Seq<TaggedEventView>,
)
    ensures
        simulation.same_cards(simulation.ran(tape, done, events).end),
        simulation.well_formed() ==> simulation.ran(tape, done, events).end.well_formed(),
    decreases SIMULATION_TICK_COUNT - done,
{
    assert(simulation.same_cards(simulation));
    if done < SIMULATION_TICK_COUNT && simulation.exit_outcome() is None {
        let next = simulation.stepped(tape[done]);
        a_tick_keeps_the_cards(simulation, tape[done]);
        the_rest_of_a_run_keeps_the_boards(next, tape, done + 1, events + simulation.emitted());
        same_cards_chain(simulation, next, simulation.ran(tape, done, events).end);
        if simulation.well_formed() {
            same_cards_keep_the_boards(simulation, next);
        }
    }
}

/// A run keeps the boards as they were built: at its end every card is
/// still on the board, at its slot, and the cards of a player neither
/// overlap nor take more slots than a board has.
pub proof fn a_run_keeps_the_boards(simulation: SimulationView, tape: Seq<Seq<Draws>>)
    requires
        simulation.well_formed(),
    ensures
        simulation.run(tape).end.well_formed(),
        simulation.same_cards(simulation.run(tape).end),
{
    the_rest_of_a_run_keeps_the_boards(simulation, tape, 0, Seq::empty());
}

/// Two cards of one player on well laid out boards do not overlap: the
/// earlier one ends where the later one starts or before, and every card
/// ends within the board.
pub proof fn cards_of_a_player_do_not_overlap(simulation: SimulationView, i: int, j: int)
    requires
        simulation.boards_fit(),
        0 <= i < j < simulation.cards.len(),
        simulation.cards[i].1.owner == simulation.cards[j].1.owner,
    ensures
        simulation.cards[i].1.position + simulation.cards[i].1.inner.size.spaces()
            <= simulation.cards[j].1.position,
        simulation.cards[j].1.position + simulation.cards[j].1.inner.size.spaces()
            <= NUMBER_OF_BOARD_SPACES,
{
    let owner = simulation.cards[i].1.owner;
    slots_grow(simulation, owner, i + 1, j);
    slots_grow(simulation, owner, j + 1, simulation.cards.len() as int);
}

/// The slots taken by the first cards grow with the number of cards.
pub proof fn slots_grow(simulation: SimulationView, owner: PlayerTarget, n: int, m: int)
    requires
        0 <= n <= m,
    ensures
        0 <= simulation.taken(owner, n) <= simulation.taken(owner, m),
    decreases m,
{
    if n < m {
        slots_grow(simulation, owner, n, m - 1);
    } else if n > 0 {
        slots_grow(simulation, owner, n - 1, n - 1);
    }
}

/// A card at which none of `ids` is found is left as it is when a status
/// is put on the cards `ids`.
pub proof fn statuses_pass_by_other_cards(
    simulation: SimulationView,
    status: Status,
    ids: Seq<GlobalCardId>,
    duration: GameTicks,
    i: int,
)
    requires
        0 <= i < simulation.cards.len(),
        forall|k: int|
            0 <= k < ids.len() ==> position_of(simulation.cards, (#[trigger] ids[k]).0) != Some(
                i,
            ),
    ensures
        simulation.afflicted_all(status, ids, duration).cards[i] == simulation.cards[i],
    decreases ids.len(),
{
    if ids.len() > 0 {
        let front = ids.drop_last();
        let before = simulation.afflicted_all(status, front, duration);
        assert forall|k: int| 0 <= k < front.len() implies position_of(
            simulation.cards,
            (#[trigger] front[k]).0,
        ) != Some(i) by {
            assert(front[k] == ids[k]);
        }
        statuses_pass_by_other_cards(simulation, status, front, duration, i);
        statuses_keep_the_cards(simulation, status, front, duration);
        same_keys_same_position(simulation.cards, before.cards, ids.last().0);
        assert(ids.last() == ids[ids.len() - 1]);
        one_status_keeps_the_cards(before, status, ids.last(), duration);
    }
}

/// Every card that an event puts its status on is eligible for it.
pub proof fn the_chosen_are_eligible(
    simulation: SimulationView,
    status: Status,
    target: CardTarget,
    source: GlobalCardId,
    draws: Draws,
)
    requires
        simulation.orders_fit(status, target, source, draws),
    ensures
        forall|k: int|
            0 <= k < simulation.chosen(status, target, source, draws).len() ==> simulation.meets(
                Criterion::Eligible(status),
                #[trigger] simulation.chosen(status, target, source, draws)[k],
            ),
{
    let chosen = simulation.chosen(status, target, source, draws);
    let candidates = simulation.targets(source, target.1);
    let is_eligible = |id: GlobalCardId| simulation.meets(Criterion::Eligible(status), id);
    let eligible = simulation.eligible(status, target, source);
    assert(eligible == candidates.filter(is_eligible));
    assert forall|m: int| 0 <= m < eligible.len() implies simulation.meets(
        Criterion::Eligible(status),
        #[trigger] eligible[m],
    ) by {
        candidates.lemma_filter_pred(is_eligible, m);
    }
    assert forall|k: int| 0 <= k < chosen.len() implies simulation.meets(
        Criterion::Eligible(status),
        #[trigger] chosen[k],
    ) by {
        if target.0 != usize::MAX {
            let id = chosen[k];
            let fresh = simulation.kept(Criterion::Fresh(status), eligible);
            let afflicted = simulation.kept(Criterion::Afflicted(status), eligible);
            let is_fresh = |id: GlobalCardId| simulation.meets(Criterion::Fresh(status), id);
            let is_afflicted = |id: GlobalCardId|
                simulation.meets(Criterion::Afflicted(status), id);
            draws.fresh.to_multiset_ensures();
            draws.afflicted.to_multiset_ensures();
            fresh.to_multiset_ensures();
            afflicted.to_multiset_ensures();
            let first = min_int(
                target.0 as int,
                draws.fresh.len() as int,
            );
            if k < first {
                assert(draws.fresh[k] == id);
                assert(draws.fresh.contains(id));
                assert(draws.fresh.to_multiset().count(id) > 0);
                assert(fresh.to_multiset().count(id) > 0);
                assert(fresh.contains(id));
                eligible.lemma_filter_contains_rev(is_fresh, id);
            } else {
                assert(draws.afflicted[k - first] == id);
                assert(draws.afflicted.contains(id));
                assert(draws.afflicted.to_multiset().count(id) > 0);
                assert(afflicted.to_multiset().count(id) > 0);
                assert(afflicted.contains(id));
                eligible.lemma_filter_contains_rev(is_afflicted, id);
            }
            assert(eligible.contains(id));
        }
    }
}

/// A radiant card is beyond freeze and slow: an event that freezes or slows
/// leaves every radiant card exactly as it was. No event removes a card, so
/// a radiant card is never destroyed either.
pub proof fn a_radiant_card_is_never_frozen_or_slowed(
    simulation: SimulationView,
    event: TaggedEventView,
    draws: Draws,
    i: int,
)
    requires
        simulation.draws_fit(event, draws),
        event.event is Freeze || event.event is Slow,
        0 <= i < simulation.cards.len(),
        simulation.cards[i].1.radiant(),
    ensures
        simulation.applied(event, draws).cards.len() == simulation.cards.len(),
        simulation.applied(event, draws).cards[i] == simulation.cards[i],
{
    an_event_keeps_the_cards(simulation, event, draws);
    let (status, target, duration, source) = match event.event {
        CombatEventView::Freeze(target, duration, source) => (
            Status::Freeze,
            target,
            duration,
            source,
        ),
        CombatEventView::Slow(target, duration, source) => (Status::Slow, target, duration, source),
        _ => arbitrary(),
    };
    if simulation.card_by_id(source) is Some {
        let chosen = simulation.chosen(status, target, source, draws);
        the_chosen_are_eligible(simulation, status, target, source, draws);
        assert forall|k: int| 0 <= k < chosen.len() implies position_of(
            simulation.cards,
            (#[trigger] chosen[k]).0,
        ) != Some(i) by {
            assert(simulation.meets(Criterion::Eligible(status), chosen[k]));
        }
        statuses_pass_by_other_cards(simulation, status, chosen, duration, i);
    }
}

/// The sentinels among the first events of a list are those among the
/// first events of any list that it starts.
pub proof fn sentinels_of_a_prefix(a: Seq<TaggedEventView>, b: Seq<TaggedEventView>, n: int)
    requires
        n <= a.len(),
    ensures
        SimulationResultView::sentinels(a + b, n) == SimulationResultView::sentinels(a, n),
    decreases n,
{
    if n > 0 {
        sentinels_of_a_prefix(a, b, n - 1);
    }
}

/// The sentinels of two lists add up.
pub proof fn sentinels_add_up(a: Seq<TaggedEventView>, b: Seq<TaggedEventView>, n: int)
    requires
        0 <= n <= b.len(),
    ensures
        SimulationResultView::sentinels(a + b, a.len() + n) == SimulationResultView::sentinels(
            a,
            a.len() as int,
        ) + SimulationResultView::sentinels(b, n),
    decreases n,
{
    if n > 0 {
        sentinels_add_up(a, b, n - 1);
        assert((a + b)[a.len() + n - 1] == b[n - 1]);
    } else {
        sentinels_of_a_prefix(a, b, a.len() as int);
    }
}

/// Whether no event of a list is a tick sentinel.
pub open spec fn no_sentinel(events: Seq<CombatEventView>) -> bool {
    forall|k: int| 0 <= k < events.len() ==> !((#[trigger] events[k]) is Tick)
}

/// Repeating events that hold no sentinel gives no sentinel.
pub proof fn repeating_adds_no_sentinel(events: Seq<CombatEventView>, times: int)
    requires
        no_sentinel(events),
    ensures
        no_sentinel(repeated(events, times)),
    decreases times,
{
    if times > 0 {
        repeating_adds_no_sentinel(events, times - 1);
    }
}

/// A card emits no sentinel.
pub proof fn a_card_emits_no_sentinel(card: CardView, owner: PlayerTarget, n: int)
    requires
        n <= card.tick_events().len(),
    ensures
        no_sentinel(card.tick_events()),
        SimulationResultView::sentinels(tagged_with(owner, card.tick_events()), n) == 0,
    decreases n,
{
    assert(no_sentinel(card.volley()));
    repeating_adds_no_sentinel(card.volley(), card.firings());
    if n > 0 {
        a_card_emits_no_sentinel(card, owner, n - 1);
    }
}

/// The cards emit no sentinel.
pub proof fn the_cards_emit_no_sentinel(cards: Seq<(u64, CardView)>, n: int)
    ensures
        SimulationResultView::sentinels(emitted_by(cards, n), emitted_by(cards, n).len() as int)
            == 0,
    decreases n,
{
    if n > 0 {
        the_cards_emit_no_sentinel(cards, n - 1);
        let card = cards[n - 1].1;
        let last = tagged_with(card.owner, card.tick_events());
        a_card_emits_no_sentinel(card, card.owner, last.len() as int);
        sentinels_add_up(emitted_by(cards, n - 1), last, last.len() as int);
    }
}

/// The events of a tick hold exactly one sentinel, the last of them.
pub proof fn a_tick_emits_one_sentinel(simulation: SimulationView)
    ensures
        SimulationResultView::sentinels(
            simulation.emitted(),
            simulation.emitted().len() as int,
        ) == 1,
        simulation.emitted().last().event == CombatEventView::Tick(simulation.ticks),
{
    let cards = emitted_by(simulation.cards, simulation.cards.len() as int);
    the_cards_emit_no_sentinel(simulation.cards, simulation.cards.len() as int);
    let sentinel = TaggedEventView {
        owner: PlayerTarget::Player,
        event: CombatEventView::Tick(simulation.ticks),
    };
    assert(simulation.emitted() =~= cards + seq![sentinel]);
    sentinels_add_up(cards, seq![sentinel], 1);
    assert(SimulationResultView::sentinels(seq![sentinel], 0) == 0);
}

/// The rest of a run adds one sentinel for each of its ticks.
pub proof fn the_rest_of_a_run_counts_its_ticks(
    simulation: SimulationView,
    tape: Seq<Seq<Draws>>,
    done: int,
    events: Seq<TaggedEventView>,
)
    requires
        0 <= done <= SIMULATION_TICK_COUNT,
        SimulationResultView::sentinels(events, events.len() as int) == done,
    ensures
        simulation.ran(tape, done, events).result.tick_count() == simulation.ran(
            tape,
            done,
            events,
        ).result.duration.0,
        done <= simulation.ran(tape, done, events).result.duration.0 <= SIMULATION_TICK_COUNT,
    decreases SIMULATION_TICK_COUNT - done,
{
    if done < SIMULATION_TICK_COUNT && simulation.exit_outcome() is None {
        a_tick_emits_one_sentinel(simulation);
        sentinels_add_up(events, simulation.emitted(), simulation.emitted().len() as int);
        the_rest_of_a_run_counts_its_ticks(
            simulation.stepped(tape[done]),
            tape,
            done + 1,
            events + simulation.emitted(),
        );
    }
}

/// The events of a result hold one tick sentinel for each tick that the
/// run simulated, and no other: as many as the duration of the run says,
/// and never more than the tick budget.
pub proof fn a_run_emits_one_sentinel_per_tick(simulation: SimulationView, tape: Seq<Seq<Draws>>)
    ensures
        simulation.run(tape).result.tick_count() == simulation.run(tape).result.duration.0,
        simulation.run(tape).result.duration.0 <= SIMULATION_TICK_COUNT,
{
    the_rest_of_a_run_counts_its_ticks(simulation, tape, 0, Seq::empty());
}

/// The outcome of the rest of a run tells who is defeated at its end.
pub proof fn the_rest_of_a_run_ends_as_its_outcome_says(
    simulation: SimulationView,
    tape: Seq<Seq<Draws>>,
    done: int,
    events: Seq<TaggedEventView>,
)
    requires
        0 <= done <= SIMULATION_TICK_COUNT,
    ensures
        ({
            let run = simulation.ran(tape, done, events);
            &&& run.result.player == run.end.player
            &&& run.result.opponent == run.end.opponent
            &&& run.result.outcome == Outcome::Victory ==> run.end.opponent.is_dead()
                && !run.end.player.is_dead()
            &&& run.result.outcome == Outcome::Defeat ==> run.end.player.is_dead()
                && !run.end.opponent.is_dead()
            &&& run.result.outcome == Outcome::Draw(SimulationDrawType::SimultaneousDefeat)
                ==> run.end.player.is_dead() && run.end.opponent.is_dead()
            &&& run.result.outcome == Outcome::Draw(SimulationDrawType::Timeout)
                ==> run.result.duration.0 == SIMULATION_TICK_COUNT
            &&& run.result.duration.0 < SIMULATION_TICK_COUNT ==> run.end.exit_outcome() == Some(
                run.result.outcome,
            )
        }),
    decreases SIMULATION_TICK_COUNT - done,
{
    if done < SIMULATION_TICK_COUNT && simulation.exit_outcome() is None {
        the_rest_of_a_run_ends_as_its_outcome_says(
            simulation.stepped(tape[done]),
            tape,
            done + 1,
            events + simulation.emitted(),
        );
    }
}

/// A run ends as its outcome says: a victory with only the opponent
/// defeated, a defeat with only the player defeated, a draw by
/// simultaneous defeat with both defeated, and a draw by timeout after the
/// whole tick budget. Where both players are defeated at the check the
/// outcome is never a victory or a defeat.
pub proof fn a_run_ends_as_its_outcome_says(simulation: SimulationView, tape: Seq<Seq<Draws>>)
    ensures
        ({
            let run = simulation.run(tape);
            &&& run.result.player == run.end.player
            &&& run.result.opponent == run.end.opponent
            &&& run.result.outcome == Outcome::Victory ==> run.end.opponent.is_dead()
                && !run.end.player.is_dead()
            &&& run.result.outcome == Outcome::Defeat ==> run.end.player.is_dead()
                && !run.end.opponent.is_dead()
            &&& run.result.outcome == Outcome::Draw(SimulationDrawType::SimultaneousDefeat)
                ==> run.end.player.is_dead() && run.end.opponent.is_dead()
            &&& run.result.outcome == Outcome::Draw(SimulationDrawType::Timeout)
                ==> run.result.duration.0 == SIMULATION_TICK_COUNT
        }),
{
    the_rest_of_a_run_ends_as_its_outcome_says(simulation, tape, 0, Seq::empty());
}

/// Without cards a tick is the tick of the two players, whatever chance
/// decides.
pub proof fn a_tick_without_cards(simulation: SimulationView, draws: Seq<Draws>)
    requires
        simulation.cards.len() == 0,
    ensures
        simulation.stepped(draws) == simulation.advanced(),
        simulation.advanced().cards.len() == 0,
        simulation.mirrored().advanced() == simulation.advanced().mirrored(),
        simulation.mirrored().emitted() == simulation.emitted(),
{
    let events = simulation.emitted();
    assert(emitted_by(simulation.cards, 0) =~= Seq::<TaggedEventView>::empty());
    assert(events.len() == 1);
    assert(simulation.advanced().applied_all(events, draws, 0) == simulation.advanced());
    assert(simulation.advanced().cards =~= simulation.cards);
    assert(simulation.mirrored().advanced().cards =~= simulation.advanced().mirrored().cards);
}

/// Without cards the rest of a run seen from the other side is the dual of
/// the rest of the run.
pub proof fn the_rest_of_a_fight_without_cards_is_dual(
    simulation: SimulationView,
    tape: Seq<Seq<Draws>>,
    other_tape: Seq<Seq<Draws>>,
    done: int,
    events: Seq<TaggedEventView>,
)
    requires
        simulation.cards.len() == 0,
    ensures
        ({
            let run = simulation.ran(tape, done, events);
            let dual = simulation.mirrored().ran(other_tape, done, events);
            &&& dual.result.outcome == run.result.outcome.dual()
            &&& dual.result.duration == run.result.duration
            &&& dual.result.events == run.result.events
            &&& dual.result.player == run.result.opponent
            &&& dual.result.opponent == run.result.player
            &&& dual.end == run.end.mirrored()
        }),
    decreases SIMULATION_TICK_COUNT - done,
{
    if done < SIMULATION_TICK_COUNT && simulation.exit_outcome() is None {
        a_tick_without_cards(simulation, tape[done]);
        a_tick_without_cards(simulation.mirrored(), other_tape[done]);
        the_rest_of_a_fight_without_cards_is_dual(
            simulation.advanced(),
            tape,
            other_tape,
            done + 1,
            events + simulation.emitted(),
        );
    }
}

/// A fight without cards gives the dual outcome when the two sides change
/// places: victory becomes defeat, defeat victory, and a draw stays the draw
/// it was; the run takes as long and leaves the same players, exchanged.
pub proof fn a_fight_without_cards_is_dual(
    simulation: SimulationView,
    tape: Seq<Seq<Draws>>,
    other_tape: Seq<Seq<Draws>>,
)
    requires
        simulation.cards.len() == 0,
    ensures
        simulation.mirrored().run(other_tape).result.outcome == simulation.run(
            tape,
        ).result.outcome.dual(),
        simulation.mirrored().run(other_tape).result.duration == simulation.run(
            tape,
        ).result.duration,
        simulation.mirrored().run(other_tape).result.player == simulation.run(
            tape,
        ).result.opponent,
        simulation.mirrored().run(other_tape).result.opponent == simulation.run(
            tape,
        ).result.player,
{
    the_rest_of_a_fight_without_cards_is_dual(simulation, tape, other_tape, 0, Seq::empty());
}

/// A template without cards gives, with its sides exchanged, the same
/// simulation seen from the other side; so the fight of the inverted
/// template has the dual outcome.
pub proof fn inverting_a_template_without_cards(
    template: SimulationTemplate,
    catalog: Seq<CardDefinition>,
    counter: CardIdCounter,
    tape: Seq<Seq<Draws>>,
    other_tape: Seq<Seq<Draws>>,
)
    requires
        template.card_count() == 0,
        template.failure(catalog, counter) is None,
    ensures
        template.inverted().failure(catalog, counter) is None,
        template.inverted().built(catalog, counter) == template.built(catalog, counter).mirrored(),
        template.inverted().built(catalog, counter).run(other_tape).result.outcome
            == template.built(catalog, counter).run(tape).result.outcome.dual(),
{
    let built = template.built(catalog, counter);
    let inverted = template.inverted().built(catalog, counter);
    assert(inverted.cards =~= built.cards);
    assert(inverted.player.card_ids =~= built.opponent.card_ids);
    assert(inverted.opponent.card_ids =~= built.player.card_ids);
    assert(built.cards.len() == 0);
    a_fight_without_cards_is_dual(built, tape, other_tape);
}

/// The exit check is dual: seen from the other side a victory is a defeat,
/// a defeat a victory, and a draw a draw.
pub proof fn the_exit_check_is_dual(simulation: SimulationView)
    ensures
        simulation.mirrored().exit_outcome() == match simulation.exit_outcome() {
            Some(outcome) => Some(outcome.dual()),
            None => None,
        },
{
}

/// What the board holds of one side after a build: as many cards as the
/// side has templates, the `k`-th under the `k`-th identifier from the
/// first, built from the `k`-th template at the first free slot.
pub proof fn the_cards_of_a_side(
    templates: Seq<CardTemplate>,
    catalog: Seq<CardDefinition>,
    owner: PlayerTarget,
    first_id: int,
    n: int,
)
    requires
        0 <= n <= templates.len(),
    ensures
        side_cards(templates, catalog, owner, first_id, n).len() == n,
        forall|k: int|
            0 <= k < n ==> #[trigger] side_cards(templates, catalog, owner, first_id, n)[k] == (
                (first_id + k) as u64,
                templates[k].built(
                    found(catalog, templates[k].name@)->0,
                    held_position(spaces_before(templates, catalog, k)),
                    owner,
                    GlobalCardId((first_id + k) as u64),
                ),
            ),
    decreases n,
{
    if n > 0 {
        the_cards_of_a_side(templates, catalog, owner, first_id, n - 1);
    }
}

/// Where the first `n` templates all give a card, the catalog knows each of
/// them, and the slots they take grow with their number.
pub proof fn a_side_without_failure(
    templates: Seq<CardTemplate>,
    catalog: Seq<CardDefinition>,
    n: int,
    k: int,
)
    requires
        0 <= k <= n <= templates.len(),
        card_failure_before(templates, catalog, n) is None,
    ensures
        k < n ==> found(catalog, templates[k].name@) is Some,
        0 <= spaces_before(templates, catalog, k) <= spaces_before(templates, catalog, n),
    decreases n,
{
    if k < n {
        a_side_without_failure(templates, catalog, n - 1, if k < n - 1 {
            k
        } else {
            n - 1
        });
        if k < n - 1 {
        } else {
            assert(templates[k].failure(catalog) is None);
        }
    } else if n > 0 {
        a_side_without_failure(templates, catalog, n - 1, n - 1);
    }
}

/// The simulation that a build gives is well-formed: each card stands under
/// the number of its own identifier, no two under the same, each at the
/// first slot that the cards of its owner before it leave free, and neither
/// board holds more than it has slots for.
pub proof fn a_built_simulation_is_well_formed(
    template: SimulationTemplate,
    catalog: Seq<CardDefinition>,
    counter: CardIdCounter,
)
    requires
        template.failure(catalog, counter) is None,
    ensures
        template.built(catalog, counter).well_formed(),
        template.built(catalog, counter).cards.len() == template.card_count(),
{
    let mine = template.player.card_templates@;
    let theirs = template.opponent.card_templates@;
    let n = mine.len() as int;
    let m = theirs.len() as int;
    let first = counter.next as int;
    let built = template.built(catalog, counter);
    let player = PlayerTarget::Player;
    let opponent = PlayerTarget::Opponent;
    the_cards_of_a_side(mine, catalog, player, first, n);
    the_cards_of_a_side(theirs, catalog, opponent, first + n, m);
    assert(side_failure(mine, catalog, player) is None);
    assert(side_failure(theirs, catalog, opponent) is None);
    assert forall|i: int| 0 <= i < n + m implies #[trigger] built.cards[i] == (if i < n {
        side_cards(mine, catalog, player, first, n)[i]
    } else {
        side_cards(theirs, catalog, opponent, first + n, m)[i - n]
    }) by {}
    assert forall|i: int| 0 <= i <= n + m implies built.taken(player, i) == spaces_before(
        mine,
        catalog,
        if i < n {
            i
        } else {
            n
        },
    ) && built.taken(opponent, i) == spaces_before(
        theirs,
        catalog,
        if i < n {
            0
        } else {
            i - n
        },
    ) by {
        the_slots_of_a_built_board(template, catalog, counter, i);
    }
    assert forall|i: int| 0 <= i < built.cards.len() implies (#[trigger] built.cards[i]).1.position
        == built.taken(built.cards[i].1.owner, i) by {
        if i < n {
            a_side_without_failure(mine, catalog, n, i);
        } else {
            a_side_without_failure(theirs, catalog, m, i - n);
        }
    }
}

/// The slots that the first `i` cards of a built board take: those of the
/// player's templates among them, and those of the opponent's.
pub proof fn the_slots_of_a_built_board(
    template: SimulationTemplate,
    catalog: Seq<CardDefinition>,
    counter: CardIdCounter,
    i: int,
)
    requires
        template.failure(catalog, counter) is None,
        0 <= i <= template.card_count(),
    ensures
        ({
            let n = template.player.card_templates@.len() as int;
            let built = template.built(catalog, counter);
            &&& built.taken(PlayerTarget::Player, i) == spaces_before(
                template.player.card_templates@,
                catalog,
                if i < n {
                    i
                } else {
                    n
                },
            )
            &&& built.taken(PlayerTarget::Opponent, i) == spaces_before(
                template.opponent.card_templates@,
                catalog,
                if i < n {
                    0
                } else {
                    i - n
                },
            )
        }),
    decreases i,
{
    let mine = template.player.card_templates@;
    let theirs = template.opponent.card_templates@;
    let n = mine.len() as int;
    let m = theirs.len() as int;
    let first = counter.next as int;
    let built = template.built(catalog, counter);
    if i > 0 {
        the_slots_of_a_built_board(template, catalog, counter, i - 1);
        the_cards_of_a_side(mine, catalog, PlayerTarget::Player, first, n);
        the_cards_of_a_side(theirs, catalog, PlayerTarget::Opponent, first + n, m);
        assert(side_failure(mine, catalog, PlayerTarget::Player) is None);
        assert(side_failure(theirs, catalog, PlayerTarget::Opponent) is None);
        if i - 1 < n {
            assert(built.cards[i - 1] == side_cards(
                mine,
                catalog,
                PlayerTarget::Player,
                first,
                n,
            )[i - 1]);
            a_side_without_failure(mine, catalog, n, i - 1);
        } else {
            assert(built.cards[i - 1] == side_cards(
                theirs,
                catalog,
                PlayerTarget::Opponent,
                first + n,
                m,
            )[i - 1 - n]);
            a_side_without_failure(theirs, catalog, m, i - 1 - n);
        }
    }
}

} // verus!
