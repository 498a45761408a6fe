//! Applying combat events to the simulation.

use crate::board::{
    board_card_at_mut, board_entries, board_entry_at, board_index_of, entry_views,
    position_of_finds, position_of_views,
};
use crate::card::id::GlobalCardId;
use crate::combat_event::{CombatEvent, TaggedCombatEvent};
use crate::dispatch::{report_views, CardSummary, DispatchableEvent};
use crate::models::tooltip::card_target::CardTarget;
use crate::models::tooltip::effect::DerivedValue;
use crate::models::tooltip::player_target::PlayerTarget;
use crate::arith::mul_u32;
use crate::random::{roll_below, shuffle_ids};
use crate::simulation::engine::Simulation;
use crate::simulation::model::{
    picked, Criterion, Draws,
    PlayerAction, Status,
};
use crate::statics::{CRIT_ROLL_RANGE, MAX_DERIVE_DEPTH};
use crate::text::owned;
use crate::tick::GameTicks;
use rand::rngs::StdRng;
use vstd::prelude::*;

verus! {

/// The pick of `count` cards: from the fresh ones first, in their order, then
/// from the afflicted ones.
pub fn pick(fresh: &Vec<GlobalCardId>, afflicted: &Vec<GlobalCardId>, count: usize) -> (chosen: Vec<
    GlobalCardId,
>)
    ensures
        chosen@ == picked(fresh@, afflicted@, count as int),
{
    let first = if count < fresh.len() {
        count
    } else {
        fresh.len()
    };
    let rest = count - first;
    let second = if rest < afflicted.len() {
        rest
    } else {
        afflicted.len()
    };
    let mut chosen: Vec<GlobalCardId> = Vec::new();
    let mut i: usize = 0;
    while i < first
        invariant
            i <= first <= fresh@.len(),
            chosen@ == fresh@.take(i as int),
        decreases first - i,
    {
        chosen.push(fresh[i]);
        assert(chosen@ =~= fresh@.take(i as int + 1));
        i = i + 1;
    }
    let mut j: usize = 0;
    while j < second
        invariant
            j <= second <= afflicted@.len(),
            chosen@ == fresh@.take(first as int) + afflicted@.take(j as int),
        decreases second - j,
    {
        chosen.push(afflicted[j]);
        assert(chosen@ =~= fresh@.take(first as int) + afflicted@.take(j as int + 1));
        j = j + 1;
    }
    chosen
}

impl Simulation {
    /// Hands a report to the sink, where one is attached.
    pub fn dispatch_event(&mut self, event: DispatchableEvent)
        ensures
            final(self)@ == old(self)@.reported(event@),
            final(self).cards == old(self).cards,
    {
        match &mut self.event_sink {
            Some(log) => {
                let ghost before = log@;
                log.push(event);
                assert(report_views(log@) =~= report_views(before).push(event@));
            },
            None => {},
        }
    }

    /// Applies an action to one side.
    fn act_on(&mut self, side: PlayerTarget, action: PlayerAction, amount: u32)
        ensures
            final(self)@ == old(self)@.with_side(
                side,
                action.applied(old(self)@.side(side), amount as int),
            ),
    {
        match side {
            PlayerTarget::Player => match action {
                PlayerAction::Damage => self.player.take_damage(amount),
                PlayerAction::Burn => self.player.burn(amount),
                PlayerAction::Poison => self.player.poison(amount),
                PlayerAction::Shield => self.player.shield(amount),
                PlayerAction::Heal => self.player.heal(amount),
                PlayerAction::Regen => self.player.regen(amount),
            },
            PlayerTarget::Opponent => match action {
                PlayerAction::Damage => self.opponent.take_damage(amount),
                PlayerAction::Burn => self.opponent.burn(amount),
                PlayerAction::Poison => self.opponent.poison(amount),
                PlayerAction::Shield => self.opponent.shield(amount),
                PlayerAction::Heal => self.opponent.heal(amount),
                PlayerAction::Regen => self.opponent.regen(amount),
            },
        }
    }

    /// Applies an event on a player, given the roll against the crit chance.
    fn apply_player_event(
        &mut self,
        owner: PlayerTarget,
        action: PlayerAction,
        target: PlayerTarget,
        value: &DerivedValue<u32>,
        source: &GlobalCardId,
        crit_roll: u32,
    )
        ensures
            final(self)@ == old(self)@.player_event(
                owner,
                action,
                target,
                *value,
                *source,
                crit_roll,
            ),
    {
        let crit_chance = match self.get_card(source) {
            Some(card) => card.compute_crit_chance(),
            None => {
                self.dispatch_event(
                    DispatchableEvent::Warning(
                        owned("event dropped: its source card is not on the board"),
                    ),
                );
                return ;
            },
        };
        let amount = self.resolve(value, source, MAX_DERIVE_DEPTH);
        let is_crit = match action {
            PlayerAction::Damage => crit_roll < crit_chance.0,
            _ => false,
        };
        let dealt = if is_crit {
            mul_u32(2, amount)
        } else {
            amount
        };
        let side = if owner == target {
            PlayerTarget::Player
        } else {
            PlayerTarget::Opponent
        };
        self.act_on(side, action, dealt);
        match value {
            DerivedValue::FromPlayer(_, _, _) => {
                self.dispatch_event(
                    DispatchableEvent::Warning(
                        owned("values derived from a player are not modelled: the amount is zero"),
                    ),
                );
            },
            _ => {},
        }
    }

    /// Whether the card `id` meets a criterion.
    fn meets(&self, criterion: Criterion, id: &GlobalCardId) -> (holds: bool)
        ensures
            holds == self@.meets(criterion, *id),
    {
        match self.get_card(id) {
            Some(card) => match criterion {
                Criterion::Eligible(status) => match status {
                    Status::Haste => true,
                    _ => !card.is_radiant() && card.cooldown.0 > 0,
                },
                Criterion::Fresh(status) => match status {
                    Status::Freeze => card.freeze_ticks.0 == 0,
                    Status::Slow => card.slow_ticks.0 == 0,
                    Status::Haste => card.haste_ticks.0 == 0,
                },
                Criterion::Afflicted(status) => match status {
                    Status::Freeze => card.freeze_ticks.0 != 0,
                    Status::Slow => card.slow_ticks.0 != 0,
                    Status::Haste => card.haste_ticks.0 != 0,
                },
            },
            None => match criterion {
                Criterion::Afflicted(_) => true,
                _ => false,
            },
        }
    }

    /// The cards among `ids` that meet a criterion, in the order of `ids`.
    pub fn keep(&self, criterion: Criterion, ids: &Vec<GlobalCardId>) -> (kept: Vec<GlobalCardId>)
        ensures
            kept@ == self@.kept(criterion, ids@),
    {
        let mut kept: Vec<GlobalCardId> = Vec::new();
        let ghost test = |id: GlobalCardId| self@.meets(criterion, id);
        let mut i: usize = 0;
        proof {
            reveal(Seq::filter);
            assert(ids@.take(0).filter(test) =~= kept@);
        }
        while i < ids.len()
            invariant
                i <= ids@.len(),
                test == |id: GlobalCardId| self@.meets(criterion, id),
                kept@ == ids@.take(i as int).filter(test),
            decreases ids@.len() - i,
        {
            proof {
                broadcast use Seq::lemma_filter_push;

                assert(ids@.take(i as int + 1) =~= ids@.take(i as int).push(ids@[i as int]));
            }
            if self.meets(criterion, &ids[i]) {
                kept.push(ids[i]);
            }
            i = i + 1;
        }
        assert(ids@.take(i as int) =~= ids@);
        kept
    }

    /// Puts a status on each card of `ids`, in order, and reports each.
    pub fn afflict(&mut self, status: Status, ids: &Vec<GlobalCardId>, duration: GameTicks)
        ensures
            final(self)@ == old(self)@.afflicted_all(status, ids@, duration),
    {
        let mut i: usize = 0;
        while i < ids.len()
            invariant
                i <= ids@.len(),
                self@ == old(self)@.afflicted_all(status, ids@.take(i as int), duration),
            decreases ids@.len() - i,
        {
            assert(ids@.take(i as int + 1).drop_last() =~= ids@.take(i as int));
            let id = ids[i];
            proof {
                position_of_finds(board_entries(self.cards), id.0);
                position_of_views(board_entries(self.cards), id.0);
            }
            let ghost before = board_entries(self.cards);
            match board_index_of(&self.cards, id.0) {
                Some(index) => {
                    let summary = CardSummary::from(board_entry_at(&self.cards, index).1);
                    let report = match status {
                        Status::Freeze => DispatchableEvent::CardFrozen(summary, duration),
                        Status::Slow => DispatchableEvent::CardSlowed(summary, duration),
                        Status::Haste => DispatchableEvent::CardHasted(summary, duration),
                    };
                    self.dispatch_event(report);
                    let card = board_card_at_mut(&mut self.cards, index);
                    match status {
                        Status::Freeze => card.freeze(duration),
                        Status::Slow => card.slow(duration),
                        Status::Haste => card.haste(duration),
                    }
                    assert(entry_views(board_entries(self.cards)) =~= entry_views(before).update(
                        index as int,
                        (before[index as int].0, board_entries(self.cards)[index as int].1@),
                    ));
                },
                None => {
                    self.dispatch_event(
                        DispatchableEvent::Warning(
                            owned("status dropped: the chosen card is not on the board"),
                        ),
                    );
                },
            }
            i = i + 1;
        }
        assert(ids@.take(i as int) =~= ids@);
    }

    /// Applies an event that puts a status on cards, given the orders into
    /// which chance put the candidates.
    fn apply_status_event(
        &mut self,
        status: Status,
        target: &CardTarget,
        duration: GameTicks,
        source: &GlobalCardId,
        fresh: &Vec<GlobalCardId>,
        afflicted: &Vec<GlobalCardId>,
    )
        ensures
            forall|roll: u32|
                final(self)@ == #[trigger] old(self)@.status_event(
                    status,
                    *target,
                    duration,
                    *source,
                    Draws { crit_roll: roll, fresh: fresh@, afflicted: afflicted@ },
                ),
    {
        if self.get_card(source).is_none() {
            self.dispatch_event(
                DispatchableEvent::Warning(
                    owned("event dropped: its source card is not on the board"),
                ),
            );
            return ;
        }
        let chosen = if target.targets_all() {
            let candidates = self.get_cards_by_target(source, target.target_condition());
            self.keep(Criterion::Eligible(status), &candidates)
        } else {
            pick(fresh, afflicted, target.number_of_targets())
        };
        self.afflict(status, &chosen, duration);
    }

    /// The candidates of a status event in the two orders from which cards
    /// are picked: those not yet under the status and those already under
    /// it. Each group is shuffled, unless the event takes every card.
    fn shuffled_orders(
        &self,
        status: Status,
        target: &CardTarget,
        source: &GlobalCardId,
        rng: &mut StdRng,
    ) -> (orders: (Vec<GlobalCardId>, Vec<GlobalCardId>))
        ensures
            forall|roll: u32|
                #[trigger] self@.orders_fit(
                    status,
                    *target,
                    *source,
                    Draws { crit_roll: roll, fresh: orders.0@, afflicted: orders.1@ },
                ),
    {
        let candidates = self.get_cards_by_target(source, target.target_condition());
        let eligible = self.keep(Criterion::Eligible(status), &candidates);
        let mut fresh = self.keep(Criterion::Fresh(status), &eligible);
        let mut afflicted = self.keep(Criterion::Afflicted(status), &eligible);
        if !target.targets_all() {
            shuffle_ids(&mut fresh, rng);
            shuffle_ids(&mut afflicted, rng);
        }
        (fresh, afflicted)
    }

    /// Applies an event, given what chance decided: the roll against the
    /// crit chance, out of `CRIT_ROLL_RANGE`, and the orders into which the
    /// candidates of a status were shuffled.
    pub fn apply_drawn_event(
        &mut self,
        event: &TaggedCombatEvent,
        crit_roll: u32,
        fresh: &Vec<GlobalCardId>,
        afflicted: &Vec<GlobalCardId>,
    )
        ensures
            final(self)@ == old(self)@.applied(
                event@,
                Draws { crit_roll, fresh: fresh@, afflicted: afflicted@ },
            ),
    {
        let owner = event.0;
        match &event.1 {
            CombatEvent::Skip(_) => {},
            CombatEvent::Tick(_) => {},
            CombatEvent::Raw(text) => {
                let message = owned("raw event skipped: ").concat(text.as_str());
                self.dispatch_event(DispatchableEvent::Warning(message));
            },
            CombatEvent::DealDamage(target, value, source) => {
                self.apply_player_event(
                    owner,
                    PlayerAction::Damage,
                    *target,
                    value,
                    source,
                    crit_roll,
                );
            },
            CombatEvent::ApplyBurn(target, value, source) => {
                self.apply_player_event(owner, PlayerAction::Burn, *target, value, source, crit_roll);
            },
            CombatEvent::ApplyPoison(target, value, source) => {
                self.apply_player_event(
                    owner,
                    PlayerAction::Poison,
                    *target,
                    value,
                    source,
                    crit_roll,
                );
            },
            CombatEvent::ApplyShield(target, value, source) => {
                self.apply_player_event(
                    owner,
                    PlayerAction::Shield,
                    *target,
                    value,
                    source,
                    crit_roll,
                );
            },
            CombatEvent::Heal(target, value, source) => {
                self.apply_player_event(owner, PlayerAction::Heal, *target, value, source, crit_roll);
            },
            CombatEvent::Regen(target, value, source) => {
                self.apply_player_event(
                    owner,
                    PlayerAction::Regen,
                    *target,
                    value,
                    source,
                    crit_roll,
                );
            },
            CombatEvent::Freeze(target, duration, source) => {
                self.apply_status_event(
                    Status::Freeze,
                    target,
                    *duration,
                    source,
                    fresh,
                    afflicted,
                );
            },
            CombatEvent::Slow(target, duration, source) => {
                self.apply_status_event(Status::Slow, target, *duration, source, fresh, afflicted);
            },
            CombatEvent::Haste(target, duration, source) => {
                self.apply_status_event(Status::Haste, target, *duration, source, fresh, afflicted);
            },
        }
    }

    /// Applies an event. A damage event of a card on the board rolls against
    /// the crit chance of that card; an event that puts a status on a given
    /// number of cards shuffles its candidates. The simulation ends in the
    /// state that the event gives for some outcome of those draws.
    pub fn apply_event(&mut self, event: &TaggedCombatEvent, rng: &mut StdRng)
        ensures
            old(self)@.can_apply(event@, final(self)@),
    {
        let mut crit_roll: u32 = 0;
        let mut orders: (Vec<GlobalCardId>, Vec<GlobalCardId>) = (Vec::new(), Vec::new());
        match &event.1 {
            CombatEvent::DealDamage(_, _, source) => {
                if self.get_card(source).is_some() {
                    crit_roll = roll_below(rng, CRIT_ROLL_RANGE);
                }
            },
            CombatEvent::Freeze(target, _, source) => {
                orders = self.shuffled_orders(Status::Freeze, target, source, rng);
            },
            CombatEvent::Slow(target, _, source) => {
                orders = self.shuffled_orders(Status::Slow, target, source, rng);
            },
            CombatEvent::Haste(target, _, source) => {
                orders = self.shuffled_orders(Status::Haste, target, source, rng);
            },
            _ => {},
        }
        let ghost draws = Draws { crit_roll, fresh: orders.0@, afflicted: orders.1@ };
        assert(self@.draws_fit(event@, draws));
        self.apply_drawn_event(event, crit_roll, &orders.0, &orders.1);
    }
}

} // verus!
