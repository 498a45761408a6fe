//! The mathematical model of a simulation and of everything the engine does
//! to it.

use crate::arith::{clamp_u32, clamp_u64};
use crate::board::position_of;
use crate::card::base_card::CardView;
use crate::card::id::GlobalCardId;
use crate::combat_event::{tagged_with, CombatEventView, TaggedEventView};
use crate::dispatch::{CardSummary, DispatchableEventView};
use crate::models::tooltip::card_target::CardTarget;
use crate::models::tooltip::card_target_condition::TargetCondition;
use crate::models::tooltip::effect::{CardDerivedProperty, DerivedValue, Effect};
use crate::models::tooltip::player_target::PlayerTarget;
use crate::player::base_player::{min_int, PlayerView};
use crate::result::{Outcome, SimulationDrawType, SimulationResultView};
use crate::statics::{
    CRIT_ROLL_RANGE, MAX_DERIVE_DEPTH, NUMBER_OF_BOARD_SPACES, SIMULATION_TICK_COUNT,
};
use crate::tick::GameTicks;
use vstd::prelude::*;

verus! {

/// What a simulation is: the two players, the cards in the order of the
/// board map, each under its key, the number of ticks done, and the reports
/// collected so far where a sink is attached.
pub struct SimulationView {
    pub player: PlayerView,
    pub opponent: PlayerView,
    pub cards: Seq<(u64, CardView)>,
    pub ticks: u64,
    pub sink: Option<Seq<DispatchableEventView>>,
}

/// What chance decided while one event was applied: the roll against the
/// crit chance, and the orders into which the candidates of a status were
/// shuffled, those not yet under the status and those already under it.
pub struct Draws {
    pub crit_roll: u32,
    pub fresh: Seq<GlobalCardId>,
    pub afflicted: Seq<GlobalCardId>,
}

/// What an event does to a player.
#[derive(Clone, Copy, Debug, PartialEq, Eq, Structural)]
pub enum PlayerAction {
    Damage,
    Burn,
    Poison,
    Shield,
    Heal,
    Regen,
}

/// A status that an event puts on cards.
#[derive(Clone, Copy, Debug, PartialEq, Eq, Structural)]
pub enum Status {
    Freeze,
    Slow,
    Haste,
}

/// A test on a card by which candidates are sorted out.
#[derive(Clone, Copy, Debug, PartialEq, Eq, Structural)]
pub enum Criterion {
    /// The card can take the status.
    Eligible(Status),
    /// The card can take the status and is not under it yet.
    Fresh(Status),
    /// The card is not fresh.
    Afflicted(Status),
}

impl PlayerAction {
    /// The player after the action with the given amount.
    pub open spec fn applied(self, player: PlayerView, amount: int) -> PlayerView {
        match self {
            PlayerAction::Damage => player.damaged(amount),
            PlayerAction::Burn => player.burned(amount),
            PlayerAction::Poison => player.poisoned(amount),
            PlayerAction::Shield => player.shielded(amount),
            PlayerAction::Heal => player.healed(amount),
            PlayerAction::Regen => player.regenerated(amount),
        }
    }
}

impl Status {
    /// The ticks for which the card is still under the status.
    pub open spec fn timer(self, card: CardView) -> u64 {
        match self {
            Status::Freeze => card.freeze_ticks.0,
            Status::Slow => card.slow_ticks.0,
            Status::Haste => card.haste_ticks.0,
        }
    }

    /// Whether the card can take the status: any card can be hasted; a card
    /// can be frozen or slowed if it is not radiant and has a cooldown.
    pub open spec fn admits(self, card: CardView) -> bool {
        match self {
            Status::Haste => true,
            _ => !card.radiant() && card.cooldown.0 > 0,
        }
    }

    /// The card with the status prolonged by `duration`.
    pub open spec fn applied_to(self, card: CardView, duration: GameTicks) -> CardView {
        match self {
            Status::Freeze => card.with_freeze(duration),
            Status::Slow => card.with_slow(duration),
            Status::Haste => card.with_haste(duration),
        }
    }

    /// The report that the status was put on the card.
    pub open spec fn report(self, card: CardView, duration: GameTicks) -> DispatchableEventView {
        match self {
            Status::Freeze => DispatchableEventView::CardFrozen(CardSummary::of(card), duration),
            Status::Slow => DispatchableEventView::CardSlowed(CardSummary::of(card), duration),
            Status::Haste => DispatchableEventView::CardHasted(CardSummary::of(card), duration),
        }
    }
}

/// The warning for a raw event.
pub open spec fn raw_skipped_text(raw: Seq<char>) -> Seq<char> {
    "raw event skipped: "@ + raw
}

/// The warning for an event whose source card is not on the board.
pub open spec fn unknown_source_text() -> Seq<char> {
    "event dropped: its source card is not on the board"@
}

/// The warning for an amount that is derived from a player.
pub open spec fn player_value_text() -> Seq<char> {
    "values derived from a player are not modelled: the amount is zero"@
}

/// The warning for a status whose chosen card is not on the board.
pub open spec fn missing_target_text() -> Seq<char> {
    "status dropped: the chosen card is not on the board"@
}

/// The side that an event hits: targets are read from the point of view of
/// the owner of the source card, so an event whose target is its owner's own
/// name hits the player's side, and any other the opponent's.
pub open spec fn hit_side(owner: PlayerTarget, target: PlayerTarget) -> PlayerTarget {
    if owner == target {
        PlayerTarget::Player
    } else {
        PlayerTarget::Opponent
    }
}

/// The pick of `count` cards: from the fresh ones first, in their order, then
/// from the afflicted ones.
pub open spec fn picked(fresh: Seq<GlobalCardId>, afflicted: Seq<GlobalCardId>, count: int) -> Seq<
    GlobalCardId,
> {
    let first = min_int(count, fresh.len() as int);
    fresh.take(first) + afflicted.take(min_int(count - first, afflicted.len() as int))
}

/// The cards after each has ticked.
pub open spec fn ticked_cards(cards: Seq<(u64, CardView)>) -> Seq<(u64, CardView)> {
    Seq::new(cards.len(), |i: int| (cards[i].0, cards[i].1.ticked()))
}

/// The events that the first `n` cards emit in a tick, each tagged with the
/// owner of its card, in the order of the cards.
pub open spec fn emitted_by(cards: Seq<(u64, CardView)>, n: int) -> Seq<TaggedEventView>
    decreases n,
{
    if n <= 0 {
        Seq::empty()
    } else {
        emitted_by(cards, n - 1) + tagged_with(cards[n - 1].1.owner, cards[n - 1].1.tick_events())
    }
}

/// Whether `long` starts with `short`.
pub open spec fn starts_with<T>(long: Seq<T>, short: Seq<T>) -> bool {
    short.len() <= long.len() && forall|i: int| 0 <= i < short.len() ==> long[i] == short[i]
}

/// A simulation after a run together with the result of the run.
pub struct RunView {
    pub end: SimulationView,
    pub result: SimulationResultView,
}

/// `percent` percent of `total`, rounded to the nearest integer (halves upwards).
pub open spec fn percent_of(percent: int, total: int) -> int {
    (percent * total + 50) / 100
}

/// The identifiers of the cards among `cards` that satisfy `condition` from
/// the point of view of `source`, in the order of `cards`.
pub open spec fn matched_among(
    cards: Seq<(u64, CardView)>,
    source: CardView,
    condition: TargetCondition,
) -> Seq<GlobalCardId> {
    cards.filter(|entry: (u64, CardView)| source.matching(condition, Some(entry.1))).map_values(
        |entry: (u64, CardView)| GlobalCardId(entry.0),
    )
}

impl SimulationView {
    /// The card stored under an identifier.
    pub open spec fn card_by_id(self, id: GlobalCardId) -> Option<CardView> {
        match position_of(self.cards, id.0) {
            Some(i) => Some(self.cards[i].1),
            None => None,
        }
    }

    /// The simulation after a report: the report is added to the sink where
    /// one is attached, and dropped where none is.
    pub open spec fn reported(self, report: DispatchableEventView) -> SimulationView {
        SimulationView {
            sink: match self.sink {
                Some(log) => Some(log.push(report)),
                None => None,
            },
            ..self
        }
    }

    /// The cards that satisfy `condition` from the point of view of the card
    /// `source`, in board order; none where `source` is not on the board.
    pub open spec fn targets(self, source: GlobalCardId, condition: TargetCondition) -> Seq<
        GlobalCardId,
    > {
        match self.card_by_id(source) {
            Some(card) => matched_among(self.cards, card, condition),
            None => Seq::empty(),
        }
    }

    /// The gold value of a card as derived values see it: the base cost of
    /// its size scaled to its tier.
    pub open spec fn plain_value(card: CardView) -> int {
        clamp_u32(card.tier.scaled(card.inner.size.base_value()))
    }

    /// The sum of the plain values of the cards `ids`, held at the largest `u64`.
    pub open spec fn value_sum(self, ids: Seq<GlobalCardId>) -> int
        decreases ids.len(),
    {
        if ids.len() == 0 {
            0
        } else {
            clamp_u64(
                self.value_sum(ids.drop_last()) + match self.card_by_id(ids.last()) {
                    Some(card) => Self::plain_value(card),
                    None => 0,
                },
            )
        }
    }

    /// The damage of one effect: the amount of a damage effect, where that
    /// amount is itself derived its value one level deeper, or zero at the
    /// last level; zero for any other effect.
    pub open spec fn effect_damage(self, effect: Effect, source: GlobalCardId, depth: nat) -> int
        decreases depth, 0nat, 0nat,
    {
        match effect {
            Effect::DealDamage(_, DerivedValue::Constant(amount)) => amount as int,
            Effect::DealDamage(_, inner) => if depth > 0 {
                self.derived(inner, source, (depth - 1) as nat)
            } else {
                0
            },
            _ => 0,
        }
    }

    /// The sum of the damage of `effects`, held at the largest `u64`.
    pub open spec fn effects_damage(self, effects: Seq<Effect>, source: GlobalCardId, depth: nat) -> int
        decreases depth, 1nat, effects.len(),
    {
        if effects.len() == 0 {
            0
        } else {
            clamp_u64(
                self.effects_damage(effects.drop_last(), source, depth) + self.effect_damage(
                    effects.last(),
                    source,
                    depth,
                ),
            )
        }
    }

    /// The sum of the damage of the cooldown effects of the cards `ids`,
    /// held at the largest `u64`.
    pub open spec fn damage_sum(self, ids: Seq<GlobalCardId>, source: GlobalCardId, depth: nat) -> int
        decreases depth, 2nat, ids.len(),
    {
        if ids.len() == 0 {
            0
        } else {
            clamp_u64(
                self.damage_sum(ids.drop_last(), source, depth) + match self.card_by_id(
                    ids.last(),
                ) {
                    Some(card) => self.effects_damage(card.cooldown_effects, source, depth),
                    None => 0,
                },
            )
        }
    }

    /// The value that `value` resolves to for an event of the card `source`:
    /// the constant itself; for a value derived from cards, the given
    /// percentage of the sum of the property over all cards that satisfy the
    /// target's condition, rounded and held at the largest `u32`; zero for a
    /// value derived from a player. Derived damage looks `depth` levels deep.
    pub open spec fn derived(self, value: DerivedValue<u32>, source: GlobalCardId, depth: nat) -> int
        decreases depth, 3nat, 0nat,
    {
        match value {
            DerivedValue::Constant(amount) => amount as int,
            DerivedValue::FromCard(target, CardDerivedProperty::Value, percent) => clamp_u32(
                percent_of(percent as int, self.value_sum(self.targets(source, target.1))),
            ),
            DerivedValue::FromCard(target, CardDerivedProperty::Damage, percent) => clamp_u32(
                percent_of(
                    percent as int,
                    self.damage_sum(self.targets(source, target.1), source, depth),
                ),
            ),
            DerivedValue::FromPlayer(_, _, _) => 0,
        }
    }

    /// The amount that an event of the card `source` carries.
    pub open spec fn amount(self, value: DerivedValue<u32>, source: GlobalCardId) -> int {
        self.derived(value, source, MAX_DERIVE_DEPTH as nat)
    }

    /// One side of the fight.
    pub open spec fn side(self, which: PlayerTarget) -> PlayerView {
        match which {
            PlayerTarget::Player => self.player,
            PlayerTarget::Opponent => self.opponent,
        }
    }

    /// The simulation with one side replaced.
    pub open spec fn with_side(self, which: PlayerTarget, player: PlayerView) -> SimulationView {
        match which {
            PlayerTarget::Player => SimulationView { player, ..self },
            PlayerTarget::Opponent => SimulationView { opponent: player, ..self },
        }
    }

    /// The simulation after an event on a player. Where the source card is
    /// not on the board the event is dropped with a warning. Else the amount
    /// is resolved, doubled for damage when the roll is below the crit
    /// chance of the source card, and applied to the side that is hit. An
    /// amount derived from a player counts as zero, with a warning.
    pub open spec fn player_event(
        self,
        owner: PlayerTarget,
        action: PlayerAction,
        target: PlayerTarget,
        value: DerivedValue<u32>,
        source: GlobalCardId,
        crit_roll: u32,
    ) -> SimulationView {
        match self.card_by_id(source) {
            None => self.reported(DispatchableEventView::Warning(unknown_source_text())),
            Some(card) => {
                let amount = self.amount(value, source);
                let dealt = if action == PlayerAction::Damage && crit_roll < card.crit_chance() {
                    clamp_u32(2 * amount)
                } else {
                    amount
                };
                let side = hit_side(owner, target);
                let after = self.with_side(side, action.applied(self.side(side), dealt));
                if value is FromPlayer {
                    after.reported(DispatchableEventView::Warning(player_value_text()))
                } else {
                    after
                }
            },
        }
    }

    /// Whether the card `id` meets a criterion.
    pub open spec fn meets(self, criterion: Criterion, id: GlobalCardId) -> bool {
        match criterion {
            Criterion::Eligible(status) => self.card_by_id(id) matches Some(card) && status.admits(
                card,
            ),
            Criterion::Fresh(status) => self.card_by_id(id) matches Some(card) && status.timer(
                card,
            ) == 0,
            Criterion::Afflicted(status) => !(self.card_by_id(id) matches Some(card)
                && status.timer(card) == 0),
        }
    }

    /// The cards among `ids` that meet a criterion, in the order of `ids`.
    pub open spec fn kept(self, criterion: Criterion, ids: Seq<GlobalCardId>) -> Seq<GlobalCardId> {
        ids.filter(|id: GlobalCardId| self.meets(criterion, id))
    }

    /// The cards that an event of the card `source` may put `status` on:
    /// those that satisfy the condition of the target and can take the status.
    pub open spec fn eligible(self, status: Status, target: CardTarget, source: GlobalCardId) -> Seq<
        GlobalCardId,
    > {
        self.kept(Criterion::Eligible(status), self.targets(source, target.1))
    }

    /// The cards that the event puts the status on. A count of `usize::MAX`
    /// takes every eligible card in board order. Any other count takes that
    /// many from the eligible cards as chance ordered them, those not yet
    /// under the status first.
    pub open spec fn chosen(
        self,
        status: Status,
        target: CardTarget,
        source: GlobalCardId,
        draws: Draws,
    ) -> Seq<GlobalCardId> {
        if target.0 == usize::MAX {
            self.eligible(status, target, source)
        } else {
            picked(draws.fresh, draws.afflicted, target.0 as int)
        }
    }

    /// The simulation after the status is put on one card: the change is
    /// reported and the status of the card prolonged. A card that is not on
    /// the board gives a warning instead.
    pub open spec fn afflicted_one(self, status: Status, id: GlobalCardId, duration: GameTicks) -> SimulationView {
        match position_of(self.cards, id.0) {
            Some(i) => {
                let card = self.cards[i].1;
                SimulationView {
                    cards: self.cards.update(
                        i,
                        (self.cards[i].0, status.applied_to(card, duration)),
                    ),
                    ..self.reported(status.report(card, duration))
                }
            },
            None => self.reported(DispatchableEventView::Warning(missing_target_text())),
        }
    }

    /// The simulation after the status is put on each card of `ids`, in order.
    pub open spec fn afflicted_all(self, status: Status, ids: Seq<GlobalCardId>, duration: GameTicks) -> SimulationView
        decreases ids.len(),
    {
        if ids.len() == 0 {
            self
        } else {
            self.afflicted_all(status, ids.drop_last(), duration).afflicted_one(
                status,
                ids.last(),
                duration,
            )
        }
    }

    /// The simulation after an event that puts a status on cards. Where the
    /// source card is not on the board the event is dropped with a warning.
    pub open spec fn status_event(
        self,
        status: Status,
        target: CardTarget,
        duration: GameTicks,
        source: GlobalCardId,
        draws: Draws,
    ) -> SimulationView {
        match self.card_by_id(source) {
            None => self.reported(DispatchableEventView::Warning(unknown_source_text())),
            Some(_) => self.afflicted_all(
                status,
                self.chosen(status, target, source, draws),
                duration,
            ),
        }
    }

    /// Whether `draws` is a possible outcome of the orders into which the
    /// candidates of a status are shuffled: each of the two orders holds the
    /// cards of its group, each as often as the group does.
    pub open spec fn orders_fit(
        self,
        status: Status,
        target: CardTarget,
        source: GlobalCardId,
        draws: Draws,
    ) -> bool {
        let eligible = self.eligible(status, target, source);
        &&& draws.fresh.to_multiset() == self.kept(Criterion::Fresh(status), eligible).to_multiset()
        &&& draws.afflicted.to_multiset() == self.kept(
            Criterion::Afflicted(status),
            eligible,
        ).to_multiset()
    }

    /// Whether `draws` is a possible outcome of the draws that applying
    /// `event` makes.
    pub open spec fn draws_fit(self, event: TaggedEventView, draws: Draws) -> bool {
        &&& draws.crit_roll < CRIT_ROLL_RANGE
        &&& match event.event {
            CombatEventView::Freeze(target, _, source) => self.orders_fit(
                Status::Freeze,
                target,
                source,
                draws,
            ),
            CombatEventView::Slow(target, _, source) => self.orders_fit(
                Status::Slow,
                target,
                source,
                draws,
            ),
            CombatEventView::Haste(target, _, source) => self.orders_fit(
                Status::Haste,
                target,
                source,
                draws,
            ),
            _ => true,
        }
    }

    /// The simulation after `event` is applied, given what chance decided.
    pub open spec fn applied(self, event: TaggedEventView, draws: Draws) -> SimulationView {
        let owner = event.owner;
        let roll = draws.crit_roll;
        match event.event {
            CombatEventView::Skip(_) => self,
            CombatEventView::Tick(_) => self,
            CombatEventView::Raw(text) => self.reported(
                DispatchableEventView::Warning(raw_skipped_text(text)),
            ),
            CombatEventView::DealDamage(target, value, source) => self.player_event(
                owner,
                PlayerAction::Damage,
                target,
                value,
                source,
                roll,
            ),
            CombatEventView::ApplyBurn(target, value, source) => self.player_event(
                owner,
                PlayerAction::Burn,
                target,
                value,
                source,
                roll,
            ),
            CombatEventView::ApplyPoison(target, value, source) => self.player_event(
                owner,
                PlayerAction::Poison,
                target,
                value,
                source,
                roll,
            ),
            CombatEventView::ApplyShield(target, value, source) => self.player_event(
                owner,
                PlayerAction::Shield,
                target,
                value,
                source,
                roll,
            ),
            CombatEventView::Heal(target, value, source) => self.player_event(
                owner,
                PlayerAction::Heal,
                target,
                value,
                source,
                roll,
            ),
            CombatEventView::Regen(target, value, source) => self.player_event(
                owner,
                PlayerAction::Regen,
                target,
                value,
                source,
                roll,
            ),
            CombatEventView::Freeze(target, duration, source) => self.status_event(
                Status::Freeze,
                target,
                duration,
                source,
                draws,
            ),
            CombatEventView::Slow(target, duration, source) => self.status_event(
                Status::Slow,
                target,
                duration,
                source,
                draws,
            ),
            CombatEventView::Haste(target, duration, source) => self.status_event(
                Status::Haste,
                target,
                duration,
                source,
                draws,
            ),
        }
    }

    /// The events of the next tick: what each card emits, in board order,
    /// then the sentinel that closes the tick.
    pub open spec fn emitted(self) -> Seq<TaggedEventView> {
        emitted_by(self.cards, self.cards.len() as int).push(
            TaggedEventView { owner: PlayerTarget::Player, event: CombatEventView::Tick(self.ticks) },
        )
    }

    /// The simulation after the emit phase of a tick: both players and every
    /// card have ticked, and one more tick is counted.
    pub open spec fn advanced(self) -> SimulationView {
        SimulationView {
            player: self.player.ticked(),
            opponent: self.opponent.ticked(),
            cards: ticked_cards(self.cards),
            ticks: clamp_u64(self.ticks + 1) as u64,
            ..self
        }
    }

    /// The simulation after the first `n` of `events` are applied in order,
    /// the `k`-th with the draws `draws[k]`.
    pub open spec fn applied_all(self, events: Seq<TaggedEventView>, draws: Seq<Draws>, n: int) -> SimulationView
        decreases n,
    {
        if n <= 0 {
            self
        } else {
            self.applied_all(events, draws, n - 1).applied(events[n - 1], draws[n - 1])
        }
    }

    /// Whether each of the first `n` draws is a possible outcome for its event.
    pub open spec fn all_fit(self, events: Seq<TaggedEventView>, draws: Seq<Draws>, n: int) -> bool
        decreases n,
    {
        n <= 0 || (self.all_fit(events, draws, n - 1) && self.applied_all(
            events,
            draws,
            n - 1,
        ).draws_fit(events[n - 1], draws[n - 1]))
    }

    /// The simulation after one tick: the emit phase, then every emitted
    /// event applied in order, given what chance decided for each.
    pub open spec fn stepped(self, draws: Seq<Draws>) -> SimulationView {
        self.advanced().applied_all(self.emitted(), draws, self.emitted().len() as int)
    }

    /// Whether `draws` is a possible outcome of the draws of the next tick.
    pub open spec fn step_fits(self, draws: Seq<Draws>) -> bool {
        self.advanced().all_fit(self.emitted(), draws, self.emitted().len() as int)
    }

    /// How the fight has ended, if it has: a draw where both players are
    /// defeated, a victory where only the opponent is, a defeat where only
    /// the player is.
    pub open spec fn exit_outcome(self) -> Option<Outcome> {
        if self.player.is_dead() && self.opponent.is_dead() {
            Some(Outcome::Draw(SimulationDrawType::SimultaneousDefeat))
        } else if self.opponent.is_dead() {
            Some(Outcome::Victory)
        } else if self.player.is_dead() {
            Some(Outcome::Defeat)
        } else {
            None
        }
    }

    /// The result of a run that ends in this state.
    pub open spec fn result(self, outcome: Outcome, duration: int, events: Seq<TaggedEventView>) -> SimulationResultView {
        SimulationResultView {
            outcome,
            events,
            duration: GameTicks(duration as u64),
            player: self.player,
            opponent: self.opponent,
        }
    }

    /// The rest of a run of which `done` ticks are done and have emitted
    /// `events`: the run ends as soon as a player is defeated at the start
    /// of a tick, and in a draw by timeout after `SIMULATION_TICK_COUNT`
    /// ticks. `tape[k]` holds what chance decides in tick `k` of the run.
    pub open spec fn ran(self, tape: Seq<Seq<Draws>>, done: int, events: Seq<TaggedEventView>) -> RunView
        decreases SIMULATION_TICK_COUNT - done,
    {
        if done >= SIMULATION_TICK_COUNT {
            RunView {
                end: self,
                result: self.result(Outcome::Draw(SimulationDrawType::Timeout), done, events),
            }
        } else {
            match self.exit_outcome() {
                Some(outcome) => RunView { end: self, result: self.result(outcome, done, events) },
                None => self.stepped(tape[done]).ran(tape, done + 1, events + self.emitted()),
            }
        }
    }

    /// Whether `tape` is a possible outcome of the draws of the rest of a run.
    pub open spec fn tape_fits(self, tape: Seq<Seq<Draws>>, done: int) -> bool
        decreases SIMULATION_TICK_COUNT - done,
    {
        if done >= SIMULATION_TICK_COUNT || self.exit_outcome() is Some {
            true
        } else {
            self.step_fits(tape[done]) && self.stepped(tape[done]).tape_fits(tape, done + 1)
        }
    }

    /// A whole run from this state.
    pub open spec fn run(self, tape: Seq<Seq<Draws>>) -> RunView {
        self.ran(tape, 0, Seq::empty())
    }

    /// Whether applying `event` can lead to the simulation `next`: whether it
    /// does so for some possible outcome of the draws.
    pub open spec fn can_apply(self, event: TaggedEventView, next: SimulationView) -> bool {
        exists|draws: Draws| #[trigger] self.draws_fit(event, draws) && next == self.applied(event, draws)
    }

    /// Whether one tick can lead to the simulation `next`.
    pub open spec fn can_step(self, next: SimulationView) -> bool {
        exists|draws: Seq<Draws>| #[trigger] self.step_fits(draws) && next == self.stepped(draws)
    }

    /// Whether a whole run can leave the simulation `end` and give `result`.
    pub open spec fn can_run(self, end: SimulationView, result: SimulationResultView) -> bool {
        exists|tape: Seq<Seq<Draws>>| #[trigger]
            self.tape_fits(tape, 0) && end == self.run(tape).end && result == self.run(tape).result
    }

    /// Whether a whole run can give `result`.
    pub open spec fn can_end_in(self, result: SimulationResultView) -> bool {
        exists|tape: Seq<Seq<Draws>>| #[trigger]
            self.tape_fits(tape, 0) && result == self.run(tape).result
    }

    /// The slots that the cards of `owner` among the first `n` cards take.
    pub open spec fn taken(self, owner: PlayerTarget, n: int) -> int
        decreases n,
    {
        if n <= 0 {
            0
        } else {
            self.taken(owner, n - 1) + if self.cards[n - 1].1.owner == owner {
                self.cards[n - 1].1.inner.size.spaces()
            } else {
                0
            }
        }
    }

    /// Whether each card stands under the number of its own identifier, and
    /// no two cards under the same.
    pub open spec fn keys_are_ids(self) -> bool {
        &&& forall|i: int|
            0 <= i < self.cards.len() ==> (#[trigger] self.cards[i]).0
                == self.cards[i].1.id_for_simulation.0
        &&& forall|i: int, j: int|
            0 <= i < j < self.cards.len() ==> (#[trigger] self.cards[i]).0
                != (#[trigger] self.cards[j]).0
    }

    /// Whether the boards are laid out properly: each card stands at the
    /// first slot that the cards of its owner before it leave free, and the
    /// cards of neither player take more slots than a board has. The ranges
    /// of slots of two cards of one player then never overlap.
    pub open spec fn boards_fit(self) -> bool {
        &&& forall|i: int|
            0 <= i < self.cards.len() ==> (#[trigger] self.cards[i]).1.position == self.taken(
                self.cards[i].1.owner,
                i,
            )
        &&& self.taken(PlayerTarget::Player, self.cards.len() as int) <= NUMBER_OF_BOARD_SPACES
        &&& self.taken(PlayerTarget::Opponent, self.cards.len() as int)
            <= NUMBER_OF_BOARD_SPACES
    }

    /// Whether the simulation is one that a build gives and the engine keeps.
    pub open spec fn well_formed(self) -> bool {
        self.keys_are_ids() && self.boards_fit()
    }
}

} // verus!
