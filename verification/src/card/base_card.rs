//! The card state machine.

use crate::arith::{add_u32, clamp_u32, clamp_u64};
use crate::card::id::GlobalCardId;
use crate::combat_event::{event_views, CombatEvent, CombatEventView, SkipReason};
use crate::models::card::Card as CardDefinition;
use crate::models::data::Percentage;
use crate::models::tier::Tier;
use crate::models::tooltip::base::Tooltip;
use crate::models::tooltip::card_target_condition::TargetCondition;
use crate::models::tooltip::effect::Effect;
use crate::models::tooltip::modifier::Modifier;
use crate::models::tooltip::player_target::PlayerTarget;
use crate::shared::share;
use crate::text::{contains, lowercase, occurs_in, to_lowercase};
use crate::tick::{millis_to_ticks, GameTicks};
use std::sync::Arc;
use vstd::prelude::*;

verus! {

/// A card on the board of a running simulation.
#[derive(Debug, PartialEq, Eq)]
pub struct Card {
    pub id_for_simulation: GlobalCardId,
    /// The definition the card was built from.
    pub inner: CardDefinition,
    pub tier: Tier,
    /// The effects that fire each time the cooldown elapses, in order.
    pub cooldown_effects: Arc<Vec<Effect>>,
    /// The card's clock, in half ticks.
    pub cooldown_counter: u128,
    pub freeze_ticks: GameTicks,
    pub slow_ticks: GameTicks,
    pub haste_ticks: GameTicks,
    /// The first board slot the card occupies.
    pub position: u8,
    pub owner: PlayerTarget,
    /// The cooldown in ticks; zero for a card that never fires.
    pub cooldown: GameTicks,
    /// The tooltips added by enchantments and other modifications.
    pub modification_tooltips: Arc<Vec<Tooltip>>,
}

impl Clone for Card {
    fn clone(&self) -> (copy: Self)
        ensures
            copy == *self,
    {
        Card {
            id_for_simulation: self.id_for_simulation,
            inner: self.inner.clone(),
            tier: self.tier,
            cooldown_effects: share(&self.cooldown_effects),
            cooldown_counter: self.cooldown_counter,
            freeze_ticks: self.freeze_ticks,
            slow_ticks: self.slow_ticks,
            haste_ticks: self.haste_ticks,
            position: self.position,
            owner: self.owner,
            cooldown: self.cooldown,
            modification_tooltips: share(&self.modification_tooltips),
        }
    }
}

/// What a card is: the fields of `Card`, with its lists as sequences.
pub struct CardView {
    pub id_for_simulation: GlobalCardId,
    pub inner: CardDefinition,
    pub tier: Tier,
    pub cooldown_effects: Seq<Effect>,
    pub cooldown_counter: u128,
    pub freeze_ticks: GameTicks,
    pub slow_ticks: GameTicks,
    pub haste_ticks: GameTicks,
    pub position: u8,
    pub owner: PlayerTarget,
    pub cooldown: GameTicks,
    pub modification_tooltips: Seq<Tooltip>,
}

impl View for Card {
    type V = CardView;

    open spec fn view(&self) -> CardView {
        CardView {
            id_for_simulation: self.id_for_simulation,
            inner: self.inner,
            tier: self.tier,
            cooldown_effects: self.cooldown_effects@,
            cooldown_counter: self.cooldown_counter,
            freeze_ticks: self.freeze_ticks,
            slow_ticks: self.slow_ticks,
            haste_ticks: self.haste_ticks,
            position: self.position,
            owner: self.owner,
            cooldown: self.cooldown,
            modification_tooltips: self.modification_tooltips@,
        }
    }
}

/// The most the clock of a card advances in one tick, in half ticks.
pub const MAX_COOLDOWN_INCREMENT: u128 = 4;

/// `events` repeated `times` times.
pub open spec fn repeated(events: Seq<CombatEventView>, times: int) -> Seq<CombatEventView>
    decreases times,
{
    if times <= 0 {
        Seq::empty()
    } else {
        repeated(events, times - 1) + events
    }
}

/// Whether the tooltips hold the modifier that makes a card radiant.
pub open spec fn has_radiant(tooltips: Seq<Tooltip>) -> bool {
    exists|i: int|
        0 <= i < tooltips.len() && #[trigger] tooltips[i] == Tooltip::StaticModifier(
            Modifier::Radiant,
        )
}

/// The sum of the crit chances among the tooltips, in basis points.
pub open spec fn crit_total(tooltips: Seq<Tooltip>) -> int
    decreases tooltips.len(),
{
    if tooltips.len() == 0 {
        0
    } else {
        crit_total(tooltips.drop_last()) + match tooltips.last() {
            Tooltip::StaticModifier(Modifier::CritChance(chance)) => chance.0 as int,
            _ => 0,
        }
    }
}

/// The sum of the value increases among the tooltips.
pub open spec fn value_bonus(tooltips: Seq<Tooltip>) -> int
    decreases tooltips.len(),
{
    if tooltips.len() == 0 {
        0
    } else {
        value_bonus(tooltips.drop_last()) + match tooltips.last() {
            Tooltip::StaticModifier(Modifier::IncreasedValue(value)) => value as int,
            _ => 0,
        }
    }
}

impl CardView {
    /// The tooltips of the definition at the card's tier.
    pub open spec fn tier_tooltips(self) -> Seq<Tooltip> {
        self.tier.selected(self.inner.tiers)@
    }

    /// Whether the card cannot be frozen, slowed or destroyed.
    pub open spec fn radiant(self) -> bool {
        has_radiant(self.modification_tooltips)
    }

    /// Whether the card is frozen at the start of a tick.
    pub open spec fn frozen(self) -> bool {
        self.freeze_ticks.0 > 0
    }

    /// The ticks of a status left after a tick has taken one of them.
    pub open spec fn left(ticks: GameTicks) -> GameTicks {
        if ticks.0 > 0 {
            GameTicks((ticks.0 - 1) as u64)
        } else {
            GameTicks(0)
        }
    }

    /// What the clock advances by in a tick that starts in this state. The
    /// tick first takes one tick from haste and from slow; a status is
    /// active if ticks of it are left after that. The clock advances by 2
    /// half ticks, by 1 while only slow is active, by 4 while only haste is.
    pub open spec fn increment(self) -> int {
        let slow = Self::left(self.slow_ticks).0 > 0;
        let haste = Self::left(self.haste_ticks).0 > 0;
        if slow && !haste {
            1
        } else if haste && !slow {
            4
        } else {
            2
        }
    }

    /// The cooldown in half ticks.
    pub open spec fn threshold(self) -> int {
        self.cooldown.0 * 2
    }

    /// How often the card fires in a tick that starts in this state.
    pub open spec fn firings(self) -> int {
        if self.frozen() || self.cooldown.0 == 0 {
            0
        } else {
            self.cooldown_counter as int / self.threshold()
        }
    }

    /// The combat event that an effect of this card becomes.
    pub open spec fn lowered(self, effect: Effect) -> CombatEventView {
        let id = self.id_for_simulation;
        match effect {
            Effect::DealDamage(target, value) => CombatEventView::DealDamage(target, value, id),
            Effect::Burn(target, value) => CombatEventView::ApplyBurn(target, value, id),
            Effect::Poison(target, value) => CombatEventView::ApplyPoison(target, value, id),
            Effect::Heal(target, value) => CombatEventView::Heal(target, value, id),
            Effect::Shield(target, value) => CombatEventView::ApplyShield(target, value, id),
            Effect::Regen(target, value) => CombatEventView::Regen(target, value, id),
            Effect::Freeze(target, millis) => CombatEventView::Freeze(
                target,
                GameTicks(millis_to_ticks(millis as int) as u64),
                id,
            ),
            Effect::Slow(target, millis) => CombatEventView::Slow(
                target,
                GameTicks(millis_to_ticks(millis as int) as u64),
                id,
            ),
            Effect::Haste(target, millis) => CombatEventView::Haste(
                target,
                GameTicks(millis_to_ticks(millis as int) as u64),
                id,
            ),
            other => CombatEventView::Raw(other.label_text()),
        }
    }

    /// The events of one firing: each cooldown effect, in order, as a combat event.
    pub open spec fn volley(self) -> Seq<CombatEventView> {
        Seq::new(self.cooldown_effects.len(), |i: int| self.lowered(self.cooldown_effects[i]))
    }

    /// The events the card emits in a tick that starts in this state.
    pub open spec fn tick_events(self) -> Seq<CombatEventView> {
        if self.frozen() {
            seq![CombatEventView::Skip(SkipReason::IsFrozen)]
        } else {
            repeated(self.volley(), self.firings())
        }
    }

    /// The clock after a tick that starts in this state.
    pub open spec fn next_counter(self) -> int {
        let rest = if self.cooldown.0 > 0 {
            self.cooldown_counter as int % self.threshold()
        } else {
            self.cooldown_counter as int
        };
        if rest + self.increment() > u128::MAX {
            u128::MAX as int
        } else {
            rest + self.increment()
        }
    }

    /// The card after a tick that starts in this state. A frozen card only
    /// thaws by one tick. Any other card loses one tick of haste and of slow,
    /// gives up one cooldown for each firing, and advances its clock.
    pub open spec fn ticked(self) -> CardView {
        if self.frozen() {
            CardView { freeze_ticks: GameTicks((self.freeze_ticks.0 - 1) as u64), ..self }
        } else {
            CardView {
                haste_ticks: Self::left(self.haste_ticks),
                slow_ticks: Self::left(self.slow_ticks),
                cooldown_counter: self.next_counter() as u128,
                ..self
            }
        }
    }

    /// The card with its freeze prolonged by `duration`.
    pub open spec fn with_freeze(self, duration: GameTicks) -> CardView {
        CardView { freeze_ticks: GameTicks(clamp_u64(self.freeze_ticks.0 + duration.0) as u64), ..self }
    }

    /// The card with its slow prolonged by `duration`.
    pub open spec fn with_slow(self, duration: GameTicks) -> CardView {
        CardView { slow_ticks: GameTicks(clamp_u64(self.slow_ticks.0 + duration.0) as u64), ..self }
    }

    /// The card with its haste prolonged by `duration`.
    pub open spec fn with_haste(self, duration: GameTicks) -> CardView {
        CardView { haste_ticks: GameTicks(clamp_u64(self.haste_ticks.0 + duration.0) as u64), ..self }
    }

    /// Whether `candidate` satisfies `condition` from the point of view of
    /// this card. Predicates on a card's own properties (cooldown, tag, size)
    /// speak of the candidate, and of this card where no candidate is given.
    pub open spec fn matching(self, condition: TargetCondition, candidate: Option<CardView>) -> bool
        decreases condition,
    {
        let subject = match candidate {
            Some(card) => card,
            None => self,
        };
        match condition {
            TargetCondition::Always => true,
            TargetCondition::Never => false,
            TargetCondition::HasCooldown => subject.cooldown.0 > 0,
            TargetCondition::Adjacent => candidate matches Some(card) && self.owner == card.owner
                && (self.position - card.position == 1 || card.position - self.position == 1),
            TargetCondition::IsSelf => candidate matches Some(card) && self.id_for_simulation
                == card.id_for_simulation,
            TargetCondition::HasOwner(owner) => candidate matches Some(card) && (match self.owner {
                PlayerTarget::Player => card.owner == owner,
                PlayerTarget::Opponent => card.owner.inverted() == owner,
            }),
            TargetCondition::HasTag(tag) => subject.inner.tags@.contains(tag),
            TargetCondition::HasSize(size) => subject.inner.size == size,
            TargetCondition::And(a, b) => self.matching(*a, candidate) && self.matching(
                *b,
                candidate,
            ),
            TargetCondition::Or(a, b) => self.matching(*a, candidate) || self.matching(
                *b,
                candidate,
            ),
            TargetCondition::Not(a) => !self.matching(*a, candidate),
            TargetCondition::Raw(_) => false,
            TargetCondition::NameIncludes(text) => candidate matches Some(card) && occurs_in(
                lowercase(text@),
                lowercase(card.inner.name@),
            ),
        }
    }

    /// The gold value of the card: the base cost of its size scaled to its
    /// tier, plus the value increases among its tier tooltips.
    pub open spec fn cost(self) -> int {
        clamp_u32(
            clamp_u32(self.tier.scaled(self.inner.size.base_value())) + clamp_u32(
                value_bonus(self.tier_tooltips()),
            ),
        )
    }

    /// The crit chance of the card in basis points: the sum of the crit
    /// chances among its tier tooltips.
    pub open spec fn crit_chance(self) -> int {
        clamp_u32(crit_total(self.tier_tooltips()))
    }

}

impl Card {
    /// Advances the card by one tick and returns the events it emits.
    pub fn tick(&mut self) -> (events: Vec<CombatEvent>)
        ensures
            final(self)@ == old(self)@.ticked(),
            event_views(events@) == old(self)@.tick_events(),
            final(self).freeze_ticks.0 <= old(self).freeze_ticks.0,
            final(self).slow_ticks.0 <= old(self).slow_ticks.0,
            final(self).haste_ticks.0 <= old(self).haste_ticks.0,
            old(self).cooldown.0 == 0 && !old(self)@.frozen() ==> events@.len() == 0,
            old(self).cooldown.0 > 0 && !old(self)@.frozen() ==> final(self).cooldown_counter
                < old(self)@.threshold() + MAX_COOLDOWN_INCREMENT,
    {
        if self.freeze_ticks.0 > 0 {
            self.freeze_ticks.0 = self.freeze_ticks.0 - 1;
            let mut events: Vec<CombatEvent> = Vec::new();
            events.push(CombatEvent::Skip(SkipReason::IsFrozen));
            assert(event_views(events@) =~= old(self)@.tick_events());
            return events;
        }
        if self.haste_ticks.0 > 0 {
            self.haste_ticks.0 = self.haste_ticks.0 - 1;
        }
        if self.slow_ticks.0 > 0 {
            self.slow_ticks.0 = self.slow_ticks.0 - 1;
        }
        let cooldown_increment: u128 = if self.slow_ticks.0 > 0 && self.haste_ticks.0 == 0 {
            1
        } else if self.haste_ticks.0 > 0 && self.slow_ticks.0 == 0 {
            4
        } else {
            2
        };
        let mut events: Vec<CombatEvent> = Vec::new();
        if self.cooldown.0 > 0 {
            let threshold: u128 = self.cooldown.0 as u128 * 2;
            let ghost fired: int = 0;
            assert(event_views(events@) =~= repeated(old(self)@.volley(), 0));
            while self.cooldown_counter >= threshold
                invariant
                    threshold == old(self)@.threshold(),
                    threshold > 0,
                    fired >= 0,
                    self.cooldown_counter == old(self).cooldown_counter - fired * threshold,
                    event_views(events@) == repeated(old(self)@.volley(), fired),
                    self@ == (CardView {
                        cooldown_counter: self.cooldown_counter,
                        haste_ticks: old(self)@.ticked().haste_ticks,
                        slow_ticks: old(self)@.ticked().slow_ticks,
                        ..old(self)@
                    }),
                decreases self.cooldown_counter,
            {
                self.cooldown_counter = self.cooldown_counter - threshold;
                let ghost before = events@;
                let mut i: usize = 0;
                while i < self.cooldown_effects.len()
                    invariant
                        i <= self.cooldown_effects@.len(),
                        self.cooldown_effects@ == old(self).cooldown_effects@,
                        self.id_for_simulation == old(self).id_for_simulation,
                        event_views(events@) == event_views(before) + old(self)@.volley().take(
                            i as int,
                        ),
                    decreases self.cooldown_effects@.len() - i,
                {
                    let mut lowered = self.effect_to_combat_events(&self.cooldown_effects[i]);
                    let ghost so_far = events@;
                    events.append(&mut lowered);
                    assert(event_views(events@) =~= event_views(so_far) + seq![
                        old(self)@.volley()[i as int],
                    ]);
                    assert(old(self)@.volley().take(i as int + 1) =~= old(self)@.volley().take(
                        i as int,
                    ) + seq![old(self)@.volley()[i as int]]);
                    i = i + 1;
                }
                assert(old(self)@.volley().take(i as int) =~= old(self)@.volley());
                proof {
                    assert((fired + 1) * threshold == fired * threshold + threshold)
                        by (nonlinear_arith);
                    fired = fired + 1;
                }
            }
            proof {
                let counter = old(self).cooldown_counter as int;
                let t = threshold as int;
                assert(counter / t == fired && counter % t == self.cooldown_counter) by {
                    vstd::arithmetic::div_mod::lemma_fundamental_div_mod_converse(
                        counter,
                        t,
                        fired,
                        self.cooldown_counter as int,
                    );
                }
            }
        } else {
            assert(event_views(events@) =~= old(self)@.tick_events());
        }
        self.cooldown_counter = if self.cooldown_counter > u128::MAX - cooldown_increment {
            u128::MAX
        } else {
            self.cooldown_counter + cooldown_increment
        };
        events
    }

    /// The gold value of the card.
    pub fn compute_cost(&self) -> (cost: u32)
        ensures
            cost == self@.cost(),
    {
        let base_cost = self.tier.scale_cost(self.inner.size.base_cost());
        let tooltips = self.tier.select(&self.inner.tiers);
        let mut bonus: u32 = 0;
        let mut i: usize = 0;
        while i < tooltips.len()
            invariant
                i <= tooltips@.len(),
                bonus == clamp_u32(value_bonus(tooltips@.take(i as int))),
                value_bonus(tooltips@.take(i as int)) >= 0,
            decreases tooltips@.len() - i,
        {
            assert(tooltips@.take(i as int + 1).drop_last() =~= tooltips@.take(i as int));
            match &tooltips[i] {
                Tooltip::StaticModifier(Modifier::IncreasedValue(value)) => {
                    bonus = add_u32(bonus, *value);
                },
                _ => {},
            }
            i = i + 1;
        }
        assert(tooltips@.take(i as int) =~= tooltips@);
        add_u32(base_cost, bonus)
    }

    /// Prolongs the freeze of the card by `duration`.
    pub fn freeze(&mut self, duration: GameTicks)
        ensures
            final(self)@ == old(self)@.with_freeze(duration),
    {
        self.freeze_ticks = self.freeze_ticks.saturating_add(duration);
    }

    /// Prolongs the slow of the card by `duration`.
    pub fn slow(&mut self, duration: GameTicks)
        ensures
            final(self)@ == old(self)@.with_slow(duration),
    {
        self.slow_ticks = self.slow_ticks.saturating_add(duration);
    }

    /// Prolongs the haste of the card by `duration`.
    pub fn haste(&mut self, duration: GameTicks)
        ensures
            final(self)@ == old(self)@.with_haste(duration),
    {
        self.haste_ticks = self.haste_ticks.saturating_add(duration);
    }

    /// Whether the card cannot be frozen, slowed or destroyed.
    pub fn is_radiant(&self) -> (radiant: bool)
        ensures
            radiant == self@.radiant(),
    {
        let mut i: usize = 0;
        while i < self.modification_tooltips.len()
            invariant
                i <= self.modification_tooltips@.len(),
                forall|j: int|
                    0 <= j < i ==> self.modification_tooltips@[j] != Tooltip::StaticModifier(
                        Modifier::Radiant,
                    ),
            decreases self.modification_tooltips@.len() - i,
        {
            match &self.modification_tooltips[i] {
                Tooltip::StaticModifier(Modifier::Radiant) => {
                    return true;
                },
                _ => {},
            }
            i = i + 1;
        }
        false
    }

    /// Whether `target_candidate` satisfies `condition` from the point of
    /// view of this card.
    pub fn matches(&self, condition: &TargetCondition, target_candidate: Option<&Card>) -> (holds:
        bool)
        ensures
            holds == self@.matching(
                *condition,
                match target_candidate {
                    Some(card) => Some(card@),
                    None => None,
                },
            ),
        decreases condition,
    {
        let subject: &Card = match target_candidate {
            Some(card) => card,
            None => self,
        };
        match condition {
            TargetCondition::Always => true,
            TargetCondition::Never => false,
            TargetCondition::HasCooldown => subject.cooldown.0 > 0,
            TargetCondition::Adjacent => match target_candidate {
                Some(card) => self.owner == card.owner && (self.position as i32
                    - card.position as i32 == 1 || card.position as i32 - self.position as i32
                    == 1),
                None => false,
            },
            TargetCondition::IsSelf => match target_candidate {
                Some(card) => self.id_for_simulation == card.id_for_simulation,
                None => false,
            },
            TargetCondition::HasOwner(condition_owner) => match target_candidate {
                Some(card) => match self.owner {
                    PlayerTarget::Player => card.owner == *condition_owner,
                    PlayerTarget::Opponent => card.owner.inverse() == *condition_owner,
                },
                None => false,
            },
            TargetCondition::HasTag(tag) => {
                let tags = &subject.inner.tags;
                let mut i: usize = 0;
                let mut found = false;
                while i < tags.len() && !found
                    invariant
                        i <= tags@.len(),
                        found ==> tags@.contains(*tag),
                        !found ==> forall|j: int| 0 <= j < i ==> tags@[j] != *tag,
                    decreases tags@.len() - i + if found { 0int } else { 1int },
                {
                    if tags[i] == *tag {
                        found = true;
                    } else {
                        i = i + 1;
                    }
                }
                found
            },
            TargetCondition::HasSize(size) => subject.inner.size == *size,
            TargetCondition::And(a, b) => self.matches(a, target_candidate) && self.matches(
                b,
                target_candidate,
            ),
            TargetCondition::Or(a, b) => self.matches(a, target_candidate) || self.matches(
                b,
                target_candidate,
            ),
            TargetCondition::Not(a) => !self.matches(a, target_candidate),
            TargetCondition::Raw(_) => false,
            TargetCondition::NameIncludes(text) => match target_candidate {
                Some(card) => {
                    let name = to_lowercase(card.inner.name.as_str());
                    let needle = to_lowercase(text.as_str());
                    contains(name.as_str(), needle.as_str())
                },
                None => false,
            },
        }
    }

    /// The crit chance of the card.
    pub fn compute_crit_chance(&self) -> (chance: Percentage)
        ensures
            chance.0 == self@.crit_chance(),
    {
        let tooltips = self.tier.select(&self.inner.tiers);
        let mut total: u32 = 0;
        let mut i: usize = 0;
        while i < tooltips.len()
            invariant
                i <= tooltips@.len(),
                total == clamp_u32(crit_total(tooltips@.take(i as int))),
                crit_total(tooltips@.take(i as int)) >= 0,
            decreases tooltips@.len() - i,
        {
            assert(tooltips@.take(i as int + 1).drop_last() =~= tooltips@.take(i as int));
            match &tooltips[i] {
                Tooltip::StaticModifier(Modifier::CritChance(chance)) => {
                    total = add_u32(total, chance.0);
                },
                _ => {},
            }
            i = i + 1;
        }
        assert(tooltips@.take(i as int) =~= tooltips@);
        Percentage(total)
    }

    /// Turns an effect of this card into the combat events that carry it
    /// out. Durations become whole ticks, rounded down. An effect the engine
    /// does not model becomes one raw event that holds its label.
    pub fn effect_to_combat_events(&self, value: &Effect) -> (events: Vec<CombatEvent>)
        ensures
            event_views(events@) == seq![self@.lowered(*value)],
    {
        let id = self.id_for_simulation;
        let event = match value {
            Effect::DealDamage(target, damage) => CombatEvent::DealDamage(
                *target,
                damage.clone(),
                id,
            ),
            Effect::Burn(target, burn) => CombatEvent::ApplyBurn(*target, burn.clone(), id),
            Effect::Poison(target, poison) => CombatEvent::ApplyPoison(*target, poison.clone(), id),
            Effect::Heal(target, heal) => CombatEvent::Heal(*target, heal.clone(), id),
            Effect::Shield(target, shield) => CombatEvent::ApplyShield(*target, shield.clone(), id),
            Effect::Regen(target, regen) => CombatEvent::Regen(*target, regen.clone(), id),
            Effect::Freeze(target, millis) => CombatEvent::Freeze(
                target.clone(),
                GameTicks::from_millis(*millis),
                id,
            ),
            Effect::Slow(target, millis) => CombatEvent::Slow(
                target.clone(),
                GameTicks::from_millis(*millis),
                id,
            ),
            Effect::Haste(target, millis) => CombatEvent::Haste(
                target.clone(),
                GameTicks::from_millis(*millis),
                id,
            ),
            other => CombatEvent::Raw(other.label()),
        };
        let mut events: Vec<CombatEvent> = Vec::new();
        events.push(event);
        assert(event_views(events@) =~= seq![self@.lowered(*value)]);
        events
    }
}

} // verus!
