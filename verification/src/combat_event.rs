//! The events that cards emit during a tick and the simulation then applies.

use crate::card::id::GlobalCardId;
use crate::models::tooltip::card_target::CardTarget;
use crate::models::tooltip::effect::DerivedValue;
use crate::models::tooltip::player_target::PlayerTarget;
use crate::tick::GameTicks;
use vstd::prelude::*;

verus! {

/// Why a card emitted nothing this tick.
#[derive(Clone, Copy, Debug, PartialEq, Eq, Structural)]
pub enum SkipReason {
    IsFrozen,
}

/// An event emitted by a card, carrying the identifier of that card.
#[derive(Debug, PartialEq, Eq)]
pub enum CombatEvent {
    /// An effect the engine does not model; applying it changes nothing.
    Raw(String),
    Skip(SkipReason),
    DealDamage(PlayerTarget, DerivedValue<u32>, GlobalCardId),
    ApplyBurn(PlayerTarget, DerivedValue<u32>, GlobalCardId),
    ApplyPoison(PlayerTarget, DerivedValue<u32>, GlobalCardId),
    ApplyShield(PlayerTarget, DerivedValue<u32>, GlobalCardId),
    Heal(PlayerTarget, DerivedValue<u32>, GlobalCardId),
    Regen(PlayerTarget, DerivedValue<u32>, GlobalCardId),
    Freeze(CardTarget, GameTicks, GlobalCardId),
    Slow(CardTarget, GameTicks, GlobalCardId),
    Haste(CardTarget, GameTicks, GlobalCardId),
    /// The sentinel that closes the events of tick number `.0`.
    Tick(u64),
}

impl Clone for CombatEvent {
    fn clone(&self) -> (copy: Self)
        ensures
            copy == *self,
    {
        match self {
            CombatEvent::Raw(text) => CombatEvent::Raw(text.clone()),
            CombatEvent::Skip(reason) => CombatEvent::Skip(*reason),
            CombatEvent::DealDamage(target, value, source) => CombatEvent::DealDamage(
                *target,
                value.clone(),
                *source,
            ),
            CombatEvent::ApplyBurn(target, value, source) => CombatEvent::ApplyBurn(
                *target,
                value.clone(),
                *source,
            ),
            CombatEvent::ApplyPoison(target, value, source) => CombatEvent::ApplyPoison(
                *target,
                value.clone(),
                *source,
            ),
            CombatEvent::ApplyShield(target, value, source) => CombatEvent::ApplyShield(
                *target,
                value.clone(),
                *source,
            ),
            CombatEvent::Heal(target, value, source) => CombatEvent::Heal(
                *target,
                value.clone(),
                *source,
            ),
            CombatEvent::Regen(target, value, source) => CombatEvent::Regen(
                *target,
                value.clone(),
                *source,
            ),
            CombatEvent::Freeze(target, duration, source) => CombatEvent::Freeze(
                target.clone(),
                *duration,
                *source,
            ),
            CombatEvent::Slow(target, duration, source) => CombatEvent::Slow(
                target.clone(),
                *duration,
                *source,
            ),
            CombatEvent::Haste(target, duration, source) => CombatEvent::Haste(
                target.clone(),
                *duration,
                *source,
            ),
            CombatEvent::Tick(number) => CombatEvent::Tick(*number),
        }
    }
}

/// What a combat event says, with its text as a sequence of characters.
pub enum CombatEventView {
    Raw(Seq<char>),
    Skip(SkipReason),
    DealDamage(PlayerTarget, DerivedValue<u32>, GlobalCardId),
    ApplyBurn(PlayerTarget, DerivedValue<u32>, GlobalCardId),
    ApplyPoison(PlayerTarget, DerivedValue<u32>, GlobalCardId),
    ApplyShield(PlayerTarget, DerivedValue<u32>, GlobalCardId),
    Heal(PlayerTarget, DerivedValue<u32>, GlobalCardId),
    Regen(PlayerTarget, DerivedValue<u32>, GlobalCardId),
    Freeze(CardTarget, GameTicks, GlobalCardId),
    Slow(CardTarget, GameTicks, GlobalCardId),
    Haste(CardTarget, GameTicks, GlobalCardId),
    Tick(u64),
}

impl View for CombatEvent {
    type V = CombatEventView;

    open spec fn view(&self) -> CombatEventView {
        match *self {
            CombatEvent::Raw(text) => CombatEventView::Raw(text@),
            CombatEvent::Skip(reason) => CombatEventView::Skip(reason),
            CombatEvent::DealDamage(t, v, s) => CombatEventView::DealDamage(t, v, s),
            CombatEvent::ApplyBurn(t, v, s) => CombatEventView::ApplyBurn(t, v, s),
            CombatEvent::ApplyPoison(t, v, s) => CombatEventView::ApplyPoison(t, v, s),
            CombatEvent::ApplyShield(t, v, s) => CombatEventView::ApplyShield(t, v, s),
            CombatEvent::Heal(t, v, s) => CombatEventView::Heal(t, v, s),
            CombatEvent::Regen(t, v, s) => CombatEventView::Regen(t, v, s),
            CombatEvent::Freeze(t, d, s) => CombatEventView::Freeze(t, d, s),
            CombatEvent::Slow(t, d, s) => CombatEventView::Slow(t, d, s),
            CombatEvent::Haste(t, d, s) => CombatEventView::Haste(t, d, s),
            CombatEvent::Tick(number) => CombatEventView::Tick(number),
        }
    }
}

/// What each event of a list says, in order.
pub open spec fn event_views(events: Seq<CombatEvent>) -> Seq<CombatEventView> {
    Seq::new(events.len(), |i: int| events[i]@)
}

/// A combat event tagged with the owner of the card that emitted it.
#[derive(Debug, PartialEq, Eq)]
pub struct TaggedCombatEvent(pub PlayerTarget, pub CombatEvent);

/// What a tagged combat event says.
pub struct TaggedEventView {
    pub owner: PlayerTarget,
    pub event: CombatEventView,
}

impl View for TaggedCombatEvent {
    type V = TaggedEventView;

    open spec fn view(&self) -> TaggedEventView {
        TaggedEventView { owner: self.0, event: self.1@ }
    }
}

/// What each tagged event of a list says, in order.
pub open spec fn tagged_views(events: Seq<TaggedCombatEvent>) -> Seq<TaggedEventView> {
    Seq::new(events.len(), |i: int| events[i]@)
}

/// The events of `events`, each tagged with `owner`.
pub open spec fn tagged_with(owner: PlayerTarget, events: Seq<CombatEventView>) -> Seq<
    TaggedEventView,
> {
    Seq::new(events.len(), |i: int| TaggedEventView { owner, event: events[i] })
}

impl Clone for TaggedCombatEvent {
    fn clone(&self) -> (copy: Self)
        ensures
            copy == *self,
    {
        TaggedCombatEvent(self.0, self.1.clone())
    }
}

impl TaggedEventView {
    /// Whether the event is the sentinel that closes a tick.
    pub open spec fn is_tick(self) -> bool {
        self.event is Tick
    }
}

} // verus!
