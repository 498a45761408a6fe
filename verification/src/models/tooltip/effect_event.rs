//! When an effect fires.

use crate::models::tooltip::card_target_condition::{TargetCondition, TargetConditionView};
use crate::models::tooltip::effect::{Effect, EffectView};
use crate::models::tooltip::global_event::GlobalEvent;
use vstd::prelude::*;

verus! {

/// An effect together with the occasion on which it fires.
#[derive(Debug, PartialEq, Eq)]
pub enum EffectEvent {
    OnCooldown(Effect),
    OnCardTransformed(Effect),
    OnDayStart(Effect),
    OnWinVersusHero(Effect),
    OnFightStart(Effect),
    OnCardSold(Effect),
    OnCardUsed(TargetCondition, Effect),
    OnCrit(TargetCondition, Effect),
    OnFirstTime(GlobalEvent, Effect),
    Raw(String),
}

/// What an effect event says.
pub enum EffectEventView {
    OnCooldown(EffectView),
    OnCardTransformed(EffectView),
    OnDayStart(EffectView),
    OnWinVersusHero(EffectView),
    OnFightStart(EffectView),
    OnCardSold(EffectView),
    OnCardUsed(TargetConditionView, EffectView),
    OnCrit(TargetConditionView, EffectView),
    OnFirstTime(GlobalEvent, EffectView),
    Raw(Seq<char>),
}

impl View for EffectEvent {
    type V = EffectEventView;

    open spec fn view(&self) -> EffectEventView {
        match *self {
            EffectEvent::OnCooldown(effect) => EffectEventView::OnCooldown(effect@),
            EffectEvent::OnCardTransformed(effect) => EffectEventView::OnCardTransformed(effect@),
            EffectEvent::OnDayStart(effect) => EffectEventView::OnDayStart(effect@),
            EffectEvent::OnWinVersusHero(effect) => EffectEventView::OnWinVersusHero(effect@),
            EffectEvent::OnFightStart(effect) => EffectEventView::OnFightStart(effect@),
            EffectEvent::OnCardSold(effect) => EffectEventView::OnCardSold(effect@),
            EffectEvent::OnCardUsed(condition, effect) => EffectEventView::OnCardUsed(
                condition@,
                effect@,
            ),
            EffectEvent::OnCrit(condition, effect) => EffectEventView::OnCrit(condition@, effect@),
            EffectEvent::OnFirstTime(event, effect) => EffectEventView::OnFirstTime(event, effect@),
            EffectEvent::Raw(text) => EffectEventView::Raw(text@),
        }
    }
}

impl Clone for EffectEvent {
    fn clone(&self) -> (copy: Self)
        ensures
            copy == *self,
    {
        match self {
            EffectEvent::OnCooldown(effect) => EffectEvent::OnCooldown(effect.clone()),
            EffectEvent::OnCardTransformed(effect) => EffectEvent::OnCardTransformed(
                effect.clone(),
            ),
            EffectEvent::OnDayStart(effect) => EffectEvent::OnDayStart(effect.clone()),
            EffectEvent::OnWinVersusHero(effect) => EffectEvent::OnWinVersusHero(effect.clone()),
            EffectEvent::OnFightStart(effect) => EffectEvent::OnFightStart(effect.clone()),
            EffectEvent::OnCardSold(effect) => EffectEvent::OnCardSold(effect.clone()),
            EffectEvent::OnCardUsed(condition, effect) => EffectEvent::OnCardUsed(
                condition.clone(),
                effect.clone(),
            ),
            EffectEvent::OnCrit(condition, effect) => EffectEvent::OnCrit(
                condition.clone(),
                effect.clone(),
            ),
            EffectEvent::OnFirstTime(event, effect) => EffectEvent::OnFirstTime(
                *event,
                effect.clone(),
            ),
            EffectEvent::Raw(text) => EffectEvent::Raw(text.clone()),
        }
    }
}

} // verus!
