//! One line of an item's rules text, in structured form.

use crate::models::tooltip::condition::Condition;
use crate::models::tooltip::effect_event::{EffectEvent, EffectEventView};
use crate::models::tooltip::modifier::Modifier;
use vstd::prelude::*;

verus! {

/// One line of an item's rules text.
#[derive(Debug, PartialEq, Eq)]
pub enum Tooltip {
    Conditional(Condition, Box<Tooltip>),
    When(EffectEvent),
    StaticModifier(Modifier),
    ConditionalModifier(Condition, Modifier),
    SellsForGold,
    /// Text that was not understood. The engine ignores it.
    Raw(String),
}

/// What a tooltip says.
pub enum TooltipView {
    Conditional(Condition, Box<TooltipView>),
    When(EffectEventView),
    StaticModifier(Modifier),
    ConditionalModifier(Condition, Modifier),
    SellsForGold,
    Raw(Seq<char>),
}

impl View for Tooltip {
    type V = TooltipView;

    open spec fn view(&self) -> TooltipView {
        self.said()
    }
}

impl Tooltip {
    /// What the tooltip says.
    pub open spec fn said(self) -> TooltipView
        decreases self,
    {
        match self {
            Tooltip::Conditional(condition, tooltip) => TooltipView::Conditional(
                condition,
                Box::new(tooltip.said()),
            ),
            Tooltip::When(event) => TooltipView::When(event@),
            Tooltip::StaticModifier(modifier) => TooltipView::StaticModifier(modifier),
            Tooltip::ConditionalModifier(condition, modifier) => TooltipView::ConditionalModifier(
                condition,
                modifier,
            ),
            Tooltip::SellsForGold => TooltipView::SellsForGold,
            Tooltip::Raw(text) => TooltipView::Raw(text@),
        }
    }
}

impl Clone for Tooltip {
    fn clone(&self) -> (copy: Self)
        ensures
            copy == *self,
        decreases self,
    {
        match self {
            Tooltip::Conditional(condition, tooltip) => Tooltip::Conditional(
                *condition,
                Box::new((&**tooltip).clone()),
            ),
            Tooltip::When(event) => Tooltip::When(event.clone()),
            Tooltip::StaticModifier(modifier) => Tooltip::StaticModifier(*modifier),
            Tooltip::ConditionalModifier(condition, modifier) => Tooltip::ConditionalModifier(
                *condition,
                *modifier,
            ),
            Tooltip::SellsForGold => Tooltip::SellsForGold,
            Tooltip::Raw(text) => Tooltip::Raw(text.clone()),
        }
    }
}

} // verus!
