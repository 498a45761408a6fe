//! What a simulation reports to the outside while it runs.

use crate::card::base_card::{Card, CardView};
use crate::card::id::GlobalCardId;
use crate::models::tooltip::player_target::PlayerTarget;
use crate::tick::GameTicks;
use crate::text::owned;
use vstd::prelude::*;

verus! {

/// What identifies a card to a reader of the reports.
#[derive(Debug, PartialEq, Eq)]
pub struct CardSummary {
    pub id: GlobalCardId,
    pub name: String,
    pub owner: PlayerTarget,
}

impl Clone for CardSummary {
    fn clone(&self) -> (copy: Self)
        ensures
            copy == *self,
    {
        CardSummary { id: self.id, name: self.name.clone(), owner: self.owner }
    }
}

impl CardSummary {
    /// The summary of a card.
    pub open spec fn of(card: CardView) -> CardSummary {
        CardSummary { id: card.id_for_simulation, name: card.inner.name, owner: card.owner }
    }

    /// The summary in words: `Card<id=.., name=.., owner=..>`.
    pub open spec fn described(self) -> Seq<char> {
        "Card<id="@ + self.id.described() + ", name="@ + self.name@ + ", owner="@
            + self.owner.source_text() + ">"@
    }

    /// The summary in words.
    pub fn describe(&self) -> (text: String)
        ensures
            text@ == self.described(),
    {
        owned("Card<id=").concat(self.id.describe().as_str()).concat(", name=").concat(
            self.name.as_str(),
        ).concat(", owner=").concat(self.owner.to_source().as_str()).concat(">")
    }

    /// The summary of a card.
    pub fn from(card: &Card) -> (summary: CardSummary)
        ensures
            summary == CardSummary::of(card@),
    {
        CardSummary {
            id: card.id_for_simulation,
            name: card.inner.name.clone(),
            owner: card.owner,
        }
    }
}

/// A report of the simulation: a message, or a change of status of a card.
#[derive(Debug, PartialEq, Eq)]
pub enum DispatchableEvent {
    Log(String),
    Error(String),
    Warning(String),
    Tick,
    CardFrozen(CardSummary, GameTicks),
    CardHasted(CardSummary, GameTicks),
    CardSlowed(CardSummary, GameTicks),
}

/// What a report says, with its text as a sequence of characters.
pub enum DispatchableEventView {
    Log(Seq<char>),
    Error(Seq<char>),
    Warning(Seq<char>),
    Tick,
    CardFrozen(CardSummary, GameTicks),
    CardHasted(CardSummary, GameTicks),
    CardSlowed(CardSummary, GameTicks),
}

impl View for DispatchableEvent {
    type V = DispatchableEventView;

    open spec fn view(&self) -> DispatchableEventView {
        match *self {
            DispatchableEvent::Log(text) => DispatchableEventView::Log(text@),
            DispatchableEvent::Error(text) => DispatchableEventView::Error(text@),
            DispatchableEvent::Warning(text) => DispatchableEventView::Warning(text@),
            DispatchableEvent::Tick => DispatchableEventView::Tick,
            DispatchableEvent::CardFrozen(card, duration) => DispatchableEventView::CardFrozen(
                card,
                duration,
            ),
            DispatchableEvent::CardHasted(card, duration) => DispatchableEventView::CardHasted(
                card,
                duration,
            ),
            DispatchableEvent::CardSlowed(card, duration) => DispatchableEventView::CardSlowed(
                card,
                duration,
            ),
        }
    }
}

impl Clone for DispatchableEvent {
    fn clone(&self) -> (copy: Self)
        ensures
            copy == *self,
    {
        match self {
            DispatchableEvent::Log(text) => DispatchableEvent::Log(text.clone()),
            DispatchableEvent::Error(text) => DispatchableEvent::Error(text.clone()),
            DispatchableEvent::Warning(text) => DispatchableEvent::Warning(text.clone()),
            DispatchableEvent::Tick => DispatchableEvent::Tick,
            DispatchableEvent::CardFrozen(card, duration) => DispatchableEvent::CardFrozen(
                card.clone(),
                *duration,
            ),
            DispatchableEvent::CardHasted(card, duration) => DispatchableEvent::CardHasted(
                card.clone(),
                *duration,
            ),
            DispatchableEvent::CardSlowed(card, duration) => DispatchableEvent::CardSlowed(
                card.clone(),
                *duration,
            ),
        }
    }
}

/// What each report of a list says, in order.
pub open spec fn report_views(reports: Seq<DispatchableEvent>) -> Seq<DispatchableEventView> {
    Seq::new(reports.len(), |i: int| reports[i]@)
}

} // verus!
