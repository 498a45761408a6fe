//! The predicate language that selects cards.

use crate::models::size::Size;
use crate::models::tag::Tag;
use crate::models::tooltip::player_target::PlayerTarget;
use crate::text::{
    lowercase, owned, remove_stops, same_text, to_lowercase, trim, trimmed, without_stops,
};
use vstd::prelude::*;

verus! {

/// A predicate on a candidate card, evaluated from the point of view of a
/// source card.
#[derive(Debug, PartialEq, Eq)]
pub enum TargetCondition {
    Always,
    Never,
    IsSelf,
    Adjacent,
    HasCooldown,
    HasOwner(PlayerTarget),
    HasTag(Tag),
    HasSize(Size),
    NameIncludes(String),
    And(Box<TargetCondition>, Box<TargetCondition>),
    Or(Box<TargetCondition>, Box<TargetCondition>),
    Not(Box<TargetCondition>),
    /// Text that was not understood. It holds of no card.
    Raw(String),
}

/// What a condition says, with its texts as sequences of characters.
pub enum TargetConditionView {
    Always,
    Never,
    IsSelf,
    Adjacent,
    HasCooldown,
    HasOwner(PlayerTarget),
    HasTag(Tag),
    HasSize(Size),
    NameIncludes(Seq<char>),
    And(Box<TargetConditionView>, Box<TargetConditionView>),
    Or(Box<TargetConditionView>, Box<TargetConditionView>),
    Not(Box<TargetConditionView>),
    Raw(Seq<char>),
}

impl View for TargetCondition {
    type V = TargetConditionView;

    open spec fn view(&self) -> TargetConditionView {
        self.said()
    }
}

impl Clone for TargetCondition {
    fn clone(&self) -> (copy: Self)
        ensures
            copy == *self,
        decreases self,
    {
        match self {
            TargetCondition::Always => TargetCondition::Always,
            TargetCondition::Never => TargetCondition::Never,
            TargetCondition::IsSelf => TargetCondition::IsSelf,
            TargetCondition::Adjacent => TargetCondition::Adjacent,
            TargetCondition::HasCooldown => TargetCondition::HasCooldown,
            TargetCondition::HasOwner(owner) => TargetCondition::HasOwner(*owner),
            TargetCondition::HasTag(tag) => TargetCondition::HasTag(*tag),
            TargetCondition::HasSize(size) => TargetCondition::HasSize(*size),
            TargetCondition::NameIncludes(text) => TargetCondition::NameIncludes(text.clone()),
            TargetCondition::And(a, b) => TargetCondition::And(
                Box::new((&**a).clone()),
                Box::new((&**b).clone()),
            ),
            TargetCondition::Or(a, b) => TargetCondition::Or(
                Box::new((&**a).clone()),
                Box::new((&**b).clone()),
            ),
            TargetCondition::Not(a) => TargetCondition::Not(Box::new((&**a).clone())),
            TargetCondition::Raw(text) => TargetCondition::Raw(text.clone()),
        }
    }
}

impl TargetCondition {
    /// Both conditions hold.
    pub fn and(self, other: TargetCondition) -> (both: TargetCondition)
        ensures
            both == TargetCondition::And(Box::new(self), Box::new(other)),
            both@ == TargetConditionView::And(Box::new(self@), Box::new(other@)),
    {
        TargetCondition::And(Box::new(self), Box::new(other))
    }

    /// At least one of the conditions holds.
    pub fn or(self, other: TargetCondition) -> (either: TargetCondition)
        ensures
            either == TargetCondition::Or(Box::new(self), Box::new(other)),
            either@ == TargetConditionView::Or(Box::new(self@), Box::new(other@)),
    {
        TargetCondition::Or(Box::new(self), Box::new(other))
    }

    /// The condition that a normalised phrase stands for; a phrase that is
    /// not known is kept as raw text.
    pub open spec fn of_phrase(phrase: Seq<char>) -> TargetConditionView {
        if phrase == "a property"@ {
            TargetConditionView::HasTag(Tag::Property)
        } else if phrase == "a core"@ {
            TargetConditionView::HasTag(Tag::Core)
        } else if phrase == "a friend"@ {
            TargetConditionView::HasTag(Tag::Core)
        } else if phrase == "all your other items"@ {
            TargetConditionView::Always
        } else {
            TargetConditionView::Raw(phrase)
        }
    }

    /// What the condition says.
    pub open spec fn said(self) -> TargetConditionView
        decreases self,
    {
        match self {
            TargetCondition::Always => TargetConditionView::Always,
            TargetCondition::Never => TargetConditionView::Never,
            TargetCondition::IsSelf => TargetConditionView::IsSelf,
            TargetCondition::Adjacent => TargetConditionView::Adjacent,
            TargetCondition::HasCooldown => TargetConditionView::HasCooldown,
            TargetCondition::HasOwner(owner) => TargetConditionView::HasOwner(owner),
            TargetCondition::HasTag(tag) => TargetConditionView::HasTag(tag),
            TargetCondition::HasSize(size) => TargetConditionView::HasSize(size),
            TargetCondition::NameIncludes(text) => TargetConditionView::NameIncludes(text@),
            TargetCondition::And(a, b) => TargetConditionView::And(
                Box::new(a.said()),
                Box::new(b.said()),
            ),
            TargetCondition::Or(a, b) => TargetConditionView::Or(
                Box::new(a.said()),
                Box::new(b.said()),
            ),
            TargetCondition::Not(a) => TargetConditionView::Not(Box::new(a.said())),
            TargetCondition::Raw(text) => TargetConditionView::Raw(text@),
        }
    }

    /// Reads a condition from a normalised phrase: lower case, without full
    /// stops, without white space at its ends.
    pub fn from_phrase(phrase: &str) -> (condition: TargetCondition)
        ensures
            condition@ == Self::of_phrase(phrase@),
    {
        if same_text(phrase, "a property") {
            TargetCondition::HasTag(Tag::Property)
        } else if same_text(phrase, "a core") {
            TargetCondition::HasTag(Tag::Core)
        } else if same_text(phrase, "a friend") {
            TargetCondition::HasTag(Tag::Core)
        } else if same_text(phrase, "all your other items") {
            TargetCondition::Always
        } else {
            TargetCondition::Raw(owned(phrase))
        }
    }

    /// Reads a condition from the words of a tooltip. The words are put in
    /// lower case, their full stops removed and the white space at their
    /// ends dropped; what is left is read as a phrase.
    pub fn from_str(s: &str) -> (condition: TargetCondition)
        ensures
            condition@ == Self::of_phrase(
                trimmed(lowercase(without_stops(s@))),
            ),
    {
        let stopless = remove_stops(s);
        let lowered = to_lowercase(stopless.as_str());
        Self::from_phrase(trim(lowered.as_str()))
    }

    /// The condition does not hold.
    pub fn negated(self) -> (negation: TargetCondition)
        ensures
            negation == TargetCondition::Not(Box::new(self)),
            negation@ == TargetConditionView::Not(Box::new(self@)),
    {
        TargetCondition::Not(Box::new(self))
    }
}

impl std::ops::BitAnd for TargetCondition {
    type Output = TargetCondition;

    /// Both conditions hold.
    fn bitand(self, rhs: TargetCondition) -> (result: TargetCondition) {
        TargetCondition::And(Box::new(self), Box::new(rhs))
    }
}

impl vstd::std_specs::ops::BitAndSpecImpl for TargetCondition {
    open spec fn obeys_bitand_spec() -> bool {
        true
    }

    open spec fn bitand_req(self, rhs: TargetCondition) -> bool {
        true
    }

    open spec fn bitand_spec(self, rhs: TargetCondition) -> TargetCondition {
        TargetCondition::And(Box::new(self), Box::new(rhs))
    }
}

impl std::ops::BitOr for TargetCondition {
    type Output = TargetCondition;

    /// At least one of the conditions holds.
    fn bitor(self, rhs: TargetCondition) -> (result: TargetCondition) {
        TargetCondition::Or(Box::new(self), Box::new(rhs))
    }
}

impl vstd::std_specs::ops::BitOrSpecImpl for TargetCondition {
    open spec fn obeys_bitor_spec() -> bool {
        true
    }

    open spec fn bitor_req(self, rhs: TargetCondition) -> bool {
        true
    }

    open spec fn bitor_spec(self, rhs: TargetCondition) -> TargetCondition {
        TargetCondition::Or(Box::new(self), Box::new(rhs))
    }
}

impl std::ops::Not for TargetCondition {
    type Output = TargetCondition;

    /// The condition does not hold.
    fn not(self) -> (result: TargetCondition) {
        TargetCondition::Not(Box::new(self))
    }
}

impl vstd::std_specs::ops::NotSpecImpl for TargetCondition {
    open spec fn obeys_not_spec() -> bool {
        true
    }

    open spec fn not_req(self) -> bool {
        true
    }

    open spec fn not_spec(self) -> TargetCondition {
        TargetCondition::Not(Box::new(self))
    }
}

} // verus!
