//! Items that an effect hands to the player.

use crate::models::tooltip::condition::Condition;
use crate::text::{title_case, to_title_case};
use vstd::prelude::*;

verus! {

/// An item obtained from an effect: its name, how many, and under what condition.
#[derive(Debug, PartialEq, Eq)]
pub struct ObtainedEffectItem {
    pub name: String,
    pub count: u32,
    pub condition: Option<Condition>,
}

/// What an obtained item says, with its name as a sequence of characters.
pub struct ObtainedItemView {
    pub name: Seq<char>,
    pub count: u32,
    pub condition: Option<Condition>,
}

impl View for ObtainedEffectItem {
    type V = ObtainedItemView;

    open spec fn view(&self) -> ObtainedItemView {
        ObtainedItemView { name: self.name@, count: self.count, condition: self.condition }
    }
}

impl Clone for ObtainedEffectItem {
    fn clone(&self) -> (copy: Self)
        ensures
            copy == *self,
    {
        ObtainedEffectItem {
            name: self.name.clone(),
            count: self.count,
            condition: self.condition,
        }
    }
}

impl ObtainedEffectItem {
    /// An item under the given title.
    pub fn titled(title: String, count: u32, condition: Option<Condition>) -> (item: Self)
        ensures
            item == (ObtainedEffectItem { name: title, count, condition }),
    {
        ObtainedEffectItem { name: title, count, condition }
    }

    /// `count` items called `name`, obtained without condition. The name is
    /// kept in title case.
    pub fn new(name: &str, count: u32) -> (item: Self)
        ensures
            item@ == (ObtainedItemView { name: title_case(name@), count, condition: None }),
    {
        Self::titled(to_title_case(name), count, None)
    }

    /// `count` items called `name`, obtained if `condition` holds. The name
    /// is kept in title case.
    pub fn new_conditional(name: &str, count: u32, condition: Condition) -> (item: Self)
        ensures
            item@ == (ObtainedItemView {
                name: title_case(name@),
                count,
                condition: Some(condition),
            }),
    {
        Self::titled(to_title_case(name), count, Some(condition))
    }
}

} // verus!
