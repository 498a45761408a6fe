//! Item sizes.

use crate::text::{lowercase, same_text, to_lowercase};
use vstd::prelude::*;

verus! {

/// How much room an item takes on the board.
#[derive(Clone, Copy, Debug, PartialEq, Eq, Hash, Structural)]
pub enum Size {
    Small,
    Medium,
    Large,
}

impl Size {
    /// The board slots an item of this size occupies.
    pub open spec fn spaces(self) -> int {
        match self {
            Size::Small => 1,
            Size::Medium => 2,
            Size::Large => 3,
        }
    }

    /// Board slots consumed: 1, 2 or 3.
    pub fn board_spaces(&self) -> (spaces: u8)
        ensures
            spaces == self.spaces(),
            1 <= spaces <= 3,
    {
        match self {
            Size::Small => 1,
            Size::Medium => 2,
            Size::Large => 3,
        }
    }

    /// The gold value of a bronze item of this size.
    pub open spec fn base_value(self) -> int {
        self.spaces()
    }

    /// The gold value of a bronze item of this size: one gold per board slot.
    pub fn base_cost(&self) -> (cost: u32)
        ensures
            cost == self.base_value(),
            1 <= cost <= 3,
    {
        match self {
            Size::Small => 1,
            Size::Medium => 2,
            Size::Large => 3,
        }
    }
}

impl Size {
    /// The size of a name in lower case.
    pub open spec fn named(name: Seq<char>) -> Option<Size> {
        if name == "small"@ {
            Some(Size::Small)
        } else if name == "medium"@ {
            Some(Size::Medium)
        } else if name == "large"@ {
            Some(Size::Large)
        } else {
            None
        }
    }

    /// Reads a size from its name in lower case.
    pub fn from_name(name: &str) -> (size: Option<Size>)
        ensures
            size == Size::named(name@),
    {
        if same_text(name, "small") {
            Some(Size::Small)
        } else if same_text(name, "medium") {
            Some(Size::Medium)
        } else if same_text(name, "large") {
            Some(Size::Large)
        } else {
            None
        }
    }

    /// Reads a size from its name, in whatever case it is written. A text
    /// that names no size gives none.
    pub fn try_from(value: &str) -> (size: Option<Size>)
        ensures
            size == Size::named(lowercase(value@)),
    {
        let lowered = to_lowercase(value);
        Self::from_name(lowered.as_str())
    }
}

} // verus!
