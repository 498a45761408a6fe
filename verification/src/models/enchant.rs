//! Enchantments.

use crate::models::tooltip::base::Tooltip;
use crate::shared::share;
use std::sync::Arc;
use crate::text::same_text;
use vstd::prelude::*;

verus! {

/// The kinds of enchantment.
#[derive(Clone, Copy, Debug, PartialEq, Eq, Hash, Structural)]
pub enum Enchantment {
    Heavy,
    Icy,
    Turbo,
    Shielded,
    Restorative,
    Toxic,
    Fiery,
    Shiny,
    Deadly,
    Radiant,
    Obsidian,
    Golden,
}

/// An enchantment that an item can take, with the tooltips it adds.
#[derive(Debug, PartialEq, Eq)]
pub enum CardEnchantment {
    Heavy(Arc<Vec<Tooltip>>),
    Icy(Arc<Vec<Tooltip>>),
    Turbo(Arc<Vec<Tooltip>>),
    Shielded(Arc<Vec<Tooltip>>),
    Restorative(Arc<Vec<Tooltip>>),
    Toxic(Arc<Vec<Tooltip>>),
    Fiery(Arc<Vec<Tooltip>>),
    Shiny(Arc<Vec<Tooltip>>),
    Deadly(Arc<Vec<Tooltip>>),
    Radiant(Arc<Vec<Tooltip>>),
    Obsidian(Arc<Vec<Tooltip>>),
    Golden(Arc<Vec<Tooltip>>),
}

impl CardEnchantment {
    /// The kind of this enchantment.
    pub open spec fn kind(self) -> Enchantment {
        match self {
            CardEnchantment::Heavy(_) => Enchantment::Heavy,
            CardEnchantment::Icy(_) => Enchantment::Icy,
            CardEnchantment::Turbo(_) => Enchantment::Turbo,
            CardEnchantment::Shielded(_) => Enchantment::Shielded,
            CardEnchantment::Restorative(_) => Enchantment::Restorative,
            CardEnchantment::Toxic(_) => Enchantment::Toxic,
            CardEnchantment::Fiery(_) => Enchantment::Fiery,
            CardEnchantment::Shiny(_) => Enchantment::Shiny,
            CardEnchantment::Deadly(_) => Enchantment::Deadly,
            CardEnchantment::Radiant(_) => Enchantment::Radiant,
            CardEnchantment::Obsidian(_) => Enchantment::Obsidian,
            CardEnchantment::Golden(_) => Enchantment::Golden,
        }
    }

    /// The tooltips this enchantment adds.
    pub open spec fn added(self) -> Arc<Vec<Tooltip>> {
        match self {
            CardEnchantment::Heavy(ts)
            | CardEnchantment::Icy(ts)
            | CardEnchantment::Turbo(ts)
            | CardEnchantment::Shielded(ts)
            | CardEnchantment::Restorative(ts)
            | CardEnchantment::Toxic(ts)
            | CardEnchantment::Fiery(ts)
            | CardEnchantment::Shiny(ts)
            | CardEnchantment::Deadly(ts)
            | CardEnchantment::Radiant(ts)
            | CardEnchantment::Obsidian(ts)
            | CardEnchantment::Golden(ts) => ts,
        }
    }

    /// The kind of this enchantment.
    pub fn enchantment(&self) -> (kind: Enchantment)
        ensures
            kind == self.kind(),
    {
        match self {
            CardEnchantment::Heavy(_) => Enchantment::Heavy,
            CardEnchantment::Icy(_) => Enchantment::Icy,
            CardEnchantment::Turbo(_) => Enchantment::Turbo,
            CardEnchantment::Shielded(_) => Enchantment::Shielded,
            CardEnchantment::Restorative(_) => Enchantment::Restorative,
            CardEnchantment::Toxic(_) => Enchantment::Toxic,
            CardEnchantment::Fiery(_) => Enchantment::Fiery,
            CardEnchantment::Shiny(_) => Enchantment::Shiny,
            CardEnchantment::Deadly(_) => Enchantment::Deadly,
            CardEnchantment::Radiant(_) => Enchantment::Radiant,
            CardEnchantment::Obsidian(_) => Enchantment::Obsidian,
            CardEnchantment::Golden(_) => Enchantment::Golden,
        }
    }

    /// An enchantment of the given kind with the given tooltips.
    pub fn of_kind(kind: Enchantment, tooltips: Arc<Vec<Tooltip>>) -> (enchantment: CardEnchantment)
        ensures
            enchantment.kind() == kind,
            enchantment.added() == tooltips,
    {
        match kind {
            Enchantment::Heavy => CardEnchantment::Heavy(tooltips),
            Enchantment::Icy => CardEnchantment::Icy(tooltips),
            Enchantment::Turbo => CardEnchantment::Turbo(tooltips),
            Enchantment::Shielded => CardEnchantment::Shielded(tooltips),
            Enchantment::Restorative => CardEnchantment::Restorative(tooltips),
            Enchantment::Toxic => CardEnchantment::Toxic(tooltips),
            Enchantment::Fiery => CardEnchantment::Fiery(tooltips),
            Enchantment::Shiny => CardEnchantment::Shiny(tooltips),
            Enchantment::Deadly => CardEnchantment::Deadly(tooltips),
            Enchantment::Radiant => CardEnchantment::Radiant(tooltips),
            Enchantment::Obsidian => CardEnchantment::Obsidian(tooltips),
            Enchantment::Golden => CardEnchantment::Golden(tooltips),
        }
    }

    /// Whether this enchantment is of kind `e`.
    pub fn is_enchantment(&self, e: &Enchantment) -> (same: bool)
        ensures
            same == (self.kind() == *e),
    {
        match self {
            CardEnchantment::Heavy(_) => *e == Enchantment::Heavy,
            CardEnchantment::Icy(_) => *e == Enchantment::Icy,
            CardEnchantment::Turbo(_) => *e == Enchantment::Turbo,
            CardEnchantment::Shielded(_) => *e == Enchantment::Shielded,
            CardEnchantment::Restorative(_) => *e == Enchantment::Restorative,
            CardEnchantment::Toxic(_) => *e == Enchantment::Toxic,
            CardEnchantment::Fiery(_) => *e == Enchantment::Fiery,
            CardEnchantment::Shiny(_) => *e == Enchantment::Shiny,
            CardEnchantment::Deadly(_) => *e == Enchantment::Deadly,
            CardEnchantment::Radiant(_) => *e == Enchantment::Radiant,
            CardEnchantment::Obsidian(_) => *e == Enchantment::Obsidian,
            CardEnchantment::Golden(_) => *e == Enchantment::Golden,
        }
    }

    /// The tooltips this enchantment adds, shared with the definition.
    pub fn tooltips(&self) -> (list: Arc<Vec<Tooltip>>)
        ensures
            list == self.added(),
    {
        match self {
            CardEnchantment::Heavy(ts)
            | CardEnchantment::Icy(ts)
            | CardEnchantment::Turbo(ts)
            | CardEnchantment::Shielded(ts)
            | CardEnchantment::Restorative(ts)
            | CardEnchantment::Toxic(ts)
            | CardEnchantment::Fiery(ts)
            | CardEnchantment::Shiny(ts)
            | CardEnchantment::Deadly(ts)
            | CardEnchantment::Radiant(ts)
            | CardEnchantment::Obsidian(ts)
            | CardEnchantment::Golden(ts) => share(ts),
        }
    }
}

impl Enchantment {
    /// The value that a name stands for, written as in the data files.
    pub open spec fn of_name(name: Seq<char>) -> Option<Enchantment> {
        if name == "Heavy"@ {
            Some(Enchantment::Heavy)
        } else if name == "Icy"@ {
            Some(Enchantment::Icy)
        } else if name == "Turbo"@ {
            Some(Enchantment::Turbo)
        } else if name == "Shielded"@ {
            Some(Enchantment::Shielded)
        } else if name == "Restorative"@ {
            Some(Enchantment::Restorative)
        } else if name == "Toxic"@ {
            Some(Enchantment::Toxic)
        } else if name == "Fiery"@ {
            Some(Enchantment::Fiery)
        } else if name == "Shiny"@ {
            Some(Enchantment::Shiny)
        } else if name == "Deadly"@ {
            Some(Enchantment::Deadly)
        } else if name == "Radiant"@ {
            Some(Enchantment::Radiant)
        } else if name == "Obsidian"@ {
            Some(Enchantment::Obsidian)
        } else if name == "Golden"@ {
            Some(Enchantment::Golden)
        } else {
            None
        }
    }

    /// Reads the value from its name, written as in the data files.
    pub fn from_name(name: &str) -> (value: Option<Enchantment>)
        ensures
            value == Enchantment::of_name(name@),
    {
        if same_text(name, "Heavy") {
            Some(Enchantment::Heavy)
        } else if same_text(name, "Icy") {
            Some(Enchantment::Icy)
        } else if same_text(name, "Turbo") {
            Some(Enchantment::Turbo)
        } else if same_text(name, "Shielded") {
            Some(Enchantment::Shielded)
        } else if same_text(name, "Restorative") {
            Some(Enchantment::Restorative)
        } else if same_text(name, "Toxic") {
            Some(Enchantment::Toxic)
        } else if same_text(name, "Fiery") {
            Some(Enchantment::Fiery)
        } else if same_text(name, "Shiny") {
            Some(Enchantment::Shiny)
        } else if same_text(name, "Deadly") {
            Some(Enchantment::Deadly)
        } else if same_text(name, "Radiant") {
            Some(Enchantment::Radiant)
        } else if same_text(name, "Obsidian") {
            Some(Enchantment::Obsidian)
        } else if same_text(name, "Golden") {
            Some(Enchantment::Golden)
        } else {
            None
        }
    }
}

} // verus!
