//! Tags and heroes that classify items.

use crate::text::same_text;
use vstd::prelude::*;

verus! {

/// A category an item belongs to; target predicates select items by tag.
#[derive(Clone, Copy, Debug, PartialEq, Eq, Hash, Structural)]
pub enum Tag {
    Ammo,
    Apparel,
    Aquatic,
    Burn,
    Core,
    Crit,
    Damage,
    Dinosaur,
    Dragon,
    Drone,
    Food,
    Freeze,
    Friend,
    Gold,
    Haste,
    Heal,
    Loot,
    Poison,
    Potion,
    Property,
    Ray,
    Reagent,
    Regen,
    Relic,
    Shield,
    Slow,
    Tech,
    Tool,
    Toy,
    Vehicle,
    Weapon,
}

impl Tag {
    /// The tag of a name: the name of the tag as it is written here, or all
    /// in lower case.
    pub open spec fn named(name: Seq<char>) -> Option<Tag> {
        if name == "Ammo"@ || name == "ammo"@ {
            Some(Tag::Ammo)
        } else if name == "Apparel"@ || name == "apparel"@ {
            Some(Tag::Apparel)
        } else if name == "Aquatic"@ || name == "aquatic"@ {
            Some(Tag::Aquatic)
        } else if name == "Burn"@ || name == "burn"@ {
            Some(Tag::Burn)
        } else if name == "Core"@ || name == "core"@ {
            Some(Tag::Core)
        } else if name == "Crit"@ || name == "crit"@ {
            Some(Tag::Crit)
        } else if name == "Damage"@ || name == "damage"@ {
            Some(Tag::Damage)
        } else if name == "Dinosaur"@ || name == "dinosaur"@ {
            Some(Tag::Dinosaur)
        } else if name == "Dragon"@ || name == "dragon"@ {
            Some(Tag::Dragon)
        } else if name == "Drone"@ || name == "drone"@ {
            Some(Tag::Drone)
        } else if name == "Food"@ || name == "food"@ {
            Some(Tag::Food)
        } else if name == "Freeze"@ || name == "freeze"@ {
            Some(Tag::Freeze)
        } else if name == "Friend"@ || name == "friend"@ {
            Some(Tag::Friend)
        } else if name == "Gold"@ || name == "gold"@ {
            Some(Tag::Gold)
        } else if name == "Haste"@ || name == "haste"@ {
            Some(Tag::Haste)
        } else if name == "Heal"@ || name == "heal"@ {
            Some(Tag::Heal)
        } else if name == "Loot"@ || name == "loot"@ {
            Some(Tag::Loot)
        } else if name == "Poison"@ || name == "poison"@ {
            Some(Tag::Poison)
        } else if name == "Potion"@ || name == "potion"@ {
            Some(Tag::Potion)
        } else if name == "Property"@ || name == "property"@ {
            Some(Tag::Property)
        } else if name == "Ray"@ || name == "ray"@ {
            Some(Tag::Ray)
        } else if name == "Reagent"@ || name == "reagent"@ {
            Some(Tag::Reagent)
        } else if name == "Regen"@ || name == "regen"@ {
            Some(Tag::Regen)
        } else if name == "Relic"@ || name == "relic"@ {
            Some(Tag::Relic)
        } else if name == "Shield"@ || name == "shield"@ {
            Some(Tag::Shield)
        } else if name == "Slow"@ || name == "slow"@ {
            Some(Tag::Slow)
        } else if name == "Tech"@ || name == "tech"@ {
            Some(Tag::Tech)
        } else if name == "Tool"@ || name == "tool"@ {
            Some(Tag::Tool)
        } else if name == "Toy"@ || name == "toy"@ {
            Some(Tag::Toy)
        } else if name == "Vehicle"@ || name == "vehicle"@ {
            Some(Tag::Vehicle)
        } else if name == "Weapon"@ || name == "weapon"@ {
            Some(Tag::Weapon)
        } else {
            None
        }
    }

    /// Reads a tag from its name, written as here or all in lower case.
    pub fn from_str(s: &str) -> (tag: Option<Tag>)
        ensures
            tag == Tag::named(s@),
    {
        if same_text(s, "Ammo") || same_text(s, "ammo") {
            Some(Tag::Ammo)
        } else if same_text(s, "Apparel") || same_text(s, "apparel") {
            Some(Tag::Apparel)
        } else if same_text(s, "Aquatic") || same_text(s, "aquatic") {
            Some(Tag::Aquatic)
        } else if same_text(s, "Burn") || same_text(s, "burn") {
            Some(Tag::Burn)
        } else if same_text(s, "Core") || same_text(s, "core") {
            Some(Tag::Core)
        } else if same_text(s, "Crit") || same_text(s, "crit") {
            Some(Tag::Crit)
        } else if same_text(s, "Damage") || same_text(s, "damage") {
            Some(Tag::Damage)
        } else if same_text(s, "Dinosaur") || same_text(s, "dinosaur") {
            Some(Tag::Dinosaur)
        } else if same_text(s, "Dragon") || same_text(s, "dragon") {
            Some(Tag::Dragon)
        } else if same_text(s, "Drone") || same_text(s, "drone") {
            Some(Tag::Drone)
        } else if same_text(s, "Food") || same_text(s, "food") {
            Some(Tag::Food)
        } else if same_text(s, "Freeze") || same_text(s, "freeze") {
            Some(Tag::Freeze)
        } else if same_text(s, "Friend") || same_text(s, "friend") {
            Some(Tag::Friend)
        } else if same_text(s, "Gold") || same_text(s, "gold") {
            Some(Tag::Gold)
        } else if same_text(s, "Haste") || same_text(s, "haste") {
            Some(Tag::Haste)
        } else if same_text(s, "Heal") || same_text(s, "heal") {
            Some(Tag::Heal)
        } else if same_text(s, "Loot") || same_text(s, "loot") {
            Some(Tag::Loot)
        } else if same_text(s, "Poison") || same_text(s, "poison") {
            Some(Tag::Poison)
        } else if same_text(s, "Potion") || same_text(s, "potion") {
            Some(Tag::Potion)
        } else if same_text(s, "Property") || same_text(s, "property") {
            Some(Tag::Property)
        } else if same_text(s, "Ray") || same_text(s, "ray") {
            Some(Tag::Ray)
        } else if same_text(s, "Reagent") || same_text(s, "reagent") {
            Some(Tag::Reagent)
        } else if same_text(s, "Regen") || same_text(s, "regen") {
            Some(Tag::Regen)
        } else if same_text(s, "Relic") || same_text(s, "relic") {
            Some(Tag::Relic)
        } else if same_text(s, "Shield") || same_text(s, "shield") {
            Some(Tag::Shield)
        } else if same_text(s, "Slow") || same_text(s, "slow") {
            Some(Tag::Slow)
        } else if same_text(s, "Tech") || same_text(s, "tech") {
            Some(Tag::Tech)
        } else if same_text(s, "Tool") || same_text(s, "tool") {
            Some(Tag::Tool)
        } else if same_text(s, "Toy") || same_text(s, "toy") {
            Some(Tag::Toy)
        } else if same_text(s, "Vehicle") || same_text(s, "vehicle") {
            Some(Tag::Vehicle)
        } else if same_text(s, "Weapon") || same_text(s, "weapon") {
            Some(Tag::Weapon)
        } else {
            None
        }
    }
}

/// The hero an item is available to.
#[derive(Clone, Copy, Debug, PartialEq, Eq, Hash, Structural)]
pub enum Hero {
    Common,
    Dooley,
    Jules,
    Mak,
    Pygmalien,
    Stelle,
    Vanessa,
}

impl Hero {
    /// The value that a name stands for, written as in the data files.
    pub open spec fn of_name(name: Seq<char>) -> Option<Hero> {
        if name == "Common"@ {
            Some(Hero::Common)
        } else if name == "Dooley"@ {
            Some(Hero::Dooley)
        } else if name == "Jules"@ {
            Some(Hero::Jules)
        } else if name == "Mak"@ {
            Some(Hero::Mak)
        } else if name == "Pygmalien"@ {
            Some(Hero::Pygmalien)
        } else if name == "Stelle"@ {
            Some(Hero::Stelle)
        } else if name == "Vanessa"@ {
            Some(Hero::Vanessa)
        } else {
            None
        }
    }

    /// Reads the value from its name, written as in the data files.
    pub fn from_name(name: &str) -> (value: Option<Hero>)
        ensures
            value == Hero::of_name(name@),
    {
        if same_text(name, "Common") {
            Some(Hero::Common)
        } else if same_text(name, "Dooley") {
            Some(Hero::Dooley)
        } else if same_text(name, "Jules") {
            Some(Hero::Jules)
        } else if same_text(name, "Mak") {
            Some(Hero::Mak)
        } else if same_text(name, "Pygmalien") {
            Some(Hero::Pygmalien)
        } else if same_text(name, "Stelle") {
            Some(Hero::Stelle)
        } else if same_text(name, "Vanessa") {
            Some(Hero::Vanessa)
        } else {
            None
        }
    }
}

} // verus!
