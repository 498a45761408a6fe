//! Tooltips as source text.
//!
//! Every value of the tooltip model can be written as an expression that
//! evaluates to it. The catalog generator writes card definitions this way.

use crate::models::data::Percentage;
use crate::models::enchant::Enchantment;
use crate::models::pack_id::PackId;
use crate::models::size::Size;
use crate::models::tag::{Hero, Tag};
use crate::models::tier::Tier;
use crate::models::tooltip::card_target::CardTarget;
use crate::models::tooltip::card_target_condition::TargetCondition;
use crate::models::tooltip::condition::Condition;
use crate::models::tooltip::effect::{
    CardDerivedProperty, DerivedValue, PlayerDerivedProperty,
};
use crate::models::tooltip::effect_value::EffectValue;
use crate::models::tooltip::global_event::GlobalEvent;
use crate::models::tooltip::modifier::Modifier;
use crate::models::tooltip::obtained_item::ObtainedEffectItem;
use crate::models::tooltip::player_target::PlayerTarget;
use crate::text::{decimal, decimal_text, owned, quote, quoted};
use vstd::prelude::*;

verus! {

impl Tag {
    /// The name of the tag.
    pub open spec fn name_text(self) -> Seq<char> {
        match self {
            Tag::Ammo => "Ammo"@,
            Tag::Apparel => "Apparel"@,
            Tag::Aquatic => "Aquatic"@,
            Tag::Burn => "Burn"@,
            Tag::Core => "Core"@,
            Tag::Crit => "Crit"@,
            Tag::Damage => "Damage"@,
            Tag::Dinosaur => "Dinosaur"@,
            Tag::Dragon => "Dragon"@,
            Tag::Drone => "Drone"@,
            Tag::Food => "Food"@,
            Tag::Freeze => "Freeze"@,
            Tag::Friend => "Friend"@,
            Tag::Gold => "Gold"@,
            Tag::Haste => "Haste"@,
            Tag::Heal => "Heal"@,
            Tag::Loot => "Loot"@,
            Tag::Poison => "Poison"@,
            Tag::Potion => "Potion"@,
            Tag::Property => "Property"@,
            Tag::Ray => "Ray"@,
            Tag::Reagent => "Reagent"@,
            Tag::Regen => "Regen"@,
            Tag::Relic => "Relic"@,
            Tag::Shield => "Shield"@,
            Tag::Slow => "Slow"@,
            Tag::Tech => "Tech"@,
            Tag::Tool => "Tool"@,
            Tag::Toy => "Toy"@,
            Tag::Vehicle => "Vehicle"@,
            Tag::Weapon => "Weapon"@,
        }
    }

    /// The name of the variant.
    pub fn name(&self) -> (name: &'static str)
        ensures
            name@ == self.name_text(),
    {
        match self {
            Tag::Ammo => "Ammo",
            Tag::Apparel => "Apparel",
            Tag::Aquatic => "Aquatic",
            Tag::Burn => "Burn",
            Tag::Core => "Core",
            Tag::Crit => "Crit",
            Tag::Damage => "Damage",
            Tag::Dinosaur => "Dinosaur",
            Tag::Dragon => "Dragon",
            Tag::Drone => "Drone",
            Tag::Food => "Food",
            Tag::Freeze => "Freeze",
            Tag::Friend => "Friend",
            Tag::Gold => "Gold",
            Tag::Haste => "Haste",
            Tag::Heal => "Heal",
            Tag::Loot => "Loot",
            Tag::Poison => "Poison",
            Tag::Potion => "Potion",
            Tag::Property => "Property",
            Tag::Ray => "Ray",
            Tag::Reagent => "Reagent",
            Tag::Regen => "Regen",
            Tag::Relic => "Relic",
            Tag::Shield => "Shield",
            Tag::Slow => "Slow",
            Tag::Tech => "Tech",
            Tag::Tool => "Tool",
            Tag::Toy => "Toy",
            Tag::Vehicle => "Vehicle",
            Tag::Weapon => "Weapon",
        }
    }
}

impl Size {
    /// The name of the size.
    pub open spec fn name_text(self) -> Seq<char> {
        match self {
            Size::Small => "Small"@,
            Size::Medium => "Medium"@,
            Size::Large => "Large"@,
        }
    }

    /// The name of the variant.
    pub fn name(&self) -> (name: &'static str)
        ensures
            name@ == self.name_text(),
    {
        match self {
            Size::Small => "Small",
            Size::Medium => "Medium",
            Size::Large => "Large",
        }
    }
}

impl Tier {
    /// The name of the tier.
    pub open spec fn name_text(self) -> Seq<char> {
        match self {
            Tier::Bronze => "Bronze"@,
            Tier::Silver => "Silver"@,
            Tier::Gold => "Gold"@,
            Tier::Diamond => "Diamond"@,
            Tier::Legendary => "Legendary"@,
        }
    }

    /// The name of the variant.
    pub fn name(&self) -> (name: &'static str)
        ensures
            name@ == self.name_text(),
    {
        match self {
            Tier::Bronze => "Bronze",
            Tier::Silver => "Silver",
            Tier::Gold => "Gold",
            Tier::Diamond => "Diamond",
            Tier::Legendary => "Legendary",
        }
    }
}

impl PlayerTarget {
    /// The name of the side.
    pub open spec fn name_text(self) -> Seq<char> {
        match self {
            PlayerTarget::Player => "Player"@,
            PlayerTarget::Opponent => "Opponent"@,
        }
    }

    /// The name of the variant.
    pub fn name(&self) -> (name: &'static str)
        ensures
            name@ == self.name_text(),
    {
        match self {
            PlayerTarget::Player => "Player",
            PlayerTarget::Opponent => "Opponent",
        }
    }
}

impl CardDerivedProperty {
    /// The name of the property.
    pub open spec fn name_text(self) -> Seq<char> {
        match self {
            CardDerivedProperty::Value => "Value"@,
            CardDerivedProperty::Damage => "Damage"@,
        }
    }

    /// The name of the variant.
    pub fn name(&self) -> (name: &'static str)
        ensures
            name@ == self.name_text(),
    {
        match self {
            CardDerivedProperty::Value => "Value",
            CardDerivedProperty::Damage => "Damage",
        }
    }
}

impl PlayerDerivedProperty {
    /// The name of the property.
    pub open spec fn name_text(self) -> Seq<char> {
        match self {
            PlayerDerivedProperty::MaximumHealth => "MaximumHealth"@,
            PlayerDerivedProperty::CurrentHealth => "CurrentHealth"@,
        }
    }

    /// The name of the variant.
    pub fn name(&self) -> (name: &'static str)
        ensures
            name@ == self.name_text(),
    {
        match self {
            PlayerDerivedProperty::MaximumHealth => "MaximumHealth",
            PlayerDerivedProperty::CurrentHealth => "CurrentHealth",
        }
    }
}

impl Enchantment {
    /// The name of the enchantment.
    pub open spec fn name_text(self) -> Seq<char> {
        match self {
            Enchantment::Heavy => "Heavy"@,
            Enchantment::Icy => "Icy"@,
            Enchantment::Turbo => "Turbo"@,
            Enchantment::Shielded => "Shielded"@,
            Enchantment::Restorative => "Restorative"@,
            Enchantment::Toxic => "Toxic"@,
            Enchantment::Fiery => "Fiery"@,
            Enchantment::Shiny => "Shiny"@,
            Enchantment::Deadly => "Deadly"@,
            Enchantment::Radiant => "Radiant"@,
            Enchantment::Obsidian => "Obsidian"@,
            Enchantment::Golden => "Golden"@,
        }
    }

    /// The name of the variant.
    pub fn name(&self) -> (name: &'static str)
        ensures
            name@ == self.name_text(),
    {
        match self {
            Enchantment::Heavy => "Heavy",
            Enchantment::Icy => "Icy",
            Enchantment::Turbo => "Turbo",
            Enchantment::Shielded => "Shielded",
            Enchantment::Restorative => "Restorative",
            Enchantment::Toxic => "Toxic",
            Enchantment::Fiery => "Fiery",
            Enchantment::Shiny => "Shiny",
            Enchantment::Deadly => "Deadly",
            Enchantment::Radiant => "Radiant",
            Enchantment::Obsidian => "Obsidian",
            Enchantment::Golden => "Golden",
        }
    }
}

impl Hero {
    /// The name of the hero.
    pub open spec fn name_text(self) -> Seq<char> {
        match self {
            Hero::Common => "Common"@,
            Hero::Dooley => "Dooley"@,
            Hero::Jules => "Jules"@,
            Hero::Mak => "Mak"@,
            Hero::Pygmalien => "Pygmalien"@,
            Hero::Stelle => "Stelle"@,
            Hero::Vanessa => "Vanessa"@,
        }
    }

    /// The name of the variant.
    pub fn name(&self) -> (name: &'static str)
        ensures
            name@ == self.name_text(),
    {
        match self {
            Hero::Common => "Common",
            Hero::Dooley => "Dooley",
            Hero::Jules => "Jules",
            Hero::Mak => "Mak",
            Hero::Pygmalien => "Pygmalien",
            Hero::Stelle => "Stelle",
            Hero::Vanessa => "Vanessa",
        }
    }
}

impl PackId {
    /// The name of the pack.
    pub open spec fn name_text(self) -> Seq<char> {
        match self {
            PackId::Core => "Core"@,
            PackId::DooleyCore => "DooleyCore"@,
            PackId::DooleyDooltron => "DooleyDooltron"@,
            PackId::MakCore => "MakCore"@,
            PackId::MakDangerousExperiments => "MakDangerousExperiments"@,
            PackId::PygFrozenAssets => "PygFrozenAssets"@,
            PackId::PygInvestmentOpportunities => "PygInvestmentOpportunities"@,
            PackId::PygmalienCore => "PygmalienCore"@,
            PackId::JulesCore => "JulesCore"@,
            PackId::StelleCore => "StelleCore"@,
            PackId::VanessaCore => "VanessaCore"@,
            PackId::VanessaMysteriesOfTheDeep => "VanessaMysteriesOfTheDeep"@,
            PackId::VanessaTheGang => "VanessaTheGang"@,
        }
    }

    /// The name of the variant.
    pub fn name(&self) -> (name: &'static str)
        ensures
            name@ == self.name_text(),
    {
        match self {
            PackId::Core => "Core",
            PackId::DooleyCore => "DooleyCore",
            PackId::DooleyDooltron => "DooleyDooltron",
            PackId::MakCore => "MakCore",
            PackId::MakDangerousExperiments => "MakDangerousExperiments",
            PackId::PygFrozenAssets => "PygFrozenAssets",
            PackId::PygInvestmentOpportunities => "PygInvestmentOpportunities",
            PackId::PygmalienCore => "PygmalienCore",
            PackId::JulesCore => "JulesCore",
            PackId::StelleCore => "StelleCore",
            PackId::VanessaCore => "VanessaCore",
            PackId::VanessaMysteriesOfTheDeep => "VanessaMysteriesOfTheDeep",
            PackId::VanessaTheGang => "VanessaTheGang",
        }
    }
}

impl PlayerTarget {
    /// The side as source text.
    pub open spec fn source_text(self) -> Seq<char>
    {
        match self {
            PlayerTarget::Player => "PlayerTarget::Player"@,
            PlayerTarget::Opponent => "PlayerTarget::Opponent"@,
        }
    }

    /// Writes the value as source text: an expression that evaluates to it.
    pub fn to_source(&self) -> (text: String)
        ensures
            text@ == self.source_text(),
    {
        match self {
            PlayerTarget::Player => owned("PlayerTarget::Player"),
            PlayerTarget::Opponent => owned("PlayerTarget::Opponent"),
        }
    }
}

impl Percentage {
    /// The ratio as source text.
    pub open spec fn source_text(self) -> Seq<char>
    {
        match self {
            Percentage(points) => "Percentage("@ + decimal_text(points as nat) + ")"@,
        }
    }

    /// Writes the value as source text: an expression that evaluates to it.
    pub fn to_source(&self) -> (text: String)
        ensures
            text@ == self.source_text(),
    {
        match self {
            Percentage(points) => owned("Percentage(").concat(decimal(*points as u128).as_str()).concat(")"),
        }
    }
}

impl Condition {
    /// The condition as source text.
    pub open spec fn source_text(self) -> Seq<char>
    {
        match self {
            Condition::HasCardOfSize(size) => "Condition::HasCardOfSize(Size::"@ + size.name_text() + ")"@,
            Condition::HasCardOfTag(tag) => "Condition::HasCardOfTag(Tag::"@ + tag.name_text() + ")"@,
        }
    }

    /// Writes the value as source text: an expression that evaluates to it.
    pub fn to_source(&self) -> (text: String)
        ensures
            text@ == self.source_text(),
    {
        match self {
            Condition::HasCardOfSize(size) => owned("Condition::HasCardOfSize(Size::").concat(size.name()).concat(")"),
            Condition::HasCardOfTag(tag) => owned("Condition::HasCardOfTag(Tag::").concat(tag.name()).concat(")"),
        }
    }
}

impl GlobalEvent {
    /// The event as source text.
    pub open spec fn source_text(self) -> Seq<char>
    {
        match self {
            GlobalEvent::PlayerFallsBelowHpPercentage(percent) => "GlobalEvent::PlayerFallsBelowHpPercentage("@ + decimal_text(percent as nat) + ")"@,
        }
    }

    /// Writes the value as source text: an expression that evaluates to it.
    pub fn to_source(&self) -> (text: String)
        ensures
            text@ == self.source_text(),
    {
        match self {
            GlobalEvent::PlayerFallsBelowHpPercentage(percent) => owned("GlobalEvent::PlayerFallsBelowHpPercentage(").concat(decimal(*percent as u128).as_str()).concat(")"),
        }
    }
}

impl EffectValue<u32> {
    /// The amount as source text.
    pub open spec fn source_text(self) -> Seq<char>
    {
        match self {
            EffectValue::Flat(value) => "EffectValue::Flat("@ + decimal_text(value as nat) + ")"@,
            EffectValue::Percentage(value) => "EffectValue::Percentage("@ + decimal_text(value as nat) + ")"@,
        }
    }

    /// Writes the value as source text: an expression that evaluates to it.
    pub fn to_source(&self) -> (text: String)
        ensures
            text@ == self.source_text(),
    {
        match self {
            EffectValue::Flat(value) => owned("EffectValue::Flat(").concat(decimal(*value as u128).as_str()).concat(")"),
            EffectValue::Percentage(value) => owned("EffectValue::Percentage(").concat(decimal(*value as u128).as_str()).concat(")"),
        }
    }
}

impl EffectValue<u64> {
    /// The amount as source text.
    pub open spec fn source_text(self) -> Seq<char>
    {
        match self {
            EffectValue::Flat(value) => "EffectValue::Flat("@ + decimal_text(value as nat) + ")"@,
            EffectValue::Percentage(value) => "EffectValue::Percentage("@ + decimal_text(value as nat) + ")"@,
        }
    }

    /// Writes the value as source text: an expression that evaluates to it.
    pub fn to_source(&self) -> (text: String)
        ensures
            text@ == self.source_text(),
    {
        match self {
            EffectValue::Flat(value) => owned("EffectValue::Flat(").concat(decimal(*value as u128).as_str()).concat(")"),
            EffectValue::Percentage(value) => owned("EffectValue::Percentage(").concat(decimal(*value as u128).as_str()).concat(")"),
        }
    }
}

impl Modifier {
    /// The modifier as source text.
    pub open spec fn source_text(self) -> Seq<char>
    {
        match self {
            Modifier::DoubleCritDamage => "Modifier::DoubleCritDamage"@,
            Modifier::WeaponDamage(value) => "Modifier::WeaponDamage("@ + value.source_text() + ")"@,
            Modifier::LessDamageTaken(value) => "Modifier::LessDamageTaken("@ + value.source_text() + ")"@,
            Modifier::CritChance(chance) => "Modifier::CritChance("@ + chance.source_text() + ")"@,
            Modifier::Cooldown(millis) => "Modifier::Cooldown("@ + decimal_text(millis as nat) + ")"@,
            Modifier::Ammo(amount) => "Modifier::Ammo("@ + decimal_text(amount as nat) + ")"@,
            Modifier::Multicast(amount) => "Modifier::Multicast("@ + decimal_text(amount as nat) + ")"@,
            Modifier::IncreasedValue(amount) => "Modifier::IncreasedValue("@ + decimal_text(amount as nat) + ")"@,
            Modifier::Radiant => "Modifier::Radiant"@,
        }
    }

    /// Writes the value as source text: an expression that evaluates to it.
    pub fn to_source(&self) -> (text: String)
        ensures
            text@ == self.source_text(),
    {
        match self {
            Modifier::DoubleCritDamage => owned("Modifier::DoubleCritDamage"),
            Modifier::WeaponDamage(value) => owned("Modifier::WeaponDamage(").concat(value.to_source().as_str()).concat(")"),
            Modifier::LessDamageTaken(value) => owned("Modifier::LessDamageTaken(").concat(value.to_source().as_str()).concat(")"),
            Modifier::CritChance(chance) => owned("Modifier::CritChance(").concat(chance.to_source().as_str()).concat(")"),
            Modifier::Cooldown(millis) => owned("Modifier::Cooldown(").concat(decimal(*millis as u128).as_str()).concat(")"),
            Modifier::Ammo(amount) => owned("Modifier::Ammo(").concat(decimal(*amount as u128).as_str()).concat(")"),
            Modifier::Multicast(amount) => owned("Modifier::Multicast(").concat(decimal(*amount as u128).as_str()).concat(")"),
            Modifier::IncreasedValue(amount) => owned("Modifier::IncreasedValue(").concat(decimal(*amount as u128).as_str()).concat(")"),
            Modifier::Radiant => owned("Modifier::Radiant"),
        }
    }
}

impl TargetCondition {
    /// The condition as source text.
    pub open spec fn source_text(self) -> Seq<char>
        decreases self, 0int,
    {
        match self {
            TargetCondition::Always => "TargetCondition::Always"@,
            TargetCondition::Never => "TargetCondition::Never"@,
            TargetCondition::IsSelf => "TargetCondition::IsSelf"@,
            TargetCondition::Adjacent => "TargetCondition::Adjacent"@,
            TargetCondition::HasCooldown => "TargetCondition::HasCooldown"@,
            TargetCondition::HasOwner(owner) => "TargetCondition::HasOwner(PlayerTarget::"@ + owner.name_text() + ")"@,
            TargetCondition::HasTag(tag) => "TargetCondition::HasTag(Tag::"@ + tag.name_text() + ")"@,
            TargetCondition::HasSize(size) => "TargetCondition::HasSize(Size::"@ + size.name_text() + ")"@,
            TargetCondition::NameIncludes(text) => "TargetCondition::NameIncludes("@ + quoted(text@) + ".to_string())"@,
            TargetCondition::And(a, b) => "TargetCondition::And(Box::new("@ + a.source_text() + "), Box::new("@ + b.source_text() + "))"@,
            TargetCondition::Or(a, b) => "TargetCondition::Or(Box::new("@ + a.source_text() + "), Box::new("@ + b.source_text() + "))"@,
            TargetCondition::Not(a) => "TargetCondition::Not(Box::new("@ + a.source_text() + "))"@,
            TargetCondition::Raw(text) => "TargetCondition::Raw("@ + quoted(text@) + ".to_string())"@,
        }
    }

    /// Writes the value as source text: an expression that evaluates to it.
    pub fn to_source(&self) -> (text: String)
        ensures
            text@ == self.source_text(),
        decreases self,
    {
        match self {
            TargetCondition::Always => owned("TargetCondition::Always"),
            TargetCondition::Never => owned("TargetCondition::Never"),
            TargetCondition::IsSelf => owned("TargetCondition::IsSelf"),
            TargetCondition::Adjacent => owned("TargetCondition::Adjacent"),
            TargetCondition::HasCooldown => owned("TargetCondition::HasCooldown"),
            TargetCondition::HasOwner(owner) => owned("TargetCondition::HasOwner(PlayerTarget::").concat(owner.name()).concat(")"),
            TargetCondition::HasTag(tag) => owned("TargetCondition::HasTag(Tag::").concat(tag.name()).concat(")"),
            TargetCondition::HasSize(size) => owned("TargetCondition::HasSize(Size::").concat(size.name()).concat(")"),
            TargetCondition::NameIncludes(text) => owned("TargetCondition::NameIncludes(").concat(quote(text.as_str()).as_str()).concat(".to_string())"),
            TargetCondition::And(a, b) => owned("TargetCondition::And(Box::new(").concat(a.to_source().as_str()).concat("), Box::new(").concat(b.to_source().as_str()).concat("))"),
            TargetCondition::Or(a, b) => owned("TargetCondition::Or(Box::new(").concat(a.to_source().as_str()).concat("), Box::new(").concat(b.to_source().as_str()).concat("))"),
            TargetCondition::Not(a) => owned("TargetCondition::Not(Box::new(").concat(a.to_source().as_str()).concat("))"),
            TargetCondition::Raw(text) => owned("TargetCondition::Raw(").concat(quote(text.as_str()).as_str()).concat(".to_string())"),
        }
    }
}

impl CardTarget {
    /// The target as source text.
    pub open spec fn source_text(self) -> Seq<char>
    {
        match self {
            CardTarget(count, condition) => "CardTarget("@ + decimal_text(count as nat) + ", "@ + condition.source_text() + ")"@,
        }
    }

    /// Writes the value as source text: an expression that evaluates to it.
    pub fn to_source(&self) -> (text: String)
        ensures
            text@ == self.source_text(),
    {
        match self {
            CardTarget(count, condition) => owned("CardTarget(").concat(decimal(*count as u128).as_str()).concat(", ").concat(condition.to_source().as_str()).concat(")"),
        }
    }
}

impl DerivedValue<u32> {
    /// The value as source text.
    pub open spec fn source_text(self) -> Seq<char>
    {
        match self {
            DerivedValue::Constant(amount) => "DerivedValue::Constant("@ + decimal_text(amount as nat) + ")"@,
            DerivedValue::FromCard(target, property, percent) => "DerivedValue::FromCard("@ + target.source_text() + ", CardDerivedProperty::"@ + property.name_text() + ", "@ + decimal_text(percent as nat) + ")"@,
            DerivedValue::FromPlayer(target, property, percent) => "DerivedValue::FromPlayer("@ + target.source_text() + ", PlayerDerivedProperty::"@ + property.name_text() + ", "@ + decimal_text(percent as nat) + ")"@,
        }
    }

    /// Writes the value as source text: an expression that evaluates to it.
    pub fn to_source(&self) -> (text: String)
        ensures
            text@ == self.source_text(),
    {
        match self {
            DerivedValue::Constant(amount) => owned("DerivedValue::Constant(").concat(decimal(*amount as u128).as_str()).concat(")"),
            DerivedValue::FromCard(target, property, percent) => owned("DerivedValue::FromCard(").concat(target.to_source().as_str()).concat(", CardDerivedProperty::").concat(property.name()).concat(", ").concat(decimal(*percent as u128).as_str()).concat(")"),
            DerivedValue::FromPlayer(target, property, percent) => owned("DerivedValue::FromPlayer(").concat(target.to_source().as_str()).concat(", PlayerDerivedProperty::").concat(property.name()).concat(", ").concat(decimal(*percent as u128).as_str()).concat(")"),
        }
    }
}

/// The condition of an obtained item as source text.
pub open spec fn condition_text(condition: Option<Condition>) -> Seq<char> {
    match condition {
        Some(condition) => "Some("@ + condition.source_text() + ")"@,
        None => "None"@,
    }
}

impl ObtainedEffectItem {
    /// The item as source text.
    pub open spec fn source_text(self) -> Seq<char> {
        "ObtainedEffectItem { name: "@ + quoted(self.name@) + ".to_string(), count: "@
            + decimal_text(self.count as nat) + ", condition: "@ + condition_text(self.condition)
            + " }"@
    }

    /// Writes the item as source text: an expression that evaluates to it.
    pub fn to_source(&self) -> (text: String)
        ensures
            text@ == self.source_text(),
    {
        let condition = match &self.condition {
            Some(condition) => owned("Some(").concat(condition.to_source().as_str()).concat(")"),
            None => owned("None"),
        };
        owned("ObtainedEffectItem { name: ").concat(quote(self.name.as_str()).as_str()).concat(
            ".to_string(), count: ",
        ).concat(decimal(self.count as u128).as_str()).concat(", condition: ").concat(
            condition.as_str(),
        ).concat(" }")
    }
}

/// The first `n` items of a list as source text, set apart by a comma and
/// a space.
pub open spec fn items_text(items: Seq<ObtainedEffectItem>, n: int) -> Seq<char>
    decreases n,
{
    if n <= 0 {
        Seq::empty()
    } else if n == 1 {
        items[0].source_text()
    } else {
        items_text(items, n - 1) + ", "@ + items[n - 1].source_text()
    }
}

/// Writes a list of items as source text.
pub fn items_to_source(items: &Vec<ObtainedEffectItem>) -> (text: String)
    ensures
        text@ == items_text(items@, items@.len() as int),
{
    let mut text = String::new();
    let mut i: usize = 0;
    while i < items.len()
        invariant
            i <= items@.len(),
            text@ == items_text(items@, i as int),
        decreases items@.len() - i,
    {
        if i > 0 {
            text.append(", ");
        }
        text.append(items[i].to_source().as_str());
        assert(text@ =~= items_text(items@, i as int + 1));
        i = i + 1;
    }
    text
}

} // verus!
