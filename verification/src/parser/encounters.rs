//! Encounters of the data files.

use crate::parser::cards::JsonCardFields;
use crate::parser::json::{Json, JsonError};
use crate::parser::skills::JsonSkillFields;
use crate::text::{owned, quote, quoted, signed_decimal, signed_text};
use vstd::prelude::*;

verus! {

/// A skill of an encounter: the skill and the tier it is met at.
pub struct JsonEncounterSkillFields {
    pub skill: JsonSkillFields,
    pub tier: String,
}

/// A card of an encounter: the card, the tier it is met at, and its
/// enchantment if it has one.
pub struct JsonEncounterCardFields {
    pub card: JsonCardFields,
    pub tier: String,
    pub enchantment: Option<String>,
}

/// The fields of an encounter as the data file gives them.
pub struct JsonEncounterFields {
    pub id: String,
    pub name: String,
    pub level: i64,
    pub health: i64,
    /// The day of the encounter, if it has one; an encounter without a day
    /// is an event.
    pub day: Option<i64>,
    pub cards: Vec<JsonEncounterCardFields>,
    pub skills: Vec<JsonEncounterSkillFields>,
}

/// The value under `card`, or nothing where there is none.
pub open spec fn carried(value: Json) -> Json {
    match value.member("card"@) {
        Some(card) => card,
        None => Json::Null,
    }
}

impl JsonEncounterSkillFields {
    /// Why the skill of an encounter cannot be taken from a value, if it
    /// cannot: the skill under `card`, then the text under `tierType`.
    pub open spec fn failure(value: Json) -> Option<JsonError> {
        if JsonSkillFields::failure(carried(value)) is Some {
            JsonSkillFields::failure(carried(value))
        } else if value.field_text("tierType"@) is Err {
            Some(JsonError::InvalidText)
        } else {
            None
        }
    }

    /// Whether this is the skill that a value gives.
    pub open spec fn read_from(self, value: Json) -> bool {
        self.skill.read_from(carried(value)) && value.field_text("tierType"@) == Ok::<
            Seq<char>,
            JsonError,
        >(self.tier@)
    }

    /// Takes the skill of an encounter from a value of the data file.
    pub fn try_from(input: &Json) -> (fields: Result<JsonEncounterSkillFields, JsonError>)
        ensures
            match fields {
                Ok(read) => Self::failure(*input) is None && read.read_from(*input),
                Err(error) => Self::failure(*input) == Some(error),
            },
    {
        let nothing = Json::Null;
        let reference = match input.get("card") {
            Some(card) => card,
            None => &nothing,
        };
        let skill = match JsonSkillFields::try_from(reference) {
            Ok(skill) => skill,
            Err(error) => {
                return Err(error);
            },
        };
        let tier = match input.text_of("tierType") {
            Ok(tier) => tier,
            Err(error) => {
                return Err(error);
            },
        };
        Ok(JsonEncounterSkillFields { skill, tier })
    }

    /// The skill of the encounter as source text.
    pub open spec fn inner_source(self) -> Seq<char> {
        "TieredSkill { tier: Tier::"@ + self.tier@ + ", skill: "@ + self.skill.inner_source()
            + ", }"@
    }

    /// Writes the skill of the encounter as source text.
    pub fn to_inner_source(&self) -> (text: String)
        ensures
            text@ == self.inner_source(),
    {
        owned("TieredSkill { tier: Tier::").concat(self.tier.as_str()).concat(", skill: ").concat(
            self.skill.to_inner_source().as_str(),
        ).concat(", }")
    }
}

impl JsonEncounterCardFields {
    /// Why the card of an encounter cannot be taken from a value, if it
    /// cannot: the card under `card`, then the text under `tierType`.
    pub open spec fn failure(value: Json) -> Option<JsonError> {
        if JsonCardFields::failure(carried(value)) is Some {
            JsonCardFields::failure(carried(value))
        } else if value.field_text("tierType"@) is Err {
            Some(JsonError::InvalidText)
        } else {
            None
        }
    }

    /// Whether this is the card that a value gives; the enchantment is the
    /// text under `enchantmentType`, if there is one.
    pub open spec fn read_from(self, value: Json) -> bool {
        &&& self.card.read_from(carried(value))
        &&& value.field_text("tierType"@) == Ok::<Seq<char>, JsonError>(self.tier@)
        &&& match self.enchantment {
            Some(kind) => value.field_text("enchantmentType"@) == Ok::<Seq<char>, JsonError>(
                kind@,
            ),
            None => value.field_text("enchantmentType"@) is Err,
        }
    }

    /// Takes the card of an encounter from a value of the data file.
    pub fn try_from(input: &Json) -> (fields: Result<JsonEncounterCardFields, JsonError>)
        ensures
            match fields {
                Ok(read) => Self::failure(*input) is None && read.read_from(*input),
                Err(error) => Self::failure(*input) == Some(error),
            },
    {
        let nothing = Json::Null;
        let reference = match input.get("card") {
            Some(card) => card,
            None => &nothing,
        };
        let card = match JsonCardFields::try_from(reference) {
            Ok(card) => card,
            Err(error) => {
                return Err(error);
            },
        };
        let enchantment = match input.text_of("enchantmentType") {
            Ok(kind) => Some(kind),
            Err(_) => None,
        };
        let tier = match input.text_of("tierType") {
            Ok(tier) => tier,
            Err(error) => {
                return Err(error);
            },
        };
        Ok(JsonEncounterCardFields { card, tier, enchantment })
    }

    /// The enchantment of the card as source text.
    pub open spec fn enchantment_source(self) -> Seq<char> {
        match self.enchantment {
            Some(kind) => "Some(Enchantment::"@ + kind@ + ")"@,
            None => "None"@,
        }
    }

    /// The card of the encounter as source text.
    pub open spec fn inner_source(self) -> Seq<char> {
        "EncounterCard { enchantment: "@ + self.enchantment_source()
            + ", card: TieredCard { tier: Tier::"@ + self.tier@ + ", card: "@
            + self.card.inner_source() + ", }, }"@
    }

    /// Writes the card of the encounter as source text.
    pub fn to_inner_source(&self) -> (text: String)
        ensures
            text@ == self.inner_source(),
    {
        let enchantment = match &self.enchantment {
            Some(kind) => owned("Some(Enchantment::").concat(kind.as_str()).concat(")"),
            None => owned("None"),
        };
        owned("EncounterCard { enchantment: ").concat(enchantment.as_str()).concat(
            ", card: TieredCard { tier: Tier::",
        ).concat(self.tier.as_str()).concat(", card: ").concat(
            self.card.to_inner_source().as_str(),
        ).concat(", }, }")
    }
}

/// Why the first of the first `n` items that gives no card gives none.
pub open spec fn cards_failure(items: Seq<Json>, n: int) -> Option<JsonError>
    decreases n,
{
    if n <= 0 {
        None
    } else if cards_failure(items, n - 1) is Some {
        cards_failure(items, n - 1)
    } else {
        JsonEncounterCardFields::failure(items[n - 1])
    }
}

/// Why the first of the first `n` items that gives no skill gives none.
pub open spec fn skills_failure(items: Seq<Json>, n: int) -> Option<JsonError>
    decreases n,
{
    if n <= 0 {
        None
    } else if skills_failure(items, n - 1) is Some {
        skills_failure(items, n - 1)
    } else {
        JsonEncounterSkillFields::failure(items[n - 1])
    }
}

/// A failure among the first `n` items is the failure among any more.
pub proof fn cards_failure_stays(items: Seq<Json>, n: int, m: int)
    requires
        0 <= n <= m,
        cards_failure(items, n) is Some,
    ensures
        cards_failure(items, m) == cards_failure(items, n),
    decreases m - n,
{
    if n < m {
        cards_failure_stays(items, n, m - 1);
    }
}

/// A failure among the first `n` items is the failure among any more.
pub proof fn skills_failure_stays(items: Seq<Json>, n: int, m: int)
    requires
        0 <= n <= m,
        skills_failure(items, n) is Some,
    ensures
        skills_failure(items, m) == skills_failure(items, n),
    decreases m - n,
{
    if n < m {
        skills_failure_stays(items, n, m - 1);
    }
}

/// The first `n` cards of a list as source text, set apart by commas.
pub open spec fn cards_source(cards: Seq<JsonEncounterCardFields>, n: int) -> Seq<char>
    decreases n,
{
    if n <= 0 {
        Seq::empty()
    } else if n == 1 {
        cards[0].inner_source()
    } else {
        cards_source(cards, n - 1) + ","@ + cards[n - 1].inner_source()
    }
}

/// The first `n` skills of a list as source text, set apart by commas.
pub open spec fn skills_source(skills: Seq<JsonEncounterSkillFields>, n: int) -> Seq<char>
    decreases n,
{
    if n <= 0 {
        Seq::empty()
    } else if n == 1 {
        skills[0].inner_source()
    } else {
        skills_source(skills, n - 1) + ","@ + skills[n - 1].inner_source()
    }
}

/// Reads the cards of an encounter.
pub fn read_cards(items: &Vec<Json>) -> (cards: Result<Vec<JsonEncounterCardFields>, JsonError>)
    ensures
        match cards {
            Ok(list) => cards_failure(items@, items@.len() as int) is None && list@.len()
                == items@.len() && forall|k: int|
                0 <= k < list@.len() ==> (#[trigger] list@[k]).read_from(items@[k]),
            Err(error) => cards_failure(items@, items@.len() as int) == Some(error),
        },
{
    let mut cards: Vec<JsonEncounterCardFields> = Vec::new();
    let mut i: usize = 0;
    while i < items.len()
        invariant
            i <= items@.len(),
            cards@.len() == i,
            cards_failure(items@, i as int) is None,
            forall|k: int| 0 <= k < i ==> (#[trigger] cards@[k]).read_from(items@[k]),
        decreases items@.len() - i,
    {
        match JsonEncounterCardFields::try_from(&items[i]) {
            Ok(card) => {
                let ghost before = cards@;
                cards.push(card);
                assert forall|k: int| 0 <= k < i + 1 implies (#[trigger] cards@[k]).read_from(
                    items@[k],
                ) by {
                    if k < i {
                        assert(cards@[k] == before[k]);
                    }
                }
            },
            Err(error) => {
                proof {
                    cards_failure_stays(items@, i as int + 1, items@.len() as int);
                }
                return Err(error);
            },
        }
        i = i + 1;
    }
    Ok(cards)
}

/// Reads the skills of an encounter.
pub fn read_skills(items: &Vec<Json>) -> (skills: Result<Vec<JsonEncounterSkillFields>, JsonError>)
    ensures
        match skills {
            Ok(list) => skills_failure(items@, items@.len() as int) is None && list@.len()
                == items@.len() && forall|k: int|
                0 <= k < list@.len() ==> (#[trigger] list@[k]).read_from(items@[k]),
            Err(error) => skills_failure(items@, items@.len() as int) == Some(error),
        },
{
    let mut skills: Vec<JsonEncounterSkillFields> = Vec::new();
    let mut j: usize = 0;
    while j < items.len()
        invariant
            j <= items@.len(),
            skills@.len() == j,
            skills_failure(items@, j as int) is None,
            forall|k: int| 0 <= k < j ==> (#[trigger] skills@[k]).read_from(items@[k]),
        decreases items@.len() - j,
    {
        match JsonEncounterSkillFields::try_from(&items[j]) {
            Ok(skill) => {
                let ghost before = skills@;
                skills.push(skill);
                assert forall|k: int| 0 <= k < j + 1 implies (#[trigger] skills@[k]).read_from(
                    items@[k],
                ) by {
                    if k < j {
                        assert(skills@[k] == before[k]);
                    }
                }
            },
            Err(error) => {
                proof {
                    skills_failure_stays(items@, j as int + 1, items@.len() as int);
                }
                return Err(error);
            },
        }
        j = j + 1;
    }
    Ok(skills)
}

/// Writes the cards of an encounter as source text.
pub fn cards_to_source(cards: &Vec<JsonEncounterCardFields>) -> (text: String)
    ensures
        text@ == cards_source(cards@, cards@.len() as int),
{
    let mut text = String::new();
    let mut i: usize = 0;
    while i < cards.len()
        invariant
            i <= cards@.len(),
            text@ == cards_source(cards@, i as int),
        decreases cards@.len() - i,
    {
        if i > 0 {
            text.append(",");
        }
        text.append(cards[i].to_inner_source().as_str());
        assert(text@ =~= cards_source(cards@, i as int + 1));
        i = i + 1;
    }
    text
}

/// Writes the skills of an encounter as source text.
pub fn skills_to_source(skills: &Vec<JsonEncounterSkillFields>) -> (text: String)
    ensures
        text@ == skills_source(skills@, skills@.len() as int),
{
    let mut text = String::new();
    let mut j: usize = 0;
    while j < skills.len()
        invariant
            j <= skills@.len(),
            text@ == skills_source(skills@, j as int),
        decreases skills@.len() - j,
    {
        if j > 0 {
            text.append(",");
        }
        text.append(skills[j].to_inner_source().as_str());
        assert(text@ =~= skills_source(skills@, j as int + 1));
        j = j + 1;
    }
    text
}

impl JsonEncounterFields {
    /// Why the fields of an encounter cannot be taken from a value, if
    /// they cannot: the first of `cardId`, `cardName`, `level`, `health`,
    /// `items`, `skills`, then the cards, then the skills, that is missing
    /// or of the wrong kind.
    pub open spec fn failure(value: Json) -> Option<JsonError> {
        if value.field_text("cardId"@) is Err || value.field_text("cardName"@) is Err {
            Some(JsonError::InvalidText)
        } else if value.field_integer("level"@) is Err || value.field_integer("health"@) is Err {
            Some(JsonError::InvalidInteger)
        } else if value.field_items("items"@) is Err || value.field_items("skills"@) is Err {
            Some(JsonError::InvalidList)
        } else if cards_failure(
            value.field_items("items"@)->Ok_0,
            value.field_items("items"@)->Ok_0.len() as int,
        ) is Some {
            cards_failure(
                value.field_items("items"@)->Ok_0,
                value.field_items("items"@)->Ok_0.len() as int,
            )
        } else {
            skills_failure(
                value.field_items("skills"@)->Ok_0,
                value.field_items("skills"@)->Ok_0.len() as int,
            )
        }
    }

    /// Whether these are the fields that a value gives.
    pub open spec fn read_from(self, value: Json) -> bool {
        &&& value.field_text("cardId"@) == Ok::<Seq<char>, JsonError>(self.id@)
        &&& value.field_text("cardName"@) == Ok::<Seq<char>, JsonError>(self.name@)
        &&& value.field_integer("level"@) == Ok::<i64, JsonError>(self.level)
        &&& value.field_integer("health"@) == Ok::<i64, JsonError>(self.health)
        &&& match self.day {
            Some(day) => value.field_integer("day"@) == Ok::<i64, JsonError>(day),
            None => value.field_integer("day"@) is Err,
        }
        &&& value.field_items("items"@) is Ok
        &&& self.cards@.len() == value.field_items("items"@)->Ok_0.len()
        &&& forall|k: int|
            0 <= k < self.cards@.len() ==> (#[trigger] self.cards@[k]).read_from(
                value.field_items("items"@)->Ok_0[k],
            )
        &&& value.field_items("skills"@) is Ok
        &&& self.skills@.len() == value.field_items("skills"@)->Ok_0.len()
        &&& forall|k: int|
            0 <= k < self.skills@.len() ==> (#[trigger] self.skills@[k]).read_from(
                value.field_items("skills"@)->Ok_0[k],
            )
    }

    /// Takes the fields of an encounter from a value of the data file.
    pub fn try_from(value: &Json) -> (fields: Result<JsonEncounterFields, JsonError>)
        ensures
            match fields {
                Ok(read) => Self::failure(*value) is None && read.read_from(*value),
                Err(error) => Self::failure(*value) == Some(error),
            },
    {
        let id = match value.text_of("cardId") {
            Ok(text) => text,
            Err(error) => {
                return Err(error);
            },
        };
        let name = match value.text_of("cardName") {
            Ok(text) => text,
            Err(error) => {
                return Err(error);
            },
        };
        let level = match value.integer_of("level") {
            Ok(number) => number,
            Err(error) => {
                return Err(error);
            },
        };
        let health = match value.integer_of("health") {
            Ok(number) => number,
            Err(error) => {
                return Err(error);
            },
        };
        let card_items = match value.items_of("items") {
            Ok(items) => items,
            Err(error) => {
                return Err(error);
            },
        };
        let skill_items = match value.items_of("skills") {
            Ok(items) => items,
            Err(error) => {
                return Err(error);
            },
        };
        let cards = match read_cards(card_items) {
            Ok(cards) => cards,
            Err(error) => {
                return Err(error);
            },
        };
        let skills = match read_skills(skill_items) {
            Ok(skills) => skills,
            Err(error) => {
                return Err(error);
            },
        };
        let day = match value.integer_of("day") {
            Ok(day) => Some(day),
            Err(_) => None,
        };
        Ok(JsonEncounterFields { id, name, level, health, day, cards, skills })
    }

    /// The day of the encounter as source text.
    pub open spec fn day_source(self) -> Seq<char> {
        match self.day {
            Some(day) => "Numeric("@ + signed_text(day as int) + ")"@,
            None => "Event"@,
        }
    }

    /// The source file of the encounter: a struct of the given name whose
    /// `new` gives the encounter.
    pub open spec fn source_code(self, struct_name: Seq<char>) -> Seq<char> {
        "// @generated\nuse simulator::models::*; use std::sync::Arc; pub struct "@ + struct_name
            + "; impl "@ + struct_name + " { pub fn new() -> Encounter { Encounter { id: "@
            + quoted(self.id@) + ".to_string(), name: "@ + quoted(self.name@)
            + ".to_string(), level: "@ + signed_text(self.level as int) + ", health: "@
            + signed_text(self.health as int) + ", day: EncounterDay::"@ + self.day_source()
            + ", cards: vec!["@ + cards_source(self.cards@, self.cards@.len() as int)
            + "], skills: vec!["@ + skills_source(self.skills@, self.skills@.len() as int)
            + "], } } } "@
    }

    /// Writes the source file of the encounter.
    pub fn to_source_code(self, struct_name: &str) -> (text: String)
        ensures
            text@ == self.source_code(struct_name@),
    {
        let day = match self.day {
            Some(day) => owned("Numeric(").concat(signed_decimal(day as i128).as_str()).concat(
                ")",
            ),
            None => owned("Event"),
        };
        let cards = cards_to_source(&self.cards);
        let skills = skills_to_source(&self.skills);
        let mut text = owned(
            "// @generated\nuse simulator::models::*; use std::sync::Arc; pub struct ",
        );
        text.append(struct_name);
        text.append("; impl ");
        text.append(struct_name);
        text.append(" { pub fn new() -> Encounter { Encounter { id: ");
        text.append(quote(self.id.as_str()).as_str());
        text.append(".to_string(), name: ");
        text.append(quote(self.name.as_str()).as_str());
        text.append(".to_string(), level: ");
        text.append(signed_decimal(self.level as i128).as_str());
        text.append(", health: ");
        text.append(signed_decimal(self.health as i128).as_str());
        text.append(", day: EncounterDay::");
        text.append(day.as_str());
        text.append(", cards: vec![");
        text.append(cards.as_str());
        text.append("], skills: vec![");
        text.append(skills.as_str());
        text.append("], } } } ");
        assert(text@ =~= self.source_code(struct_name@));
        text
    }
}

} // verus!
