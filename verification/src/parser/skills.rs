//! Skills of the data files.

use crate::models::card::CardCombatEncounter;
use crate::models::tooltip::base::Tooltip;
use crate::parser::cards::{
    encounter_failure, encounters_read, encounters_text, encounters_to_source, parse_tooltips,
    read_encounters, strings_text, strings_to_source, tiers_text, tiers_to_source,
    tooltip_views, tooltips_of,
};
use crate::parser::json::{text_views, Json, JsonError};
use crate::parser::wrappers::{tag_strlist, tagged_list};
use crate::text::{owned, pascal_case, quote, quoted, to_pascal_case};
use vstd::prelude::*;

verus! {

/// The fields of a skill as the data file gives them, with the tooltips
/// read.
pub struct JsonSkillFields {
    pub id: String,
    pub name: String,
    pub starting_tier: String,
    pub bronze: Vec<Tooltip>,
    pub silver: Vec<Tooltip>,
    pub gold: Vec<Tooltip>,
    pub diamond: Vec<Tooltip>,
    pub legendary: Vec<Tooltip>,
    pub tags: Vec<String>,
    pub hidden_tags: Vec<String>,
    pub custom_tags: Vec<String>,
    pub heroes: Vec<String>,
    pub unified_tooltips: Vec<String>,
    /// The name of the pack, in upper camel case.
    pub pack_id: String,
    pub combat_encounters: Vec<CardCombatEncounter>,
}

impl JsonSkillFields {
    /// Why the fields of a skill cannot be taken from a value, if they
    /// cannot: the first of the fields `id`, `name`, `packId`,
    /// `startingTier`, the tooltips of the five tiers, `tags`, `hiddenTags`,
    /// `customTags`, `heroes`, `unifiedTooltips`, `combatEncounters` that is
    /// missing or of the wrong kind.
    pub open spec fn failure(value: Json) -> Option<JsonError> {
        if value.field_text("id"@) is Err || value.field_text("name"@) is Err || value.field_text(
            "packId"@,
        ) is Err || value.field_text("startingTier"@) is Err {
            Some(JsonError::InvalidText)
        } else if value.tier_texts("Bronze"@) is Err {
            Some(value.tier_texts("Bronze"@)->Err_0)
        } else if value.tier_texts("Silver"@) is Err {
            Some(value.tier_texts("Silver"@)->Err_0)
        } else if value.tier_texts("Gold"@) is Err {
            Some(value.tier_texts("Gold"@)->Err_0)
        } else if value.tier_texts("Diamond"@) is Err {
            Some(value.tier_texts("Diamond"@)->Err_0)
        } else if value.tier_texts("Legendary"@) is Err {
            Some(value.tier_texts("Legendary"@)->Err_0)
        } else if value.field_texts("tags"@) is Err {
            Some(value.field_texts("tags"@)->Err_0)
        } else if value.field_texts("hiddenTags"@) is Err {
            Some(value.field_texts("hiddenTags"@)->Err_0)
        } else if value.field_texts("customTags"@) is Err {
            Some(value.field_texts("customTags"@)->Err_0)
        } else if value.field_texts("heroes"@) is Err {
            Some(value.field_texts("heroes"@)->Err_0)
        } else if value.field_texts("unifiedTooltips"@) is Err {
            Some(value.field_texts("unifiedTooltips"@)->Err_0)
        } else if value.field_items("combatEncounters"@) is Err {
            Some(JsonError::InvalidList)
        } else {
            encounter_failure(
                value.field_items("combatEncounters"@)->Ok_0,
                value.field_items("combatEncounters"@)->Ok_0.len() as int,
            )
        }
    }

    /// Whether these are the fields that a value gives.
    pub open spec fn read_from(self, value: Json) -> bool {
        &&& value.field_text("id"@) == Ok::<Seq<char>, JsonError>(self.id@)
        &&& value.field_text("name"@) == Ok::<Seq<char>, JsonError>(self.name@)
        &&& value.field_text("packId"@) is Ok
        &&& self.pack_id@ == pascal_case(value.field_text("packId"@)->Ok_0)
        &&& value.field_text("startingTier"@) == Ok::<Seq<char>, JsonError>(self.starting_tier@)
        &&& value.tier_texts("Bronze"@) is Ok && tooltip_views(self.bronze@) == tooltips_of(
            value.tier_texts("Bronze"@)->Ok_0,
        )
        &&& value.tier_texts("Silver"@) is Ok && tooltip_views(self.silver@) == tooltips_of(
            value.tier_texts("Silver"@)->Ok_0,
        )
        &&& value.tier_texts("Gold"@) is Ok && tooltip_views(self.gold@) == tooltips_of(
            value.tier_texts("Gold"@)->Ok_0,
        )
        &&& value.tier_texts("Diamond"@) is Ok && tooltip_views(self.diamond@) == tooltips_of(
            value.tier_texts("Diamond"@)->Ok_0,
        )
        &&& value.tier_texts("Legendary"@) is Ok && tooltip_views(self.legendary@) == tooltips_of(
            value.tier_texts("Legendary"@)->Ok_0,
        )
        &&& value.field_texts("tags"@) == Ok::<Seq<Seq<char>>, JsonError>(text_views(self.tags@))
        &&& value.field_texts("hiddenTags"@) == Ok::<Seq<Seq<char>>, JsonError>(
            text_views(self.hidden_tags@),
        )
        &&& value.field_texts("customTags"@) == Ok::<Seq<Seq<char>>, JsonError>(
            text_views(self.custom_tags@),
        )
        &&& value.field_texts("heroes"@) == Ok::<Seq<Seq<char>>, JsonError>(
            text_views(self.heroes@),
        )
        &&& value.field_texts("unifiedTooltips"@) == Ok::<Seq<Seq<char>>, JsonError>(
            text_views(self.unified_tooltips@),
        )
        &&& value.field_items("combatEncounters"@) is Ok
        &&& self.combat_encounters@.len() == value.field_items("combatEncounters"@)->Ok_0.len()
        &&& encounters_read(
            self.combat_encounters@,
            value.field_items("combatEncounters"@)->Ok_0,
            self.combat_encounters@.len() as int,
        )
    }

    /// Takes the fields of a skill from a value of the data file. The
    /// fields are taken in a fixed order, and the first that is missing or
    /// of the wrong kind fails the reading.
    pub fn try_from(value: &Json) -> (fields: Result<JsonSkillFields, JsonError>)
        ensures
            match fields {
                Ok(read) => Self::failure(*value) is None && read.read_from(*value),
                Err(error) => Self::failure(*value) == Some(error),
            },
    {
        let id = match value.text_of("id") {
            Ok(text) => text,
            Err(error) => {
                return Err(error);
            },
        };
        let name = match value.text_of("name") {
            Ok(text) => text,
            Err(error) => {
                return Err(error);
            },
        };
        let pack = match value.text_of("packId") {
            Ok(text) => text,
            Err(error) => {
                return Err(error);
            },
        };
        let starting_tier = match value.text_of("startingTier") {
            Ok(text) => text,
            Err(error) => {
                return Err(error);
            },
        };
        let bronze = match value.tier_texts_of("Bronze") {
            Ok(lines) => lines,
            Err(error) => {
                return Err(error);
            },
        };
        let silver = match value.tier_texts_of("Silver") {
            Ok(lines) => lines,
            Err(error) => {
                return Err(error);
            },
        };
        let gold = match value.tier_texts_of("Gold") {
            Ok(lines) => lines,
            Err(error) => {
                return Err(error);
            },
        };
        let diamond = match value.tier_texts_of("Diamond") {
            Ok(lines) => lines,
            Err(error) => {
                return Err(error);
            },
        };
        let legendary = match value.tier_texts_of("Legendary") {
            Ok(lines) => lines,
            Err(error) => {
                return Err(error);
            },
        };
        let tags = match value.texts_of("tags") {
            Ok(texts) => texts,
            Err(error) => {
                return Err(error);
            },
        };
        let hidden_tags = match value.texts_of("hiddenTags") {
            Ok(texts) => texts,
            Err(error) => {
                return Err(error);
            },
        };
        let custom_tags = match value.texts_of("customTags") {
            Ok(texts) => texts,
            Err(error) => {
                return Err(error);
            },
        };
        let heroes = match value.texts_of("heroes") {
            Ok(texts) => texts,
            Err(error) => {
                return Err(error);
            },
        };
        let unified_tooltips = match value.texts_of("unifiedTooltips") {
            Ok(texts) => texts,
            Err(error) => {
                return Err(error);
            },
        };
        let encounter_items = match value.items_of("combatEncounters") {
            Ok(items) => items,
            Err(error) => {
                return Err(error);
            },
        };
        let combat_encounters = match read_encounters(encounter_items) {
            Ok(list) => list,
            Err(error) => {
                return Err(error);
            },
        };
        Ok(
            JsonSkillFields {
                id,
                name,
                starting_tier,
                bronze: parse_tooltips(&bronze),
                silver: parse_tooltips(&silver),
                gold: parse_tooltips(&gold),
                diamond: parse_tooltips(&diamond),
                legendary: parse_tooltips(&legendary),
                tags,
                hidden_tags,
                custom_tags,
                heroes,
                unified_tooltips,
                pack_id: to_pascal_case(pack.as_str()),
                combat_encounters,
            },
        )
    }

    /// The skill as source text: an expression that evaluates to the
    /// definition of the skill.
    pub open spec fn inner_source(self) -> Seq<char> {
        "Skill { id: "@ + quoted(self.id@) + ".to_string(), name: "@ + quoted(self.name@)
            + ".to_string(), starting_tier: Tier::"@ + self.starting_tier@ + ", tiers: "@
            + tiers_text(self.bronze@, self.silver@, self.gold@, self.diamond@, self.legendary@)
            + ", tags: Arc::new(vec!["@ + tagged_list("Tag"@, self.tags@)
            + "]), hidden_tags: Arc::new(vec!["@ + tagged_list("Tag"@, self.hidden_tags@)
            + "]), custom_tags: Arc::new(vec!["@ + tagged_list("Tag"@, self.custom_tags@)
            + "]), heroes: Arc::new(vec!["@ + tagged_list("Hero"@, self.heroes@)
            + "]), unified_tooltips: Arc::new(vec!["@ + strings_text(
            self.unified_tooltips@,
            self.unified_tooltips@.len() as int,
        ) + "]), pack_id: PackId::"@ + self.pack_id@ + ", combat_encounters: Arc::new(vec!["@
            + encounters_text(self.combat_encounters@, self.combat_encounters@.len() as int)
            + "]), }"@
    }

    /// Writes the skill as source text: an expression that evaluates to
    /// the definition of the skill.
    pub fn to_inner_source(&self) -> (text: String)
        ensures
            text@ == self.inner_source(),
    {
        let mut text = owned("Skill { id: ");
        text.append(quote(self.id.as_str()).as_str());
        text.append(".to_string(), name: ");
        text.append(quote(self.name.as_str()).as_str());
        text.append(".to_string(), starting_tier: Tier::");
        text.append(self.starting_tier.as_str());
        text.append(", tiers: ");
        text.append(
            tiers_to_source(
                &self.bronze,
                &self.silver,
                &self.gold,
                &self.diamond,
                &self.legendary,
            ).as_str(),
        );
        text.append(", tags: Arc::new(vec![");
        text.append(tag_strlist("Tag", &self.tags).as_str());
        text.append("]), hidden_tags: Arc::new(vec![");
        text.append(tag_strlist("Tag", &self.hidden_tags).as_str());
        text.append("]), custom_tags: Arc::new(vec![");
        text.append(tag_strlist("Tag", &self.custom_tags).as_str());
        text.append("]), heroes: Arc::new(vec![");
        text.append(tag_strlist("Hero", &self.heroes).as_str());
        text.append("]), unified_tooltips: Arc::new(vec![");
        text.append(strings_to_source(&self.unified_tooltips).as_str());
        text.append("]), pack_id: PackId::");
        text.append(self.pack_id.as_str());
        text.append(", combat_encounters: Arc::new(vec![");
        text.append(encounters_to_source(&self.combat_encounters).as_str());
        text.append("]), }");
        assert(text@ =~= self.inner_source());
        text
    }

    /// The source file of the skill: a struct of the given name whose
    /// `new` gives the definition of the skill.
    pub open spec fn source_code(self, struct_name: Seq<char>) -> Seq<char> {
        "// @generated\nuse simulator::models::*; use std::sync::Arc; pub struct "@ + struct_name
            + "; impl "@ + struct_name + " { pub fn new() -> Skill { "@ + self.inner_source()
            + " } }"@
    }

    /// Writes the source file of the skill.
    pub fn to_source_code(self, struct_name: &str) -> (text: String)
        ensures
            text@ == self.source_code(struct_name@),
    {
        owned("// @generated\nuse simulator::models::*; use std::sync::Arc; pub struct ").concat(
            struct_name,
        ).concat("; impl ").concat(struct_name).concat(" { pub fn new() -> Skill { ").concat(
            self.to_inner_source().as_str(),
        ).concat(" } }")
    }
}

} // verus!
