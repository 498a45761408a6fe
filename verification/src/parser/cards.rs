//! Cards of the data files.

use crate::card::modification::copy_tooltips;
use crate::models::card::{Card, CardCombatEncounter};
use crate::models::enchant::{CardEnchantment, Enchantment};
use crate::models::pack_id::PackId;
use crate::models::size::Size;
use crate::models::tag::{Hero, Tag};
use crate::models::tier::{Tier, TieredValue};
use crate::models::tooltip::base::{Tooltip, TooltipView};
use crate::models::tooltip::effect_text::{tooltips_text, tooltips_to_source};
use crate::models::tooltip::tooltip_reading::tooltip_of;
use crate::parser::json::{text_views, Json, JsonError};
use crate::parser::wrappers::{tag_strlist, tagged_list};
use crate::text::{
    lowercase, owned, pascal_case, quote, quoted, to_pascal_case, to_string_expression,
};
use std::sync::Arc;
use vstd::prelude::*;

verus! {

/// An enchantment of a card as the data file gives it: the name of its
/// kind and its tooltips.
pub struct JsonEnchantment {
    pub kind: String,
    pub tooltips: Vec<Tooltip>,
}

/// The fields of a card as the data file gives them, with the tooltips
/// read.
pub struct JsonCardFields {
    pub id: String,
    pub name: String,
    pub starting_tier: String,
    pub size: String,
    pub bronze: Vec<Tooltip>,
    pub silver: Vec<Tooltip>,
    pub gold: Vec<Tooltip>,
    pub diamond: Vec<Tooltip>,
    pub legendary: Vec<Tooltip>,
    pub tags: Vec<String>,
    pub hidden_tags: Vec<String>,
    pub custom_tags: Vec<String>,
    pub heroes: Vec<String>,
    pub unified_tooltips: Vec<String>,
    /// The name of the pack, in upper camel case.
    pub pack_id: String,
    pub combat_encounters: Vec<CardCombatEncounter>,
    pub enchantments: Vec<JsonEnchantment>,
}

/// What each tooltip of a list says.
pub open spec fn tooltip_views(tooltips: Seq<Tooltip>) -> Seq<TooltipView> {
    Seq::new(tooltips.len(), |i: int| tooltips[i]@)
}

/// The tooltips that a list of lines stands for.
pub open spec fn tooltips_of(lines: Seq<Seq<char>>) -> Seq<TooltipView> {
    Seq::new(lines.len(), |i: int| tooltip_of(lowercase(lines[i])))
}

/// Reads each line of a list as a tooltip.
pub fn parse_tooltips(lines: &Vec<String>) -> (tooltips: Vec<Tooltip>)
    ensures
        tooltip_views(tooltips@) == tooltips_of(text_views(lines@)),
{
    let mut tooltips: Vec<Tooltip> = Vec::new();
    let mut i: usize = 0;
    while i < lines.len()
        invariant
            i <= lines@.len(),
            tooltips@.len() == i,
            forall|k: int|
                0 <= k < i ==> (#[trigger] tooltips@[k])@ == tooltip_of(lowercase(lines@[k]@)),
        decreases lines@.len() - i,
    {
        tooltips.push(Tooltip::from_or_raw(lines[i].as_str()));
        i = i + 1;
    }
    assert(tooltip_views(tooltips@) =~= tooltips_of(text_views(lines@)));
    tooltips
}

/// Whether the first `n` encounters are those that the first `n` items of
/// a list give: the texts under `cardId` and `cardName`.
pub open spec fn encounters_read(encounters: Seq<CardCombatEncounter>, items: Seq<Json>, n: int) -> bool {
    forall|k: int|
        0 <= k < n ==> items[k].field_text("cardId"@) == Ok::<Seq<char>, JsonError>(
            (#[trigger] encounters[k]).id@,
        ) && items[k].field_text("cardName"@) == Ok::<Seq<char>, JsonError>(encounters[k].name@)
}

/// Why the first of the first `n` items that gives no encounter gives none.
pub open spec fn encounter_failure(items: Seq<Json>, n: int) -> Option<JsonError>
    decreases n,
{
    if n <= 0 {
        None
    } else if encounter_failure(items, n - 1) is Some {
        encounter_failure(items, n - 1)
    } else if items[n - 1].field_text("cardId"@) is Err || items[n - 1].field_text("cardName"@)
        is Err {
        Some(JsonError::InvalidText)
    } else {
        None
    }
}

/// Reads the encounters of a card or a skill.
pub fn read_encounters(items: &Vec<Json>) -> (encounters: Result<
    Vec<CardCombatEncounter>,
    JsonError,
>)
    ensures
        match encounters {
            Ok(list) => encounter_failure(items@, items@.len() as int) is None && list@.len()
                == items@.len() && encounters_read(list@, items@, items@.len() as int),
            Err(error) => encounter_failure(items@, items@.len() as int) == Some(error),
        },
{
    let mut list: Vec<CardCombatEncounter> = Vec::new();
    let mut i: usize = 0;
    while i < items.len()
        invariant
            i <= items@.len(),
            list@.len() == i,
            encounter_failure(items@, i as int) is None,
            encounters_read(list@, items@, i as int),
        decreases items@.len() - i,
    {
        let id = match items[i].text_of("cardId") {
            Ok(id) => id,
            Err(error) => {
                proof {
                    encounter_failure_stays(items@, i as int + 1, items@.len() as int);
                }
                return Err(error);
            },
        };
        let name = match items[i].text_of("cardName") {
            Ok(name) => name,
            Err(error) => {
                proof {
                    encounter_failure_stays(items@, i as int + 1, items@.len() as int);
                }
                return Err(error);
            },
        };
        let ghost before = list@;
        list.push(CardCombatEncounter { id, name });
        assert forall|k: int| 0 <= k < i + 1 implies items@[k].field_text("cardId"@) == Ok::<
            Seq<char>,
            JsonError,
        >((#[trigger] list@[k]).id@) && items@[k].field_text("cardName"@) == Ok::<
            Seq<char>,
            JsonError,
        >(list@[k].name@) by {
            if k < i {
                assert(list@[k] == before[k]);
            }
        }
        i = i + 1;
    }
    Ok(list)
}

/// A failure among the first `n` items is the failure among any more.
pub proof fn encounter_failure_stays(items: Seq<Json>, n: int, m: int)
    requires
        0 <= n <= m,
        encounter_failure(items, n) is Some,
    ensures
        encounter_failure(items, m) == encounter_failure(items, n),
    decreases m - n,
{
    if n < m {
        encounter_failure_stays(items, n, m - 1);
    }
}

/// Whether the first `n` enchantments are those that the first `n` items
/// of a list give: the text under `type` and the tooltips under `tooltips`.
pub open spec fn enchantments_read(enchantments: Seq<JsonEnchantment>, items: Seq<Json>, n: int) -> bool {
    forall|k: int|
        0 <= k < n ==> items[k].field_text("type"@) == Ok::<Seq<char>, JsonError>(
            (#[trigger] enchantments[k]).kind@,
        ) && items[k].field_texts("tooltips"@) is Ok && tooltip_views(enchantments[k].tooltips@)
            == tooltips_of(items[k].field_texts("tooltips"@)->Ok_0)
}

/// Why the first of the first `n` items that gives no enchantment gives none.
pub open spec fn enchantment_failure(items: Seq<Json>, n: int) -> Option<JsonError>
    decreases n,
{
    if n <= 0 {
        None
    } else if enchantment_failure(items, n - 1) is Some {
        enchantment_failure(items, n - 1)
    } else if items[n - 1].field_text("type"@) is Err {
        Some(JsonError::InvalidText)
    } else if items[n - 1].field_texts("tooltips"@) is Err {
        Some(items[n - 1].field_texts("tooltips"@)->Err_0)
    } else {
        None
    }
}

/// A failure among the first `n` items is the failure among any more.
pub proof fn enchantment_failure_stays(items: Seq<Json>, n: int, m: int)
    requires
        0 <= n <= m,
        enchantment_failure(items, n) is Some,
    ensures
        enchantment_failure(items, m) == enchantment_failure(items, n),
    decreases m - n,
{
    if n < m {
        enchantment_failure_stays(items, n, m - 1);
    }
}

/// Reads the enchantments of a card.
pub fn read_enchantments(items: &Vec<Json>) -> (enchantments: Result<
    Vec<JsonEnchantment>,
    JsonError,
>)
    ensures
        match enchantments {
            Ok(list) => enchantment_failure(items@, items@.len() as int) is None && list@.len()
                == items@.len() && enchantments_read(list@, items@, items@.len() as int),
            Err(error) => enchantment_failure(items@, items@.len() as int) == Some(error),
        },
{
    let mut list: Vec<JsonEnchantment> = Vec::new();
    let mut i: usize = 0;
    while i < items.len()
        invariant
            i <= items@.len(),
            list@.len() == i,
            enchantment_failure(items@, i as int) is None,
            enchantments_read(list@, items@, i as int),
        decreases items@.len() - i,
    {
        let kind = match items[i].text_of("type") {
            Ok(kind) => kind,
            Err(error) => {
                proof {
                    enchantment_failure_stays(items@, i as int + 1, items@.len() as int);
                }
                return Err(error);
            },
        };
        let lines = match items[i].texts_of("tooltips") {
            Ok(lines) => lines,
            Err(error) => {
                proof {
                    enchantment_failure_stays(items@, i as int + 1, items@.len() as int);
                }
                return Err(error);
            },
        };
        let ghost before = list@;
        let enchantment = JsonEnchantment { kind, tooltips: parse_tooltips(&lines) };
        list.push(enchantment);
        assert forall|k: int| 0 <= k < i + 1 implies items@[k].field_text("type"@) == Ok::<
            Seq<char>,
            JsonError,
        >((#[trigger] list@[k]).kind@) && items@[k].field_texts("tooltips"@) is Ok
            && tooltip_views(list@[k].tooltips@) == tooltips_of(
            items@[k].field_texts("tooltips"@)->Ok_0,
        ) by {
            if k < i {
                assert(list@[k] == before[k]);
            }
        }
        i = i + 1;
    }
    Ok(list)
}

impl JsonCardFields {
    /// Why the fields of a card cannot be taken from a value, if they
    /// cannot.
    pub open spec fn failure(value: Json) -> Option<JsonError> {
        if value.field_text("id"@) is Err || value.field_text("name"@) is Err || value.field_text(
            "packId"@,
        ) is Err || value.field_text("startingTier"@) is Err || value.field_text("size"@)
            is Err {
            Some(JsonError::InvalidText)
        } else if value.tier_texts("Bronze"@) is Err {
            Some(value.tier_texts("Bronze"@)->Err_0)
        } else if value.tier_texts("Silver"@) is Err {
            Some(value.tier_texts("Silver"@)->Err_0)
        } else if value.tier_texts("Gold"@) is Err {
            Some(value.tier_texts("Gold"@)->Err_0)
        } else if value.tier_texts("Diamond"@) is Err {
            Some(value.tier_texts("Diamond"@)->Err_0)
        } else if value.tier_texts("Legendary"@) is Err {
            Some(value.tier_texts("Legendary"@)->Err_0)
        } else if value.field_texts("tags"@) is Err {
            Some(value.field_texts("tags"@)->Err_0)
        } else if value.field_texts("hiddenTags"@) is Err {
            Some(value.field_texts("hiddenTags"@)->Err_0)
        } else if value.field_texts("customTags"@) is Err {
            Some(value.field_texts("customTags"@)->Err_0)
        } else if value.field_texts("heroes"@) is Err {
            Some(value.field_texts("heroes"@)->Err_0)
        } else if value.field_texts("unifiedTooltips"@) is Err {
            Some(value.field_texts("unifiedTooltips"@)->Err_0)
        } else if value.field_items("combatEncounters"@) is Err || value.field_items(
            "enchantments"@,
        ) is Err {
            Some(JsonError::InvalidList)
        } else if encounter_failure(
            value.field_items("combatEncounters"@)->Ok_0,
            value.field_items("combatEncounters"@)->Ok_0.len() as int,
        ) is Some {
            encounter_failure(
                value.field_items("combatEncounters"@)->Ok_0,
                value.field_items("combatEncounters"@)->Ok_0.len() as int,
            )
        } else {
            enchantment_failure(
                value.field_items("enchantments"@)->Ok_0,
                value.field_items("enchantments"@)->Ok_0.len() as int,
            )
        }
    }

    /// Whether these are the fields that a value gives: each text as it
    /// stands in the value, the name of the pack in upper camel case, and
    /// each line of a tier or an enchantment read as a tooltip.
    pub open spec fn read_from(self, value: Json) -> bool {
        &&& value.field_text("id"@) == Ok::<Seq<char>, JsonError>(self.id@)
        &&& value.field_text("name"@) == Ok::<Seq<char>, JsonError>(self.name@)
        &&& value.field_text("packId"@) is Ok
        &&& self.pack_id@ == pascal_case(value.field_text("packId"@)->Ok_0)
        &&& value.field_text("startingTier"@) == Ok::<Seq<char>, JsonError>(self.starting_tier@)
        &&& value.field_text("size"@) == Ok::<Seq<char>, JsonError>(self.size@)
        &&& value.tier_texts("Bronze"@) is Ok && tooltip_views(self.bronze@) == tooltips_of(
            value.tier_texts("Bronze"@)->Ok_0,
        )
        &&& value.tier_texts("Silver"@) is Ok && tooltip_views(self.silver@) == tooltips_of(
            value.tier_texts("Silver"@)->Ok_0,
        )
        &&& value.tier_texts("Gold"@) is Ok && tooltip_views(self.gold@) == tooltips_of(
            value.tier_texts("Gold"@)->Ok_0,
        )
        &&& value.tier_texts("Diamond"@) is Ok && tooltip_views(self.diamond@) == tooltips_of(
            value.tier_texts("Diamond"@)->Ok_0,
        )
        &&& value.tier_texts("Legendary"@) is Ok && tooltip_views(self.legendary@) == tooltips_of(
            value.tier_texts("Legendary"@)->Ok_0,
        )
        &&& value.field_texts("tags"@) == Ok::<Seq<Seq<char>>, JsonError>(text_views(self.tags@))
        &&& value.field_texts("hiddenTags"@) == Ok::<Seq<Seq<char>>, JsonError>(
            text_views(self.hidden_tags@),
        )
        &&& value.field_texts("customTags"@) == Ok::<Seq<Seq<char>>, JsonError>(
            text_views(self.custom_tags@),
        )
        &&& value.field_texts("heroes"@) == Ok::<Seq<Seq<char>>, JsonError>(
            text_views(self.heroes@),
        )
        &&& value.field_texts("unifiedTooltips"@) == Ok::<Seq<Seq<char>>, JsonError>(
            text_views(self.unified_tooltips@),
        )
        &&& value.field_items("combatEncounters"@) is Ok
        &&& self.combat_encounters@.len() == value.field_items("combatEncounters"@)->Ok_0.len()
        &&& encounters_read(
            self.combat_encounters@,
            value.field_items("combatEncounters"@)->Ok_0,
            self.combat_encounters@.len() as int,
        )
        &&& value.field_items("enchantments"@) is Ok
        &&& self.enchantments@.len() == value.field_items("enchantments"@)->Ok_0.len()
        &&& enchantments_read(
            self.enchantments@,
            value.field_items("enchantments"@)->Ok_0,
            self.enchantments@.len() as int,
        )
    }

    /// Takes the fields of a card from a value of the data file. The fields
    /// are taken in a fixed order, and the first that is missing or of the
    /// wrong kind fails the reading.
    pub fn try_from(value: &Json) -> (fields: Result<JsonCardFields, JsonError>)
        ensures
            match fields {
                Ok(read) => Self::failure(*value) is None && read.read_from(*value),
                Err(error) => Self::failure(*value) == Some(error),
            },
    {
        let id = match value.text_of("id") {
            Ok(text) => text,
            Err(error) => {
                return Err(error);
            },
        };
        let name = match value.text_of("name") {
            Ok(text) => text,
            Err(error) => {
                return Err(error);
            },
        };
        let pack = match value.text_of("packId") {
            Ok(text) => text,
            Err(error) => {
                return Err(error);
            },
        };
        let starting_tier = match value.text_of("startingTier") {
            Ok(text) => text,
            Err(error) => {
                return Err(error);
            },
        };
        let size = match value.text_of("size") {
            Ok(text) => text,
            Err(error) => {
                return Err(error);
            },
        };
        let bronze = match value.tier_texts_of("Bronze") {
            Ok(lines) => lines,
            Err(error) => {
                return Err(error);
            },
        };
        let silver = match value.tier_texts_of("Silver") {
            Ok(lines) => lines,
            Err(error) => {
                return Err(error);
            },
        };
        let gold = match value.tier_texts_of("Gold") {
            Ok(lines) => lines,
            Err(error) => {
                return Err(error);
            },
        };
        let diamond = match value.tier_texts_of("Diamond") {
            Ok(lines) => lines,
            Err(error) => {
                return Err(error);
            },
        };
        let legendary = match value.tier_texts_of("Legendary") {
            Ok(lines) => lines,
            Err(error) => {
                return Err(error);
            },
        };
        let tags = match value.texts_of("tags") {
            Ok(texts) => texts,
            Err(error) => {
                return Err(error);
            },
        };
        let hidden_tags = match value.texts_of("hiddenTags") {
            Ok(texts) => texts,
            Err(error) => {
                return Err(error);
            },
        };
        let custom_tags = match value.texts_of("customTags") {
            Ok(texts) => texts,
            Err(error) => {
                return Err(error);
            },
        };
        let heroes = match value.texts_of("heroes") {
            Ok(texts) => texts,
            Err(error) => {
                return Err(error);
            },
        };
        let unified_tooltips = match value.texts_of("unifiedTooltips") {
            Ok(texts) => texts,
            Err(error) => {
                return Err(error);
            },
        };
        let encounter_items = match value.items_of("combatEncounters") {
            Ok(items) => items,
            Err(error) => {
                return Err(error);
            },
        };
        let enchantment_items = match value.items_of("enchantments") {
            Ok(items) => items,
            Err(error) => {
                return Err(error);
            },
        };
        let combat_encounters = match read_encounters(encounter_items) {
            Ok(list) => list,
            Err(error) => {
                return Err(error);
            },
        };
        let enchantments = match read_enchantments(enchantment_items) {
            Ok(list) => list,
            Err(error) => {
                return Err(error);
            },
        };
        Ok(
            JsonCardFields {
                id,
                name,
                starting_tier,
                size,
                bronze: parse_tooltips(&bronze),
                silver: parse_tooltips(&silver),
                gold: parse_tooltips(&gold),
                diamond: parse_tooltips(&diamond),
                legendary: parse_tooltips(&legendary),
                tags,
                hidden_tags,
                custom_tags,
                heroes,
                unified_tooltips,
                pack_id: to_pascal_case(pack.as_str()),
                combat_encounters,
                enchantments,
            },
        )
    }
}

/// The first `n` texts of a list as source text: each a string literal
/// made into a `String`, set apart by a comma and a space.
pub open spec fn strings_text(texts: Seq<String>, n: int) -> Seq<char>
    decreases n,
{
    if n <= 0 {
        Seq::empty()
    } else if n == 1 {
        quoted(texts[0]@) + ".to_string()"@
    } else {
        strings_text(texts, n - 1) + ", "@ + quoted(texts[n - 1]@) + ".to_string()"@
    }
}

/// Writes a list of texts as source text.
pub fn strings_to_source(texts: &Vec<String>) -> (text: String)
    ensures
        text@ == strings_text(texts@, texts@.len() as int),
{
    let mut text = String::new();
    let mut i: usize = 0;
    while i < texts.len()
        invariant
            i <= texts@.len(),
            text@ == strings_text(texts@, i as int),
        decreases texts@.len() - i,
    {
        if i > 0 {
            text.append(", ");
        }
        text.append(to_string_expression(quote(texts[i].as_str()).as_str()).as_str());
        assert(text@ =~= strings_text(texts@, i as int + 1));
        i = i + 1;
    }
    text
}

/// An encounter as source text.
pub open spec fn encounter_text(encounter: CardCombatEncounter) -> Seq<char> {
    "CardCombatEncounter { id: "@ + quoted(encounter.id@) + ".to_string(), name: "@ + quoted(
        encounter.name@,
    ) + ".to_string() }"@
}

/// The first `n` encounters of a list as source text, set apart by a comma
/// and a space.
pub open spec fn encounters_text(encounters: Seq<CardCombatEncounter>, n: int) -> Seq<char>
    decreases n,
{
    if n <= 0 {
        Seq::empty()
    } else if n == 1 {
        encounter_text(encounters[0])
    } else {
        encounters_text(encounters, n - 1) + ", "@ + encounter_text(encounters[n - 1])
    }
}

/// Writes a list of encounters as source text.
pub fn encounters_to_source(encounters: &Vec<CardCombatEncounter>) -> (text: String)
    ensures
        text@ == encounters_text(encounters@, encounters@.len() as int),
{
    let mut text = String::new();
    let mut i: usize = 0;
    while i < encounters.len()
        invariant
            i <= encounters@.len(),
            text@ == encounters_text(encounters@, i as int),
        decreases encounters@.len() - i,
    {
        if i > 0 {
            text.append(", ");
        }
        text.append("CardCombatEncounter { id: ");
        text.append(quote(encounters[i].id.as_str()).as_str());
        text.append(".to_string(), name: ");
        text.append(quote(encounters[i].name.as_str()).as_str());
        text.append(".to_string() }");
        assert(text@ =~= encounters_text(encounters@, i as int + 1));
        i = i + 1;
    }
    text
}

/// An enchantment of the data file as source text.
pub open spec fn enchantment_text(enchantment: JsonEnchantment) -> Seq<char> {
    "CardEnchantment::"@ + enchantment.kind@ + "(Arc::new(vec!["@ + tooltips_text(
        enchantment.tooltips@,
        enchantment.tooltips@.len() as int,
    ) + "]))"@
}

/// The first `n` enchantments of a list as source text, set apart by a
/// comma and a space.
pub open spec fn enchantments_text(enchantments: Seq<JsonEnchantment>, n: int) -> Seq<char>
    decreases n,
{
    if n <= 0 {
        Seq::empty()
    } else if n == 1 {
        enchantment_text(enchantments[0])
    } else {
        enchantments_text(enchantments, n - 1) + ", "@ + enchantment_text(enchantments[n - 1])
    }
}

/// Writes a list of enchantments as source text.
pub fn enchantments_to_source(enchantments: &Vec<JsonEnchantment>) -> (text: String)
    ensures
        text@ == enchantments_text(enchantments@, enchantments@.len() as int),
{
    let mut text = String::new();
    let mut i: usize = 0;
    while i < enchantments.len()
        invariant
            i <= enchantments@.len(),
            text@ == enchantments_text(enchantments@, i as int),
        decreases enchantments@.len() - i,
    {
        if i > 0 {
            text.append(", ");
        }
        text.append("CardEnchantment::");
        text.append(enchantments[i].kind.as_str());
        text.append("(Arc::new(vec![");
        text.append(tooltips_to_source(&enchantments[i].tooltips).as_str());
        text.append("]))");
        assert(text@ =~= enchantments_text(enchantments@, i as int + 1));
        i = i + 1;
    }
    text
}

/// The five lists of tooltips of a card or a skill as source text.
pub open spec fn tiers_text(
    bronze: Seq<Tooltip>,
    silver: Seq<Tooltip>,
    gold: Seq<Tooltip>,
    diamond: Seq<Tooltip>,
    legendary: Seq<Tooltip>,
) -> Seq<char> {
    "TieredValue { bronze: Arc::new(vec!["@ + tooltips_text(bronze, bronze.len() as int)
        + "]), silver: Arc::new(vec!["@ + tooltips_text(silver, silver.len() as int)
        + "]), gold: Arc::new(vec!["@ + tooltips_text(gold, gold.len() as int)
        + "]), diamond: Arc::new(vec!["@ + tooltips_text(diamond, diamond.len() as int)
        + "]), legendary: Arc::new(vec!["@ + tooltips_text(legendary, legendary.len() as int)
        + "]), }"@
}

/// Writes the five lists of tooltips of a card or a skill as source text.
pub fn tiers_to_source(
    bronze: &Vec<Tooltip>,
    silver: &Vec<Tooltip>,
    gold: &Vec<Tooltip>,
    diamond: &Vec<Tooltip>,
    legendary: &Vec<Tooltip>,
) -> (text: String)
    ensures
        text@ == tiers_text(bronze@, silver@, gold@, diamond@, legendary@),
{
    owned("TieredValue { bronze: Arc::new(vec![").concat(
        tooltips_to_source(bronze).as_str(),
    ).concat("]), silver: Arc::new(vec![").concat(tooltips_to_source(silver).as_str()).concat(
        "]), gold: Arc::new(vec![",
    ).concat(tooltips_to_source(gold).as_str()).concat("]), diamond: Arc::new(vec![").concat(
        tooltips_to_source(diamond).as_str(),
    ).concat("]), legendary: Arc::new(vec![").concat(
        tooltips_to_source(legendary).as_str(),
    ).concat("]), }")
}

/// The tags that a list of names stands for; names that stand for no tag
/// are left out.
pub open spec fn known_tags(names: Seq<String>) -> Seq<Tag>
    decreases names.len(),
{
    if names.len() == 0 {
        Seq::empty()
    } else {
        match Tag::named(names.last()@) {
            Some(tag) => known_tags(names.drop_last()).push(tag),
            None => known_tags(names.drop_last()),
        }
    }
}

/// Reads the tags of a list of names.
pub fn read_tags(names: &Vec<String>) -> (tags: Vec<Tag>)
    ensures
        tags@ == known_tags(names@),
{
    let mut tags: Vec<Tag> = Vec::new();
    let mut i: usize = 0;
    while i < names.len()
        invariant
            i <= names@.len(),
            tags@ == known_tags(names@.take(i as int)),
        decreases names@.len() - i,
    {
        assert(names@.take(i as int + 1).drop_last() =~= names@.take(i as int));
        match Tag::from_str(names[i].as_str()) {
            Some(tag) => {
                tags.push(tag);
            },
            None => {},
        }
        i = i + 1;
    }
    assert(names@.take(i as int) =~= names@);
    tags
}

/// The heroes that a list of names stands for; names that stand for no
/// hero are left out.
pub open spec fn known_heroes(names: Seq<String>) -> Seq<Hero>
    decreases names.len(),
{
    if names.len() == 0 {
        Seq::empty()
    } else {
        match Hero::of_name(names.last()@) {
            Some(hero) => known_heroes(names.drop_last()).push(hero),
            None => known_heroes(names.drop_last()),
        }
    }
}

/// Reads the heroes of a list of names.
pub fn read_heroes(names: &Vec<String>) -> (heroes: Vec<Hero>)
    ensures
        heroes@ == known_heroes(names@),
{
    let mut heroes: Vec<Hero> = Vec::new();
    let mut i: usize = 0;
    while i < names.len()
        invariant
            i <= names@.len(),
            heroes@ == known_heroes(names@.take(i as int)),
        decreases names@.len() - i,
    {
        assert(names@.take(i as int + 1).drop_last() =~= names@.take(i as int));
        match Hero::from_name(names[i].as_str()) {
            Some(hero) => {
                heroes.push(hero);
            },
            None => {},
        }
        i = i + 1;
    }
    assert(names@.take(i as int) =~= names@);
    heroes
}

/// The kinds and tooltips of the enchantments whose kind is known, in
/// order.
pub open spec fn known_enchantments(enchantments: Seq<JsonEnchantment>) -> Seq<
    (Enchantment, Seq<Tooltip>),
>
    decreases enchantments.len(),
{
    if enchantments.len() == 0 {
        Seq::empty()
    } else {
        match Enchantment::of_name(enchantments.last().kind@) {
            Some(kind) => known_enchantments(enchantments.drop_last()).push(
                (kind, enchantments.last().tooltips@),
            ),
            None => known_enchantments(enchantments.drop_last()),
        }
    }
}

/// The kinds and tooltips of a list of enchantments.
pub open spec fn enchantment_pairs(enchantments: Seq<CardEnchantment>) -> Seq<
    (Enchantment, Seq<Tooltip>),
> {
    Seq::new(enchantments.len(), |i: int| (enchantments[i].kind(), enchantments[i].added()@))
}

/// Builds the enchantments whose kind is known.
pub fn read_known_enchantments(enchantments: &Vec<JsonEnchantment>) -> (list: Vec<CardEnchantment>)
    ensures
        enchantment_pairs(list@) == known_enchantments(enchantments@),
{
    let mut list: Vec<CardEnchantment> = Vec::new();
    let mut i: usize = 0;
    assert(enchantment_pairs(list@) =~= known_enchantments(enchantments@.take(0)));
    while i < enchantments.len()
        invariant
            i <= enchantments@.len(),
            enchantment_pairs(list@) == known_enchantments(enchantments@.take(i as int)),
        decreases enchantments@.len() - i,
    {
        assert(enchantments@.take(i as int + 1).drop_last() =~= enchantments@.take(i as int));
        match Enchantment::from_name(enchantments[i].kind.as_str()) {
            Some(kind) => {
                let ghost before = enchantment_pairs(list@);
                let tooltips = copy_tooltips(&enchantments[i].tooltips);
                list.push(CardEnchantment::of_kind(kind, Arc::new(tooltips)));
                assert(enchantment_pairs(list@) =~= before.push(
                    (kind, enchantments@[i as int].tooltips@),
                ));
            },
            None => {},
        }
        i = i + 1;
    }
    assert(enchantments@.take(i as int) =~= enchantments@);
    list
}

/// A copy of a list of texts.
pub fn copy_texts(texts: &Vec<String>) -> (copy: Vec<String>)
    ensures
        copy@ == texts@,
{
    let mut copy: Vec<String> = Vec::new();
    let mut i: usize = 0;
    while i < texts.len()
        invariant
            i <= texts@.len(),
            copy@ == texts@.take(i as int),
        decreases texts@.len() - i,
    {
        copy.push(texts[i].clone());
        assert(copy@ =~= texts@.take(i as int + 1));
        i = i + 1;
    }
    assert(texts@.take(i as int) =~= texts@);
    copy
}

/// A copy of a list of encounters.
pub fn copy_encounters(encounters: &Vec<CardCombatEncounter>) -> (copy: Vec<CardCombatEncounter>)
    ensures
        copy@ == encounters@,
{
    let mut copy: Vec<CardCombatEncounter> = Vec::new();
    let mut i: usize = 0;
    while i < encounters.len()
        invariant
            i <= encounters@.len(),
            copy@ == encounters@.take(i as int),
        decreases encounters@.len() - i,
    {
        copy.push(
            CardCombatEncounter { id: encounters[i].id.clone(), name: encounters[i].name.clone() },
        );
        assert(copy@ =~= encounters@.take(i as int + 1));
        i = i + 1;
    }
    assert(encounters@.take(i as int) =~= encounters@);
    copy
}

impl JsonCardFields {
    /// The card as source text: an expression that evaluates to the
    /// definition of the card.
    pub open spec fn inner_source(self) -> Seq<char> {
        "Card { id: "@ + quoted(self.id@) + ".to_string(), name: "@ + quoted(self.name@)
            + ".to_string(), starting_tier: Tier::"@ + self.starting_tier@ + ", size: Size::"@
            + self.size@ + ", tiers: "@ + tiers_text(
            self.bronze@,
            self.silver@,
            self.gold@,
            self.diamond@,
            self.legendary@,
        ) + ", tags: Arc::new(vec!["@ + tagged_list("Tag"@, self.tags@)
            + "]), hidden_tags: Arc::new(vec!["@ + tagged_list("Tag"@, self.hidden_tags@)
            + "]), custom_tags: Arc::new(vec!["@ + tagged_list("Tag"@, self.custom_tags@)
            + "]), heroes: Arc::new(vec!["@ + tagged_list("Hero"@, self.heroes@)
            + "]), enchantments: Arc::new(vec!["@ + enchantments_text(
            self.enchantments@,
            self.enchantments@.len() as int,
        ) + "]), unified_tooltips: Arc::new(vec!["@ + strings_text(
            self.unified_tooltips@,
            self.unified_tooltips@.len() as int,
        ) + "]), pack_id: PackId::"@ + self.pack_id@ + ", combat_encounters: Arc::new(vec!["@
            + encounters_text(self.combat_encounters@, self.combat_encounters@.len() as int)
            + "]), }"@
    }

    /// Writes the card as source text: an expression that evaluates to the
    /// definition of the card.
    pub fn to_inner_source(&self) -> (text: String)
        ensures
            text@ == self.inner_source(),
    {
        let mut text = owned("Card { id: ");
        text.append(quote(self.id.as_str()).as_str());
        text.append(".to_string(), name: ");
        text.append(quote(self.name.as_str()).as_str());
        text.append(".to_string(), starting_tier: Tier::");
        text.append(self.starting_tier.as_str());
        text.append(", size: Size::");
        text.append(self.size.as_str());
        text.append(", tiers: ");
        text.append(
            tiers_to_source(
                &self.bronze,
                &self.silver,
                &self.gold,
                &self.diamond,
                &self.legendary,
            ).as_str(),
        );
        text.append(", tags: Arc::new(vec![");
        text.append(tag_strlist("Tag", &self.tags).as_str());
        text.append("]), hidden_tags: Arc::new(vec![");
        text.append(tag_strlist("Tag", &self.hidden_tags).as_str());
        text.append("]), custom_tags: Arc::new(vec![");
        text.append(tag_strlist("Tag", &self.custom_tags).as_str());
        text.append("]), heroes: Arc::new(vec![");
        text.append(tag_strlist("Hero", &self.heroes).as_str());
        text.append("]), enchantments: Arc::new(vec![");
        text.append(enchantments_to_source(&self.enchantments).as_str());
        text.append("]), unified_tooltips: Arc::new(vec![");
        text.append(strings_to_source(&self.unified_tooltips).as_str());
        text.append("]), pack_id: PackId::");
        text.append(self.pack_id.as_str());
        text.append(", combat_encounters: Arc::new(vec![");
        text.append(encounters_to_source(&self.combat_encounters).as_str());
        text.append("]), }");
        assert(text@ =~= self.inner_source());
        text
    }

    /// The source file of the card: a struct of the given name whose `new`
    /// gives the definition of the card.
    pub open spec fn source_code(self, struct_name: Seq<char>) -> Seq<char> {
        "// @generated\nuse simulator::models::*; use std::sync::Arc; pub struct "@ + struct_name
            + "; impl "@ + struct_name + " { pub fn new() -> Card { "@ + self.inner_source()
            + " } }"@
    }

    /// Writes the source file of the card.
    pub fn to_source_code(self, struct_name: &str) -> (text: String)
        ensures
            text@ == self.source_code(struct_name@),
    {
        owned("// @generated\nuse simulator::models::*; use std::sync::Arc; pub struct ").concat(
            struct_name,
        ).concat("; impl ").concat(struct_name).concat(" { pub fn new() -> Card { ").concat(
            self.to_inner_source().as_str(),
        ).concat(" } }")
    }

    /// Whether the names of the starting tier, the size and the pack are
    /// known.
    pub open spec fn names_known(self) -> bool {
        Tier::of_name(self.starting_tier@) is Some && Size::named(lowercase(self.size@)) is Some
            && PackId::of_name(self.pack_id@) is Some
    }

    /// Whether `card` is the definition that these fields give: the texts
    /// and tooltips as they are, the names read, and of the tags, heroes
    /// and enchantments those whose names are known.
    pub open spec fn defines(self, card: Card) -> bool {
        &&& card.id@ == self.id@
        &&& card.name@ == self.name@
        &&& Some(card.starting_tier) == Tier::of_name(self.starting_tier@)
        &&& Some(card.size) == Size::named(lowercase(self.size@))
        &&& Some(card.pack_id) == PackId::of_name(self.pack_id@)
        &&& card.tiers.bronze@ == self.bronze@
        &&& card.tiers.silver@ == self.silver@
        &&& card.tiers.gold@ == self.gold@
        &&& card.tiers.diamond@ == self.diamond@
        &&& card.tiers.legendary@ == self.legendary@
        &&& card.tags@ == known_tags(self.tags@)
        &&& card.hidden_tags@ == known_tags(self.hidden_tags@)
        &&& card.custom_tags@ == known_tags(self.custom_tags@)
        &&& card.heroes@ == known_heroes(self.heroes@)
        &&& enchantment_pairs(card.enchantments@) == known_enchantments(self.enchantments@)
        &&& card.unified_tooltips@ == self.unified_tooltips@
        &&& card.combat_encounters@ == self.combat_encounters@
    }

    /// The definition of the card, for a catalog. There is none where the
    /// name of the starting tier, the size or the pack is not known.
    pub fn to_card(&self) -> (card: Option<Card>)
        ensures
            self.names_known() <==> card is Some,
            card matches Some(definition) ==> self.defines(definition),
    {
        let starting_tier = match Tier::from_name(self.starting_tier.as_str()) {
            Some(tier) => tier,
            None => {
                return None;
            },
        };
        let size = match Size::try_from(self.size.as_str()) {
            Some(size) => size,
            None => {
                return None;
            },
        };
        let pack_id = match PackId::from_name(self.pack_id.as_str()) {
            Some(pack) => pack,
            None => {
                return None;
            },
        };
        Some(
            Card {
                id: self.id.clone(),
                name: self.name.clone(),
                starting_tier,
                tiers: TieredValue {
                    bronze: Arc::new(copy_tooltips(&self.bronze)),
                    silver: Arc::new(copy_tooltips(&self.silver)),
                    gold: Arc::new(copy_tooltips(&self.gold)),
                    diamond: Arc::new(copy_tooltips(&self.diamond)),
                    legendary: Arc::new(copy_tooltips(&self.legendary)),
                },
                tags: Arc::new(read_tags(&self.tags)),
                hidden_tags: Arc::new(read_tags(&self.hidden_tags)),
                custom_tags: Arc::new(read_tags(&self.custom_tags)),
                size,
                heroes: Arc::new(read_heroes(&self.heroes)),
                enchantments: Arc::new(read_known_enchantments(&self.enchantments)),
                unified_tooltips: Arc::new(copy_texts(&self.unified_tooltips)),
                pack_id,
                combat_encounters: Arc::new(copy_encounters(&self.combat_encounters)),
            },
        )
    }
}

} // verus!
