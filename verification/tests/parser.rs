use simulator::models::{Modifier, PackId, Size, Tag, Tier, Tooltip};
use simulator::parser::cards::{parse_tooltips, strings_to_source};
use simulator::parser::tree::{
    card_item, day_module_name, encounter_item, skill_item, write_cards_module, write_module,
};
use simulator::parser::{
    tag_strlist, Json, JsonCardFields, JsonEncounterCardFields, JsonEncounterFields,
    JsonEncounterSkillFields, JsonError, JsonSkillFields, JsonValue, ModuleName, StructName,
};
use simulator::text::{decimal, ends_with, holds_at, same_text, signed_decimal, starts_with, strip_prefix};

fn text(value: &str) -> Json {
    Json::Text(value.to_string())
}

fn list(items: &[&str]) -> Json {
    Json::List(items.iter().map(|item| text(item)).collect())
}

fn object(members: Vec<(&str, Json)>) -> Json {
    Json::Object(members.into_iter().map(|(key, value)| (key.to_string(), value)).collect())
}

fn copy(value: &Json) -> Json {
    match value {
        Json::Null => Json::Null,
        Json::Bool(b) => Json::Bool(*b),
        Json::Integer(n) => Json::Integer(*n),
        Json::Number(n) => Json::Number(n.clone()),
        Json::Text(t) => Json::Text(t.clone()),
        Json::List(items) => Json::List(items.iter().map(copy).collect()),
        Json::Object(members) => {
            Json::Object(members.iter().map(|(key, member)| (key.clone(), copy(member))).collect())
        }
    }
}

fn tiers(bronze: &[&str]) -> Json {
    let tier = |lines: &[&str]| object(vec![("tooltips", list(lines))]);
    object(vec![
        ("Bronze", tier(bronze)),
        ("Silver", tier(&[])),
        ("Gold", tier(&[])),
        ("Diamond", tier(&[])),
        ("Legendary", tier(&[])),
    ])
}

fn skill_json() -> Json {
    object(vec![
        ("id", text("s1")),
        ("name", text("Quick Draw")),
        ("packId", text("vanessa_core")),
        ("startingTier", text("Silver")),
        ("tiers", tiers(&["Ammo 1"])),
        ("tags", list(&[])),
        ("hiddenTags", list(&[])),
        ("customTags", list(&[])),
        ("heroes", list(&["Vanessa"])),
        ("unifiedTooltips", list(&[])),
        ("combatEncounters", Json::List(vec![])),
    ])
}

fn card_json() -> Json {
    object(vec![
        ("id", text("c1")),
        ("name", text("Fang")),
        ("packId", text("core")),
        ("startingTier", text("Bronze")),
        ("size", text("Small")),
        ("tiers", tiers(&["Cooldown 3 seconds", "Deal 5 damage."])),
        ("tags", list(&["Weapon", "Sharp"])),
        ("hiddenTags", list(&["Damage"])),
        ("customTags", list(&[])),
        ("heroes", list(&["Common", "Nobody"])),
        ("unifiedTooltips", list(&["Deal \"5\" damage."])),
        (
            "combatEncounters",
            Json::List(vec![object(vec![("cardId", text("e1")), ("cardName", text("Fanged Inglet"))])]),
        ),
        (
            "enchantments",
            Json::List(vec![
                object(vec![
                    ("type", text("Radiant")),
                    ("tooltips", list(&["This cannot be Frozen, Slowed or Destroyed."])),
                ]),
                object(vec![("type", text("Glowing")), ("tooltips", list(&[]))]),
            ]),
        ),
    ])
}

fn without(value: Json, key: &str) -> Json {
    match value {
        Json::Object(members) => Json::Object(members.into_iter().filter(|m| m.0 != key).collect()),
        other => other,
    }
}

fn with(value: Json, key: &str, member: Json) -> Json {
    match without(value, key) {
        Json::Object(mut members) => {
            members.push((key.to_string(), member));
            Json::Object(members)
        }
        other => other,
    }
}

#[test]
fn names_of_generated_items_are_made_from_display_names() {
    assert_eq!(StructName::card("Bar of Gold"), StructName("CardBarOfGold".to_string()));
    assert_eq!(StructName::skill("quick draw"), StructName("SkillQuickDraw".to_string()));
    assert_eq!(StructName::encounter("Mr. Moo"), StructName("EncounterMrMoo".to_string()));
    assert_eq!(ModuleName::card("Bar of Gold"), ModuleName("card_bar_of_gold".to_string()));
    assert_eq!(ModuleName::skill("QuickDraw"), ModuleName("skill_quick_draw".to_string()));
    assert_eq!(ModuleName::encounter("Mr. Moo"), ModuleName("encounter_mr_moo".to_string()));
    assert_eq!(StructName::of_kind("A", "b"), StructName("Ab".to_string()));
    assert_eq!(ModuleName::of_kind("a_", "b"), ModuleName("a_b".to_string()));
}

#[test]
fn a_list_is_written_as_paths_under_a_tag() {
    let names = |items: &[&str]| items.iter().map(|s| s.to_string()).collect::<Vec<_>>();
    assert_eq!(tag_strlist("Tag", &names(&["Weapon", "Tool"])), "Tag::Weapon, Tag::Tool");
    assert_eq!(tag_strlist("Hero", &names(&["Mak"])), "Hero::Mak");
    assert_eq!(tag_strlist("Tag", &names(&[])), "");
    assert_eq!(
        strings_to_source(&names(&["a", "b\"c"])),
        "\"a\".to_string(), \"b\\\"c\".to_string()"
    );
}

#[test]
fn numbers_are_written_in_decimal() {
    assert_eq!(decimal(0), "0");
    assert_eq!(decimal(7), "7");
    assert_eq!(decimal(1090), "1090");
    assert_eq!(decimal(u128::MAX), u128::MAX.to_string());
    assert_eq!(signed_decimal(-42), "-42");
    assert_eq!(signed_decimal(42), "42");
    assert_eq!(signed_decimal(i128::MIN), i128::MIN.to_string());
}

#[test]
fn texts_are_compared_by_their_characters() {
    assert!(same_text("über", "über"));
    assert!(!same_text("über", "uber"));
    assert!(!same_text("a", "ab"));
    assert!(starts_with("when you crit,", "when"));
    assert!(starts_with("when", ""));
    assert!(!starts_with("whe", "when"));
    assert!(ends_with("5% less damage.", "% less damage."));
    assert!(!ends_with("damage", "damage."));
    assert!(holds_at("α, β and γ", 3, "β"));
    assert!(!holds_at("α, β and γ", 9, "γγ"));
    assert_eq!(strip_prefix("héllo wörld", "héllo "), Some("wörld"));
    assert_eq!(strip_prefix("hello", "help"), None);
    assert_eq!(strip_prefix("hello", "hello"), Some(""));
}

#[test]
fn fields_are_taken_from_values() {
    let value = object(vec![
        ("name", text("Fang")),
        ("level", Json::Integer(3)),
        ("tags", list(&["a", "b"])),
        ("mixed", Json::List(vec![text("a"), Json::Null])),
        ("tiers", object(vec![("Bronze", object(vec![("tooltips", list(&["x"]))]))])),
        ("name", text("Shadow")),
    ]);
    assert_eq!(value.get("name"), Some(&text("Fang")));
    assert_eq!(value.get("none"), None);
    assert_eq!(text("x").get("name"), None);
    assert_eq!(value.text_of("name"), Ok("Fang".to_string()));
    assert_eq!(value.text_of("level"), Err(JsonError::InvalidText));
    assert_eq!(value.integer_of("level"), Ok(3));
    assert_eq!(value.integer_of("name"), Err(JsonError::InvalidInteger));
    assert_eq!(value.texts_of("tags"), Ok(vec!["a".to_string(), "b".to_string()]));
    assert_eq!(value.texts_of("mixed"), Err(JsonError::InvalidItem));
    assert_eq!(value.texts_of("name"), Err(JsonError::InvalidList));
    assert_eq!(value.items_of("mixed").map(|items| items.len()), Ok(2));
    assert_eq!(value.items_of("none").err(), Some(JsonError::InvalidList));
    assert_eq!(value.tier_texts_of("Bronze"), Ok(vec!["x".to_string()]));
    assert_eq!(value.tier_texts_of("Silver"), Err(JsonError::InvalidList));
    assert_eq!(value.descend(&["tiers", "Bronze", "tooltips"]), Some(&list(&["x"])));
    assert_eq!(value.descend(&["tiers", "Gold", "tooltips"]), None);
    assert_eq!(value.descend(&[]), Some(&value));
    assert_eq!(value.get_last(&["tiers", "name"]), Some(&text("Fang")));
    assert_eq!(text("t").as_str(), Some("t"));
    assert_eq!(Json::Integer(4).as_str(), None);
    assert_eq!(Json::Integer(4).as_i64(), Some(4));
    assert_eq!(Json::Number("4.5".to_string()).as_i64(), None);
    assert_eq!(list(&["a"]).as_array().map(|items| items.len()), Some(1));
    assert!(Json::Bool(true).as_array().is_none());
    assert_eq!(
        JsonValue::<String>::extract(&value, &["name"]),
        Ok(JsonValue("Fang".to_string()))
    );
    assert_eq!(JsonValue::<String>::extract(&value, &["level"]), Err(JsonError::InvalidText));
    assert_eq!(JsonValue::<i64>::extract(&value, &["level"]), Ok(JsonValue(3)));
    assert_eq!(JsonValue::<i64>::extract(&value, &["name"]), Err(JsonError::InvalidInteger));
    assert_eq!(
        JsonValue::<Vec<String>>::extract(&value, &["tiers", "Bronze", "tooltips"]),
        Ok(JsonValue(vec!["x".to_string()]))
    );
    assert_eq!(
        JsonValue::<Vec<String>>::extract(&value, &["mixed"]),
        Err(JsonError::InvalidItem)
    );
    assert_eq!(
        JsonValue::<Vec<String>>::extract(&value, &["tiers", "Bronze"]),
        Err(JsonError::InvalidList)
    );
}

#[test]
fn the_fields_of_a_card_are_read() {
    let fields = JsonCardFields::try_from(&card_json()).expect("the card is complete");
    assert_eq!(fields.id, "c1");
    assert_eq!(fields.name, "Fang");
    assert_eq!(fields.pack_id, "Core");
    assert_eq!(fields.starting_tier, "Bronze");
    assert_eq!(fields.size, "Small");
    assert_eq!(fields.bronze.len(), 2);
    assert_eq!(fields.bronze[0], Tooltip::StaticModifier(Modifier::Cooldown(3000)));
    assert!(fields.silver.is_empty());
    assert_eq!(fields.tags, vec!["Weapon", "Sharp"]);
    assert_eq!(fields.heroes, vec!["Common", "Nobody"]);
    assert_eq!(fields.combat_encounters.len(), 1);
    assert_eq!(fields.combat_encounters[0].name, "Fanged Inglet");
    assert_eq!(fields.enchantments.len(), 2);
    assert_eq!(fields.enchantments[0].kind, "Radiant");
    assert_eq!(
        fields.enchantments[0].tooltips,
        vec![Tooltip::StaticModifier(Modifier::Radiant)]
    );
    assert_eq!(
        parse_tooltips(&vec!["Sells for gold.".to_string(), "?".to_string()]),
        vec![Tooltip::SellsForGold, Tooltip::Raw("?".to_string())]
    );
}

#[test]
fn a_card_with_a_missing_field_is_refused() {
    let failure = |value: Json| JsonCardFields::try_from(&value).err();
    assert_eq!(failure(Json::Null), Some(JsonError::InvalidText));
    for key in ["id", "name", "packId", "startingTier", "size"] {
        assert_eq!(failure(without(card_json(), key)), Some(JsonError::InvalidText), "{key}");
    }
    for key in ["tiers", "tags", "hiddenTags", "customTags", "heroes", "unifiedTooltips"] {
        assert_eq!(failure(without(card_json(), key)), Some(JsonError::InvalidList), "{key}");
    }
    assert_eq!(failure(without(card_json(), "combatEncounters")), Some(JsonError::InvalidList));
    assert_eq!(failure(without(card_json(), "enchantments")), Some(JsonError::InvalidList));
    assert_eq!(
        failure(with(card_json(), "tags", Json::List(vec![Json::Integer(1)]))),
        Some(JsonError::InvalidItem)
    );
    assert_eq!(
        failure(with(card_json(), "combatEncounters", Json::List(vec![object(vec![])]))),
        Some(JsonError::InvalidText)
    );
    assert_eq!(
        failure(with(
            card_json(),
            "enchantments",
            Json::List(vec![object(vec![("type", text("Icy"))])])
        )),
        Some(JsonError::InvalidList)
    );
    // The first field that fails is reported.
    assert_eq!(
        failure(without(without(card_json(), "tags"), "name")),
        Some(JsonError::InvalidText)
    );
}

#[test]
fn the_fields_of_a_card_give_its_definition() {
    let fields = JsonCardFields::try_from(&card_json()).unwrap();
    let card = fields.to_card().expect("the names are known");
    assert_eq!(card.id, "c1");
    assert_eq!(card.name, "Fang");
    assert_eq!(card.starting_tier, Tier::Bronze);
    assert_eq!(card.size, Size::Small);
    assert_eq!(card.pack_id, PackId::Core);
    assert_eq!(card.tiers.bronze.len(), 2);
    assert_eq!(*card.tags, vec![Tag::Weapon]);
    assert_eq!(*card.hidden_tags, vec![Tag::Damage]);
    assert_eq!(card.heroes.len(), 1);
    assert_eq!(card.enchantments.len(), 1);
    assert_eq!(card.combat_encounters.len(), 1);
    assert_eq!(*card.unified_tooltips, vec!["Deal \"5\" damage."]);
    let unknown_size = JsonCardFields::try_from(&with(card_json(), "size", text("Huge"))).unwrap();
    assert!(unknown_size.to_card().is_none());
    let unknown_tier =
        JsonCardFields::try_from(&with(card_json(), "startingTier", text("Wood"))).unwrap();
    assert!(unknown_tier.to_card().is_none());
    let unknown_pack = JsonCardFields::try_from(&with(card_json(), "packId", text("x"))).unwrap();
    assert!(unknown_pack.to_card().is_none());
}

#[test]
fn a_card_is_written_as_source_text() {
    let fields = JsonCardFields::try_from(&card_json()).unwrap();
    let inner = fields.to_inner_source();
    assert_eq!(
        inner,
        "Card { id: \"c1\".to_string(), name: \"Fang\".to_string(), starting_tier: Tier::Bronze, \
         size: Size::Small, tiers: TieredValue { bronze: Arc::new(vec![\
         Tooltip::StaticModifier(Modifier::Cooldown(3000)), \
         Tooltip::When(EffectEvent::OnCooldown(Effect::DealDamage(PlayerTarget::Opponent, \
         DerivedValue::Constant(5))))]), silver: Arc::new(vec![]), gold: Arc::new(vec![]), \
         diamond: Arc::new(vec![]), legendary: Arc::new(vec![]), }, \
         tags: Arc::new(vec![Tag::Weapon, Tag::Sharp]), hidden_tags: Arc::new(vec![Tag::Damage]), \
         custom_tags: Arc::new(vec![]), heroes: Arc::new(vec![Hero::Common, Hero::Nobody]), \
         enchantments: Arc::new(vec![CardEnchantment::Radiant(Arc::new(vec![\
         Tooltip::StaticModifier(Modifier::Radiant)])), CardEnchantment::Glowing(Arc::new(vec![]))]), \
         unified_tooltips: Arc::new(vec![\"Deal \\\"5\\\" damage.\".to_string()]), \
         pack_id: PackId::Core, combat_encounters: Arc::new(vec![CardCombatEncounter { \
         id: \"e1\".to_string(), name: \"Fanged Inglet\".to_string() }]), }"
    );
    let code = fields.to_source_code("CardFang");
    assert_eq!(
        code,
        format!(
            "// @generated\nuse simulator::models::*; use std::sync::Arc; pub struct CardFang; \
             impl CardFang {{ pub fn new() -> Card {{ {inner} }} }}"
        )
    );
}

#[test]
fn a_skill_is_read_and_written() {
    let fields = JsonSkillFields::try_from(&skill_json()).expect("the skill is complete");
    assert_eq!(fields.name, "Quick Draw");
    assert_eq!(fields.pack_id, "VanessaCore");
    assert_eq!(fields.bronze, vec![Tooltip::StaticModifier(Modifier::Ammo(1))]);
    let inner = fields.to_inner_source();
    assert!(inner.starts_with("Skill { id: \"s1\".to_string(), name: \"Quick Draw\".to_string(), "));
    assert!(inner.contains("starting_tier: Tier::Silver, tiers: TieredValue { bronze: Arc::new(vec![Tooltip::StaticModifier(Modifier::Ammo(1))]), "));
    assert!(inner.ends_with("pack_id: PackId::VanessaCore, combat_encounters: Arc::new(vec![]), }"));
    let code = fields.to_source_code("SkillQuickDraw");
    assert!(code.starts_with("// @generated\nuse simulator::models::*; use std::sync::Arc; pub struct SkillQuickDraw; impl SkillQuickDraw { pub fn new() -> Skill { Skill { id: "));
    assert!(code.ends_with(" } }"));
    assert_eq!(
        JsonSkillFields::try_from(&without(skill_json(), "heroes")).err(),
        Some(JsonError::InvalidList)
    );
    assert_eq!(
        JsonSkillFields::try_from(&without(skill_json(), "id")).err(),
        Some(JsonError::InvalidText)
    );
}

#[test]
fn an_encounter_is_read_and_written() {
    let card = object(vec![
        ("card", card_json()),
        ("tierType", text("Gold")),
        ("enchantmentType", text("Icy")),
    ]);
    let plain = object(vec![("card", card_json()), ("tierType", text("Bronze"))]);
    let skill = object(vec![("card", skill_json()), ("tierType", text("Silver"))]);
    let encounter = object(vec![
        ("cardId", text("e1")),
        ("cardName", text("Fanged Inglet")),
        ("level", Json::Integer(1)),
        ("health", Json::Integer(100)),
        ("day", Json::Integer(2)),
        ("items", Json::List(vec![copy(&card), copy(&plain)])),
        ("skills", Json::List(vec![copy(&skill)])),
    ]);
    let fields = JsonEncounterFields::try_from(&encounter).expect("the encounter is complete");
    assert_eq!(fields.name, "Fanged Inglet");
    assert_eq!((fields.level, fields.health, fields.day), (1, 100, Some(2)));
    assert_eq!(fields.cards.len(), 2);
    assert_eq!(fields.cards[0].enchantment, Some("Icy".to_string()));
    assert_eq!(fields.cards[1].enchantment, None);
    assert_eq!(fields.skills[0].tier, "Silver");
    let card_source = fields.cards[0].to_inner_source();
    assert!(card_source.starts_with(
        "EncounterCard { enchantment: Some(Enchantment::Icy), card: TieredCard { tier: Tier::Gold, card: Card { id: "
    ));
    assert!(card_source.ends_with(", }, }"));
    assert!(fields.cards[1].to_inner_source().starts_with("EncounterCard { enchantment: None, "));
    let skill_source = fields.skills[0].to_inner_source();
    assert!(skill_source.starts_with("TieredSkill { tier: Tier::Silver, skill: Skill { id: "));
    let code = fields.to_source_code("EncounterFangedInglet");
    assert!(code.starts_with(
        "// @generated\nuse simulator::models::*; use std::sync::Arc; pub struct EncounterFangedInglet; impl EncounterFangedInglet { pub fn new() -> Encounter { Encounter { id: \"e1\".to_string(), name: \"Fanged Inglet\".to_string(), level: 1, health: 100, day: EncounterDay::Numeric(2), cards: vec![EncounterCard { "
    ));
    assert!(code.ends_with("], } } } "));
    let event = JsonEncounterFields::try_from(&without(copy(&encounter), "day")).unwrap();
    assert_eq!(event.day, None);
    assert!(event.to_source_code("E").contains("day: EncounterDay::Event, "));
    let failure = |value: Json| JsonEncounterFields::try_from(&value).err();
    assert_eq!(failure(without(copy(&encounter), "cardName")), Some(JsonError::InvalidText));
    assert_eq!(failure(without(copy(&encounter), "health")), Some(JsonError::InvalidInteger));
    assert_eq!(failure(without(copy(&encounter), "skills")), Some(JsonError::InvalidList));
    assert_eq!(
        failure(with(copy(&encounter), "items", Json::List(vec![object(vec![])]))),
        Some(JsonError::InvalidText)
    );
    assert_eq!(
        JsonEncounterCardFields::try_from(&without(card, "tierType")).err(),
        Some(JsonError::InvalidText)
    );
    assert_eq!(
        JsonEncounterSkillFields::try_from(&without(skill, "card")).err(),
        Some(JsonError::InvalidText)
    );
}

#[test]
fn module_files_list_the_generated_items() {
    let items = vec![card_item("Fang"), card_item("Bar of Gold")];
    assert_eq!(items[1].name, "Bar of Gold");
    assert_eq!(
        write_module(&items),
        "// @generated\npub mod card_fang; pub use card_fang::CardFang;\n\
         pub mod card_bar_of_gold; pub use card_bar_of_gold::CardBarOfGold;\n"
    );
    assert_eq!(
        write_cards_module(&items),
        "// @generated\npub mod card_fang; pub use card_fang::CardFang;\n\
         pub mod card_bar_of_gold; pub use card_bar_of_gold::CardBarOfGold;\n\
         pub fn catalog() -> simulator::catalog::Catalog {\n    \
         let mut catalog = simulator::catalog::Catalog::new();\n    \
         catalog.register(card_fang::CardFang::new());\n    \
         catalog.register(card_bar_of_gold::CardBarOfGold::new());\n    catalog\n}\n"
    );
    assert_eq!(write_module(&vec![]), "// @generated\n");
    assert_eq!(skill_item("Quick Draw").module, ModuleName("skill_quick_draw".to_string()));
    assert_eq!(
        encounter_item("Mr. Moo").structure,
        StructName("EncounterMrMoo".to_string())
    );
    assert_eq!(day_module_name(Some(3)), "day_3");
    assert_eq!(day_module_name(Some(-1)), "day_-1");
    assert_eq!(day_module_name(None), "day_event");
}
