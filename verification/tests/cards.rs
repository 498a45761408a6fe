use simulator::card::{Card, CardError, CardModification, CardTemplate, GlobalCardId};
use simulator::catalog::Catalog;
use simulator::combat_event::{CombatEvent, SkipReason};
use simulator::dispatch::CardSummary;
use simulator::models::{
    Card as CardDefinition, CardEnchantment, CardTarget, DerivedValue, Effect, EffectEvent,
    EffectValue, Enchantment, Modifier, PackId, Percentage, PlayerTarget, Size, Tag,
    TargetCondition, Tier, TieredValue, Tooltip,
};
use simulator::tick::GameTicks;
use std::sync::Arc;

fn definition(name: &str, size: Size, bronze: Vec<Tooltip>, silver: Vec<Tooltip>) -> CardDefinition {
    CardDefinition {
        id: name.to_lowercase(),
        name: name.to_string(),
        starting_tier: Tier::Bronze,
        tiers: TieredValue {
            bronze: Arc::new(bronze),
            silver: Arc::new(silver),
            gold: Arc::new(vec![]),
            diamond: Arc::new(vec![]),
            legendary: Arc::new(vec![]),
        },
        tags: Arc::new(vec![Tag::Weapon]),
        hidden_tags: Arc::new(vec![]),
        custom_tags: Arc::new(vec![]),
        size,
        heroes: Arc::new(vec![]),
        enchantments: Arc::new(vec![
            CardEnchantment::Shiny(Arc::new(vec![Tooltip::StaticModifier(Modifier::Multicast(1))])),
            CardEnchantment::Radiant(Arc::new(vec![Tooltip::StaticModifier(Modifier::Radiant)])),
            CardEnchantment::Radiant(Arc::new(vec![Tooltip::SellsForGold])),
        ]),
        unified_tooltips: Arc::new(vec![]),
        pack_id: PackId::Core,
        combat_encounters: Arc::new(vec![]),
    }
}

fn damage(amount: u32) -> Effect {
    Effect::DealDamage(PlayerTarget::Opponent, DerivedValue::Constant(amount))
}

fn catalog() -> Catalog {
    let mut catalog = Catalog::new();
    catalog.register(definition(
        "Fang",
        Size::Small,
        vec![
            Tooltip::Raw("a sharp tooth".to_string()),
            Tooltip::StaticModifier(Modifier::Cooldown(3000)),
            Tooltip::StaticModifier(Modifier::Cooldown(9000)),
            Tooltip::When(EffectEvent::OnCooldown(damage(5))),
            Tooltip::When(EffectEvent::OnFightStart(damage(50))),
            Tooltip::When(EffectEvent::OnCooldown(Effect::Burn(
                PlayerTarget::Opponent,
                DerivedValue::Constant(1),
            ))),
            Tooltip::StaticModifier(Modifier::CritChance(Percentage(1500))),
            Tooltip::StaticModifier(Modifier::CritChance(Percentage(500))),
            Tooltip::StaticModifier(Modifier::IncreasedValue(4)),
        ],
        vec![],
    ));
    catalog.register(definition("Bar of Gold", Size::Medium, vec![Tooltip::SellsForGold], vec![]));
    catalog.register(definition("Fang", Size::Large, vec![Tooltip::SellsForGold], vec![]));
    catalog
}

fn template(name: &str) -> CardTemplate {
    CardTemplate { name: name.to_string(), tier: Tier::Bronze, modifications: Arc::new(vec![]) }
}

fn build(name: &str, position: u8, owner: PlayerTarget, id: u64) -> Card {
    template(name)
        .create_card_on_board(&catalog(), position, owner, GlobalCardId(id))
        .expect("the card is in the catalog")
}

fn fang() -> Card {
    build("Fang", 0, PlayerTarget::Player, 0)
}

#[test]
fn test_sanity() {
    let card = build("Fang", 0, PlayerTarget::Player, 0);
    let other_card = build("Fang", 0, PlayerTarget::Player, 1);

    assert!(card.matches(&TargetCondition::Always, None));
    assert!(!card.matches(&TargetCondition::Never, None));
    assert!(card.matches(&TargetCondition::IsSelf, Some(&card)));
    assert!(!card.matches(&TargetCondition::IsSelf, Some(&other_card)));
}

#[test]
fn test_boolean_operations() {
    let card = fang();
    assert!(card.matches(&(TargetCondition::Never | TargetCondition::Always), None));
    assert!(!card.matches(&(TargetCondition::Never & TargetCondition::Always), None));
    assert!(card.matches(&(!TargetCondition::Never), None));
    assert_eq!(
        TargetCondition::Never.or(TargetCondition::Always),
        TargetCondition::Never | TargetCondition::Always
    );
    assert_eq!(
        TargetCondition::Never.and(TargetCondition::Always),
        TargetCondition::Never & TargetCondition::Always
    );
    assert_eq!(TargetCondition::Never.negated(), !TargetCondition::Never);
}

#[test]
fn test_target_ownership() {
    let player_card = build("Fang", 0, PlayerTarget::Player, 0);
    let opponent_card = build("Fang", 0, PlayerTarget::Opponent, 1);

    assert!(player_card
        .matches(&TargetCondition::HasOwner(PlayerTarget::Player), Some(&player_card)));
    assert!(player_card
        .matches(&TargetCondition::HasOwner(PlayerTarget::Opponent), Some(&opponent_card)));
    assert!(opponent_card
        .matches(&TargetCondition::HasOwner(PlayerTarget::Opponent), Some(&player_card)));
    assert!(opponent_card
        .matches(&TargetCondition::HasOwner(PlayerTarget::Player), Some(&opponent_card)));
    assert!(!player_card
        .matches(&TargetCondition::HasOwner(PlayerTarget::Player), Some(&opponent_card)));
    assert!(!player_card.matches(&TargetCondition::HasOwner(PlayerTarget::Player), None));
}

#[test]
fn test_target_cooldown() {
    let card_with_cooldown = build("Fang", 0, PlayerTarget::Player, 0);
    let card_without_cooldown = build("Bar of Gold", 0, PlayerTarget::Player, 1);

    assert!(card_with_cooldown.matches(&TargetCondition::HasCooldown, None));
    assert!(!card_without_cooldown.matches(&TargetCondition::HasCooldown, None));
    // With a candidate the predicate speaks of the candidate.
    assert!(card_without_cooldown.matches(&TargetCondition::HasCooldown, Some(&card_with_cooldown)));
    assert!(!card_with_cooldown.matches(&TargetCondition::HasCooldown, Some(&card_without_cooldown)));
}

#[test]
fn the_properties_of_the_candidate_are_matched() {
    let fang = build("Fang", 2, PlayerTarget::Player, 0);
    let gold = build("Bar of Gold", 3, PlayerTarget::Player, 1);
    let far = build("Bar of Gold", 5, PlayerTarget::Player, 2);
    let theirs = build("Bar of Gold", 3, PlayerTarget::Opponent, 3);
    assert!(fang.matches(&TargetCondition::Adjacent, Some(&gold)));
    assert!(gold.matches(&TargetCondition::Adjacent, Some(&fang)));
    assert!(!fang.matches(&TargetCondition::Adjacent, Some(&far)));
    assert!(!fang.matches(&TargetCondition::Adjacent, Some(&theirs)));
    assert!(!fang.matches(&TargetCondition::Adjacent, Some(&fang)));
    assert!(!fang.matches(&TargetCondition::Adjacent, None));
    assert!(fang.matches(&TargetCondition::HasSize(Size::Medium), Some(&gold)));
    assert!(!fang.matches(&TargetCondition::HasSize(Size::Small), Some(&gold)));
    assert!(fang.matches(&TargetCondition::HasSize(Size::Small), None));
    assert!(fang.matches(&TargetCondition::HasTag(Tag::Weapon), Some(&gold)));
    assert!(!fang.matches(&TargetCondition::HasTag(Tag::Tool), Some(&gold)));
    assert!(fang.matches(&TargetCondition::NameIncludes("of gol".to_string()), Some(&gold)));
    assert!(fang.matches(&TargetCondition::NameIncludes("BAR".to_string()), Some(&gold)));
    assert!(fang.matches(&TargetCondition::NameIncludes(String::new()), Some(&gold)));
    assert!(!fang.matches(&TargetCondition::NameIncludes("fang".to_string()), Some(&gold)));
    assert!(!fang.matches(&TargetCondition::NameIncludes("fang".to_string()), None));
    assert!(!fang.matches(&TargetCondition::Raw("fang".to_string()), Some(&fang)));
}

#[test]
fn a_card_is_built_from_its_tooltips() {
    let card = build("Fang", 4, PlayerTarget::Opponent, 17);
    assert_eq!(card.id_for_simulation, GlobalCardId(17));
    assert_eq!(card.position, 4);
    assert_eq!(card.owner, PlayerTarget::Opponent);
    assert_eq!(card.tier, Tier::Bronze);
    // The first definition of the name and the first cooldown count.
    assert_eq!(card.inner.size, Size::Small);
    assert_eq!(card.cooldown, GameTicks(180));
    assert_eq!(
        *card.cooldown_effects,
        vec![damage(5), Effect::Burn(PlayerTarget::Opponent, DerivedValue::Constant(1))]
    );
    assert_eq!(card.cooldown_counter, 0);
    assert_eq!(card.freeze_ticks, GameTicks(0));
    assert_eq!(card.slow_ticks, GameTicks(0));
    assert_eq!(card.haste_ticks, GameTicks(0));
    assert!(card.modification_tooltips.is_empty());
    assert!(!card.is_radiant());
    assert_eq!(card.compute_crit_chance(), Percentage(2000));
    assert_eq!(card.compute_cost(), 1 + 4);
    assert_eq!(card.clone(), card);
    assert_eq!(CardSummary::from(&card).describe(), "Card<id=0x11, name=Fang, owner=PlayerTarget::Opponent>");
    assert_eq!(
        CardSummary::from(&card),
        CardSummary {
            id: GlobalCardId(17),
            name: "Fang".to_string(),
            owner: PlayerTarget::Opponent
        }
    );
    let gold = build("Bar of Gold", 0, PlayerTarget::Player, 1);
    assert_eq!(gold.cooldown, GameTicks(0));
    assert!(gold.cooldown_effects.is_empty());
    assert_eq!(gold.compute_cost(), 2);
    assert_eq!(gold.compute_crit_chance(), Percentage(0));
}

#[test]
fn modifications_add_tooltips() {
    let mut modified = template("Fang");
    modified.modifications = Arc::new(vec![
        CardModification::Value(10),
        CardModification::Enchanted(Enchantment::Radiant),
        CardModification::Enchanted(Enchantment::Golden),
        CardModification::Burn(3),
        CardModification::Crit(Percentage(100)),
    ]);
    let card = modified
        .create_card_on_board(&catalog(), 0, PlayerTarget::Player, GlobalCardId(0))
        .unwrap();
    assert_eq!(
        *card.modification_tooltips,
        vec![
            Tooltip::StaticModifier(Modifier::IncreasedValue(10)),
            Tooltip::StaticModifier(Modifier::Radiant),
        ]
    );
    assert!(card.is_radiant());
    let definition = catalog().get("Fang").unwrap().clone();
    assert_eq!(
        CardModification::Enchanted(Enchantment::Shiny).derive_tooltips(&definition),
        vec![Tooltip::StaticModifier(Modifier::Multicast(1))]
    );
    assert_eq!(CardModification::Enchanted(Enchantment::Icy).derive_tooltips(&definition), vec![]);
    assert_eq!(CardModification::Heal(1).derive_tooltips(&definition), vec![]);
    assert_eq!(
        CardModification::Value(2).derive_tooltips(&definition),
        vec![Tooltip::StaticModifier(Modifier::IncreasedValue(2))]
    );
}

#[test]
fn a_card_that_cannot_be_built_says_why() {
    let unknown = template("Dagger").create_card_on_board(
        &catalog(),
        0,
        PlayerTarget::Player,
        GlobalCardId(0),
    );
    assert_eq!(unknown.err(), Some(CardError::UnknownCard("Dagger".to_string())));
    let mut silver = template("Fang");
    silver.tier = Tier::Silver;
    let bare = silver.create_card_on_board(&catalog(), 0, PlayerTarget::Player, GlobalCardId(0));
    assert_eq!(bare.err(), Some(CardError::NoTooltips("Fang".to_string(), Tier::Silver)));
    // The tooltips of the tier count, not those that modifications add.
    silver.modifications = Arc::new(vec![CardModification::Value(1)]);
    let still_bare =
        silver.create_card_on_board(&catalog(), 0, PlayerTarget::Player, GlobalCardId(0));
    assert_eq!(still_bare.err(), Some(CardError::NoTooltips("Fang".to_string(), Tier::Silver)));
}

#[test]
fn the_catalog_finds_the_first_card_of_a_name() {
    let catalog = catalog();
    assert_eq!(catalog.len(), 3);
    assert_eq!(catalog.get("Fang").unwrap().size, Size::Small);
    assert_eq!(catalog.get("Bar of Gold").unwrap().size, Size::Medium);
    assert!(catalog.get("fang").is_none());
    assert!(catalog.get("").is_none());
    assert_eq!(catalog.names(), vec!["Fang", "Bar of Gold", "Fang"]);
    assert!(Catalog::new().get("Fang").is_none());
}

#[test]
fn a_card_fires_when_its_cooldown_has_elapsed() {
    let mut card = fang();
    for tick in 0..180 {
        assert_eq!(card.tick(), vec![], "tick {tick}");
    }
    assert_eq!(card.cooldown_counter, 360);
    let fired = card.tick();
    assert_eq!(
        fired,
        vec![
            CombatEvent::DealDamage(
                PlayerTarget::Opponent,
                DerivedValue::Constant(5),
                GlobalCardId(0)
            ),
            CombatEvent::ApplyBurn(
                PlayerTarget::Opponent,
                DerivedValue::Constant(1),
                GlobalCardId(0)
            ),
        ]
    );
    assert_eq!(card.cooldown_counter, 2);
}

#[test]
fn a_card_fires_once_for_each_cooldown_on_its_clock() {
    let mut card = fang();
    card.cooldown_counter = 3 * 360 + 7;
    assert_eq!(card.tick().len(), 3 * 2);
    assert_eq!(card.cooldown_counter, 7 + 2);
    card.cooldown_counter = 359;
    assert_eq!(card.tick().len(), 0);
    assert_eq!(card.cooldown_counter, 361);
    assert_eq!(card.tick().len(), 2);
    assert_eq!(card.cooldown_counter, 3);
}

#[test]
fn a_card_without_cooldown_never_fires() {
    let mut card = build("Bar of Gold", 0, PlayerTarget::Player, 0);
    card.cooldown_counter = 1000;
    for _ in 0..500 {
        assert_eq!(card.tick(), vec![]);
    }
    assert_eq!(card.cooldown_counter, 2000);
    card.cooldown_counter = u128::MAX - 1;
    card.tick();
    assert_eq!(card.cooldown_counter, u128::MAX);
}

#[test]
fn a_frozen_card_only_thaws() {
    let mut card = fang();
    card.cooldown_counter = 400;
    card.freeze(GameTicks(2));
    card.haste(GameTicks(5));
    assert_eq!(card.tick(), vec![CombatEvent::Skip(SkipReason::IsFrozen)]);
    assert_eq!(card.tick(), vec![CombatEvent::Skip(SkipReason::IsFrozen)]);
    assert_eq!(card.freeze_ticks, GameTicks(0));
    assert_eq!(card.haste_ticks, GameTicks(5));
    assert_eq!(card.cooldown_counter, 400);
    assert_eq!(card.tick().len(), 2);
    assert_eq!(card.haste_ticks, GameTicks(4));
    assert_eq!(card.cooldown_counter, 40 + 4);
}

#[test]
fn slow_and_haste_change_the_increment() {
    let mut card = fang();
    // A tick takes one tick from each status, then looks at what is left.
    card.slow(GameTicks(2));
    card.tick();
    assert_eq!(card.cooldown_counter, 1);
    assert_eq!(card.slow_ticks, GameTicks(1));
    card.haste(GameTicks(1));
    card.tick();
    assert_eq!(card.cooldown_counter, 3);
    assert_eq!((card.slow_ticks, card.haste_ticks), (GameTicks(0), GameTicks(0)));
    card.haste(GameTicks(2));
    card.haste(GameTicks(1));
    assert_eq!(card.haste_ticks, GameTicks(3));
    card.tick();
    assert_eq!(card.cooldown_counter, 7);
    card.slow(GameTicks(u64::MAX));
    card.slow(GameTicks(1));
    assert_eq!(card.slow_ticks, GameTicks(u64::MAX));
}

#[test]
fn effects_become_combat_events() {
    let card = build("Fang", 0, PlayerTarget::Player, 7);
    let id = GlobalCardId(7);
    let value = || DerivedValue::Constant(2);
    let target = || CardTarget(1, TargetCondition::Always);
    let own = PlayerTarget::Player;
    let lower = |effect: Effect| {
        let events = card.effect_to_combat_events(&effect);
        assert_eq!(events.len(), 1);
        events.into_iter().next().unwrap()
    };
    assert_eq!(lower(Effect::DealDamage(own, value())), CombatEvent::DealDamage(own, value(), id));
    assert_eq!(lower(Effect::Burn(own, value())), CombatEvent::ApplyBurn(own, value(), id));
    assert_eq!(lower(Effect::Poison(own, value())), CombatEvent::ApplyPoison(own, value(), id));
    assert_eq!(lower(Effect::Heal(own, value())), CombatEvent::Heal(own, value(), id));
    assert_eq!(lower(Effect::Shield(own, value())), CombatEvent::ApplyShield(own, value(), id));
    assert_eq!(lower(Effect::Regen(own, value())), CombatEvent::Regen(own, value(), id));
    assert_eq!(
        lower(Effect::Freeze(target(), 2500)),
        CombatEvent::Freeze(target(), GameTicks(150), id)
    );
    assert_eq!(lower(Effect::Slow(target(), 1000)), CombatEvent::Slow(target(), GameTicks(60), id));
    assert_eq!(lower(Effect::Haste(target(), 10)), CombatEvent::Haste(target(), GameTicks(0), id));
    assert_eq!(lower(Effect::Destroy(target())), CombatEvent::Raw("Destroy".to_string()));
    assert_eq!(
        lower(Effect::IncreaseDamage(target(), EffectValue::Flat(1))),
        CombatEvent::Raw("IncreaseDamage".to_string())
    );
    assert_eq!(
        lower(Effect::Raw("deal a lot of damage".to_string())),
        CombatEvent::Raw("deal a lot of damage".to_string())
    );
    assert_eq!(Effect::GainXp(own, 1).label(), "GainXp");
}
