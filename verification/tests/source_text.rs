use simulator::models::{
    CardDerivedProperty, CardEnchantment, CardTarget, Condition, DerivedValue, Effect, EffectEvent,
    EffectValue, Enchantment, GlobalEvent, Hero, Modifier, ObtainedEffectItem, PackId, Percentage,
    PlayerDerivedProperty, PlayerTarget, Size, Tag, TargetCondition, Tier, Tooltip,
};
use simulator::text::{contains, hexadecimal, to_string_expression};
use std::sync::Arc;

fn target() -> CardTarget {
    CardTarget(2, TargetCondition::HasTag(Tag::Weapon))
}

const TARGET: &str = "CardTarget(2, TargetCondition::HasTag(Tag::Weapon))";

#[test]
fn names_are_written_as_they_are_declared() {
    assert_eq!(Tag::Weapon.name(), "Weapon");
    assert_eq!(Tag::Ammo.name(), "Ammo");
    assert_eq!(Size::Medium.name(), "Medium");
    assert_eq!(Tier::Legendary.name(), "Legendary");
    assert_eq!(PlayerTarget::Opponent.name(), "Opponent");
    assert_eq!(CardDerivedProperty::Damage.name(), "Damage");
    assert_eq!(PlayerDerivedProperty::MaximumHealth.name(), "MaximumHealth");
    assert_eq!(Enchantment::Obsidian.name(), "Obsidian");
    assert_eq!(Hero::Pygmalien.name(), "Pygmalien");
    assert_eq!(PackId::VanessaTheGang.name(), "VanessaTheGang");
    assert_eq!(Tier::from_name("Gold"), Some(Tier::Gold));
    assert_eq!(Tier::from_name("gold"), None);
    assert_eq!(Hero::from_name("Mak"), Some(Hero::Mak));
    assert_eq!(PackId::from_name("DooleyCore"), Some(PackId::DooleyCore));
    assert_eq!(PackId::from_name("Dooley"), None);
    assert_eq!(Enchantment::from_name("Toxic"), Some(Enchantment::Toxic));
    assert_eq!(Enchantment::from_name(""), None);
}

#[test]
fn plain_values_are_written_as_expressions() {
    assert_eq!(PlayerTarget::Player.to_source(), "PlayerTarget::Player");
    assert_eq!(Percentage(2500).to_source(), "Percentage(2500)");
    assert_eq!(
        Condition::HasCardOfSize(Size::Large).to_source(),
        "Condition::HasCardOfSize(Size::Large)"
    );
    assert_eq!(Condition::HasCardOfTag(Tag::Toy).to_source(), "Condition::HasCardOfTag(Tag::Toy)");
    assert_eq!(
        GlobalEvent::PlayerFallsBelowHpPercentage(50).to_source(),
        "GlobalEvent::PlayerFallsBelowHpPercentage(50)"
    );
    assert_eq!(EffectValue::Flat(3u32).to_source(), "EffectValue::Flat(3)");
    assert_eq!(EffectValue::Percentage(7u64).to_source(), "EffectValue::Percentage(7)");
    assert_eq!(Modifier::DoubleCritDamage.to_source(), "Modifier::DoubleCritDamage");
    assert_eq!(Modifier::Radiant.to_source(), "Modifier::Radiant");
    assert_eq!(Modifier::Cooldown(4500).to_source(), "Modifier::Cooldown(4500)");
    assert_eq!(Modifier::Ammo(2).to_source(), "Modifier::Ammo(2)");
    assert_eq!(Modifier::Multicast(3).to_source(), "Modifier::Multicast(3)");
    assert_eq!(Modifier::IncreasedValue(4).to_source(), "Modifier::IncreasedValue(4)");
    assert_eq!(
        Modifier::CritChance(Percentage(5000)).to_source(),
        "Modifier::CritChance(Percentage(5000))"
    );
    assert_eq!(
        Modifier::WeaponDamage(EffectValue::Flat(5)).to_source(),
        "Modifier::WeaponDamage(EffectValue::Flat(5))"
    );
    assert_eq!(
        Modifier::LessDamageTaken(EffectValue::Percentage(10)).to_source(),
        "Modifier::LessDamageTaken(EffectValue::Percentage(10))"
    );
    assert_eq!(to_string_expression("\"a\""), "\"a\".to_string()");
    assert_eq!(hexadecimal(0), "0");
    assert_eq!(hexadecimal(u64::MAX), "ffffffffffffffff");
}

#[test]
fn conditions_are_written_as_expressions() {
    let write = |condition: TargetCondition| condition.to_source();
    assert_eq!(write(TargetCondition::Always), "TargetCondition::Always");
    assert_eq!(write(TargetCondition::Never), "TargetCondition::Never");
    assert_eq!(write(TargetCondition::IsSelf), "TargetCondition::IsSelf");
    assert_eq!(write(TargetCondition::Adjacent), "TargetCondition::Adjacent");
    assert_eq!(write(TargetCondition::HasCooldown), "TargetCondition::HasCooldown");
    assert_eq!(
        write(TargetCondition::HasOwner(PlayerTarget::Opponent)),
        "TargetCondition::HasOwner(PlayerTarget::Opponent)"
    );
    assert_eq!(write(TargetCondition::HasSize(Size::Small)), "TargetCondition::HasSize(Size::Small)");
    assert_eq!(
        write(TargetCondition::NameIncludes("wanted \"poster\"".to_string())),
        "TargetCondition::NameIncludes(\"wanted \\\"poster\\\"\".to_string())"
    );
    assert_eq!(
        write(TargetCondition::Raw("a\nb".to_string())),
        "TargetCondition::Raw(\"a\\nb\".to_string())"
    );
    assert_eq!(
        write(!TargetCondition::IsSelf & (TargetCondition::Always | TargetCondition::Never)),
        "TargetCondition::And(Box::new(TargetCondition::Not(Box::new(TargetCondition::IsSelf))), \
         Box::new(TargetCondition::Or(Box::new(TargetCondition::Always), \
         Box::new(TargetCondition::Never))))"
    );
    assert_eq!(target().to_source(), TARGET);
    assert_eq!(
        CardTarget(usize::MAX, TargetCondition::Always).to_source(),
        format!("CardTarget({}, TargetCondition::Always)", usize::MAX)
    );
}

#[test]
fn derived_values_are_written_as_expressions() {
    assert_eq!(DerivedValue::Constant(5u32).to_source(), "DerivedValue::Constant(5)");
    assert_eq!(
        DerivedValue::<u32>::FromCard(target(), CardDerivedProperty::Value, 200).to_source(),
        format!("DerivedValue::FromCard({TARGET}, CardDerivedProperty::Value, 200)")
    );
    assert_eq!(
        DerivedValue::<u32>::FromPlayer(target(), PlayerDerivedProperty::CurrentHealth, 50)
            .to_source(),
        format!("DerivedValue::FromPlayer({TARGET}, PlayerDerivedProperty::CurrentHealth, 50)")
    );
}

#[test]
fn effects_are_written_as_expressions() {
    let own = PlayerTarget::Player;
    let five = || DerivedValue::Constant(5u32);
    let cases: Vec<(Effect, String)> = vec![
        (Effect::Raw("x".to_string()), "Effect::Raw(\"x\".to_string())".to_string()),
        (Effect::Use(target()), format!("Effect::Use({TARGET})")),
        (
            Effect::GainShield(target(), EffectValue::Flat(1)),
            format!("Effect::GainShield({TARGET}, EffectValue::Flat(1))"),
        ),
        (
            Effect::CooldownReduction(target(), EffectValue::Percentage(10)),
            format!("Effect::CooldownReduction({TARGET}, EffectValue::Percentage(10))"),
        ),
        (
            Effect::IncreaseDamage(target(), EffectValue::Flat(2)),
            format!("Effect::IncreaseDamage({TARGET}, EffectValue::Flat(2))"),
        ),
        (Effect::Freeze(target(), 2000), format!("Effect::Freeze({TARGET}, 2000)")),
        (Effect::Slow(target(), 1000), format!("Effect::Slow({TARGET}, 1000)")),
        (Effect::Haste(target(), 500), format!("Effect::Haste({TARGET}, 500)")),
        (Effect::Reload(target(), 3), format!("Effect::Reload({TARGET}, 3)")),
        (Effect::DamageImmunity(1500), "Effect::DamageImmunity(1500)".to_string()),
        (Effect::Charge(target(), 100), format!("Effect::Charge({TARGET}, 100)")),
        (Effect::Destroy(target()), format!("Effect::Destroy({TARGET})")),
        (
            Effect::Burn(own, five()),
            "Effect::Burn(PlayerTarget::Player, DerivedValue::Constant(5))".to_string(),
        ),
        (
            Effect::Heal(own, five()),
            "Effect::Heal(PlayerTarget::Player, DerivedValue::Constant(5))".to_string(),
        ),
        (
            Effect::Shield(own, five()),
            "Effect::Shield(PlayerTarget::Player, DerivedValue::Constant(5))".to_string(),
        ),
        (
            Effect::Regen(own, five()),
            "Effect::Regen(PlayerTarget::Player, DerivedValue::Constant(5))".to_string(),
        ),
        (
            Effect::Poison(own, five()),
            "Effect::Poison(PlayerTarget::Player, DerivedValue::Constant(5))".to_string(),
        ),
        (
            Effect::GainGold(own, five()),
            "Effect::GainGold(PlayerTarget::Player, DerivedValue::Constant(5))".to_string(),
        ),
        (
            Effect::DealDamage(own, five()),
            "Effect::DealDamage(PlayerTarget::Player, DerivedValue::Constant(5))".to_string(),
        ),
        (Effect::UseCard(target()), format!("Effect::UseCard({TARGET})")),
        (
            Effect::Upgrade(Tier::Bronze, target()),
            format!("Effect::Upgrade(Tier::Bronze, {TARGET})"),
        ),
        (
            Effect::PermanentMaxHealthIncrease(five()),
            "Effect::PermanentMaxHealthIncrease(DerivedValue::Constant(5))".to_string(),
        ),
        (
            Effect::IncreaseMaxAmmo(target(), EffectValue::Flat(1)),
            format!("Effect::IncreaseMaxAmmo({TARGET}, EffectValue::Flat(1))"),
        ),
        (
            Effect::ObtainItem(Arc::new(vec![
                ObtainedEffectItem { name: "Pearl".to_string(), count: 2, condition: None },
                ObtainedEffectItem {
                    name: "Gumball".to_string(),
                    count: 1,
                    condition: Some(Condition::HasCardOfTag(Tag::Toy)),
                },
            ])),
            "Effect::ObtainItem(Arc::new(vec![ObtainedEffectItem { name: \"Pearl\".to_string(), \
             count: 2, condition: None }, ObtainedEffectItem { name: \"Gumball\".to_string(), \
             count: 1, condition: Some(Condition::HasCardOfTag(Tag::Toy)) }]))"
                .to_string(),
        ),
        (Effect::ObtainItem(Arc::new(vec![])), "Effect::ObtainItem(Arc::new(vec![]))".to_string()),
        (
            Effect::SpendGoldForEffect(3, Box::new(Effect::GainXp(own, 1))),
            "Effect::SpendGoldForEffect(3, Box::new(Effect::GainXp(PlayerTarget::Player, 1)))"
                .to_string(),
        ),
        (
            Effect::ConditionalMatchItem(target(), Box::new(Effect::DamageImmunity(1))),
            format!("Effect::ConditionalMatchItem({TARGET}, Box::new(Effect::DamageImmunity(1)))"),
        ),
        (
            Effect::MultiEffect(Arc::new(vec![
                Effect::DamageImmunity(1),
                Effect::MultiEffect(Arc::new(vec![Effect::DamageImmunity(2)])),
                Effect::DamageImmunity(3),
            ])),
            "Effect::MultiEffect(Arc::new(vec![Effect::DamageImmunity(1),\
             Effect::MultiEffect(Arc::new(vec![Effect::DamageImmunity(2)])),\
             Effect::DamageImmunity(3)]))"
                .to_string(),
        ),
    ];
    for (effect, source) in cases {
        assert_eq!(effect.to_source(), source);
    }
}

#[test]
fn events_and_tooltips_are_written_as_expressions() {
    let effect = || Effect::DamageImmunity(1);
    let written = "Effect::DamageImmunity(1)";
    let events: Vec<(EffectEvent, String)> = vec![
        (EffectEvent::OnCooldown(effect()), format!("EffectEvent::OnCooldown({written})")),
        (
            EffectEvent::OnCardTransformed(effect()),
            format!("EffectEvent::OnCardTransformed({written})"),
        ),
        (EffectEvent::OnDayStart(effect()), format!("EffectEvent::OnDayStart({written})")),
        (EffectEvent::OnWinVersusHero(effect()), format!("EffectEvent::OnWinVersusHero({written})")),
        (EffectEvent::OnFightStart(effect()), format!("EffectEvent::OnFightStart({written})")),
        (EffectEvent::OnCardSold(effect()), format!("EffectEvent::OnCardSold({written})")),
        (
            EffectEvent::OnCardUsed(TargetCondition::Adjacent, effect()),
            format!("EffectEvent::OnCardUsed(TargetCondition::Adjacent, {written})"),
        ),
        (
            EffectEvent::OnCrit(TargetCondition::Always, effect()),
            format!("EffectEvent::OnCrit(TargetCondition::Always, {written})"),
        ),
        (
            EffectEvent::OnFirstTime(GlobalEvent::PlayerFallsBelowHpPercentage(50), effect()),
            format!(
                "EffectEvent::OnFirstTime(GlobalEvent::PlayerFallsBelowHpPercentage(50), {written})"
            ),
        ),
        (EffectEvent::Raw("?".to_string()), "EffectEvent::Raw(\"?\".to_string())".to_string()),
    ];
    for (event, source) in events {
        assert_eq!(event.to_source(), source);
    }
    assert_eq!(Tooltip::SellsForGold.to_source(), "Tooltip::SellsForGold");
    assert_eq!(Tooltip::Raw("é".to_string()).to_source(), "Tooltip::Raw(\"é\".to_string())");
    assert_eq!(
        Tooltip::When(EffectEvent::OnCooldown(effect())).to_source(),
        format!("Tooltip::When(EffectEvent::OnCooldown({written}))")
    );
    assert_eq!(
        Tooltip::StaticModifier(Modifier::Radiant).to_source(),
        "Tooltip::StaticModifier(Modifier::Radiant)"
    );
    assert_eq!(
        Tooltip::ConditionalModifier(Condition::HasCardOfTag(Tag::Tool), Modifier::Ammo(1))
            .to_source(),
        "Tooltip::ConditionalModifier(Condition::HasCardOfTag(Tag::Tool), Modifier::Ammo(1))"
    );
    assert_eq!(
        Tooltip::Conditional(
            Condition::HasCardOfSize(Size::Small),
            Box::new(Tooltip::SellsForGold)
        )
        .to_source(),
        "Tooltip::Conditional(Condition::HasCardOfSize(Size::Small), \
         Box::new(Tooltip::SellsForGold))"
    );
    assert_eq!(
        CardEnchantment::Icy(Arc::new(vec![Tooltip::SellsForGold, Tooltip::SellsForGold]))
            .to_source(),
        "CardEnchantment::Icy(Arc::new(vec![Tooltip::SellsForGold, Tooltip::SellsForGold]))"
    );
}

#[test]
fn a_text_is_found_where_it_occurs() {
    assert!(contains("bar of gold", "of"));
    assert!(contains("bar of gold", "bar"));
    assert!(contains("bar of gold", "gold"));
    assert!(contains("bar of gold", ""));
    assert!(contains("", ""));
    assert!(contains("gold", "gold"));
    assert!(!contains("bar of gold", "golden"));
    assert!(!contains("gold", "a bar of gold"));
    assert!(!contains("", "a"));
    assert!(contains("größe", "öß"));
    assert!(!contains("ababab", "abba"));
}
