use std::sync::Arc;

use simulator::models::tooltip::numeric::{parse_u32, NUMERIC_REGEX};
use simulator::models::{
    parse_numeric, CardDerivedProperty, CardTarget, Condition, Decimal, DerivedValue, Effect,
    EffectEvent, EffectValue, GlobalEvent, Modifier, ObtainedEffectItem, Percentage,
    PlayerTarget, Size, Tag, TargetCondition, Tier, Tooltip,
};

fn own() -> CardTarget {
    CardTarget(1, TargetCondition::IsSelf)
}

fn on_cooldown(effect: Effect) -> Tooltip {
    Tooltip::When(EffectEvent::OnCooldown(effect))
}

fn constant(n: u32) -> DerivedValue<u32> {
    DerivedValue::Constant(n)
}

#[test]
fn a_decimal_is_read_in_thousandths() {
    let read = |token: &str| Decimal::parse(token);
    assert_eq!(read("4"), Some(Decimal { negative: false, thousandths: 4000, integral: true }));
    assert_eq!(read("4.5"), Some(Decimal { negative: false, thousandths: 4500, integral: false }));
    assert_eq!(read(".25"), Some(Decimal { negative: false, thousandths: 250, integral: false }));
    assert_eq!(
        read("12.3456"),
        Some(Decimal { negative: false, thousandths: 12345, integral: false })
    );
    assert_eq!(read("-7"), Some(Decimal { negative: true, thousandths: 7000, integral: true }));
    assert_eq!(read("+0.5"), Some(Decimal { negative: false, thousandths: 500, integral: false }));
    assert_eq!(read("007"), Some(Decimal { negative: false, thousandths: 7000, integral: true }));
    assert_eq!(read(""), None);
    assert_eq!(read("-"), None);
    assert_eq!(read("4."), None);
    assert_eq!(read("."), None);
    assert_eq!(read("4a"), None);
    assert_eq!(read("4.5.6"), None);
    assert_eq!(read(" 4"), None);
    assert_eq!(read("٤"), None);
    assert_eq!(
        read("99999999999999999999999999"),
        Some(Decimal { negative: false, thousandths: u64::MAX, integral: true })
    );
    assert_eq!(
        read("18446744073709551.615"),
        Some(Decimal { negative: false, thousandths: u64::MAX, integral: false })
    );
    assert_eq!(
        read("18446744073709551.614"),
        Some(Decimal { negative: false, thousandths: u64::MAX - 1, integral: false })
    );
}

#[test]
fn a_decimal_converts_to_the_units_of_the_engine() {
    let four_and_a_half = Decimal::parse("4.5").unwrap();
    assert_eq!(four_and_a_half.as_millis(), 4500);
    assert_eq!(four_and_a_half.as_basis_points(), 450);
    assert_eq!(four_and_a_half.as_u32(), None);
    assert_eq!(four_and_a_half.as_usize(), None);
    let seven = Decimal::parse("7").unwrap();
    assert_eq!(seven.as_u32(), Some(7));
    assert_eq!(seven.as_usize(), Some(7));
    assert_eq!(seven.as_millis(), 7000);
    assert_eq!(seven.as_basis_points(), 700);
    let minus = Decimal::parse("-7").unwrap();
    assert_eq!(minus.as_u32(), None);
    assert_eq!(minus.as_millis(), 0);
    assert_eq!(minus.as_basis_points(), 0);
    assert_eq!(Decimal::parse("4294967295").unwrap().as_u32(), Some(u32::MAX));
    assert_eq!(Decimal::parse("4294967296").unwrap().as_u32(), None);
    assert_eq!(parse_u32("+12"), Some(12));
    assert_eq!(parse_u32("-0"), None);
    assert_eq!(parse_u32("1.0"), None);
    assert_eq!(Decimal::parse("99999999999999").unwrap().as_basis_points(), u32::MAX);
}

#[test]
fn the_first_number_of_a_text_is_found() {
    assert_eq!(NUMERIC_REGEX, r"[-+]?\d*\.?\d+");
    assert_eq!(parse_numeric("cooldown 4.5 seconds").unwrap().as_millis(), 4500);
    assert_eq!(parse_numeric("ammo 3, multicast 2").unwrap().as_u32(), Some(3));
    assert_eq!(parse_numeric("gain -2 things").unwrap().negative, true);
    assert_eq!(parse_numeric("no number here"), None);
    assert_eq!(parse_numeric("a . b"), None);
}

#[test]
fn plain_effects_are_read() {
    let read = Effect::from_tooltip_str;
    assert_eq!(read("use this."), Effect::Use(own()));
    assert_eq!(read("  use this.  "), Effect::Use(own()));
    assert_eq!(read("poison yourself 3"), Effect::Poison(PlayerTarget::Player, constant(3)));
    assert_eq!(
        read("permanently gain 25 max health."),
        Effect::PermanentMaxHealthIncrease(constant(25))
    );
    assert_eq!(read("gain 4 gold."), Effect::GainGold(PlayerTarget::Player, constant(4)));
    assert_eq!(
        read("this gains 2 max ammo"),
        Effect::IncreaseMaxAmmo(own(), EffectValue::Flat(2))
    );
    assert_eq!(
        read("upgrade a random piggle."),
        Effect::Upgrade(Tier::Bronze, CardTarget(1, TargetCondition::NameIncludes("piggle".to_string())))
    );
    assert_eq!(
        read("destroy an item for the fight."),
        Effect::Destroy(CardTarget(1, TargetCondition::HasOwner(PlayerTarget::Opponent)))
    );
    assert_eq!(read("do a barrel roll"), Effect::Raw("do a barrel roll".to_string()));
    assert_eq!(read("gain 99999999999 gold"), Effect::Raw("gain 99999999999 gold".to_string()));
}

#[test]
fn effects_derived_from_the_item_are_read() {
    let read = Effect::from_tooltip_str;
    let damage = |percent| DerivedValue::FromCard(own(), CardDerivedProperty::Damage, percent);
    let value = |percent| DerivedValue::FromCard(own(), CardDerivedProperty::Value, percent);
    assert_eq!(
        read("poison equal to 10% of this item's damage."),
        Effect::Poison(PlayerTarget::Opponent, damage(10))
    );
    assert_eq!(
        read("shield equal to 50% of this item's damage."),
        Effect::Shield(PlayerTarget::Player, damage(50))
    );
    assert_eq!(
        read("shield equal to this item's damage."),
        Effect::Shield(PlayerTarget::Player, damage(100))
    );
    assert_eq!(
        read("heal equal to 25% of this item's damage."),
        Effect::Heal(PlayerTarget::Player, damage(25))
    );
    assert_eq!(
        read("heal equal to this item's damage."),
        Effect::Heal(PlayerTarget::Player, damage(100))
    );
    assert_eq!(
        read("burn equal to 5% of this item's damage."),
        Effect::Burn(PlayerTarget::Opponent, damage(5))
    );
    assert_eq!(
        read("deal damage equal to double this item's value."),
        Effect::DealDamage(PlayerTarget::Opponent, value(200))
    );
    assert_eq!(
        read("deal damage equal to this item's value."),
        Effect::DealDamage(PlayerTarget::Opponent, value(100))
    );
}

#[test]
fn effects_that_hand_out_items_are_read() {
    let read = Effect::from_tooltip_str;
    let item = |name: &str, count| ObtainedEffectItem {
        name: name.to_string(),
        count,
        condition: None,
    };
    assert_eq!(read("get a chocolate bar."), Effect::ObtainItem(Arc::new(vec![item("Chocolate Bar", 1)])));
    assert_eq!(read("get 3 spare change"), Effect::ObtainItem(Arc::new(vec![item("Spare Change", 3)])));
    assert_eq!(
        read("get a cutlass, shovel and zoarcid."),
        Effect::ObtainItem(Arc::new(vec![item("Cutlass", 1), item("Shovel", 1), item("Zoarcid", 1)]))
    );
    assert_eq!(
        read("get a gumball. if you have a toy, get a second gumball."),
        Effect::ObtainItem(Arc::new(vec![
            item("Gumball", 1),
            ObtainedEffectItem {
                name: "Gumball".to_string(),
                count: 1,
                condition: Some(Condition::HasCardOfTag(Tag::Toy)),
            },
        ]))
    );
    assert_eq!(
        read("gain 1 xp. if you had wanted poster in play, gain 1 additional xp."),
        Effect::MultiEffect(Arc::new(vec![
            Effect::GainXp(PlayerTarget::Player, 1),
            Effect::ConditionalMatchItem(
                CardTarget(1, TargetCondition::NameIncludes("wanted poster".to_string())),
                Box::new(Effect::GainXp(PlayerTarget::Player, 1)),
            ),
        ]))
    );
    assert_eq!(ObtainedEffectItem::new("bar of gold", 2), item("Bar Of Gold", 2));
    assert_eq!(
        ObtainedEffectItem::new_conditional("xmlHttp", 1, Condition::HasCardOfSize(Size::Small)),
        ObtainedEffectItem {
            name: "Xml Http".to_string(),
            count: 1,
            condition: Some(Condition::HasCardOfSize(Size::Small)),
        }
    );
}

#[test]
fn spending_gold_reads_the_inner_effect() {
    assert_eq!(
        Effect::from_tooltip_str("spend 5 gold to do something"),
        Effect::SpendGoldForEffect(5, Box::new(Effect::Raw("do something".to_string())))
    );
    assert_eq!(
        Effect::from_tooltip_str("spend 2 gold to get a pearl."),
        Effect::SpendGoldForEffect(
            2,
            Box::new(Effect::ObtainItem(Arc::new(vec![ObtainedEffectItem {
                name: "Pearl".to_string(),
                count: 1,
                condition: None,
            }])))
        )
    );
}

#[test]
fn effect_events_are_read() {
    let read = EffectEvent::from_tooltip_str;
    let fires = |effect| EffectEvent::OnCooldown(effect);
    assert_eq!(read("burn 4"), fires(Effect::Burn(PlayerTarget::Opponent, constant(4))));
    assert_eq!(read("poison 2."), fires(Effect::Poison(PlayerTarget::Opponent, constant(2))));
    assert_eq!(
        read("gain 1 regen for the fight."),
        fires(Effect::Regen(PlayerTarget::Player, constant(1)))
    );
    assert_eq!(read("shield 10"), fires(Effect::Shield(PlayerTarget::Player, constant(10))));
    assert_eq!(read(" heal 7. "), fires(Effect::Heal(PlayerTarget::Player, constant(7))));
    assert_eq!(
        read("deal 5 damage."),
        fires(Effect::DealDamage(PlayerTarget::Opponent, constant(5)))
    );
    assert_eq!(
        read("use all your other items."),
        fires(Effect::Use(CardTarget(
            usize::MAX,
            TargetCondition::And(
                Box::new(TargetCondition::Not(Box::new(TargetCondition::IsSelf))),
                Box::new(TargetCondition::HasOwner(PlayerTarget::Player)),
            ),
        )))
    );
    assert_eq!(read("dance"), EffectEvent::Raw("dance".to_string()));
    assert_eq!(read("deal five damage"), EffectEvent::Raw("deal five damage".to_string()));
}

#[test]
fn effects_are_read_from_words() {
    let words = vec!["deal".to_string(), "damage".to_string()];
    assert_eq!(Effect::from_iter(&words), Effect::Raw("deal damage".to_string()));
    let words = vec!["use".to_string(), "this.".to_string()];
    assert_eq!(EffectEvent::from_iter(&words), Effect::Use(own()));
    assert_eq!(Effect::from_iter(&vec![]), Effect::Raw(String::new()));
}

#[test]
fn modifiers_are_read() {
    let read = Tooltip::from_str;
    let modifier = |m| Tooltip::StaticModifier(m);
    assert_eq!(read("Cooldown 4.5 seconds"), modifier(Modifier::Cooldown(4500)));
    assert_eq!(read("cooldown 3 seconds"), modifier(Modifier::Cooldown(3000)));
    assert_eq!(read("Cooldown soon"), Tooltip::Raw("cooldown soon".to_string()));
    assert_eq!(read("Ammo 2"), modifier(Modifier::Ammo(2)));
    assert_eq!(read("ammo 2.5"), Tooltip::Raw("ammo 2.5".to_string()));
    assert_eq!(read("Multicast 3"), modifier(Modifier::Multicast(3)));
    assert_eq!(read("use 2 of these"), modifier(Modifier::Multicast(2)));
    assert_eq!(read("use a property"), Tooltip::Raw("use a property".to_string()));
    assert_eq!(read("Crit Chance 25%"), modifier(Modifier::CritChance(Percentage(2500))));
    assert_eq!(read("crit chance 12.5%"), modifier(Modifier::CritChance(Percentage(1250))));
    assert_eq!(
        read("You take 10% less damage."),
        modifier(Modifier::LessDamageTaken(EffectValue::Percentage(10)))
    );
    assert_eq!(read("This deals double crit damage."), modifier(Modifier::DoubleCritDamage));
    assert_eq!(
        read("This has double damage."),
        modifier(Modifier::WeaponDamage(EffectValue::Percentage(100)))
    );
    assert_eq!(
        read("This cannot be Frozen, Slowed or Destroyed."),
        modifier(Modifier::Radiant)
    );
    assert_eq!(read("+50% Crit Chance"), modifier(Modifier::CritChance(Percentage(5000))));
    assert_eq!(read("This has +1 Multicast."), modifier(Modifier::Multicast(1)));
    assert_eq!(
        read("Your weapons deal +5 damage."),
        modifier(Modifier::WeaponDamage(EffectValue::Flat(5)))
    );
    assert_eq!(read("Sells for gold."), Tooltip::SellsForGold);
}

#[test]
fn effects_on_cooldown_are_read() {
    let read = Tooltip::from_str;
    assert_eq!(
        read("Deal 5 damage."),
        on_cooldown(Effect::DealDamage(PlayerTarget::Opponent, constant(5)))
    );
    // A text that starts with `use` is read for a number before anything else.
    assert_eq!(read("Use this."), Tooltip::Raw("use this.".to_string()));
    assert_eq!(read("Burn 3"), on_cooldown(Effect::Burn(PlayerTarget::Opponent, constant(3))));
    assert_eq!(
        read("Gain 2 gold."),
        on_cooldown(Effect::GainGold(PlayerTarget::Player, constant(2)))
    );
    assert_eq!(
        read("Slow all enemy items for 2 seconds."),
        on_cooldown(Effect::Slow(
            CardTarget(usize::MAX, TargetCondition::HasOwner(PlayerTarget::Opponent)),
            2000
        ))
    );
    assert_eq!(
        read("You take no damage for 1.5 seconds."),
        on_cooldown(Effect::DamageImmunity(1500))
    );
    assert_eq!(
        read("Your other weapons gain 4 damage for the fight."),
        on_cooldown(Effect::IncreaseDamage(
            CardTarget(
                usize::MAX,
                TargetCondition::And(
                    Box::new(TargetCondition::HasOwner(PlayerTarget::Player)),
                    Box::new(TargetCondition::HasTag(Tag::Weapon)),
                ),
            ),
            EffectValue::Flat(4)
        ))
    );
    assert_eq!(
        read("Shield equal to the value of the adjacent items."),
        on_cooldown(Effect::Shield(
            PlayerTarget::Player,
            DerivedValue::FromCard(
                CardTarget(2, TargetCondition::Adjacent),
                CardDerivedProperty::Value,
                100
            )
        ))
    );
    assert_eq!(read("Something else."), Tooltip::Raw("something else.".to_string()));
}

#[test]
fn statuses_are_read() {
    let read = Tooltip::from_str;
    let enemy = || TargetCondition::HasOwner(PlayerTarget::Opponent);
    assert_eq!(
        read("Haste 2 items for 3 second(s)."),
        on_cooldown(Effect::Haste(
            CardTarget(2, TargetCondition::HasOwner(PlayerTarget::Player)),
            3000
        ))
    );
    assert_eq!(
        read("Slow 1 item for 4 second(s)."),
        on_cooldown(Effect::Slow(CardTarget(1, enemy()), 4000))
    );
    assert_eq!(
        read("Freeze 1 item for 2 seconds."),
        on_cooldown(Effect::Freeze(CardTarget(1, enemy()), 2000))
    );
    assert_eq!(
        read("Freeze 2 items(s) for 1 second(s)."),
        Tooltip::Raw("freeze 2 items(s) for 1 second(s).".to_string())
    );
    assert_eq!(
        read("Freeze 1 small item for 3 second(s)."),
        on_cooldown(Effect::Freeze(
            CardTarget(
                1,
                TargetCondition::And(
                    Box::new(TargetCondition::And(
                        Box::new(enemy()),
                        Box::new(TargetCondition::HasSize(Size::Small)),
                    )),
                    Box::new(TargetCondition::HasCooldown),
                ),
            ),
            3000
        ))
    );
}

#[test]
fn occasions_are_read() {
    let read = Tooltip::from_str;
    let own = || TargetCondition::HasOwner(PlayerTarget::Player);
    let gold = || Effect::GainGold(PlayerTarget::Player, constant(1));
    assert_eq!(
        read("At the start of each day, gain 1 gold."),
        Tooltip::When(EffectEvent::OnDayStart(gold()))
    );
    assert_eq!(
        read("At the start of each fight, gain 1 gold."),
        Tooltip::When(EffectEvent::OnFightStart(gold()))
    );
    assert_eq!(
        read("At the start of each hour, gain 1 gold."),
        Tooltip::Raw("at the start of each hour, gain 1 gold.".to_string())
    );
    assert_eq!(
        read("When you use an adjacent item, gain 1 gold."),
        Tooltip::When(EffectEvent::OnCardUsed(TargetCondition::Adjacent, gold()))
    );
    assert_eq!(
        read("When you use an item, gain 1 gold."),
        Tooltip::When(EffectEvent::OnCardUsed(own(), gold()))
    );
    assert_eq!(
        read("When you use a weapon, gain 1 gold."),
        Tooltip::When(EffectEvent::OnCardUsed(own(), gold()))
    );
    assert_eq!(
        read("When you sell this gain 1 gold."),
        Tooltip::When(EffectEvent::OnCardSold(gold()))
    );
    assert_eq!(
        read("When you use shield or heal, gain 1 gold."),
        Tooltip::When(EffectEvent::OnCardUsed(
            TargetCondition::And(
                Box::new(own()),
                Box::new(TargetCondition::Or(
                    Box::new(TargetCondition::HasTag(Tag::Heal)),
                    Box::new(TargetCondition::HasTag(Tag::Shield)),
                )),
            ),
            gold()
        ))
    );
    assert_eq!(
        read("When you crit, gain 1 gold."),
        Tooltip::When(EffectEvent::OnCrit(own(), gold()))
    );
    assert_eq!(
        read("When your enemy uses an item, gain 1 gold."),
        Tooltip::When(EffectEvent::OnCardUsed(
            TargetCondition::HasOwner(PlayerTarget::Opponent),
            gold()
        ))
    );
    assert_eq!(
        read("When you win a fight against a hero, gain 1 gold."),
        Tooltip::When(EffectEvent::OnWinVersusHero(gold()))
    );
    assert_eq!(
        read("When it rains, gain 1 gold."),
        Tooltip::Raw("when it rains, gain 1 gold.".to_string())
    );
    assert_eq!(
        read("The first time you fall below half health each fight, gain 1 gold."),
        Tooltip::When(EffectEvent::OnFirstTime(
            GlobalEvent::PlayerFallsBelowHpPercentage(50),
            gold()
        ))
    );
    assert_eq!(
        read("The first time you win, gain 1 gold."),
        Tooltip::Raw("the first time you win, gain 1 gold.".to_string())
    );
}

#[test]
fn every_line_gives_a_tooltip() {
    assert_eq!(Tooltip::try_from("Ammo 1"), Some(Tooltip::StaticModifier(Modifier::Ammo(1))));
    assert_eq!(Tooltip::try_from(""), Some(Tooltip::Raw(String::new())));
    assert_eq!(Tooltip::from_or_raw("Ammo 1"), Tooltip::StaticModifier(Modifier::Ammo(1)));
    assert_eq!(
        Tooltip::from_or_raw_enchantment("Ammo 1"),
        Tooltip::Raw("Ammo 1".to_string())
    );
    assert_eq!(Tooltip::from_lowercase("AMMO 1"), Tooltip::Raw("AMMO 1".to_string()));
}

#[test]
fn target_conditions_are_read_from_phrases() {
    let read = TargetCondition::from_str;
    assert_eq!(read(" A Property. "), TargetCondition::HasTag(Tag::Property));
    assert_eq!(read("a core"), TargetCondition::HasTag(Tag::Core));
    assert_eq!(read("a friend"), TargetCondition::HasTag(Tag::Core));
    assert_eq!(read("All your other items."), TargetCondition::Always);
    assert_eq!(read("A weapon."), TargetCondition::Raw("a weapon".to_string()));
    assert_eq!(TargetCondition::from_phrase("a core"), TargetCondition::HasTag(Tag::Core));
    assert_eq!(TargetCondition::from_phrase("A core"), TargetCondition::Raw("A core".to_string()));
}

#[test]
fn tags_and_sizes_are_read_from_names() {
    assert_eq!(Tag::from_str("Weapon"), Some(Tag::Weapon));
    assert_eq!(Tag::from_str("weapon"), Some(Tag::Weapon));
    assert_eq!(Tag::from_str("WEAPON"), None);
    assert_eq!(Tag::from_str("sword"), None);
    assert_eq!(Size::try_from("Small"), Some(Size::Small));
    assert_eq!(Size::try_from("MEDIUM"), Some(Size::Medium));
    assert_eq!(Size::try_from("large"), Some(Size::Large));
    assert_eq!(Size::try_from("huge"), None);
    assert_eq!(Size::from_name("Small"), None);
}
