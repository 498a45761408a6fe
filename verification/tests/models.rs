use simulator::models::{
    Card, CardEnchantment, Enchantment, Hero, Modifier, PackId, Percentage, PlayerTarget, Size,
    Tier, TieredValue, Tooltip,
};
use simulator::summary::SimulationSummary;
use simulator::tick::GameTicks;
use std::sync::Arc;

fn card(bronze: usize, silver: usize, gold: usize, diamond: usize, legendary: usize) -> Card {
    let tooltips = |n: usize| Arc::new(vec![Tooltip::SellsForGold; n]);
    Card {
        id: "id".to_string(),
        name: "Thing".to_string(),
        starting_tier: Tier::Bronze,
        tiers: TieredValue {
            bronze: tooltips(bronze),
            silver: tooltips(silver),
            gold: tooltips(gold),
            diamond: tooltips(diamond),
            legendary: tooltips(legendary),
        },
        tags: Arc::new(vec![]),
        hidden_tags: Arc::new(vec![]),
        custom_tags: Arc::new(vec![]),
        size: Size::Small,
        heroes: Arc::new(vec![Hero::Common]),
        enchantments: Arc::new(vec![]),
        unified_tooltips: Arc::new(vec![]),
        pack_id: PackId::Core,
        combat_encounters: Arc::new(vec![]),
    }
}

#[test]
fn sizes_take_one_to_three_slots() {
    assert_eq!(Size::Small.board_spaces(), 1);
    assert_eq!(Size::Medium.board_spaces(), 2);
    assert_eq!(Size::Large.board_spaces(), 3);
    assert_eq!(Size::Small.base_cost(), 1);
    assert_eq!(Size::Medium.base_cost(), 2);
    assert_eq!(Size::Large.base_cost(), 3);
}

#[test]
fn costs_double_with_each_tier() {
    assert_eq!(Tier::Bronze.scale_cost(3), 3);
    assert_eq!(Tier::Silver.scale_cost(3), 6);
    assert_eq!(Tier::Gold.scale_cost(3), 12);
    assert_eq!(Tier::Diamond.scale_cost(3), 24);
    assert_eq!(Tier::Legendary.scale_cost(3), 50);
    assert_eq!(Tier::Diamond.scale_cost(u32::MAX), u32::MAX);
    assert_eq!(Tier::Silver.scale_cost(1 << 31), u32::MAX);
}

#[test]
fn a_tier_selects_its_value() {
    let values = TieredValue { bronze: 1, silver: 2, gold: 3, diamond: 4, legendary: 5 };
    assert_eq!(*Tier::Bronze.select(&values), 1);
    assert_eq!(*Tier::Silver.select(&values), 2);
    assert_eq!(*Tier::Gold.select(&values), 3);
    assert_eq!(*Tier::Diamond.select(&values), 4);
    assert_eq!(*Tier::Legendary.select(&values), 5);
}

#[test]
fn the_tiers_of_a_card_are_those_with_tooltips() {
    let some = card(0, 2, 1, 0, 0);
    assert_eq!(some.min_tier(), Tier::Silver);
    assert_eq!(some.max_tier(), Tier::Gold);
    assert_eq!(some.available_tiers(), vec![Tier::Silver, Tier::Gold]);
    let all = card(1, 1, 1, 1, 1);
    assert_eq!(all.min_tier(), Tier::Bronze);
    assert_eq!(all.max_tier(), Tier::Legendary);
    assert_eq!(
        all.available_tiers(),
        vec![Tier::Bronze, Tier::Silver, Tier::Gold, Tier::Diamond, Tier::Legendary]
    );
    assert_eq!(card(0, 0, 0, 0, 0).available_tiers(), vec![]);
    let legendary = card(0, 0, 0, 0, 3);
    assert_eq!(legendary.min_tier(), Tier::Legendary);
    assert_eq!(legendary.max_tier(), Tier::Legendary);
    assert_eq!(some.clone(), some);
}

#[test]
fn the_sides_are_each_others_inverse() {
    assert_eq!(PlayerTarget::Player.inverse(), PlayerTarget::Opponent);
    assert_eq!(PlayerTarget::Opponent.inverse(), PlayerTarget::Player);
    assert_eq!(PlayerTarget::Player.inverse().inverse(), PlayerTarget::Player);
}

#[test]
fn percentages_are_held_in_basis_points() {
    assert_eq!(Percentage::from_percentage_value(25), Percentage(2500));
    assert_eq!(Percentage::from_percentage_value(u32::MAX), Percentage(u32::MAX));
    assert_eq!(Percentage::from_fraction(1250).as_fraction(), 1250);
    assert_eq!(Percentage(1250).as_percentage(), 12);
    assert_eq!(Percentage::default(), Percentage(0));
}

#[test]
fn ticks_are_sixtieths_of_a_second() {
    assert_eq!(GameTicks::from_millis(1000), GameTicks(60));
    assert_eq!(GameTicks::from_millis(999), GameTicks(59));
    assert_eq!(GameTicks::from_millis(16), GameTicks(0));
    assert_eq!(GameTicks::from_millis(17), GameTicks(1));
    assert_eq!(GameTicks::from_millis(3000), GameTicks(180));
    assert_eq!(GameTicks::from_millis(u64::MAX), GameTicks(1106804644422573096));
    assert_eq!(GameTicks::from_secs(300), GameTicks(18000));
    assert_eq!(GameTicks::from_secs(u64::MAX), GameTicks(u64::MAX));
    assert_eq!(GameTicks(5).saturating_add(GameTicks(7)), GameTicks(12));
    assert_eq!(GameTicks(u64::MAX).saturating_add(GameTicks(7)), GameTicks(u64::MAX));
    assert_eq!(GameTicks(5).decremented(), GameTicks(4));
    assert_eq!(GameTicks(0).decremented(), GameTicks(0));
    assert!(GameTicks(0).is_zero());
    assert_eq!(GameTicks(9).count(), 9);
    assert_eq!(GameTicks::default(), GameTicks(0));
    assert_eq!(GameTicks(5) + GameTicks(7), GameTicks(12));
    assert_eq!(GameTicks(7) - GameTicks(5), GameTicks(2));
    assert_eq!(GameTicks(7) * GameTicks(5), GameTicks(35));
    assert_eq!(GameTicks(7) / GameTicks(5), GameTicks(1));
    assert_eq!(GameTicks(18000).describe(), "GameTicks<18000>");
}

#[test]
fn an_enchantment_knows_its_kind_and_tooltips() {
    let tooltips = Arc::new(vec![Tooltip::StaticModifier(Modifier::Radiant)]);
    let radiant = CardEnchantment::Radiant(tooltips.clone());
    assert!(radiant.is_enchantment(&Enchantment::Radiant));
    assert!(!radiant.is_enchantment(&Enchantment::Golden));
    assert_eq!(radiant.enchantment(), Enchantment::Radiant);
    assert_eq!(radiant.tooltips(), tooltips);
    assert_eq!(CardEnchantment::of_kind(Enchantment::Radiant, tooltips.clone()), radiant);
    assert_eq!(
        CardEnchantment::of_kind(Enchantment::Icy, tooltips.clone()),
        CardEnchantment::Icy(tooltips)
    );
}

#[test]
fn an_empty_summary_has_no_averages() {
    let summary = SimulationSummary::from(&vec![]);
    assert_eq!(summary.total_runs, 0);
    assert_eq!(summary.average_duration(), GameTicks(0));
    assert_eq!(summary.average_player_health(), 0);
    assert_eq!(summary.average_opponent_health(), 0);
}

#[test]
fn averages_are_rounded_down() {
    let summary = SimulationSummary {
        total_runs: 4,
        victories: 1,
        defeats: 1,
        draw_timeout: 1,
        draw_simultaneous: 1,
        total_duration: 10,
        total_player_health: -10,
        total_opponent_health: 11,
    };
    assert_eq!(summary.average_duration(), GameTicks(2));
    assert_eq!(summary.average_player_health(), -3);
    assert_eq!(summary.average_opponent_health(), 2);
    let extreme = SimulationSummary {
        total_runs: 1,
        total_duration: u128::MAX,
        total_player_health: i128::MIN,
        total_opponent_health: i128::MAX,
        ..summary
    };
    assert_eq!(extreme.average_duration(), GameTicks(u64::MAX));
    assert_eq!(extreme.average_player_health(), i128::MIN);
    assert_eq!(extreme.average_opponent_health(), i128::MAX);
    let three = SimulationSummary { total_runs: 3, total_player_health: -9, ..summary };
    assert_eq!(three.average_player_health(), -3);
}
