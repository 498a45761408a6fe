use simulator::card::{CardIdCounter, GlobalCardId};
use simulator::player::{Player, PlayerHealth, PlayerTemplate};
use std::sync::Arc;

fn player(health: u64) -> Player {
    PlayerTemplate {
        health,
        regen: 0,
        card_templates: Arc::new(vec![]),
        skill_templates: Arc::new(vec![]),
    }
    .create_player(vec![])
    .expect("the health fits")
}

#[test]
fn test_cleanse() {
    let mut player = player(100);
    player.burn_stacks = 100;
    player.poison_stacks = 100;
    player.heal(100);
    assert_eq!(player.burn_stacks, 95);
    assert_eq!(player.poison_stacks, 95);
    assert_eq!(player.health, PlayerHealth(100, 100));

    player.burn_stacks = 0;
    player.poison_stacks = 0;
    player.heal(100);
    assert_eq!(player.burn_stacks, 0);
    assert_eq!(player.poison_stacks, 0);
}

#[test]
fn the_cleanse_is_a_twentieth_rounded() {
    for (amount, cleansed) in [(0, 0), (9, 0), (10, 1), (29, 1), (30, 2), (100, 5), (110, 6)] {
        let mut player = player(50);
        player.burn_stacks = 20;
        player.poison_stacks = 3;
        player.heal(amount);
        assert_eq!(player.burn_stacks, 20 - cleansed, "burn after a heal of {amount}");
        assert_eq!(player.poison_stacks, (3 - cleansed).max(0), "poison after a heal of {amount}");
    }
}

#[test]
fn a_heal_stops_at_the_maximum() {
    let mut player = player(100);
    player.health.0 = 40;
    player.heal(25);
    assert_eq!(player.health.current(), 65);
    player.heal(u32::MAX);
    assert_eq!(player.health.current(), 100);
    assert_eq!(player.health.max(), 100);
}

#[test]
fn a_fresh_player_has_full_health_and_no_stacks() {
    let template = PlayerTemplate {
        health: 250,
        regen: 4,
        card_templates: Arc::new(vec![]),
        skill_templates: Arc::new(vec![]),
    };
    let ids = vec![GlobalCardId(3), GlobalCardId(9)];
    let player = template.create_player(ids.clone()).unwrap();
    assert_eq!(player.health, PlayerHealth(250, 250));
    assert_eq!(player.shield_stacks, 0);
    assert_eq!(player.burn_stacks, 0);
    assert_eq!(player.poison_stacks, 0);
    assert_eq!(player.regeneration_stacks, 4);
    assert_eq!(player.card_ids, ids);
    assert_eq!(player.dot_counter, 0);
    let too_much = PlayerTemplate { health: i64::MAX as u64 + 1, ..template.clone() };
    assert!(too_much.create_player(vec![]).is_none());
    let just_enough = PlayerTemplate { health: i64::MAX as u64, ..template };
    assert!(just_enough.create_player(vec![]).is_some());
}

#[test]
fn a_player_is_described_in_words() {
    let mut player = player(100);
    player.burn(3);
    player.shield(7);
    player.take_damage(20);
    player.card_ids = vec![GlobalCardId(1), GlobalCardId(2)];
    assert_eq!(
        player.describe(),
        "Player(Health (87/100), burn: 3, poison: 0, regen: 0, shield: 0, cards: 2)"
    );
}

#[test]
fn a_shield_absorbs_damage_before_the_health() {
    let mut player = player(100);
    player.shield(30);
    player.take_damage(30);
    assert_eq!(player.shield_stacks, 0);
    assert_eq!(player.health.current(), 100);
    player.shield(10);
    player.take_damage(25);
    assert_eq!(player.shield_stacks, 0);
    assert_eq!(player.health.current(), 85);
    player.take_damage(100);
    assert_eq!(player.health.current(), -15);
    player.shield(50);
    player.take_damage(0);
    assert_eq!(player.shield_stacks, 50);
    assert_eq!(player.health.current(), -15);
}

#[test]
fn stacks_add_up() {
    let mut player = player(10);
    player.burn(3);
    player.burn(4);
    player.poison(5);
    player.regen(2);
    player.shield(1);
    assert_eq!(player.burn_stacks, 7);
    assert_eq!(player.poison_stacks, 5);
    assert_eq!(player.regeneration_stacks, 2);
    assert_eq!(player.shield_stacks, 1);
    player.burn_stacks = i64::MAX - 1;
    player.burn(5);
    assert_eq!(player.burn_stacks, i64::MAX);
}

#[test]
fn a_burn_tick_without_burn_changes_nothing() {
    let mut player = player(100);
    player.shield(7);
    player.burn_tick();
    assert_eq!(player.shield_stacks, 7);
    assert_eq!(player.health.current(), 100);
    assert_eq!(player.burn_stacks, 0);
}

#[test]
fn burn_is_halved_by_a_shield() {
    let mut player = player(100);
    player.burn(5);
    player.burn_tick();
    assert_eq!(player.health.current(), 95);
    assert_eq!(player.burn_stacks, 4);
    player.shield(1);
    // Half of four is two: one is absorbed, one goes through.
    player.burn_tick();
    assert_eq!(player.shield_stacks, 0);
    assert_eq!(player.health.current(), 94);
    assert_eq!(player.burn_stacks, 3);
    player.shield(10);
    // Half of three is one and a half, rounded to two.
    player.burn_tick();
    assert_eq!(player.shield_stacks, 8);
    assert_eq!(player.health.current(), 94);
    assert_eq!(player.burn_stacks, 2);
}

#[test]
fn the_stacks_act_once_a_second() {
    let mut player = player(100);
    player.burn(3);
    player.poison(2);
    player.regen(1);
    player.tick();
    // Two burn ticks (3 and 2), then regeneration less poison.
    assert_eq!(player.health.current(), 100 - 3 - 2 + 1 - 2);
    assert_eq!(player.burn_stacks, 1);
    assert_eq!(player.dot_counter, 1);
    for _ in 1..60 {
        player.tick();
    }
    assert_eq!(player.health.current(), 94);
    assert_eq!(player.dot_counter, 0);
    player.tick();
    assert_eq!(player.health.current(), 94 - 1 + 1 - 2);
    assert_eq!(player.burn_stacks, 0);
    assert_eq!(player.dot_counter, 1);
}

#[test]
fn regeneration_stops_at_the_maximum() {
    let mut player = player(100);
    player.regen(5);
    player.poison(3);
    player.tick();
    assert_eq!(player.health.current(), 100);
    player.health.0 = 90;
    player.dot_counter = 0;
    player.tick();
    assert_eq!(player.health.current(), 92);
}

#[test]
fn health_is_raised_and_lowered_within_its_range() {
    let mut health = PlayerHealth(10, 20);
    health.increase_until_max(5);
    assert_eq!(health, PlayerHealth(15, 20));
    health.increase_until_max(50);
    assert_eq!(health, PlayerHealth(20, 20));
    health.decrease(25);
    assert_eq!(health, PlayerHealth(-5, 20));
    health.decrease(i64::MAX);
    health.decrease(i64::MAX);
    assert_eq!(health.current(), i64::MIN);
    assert_eq!(PlayerHealth(10, 20) + 5, PlayerHealth(15, 20));
    assert_eq!(PlayerHealth(10, 20) + 50, PlayerHealth(20, 20));
    assert_eq!(PlayerHealth(10, 20) - 25, PlayerHealth(-15, 20));
    assert_eq!(PlayerHealth(-15, 20).describe(), "Health (-15/20)");
    assert_eq!(PlayerHealth(i64::MIN, u64::MAX).describe(), format!("Health ({}/{})", i64::MIN, u64::MAX));
    assert_eq!(PlayerHealth(0, u64::MAX).limit(), i64::MAX);
    assert_eq!(PlayerHealth(0, 7).limit(), 7);
}

#[test]
fn identifiers_come_in_order_and_once() {
    let mut counter = CardIdCounter::new();
    let first = GlobalCardId::new(&mut counter);
    let second = GlobalCardId::new(&mut counter);
    assert_eq!(first, GlobalCardId(0));
    assert_eq!(second, GlobalCardId(1));
    assert_ne!(first, second);
    assert!(counter.can_allocate(5));
    assert_eq!(first.describe(), "0x0");
    assert_eq!(GlobalCardId(255).describe(), "0xff");
    assert_eq!(GlobalCardId(0x3a3f7af8085da7a2).describe(), "0x3a3f7af8085da7a2");
    GlobalCardId::reset(&mut counter);
    assert_eq!(counter.next, 0);
    let counter = CardIdCounter::starting_at(u64::MAX - 2);
    assert!(counter.can_allocate(2));
    assert!(!counter.can_allocate(3));
}
