use std::sync::Arc;

use rand::rngs::StdRng;
use rand::SeedableRng;
use simulator::card::{
    Card, CardError, CardIdCounter, CardModification, CardTemplate, GlobalCardId,
};
use simulator::catalog::Catalog;
use simulator::combat_event::{CombatEvent, TaggedCombatEvent};
use simulator::dispatch::DispatchableEvent;
use simulator::models::{
    Card as CardDefinition, CardDerivedProperty, CardEnchantment, CardTarget, DerivedValue, Effect,
    EffectEvent, Enchantment, Modifier, PackId, Percentage, PlayerTarget, Size, Tag,
    TargetCondition, Tier, TieredValue, Tooltip,
};
use simulator::player::PlayerTemplate;
use simulator::result::{Outcome, SimulationDrawType, SimulationResult};
use simulator::simulation::{BuildError, DeriveError, Simulation};
use simulator::template::SimulationTemplate;
use simulator::tick::GameTicks;

const SEED: u64 = 0x3a3f7af8085da7a2;

fn definition(
    name: &str,
    size: Size,
    tags: Vec<Tag>,
    bronze: Vec<Tooltip>,
    enchantments: Vec<CardEnchantment>,
) -> CardDefinition {
    CardDefinition {
        id: format!("id-{name}"),
        name: name.to_string(),
        starting_tier: Tier::Bronze,
        tiers: TieredValue {
            bronze: Arc::new(bronze),
            silver: Arc::new(vec![]),
            gold: Arc::new(vec![]),
            diamond: Arc::new(vec![]),
            legendary: Arc::new(vec![]),
        },
        tags: Arc::new(tags),
        hidden_tags: Arc::new(vec![]),
        custom_tags: Arc::new(vec![]),
        size,
        heroes: Arc::new(vec![]),
        enchantments: Arc::new(enchantments),
        unified_tooltips: Arc::new(vec![]),
        pack_id: PackId::Core,
        combat_encounters: Arc::new(vec![]),
    }
}

fn on_cooldown(effect: Effect) -> Tooltip {
    Tooltip::When(EffectEvent::OnCooldown(effect))
}

fn cooldown(millis: u64) -> Tooltip {
    Tooltip::StaticModifier(Modifier::Cooldown(millis))
}

fn catalog() -> Catalog {
    let mut catalog = Catalog::new();
    catalog.register(definition(
        "Fang",
        Size::Small,
        vec![Tag::Weapon],
        vec![
            cooldown(3000),
            on_cooldown(Effect::DealDamage(PlayerTarget::Opponent, DerivedValue::Constant(5))),
        ],
        vec![CardEnchantment::Radiant(Arc::new(vec![Tooltip::StaticModifier(
            Modifier::Radiant,
        )]))],
    ));
    catalog.register(definition(
        "Bar of Gold",
        Size::Small,
        vec![Tag::Loot],
        vec![Tooltip::SellsForGold],
        vec![],
    ));
    catalog.register(definition(
        "Icicle",
        Size::Small,
        vec![Tag::Freeze],
        vec![
            cooldown(1000),
            on_cooldown(Effect::Freeze(
                CardTarget(1, TargetCondition::HasOwner(PlayerTarget::Opponent)),
                2000,
            )),
        ],
        vec![],
    ));
    catalog.register(definition(
        "Anchor",
        Size::Large,
        vec![Tag::Weapon, Tag::Aquatic],
        vec![
            cooldown(10000),
            on_cooldown(Effect::DealDamage(
                PlayerTarget::Opponent,
                DerivedValue::FromCard(
                    CardTarget(1, TargetCondition::IsSelf),
                    CardDerivedProperty::Value,
                    200,
                ),
            )),
        ],
        vec![],
    ));
    catalog.register(definition(
        "Crate",
        Size::Medium,
        vec![Tag::Property],
        vec![
            cooldown(4000),
            on_cooldown(Effect::Shield(PlayerTarget::Player, DerivedValue::Constant(10))),
        ],
        vec![],
    ));
    catalog.register(definition(
        "Ember",
        Size::Small,
        vec![Tag::Burn],
        vec![
            cooldown(1000),
            on_cooldown(Effect::Burn(PlayerTarget::Opponent, DerivedValue::Constant(4))),
        ],
        vec![],
    ));
    catalog.register(definition(
        "Sharpshooter",
        Size::Small,
        vec![Tag::Weapon],
        vec![
            cooldown(1000),
            Tooltip::StaticModifier(Modifier::CritChance(Percentage::from_percentage_value(100))),
            on_cooldown(Effect::DealDamage(PlayerTarget::Opponent, DerivedValue::Constant(3))),
        ],
        vec![],
    ));
    catalog.register(definition(
        "Striker",
        Size::Small,
        vec![Tag::Weapon],
        vec![
            cooldown(1000),
            on_cooldown(Effect::DealDamage(PlayerTarget::Opponent, DerivedValue::Constant(100))),
        ],
        vec![],
    ));
    catalog.register(definition(
        "Salve",
        Size::Small,
        vec![Tag::Heal],
        vec![
            cooldown(1000),
            on_cooldown(Effect::Heal(PlayerTarget::Player, DerivedValue::Constant(10))),
        ],
        vec![],
    ));
    catalog.register(definition(
        "Gong",
        Size::Small,
        vec![Tag::Tool],
        vec![
            cooldown(1000),
            on_cooldown(Effect::Use(CardTarget(1, TargetCondition::IsSelf))),
        ],
        vec![],
    ));
    catalog
}

fn card(name: &str) -> CardTemplate {
    CardTemplate {
        name: name.to_string(),
        tier: Tier::Bronze,
        modifications: Arc::new(vec![]),
    }
}

fn radiant(name: &str) -> CardTemplate {
    CardTemplate {
        name: name.to_string(),
        tier: Tier::Bronze,
        modifications: Arc::new(vec![CardModification::Enchanted(Enchantment::Radiant)]),
    }
}

fn side(health: u64, cards: Vec<CardTemplate>) -> PlayerTemplate {
    PlayerTemplate {
        health,
        regen: 0,
        card_templates: Arc::new(cards),
        skill_templates: Arc::new(vec![]),
    }
}

fn template(player: PlayerTemplate, opponent: PlayerTemplate) -> SimulationTemplate {
    SimulationTemplate { player, opponent, seed: None }
}

fn build(template: &SimulationTemplate) -> Result<Simulation, BuildError> {
    let mut ids = CardIdCounter::new();
    Simulation::try_from(template, &catalog(), &mut ids)
}

fn run(template: &SimulationTemplate) -> SimulationResult {
    let rng = StdRng::seed_from_u64(template.seed.unwrap_or(SEED));
    let mut simulation = build(template).expect("simulation should build");
    simulation.run_once_with_rng(rng)
}

fn ticks_among(events: &[TaggedCombatEvent]) -> usize {
    events.iter().filter(|e| matches!(e.1, CombatEvent::Tick(_))).count()
}

#[test]
fn simulation_assigns_card_ids_to_correct_players() {
    let template = SimulationTemplate {
        player: side(20, vec![card("Fang")]),
        opponent: side(20, vec![card("Fang")]),
        seed: None,
    };

    let sim: Simulation = build(&template).expect("simulation should build");
    assert_eq!(sim.cards.len(), 2);
    assert_eq!(sim.player.card_ids.len(), 1);
    assert_eq!(sim.opponent.card_ids.len(), 1);
    assert_ne!(sim.player.card_ids[0], sim.opponent.card_ids[0]);

    let player_card = sim.cards.get(&sim.player.card_ids[0].0).unwrap();
    assert_eq!(player_card.owner, PlayerTarget::Player);

    let opponent_card = sim.cards.get(&sim.opponent.card_ids[0].0).unwrap();
    assert_eq!(opponent_card.owner, PlayerTarget::Opponent);
}

#[test]
fn fang_against_fang_is_reproducible() {
    let template = template(side(20, vec![card("Fang")]), side(20, vec![card("Fang")]));
    let first = run(&template);
    let second = run(&template);
    assert_eq!(first.outcome(), second.outcome());
    assert_eq!(first.inner_ref().duration, second.inner_ref().duration);
    assert_eq!(first.inner_ref().player.health, second.inner_ref().player.health);
    assert_eq!(first.inner_ref().opponent.health, second.inner_ref().opponent.health);
    assert_eq!(first.inner_ref().events, second.inner_ref().events);
    // Both Fangs fire in the same ticks and deal 5 each time: after four
    // firings both players are at zero.
    assert_eq!(first.outcome(), Outcome::Draw(SimulationDrawType::SimultaneousDefeat));
    assert_eq!(first.inner_ref().player.health.current(), 0);
    assert_eq!(first.inner_ref().opponent.health.current(), 0);
}

#[test]
fn empty_boards_end_in_a_timeout() {
    let result = run(&template(side(20, vec![]), side(20, vec![])));
    assert!(matches!(result, SimulationResult::Draw(SimulationDrawType::Timeout, _)));
    assert_eq!(result.inner_ref().duration, GameTicks(18000));
    assert_eq!(result.inner_ref().events.len(), 18000);
    assert_eq!(ticks_among(&result.inner_ref().events), 18000);
    assert_eq!(result.inner_ref().player.health.current(), 20);
    assert_eq!(result.short_str(), "Draw (Timeout)");
}

#[test]
fn a_single_fang_wins_against_an_empty_board() {
    let result = run(&template(side(300, vec![card("Fang")]), side(1, vec![])));
    assert!(matches!(result, SimulationResult::Victory(_)));
    let inner = result.inner_ref();
    let hits = inner
        .events
        .iter()
        .filter(|e| matches!(e.1, CombatEvent::DealDamage(PlayerTarget::Opponent, _, _)))
        .count();
    assert!(hits >= 1);
    assert_eq!(inner.opponent.health.current(), -4);
    assert_eq!(inner.player.health.current(), 300);
    // The Fang has a cooldown of 180 ticks, that is 360 half ticks; its
    // clock shows 360 at the start of tick 180, so it fires in that tick and
    // the opponent is found defeated at the start of tick 181.
    assert_eq!(inner.duration, GameTicks(181));
    assert_eq!(ticks_among(&inner.events), 181);
    assert_eq!(result.short_str(), "Victory");
}

#[test]
fn a_radiant_card_is_never_frozen() {
    let template = template(side(1000, vec![card("Icicle")]), side(1000, vec![radiant("Fang")]));
    let mut simulation = build(&template).expect("simulation should build");
    let fang = simulation.opponent.card_ids[0];
    let mut rng = StdRng::seed_from_u64(SEED);
    for _ in 0..600 {
        simulation.step(&mut rng);
        assert_eq!(simulation.cards.get(&fang.0).unwrap().freeze_ticks, GameTicks(0));
    }
    assert!(simulation.cards.get(&fang.0).unwrap().is_radiant());
    // The Fang was never stopped: it has fired three times in 600 ticks.
    assert_eq!(simulation.player.health.current(), 1000 - 15);
}

#[test]
fn a_plain_card_is_frozen() {
    let template = template(side(1000, vec![card("Icicle")]), side(1000, vec![card("Fang")]));
    let mut simulation = build(&template).expect("simulation should build").with_channel();
    let fang = simulation.opponent.card_ids[0];
    let mut rng = StdRng::seed_from_u64(SEED);
    // The Icicle has a cooldown of 60 ticks and fires in tick 60.
    for _ in 0..61 {
        simulation.step(&mut rng);
    }
    // Two seconds are 120 ticks.
    assert_eq!(simulation.cards.get(&fang.0).unwrap().freeze_ticks, GameTicks(120));
    let reports = simulation.drain_events();
    assert_eq!(reports.len(), 1);
    match &reports[0] {
        DispatchableEvent::CardFrozen(summary, duration) => {
            assert_eq!(summary.id, fang);
            assert_eq!(summary.name, "Fang");
            assert_eq!(summary.owner, PlayerTarget::Opponent);
            assert_eq!(*duration, GameTicks(120));
        }
        other => panic!("unexpected report {other:?}"),
    }
    assert_eq!(simulation.drain_events().len(), 0);
    let events = simulation.step(&mut rng);
    assert!(events.iter().any(|e| matches!(e.1, CombatEvent::Skip(_))));
    assert_eq!(simulation.cards.get(&fang.0).unwrap().freeze_ticks, GameTicks(119));
}

#[test]
fn the_boards_stay_as_they_were_built() {
    let template = template(
        side(1000, vec![card("Anchor"), card("Icicle"), card("Crate")]),
        side(1000, vec![card("Fang"), card("Crate"), card("Ember")]),
    );
    let mut simulation = build(&template).unwrap();
    let layout = |simulation: &Simulation| -> Vec<(u64, PlayerTarget, u8, Size)> {
        simulation.cards.iter().map(|(key, c)| (*key, c.owner, c.position, c.inner.size)).collect()
    };
    let built = layout(&simulation);
    assert_eq!(
        built,
        vec![
            (0, PlayerTarget::Player, 0, Size::Large),
            (1, PlayerTarget::Player, 3, Size::Small),
            (2, PlayerTarget::Player, 4, Size::Medium),
            (3, PlayerTarget::Opponent, 0, Size::Small),
            (4, PlayerTarget::Opponent, 1, Size::Medium),
            (5, PlayerTarget::Opponent, 3, Size::Small),
        ]
    );
    let mut rng = StdRng::seed_from_u64(SEED);
    for _ in 0..600 {
        simulation.step(&mut rng);
        assert_eq!(layout(&simulation), built);
        for card in simulation.cards.values() {
            assert!(card.freeze_ticks.0 <= 18000);
            assert!(card.slow_ticks.0 <= 18000);
            assert!(card.haste_ticks.0 <= 18000);
            if card.cooldown.0 > 0 {
                assert!(card.cooldown_counter < card.cooldown.0 as u128 * 2 + 4);
            }
        }
        assert!(simulation.player.health.current() <= 1000);
        assert!(simulation.opponent.health.current() <= 1000);
    }
    simulation.run_once_with_rng(rng);
    assert_eq!(layout(&simulation), built);
}

#[test]
fn an_overfull_board_fails_to_build() {
    let cards = vec![card("Anchor"), card("Anchor"), card("Crate"), card("Crate"), card("Crate")];
    let result = build(&template(side(20, cards.clone()), side(20, vec![])));
    assert_eq!(result.err(), Some(BuildError::BoardTooLarge(PlayerTarget::Player)));
    let result = build(&template(side(20, vec![]), side(20, cards)));
    assert_eq!(result.err(), Some(BuildError::BoardTooLarge(PlayerTarget::Opponent)));
}

#[test]
fn a_full_board_builds() {
    let cards = vec![card("Anchor"), card("Anchor"), card("Crate"), card("Crate")];
    let simulation = build(&template(side(20, cards), side(20, vec![card("Fang")])))
        .expect("simulation should build");
    let positions: Vec<u8> = simulation.cards.values().map(|c| c.position).collect();
    assert_eq!(positions, vec![0, 3, 6, 8, 0]);
    let keys: Vec<u64> = simulation.cards.keys().cloned().collect();
    assert_eq!(keys, vec![0, 1, 2, 3, 4]);
    assert_eq!(simulation.ticks, 0);
    assert!(simulation.event_sink.is_none());
}

#[test]
fn an_unknown_card_fails_to_build() {
    let result = build(&template(side(20, vec![card("Fang"), card("Nothing")]), side(20, vec![])));
    assert_eq!(
        result.err(),
        Some(BuildError::Card(
            PlayerTarget::Player,
            CardError::UnknownCard("Nothing".to_string())
        ))
    );
}

#[test]
fn a_card_without_tooltips_fails_to_build() {
    let mut silver = card("Fang");
    silver.tier = Tier::Silver;
    let result = build(&template(side(20, vec![]), side(20, vec![silver])));
    assert_eq!(
        result.err(),
        Some(BuildError::Card(
            PlayerTarget::Opponent,
            CardError::NoTooltips("Fang".to_string(), Tier::Silver)
        ))
    );
}

#[test]
fn a_health_beyond_i64_fails_to_build() {
    let result = build(&template(side(u64::MAX, vec![]), side(20, vec![])));
    assert_eq!(result.err(), Some(BuildError::HealthOutOfRange(PlayerTarget::Player)));
    let result = build(&template(side(20, vec![]), side(1 << 63, vec![])));
    assert_eq!(result.err(), Some(BuildError::HealthOutOfRange(PlayerTarget::Opponent)));
}

#[test]
fn a_spent_counter_fails_the_build_and_stays() {
    let mut ids = CardIdCounter::starting_at(u64::MAX - 1);
    let two = template(side(20, vec![card("Fang")]), side(20, vec![card("Fang")]));
    let result = Simulation::try_from(&two, &catalog(), &mut ids);
    assert_eq!(result.err(), Some(BuildError::OutOfIds));
    assert_eq!(ids.next, u64::MAX - 1);
    let one = template(side(20, vec![card("Fang")]), side(20, vec![]));
    assert!(Simulation::try_from(&one, &catalog(), &mut ids).is_ok());
    assert_eq!(ids.next, u64::MAX);
}

#[test]
fn a_failed_build_hands_out_no_identifier() {
    let mut ids = CardIdCounter::starting_at(7);
    let bad = template(side(20, vec![card("Fang"), card("Nothing")]), side(20, vec![]));
    assert!(Simulation::try_from(&bad, &catalog(), &mut ids).is_err());
    assert_eq!(ids.next, 7);
    let good = template(side(20, vec![card("Fang")]), side(20, vec![card("Fang")]));
    let simulation = Simulation::try_from(&good, &catalog(), &mut ids).unwrap();
    assert_eq!(ids.next, 9);
    assert_eq!(simulation.player.card_ids, vec![GlobalCardId(7)]);
    assert_eq!(simulation.opponent.card_ids, vec![GlobalCardId(8)]);
}

#[test]
fn inverting_a_template_gives_the_dual_outcome() {
    let template = template(side(300, vec![card("Fang")]), side(1, vec![]));
    let inverted = SimulationTemplate::invert(&template);
    assert_eq!(inverted.player, template.opponent);
    assert_eq!(inverted.opponent, template.player);
    assert_eq!(inverted.seed, template.seed);
    assert_eq!(run(&template).outcome(), Outcome::Victory);
    assert_eq!(run(&inverted).outcome(), Outcome::Defeat);
    assert_eq!(run(&inverted).outcome(), run(&template).outcome().inverted());
    assert_eq!(SimulationTemplate::invert(&inverted), template);
    let timeout = SimulationTemplate { player: side(5, vec![]), opponent: side(9, vec![]), seed: Some(1) };
    assert_eq!(run(&timeout).outcome(), Outcome::Draw(SimulationDrawType::Timeout));
    assert_eq!(
        run(&SimulationTemplate::invert(&timeout)).outcome(),
        Outcome::Draw(SimulationDrawType::Timeout)
    );
}

#[test]
fn events_of_one_tick_are_applied_in_board_order() {
    // Both strikers fire in the same tick. With the salve on the player's
    // side it is applied before the opponent's strike: both players fall.
    let fight = template(
        side(100, vec![card("Striker"), card("Salve")]),
        side(100, vec![card("Striker")]),
    );
    let result = run(&fight);
    assert_eq!(result.outcome(), Outcome::Draw(SimulationDrawType::SimultaneousDefeat));
    // With the sides exchanged the salve is applied after the strike, and
    // its owner is back on its feet when the tick is over.
    let result = run(&SimulationTemplate::invert(&fight));
    assert_eq!(result.outcome(), Outcome::Defeat);
    assert_eq!(result.inner_ref().duration, GameTicks(61));
    assert_eq!(result.inner_ref().player.health.current(), 0);
    assert_eq!(result.inner_ref().opponent.health.current(), 10);
}

#[test]
fn a_clone_runs_like_the_simulation_it_copies() {
    let template = template(
        side(100, vec![card("Sharpshooter"), card("Icicle")]),
        side(100, vec![card("Fang"), card("Crate"), card("Ember")]),
    );
    let mut simulation = build(&template).unwrap();
    let mut copy = simulation.clone();
    let first = simulation.run_once_with_rng(StdRng::seed_from_u64(SEED));
    let second = copy.run_once_with_rng(StdRng::seed_from_u64(SEED));
    assert_eq!(first, second);
    assert_eq!(simulation.ticks, copy.ticks);
    assert_eq!(simulation.player, copy.player);
}

#[test]
fn a_clone_is_independent() {
    let template = template(side(100, vec![card("Fang")]), side(100, vec![card("Fang")]));
    let simulation = build(&template).unwrap();
    let mut copy = simulation.clone();
    copy.run_once_with_rng(StdRng::seed_from_u64(SEED));
    assert_eq!(simulation.ticks, 0);
    assert_eq!(simulation.opponent.health.current(), 100);
    assert!(copy.ticks > 0);
}

#[test]
fn run_with_rng_runs_each_iteration_from_the_start() {
    let template = template(side(300, vec![card("Fang")]), side(1, vec![]));
    let simulation = build(&template).unwrap();
    let results = simulation.run_with_rng(3, StdRng::seed_from_u64(SEED));
    assert_eq!(results.len(), 3);
    for result in &results {
        assert_eq!(result.outcome(), Outcome::Victory);
        assert_eq!(result.inner_ref().duration, GameTicks(181));
    }
    let simulation = build(&template).unwrap();
    assert_eq!(simulation.run(2).len(), 2);
    let mut simulation = build(&template).unwrap();
    assert_eq!(simulation.run_once().outcome(), Outcome::Victory);
    let mut simulation = build(&template).unwrap();
    assert_eq!(
        simulation.run_once_with_rng(Simulation::create_rng()).outcome(),
        Outcome::Victory
    );
}

#[test]
fn a_summary_adds_up_the_results() {
    let victory = run(&template(side(300, vec![card("Fang")]), side(1, vec![])));
    let defeat = run(&template(side(1, vec![]), side(300, vec![card("Fang")])));
    let timeout = run(&template(side(20, vec![]), side(30, vec![])));
    let draw = run(&template(side(20, vec![card("Fang")]), side(20, vec![card("Fang")])));
    let again = run(&template(side(300, vec![card("Fang")]), side(1, vec![])));
    let summary = simulator::summary::SimulationSummary::from(&vec![
        victory, defeat, timeout, draw, again,
    ]);
    assert_eq!(summary.total_runs, 5);
    assert_eq!(summary.victories, 2);
    assert_eq!(summary.defeats, 1);
    assert_eq!(summary.draw_timeout, 1);
    assert_eq!(summary.draw_simultaneous, 1);
    // A Fang fires first in tick 180 and then every 180 ticks: the fourth
    // firing is in tick 720, and the defeat is found at the start of tick 721.
    assert_eq!(summary.total_duration, 181 + 181 + 18000 + 721 + 181);
    assert_eq!(summary.total_player_health, 300 - 4 + 20 + 0 + 300);
    assert_eq!(summary.total_opponent_health, -4 + 300 + 30 + 0 - 4);
    assert_eq!(summary.average_duration(), GameTicks(3852));
    assert_eq!(summary.average_player_health(), 123);
    assert_eq!(summary.average_opponent_health(), 64);
}

#[test]
fn both_players_at_zero_is_a_draw() {
    let mut simulation = build(&template(side(20, vec![]), side(20, vec![]))).unwrap();
    simulation.player.health.0 = 0;
    simulation.opponent.health.0 = -3;
    let exit = simulation.get_exit_condition(GameTicks(4), &vec![]).unwrap();
    assert_eq!(exit.outcome(), Outcome::Draw(SimulationDrawType::SimultaneousDefeat));
    assert_eq!(exit.inner_ref().duration, GameTicks(4));
    assert_eq!(exit.short_str(), "Draw (SimultaneousDefeat)");
    let result = simulation.run_once_with_rng(StdRng::seed_from_u64(SEED));
    assert_eq!(result.outcome(), Outcome::Draw(SimulationDrawType::SimultaneousDefeat));
    assert_eq!(result.inner_ref().duration, GameTicks(0));
    assert_eq!(result.inner_ref().events.len(), 0);
}

#[test]
fn the_exit_condition_tells_the_sides_apart() {
    let mut simulation = build(&template(side(20, vec![]), side(20, vec![]))).unwrap();
    assert!(simulation.get_exit_condition(GameTicks(0), &vec![]).is_none());
    simulation.opponent.health.0 = 0;
    let exit = simulation.get_exit_condition(GameTicks(0), &vec![]).unwrap();
    assert_eq!(exit.outcome(), Outcome::Victory);
    simulation.opponent.health.0 = 1;
    simulation.player.health.0 = -1;
    let exit = simulation.get_exit_condition(GameTicks(0), &vec![]).unwrap();
    assert_eq!(exit.outcome(), Outcome::Defeat);
    assert_eq!(exit.short_str(), "Defeat");
}

#[test]
fn a_crit_doubles_the_damage() {
    let template = template(side(100, vec![card("Sharpshooter")]), side(100, vec![]));
    let mut simulation = build(&template).unwrap();
    let source = simulation.player.card_ids[0];
    let event = TaggedCombatEvent(
        PlayerTarget::Player,
        CombatEvent::DealDamage(PlayerTarget::Opponent, DerivedValue::Constant(3), source),
    );
    simulation.apply_drawn_event(&event, 9999, &vec![], &vec![]);
    assert_eq!(simulation.opponent.health.current(), 94);
    let mut rng = StdRng::seed_from_u64(SEED);
    simulation.apply_event(&event, &mut rng);
    assert_eq!(simulation.opponent.health.current(), 88);
}

#[test]
fn a_roll_at_or_above_the_chance_is_no_crit() {
    let template = template(side(100, vec![card("Fang")]), side(100, vec![]));
    let mut simulation = build(&template).unwrap();
    let source = simulation.player.card_ids[0];
    let event = TaggedCombatEvent(
        PlayerTarget::Player,
        CombatEvent::DealDamage(PlayerTarget::Opponent, DerivedValue::Constant(3), source),
    );
    simulation.apply_drawn_event(&event, 0, &vec![], &vec![]);
    assert_eq!(simulation.opponent.health.current(), 97);
}

#[test]
fn targets_are_read_from_the_owners_side() {
    let template = template(side(100, vec![card("Fang")]), side(100, vec![card("Fang")]));
    let mut simulation = build(&template).unwrap();
    let mine = simulation.player.card_ids[0];
    let theirs = simulation.opponent.card_ids[0];
    let hit = |owner, target, source| {
        TaggedCombatEvent(owner, CombatEvent::DealDamage(target, DerivedValue::Constant(1), source))
    };
    simulation.apply_drawn_event(
        &hit(PlayerTarget::Opponent, PlayerTarget::Opponent, theirs),
        0,
        &vec![],
        &vec![],
    );
    assert_eq!(simulation.player.health.current(), 99);
    assert_eq!(simulation.opponent.health.current(), 100);
    simulation.apply_drawn_event(
        &hit(PlayerTarget::Opponent, PlayerTarget::Player, theirs),
        0,
        &vec![],
        &vec![],
    );
    assert_eq!(simulation.opponent.health.current(), 99);
    simulation.apply_drawn_event(
        &hit(PlayerTarget::Player, PlayerTarget::Player, mine),
        0,
        &vec![],
        &vec![],
    );
    assert_eq!(simulation.player.health.current(), 98);
    simulation.apply_drawn_event(
        &hit(PlayerTarget::Player, PlayerTarget::Opponent, mine),
        0,
        &vec![],
        &vec![],
    );
    assert_eq!(simulation.opponent.health.current(), 98);
}

#[test]
fn the_stack_events_reach_the_player() {
    let template = template(side(100, vec![card("Fang")]), side(100, vec![]));
    let mut simulation = build(&template).unwrap();
    let source = simulation.player.card_ids[0];
    let own = PlayerTarget::Player;
    let value = |n| DerivedValue::Constant(n);
    let events = vec![
        CombatEvent::ApplyBurn(own, value(4), source),
        CombatEvent::ApplyPoison(own, value(5), source),
        CombatEvent::ApplyShield(own, value(6), source),
        CombatEvent::Regen(own, value(7), source),
    ];
    for event in events {
        simulation.apply_drawn_event(&TaggedCombatEvent(own, event), 0, &vec![], &vec![]);
    }
    assert_eq!(simulation.player.burn_stacks, 4);
    assert_eq!(simulation.player.poison_stacks, 5);
    assert_eq!(simulation.player.shield_stacks, 6);
    assert_eq!(simulation.player.regeneration_stacks, 7);
    simulation.player.health.0 = 50;
    simulation.apply_drawn_event(
        &TaggedCombatEvent(own, CombatEvent::Heal(own, value(40), source)),
        0,
        &vec![],
        &vec![],
    );
    assert_eq!(simulation.player.health.current(), 90);
    assert_eq!(simulation.player.burn_stacks, 2);
    assert_eq!(simulation.player.poison_stacks, 3);
}

#[test]
fn an_event_of_an_unknown_source_is_dropped_with_a_warning() {
    let mut simulation =
        build(&template(side(100, vec![]), side(100, vec![]))).unwrap().with_channel();
    let event = TaggedCombatEvent(
        PlayerTarget::Player,
        CombatEvent::DealDamage(
            PlayerTarget::Opponent,
            DerivedValue::Constant(50),
            GlobalCardId(77),
        ),
    );
    let mut rng = StdRng::seed_from_u64(SEED);
    simulation.apply_event(&event, &mut rng);
    assert_eq!(simulation.opponent.health.current(), 100);
    assert_eq!(
        simulation.drain_events(),
        vec![DispatchableEvent::Warning(
            "event dropped: its source card is not on the board".to_string()
        )]
    );
    let freeze = TaggedCombatEvent(
        PlayerTarget::Player,
        CombatEvent::Freeze(CardTarget(1, TargetCondition::Always), GameTicks(5), GlobalCardId(77)),
    );
    simulation.apply_event(&freeze, &mut rng);
    assert_eq!(simulation.drain_events().len(), 1);
}

#[test]
fn a_value_derived_from_a_player_counts_as_zero() {
    let mut simulation = build(&template(side(100, vec![card("Fang")]), side(100, vec![])))
        .unwrap()
        .with_channel();
    let source = simulation.player.card_ids[0];
    let value = DerivedValue::FromPlayer(
        CardTarget(1, TargetCondition::Always),
        simulator::models::PlayerDerivedProperty::MaximumHealth,
        100,
    );
    assert_eq!(simulation.derive_value(&value, &source), Ok(0));
    let event = TaggedCombatEvent(
        PlayerTarget::Player,
        CombatEvent::DealDamage(PlayerTarget::Opponent, value, source),
    );
    simulation.apply_drawn_event(&event, 0, &vec![], &vec![]);
    assert_eq!(simulation.opponent.health.current(), 100);
    assert_eq!(
        simulation.drain_events(),
        vec![DispatchableEvent::Warning(
            "values derived from a player are not modelled: the amount is zero".to_string()
        )]
    );
}

#[test]
fn a_raw_event_gives_a_warning_and_changes_nothing() {
    let mut simulation = build(&template(side(100, vec![card("Gong")]), side(100, vec![])))
        .unwrap()
        .with_channel();
    let mut rng = StdRng::seed_from_u64(SEED);
    let mut raws = 0;
    for _ in 0..61 {
        for event in simulation.step(&mut rng) {
            if let CombatEvent::Raw(text) = &event.1 {
                assert_eq!(text, "Use");
                raws += 1;
            }
        }
    }
    assert_eq!(raws, 1);
    assert_eq!(
        simulation.drain_events(),
        vec![DispatchableEvent::Warning("raw event skipped: Use".to_string())]
    );
    assert_eq!(simulation.player.health.current(), 100);
    assert_eq!(simulation.opponent.health.current(), 100);
}

#[test]
fn without_a_sink_reports_are_dropped() {
    let mut simulation = build(&template(side(100, vec![card("Gong")]), side(100, vec![]))).unwrap();
    let mut rng = StdRng::seed_from_u64(SEED);
    for _ in 0..61 {
        simulation.step(&mut rng);
    }
    assert!(simulation.event_sink.is_none());
    assert_eq!(simulation.drain_events().len(), 0);
    simulation.dispatch_event(DispatchableEvent::Tick);
    assert!(simulation.event_sink.is_none());
}

#[test]
fn a_value_is_derived_from_the_cards_it_names() {
    let template = template(
        side(100, vec![card("Anchor"), card("Fang"), card("Crate")]),
        side(100, vec![card("Fang")]),
    );
    let simulation = build(&template).unwrap();
    let anchor = simulation.player.card_ids[0];
    let fang = simulation.player.card_ids[1];
    // Twice the value of the Anchor itself: a large bronze item is worth 3.
    let double_own = DerivedValue::FromCard(
        CardTarget(1, TargetCondition::IsSelf),
        CardDerivedProperty::Value,
        200,
    );
    assert_eq!(simulation.derive_value(&double_own, &anchor), Ok(6));
    // The value of all cards of the player: 3 + 1 + 2.
    let all_mine = DerivedValue::FromCard(
        CardTarget(usize::MAX, TargetCondition::HasOwner(PlayerTarget::Player)),
        CardDerivedProperty::Value,
        100,
    );
    assert_eq!(simulation.derive_value(&all_mine, &anchor), Ok(6));
    // Half of the damage of the Fang: 2.5, rounded to 3.
    let half_damage = DerivedValue::FromCard(
        CardTarget(1, TargetCondition::IsSelf),
        CardDerivedProperty::Damage,
        50,
    );
    assert_eq!(simulation.derive_value(&half_damage, &fang), Ok(3));
    // The damage of the Anchor is itself derived: twice its value.
    let own_damage = DerivedValue::FromCard(
        CardTarget(1, TargetCondition::IsSelf),
        CardDerivedProperty::Damage,
        100,
    );
    assert_eq!(simulation.derive_value(&own_damage, &anchor), Ok(6));
    assert_eq!(simulation.resolve(&own_damage, &anchor, 0), 0);
    assert_eq!(
        simulation.derive_value(&DerivedValue::Constant(4), &anchor),
        Err(DeriveError::ConstantValue)
    );
    assert_eq!(simulation.resolve(&DerivedValue::Constant(4), &anchor, 0), 4);
    let unknown = GlobalCardId(1234);
    assert_eq!(simulation.derive_value(&double_own, &unknown), Ok(0));
}

#[test]
fn targets_come_in_board_order() {
    let template = template(
        side(100, vec![card("Anchor"), card("Fang"), card("Bar of Gold")]),
        side(100, vec![card("Fang"), card("Crate")]),
    );
    let simulation = build(&template).unwrap();
    let ids: Vec<GlobalCardId> = (0..5).map(GlobalCardId).collect();
    let fang = ids[1];
    let targets = |condition: TargetCondition| simulation.get_cards_by_target(&fang, &condition);
    assert_eq!(targets(TargetCondition::Always), ids);
    assert_eq!(targets(TargetCondition::Never), vec![]);
    assert_eq!(targets(TargetCondition::IsSelf), vec![fang]);
    assert_eq!(targets(TargetCondition::HasCooldown), vec![ids[0], ids[1], ids[3], ids[4]]);
    assert_eq!(
        targets(TargetCondition::HasOwner(PlayerTarget::Opponent)),
        vec![ids[3], ids[4]]
    );
    assert_eq!(targets(TargetCondition::HasTag(Tag::Weapon)), vec![ids[0], ids[1], ids[3]]);
    assert_eq!(targets(TargetCondition::HasSize(Size::Medium)), vec![ids[4]]);
    assert_eq!(targets(TargetCondition::NameIncludes("GOLD".to_string())), vec![ids[2]]);
    assert_eq!(targets(TargetCondition::Raw("anything".to_string())), vec![]);
    // The Fang stands at slot 3, the Bar of Gold at slot 4, the Anchor at 0.
    assert_eq!(targets(TargetCondition::Adjacent), vec![ids[2]]);
    assert_eq!(
        targets(TargetCondition::IsSelf.negated().and(TargetCondition::HasOwner(PlayerTarget::Player))),
        vec![ids[0], ids[2]]
    );
    assert_eq!(
        targets(TargetCondition::IsSelf.or(TargetCondition::HasSize(Size::Large))),
        vec![ids[0], ids[1]]
    );
    let theirs = ids[3];
    assert_eq!(
        simulation.get_cards_by_target(&theirs, &TargetCondition::HasOwner(PlayerTarget::Player)),
        vec![ids[3], ids[4]]
    );
    assert_eq!(
        simulation.get_cards_by_target(&GlobalCardId(99), &TargetCondition::Always),
        vec![]
    );
    assert_eq!(simulation.get_cards_by_owner(PlayerTarget::Player), &vec![ids[0], ids[1], ids[2]]);
    assert_eq!(simulation.get_cards_by_owner(PlayerTarget::Opponent), &vec![ids[3], ids[4]]);
    assert_eq!(simulation.get_card(&ids[4]).unwrap().inner.name, "Crate");
    assert!(simulation.get_card(&GlobalCardId(5)).is_none());
}

#[test]
fn a_status_takes_fresh_cards_first() {
    let template = template(
        side(100, vec![card("Icicle")]),
        side(100, vec![card("Fang"), card("Crate"), card("Ember"), card("Bar of Gold")]),
    );
    let mut simulation = build(&template).unwrap();
    let source = simulation.player.card_ids[0];
    let theirs = simulation.opponent.card_ids.clone();
    simulation.cards.get_mut(&theirs[1].0).unwrap().freeze_ticks = GameTicks(9);
    let freeze = |count| {
        TaggedCombatEvent(
            PlayerTarget::Player,
            CombatEvent::Freeze(
                CardTarget(count, TargetCondition::HasOwner(PlayerTarget::Opponent)),
                GameTicks(10),
                source,
            ),
        )
    };
    let frozen = |simulation: &Simulation| -> Vec<u64> {
        theirs.iter().map(|id| simulation.cards.get(&id.0).unwrap().freeze_ticks.0).collect()
    };
    // With the orders given: two fresh cards, then the afflicted one.
    let mut drawn = simulation.clone();
    drawn.apply_drawn_event(&freeze(3), 0, &vec![theirs[2], theirs[0]], &vec![theirs[1]]);
    assert_eq!(frozen(&drawn), vec![10, 19, 10, 0]);
    let mut drawn = simulation.clone();
    drawn.apply_drawn_event(&freeze(1), 0, &vec![theirs[2], theirs[0]], &vec![theirs[1]]);
    assert_eq!(frozen(&drawn), vec![0, 9, 10, 0]);
    // With the generator: one of the two fresh cards, never the afflicted
    // one, never the card without a cooldown.
    let mut first_taken = 0;
    let mut third_taken = 0;
    for seed in 0..40 {
        let mut shuffled = simulation.clone();
        shuffled.apply_event(&freeze(1), &mut StdRng::seed_from_u64(seed));
        let after = frozen(&shuffled);
        if after == vec![10, 9, 0, 0] {
            first_taken += 1;
        } else {
            assert_eq!(after, vec![0, 9, 10, 0]);
            third_taken += 1;
        }
    }
    assert!(first_taken > 0 && third_taken > 0);
    // Every eligible card, in board order, without a draw.
    let mut all = simulation.clone().with_channel();
    all.apply_event(&freeze(usize::MAX), &mut StdRng::seed_from_u64(SEED));
    assert_eq!(frozen(&all), vec![10, 19, 10, 0]);
    let names: Vec<String> = all
        .drain_events()
        .into_iter()
        .map(|report| match report {
            DispatchableEvent::CardFrozen(summary, _) => summary.name,
            other => panic!("unexpected report {other:?}"),
        })
        .collect();
    assert_eq!(names, vec!["Fang", "Crate", "Ember"]);
}

#[test]
fn haste_and_slow_change_the_pace() {
    let template = template(side(100, vec![card("Fang"), card("Bar of Gold")]), side(100, vec![]));
    let mut simulation = build(&template).unwrap().with_channel();
    let fang = simulation.player.card_ids[0];
    let gold = simulation.player.card_ids[1];
    let all = CardTarget(usize::MAX, TargetCondition::Always);
    let event = |e| TaggedCombatEvent(PlayerTarget::Player, e);
    simulation.apply_drawn_event(
        &event(CombatEvent::Haste(all.clone(), GameTicks(3), fang)),
        0,
        &vec![],
        &vec![],
    );
    simulation.apply_drawn_event(
        &event(CombatEvent::Slow(all.clone(), GameTicks(5), fang)),
        0,
        &vec![],
        &vec![],
    );
    // Any card can be hasted; only a card with a cooldown can be slowed.
    assert_eq!(simulation.cards[&fang.0].haste_ticks, GameTicks(3));
    assert_eq!(simulation.cards[&gold.0].haste_ticks, GameTicks(3));
    assert_eq!(simulation.cards[&fang.0].slow_ticks, GameTicks(5));
    assert_eq!(simulation.cards[&gold.0].slow_ticks, GameTicks(0));
    assert_eq!(simulation.drain_events().len(), 3);
    let mut rng = StdRng::seed_from_u64(SEED);
    let mut clock = vec![];
    for _ in 0..6 {
        simulation.step(&mut rng);
        clock.push(simulation.cards[&fang.0].cooldown_counter);
    }
    // A tick takes one tick from each status before it looks at them: two
    // ticks with both statuses (2 each), two with slow alone (1 each), two
    // plain ones.
    assert_eq!(clock, vec![2, 4, 5, 6, 8, 10]);
    assert_eq!(simulation.cards[&gold.0].cooldown_counter, 4 + 4 + 2 + 2 + 2 + 2);
}
