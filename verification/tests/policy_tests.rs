use economy_sim::components::{Alive, Inventory, Person, PersonActions, PersonState, Resident};
use economy_sim::config::Config;
use economy_sim::processes::{feeding_step, planting_step};
use economy_sim::reasoning::{decide_action, reasoning_system};

const APPLE: usize = 0;

fn agent_with(state: PersonState, held: u64, gold: u64) -> Person {
    let mut p = Person::default();
    p.state = state;
    p.gold = gold;
    if held > 0 {
        p.inventory.add(APPLE, held);
    }
    p
}

#[test]
fn healthy_poor_holder_sells() {
    let cfg = Config::default();
    let a = decide_action(PersonState::Healthy, PersonActions::Idle, 3, 10, &cfg, 99);
    assert_eq!(a, PersonActions::Selling);
}

#[test]
fn hungry_holder_eats() {
    let cfg = Config::default();
    let a = decide_action(PersonState::Hungry, PersonActions::Idle, 1, 10, &cfg, 99);
    assert_eq!(a, PersonActions::Eating);
}

#[test]
fn hungry_rich_without_stock_buys() {
    let cfg = Config::default();
    let a = decide_action(PersonState::Hungry, PersonActions::Idle, 0, 31, &cfg, 99);
    assert_eq!(a, PersonActions::Buying);
}

#[test]
fn poor_without_stock_plants() {
    let cfg = Config::default();
    let a = decide_action(PersonState::Healthy, PersonActions::Idle, 0, 29, &cfg, 99);
    assert_eq!(a, PersonActions::Planting);
}

#[test]
fn rich_holder_plants_only_on_a_low_roll() {
    let cfg = Config::default();
    let planted = decide_action(PersonState::Healthy, PersonActions::Idle, 2, 50, &cfg, 4);
    assert_eq!(planted, PersonActions::Planting);
    let idle = decide_action(PersonState::Healthy, PersonActions::Idle, 2, 50, &cfg, 5);
    assert_eq!(idle, PersonActions::Idle);
}

#[test]
fn the_planting_chance_overrides_a_hungry_holders_meal() {
    let cfg = Config::default();
    // A hungry holder with gold above the threshold matches both the
    // eating rule and the planting-chance rule; the last matching rule
    // wins, so a low roll plants and only a high roll eats.
    let planted = decide_action(PersonState::Hungry, PersonActions::Idle, 2, 50, &cfg, 4);
    assert_eq!(planted, PersonActions::Planting);
    let ate = decide_action(PersonState::Hungry, PersonActions::Idle, 2, 50, &cfg, 5);
    assert_eq!(ate, PersonActions::Eating);
}

#[test]
fn busy_agents_are_never_interrupted() {
    let cfg = Config::default();
    let a = decide_action(PersonState::Hungry, PersonActions::Walking, 1, 10, &cfg, 0);
    assert_eq!(a, PersonActions::Walking);
    let b = decide_action(PersonState::Healthy, PersonActions::Selling, 5, 0, &cfg, 0);
    assert_eq!(b, PersonActions::Selling);
}

#[test]
fn threshold_gold_is_neither_poor_nor_rich() {
    let cfg = Config::default();
    // Exactly at the gold threshold with stock: no rule fires.
    let a = decide_action(PersonState::Healthy, PersonActions::Idle, 1, 30, &cfg, 0);
    assert_eq!(a, PersonActions::Idle);
}

#[test]
fn reasoning_system_sets_hungry_holders_eating() {
    let cfg = Config::default();
    let mut rs = vec![
        Resident { person: agent_with(PersonState::Hungry, 2, 10), alive: Alive(true), present: true },
        Resident { person: agent_with(PersonState::Hungry, 2, 10), alive: Alive(false), present: true },
    ];
    reasoning_system(&mut rs, &cfg, APPLE);
    // The decision for a hungry holder does not depend on the roll.
    assert_eq!(rs[0].person.action, PersonActions::Eating);
    // Dead agents are inert.
    assert_eq!(rs[1].person.action, PersonActions::Idle);
}

#[test]
fn planting_accumulates_and_completes() {
    let cfg = Config::default();
    let mut p = agent_with(PersonState::Healthy, 0, 10);
    p.action = PersonActions::Planting;
    planting_step(&mut p, &cfg, APPLE, 4_000);
    assert_eq!(p.planting_time, 4_000);
    assert_eq!(p.action, PersonActions::Planting);
    planting_step(&mut p, &cfg, APPLE, 4_000);
    assert_eq!(p.planting_time, 8_000);
    assert_eq!(p.inventory.get(APPLE), 0);
    // The tick that crosses 10 s grants exactly the yield.
    planting_step(&mut p, &cfg, APPLE, 2_000);
    assert_eq!(p.inventory.get(APPLE), 10);
    assert_eq!(p.planting_time, 0);
    assert_eq!(p.action, PersonActions::Idle);
}

#[test]
fn interrupted_planting_resets_without_grant() {
    let cfg = Config::default();
    let mut p = agent_with(PersonState::Healthy, 0, 10);
    p.action = PersonActions::Planting;
    planting_step(&mut p, &cfg, APPLE, 9_999);
    assert_eq!(p.planting_time, 9_999);
    // The agent is pulled off the field one tick before completion.
    p.action = PersonActions::Walking;
    planting_step(&mut p, &cfg, APPLE, 5_000);
    assert_eq!(p.planting_time, 0);
    assert_eq!(p.inventory.get(APPLE), 0);
    assert_eq!(p.action, PersonActions::Walking);
}

#[test]
fn feeding_consumes_one_unit_and_restores_hunger() {
    let mut p = agent_with(PersonState::Hungry, 2, 10);
    p.action = PersonActions::Eating;
    p.hunger = 200_000;
    // The staple food restores 50 points.
    feeding_step(&mut p, 500_000, APPLE);
    assert_eq!(p.hunger, 700_000);
    assert_eq!(p.inventory.get(APPLE), 1);
    assert_eq!(p.action, PersonActions::Idle);
}

#[test]
fn feeding_clamps_at_full_meter() {
    let mut p = agent_with(PersonState::Hungry, 1, 10);
    p.action = PersonActions::Eating;
    p.hunger = 990_000;
    feeding_step(&mut p, 500_000, APPLE);
    assert_eq!(p.hunger, 1_000_000);
}

#[test]
fn eating_with_nothing_held_stays_unresolved() {
    let mut p = agent_with(PersonState::Hungry, 0, 10);
    p.action = PersonActions::Eating;
    let before_hunger = p.hunger;
    feeding_step(&mut p, 500_000, APPLE);
    assert_eq!(p.action, PersonActions::Eating);
    assert_eq!(p.hunger, before_hunger);
}

#[test]
fn inventory_tracks_counts_per_item() {
    let mut inv = Inventory(Vec::new());
    assert_eq!(inv.get(7), 0);
    inv.add(7, 3);
    inv.add(9, 5);
    inv.add(7, 2);
    assert_eq!(inv.get(7), 5);
    assert_eq!(inv.get(9), 5);
    assert!(inv.consume_one(7));
    assert_eq!(inv.get(7), 4);
    assert_eq!(inv.take_all(7), 4);
    assert_eq!(inv.get(7), 0);
    assert_eq!(inv.get(9), 5);
    assert!(!inv.consume_one(7));
}
