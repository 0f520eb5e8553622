use economy_sim::components::{Alive, Inventory, Person, PersonActions, PersonState, Position};
use economy_sim::config::{Config, SUBUNITS, VITALS_MAX};
use economy_sim::vitals::{energy_step, hunger_step};

fn fresh_person() -> Person {
    let mut p = Person::default();
    p.name = String::from("probe");
    p
}

#[test]
fn hunger_decays_linearly() {
    let mut p = fresh_person();
    let mut alive = Alive(true);
    let cfg = Config::default();
    // 2 points per second for 5 seconds: 10 points lost.
    hunger_step(&mut p, &mut alive, &cfg, 5_000);
    assert_eq!(p.hunger, VITALS_MAX - 10 * SUBUNITS);
    assert!(alive.0);
    // Health regained while fed is clamped at the full meter.
    assert_eq!(p.health, VITALS_MAX);
}

#[test]
fn hunger_floors_at_zero_and_health_decays() {
    let mut p = fresh_person();
    let mut alive = Alive(true);
    let cfg = Config::default();
    // 100 points of hunger are gone after 50 s; run 60 s in one tick.
    hunger_step(&mut p, &mut alive, &cfg, 60_000);
    assert_eq!(p.hunger, 0);
    // Starvation: 1 point per second for the whole tick.
    assert_eq!(p.health, VITALS_MAX - 60 * SUBUNITS);
    assert!(alive.0);
    assert_eq!(p.state, PersonState::Hungry);
}

#[test]
fn starvation_kills_at_zero_health() {
    let mut p = fresh_person();
    p.hunger = 0;
    p.health = 3 * SUBUNITS;
    let mut alive = Alive(true);
    let cfg = Config::default();
    hunger_step(&mut p, &mut alive, &cfg, 10_000);
    assert_eq!(p.health, 0);
    assert!(!alive.0);
}

#[test]
fn classification_flips_exactly_at_threshold() {
    let cfg = Config::default();
    // Land exactly on the threshold: 30 points left after 35 s.
    let mut p = fresh_person();
    let mut alive = Alive(true);
    hunger_step(&mut p, &mut alive, &cfg, 35_000);
    assert_eq!(p.hunger, cfg.hungry_threshold);
    assert_eq!(p.state, PersonState::Healthy);
    // One more millisecond of decay crosses it.
    hunger_step(&mut p, &mut alive, &cfg, 1);
    assert!(p.hunger < cfg.hungry_threshold);
    assert_eq!(p.state, PersonState::Hungry);
}

#[test]
fn energy_recovers_slowly_when_healthy() {
    let mut p = fresh_person();
    p.energy = 50 * SUBUNITS;
    let cfg = Config::default();
    energy_step(&mut p, &cfg, 10_000);
    // 1 point per second.
    assert_eq!(p.energy, 60 * SUBUNITS);
    assert_eq!(p.health, VITALS_MAX);
}

#[test]
fn energy_recovers_at_intermediate_rate_when_hungry() {
    let mut p = fresh_person();
    p.state = PersonState::Hungry;
    p.hunger = 10 * SUBUNITS;
    p.energy = 50 * SUBUNITS;
    let cfg = Config::default();
    energy_step(&mut p, &cfg, 10_000);
    // 0.7 points per second for 10 s: 7 points.
    assert_eq!(p.energy, 57 * SUBUNITS);
    assert_eq!(p.health, VITALS_MAX);
}

#[test]
fn starving_energy_boost_spends_health() {
    let mut p = fresh_person();
    p.state = PersonState::Hungry;
    p.hunger = 0;
    p.energy = 20 * SUBUNITS;
    p.health = 80 * SUBUNITS;
    let cfg = Config::default();
    energy_step(&mut p, &cfg, 4_000);
    // 10 points per second of energy; half of the gain paid from health.
    assert_eq!(p.energy, 60 * SUBUNITS);
    assert_eq!(p.health, 60 * SUBUNITS);
}

#[test]
fn energy_clamps_at_full_meter() {
    let mut p = fresh_person();
    p.energy = 99 * SUBUNITS;
    let cfg = Config::default();
    energy_step(&mut p, &cfg, 60_000);
    assert_eq!(p.energy, VITALS_MAX);
}

#[test]
fn hunger_decay_depends_only_on_total_time() {
    let cfg = Config::default();
    // Ten one-second ticks lose the same 20 points as one ten-second tick.
    let mut split = fresh_person();
    let mut a1 = Alive(true);
    for _ in 0..10 {
        hunger_step(&mut split, &mut a1, &cfg, 1_000);
    }
    let mut whole = fresh_person();
    let mut a2 = Alive(true);
    hunger_step(&mut whole, &mut a2, &cfg, 10_000);
    assert_eq!(split.hunger, whole.hunger);
    assert_eq!(split.hunger, VITALS_MAX - 20 * SUBUNITS);
}

#[test]
fn meters_stay_in_range_over_many_ticks() {
    let mut p = fresh_person();
    let mut alive = Alive(true);
    let cfg = Config::default();
    for _ in 0..500 {
        hunger_step(&mut p, &mut alive, &cfg, 777);
        energy_step(&mut p, &cfg, 777);
        assert!(p.hunger <= VITALS_MAX);
        assert!(p.health <= VITALS_MAX);
        assert!(p.energy <= VITALS_MAX);
        if !alive.0 {
            break;
        }
    }
}

#[test]
fn default_person_is_full_and_idle() {
    let p = Person::default();
    assert_eq!(p.hunger, VITALS_MAX);
    assert_eq!(p.health, VITALS_MAX);
    assert_eq!(p.energy, VITALS_MAX);
    assert_eq!(p.state, PersonState::Healthy);
    assert_eq!(p.action, PersonActions::Idle);
    assert_eq!(p.gold, 100);
    assert_eq!(p.planting_time, 0);
    assert_eq!(p.position, Position { x: 0, y: 0 });
    let inv: &Inventory = &p.inventory;
    assert_eq!(inv.get(0), 0);
}
