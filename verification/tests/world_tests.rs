use economy_sim::arith::{capped_add, sat_add, sat_mul};
use economy_sim::components::{
    Alive, City, Country, Item, ItemType, Person, Position, Resident, Shop, State,
    TerrainType, default_apple,
};
use economy_sim::config::Config;
use economy_sim::world::{World, check_wf, despawn_dead_person_system, setup, tick};

const APPLE: usize = 0;

#[test]
fn saturating_helpers_cap_and_compute_exactly() {
    assert_eq!(sat_add(3, 4), 7);
    assert_eq!(sat_add(u64::MAX - 1, 5), u64::MAX);
    assert_eq!(sat_mul(3, 4), 12);
    assert_eq!(sat_mul(u64::MAX, 2), u64::MAX);
    assert_eq!(capped_add(3, 4, 10), 7);
    assert_eq!(capped_add(8, 4, 10), 10);
}

#[test]
fn the_default_apple_is_a_food() {
    let apple = default_apple();
    assert_eq!(apple.name, "Apple");
    assert_eq!(apple.item_type, ItemType::Food { nutritional_value: 50 });
}

#[test]
fn item_constructors_set_the_type_tag() {
    let bread = Item::food(String::from("Bread"), 30);
    assert_eq!(bread.item_type, ItemType::Food { nutritional_value: 30 });
    let sword = Item::weapon(String::from("Sword"), 12);
    assert_eq!(sword.item_type, ItemType::Weapon { attack_damage: 12 });
}

#[test]
fn default_shop_stocks_the_staple() {
    let s = Shop::default();
    assert_eq!(s.items.len(), 1);
    assert_eq!(s.items[0].item, APPLE);
    assert_eq!(s.items[0].details.price, 10);
    assert_eq!(s.items[0].details.stock, 10);
    assert_eq!(s.items[0].details.sales, 0);
    assert_eq!(s.items[0].details.purchases, 0);
    assert_eq!(s.items[0].history.len(), 1);
    assert_eq!(s.items[0].history[0].price, 10);
    assert_eq!(s.position, Position { x: 100, y: 100 });
}

#[test]
fn default_tree_nodes_are_empty() {
    assert_eq!(City::default().persons.len(), 0);
    assert_eq!(City::default().shops.len(), 0);
    assert_eq!(State::default().cities.len(), 0);
    assert!(matches!(State::default().terrain_type, TerrainType::Grassland));
    assert_eq!(Country::default().estates.len(), 0);
    assert_eq!(Country::default().total_gold, 0);
}

#[test]
fn setup_builds_a_well_formed_world() {
    let cfg = Config::default();
    let w = setup(&cfg);
    assert!(check_wf(&w));
    assert_eq!(w.items.len(), 1);
    assert_eq!(w.commodity, APPLE);
    assert_eq!(w.countries.len(), cfg.num_countries);
    assert_eq!(w.states.len(), cfg.num_states);
    assert_eq!(w.cities.len(), cfg.num_cities);
    assert_eq!(w.persons.len(), cfg.num_persons);
    assert_eq!(w.shops.len(), cfg.num_shops);
    for r in w.persons.iter() {
        assert!(r.present);
        assert!(r.alive.0);
        assert_eq!(r.person.gold, cfg.start_gold);
        assert_eq!(r.person.planting_time, 0);
    }
    for s in w.shops.iter() {
        assert_eq!(s.items.len(), 1);
        assert_eq!(s.items[0].details.price, 10);
        assert_eq!(s.items[0].details.stock, 10);
    }
}

#[test]
fn setup_assigns_every_member_to_exactly_one_parent() {
    let cfg = Config::default();
    let w = setup(&cfg);
    for id in 0..w.persons.len() {
        let n: usize = w.cities.iter().map(|c| c.persons.iter().filter(|&&p| p == id).count()).sum();
        assert_eq!(n, 1);
    }
    for id in 0..w.shops.len() {
        let n: usize = w.cities.iter().map(|c| c.shops.iter().filter(|&&s| s == id).count()).sum();
        assert_eq!(n, 1);
    }
    for id in 0..w.cities.len() {
        let n: usize = w.states.iter().map(|s| s.cities.iter().filter(|&&c| c == id).count()).sum();
        assert_eq!(n, 1);
    }
    for id in 0..w.states.len() {
        let n: usize = w.countries.iter().map(|c| c.estates.iter().filter(|&&s| s == id).count()).sum();
        assert_eq!(n, 1);
    }
}

#[test]
fn setup_labels_entities_beyond_the_bare_prefix() {
    let cfg = Config::default();
    let w = setup(&cfg);
    assert!(w.persons[0].person.name.len() > "Person".len());
    assert!(w.cities[0].name.len() > "City".len());
}

#[test]
fn setup_without_cities_places_nobody() {
    let mut cfg = Config::default();
    cfg.num_cities = 0;
    let w = setup(&cfg);
    assert_eq!(w.persons.len(), 0);
    assert_eq!(w.shops.len(), 0);
    assert_eq!(w.states.len(), cfg.num_states);
    assert!(check_wf(&w));
}

#[test]
fn ticks_preserve_well_formedness() {
    let cfg = Config::default();
    let mut w = setup(&cfg);
    let mut elapsed: u64 = 0;
    for _ in 0..200 {
        elapsed += 250;
        tick(&mut w, &cfg, 250, elapsed);
    }
    assert!(check_wf(&w));
    assert_eq!(w.persons.len(), cfg.num_persons);
    assert_eq!(w.shops.len(), cfg.num_shops);
    for s in w.shops.iter() {
        for e in s.items.iter() {
            assert!(e.details.price >= 1);
        }
    }
    for r in w.persons.iter() {
        assert!(r.person.hunger <= 1_000_000);
        assert!(r.person.health <= 1_000_000);
        assert!(r.person.energy <= 1_000_000);
    }
}

#[test]
fn the_sweep_retires_dead_agents_and_cleans_memberships() {
    let mut p0 = Person::default();
    p0.name = String::from("survivor");
    let mut p1 = Person::default();
    p1.name = String::from("casualty");
    let mut w = World {
        items: vec![default_apple()],
        commodity: APPLE,
        persons: vec![
            Resident { person: p0, alive: Alive(true), present: true },
            Resident { person: p1, alive: Alive(false), present: true },
        ],
        shops: Vec::new(),
        cities: vec![City {
            name: String::from("Town"),
            shops: Vec::new(),
            persons: vec![0, 1],
            position: Position { x: 0, y: 0 },
        }],
        states: Vec::new(),
        countries: Vec::new(),
    };
    assert!(check_wf(&w));
    let removed = despawn_dead_person_system(&mut w);
    assert_eq!(removed.len(), 1);
    assert_eq!(removed[0], "casualty");
    assert_eq!(w.cities[0].persons, vec![0]);
    assert!(w.persons[0].present);
    assert!(!w.persons[1].present);
    assert!(check_wf(&w));
    // A second sweep finds nothing left to remove.
    let removed_again = despawn_dead_person_system(&mut w);
    assert_eq!(removed_again.len(), 0);
    assert_eq!(w.cities[0].persons, vec![0]);
}

#[test]
fn check_wf_rejects_a_dangling_membership() {
    let cfg = Config::default();
    let mut w = setup(&cfg);
    assert!(check_wf(&w));
    w.cities[0].persons.push(cfg.num_persons + 7);
    assert!(!check_wf(&w));
}
