use economy_sim::components::{
    Alive, ItemDetails, Person, PersonActions, PersonState, Position, PriceRecord, Resident,
    Shop, ShopItem,
};
use economy_sim::market::{resolve_buy, resolve_sell, shop_interaction_system};

const APPLE: usize = 0;

fn details(price: u64, stock: u64) -> ItemDetails {
    ItemDetails { price, stock, sales: 0, purchases: 0 }
}

fn one_shop(price: u64, stock: u64) -> Shop {
    Shop {
        items: vec![ShopItem {
            item: APPLE,
            details: details(price, stock),
            history: vec![PriceRecord { timestamp: 0, price }],
        }],
        position: Position { x: 0, y: 0 },
    }
}

fn buyer(gold: u64) -> Person {
    let mut p = Person::default();
    p.gold = gold;
    p.action = PersonActions::Buying;
    p
}

fn seller(held: u64) -> Person {
    let mut p = Person::default();
    p.gold = 5;
    p.state = PersonState::Healthy;
    p.action = PersonActions::Selling;
    p.inventory.add(APPLE, held);
    p
}

#[test]
fn buy_moves_one_unit_and_its_price() {
    let mut p = buyer(100);
    let mut d = details(10, 4);
    resolve_buy(&mut p, &mut d, APPLE);
    assert_eq!(p.gold, 90);
    assert_eq!(p.inventory.get(APPLE), 1);
    assert_eq!(p.action, PersonActions::Idle);
    assert_eq!(d.stock, 3);
    assert_eq!(d.purchases, 1);
    assert_eq!(d.sales, 0);
    assert_eq!(d.price, 10);
}

#[test]
fn buy_without_gold_is_a_noop_but_clears_the_action() {
    let mut p = buyer(9);
    let mut d = details(10, 4);
    resolve_buy(&mut p, &mut d, APPLE);
    assert_eq!(p.gold, 9);
    assert_eq!(p.inventory.get(APPLE), 0);
    assert_eq!(p.action, PersonActions::Idle);
    assert_eq!(d.stock, 4);
    assert_eq!(d.purchases, 0);
}

#[test]
fn buy_from_empty_stock_is_a_noop_but_clears_the_action() {
    let mut p = buyer(100);
    let mut d = details(10, 0);
    resolve_buy(&mut p, &mut d, APPLE);
    assert_eq!(p.gold, 100);
    assert_eq!(p.inventory.get(APPLE), 0);
    assert_eq!(p.action, PersonActions::Idle);
    assert_eq!(d.stock, 0);
}

#[test]
fn sell_is_all_or_nothing() {
    let mut p = seller(7);
    let mut d = details(10, 4);
    resolve_sell(&mut p, &mut d, APPLE);
    assert_eq!(p.inventory.get(APPLE), 0);
    assert_eq!(p.gold, 5 + 7 * 10);
    assert_eq!(p.action, PersonActions::Idle);
    assert_eq!(d.stock, 4 + 7);
    assert_eq!(d.sales, 7);
    assert_eq!(d.purchases, 0);
    assert_eq!(d.price, 10);
}

#[test]
fn sell_with_nothing_held_changes_nothing() {
    let mut p = buyer(50);
    p.action = PersonActions::Selling;
    let mut d = details(10, 4);
    resolve_sell(&mut p, &mut d, APPLE);
    assert_eq!(p.gold, 50);
    assert_eq!(p.action, PersonActions::Selling);
    assert_eq!(d.stock, 4);
    assert_eq!(d.sales, 0);
}

#[test]
fn market_pass_with_a_single_shop_is_deterministic() {
    // With exactly one shop, the uniform draw has only one outcome.
    let mut rs = vec![
        Resident { person: buyer(100), alive: Alive(true), present: true },
        Resident { person: seller(3), alive: Alive(true), present: true },
    ];
    let mut shops = vec![one_shop(10, 4)];
    shop_interaction_system(&mut rs, &mut shops, APPLE);
    assert_eq!(rs[0].person.gold, 90);
    assert_eq!(rs[0].person.inventory.get(APPLE), 1);
    assert_eq!(rs[0].person.action, PersonActions::Idle);
    assert_eq!(rs[1].person.gold, 5 + 3 * 10);
    assert_eq!(rs[1].person.inventory.get(APPLE), 0);
    assert_eq!(rs[1].person.action, PersonActions::Idle);
    // The buyer took one unit, the seller restocked three.
    assert_eq!(shops[0].items[0].details.stock, 4 - 1 + 3);
    assert_eq!(shops[0].items[0].details.purchases, 1);
    assert_eq!(shops[0].items[0].details.sales, 3);
}

#[test]
fn a_single_buyer_touches_exactly_one_shop() {
    let mut rs = vec![Resident { person: buyer(100), alive: Alive(true), present: true }];
    let mut shops = vec![one_shop(10, 4), one_shop(10, 7)];
    shop_interaction_system(&mut rs, &mut shops, APPLE);
    // Whichever shop the draw picked sold one unit; the other is untouched.
    let stocks: Vec<u64> = shops.iter().map(|s| s.items[0].details.stock).collect();
    let purchases: u64 = shops.iter().map(|s| s.items[0].details.purchases).sum();
    assert_eq!(purchases, 1);
    assert!(stocks == vec![3, 7] || stocks == vec![4, 6]);
    assert_eq!(rs[0].person.gold, 90);
    assert_eq!(rs[0].person.inventory.get(APPLE), 1);
}

#[test]
fn market_pass_without_shops_changes_nothing() {
    let mut rs = vec![Resident { person: buyer(100), alive: Alive(true), present: true }];
    let mut shops: Vec<Shop> = Vec::new();
    shop_interaction_system(&mut rs, &mut shops, APPLE);
    assert_eq!(rs[0].person.gold, 100);
    assert_eq!(rs[0].person.action, PersonActions::Buying);
}

#[test]
fn market_pass_skips_dead_agents() {
    let mut rs = vec![Resident { person: buyer(100), alive: Alive(false), present: true }];
    let mut shops = vec![one_shop(10, 4)];
    shop_interaction_system(&mut rs, &mut shops, APPLE);
    assert_eq!(rs[0].person.gold, 100);
    assert_eq!(rs[0].person.action, PersonActions::Buying);
    assert_eq!(shops[0].items[0].details.stock, 4);
}

#[test]
fn idle_agents_do_not_trade() {
    let mut p = Person::default();
    p.gold = 100;
    let mut rs = vec![Resident { person: p, alive: Alive(true), present: true }];
    let mut shops = vec![one_shop(10, 4)];
    shop_interaction_system(&mut rs, &mut shops, APPLE);
    assert_eq!(rs[0].person.gold, 100);
    assert_eq!(rs[0].person.action, PersonActions::Idle);
    assert_eq!(shops[0].items[0].details.stock, 4);
}
