use economy_sim::components::{
    Alive, City, Country, Item, ItemDetails, Person, Position, PriceRecord, Resident,
    Shop, ShopItem, State, TerrainType, default_apple,
};
use economy_sim::stats::{
    city_item_inflation, city_stats, country_item_inflation, country_stats, get_city_stats,
    get_people_stats, get_shops_stats, state_item_inflation, state_stats, test_system,
};
use economy_sim::world::World;

const APPLE: usize = 0;

fn resident(gold: u64, alive: bool) -> Resident {
    let mut p = Person::default();
    p.gold = gold;
    Resident { person: p, alive: Alive(alive), present: true }
}

fn shop(price: u64, stock: u64, sales: u64, purchases: u64, last_price: u64) -> Shop {
    Shop {
        items: vec![ShopItem {
            item: APPLE,
            details: ItemDetails { price, stock, sales, purchases },
            history: vec![
                PriceRecord { timestamp: 0, price },
                PriceRecord { timestamp: 9_000, price: last_price },
            ],
        }],
        position: Position { x: 0, y: 0 },
    }
}

fn small_world() -> World {
    // One country over one state over two cities; the first city holds
    // three live agents (gold 10, 20, 30), one dead agent (gold 700) and
    // one shop; the second city holds one live agent and one shop.
    let persons = vec![
        resident(10, true),
        resident(20, true),
        resident(30, true),
        resident(700, false),
        resident(500, true),
    ];
    let shops = vec![shop(10, 4, 6, 2, 15), shop(20, 30, 0, 0, 10)];
    let cities = vec![
        City {
            name: String::from("First"),
            shops: vec![0],
            persons: vec![0, 1, 2, 3],
            position: Position { x: 0, y: 0 },
        },
        City {
            name: String::from("Second"),
            shops: vec![1],
            persons: vec![4],
            position: Position { x: 1, y: 1 },
        },
    ];
    let states = vec![State {
        name: String::from("Only"),
        cities: vec![0, 1],
        terrain_type: TerrainType::Grassland,
    }];
    let countries = vec![Country {
        name: String::from("Whole"),
        estates: vec![0],
        population: 0,
        total_gold: 0,
    }];
    World {
        items: vec![default_apple()],
        commodity: APPLE,
        persons,
        shops,
        cities,
        states,
        countries,
    }
}

#[test]
fn people_stats_average_over_live_agents_only() {
    let w = small_world();
    let st = get_people_stats(&w.persons);
    assert_eq!(st.live, 4);
    assert_eq!(st.total_gold, 10 + 20 + 30 + 500);
    assert_eq!(st.average_gold, 140);
}

#[test]
fn city_average_gold_excludes_the_dead() {
    let w = small_world();
    let r = city_stats(&w, 0);
    assert_eq!(r.people.live, 3);
    assert_eq!(r.people.total_gold, 60);
    assert_eq!(r.people.average_gold, 20);
}

#[test]
fn city_market_rollup_reads_its_own_shop() {
    let w = small_world();
    let r = city_stats(&w, 0);
    assert_eq!(r.market.shops, 1);
    assert_eq!(r.market.items, 1);
    assert_eq!(r.market.total_stock, 4);
    assert_eq!(r.market.average_price, 10);
    assert_eq!(r.market.total_sales, 6);
    assert_eq!(r.market.total_purchases, 2);
    // History 10 -> 15: a 5000 basis point gain.
    assert_eq!(r.market.inflation_gain_bp, 5000);
    assert_eq!(r.market.inflation_loss_bp, 0);
    assert_eq!(r.market.inflation_count, 1);
}

#[test]
fn shop_stats_average_over_all_items() {
    let w = small_world();
    let st = get_shops_stats(&w.shops);
    assert_eq!(st.shops, 2);
    assert_eq!(st.items, 2);
    assert_eq!(st.average_stock, (4 + 30) / 2);
    assert_eq!(st.average_price, (10 + 20) / 2);
    // One history gained 50%, the other lost 50%.
    assert_eq!(st.inflation_gain_bp, 5000);
    assert_eq!(st.inflation_loss_bp, 5000);
    assert_eq!(st.inflation_count, 2);
}

#[test]
fn state_rollup_recurses_through_its_cities() {
    let w = small_world();
    let r = state_stats(&w, 0);
    assert_eq!(r.market.cities, 2);
    assert_eq!(r.market.shops, 2);
    assert_eq!(r.people.live, 4);
    assert_eq!(r.people.total_gold, 560);
    assert_eq!(r.people.average_gold, 140);
}

#[test]
fn country_rollup_matches_the_state() {
    let w = small_world();
    let r = country_stats(&w, 0);
    assert_eq!(r.market.cities, 2);
    assert_eq!(r.market.shops, 2);
    assert_eq!(r.market.items, 2);
    assert_eq!(r.people.live, 4);
    assert_eq!(r.people.total_gold, 560);
}

#[test]
fn per_city_rollups_come_in_city_order() {
    let w = small_world();
    let rs = get_city_stats(&w);
    assert_eq!(rs.len(), 2);
    assert_eq!(rs[0].people.total_gold, 60);
    assert_eq!(rs[1].people.total_gold, 500);
    assert_eq!(rs[1].people.average_gold, 500);
}

#[test]
fn roster_counts_unswept_dead_agents() {
    let w = small_world();
    let rows = test_system(&w);
    assert_eq!(rows.len(), 2);
    // The dead agent is still present until the sweep runs.
    assert_eq!(rows[0].listed, 4);
    assert_eq!(rows[0].counted, 4);
    assert_eq!(rows[0].total_gold, 60 + 700);
    assert_eq!(rows[1].listed, 1);
    assert_eq!(rows[1].counted, 1);
}

#[test]
fn per_item_inflation_is_reported_separately() {
    let mut w = small_world();
    // A second catalog item, stocked only by the first city's shop, with a
    // history falling from 20 to 10.
    w.items.push(Item::food(String::from("Bread"), 30));
    w.shops[0].items.push(ShopItem {
        item: 1,
        details: ItemDetails { price: 10, stock: 2, sales: 0, purchases: 0 },
        history: vec![
            PriceRecord { timestamp: 0, price: 20 },
            PriceRecord { timestamp: 5_000, price: 10 },
        ],
    });
    let rows = city_item_inflation(&w, 0);
    assert_eq!(rows.len(), 2);
    assert_eq!(rows[0].item, 0);
    assert_eq!(rows[0].gain_bp, 5000);
    assert_eq!(rows[0].loss_bp, 0);
    assert_eq!(rows[0].count, 1);
    assert_eq!(rows[1].item, 1);
    assert_eq!(rows[1].gain_bp, 0);
    assert_eq!(rows[1].loss_bp, 5000);
    assert_eq!(rows[1].count, 1);
    // The second city's shop holds only the staple: no data for the bread.
    let rows2 = city_item_inflation(&w, 1);
    assert_eq!(rows2[0].loss_bp, 5000);
    assert_eq!(rows2[0].count, 1);
    assert_eq!(rows2[1].count, 0);
}

#[test]
fn per_item_inflation_rolls_up_through_state_and_country() {
    let mut w = small_world();
    w.items.push(Item::food(String::from("Bread"), 30));
    w.shops[0].items.push(ShopItem {
        item: 1,
        details: ItemDetails { price: 10, stock: 2, sales: 0, purchases: 0 },
        history: vec![
            PriceRecord { timestamp: 0, price: 20 },
            PriceRecord { timestamp: 5_000, price: 10 },
        ],
    });
    // The state spans both cities: the staple gained 50% in one shop and
    // lost 50% in the other; the bread lost 50% in its only record.
    let srows = state_item_inflation(&w, 0);
    assert_eq!(srows.len(), 2);
    assert_eq!(srows[0].gain_bp, 5000);
    assert_eq!(srows[0].loss_bp, 5000);
    assert_eq!(srows[0].count, 2);
    assert_eq!(srows[1].gain_bp, 0);
    assert_eq!(srows[1].loss_bp, 5000);
    assert_eq!(srows[1].count, 1);
    let crows = country_item_inflation(&w, 0);
    assert_eq!(crows[0].count, 2);
    assert_eq!(crows[0].gain_bp, 5000);
    assert_eq!(crows[0].loss_bp, 5000);
    assert_eq!(crows[1].count, 1);
}

#[test]
fn stats_ignore_out_of_range_members() {
    let mut w = small_world();
    w.cities[0].persons.push(99);
    w.cities[0].shops.push(99);
    let r = city_stats(&w, 0);
    assert_eq!(r.people.live, 3);
    assert_eq!(r.people.total_gold, 60);
    assert_eq!(r.market.shops, 1);
}

#[test]
fn empty_aggregates_report_zero_averages() {
    let persons: Vec<Resident> = Vec::new();
    let st = get_people_stats(&persons);
    assert_eq!(st.live, 0);
    assert_eq!(st.average_gold, 0);
    let shops: Vec<Shop> = Vec::new();
    let ms = get_shops_stats(&shops);
    assert_eq!(ms.items, 0);
    assert_eq!(ms.average_price, 0);
    assert_eq!(ms.inflation_count, 0);
}
