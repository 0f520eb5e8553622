use economy_sim::components::{ItemDetails, Position, PriceRecord, Shop, ShopItem};
use economy_sim::config::Config;
use economy_sim::pricing::{calculate_item_inflation, price_update_system, update_price};

const APPLE: usize = 0;

#[test]
fn below_the_threshold_the_price_stands() {
    // 2 + 2 transactions, threshold 5.
    assert_eq!(update_price(10, 2, 2, 10, 5), 10);
}

#[test]
fn more_sales_than_purchases_raise_the_price() {
    // ratio = 6 / (2 + 1) = 2, factor = 1.1, price 10 -> 11.
    assert_eq!(update_price(10, 6, 2, 10, 5), 11);
}

#[test]
fn more_purchases_than_sales_lower_the_price() {
    // ratio = 1 / 7 , factor = 0.9 + 0.1/7 = 64/70, price 100 -> 91.
    assert_eq!(update_price(100, 1, 6, 10, 5), 91);
}

#[test]
fn scarcity_adds_a_premium() {
    // Neutral factor 1.1 times the scarcity 1.1: 10 * 1.21 = 12.1 -> 12.
    assert_eq!(update_price(10, 6, 2, 3, 5), 12);
}

#[test]
fn glut_adds_a_discount() {
    // 10 * 1.1 * 0.9 = 9.9, rounded half-up to 10.
    assert_eq!(update_price(10, 6, 2, 25, 5), 10);
}

#[test]
fn the_price_never_falls_below_one() {
    // All purchases, no sales: factor 0.9 + 0.1/6, price 1 stays 1.
    assert_eq!(update_price(1, 0, 5, 10, 5), 1);
}

#[test]
fn rounding_is_half_up() {
    // ratio = 5 / 5 = 1: factor exactly 1, price 11 -> 11.0 -> 11.
    assert_eq!(update_price(11, 5, 4, 10, 5), 11);
    // price 5, ratio 6/3=2, factor 1.1: 5.5 rounds up to 6.
    assert_eq!(update_price(5, 6, 2, 10, 5), 6);
}

fn shop_with_counters(sales: u64, purchases: u64) -> Shop {
    Shop {
        items: vec![ShopItem {
            item: APPLE,
            details: ItemDetails { price: 10, stock: 10, sales, purchases },
            history: vec![PriceRecord { timestamp: 0, price: 10 }],
        }],
        position: Position { x: 0, y: 0 },
    }
}

#[test]
fn a_triggered_update_resets_counters_and_appends_history() {
    let cfg = Config::default();
    let mut shops = vec![shop_with_counters(6, 2)];
    price_update_system(&mut shops, &cfg, 5_000);
    let entry = &shops[0].items[0];
    assert_eq!(entry.details.price, 11);
    assert_eq!(entry.details.sales, 0);
    assert_eq!(entry.details.purchases, 0);
    assert_eq!(entry.history.len(), 2);
    assert_eq!(entry.history[1].timestamp, 5_000);
    assert_eq!(entry.history[1].price, 11);
}

#[test]
fn a_quiet_item_inside_the_window_is_untouched() {
    let cfg = Config::default();
    let mut shops = vec![shop_with_counters(2, 1)];
    price_update_system(&mut shops, &cfg, 5_000);
    let entry = &shops[0].items[0];
    assert_eq!(entry.details.price, 10);
    assert_eq!(entry.details.sales, 2);
    assert_eq!(entry.details.purchases, 1);
    assert_eq!(entry.history.len(), 1);
}

#[test]
fn past_the_window_even_a_quiet_item_refreshes() {
    let cfg = Config::default();
    let mut shops = vec![shop_with_counters(2, 1)];
    price_update_system(&mut shops, &cfg, 20_001);
    let entry = &shops[0].items[0];
    // Below the transaction threshold the recomputation keeps the price.
    assert_eq!(entry.details.price, 10);
    assert_eq!(entry.details.sales, 0);
    assert_eq!(entry.details.purchases, 0);
    assert_eq!(entry.history.len(), 2);
    assert_eq!(entry.history[1].price, 10);
}

#[test]
fn inflation_of_a_rising_history_in_basis_points() {
    let history = vec![
        PriceRecord { timestamp: 0, price: 10 },
        PriceRecord { timestamp: 7_000, price: 15 },
    ];
    // 50% = 5000 basis points.
    assert_eq!(calculate_item_inflation(&history), Some(5000));
}

#[test]
fn inflation_uses_first_and_last_of_the_full_history() {
    let history = vec![
        PriceRecord { timestamp: 0, price: 10 },
        PriceRecord { timestamp: 1, price: 80 },
        PriceRecord { timestamp: 2, price: 12 },
    ];
    assert_eq!(calculate_item_inflation(&history), Some(2000));
}

#[test]
fn deflation_is_negative() {
    let history = vec![
        PriceRecord { timestamp: 0, price: 10 },
        PriceRecord { timestamp: 1, price: 5 },
    ];
    assert_eq!(calculate_item_inflation(&history), Some(-5000));
}

#[test]
fn a_single_record_carries_no_inflation_data() {
    let history = vec![PriceRecord { timestamp: 0, price: 10 }];
    assert_eq!(calculate_item_inflation(&history), None);
}

#[test]
fn a_zero_first_price_carries_no_inflation_data() {
    let history = vec![
        PriceRecord { timestamp: 0, price: 0 },
        PriceRecord { timestamp: 1, price: 5 },
    ];
    assert_eq!(calculate_item_inflation(&history), None);
}
