//! The price engine.
//!
//! Once an item's transaction count reaches the configured threshold, or
//! the periodic refresh window has elapsed, its unit price is recomputed
//! from the accumulated sales/purchases and the current stock, the
//! counters reset, and a sample is appended to the item's price history.
//!
//! The adjustment factor of the documented policy,
//! `(0.9 + 0.1 * sales / (purchases + 1))`, times `1.1` under scarcity
//! (stock below 5) or `0.9` under glut (stock above 20), is evaluated here
//! in exact rational arithmetic and rounded half-up, so the update is fully
//! deterministic. Inflation is reported in basis points (1/100 of a
//! percent) of the first recorded price.

use vstd::prelude::*;

use crate::components::{PriceRecord, Shop, ShopItem};
use crate::config::{Config, COUNT_LIMIT, PRICE_LIMIT};

verus! {

/// The exact rational price formula, rounded half-up:
/// `round(old_price * (0.9 + 0.1 * sales / (purchases + 1)) * m)` where `m`
/// is 1.1 below 5 units of stock, 0.9 above 20, and 1 otherwise.
pub open spec fn spec_price_formula(old_price: u64, sales: u64, purchases: u64, stock: u64) -> int {
    let base_num = 9 * (purchases + 1) + sales;
    let base_den = 10 * (purchases + 1);
    let num = if stock < 5 {
        old_price * base_num * 11
    } else if stock > 20 {
        old_price * base_num * 9
    } else {
        old_price * base_num
    };
    let den = if stock < 5 || stock > 20 {
        base_den * 10
    } else {
        base_den
    };
    (2 * num + den) / (2 * den)
}

/// The unit price after an update: unchanged below the transaction
/// threshold, otherwise the rounded formula clamped into `1..=PRICE_LIMIT`.
pub open spec fn spec_update_price(
    old_price: u64,
    sales: u64,
    purchases: u64,
    stock: u64,
    threshold: u64,
) -> u64 {
    if sales + purchases < threshold {
        old_price
    } else {
        let r = spec_price_formula(old_price, sales, purchases, stock);
        if r < 1 {
            1u64
        } else if r > PRICE_LIMIT {
            PRICE_LIMIT
        } else {
            r as u64
        }
    }
}

/// Recomputes a unit price from the accumulated counters and current
/// stock; below the transaction threshold the price is returned unchanged.
pub fn update_price(
    old_price: u64,
    sales: u64,
    purchases: u64,
    stock: u64,
    threshold: u64,
) -> (new_price: u64)
    requires
        1 <= old_price <= PRICE_LIMIT,
        sales <= COUNT_LIMIT,
        purchases <= COUNT_LIMIT,
    ensures
        new_price == spec_update_price(old_price, sales, purchases, stock, threshold),
        1 <= new_price <= PRICE_LIMIT,
{
    let total = sales + purchases;
    if total < threshold {
        return old_price;
    }
    let op = old_price as u128;
    let pu = purchases as u128 + 1;
    let base_num = 9 * pu + sales as u128;
    let base_den = 10 * pu;
    proof {
        assert(op * base_num <= 1000000000000int * 20000000000000int) by (nonlinear_arith)
            requires
                0 <= op <= 1000000000000int,
                0 <= base_num <= 20000000000000int,
        ;
    }
    let scaled = op * base_num;
    let (num, den): (u128, u128) = if stock < 5 {
        (scaled * 11, base_den * 10)
    } else if stock > 20 {
        (scaled * 9, base_den * 10)
    } else {
        (scaled, base_den)
    };
    let rounded = (2 * num + den) / (2 * den);
    if rounded < 1 {
        1
    } else if rounded > PRICE_LIMIT as u128 {
        PRICE_LIMIT
    } else {
        rounded as u64
    }
}

/// How a price pass transforms one shop record: when the item's
/// transaction count has reached the threshold or the refresh window has
/// elapsed, the price is recomputed, the counters reset, and a sample is
/// appended to the history; otherwise the record is untouched.
pub open spec fn spec_priced_entry(pre: ShopItem, post: ShopItem, cfg: Config, elapsed: u64) -> bool {
    if pre.details.sales + pre.details.purchases >= cfg.transaction_threshold
        || elapsed > cfg.price_window_ms {
        &&& post.item == pre.item
        &&& post.details.price == spec_update_price(
            pre.details.price,
            pre.details.sales,
            pre.details.purchases,
            pre.details.stock,
            cfg.transaction_threshold,
        )
        &&& post.details.stock == pre.details.stock
        &&& post.details.sales == 0
        &&& post.details.purchases == 0
        &&& post.history@ == pre.history@.push(
            PriceRecord { timestamp: elapsed, price: post.details.price },
        )
    } else {
        post == pre
    }
}

/// The entry relation lifted to a whole shop.
pub open spec fn spec_priced_shop(pre: Shop, post: Shop, cfg: Config, elapsed: u64) -> bool {
    &&& post.position == pre.position
    &&& post.items@.len() == pre.items@.len()
    &&& forall|e: int| 0 <= e < pre.items@.len()
        ==> #[trigger] spec_priced_entry(pre.items@[e], post.items@[e], cfg, elapsed)
}

/// One pricing pass over a shop arena.
pub open spec fn spec_pricing_pass(
    pre: Seq<Shop>,
    post: Seq<Shop>,
    cfg: Config,
    elapsed: u64,
) -> bool {
    &&& post.len() == pre.len()
    &&& forall|s: int| 0 <= s < pre.len()
        ==> #[trigger] spec_priced_shop(pre[s], post[s], cfg, elapsed)
}

/// One pass of the price engine over every shop and item at simulated time
/// `elapsed_ms`.
pub fn price_update_system(shops: &mut Vec<Shop>, cfg: &Config, elapsed_ms: u64)
    requires
        forall|s: int| 0 <= s < old(shops)@.len() ==> (#[trigger] old(shops)@[s]).wf(),
    ensures
        spec_pricing_pass(old(shops)@, final(shops)@, *cfg, elapsed_ms),
        forall|s: int| 0 <= s < final(shops)@.len() ==> (#[trigger] final(shops)@[s]).wf(),
{
    let n = shops.len();
    let mut s: usize = 0;
    while s < n
        invariant
            s <= n,
            n == shops@.len(),
            n == old(shops)@.len(),
            forall|j: int| 0 <= j < n ==> (#[trigger] old(shops)@[j]).wf(),
            forall|j: int| s <= j < n ==> #[trigger] shops@[j] == old(shops)@[j],
            forall|j: int| 0 <= j < s
                ==> #[trigger] spec_priced_shop(old(shops)@[j], shops@[j], *cfg, elapsed_ms),
            forall|j: int| 0 <= j < s ==> (#[trigger] shops@[j]).wf(),
        decreases n - s,
    {
        let m = shops[s].items.len();
        let mut e: usize = 0;
        while e < m
            invariant
                e <= m,
                s < n,
                n == shops@.len(),
                n == old(shops)@.len(),
                m == shops@[s as int].items@.len(),
                m == old(shops)@[s as int].items@.len(),
                forall|j: int| 0 <= j < n ==> (#[trigger] old(shops)@[j]).wf(),
                forall|j: int| s < j < n ==> #[trigger] shops@[j] == old(shops)@[j],
                forall|j: int| 0 <= j < s
                    ==> #[trigger] spec_priced_shop(old(shops)@[j], shops@[j], *cfg, elapsed_ms),
                forall|j: int| 0 <= j < s ==> (#[trigger] shops@[j]).wf(),
                shops@[s as int].position == old(shops)@[s as int].position,
                forall|e2: int| e <= e2 < m ==> #[trigger] shops@[s as int].items@[e2]
                    == old(shops)@[s as int].items@[e2],
                forall|e2: int| 0 <= e2 < e
                    ==> #[trigger] spec_priced_entry(
                        old(shops)@[s as int].items@[e2],
                        shops@[s as int].items@[e2],
                        *cfg,
                        elapsed_ms,
                    ),
                forall|e2: int| 0 <= e2 < e
                    ==> (#[trigger] shops@[s as int].items@[e2]).wf(),
            decreases m - e,
        {
            let d = shops[s].items[e].details;
            let total = d.sales + d.purchases;
            if total >= cfg.transaction_threshold || elapsed_ms > cfg.price_window_ms {
                let new_price = update_price(
                    d.price,
                    d.sales,
                    d.purchases,
                    d.stock,
                    cfg.transaction_threshold,
                );
                let en = &mut shops[s].items[e];
                en.details.price = new_price;
                en.details.sales = 0;
                en.details.purchases = 0;
                en.history.push(PriceRecord { timestamp: elapsed_ms, price: new_price });
            }
            e = e + 1;
        }
        proof {
            assert(spec_priced_shop(old(shops)@[s as int], shops@[s as int], *cfg, elapsed_ms));
        }
        s = s + 1;
    }
}

/// The inflation of a price history in basis points of the first recorded
/// price, truncated toward zero; `None` when fewer than two samples exist
/// or the first price is zero.
pub open spec fn spec_item_inflation(h: Seq<PriceRecord>) -> Option<int> {
    if h.len() < 2 || h[0].price == 0 {
        None
    } else {
        Some(spec_inflation_bp(h[0].price, h[h.len() - 1].price))
    }
}

/// `(last - first) * 10000 / first`, truncated toward zero.
pub open spec fn spec_inflation_bp(first: u64, last: u64) -> int {
    if last >= first {
        ((last - first) * 10000) / (first as int)
    } else {
        -(((first - last) * 10000) / (first as int))
    }
}

/// Computes a price history's inflation in basis points of the first
/// recorded price; a history with fewer than two samples, or a zero first
/// price, carries no inflation data.
pub fn calculate_item_inflation(history: &Vec<PriceRecord>) -> (r: Option<i128>)
    ensures
        match r {
            Some(bp) => spec_item_inflation(history@) == Some(bp as int),
            None => spec_item_inflation(history@) is None,
        },
{
    let len = history.len();
    if len < 2 {
        return None;
    }
    let first = history[0].price;
    let last = history[len - 1].price;
    if first == 0 {
        return None;
    }
    if last >= first {
        let bp = ((last - first) as u128 * 10000) / (first as u128);
        Some(bp as i128)
    } else {
        let bp = ((first - last) as u128 * 10000) / (first as u128);
        Some(-(bp as i128))
    }
}

} // verus!
