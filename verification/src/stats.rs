//! The aggregation engine: read-only statistical rollups over the
//! containment tree.
//!
//! Aggregates are folds over membership lists; a member index that points
//! outside its arena contributes nothing, and dead or retired agents are
//! excluded from population and vitals aggregates. Sums are accumulated in
//! 128-bit saturating arithmetic, so every total equals the mathematical
//! sum capped at `u128::MAX`, and averages are the integer quotient of the
//! capped totals.

use vstd::prelude::*;

use crate::components::{City, PriceRecord, Resident, Shop, ShopItem, State};
use crate::pricing::{calculate_item_inflation, spec_item_inflation};
use crate::world::World;

verus! {

/// `a + b`, saturating at `u128::MAX`.
pub open spec fn spec_sat_add_u128(a: u128, b: u128) -> u128 {
    if a + b > u128::MAX {
        u128::MAX
    } else {
        (a + b) as u128
    }
}

/// A mathematical total capped into a `u128`.
pub open spec fn spec_cap_u128(x: int) -> u128 {
    if x > u128::MAX {
        u128::MAX
    } else if x < 0 {
        0u128
    } else {
        x as u128
    }
}

fn sat_add_u128(a: u128, b: u128) -> (r: u128)
    ensures
        r == spec_sat_add_u128(a, b),
{
    a.saturating_add(b)
}

/// Mathematical population aggregates: live agents and their summed gold,
/// hunger and health.
pub ghost struct PeopleTotals {
    pub live: int,
    pub gold: int,
    pub hunger: int,
    pub health: int,
}

pub open spec fn pt_zero() -> PeopleTotals {
    PeopleTotals { live: 0, gold: 0, hunger: 0, health: 0 }
}

pub open spec fn pt_add(a: PeopleTotals, b: PeopleTotals) -> PeopleTotals {
    PeopleTotals {
        live: a.live + b.live,
        gold: a.gold + b.gold,
        hunger: a.hunger + b.hunger,
        health: a.health + b.health,
    }
}

/// What one arena slot contributes: live agents count themselves and their
/// meters, everything else contributes nothing.
pub open spec fn spec_resident_totals(r: Resident) -> PeopleTotals {
    if r.present && r.alive.0 {
        PeopleTotals {
            live: 1,
            gold: r.person.gold as int,
            hunger: r.person.hunger as int,
            health: r.person.health as int,
        }
    } else {
        pt_zero()
    }
}

/// Population aggregates over a whole arena.
pub open spec fn spec_people_totals(ps: Seq<Resident>) -> PeopleTotals
    decreases ps.len(),
{
    if ps.len() == 0 {
        pt_zero()
    } else {
        pt_add(spec_people_totals(ps.drop_last()), spec_resident_totals(ps.last()))
    }
}

/// Population aggregates over one membership list; an index outside the
/// arena contributes nothing.
pub open spec fn spec_members_people(ps: Seq<Resident>, members: Seq<usize>) -> PeopleTotals
    decreases members.len(),
{
    if members.len() == 0 {
        pt_zero()
    } else {
        pt_add(
            spec_members_people(ps, members.drop_last()),
            if members.last() < ps.len() {
                spec_resident_totals(ps[members.last() as int])
            } else {
                pt_zero()
            },
        )
    }
}

/// Population aggregates over a list of city indices.
pub open spec fn spec_cities_people(
    ps: Seq<Resident>,
    cities: Seq<City>,
    members: Seq<usize>,
) -> PeopleTotals
    decreases members.len(),
{
    if members.len() == 0 {
        pt_zero()
    } else {
        pt_add(
            spec_cities_people(ps, cities, members.drop_last()),
            if members.last() < cities.len() {
                spec_members_people(ps, cities[members.last() as int].persons@)
            } else {
                pt_zero()
            },
        )
    }
}

/// Population aggregates over a list of state indices.
pub open spec fn spec_states_people(
    ps: Seq<Resident>,
    cities: Seq<City>,
    states: Seq<State>,
    members: Seq<usize>,
) -> PeopleTotals
    decreases members.len(),
{
    if members.len() == 0 {
        pt_zero()
    } else {
        pt_add(
            spec_states_people(ps, cities, states, members.drop_last()),
            if members.last() < states.len() {
                spec_cities_people(ps, cities, states[members.last() as int].cities@)
            } else {
                pt_zero()
            },
        )
    }
}

/// Mathematical market aggregates rolled up through the tree: counted
/// cities and shops, item records, their summed stock, price, sales and
/// purchases, and inflation split into summed gains, summed losses (both
/// in basis points) and the number of records carrying inflation data.
pub ghost struct MarketTotals {
    pub cities: int,
    pub shops: int,
    pub items: int,
    pub stock: int,
    pub price: int,
    pub sales: int,
    pub purchases: int,
    pub infl_gain_bp: int,
    pub infl_loss_bp: int,
    pub infl_count: int,
}

pub open spec fn mt_zero() -> MarketTotals {
    MarketTotals {
        cities: 0,
        shops: 0,
        items: 0,
        stock: 0,
        price: 0,
        sales: 0,
        purchases: 0,
        infl_gain_bp: 0,
        infl_loss_bp: 0,
        infl_count: 0,
    }
}

pub open spec fn mt_add(a: MarketTotals, b: MarketTotals) -> MarketTotals {
    MarketTotals {
        cities: a.cities + b.cities,
        shops: a.shops + b.shops,
        items: a.items + b.items,
        stock: a.stock + b.stock,
        price: a.price + b.price,
        sales: a.sales + b.sales,
        purchases: a.purchases + b.purchases,
        infl_gain_bp: a.infl_gain_bp + b.infl_gain_bp,
        infl_loss_bp: a.infl_loss_bp + b.infl_loss_bp,
        infl_count: a.infl_count + b.infl_count,
    }
}

/// What one shop record contributes: its market state, and its inflation
/// when the history carries at least two samples with a positive first
/// price.
pub open spec fn spec_entry_totals(e: ShopItem) -> MarketTotals {
    let base = MarketTotals {
        cities: 0,
        shops: 0,
        items: 1,
        stock: e.details.stock as int,
        price: e.details.price as int,
        sales: e.details.sales as int,
        purchases: e.details.purchases as int,
        infl_gain_bp: 0,
        infl_loss_bp: 0,
        infl_count: 0,
    };
    match spec_item_inflation(e.history@) {
        Some(bp) => MarketTotals {
            infl_gain_bp: if bp >= 0 { bp } else { 0 },
            infl_loss_bp: if bp < 0 { -bp } else { 0 },
            infl_count: 1,
            ..base
        },
        None => base,
    }
}

/// Market aggregates over one shop's records.
pub open spec fn spec_items_totals(items: Seq<ShopItem>) -> MarketTotals
    decreases items.len(),
{
    if items.len() == 0 {
        mt_zero()
    } else {
        mt_add(spec_items_totals(items.drop_last()), spec_entry_totals(items.last()))
    }
}

/// Market aggregates of one whole shop: its records plus itself.
pub open spec fn spec_shop_totals(sh: Shop) -> MarketTotals {
    mt_add(
        spec_items_totals(sh.items@),
        MarketTotals { shops: 1, ..mt_zero() },
    )
}

/// Market aggregates over a whole shop arena.
pub open spec fn spec_shops_totals(shops: Seq<Shop>) -> MarketTotals
    decreases shops.len(),
{
    if shops.len() == 0 {
        mt_zero()
    } else {
        mt_add(spec_shops_totals(shops.drop_last()), spec_shop_totals(shops.last()))
    }
}

/// Market aggregates over one membership list of shop indices.
pub open spec fn spec_members_market(shops: Seq<Shop>, members: Seq<usize>) -> MarketTotals
    decreases members.len(),
{
    if members.len() == 0 {
        mt_zero()
    } else {
        mt_add(
            spec_members_market(shops, members.drop_last()),
            if members.last() < shops.len() {
                spec_shop_totals(shops[members.last() as int])
            } else {
                mt_zero()
            },
        )
    }
}

/// Market aggregates over a list of city indices; each counted city adds
/// its own shops' aggregates.
pub open spec fn spec_cities_market(
    shops: Seq<Shop>,
    cities: Seq<City>,
    members: Seq<usize>,
) -> MarketTotals
    decreases members.len(),
{
    if members.len() == 0 {
        mt_zero()
    } else {
        mt_add(
            spec_cities_market(shops, cities, members.drop_last()),
            if members.last() < cities.len() {
                mt_add(
                    spec_members_market(shops, cities[members.last() as int].shops@),
                    MarketTotals { cities: 1, ..mt_zero() },
                )
            } else {
                mt_zero()
            },
        )
    }
}

/// Market aggregates over a list of state indices.
pub open spec fn spec_states_market(
    shops: Seq<Shop>,
    cities: Seq<City>,
    states: Seq<State>,
    members: Seq<usize>,
) -> MarketTotals
    decreases members.len(),
{
    if members.len() == 0 {
        mt_zero()
    } else {
        mt_add(
            spec_states_market(shops, cities, states, members.drop_last()),
            if members.last() < states.len() {
                spec_cities_market(shops, cities, states[members.last() as int].cities@)
            } else {
                mt_zero()
            },
        )
    }
}

/// Saturating population sums, one field per [`PeopleTotals`] component.
pub struct PeopleSums {
    pub live: u128,
    pub gold: u128,
    pub hunger: u128,
    pub health: u128,
}

/// Each sum equals its mathematical total capped at `u128::MAX`.
pub open spec fn spec_people_sums_ok(s: PeopleSums, t: PeopleTotals) -> bool {
    &&& s.live == spec_cap_u128(t.live)
    &&& s.gold == spec_cap_u128(t.gold)
    &&& s.hunger == spec_cap_u128(t.hunger)
    &&& s.health == spec_cap_u128(t.health)
}

/// Saturating market sums, one field per [`MarketTotals`] component.
pub struct MarketSums {
    pub cities: u128,
    pub shops: u128,
    pub items: u128,
    pub stock: u128,
    pub price: u128,
    pub sales: u128,
    pub purchases: u128,
    pub infl_gain_bp: u128,
    pub infl_loss_bp: u128,
    pub infl_count: u128,
}

/// Each sum equals its mathematical total capped at `u128::MAX`.
pub open spec fn spec_market_sums_ok(s: MarketSums, t: MarketTotals) -> bool {
    &&& s.cities == spec_cap_u128(t.cities)
    &&& s.shops == spec_cap_u128(t.shops)
    &&& s.items == spec_cap_u128(t.items)
    &&& s.stock == spec_cap_u128(t.stock)
    &&& s.price == spec_cap_u128(t.price)
    &&& s.sales == spec_cap_u128(t.sales)
    &&& s.purchases == spec_cap_u128(t.purchases)
    &&& s.infl_gain_bp == spec_cap_u128(t.infl_gain_bp)
    &&& s.infl_loss_bp == spec_cap_u128(t.infl_loss_bp)
    &&& s.infl_count == spec_cap_u128(t.infl_count)
}

fn people_sums_zero() -> (s: PeopleSums)
    ensures
        spec_people_sums_ok(s, pt_zero()),
{
    PeopleSums { live: 0, gold: 0, hunger: 0, health: 0 }
}

fn market_sums_zero() -> (s: MarketSums)
    ensures
        spec_market_sums_ok(s, mt_zero()),
{
    MarketSums {
        cities: 0,
        shops: 0,
        items: 0,
        stock: 0,
        price: 0,
        sales: 0,
        purchases: 0,
        infl_gain_bp: 0,
        infl_loss_bp: 0,
        infl_count: 0,
    }
}

/// Folds further capped population sums into an accumulator; capping
/// commutes with nonnegative addition, so the result is the cap of the
/// combined total.
fn people_sums_absorb(acc: &mut PeopleSums, more: &PeopleSums, Ghost(ta): Ghost<PeopleTotals>, Ghost(tb): Ghost<PeopleTotals>)
    requires
        spec_people_sums_ok(*old(acc), ta),
        spec_people_sums_ok(*more, tb),
        pt_nonneg(ta),
        pt_nonneg(tb),
    ensures
        spec_people_sums_ok(*final(acc), pt_add(ta, tb)),
{
    acc.live = sat_add_u128(acc.live, more.live);
    acc.gold = sat_add_u128(acc.gold, more.gold);
    acc.hunger = sat_add_u128(acc.hunger, more.hunger);
    acc.health = sat_add_u128(acc.health, more.health);
}

/// Folds further capped market sums into an accumulator.
fn market_sums_absorb(acc: &mut MarketSums, more: &MarketSums, Ghost(ta): Ghost<MarketTotals>, Ghost(tb): Ghost<MarketTotals>)
    requires
        spec_market_sums_ok(*old(acc), ta),
        spec_market_sums_ok(*more, tb),
        mt_nonneg(ta),
        mt_nonneg(tb),
    ensures
        spec_market_sums_ok(*final(acc), mt_add(ta, tb)),
{
    acc.cities = sat_add_u128(acc.cities, more.cities);
    acc.shops = sat_add_u128(acc.shops, more.shops);
    acc.items = sat_add_u128(acc.items, more.items);
    acc.stock = sat_add_u128(acc.stock, more.stock);
    acc.price = sat_add_u128(acc.price, more.price);
    acc.sales = sat_add_u128(acc.sales, more.sales);
    acc.purchases = sat_add_u128(acc.purchases, more.purchases);
    acc.infl_gain_bp = sat_add_u128(acc.infl_gain_bp, more.infl_gain_bp);
    acc.infl_loss_bp = sat_add_u128(acc.infl_loss_bp, more.infl_loss_bp);
    acc.infl_count = sat_add_u128(acc.infl_count, more.infl_count);
}

pub open spec fn pt_nonneg(t: PeopleTotals) -> bool {
    t.live >= 0 && t.gold >= 0 && t.hunger >= 0 && t.health >= 0
}

/// What one arena slot contributes to a city roster: any slot still in the
/// world counts itself and its gold, dead or alive.
pub open spec fn spec_present_totals(r: Resident) -> PeopleTotals {
    if r.present {
        PeopleTotals {
            live: 1,
            gold: r.person.gold as int,
            hunger: r.person.hunger as int,
            health: r.person.health as int,
        }
    } else {
        pt_zero()
    }
}

/// Roster aggregates over one membership list.
pub open spec fn spec_members_present(ps: Seq<Resident>, members: Seq<usize>) -> PeopleTotals
    decreases members.len(),
{
    if members.len() == 0 {
        pt_zero()
    } else {
        pt_add(
            spec_members_present(ps, members.drop_last()),
            if members.last() < ps.len() {
                spec_present_totals(ps[members.last() as int])
            } else {
                pt_zero()
            },
        )
    }
}

pub open spec fn mt_nonneg(t: MarketTotals) -> bool {
    &&& t.cities >= 0
    &&& t.shops >= 0
    &&& t.items >= 0
    &&& t.stock >= 0
    &&& t.price >= 0
    &&& t.sales >= 0
    &&& t.purchases >= 0
    &&& t.infl_gain_bp >= 0
    &&& t.infl_loss_bp >= 0
    &&& t.infl_count >= 0
}

/// Splitting any of the population folds at `k` peels off the `k`-th
/// member's contribution.
proof fn lemma_people_fold_step(ps: Seq<Resident>, cities: Seq<City>, states: Seq<State>, members: Seq<usize>, k: int)
    requires
        0 <= k < members.len(),
    ensures
        spec_members_people(ps, members.subrange(0, k + 1)) == pt_add(
            spec_members_people(ps, members.subrange(0, k)),
            if members[k] < ps.len() {
                spec_resident_totals(ps[members[k] as int])
            } else {
                pt_zero()
            },
        ),
        spec_members_present(ps, members.subrange(0, k + 1)) == pt_add(
            spec_members_present(ps, members.subrange(0, k)),
            if members[k] < ps.len() {
                spec_present_totals(ps[members[k] as int])
            } else {
                pt_zero()
            },
        ),
        spec_cities_people(ps, cities, members.subrange(0, k + 1)) == pt_add(
            spec_cities_people(ps, cities, members.subrange(0, k)),
            if members[k] < cities.len() {
                spec_members_people(ps, cities[members[k] as int].persons@)
            } else {
                pt_zero()
            },
        ),
        spec_states_people(ps, cities, states, members.subrange(0, k + 1)) == pt_add(
            spec_states_people(ps, cities, states, members.subrange(0, k)),
            if members[k] < states.len() {
                spec_cities_people(ps, cities, states[members[k] as int].cities@)
            } else {
                pt_zero()
            },
        ),
{
    let pre = members.subrange(0, k);
    let cur = members.subrange(0, k + 1);
    assert(cur.drop_last() =~= pre);
    assert(cur.last() == members[k]);
}

/// Splitting the arena-wide population fold at `k`.
proof fn lemma_people_totals_step(ps: Seq<Resident>, k: int)
    requires
        0 <= k < ps.len(),
    ensures
        spec_people_totals(ps.subrange(0, k + 1)) == pt_add(
            spec_people_totals(ps.subrange(0, k)),
            spec_resident_totals(ps[k]),
        ),
{
    let pre = ps.subrange(0, k);
    let cur = ps.subrange(0, k + 1);
    assert(cur.drop_last() =~= pre);
    assert(cur.last() == ps[k]);
}

/// Splitting any of the market folds at `k`.
proof fn lemma_market_fold_step(shops: Seq<Shop>, cities: Seq<City>, states: Seq<State>, members: Seq<usize>, k: int)
    requires
        0 <= k < members.len(),
    ensures
        spec_members_market(shops, members.subrange(0, k + 1)) == mt_add(
            spec_members_market(shops, members.subrange(0, k)),
            if members[k] < shops.len() {
                spec_shop_totals(shops[members[k] as int])
            } else {
                mt_zero()
            },
        ),
        spec_cities_market(shops, cities, members.subrange(0, k + 1)) == mt_add(
            spec_cities_market(shops, cities, members.subrange(0, k)),
            if members[k] < cities.len() {
                mt_add(
                    spec_members_market(shops, cities[members[k] as int].shops@),
                    MarketTotals { cities: 1, ..mt_zero() },
                )
            } else {
                mt_zero()
            },
        ),
        spec_states_market(shops, cities, states, members.subrange(0, k + 1)) == mt_add(
            spec_states_market(shops, cities, states, members.subrange(0, k)),
            if members[k] < states.len() {
                spec_cities_market(shops, cities, states[members[k] as int].cities@)
            } else {
                mt_zero()
            },
        ),
{
    let pre = members.subrange(0, k);
    let cur = members.subrange(0, k + 1);
    assert(cur.drop_last() =~= pre);
    assert(cur.last() == members[k]);
}

/// Splitting the per-shop record fold at `k`.
proof fn lemma_items_totals_step(items: Seq<ShopItem>, k: int)
    requires
        0 <= k < items.len(),
    ensures
        spec_items_totals(items.subrange(0, k + 1)) == mt_add(
            spec_items_totals(items.subrange(0, k)),
            spec_entry_totals(items[k]),
        ),
{
    let pre = items.subrange(0, k);
    let cur = items.subrange(0, k + 1);
    assert(cur.drop_last() =~= pre);
    assert(cur.last() == items[k]);
}

/// Splitting the arena-wide shop fold at `k`.
proof fn lemma_shops_totals_step(shops: Seq<Shop>, k: int)
    requires
        0 <= k < shops.len(),
    ensures
        spec_shops_totals(shops.subrange(0, k + 1)) == mt_add(
            spec_shops_totals(shops.subrange(0, k)),
            spec_shop_totals(shops[k]),
        ),
{
    let pre = shops.subrange(0, k);
    let cur = shops.subrange(0, k + 1);
    assert(cur.drop_last() =~= pre);
    assert(cur.last() == shops[k]);
}

/// Population folds over a membership list are componentwise nonnegative.
proof fn lemma_members_people_nonneg(ps: Seq<Resident>, members: Seq<usize>)
    ensures
        pt_nonneg(spec_members_people(ps, members)),
        pt_nonneg(spec_members_present(ps, members)),
    decreases members.len(),
{
    if members.len() > 0 {
        lemma_members_people_nonneg(ps, members.drop_last());
    }
}

/// Population folds over a city list are componentwise nonnegative.
proof fn lemma_cities_people_nonneg(ps: Seq<Resident>, cities: Seq<City>, members: Seq<usize>)
    ensures
        pt_nonneg(spec_cities_people(ps, cities, members)),
    decreases members.len(),
{
    if members.len() > 0 {
        lemma_cities_people_nonneg(ps, cities, members.drop_last());
        if members.last() < cities.len() {
            lemma_members_people_nonneg(ps, cities[members.last() as int].persons@);
        }
    }
}

/// Population folds over a state list are componentwise nonnegative.
proof fn lemma_states_people_nonneg(ps: Seq<Resident>, cities: Seq<City>, states: Seq<State>, members: Seq<usize>)
    ensures
        pt_nonneg(spec_states_people(ps, cities, states, members)),
    decreases members.len(),
{
    if members.len() > 0 {
        lemma_states_people_nonneg(ps, cities, states, members.drop_last());
        if members.last() < states.len() {
            lemma_cities_people_nonneg(ps, cities, states[members.last() as int].cities@);
        }
    }
}

/// The arena-wide population fold is componentwise nonnegative.
proof fn lemma_people_totals_nonneg(ps: Seq<Resident>)
    ensures
        pt_nonneg(spec_people_totals(ps)),
    decreases ps.len(),
{
    if ps.len() > 0 {
        lemma_people_totals_nonneg(ps.drop_last());
    }
}

/// The per-shop record fold is componentwise nonnegative.
proof fn lemma_items_totals_nonneg(items: Seq<ShopItem>)
    ensures
        mt_nonneg(spec_items_totals(items)),
    decreases items.len(),
{
    if items.len() > 0 {
        lemma_items_totals_nonneg(items.drop_last());
        lemma_entry_totals_nonneg(items.last());
    }
}

/// Inflation basis points stay far inside the 128-bit range: a loss never
/// exceeds the scale (the last price cannot fall below zero), a gain is
/// bounded by the last price times the scale.
pub proof fn lemma_item_inflation_range(h: Seq<PriceRecord>)
    ensures
        match spec_item_inflation(h) {
            Some(bp) => -10000 <= bp < 0x100000000000000000000,
            None => true,
        },
{
    if h.len() >= 2 && h[0].price != 0 {
        let first = h[0].price;
        let last = h[h.len() - 1].price;
        if last >= first {
            assert(((last - first) * 10000) / (first as int) <= (last - first) * 10000)
                by (nonlinear_arith)
                requires
                    first >= 1,
                    last >= first,
            ;
            assert(((last - first) * 10000) / (first as int) >= 0) by (nonlinear_arith)
                requires
                    first >= 1,
                    last >= first,
            ;
        } else {
            assert(((first - last) * 10000) / (first as int) <= 10000) by (nonlinear_arith)
                requires
                    first >= 1,
                    0 <= first - last <= first,
            ;
            assert(((first - last) * 10000) / (first as int) >= 0) by (nonlinear_arith)
                requires
                    first >= 1,
                    0 <= first - last,
            ;
        }
    }
}

/// What one shop record contributes is componentwise nonnegative.
proof fn lemma_entry_totals_nonneg(e: ShopItem)
    ensures
        mt_nonneg(spec_entry_totals(e)),
{
    lemma_item_inflation_range(e.history@);
}

/// Market folds over a membership list are componentwise nonnegative.
proof fn lemma_members_market_nonneg(shops: Seq<Shop>, members: Seq<usize>)
    ensures
        mt_nonneg(spec_members_market(shops, members)),
    decreases members.len(),
{
    if members.len() > 0 {
        lemma_members_market_nonneg(shops, members.drop_last());
        if members.last() < shops.len() {
            lemma_items_totals_nonneg(shops[members.last() as int].items@);
        }
    }
}

/// Market folds over a city list are componentwise nonnegative.
proof fn lemma_cities_market_nonneg(shops: Seq<Shop>, cities: Seq<City>, members: Seq<usize>)
    ensures
        mt_nonneg(spec_cities_market(shops, cities, members)),
    decreases members.len(),
{
    if members.len() > 0 {
        lemma_cities_market_nonneg(shops, cities, members.drop_last());
        if members.last() < cities.len() {
            lemma_members_market_nonneg(shops, cities[members.last() as int].shops@);
        }
    }
}

/// Market folds over a state list are componentwise nonnegative.
proof fn lemma_states_market_nonneg(shops: Seq<Shop>, cities: Seq<City>, states: Seq<State>, members: Seq<usize>)
    ensures
        mt_nonneg(spec_states_market(shops, cities, states, members)),
    decreases members.len(),
{
    if members.len() > 0 {
        lemma_states_market_nonneg(shops, cities, states, members.drop_last());
        if members.last() < states.len() {
            lemma_cities_market_nonneg(shops, cities, states[members.last() as int].cities@);
        }
    }
}

/// The arena-wide shop fold is componentwise nonnegative.
proof fn lemma_shops_totals_nonneg(shops: Seq<Shop>)
    ensures
        mt_nonneg(spec_shops_totals(shops)),
    decreases shops.len(),
{
    if shops.len() > 0 {
        lemma_shops_totals_nonneg(shops.drop_last());
        lemma_items_totals_nonneg(shops.last().items@);
    }
}

/// One slot's population contribution, as capped sums.
fn resident_sums(r: &Resident) -> (s: PeopleSums)
    ensures
        spec_people_sums_ok(s, spec_resident_totals(*r)),
{
    if r.present && r.alive.0 {
        PeopleSums {
            live: 1,
            gold: r.person.gold as u128,
            hunger: r.person.hunger as u128,
            health: r.person.health as u128,
        }
    } else {
        people_sums_zero()
    }
}

/// One slot's roster contribution, as capped sums.
fn present_sums(r: &Resident) -> (s: PeopleSums)
    ensures
        spec_people_sums_ok(s, spec_present_totals(*r)),
{
    if r.present {
        PeopleSums {
            live: 1,
            gold: r.person.gold as u128,
            hunger: r.person.hunger as u128,
            health: r.person.health as u128,
        }
    } else {
        people_sums_zero()
    }
}

/// Population sums over a whole arena.
fn all_people_sums(persons: &Vec<Resident>) -> (s: PeopleSums)
    ensures
        spec_people_sums_ok(s, spec_people_totals(persons@)),
{
    let n = persons.len();
    let mut acc = people_sums_zero();
    let mut i: usize = 0;
    while i < n
        invariant
            i <= n,
            n == persons@.len(),
            spec_people_sums_ok(acc, spec_people_totals(persons@.subrange(0, i as int))),
            pt_nonneg(spec_people_totals(persons@.subrange(0, i as int))),
        decreases n - i,
    {
        let m = resident_sums(&persons[i]);
        people_sums_absorb(
            &mut acc,
            &m,
            Ghost(spec_people_totals(persons@.subrange(0, i as int))),
            Ghost(spec_resident_totals(persons@[i as int])),
        );
        proof {
            lemma_people_totals_step(persons@, i as int);
        }
        i = i + 1;
    }
    proof {
        assert(persons@.subrange(0, n as int) =~= persons@);
    }
    acc
}

/// Population sums over one membership list.
fn members_people_sums(persons: &Vec<Resident>, members: &Vec<usize>) -> (s: PeopleSums)
    ensures
        spec_people_sums_ok(s, spec_members_people(persons@, members@)),
{
    let n = members.len();
    let mut acc = people_sums_zero();
    let mut i: usize = 0;
    while i < n
        invariant
            i <= n,
            n == members@.len(),
            spec_people_sums_ok(
                acc,
                spec_members_people(persons@, members@.subrange(0, i as int)),
            ),
            pt_nonneg(spec_members_people(persons@, members@.subrange(0, i as int))),
        decreases n - i,
    {
        let id = members[i];
        let m = if id < persons.len() {
            resident_sums(&persons[id])
        } else {
            people_sums_zero()
        };
        people_sums_absorb(
            &mut acc,
            &m,
            Ghost(spec_members_people(persons@, members@.subrange(0, i as int))),
            Ghost(
                if members@[i as int] < persons@.len() {
                    spec_resident_totals(persons@[members@[i as int] as int])
                } else {
                    pt_zero()
                },
            ),
        );
        proof {
            lemma_people_fold_step(persons@, Seq::empty(), Seq::empty(), members@, i as int);
        }
        i = i + 1;
    }
    proof {
        assert(members@.subrange(0, n as int) =~= members@);
    }
    acc
}

/// Roster sums over one membership list.
fn members_present_sums(persons: &Vec<Resident>, members: &Vec<usize>) -> (s: PeopleSums)
    ensures
        spec_people_sums_ok(s, spec_members_present(persons@, members@)),
{
    let n = members.len();
    let mut acc = people_sums_zero();
    let mut i: usize = 0;
    while i < n
        invariant
            i <= n,
            n == members@.len(),
            spec_people_sums_ok(
                acc,
                spec_members_present(persons@, members@.subrange(0, i as int)),
            ),
            pt_nonneg(spec_members_present(persons@, members@.subrange(0, i as int))),
        decreases n - i,
    {
        let id = members[i];
        let m = if id < persons.len() {
            present_sums(&persons[id])
        } else {
            people_sums_zero()
        };
        people_sums_absorb(
            &mut acc,
            &m,
            Ghost(spec_members_present(persons@, members@.subrange(0, i as int))),
            Ghost(
                if members@[i as int] < persons@.len() {
                    spec_present_totals(persons@[members@[i as int] as int])
                } else {
                    pt_zero()
                },
            ),
        );
        proof {
            lemma_people_fold_step(persons@, Seq::empty(), Seq::empty(), members@, i as int);
        }
        i = i + 1;
    }
    proof {
        assert(members@.subrange(0, n as int) =~= members@);
    }
    acc
}

/// Population sums over a list of city indices.
fn cities_people_sums(persons: &Vec<Resident>, cities: &Vec<City>, members: &Vec<usize>) -> (s: PeopleSums)
    ensures
        spec_people_sums_ok(s, spec_cities_people(persons@, cities@, members@)),
{
    let n = members.len();
    let mut acc = people_sums_zero();
    let mut i: usize = 0;
    while i < n
        invariant
            i <= n,
            n == members@.len(),
            spec_people_sums_ok(
                acc,
                spec_cities_people(persons@, cities@, members@.subrange(0, i as int)),
            ),
            pt_nonneg(spec_cities_people(persons@, cities@, members@.subrange(0, i as int))),
        decreases n - i,
    {
        let id = members[i];
        let m = if id < cities.len() {
            members_people_sums(persons, &cities[id].persons)
        } else {
            people_sums_zero()
        };
        proof {
            lemma_cities_people_nonneg(persons@, cities@, members@.subrange(0, i as int));
            if members@[i as int] < cities@.len() {
                lemma_members_people_nonneg(
                    persons@,
                    cities@[members@[i as int] as int].persons@,
                );
            }
        }
        people_sums_absorb(
            &mut acc,
            &m,
            Ghost(spec_cities_people(persons@, cities@, members@.subrange(0, i as int))),
            Ghost(
                if members@[i as int] < cities@.len() {
                    spec_members_people(persons@, cities@[members@[i as int] as int].persons@)
                } else {
                    pt_zero()
                },
            ),
        );
        proof {
            lemma_people_fold_step(persons@, cities@, Seq::empty(), members@, i as int);
        }
        i = i + 1;
    }
    proof {
        assert(members@.subrange(0, n as int) =~= members@);
    }
    acc
}

/// Population sums over a list of state indices.
fn states_people_sums(
    persons: &Vec<Resident>,
    cities: &Vec<City>,
    states: &Vec<State>,
    members: &Vec<usize>,
) -> (s: PeopleSums)
    ensures
        spec_people_sums_ok(s, spec_states_people(persons@, cities@, states@, members@)),
{
    let n = members.len();
    let mut acc = people_sums_zero();
    let mut i: usize = 0;
    while i < n
        invariant
            i <= n,
            n == members@.len(),
            spec_people_sums_ok(
                acc,
                spec_states_people(persons@, cities@, states@, members@.subrange(0, i as int)),
            ),
            pt_nonneg(
                spec_states_people(persons@, cities@, states@, members@.subrange(0, i as int)),
            ),
        decreases n - i,
    {
        let id = members[i];
        let m = if id < states.len() {
            cities_people_sums(persons, cities, &states[id].cities)
        } else {
            people_sums_zero()
        };
        proof {
            lemma_states_people_nonneg(persons@, cities@, states@, members@.subrange(0, i as int));
            if members@[i as int] < states@.len() {
                lemma_cities_people_nonneg(
                    persons@,
                    cities@,
                    states@[members@[i as int] as int].cities@,
                );
            }
        }
        people_sums_absorb(
            &mut acc,
            &m,
            Ghost(
                spec_states_people(persons@, cities@, states@, members@.subrange(0, i as int)),
            ),
            Ghost(
                if members@[i as int] < states@.len() {
                    spec_cities_people(persons@, cities@, states@[members@[i as int] as int].cities@)
                } else {
                    pt_zero()
                },
            ),
        );
        proof {
            lemma_people_fold_step(persons@, cities@, states@, members@, i as int);
        }
        i = i + 1;
    }
    proof {
        assert(members@.subrange(0, n as int) =~= members@);
    }
    acc
}

/// One shop record's market contribution, as capped sums.
fn entry_sums(e: &ShopItem) -> (s: MarketSums)
    ensures
        spec_market_sums_ok(s, spec_entry_totals(*e)),
{
    let mut s = market_sums_zero();
    s.items = 1;
    s.stock = e.details.stock as u128;
    s.price = e.details.price as u128;
    s.sales = e.details.sales as u128;
    s.purchases = e.details.purchases as u128;
    proof {
        lemma_item_inflation_range(e.history@);
    }
    match calculate_item_inflation(&e.history) {
        Some(bp) => {
            if bp >= 0 {
                s.infl_gain_bp = bp as u128;
            } else {
                s.infl_loss_bp = (-bp) as u128;
            }
            s.infl_count = 1;
        },
        None => {},
    }
    s
}

/// Market sums of one whole shop: its records plus itself.
fn shop_sums(sh: &Shop) -> (s: MarketSums)
    ensures
        spec_market_sums_ok(s, spec_shop_totals(*sh)),
{
    let n = sh.items.len();
    let mut acc = market_sums_zero();
    let mut i: usize = 0;
    while i < n
        invariant
            i <= n,
            n == sh.items@.len(),
            spec_market_sums_ok(acc, spec_items_totals(sh.items@.subrange(0, i as int))),
            mt_nonneg(spec_items_totals(sh.items@.subrange(0, i as int))),
        decreases n - i,
    {
        let m = entry_sums(&sh.items[i]);
        proof {
            lemma_entry_totals_nonneg(sh.items@[i as int]);
        }
        market_sums_absorb(
            &mut acc,
            &m,
            Ghost(spec_items_totals(sh.items@.subrange(0, i as int))),
            Ghost(spec_entry_totals(sh.items@[i as int])),
        );
        proof {
            lemma_items_totals_step(sh.items@, i as int);
        }
        i = i + 1;
    }
    proof {
        assert(sh.items@.subrange(0, n as int) =~= sh.items@);
        lemma_items_totals_nonneg(sh.items@);
    }
    let one_shop = MarketSums { shops: 1, ..market_sums_zero() };
    market_sums_absorb(
        &mut acc,
        &one_shop,
        Ghost(spec_items_totals(sh.items@)),
        Ghost(MarketTotals { shops: 1, ..mt_zero() }),
    );
    acc
}

/// Market sums over a whole shop arena.
fn all_market_sums(shops: &Vec<Shop>) -> (s: MarketSums)
    ensures
        spec_market_sums_ok(s, spec_shops_totals(shops@)),
{
    let n = shops.len();
    let mut acc = market_sums_zero();
    let mut i: usize = 0;
    while i < n
        invariant
            i <= n,
            n == shops@.len(),
            spec_market_sums_ok(acc, spec_shops_totals(shops@.subrange(0, i as int))),
            mt_nonneg(spec_shops_totals(shops@.subrange(0, i as int))),
        decreases n - i,
    {
        let m = shop_sums(&shops[i]);
        proof {
            lemma_items_totals_nonneg(shops@[i as int].items@);
        }
        market_sums_absorb(
            &mut acc,
            &m,
            Ghost(spec_shops_totals(shops@.subrange(0, i as int))),
            Ghost(spec_shop_totals(shops@[i as int])),
        );
        proof {
            lemma_shops_totals_step(shops@, i as int);
        }
        i = i + 1;
    }
    proof {
        assert(shops@.subrange(0, n as int) =~= shops@);
    }
    acc
}

/// Market sums over one membership list of shop indices.
fn members_market_sums(shops: &Vec<Shop>, members: &Vec<usize>) -> (s: MarketSums)
    ensures
        spec_market_sums_ok(s, spec_members_market(shops@, members@)),
{
    let n = members.len();
    let mut acc = market_sums_zero();
    let mut i: usize = 0;
    while i < n
        invariant
            i <= n,
            n == members@.len(),
            spec_market_sums_ok(
                acc,
                spec_members_market(shops@, members@.subrange(0, i as int)),
            ),
            mt_nonneg(spec_members_market(shops@, members@.subrange(0, i as int))),
        decreases n - i,
    {
        let id = members[i];
        let m = if id < shops.len() {
            shop_sums(&shops[id])
        } else {
            market_sums_zero()
        };
        proof {
            if members@[i as int] < shops@.len() {
                lemma_items_totals_nonneg(shops@[members@[i as int] as int].items@);
            }
        }
        market_sums_absorb(
            &mut acc,
            &m,
            Ghost(spec_members_market(shops@, members@.subrange(0, i as int))),
            Ghost(
                if members@[i as int] < shops@.len() {
                    spec_shop_totals(shops@[members@[i as int] as int])
                } else {
                    mt_zero()
                },
            ),
        );
        proof {
            lemma_market_fold_step(shops@, Seq::empty(), Seq::empty(), members@, i as int);
        }
        i = i + 1;
    }
    proof {
        assert(members@.subrange(0, n as int) =~= members@);
    }
    acc
}

/// Market sums over a list of city indices: each counted city contributes
/// its shops' sums plus itself.
fn cities_market_sums(shops: &Vec<Shop>, cities: &Vec<City>, members: &Vec<usize>) -> (s: MarketSums)
    ensures
        spec_market_sums_ok(s, spec_cities_market(shops@, cities@, members@)),
{
    let n = members.len();
    let mut acc = market_sums_zero();
    let mut i: usize = 0;
    while i < n
        invariant
            i <= n,
            n == members@.len(),
            spec_market_sums_ok(
                acc,
                spec_cities_market(shops@, cities@, members@.subrange(0, i as int)),
            ),
            mt_nonneg(spec_cities_market(shops@, cities@, members@.subrange(0, i as int))),
        decreases n - i,
    {
        let id = members[i];
        let m = if id < cities.len() {
            let mut inner = members_market_sums(shops, &cities[id].shops);
            proof {
                lemma_members_market_nonneg(shops@, cities@[id as int].shops@);
            }
            let one_city = MarketSums { cities: 1, ..market_sums_zero() };
            market_sums_absorb(
                &mut inner,
                &one_city,
                Ghost(spec_members_market(shops@, cities@[id as int].shops@)),
                Ghost(MarketTotals { cities: 1, ..mt_zero() }),
            );
            inner
        } else {
            market_sums_zero()
        };
        proof {
            lemma_cities_market_nonneg(shops@, cities@, members@.subrange(0, i as int));
            if members@[i as int] < cities@.len() {
                lemma_members_market_nonneg(
                    shops@,
                    cities@[members@[i as int] as int].shops@,
                );
            }
        }
        market_sums_absorb(
            &mut acc,
            &m,
            Ghost(spec_cities_market(shops@, cities@, members@.subrange(0, i as int))),
            Ghost(
                if members@[i as int] < cities@.len() {
                    mt_add(
                        spec_members_market(shops@, cities@[members@[i as int] as int].shops@),
                        MarketTotals { cities: 1, ..mt_zero() },
                    )
                } else {
                    mt_zero()
                },
            ),
        );
        proof {
            lemma_market_fold_step(shops@, cities@, Seq::empty(), members@, i as int);
        }
        i = i + 1;
    }
    proof {
        assert(members@.subrange(0, n as int) =~= members@);
    }
    acc
}

/// Market sums over a list of state indices.
fn states_market_sums(
    shops: &Vec<Shop>,
    cities: &Vec<City>,
    states: &Vec<State>,
    members: &Vec<usize>,
) -> (s: MarketSums)
    ensures
        spec_market_sums_ok(s, spec_states_market(shops@, cities@, states@, members@)),
{
    let n = members.len();
    let mut acc = market_sums_zero();
    let mut i: usize = 0;
    while i < n
        invariant
            i <= n,
            n == members@.len(),
            spec_market_sums_ok(
                acc,
                spec_states_market(shops@, cities@, states@, members@.subrange(0, i as int)),
            ),
            mt_nonneg(
                spec_states_market(shops@, cities@, states@, members@.subrange(0, i as int)),
            ),
        decreases n - i,
    {
        let id = members[i];
        let m = if id < states.len() {
            cities_market_sums(shops, cities, &states[id].cities)
        } else {
            market_sums_zero()
        };
        proof {
            lemma_states_market_nonneg(shops@, cities@, states@, members@.subrange(0, i as int));
            if members@[i as int] < states@.len() {
                lemma_cities_market_nonneg(
                    shops@,
                    cities@,
                    states@[members@[i as int] as int].cities@,
                );
            }
        }
        market_sums_absorb(
            &mut acc,
            &m,
            Ghost(
                spec_states_market(shops@, cities@, states@, members@.subrange(0, i as int)),
            ),
            Ghost(
                if members@[i as int] < states@.len() {
                    spec_cities_market(shops@, cities@, states@[members@[i as int] as int].cities@)
                } else {
                    mt_zero()
                },
            ),
        );
        proof {
            lemma_market_fold_step(shops@, cities@, states@, members@, i as int);
        }
        i = i + 1;
    }
    proof {
        assert(members@.subrange(0, n as int) =~= members@);
    }
    acc
}

/// Population aggregates as reported: capped totals and their integer
/// averages over the live population.
pub struct PeopleStats {
    pub live: u128,
    pub total_gold: u128,
    pub total_hunger: u128,
    pub total_health: u128,
    pub average_gold: u128,
    pub average_hunger: u128,
    pub average_health: u128,
}

/// The report matches the mathematical totals: capped sums, and averages
/// that are the integer quotient over the live count (zero when nobody is
/// live).
pub open spec fn spec_people_stats_ok(st: PeopleStats, t: PeopleTotals) -> bool {
    &&& st.live == spec_cap_u128(t.live)
    &&& st.total_gold == spec_cap_u128(t.gold)
    &&& st.total_hunger == spec_cap_u128(t.hunger)
    &&& st.total_health == spec_cap_u128(t.health)
    &&& st.average_gold == if st.live > 0 { st.total_gold / st.live } else { 0u128 }
    &&& st.average_hunger == if st.live > 0 { st.total_hunger / st.live } else { 0u128 }
    &&& st.average_health == if st.live > 0 { st.total_health / st.live } else { 0u128 }
}

/// Market aggregates as reported: capped totals, averages over the counted
/// item records, and inflation split into summed gains and losses in basis
/// points.
pub struct MarketStats {
    pub cities: u128,
    pub shops: u128,
    pub items: u128,
    pub total_stock: u128,
    pub total_price: u128,
    pub total_sales: u128,
    pub total_purchases: u128,
    pub average_stock: u128,
    pub average_price: u128,
    pub average_sales: u128,
    pub average_purchases: u128,
    pub inflation_gain_bp: u128,
    pub inflation_loss_bp: u128,
    pub inflation_count: u128,
}

pub open spec fn spec_market_stats_ok(st: MarketStats, t: MarketTotals) -> bool {
    &&& st.cities == spec_cap_u128(t.cities)
    &&& st.shops == spec_cap_u128(t.shops)
    &&& st.items == spec_cap_u128(t.items)
    &&& st.total_stock == spec_cap_u128(t.stock)
    &&& st.total_price == spec_cap_u128(t.price)
    &&& st.total_sales == spec_cap_u128(t.sales)
    &&& st.total_purchases == spec_cap_u128(t.purchases)
    &&& st.average_stock == if st.items > 0 { st.total_stock / st.items } else { 0u128 }
    &&& st.average_price == if st.items > 0 { st.total_price / st.items } else { 0u128 }
    &&& st.average_sales == if st.items > 0 { st.total_sales / st.items } else { 0u128 }
    &&& st.average_purchases == if st.items > 0 {
        st.total_purchases / st.items
    } else {
        0u128
    }
    &&& st.inflation_gain_bp == spec_cap_u128(t.infl_gain_bp)
    &&& st.inflation_loss_bp == spec_cap_u128(t.infl_loss_bp)
    &&& st.inflation_count == spec_cap_u128(t.infl_count)
}

fn finish_people(s: PeopleSums, Ghost(t): Ghost<PeopleTotals>) -> (st: PeopleStats)
    requires
        spec_people_sums_ok(s, t),
    ensures
        spec_people_stats_ok(st, t),
{
    PeopleStats {
        live: s.live,
        total_gold: s.gold,
        total_hunger: s.hunger,
        total_health: s.health,
        average_gold: if s.live > 0 { s.gold / s.live } else { 0 },
        average_hunger: if s.live > 0 { s.hunger / s.live } else { 0 },
        average_health: if s.live > 0 { s.health / s.live } else { 0 },
    }
}

fn finish_market(s: MarketSums, Ghost(t): Ghost<MarketTotals>) -> (st: MarketStats)
    requires
        spec_market_sums_ok(s, t),
    ensures
        spec_market_stats_ok(st, t),
{
    MarketStats {
        cities: s.cities,
        shops: s.shops,
        items: s.items,
        total_stock: s.stock,
        total_price: s.price,
        total_sales: s.sales,
        total_purchases: s.purchases,
        average_stock: if s.items > 0 { s.stock / s.items } else { 0 },
        average_price: if s.items > 0 { s.price / s.items } else { 0 },
        average_sales: if s.items > 0 { s.sales / s.items } else { 0 },
        average_purchases: if s.items > 0 { s.purchases / s.items } else { 0 },
        inflation_gain_bp: s.infl_gain_bp,
        inflation_loss_bp: s.infl_loss_bp,
        inflation_count: s.infl_count,
    }
}

/// Average hunger, gold and health over every live agent in the world.
pub fn get_people_stats(persons: &Vec<Resident>) -> (st: PeopleStats)
    ensures
        spec_people_stats_ok(st, spec_people_totals(persons@)),
{
    let s = all_people_sums(persons);
    finish_people(s, Ghost(spec_people_totals(persons@)))
}

/// Average stock, price, sales, purchases and summed inflation over every
/// item record of every shop in the world.
pub fn get_shops_stats(shops: &Vec<Shop>) -> (st: MarketStats)
    ensures
        spec_market_stats_ok(st, spec_shops_totals(shops@)),
{
    let s = all_market_sums(shops);
    finish_market(s, Ghost(spec_shops_totals(shops@)))
}

/// One node's rollup: its population and its market aggregates.
pub struct RegionStats {
    pub people: PeopleStats,
    pub market: MarketStats,
}

/// The rollup of one city: its live members and its shops.
pub fn city_stats(w: &World, c: usize) -> (r: RegionStats)
    requires
        c < w.cities@.len(),
    ensures
        spec_people_stats_ok(
            r.people,
            spec_members_people(w.persons@, w.cities@[c as int].persons@),
        ),
        spec_market_stats_ok(
            r.market,
            spec_members_market(w.shops@, w.cities@[c as int].shops@),
        ),
{
    let ps = members_people_sums(&w.persons, &w.cities[c].persons);
    let ms = members_market_sums(&w.shops, &w.cities[c].shops);
    RegionStats {
        people: finish_people(
            ps,
            Ghost(spec_members_people(w.persons@, w.cities@[c as int].persons@)),
        ),
        market: finish_market(
            ms,
            Ghost(spec_members_market(w.shops@, w.cities@[c as int].shops@)),
        ),
    }
}

/// The rollup of one state: everything under its cities.
pub fn state_stats(w: &World, s: usize) -> (r: RegionStats)
    requires
        s < w.states@.len(),
    ensures
        spec_people_stats_ok(
            r.people,
            spec_cities_people(w.persons@, w.cities@, w.states@[s as int].cities@),
        ),
        spec_market_stats_ok(
            r.market,
            spec_cities_market(w.shops@, w.cities@, w.states@[s as int].cities@),
        ),
{
    let ps = cities_people_sums(&w.persons, &w.cities, &w.states[s].cities);
    let ms = cities_market_sums(&w.shops, &w.cities, &w.states[s].cities);
    RegionStats {
        people: finish_people(
            ps,
            Ghost(spec_cities_people(w.persons@, w.cities@, w.states@[s as int].cities@)),
        ),
        market: finish_market(
            ms,
            Ghost(spec_cities_market(w.shops@, w.cities@, w.states@[s as int].cities@)),
        ),
    }
}

/// The rollup of one country: everything under its states.
pub fn country_stats(w: &World, c: usize) -> (r: RegionStats)
    requires
        c < w.countries@.len(),
    ensures
        spec_people_stats_ok(
            r.people,
            spec_states_people(w.persons@, w.cities@, w.states@, w.countries@[c as int].estates@),
        ),
        spec_market_stats_ok(
            r.market,
            spec_states_market(w.shops@, w.cities@, w.states@, w.countries@[c as int].estates@),
        ),
{
    let ps = states_people_sums(&w.persons, &w.cities, &w.states, &w.countries[c].estates);
    let ms = states_market_sums(&w.shops, &w.cities, &w.states, &w.countries[c].estates);
    RegionStats {
        people: finish_people(
            ps,
            Ghost(
                spec_states_people(
                    w.persons@,
                    w.cities@,
                    w.states@,
                    w.countries@[c as int].estates@,
                ),
            ),
        ),
        market: finish_market(
            ms,
            Ghost(
                spec_states_market(
                    w.shops@,
                    w.cities@,
                    w.states@,
                    w.countries@[c as int].estates@,
                ),
            ),
        ),
    }
}

/// The rollup of every city, in city order.
pub fn get_city_stats(w: &World) -> (rs: Vec<RegionStats>)
    ensures
        rs@.len() == w.cities@.len(),
        forall|c: int| 0 <= c < w.cities@.len() ==> {
            &&& spec_people_stats_ok(
                (#[trigger] rs@[c]).people,
                spec_members_people(w.persons@, w.cities@[c].persons@),
            )
            &&& spec_market_stats_ok(
                rs@[c].market,
                spec_members_market(w.shops@, w.cities@[c].shops@),
            )
        },
{
    let n = w.cities.len();
    let mut rs: Vec<RegionStats> = Vec::new();
    let mut c: usize = 0;
    while c < n
        invariant
            c <= n,
            n == w.cities@.len(),
            rs@.len() == c,
            forall|j: int| 0 <= j < c ==> {
                &&& spec_people_stats_ok(
                    (#[trigger] rs@[j]).people,
                    spec_members_people(w.persons@, w.cities@[j].persons@),
                )
                &&& spec_market_stats_ok(
                    rs@[j].market,
                    spec_members_market(w.shops@, w.cities@[j].shops@),
                )
            },
        decreases n - c,
    {
        let r = city_stats(w, c);
        rs.push(r);
        c = c + 1;
    }
    rs
}

/// The rollup of every state, in state order.
pub fn get_state_stats(w: &World) -> (rs: Vec<RegionStats>)
    ensures
        rs@.len() == w.states@.len(),
        forall|s: int| 0 <= s < w.states@.len() ==> {
            &&& spec_people_stats_ok(
                (#[trigger] rs@[s]).people,
                spec_cities_people(w.persons@, w.cities@, w.states@[s].cities@),
            )
            &&& spec_market_stats_ok(
                rs@[s].market,
                spec_cities_market(w.shops@, w.cities@, w.states@[s].cities@),
            )
        },
{
    let n = w.states.len();
    let mut rs: Vec<RegionStats> = Vec::new();
    let mut s: usize = 0;
    while s < n
        invariant
            s <= n,
            n == w.states@.len(),
            rs@.len() == s,
            forall|j: int| 0 <= j < s ==> {
                &&& spec_people_stats_ok(
                    (#[trigger] rs@[j]).people,
                    spec_cities_people(w.persons@, w.cities@, w.states@[j].cities@),
                )
                &&& spec_market_stats_ok(
                    rs@[j].market,
                    spec_cities_market(w.shops@, w.cities@, w.states@[j].cities@),
                )
            },
        decreases n - s,
    {
        let r = state_stats(w, s);
        rs.push(r);
        s = s + 1;
    }
    rs
}

/// The rollup of every country, in country order.
pub fn get_country_stats(w: &World) -> (rs: Vec<RegionStats>)
    ensures
        rs@.len() == w.countries@.len(),
        forall|c: int| 0 <= c < w.countries@.len() ==> {
            &&& spec_people_stats_ok(
                (#[trigger] rs@[c]).people,
                spec_states_people(w.persons@, w.cities@, w.states@, w.countries@[c].estates@),
            )
            &&& spec_market_stats_ok(
                rs@[c].market,
                spec_states_market(w.shops@, w.cities@, w.states@, w.countries@[c].estates@),
            )
        },
{
    let n = w.countries.len();
    let mut rs: Vec<RegionStats> = Vec::new();
    let mut c: usize = 0;
    while c < n
        invariant
            c <= n,
            n == w.countries@.len(),
            rs@.len() == c,
            forall|j: int| 0 <= j < c ==> {
                &&& spec_people_stats_ok(
                    (#[trigger] rs@[j]).people,
                    spec_states_people(
                        w.persons@,
                        w.cities@,
                        w.states@,
                        w.countries@[j].estates@,
                    ),
                )
                &&& spec_market_stats_ok(
                    rs@[j].market,
                    spec_states_market(
                        w.shops@,
                        w.cities@,
                        w.states@,
                        w.countries@[j].estates@,
                    ),
                )
            },
        decreases n - c,
    {
        let r = country_stats(w, c);
        rs.push(r);
        c = c + 1;
    }
    rs
}

/// One row of the membership cross-check: how many members a city lists,
/// how many of them still stand in the world, and their combined gold.
pub struct CityRoster {
    pub listed: u128,
    pub counted: u128,
    pub total_gold: u128,
}

/// Cross-checks each city's membership list against the arena: the listed
/// count, the count of members still present (dead but unswept agents
/// included), and their combined gold.
pub fn test_system(w: &World) -> (rows: Vec<CityRoster>)
    ensures
        rows@.len() == w.cities@.len(),
        forall|c: int| 0 <= c < w.cities@.len() ==> {
            &&& (#[trigger] rows@[c]).listed == w.cities@[c].persons@.len()
            &&& rows@[c].counted == spec_cap_u128(
                spec_members_present(w.persons@, w.cities@[c].persons@).live,
            )
            &&& rows@[c].total_gold == spec_cap_u128(
                spec_members_present(w.persons@, w.cities@[c].persons@).gold,
            )
        },
{
    let n = w.cities.len();
    let mut rows: Vec<CityRoster> = Vec::new();
    let mut c: usize = 0;
    while c < n
        invariant
            c <= n,
            n == w.cities@.len(),
            rows@.len() == c,
            forall|j: int| 0 <= j < c ==> {
                &&& (#[trigger] rows@[j]).listed == w.cities@[j].persons@.len()
                &&& rows@[j].counted == spec_cap_u128(
                    spec_members_present(w.persons@, w.cities@[j].persons@).live,
                )
                &&& rows@[j].total_gold == spec_cap_u128(
                    spec_members_present(w.persons@, w.cities@[j].persons@).gold,
                )
            },
        decreases n - c,
    {
        let s = members_present_sums(&w.persons, &w.cities[c].persons);
        rows.push(CityRoster {
            listed: w.cities[c].persons.len() as u128,
            counted: s.live,
            total_gold: s.gold,
        });
        c = c + 1;
    }
    rows
}


/// Per-item inflation aggregates for one catalog item: summed gains and
/// summed losses in basis points, and the number of shop records carrying
/// inflation data for that item.
pub ghost struct InflationTotals {
    pub gain_bp: int,
    pub loss_bp: int,
    pub count: int,
}

pub open spec fn infl_zero() -> InflationTotals {
    InflationTotals { gain_bp: 0, loss_bp: 0, count: 0 }
}

pub open spec fn infl_add(a: InflationTotals, b: InflationTotals) -> InflationTotals {
    InflationTotals {
        gain_bp: a.gain_bp + b.gain_bp,
        loss_bp: a.loss_bp + b.loss_bp,
        count: a.count + b.count,
    }
}

pub open spec fn infl_nonneg(t: InflationTotals) -> bool {
    t.gain_bp >= 0 && t.loss_bp >= 0 && t.count >= 0
}

/// What one shop record contributes to item `it`'s inflation rollup:
/// nothing unless the record is for `it` and its history carries
/// inflation data.
pub open spec fn spec_record_item_infl(e: ShopItem, it: int) -> InflationTotals {
    if e.item == it {
        match spec_item_inflation(e.history@) {
            Some(bp) => InflationTotals {
                gain_bp: if bp >= 0 { bp } else { 0 },
                loss_bp: if bp < 0 { -bp } else { 0 },
                count: 1,
            },
            None => infl_zero(),
        }
    } else {
        infl_zero()
    }
}

/// Item `it`'s inflation aggregates over one shop's records.
pub open spec fn spec_items_item_infl(items: Seq<ShopItem>, it: int) -> InflationTotals
    decreases items.len(),
{
    if items.len() == 0 {
        infl_zero()
    } else {
        infl_add(
            spec_items_item_infl(items.drop_last(), it),
            spec_record_item_infl(items.last(), it),
        )
    }
}

/// Item `it`'s inflation aggregates over one membership list of shop
/// indices.
pub open spec fn spec_members_item_infl(
    shops: Seq<Shop>,
    members: Seq<usize>,
    it: int,
) -> InflationTotals
    decreases members.len(),
{
    if members.len() == 0 {
        infl_zero()
    } else {
        infl_add(
            spec_members_item_infl(shops, members.drop_last(), it),
            if members.last() < shops.len() {
                spec_items_item_infl(shops[members.last() as int].items@, it)
            } else {
                infl_zero()
            },
        )
    }
}

/// Item `it`'s inflation aggregates over a list of city indices.
pub open spec fn spec_cities_item_infl(
    shops: Seq<Shop>,
    cities: Seq<City>,
    members: Seq<usize>,
    it: int,
) -> InflationTotals
    decreases members.len(),
{
    if members.len() == 0 {
        infl_zero()
    } else {
        infl_add(
            spec_cities_item_infl(shops, cities, members.drop_last(), it),
            if members.last() < cities.len() {
                spec_members_item_infl(shops, cities[members.last() as int].shops@, it)
            } else {
                infl_zero()
            },
        )
    }
}

/// Item `it`'s inflation aggregates over a list of state indices.
pub open spec fn spec_states_item_infl(
    shops: Seq<Shop>,
    cities: Seq<City>,
    states: Seq<State>,
    members: Seq<usize>,
    it: int,
) -> InflationTotals
    decreases members.len(),
{
    if members.len() == 0 {
        infl_zero()
    } else {
        infl_add(
            spec_states_item_infl(shops, cities, states, members.drop_last(), it),
            if members.last() < states.len() {
                spec_cities_item_infl(shops, cities, states[members.last() as int].cities@, it)
            } else {
                infl_zero()
            },
        )
    }
}

/// One record's per-item contribution is componentwise nonnegative.
proof fn lemma_record_item_infl_nonneg(e: ShopItem, it: int)
    ensures
        infl_nonneg(spec_record_item_infl(e, it)),
{
    lemma_item_inflation_range(e.history@);
}

/// The per-shop per-item fold is componentwise nonnegative.
proof fn lemma_items_item_infl_nonneg(items: Seq<ShopItem>, it: int)
    ensures
        infl_nonneg(spec_items_item_infl(items, it)),
    decreases items.len(),
{
    if items.len() > 0 {
        lemma_items_item_infl_nonneg(items.drop_last(), it);
        lemma_record_item_infl_nonneg(items.last(), it);
    }
}

/// The membership-list per-item fold is componentwise nonnegative.
proof fn lemma_members_item_infl_nonneg(shops: Seq<Shop>, members: Seq<usize>, it: int)
    ensures
        infl_nonneg(spec_members_item_infl(shops, members, it)),
    decreases members.len(),
{
    if members.len() > 0 {
        lemma_members_item_infl_nonneg(shops, members.drop_last(), it);
        if members.last() < shops.len() {
            lemma_items_item_infl_nonneg(shops[members.last() as int].items@, it);
        }
    }
}

/// The city-list per-item fold is componentwise nonnegative.
proof fn lemma_cities_item_infl_nonneg(
    shops: Seq<Shop>,
    cities: Seq<City>,
    members: Seq<usize>,
    it: int,
)
    ensures
        infl_nonneg(spec_cities_item_infl(shops, cities, members, it)),
    decreases members.len(),
{
    if members.len() > 0 {
        lemma_cities_item_infl_nonneg(shops, cities, members.drop_last(), it);
        if members.last() < cities.len() {
            lemma_members_item_infl_nonneg(shops, cities[members.last() as int].shops@, it);
        }
    }
}

/// The state-list per-item fold is componentwise nonnegative.
proof fn lemma_states_item_infl_nonneg(
    shops: Seq<Shop>,
    cities: Seq<City>,
    states: Seq<State>,
    members: Seq<usize>,
    it: int,
)
    ensures
        infl_nonneg(spec_states_item_infl(shops, cities, states, members, it)),
    decreases members.len(),
{
    if members.len() > 0 {
        lemma_states_item_infl_nonneg(shops, cities, states, members.drop_last(), it);
        if members.last() < states.len() {
            lemma_cities_item_infl_nonneg(shops, cities, states[members.last() as int].cities@, it);
        }
    }
}

/// Splitting the per-shop per-item fold at `k`.
proof fn lemma_items_item_infl_step(items: Seq<ShopItem>, it: int, k: int)
    requires
        0 <= k < items.len(),
    ensures
        spec_items_item_infl(items.subrange(0, k + 1), it) == infl_add(
            spec_items_item_infl(items.subrange(0, k), it),
            spec_record_item_infl(items[k], it),
        ),
{
    let pre = items.subrange(0, k);
    let cur = items.subrange(0, k + 1);
    assert(cur.drop_last() =~= pre);
    assert(cur.last() == items[k]);
}

/// Splitting any of the per-item list folds at `k`.
proof fn lemma_item_infl_fold_step(
    shops: Seq<Shop>,
    cities: Seq<City>,
    states: Seq<State>,
    members: Seq<usize>,
    it: int,
    k: int,
)
    requires
        0 <= k < members.len(),
    ensures
        spec_members_item_infl(shops, members.subrange(0, k + 1), it) == infl_add(
            spec_members_item_infl(shops, members.subrange(0, k), it),
            if members[k] < shops.len() {
                spec_items_item_infl(shops[members[k] as int].items@, it)
            } else {
                infl_zero()
            },
        ),
        spec_cities_item_infl(shops, cities, members.subrange(0, k + 1), it) == infl_add(
            spec_cities_item_infl(shops, cities, members.subrange(0, k), it),
            if members[k] < cities.len() {
                spec_members_item_infl(shops, cities[members[k] as int].shops@, it)
            } else {
                infl_zero()
            },
        ),
        spec_states_item_infl(shops, cities, states, members.subrange(0, k + 1), it)
            == infl_add(
            spec_states_item_infl(shops, cities, states, members.subrange(0, k), it),
            if members[k] < states.len() {
                spec_cities_item_infl(shops, cities, states[members[k] as int].cities@, it)
            } else {
                infl_zero()
            },
        ),
{
    let pre = members.subrange(0, k);
    let cur = members.subrange(0, k + 1);
    assert(cur.drop_last() =~= pre);
    assert(cur.last() == members[k]);
}


/// Saturating per-item inflation sums, one field per [`InflationTotals`]
/// component.
struct InflSums {
    gain_bp: u128,
    loss_bp: u128,
    count: u128,
}

/// Each sum equals its mathematical total capped at `u128::MAX`.
spec fn spec_infl_sums_ok(s: InflSums, t: InflationTotals) -> bool {
    &&& s.gain_bp == spec_cap_u128(t.gain_bp)
    &&& s.loss_bp == spec_cap_u128(t.loss_bp)
    &&& s.count == spec_cap_u128(t.count)
}

fn infl_sums_zero() -> (s: InflSums)
    ensures
        spec_infl_sums_ok(s, infl_zero()),
{
    InflSums { gain_bp: 0, loss_bp: 0, count: 0 }
}

/// Folds further capped per-item sums into an accumulator.
fn infl_sums_absorb(acc: &mut InflSums, more: &InflSums, Ghost(ta): Ghost<InflationTotals>, Ghost(tb): Ghost<InflationTotals>)
    requires
        spec_infl_sums_ok(*old(acc), ta),
        spec_infl_sums_ok(*more, tb),
        infl_nonneg(ta),
        infl_nonneg(tb),
    ensures
        spec_infl_sums_ok(*final(acc), infl_add(ta, tb)),
{
    acc.gain_bp = sat_add_u128(acc.gain_bp, more.gain_bp);
    acc.loss_bp = sat_add_u128(acc.loss_bp, more.loss_bp);
    acc.count = sat_add_u128(acc.count, more.count);
}

/// One shop record's per-item contribution, as capped sums.
fn record_infl_sums(e: &ShopItem, it: usize) -> (s: InflSums)
    ensures
        spec_infl_sums_ok(s, spec_record_item_infl(*e, it as int)),
{
    let mut s = infl_sums_zero();
    if e.item == it {
        proof {
            lemma_item_inflation_range(e.history@);
        }
        match calculate_item_inflation(&e.history) {
            Some(bp) => {
                if bp >= 0 {
                    s.gain_bp = bp as u128;
                } else {
                    s.loss_bp = (-bp) as u128;
                }
                s.count = 1;
            },
            None => {},
        }
    }
    s
}

/// Item `it`'s inflation sums over one shop's records.
fn shop_item_infl_sums(sh: &Shop, it: usize) -> (s: InflSums)
    ensures
        spec_infl_sums_ok(s, spec_items_item_infl(sh.items@, it as int)),
{
    let n = sh.items.len();
    let mut acc = infl_sums_zero();
    let mut k: usize = 0;
    while k < n
        invariant
            k <= n,
            n == sh.items@.len(),
            spec_infl_sums_ok(
                acc,
                spec_items_item_infl(sh.items@.subrange(0, k as int), it as int),
            ),
            infl_nonneg(spec_items_item_infl(sh.items@.subrange(0, k as int), it as int)),
        decreases n - k,
    {
        let m = record_infl_sums(&sh.items[k], it);
        proof {
            lemma_record_item_infl_nonneg(sh.items@[k as int], it as int);
        }
        infl_sums_absorb(
            &mut acc,
            &m,
            Ghost(spec_items_item_infl(sh.items@.subrange(0, k as int), it as int)),
            Ghost(spec_record_item_infl(sh.items@[k as int], it as int)),
        );
        proof {
            lemma_items_item_infl_step(sh.items@, it as int, k as int);
        }
        k = k + 1;
    }
    proof {
        assert(sh.items@.subrange(0, n as int) =~= sh.items@);
    }
    acc
}

/// Item `it`'s inflation sums over one membership list of shop indices.
fn members_item_infl_sums(shops: &Vec<Shop>, members: &Vec<usize>, it: usize) -> (s: InflSums)
    ensures
        spec_infl_sums_ok(s, spec_members_item_infl(shops@, members@, it as int)),
{
    let n = members.len();
    let mut acc = infl_sums_zero();
    let mut k: usize = 0;
    while k < n
        invariant
            k <= n,
            n == members@.len(),
            spec_infl_sums_ok(
                acc,
                spec_members_item_infl(shops@, members@.subrange(0, k as int), it as int),
            ),
            infl_nonneg(
                spec_members_item_infl(shops@, members@.subrange(0, k as int), it as int),
            ),
        decreases n - k,
    {
        let id = members[k];
        let m = if id < shops.len() {
            shop_item_infl_sums(&shops[id], it)
        } else {
            infl_sums_zero()
        };
        proof {
            if members@[k as int] < shops@.len() {
                lemma_items_item_infl_nonneg(
                    shops@[members@[k as int] as int].items@,
                    it as int,
                );
            }
        }
        infl_sums_absorb(
            &mut acc,
            &m,
            Ghost(spec_members_item_infl(shops@, members@.subrange(0, k as int), it as int)),
            Ghost(
                if members@[k as int] < shops@.len() {
                    spec_items_item_infl(shops@[members@[k as int] as int].items@, it as int)
                } else {
                    infl_zero()
                },
            ),
        );
        proof {
            lemma_item_infl_fold_step(
                shops@,
                Seq::empty(),
                Seq::empty(),
                members@,
                it as int,
                k as int,
            );
        }
        k = k + 1;
    }
    proof {
        assert(members@.subrange(0, n as int) =~= members@);
    }
    acc
}

/// Item `it`'s inflation sums over a list of city indices.
fn cities_item_infl_sums(
    shops: &Vec<Shop>,
    cities: &Vec<City>,
    members: &Vec<usize>,
    it: usize,
) -> (s: InflSums)
    ensures
        spec_infl_sums_ok(s, spec_cities_item_infl(shops@, cities@, members@, it as int)),
{
    let n = members.len();
    let mut acc = infl_sums_zero();
    let mut k: usize = 0;
    while k < n
        invariant
            k <= n,
            n == members@.len(),
            spec_infl_sums_ok(
                acc,
                spec_cities_item_infl(
                    shops@,
                    cities@,
                    members@.subrange(0, k as int),
                    it as int,
                ),
            ),
            infl_nonneg(
                spec_cities_item_infl(
                    shops@,
                    cities@,
                    members@.subrange(0, k as int),
                    it as int,
                ),
            ),
        decreases n - k,
    {
        let id = members[k];
        let m = if id < cities.len() {
            members_item_infl_sums(shops, &cities[id].shops, it)
        } else {
            infl_sums_zero()
        };
        proof {
            if members@[k as int] < cities@.len() {
                lemma_members_item_infl_nonneg(
                    shops@,
                    cities@[members@[k as int] as int].shops@,
                    it as int,
                );
            }
        }
        infl_sums_absorb(
            &mut acc,
            &m,
            Ghost(
                spec_cities_item_infl(
                    shops@,
                    cities@,
                    members@.subrange(0, k as int),
                    it as int,
                ),
            ),
            Ghost(
                if members@[k as int] < cities@.len() {
                    spec_members_item_infl(
                        shops@,
                        cities@[members@[k as int] as int].shops@,
                        it as int,
                    )
                } else {
                    infl_zero()
                },
            ),
        );
        proof {
            lemma_item_infl_fold_step(
                shops@,
                cities@,
                Seq::empty(),
                members@,
                it as int,
                k as int,
            );
        }
        k = k + 1;
    }
    proof {
        assert(members@.subrange(0, n as int) =~= members@);
    }
    acc
}

/// Item `it`'s inflation sums over a list of state indices.
fn states_item_infl_sums(
    shops: &Vec<Shop>,
    cities: &Vec<City>,
    states: &Vec<State>,
    members: &Vec<usize>,
    it: usize,
) -> (s: InflSums)
    ensures
        spec_infl_sums_ok(
            s,
            spec_states_item_infl(shops@, cities@, states@, members@, it as int),
        ),
{
    let n = members.len();
    let mut acc = infl_sums_zero();
    let mut k: usize = 0;
    while k < n
        invariant
            k <= n,
            n == members@.len(),
            spec_infl_sums_ok(
                acc,
                spec_states_item_infl(
                    shops@,
                    cities@,
                    states@,
                    members@.subrange(0, k as int),
                    it as int,
                ),
            ),
            infl_nonneg(
                spec_states_item_infl(
                    shops@,
                    cities@,
                    states@,
                    members@.subrange(0, k as int),
                    it as int,
                ),
            ),
        decreases n - k,
    {
        let id = members[k];
        let m = if id < states.len() {
            cities_item_infl_sums(shops, cities, &states[id].cities, it)
        } else {
            infl_sums_zero()
        };
        proof {
            if members@[k as int] < states@.len() {
                lemma_cities_item_infl_nonneg(
                    shops@,
                    cities@,
                    states@[members@[k as int] as int].cities@,
                    it as int,
                );
            }
        }
        infl_sums_absorb(
            &mut acc,
            &m,
            Ghost(
                spec_states_item_infl(
                    shops@,
                    cities@,
                    states@,
                    members@.subrange(0, k as int),
                    it as int,
                ),
            ),
            Ghost(
                if members@[k as int] < states@.len() {
                    spec_cities_item_infl(
                        shops@,
                        cities@,
                        states@[members@[k as int] as int].cities@,
                        it as int,
                    )
                } else {
                    infl_zero()
                },
            ),
        );
        proof {
            lemma_item_infl_fold_step(
                shops@,
                cities@,
                states@,
                members@,
                it as int,
                k as int,
            );
        }
        k = k + 1;
    }
    proof {
        assert(members@.subrange(0, n as int) =~= members@);
    }
    acc
}

/// One catalog item's inflation rollup for a region: the catalog index,
/// summed gains and losses in basis points, and the number of shop records
/// carrying inflation data. A count of zero means the region holds no
/// inflation data for the item, mirroring a report that omits it.
pub struct ItemInflation {
    pub item: usize,
    pub gain_bp: u128,
    pub loss_bp: u128,
    pub count: u128,
}

/// The row reports exactly the capped per-item totals.
pub open spec fn spec_item_inflation_row_ok(row: ItemInflation, it: int, t: InflationTotals) -> bool {
    &&& row.item == it
    &&& row.gain_bp == spec_cap_u128(t.gain_bp)
    &&& row.loss_bp == spec_cap_u128(t.loss_bp)
    &&& row.count == spec_cap_u128(t.count)
}

/// Inflation per catalog item over one city's shops, one row per item in
/// catalog order.
pub fn city_item_inflation(w: &World, c: usize) -> (rows: Vec<ItemInflation>)
    requires
        c < w.cities@.len(),
    ensures
        rows@.len() == w.items@.len(),
        forall|it: int| 0 <= it < w.items@.len()
            ==> spec_item_inflation_row_ok(
                #[trigger] rows@[it],
                it,
                spec_members_item_infl(w.shops@, w.cities@[c as int].shops@, it),
            ),
{
    let n = w.items.len();
    let mut rows: Vec<ItemInflation> = Vec::new();
    let mut it: usize = 0;
    while it < n
        invariant
            it <= n,
            n == w.items@.len(),
            c < w.cities@.len(),
            rows@.len() == it,
            forall|j: int| 0 <= j < it
                ==> spec_item_inflation_row_ok(
                    #[trigger] rows@[j],
                    j,
                    spec_members_item_infl(w.shops@, w.cities@[c as int].shops@, j),
                ),
        decreases n - it,
    {
        let s = members_item_infl_sums(&w.shops, &w.cities[c].shops, it);
        rows.push(ItemInflation {
            item: it,
            gain_bp: s.gain_bp,
            loss_bp: s.loss_bp,
            count: s.count,
        });
        it = it + 1;
    }
    rows
}

/// Inflation per catalog item over one state's cities, one row per item in
/// catalog order.
pub fn state_item_inflation(w: &World, s: usize) -> (rows: Vec<ItemInflation>)
    requires
        s < w.states@.len(),
    ensures
        rows@.len() == w.items@.len(),
        forall|it: int| 0 <= it < w.items@.len()
            ==> spec_item_inflation_row_ok(
                #[trigger] rows@[it],
                it,
                spec_cities_item_infl(w.shops@, w.cities@, w.states@[s as int].cities@, it),
            ),
{
    let n = w.items.len();
    let mut rows: Vec<ItemInflation> = Vec::new();
    let mut it: usize = 0;
    while it < n
        invariant
            it <= n,
            n == w.items@.len(),
            s < w.states@.len(),
            rows@.len() == it,
            forall|j: int| 0 <= j < it
                ==> spec_item_inflation_row_ok(
                    #[trigger] rows@[j],
                    j,
                    spec_cities_item_infl(
                        w.shops@,
                        w.cities@,
                        w.states@[s as int].cities@,
                        j,
                    ),
                ),
        decreases n - it,
    {
        let sums = cities_item_infl_sums(&w.shops, &w.cities, &w.states[s].cities, it);
        rows.push(ItemInflation {
            item: it,
            gain_bp: sums.gain_bp,
            loss_bp: sums.loss_bp,
            count: sums.count,
        });
        it = it + 1;
    }
    rows
}

/// Inflation per catalog item over one country's states, one row per item
/// in catalog order.
pub fn country_item_inflation(w: &World, c: usize) -> (rows: Vec<ItemInflation>)
    requires
        c < w.countries@.len(),
    ensures
        rows@.len() == w.items@.len(),
        forall|it: int| 0 <= it < w.items@.len()
            ==> spec_item_inflation_row_ok(
                #[trigger] rows@[it],
                it,
                spec_states_item_infl(
                    w.shops@,
                    w.cities@,
                    w.states@,
                    w.countries@[c as int].estates@,
                    it,
                ),
            ),
{
    let n = w.items.len();
    let mut rows: Vec<ItemInflation> = Vec::new();
    let mut it: usize = 0;
    while it < n
        invariant
            it <= n,
            n == w.items@.len(),
            c < w.countries@.len(),
            rows@.len() == it,
            forall|j: int| 0 <= j < it
                ==> spec_item_inflation_row_ok(
                    #[trigger] rows@[j],
                    j,
                    spec_states_item_infl(
                        w.shops@,
                        w.cities@,
                        w.states@,
                        w.countries@[c as int].estates@,
                        j,
                    ),
                ),
        decreases n - it,
    {
        let sums = states_item_infl_sums(
            &w.shops,
            &w.cities,
            &w.states,
            &w.countries[c].estates,
            it,
        );
        rows.push(ItemInflation {
            item: it,
            gain_bp: sums.gain_bp,
            loss_bp: sums.loss_bp,
            count: sums.count,
        });
        it = it + 1;
    }
    rows
}

} // verus!
