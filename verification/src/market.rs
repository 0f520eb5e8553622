//! The market interaction engine.
//!
//! Buying and Selling agents are resolved against a shop drawn uniformly at
//! random from the whole world. A buy moves one unit and its price
//! atomically between agent and shop and always clears the action, even
//! when the trade is skipped for lack of gold or stock. A sell is
//! all-or-nothing: the agent's whole held quantity is exchanged at the
//! shop's quoted price, and the action clears only when something was held.

use vstd::prelude::*;

use crate::arith::{capped_add, sat_add, sat_mul, spec_capped_add, spec_sat_add, spec_sat_mul};
use crate::components::{ItemDetails, Person, PersonActions, Resident, Shop, ShopItem};
use crate::config::COUNT_LIMIT;
use crate::rng::rand_below;

verus! {

/// Fields of an agent the market never touches.
pub open spec fn spec_same_nonmarket(pre: Person, post: Person) -> bool {
    &&& post.name == pre.name
    &&& post.health == pre.health
    &&& post.hunger == pre.hunger
    &&& post.energy == pre.energy
    &&& post.state == pre.state
    &&& post.position == pre.position
    &&& post.planting_time == pre.planting_time
}

/// An agent after an executed buy at unit price `price`: one unit gained,
/// the price paid, back to Idle.
pub open spec fn spec_buy_post(pre: Person, post: Person, price: u64, c: int) -> bool {
    &&& pre.gold >= price
    &&& post.gold == pre.gold - price
    &&& post.inventory.count(c) == spec_sat_add(pre.inventory.count(c), 1)
    &&& forall|k: int| k != c ==> post.inventory.count(k) == pre.inventory.count(k)
    &&& post.action is Idle
    &&& spec_same_nonmarket(pre, post)
}

/// An agent after an executed all-or-nothing sell at unit price `price`:
/// the whole held quantity traded for gold, back to Idle.
pub open spec fn spec_sell_post(pre: Person, post: Person, price: u64, c: int) -> bool {
    &&& pre.inventory.count(c) > 0
    &&& post.inventory.count(c) == 0
    &&& forall|k: int| k != c ==> post.inventory.count(k) == pre.inventory.count(k)
    &&& post.gold == spec_sat_add(
        pre.gold,
        spec_sat_mul(price, pre.inventory.count(c)),
    )
    &&& post.action is Idle
    &&& spec_same_nonmarket(pre, post)
}

/// An agent whose held quantity was cleared against a shop that has no
/// record of the commodity: the units are surrendered without credit.
pub open spec fn spec_sell_zeroed(pre: Person, post: Person, c: int) -> bool {
    &&& pre.inventory.count(c) > 0
    &&& post.inventory.count(c) == 0
    &&& forall|k: int| k != c ==> post.inventory.count(k) == pre.inventory.count(k)
    &&& post.gold == pre.gold
    &&& post.action is Idle
    &&& spec_same_nonmarket(pre, post)
}

/// Every way one market resolution may transform an agent, over all shop
/// draws: a Buying agent either meets a shop without the commodity (and is
/// untouched), executes a buy at some quoted price, or has the trade
/// skipped with the action still cleared; a Selling agent is untouched when
/// holding nothing, and otherwise surrenders everything with or without
/// credit; agents doing neither are untouched.
pub open spec fn spec_market_person(pre: Person, post: Person, c: int) -> bool {
    if pre.action is Buying {
        ||| post == pre
        ||| exists|price: u64| #[trigger] spec_buy_post(pre, post, price, c)
        ||| post == (Person { action: PersonActions::Idle, ..pre })
    } else if pre.action is Selling {
        ||| post == pre
        ||| spec_sell_zeroed(pre, post, c)
        ||| exists|price: u64| #[trigger] spec_sell_post(pre, post, price, c)
    } else {
        post == pre
    }
}

/// Whether a shop has a record for the commodity.
pub open spec fn spec_shop_stocks(sh: Shop, c: int) -> bool {
    exists|e: int| 0 <= e < sh.items@.len() && (#[trigger] sh.items@[e]).item == c
}

/// Whether every shop in the world has a record for the commodity.
pub open spec fn spec_all_shops_stock(shops: Seq<Shop>, c: int) -> bool {
    forall|s: int| 0 <= s < shops.len() ==> spec_shop_stocks(#[trigger] shops[s], c)
}

/// The market relation lifted to an arena slot.
pub open spec fn spec_market_slot(pre: Resident, post: Resident, c: int) -> bool {
    if pre.present && pre.alive.0 {
        &&& spec_market_person(pre.person, post.person, c)
        &&& post.alive == pre.alive
        &&& post.present
    } else {
        post == pre
    }
}

/// What the market may do to a shop: positions, item identities, histories
/// and prices are untouched; only the commodity's stock and counters move,
/// and the counters only grow.
pub open spec fn spec_market_shop(pre: Shop, post: Shop, c: int) -> bool {
    &&& post.position == pre.position
    &&& post.items@.len() == pre.items@.len()
    &&& forall|e: int| 0 <= e < pre.items@.len() ==> {
        &&& (#[trigger] post.items@[e]).item == pre.items@[e].item
        &&& post.items@[e].history == pre.items@[e].history
        &&& post.items@[e].details.price == pre.items@[e].details.price
        &&& post.items@[e].details.sales >= pre.items@[e].details.sales
        &&& post.items@[e].details.purchases >= pre.items@[e].details.purchases
        &&& (pre.items@[e].item != c ==> post.items@[e].details == pre.items@[e].details)
    }
}

/// Two market resolutions in sequence still only move the commodity's
/// stock and counters.
proof fn lemma_market_shop_trans(a: Shop, b: Shop, z: Shop, c: int)
    requires
        spec_market_shop(a, b, c),
        spec_market_shop(b, z, c),
    ensures
        spec_market_shop(a, z, c),
{
    assert forall|e: int| 0 <= e < a.items@.len() implies {
        &&& (#[trigger] z.items@[e]).item == a.items@[e].item
        &&& z.items@[e].history == a.items@[e].history
        &&& z.items@[e].details.price == a.items@[e].details.price
        &&& z.items@[e].details.sales >= a.items@[e].details.sales
        &&& z.items@[e].details.purchases >= a.items@[e].details.purchases
        &&& (a.items@[e].item != c ==> z.items@[e].details == a.items@[e].details)
    } by {
        assert((b.items@[e]).item == a.items@[e].item);
        assert((z.items@[e]).item == b.items@[e].item);
    }
}

/// `e` is the index of the shop's first record for the commodity.
pub open spec fn spec_shop_entry_first(sh: Shop, c: int, e: int) -> bool {
    &&& 0 <= e < sh.items@.len()
    &&& sh.items@[e].item == c
    &&& forall|j: int| 0 <= j < e ==> sh.items@[j].item != c
}

/// The shop after one resolution touched only record `e`, leaving its
/// identity and history alone and setting its market state to `d2`.
pub open spec fn spec_shop_updated(sh: Shop, sh2: Shop, e: int, d2: ItemDetails) -> bool {
    &&& 0 <= e < sh.items@.len()
    &&& sh2.position == sh.position
    &&& sh2.items@.len() == sh.items@.len()
    &&& sh2.items@[e].item == sh.items@[e].item
    &&& sh2.items@[e].history == sh.items@[e].history
    &&& sh2.items@[e].details == d2
    &&& forall|j: int| 0 <= j < sh.items@.len() && j != e
        ==> sh2.items@[j] == sh.items@[j]
}

/// Exactly how one resolution changes the agent and its drawn shop
/// together: an agent doing neither Buying nor Selling moves nothing; a
/// shop without a record of the commodity is untouched (a holding Seller
/// still surrenders its units); otherwise the trade runs against the
/// shop's first record for the commodity, and only that record's market
/// state moves, by exactly the traded units.
pub open spec fn spec_resolution(p: Person, p2: Person, sh: Shop, sh2: Shop, c: int) -> bool {
    if !(p.action is Buying || p.action is Selling) {
        &&& p2 == p
        &&& sh2 == sh
    } else if !spec_shop_stocks(sh, c) {
        &&& sh2 == sh
        &&& if p.action is Selling && p.inventory.count(c) > 0 {
            spec_sell_zeroed(p, p2, c)
        } else {
            p2 == p
        }
    } else {
        exists|e: int| #[trigger] spec_shop_entry_first(sh, c, e) && {
            let d = sh.items@[e].details;
            if p.action is Buying {
                if p.gold >= d.price && d.stock > 0 {
                    &&& spec_buy_post(p, p2, d.price, c)
                    &&& spec_shop_updated(
                        sh,
                        sh2,
                        e,
                        ItemDetails {
                            price: d.price,
                            stock: (d.stock - 1) as u64,
                            sales: d.sales,
                            purchases: spec_capped_add(d.purchases, 1, COUNT_LIMIT),
                        },
                    )
                } else {
                    &&& p2 == (Person { action: PersonActions::Idle, ..p })
                    &&& spec_shop_updated(sh, sh2, e, d)
                }
            } else {
                let k = p.inventory.count(c);
                if k > 0 {
                    &&& spec_sell_post(p, p2, d.price, c)
                    &&& spec_shop_updated(
                        sh,
                        sh2,
                        e,
                        ItemDetails {
                            price: d.price,
                            stock: spec_sat_add(d.stock, k),
                            sales: spec_capped_add(d.sales, k, COUNT_LIMIT),
                            purchases: d.purchases,
                        },
                    )
                } else {
                    &&& p2 == p
                    &&& spec_shop_updated(sh, sh2, e, d)
                }
            }
        }
    }
}

/// One step of the market pass: agent `i` is resolved against exactly one
/// drawn shop, every other agent and every other shop is untouched, and a
/// dead or retired slot, or one doing neither Buying nor Selling, resolves
/// nothing and leaves every shop as it is.
pub open spec fn spec_market_step(
    rs1: Seq<Resident>,
    shops1: Seq<Shop>,
    rs2: Seq<Resident>,
    shops2: Seq<Shop>,
    c: int,
    i: int,
) -> bool {
    &&& 0 <= i < rs1.len()
    &&& rs2.len() == rs1.len()
    &&& shops2.len() == shops1.len()
    &&& forall|j: int| 0 <= j < rs1.len() && j != i ==> rs2[j] == rs1[j]
    &&& if rs1[i].present && rs1[i].alive.0
        && (rs1[i].person.action is Buying || rs1[i].person.action is Selling) {
        &&& rs2[i].alive == rs1[i].alive
        &&& rs2[i].present
        &&& exists|idx: int|
            #![trigger spec_resolution(rs1[i].person, rs2[i].person, shops1[idx], shops2[idx], c)]
            {
            &&& 0 <= idx < shops1.len()
            &&& spec_resolution(rs1[i].person, rs2[i].person, shops1[idx], shops2[idx], c)
            &&& forall|t: int| 0 <= t < shops1.len() && t != idx ==> shops2[t] == shops1[t]
        }
    } else {
        &&& rs2[i] == rs1[i]
        &&& shops2 == shops1
    }
}

/// The first `n` agents resolved in slot order, one market step each.
pub open spec fn spec_market_pass(
    pre_rs: Seq<Resident>,
    pre_shops: Seq<Shop>,
    post_rs: Seq<Resident>,
    post_shops: Seq<Shop>,
    c: int,
    n: int,
) -> bool
    decreases n,
{
    if n <= 0 {
        post_rs == pre_rs && post_shops == pre_shops
    } else {
        exists|mid_rs: Seq<Resident>, mid_shops: Seq<Shop>|
            #![trigger spec_market_step(mid_rs, mid_shops, post_rs, post_shops, c, n - 1)]
            {
            &&& spec_market_pass(pre_rs, pre_shops, mid_rs, mid_shops, c, n - 1)
            &&& spec_market_step(mid_rs, mid_shops, post_rs, post_shops, c, n - 1)
        }
    }
}

/// The whole market pass: with no shops nothing moves; otherwise every
/// agent is resolved once, in slot order.
pub open spec fn spec_market_sys(
    pre_rs: Seq<Resident>,
    pre_shops: Seq<Shop>,
    post_rs: Seq<Resident>,
    post_shops: Seq<Shop>,
    c: int,
) -> bool {
    if pre_shops.len() == 0 {
        post_rs == pre_rs && post_shops == pre_shops
    } else {
        spec_market_pass(pre_rs, pre_shops, post_rs, post_shops, c, pre_rs.len() as int)
    }
}

/// Extending a market pass by one more resolved agent.
proof fn lemma_market_pass_snoc(
    pre_rs: Seq<Resident>,
    pre_shops: Seq<Shop>,
    mid_rs: Seq<Resident>,
    mid_shops: Seq<Shop>,
    post_rs: Seq<Resident>,
    post_shops: Seq<Shop>,
    c: int,
    m: int,
)
    requires
        m >= 1,
        spec_market_pass(pre_rs, pre_shops, mid_rs, mid_shops, c, m - 1),
        spec_market_step(mid_rs, mid_shops, post_rs, post_shops, c, m - 1),
    ensures
        spec_market_pass(pre_rs, pre_shops, post_rs, post_shops, c, m),
{
}

/// Whether any slot holds a present, live agent about to trade.
pub open spec fn spec_has_trader(rs: Seq<Resident>) -> bool {
    exists|i: int| 0 <= i < rs.len() && (#[trigger] rs[i]).present && rs[i].alive.0
        && (rs[i].person.action is Buying || rs[i].person.action is Selling)
}

/// Resolves a Buying agent against a shop's commodity record: with enough
/// gold and positive stock, one unit and its price change hands and the
/// purchase counter advances; otherwise nothing moves. The action clears
/// either way.
pub fn resolve_buy(p: &mut Person, d: &mut ItemDetails, commodity: usize)
    ensures
        final(p).action is Idle,
        old(p).gold >= old(d).price && old(d).stock > 0 ==> {
            &&& spec_buy_post(*old(p), *final(p), old(d).price, commodity as int)
            &&& final(d).stock == old(d).stock - 1
            &&& final(d).purchases == spec_capped_add(old(d).purchases, 1, COUNT_LIMIT)
            &&& final(d).price == old(d).price
            &&& final(d).sales == old(d).sales
        },
        !(old(p).gold >= old(d).price && old(d).stock > 0) ==> {
            &&& *final(d) == *old(d)
            &&& *final(p) == (Person { action: PersonActions::Idle, ..*old(p) })
        },
{
    if p.gold >= d.price && d.stock > 0 {
        d.stock = d.stock - 1;
        p.gold = p.gold - d.price;
        p.inventory.add(commodity, 1);
        d.purchases = capped_add(d.purchases, 1, COUNT_LIMIT);
    }
    p.action = PersonActions::Idle;
}

/// Resolves a Selling agent against a shop's commodity record: the whole
/// held quantity is credited at the quoted price, stock and the sales
/// counter grow by it, and the action clears; holding nothing is a no-op.
pub fn resolve_sell(p: &mut Person, d: &mut ItemDetails, commodity: usize)
    ensures
        old(p).inventory.count(commodity as int) > 0 ==> {
            &&& spec_sell_post(*old(p), *final(p), old(d).price, commodity as int)
            &&& final(d).stock == spec_sat_add(
                old(d).stock,
                old(p).inventory.count(commodity as int),
            )
            &&& final(d).sales == spec_capped_add(
                old(d).sales,
                old(p).inventory.count(commodity as int),
                COUNT_LIMIT,
            )
            &&& final(d).price == old(d).price
            &&& final(d).purchases == old(d).purchases
        },
        old(p).inventory.count(commodity as int) == 0 ==> {
            &&& *final(p) == *old(p)
            &&& *final(d) == *old(d)
        },
{
    let held = p.inventory.get(commodity);
    if held > 0 {
        let taken = p.inventory.take_all(commodity);
        p.gold = sat_add(p.gold, sat_mul(d.price, taken));
        d.stock = sat_add(d.stock, taken);
        d.sales = capped_add(d.sales, taken, COUNT_LIMIT);
        p.action = PersonActions::Idle;
    }
}

/// One market pass: every present, live Buying or Selling agent is resolved
/// against a uniformly drawn shop; with no shops in the world nothing
/// happens. Shops keep their positions, item identities, prices and
/// histories; well-formedness is preserved on both sides.
pub fn shop_interaction_system(rs: &mut Vec<Resident>, shops: &mut Vec<Shop>, commodity: usize)
    requires
        forall|s: int| 0 <= s < old(shops)@.len() ==> (#[trigger] old(shops)@[s]).wf(),
    ensures
        final(rs)@.len() == old(rs)@.len(),
        final(shops)@.len() == old(shops)@.len(),
        forall|i: int| 0 <= i < old(rs)@.len()
            ==> #[trigger] spec_market_slot(old(rs)@[i], final(rs)@[i], commodity as int),
        forall|s: int| 0 <= s < old(shops)@.len()
            ==> #[trigger] spec_market_shop(old(shops)@[s], final(shops)@[s], commodity as int),
        forall|s: int| 0 <= s < final(shops)@.len() ==> (#[trigger] final(shops)@[s]).wf(),
        // When every shop stocks the commodity, resolution is owed: a live
        // Buying agent always ends Idle, and a live Selling agent holding
        // anything is always credited at some quoted price.
        old(shops)@.len() > 0 && spec_all_shops_stock(old(shops)@, commodity as int)
            ==> forall|i: int| 0 <= i < old(rs)@.len()
                && old(rs)@[i].present && old(rs)@[i].alive.0 ==> {
            &&& (old(rs)@[i].person.action is Buying
                ==> (#[trigger] final(rs)@[i]).person.action is Idle)
            &&& (old(rs)@[i].person.action is Selling
                && old(rs)@[i].person.inventory.count(commodity as int) > 0
                ==> exists|price: u64| #[trigger] spec_sell_post(
                    old(rs)@[i].person,
                    final(rs)@[i].person,
                    price,
                    commodity as int,
                ))
        },
        // With nobody about to trade, nothing in the world moves.
        !spec_has_trader(old(rs)@)
            ==> final(rs)@ == old(rs)@ && final(shops)@ == old(shops)@,
        // The pass is a chain of single resolutions, one per agent in slot
        // order, each touching at most the one drawn shop.
        spec_market_sys(
            old(rs)@,
            old(shops)@,
            final(rs)@,
            final(shops)@,
            commodity as int,
        ),
{
    let shop_count = shops.len();
    if shop_count == 0 {
        return;
    }
    let n = rs.len();
    let mut i: usize = 0;
    while i < n
        invariant
            i <= n,
            n == rs@.len(),
            n == old(rs)@.len(),
            shop_count == shops@.len(),
            shop_count == old(shops)@.len(),
            shop_count > 0,
            forall|j: int| i <= j < n ==> #[trigger] rs@[j] == old(rs)@[j],
            forall|j: int| 0 <= j < i
                ==> #[trigger] spec_market_slot(old(rs)@[j], rs@[j], commodity as int),
            forall|s: int| 0 <= s < shop_count
                ==> #[trigger] spec_market_shop(old(shops)@[s], shops@[s], commodity as int),
            forall|s: int| 0 <= s < shop_count ==> (#[trigger] shops@[s]).wf(),
            spec_all_shops_stock(old(shops)@, commodity as int)
                ==> forall|j: int| 0 <= j < i
                    && old(rs)@[j].present && old(rs)@[j].alive.0 ==> {
                &&& (old(rs)@[j].person.action is Buying
                    ==> (#[trigger] rs@[j]).person.action is Idle)
                &&& (old(rs)@[j].person.action is Selling
                    && old(rs)@[j].person.inventory.count(commodity as int) > 0
                    ==> exists|price: u64| #[trigger] spec_sell_post(
                        old(rs)@[j].person,
                        rs@[j].person,
                        price,
                        commodity as int,
                    ))
            },
            !spec_has_trader(old(rs)@) ==> rs@ == old(rs)@ && shops@ == old(shops)@,
            spec_market_pass(old(rs)@, old(shops)@, rs@, shops@, commodity as int, i as int),
        decreases n - i,
    {
        let ghost top_rs = rs@;
        let ghost top_shops = shops@;
        let is_buying = matches!(rs[i].person.action, PersonActions::Buying);
        let is_selling = matches!(rs[i].person.action, PersonActions::Selling);
        if rs[i].present && rs[i].alive.0 && (is_buying || is_selling) {
            let ghost prev_r = rs@[i as int];
            let idx = rand_below(shop_count as u64) as usize;
            let ghost prev_shop = shops@[idx as int];
            let found = shops[idx].find_item(commodity);
            match found {
                Some(e) => {
                    let ghost prev_entry = shops@[idx as int].items@[e as int];
                    let r = &mut rs[i];
                    let sh = &mut shops[idx];
                    let en = &mut sh.items[e];
                    if is_buying {
                        resolve_buy(&mut r.person, &mut en.details, commodity);
                    } else {
                        resolve_sell(&mut r.person, &mut en.details, commodity);
                    }
                    proof {
                        assert(shops@[idx as int].items@
                            =~= prev_shop.items@.update(
                                e as int,
                                ShopItem {
                                    details: shops@[idx as int].items@[e as int].details,
                                    ..prev_entry
                                },
                            ));
                        assert(spec_market_shop(
                            prev_shop,
                            shops@[idx as int],
                            commodity as int,
                        ));
                        lemma_market_shop_trans(
                            old(shops)@[idx as int],
                            prev_shop,
                            shops@[idx as int],
                            commodity as int,
                        );
                        assert(shops@[idx as int].wf());
                        if prev_r.person.action is Buying {
                            if prev_r.person.gold >= prev_entry.details.price
                                && prev_entry.details.stock > 0 {
                                assert(spec_buy_post(
                                    prev_r.person,
                                    rs@[i as int].person,
                                    prev_entry.details.price,
                                    commodity as int,
                                ));
                            }
                        } else {
                            if prev_r.person.inventory.count(commodity as int) > 0 {
                                assert(spec_sell_post(
                                    prev_r.person,
                                    rs@[i as int].person,
                                    prev_entry.details.price,
                                    commodity as int,
                                ));
                            }
                        }
                        assert(spec_market_slot(prev_r, rs@[i as int], commodity as int));
                        assert(spec_has_trader(old(rs)@));
                        assert(spec_shop_entry_first(prev_shop, commodity as int, e as int));
                        assert(spec_shop_updated(
                            prev_shop,
                            shops@[idx as int],
                            e as int,
                            shops@[idx as int].items@[e as int].details,
                        ));
                        assert(spec_resolution(
                            prev_r.person,
                            rs@[i as int].person,
                            prev_shop,
                            shops@[idx as int],
                            commodity as int,
                        ));
                        assert(spec_market_step(
                            top_rs,
                            top_shops,
                            rs@,
                            shops@,
                            commodity as int,
                            i as int,
                        ));
                    }
                },
                None => {
                    proof {
                        if spec_all_shops_stock(old(shops)@, commodity as int) {
                            assert(spec_market_shop(
                                old(shops)@[idx as int],
                                shops@[idx as int],
                                commodity as int,
                            ));
                            assert(spec_shop_stocks(old(shops)@[idx as int], commodity as int));
                            let e = choose|e: int| 0 <= e
                                < old(shops)@[idx as int].items@.len()
                                && (#[trigger] old(shops)@[idx as int].items@[e]).item
                                    == commodity as int;
                            assert(shops@[idx as int].items@[e].item == commodity as int);
                            assert(false);
                        }
                    }
                    if is_selling {
                        let r = &mut rs[i];
                        let held = r.person.inventory.get(commodity);
                        if held > 0 {
                            r.person.inventory.take_all(commodity);
                            r.person.action = PersonActions::Idle;
                            proof {
                                assert(spec_sell_zeroed(
                                    prev_r.person,
                                    rs@[i as int].person,
                                    commodity as int,
                                ));
                            }
                        }
                    }
                    proof {
                        assert(spec_market_slot(prev_r, rs@[i as int], commodity as int));
                        assert(spec_has_trader(old(rs)@));
                        assert(!spec_shop_stocks(prev_shop, commodity as int));
                        assert(spec_resolution(
                            prev_r.person,
                            rs@[i as int].person,
                            prev_shop,
                            shops@[idx as int],
                            commodity as int,
                        ));
                        assert(spec_market_step(
                            top_rs,
                            top_shops,
                            rs@,
                            shops@,
                            commodity as int,
                            i as int,
                        ));
                    }
                },
            }
        } else {
            proof {
                assert(spec_market_step(
                    top_rs,
                    top_shops,
                    rs@,
                    shops@,
                    commodity as int,
                    i as int,
                ));
            }
        }
        proof {
            lemma_market_pass_snoc(
                old(rs)@,
                old(shops)@,
                top_rs,
                top_shops,
                rs@,
                shops@,
                commodity as int,
                i as int + 1,
            );
        }
        i = i + 1;
    }
}

} // verus!
