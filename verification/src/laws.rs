//! Laws of the engine that span several functions or several ticks,
//! stated and proved once so a reader does not have to derive them from
//! the individual contracts.

use vstd::prelude::*;

use crate::arith::{spec_sat_add, spec_sat_mul, spec_capped_add};
use crate::components::{ItemDetails, Person, PersonActions, PersonState};
use crate::config::{Config, COUNT_LIMIT};
use crate::market::{spec_buy_post, spec_sell_post};
use crate::processes::spec_planting_rel;
use crate::reasoning::spec_decide;
use crate::vitals::{spec_decayed, spec_hunger_next, spec_state_next, spec_vitals_stepped};

verus! {

/// A meter after a whole sequence of decay ticks.
pub open spec fn spec_decayed_all(m: u64, rate: u64, dts: Seq<u64>) -> u64
    decreases dts.len(),
{
    if dts.len() == 0 {
        m
    } else {
        spec_decayed(spec_decayed_all(m, rate, dts.drop_last()), rate, dts.last())
    }
}

/// The total simulated time of a sequence of tick deltas.
pub open spec fn spec_total_ms(dts: Seq<u64>) -> int
    decreases dts.len(),
{
    if dts.len() == 0 {
        0
    } else {
        spec_total_ms(dts.drop_last()) + dts.last()
    }
}

proof fn lemma_total_ms_nonneg(dts: Seq<u64>)
    ensures
        spec_total_ms(dts) >= 0,
    decreases dts.len(),
{
    if dts.len() > 0 {
        lemma_total_ms_nonneg(dts.drop_last());
    }
}

/// Two decay ticks lose exactly as much as one tick of their combined
/// length: the floor at zero commutes with splitting the time.
pub proof fn lemma_decay_additive(m: u64, rate: u64, d1: u64, d2: u64)
    requires
        d1 + d2 <= u64::MAX,
    ensures
        spec_decayed(spec_decayed(m, rate, d1), rate, d2)
            == spec_decayed(m, rate, (d1 + d2) as u64),
{
    assert(rate * ((d1 + d2) as u64) == rate * d1 + rate * d2) by (nonlinear_arith)
        requires
            d1 + d2 <= u64::MAX,
    ;
}

/// Without intervention, hunger after any sequence of ticks depends only on
/// the total elapsed time: starting from meter `m` it stands at
/// `max(0, m - rate * t)` where `t` is the summed tick time. In particular,
/// from a full meter it is `max(0, VITALS_MAX - rate * t)`.
pub proof fn lemma_hunger_decay_closed_form(m: u64, rate: u64, dts: Seq<u64>)
    requires
        spec_total_ms(dts) <= u64::MAX,
    ensures
        spec_decayed_all(m, rate, dts) == spec_decayed(m, rate, spec_total_ms(dts) as u64),
    decreases dts.len(),
{
    if dts.len() == 0 {
        assert(spec_decayed(m, rate, 0) == m);
    } else {
        lemma_total_ms_nonneg(dts.drop_last());
        lemma_hunger_decay_closed_form(m, rate, dts.drop_last());
        lemma_decay_additive(
            m,
            rate,
            spec_total_ms(dts.drop_last()) as u64,
            dts.last(),
        );
    }
}

/// An agent after a whole sequence of vitals ticks.
pub open spec fn spec_vitals_run(p: Person, cfg: Config, dts: Seq<u64>) -> Person
    decreases dts.len(),
{
    if dts.len() == 0 {
        p
    } else {
        spec_vitals_stepped(spec_vitals_run(p, cfg, dts.drop_last()), cfg, dts.last())
    }
}

/// Hunger under the vitals engine depends only on the total elapsed time:
/// across any sequence of ticks whose times sum to `t`, an uninterrupted
/// agent's hunger ends at `max(0, start - decay_rate * t)`, and its
/// classification follows that level against the threshold.
pub proof fn lemma_vitals_run_hunger(p: Person, cfg: Config, dts: Seq<u64>)
    requires
        spec_total_ms(dts) <= u64::MAX,
    ensures
        spec_vitals_run(p, cfg, dts).hunger == spec_decayed(
            p.hunger,
            cfg.hunger_decay_rate,
            spec_total_ms(dts) as u64,
        ),
        dts.len() > 0 ==> ((spec_vitals_run(p, cfg, dts).state is Hungry)
            <==> spec_vitals_run(p, cfg, dts).hunger < cfg.hungry_threshold),
    decreases dts.len(),
{
    if dts.len() == 0 {
        assert(spec_decayed(p.hunger, cfg.hunger_decay_rate, 0) == p.hunger);
    } else {
        lemma_total_ms_nonneg(dts.drop_last());
        lemma_vitals_run_hunger(p, cfg, dts.drop_last());
        lemma_decay_additive(
            p.hunger,
            cfg.hunger_decay_rate,
            spec_total_ms(dts.drop_last()) as u64,
            dts.last(),
        );
    }
}

/// The classification is derived from the hunger level alone: after a
/// vitals tick the agent is Hungry exactly when its new hunger is below the
/// configured threshold.
pub proof fn lemma_classification_threshold(p: Person, cfg: Config, dt: u64)
    ensures
        (spec_state_next(p, cfg, dt) is Hungry)
            <==> spec_hunger_next(p, cfg, dt) < cfg.hungry_threshold,
        (spec_state_next(p, cfg, dt) is Healthy)
            <==> spec_hunger_next(p, cfg, dt) >= cfg.hungry_threshold,
{
}

/// The probabilistic planting rule is the last of the reasoning rules to
/// match, so it overrides a hungry holder's decision to eat: an agent that
/// entered the tick Idle and Hungry, holding stock, with gold above the
/// threshold, plants exactly on rolls below the chance and eats on every
/// other roll.
pub proof fn lemma_planting_chance_overrides_eating(
    held: u64,
    gold: u64,
    gold_threshold: u64,
    chance_pct: u64,
    roll: u64,
)
    requires
        held > 0,
        gold > gold_threshold,
    ensures
        spec_decide(
            PersonState::Hungry,
            PersonActions::Idle,
            held,
            gold,
            gold_threshold,
            chance_pct,
            roll,
        ) == if roll < chance_pct {
            PersonActions::Planting
        } else {
            PersonActions::Eating
        },
{
}

/// Completing a planting grants exactly the configured yield of the
/// commodity, returns the agent to Idle, and clears the timer; nothing
/// else about the agent moves.
pub proof fn lemma_planting_completion(pre: Person, post: Person, cfg: Config, c: int, dt: u64)
    requires
        spec_planting_rel(pre, post, cfg, c, dt),
        pre.action is Planting,
        pre.planting_time + dt >= cfg.planting_duration_ms,
        pre.inventory.count(c) + cfg.planting_yield <= u64::MAX,
    ensures
        post.inventory.count(c) == pre.inventory.count(c) + cfg.planting_yield,
        post.planting_time == 0,
        post.action is Idle,
        post.gold == pre.gold,
        post.hunger == pre.hunger,
        post.health == pre.health,
        post.energy == pre.energy,
{
}

/// A tick spent on any other action resets the dwell timer and grants
/// nothing: no partial planting credit survives an interruption.
pub proof fn lemma_planting_interruption(pre: Person, post: Person, cfg: Config, c: int, dt: u64)
    requires
        spec_planting_rel(pre, post, cfg, c, dt),
        !(pre.action is Planting),
    ensures
        post.planting_time == 0,
        post.inventory == pre.inventory,
        post.action == pre.action,
        post.gold == pre.gold,
{
}

/// Uninterrupted planting accumulates dwell time tick by tick, and the
/// grant fires exactly on the tick where the accumulated time reaches the
/// configured duration.
pub proof fn lemma_planting_accumulates(
    pre: Person,
    mid: Person,
    post: Person,
    cfg: Config,
    c: int,
    d1: u64,
    d2: u64,
)
    requires
        spec_planting_rel(pre, mid, cfg, c, d1),
        spec_planting_rel(mid, post, cfg, c, d2),
        pre.action is Planting,
        pre.planting_time + d1 < cfg.planting_duration_ms,
    ensures
        mid.action is Planting,
        mid.planting_time == pre.planting_time + d1,
        pre.planting_time + d1 + d2 >= cfg.planting_duration_ms ==> {
            &&& post.inventory.count(c) == spec_sat_add(
                pre.inventory.count(c),
                cfg.planting_yield,
            )
            &&& post.planting_time == 0
            &&& post.action is Idle
        },
        pre.planting_time + d1 + d2 < cfg.planting_duration_ms ==> {
            &&& post.action is Planting
            &&& post.planting_time == pre.planting_time + d1 + d2
        },
{
}

/// Selling is all-or-nothing: within machine bounds, a resolution of `k`
/// held units against a quote of `price` ends with zero held units, the
/// gold grown by exactly `k * price`, and the action cleared.
pub proof fn lemma_selling_all_or_nothing(pre: Person, post: Person, price: u64, c: int)
    requires
        spec_sell_post(pre, post, price, c),
        pre.gold + price * pre.inventory.count(c) <= u64::MAX,
    ensures
        post.inventory.count(c) == 0,
        post.gold == pre.gold + price * pre.inventory.count(c),
        post.action is Idle,
{
    assert(spec_sat_mul(price, pre.inventory.count(c))
        == price * pre.inventory.count(c));
    assert(spec_sat_add(pre.gold, spec_sat_mul(price, pre.inventory.count(c)))
        == pre.gold + price * pre.inventory.count(c));
}

/// The shop side of a sale moves exactly the sold quantity: within machine
/// bounds, stock and the sales counter both grow by `k`.
pub proof fn lemma_sale_counters_exact(d: ItemDetails, d2: ItemDetails, k: u64)
    requires
        d2.stock == spec_sat_add(d.stock, k),
        d2.sales == spec_capped_add(d.sales, k, COUNT_LIMIT),
        d.stock + k <= u64::MAX,
        d.sales + k <= COUNT_LIMIT,
    ensures
        d2.stock == d.stock + k,
        d2.sales == d.sales + k,
{
}

/// An executed buy moves exactly one unit and its price: the agent gains
/// one unit and pays the quote, and within machine bounds the shop's
/// purchase counter grows by one.
pub proof fn lemma_buying_exact(pre: Person, post: Person, d: ItemDetails, d2: ItemDetails, c: int)
    requires
        spec_buy_post(pre, post, d.price, c),
        d2.purchases == spec_capped_add(d.purchases, 1, COUNT_LIMIT),
        pre.inventory.count(c) + 1 <= u64::MAX,
        d.purchases + 1 <= COUNT_LIMIT,
    ensures
        post.inventory.count(c) == pre.inventory.count(c) + 1,
        post.gold == pre.gold - d.price,
        post.action is Idle,
        d2.purchases == d.purchases + 1,
{
}

} // verus!
