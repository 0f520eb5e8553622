//! The reasoning policy: the action state machine's only source of
//! transitions out of Idle.
//!
//! Five rules are evaluated independently each tick, in a fixed order:
//! every rule's condition reads the state the agent entered the tick with,
//! assignments overwrite, and the last matching rule wins. Every rule
//! requires the agent to have entered the tick Idle; the first four have
//! pairwise disjoint conditions, so the order is only observable at the
//! final rule: a well-off agent holding stock plants with a small chance,
//! decided by a uniform roll in 0..100, and that chance overrides even a
//! hungry holder's decision to eat.

use vstd::prelude::*;

use crate::components::{Person, PersonActions, PersonState, Resident};
use crate::config::Config;
use crate::rng::rand_below;

verus! {

/// The next action of a live agent, given its classification, current
/// action, held units of the commodity, gold, the configured gold threshold
/// and planting chance, and the tick's random roll.
pub open spec fn spec_decide(
    state: PersonState,
    action: PersonActions,
    held: u64,
    gold: u64,
    gold_threshold: u64,
    chance_pct: u64,
    roll: u64,
) -> PersonActions {
    let a1 = if state is Healthy && action is Idle && held > 0 && gold < gold_threshold {
        PersonActions::Selling
    } else {
        action
    };
    let a2 = if action is Idle && state is Hungry && held > 0 {
        PersonActions::Eating
    } else {
        a1
    };
    let a3 = if action is Idle && state is Hungry && held == 0 && gold > gold_threshold {
        PersonActions::Buying
    } else {
        a2
    };
    let a4 = if gold < gold_threshold && held == 0 && action is Idle {
        PersonActions::Planting
    } else {
        a3
    };
    if gold > gold_threshold && action is Idle && held > 0 && roll < chance_pct {
        PersonActions::Planting
    } else {
        a4
    }
}

/// A resident after the reasoning policy ran on its agent with `roll`.
pub open spec fn spec_reasoned(r: Resident, cfg: Config, commodity: int, roll: u64) -> Resident {
    Resident {
        person: Person {
            action: spec_decide(
                r.person.state,
                r.person.action,
                r.person.inventory.count(commodity),
                r.person.gold,
                cfg.gold_threshold,
                cfg.planting_chance_pct,
                roll,
            ),
            ..r.person
        },
        ..r
    }
}

/// The pure decision function behind the reasoning policy.
pub fn decide_action(
    state: PersonState,
    action: PersonActions,
    held: u64,
    gold: u64,
    cfg: &Config,
    roll: u64,
) -> (next: PersonActions)
    ensures
        next == spec_decide(
            state,
            action,
            held,
            gold,
            cfg.gold_threshold,
            cfg.planting_chance_pct,
            roll,
        ),
{
    let mut a = action;

    // A healthy idle agent sells surplus when short on gold.
    if state == PersonState::Healthy && action == PersonActions::Idle && held > 0
        && gold < cfg.gold_threshold {
        a = PersonActions::Selling;
    }
    // A hungry idle agent with stock eats.
    if action == PersonActions::Idle && state == PersonState::Hungry && held > 0 {
        a = PersonActions::Eating;
    }
    // A hungry idle agent without stock buys if it can afford to.
    if action == PersonActions::Idle && state == PersonState::Hungry && held == 0
        && gold > cfg.gold_threshold {
        a = PersonActions::Buying;
    }
    // A poor idle agent without stock plants.
    if gold < cfg.gold_threshold && held == 0 && action == PersonActions::Idle {
        a = PersonActions::Planting;
    }
    // A well-off agent that entered the tick idle and holds stock plants
    // with a small chance, overriding whatever an earlier rule decided.
    if gold > cfg.gold_threshold && action == PersonActions::Idle && held > 0
        && roll < cfg.planting_chance_pct {
        a = PersonActions::Planting;
    }
    a
}

/// One reasoning pass over an arena: every present, live agent's action is
/// replaced by the policy's decision for some roll below 100; nothing else
/// changes.
pub open spec fn spec_reasoning_pass(
    pre: Seq<Resident>,
    post: Seq<Resident>,
    cfg: Config,
    c: int,
) -> bool {
    &&& post.len() == pre.len()
    &&& forall|i: int| 0 <= i < pre.len()
        ==> if pre[i].present && pre[i].alive.0 {
            exists|roll: u64| roll < 100
                && post[i] == #[trigger] spec_reasoned(pre[i], cfg, c, roll)
        } else {
            post[i] == pre[i]
        }
}

/// One tick of the reasoning policy over every present, live agent: each
/// gets an independent uniform roll in 0..100 and its action is replaced by
/// the policy's decision; nothing else changes.
pub fn reasoning_system(rs: &mut Vec<Resident>, cfg: &Config, commodity: usize)
    ensures
        spec_reasoning_pass(old(rs)@, final(rs)@, *cfg, commodity as int),
{
    let n = rs.len();
    let mut i: usize = 0;
    while i < n
        invariant
            i <= n,
            n == rs@.len(),
            n == old(rs)@.len(),
            forall|j: int| i <= j < n ==> #[trigger] rs@[j] == old(rs)@[j],
            forall|j: int| 0 <= j < i
                ==> if old(rs)@[j].present && old(rs)@[j].alive.0 {
                    exists|roll: u64| roll < 100
                        && rs@[j]
                            == #[trigger] spec_reasoned(old(rs)@[j], *cfg, commodity as int, roll)
                } else {
                    rs@[j] == old(rs)@[j]
                },
        decreases n - i,
    {
        if rs[i].present && rs[i].alive.0 {
            let ghost prev = rs@[i as int];
            let roll = rand_below(100);
            let state = rs[i].person.state;
            let action = rs[i].person.action;
            let gold = rs[i].person.gold;
            let held = rs[i].person.inventory.get(commodity);
            let next = decide_action(state, action, held, gold, cfg, roll);
            rs[i].person.action = next;
            proof {
                assert(rs@[i as int] == spec_reasoned(prev, *cfg, commodity as int, roll));
                assert(exists|ro: u64| ro < 100
                    && rs@[i as int]
                        == #[trigger] spec_reasoned(prev, *cfg, commodity as int, ro));
            }
        }
        i = i + 1;
    }
}

} // verus!
