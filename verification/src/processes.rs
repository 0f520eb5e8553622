//! The planting and feeding processes.
//!
//! Planting accumulates dwell time while the action stays Planting and, at
//! the configured duration, mints a fixed yield of the commodity and
//! returns the agent to Idle; any tick spent on another action resets the
//! timer, so no partial credit survives an interruption. Feeding consumes
//! one held unit and restores hunger by the item's nutritional value.

use vstd::prelude::*;

use crate::arith::{sat_add, spec_sat_add};
use crate::components::{Item, ItemType, Person, PersonActions, Resident, spec_nutrition_subunits};
use crate::config::{Config, SUBUNITS, VITALS_MAX};

verus! {

/// Fields the planting process never touches.
pub open spec fn spec_planting_leaves_rest(pre: Person, post: Person) -> bool {
    &&& post.name == pre.name
    &&& post.health == pre.health
    &&& post.hunger == pre.hunger
    &&& post.energy == pre.energy
    &&& post.state == pre.state
    &&& post.gold == pre.gold
    &&& post.position == pre.position
}

/// How one tick of the planting process transforms an agent: a Planting
/// agent whose accumulated dwell time reaches the duration is granted the
/// yield and returns to Idle with the timer cleared; a Planting agent short
/// of the duration just accumulates; any other action resets the timer.
pub open spec fn spec_planting_rel(
    pre: Person,
    post: Person,
    cfg: Config,
    commodity: int,
    dt: u64,
) -> bool {
    if pre.action is Planting {
        if pre.planting_time + dt >= cfg.planting_duration_ms {
            &&& post.inventory.count(commodity)
                == spec_sat_add(pre.inventory.count(commodity), cfg.planting_yield)
            &&& forall|k: int| k != commodity
                ==> post.inventory.count(k) == pre.inventory.count(k)
            &&& post.planting_time == 0
            &&& post.action is Idle
            &&& spec_planting_leaves_rest(pre, post)
        } else {
            post == (Person { planting_time: spec_sat_add(pre.planting_time, dt), ..pre })
        }
    } else {
        post == (Person { planting_time: 0, ..pre })
    }
}

/// The planting relation lifted to an arena slot: dead or retired slots are
/// untouched.
pub open spec fn spec_planting_slot(
    pre: Resident,
    post: Resident,
    cfg: Config,
    commodity: int,
    dt: u64,
) -> bool {
    if pre.present && pre.alive.0 {
        &&& spec_planting_rel(pre.person, post.person, cfg, commodity, dt)
        &&& post.alive == pre.alive
        &&& post.present
    } else {
        post == pre
    }
}

/// One tick of the planting process for one live agent.
pub fn planting_step(p: &mut Person, cfg: &Config, commodity: usize, dt_ms: u64)
    ensures
        spec_planting_rel(*old(p), *final(p), *cfg, commodity as int, dt_ms),
{
    if matches!(p.action, PersonActions::Planting) {
        let accumulated = sat_add(p.planting_time, dt_ms);
        if accumulated >= cfg.planting_duration_ms {
            p.inventory.add(commodity, cfg.planting_yield);
            p.planting_time = 0;
            p.action = PersonActions::Idle;
        } else {
            p.planting_time = accumulated;
        }
    } else {
        p.planting_time = 0;
    }
}

/// One planting pass over an arena.
pub open spec fn spec_planting_pass(
    pre: Seq<Resident>,
    post: Seq<Resident>,
    cfg: Config,
    c: int,
    dt: u64,
) -> bool {
    &&& post.len() == pre.len()
    &&& forall|i: int| 0 <= i < pre.len()
        ==> #[trigger] spec_planting_slot(pre[i], post[i], cfg, c, dt)
}

/// One tick of the planting process over every present, live agent.
pub fn planting_system(rs: &mut Vec<Resident>, cfg: &Config, commodity: usize, dt_ms: u64)
    ensures
        spec_planting_pass(old(rs)@, final(rs)@, *cfg, commodity as int, dt_ms),
{
    let n = rs.len();
    let mut i: usize = 0;
    while i < n
        invariant
            i <= n,
            n == rs@.len(),
            n == old(rs)@.len(),
            forall|j: int| i <= j < n ==> #[trigger] rs@[j] == old(rs)@[j],
            forall|j: int| 0 <= j < i
                ==> #[trigger] spec_planting_slot(
                    old(rs)@[j],
                    rs@[j],
                    *cfg,
                    commodity as int,
                    dt_ms,
                ),
        decreases n - i,
    {
        let r = &mut rs[i];
        if r.present && r.alive.0 {
            planting_step(&mut r.person, cfg, commodity, dt_ms);
        }
        i = i + 1;
    }
}

/// A hunger meter after a meal worth `nv` sub-points, clamped at the full
/// meter.
pub open spec fn spec_fed_hunger(h: u64, nv: int) -> u64 {
    if h + nv > VITALS_MAX {
        VITALS_MAX
    } else {
        (h + nv) as u64
    }
}

/// How one tick of the feeding process transforms an agent: an Eating agent
/// holding at least one unit consumes it, regains the item's nutritional
/// value of hunger, and returns to Idle; an Eating agent holding nothing
/// stays Eating, and any other agent is untouched.
pub open spec fn spec_feeding_rel(pre: Person, post: Person, nv: int, commodity: int) -> bool {
    if pre.action is Eating && pre.inventory.count(commodity) > 0 {
        &&& post.inventory.count(commodity) == pre.inventory.count(commodity) - 1
        &&& forall|k: int| k != commodity
            ==> post.inventory.count(k) == pre.inventory.count(k)
        &&& post.hunger == spec_fed_hunger(pre.hunger, nv)
        &&& post.action is Idle
        &&& post.name == pre.name
        &&& post.health == pre.health
        &&& post.energy == pre.energy
        &&& post.state == pre.state
        &&& post.gold == pre.gold
        &&& post.position == pre.position
        &&& post.planting_time == pre.planting_time
    } else {
        post == pre
    }
}

/// The feeding relation lifted to an arena slot.
pub open spec fn spec_feeding_slot(pre: Resident, post: Resident, nv: int, commodity: int) -> bool {
    if pre.present && pre.alive.0 {
        &&& spec_feeding_rel(pre.person, post.person, nv, commodity)
        &&& post.alive == pre.alive
        &&& post.present
    } else {
        post == pre
    }
}

/// The nutritional value of an item in meter sub-points; only food
/// nourishes.
pub fn nutrition_subunits(it: &Item) -> (nv: u64)
    ensures
        nv == spec_nutrition_subunits(it.item_type),
{
    match it.item_type {
        ItemType::Food { nutritional_value } => (nutritional_value as u64) * SUBUNITS,
        ItemType::Weapon { .. } => 0,
    }
}

/// One tick of the feeding process for one live agent holding the commodity
/// whose nutritional value is `nv` sub-points.
pub fn feeding_step(p: &mut Person, nv: u64, commodity: usize)
    requires
        old(p).vitals_wf(),
    ensures
        spec_feeding_rel(*old(p), *final(p), nv as int, commodity as int),
        final(p).vitals_wf(),
{
    if matches!(p.action, PersonActions::Eating) {
        let consumed = p.inventory.consume_one(commodity);
        if consumed {
            let fed = sat_add(p.hunger, nv);
            p.hunger = if fed > VITALS_MAX {
                VITALS_MAX
            } else {
                fed
            };
            p.action = PersonActions::Idle;
        }
    }
}

/// One feeding pass over an arena, for a commodity worth `nv` sub-points.
pub open spec fn spec_feeding_pass(
    pre: Seq<Resident>,
    post: Seq<Resident>,
    nv: int,
    c: int,
) -> bool {
    &&& post.len() == pre.len()
    &&& forall|i: int| 0 <= i < pre.len()
        ==> #[trigger] spec_feeding_slot(pre[i], post[i], nv, c)
}

/// One tick of the feeding process over every present, live agent; the
/// nutritional value is read from the commodity's catalog entry.
pub fn feeding_system(rs: &mut Vec<Resident>, items: &Vec<Item>, commodity: usize)
    requires
        commodity < items@.len(),
        forall|i: int| 0 <= i < old(rs)@.len()
            ==> (#[trigger] old(rs)@[i]).person.vitals_wf(),
    ensures
        spec_feeding_pass(
            old(rs)@,
            final(rs)@,
            spec_nutrition_subunits(items@[commodity as int].item_type),
            commodity as int,
        ),
        forall|i: int| 0 <= i < final(rs)@.len()
            ==> (#[trigger] final(rs)@[i]).person.vitals_wf(),
{
    let nv = nutrition_subunits(&items[commodity]);
    let n = rs.len();
    let mut i: usize = 0;
    while i < n
        invariant
            i <= n,
            n == rs@.len(),
            n == old(rs)@.len(),
            nv == spec_nutrition_subunits(items@[commodity as int].item_type),
            forall|j: int| i <= j < n ==> #[trigger] rs@[j] == old(rs)@[j],
            forall|j: int| 0 <= j < i
                ==> #[trigger] spec_feeding_slot(
                    old(rs)@[j],
                    rs@[j],
                    nv as int,
                    commodity as int,
                ),
            forall|j: int| 0 <= j < old(rs)@.len()
                ==> (#[trigger] old(rs)@[j]).person.vitals_wf(),
            forall|j: int| 0 <= j < i ==> (#[trigger] rs@[j]).person.vitals_wf(),
        decreases n - i,
    {
        let r = &mut rs[i];
        if r.present && r.alive.0 {
            feeding_step(&mut r.person, nv, commodity);
        }
        i = i + 1;
    }
}

} // verus!
