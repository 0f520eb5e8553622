//! The vitals and energy engines.
//!
//! Each tick, hunger decays; a starving agent loses health (and dies at
//! zero health) while a fed agent regains it, and the Healthy/Hungry
//! classification is recomputed from the new hunger level. Energy then
//! recovers at a rate picked by the classification, with an emergency path
//! that burns health while starving.

use vstd::prelude::*;

use crate::arith::{sat_add, sat_mul};
use crate::components::{Alive, Person, PersonState, Resident};
use crate::config::{Config, VITALS_MAX};

verus! {

/// A meter after losing `rate * dt`, floored at zero.
pub open spec fn spec_decayed(m: u64, rate: u64, dt: u64) -> u64 {
    if rate * dt >= m {
        0u64
    } else {
        (m - rate * dt) as u64
    }
}

/// A meter after gaining `rate * dt`, clamped at `VITALS_MAX`.
pub open spec fn spec_raised(m: u64, rate: u64, dt: u64) -> u64 {
    if m + rate * dt > VITALS_MAX {
        VITALS_MAX
    } else {
        (m + rate * dt) as u64
    }
}

/// A meter after losing half of `rate * dt` (the health toll of the
/// emergency energy path), floored at zero.
pub open spec fn spec_half_drained(m: u64, rate: u64, dt: u64) -> u64 {
    if (rate * dt) / 2 >= m {
        0u64
    } else {
        (m - (rate * dt) / 2) as u64
    }
}

/// The hunger meter after one tick of decay.
pub open spec fn spec_hunger_next(p: Person, cfg: Config, dt: u64) -> u64 {
    spec_decayed(p.hunger, cfg.hunger_decay_rate, dt)
}

/// The health meter after one tick: starving agents lose health, fed agents
/// regain it.
pub open spec fn spec_health_next(p: Person, cfg: Config, dt: u64) -> u64 {
    if spec_hunger_next(p, cfg, dt) == 0 {
        spec_decayed(p.health, cfg.starvation_rate, dt)
    } else {
        spec_raised(p.health, cfg.recovery_rate, dt)
    }
}

/// The classification after one tick: Hungry exactly when the new hunger
/// level is below the configured threshold.
pub open spec fn spec_state_next(p: Person, cfg: Config, dt: u64) -> PersonState {
    if spec_hunger_next(p, cfg, dt) < cfg.hungry_threshold {
        PersonState::Hungry
    } else {
        PersonState::Healthy
    }
}

/// Whether the agent survives the tick: death fires exactly when starvation
/// drives health to zero.
pub open spec fn spec_survives(p: Person, cfg: Config, dt: u64) -> bool {
    !(spec_hunger_next(p, cfg, dt) == 0 && spec_health_next(p, cfg, dt) == 0)
}

/// The agent after one tick of the vitals engine; everything but hunger,
/// health and classification is untouched.
pub open spec fn spec_vitals_stepped(p: Person, cfg: Config, dt: u64) -> Person {
    Person {
        hunger: spec_hunger_next(p, cfg, dt),
        health: spec_health_next(p, cfg, dt),
        state: spec_state_next(p, cfg, dt),
        ..p
    }
}

/// The energy meter after one tick: slow recovery when Healthy, fast
/// health-funded recovery when starving, intermediate recovery when merely
/// hungry.
pub open spec fn spec_energy_next(p: Person, cfg: Config, dt: u64) -> u64 {
    match p.state {
        PersonState::Healthy => spec_raised(p.energy, cfg.energy_healthy_rate, dt),
        PersonState::Hungry => if p.hunger == 0 {
            spec_raised(p.energy, cfg.energy_boost_rate, dt)
        } else {
            spec_raised(p.energy, cfg.energy_hungry_rate, dt)
        },
    }
}

/// The health meter after one tick of the energy engine: only the starving
/// emergency path spends health, at half the energy gained.
pub open spec fn spec_energy_health_next(p: Person, cfg: Config, dt: u64) -> u64 {
    if p.state is Hungry && p.hunger == 0 {
        spec_half_drained(p.health, cfg.energy_boost_rate, dt)
    } else {
        p.health
    }
}

/// The agent after one tick of the energy engine.
pub open spec fn spec_energy_stepped(p: Person, cfg: Config, dt: u64) -> Person {
    Person {
        energy: spec_energy_next(p, cfg, dt),
        health: spec_energy_health_next(p, cfg, dt),
        ..p
    }
}

/// Lowers meter `m` by `rate * dt`, stopping at zero.
fn decay_meter(m: u64, rate: u64, dt: u64) -> (r: u64)
    ensures
        r == spec_decayed(m, rate, dt),
{
    let amt = sat_mul(rate, dt);
    if amt >= m {
        0
    } else {
        m - amt
    }
}

/// Raises meter `m` by `rate * dt`, stopping at `VITALS_MAX`.
fn raise_meter(m: u64, rate: u64, dt: u64) -> (r: u64)
    requires
        m <= VITALS_MAX,
    ensures
        r == spec_raised(m, rate, dt),
{
    let amt = sat_mul(rate, dt);
    let sum = sat_add(m, amt);
    if sum > VITALS_MAX {
        VITALS_MAX
    } else {
        sum
    }
}

/// Lowers meter `m` by half of `rate * dt`, stopping at zero.
fn half_drain_meter(m: u64, rate: u64, dt: u64) -> (r: u64)
    requires
        m <= VITALS_MAX,
    ensures
        r == spec_half_drained(m, rate, dt),
{
    let amt = sat_mul(rate, dt);
    let cost = amt / 2;
    if cost >= m {
        0
    } else {
        m - cost
    }
}

/// One tick of the vitals engine for one live agent: hunger decays; a
/// starving agent loses health and dies when it reaches zero; a fed agent
/// regains health; the classification follows the new hunger level.
pub fn hunger_step(p: &mut Person, alive: &mut Alive, cfg: &Config, dt_ms: u64)
    requires
        old(p).vitals_wf(),
        old(alive).0,
    ensures
        *final(p) == spec_vitals_stepped(*old(p), *cfg, dt_ms),
        final(alive).0 == spec_survives(*old(p), *cfg, dt_ms),
        final(p).vitals_wf(),
{
    p.hunger = decay_meter(p.hunger, cfg.hunger_decay_rate, dt_ms);
    if p.hunger == 0 {
        p.health = decay_meter(p.health, cfg.starvation_rate, dt_ms);
        if p.health == 0 {
            alive.0 = false;
        }
    } else {
        p.health = raise_meter(p.health, cfg.recovery_rate, dt_ms);
    }
    p.state = if p.hunger < cfg.hungry_threshold {
        PersonState::Hungry
    } else {
        PersonState::Healthy
    };
}

/// One tick of the energy engine for one live agent.
pub fn energy_step(p: &mut Person, cfg: &Config, dt_ms: u64)
    requires
        old(p).vitals_wf(),
    ensures
        *final(p) == spec_energy_stepped(*old(p), *cfg, dt_ms),
        final(p).vitals_wf(),
{
    match p.state {
        PersonState::Healthy => {
            p.energy = raise_meter(p.energy, cfg.energy_healthy_rate, dt_ms);
        },
        PersonState::Hungry => {
            if p.hunger == 0 {
                p.energy = raise_meter(p.energy, cfg.energy_boost_rate, dt_ms);
                p.health = half_drain_meter(p.health, cfg.energy_boost_rate, dt_ms);
            } else {
                p.energy = raise_meter(p.energy, cfg.energy_hungry_rate, dt_ms);
            }
        },
    }
}

/// One vitals pass over an arena: every present, live agent is stepped and
/// its survival recorded; dead or retired slots are untouched.
pub open spec fn spec_vitals_pass(
    pre: Seq<Resident>,
    post: Seq<Resident>,
    cfg: Config,
    dt: u64,
) -> bool {
    &&& post.len() == pre.len()
    &&& forall|i: int| 0 <= i < pre.len() ==> #[trigger] post[i]
        == if pre[i].present && pre[i].alive.0 {
            Resident {
                person: spec_vitals_stepped(pre[i].person, cfg, dt),
                alive: Alive(spec_survives(pre[i].person, cfg, dt)),
                present: true,
            }
        } else {
            pre[i]
        }
}

/// One energy pass over an arena.
pub open spec fn spec_energy_pass(
    pre: Seq<Resident>,
    post: Seq<Resident>,
    cfg: Config,
    dt: u64,
) -> bool {
    &&& post.len() == pre.len()
    &&& forall|i: int| 0 <= i < pre.len() ==> #[trigger] post[i]
        == if pre[i].present && pre[i].alive.0 {
            Resident { person: spec_energy_stepped(pre[i].person, cfg, dt), ..pre[i] }
        } else {
            pre[i]
        }
}

/// One tick of the vitals engine over every present, live agent; dead or
/// retired slots are untouched.
pub fn hunger_system(rs: &mut Vec<Resident>, cfg: &Config, dt_ms: u64)
    requires
        forall|i: int| 0 <= i < old(rs)@.len()
            ==> (#[trigger] old(rs)@[i]).person.vitals_wf(),
    ensures
        spec_vitals_pass(old(rs)@, final(rs)@, *cfg, dt_ms),
        forall|i: int| 0 <= i < final(rs)@.len()
            ==> (#[trigger] final(rs)@[i]).person.vitals_wf(),
{
    let n = rs.len();
    let mut i: usize = 0;
    while i < n
        invariant
            i <= n,
            n == rs@.len(),
            n == old(rs)@.len(),
            forall|j: int| i <= j < n ==> #[trigger] rs@[j] == old(rs)@[j],
            forall|j: int| 0 <= j < i ==> #[trigger] rs@[j]
                == if old(rs)@[j].present && old(rs)@[j].alive.0 {
                    Resident {
                        person: spec_vitals_stepped(old(rs)@[j].person, *cfg, dt_ms),
                        alive: Alive(spec_survives(old(rs)@[j].person, *cfg, dt_ms)),
                        present: true,
                    }
                } else {
                    old(rs)@[j]
                },
            forall|j: int| 0 <= j < old(rs)@.len()
                ==> (#[trigger] old(rs)@[j]).person.vitals_wf(),
            forall|j: int| 0 <= j < i ==> (#[trigger] rs@[j]).person.vitals_wf(),
        decreases n - i,
    {
        let r = &mut rs[i];
        if r.present && r.alive.0 {
            hunger_step(&mut r.person, &mut r.alive, cfg, dt_ms);
        }
        i = i + 1;
    }
}

/// One tick of the energy engine over every present, live agent.
pub fn energy_system(rs: &mut Vec<Resident>, cfg: &Config, dt_ms: u64)
    requires
        forall|i: int| 0 <= i < old(rs)@.len()
            ==> (#[trigger] old(rs)@[i]).person.vitals_wf(),
    ensures
        spec_energy_pass(old(rs)@, final(rs)@, *cfg, dt_ms),
        forall|i: int| 0 <= i < final(rs)@.len()
            ==> (#[trigger] final(rs)@[i]).person.vitals_wf(),
{
    let n = rs.len();
    let mut i: usize = 0;
    while i < n
        invariant
            i <= n,
            n == rs@.len(),
            n == old(rs)@.len(),
            forall|j: int| i <= j < n ==> #[trigger] rs@[j] == old(rs)@[j],
            forall|j: int| 0 <= j < i ==> #[trigger] rs@[j]
                == if old(rs)@[j].present && old(rs)@[j].alive.0 {
                    Resident {
                        person: spec_energy_stepped(old(rs)@[j].person, *cfg, dt_ms),
                        ..old(rs)@[j]
                    }
                } else {
                    old(rs)@[j]
                },
            forall|j: int| 0 <= j < old(rs)@.len()
                ==> (#[trigger] old(rs)@[j]).person.vitals_wf(),
            forall|j: int| 0 <= j < i ==> (#[trigger] rs@[j]).person.vitals_wf(),
        decreases n - i,
    {
        let r = &mut rs[i];
        if r.present && r.alive.0 {
            energy_step(&mut r.person, cfg, dt_ms);
        }
        i = i + 1;
    }
}

} // verus!
