//! The world arena and its lifecycle: setup and the mortality sweep.
//!
//! All entities live in flat vectors; the containment hierarchy stores
//! plain indices into them. Dead agents are retired in place (their slot
//! keeps its index but is marked absent) so no index ever dangles, and the
//! sweep removes retired slots from their city's membership list.

use vstd::prelude::*;
use vstd::seq_lib::*;

use crate::components::{
    Alive, City, Country, Item, ItemDetails, ItemType, Person, Position, PriceRecord,
    Resident, Shop, State, TerrainType, default_apple, spec_nutrition_subunits,
};
use crate::config::{Config, COUNT_LIMIT, PRICE_LIMIT, VITALS_MAX};
use crate::market::spec_market_sys;
use crate::pricing::spec_pricing_pass;
use crate::processes::{spec_feeding_pass, spec_planting_pass};
use crate::reasoning::spec_reasoning_pass;
use crate::rng::rand_below;
use crate::vitals::{spec_energy_pass, spec_vitals_pass};

verus! {

/// Every member index of a city points into the world's arenas.
pub open spec fn spec_city_members_wf(c: City, npersons: int, nshops: int) -> bool {
    &&& forall|k: int| 0 <= k < c.persons@.len() ==> (#[trigger] c.persons@[k]) < npersons
    &&& forall|k: int| 0 <= k < c.shops@.len() ==> (#[trigger] c.shops@[k]) < nshops
}

/// Every member index of a state points into the city arena.
pub open spec fn spec_state_members_wf(st: State, ncities: int) -> bool {
    forall|k: int| 0 <= k < st.cities@.len() ==> (#[trigger] st.cities@[k]) < ncities
}

/// Every member index of a country points into the state arena.
pub open spec fn spec_country_members_wf(co: Country, nstates: int) -> bool {
    forall|k: int| 0 <= k < co.estates@.len() ==> (#[trigger] co.estates@[k]) < nstates
}

/// The simulated world: an item catalog, the traded commodity, and the
/// entity arenas tied together by index-based containment.
pub struct World {
    pub items: Vec<Item>,
    pub commodity: usize,
    pub persons: Vec<Resident>,
    pub shops: Vec<Shop>,
    pub cities: Vec<City>,
    pub states: Vec<State>,
    pub countries: Vec<Country>,
}

impl World {
    /// Global well-formedness: the commodity is cataloged, every
    /// containment index is in range, every agent's meters are in range,
    /// and every shop's market records are in range.
    pub open spec fn wf(self) -> bool {
        &&& self.commodity < self.items@.len()
        &&& forall|i: int| 0 <= i < self.cities@.len()
            ==> spec_city_members_wf(
                #[trigger] self.cities@[i],
                self.persons@.len() as int,
                self.shops@.len() as int,
            )
        &&& forall|i: int| 0 <= i < self.states@.len()
            ==> spec_state_members_wf(#[trigger] self.states@[i], self.cities@.len() as int)
        &&& forall|i: int| 0 <= i < self.countries@.len()
            ==> spec_country_members_wf(
                #[trigger] self.countries@[i],
                self.states@.len() as int,
            )
        &&& forall|i: int| 0 <= i < self.persons@.len()
            ==> (#[trigger] self.persons@[i]).person.vitals_wf()
        &&& forall|i: int| 0 <= i < self.shops@.len() ==> (#[trigger] self.shops@[i]).wf()
    }
}

/// Decides [`spec_city_members_wf`] at run time.
pub fn check_city_members(c: &City, npersons: usize, nshops: usize) -> (b: bool)
    ensures
        b == spec_city_members_wf(*c, npersons as int, nshops as int),
{
    let n = c.persons.len();
    let mut k: usize = 0;
    while k < n
        invariant
            k <= n,
            n == c.persons@.len(),
            forall|j: int| 0 <= j < k ==> (#[trigger] c.persons@[j]) < npersons,
        decreases n - k,
    {
        if c.persons[k] >= npersons {
            return false;
        }
        k = k + 1;
    }
    let n = c.shops.len();
    let mut k: usize = 0;
    while k < n
        invariant
            k <= n,
            n == c.shops@.len(),
            forall|j: int| 0 <= j < k ==> (#[trigger] c.shops@[j]) < nshops,
        decreases n - k,
    {
        if c.shops[k] >= nshops {
            return false;
        }
        k = k + 1;
    }
    true
}

/// Decides whether every index in `list` is below `bound` at run time.
fn check_indices(list: &Vec<usize>, bound: usize) -> (b: bool)
    ensures
        b == forall|j: int| 0 <= j < list@.len() ==> (#[trigger] list@[j]) < bound,
{
    let n = list.len();
    let mut k: usize = 0;
    while k < n
        invariant
            k <= n,
            n == list@.len(),
            forall|j: int| 0 <= j < k ==> (#[trigger] list@[j]) < bound,
        decreases n - k,
    {
        if list[k] >= bound {
            return false;
        }
        k = k + 1;
    }
    true
}

/// Decides [`Shop::wf`] at run time.
pub fn check_shop_wf(s: &Shop) -> (b: bool)
    ensures
        b == s.wf(),
{
    let n = s.items.len();
    let mut e: usize = 0;
    while e < n
        invariant
            e <= n,
            n == s.items@.len(),
            forall|j: int| 0 <= j < e ==> (#[trigger] s.items@[j]).wf(),
        decreases n - e,
    {
        let d = s.items[e].details;
        if d.price < 1 || d.price > PRICE_LIMIT
            || d.sales > COUNT_LIMIT
            || d.purchases > COUNT_LIMIT {
            return false;
        }
        let m = s.items[e].history.len();
        let mut h: usize = 0;
        while h < m
            invariant
                h <= m,
                e < n,
                n == s.items@.len(),
                m == s.items@[e as int].history@.len(),
                forall|j: int| 0 <= j < h
                    ==> 1 <= #[trigger] s.items@[e as int].history@[j].price
                        <= PRICE_LIMIT,
            decreases m - h,
        {
            let p = s.items[e].history[h].price;
            if p < 1 || p > PRICE_LIMIT {
                return false;
            }
            h = h + 1;
        }
        e = e + 1;
    }
    true
}

/// Decides [`World::wf`] at run time, so unverified callers can establish
/// it before handing a world to the systems.
pub fn check_wf(w: &World) -> (b: bool)
    ensures
        b == w.wf(),
{
    if w.commodity >= w.items.len() {
        return false;
    }
    let n = w.cities.len();
    let mut i: usize = 0;
    while i < n
        invariant
            i <= n,
            n == w.cities@.len(),
            forall|j: int| 0 <= j < i
                ==> spec_city_members_wf(
                    #[trigger] w.cities@[j],
                    w.persons@.len() as int,
                    w.shops@.len() as int,
                ),
        decreases n - i,
    {
        if !check_city_members(&w.cities[i], w.persons.len(), w.shops.len()) {
            return false;
        }
        i = i + 1;
    }
    let n = w.states.len();
    let mut i: usize = 0;
    while i < n
        invariant
            i <= n,
            n == w.states@.len(),
            forall|j: int| 0 <= j < i
                ==> spec_state_members_wf(#[trigger] w.states@[j], w.cities@.len() as int),
        decreases n - i,
    {
        if !check_indices(&w.states[i].cities, w.cities.len()) {
            return false;
        }
        i = i + 1;
    }
    let n = w.countries.len();
    let mut i: usize = 0;
    while i < n
        invariant
            i <= n,
            n == w.countries@.len(),
            forall|j: int| 0 <= j < i
                ==> spec_country_members_wf(
                    #[trigger] w.countries@[j],
                    w.states@.len() as int,
                ),
        decreases n - i,
    {
        if !check_indices(&w.countries[i].estates, w.states.len()) {
            return false;
        }
        i = i + 1;
    }
    let n = w.persons.len();
    let mut i: usize = 0;
    while i < n
        invariant
            i <= n,
            n == w.persons@.len(),
            forall|j: int| 0 <= j < i ==> (#[trigger] w.persons@[j]).person.vitals_wf(),
        decreases n - i,
    {
        let p = &w.persons[i].person;
        if p.hunger > VITALS_MAX || p.health > VITALS_MAX
            || p.energy > VITALS_MAX {
            return false;
        }
        i = i + 1;
    }
    let n = w.shops.len();
    let mut i: usize = 0;
    while i < n
        invariant
            i <= n,
            n == w.shops@.len(),
            forall|j: int| 0 <= j < i ==> (#[trigger] w.shops@[j]).wf(),
        decreases n - i,
    {
        if !check_shop_wf(&w.shops[i]) {
            return false;
        }
        i = i + 1;
    }
    true
}

/// Relies on std's format!: renders `prefix`, a space, and the decimal
/// form of `n` as one string, which is strictly longer than `prefix`.
#[verifier::external_body]
fn labeled(prefix: &str, n: usize) -> (r: String)
    ensures
        r@.len() > prefix@.len(),
{
    format!("{} {}", prefix, n)
}

/// Whether this shop record equals the default stocking of the commodity:
/// price 10, stock 10, zero counters, a single opening price sample.
pub open spec fn spec_default_stocked(s: Shop) -> bool {
    &&& s.items@.len() == 1
    &&& s.items@[0].item == 0
    &&& s.items@[0].details == (ItemDetails {
        price: 10,
        stock: 10,
        sales: 0,
        purchases: 0,
    })
    &&& s.items@[0].history@ =~= seq![PriceRecord { timestamp: 0, price: 10 }]
}

/// A freshly set up agent slot: full meters, Idle, the configured starting
/// gold, an empty inventory, present and alive.
pub open spec fn spec_fresh_resident(r: Resident, start_gold: u64) -> bool {
    &&& r.present
    &&& r.alive.0
    &&& r.person.health == VITALS_MAX
    &&& r.person.hunger == VITALS_MAX
    &&& r.person.energy == VITALS_MAX
    &&& r.person.state is Healthy
    &&& r.person.action is Idle
    &&& r.person.gold == start_gold
    &&& forall|k: int| r.person.inventory.count(k) == 0
    &&& r.person.planting_time == 0
}

/// How many times `id` occurs in one membership list.
pub open spec fn spec_count_in(list: Seq<usize>, id: int) -> int
    decreases list.len(),
{
    if list.len() == 0 {
        0
    } else {
        spec_count_in(list.drop_last(), id) + if list.last() == id {
            1int
        } else {
            0int
        }
    }
}

/// How many city membership slots, over all cities, hold person `id`.
pub open spec fn spec_person_memberships(cities: Seq<City>, id: int) -> int
    decreases cities.len(),
{
    if cities.len() == 0 {
        0
    } else {
        spec_person_memberships(cities.drop_last(), id) + spec_count_in(
            cities.last().persons@,
            id,
        )
    }
}

/// How many city membership slots, over all cities, hold shop `id`.
pub open spec fn spec_shop_memberships(cities: Seq<City>, id: int) -> int
    decreases cities.len(),
{
    if cities.len() == 0 {
        0
    } else {
        spec_shop_memberships(cities.drop_last(), id) + spec_count_in(
            cities.last().shops@,
            id,
        )
    }
}

proof fn lemma_count_in_push(list: Seq<usize>, x: usize, id: int)
    ensures
        spec_count_in(list.push(x), id) == spec_count_in(list, id) + if x == id {
            1int
        } else {
            0int
        },
{
    assert(list.push(x).drop_last() =~= list);
}

proof fn lemma_count_in_absent(list: Seq<usize>, id: int)
    requires
        forall|j: int| 0 <= j < list.len() ==> list[j] != id,
    ensures
        spec_count_in(list, id) == 0,
    decreases list.len(),
{
    if list.len() > 0 {
        lemma_count_in_absent(list.drop_last(), id);
    }
}

/// Replacing one city changes each membership count by the difference the
/// replacement makes in that city alone.
proof fn lemma_memberships_update(cities: Seq<City>, c: int, city2: City, id: int)
    requires
        0 <= c < cities.len(),
    ensures
        spec_person_memberships(cities.update(c, city2), id) == spec_person_memberships(
            cities,
            id,
        ) - spec_count_in(cities[c].persons@, id) + spec_count_in(city2.persons@, id),
        spec_shop_memberships(cities.update(c, city2), id) == spec_shop_memberships(
            cities,
            id,
        ) - spec_count_in(cities[c].shops@, id) + spec_count_in(city2.shops@, id),
    decreases cities.len(),
{
    let t = cities.update(c, city2);
    if c == cities.len() - 1 {
        assert(t.drop_last() =~= cities.drop_last());
        assert(t.last() == city2);
    } else {
        assert(t.drop_last() =~= cities.drop_last().update(c, city2));
        assert(t.last() == cities.last());
        lemma_memberships_update(cities.drop_last(), c, city2, id);
    }
}

/// Cities whose person lists are all empty hold no person.
proof fn lemma_person_memberships_all_empty(cities: Seq<City>, id: int)
    requires
        forall|j: int| 0 <= j < cities.len() ==> (#[trigger] cities[j]).persons@.len() == 0,
    ensures
        spec_person_memberships(cities, id) == 0,
    decreases cities.len(),
{
    if cities.len() > 0 {
        lemma_person_memberships_all_empty(cities.drop_last(), id);
    }
}

/// Cities whose shop lists are all empty hold no shop.
proof fn lemma_shop_memberships_all_empty(cities: Seq<City>, id: int)
    requires
        forall|j: int| 0 <= j < cities.len() ==> (#[trigger] cities[j]).shops@.len() == 0,
    ensures
        spec_shop_memberships(cities, id) == 0,
    decreases cities.len(),
{
    if cities.len() > 0 {
        lemma_shop_memberships_all_empty(cities.drop_last(), id);
    }
}

/// How many state membership slots, over all states, hold city `id`.
pub open spec fn spec_city_memberships(states: Seq<State>, id: int) -> int
    decreases states.len(),
{
    if states.len() == 0 {
        0
    } else {
        spec_city_memberships(states.drop_last(), id) + spec_count_in(
            states.last().cities@,
            id,
        )
    }
}

/// How many country membership slots, over all countries, hold state `id`.
pub open spec fn spec_state_memberships(countries: Seq<Country>, id: int) -> int
    decreases countries.len(),
{
    if countries.len() == 0 {
        0
    } else {
        spec_state_memberships(countries.drop_last(), id) + spec_count_in(
            countries.last().estates@,
            id,
        )
    }
}

/// Replacing one state changes each city membership count by the
/// difference the replacement makes in that state alone.
proof fn lemma_city_memberships_update(states: Seq<State>, s: int, st2: State, id: int)
    requires
        0 <= s < states.len(),
    ensures
        spec_city_memberships(states.update(s, st2), id) == spec_city_memberships(states, id)
            - spec_count_in(states[s].cities@, id) + spec_count_in(st2.cities@, id),
    decreases states.len(),
{
    let t = states.update(s, st2);
    if s == states.len() - 1 {
        assert(t.drop_last() =~= states.drop_last());
        assert(t.last() == st2);
    } else {
        assert(t.drop_last() =~= states.drop_last().update(s, st2));
        assert(t.last() == states.last());
        lemma_city_memberships_update(states.drop_last(), s, st2, id);
    }
}

/// Replacing one country changes each state membership count by the
/// difference the replacement makes in that country alone.
proof fn lemma_state_memberships_update(countries: Seq<Country>, c: int, co2: Country, id: int)
    requires
        0 <= c < countries.len(),
    ensures
        spec_state_memberships(countries.update(c, co2), id) == spec_state_memberships(
            countries,
            id,
        ) - spec_count_in(countries[c].estates@, id) + spec_count_in(co2.estates@, id),
    decreases countries.len(),
{
    let t = countries.update(c, co2);
    if c == countries.len() - 1 {
        assert(t.drop_last() =~= countries.drop_last());
        assert(t.last() == co2);
    } else {
        assert(t.drop_last() =~= countries.drop_last().update(c, co2));
        assert(t.last() == countries.last());
        lemma_state_memberships_update(countries.drop_last(), c, co2, id);
    }
}

/// States whose city lists are all empty hold no city.
proof fn lemma_city_memberships_all_empty(states: Seq<State>, id: int)
    requires
        forall|j: int| 0 <= j < states.len() ==> (#[trigger] states[j]).cities@.len() == 0,
    ensures
        spec_city_memberships(states, id) == 0,
    decreases states.len(),
{
    if states.len() > 0 {
        lemma_city_memberships_all_empty(states.drop_last(), id);
    }
}

/// Countries whose estate lists are all empty hold no state.
proof fn lemma_state_memberships_all_empty(countries: Seq<Country>, id: int)
    requires
        forall|j: int| 0 <= j < countries.len()
            ==> (#[trigger] countries[j]).estates@.len() == 0,
    ensures
        spec_state_memberships(countries, id) == 0,
    decreases countries.len(),
{
    if countries.len() > 0 {
        lemma_state_memberships_all_empty(countries.drop_last(), id);
    }
}

/// Builds the initial world: the commodity catalog, the configured number
/// of countries, states (terrain cycling through the four kinds), cities,
/// agents and shops, each member attached to a uniformly drawn parent.
/// With no cities configured there is nowhere to put agents or shops, so
/// none are created.
pub fn setup(cfg: &Config) -> (w: World)
    ensures
        w.wf(),
        w.items@.len() == 1,
        w.commodity == 0,
        w.items@[0].item_type == (ItemType::Food { nutritional_value: 50 }),
        w.countries@.len() == cfg.num_countries,
        w.states@.len() == cfg.num_states,
        w.cities@.len() == cfg.num_cities,
        w.persons@.len() == if cfg.num_cities > 0 { cfg.num_persons as int } else { 0int },
        w.shops@.len() == if cfg.num_cities > 0 { cfg.num_shops as int } else { 0int },
        forall|i: int| 0 <= i < w.persons@.len()
            ==> spec_fresh_resident(#[trigger] w.persons@[i], cfg.start_gold),
        forall|s: int| 0 <= s < w.shops@.len()
            ==> spec_default_stocked(#[trigger] w.shops@[s]),
        forall|id: int| #![trigger spec_person_memberships(w.cities@, id)]
            spec_person_memberships(w.cities@, id) == if 0 <= id < w.persons@.len() {
                1int
            } else {
                0int
            },
        forall|id: int| #![trigger spec_shop_memberships(w.cities@, id)]
            spec_shop_memberships(w.cities@, id) == if 0 <= id < w.shops@.len() {
                1int
            } else {
                0int
            },
        forall|id: int| #![trigger spec_city_memberships(w.states@, id)]
            spec_city_memberships(w.states@, id)
                == if cfg.num_states > 0 && 0 <= id < w.cities@.len() {
                1int
            } else {
                0int
            },
        forall|id: int| #![trigger spec_state_memberships(w.countries@, id)]
            spec_state_memberships(w.countries@, id)
                == if cfg.num_countries > 0 && 0 <= id < w.states@.len() {
                1int
            } else {
                0int
            },
{
    let mut items: Vec<Item> = Vec::new();
    items.push(default_apple());

    let mut countries: Vec<Country> = Vec::new();
    let mut i: usize = 0;
    while i < cfg.num_countries
        invariant
            i <= cfg.num_countries,
            countries@.len() == i,
            forall|j: int| 0 <= j < i
                ==> (#[trigger] countries@[j]).estates@.len() == 0,
        decreases cfg.num_countries - i,
    {
        let mut co = Country::default();
        co.name = labeled("Country", i);
        countries.push(co);
        i = i + 1;
    }

    proof {
        assert forall|id: int| spec_state_memberships(countries@, id) == 0 by {
            lemma_state_memberships_all_empty(countries@, id);
        }
    }
    let mut states: Vec<State> = Vec::new();
    let mut i: usize = 0;
    while i < cfg.num_states
        invariant
            i <= cfg.num_states,
            states@.len() == i,
            countries@.len() == cfg.num_countries,
            forall|j: int| 0 <= j < i ==> (#[trigger] states@[j]).cities@.len() == 0,
            forall|j: int| 0 <= j < countries@.len()
                ==> spec_country_members_wf(#[trigger] countries@[j], i as int),
            forall|id: int| #![trigger spec_state_memberships(countries@, id)]
                spec_state_memberships(countries@, id)
                    == if cfg.num_countries > 0 && 0 <= id < i {
                    1int
                } else {
                    0int
                },
        decreases cfg.num_states - i,
    {
        let terrain = match i % 4 {
            0 => TerrainType::Grassland,
            1 => TerrainType::Forest,
            2 => TerrainType::Mountain,
            _ => TerrainType::Desert,
        };
        let mut st = State::default();
        st.name = labeled("State", i);
        st.terrain_type = terrain;
        states.push(st);
        if cfg.num_countries > 0 {
            let c = rand_below(cfg.num_countries as u64) as usize;
            let ghost pre_countries = countries@;
            countries[c].estates.push(i);
            proof {
                assert(countries@ =~= pre_countries.update(c as int, countries@[c as int]));
                assert forall|id: int| #![trigger spec_state_memberships(countries@, id)]
                    spec_state_memberships(countries@, id) == if 0 <= id < i + 1 {
                        1int
                    } else {
                        0int
                    } by {
                    lemma_state_memberships_update(
                        pre_countries,
                        c as int,
                        countries@[c as int],
                        id,
                    );
                    lemma_count_in_push(pre_countries[c as int].estates@, i, id);
                    if id == i as int {
                        lemma_count_in_absent(pre_countries[c as int].estates@, id);
                    }
                }
            }
        }
        i = i + 1;
    }

    proof {
        assert forall|id: int| spec_city_memberships(states@, id) == 0 by {
            lemma_city_memberships_all_empty(states@, id);
        }
    }
    let mut cities: Vec<City> = Vec::new();
    let mut i: usize = 0;
    while i < cfg.num_cities
        invariant
            i <= cfg.num_cities,
            cities@.len() == i,
            states@.len() == cfg.num_states,
            countries@.len() == cfg.num_countries,
            forall|j: int| 0 <= j < i ==> (#[trigger] cities@[j]).persons@.len() == 0
                && cities@[j].shops@.len() == 0,
            forall|j: int| 0 <= j < states@.len()
                ==> spec_state_members_wf(#[trigger] states@[j], i as int),
            forall|id: int| #![trigger spec_state_memberships(countries@, id)]
                spec_state_memberships(countries@, id)
                    == if cfg.num_countries > 0 && 0 <= id < states@.len() {
                    1int
                } else {
                    0int
                },
            forall|id: int| #![trigger spec_city_memberships(states@, id)]
                spec_city_memberships(states@, id) == if cfg.num_states > 0 && 0 <= id < i {
                    1int
                } else {
                    0int
                },
        decreases cfg.num_cities - i,
    {
        let mut ci = City::default();
        ci.name = labeled("City", i);
        ci.position = Position {
            x: rand_below(200) as i64,
            y: rand_below(200) as i64,
        };
        cities.push(ci);
        if cfg.num_states > 0 {
            let s = rand_below(cfg.num_states as u64) as usize;
            let ghost pre_states = states@;
            states[s].cities.push(i);
            proof {
                assert(states@ =~= pre_states.update(s as int, states@[s as int]));
                assert forall|id: int| #![trigger spec_city_memberships(states@, id)]
                    spec_city_memberships(states@, id) == if 0 <= id < i + 1 {
                        1int
                    } else {
                        0int
                    } by {
                    lemma_city_memberships_update(pre_states, s as int, states@[s as int], id);
                    lemma_count_in_push(pre_states[s as int].cities@, i, id);
                    if id == i as int {
                        lemma_count_in_absent(pre_states[s as int].cities@, id);
                    }
                }
            }
        }
        i = i + 1;
    }

    let mut persons: Vec<Resident> = Vec::new();
    if cfg.num_cities > 0 {
        proof {
            assert forall|id: int| spec_person_memberships(cities@, id) == 0 by {
                lemma_person_memberships_all_empty(cities@, id);
            }
        }
        let mut i: usize = 0;
        while i < cfg.num_persons
            invariant
                cfg.num_cities > 0,
                i <= cfg.num_persons,
                persons@.len() == i,
                cities@.len() == cfg.num_cities,
                forall|j: int| 0 <= j < i
                    ==> spec_fresh_resident(#[trigger] persons@[j], cfg.start_gold),
                forall|j: int| 0 <= j < cities@.len()
                    ==> spec_city_members_wf(#[trigger] cities@[j], i as int, 0int),
                forall|j: int| 0 <= j < cities@.len()
                    ==> (#[trigger] cities@[j]).shops@.len() == 0,
                forall|id: int| #![trigger spec_person_memberships(cities@, id)]
                    spec_person_memberships(cities@, id) == if 0 <= id < i {
                        1int
                    } else {
                        0int
                    },
            decreases cfg.num_persons - i,
        {
            let c = rand_below(cfg.num_cities as u64) as usize;
            let mut p = Person::default();
            p.name = labeled("Person", i);
            p.gold = cfg.start_gold;
            p.position = Position {
                x: rand_below(100) as i64,
                y: rand_below(100) as i64,
            };
            persons.push(Resident { person: p, alive: Alive(true), present: true });
            let ghost pre_cities = cities@;
            cities[c].persons.push(i);
            proof {
                assert(cities@ =~= pre_cities.update(c as int, cities@[c as int]));
                assert forall|id: int| #![trigger spec_person_memberships(cities@, id)]
                    spec_person_memberships(cities@, id) == if 0 <= id < i + 1 {
                        1int
                    } else {
                        0int
                    } by {
                    lemma_memberships_update(pre_cities, c as int, cities@[c as int], id);
                    lemma_count_in_push(pre_cities[c as int].persons@, i, id);
                    if id == i as int {
                        lemma_count_in_absent(pre_cities[c as int].persons@, id);
                    }
                }
            }
            i = i + 1;
        }
    }

    let mut shops: Vec<Shop> = Vec::new();
    if cfg.num_cities > 0 {
        proof {
            assert forall|id: int| spec_shop_memberships(cities@, id) == 0 by {
                lemma_shop_memberships_all_empty(cities@, id);
            }
        }
        let mut i: usize = 0;
        while i < cfg.num_shops
            invariant
                cfg.num_cities > 0,
                i <= cfg.num_shops,
                shops@.len() == i,
                cities@.len() == cfg.num_cities,
                persons@.len() == cfg.num_persons,
                forall|j: int| 0 <= j < i
                    ==> spec_default_stocked(#[trigger] shops@[j]) && shops@[j].wf(),
                forall|j: int| 0 <= j < persons@.len()
                    ==> spec_fresh_resident(#[trigger] persons@[j], cfg.start_gold),
                forall|j: int| 0 <= j < cities@.len()
                    ==> spec_city_members_wf(
                        #[trigger] cities@[j],
                        persons@.len() as int,
                        i as int,
                    ),
                forall|id: int| #![trigger spec_person_memberships(cities@, id)]
                    spec_person_memberships(cities@, id) == if 0 <= id < persons@.len() {
                        1int
                    } else {
                        0int
                    },
                forall|id: int| #![trigger spec_shop_memberships(cities@, id)]
                    spec_shop_memberships(cities@, id) == if 0 <= id < i {
                        1int
                    } else {
                        0int
                    },
            decreases cfg.num_shops - i,
        {
            let c = rand_below(cfg.num_cities as u64) as usize;
            let mut sh = Shop::default();
            sh.position = Position {
                x: rand_below(100) as i64,
                y: rand_below(100) as i64,
            };
            shops.push(sh);
            let ghost pre_cities = cities@;
            cities[c].shops.push(i);
            proof {
                assert(cities@ =~= pre_cities.update(c as int, cities@[c as int]));
                assert forall|id: int| #![trigger spec_shop_memberships(cities@, id)]
                    spec_shop_memberships(cities@, id) == if 0 <= id < i + 1 {
                        1int
                    } else {
                        0int
                    } by {
                    lemma_memberships_update(pre_cities, c as int, cities@[c as int], id);
                    lemma_count_in_push(pre_cities[c as int].shops@, i, id);
                    if id == i as int {
                        lemma_count_in_absent(pre_cities[c as int].shops@, id);
                    }
                }
                assert forall|id: int| #![trigger spec_person_memberships(cities@, id)]
                    spec_person_memberships(cities@, id) == if 0 <= id < persons@.len() {
                        1int
                    } else {
                        0int
                    } by {
                    lemma_memberships_update(pre_cities, c as int, cities@[c as int], id);
                }
            }
            i = i + 1;
        }
    }

    World {
        items,
        commodity: 0,
        persons,
        shops,
        cities,
        states,
        countries,
    }
}

/// One tick composes the seven system passes in their fixed order: there
/// are intermediate agent and shop states chained by the vitals, energy,
/// reasoning, planting, market, feeding and pricing pass relations, ending
/// at the tick's result. `c` is the traded commodity's catalog index and
/// `nv` its nutritional value in meter sub-points.
pub open spec fn spec_tick_rel(
    pre_p: Seq<Resident>,
    pre_s: Seq<Shop>,
    post_p: Seq<Resident>,
    post_s: Seq<Shop>,
    cfg: Config,
    c: int,
    nv: int,
    dt: u64,
    elapsed: u64,
) -> bool {
    exists|
        a: Seq<Resident>,
        b: Seq<Resident>,
        d: Seq<Resident>,
        e: Seq<Resident>,
        f: Seq<Resident>,
        sm: Seq<Shop>,
    |
        #![trigger spec_vitals_pass(pre_p, a, cfg, dt), spec_energy_pass(a, b, cfg, dt),
            spec_reasoning_pass(b, d, cfg, c), spec_planting_pass(d, e, cfg, c, dt),
            spec_market_sys(e, pre_s, f, sm, c)]
        {
        &&& spec_vitals_pass(pre_p, a, cfg, dt)
        &&& spec_energy_pass(a, b, cfg, dt)
        &&& spec_reasoning_pass(b, d, cfg, c)
        &&& spec_planting_pass(d, e, cfg, c, dt)
        &&& spec_market_sys(e, pre_s, f, sm, c)
        &&& spec_feeding_pass(f, post_p, nv, c)
        &&& spec_pricing_pass(sm, post_s, cfg, elapsed)
    }
}

/// One full simulation tick, in the fixed system order: vitals, energy,
/// reasoning, planting, market interaction, feeding, and the price engine.
/// `dt_ms` is the tick's time delta and `elapsed_ms` the simulated clock.
/// The mortality sweep runs on its own slower cadence and is not part of
/// the tick. The tick is exactly the composition of the seven passes;
/// well-formedness, the arena sizes, the catalog and the containment tree
/// are all preserved.
pub fn tick(w: &mut World, cfg: &Config, dt_ms: u64, elapsed_ms: u64)
    requires
        old(w).wf(),
    ensures
        final(w).wf(),
        final(w).persons@.len() == old(w).persons@.len(),
        final(w).shops@.len() == old(w).shops@.len(),
        final(w).items == old(w).items,
        final(w).commodity == old(w).commodity,
        final(w).cities == old(w).cities,
        final(w).states == old(w).states,
        final(w).countries == old(w).countries,
        spec_tick_rel(
            old(w).persons@,
            old(w).shops@,
            final(w).persons@,
            final(w).shops@,
            *cfg,
            old(w).commodity as int,
            spec_nutrition_subunits(
                old(w).items@[old(w).commodity as int].item_type,
            ),
            dt_ms,
            elapsed_ms,
        ),
{
    let commodity = w.commodity;
    crate::vitals::hunger_system(&mut w.persons, cfg, dt_ms);
    let ghost after_vitals = w.persons@;
    crate::vitals::energy_system(&mut w.persons, cfg, dt_ms);
    let ghost after_energy = w.persons@;
    crate::reasoning::reasoning_system(&mut w.persons, cfg, commodity);
    proof {
        assert forall|i: int| 0 <= i < w.persons@.len() implies
            (#[trigger] w.persons@[i]).person.vitals_wf() by {
            if after_energy[i].present && after_energy[i].alive.0 {
                let roll = choose|roll: u64| roll < 100 && w.persons@[i]
                    == crate::reasoning::spec_reasoned(
                        after_energy[i],
                        *cfg,
                        commodity as int,
                        roll,
                    );
            }
        }
    }
    let ghost after_reasoning = w.persons@;
    crate::processes::planting_system(&mut w.persons, cfg, commodity, dt_ms);
    proof {
        assert forall|i: int| 0 <= i < w.persons@.len() implies
            (#[trigger] w.persons@[i]).person.vitals_wf() by {
            assert(crate::processes::spec_planting_slot(
                after_reasoning[i],
                w.persons@[i],
                *cfg,
                commodity as int,
                dt_ms,
            ));
        }
    }
    let ghost after_planting = w.persons@;
    crate::market::shop_interaction_system(&mut w.persons, &mut w.shops, commodity);
    proof {
        assert forall|i: int| 0 <= i < w.persons@.len() implies
            (#[trigger] w.persons@[i]).person.vitals_wf() by {
            assert(crate::market::spec_market_slot(
                after_planting[i],
                w.persons@[i],
                commodity as int,
            ));
            if after_planting[i].present && after_planting[i].alive.0 {
                let pre = after_planting[i].person;
                let post = w.persons@[i].person;
                if pre.action is Buying {
                    if exists|price: u64| crate::market::spec_buy_post(
                        pre,
                        post,
                        price,
                        commodity as int,
                    ) {
                        let price = choose|price: u64| crate::market::spec_buy_post(
                            pre,
                            post,
                            price,
                            commodity as int,
                        );
                    }
                } else if pre.action is Selling {
                    if exists|price: u64| crate::market::spec_sell_post(
                        pre,
                        post,
                        price,
                        commodity as int,
                    ) {
                        let price = choose|price: u64| crate::market::spec_sell_post(
                            pre,
                            post,
                            price,
                            commodity as int,
                        );
                    }
                }
            }
        }
    }
    let ghost after_market_p = w.persons@;
    let ghost after_market_s = w.shops@;
    crate::processes::feeding_system(&mut w.persons, &w.items, commodity);
    crate::pricing::price_update_system(&mut w.shops, cfg, elapsed_ms);
    proof {
        let c = commodity as int;
        let nv = spec_nutrition_subunits(old(w).items@[c].item_type);
        assert(spec_vitals_pass(old(w).persons@, after_vitals, *cfg, dt_ms));
        assert(spec_energy_pass(after_vitals, after_energy, *cfg, dt_ms));
        assert(spec_reasoning_pass(after_energy, after_reasoning, *cfg, c));
        assert(spec_planting_pass(after_reasoning, after_planting, *cfg, c, dt_ms));
        assert(spec_market_sys(after_planting, old(w).shops@, after_market_p, after_market_s, c));
        assert(spec_feeding_pass(after_market_p, w.persons@, nv, c));
        assert(spec_pricing_pass(after_market_s, w.shops@, *cfg, elapsed_ms));
        assert(spec_tick_rel(
            old(w).persons@,
            old(w).shops@,
            w.persons@,
            w.shops@,
            *cfg,
            c,
            nv,
            dt_ms,
            elapsed_ms,
        ));
    }
}

/// Whether an agent slot survives the mortality sweep.
pub open spec fn spec_survivor(r: Resident) -> bool {
    r.present && r.alive.0
}

/// A city membership list after the sweep: the surviving ids, in order.
pub open spec fn spec_surviving_members(list: Seq<usize>, persons: Seq<Resident>) -> Seq<usize> {
    list.filter(
        |id: usize| id < persons.len() && spec_survivor(persons[id as int]),
    )
}

/// The sweep keeps exactly the occurrences of surviving ids in one
/// membership list: survivors keep all of theirs, everyone else keeps none.
pub proof fn lemma_count_in_surviving(list: Seq<usize>, persons: Seq<Resident>, id: int)
    ensures
        spec_count_in(spec_surviving_members(list, persons), id)
            == if 0 <= id < persons.len() && spec_survivor(persons[id]) {
                spec_count_in(list, id)
            } else {
                0int
            },
    decreases list.len(),
{
    reveal_with_fuel(Seq::filter, 2);
    if list.len() > 0 {
        lemma_count_in_surviving(list.drop_last(), persons, id);
        let sub = spec_surviving_members(list.drop_last(), persons);
        if list.last() < persons.len() && spec_survivor(persons[list.last() as int]) {
            lemma_count_in_push(sub, list.last(), id);
        }
    }
}

/// The mortality sweep removes agents from city membership exactly when
/// they are dead or retired: across all cities, a surviving agent keeps
/// every membership it had, and every other id is gone.
pub proof fn lemma_sweep_memberships(
    pre: Seq<City>,
    post: Seq<City>,
    persons: Seq<Resident>,
    id: int,
)
    requires
        post.len() == pre.len(),
        forall|c: int| 0 <= c < pre.len() ==> (#[trigger] post[c]).persons@
            == spec_surviving_members(pre[c].persons@, persons),
    ensures
        spec_person_memberships(post, id)
            == if 0 <= id < persons.len() && spec_survivor(persons[id]) {
                spec_person_memberships(pre, id)
            } else {
                0int
            },
    decreases pre.len(),
{
    if pre.len() > 0 {
        assert(post.drop_last().len() == pre.drop_last().len());
        lemma_sweep_memberships(pre.drop_last(), post.drop_last(), persons, id);
        lemma_count_in_surviving(pre.last().persons@, persons, id);
        assert(post[pre.len() - 1].persons@
            == spec_surviving_members(pre[pre.len() - 1].persons@, persons));
    }
}

/// The names of the agents a sweep retires: one entry per slot that is
/// present but no longer alive, in slot order.
pub open spec fn spec_removed_names(ps: Seq<Resident>) -> Seq<String>
    decreases ps.len(),
{
    if ps.len() == 0 {
        Seq::empty()
    } else if ps.last().present && !ps.last().alive.0 {
        spec_removed_names(ps.drop_last()).push(ps.last().person.name)
    } else {
        spec_removed_names(ps.drop_last())
    }
}

/// The mortality sweep: every dead agent's slot is retired in place and
/// its id is removed from its city's membership list; everything else,
/// including the order of the surviving members, is untouched. Returns
/// exactly the names of the agents removed in this sweep, in slot order.
pub fn despawn_dead_person_system(w: &mut World) -> (removed: Vec<String>)
    requires
        old(w).wf(),
    ensures
        removed@ == spec_removed_names(old(w).persons@),
        final(w).wf(),
        final(w).items == old(w).items,
        final(w).commodity == old(w).commodity,
        final(w).shops == old(w).shops,
        final(w).states == old(w).states,
        final(w).countries == old(w).countries,
        final(w).persons@.len() == old(w).persons@.len(),
        forall|i: int| 0 <= i < old(w).persons@.len() ==> #[trigger] final(w).persons@[i]
            == if old(w).persons@[i].present && !old(w).persons@[i].alive.0 {
                Resident { present: false, ..old(w).persons@[i] }
            } else {
                old(w).persons@[i]
            },
        final(w).cities@.len() == old(w).cities@.len(),
        forall|c: int| 0 <= c < old(w).cities@.len() ==> {
            &&& (#[trigger] final(w).cities@[c]).name == old(w).cities@[c].name
            &&& final(w).cities@[c].shops == old(w).cities@[c].shops
            &&& final(w).cities@[c].position == old(w).cities@[c].position
            &&& final(w).cities@[c].persons@
                == spec_surviving_members(old(w).cities@[c].persons@, old(w).persons@)
        },
{
    let mut removed: Vec<String> = Vec::new();

    let n = w.persons.len();
    let mut i: usize = 0;
    while i < n
        invariant
            i <= n,
            n == w.persons@.len(),
            n == old(w).persons@.len(),
            w.items == old(w).items,
            w.commodity == old(w).commodity,
            w.shops == old(w).shops,
            w.states == old(w).states,
            w.countries == old(w).countries,
            w.cities == old(w).cities,
            forall|j: int| i <= j < n ==> #[trigger] w.persons@[j] == old(w).persons@[j],
            forall|j: int| 0 <= j < i ==> #[trigger] w.persons@[j]
                == if old(w).persons@[j].present && !old(w).persons@[j].alive.0 {
                    Resident { present: false, ..old(w).persons@[j] }
                } else {
                    old(w).persons@[j]
                },
            removed@ == spec_removed_names(old(w).persons@.subrange(0, i as int)),
        decreases n - i,
    {
        if w.persons[i].present && !w.persons[i].alive.0 {
            removed.push(w.persons[i].person.name.clone());
            w.persons[i].present = false;
        }
        proof {
            let pre = old(w).persons@.subrange(0, i as int);
            let cur = old(w).persons@.subrange(0, i as int + 1);
            assert(cur.drop_last() =~= pre);
            assert(cur.last() == old(w).persons@[i as int]);
        }
        i = i + 1;
    }
    proof {
        assert(old(w).persons@.subrange(0, n as int) =~= old(w).persons@);
    }

    let ncities = w.cities.len();
    let mut c: usize = 0;
    while c < ncities
        invariant
            c <= ncities,
            ncities == w.cities@.len(),
            ncities == old(w).cities@.len(),
            w.items == old(w).items,
            w.commodity == old(w).commodity,
            w.shops == old(w).shops,
            w.states == old(w).states,
            w.countries == old(w).countries,
            w.persons@.len() == old(w).persons@.len(),
            forall|j: int| 0 <= j < w.persons@.len() ==> #[trigger] w.persons@[j]
                == if old(w).persons@[j].present && !old(w).persons@[j].alive.0 {
                    Resident { present: false, ..old(w).persons@[j] }
                } else {
                    old(w).persons@[j]
                },
            forall|j: int| c <= j < ncities ==> #[trigger] w.cities@[j] == old(w).cities@[j],
            forall|j: int| 0 <= j < c ==> {
                &&& (#[trigger] w.cities@[j]).name == old(w).cities@[j].name
                &&& w.cities@[j].shops == old(w).cities@[j].shops
                &&& w.cities@[j].position == old(w).cities@[j].position
                &&& w.cities@[j].persons@
                    == spec_surviving_members(old(w).cities@[j].persons@, old(w).persons@)
            },
            old(w).wf(),
        decreases ncities - c,
    {
        let m = w.cities[c].persons.len();
        let ghost member_list = w.cities@[c as int].persons@;
        let mut kept: Vec<usize> = Vec::new();
        let mut k: usize = 0;
        while k < m
            invariant
                k <= m,
                c < ncities,
                ncities == w.cities@.len(),
                ncities == old(w).cities@.len(),
                m == w.cities@[c as int].persons@.len(),
                w.cities@[c as int] == old(w).cities@[c as int],
                member_list == w.cities@[c as int].persons@,
                w.persons@.len() == old(w).persons@.len(),
                forall|j: int| 0 <= j < w.persons@.len() ==> #[trigger] w.persons@[j]
                    == if old(w).persons@[j].present && !old(w).persons@[j].alive.0 {
                        Resident { present: false, ..old(w).persons@[j] }
                    } else {
                        old(w).persons@[j]
                    },
                kept@ == spec_surviving_members(
                    member_list.subrange(0, k as int),
                    old(w).persons@,
                ),
                forall|t: int| 0 <= t < kept@.len()
                    ==> (#[trigger] kept@[t]) < w.persons@.len(),
                old(w).wf(),
            decreases m - k,
        {
            let id = w.cities[c].persons[k];
            proof {
                assert(spec_city_members_wf(
                    old(w).cities@[c as int],
                    old(w).persons@.len() as int,
                    old(w).shops@.len() as int,
                ));
                assert(member_list[k as int] < w.persons@.len());
            }
            if w.persons[id].present {
                kept.push(id);
            }
            proof {
                let pre = member_list.subrange(0, k as int);
                let cur = member_list.subrange(0, k as int + 1);
                assert(cur.drop_last() =~= pre);
                assert(cur.last() == member_list[k as int]);
                reveal_with_fuel(Seq::filter, 2);
                assert(kept@ == spec_surviving_members(cur, old(w).persons@));
            }
            k = k + 1;
        }
        proof {
            assert(member_list.subrange(0, m as int) =~= member_list);
        }
        w.cities[c].persons = kept;
        c = c + 1;
    }
    removed
}

} // verus!
