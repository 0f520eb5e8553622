//! Data model of the simulated economy.
//!
//! An item's stable identity (name and type tag) is kept apart from its
//! mutable market state (price, stock, transaction counters), and everything
//! is keyed by catalog index rather than by the full item value, so a price
//! change can never fragment an inventory or a shop record. The containment
//! hierarchy (country > state > city > person/shop) is an explicit arena:
//! each node holds plain indices into the world's vectors.

use vstd::prelude::*;
use vstd::string::StringExecFns;

use crate::arith::{sat_add, spec_sat_add};
use crate::config::{PRICE_LIMIT, COUNT_LIMIT, SUBUNITS, VITALS_MAX};

verus! {

/// Classification derived from the hunger meter each tick.
#[derive(Clone, Copy, Debug, PartialEq, Eq, Structural)]
pub enum PersonState {
    Healthy,
    Hungry,
}

/// The agent's current behavioral mode; drives which process system acts on
/// it this tick.
#[derive(Clone, Copy, Debug, PartialEq, Eq, Structural)]
pub enum PersonActions {
    Idle,
    Walking,
    Eating,
    Hungry,
    Planting,
    Buying,
    Selling,
}

#[derive(Clone, Copy, Debug, PartialEq, Eq, Structural)]
pub enum TerrainType {
    Grassland,
    Forest,
    Mountain,
    Desert,
}

/// The type tag of an item's stable identity.
#[derive(Clone, Copy, Debug, PartialEq, Eq, Structural)]
pub enum ItemType {
    Food { nutritional_value: u32 },
    Weapon { attack_damage: u32 },
}

/// Hunger restored by consuming one unit, in meter sub-points; only food
/// nourishes.
pub open spec fn spec_nutrition_subunits(t: ItemType) -> int {
    match t {
        ItemType::Food { nutritional_value } => nutritional_value * SUBUNITS,
        ItemType::Weapon { .. } => 0,
    }
}

/// An item's stable identity: name and type tag. Market state (price,
/// stock, counters) lives in [`ItemDetails`], keyed by catalog index.
#[derive(Clone, Debug)]
pub struct Item {
    pub name: String,
    pub item_type: ItemType,
}

#[derive(Clone, Copy, Debug, PartialEq, Eq, Structural)]
pub struct Apple {
    pub nutritional_value: u32,
}

#[derive(Clone, Copy, Debug, PartialEq, Eq, Structural)]
pub struct Position {
    pub x: i64,
    pub y: i64,
}

/// Liveness flag; flips to false when health reaches zero, and never back.
#[derive(Clone, Copy, Debug, PartialEq, Eq, Structural)]
pub struct Alive(pub bool);

/// One inventory slot: a catalog index and the held count.
#[derive(Clone, Copy, Debug, PartialEq, Eq, Structural)]
pub struct InvEntry {
    pub item: usize,
    pub count: u64,
}

/// A mapping from item identity (catalog index) to a held count, stored as
/// an association list; the count of an absent item is zero.
#[derive(Clone, Debug)]
pub struct Inventory(pub Vec<InvEntry>);

impl Inventory {
    /// The count associated with `item` in an entry list: the count of the
    /// first entry for `item`, or zero when there is none.
    pub open spec fn seq_count(s: Seq<InvEntry>, item: int) -> u64
        decreases s.len(),
    {
        if s.len() == 0 {
            0u64
        } else if s[0].item == item {
            s[0].count
        } else {
            Self::seq_count(s.subrange(1, s.len() as int), item)
        }
    }

    /// The held count of `item`; zero when the item is absent.
    pub open spec fn count(self, item: int) -> u64 {
        Self::seq_count(self.0@, item)
    }

    pub fn new() -> (inv: Inventory)
        ensures
            forall|k: int| inv.count(k) == 0,
    {
        let inv = Inventory(Vec::new());
        proof {
            assert forall|k: int| inv.count(k) == 0 by {
                Self::lemma_seq_count_no_match(inv.0@, k);
            }
        }
        inv
    }

    /// The held count of `item`.
    pub fn get(&self, item: usize) -> (c: u64)
        ensures
            c == self.count(item as int),
    {
        let n = self.0.len();
        proof {
            assert(self.0@.subrange(0, n as int) =~= self.0@);
        }
        let mut i: usize = 0;
        while i < n
            invariant
                i <= n,
                n == self.0@.len(),
                forall|j: int| 0 <= j < i ==> self.0@[j].item != item,
                Self::seq_count(self.0@, item as int)
                    == Self::seq_count(self.0@.subrange(i as int, n as int), item as int),
            decreases n - i,
        {
            let e = self.0[i];
            proof {
                assert(self.0@.subrange(i as int, n as int)[0] == self.0@[i as int]);
            }
            if e.item == item {
                return e.count;
            }
            proof {
                assert(self.0@.subrange(i as int, n as int).subrange(
                    1,
                    self.0@.subrange(i as int, n as int).len() as int,
                ) =~= self.0@.subrange(i + 1, n as int));
            }
            i = i + 1;
        }
        proof {
            assert(self.0@.subrange(n as int, n as int).len() == 0);
        }
        0
    }

    /// Adds `n` units of `item`, saturating at `u64::MAX`; every other
    /// item's count is unchanged.
    pub fn add(&mut self, item: usize, n: u64)
        ensures
            final(self).count(item as int)
                == spec_sat_add(old(self).count(item as int), n),
            forall|k: int| k != item ==> final(self).count(k) == old(self).count(k),
    {
        let len = self.0.len();
        let mut i: usize = 0;
        while i < len
            invariant
                i <= len,
                len == self.0@.len(),
                *self == *old(self),
                forall|j: int| 0 <= j < i ==> self.0@[j].item != item,
            decreases len - i,
        {
            let e = self.0[i];
            if e.item == item {
                let updated = InvEntry { item, count: sat_add(e.count, n) };
                self.0[i] = updated;
                proof {
                    Self::lemma_seq_count_skip_prefix(old(self).0@, i as int, item as int);
                    assert(old(self).0@.subrange(i as int, len as int)[0]
                        == old(self).0@[i as int]);
                    Self::lemma_seq_count_update_first(
                        old(self).0@,
                        i as int,
                        updated,
                        item as int,
                    );
                }
                return;
            }
            i = i + 1;
        }
        let e = InvEntry { item, count: n };
        self.0.push(e);
        proof {
            Self::lemma_seq_count_no_match(old(self).0@, item as int);
            Self::lemma_seq_count_push(old(self).0@, e);
        }
    }

    /// Removes the whole held count of `item` and returns it; every other
    /// item's count is unchanged.
    pub fn take_all(&mut self, item: usize) -> (taken: u64)
        ensures
            taken == old(self).count(item as int),
            final(self).count(item as int) == 0,
            forall|k: int| k != item ==> final(self).count(k) == old(self).count(k),
    {
        let len = self.0.len();
        let mut i: usize = 0;
        while i < len
            invariant
                i <= len,
                len == self.0@.len(),
                *self == *old(self),
                forall|j: int| 0 <= j < i ==> self.0@[j].item != item,
            decreases len - i,
        {
            let e = self.0[i];
            if e.item == item {
                let updated = InvEntry { item, count: 0 };
                self.0[i] = updated;
                proof {
                    Self::lemma_seq_count_skip_prefix(old(self).0@, i as int, item as int);
                    assert(old(self).0@.subrange(i as int, len as int)[0]
                        == old(self).0@[i as int]);
                    Self::lemma_seq_count_update_first(
                        old(self).0@,
                        i as int,
                        updated,
                        item as int,
                    );
                }
                return e.count;
            }
            i = i + 1;
        }
        proof {
            Self::lemma_seq_count_no_match(self.0@, item as int);
        }
        0
    }

    /// Consumes one unit of `item` if any is held; every other item's count
    /// is unchanged, and nothing changes when none is held.
    pub fn consume_one(&mut self, item: usize) -> (consumed: bool)
        ensures
            consumed == (old(self).count(item as int) > 0),
            consumed ==> final(self).count(item as int)
                == old(self).count(item as int) - 1,
            !consumed ==> *final(self) == *old(self),
            forall|k: int| k != item ==> final(self).count(k) == old(self).count(k),
    {
        let len = self.0.len();
        let mut i: usize = 0;
        while i < len
            invariant
                i <= len,
                len == self.0@.len(),
                *self == *old(self),
                forall|j: int| 0 <= j < i ==> self.0@[j].item != item,
            decreases len - i,
        {
            let e = self.0[i];
            if e.item == item {
                proof {
                    Self::lemma_seq_count_skip_prefix(old(self).0@, i as int, item as int);
                    assert(old(self).0@.subrange(i as int, len as int)[0]
                        == old(self).0@[i as int]);
                }
                if e.count > 0 {
                    let updated = InvEntry { item, count: e.count - 1 };
                    self.0[i] = updated;
                    proof {
                        Self::lemma_seq_count_update_first(
                            old(self).0@,
                            i as int,
                            updated,
                            item as int,
                        );
                    }
                    return true;
                }
                return false;
            }
            i = i + 1;
        }
        proof {
            Self::lemma_seq_count_no_match(self.0@, item as int);
        }
        false
    }

    /// Skipping a prefix with no entry for `item` leaves the count as it is.
    proof fn lemma_seq_count_skip_prefix(s: Seq<InvEntry>, i: int, item: int)
        requires
            0 <= i <= s.len(),
            forall|j: int| 0 <= j < i ==> s[j].item != item,
        ensures
            Self::seq_count(s, item) == Self::seq_count(s.subrange(i, s.len() as int), item),
        decreases i,
    {
        if i == 0 {
            assert(s.subrange(0, s.len() as int) =~= s);
        } else {
            let tail = s.subrange(1, s.len() as int);
            assert(tail.subrange(i - 1, tail.len() as int) =~= s.subrange(i, s.len() as int));
            Self::lemma_seq_count_skip_prefix(tail, i - 1, item);
            assert(Self::seq_count(s, item) == Self::seq_count(tail, item));
        }
    }

    /// A list without an entry for `item` counts zero for it.
    proof fn lemma_seq_count_no_match(s: Seq<InvEntry>, item: int)
        requires
            forall|j: int| 0 <= j < s.len() ==> s[j].item != item,
        ensures
            Self::seq_count(s, item) == 0,
        decreases s.len(),
    {
        if s.len() > 0 {
            Self::lemma_seq_count_no_match(s.subrange(1, s.len() as int), item);
        }
    }

    /// Replacing the first entry for `item` sets its count and leaves every
    /// other item's count alone.
    proof fn lemma_seq_count_update_first(s: Seq<InvEntry>, i: int, e: InvEntry, item: int)
        requires
            0 <= i < s.len(),
            forall|j: int| 0 <= j < i ==> s[j].item != item,
            s[i].item == item,
            e.item == item,
        ensures
            Self::seq_count(s.update(i, e), item) == e.count,
            forall|k: int| k != item
                ==> Self::seq_count(s.update(i, e), k) == Self::seq_count(s, k),
        decreases i,
    {
        let t = s.update(i, e);
        let ttail = t.subrange(1, t.len() as int);
        let stail = s.subrange(1, s.len() as int);
        if i == 0 {
            assert(ttail =~= stail);
            assert forall|k: int| k != item implies
                Self::seq_count(t, k) == Self::seq_count(s, k) by {
                assert(Self::seq_count(t, k) == Self::seq_count(ttail, k));
                assert(Self::seq_count(s, k) == Self::seq_count(stail, k));
            }
        } else {
            assert(ttail =~= stail.update(i - 1, e));
            Self::lemma_seq_count_update_first(stail, i - 1, e, item);
            assert(Self::seq_count(t, item) == Self::seq_count(ttail, item));
            assert(Self::seq_count(s, item) == Self::seq_count(stail, item));
            assert forall|k: int| k != item implies
                Self::seq_count(t, k) == Self::seq_count(s, k) by {
                assert(t[0] == s[0]);
                if s[0].item != k {
                    assert(Self::seq_count(t, k) == Self::seq_count(ttail, k));
                    assert(Self::seq_count(s, k) == Self::seq_count(stail, k));
                }
            }
        }
    }

    /// Appending an entry for a fresh item sets that item's count and leaves
    /// every other item's count alone.
    proof fn lemma_seq_count_push(s: Seq<InvEntry>, e: InvEntry)
        requires
            forall|j: int| 0 <= j < s.len() ==> s[j].item != e.item,
        ensures
            Self::seq_count(s.push(e), e.item as int) == e.count,
            forall|k: int| k != e.item
                ==> Self::seq_count(s.push(e), k) == Self::seq_count(s, k),
        decreases s.len(),
    {
        let t = s.push(e);
        let ttail = t.subrange(1, t.len() as int);
        if s.len() == 0 {
            assert(ttail =~= s);
            assert forall|k: int| k != e.item implies
                Self::seq_count(t, k) == Self::seq_count(s, k) by {
                assert(Self::seq_count(t, k) == Self::seq_count(ttail, k));
                assert(Self::seq_count(s, k) == 0);
            }
        } else {
            let stail = s.subrange(1, s.len() as int);
            assert(ttail =~= stail.push(e));
            Self::lemma_seq_count_push(stail, e);
            assert(Self::seq_count(t, e.item as int) == Self::seq_count(ttail, e.item as int));
            assert forall|k: int| k != e.item implies
                Self::seq_count(t, k) == Self::seq_count(s, k) by {
                assert(t[0] == s[0]);
                if s[0].item != k {
                    assert(Self::seq_count(t, k) == Self::seq_count(ttail, k));
                    assert(Self::seq_count(s, k) == Self::seq_count(stail, k));
                }
            }
        }
    }
}

/// The market state a shop keeps for one item: unit price, stock on hand,
/// and the (sales, purchases) counters accumulated since the last price
/// update.
#[derive(Clone, Copy, Debug, PartialEq, Eq, Structural)]
pub struct ItemDetails {
    pub price: u64,
    pub stock: u64,
    pub sales: u64,
    pub purchases: u64,
}

impl ItemDetails {
    /// Prices stay in `1..=PRICE_LIMIT`; counters stay within `COUNT_LIMIT`.
    pub open spec fn wf(self) -> bool {
        &&& 1 <= self.price <= PRICE_LIMIT
        &&& self.sales <= COUNT_LIMIT
        &&& self.purchases <= COUNT_LIMIT
    }
}

/// One append-only price sample: (timestamp in ms, unit price).
#[derive(Clone, Copy, Debug, PartialEq, Eq, Structural)]
pub struct PriceRecord {
    pub timestamp: u64,
    pub price: u64,
}

/// A shop's record for one catalog item: market state plus the append-only
/// price history. Keeping both in one entry makes it impossible for an item
/// to have a history without ever having been stocked.
#[derive(Clone, Debug)]
pub struct ShopItem {
    pub item: usize,
    pub details: ItemDetails,
    pub history: Vec<PriceRecord>,
}

impl ShopItem {
    pub open spec fn wf(self) -> bool {
        &&& self.details.wf()
        &&& forall|j: int| 0 <= j < self.history@.len()
            ==> 1 <= #[trigger] self.history@[j].price <= PRICE_LIMIT
    }
}

/// A shop: per-item market records and a position.
#[derive(Clone, Debug)]
pub struct Shop {
    pub items: Vec<ShopItem>,
    pub position: Position,
}

impl Shop {
    pub open spec fn wf(self) -> bool {
        forall|i: int| 0 <= i < self.items@.len() ==> (#[trigger] self.items@[i]).wf()
    }

    /// The index of this shop's record for `item`: the first entry with
    /// that catalog index, or `None` when the shop has never stocked it.
    pub fn find_item(&self, item: usize) -> (r: Option<usize>)
        ensures
            match r {
                Some(e) => e < self.items@.len() && self.items@[e as int].item == item
                    && forall|j: int| 0 <= j < e ==> self.items@[j].item != item,
                None => forall|j: int| 0 <= j < self.items@.len()
                    ==> self.items@[j].item != item,
            },
    {
        let n = self.items.len();
        let mut i: usize = 0;
        while i < n
            invariant
                i <= n,
                n == self.items@.len(),
                forall|j: int| 0 <= j < i ==> self.items@[j].item != item,
            decreases n - i,
        {
            if self.items[i].item == item {
                return Some(i);
            }
            i = i + 1;
        }
        None
    }
}

/// An agent: vitals, classification, current action, gold, inventory,
/// position and the planting dwell timer (ms).
#[derive(Clone, Debug)]
pub struct Person {
    pub name: String,
    pub health: u64,
    pub hunger: u64,
    pub energy: u64,
    pub state: PersonState,
    pub action: PersonActions,
    pub gold: u64,
    pub inventory: Inventory,
    pub position: Position,
    pub planting_time: u64,
}

impl Person {
    /// The vital meters stay in `0..=VITALS_MAX`.
    pub open spec fn vitals_wf(self) -> bool {
        &&& self.hunger <= VITALS_MAX
        &&& self.health <= VITALS_MAX
        &&& self.energy <= VITALS_MAX
    }
}

/// An arena slot for one agent: the agent, its liveness flag, and whether
/// the slot is still part of the world (the mortality sweep retires slots of
/// dead agents instead of shifting indices).
#[derive(Clone, Debug)]
pub struct Resident {
    pub person: Person,
    pub alive: Alive,
    pub present: bool,
}

/// A city: the indices of its member persons and shops in the world's
/// arenas.
#[derive(Clone, Debug)]
pub struct City {
    pub name: String,
    pub shops: Vec<usize>,
    pub persons: Vec<usize>,
    pub position: Position,
}

/// A state: the indices of its member cities.
#[derive(Clone, Debug)]
pub struct State {
    pub name: String,
    pub cities: Vec<usize>,
    pub terrain_type: TerrainType,
}

/// A country: the indices of its member states.
#[derive(Clone, Debug)]
pub struct Country {
    pub name: String,
    pub estates: Vec<usize>,
    pub population: usize,
    pub total_gold: u64,
}

impl Item {
    /// A food item identity.
    pub fn food(name: String, nutritional_value: u32) -> (it: Item)
        ensures
            it.name == name,
            it.item_type == (ItemType::Food { nutritional_value }),
    {
        Item { name, item_type: ItemType::Food { nutritional_value } }
    }

    /// A weapon item identity.
    pub fn weapon(name: String, attack_damage: u32) -> (it: Item)
        ensures
            it.name == name,
            it.item_type == (ItemType::Weapon { attack_damage }),
    {
        Item { name, item_type: ItemType::Weapon { attack_damage } }
    }
}

/// The canonical traded commodity: the staple food of every default shop.
pub fn default_apple() -> (it: Item)
    ensures
        it.name@ == "Apple"@,
        it.item_type == (ItemType::Food { nutritional_value: 50 }),
{
    Item::food(String::from_str("Apple"), 50)
}

impl Default for Person {
    /// A fresh agent: full meters, Healthy, Idle, 100 gold, empty
    /// inventory, at the origin.
    fn default() -> (p: Person)
        ensures
            p.name@ == "Person"@,
            p.health == VITALS_MAX,
            p.hunger == VITALS_MAX,
            p.energy == VITALS_MAX,
            p.state == PersonState::Healthy,
            p.action == PersonActions::Idle,
            p.gold == 100,
            forall|k: int| p.inventory.count(k) == 0,
            p.position == (Position { x: 0, y: 0 }),
            p.planting_time == 0,
            p.vitals_wf(),
    {
        Person {
            name: String::from_str("Person"),
            health: VITALS_MAX,
            hunger: VITALS_MAX,
            energy: VITALS_MAX,
            state: PersonState::Healthy,
            action: PersonActions::Idle,
            gold: 100,
            inventory: Inventory::new(),
            position: Position { x: 0, y: 0 },
            planting_time: 0,
        }
    }
}

impl Default for Shop {
    /// A shop stocking the staple commodity (catalog index 0) at price 10
    /// with stock 10, zero counters, and a one-sample price history.
    fn default() -> (s: Shop)
        ensures
            s.items@.len() == 1,
            s.items@[0].item == 0,
            s.items@[0].details
                == (ItemDetails { price: 10, stock: 10, sales: 0, purchases: 0 }),
            s.items@[0].history@ =~= seq![PriceRecord { timestamp: 0, price: 10 }],
            s.position == (Position { x: 100, y: 100 }),
            s.wf(),
    {
        let details = ItemDetails { price: 10, stock: 10, sales: 0, purchases: 0 };
        let mut history: Vec<PriceRecord> = Vec::new();
        history.push(PriceRecord { timestamp: 0, price: 10 });
        let mut items: Vec<ShopItem> = Vec::new();
        items.push(ShopItem { item: 0, details, history });
        Shop { items, position: Position { x: 100, y: 100 } }
    }
}

impl Default for City {
    fn default() -> (c: City)
        ensures
            c.name@ == "Default City"@,
            c.shops@.len() == 0,
            c.persons@.len() == 0,
            c.position == (Position { x: 0, y: 0 }),
    {
        City {
            name: String::from_str("Default City"),
            shops: Vec::new(),
            persons: Vec::new(),
            position: Position { x: 0, y: 0 },
        }
    }
}

impl Default for State {
    fn default() -> (s: State)
        ensures
            s.name@ == "Default Estate"@,
            s.cities@.len() == 0,
            s.terrain_type == TerrainType::Grassland,
    {
        State {
            name: String::from_str("Default Estate"),
            cities: Vec::new(),
            terrain_type: TerrainType::Grassland,
        }
    }
}

impl Default for Country {
    fn default() -> (c: Country)
        ensures
            c.name@ == "Default Country"@,
            c.estates@.len() == 0,
            c.population == 0,
            c.total_gold == 0,
    {
        Country {
            name: String::from_str("Default Country"),
            estates: Vec::new(),
            population: 0,
            total_gold: 0,
        }
    }
}

} // verus!
