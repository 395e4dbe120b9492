//! The table of live food items: a fixed-capacity map from board cells
//! to [`Food`] values, backed by `heapless::FnvIndexMap`.
//!
//! The backing map is an outside collection; the handful of operations
//! the game needs are declared here with trusted contracts over
//! [`food_entries`], the mathematical contents of the map, and the
//! public [`FoodMap`] type is verified against them.

use vstd::prelude::*;
use crate::food::Food;
use crate::geometry::Point;

verus! {

/// Capacity of the food table. `heapless::IndexMap` requires a power of
/// two greater than one.
pub const FOOD_CAP: usize = 8;

/// The key under which a board cell is stored in the food table.
pub open spec fn point_key(p: Point) -> (u8, u8) {
    (p.x, p.y)
}

#[verifier::external_type_specification]
#[verifier::external_body]
#[verifier::reject_recursive_types(K)]
#[verifier::reject_recursive_types(V)]
#[verifier::reject_recursive_types(S)]
pub struct ExIndexMap<K, V, S, const N: usize>(heapless::IndexMap<K, V, S, N>);

#[verifier::external_type_specification]
#[verifier::external_body]
#[verifier::reject_recursive_types(H)]
pub struct ExBuildHasherDefault<H>(hash32::BuildHasherDefault<H>);

#[verifier::external_type_specification]
#[verifier::external_body]
pub struct ExFnvHasher(hash32::FnvHasher);

/// The contents of a food table with nothing in it.
pub open spec fn no_food() -> Map<(u8, u8), Food> {
    Map::empty()
}

/// The key-value pairs a food table holds.
pub uninterp spec fn food_entries(m: heapless::FnvIndexMap<(u8, u8), Food, FOOD_CAP>) -> Map<(u8, u8), Food>;

/// Relies on heapless::FnvIndexMap::new: the new map is empty.
#[verifier::external_body]
fn table_new() -> (m: heapless::FnvIndexMap<(u8, u8), Food, FOOD_CAP>)
    ensures
        food_entries(m) == no_food(),
{
    heapless::FnvIndexMap::new()
}

/// Relies on heapless::IndexMap::len: the number of entries.
#[verifier::external_body]
fn table_len(m: &heapless::FnvIndexMap<(u8, u8), Food, FOOD_CAP>) -> (n: usize)
    ensures
        n == food_entries(*m).dom().len(),
{
    m.len()
}

/// Relies on heapless::IndexMap::insert: an existing key has its value
/// replaced; a new key is added while there is room, and handed back
/// unchanged once the map is full.
#[verifier::external_body]
fn table_insert(m: &mut heapless::FnvIndexMap<(u8, u8), Food, FOOD_CAP>, k: (u8, u8), v: Food) -> (r: Result<
    Option<Food>,
    (),
>)
    ensures
        food_entries(*old(m)).dom().contains(k) ==> r is Ok && r->Ok_0 == Some(
            food_entries(*old(m))[k],
        ) && food_entries(*final(m)) == food_entries(*old(m)).insert(k, v),
        !food_entries(*old(m)).dom().contains(k) && food_entries(*old(m)).dom().len() < FOOD_CAP
            ==> r is Ok && r->Ok_0 is None && food_entries(*final(m)) == food_entries(
            *old(m),
        ).insert(k, v),
        !food_entries(*old(m)).dom().contains(k) && food_entries(*old(m)).dom().len() >= FOOD_CAP
            ==> r is Err && *final(m) == *old(m),
{
    match m.insert(k, v) {
        Ok(prev) => Ok(prev),
        Err(_) => Err(()),
    }
}

/// Relies on heapless::IndexMap::remove: a present key is removed and
/// its value returned; an absent key leaves the map unchanged.
#[verifier::external_body]
fn table_remove(m: &mut heapless::FnvIndexMap<(u8, u8), Food, FOOD_CAP>, k: (u8, u8)) -> (r: Option<
    Food,
>)
    ensures
        food_entries(*old(m)).dom().contains(k) ==> r == Some(food_entries(*old(m))[k])
            && food_entries(*final(m)) == food_entries(*old(m)).remove(k),
        !food_entries(*old(m)).dom().contains(k) ==> r is None && *final(m) == *old(m),
{
    m.remove(&k)
}

/// Relies on heapless::IndexMap::contains_key: whether the key has an
/// entry in the map.
#[verifier::external_body]
fn table_contains(m: &heapless::FnvIndexMap<(u8, u8), Food, FOOD_CAP>, k: (u8, u8)) -> (r: bool)
    ensures
        r == food_entries(*m).dom().contains(k),
{
    m.contains_key(&k)
}

/// Relies on heapless::IndexMap::iter: one pair per entry, keys unique.
#[verifier::external_body]
fn table_pairs(m: &heapless::FnvIndexMap<(u8, u8), Food, FOOD_CAP>) -> (r: Vec<((u8, u8), Food)>)
    ensures
        r@.len() == food_entries(*m).dom().len(),
        forall|i: int|
            0 <= i < r@.len() ==> food_entries(*m).contains_pair(
                (#[trigger] r@[i]).0,
                r@[i].1,
            ),
        forall|i: int, j: int| 0 <= i < j < r@.len() ==> r@[i].0 != r@[j].0,
        forall|k: (u8, u8)|
            #[trigger] food_entries(*m).dom().contains(k) ==> exists|i: int|
                0 <= i < r@.len() && r@[i].0 == k,
{
    m.iter().map(|(k, v)| (*k, *v)).collect()
}

/// The error returned when an insertion would exceed the table's
/// fixed capacity.
#[derive(Debug, Clone, Copy, PartialEq, Eq, Structural)]
pub struct CapacityError;

/// A bounded mapping from board cells to live food items.
pub struct FoodMap {
    table: heapless::FnvIndexMap<(u8, u8), Food, FOOD_CAP>,
}

impl View for FoodMap {
    type V = Map<(u8, u8), Food>;

    closed spec fn view(&self) -> Map<(u8, u8), Food> {
        food_entries(self.table)
    }
}

impl FoodMap {
    /// The table is bounded by its capacity and every stored food item
    /// is a valid animation state.
    pub open spec fn wf(self) -> bool {
        &&& self@.dom().finite()
        &&& self@.dom().len() <= FOOD_CAP
        &&& forall|k: (u8, u8)| #[trigger] self@.dom().contains(k) ==> self@[k].wf()
    }

    /// An empty food table.
    pub fn new() -> (r: Self)
        ensures
            r.wf(),
            r@ == no_food(),
    {
        FoodMap { table: table_new() }
    }

    /// The number of live food items.
    pub fn len(&self) -> (n: usize)
        ensures
            n == self@.dom().len(),
    {
        table_len(&self.table)
    }

    /// Whether a food item lives at cell `p`.
    pub fn contains(&self, p: Point) -> (r: bool)
        ensures
            r == self@.dom().contains(point_key(p)),
    {
        table_contains(&self.table, (p.x, p.y))
    }

    /// Store `f` at cell `p`. An existing item at `p` is replaced and
    /// returned; a new cell is added while there is room, and refused
    /// with [`CapacityError`] once the table is full.
    pub fn insert(&mut self, p: Point, f: Food) -> (r: Result<Option<Food>, CapacityError>)
        requires
            old(self).wf(),
            f.wf(),
        ensures
            final(self).wf(),
            old(self)@.dom().contains(point_key(p)) ==> r is Ok && r->Ok_0 == Some(
                old(self)@[point_key(p)],
            ) && final(self)@ == old(self)@.insert(point_key(p), f),
            !old(self)@.dom().contains(point_key(p)) && old(self)@.dom().len() < FOOD_CAP ==> r
                is Ok && r->Ok_0 is None && final(self)@ == old(self)@.insert(point_key(p), f),
            !old(self)@.dom().contains(point_key(p)) && old(self)@.dom().len() >= FOOD_CAP ==> r
                is Err && final(self)@ == old(self)@,
    {
        match table_insert(&mut self.table, (p.x, p.y), f) {
            Ok(prev) => Ok(prev),
            Err(()) => Err(CapacityError),
        }
    }

    /// Remove and return the food item at cell `p`, if one lives there.
    pub fn remove(&mut self, p: Point) -> (r: Option<Food>)
        requires
            old(self).wf(),
        ensures
            final(self).wf(),
            old(self)@.dom().contains(point_key(p)) ==> r == Some(old(self)@[point_key(p)])
                && final(self)@ == old(self)@.remove(point_key(p)),
            !old(self)@.dom().contains(point_key(p)) ==> r is None && final(self)@ == old(self)@,
    {
        table_remove(&mut self.table, (p.x, p.y))
    }

    /// All live entries, one pair per cell, in no promised order.
    pub fn entries(&self) -> (r: Vec<((u8, u8), Food)>)
        ensures
            r@.len() == self@.dom().len(),
            forall|i: int|
                0 <= i < r@.len() ==> self@.contains_pair((#[trigger] r@[i]).0, r@[i].1),
            forall|i: int, j: int| 0 <= i < j < r@.len() ==> r@[i].0 != r@[j].0,
            forall|k: (u8, u8)|
                #[trigger] self@.dom().contains(k) ==> exists|i: int|
                    0 <= i < r@.len() && r@[i].0 == k,
    {
        table_pairs(&self.table)
    }
}

} // verus!
