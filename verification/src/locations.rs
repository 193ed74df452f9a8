//! The registry that records, for every live explorer, the planet it stands on.
use dashmap::DashMap;
use vstd::prelude::*;

verus! {

#[verifier::external_type_specification]
#[verifier::external_body]
#[verifier::reject_recursive_types(K)]
#[verifier::reject_recursive_types(V)]
#[verifier::reject_recursive_types(S)]
pub struct ExDashMap<K, V, S>(DashMap<K, V, S>);

/// The concurrent map type that backs the registry.
pub type LocationMap = DashMap<u32, u32>;

/// What a location map holds: explorer id to planet id.
pub uninterp spec fn location_entries(m: DashMap<u32, u32>) -> Map<u32, u32>;

/// `DashMap::new`: a fresh map holds no entry.
#[verifier::external_body]
fn dashmap_new() -> (fresh: LocationMap)
    ensures
        location_entries(fresh) =~= Map::empty(),
{
    DashMap::new()
}

/// `DashMap::insert`: the map then holds `value` under `key`, and the value
/// held there before, if any, is returned.
#[verifier::external_body]
fn dashmap_insert(m: &mut LocationMap, key: u32, value: u32) -> (previous: Option<u32>)
    ensures
        location_entries(*final(m)) == location_entries(*old(m)).insert(key, value),
        previous is Some <==> location_entries(*old(m)).contains_key(key),
        previous is Some ==> previous->0 == location_entries(*old(m))[key],
{
    m.insert(key, value)
}

/// `DashMap::remove`: the entry under `key` leaves the map, and the removed
/// key and value are returned if there was one.
#[verifier::external_body]
fn dashmap_remove(m: &mut LocationMap, key: u32) -> (removed: Option<(u32, u32)>)
    ensures
        location_entries(*final(m)) == location_entries(*old(m)).remove(key),
        removed is Some <==> location_entries(*old(m)).contains_key(key),
        removed is Some ==> removed->0 == (key, location_entries(*old(m))[key]),
{
    m.remove(&key)
}

/// `DashMap::get`: the value under `key`, read through the returned guard.
#[verifier::external_body]
fn dashmap_get(m: &LocationMap, key: u32) -> (found: Option<u32>)
    ensures
        found is Some <==> location_entries(*m).contains_key(key),
        found is Some ==> found->0 == location_entries(*m)[key],
{
    match m.get(&key) {
        Some(entry) => Some(*entry),
        None => None,
    }
}

/// `DashMap::is_empty`: whether the map holds no entry (its length, the sum
/// of its shards' lengths, is zero).
#[verifier::external_body]
fn dashmap_is_empty(m: &LocationMap) -> (empty: bool)
    ensures
        empty <==> location_entries(*m) =~= Map::empty(),
{
    m.is_empty()
}

/// Explorer locations, keyed by explorer id.
///
/// The registry owns its map and changes it only through `&mut self`, so the
/// contracts below describe every change; the map is never shared with
/// writers outside the registry.
pub struct ExplorerLocations {
    map: DashMap<u32, u32>,
}

impl View for ExplorerLocations {
    type V = Map<u32, u32>;

    closed spec fn view(&self) -> Map<u32, u32> {
        location_entries(self.map)
    }
}

impl ExplorerLocations {
    /// An empty registry.
    pub fn new() -> (r: Self)
        ensures
            r@ == Map::<u32, u32>::empty(),
    {
        ExplorerLocations { map: dashmap_new() }
    }

    /// Records that `explorer_id` stands on `planet_id`; returns the planet it
    /// was recorded on before, if any.
    pub fn place(&mut self, explorer_id: u32, planet_id: u32) -> (previous: Option<u32>)
        ensures
            final(self)@ == old(self)@.insert(explorer_id, planet_id),
            previous == (if old(self)@.contains_key(explorer_id) {
                Some(old(self)@[explorer_id])
            } else {
                None
            }),
    {
        dashmap_insert(&mut self.map, explorer_id, planet_id)
    }

    /// Forgets `explorer_id`; returns the planet it was recorded on, if any.
    pub fn forget(&mut self, explorer_id: u32) -> (removed: Option<u32>)
        ensures
            final(self)@ == old(self)@.remove(explorer_id),
            removed == (if old(self)@.contains_key(explorer_id) {
                Some(old(self)@[explorer_id])
            } else {
                None
            }),
    {
        match dashmap_remove(&mut self.map, explorer_id) {
            Some((_, planet_id)) => Some(planet_id),
            None => None,
        }
    }

    /// The planet `explorer_id` stands on, if it is recorded.
    pub fn location_of(&self, explorer_id: u32) -> (found: Option<u32>)
        ensures
            found == (if self@.contains_key(explorer_id) {
                Some(self@[explorer_id])
            } else {
                None
            }),
    {
        dashmap_get(&self.map, explorer_id)
    }

    /// Whether no explorer is recorded.
    pub fn is_empty(&self) -> (empty: bool)
        ensures
            empty <==> self@ == Map::<u32, u32>::empty(),
    {
        dashmap_is_empty(&self.map)
    }
}

} // verus!
