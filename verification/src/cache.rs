//! Cache of resolved locations, keyed by postal code.
use vstd::prelude::*;
use dashmap::DashMap;
use crate::location::{Location, LocationView, location_views, clone_locations};

verus! {

/// `dashmap::DashMap`, the concurrent hash map that backs the cache. Its
/// contents are known only through [`stored_locations`].
#[verifier::external_type_specification]
#[verifier::external_body]
#[verifier::reject_recursive_types(K)]
#[verifier::reject_recursive_types(V)]
#[verifier::reject_recursive_types(S)]
pub struct ExDashMap<K, V, S>(DashMap<K, V, S>);

/// What a concurrent map of location lists holds: each stored postal code
/// with the list stored under it.
pub uninterp spec fn stored_locations(map: DashMap<String, Vec<Location>>) -> Map<Seq<char>, Seq<LocationView>>;

/// `DashMap::new`: a freshly made map holds nothing.
#[verifier::external_body]
fn map_new() -> (fresh: DashMap<String, Vec<Location>>)
    ensures
        stored_locations(fresh) == (Map::<Seq<char>, Seq<LocationView>>::empty()),
{
    DashMap::new()
}

/// `DashMap::get`: looks the key up and hands out a copy of the list stored
/// under it, or `None` where the key is not stored. The guard that the map
/// returns is released before the copy is handed out, so no reference into
/// the map outlives the call.
#[verifier::external_body]
fn map_get(map: &DashMap<String, Vec<Location>>, key: &str) -> (found: Option<Vec<Location>>)
    ensures
        match found {
            Some(list) => stored_locations(*map).contains_key(key@)
                && location_views(list@) == stored_locations(*map)[key@],
            None => !stored_locations(*map).contains_key(key@),
        },
{
    map.get(key).map(|entry| clone_locations(entry.value()))
}

/// `DashMap::insert`: stores the list under the key, replacing what was
/// stored under that key before; every other key keeps its list. The map is
/// taken exclusively, so nothing else reads or writes it during the call.
#[verifier::external_body]
fn map_insert(map: &mut DashMap<String, Vec<Location>>, key: String, value: Vec<Location>)
    ensures
        stored_locations(*final(map)) == stored_locations(*old(map)).insert(key@, location_views(value@)),
{
    map.insert(key, value);
}

/// Process-lifetime cache of the location lists resolved so far.
///
/// Entries are never evicted and never expire. Writing takes the cache
/// exclusively; callers that share one cache among requests guard it
/// themselves.
pub struct LocationCache {
    entries: DashMap<String, Vec<Location>>,
}

impl View for LocationCache {
    type V = Map<Seq<char>, Seq<LocationView>>;

    closed spec fn view(&self) -> Map<Seq<char>, Seq<LocationView>> {
        stored_locations(self.entries)
    }
}

impl LocationCache {
    /// An empty cache.
    pub fn new() -> (cache: LocationCache)
        ensures
            cache@ == (Map::<Seq<char>, Seq<LocationView>>::empty()),
    {
        LocationCache { entries: map_new() }
    }

    /// The list cached for `postal_code`, if there is one.
    pub fn get(&self, postal_code: &str) -> (found: Option<Vec<Location>>)
        ensures
            match found {
                Some(list) => self@.contains_key(postal_code@)
                    && location_views(list@) == self@[postal_code@],
                None => !self@.contains_key(postal_code@),
            },
    {
        map_get(&self.entries, postal_code)
    }

    /// Caches `locations` for `postal_code`; the last write wins.
    pub fn put(&mut self, postal_code: String, locations: Vec<Location>)
        ensures
            final(self)@ == old(self)@.insert(postal_code@, location_views(locations@)),
    {
        map_insert(&mut self.entries, postal_code, locations);
    }
}

} // verus!
