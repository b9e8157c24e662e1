//! [`dashmap::DashMap`] as the cache of a service.

use vstd::prelude::*;

use crate::cache::{found_after_insert, Cache, CopyCache};
use crate::key::{same_key, CacheKey};

verus! {

/// [`dashmap::DashMap`], a hash map.
#[verifier::external_type_specification]
#[verifier::external_body]
#[verifier::reject_recursive_types(K)]
#[verifier::reject_recursive_types(V)]
#[verifier::reject_recursive_types(S)]
pub struct ExDashMap<K, V, S>(dashmap::DashMap<K, V, S>);

/// What a [`dashmap::DashMap`] holds: every key that is found in it, whichever of the keys that equal
/// it was inserted, with its value.
pub uninterp spec fn dash_values(map: dashmap::DashMap<CacheKey, usize>) -> Map<CacheKey, usize>;

/// The value that is found for a key.
pub open spec fn dash_value(map: dashmap::DashMap<CacheKey, usize>, key: CacheKey) -> Option<
    usize,
> {
    if dash_values(map).dom().contains(key) {
        Some(dash_values(map)[key])
    } else {
        None
    }
}

/// `DashMap::default`: an empty map.
#[verifier::external_body]
fn dash_new() -> (map: dashmap::DashMap<CacheKey, usize>)
    ensures
        forall|k: CacheKey| !#[trigger] dash_values(map).dom().contains(k),
{
    dashmap::DashMap::default()
}

/// `DashMap::get`: the value for the key.
#[verifier::external_body]
fn dash_get(map: &dashmap::DashMap<CacheKey, usize>, key: &CacheKey) -> (val: Option<usize>)
    ensures
        val == dash_value(*map, *key),
{
    match dashmap::DashMap::get(map, key) {
        Some(slot) => Some(*slot),
        None => None,
    }
}

/// `DashMap::get_mut`: if there is a value for the key, it is overwritten, for this key and those
/// that equal it.
#[verifier::external_body]
fn dash_set(map: &mut dashmap::DashMap<CacheKey, usize>, key: &CacheKey, val: usize) -> (present:
    bool)
    ensures
        present == dash_value(*old(map), *key) is Some,
        forall|k: CacheKey| #[trigger]
            dash_value(*final(map), k) == (if present && same_key(*key, k) {
                Some(val)
            } else {
                dash_value(*old(map), k)
            }),
{
    match dashmap::DashMap::get_mut(map, key) {
        Some(mut slot) => {
            *slot = val;
            true
        },
        None => false,
    }
}

/// `DashMap::entry` and `or_insert`: if there is no value for the key, the value is inserted, for this
/// key and those that equal it.
#[verifier::external_body]
fn dash_insert_if_vacant(map: &mut dashmap::DashMap<CacheKey, usize>, key: CacheKey, val: usize)
    ensures
        forall|k: CacheKey| #[trigger]
            dash_value(*final(map), k) == found_after_insert(
                dash_value(*old(map), k),
                k,
                dash_value(*old(map), key) is Some,
                key,
                val,
            ),
{
    map.entry(key).or_insert(val);
}

/// `DashMap::remove`: the value for the key is taken out, for this key and those that equal it.
#[verifier::external_body]
fn dash_remove(map: &mut dashmap::DashMap<CacheKey, usize>, key: &CacheKey) -> (val: Option<usize>)
    ensures
        val == dash_value(*old(map), *key),
        val is None ==> forall|k: CacheKey| #[trigger]
            dash_value(*final(map), k) == dash_value(*old(map), k),
        forall|k: CacheKey| #[trigger]
            dash_value(*final(map), k) == (if same_key(*key, k) {
                None
            } else {
                dash_value(*old(map), k)
            }),
{
    match dashmap::DashMap::remove(map, key) {
        Some((_, val)) => Some(val),
        None => None,
    }
}

/// `DashMap::clone`: every key finds the value that it finds in the map.
#[verifier::external_body]
fn dash_clone(map: &dashmap::DashMap<CacheKey, usize>) -> (copy: dashmap::DashMap<CacheKey, usize>)
    ensures
        forall|k: CacheKey| #[trigger] dash_value(copy, k) == dash_value(*map, k),
{
    map.clone()
}

impl Cache<CacheKey, usize> for dashmap::DashMap<CacheKey, usize> {
    open spec fn value_at(&self, key: CacheKey) -> Option<usize> {
        dash_value(*self, key)
    }

    open spec fn wf(&self) -> bool {
        forall|a: CacheKey, b: CacheKey|
            #![trigger dash_value(*self, a), dash_value(*self, b)]
            same_key(a, b) ==> dash_value(*self, a) == dash_value(*self, b)
    }

    fn empty() -> (cache: Self) {
        dash_new()
    }

    fn get(&self, key: &CacheKey) -> (val: Option<usize>) {
        dash_get(self, key)
    }

    fn set(&mut self, key: &CacheKey, val: usize) -> (present: bool) {
        dash_set(self, key, val)
    }

    fn insert_if_not_exists(&mut self, key: CacheKey, val: usize) {
        dash_insert_if_vacant(self, key, val)
    }

    fn remove(&mut self, key: &CacheKey) -> (val: Option<usize>) {
        dash_remove(self, key)
    }

    proof fn equal_keys_agree(&self, a: CacheKey, b: CacheKey) {
    }
}

impl CopyCache<CacheKey, usize> for dashmap::DashMap<CacheKey, usize> {
    fn duplicate(&self) -> (copy: Self) {
        dash_clone(self)
    }
}

}
