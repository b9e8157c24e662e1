//! How the operations of a cache relate to each other, said of the calls themselves.

use vstd::prelude::*;
use vstd::std_specs::cmp::PartialEqSpec;

use crate::cache::{
    lawful_eq, lemma_lookup_first_match, lemma_match_or_none, lemma_one_first_match, Cache, CopyCache,
    SendLinearMap,
};

verus! {

// ---------------------------------------------------------------------------------------------
// Any cache

/// No key is found in an empty cache.
pub proof fn law_empty_cache_holds_nothing<K: Eq, V: Copy, C: Cache<K, V>>(
    cache: C,
    key: K,
    found: Option<V>,
)
    requires
        lawful_eq::<K>(),
        call_ensures(C::empty, (), cache),
        call_ensures(C::get, (&cache, &key), found),
    ensures
        found is None,
        call_requires(C::get, (&cache, &key)),
{
}

/// What is inserted is found, under every key that equals its own, unless there was a value before,
/// which is then found as before. Under any other key what was found before is found.
pub proof fn law_inserted_value_is_found<K: Eq, V: Copy, C: Cache<K, V>>(
    cache: &mut C,
    inserted: K,
    val: V,
    key: K,
    found_before: Option<V>,
    after: C,
    found: Option<V>,
)
    requires
        lawful_eq::<K>(),
        old(cache).wf(),
        call_ensures(C::get, (&*old(cache), &key), found_before),
        call_ensures(C::insert_if_not_exists, (cache, inserted, val), ()),
        after == *final(cache),
        call_ensures(C::get, (&after, &key), found),
    ensures
        found == (if found_before is None && inserted.eq_spec(&key) {
            Some(val)
        } else {
            found_before
        }),
        after.wf(),
{
    if inserted.eq_spec(&key) {
        old(cache).equal_keys_agree(inserted, key);
    }
}

/// A value that is overwritten is found from then on, under every key that equals its own. Where there
/// was none, there is none. Under any other key what was found before is found.
pub proof fn law_overwritten_value_is_found<K: Eq, V: Copy, C: Cache<K, V>>(
    cache: &mut C,
    written: K,
    val: V,
    present: bool,
    key: K,
    found_before: Option<V>,
    after: C,
    found: Option<V>,
)
    requires
        lawful_eq::<K>(),
        old(cache).wf(),
        call_ensures(C::get, (&*old(cache), &key), found_before),
        call_ensures(C::set, (cache, &written, val), present),
        after == *final(cache),
        call_ensures(C::get, (&after, &key), found),
    ensures
        found == (if found_before is Some && written.eq_spec(&key) {
            Some(val)
        } else {
            found_before
        }),
        written.eq_spec(&key) ==> present == found_before is Some,
        after.wf(),
{
    if written.eq_spec(&key) {
        old(cache).equal_keys_agree(written, key);
    }
}

/// What is removed is what was found, and it is not found any more, under any key that equals its own.
/// Under any other key what was found before is found.
pub proof fn law_removed_value_is_not_found<K: Eq, V: Copy, C: Cache<K, V>>(
    cache: &mut C,
    removed: K,
    val: Option<V>,
    key: K,
    found_before: Option<V>,
    after: C,
    found: Option<V>,
)
    requires
        lawful_eq::<K>(),
        old(cache).wf(),
        call_ensures(C::get, (&*old(cache), &key), found_before),
        call_ensures(C::remove, (cache, &removed), val),
        after == *final(cache),
        call_ensures(C::get, (&after, &key), found),
    ensures
        found == (if removed.eq_spec(&key) {
            None
        } else {
            found_before
        }),
        removed.eq_spec(&key) ==> val == found_before,
        after.wf(),
{
    if removed.eq_spec(&key) {
        old(cache).equal_keys_agree(removed, key);
    }
}

/// Keys that equal each other find the same.
pub proof fn law_equal_keys_find_the_same<K: Eq, V: Copy, C: Cache<K, V>>(
    cache: C,
    a: K,
    b: K,
    found_a: Option<V>,
    found_b: Option<V>,
)
    requires
        lawful_eq::<K>(),
        cache.wf(),
        a.eq_spec(&b),
        call_ensures(C::get, (&cache, &a), found_a),
        call_ensures(C::get, (&cache, &b), found_b),
    ensures
        found_a == found_b,
{
    cache.equal_keys_agree(a, b);
}

/// In a copy of a cache every key finds what it finds in the cache.
pub proof fn law_copy_of_a_cache_finds_the_same<K: Eq, V: Copy, C: CopyCache<K, V>>(
    cache: C,
    copy: C,
    key: K,
    found: Option<V>,
    found_in_copy: Option<V>,
)
    requires
        lawful_eq::<K>(),
        cache.wf(),
        call_ensures(C::duplicate, (&cache,), copy),
        call_ensures(C::get, (&cache, &key), found),
        call_ensures(C::get, (&copy, &key), found_in_copy),
    ensures
        found_in_copy == found,
        copy.wf(),
{
}

/// Every operation can be used on every well-formed cache.
pub proof fn law_cache_can_be_used<K: Eq, V: Copy, C: Cache<K, V>>(cache: &mut C, key: K, val: V)
    requires
        old(cache).wf(),
    ensures
        call_requires(C::get, (&*old(cache), &key)),
        call_requires(C::set, (old(cache), &key, val)),
        call_requires(C::insert_if_not_exists, (old(cache), key, val)),
        call_requires(C::remove, (old(cache), &key)),
{
}

// ---------------------------------------------------------------------------------------------
// The linear map

/// A linear map finds the value of the first entry whose key equals the one that is asked for, and
/// nothing if there is no such entry.
pub proof fn law_linear_map_finds_the_first<K: Eq, V>(
    map: SendLinearMap<K, V>,
    key: K,
    found: Option<&V>,
    i: int,
)
    requires
        K::obeys_eq_spec(),
        call_ensures(SendLinearMap::<K, V>::get, (&map, &key), found),
        0 <= i < map@.len(),
        map@[i].0.eq_spec(&key),
        forall|j: int| 0 <= j < i ==> !(#[trigger] map@[j]).0.eq_spec(&key),
    ensures
        found == Some(&map@[i].1),
{
    lemma_lookup_first_match(map@, key, i);
}

/// A linear map finds nothing only where no key equals the one that is asked for.
pub proof fn law_linear_map_finds_what_is_there<K: Eq, V>(
    map: SendLinearMap<K, V>,
    key: K,
    found: Option<&V>,
)
    requires
        K::obeys_eq_spec(),
        call_ensures(SendLinearMap::<K, V>::get, (&map, &key), found),
    ensures
        found is None <==> forall|j: int|
            0 <= j < map@.len() ==> !(#[trigger] map@[j]).0.eq_spec(&key),
{
    lemma_match_or_none(map@, key);
}

/// Writing through a mutable reference changes the value of the first entry for the key. Every key, and
/// every other value, stays what and where it is.
pub proof fn law_linear_map_is_written_in_place<K: Eq, V>(
    map: &mut SendLinearMap<K, V>,
    key: K,
    val: Option<&mut V>,
    i: int,
)
    requires
        K::obeys_eq_spec(),
        call_ensures(SendLinearMap::<K, V>::get_mut, (map, &key), val),
        0 <= i < old(map)@.len(),
        old(map)@[i].0.eq_spec(&key),
        forall|j: int| 0 <= j < i ==> !(#[trigger] old(map)@[j]).0.eq_spec(&key),
    ensures
        val is Some,
        *val->0 == old(map)@[i].1,
        final(map)@.len() == old(map)@.len(),
        final(map)@[i].0 == old(map)@[i].0,
        final(map)@[i].1 == *final(val->0),
        forall|j: int|
            0 <= j < old(map)@.len() && j != i ==> #[trigger] final(map)@[j] == old(map)@[j],
{
    lemma_one_first_match(old(map)@, key, i);
}

/// There is nothing to be written for a key that no stored key equals, and nothing changes.
pub proof fn law_linear_map_has_nothing_to_write<K: Eq, V>(
    map: &mut SendLinearMap<K, V>,
    key: K,
    val: Option<&mut V>,
)
    requires
        K::obeys_eq_spec(),
        call_ensures(SendLinearMap::<K, V>::get_mut, (map, &key), val),
        forall|j: int| 0 <= j < old(map)@.len() ==> !(#[trigger] old(map)@[j]).0.eq_spec(&key),
    ensures
        val is None,
        final(map)@ == old(map)@,
{
}

/// An insertion appends the key with its value if the key equals no stored key, and changes nothing if
/// it equals one.
pub proof fn law_linear_map_stores_a_key_once<K: Eq, V>(
    map: &mut SendLinearMap<K, V>,
    key: K,
    val: V,
)
    requires
        K::obeys_eq_spec(),
        call_ensures(SendLinearMap::<K, V>::insert_if_not_exists, (map, key, val), ()),
    ensures
        (exists|j: int| 0 <= j < old(map)@.len() && key.eq_spec(&(#[trigger] old(map)@[j]).0))
            ==> final(map)@ == old(map)@,
        (forall|j: int| 0 <= j < old(map)@.len() ==> !key.eq_spec(&(#[trigger] old(map)@[j]).0))
            ==> final(map)@.len() == old(map)@.len() + 1 && final(map)@.last() == (key, val)
            && final(map)@.drop_last() == old(map)@,
{
    assert(old(map)@.push((key, val)).drop_last() =~= old(map)@);
}

/// A removal takes out the first entry for the key and returns its value; the others stay, in their
/// order.
pub proof fn law_linear_map_removes_the_first<K: Eq, V>(
    map: &mut SendLinearMap<K, V>,
    key: K,
    val: Option<V>,
    i: int,
)
    requires
        K::obeys_eq_spec(),
        call_ensures(SendLinearMap::<K, V>::remove, (map, &key), val),
        0 <= i < old(map)@.len(),
        old(map)@[i].0.eq_spec(&key),
        forall|j: int| 0 <= j < i ==> !(#[trigger] old(map)@[j]).0.eq_spec(&key),
    ensures
        val == Some(old(map)@[i].1),
        final(map)@ == old(map)@.take(i) + old(map)@.skip(i + 1),
{
    lemma_one_first_match(old(map)@, key, i);
    assert(old(map)@.remove(i) =~= old(map)@.take(i) + old(map)@.skip(i + 1));
}

/// There is nothing to remove for a key that no stored key equals.
pub proof fn law_linear_map_has_nothing_to_remove<K: Eq, V>(
    map: &mut SendLinearMap<K, V>,
    key: K,
    val: Option<V>,
)
    requires
        K::obeys_eq_spec(),
        call_ensures(SendLinearMap::<K, V>::remove, (map, &key), val),
        forall|j: int| 0 <= j < old(map)@.len() ==> !(#[trigger] old(map)@[j]).0.eq_spec(&key),
    ensures
        val is None,
        final(map)@ == old(map)@,
{
}

/// A new linear map has no entries, and any of its operations can be used at any time.
pub proof fn law_linear_map_can_be_used<K: Eq, V>(
    none: SendLinearMap<K, V>,
    map: &mut SendLinearMap<K, V>,
    key: K,
    val: V,
)
    requires
        call_ensures(SendLinearMap::<K, V>::default, (), none),
    ensures
        none@.len() == 0,
        call_requires(SendLinearMap::<K, V>::get, (&*old(map), &key)),
        call_requires(SendLinearMap::<K, V>::get_mut, (old(map), &key)),
        call_requires(SendLinearMap::<K, V>::insert_if_not_exists, (old(map), key, val)),
        call_requires(SendLinearMap::<K, V>::remove, (old(map), &key)),
{
}

}
