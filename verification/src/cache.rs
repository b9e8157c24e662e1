//! The [`Cache`] trait, the map from keys to values that a service looks its entries up in, and
//! its implementors.

use vstd::prelude::*;
use vstd::std_specs::cmp::PartialEqSpec;

verus! {

/// `==` on `K` is an equivalence relation, which is what implementing [`Eq`] promises.
pub open spec fn lawful_eq<K: Eq>() -> bool {
    &&& K::obeys_eq_spec()
    &&& forall|a: K| #[trigger] a.eq_spec(&a)
    &&& forall|a: K, b: K| #[trigger] a.eq_spec(&b) ==> b.eq_spec(&a)
    &&& forall|a: K, b: K, c: K|
        #[trigger] a.eq_spec(&b) && #[trigger] b.eq_spec(&c) ==> a.eq_spec(&c)
}

/// What `key` finds once `val` was inserted for `inserted`, given what it found before and whether
/// `inserted` was there already.
pub open spec fn found_after_insert<K: Eq, V>(
    before: Option<V>,
    key: K,
    present: bool,
    inserted: K,
    val: V,
) -> Option<V> {
    if before is Some {
        before
    } else if !present && inserted.eq_spec(&key) {
        Some(val)
    } else {
        None
    }
}

/// A basic cache: a map in which no key is stored twice, with the operations that a
/// [`CacheService`](crate::service::CacheService) and its users need.
///
/// The values are handed out by copy: what a service stores is the number of an entry, and the
/// entry itself lives elsewhere.
pub trait Cache<K: Eq, V: Copy>: Sized {
    /// What the cache maps `key` to.
    spec fn value_at(&self, key: K) -> Option<V>;

    /// The internal invariant of the cache.
    spec fn wf(&self) -> bool;

    /// A cache that holds nothing.
    fn empty() -> (cache: Self)
        ensures
            cache.wf(),
            forall|k: K| (#[trigger] cache.value_at(k)) is None,
    ;

    /// Get the value for `key`, returning [`None`] if there is none in the cache.
    fn get(&self, key: &K) -> (val: Option<V>)
        requires
            self.wf(),
        ensures
            K::obeys_eq_spec() ==> val == self.value_at(*key),
    ;

    /// Overwrite the value for `key`, if there is one, and say whether there was.
    fn set(&mut self, key: &K, val: V) -> (present: bool)
        requires
            old(self).wf(),
        ensures
            final(self).wf(),
            K::obeys_eq_spec() ==> present == old(self).value_at(*key) is Some,
            K::obeys_eq_spec() && !present ==> forall|k: K|
                #[trigger] final(self).value_at(k) == old(self).value_at(k),
            lawful_eq::<K>() && present ==> forall|k: K|
                #[trigger] final(self).value_at(k) == (if key.eq_spec(&k) {
                    Some(val)
                } else {
                    old(self).value_at(k)
                }),
    ;

    /// Insert the value `val` for `key`, unless the cache holds one for `key` already.
    fn insert_if_not_exists(&mut self, key: K, val: V)
        requires
            old(self).wf(),
        ensures
            final(self).wf(),
            lawful_eq::<K>() ==> forall|k: K|
                #[trigger] final(self).value_at(k) == found_after_insert(
                    old(self).value_at(k),
                    k,
                    old(self).value_at(key) is Some,
                    key,
                    val,
                ),
    ;

    /// Remove the value stored for `key`, returning it if there was one.
    fn remove(&mut self, key: &K) -> (val: Option<V>)
        requires
            old(self).wf(),
        ensures
            final(self).wf(),
            K::obeys_eq_spec() ==> val == old(self).value_at(*key),
            K::obeys_eq_spec() && val is None ==> forall|k: K|
                #[trigger] final(self).value_at(k) == old(self).value_at(k),
            lawful_eq::<K>() ==> forall|k: K|
                #[trigger] final(self).value_at(k) == (if key.eq_spec(&k) {
                    None
                } else {
                    old(self).value_at(k)
                }),
    ;

    /// Keys that equal each other find the same value.
    proof fn equal_keys_agree(&self, a: K, b: K)
        requires
            self.wf(),
            lawful_eq::<K>(),
            a.eq_spec(&b),
        ensures
            self.value_at(a) == self.value_at(b),
    ;
}

/// A cache of which a copy can be made. The copy and the cache go their own ways.
pub trait CopyCache<K: Eq, V: Copy>: Cache<K, V> {
    /// A cache in which every key finds what it finds in this one.
    fn duplicate(&self) -> (copy: Self)
        ensures
            self.wf() ==> copy.wf(),
            forall|k: K| #[trigger] copy.value_at(k) == self.value_at(k),
    ;
}

/// The entry at `i` is the first whose key equals `key`.
pub open spec fn first_match<K: Eq, V>(entries: Seq<(K, V)>, key: K, i: int) -> bool {
    &&& 0 <= i < entries.len()
    &&& entries[i].0.eq_spec(&key)
    &&& forall|j: int| 0 <= j < i ==> !(#[trigger] entries[j]).0.eq_spec(&key)
}

/// No key of `entries` equals `key`.
pub open spec fn no_match<K: Eq, V>(entries: Seq<(K, V)>, key: K) -> bool {
    forall|j: int| 0 <= j < entries.len() ==> !(#[trigger] entries[j]).0.eq_spec(&key)
}

/// `key` equals no key of `entries`.
pub open spec fn not_stored<K: Eq, V>(entries: Seq<(K, V)>, key: K) -> bool {
    forall|j: int| 0 <= j < entries.len() ==> !key.eq_spec(&(#[trigger] entries[j]).0)
}

/// The value that a scan of `entries` from the front finds for `key`.
pub open spec fn lookup<K: Eq, V>(entries: Seq<(K, V)>, key: K) -> Option<V> {
    if exists|i: int| first_match(entries, key, i) {
        Some(entries[choose|i: int| first_match(entries, key, i)].1)
    } else {
        None
    }
}

/// No key is stored twice: no key of `entries` equals one that stands before it.
pub open spec fn keys_distinct<K: Eq, V>(entries: Seq<(K, V)>) -> bool {
    forall|i: int, j: int|
        0 <= i < j < entries.len() ==> !(#[trigger] entries[j]).0.eq_spec(
            &(#[trigger] entries[i]).0,
        )
}

/// There is only one first entry for a key.
pub(crate) proof fn lemma_one_first_match<K: Eq, V>(entries: Seq<(K, V)>, key: K, i: int)
    requires
        first_match(entries, key, i),
    ensures
        forall|c: int| #[trigger] first_match(entries, key, c) ==> c == i,
{
    assert forall|c: int| #[trigger] first_match(entries, key, c) implies c == i by {
        if c < i {
            assert(!entries[c].0.eq_spec(&key));
        }
        if i < c {
            assert(!entries[i].0.eq_spec(&key));
        }
    }
}

pub(crate) proof fn lemma_lookup_first_match<K: Eq, V>(entries: Seq<(K, V)>, key: K, i: int)
    requires
        first_match(entries, key, i),
    ensures
        lookup(entries, key) == Some(entries[i].1),
{
    let c = choose|c: int| first_match(entries, key, c);
    assert(first_match(entries, key, c));
    if c < i {
        assert(!entries[c].0.eq_spec(&key));
    }
    if i < c {
        assert(!entries[i].0.eq_spec(&key));
    }
}

pub(crate) proof fn lemma_match_or_none<K: Eq, V>(entries: Seq<(K, V)>, key: K)
    ensures
        no_match(entries, key) || exists|i: int| first_match(entries, key, i),
        no_match(entries, key) <==> lookup(entries, key) is None,
    decreases entries.len(),
{
    if entries.len() > 0 {
        let init = entries.drop_last();
        lemma_match_or_none(init, key);
        if no_match(init, key) {
            assert forall|j: int| 0 <= j < init.len() implies !(
            #[trigger] entries[j]).0.eq_spec(&key) by {
                assert(init[j] == entries[j]);
            }
            if entries.last().0.eq_spec(&key) {
                assert(first_match(entries, key, entries.len() - 1));
            }
        } else {
            let i = choose|i: int| first_match(init, key, i);
            assert(first_match(init, key, i));
            assert forall|j: int| 0 <= j < i implies !(
            #[trigger] entries[j]).0.eq_spec(&key) by {
                assert(init[j] == entries[j]);
            }
            assert(first_match(entries, key, i));
        }
    }
    if exists|i: int| first_match(entries, key, i) {
        let i = choose|i: int| first_match(entries, key, i);
        assert(entries[i].0.eq_spec(&key));
    }
}

/// A basic linear map: its entries stand in the order in which they were inserted, and a key is
/// looked for from the front.
pub struct SendLinearMap<K: Eq, V>(Vec<(K, V)>);

impl<K: Eq, V> View for SendLinearMap<K, V> {
    type V = Seq<(K, V)>;

    closed spec fn view(&self) -> Seq<(K, V)> {
        self.0@
    }
}

impl<K: Eq, V> Default for SendLinearMap<K, V> {
    fn default() -> (map: Self)
        ensures
            map@ == Seq::<(K, V)>::empty(),
    {
        SendLinearMap(Vec::new())
    }
}

impl<K: Eq, V> SendLinearMap<K, V> {
    /// The index of the first entry whose key equals `key`.
    fn position(&self, key: &K) -> (idx: Option<usize>)
        ensures
            K::obeys_eq_spec() ==> match idx {
                Some(i) => first_match(self@, *key, i as int),
                None => no_match(self@, *key),
            },
            idx matches Some(i) ==> i < self@.len(),
    {
        let mut i: usize = 0;
        while i < self.0.len()
            invariant
                i <= self.0.len(),
                K::obeys_eq_spec() ==> forall|j: int|
                    0 <= j < i ==> !(#[trigger] self@[j]).0.eq_spec(key),
            decreases self.0.len() - i,
        {
            if self.0[i].0 == *key {
                return Some(i);
            }
            i += 1;
        }
        None
    }

    /// Whether `key` equals the key of an entry.
    fn holds(&self, key: &K) -> (held: bool)
        ensures
            K::obeys_eq_spec() ==> held == !not_stored(self@, *key),
    {
        let mut i: usize = 0;
        while i < self.0.len()
            invariant
                i <= self.0.len(),
                K::obeys_eq_spec() ==> forall|j: int|
                    0 <= j < i ==> !key.eq_spec(&(#[trigger] self@[j]).0),
            decreases self.0.len() - i,
        {
            if *key == self.0[i].0 {
                return true;
            }
            i += 1;
        }
        false
    }

    /// A reference to the value for `key`, or [`None`] if the map has none.
    pub fn get(&self, key: &K) -> (val: Option<&V>)
        ensures
            K::obeys_eq_spec() ==> match val {
                Some(v) => lookup(self@, *key) == Some(*v),
                None => lookup(self@, *key) is None,
            },
    {
        proof {
            lemma_match_or_none(self@, *key);
        }
        match self.position(key) {
            Some(i) => {
                proof {
                    if K::obeys_eq_spec() {
                        lemma_lookup_first_match(self@, *key, i as int);
                    }
                }
                Some(&self.0[i].1)
            },
            None => None,
        }
    }

    /// A mutable reference to the value for `key`, or [`None`] if the map has none. What is written
    /// through it replaces the value; the key and every other entry stay as they are.
    pub fn get_mut(&mut self, key: &K) -> (val: Option<&mut V>)
        ensures
            K::obeys_eq_spec() ==> match val {
                Some(v) => exists|i: int|
                    {
                        &&& #[trigger] first_match(old(self)@, *key, i)
                        &&& *v == old(self)@[i].1
                        &&& final(self)@ == old(self)@.update(i, (old(self)@[i].0, *final(v)))
                    },
                None => no_match(old(self)@, *key) && final(self)@ == old(self)@,
            },
    {
        match self.position(key) {
            Some(i) => {
                let entry = &mut self.0[i];
                Some(&mut entry.1)
            },
            None => None,
        }
    }

    /// Append the entry `(key, val)`, unless there is an entry for `key` already.
    pub fn insert_if_not_exists(&mut self, key: K, val: V)
        ensures
            K::obeys_eq_spec() ==> final(self)@ == (if not_stored(old(self)@, key) {
                old(self)@.push((key, val))
            } else {
                old(self)@
            }),
    {
        if !self.holds(&key) {
            self.0.push((key, val));
        }
    }

    /// Remove the first entry for `key`, returning its value.
    pub fn remove(&mut self, key: &K) -> (val: Option<V>)
        ensures
            K::obeys_eq_spec() ==> match val {
                Some(v) => exists|i: int|
                    {
                        &&& #[trigger] first_match(old(self)@, *key, i)
                        &&& v == old(self)@[i].1
                        &&& final(self)@ == old(self)@.remove(i)
                    },
                None => no_match(old(self)@, *key) && final(self)@ == old(self)@,
            },
    {
        match self.position(key) {
            Some(i) => {
                let entry = self.0.remove(i);
                Some(entry.1)
            },
            None => None,
        }
    }
}

/// After an insertion at the back, every key finds what it found before; if it found nothing, it
/// finds the new entry when it equals the new key.
proof fn lemma_lookup_push<K: Eq, V>(entries: Seq<(K, V)>, key: K, val: V, k: K)
    ensures
        lookup(entries.push((key, val)), k) == (if lookup(entries, k) is Some {
            lookup(entries, k)
        } else if key.eq_spec(&k) {
            Some(val)
        } else {
            None
        }),
{
    let pushed = entries.push((key, val));
    lemma_match_or_none(entries, k);
    lemma_match_or_none(pushed, k);
    if exists|i: int| first_match(entries, k, i) {
        let i = choose|i: int| first_match(entries, k, i);
        lemma_lookup_first_match(entries, k, i);
        assert forall|j: int| 0 <= j < i implies !(#[trigger] pushed[j]).0.eq_spec(&k) by {
            assert(pushed[j] == entries[j]);
        }
        assert(first_match(pushed, k, i));
        lemma_lookup_first_match(pushed, k, i);
    } else {
        assert forall|j: int| 0 <= j < entries.len() implies !(
        #[trigger] pushed[j]).0.eq_spec(&k) by {
            assert(pushed[j] == entries[j]);
        }
        if key.eq_spec(&k) {
            assert(first_match(pushed, k, entries.len() as int));
            lemma_lookup_first_match(pushed, k, entries.len() as int);
        }
    }
}

/// Overwriting the value of an entry changes what the keys equal to its key find, and nothing else.
proof fn lemma_lookup_update<K: Eq, V>(entries: Seq<(K, V)>, i: int, key: K, val: V, k: K)
    requires
        lawful_eq::<K>(),
        keys_distinct(entries),
        first_match(entries, key, i),
    ensures
        lookup(entries.update(i, (entries[i].0, val)), k) == (if key.eq_spec(&k) {
            Some(val)
        } else {
            lookup(entries, k)
        }),
{
    let updated = entries.update(i, (entries[i].0, val));
    lemma_match_or_none(entries, k);
    lemma_match_or_none(updated, k);
    assert(forall|j: int|
        0 <= j < entries.len() ==> (#[trigger] updated[j]).0 == (#[trigger] entries[j]).0);
    assert forall|c: int| first_match(entries, k, c) implies first_match(updated, k, c) by {}
    if exists|c: int| first_match(entries, k, c) {
        let c = choose|c: int| first_match(entries, k, c);
        lemma_lookup_first_match(entries, k, c);
        lemma_lookup_first_match(updated, k, c);
        lemma_same_entry(entries, i, c, key, k);
    } else {
        if key.eq_spec(&k) {
            assert(entries[i].0.eq_spec(&k));
        }
        assert(no_match(updated, k));
    }
}

/// Where no key is stored twice, two keys find the same entry if and only if they are equal.
proof fn lemma_same_entry<K: Eq, V>(entries: Seq<(K, V)>, i: int, c: int, key: K, k: K)
    requires
        lawful_eq::<K>(),
        keys_distinct(entries),
        first_match(entries, key, i),
        first_match(entries, k, c),
    ensures
        key.eq_spec(&k) <==> i == c,
{
    if key.eq_spec(&k) {
        assert(entries[i].0.eq_spec(&k));
        assert(k.eq_spec(&entries[i].0));
        assert(entries[c].0.eq_spec(&entries[i].0));
        assert(entries[i].0.eq_spec(&entries[c].0));
        if i < c {
            assert(!entries[c].0.eq_spec(&entries[i].0));
        }
        if c < i {
            assert(!entries[i].0.eq_spec(&entries[c].0));
        }
    }
    if i == c {
        assert(key.eq_spec(&entries[i].0));
        assert(entries[i].0.eq_spec(&k));
    }
}

/// Removing an entry takes it from the keys equal to its key, and from no other.
proof fn lemma_lookup_remove<K: Eq, V>(entries: Seq<(K, V)>, i: int, key: K, k: K)
    requires
        lawful_eq::<K>(),
        keys_distinct(entries),
        first_match(entries, key, i),
    ensures
        lookup(entries.remove(i), k) == (if key.eq_spec(&k) {
            None
        } else {
            lookup(entries, k)
        }),
{
    let removed = entries.remove(i);
    lemma_match_or_none(entries, k);
    lemma_match_or_none(removed, k);
    assert(forall|j: int| 0 <= j < i ==> #[trigger] removed[j] == entries[j]);
    assert(forall|j: int| i <= j < removed.len() ==> #[trigger] removed[j] == entries[j + 1]);
    if key.eq_spec(&k) {
        assert(entries[i].0.eq_spec(&k));
        assert(k.eq_spec(&entries[i].0));
        assert forall|j: int| 0 <= j < removed.len() implies !(
        #[trigger] removed[j]).0.eq_spec(&k) by {
            let e = if j < i { j } else { j + 1 };
            assert(removed[j] == entries[e]);
            if entries[e].0.eq_spec(&k) {
                assert(entries[e].0.eq_spec(&entries[i].0));
                assert(entries[i].0.eq_spec(&entries[e].0));
                assert(false);
            }
        }
    } else if exists|c: int| first_match(entries, k, c) {
        let c = choose|c: int| first_match(entries, k, c);
        lemma_lookup_first_match(entries, k, c);
        lemma_same_entry(entries, i, c, key, k);
        let d = if c < i { c } else { c - 1 };
        assert(removed[d] == entries[c]);
        assert forall|j: int| 0 <= j < d implies !(#[trigger] removed[j]).0.eq_spec(&k) by {
            let e = if j < i { j } else { j + 1 };
            assert(removed[j] == entries[e]);
            assert(!entries[e].0.eq_spec(&k));
        }
        assert(first_match(removed, k, d));
        lemma_lookup_first_match(removed, k, d);
    } else {
        assert forall|j: int| 0 <= j < removed.len() implies !(
        #[trigger] removed[j]).0.eq_spec(&k) by {
            let e = if j < i { j } else { j + 1 };
            assert(removed[j] == entries[e]);
        }
    }
}

impl<K: Eq, V: Copy> Cache<K, V> for SendLinearMap<K, V> {
    open spec fn value_at(&self, key: K) -> Option<V> {
        lookup(self@, key)
    }

    open spec fn wf(&self) -> bool {
        K::obeys_eq_spec() ==> keys_distinct(self@)
    }

    fn empty() -> (cache: Self)
        ensures
            cache@ == Seq::<(K, V)>::empty(),
    {
        SendLinearMap::default()
    }

    fn get(&self, key: &K) -> (val: Option<V>) {
        match SendLinearMap::get(self, key) {
            Some(v) => Some(*v),
            None => None,
        }
    }

    fn set(&mut self, key: &K, val: V) -> (present: bool) {
        proof {
            lemma_match_or_none(self@, *key);
        }
        let ghost entries = self@;
        match SendLinearMap::get_mut(self, key) {
            Some(v) => {
                *v = val;
                proof {
                    if K::obeys_eq_spec() {
                        let i = choose|i: int| first_match(entries, *key, i);
                        assert(self@ == entries.update(i, (entries[i].0, val)));
                        assert(keys_distinct(self@));
                        if lawful_eq::<K>() {
                            assert forall|k: K|
                                #[trigger] self.value_at(k) == (if key.eq_spec(&k) {
                                    Some(val)
                                } else {
                                    lookup(entries, k)
                                }) by {
                                lemma_lookup_update(entries, i, *key, val, k);
                            }
                        }
                    }
                }
                true
            },
            None => false,
        }
    }

    fn insert_if_not_exists(&mut self, key: K, val: V) {
        let ghost entries = self@;
        proof {
            lemma_match_or_none(entries, key);
            assert forall|k: K|
                lookup(#[trigger] entries.push((key, val)), k) == (if lookup(entries, k) is Some {
                    lookup(entries, k)
                } else if key.eq_spec(&k) {
                    Some(val)
                } else {
                    None
                }) by {
                lemma_lookup_push(entries, key, val, k);
            }
        }
        SendLinearMap::insert_if_not_exists(self, key, val);
        proof {
            if K::obeys_eq_spec() && not_stored(entries, key) {
                assert(self@ == entries.push((key, val)));
                assert(keys_distinct(self@));
            }
            if lawful_eq::<K>() {
                assert(no_match(entries, key) <==> not_stored(entries, key)) by {
                    assert(forall|j: int|
                        0 <= j < entries.len() ==> (#[trigger] entries[j]).0.eq_spec(&key)
                            == key.eq_spec(&entries[j].0));
                }
            }
        }
    }

    fn remove(&mut self, key: &K) -> (val: Option<V>) {
        let ghost entries = self@;
        proof {
            lemma_match_or_none(entries, *key);
        }
        let val = SendLinearMap::remove(self, key);
        proof {
            if K::obeys_eq_spec() && val is Some {
                let i = choose|i: int| first_match(entries, *key, i);
                lemma_lookup_first_match(entries, *key, i);
                assert(self@ == entries.remove(i));
                assert(keys_distinct(self@));
                if lawful_eq::<K>() {
                    assert forall|k: K|
                        #[trigger] self.value_at(k) == (if key.eq_spec(&k) {
                            None
                        } else {
                            lookup(entries, k)
                        }) by {
                        lemma_lookup_remove(entries, i, *key, k);
                    }
                }
            }
        }
        val
    }

    proof fn equal_keys_agree(&self, a: K, b: K) {
        let entries = self@;
        assert forall|c: K| (#[trigger] c.eq_spec(&a)) == c.eq_spec(&b) by {
            if c.eq_spec(&b) {
                assert(b.eq_spec(&a));
            }
        }
        lemma_match_or_none(entries, a);
        lemma_match_or_none(entries, b);
        if exists|i: int| first_match(entries, a, i) {
            let i = choose|i: int| first_match(entries, a, i);
            assert(first_match(entries, b, i));
            lemma_lookup_first_match(entries, a, i);
            lemma_lookup_first_match(entries, b, i);
        } else {
            assert(no_match(entries, b));
        }
    }
}

}
