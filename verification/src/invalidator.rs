//! Manual invalidation of cached responses.

use vstd::prelude::*;

use crate::key::{same_key, same_uri, same_uris, CacheKey};
use crate::valids::{key_fits, valids_of, ValidVec};

verus! {

/// Every key for which an entry was made, each with a flag that says whether the entry is valid.
///
/// The flags are numbered in the order in which the keys were inserted. An entry knows the number of
/// its flag; clearing the flag here is how the entry is told to forget its response.
pub struct Invalidator {
    valids: ValidVec,
}

/// `valids` with the flag cleared for every key that is `hit`.
pub open spec fn cleared(valids: Seq<(CacheKey, bool)>, hit: spec_fn(CacheKey) -> bool) -> Seq<
    (CacheKey, bool),
> {
    valids.map_values(|entry: (CacheKey, bool)| (entry.0, entry.1 && !hit(entry.0)))
}

/// The keys that equal `key`.
pub open spec fn key_is(key: CacheKey) -> spec_fn(CacheKey) -> bool {
    |k: CacheKey| same_key(k, key)
}

/// The keys whose URI equals `uri`, whatever their method.
pub open spec fn uri_is(uri: http::Uri) -> spec_fn(CacheKey) -> bool {
    |k: CacheKey| same_uris(k.uri, uri)
}

/// What becomes of a key and its flag when the responses that fulfill `pred` are invalidated: the
/// flag is cleared where `pred` said yes, and stays as it is where `pred` said no.
pub open spec fn cleared_by<F: Fn(&CacheKey) -> bool>(
    pred: F,
    before: (CacheKey, bool),
    after: (CacheKey, bool),
) -> bool {
    ||| call_ensures(pred, (&before.0,), true) && after == (before.0, false)
    ||| call_ensures(pred, (&before.0,), false) && after == before
}

/// `valids` with the flag `idx` set to `valid`.
pub open spec fn flag_set(valids: Seq<(CacheKey, bool)>, idx: int, valid: bool) -> Seq<
    (CacheKey, bool),
> {
    valids.update(idx, (valids[idx].0, valid))
}

impl View for Invalidator {
    type V = Seq<(CacheKey, bool)>;

    closed spec fn view(&self) -> Seq<(CacheKey, bool)> {
        valids_of(self.valids)
    }
}

impl Default for Invalidator {
    fn default() -> (invalidator: Invalidator)
        ensures
            invalidator@ == Seq::<(CacheKey, bool)>::empty(),
    {
        Invalidator { valids: ValidVec::new() }
    }
}

impl Invalidator {
    /// The number of keys that were inserted so far.
    pub fn len(&self) -> (len: usize)
        ensures
            len == self@.len(),
    {
        self.valids.len()
    }

    /// Whether there is room for one key more.
    pub fn has_room(&self) -> (room: bool)
        ensures
            room == key_fits(self@.len()),
    {
        self.valids.len() <= isize::MAX as usize / 128
    }

    /// Add a key whose entry is valid, and return the number of its flag.
    pub fn insert(&mut self, key: CacheKey) -> (flag: usize)
        requires
            key_fits(old(self)@.len()),
        ensures
            flag == old(self)@.len(),
            final(self)@ == old(self)@.push((key, true)),
    {
        let flag: usize = self.valids.len();
        self.valids.push(key, true);
        flag
    }

    /// Whether the flag is set.
    pub fn is_valid(&self, flag: usize) -> (valid: bool)
        requires
            flag < self@.len(),
        ensures
            valid == self@[flag as int].1,
    {
        self.valids.get(flag).1
    }

    /// Set or clear a flag.
    pub fn set_valid(&mut self, flag: usize, valid: bool)
        requires
            flag < old(self)@.len(),
        ensures
            final(self)@ == flag_set(old(self)@, flag as int, valid),
    {
        self.valids.set(flag, valid);
    }

    /// Invalidate every response associated with the given key.
    pub fn invalidate(&mut self, key: &CacheKey)
        ensures
            final(self)@ == cleared(old(self)@, key_is(*key)),
    {
        let hits = |k: &CacheKey| -> (hit: bool)
            ensures
                hit == same_key(*k, *key),
        {
            k.same_as(key)
        };
        self.invalidate_all_with_pred(hits);
    }

    /// Invalidate every response to a request for the given URI, whatever its method. The URIs have
    /// to be equal; for a rougher match there is [`Invalidator::invalidate_all_with_pred`].
    pub fn invalidate_all_for(&mut self, path: &http::Uri)
        ensures
            final(self)@ == cleared(old(self)@, uri_is(*path)),
    {
        let hits = |k: &CacheKey| -> (hit: bool)
            ensures
                hit == same_uris(k.uri, *path),
        {
            same_uri(&k.uri, path)
        };
        self.invalidate_all_with_pred(hits);
    }

    /// Invalidate every response whose key fulfills the given predicate.
    pub fn invalidate_all_with_pred<P: Fn(&CacheKey) -> bool>(&mut self, pred: P)
        requires
            forall|i: int|
                0 <= i < old(self)@.len() ==> call_requires(
                    pred,
                    (&(#[trigger] old(self)@[i]).0,),
                ),
        ensures
            final(self)@.len() == old(self)@.len(),
            forall|i: int|
                0 <= i < old(self)@.len() ==> cleared_by(
                    pred,
                    #[trigger] old(self)@[i],
                    final(self)@[i],
                ),
    {
        let mut i: usize = 0;
        while i < self.valids.len()
            invariant
                i <= self@.len(),
                self@.len() == old(self)@.len(),
                forall|j: int|
                    0 <= j < old(self)@.len() ==> call_requires(
                        pred,
                        (&(#[trigger] old(self)@[j]).0,),
                    ),
                forall|j: int|
                    0 <= j < i ==> cleared_by(pred, #[trigger] old(self)@[j], self@[j]),
                forall|j: int| i <= j < self@.len() ==> self@[j] == #[trigger] old(self)@[j],
            decreases self@.len() - i,
        {
            assert(self@[i as int] == old(self)@[i as int]);
            if pred(&self.valids.get(i).0) {
                self.valids.set(i, false);
            }
            i += 1;
        }
    }
}

}
