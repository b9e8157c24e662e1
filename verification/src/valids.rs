//! The flags that say which cached responses are still valid, held in a [`segvec::SegVec`].

use vstd::prelude::*;

use crate::key::CacheKey;

verus! {

/// A [`segvec::SegVec`] of keys, each with a flag. It grows at the back, and a key keeps its index.
#[verifier::external_body]
pub struct ValidVec {
    valids: segvec::SegVec<(CacheKey, bool)>,
}

/// The keys and the flags that a [`ValidVec`] holds, in the order in which they were pushed.
pub uninterp spec fn valids_of(valids: ValidVec) -> Seq<(CacheKey, bool)>;

/// There is room for one key more in a vector of `len` keys. When the segments are full, one that is
/// as long as all of them together is allocated. An allocation has at most `isize::MAX` bytes, of
/// which a key and its flag take no more than 128.
pub open spec fn key_fits(len: nat) -> bool {
    len <= isize::MAX / 128
}

impl ValidVec {
    /// `SegVec::new`: no keys.
    #[verifier::external_body]
    pub(crate) fn new() -> (valids: ValidVec)
        ensures
            valids_of(valids) == Seq::<(CacheKey, bool)>::empty(),
    {
        ValidVec { valids: segvec::SegVec::new() }
    }

    /// `SegVec::len`: the number of keys.
    #[verifier::external_body]
    pub(crate) fn len(&self) -> (len: usize)
        ensures
            len == valids_of(*self).len(),
    {
        self.valids.len()
    }

    /// `SegVec::push`: the key and its flag are appended.
    #[verifier::external_body]
    pub(crate) fn push(&mut self, key: CacheKey, valid: bool)
        requires
            key_fits(valids_of(*old(self)).len()),
        ensures
            valids_of(*final(self)) == valids_of(*old(self)).push((key, valid)),
    {
        self.valids.push((key, valid))
    }

    /// `SegVec::index`: the key and the flag at an index.
    #[verifier::external_body]
    pub(crate) fn get(&self, idx: usize) -> (entry: &(CacheKey, bool))
        requires
            idx < valids_of(*self).len(),
        ensures
            *entry == valids_of(*self)[idx as int],
    {
        &self.valids[idx]
    }

    /// `SegVec::index_mut`: the flag at an index, overwritten.
    #[verifier::external_body]
    pub(crate) fn set(&mut self, idx: usize, valid: bool)
        requires
            idx < valids_of(*old(self)).len(),
        ensures
            valids_of(*final(self)) == valids_of(*old(self)).update(
                idx as int,
                (valids_of(*old(self))[idx as int].0, valid),
            ),
    {
        self.valids[idx].1 = valid
    }
}

}
