//! What the operations of the invalidator do, said of the calls themselves.

use vstd::prelude::*;

use crate::invalidator::Invalidator;
use crate::key::{same_key, same_uris, CacheKey};

verus! {

/// There are no keys at first. One that is inserted comes last, its flag set, and its number is
/// returned; the others stay what and where they are.
pub proof fn law_keys_are_inserted_at_the_end(
    none: Invalidator,
    invalidator: &mut Invalidator,
    key: CacheKey,
    flag: usize,
)
    requires
        call_ensures(Invalidator::default, (), none),
        call_ensures(Invalidator::insert, (invalidator, key), flag),
    ensures
        none@.len() == 0,
        flag == old(invalidator)@.len(),
        final(invalidator)@.len() == old(invalidator)@.len() + 1,
        final(invalidator)@[flag as int].0 == key,
        final(invalidator)@[flag as int].1,
        forall|i: int|
            0 <= i < old(invalidator)@.len() ==> #[trigger] final(invalidator)@[i] == old(
                invalidator,
            )@[i],
{
}

/// A key can be inserted exactly as long as [`Invalidator::has_room`] says so.
pub proof fn law_key_can_be_inserted(
    invalidator: &mut Invalidator,
    key: CacheKey,
    len: usize,
    room: bool,
)
    requires
        call_ensures(Invalidator::len, (&*old(invalidator),), len),
        call_ensures(Invalidator::has_room, (&*old(invalidator),), room),
    ensures
        len == old(invalidator)@.len(),
        room <==> len <= isize::MAX / 128,
        room ==> call_requires(Invalidator::insert, (old(invalidator), key)),
{
}

/// A flag that is set or cleared says so, and no other flag, and no key, is touched.
pub proof fn law_flag_is_set_alone(
    invalidator: &mut Invalidator,
    flag: usize,
    valid: bool,
    after: Invalidator,
    read: usize,
    answer: bool,
)
    requires
        call_ensures(Invalidator::set_valid, (invalidator, flag, valid), ()),
        after@ == final(invalidator)@,
        call_ensures(Invalidator::is_valid, (&after, read), answer),
        flag < old(invalidator)@.len(),
        read < old(invalidator)@.len(),
    ensures
        answer == (if read == flag {
            valid
        } else {
            old(invalidator)@[read as int].1
        }),
        after@.len() == old(invalidator)@.len(),
        forall|i: int|
            0 <= i < old(invalidator)@.len() ==> (#[trigger] after@[i]).0 == old(invalidator)@[i].0,
        call_requires(Invalidator::set_valid, (old(invalidator), flag, valid)),
        call_requires(Invalidator::is_valid, (&after, read)),
{
}

/// Invalidating a key clears the flag of every key that equals it, and of no other. The keys stay.
pub proof fn law_invalidate_hits_equal_keys(invalidator: &mut Invalidator, key: CacheKey)
    requires
        call_ensures(Invalidator::invalidate, (invalidator, &key), ()),
    ensures
        final(invalidator)@.len() == old(invalidator)@.len(),
        forall|i: int|
            0 <= i < old(invalidator)@.len() ==> (#[trigger] final(invalidator)@[i]).0 == old(
                invalidator,
            )@[i].0,
        forall|i: int|
            0 <= i < old(invalidator)@.len() && same_key(old(invalidator)@[i].0, key) ==> !(
            #[trigger] final(invalidator)@[i]).1,
        forall|i: int|
            0 <= i < old(invalidator)@.len() && !same_key(old(invalidator)@[i].0, key) ==> (
            #[trigger] final(invalidator)@[i]).1 == old(invalidator)@[i].1,
        call_requires(Invalidator::invalidate, (old(invalidator), &key)),
{
}

/// Invalidating a URI clears the flag of every key whose URI equals it, whatever the method, and of no
/// other. The keys stay.
pub proof fn law_invalidate_all_for_hits_every_method(invalidator: &mut Invalidator, path: http::Uri)
    requires
        call_ensures(Invalidator::invalidate_all_for, (invalidator, &path), ()),
    ensures
        final(invalidator)@.len() == old(invalidator)@.len(),
        forall|i: int|
            0 <= i < old(invalidator)@.len() ==> (#[trigger] final(invalidator)@[i]).0 == old(
                invalidator,
            )@[i].0,
        forall|i: int|
            0 <= i < old(invalidator)@.len() && same_uris(old(invalidator)@[i].0.uri, path) ==> !(
            #[trigger] final(invalidator)@[i]).1,
        forall|i: int|
            0 <= i < old(invalidator)@.len() && !same_uris(old(invalidator)@[i].0.uri, path) ==> (
            #[trigger] final(invalidator)@[i]).1 == old(invalidator)@[i].1,
        call_requires(Invalidator::invalidate_all_for, (old(invalidator), &path)),
{
}

/// Invalidating with a predicate that says `hit` of every key clears the flags of the keys that are
/// hit, and of no other. The keys stay.
pub proof fn law_invalidate_with_a_predicate_hits_its_keys<P: Fn(&CacheKey) -> bool>(
    invalidator: &mut Invalidator,
    pred: P,
    hit: spec_fn(CacheKey) -> bool,
)
    requires
        call_ensures(Invalidator::invalidate_all_with_pred::<P>, (invalidator, pred), ()),
        forall|k: CacheKey, answer: bool| #[trigger]
            call_ensures(pred, (&k,), answer) ==> answer == hit(k),
    ensures
        final(invalidator)@.len() == old(invalidator)@.len(),
        forall|i: int|
            0 <= i < old(invalidator)@.len() ==> (#[trigger] final(invalidator)@[i]).0 == old(
                invalidator,
            )@[i].0,
        forall|i: int|
            0 <= i < old(invalidator)@.len() ==> (#[trigger] final(invalidator)@[i]).1 == (old(
                invalidator,
            )@[i].1 && !hit(old(invalidator)@[i].0)),
        (forall|k: CacheKey| #[trigger] call_requires(pred, (&k,))) ==> call_requires(
            Invalidator::invalidate_all_with_pred::<P>,
            (old(invalidator), pred),
        ),
{
}

}
