//! What holds of the cache as a whole, whatever the requests, the responses and their order.

use vstd::prelude::*;
use vstd::std_specs::cmp::PartialEqSpec;

use crate::body::{after_poll, woken_by_poll, Frame, FramePoll, MaybeCachedBody, Poll};
use crate::buffer::bytes_of;
use crate::cache::{
    first_match, found_after_insert, lawful_eq, not_stored, Cache,
};
use crate::entry::{replays, EntryState, ResponseState};
use crate::invalidator::{cleared, flag_set, key_is, uri_is};
use crate::key::{same_key, CacheKey};
use crate::options::Predicate;
use crate::response::Response;
use crate::service::{
    consistent, entries_after_call, valids_after_call, CachingFut, PollStep,
};
use crate::trailers::{header_values, Headers};

pub mod body;
pub mod cache;
pub mod entry;
pub mod invalidator;
pub mod key;
pub mod options;
pub mod service;

verus! {

// ---------------------------------------------------------------------------------------------
// Streaming a response and replaying it

/// A poll that does not end the body: it yields a frame, or nothing yet.
pub open spec fn goes_on<E>(polled: FramePoll<Vec<u8>, E>) -> bool {
    polled is Pending || polled matches Poll::Ready(Some(Ok(_)))
}

/// The poll with which a body comes to its end.
pub open spec fn end_of_body<E>() -> FramePoll<Vec<u8>, E> {
    Poll::Ready(None)
}

/// What has been learned of a response after a row of polls of its body.
pub open spec fn after_polls<H, W, E>(
    state: ResponseState<H, W>,
    polls: Seq<FramePoll<Vec<u8>, E>>,
) -> ResponseState<H, W>
    decreases polls.len(),
{
    if polls.len() == 0 {
        state
    } else {
        after_poll(after_polls(state, polls.drop_last()), polls.last())
    }
}

/// The data that a row of polls yielded, put together.
pub open spec fn data_of<E>(polls: Seq<FramePoll<Vec<u8>, E>>) -> Seq<u8>
    decreases polls.len(),
{
    if polls.len() == 0 {
        Seq::empty()
    } else {
        match polls.last() {
            Poll::Ready(Some(Ok(Frame::Data(data)))) => data_of(polls.drop_last()) + data@,
            _ => data_of(polls.drop_last()),
        }
    }
}

/// The trailers that a row of polls yielded, put together. Where a name comes again, its values
/// replace those that it had.
pub open spec fn trailers_of<E>(polls: Seq<FramePoll<Vec<u8>, E>>) -> Headers
    decreases polls.len(),
{
    if polls.len() == 0 {
        Headers::empty()
    } else {
        match polls.last() {
            Poll::Ready(Some(Ok(Frame::Trailers(trailers)))) => trailers_of(
                polls.drop_last(),
            ).union_prefer_right(header_values(trailers)),
            _ => trailers_of(polls.drop_last()),
        }
    }
}

/// While a body is streamed, the entry has gathered what was streamed so far, and nothing else of it
/// has changed.
pub proof fn law_streaming_gathers<H, W, E>(
    state: ResponseState<H, W>,
    polls: Seq<FramePoll<Vec<u8>, E>>,
)
    requires
        state is Partial,
        forall|i: int| 0 <= i < polls.len() ==> goes_on(#[trigger] polls[i]),
    ensures
        after_polls(state, polls) == (ResponseState::Partial {
            status: state->Partial_status,
            head: state->Partial_head,
            data: state->Partial_data + data_of(polls),
            trailers: state->Partial_trailers.union_prefer_right(trailers_of(polls)),
            cond_var: state->cond_var,
        }),
    decreases polls.len(),
{
    if polls.len() == 0 {
        assert(state->Partial_data + Seq::<u8>::empty() =~= state->Partial_data);
        assert(state->Partial_trailers.union_prefer_right(Headers::empty())
            =~= state->Partial_trailers);
    } else {
        let init = polls.drop_last();
        assert forall|i: int| 0 <= i < init.len() implies goes_on(#[trigger] init[i]) by {
            assert(init[i] == polls[i]);
        }
        law_streaming_gathers(state, init);
        match polls.last() {
            Poll::Ready(Some(Ok(Frame::Data(data)))) => {
                assert(state->Partial_data + data_of(init) + data@ =~= state->Partial_data + (
                data_of(init) + data@));
            },
            Poll::Ready(Some(Ok(Frame::Trailers(trailers)))) => {
                let more = header_values(trailers);
                assert(state->Partial_trailers.union_prefer_right(
                    trailers_of(init),
                ).union_prefer_right(more) =~= state->Partial_trailers.union_prefer_right(
                    trailers_of(init).union_prefer_right(more),
                ));
            },
            _ => {
                assert(goes_on(polls[polls.len() - 1]));
            },
        }
    }
}

/// A response that was streamed to its end is replayed: the cached body yields one frame with all
/// the data, in the order in which it was streamed, then one with all the trailers, then its end,
/// over and over.
pub proof fn law_replay<H: Clone, W, B, E>(
    begun: ResponseState<H, W>,
    polls: Seq<FramePoll<Vec<u8>, E>>,
    resp: Response<H, MaybeCachedBody<B>>,
)
    requires
        begun matches ResponseState::Partial { data, trailers, .. } && data.len() == 0 && trailers
            == Headers::empty(),
        forall|i: int| 0 <= i < polls.len() ==> goes_on(#[trigger] polls[i]),
        replays(after_poll(after_polls(begun, polls), end_of_body::<E>()), resp),
    ensures
        resp.status == begun->Partial_status,
        cloned(begun->Partial_head, resp.head),
        resp.body.next_cached() matches Some(Frame::Data(data)) && bytes_of(data) == data_of(polls),
        resp.body.handed_out().next_cached() matches Some(Frame::Trailers(trailers))
            && header_values(trailers) == trailers_of(polls),
        resp.body.handed_out().handed_out().next_cached() is None,
        resp.body.handed_out().handed_out().handed_out()
            == resp.body.handed_out().handed_out(),
{
    law_streaming_gathers(begun, polls);
    assert(begun->Partial_data + data_of(polls) =~= data_of(polls));
    assert(Headers::empty().union_prefer_right(trailers_of(polls)) =~= trailers_of(polls));
}

/// Those who wait for a response are woken exactly when it stops being streamed, because it is
/// complete or because it failed.
pub proof fn law_waiters_are_woken<H, W, E>(
    state: ResponseState<H, W>,
    polled: FramePoll<Vec<u8>, E>,
)
    requires
        state is Partial,
    ensures
        after_poll(state, polled) is Partial <==> woken_by_poll(state, polled) is None,
        !(after_poll(state, polled) is Partial) ==> woken_by_poll(state, polled) == Some(
            state->cond_var,
        ),
{
}

// ---------------------------------------------------------------------------------------------
// Which responses are cached

/// The request is answered with a body that is copied to an entry as it is streamed.
pub open spec fn is_copied<H, W, B, E>(step: PollStep<H, W, B, E>) -> bool {
    &&& step matches PollStep::Ready(Ok(answer))
    &&& answer.body matches MaybeCachedBody::New(body)
    &&& body.cache_entry is Some
}

/// A response to a request that did not fulfill the predicate on requests is not cached: the entry
/// stays as it is, and the body that is returned copies nothing.
pub proof fn law_rejected_request_is_not_cached<RespPred, H: Clone, W: Clone, B, E>(
    fut: CachingFut<RespPred>,
    entries: Seq<EntryState<H, W>>,
    resp: Response<H, B>,
    cond_var: W,
    after: Seq<EntryState<H, W>>,
    step: PollStep<H, W, B, E>,
) where RespPred: Predicate<Response<H, MaybeCachedBody<B>>>
    requires
        fut.polled_to(entries, Poll::Ready(Ok(resp)), cond_var, after, step),
        !fut.valid_so_far(),
    ensures
        after == entries,
        !is_copied(step),
{
}

/// A response that the predicate on responses turns down is not cached.
pub proof fn law_rejected_response_is_not_cached<RespPred, H: Clone, W: Clone, B, E>(
    fut: CachingFut<RespPred>,
    entries: Seq<EntryState<H, W>>,
    resp: Response<H, B>,
    cond_var: W,
    after: Seq<EntryState<H, W>>,
    step: PollStep<H, W, B, E>,
) where RespPred: Predicate<Response<H, MaybeCachedBody<B>>>
    requires
        fut.polled_to(entries, Poll::Ready(Ok(resp)), cond_var, after, step),
        fut.resp_pred() matches Some(pred) && !pred.may_answer(
            &CachingFut::<RespPred>::wrapped(resp, Some(fut.entry())),
            true,
        ),
    ensures
        after == entries,
        !is_copied(step),
{
}

/// A response that neither predicate turns down is cached, unless something is known of it already:
/// its body is copied to the entry, which begins with the status of the response and no data.
pub proof fn law_accepted_response_is_cached<RespPred, H: Clone, W: Clone, B, E>(
    fut: CachingFut<RespPred>,
    entries: Seq<EntryState<H, W>>,
    resp: Response<H, B>,
    cond_var: W,
    after: Seq<EntryState<H, W>>,
    step: PollStep<H, W, B, E>,
) where RespPred: Predicate<Response<H, MaybeCachedBody<B>>>
    requires
        fut.polled_to(entries, Poll::Ready(Ok(resp)), cond_var, after, step),
        fut.entry() < entries.len(),
        entries[fut.entry() as int].response is Nothing,
        fut.valid_so_far(),
        fut.resp_pred() matches Some(pred) ==> !pred.may_answer(
            &CachingFut::<RespPred>::wrapped(resp, Some(fut.entry())),
            false,
        ),
    ensures
        is_copied(step),
        after[fut.entry() as int].response matches ResponseState::Partial {
            status,
            head,
            data,
            trailers,
            cond_var: waited_on,
        } && status == resp.status && cloned(resp.head, head) && data.len() == 0 && trailers
            == Headers::empty() && waited_on == cond_var,
{
}

// ---------------------------------------------------------------------------------------------
// Invalidation

/// Every key beside a flag stays where it is, whatever is invalidated.
pub open spec fn keys_kept(before: Seq<(CacheKey, bool)>, after: Seq<(CacheKey, bool)>) -> bool {
    &&& before.len() <= after.len()
    &&& forall|i: int| 0 <= i < before.len() ==> (#[trigger] after[i]).0 == before[i].0
}

/// Every entry keeps its flag, whatever becomes of its response.
pub open spec fn flags_kept<H, W>(
    before: Seq<EntryState<H, W>>,
    after: Seq<EntryState<H, W>>,
) -> bool {
    &&& before.len() == after.len()
    &&& forall|i: int| 0 <= i < before.len() ==> (#[trigger] after[i]).valid == before[i].valid
}

/// A new service is consistent with no entries and with any flags.
pub proof fn law_new_service_is_consistent<C: Cache<CacheKey, usize>, H, W>(
    cache: C,
    valids: Seq<(CacheKey, bool)>,
)
    requires
        cache.wf(),
        forall|k: CacheKey| (#[trigger] cache.value_at(k)) is None,
    ensures
        consistent(cache, Seq::<EntryState<H, W>>::empty(), valids),
{
}

/// A service stays consistent whatever is streamed into its entries, whichever flags are set or
/// cleared, and however many keys other services insert.
pub proof fn law_consistency_is_kept<C: Cache<CacheKey, usize>, H, W>(
    cache: C,
    entries: Seq<EntryState<H, W>>,
    valids: Seq<(CacheKey, bool)>,
    entries_after: Seq<EntryState<H, W>>,
    valids_after: Seq<(CacheKey, bool)>,
)
    requires
        consistent(cache, entries, valids),
        flags_kept(entries, entries_after),
        keys_kept(valids, valids_after),
    ensures
        consistent(cache, entries_after, valids_after),
{
    assert forall|k: CacheKey| #![trigger cache.value_at(k)]
        cache.value_at(k) matches Some(idx) implies {
            &&& cache.value_at(k)->0 < entries_after.len()
            &&& same_key(
                valids_after[entries_after[cache.value_at(k)->0 as int].valid as int].0,
                k,
            )
        } by {
        let idx = cache.value_at(k)->0 as int;
        assert(entries_after[idx].valid == entries[idx].valid);
        assert(valids_after[entries[idx].valid as int].0 == valids[entries[idx].valid as int].0);
    }
    assert forall|i: int| 0 <= i < entries_after.len() implies (
    #[trigger] entries_after[i]).valid < valids_after.len() by {
        assert(entries[i].valid < valids.len());
    }
    assert forall|i: int, j: int| 0 <= i < j < entries_after.len() implies (
    #[trigger] entries_after[i]).valid != (#[trigger] entries_after[j]).valid by {
        assert(entries[i].valid != entries[j].valid);
    }
}

/// Invalidation clears flags, and leaves alone the keys, and the flags of the keys that are not hit.
/// It never sets a flag.
pub proof fn law_invalidation_only_clears(
    valids: Seq<(CacheKey, bool)>,
    hit: spec_fn(CacheKey) -> bool,
)
    ensures
        cleared(valids, hit).len() == valids.len(),
        keys_kept(valids, cleared(valids, hit)),
        forall|i: int|
            0 <= i < valids.len() ==> (#[trigger] cleared(valids, hit)[i]).1 == (valids[i].1 && !hit(
                valids[i].0,
            )),
{
}

/// Invalidating twice is invalidating once, and the order of two invalidations does not matter.
pub proof fn law_invalidations_commute(
    valids: Seq<(CacheKey, bool)>,
    hit: spec_fn(CacheKey) -> bool,
    other: spec_fn(CacheKey) -> bool,
)
    ensures
        cleared(cleared(valids, hit), hit) == cleared(valids, hit),
        cleared(cleared(valids, hit), other) == cleared(cleared(valids, other), hit),
{
    assert(cleared(cleared(valids, hit), hit) =~= cleared(valids, hit));
    assert(cleared(cleared(valids, hit), other) =~= cleared(cleared(valids, other), hit));
}

/// Invalidating a URI invalidates every response that invalidating one key with this URI does.
pub proof fn law_uri_covers_its_keys(valids: Seq<(CacheKey, bool)>, key: CacheKey)
    ensures
        forall|i: int|
            0 <= i < valids.len() && (#[trigger] cleared(valids, uri_is(key.uri))[i]).1
                ==> cleared(valids, key_is(key))[i].1,
{
}

/// The entry that a request finds has forgotten its response if its key was hit by an invalidation
/// since the last request, and its flag is set again. Every other entry is as it was.
pub proof fn law_invalidated_response_is_forgotten<C: Cache<CacheKey, usize>, H, W>(
    cache: C,
    entries: Seq<EntryState<H, W>>,
    valids: Seq<(CacheKey, bool)>,
    hit: spec_fn(CacheKey) -> bool,
    key: CacheKey,
    idx: usize,
)
    requires
        consistent(cache, entries, valids),
        cache.value_at(key) == Some(idx),
        hit(valids[entries[idx as int].valid as int].0),
    ensures
        ({
            let invalidated = cleared(valids, hit);
            let after = entries_after_call(Some(idx), entries, invalidated);
            &&& consistent(cache, entries, invalidated)
            &&& after[idx as int].response is Nothing
            &&& valids_after_call(
                key,
                Some(idx),
                entries,
                invalidated,
            )[entries[idx as int].valid as int].1
            &&& forall|i: int| 0 <= i < entries.len() && i != idx ==> #[trigger] after[i]
                == entries[i]
        }),
{
    law_consistency_is_kept(cache, entries, valids, entries, cleared(valids, hit));
}

/// Invalidating a key makes the next request for it find nothing: it is answered by the inner
/// service.
pub proof fn law_invalidate_then_call<C: Cache<CacheKey, usize>, H, W>(
    cache: C,
    entries: Seq<EntryState<H, W>>,
    valids: Seq<(CacheKey, bool)>,
    key: CacheKey,
    idx: usize,
)
    requires
        consistent(cache, entries, valids),
        cache.value_at(key) == Some(idx),
    ensures
        ({
            let invalidated = cleared(valids, key_is(key));
            let after = entries_after_call(Some(idx), entries, invalidated);
            after[idx as int].response is Nothing
        }),
        ({
            let invalidated = cleared(valids, uri_is(key.uri));
            let after = entries_after_call(Some(idx), entries, invalidated);
            after[idx as int].response is Nothing
        }),
{
    assert(same_key(valids[entries[idx as int].valid as int].0, key));
    law_invalidated_response_is_forgotten(cache, entries, valids, key_is(key), key, idx);
    law_invalidated_response_is_forgotten(cache, entries, valids, uri_is(key.uri), key, idx);
}

/// A request whose entry was not invalidated finds what has been learned of the response so far, and
/// changes nothing. In particular a complete response is served until it is invalidated.
pub proof fn law_valid_response_is_kept<C: Cache<CacheKey, usize>, H, W>(
    cache: C,
    entries: Seq<EntryState<H, W>>,
    valids: Seq<(CacheKey, bool)>,
    key: CacheKey,
    idx: usize,
)
    requires
        consistent(cache, entries, valids),
        cache.value_at(key) == Some(idx),
        valids[entries[idx as int].valid as int].1,
    ensures
        entries_after_call(Some(idx), entries, valids) == entries,
        valids_after_call(key, Some(idx), entries, valids) == valids,
{
    assert(entries_after_call(Some(idx), entries, valids) =~= entries);
    assert(valids_after_call(key, Some(idx), entries, valids) =~= valids);
}

/// Invalidating is not lasting: once a request has been made, the next one keeps what was learned
/// since.
pub proof fn law_invalidation_works_once<C: Cache<CacheKey, usize>, H, W>(
    cache: C,
    entries: Seq<EntryState<H, W>>,
    valids: Seq<(CacheKey, bool)>,
    key: CacheKey,
    idx: usize,
    learned: ResponseState<H, W>,
)
    requires
        consistent(cache, entries, valids),
        cache.value_at(key) == Some(idx),
    ensures
        ({
            let valids_after = valids_after_call(key, Some(idx), entries, valids);
            let called = entries_after_call(Some(idx), entries, valids);
            let since = called.update(idx as int, called[idx as int].with_response(learned));
            entries_after_call(Some(idx), since, valids_after) == since
        }),
{
    let valids_after = valids_after_call(key, Some(idx), entries, valids);
    let called = entries_after_call(Some(idx), entries, valids);
    let since = called.update(idx as int, called[idx as int].with_response(learned));
    assert(entries_after_call(Some(idx), since, valids_after) =~= since);
}

/// A request for a response that was streamed to its end and not invalidated since is answered with
/// what was streamed: all the data, in order, then all the trailers.
pub proof fn law_next_request_is_answered_with_what_was_streamed<
    C: Cache<CacheKey, usize>,
    H: Clone,
    W,
    B,
    E,
>(
    cache: C,
    entries: Seq<EntryState<H, W>>,
    valids: Seq<(CacheKey, bool)>,
    key: CacheKey,
    idx: usize,
    begun: ResponseState<H, W>,
    polls: Seq<FramePoll<Vec<u8>, E>>,
    resp: Response<H, MaybeCachedBody<B>>,
)
    requires
        consistent(cache, entries, valids),
        cache.value_at(key) == Some(idx),
        valids[entries[idx as int].valid as int].1,
        begun matches ResponseState::Partial { data, trailers, .. } && data.len() == 0 && trailers
            == Headers::empty(),
        forall|i: int| 0 <= i < polls.len() ==> goes_on(#[trigger] polls[i]),
        entries[idx as int].response == after_poll(after_polls(begun, polls), end_of_body::<E>()),
        replays(entries_after_call(Some(idx), entries, valids)[idx as int].response, resp),
    ensures
        resp.status == begun->Partial_status,
        cloned(begun->Partial_head, resp.head),
        resp.body.next_cached() matches Some(Frame::Data(data)) && bytes_of(data) == data_of(polls),
        resp.body.handed_out().next_cached() matches Some(Frame::Trailers(trailers))
            && header_values(trailers) == trailers_of(polls),
        resp.body.handed_out().handed_out().next_cached() is None,
{
    law_valid_response_is_kept(cache, entries, valids, key, idx);
    law_replay(begun, polls, resp);
}

/// If the body is dropped before the response is complete, the next request for it forgets what was
/// learned and tries again.
pub proof fn law_dropped_response_is_forgotten<C: Cache<CacheKey, usize>, H, W>(
    cache: C,
    entries: Seq<EntryState<H, W>>,
    valids: Seq<(CacheKey, bool)>,
    key: CacheKey,
    idx: usize,
)
    requires
        consistent(cache, entries, valids),
        cache.value_at(key) == Some(idx),
    ensures
        ({
            let dropped = flag_set(valids, entries[idx as int].valid as int, false);
            &&& consistent(cache, entries, dropped)
            &&& entries_after_call(Some(idx), entries, dropped)[idx as int].response is Nothing
        }),
{
    let dropped = flag_set(valids, entries[idx as int].valid as int, false);
    law_consistency_is_kept(cache, entries, valids, entries, dropped);
}

/// A request touches no flag but that of its entry.
pub proof fn law_call_touches_one_flag<H, W>(
    key: CacheKey,
    found: Option<usize>,
    entries: Seq<EntryState<H, W>>,
    valids: Seq<(CacheKey, bool)>,
)
    requires
        found matches Some(idx) ==> idx < entries.len() && entries[idx as int].valid < valids.len(),
    ensures
        keys_kept(valids, valids_after_call(key, found, entries, valids)),
        forall|i: int|
            0 <= i < valids.len() && !(found matches Some(idx) && entries[idx as int].valid == i)
                ==> #[trigger] valids_after_call(key, found, entries, valids)[i] == valids[i],
{
}

/// No flag is that of an entry here and of an entry there.
pub open spec fn flags_apart<H, W>(
    entries: Seq<EntryState<H, W>>,
    others: Seq<EntryState<H, W>>,
) -> bool {
    forall|i: int, j: int|
        0 <= i < entries.len() && 0 <= j < others.len() ==> (#[trigger] entries[i]).valid != (
        #[trigger] others[j]).valid
}

/// A new service has no flag in common with any other.
pub proof fn law_new_service_has_flags_of_its_own<H, W>(others: Seq<EntryState<H, W>>)
    ensures
        flags_apart(Seq::<EntryState<H, W>>::empty(), others),
        flags_apart(others, Seq::<EntryState<H, W>>::empty()),
{
}

/// Services that share the invalidator, each with entries of its own, do not disturb each other: when
/// one of them serves a request, it comes into no flag of an entry of the other, and the flags of the
/// other stay as they are. So a request to the one does not make the other miss an invalidation.
pub proof fn law_services_do_not_disturb_each_other<
    C: Cache<CacheKey, usize>,
    D: Cache<CacheKey, usize>,
    H,
    W,
>(
    cache: C,
    entries: Seq<EntryState<H, W>>,
    other: D,
    others: Seq<EntryState<H, W>>,
    valids: Seq<(CacheKey, bool)>,
    key: CacheKey,
)
    requires
        consistent(cache, entries, valids),
        consistent(other, others, valids),
        flags_apart(entries, others),
        valids.len() <= usize::MAX,
    ensures
        ({
            let found = cache.value_at(key);
            let valids_after = valids_after_call(key, found, entries, valids);
            &&& flags_apart(entries_after_call(found, entries, valids), others)
            &&& flags_apart(others, entries_after_call(found, entries, valids))
            &&& consistent(other, others, valids_after)
            &&& forall|j: int|
                0 <= j < others.len() ==> valids_after[(#[trigger] others[j]).valid as int]
                    == valids[others[j].valid as int]
        }),
{
    let found = cache.value_at(key);
    let after = entries_after_call(found, entries, valids);
    let valids_after = valids_after_call(key, found, entries, valids);
    assert forall|i: int, j: int| 0 <= i < after.len() && 0 <= j < others.len() implies (
    #[trigger] after[i]).valid != (#[trigger] others[j]).valid by {
        if i < entries.len() {
            assert(after[i].valid == entries[i].valid);
        }
    }
    law_call_touches_one_flag(key, found, entries, valids);
    law_consistency_is_kept(other, others, valids, others, valids_after);
}

/// A copy of the cache of a service, in which every key finds what it finds in the cache, is
/// consistent with the entries and the flags of the service.
pub proof fn law_clone_is_consistent<C: Cache<CacheKey, usize>, H, W>(
    cache: C,
    copy: C,
    entries: Seq<EntryState<H, W>>,
    valids: Seq<(CacheKey, bool)>,
)
    requires
        consistent(cache, entries, valids),
        cache.wf() ==> copy.wf(),
        forall|k: CacheKey| #[trigger] copy.value_at(k) == cache.value_at(k),
    ensures
        consistent(copy, entries, valids),
{
    assert forall|k: CacheKey| #![trigger copy.value_at(k)]
        copy.value_at(k) matches Some(idx) implies {
            &&& copy.value_at(k)->0 < entries.len()
            &&& same_key(valids[entries[copy.value_at(k)->0 as int].valid as int].0, k)
        } by {
        assert(copy.value_at(k) == cache.value_at(k));
    }
}

/// Services that share their entries and the invalidator do not disturb each other, though each has
/// a cache of its own: when one of them serves a request, for which its cache has `found` an entry or
/// not, the other stays consistent.
pub proof fn law_call_keeps_others_consistent<C: Cache<CacheKey, usize>, H, W>(
    other: C,
    entries: Seq<EntryState<H, W>>,
    valids: Seq<(CacheKey, bool)>,
    key: CacheKey,
    found: Option<usize>,
)
    requires
        consistent(other, entries, valids),
        found matches Some(idx) ==> idx < entries.len(),
        valids.len() <= usize::MAX,
    ensures
        consistent(
            other,
            entries_after_call(found, entries, valids),
            valids_after_call(key, found, entries, valids),
        ),
{
    let after = entries_after_call(found, entries, valids);
    let valids_after = valids_after_call(key, found, entries, valids);
    assert(forall|i: int|
        0 <= i < entries.len() ==> (#[trigger] after[i]).valid == (#[trigger] entries[i]).valid);
    assert(forall|i: int| 0 <= i < valids.len() ==> (#[trigger] valids_after[i]).0 == valids[i].0);
    assert forall|k: CacheKey| #![trigger other.value_at(k)]
        other.value_at(k) matches Some(idx) implies {
            &&& other.value_at(k)->0 < after.len()
            &&& same_key(valids_after[after[other.value_at(k)->0 as int].valid as int].0, k)
        } by {
        let idx = other.value_at(k)->0 as int;
        assert(after[idx].valid == entries[idx].valid);
    }
}

// ---------------------------------------------------------------------------------------------
// The cache

/// `==` on keys is an equivalence relation.
pub proof fn law_keys_are_compared_lawfully()
    ensures
        lawful_eq::<CacheKey>(),
{
}

/// Once a request for `key` has been made, every request for a key that equals it finds the same
/// entry, which is the one that `key` found before, if it found any.
pub proof fn law_next_request_finds_the_entry<C: Cache<CacheKey, usize>>(
    cache: C,
    key: CacheKey,
    other: CacheKey,
    entry: usize,
)
    requires
        cache.wf(),
        same_key(key, other),
        cache.value_at(key) matches Some(idx) ==> entry == idx,
    ensures
        found_after_insert(
            cache.value_at(other),
            other,
            cache.value_at(key) is Some,
            key,
            entry,
        ) == Some(entry),
{
    law_keys_are_compared_lawfully();
    cache.equal_keys_agree(key, other);
}

/// The first value that is inserted for a key stays: an insertion is found, unless there was a value
/// already, which is then found as before.
pub proof fn law_first_insertion_stays<K: Eq, V>(before: Option<V>, key: K, val: V)
    requires
        lawful_eq::<K>(),
    ensures
        found_after_insert(before, key, before is Some, key, val) == Some(
            match before {
                Some(v) => v,
                None => val,
            },
        ),
{
    assert(key.eq_spec(&key));
}

/// An insertion does not change what other keys find.
pub proof fn law_insertion_is_local<K: Eq, V>(
    before: Option<V>,
    key: K,
    present: bool,
    inserted: K,
    val: V,
)
    requires
        !inserted.eq_spec(&key),
    ensures
        found_after_insert(before, key, present, inserted, val) == before,
{
}

/// Removing the key that was just inserted into a linear map undoes the insertion.
pub proof fn law_remove_undoes_insert<K: Eq, V>(entries: Seq<(K, V)>, key: K, val: V)
    requires
        lawful_eq::<K>(),
        not_stored(entries, key),
    ensures
        first_match(entries.push((key, val)), key, entries.len() as int),
        entries.push((key, val)).remove(entries.len() as int) == entries,
{
    let pushed = entries.push((key, val));
    assert(key.eq_spec(&key));
    assert forall|j: int| 0 <= j < entries.len() implies !(
    #[trigger] pushed[j]).0.eq_spec(&key) by {
        assert(pushed[j] == entries[j]);
        if entries[j].0.eq_spec(&key) {
            assert(key.eq_spec(&entries[j].0));
        }
    }
    assert(pushed.remove(entries.len() as int) =~= entries);
}

}
