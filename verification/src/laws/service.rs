//! What serving a request does, said of the calls themselves.

use std::ops::Range;

use vstd::prelude::*;

use crate::body::{CacheStreamBody, Frame, FramePoll, FrameStep, MaybeCachedBody, Poll};
use crate::buffer::bytes_of;
use crate::cache::{Cache, CopyCache};
use crate::entry::{Entries, EntryState, ResponseState};
use crate::invalidator::Invalidator;
use crate::key::{method_name, same_key, CacheKey, Request};
use crate::laws::body::{frame_data_of, law_body_streamed_to_its_end_is_cached};
use crate::laws::{data_of, goes_on, law_keys_are_compared_lawfully, trailers_of};
use crate::options::{CacheOptions, Predicate};
use crate::response::{Response, StatusCode};
use crate::service::{consistent, CacheLayer, CacheService, CachingFut, PollStep};
use crate::trailers::{header_values, Headers};

verus! {

// ---------------------------------------------------------------------------------------------
// A request begins

/// A request leaves every entry as it is but that of its own key, whether its key is found or not. No
/// entry is taken away, and no entry gets another flag.
pub proof fn law_call_leaves_other_entries_alone<C: Cache<CacheKey, usize>, RespPred, ReqPred: Predicate<Request<T>>, T, H, W>(
    service: &mut CacheService<C, RespPred, ReqPred>,
    entries: &mut Entries<H, W>,
    invalidator: &mut Invalidator,
    req: Request<T>,
    fut: CachingFut<RespPred>,
)
    requires
        call_ensures(
            CacheService::<C, RespPred, ReqPred>::call::<T, H, W>,
            (service, entries, invalidator, &req),
            fut,
        ),
        consistent(old(service).cache(), old(entries)@, old(invalidator)@),
        old(entries)@.len() <= usize::MAX,
        old(invalidator)@.len() <= usize::MAX,
    ensures
        old(entries)@.len() <= final(entries)@.len() <= old(entries)@.len() + 1,
        forall|i: int|
            0 <= i < old(entries)@.len() && old(service).cache().value_at(req.key) != Some(i as usize)
                ==> #[trigger] final(entries)@[i] == old(entries)@[i],
        forall|i: int|
            0 <= i < old(entries)@.len() ==> (#[trigger] final(entries)@[i]).valid == old(
                entries,
            )@[i].valid,
{
}

/// A request whose key is found gets the entry that is found. For a key that is not found there is a
/// new entry, of which nothing is known, with a new flag, which is set.
pub proof fn law_call_finds_or_makes_an_entry<C: Cache<CacheKey, usize>, RespPred, ReqPred: Predicate<Request<T>>, T, H, W>(
    service: &mut CacheService<C, RespPred, ReqPred>,
    entries: &mut Entries<H, W>,
    invalidator: &mut Invalidator,
    req: Request<T>,
    fut: CachingFut<RespPred>,
)
    requires
        call_ensures(
            CacheService::<C, RespPred, ReqPred>::call::<T, H, W>,
            (service, entries, invalidator, &req),
            fut,
        ),
        consistent(old(service).cache(), old(entries)@, old(invalidator)@),
        old(entries)@.len() <= usize::MAX,
        old(invalidator)@.len() <= usize::MAX,
    ensures
        old(service).cache().value_at(req.key) matches Some(idx) ==> {
            &&& fut.entry() == idx
            &&& final(entries)@.len() == old(entries)@.len()
            &&& final(invalidator)@.len() == old(invalidator)@.len()
        },
        old(service).cache().value_at(req.key) is None ==> {
            let made = final(entries)@[fut.entry() as int];
            &&& fut.entry() == old(entries)@.len()
            &&& final(entries)@.len() == old(entries)@.len() + 1
            &&& made.response is Nothing
            &&& made.valid == old(invalidator)@.len()
            &&& final(invalidator)@.len() == old(invalidator)@.len() + 1
            &&& final(invalidator)@.last() == (req.key, true)
        },
{
}

/// A request whose entry was not invalidated finds the entry as it is, and changes neither an entry
/// nor a flag.
pub proof fn law_call_keeps_what_is_valid<C: Cache<CacheKey, usize>, RespPred, ReqPred: Predicate<Request<T>>, T, H, W>(
    service: &mut CacheService<C, RespPred, ReqPred>,
    entries: &mut Entries<H, W>,
    invalidator: &mut Invalidator,
    req: Request<T>,
    fut: CachingFut<RespPred>,
)
    requires
        call_ensures(
            CacheService::<C, RespPred, ReqPred>::call::<T, H, W>,
            (service, entries, invalidator, &req),
            fut,
        ),
        consistent(old(service).cache(), old(entries)@, old(invalidator)@),
        old(entries)@.len() <= usize::MAX,
        old(invalidator)@.len() <= usize::MAX,
        old(service).cache().value_at(req.key) matches Some(idx) && old(invalidator)@[old(
            entries,
        )@[idx as int].valid as int].1,
    ensures
        final(entries)@ == old(entries)@,
        final(invalidator)@ == old(invalidator)@,
        fut.entry() == old(service).cache().value_at(req.key)->0,
{
    assert(final(entries)@ =~= old(entries)@);
    assert(final(invalidator)@ =~= old(invalidator)@);
}

/// A request whose entry was invalidated has the response forgotten, whatever was known of it.
pub proof fn law_call_forgets_what_is_invalid<C: Cache<CacheKey, usize>, RespPred, ReqPred: Predicate<Request<T>>, T, H, W>(
    service: &mut CacheService<C, RespPred, ReqPred>,
    entries: &mut Entries<H, W>,
    invalidator: &mut Invalidator,
    req: Request<T>,
    fut: CachingFut<RespPred>,
)
    requires
        call_ensures(
            CacheService::<C, RespPred, ReqPred>::call::<T, H, W>,
            (service, entries, invalidator, &req),
            fut,
        ),
        consistent(old(service).cache(), old(entries)@, old(invalidator)@),
        old(entries)@.len() <= usize::MAX,
        old(invalidator)@.len() <= usize::MAX,
        old(service).cache().value_at(req.key) matches Some(idx) && !old(invalidator)@[old(
            entries,
        )@[idx as int].valid as int].1,
    ensures
        final(entries)@[fut.entry() as int].response is Nothing,
{
}

/// After a request the flag of its entry is set, with an equal key beside it. Every other flag, and
/// every key, is as it was.
pub proof fn law_call_leaves_other_flags_alone<C: Cache<CacheKey, usize>, RespPred, ReqPred: Predicate<Request<T>>, T, H, W>(
    service: &mut CacheService<C, RespPred, ReqPred>,
    entries: &mut Entries<H, W>,
    invalidator: &mut Invalidator,
    req: Request<T>,
    fut: CachingFut<RespPred>,
)
    requires
        call_ensures(
            CacheService::<C, RespPred, ReqPred>::call::<T, H, W>,
            (service, entries, invalidator, &req),
            fut,
        ),
        consistent(old(service).cache(), old(entries)@, old(invalidator)@),
        old(entries)@.len() <= usize::MAX,
        old(invalidator)@.len() <= usize::MAX,
    ensures
        ({
            let flag = final(entries)@[fut.entry() as int].valid;
            &&& flag < final(invalidator)@.len()
            &&& final(invalidator)@[flag as int].1
            &&& same_key(final(invalidator)@[flag as int].0, req.key)
            &&& forall|i: int|
                0 <= i < old(invalidator)@.len() ==> (#[trigger] final(invalidator)@[i]).0 == old(
                    invalidator,
                )@[i].0
            &&& forall|i: int|
                0 <= i < old(invalidator)@.len() && i != flag ==> (
                #[trigger] final(invalidator)@[i]).1 == old(invalidator)@[i].1
        }),
{
    law_keys_are_compared_lawfully();
}

/// After a request every key that equals its key finds the entry of the request. Every other key finds
/// what it found before.
pub proof fn law_called_key_finds_its_entry<C: Cache<CacheKey, usize>, RespPred, ReqPred: Predicate<Request<T>>, T, H, W>(
    service: &mut CacheService<C, RespPred, ReqPred>,
    entries: &mut Entries<H, W>,
    invalidator: &mut Invalidator,
    req: Request<T>,
    fut: CachingFut<RespPred>,
)
    requires
        call_ensures(
            CacheService::<C, RespPred, ReqPred>::call::<T, H, W>,
            (service, entries, invalidator, &req),
            fut,
        ),
        consistent(old(service).cache(), old(entries)@, old(invalidator)@),
        old(entries)@.len() <= usize::MAX,
        old(invalidator)@.len() <= usize::MAX,
    ensures
        forall|k: CacheKey| #[trigger]
            final(service).cache().value_at(k) == (if same_key(req.key, k) {
                Some(fut.entry())
            } else {
                old(service).cache().value_at(k)
            }),
        final(service).cache().value_at(req.key) == Some(fut.entry()),
{
    law_keys_are_compared_lawfully();
    assert forall|k: CacheKey| #[trigger]
        final(service).cache().value_at(k) == (if same_key(req.key, k) {
            Some(fut.entry())
        } else {
            old(service).cache().value_at(k)
        }) by {
        if same_key(req.key, k) {
            old(service).cache().equal_keys_agree(req.key, k);
        }
    }
}

/// A service is consistent after a request, and keeps its options.
pub proof fn law_call_keeps_the_service_consistent<C: Cache<CacheKey, usize>, RespPred, ReqPred: Predicate<Request<T>>, T, H, W>(
    service: &mut CacheService<C, RespPred, ReqPred>,
    entries: &mut Entries<H, W>,
    invalidator: &mut Invalidator,
    req: Request<T>,
    fut: CachingFut<RespPred>,
)
    requires
        call_ensures(
            CacheService::<C, RespPred, ReqPred>::call::<T, H, W>,
            (service, entries, invalidator, &req),
            fut,
        ),
        consistent(old(service).cache(), old(entries)@, old(invalidator)@),
        old(entries)@.len() <= usize::MAX,
        old(invalidator)@.len() <= usize::MAX,
    ensures
        consistent(final(service).cache(), final(entries)@, final(invalidator)@),
        final(service).options() == old(service).options(),
        fut.entry() < final(entries)@.len(),
{
}

/// Whether a response may be cached is for the predicate on requests to say first, if there is one. The
/// predicate on responses is handed on.
pub proof fn law_call_asks_the_predicate_on_requests<C: Cache<CacheKey, usize>, RespPred, ReqPred: Predicate<Request<T>>, T, H, W>(
    service: &mut CacheService<C, RespPred, ReqPred>,
    entries: &mut Entries<H, W>,
    invalidator: &mut Invalidator,
    req: Request<T>,
    fut: CachingFut<RespPred>,
)
    requires
        call_ensures(
            CacheService::<C, RespPred, ReqPred>::call::<T, H, W>,
            (service, entries, invalidator, &req),
            fut,
        ),
        consistent(old(service).cache(), old(entries)@, old(invalidator)@),
        old(entries)@.len() <= usize::MAX,
        old(invalidator)@.len() <= usize::MAX,
    ensures
        old(service).options().req_pred is None ==> fut.valid_so_far(),
        old(service).options().req_pred matches Some(pred) ==> pred.may_answer(
            &req,
            fut.valid_so_far(),
        ),
        fut.resp_pred() == old(service).options().resp_pred,
{
}

/// With a method as the predicate on requests, a response may be cached if and only if the request has
/// that method.
pub proof fn law_call_with_a_method_as_predicate<C: Cache<CacheKey, usize>, RespPred, T, H, W>(
    service: &mut CacheService<C, RespPred, http::Method>,
    entries: &mut Entries<H, W>,
    invalidator: &mut Invalidator,
    req: Request<T>,
    fut: CachingFut<RespPred>,
)
    requires
        call_ensures(
            CacheService::<C, RespPred, http::Method>::call::<T, H, W>,
            (service, entries, invalidator, &req),
            fut,
        ),
        consistent(old(service).cache(), old(entries)@, old(invalidator)@),
        old(entries)@.len() <= usize::MAX,
        old(invalidator)@.len() <= usize::MAX,
    ensures
        old(service).options().req_pred matches Some(pred) ==> (fut.valid_so_far() <==> method_name(
            req.key.method,
        ) == method_name(*pred)),
        old(service).options().req_pred is None ==> fut.valid_so_far(),
{
}

/// Every request can be served for whose flag there is room, if the predicate on requests can be asked.
pub proof fn law_request_can_be_served<C: Cache<CacheKey, usize>, RespPred, ReqPred: Predicate<Request<T>>, T, H, W>(
    service: &mut CacheService<C, RespPred, ReqPred>,
    entries: &mut Entries<H, W>,
    invalidator: &mut Invalidator,
    req: Request<T>,
)
    requires
        consistent(old(service).cache(), old(entries)@, old(invalidator)@),
        old(service).cache().value_at(req.key) is Some || old(invalidator)@.len() <= isize::MAX / 128,
        old(service).options().req_pred matches Some(pred) ==> pred.applies(&req),
    ensures
        call_requires(
            CacheService::<C, RespPred, ReqPred>::call::<T, H, W>,
            (old(service), old(entries), old(invalidator), &req),
        ),
{
}

/// [`CacheService::has_room_for`] says whether the key is known or there is room for its flag.
pub proof fn law_room_is_needed_for_new_keys_only<C: Cache<CacheKey, usize>, RespPred, ReqPred>(
    service: CacheService<C, RespPred, ReqPred>,
    invalidator: Invalidator,
    key: CacheKey,
    room: bool,
)
    requires
        call_ensures(
            CacheService::<C, RespPred, ReqPred>::has_room_for,
            (&service, &invalidator, &key),
            room,
        ),
    ensures
        room <==> service.cache().value_at(key) is Some || invalidator@.len() <= isize::MAX / 128,
{
}

/// Keys that are not equal never find the same entry, so that no request is answered with the response
/// to another.
pub proof fn law_entry_is_that_of_one_key<C: Cache<CacheKey, usize>, H, W>(
    cache: C,
    entries: Seq<EntryState<H, W>>,
    valids: Seq<(CacheKey, bool)>,
    a: CacheKey,
    b: CacheKey,
)
    requires
        consistent(cache, entries, valids),
        cache.value_at(a) is Some,
        cache.value_at(b) == cache.value_at(a),
    ensures
        same_key(a, b),
        cache.value_at(a)->0 < entries.len(),
        entries[cache.value_at(a)->0 as int].valid < valids.len(),
{
}

/// A key that is invalidated between two requests is answered anew by the second: nothing is known of
/// its response then. A request for another key, whose response was valid, still finds it.
pub proof fn law_invalidation_reaches_the_next_request<C: Cache<CacheKey, usize>, RespPred, ReqPred: Predicate<Request<T>>, T, H, W>(
    service: &mut CacheService<C, RespPred, ReqPred>,
    entries: &mut Entries<H, W>,
    invalidating: &mut Invalidator,
    invalidator: &mut Invalidator,
    invalidated: CacheKey,
    req: Request<T>,
    fut: CachingFut<RespPred>,
)
    requires
        call_ensures(Invalidator::invalidate, (invalidating, &invalidated), ()),
        old(invalidator)@ == final(invalidating)@,
        call_ensures(
            CacheService::<C, RespPred, ReqPred>::call::<T, H, W>,
            (service, entries, invalidator, &req),
            fut,
        ),
        consistent(old(service).cache(), old(entries)@, old(invalidating)@),
        old(service).cache().value_at(req.key) is Some,
    ensures
        fut.entry() == old(service).cache().value_at(req.key)->0,
        same_key(req.key, invalidated) ==> final(entries)@[fut.entry() as int].response is Nothing,
        !same_key(req.key, invalidated) && old(invalidating)@[old(
            entries,
        )@[fut.entry() as int].valid as int].1 ==> final(entries)@[fut.entry() as int] == old(
            entries,
        )@[fut.entry() as int],
{
    law_keys_are_compared_lawfully();
    let idx = old(service).cache().value_at(req.key)->0 as int;
    let flag = old(entries)@[idx].valid as int;
    assert(same_key(old(invalidating)@[flag].0, req.key));
    assert(final(invalidating)@[flag].1 == (old(invalidating)@[flag].1 && !same_key(
        old(invalidating)@[flag].0,
        invalidated,
    )));
}

// ---------------------------------------------------------------------------------------------
// A request is answered

/// A request whose response someone else is streaming waits for it, however much has been gathered: on
/// a clone of what the entry has for it, and with the answer of the inner service given back.
pub proof fn law_request_waits_for_a_stream<RespPred, H: Clone, W: Clone, B, E>(
    fut: CachingFut<RespPred>,
    entries: &mut Entries<H, W>,
    polled: Poll<Result<Response<H, B>, E>>,
    cond_var: W,
    step: PollStep<H, W, B, E>,
) where RespPred: Predicate<Response<H, MaybeCachedBody<B>>>
    requires
        call_ensures(
            CachingFut::<RespPred>::poll::<H, W, B, E>,
            (&fut, entries, polled, cond_var),
            step,
        ),
        fut.entry() < old(entries)@.len(),
        old(entries)@[fut.entry() as int].response is Partial,
        polled matches Poll::Ready(Ok(_)),
    ensures
        step matches PollStep::Wait { cond_var: wait_on, resp } && cloned(
            old(entries)@[fut.entry() as int].response->cond_var,
            wait_on,
        ) && polled == Poll::Ready(Ok::<Response<H, B>, E>(resp)),
        final(entries)@ == old(entries)@,
{
}

/// A request is told to wait only while someone else is streaming the response.
pub proof fn law_request_waits_only_for_a_stream<RespPred, H: Clone, W: Clone, B, E>(
    fut: CachingFut<RespPred>,
    entries: &mut Entries<H, W>,
    polled: Poll<Result<Response<H, B>, E>>,
    cond_var: W,
    step: PollStep<H, W, B, E>,
) where RespPred: Predicate<Response<H, MaybeCachedBody<B>>>
    requires
        call_ensures(
            CachingFut::<RespPred>::poll::<H, W, B, E>,
            (&fut, entries, polled, cond_var),
            step,
        ),
        fut.entry() < old(entries)@.len(),
    ensures
        step is Wait ==> old(entries)@[fut.entry() as int].response is Partial,
{
}

/// Every answer is one of two. Either it repeats the complete response in the entry: its status, a
/// clone of its head, and a body that holds all of its data and its trailers. Or it is the answer of the
/// inner service, with its status, its head and its body, which is wrapped. There is no third.
pub proof fn law_answer_is_that_of_the_entry_or_of_the_inner_service<RespPred, H: Clone, W: Clone, B, E>(
    fut: CachingFut<RespPred>,
    entries: &mut Entries<H, W>,
    polled: Poll<Result<Response<H, B>, E>>,
    cond_var: W,
    step: PollStep<H, W, B, E>,
) where RespPred: Predicate<Response<H, MaybeCachedBody<B>>>
    requires
        call_ensures(
            CachingFut::<RespPred>::poll::<H, W, B, E>,
            (&fut, entries, polled, cond_var),
            step,
        ),
        fut.entry() < old(entries)@.len(),
        step matches PollStep::Ready(Ok(_)),
    ensures
        ({
            let answer = step->Ready_0->Ok_0;
            let known = old(entries)@[fut.entry() as int].response;
            ||| {
                &&& known matches ResponseState::Complete { status, head, data, trailers }
                &&& answer.status == status
                &&& cloned(head, answer.head)
                &&& answer.body matches MaybeCachedBody::Cached { data: Some(d), trailers: Some(t) }
                &&& bytes_of(d) == data
                &&& header_values(t) == trailers
            }
            ||| {
                &&& known is Nothing
                &&& polled matches Poll::Ready(Ok(resp))
                &&& answer.status == resp.status
                &&& answer.head == resp.head
                &&& answer.body matches MaybeCachedBody::New(stream)
                &&& stream.inner == resp.body
                &&& stream.cache_entry matches Some(idx) ==> idx == fut.entry()
            }
        }),
{
}

/// Where the inner service has answered and nobody is streaming the response, the request is answered.
pub proof fn law_request_is_answered<RespPred, H: Clone, W: Clone, B, E>(
    fut: CachingFut<RespPred>,
    entries: &mut Entries<H, W>,
    polled: Poll<Result<Response<H, B>, E>>,
    cond_var: W,
    step: PollStep<H, W, B, E>,
) where RespPred: Predicate<Response<H, MaybeCachedBody<B>>>
    requires
        call_ensures(
            CachingFut::<RespPred>::poll::<H, W, B, E>,
            (&fut, entries, polled, cond_var),
            step,
        ),
        fut.entry() < old(entries)@.len(),
        !(old(entries)@[fut.entry() as int].response is Partial),
        polled matches Poll::Ready(Ok(_)),
    ensures
        step matches PollStep::Ready(Ok(_)),
{
}

/// While the inner service has not answered, neither is the request; an error of the inner service is
/// passed on, and is the only error. Neither changes an entry.
pub proof fn law_inner_service_is_heard<RespPred, H: Clone, W: Clone, B, E>(
    fut: CachingFut<RespPred>,
    entries: &mut Entries<H, W>,
    polled: Poll<Result<Response<H, B>, E>>,
    cond_var: W,
    step: PollStep<H, W, B, E>,
) where RespPred: Predicate<Response<H, MaybeCachedBody<B>>>
    requires
        call_ensures(
            CachingFut::<RespPred>::poll::<H, W, B, E>,
            (&fut, entries, polled, cond_var),
            step,
        ),
        fut.entry() < old(entries)@.len(),
    ensures
        polled is Pending <==> step is Pending,
        polled matches Poll::Ready(Err(error)) ==> step == PollStep::<H, W, B, E>::Ready(Err(error)),
        step matches PollStep::Ready(Err(error)) ==> polled == Poll::Ready(
            Err::<Response<H, B>, E>(error),
        ),
        !(polled matches Poll::Ready(Ok(_))) ==> final(entries)@ == old(entries)@,
{
}

/// Answering a request touches no entry but its own, and that one only where nothing was known of the
/// response. No entry gets another flag.
pub proof fn law_answer_touches_one_entry<RespPred, H: Clone, W: Clone, B, E>(
    fut: CachingFut<RespPred>,
    entries: &mut Entries<H, W>,
    polled: Poll<Result<Response<H, B>, E>>,
    cond_var: W,
    step: PollStep<H, W, B, E>,
) where RespPred: Predicate<Response<H, MaybeCachedBody<B>>>
    requires
        call_ensures(
            CachingFut::<RespPred>::poll::<H, W, B, E>,
            (&fut, entries, polled, cond_var),
            step,
        ),
        fut.entry() < old(entries)@.len(),
    ensures
        final(entries)@.len() == old(entries)@.len(),
        forall|i: int|
            0 <= i < old(entries)@.len() && i != fut.entry() ==> #[trigger] final(entries)@[i] == old(
                entries,
            )@[i],
        final(entries)@[fut.entry() as int].valid == old(entries)@[fut.entry() as int].valid,
        !(old(entries)@[fut.entry() as int].response is Nothing) ==> final(entries)@ == old(
            entries,
        )@,
{
}

/// An answer of the inner service whose body is to be copied begins the response in the entry: with its
/// status, a clone of its head, and neither data nor trailers, for others to wait on `cond_var`. An
/// answer whose body is not to be copied leaves the entry alone.
pub proof fn law_cached_answer_begins_the_response<RespPred, H: Clone, W: Clone, B, E>(
    fut: CachingFut<RespPred>,
    entries: &mut Entries<H, W>,
    polled: Poll<Result<Response<H, B>, E>>,
    cond_var: W,
    step: PollStep<H, W, B, E>,
) where RespPred: Predicate<Response<H, MaybeCachedBody<B>>>
    requires
        call_ensures(
            CachingFut::<RespPred>::poll::<H, W, B, E>,
            (&fut, entries, polled, cond_var),
            step,
        ),
        fut.entry() < old(entries)@.len(),
        old(entries)@[fut.entry() as int].response is Nothing,
        polled matches Poll::Ready(Ok(_)),
    ensures
        ({
            let resp = polled->Ready_0->Ok_0;
            let after = final(entries)@[fut.entry() as int].response;
            &&& step matches PollStep::Ready(Ok(answer))
            &&& answer.body matches MaybeCachedBody::New(stream)
            &&& (stream.cache_entry is Some ==> {
                &&& after is Partial
                &&& after->Partial_status == resp.status
                &&& cloned(resp.head, after->Partial_head)
                &&& after->Partial_data.len() == 0
                &&& after->Partial_trailers == Headers::empty()
                &&& after->cond_var == cond_var
            })
            &&& (stream.cache_entry is None ==> final(entries)@ == old(entries)@)
        }),
{
}

/// An answer of the inner service is cached if the request fulfilled its predicate and the answer
/// fulfills its own, if there is one; otherwise it is not. The predicate is asked about the answer that
/// the client would get.
pub proof fn law_predicates_decide_what_is_cached<RespPred, H: Clone, W: Clone, B, E>(
    fut: CachingFut<RespPred>,
    entries: &mut Entries<H, W>,
    polled: Poll<Result<Response<H, B>, E>>,
    cond_var: W,
    step: PollStep<H, W, B, E>,
) where RespPred: Predicate<Response<H, MaybeCachedBody<B>>>
    requires
        call_ensures(
            CachingFut::<RespPred>::poll::<H, W, B, E>,
            (&fut, entries, polled, cond_var),
            step,
        ),
        fut.entry() < old(entries)@.len(),
        old(entries)@[fut.entry() as int].response is Nothing,
        polled matches Poll::Ready(Ok(_)),
    ensures
        ({
            let resp = polled->Ready_0->Ok_0;
            let asked = Response {
                status: resp.status,
                head: resp.head,
                body: MaybeCachedBody::New(
                    CacheStreamBody { inner: resp.body, cache_entry: Some(fut.entry()) },
                ),
            };
            &&& step matches PollStep::Ready(Ok(answer))
            &&& answer.body matches MaybeCachedBody::New(stream)
            &&& (!fut.valid_so_far() ==> stream.cache_entry is None)
            &&& (fut.valid_so_far() && fut.resp_pred() is None ==> stream.cache_entry is Some)
            &&& (fut.valid_so_far() && fut.resp_pred() is Some
                ==> fut.resp_pred()->0.may_answer(&asked, stream.cache_entry is Some))
        }),
{
}

/// With a status code as the predicate on responses, exactly the answers with this status are cached.
pub proof fn law_status_code_decides_what_is_cached<H: Clone, W: Clone, B, E>(
    fut: CachingFut<StatusCode>,
    entries: &mut Entries<H, W>,
    polled: Poll<Result<Response<H, B>, E>>,
    cond_var: W,
    step: PollStep<H, W, B, E>,
)
    requires
        call_ensures(
            CachingFut::<StatusCode>::poll::<H, W, B, E>,
            (&fut, entries, polled, cond_var),
            step,
        ),
        fut.entry() < old(entries)@.len(),
        old(entries)@[fut.entry() as int].response is Nothing,
        polled matches Poll::Ready(Ok(_)),
        fut.valid_so_far(),
        fut.resp_pred() is Some,
    ensures
        step matches PollStep::Ready(Ok(answer)) && answer.body matches MaybeCachedBody::New(stream) && (
        stream.cache_entry is Some <==> polled->Ready_0->Ok_0.status == *fut.resp_pred()->0),
{
}

/// With a range of status codes as the predicate on responses, exactly the answers whose status lies in
/// it are cached, the end not included.
pub proof fn law_status_range_decides_what_is_cached<H: Clone, W: Clone, B, E>(
    fut: CachingFut<Range<StatusCode>>,
    entries: &mut Entries<H, W>,
    polled: Poll<Result<Response<H, B>, E>>,
    cond_var: W,
    step: PollStep<H, W, B, E>,
)
    requires
        call_ensures(
            CachingFut::<Range<StatusCode>>::poll::<H, W, B, E>,
            (&fut, entries, polled, cond_var),
            step,
        ),
        fut.entry() < old(entries)@.len(),
        old(entries)@[fut.entry() as int].response is Nothing,
        polled matches Poll::Ready(Ok(_)),
        fut.valid_so_far(),
        fut.resp_pred() is Some,
    ensures
        step matches PollStep::Ready(Ok(answer)) && answer.body matches MaybeCachedBody::New(stream) && (
        stream.cache_entry is Some <==> fut.resp_pred()->0.start.0
            <= polled->Ready_0->Ok_0.status.0 < fut.resp_pred()->0.end.0),
{
}

/// A request can go on with whatever the inner service was polled to. The predicate on responses has to
/// be such that it can be asked, but not where the request was turned down.
pub proof fn law_request_can_go_on<RespPred, H: Clone, W: Clone, B, E>(
    fut: CachingFut<RespPred>,
    entries: &mut Entries<H, W>,
    polled: Poll<Result<Response<H, B>, E>>,
    cond_var: W,
) where RespPred: Predicate<Response<H, MaybeCachedBody<B>>>
    requires
        fut.entry() < old(entries)@.len(),
        polled matches Poll::Ready(Ok(resp)) ==> (fut.valid_so_far() && fut.resp_pred() is Some
            ==> fut.resp_pred()->0.applies(
            &Response {
                status: resp.status,
                head: resp.head,
                body: MaybeCachedBody::New(
                    CacheStreamBody { inner: resp.body, cache_entry: Some(fut.entry()) },
                ),
            },
        )),
    ensures
        call_requires(
            CachingFut::<RespPred>::poll::<H, W, B, E>,
            (&fut, old(entries), polled, cond_var),
        ),
{
}

/// The cached response is there if and only if the response in the entry is complete. It has its status
/// and a clone of its head, and its body holds all the data and the trailers.
pub proof fn law_complete_response_is_repeated<RespPred, H: Clone, W, B>(
    fut: CachingFut<RespPred>,
    entries: Entries<H, W>,
    cached: Option<Response<H, MaybeCachedBody<B>>>,
)
    requires
        call_ensures(CachingFut::<RespPred>::poll_cached::<H, W, B>, (&fut, &entries), cached),
    ensures
        ({
            let known = entries@[fut.entry() as int].response;
            &&& cached is Some <==> known is Complete
            &&& cached is Some ==> {
                &&& cached->0.status == known->Complete_status
                &&& cloned(known->Complete_head, cached->0.head)
                &&& cached->0.body is Cached
                &&& cached->0.body->data is Some
                &&& bytes_of(cached->0.body->data->0) == known->Complete_data
                &&& cached->0.body->trailers is Some
                &&& header_values(cached->0.body->trailers->0) == known->Complete_trailers
            }
        }),
{
}

/// The cached response can be asked for at any time.
pub proof fn law_cached_response_can_be_asked_for<RespPred, H: Clone, W, B>(
    fut: CachingFut<RespPred>,
    entries: Entries<H, W>,
)
    requires
        fut.entry() < entries@.len(),
    ensures
        call_requires(CachingFut::<RespPred>::poll_cached::<H, W, B>, (&fut, &entries)),
{
}

/// Two requests share one stream: when the first has been answered with a body that is copied, the
/// second, whose inner service has answered too, waits on a clone of what the first was given for it.
pub proof fn law_second_request_shares_the_stream<RespPred, H: Clone, W: Clone, B, E>(
    first: CachingFut<RespPred>,
    first_entries: &mut Entries<H, W>,
    first_resp: Response<H, B>,
    first_cond_var: W,
    first_step: PollStep<H, W, B, E>,
    second: CachingFut<RespPred>,
    second_entries: &mut Entries<H, W>,
    second_resp: Response<H, B>,
    second_cond_var: W,
    second_step: PollStep<H, W, B, E>,
) where RespPred: Predicate<Response<H, MaybeCachedBody<B>>>
    requires
        call_ensures(
            CachingFut::<RespPred>::poll::<H, W, B, E>,
            (&first, first_entries, Poll::Ready(Ok(first_resp)), first_cond_var),
            first_step,
        ),
        call_ensures(
            CachingFut::<RespPred>::poll::<H, W, B, E>,
            (&second, second_entries, Poll::Ready(Ok(second_resp)), second_cond_var),
            second_step,
        ),
        first.entry() == second.entry(),
        first.entry() < old(first_entries)@.len(),
        old(second_entries)@ == final(first_entries)@,
        first_step matches PollStep::Ready(Ok(answer)) && answer.body matches MaybeCachedBody::New(
            stream,
        ) && stream.cache_entry is Some,
    ensures
        second_step matches PollStep::Wait { cond_var, resp } && cloned(first_cond_var, cond_var) && resp
            == second_resp,
        final(second_entries)@ == old(second_entries)@,
{
}

// ---------------------------------------------------------------------------------------------
// From the first answer to the next

/// What a request was answered with and streamed to its end is what the next request for an equal key
/// is answered with, unless the key was invalidated: the status, a clone of a clone of the head, all the
/// data in order, and all the trailers. It is also what the first client got.
pub proof fn law_next_request_gets_what_the_first_got<
    C: Cache<CacheKey, usize>,
    RespPred,
    ReqPred: Predicate<Request<T>>,
    T,
    H: Clone,
    W: Clone,
    B,
    E,
    D,
>(
    first: CachingFut<RespPred>,
    begun: &mut Entries<H, W>,
    resp: Response<H, B>,
    cond_var: W,
    answer: Response<H, MaybeCachedBody<B>>,
    stream: CacheStreamBody<B>,
    entries: Seq<&mut Entries<H, W>>,
    polls: Seq<FramePoll<Vec<u8>, E>>,
    steps: Seq<FrameStep<E, W>>,
    service: &mut CacheService<C, RespPred, ReqPred>,
    called: &mut Entries<H, W>,
    invalidator: &mut Invalidator,
    req: Request<T>,
    next: CachingFut<RespPred>,
    asked: Entries<H, W>,
    cached: Option<Response<H, MaybeCachedBody<D>>>,
) where RespPred: Predicate<Response<H, MaybeCachedBody<B>>>
    requires
// The first request is answered by the inner service, and its body is to be copied.

        call_ensures(
            CachingFut::<RespPred>::poll::<H, W, B, E>,
            (&first, begun, Poll::Ready(Ok(resp)), cond_var),
            PollStep::Ready(Ok(answer)),
        ),
        first.entry() < old(begun)@.len(),
        answer.body == MaybeCachedBody::New(stream),
        stream.cache_entry is Some,
        // The body is streamed to its end.
        polls.len() > 0,
        entries.len() == polls.len(),
        steps.len() == polls.len(),
        entries[0]@ == final(begun)@,
        forall|i: int| #![trigger steps[i]]
            0 <= i < polls.len() ==> call_ensures(
                CacheStreamBody::<B>::poll_frame::<H, W, E>,
                (&stream, entries[i], polls[i]),
                steps[i],
            ),
        forall|i: int| #![trigger entries[i]]
            0 < i < polls.len() ==> entries[i]@ == final(entries[i - 1])@,
        forall|i: int| 0 <= i < polls.len() - 1 ==> goes_on(#[trigger] polls[i]),
        polls.last() == Poll::Ready(None::<Result<Frame<Vec<u8>>, E>>),
        // The next request finds the entry, whose flag is set, and asks for the cached response.
        call_ensures(
            CacheService::<C, RespPred, ReqPred>::call::<T, H, W>,
            (service, called, invalidator, &req),
            next,
        ),
        consistent(old(service).cache(), old(called)@, old(invalidator)@),
        old(called)@ == final(entries.last())@,
        old(service).cache().value_at(req.key) == Some(first.entry()),
        old(invalidator)@[old(called)@[first.entry() as int].valid as int].1,
        call_ensures(CachingFut::<RespPred>::poll_cached::<H, W, D>, (&next, &asked), cached),
        asked@ == final(called)@,
    ensures
        cached is Some,
        cached->0.status == resp.status,
        exists|head: H| cloned(resp.head, head) && #[trigger] cloned(head, cached->0.head),
        cached->0.body is Cached,
        cached->0.body->data is Some,
        bytes_of(cached->0.body->data->0) == data_of(polls),
        bytes_of(cached->0.body->data->0) == frame_data_of(steps),
        cached->0.body->trailers is Some,
        header_values(cached->0.body->trailers->0) == trailers_of(polls),
{
    let idx = first.entry();
    let start = entries[0]@[idx as int].response;
    assert(stream.cache_entry == Some(idx));
    assert(start is Partial);
    law_body_streamed_to_its_end_is_cached(stream, entries, polls, steps, idx);
    assert(start->Partial_data + data_of(polls) =~= data_of(polls));
    assert(start->Partial_data + frame_data_of(steps) =~= frame_data_of(steps));
    assert(Headers::empty().union_prefer_right(trailers_of(polls)) =~= trailers_of(polls));
    assert(final(called)@ =~= old(called)@);
    assert(cloned(start->Partial_head, cached->0.head));
}

// ---------------------------------------------------------------------------------------------
// Layers and services

/// A service that a layer makes has the predicates that the layer was made with, and a cache in which
/// no key is found; with no entries and any flags it is consistent.
pub proof fn law_layer_makes_an_empty_service<C: Cache<CacheKey, usize>, RespPred, ReqPred, H, W>(
    options: CacheOptions<RespPred, ReqPred>,
    layer: CacheLayer<RespPred, ReqPred>,
    service: CacheService<C, RespPred, ReqPred>,
    valids: Seq<(CacheKey, bool)>,
)
    requires
        call_ensures(CacheLayer::<RespPred, ReqPred>::new, (options,), layer),
        call_ensures(CacheLayer::<RespPred, ReqPred>::layer::<C>, (&layer,), service),
    ensures
        service.options().resp_pred == options.resp_pred,
        service.options().req_pred == options.req_pred,
        forall|k: CacheKey| (#[trigger] service.cache().value_at(k)) is None,
        consistent(service.cache(), Seq::<EntryState<H, W>>::empty(), valids),
{
}

/// A clone of a layer makes services with the same predicates.
pub proof fn law_clone_of_a_layer_has_its_predicates<RespPred, ReqPred>(
    layer: CacheLayer<RespPred, ReqPred>,
    copy: CacheLayer<RespPred, ReqPred>,
)
    requires
        call_ensures(CacheLayer::<RespPred, ReqPred>::clone, (&layer,), copy),
    ensures
        copy.options() == layer.options(),
{
}

/// A clone of a service has the same predicates, finds the same entries, and is consistent with what the
/// service is consistent with.
pub proof fn law_clone_of_a_service_finds_the_same<
    C: CopyCache<CacheKey, usize>,
    RespPred,
    ReqPred,
    H,
    W,
>(
    service: CacheService<C, RespPred, ReqPred>,
    copy: CacheService<C, RespPred, ReqPred>,
    entries: Seq<EntryState<H, W>>,
    valids: Seq<(CacheKey, bool)>,
)
    requires
        call_ensures(CacheService::<C, RespPred, ReqPred>::clone, (&service,), copy),
        consistent(service.cache(), entries, valids),
    ensures
        copy.options() == service.options(),
        forall|k: CacheKey| #[trigger] copy.cache().value_at(k) == service.cache().value_at(k),
        consistent(copy.cache(), entries, valids),
{
    assert forall|k: CacheKey| #![trigger copy.cache().value_at(k)]
        copy.cache().value_at(k) is Some implies {
            &&& copy.cache().value_at(k)->0 < entries.len()
            &&& same_key(valids[entries[copy.cache().value_at(k)->0 as int].valid as int].0, k)
        } by {
        assert(copy.cache().value_at(k) == service.cache().value_at(k));
    }
}

}
