//! What polling and dropping a body do, said of the calls themselves.

use vstd::prelude::*;

use crate::body::{CacheStreamBody, Frame, FramePoll, FrameStep, MaybeCachedBody, NoOpBody, Poll};
use crate::buffer::bytes_of;
use crate::entry::Entries;
use crate::invalidator::Invalidator;
use crate::laws::{data_of, goes_on, trailers_of};
use crate::trailers::{header_values, Headers};

verus! {

// ---------------------------------------------------------------------------------------------
// What the client gets

/// What the wrapped body yields is passed on to the client as it is, whether it is copied or not:
/// nothing of the data is lost, added or changed, and neither the trailers, an error nor the end is
/// held back.
pub proof fn law_stream_is_passed_on<B, H, W, E>(
    body: CacheStreamBody<B>,
    entries: &mut Entries<H, W>,
    polled: FramePoll<Vec<u8>, E>,
    step: FrameStep<E, W>,
)
    requires
        call_ensures(CacheStreamBody::<B>::poll_frame::<H, W, E>, (&body, entries, polled), step),
    ensures
        polled is Pending <==> step.frame is Pending,
        polled matches Poll::Ready(None) ==> step.frame == Poll::Ready(
            None::<Result<Frame<bytes::Bytes>, E>>,
        ),
        polled matches Poll::Ready(Some(Err(error))) ==> step.frame == Poll::Ready(
            Some(Err::<Frame<bytes::Bytes>, E>(error)),
        ),
        polled matches Poll::Ready(Some(Ok(Frame::Data(data)))) ==> (step.frame matches Poll::Ready(
            Some(Ok(Frame::Data(out))),
        ) && bytes_of(out) == data@),
        polled matches Poll::Ready(Some(Ok(Frame::Trailers(trailers)))) ==> step.frame
            == Poll::Ready(Some(Ok::<Frame<bytes::Bytes>, E>(Frame::Trailers(trailers)))),
{
}

/// A new body passes on what the body wrapped in it yields, as it is, and stays the same body.
pub proof fn law_new_body_is_passed_on<B, H, W, E>(
    body: &mut MaybeCachedBody<B>,
    entries: &mut Entries<H, W>,
    polled: FramePoll<Vec<u8>, E>,
    step: FrameStep<E, W>,
)
    requires
        call_ensures(MaybeCachedBody::<B>::poll_frame::<H, W, E>, (body, entries, polled), step),
        *old(body) is New,
    ensures
        *final(body) == *old(body),
        polled is Pending <==> step.frame is Pending,
        polled matches Poll::Ready(None) ==> step.frame == Poll::Ready(
            None::<Result<Frame<bytes::Bytes>, E>>,
        ),
        polled matches Poll::Ready(Some(Err(error))) ==> step.frame == Poll::Ready(
            Some(Err::<Frame<bytes::Bytes>, E>(error)),
        ),
        polled matches Poll::Ready(Some(Ok(Frame::Data(data)))) ==> (step.frame matches Poll::Ready(
            Some(Ok(Frame::Data(out))),
        ) && bytes_of(out) == data@),
        polled matches Poll::Ready(Some(Ok(Frame::Trailers(trailers)))) ==> step.frame
            == Poll::Ready(Some(Ok::<Frame<bytes::Bytes>, E>(Frame::Trailers(trailers)))),
{
}

/// The data in a row of frames, put together.
pub open spec fn frame_data_of<E, W>(steps: Seq<FrameStep<E, W>>) -> Seq<u8>
    decreases steps.len(),
{
    if steps.len() == 0 {
        Seq::empty()
    } else {
        match steps.last().frame {
            Poll::Ready(Some(Ok(Frame::Data(data)))) => frame_data_of(steps.drop_last()) + bytes_of(
                data,
            ),
            _ => frame_data_of(steps.drop_last()),
        }
    }
}

/// The trailers in a row of frames, put together.
pub open spec fn frame_trailers_of<E, W>(steps: Seq<FrameStep<E, W>>) -> Headers
    decreases steps.len(),
{
    if steps.len() == 0 {
        Headers::empty()
    } else {
        match steps.last().frame {
            Poll::Ready(Some(Ok(Frame::Trailers(trailers)))) => frame_trailers_of(
                steps.drop_last(),
            ).union_prefer_right(header_values(trailers)),
            _ => frame_trailers_of(steps.drop_last()),
        }
    }
}

/// Over a whole row of polls, the data of the frames that the client got, put together, is the data
/// that the wrapped body yielded, put together; so are the trailers.
pub proof fn law_client_gets_all_of_the_stream<B, H, W, E>(
    body: CacheStreamBody<B>,
    entries: Seq<&mut Entries<H, W>>,
    polls: Seq<FramePoll<Vec<u8>, E>>,
    steps: Seq<FrameStep<E, W>>,
)
    requires
        entries.len() == polls.len(),
        steps.len() == polls.len(),
        forall|i: int| #![trigger steps[i]]
            0 <= i < polls.len() ==> call_ensures(
                CacheStreamBody::<B>::poll_frame::<H, W, E>,
                (&body, entries[i], polls[i]),
                steps[i],
            ),
    ensures
        frame_data_of(steps) == data_of(polls),
        frame_trailers_of(steps) == trailers_of(polls),
    decreases polls.len(),
{
    if polls.len() > 0 {
        let last = polls.len() - 1;
        assert(steps[last] == steps.last());
        assert forall|i: int| #![trigger steps.drop_last()[i]]
            0 <= i < last implies call_ensures(
            CacheStreamBody::<B>::poll_frame::<H, W, E>,
            (&body, entries.drop_last()[i], polls.drop_last()[i]),
            steps.drop_last()[i],
        ) by {
            assert(steps.drop_last()[i] == steps[i]);
        }
        law_client_gets_all_of_the_stream(
            body,
            entries.drop_last(),
            polls.drop_last(),
            steps.drop_last(),
        );
        law_stream_is_passed_on(body, entries[last], polls[last], steps[last]);
    }
}

// ---------------------------------------------------------------------------------------------
// What is copied to the cache

/// `stream` was polled, by itself or as the new body that is handed to the client.
pub open spec fn was_polled<B, H, W, E>(
    stream: CacheStreamBody<B>,
    body: &mut MaybeCachedBody<B>,
    entries: &mut Entries<H, W>,
    polled: FramePoll<Vec<u8>, E>,
    step: FrameStep<E, W>,
) -> bool {
    ||| call_ensures(CacheStreamBody::<B>::poll_frame::<H, W, E>, (&stream, entries, polled), step)
    ||| {
        &&& *body == MaybeCachedBody::New(stream)
        &&& call_ensures(
            MaybeCachedBody::<B>::poll_frame::<H, W, E>,
            (body, entries, polled),
            step,
        )
    }
}

/// Polling a body touches no entry but the one that it is copied to, and never the flag of an entry.
pub proof fn law_poll_touches_one_entry<B, H, W, E>(
    stream: CacheStreamBody<B>,
    body: &mut MaybeCachedBody<B>,
    entries: &mut Entries<H, W>,
    polled: FramePoll<Vec<u8>, E>,
    step: FrameStep<E, W>,
    idx: usize,
)
    requires
        was_polled(stream, body, entries, polled, step),
        stream.cache_entry == Some(idx),
        idx < old(entries)@.len(),
    ensures
        final(entries)@.len() == old(entries)@.len(),
        forall|i: int|
            0 <= i < old(entries)@.len() && i != idx ==> #[trigger] final(entries)@[i] == old(
                entries,
            )@[i],
        final(entries)@[idx as int].valid == old(entries)@[idx as int].valid,
{
}

/// A body that is not to be cached is copied nowhere, and nobody is woken.
pub proof fn law_uncached_body_touches_nothing<B, H, W, E>(
    stream: CacheStreamBody<B>,
    body: &mut MaybeCachedBody<B>,
    entries: &mut Entries<H, W>,
    polled: FramePoll<Vec<u8>, E>,
    step: FrameStep<E, W>,
)
    requires
        was_polled(stream, body, entries, polled, step),
        stream.cache_entry is None,
    ensures
        final(entries)@ == old(entries)@,
        step.wake is None,
{
}

/// A chunk that is streamed is appended to what the entry has gathered, all of it and at the end.
/// Status, head and trailers stay, and the response is still being streamed.
pub proof fn law_chunk_is_appended<B, H, W, E>(
    stream: CacheStreamBody<B>,
    body: &mut MaybeCachedBody<B>,
    entries: &mut Entries<H, W>,
    polled: FramePoll<Vec<u8>, E>,
    step: FrameStep<E, W>,
    idx: usize,
)
    requires
        was_polled(stream, body, entries, polled, step),
        stream.cache_entry == Some(idx),
        idx < old(entries)@.len(),
        old(entries)@[idx as int].response is Partial,
        polled matches Poll::Ready(Some(Ok(Frame::Data(_)))),
    ensures
        ({
            let before = old(entries)@[idx as int].response;
            let after = final(entries)@[idx as int].response;
            &&& after is Partial
            &&& after->Partial_data == before->Partial_data + polled->Ready_0->0->Ok_0->Data_0@
            &&& after->Partial_trailers == before->Partial_trailers
            &&& after->Partial_status == before->Partial_status
            &&& after->Partial_head == before->Partial_head
            &&& after->cond_var == before->cond_var
        }),
{
}

/// Trailers that are streamed are all in the entry afterwards, with the values that came last; the
/// others that it had gathered are still there. Status, head and data stay, and the response is still
/// being streamed.
pub proof fn law_trailers_are_gathered<B, H, W, E>(
    stream: CacheStreamBody<B>,
    body: &mut MaybeCachedBody<B>,
    entries: &mut Entries<H, W>,
    polled: FramePoll<Vec<u8>, E>,
    step: FrameStep<E, W>,
    idx: usize,
)
    requires
        was_polled(stream, body, entries, polled, step),
        stream.cache_entry == Some(idx),
        idx < old(entries)@.len(),
        old(entries)@[idx as int].response is Partial,
        polled matches Poll::Ready(Some(Ok(Frame::Trailers(_)))),
    ensures
        ({
            let before = old(entries)@[idx as int].response;
            let after = final(entries)@[idx as int].response;
            let more = header_values(polled->Ready_0->0->Ok_0->Trailers_0);
            &&& after is Partial
            &&& forall|name: Seq<char>| #[trigger]
                after->Partial_trailers.dom().contains(name) <==> more.dom().contains(name)
                    || before->Partial_trailers.dom().contains(name)
            &&& forall|name: Seq<char>|
                more.dom().contains(name) ==> #[trigger] after->Partial_trailers[name]
                    == more[name]
            &&& forall|name: Seq<char>|
                before->Partial_trailers.dom().contains(name) && !more.dom().contains(name)
                    ==> #[trigger] after->Partial_trailers[name] == before->Partial_trailers[name]
            &&& after->Partial_data == before->Partial_data
            &&& after->Partial_status == before->Partial_status
            &&& after->Partial_head == before->Partial_head
            &&& after->cond_var == before->cond_var
        }),
{
}

/// While a body has nothing to yield, nothing changes.
pub proof fn law_pending_body_changes_nothing<B, H, W, E>(
    stream: CacheStreamBody<B>,
    body: &mut MaybeCachedBody<B>,
    entries: &mut Entries<H, W>,
    polled: FramePoll<Vec<u8>, E>,
    step: FrameStep<E, W>,
    idx: usize,
)
    requires
        was_polled(stream, body, entries, polled, step),
        stream.cache_entry == Some(idx),
        idx < old(entries)@.len(),
        polled is Pending,
    ensures
        final(entries)@ == old(entries)@,
        step.wake is None,
{
    assert(final(entries)@ =~= old(entries)@);
}

/// A body that fails is thrown away, however much of it was gathered: nothing is known of the
/// response afterwards, so that someone else can try to get it, and those who wait for it are woken.
pub proof fn law_failed_body_is_thrown_away<B, H, W, E>(
    stream: CacheStreamBody<B>,
    body: &mut MaybeCachedBody<B>,
    entries: &mut Entries<H, W>,
    polled: FramePoll<Vec<u8>, E>,
    step: FrameStep<E, W>,
    idx: usize,
)
    requires
        was_polled(stream, body, entries, polled, step),
        stream.cache_entry == Some(idx),
        idx < old(entries)@.len(),
        old(entries)@[idx as int].response is Partial,
        polled matches Poll::Ready(Some(Err(_))),
    ensures
        final(entries)@[idx as int].response is Nothing,
        step.wake == Some(old(entries)@[idx as int].response->cond_var),
{
}

/// A response becomes complete by the poll with which its body comes to its end, and by no other. It
/// is then complete with the status, the head, the data and the trailers that were gathered, and those
/// who wait for it are woken.
pub proof fn law_only_the_end_completes<B, H, W, E>(
    stream: CacheStreamBody<B>,
    body: &mut MaybeCachedBody<B>,
    entries: &mut Entries<H, W>,
    polled: FramePoll<Vec<u8>, E>,
    step: FrameStep<E, W>,
    idx: usize,
)
    requires
        was_polled(stream, body, entries, polled, step),
        stream.cache_entry == Some(idx),
        idx < old(entries)@.len(),
        old(entries)@[idx as int].response is Partial,
    ensures
        ({
            let before = old(entries)@[idx as int].response;
            let after = final(entries)@[idx as int].response;
            &&& after is Complete <==> polled == Poll::Ready(None::<Result<Frame<Vec<u8>>, E>>)
            &&& after is Complete ==> {
                &&& after->Complete_status == before->Partial_status
                &&& after->Complete_head == before->Partial_head
                &&& after->Complete_data == before->Partial_data
                &&& after->Complete_trailers == before->Partial_trailers
                &&& step.wake == Some(before->cond_var)
            }
        }),
{
}

/// Nobody is woken while the response is still being streamed.
pub proof fn law_nobody_is_woken_too_early<B, H, W, E>(
    stream: CacheStreamBody<B>,
    body: &mut MaybeCachedBody<B>,
    entries: &mut Entries<H, W>,
    polled: FramePoll<Vec<u8>, E>,
    step: FrameStep<E, W>,
    idx: usize,
)
    requires
        was_polled(stream, body, entries, polled, step),
        stream.cache_entry == Some(idx),
        idx < old(entries)@.len(),
        old(entries)@[idx as int].response is Partial,
    ensures
        final(entries)@[idx as int].response is Partial <==> step.wake is None,
{
}

/// Over a whole row of polls that does not end the body, the entry has gathered all the data that was
/// streamed, in order, behind what it had, and all the trailers; what is gathered is what the client
/// got.
pub proof fn law_entry_gathers_what_the_client_gets<B, H, W, E>(
    stream: CacheStreamBody<B>,
    entries: Seq<&mut Entries<H, W>>,
    polls: Seq<FramePoll<Vec<u8>, E>>,
    steps: Seq<FrameStep<E, W>>,
    idx: usize,
)
    requires
        polls.len() > 0,
        entries.len() == polls.len(),
        steps.len() == polls.len(),
        stream.cache_entry == Some(idx),
        idx < entries[0]@.len(),
        entries[0]@[idx as int].response is Partial,
        forall|i: int| #![trigger steps[i]]
            0 <= i < polls.len() ==> call_ensures(
                CacheStreamBody::<B>::poll_frame::<H, W, E>,
                (&stream, entries[i], polls[i]),
                steps[i],
            ),
        forall|i: int| #![trigger entries[i]]
            0 < i < polls.len() ==> entries[i]@ == final(entries[i - 1])@,
        forall|i: int| 0 <= i < polls.len() ==> goes_on(#[trigger] polls[i]),
    ensures
        ({
            let before = entries[0]@[idx as int].response;
            let after = final(entries.last())@[idx as int].response;
            &&& final(entries.last())@.len() == entries[0]@.len()
            &&& after is Partial
            &&& after->Partial_data == before->Partial_data + data_of(polls)
            &&& after->Partial_data == before->Partial_data + frame_data_of(steps)
            &&& after->Partial_trailers == before->Partial_trailers.union_prefer_right(
                trailers_of(polls),
            )
            &&& after->Partial_trailers == before->Partial_trailers.union_prefer_right(
                frame_trailers_of(steps),
            )
            &&& after->Partial_status == before->Partial_status
            &&& after->Partial_head == before->Partial_head
            &&& after->cond_var == before->cond_var
        }),
    decreases polls.len(),
{
    law_client_gets_all_of_the_stream(stream, entries, polls, steps);
    let last = polls.len() - 1;
    let before = entries[0]@[idx as int].response;
    if last > 0 {
        let init = polls.drop_last();
        assert forall|i: int| #![trigger steps.drop_last()[i]]
            0 <= i < last implies call_ensures(
            CacheStreamBody::<B>::poll_frame::<H, W, E>,
            (&stream, entries.drop_last()[i], init[i]),
            steps.drop_last()[i],
        ) by {
            assert(steps.drop_last()[i] == steps[i]);
        }
        assert forall|i: int| #![trigger entries.drop_last()[i]]
            0 < i < last implies entries.drop_last()[i]@ == final(entries.drop_last()[i - 1])@ by {
            assert(entries[i]@ == final(entries[i - 1])@);
        }
        assert forall|i: int| 0 <= i < last implies goes_on(#[trigger] init[i]) by {
            assert(init[i] == polls[i]);
        }
        law_entry_gathers_what_the_client_gets(
            stream,
            entries.drop_last(),
            init,
            steps.drop_last(),
            idx,
        );
        assert(entries.drop_last().last() == entries[last - 1]);
        assert(entries[last]@ == final(entries[last - 1])@);
    } else {
        assert(polls.drop_last() =~= Seq::empty());
        assert(data_of(polls.drop_last()) =~= Seq::<u8>::empty());
        assert(trailers_of(polls.drop_last()) =~= Headers::empty());
        assert(before->Partial_data + Seq::<u8>::empty() =~= before->Partial_data);
        assert(before->Partial_trailers.union_prefer_right(Headers::empty())
            =~= before->Partial_trailers);
    }
    assert(steps[last] == steps.last());
    assert(goes_on(polls[last]));
    let now = entries[last]@[idx as int].response;
    assert(now->Partial_data == before->Partial_data + data_of(polls.drop_last()));
    assert(now->Partial_trailers == before->Partial_trailers.union_prefer_right(
        trailers_of(polls.drop_last()),
    ));
    match polls[last] {
        Poll::Ready(Some(Ok(Frame::Data(data)))) => {
            assert(now->Partial_data + data@ =~= before->Partial_data + (data_of(
                polls.drop_last(),
            ) + data@));
        },
        Poll::Ready(Some(Ok(Frame::Trailers(trailers)))) => {
            let more = header_values(trailers);
            assert(now->Partial_trailers.union_prefer_right(more)
                =~= before->Partial_trailers.union_prefer_right(
                trailers_of(polls.drop_last()).union_prefer_right(more),
            ));
        },
        _ => {},
    }
}

/// A body that is streamed to its end leaves a complete response in its entry: with the status and
/// the head that it began with, with all the data that was streamed, in order, and all the trailers.
/// That is also what the client got.
pub proof fn law_body_streamed_to_its_end_is_cached<B, H, W, E>(
    stream: CacheStreamBody<B>,
    entries: Seq<&mut Entries<H, W>>,
    polls: Seq<FramePoll<Vec<u8>, E>>,
    steps: Seq<FrameStep<E, W>>,
    idx: usize,
)
    requires
        polls.len() > 0,
        entries.len() == polls.len(),
        steps.len() == polls.len(),
        stream.cache_entry == Some(idx),
        idx < entries[0]@.len(),
        entries[0]@[idx as int].response is Partial,
        forall|i: int| #![trigger steps[i]]
            0 <= i < polls.len() ==> call_ensures(
                CacheStreamBody::<B>::poll_frame::<H, W, E>,
                (&stream, entries[i], polls[i]),
                steps[i],
            ),
        forall|i: int| #![trigger entries[i]]
            0 < i < polls.len() ==> entries[i]@ == final(entries[i - 1])@,
        forall|i: int| 0 <= i < polls.len() - 1 ==> goes_on(#[trigger] polls[i]),
        polls.last() == Poll::Ready(None::<Result<Frame<Vec<u8>>, E>>),
    ensures
        ({
            let before = entries[0]@[idx as int].response;
            let after = final(entries.last())@[idx as int].response;
            &&& final(entries.last())@.len() == entries[0]@.len()
            &&& after is Complete
            &&& after->Complete_data == before->Partial_data + data_of(polls)
            &&& after->Complete_data == before->Partial_data + frame_data_of(steps)
            &&& after->Complete_trailers == before->Partial_trailers.union_prefer_right(
                trailers_of(polls),
            )
            &&& after->Complete_trailers == before->Partial_trailers.union_prefer_right(
                frame_trailers_of(steps),
            )
            &&& after->Complete_status == before->Partial_status
            &&& after->Complete_head == before->Partial_head
        }),
{
    law_client_gets_all_of_the_stream(stream, entries, polls, steps);
    let last = polls.len() - 1;
    let before = entries[0]@[idx as int].response;
    let init = polls.drop_last();
    if last > 0 {
        assert forall|i: int| #![trigger steps.drop_last()[i]]
            0 <= i < last implies call_ensures(
            CacheStreamBody::<B>::poll_frame::<H, W, E>,
            (&stream, entries.drop_last()[i], init[i]),
            steps.drop_last()[i],
        ) by {
            assert(steps.drop_last()[i] == steps[i]);
        }
        assert forall|i: int| #![trigger entries.drop_last()[i]]
            0 < i < last implies entries.drop_last()[i]@ == final(entries.drop_last()[i - 1])@ by {
            assert(entries[i]@ == final(entries[i - 1])@);
        }
        assert forall|i: int| 0 <= i < last implies goes_on(#[trigger] init[i]) by {
            assert(init[i] == polls[i]);
        }
        law_entry_gathers_what_the_client_gets(
            stream,
            entries.drop_last(),
            init,
            steps.drop_last(),
            idx,
        );
        assert(entries.drop_last().last() == entries[last - 1]);
        assert(entries[last]@ == final(entries[last - 1])@);
    } else {
        assert(data_of(init) =~= Seq::<u8>::empty());
        assert(trailers_of(init) =~= Headers::empty());
        assert(before->Partial_data + Seq::<u8>::empty() =~= before->Partial_data);
        assert(before->Partial_trailers.union_prefer_right(Headers::empty())
            =~= before->Partial_trailers);
    }
    assert(data_of(polls) == data_of(init));
    assert(trailers_of(polls) == trailers_of(init));
    assert(steps[last] == steps.last());
}

// ---------------------------------------------------------------------------------------------
// When a body can be polled

/// A body whose response is being streamed can be polled with anything for which there is room. The
/// end and an error take no room, and a name that is there already takes none.
pub proof fn law_streaming_body_can_be_polled<B, H, W, E>(
    stream: CacheStreamBody<B>,
    entries: &mut Entries<H, W>,
    polled: FramePoll<Vec<u8>, E>,
    idx: usize,
)
    requires
        stream.cache_entry == Some(idx),
        idx < old(entries)@.len(),
        old(entries)@[idx as int].response is Partial,
        polled matches Poll::Ready(Some(Ok(Frame::Data(data)))) ==> old(
            entries,
        )@[idx as int].response->Partial_data.len() + data@.len() <= isize::MAX / 2,
        polled matches Poll::Ready(Some(Ok(Frame::Trailers(trailers)))) ==> old(
            entries,
        )@[idx as int].response->Partial_trailers.dom().union(
            header_values(trailers).dom(),
        ).len() <= 6553,
    ensures
        call_requires(CacheStreamBody::<B>::poll_frame::<H, W, E>, (&stream, old(entries), polled)),
{
}

/// A body that is not cached can always be polled, and so can one that has nothing to yield.
pub proof fn law_uncached_body_can_be_polled<B, H, W, E>(
    stream: CacheStreamBody<B>,
    entries: &mut Entries<H, W>,
    polled: FramePoll<Vec<u8>, E>,
)
    requires
        stream.cache_entry matches Some(idx) ==> idx < old(entries)@.len() && polled is Pending,
    ensures
        call_requires(CacheStreamBody::<B>::poll_frame::<H, W, E>, (&stream, old(entries), polled)),
{
}

/// Where [`CacheStreamBody::accepts_frame`] says yes, the body can be polled, by itself and as the
/// body that is handed to the client; a cached body can always be polled.
pub proof fn law_accepted_frame_can_be_taken<B, H, W, E>(
    stream: CacheStreamBody<B>,
    body: &mut MaybeCachedBody<B>,
    entries: &mut Entries<H, W>,
    polled: FramePoll<Vec<u8>, E>,
)
    requires
        *old(body) is Cached || *old(body) == MaybeCachedBody::New(stream) && call_ensures(
            CacheStreamBody::<B>::accepts_frame::<H, W, E>,
            (&stream, &*old(entries), &polled),
            true,
        ),
    ensures
        call_requires(
            MaybeCachedBody::<B>::poll_frame::<H, W, E>,
            (old(body), old(entries), polled),
        ),
        *old(body) is New ==> call_requires(
            CacheStreamBody::<B>::poll_frame::<H, W, E>,
            (&stream, old(entries), polled),
        ),
{
}

/// [`CacheStreamBody::accepts_frame`] says no only where the response is not being streamed any more,
/// or there is no room for the frame.
pub proof fn law_frame_is_refused_for_a_reason<B, H, W, E>(
    stream: CacheStreamBody<B>,
    entries: Entries<H, W>,
    polled: FramePoll<Vec<u8>, E>,
    idx: usize,
)
    requires
        call_ensures(
            CacheStreamBody::<B>::accepts_frame::<H, W, E>,
            (&stream, &entries, &polled),
            false,
        ),
    ensures
        !(polled is Pending) || (stream.cache_entry matches Some(idx) && idx >= entries@.len()),
        stream.cache_entry is Some,
        stream.cache_entry == Some(idx) && idx < entries@.len()
            && entries@[idx as int].response is Partial ==> (polled matches Poll::Ready(
            Some(Ok(frame)),
        ) && match frame {
            Frame::Data(data) => entries@[idx as int].response->Partial_data.len() + data@.len()
                > isize::MAX / 2,
            Frame::Trailers(trailers) => entries@[idx as int].response->Partial_trailers.dom().union(
                header_values(trailers).dom(),
            ).len() > 6553,
        }),
{
}

// ---------------------------------------------------------------------------------------------
// Replaying and giving up

/// A cached body yields its data, then its trailers, then its end, and then its end again. Polling it
/// changes no entry, wakes nobody, and does not depend on what it is polled with.
pub proof fn law_cached_body_is_replayed_in_order<B, H, W, E>(
    bodies: Seq<&mut MaybeCachedBody<B>>,
    entries: Seq<&mut Entries<H, W>>,
    polls: Seq<FramePoll<Vec<u8>, E>>,
    steps: Seq<FrameStep<E, W>>,
    data: bytes::Bytes,
    trailers: http::HeaderMap,
)
    requires
        bodies.len() == 4,
        entries.len() == 4,
        polls.len() == 4,
        steps.len() == 4,
        forall|i: int| #![trigger steps[i]]
            0 <= i < 4 ==> call_ensures(
                MaybeCachedBody::<B>::poll_frame::<H, W, E>,
                (bodies[i], entries[i], polls[i]),
                steps[i],
            ),
        *bodies[0] == (MaybeCachedBody::<B>::Cached { data: Some(data), trailers: Some(trailers) }),
        *bodies[1] == *final(bodies[0]),
        *bodies[2] == *final(bodies[1]),
        *bodies[3] == *final(bodies[2]),
    ensures
        steps[0].frame == Poll::Ready(Some(Ok::<Frame<bytes::Bytes>, E>(Frame::Data(data)))),
        steps[1].frame == Poll::Ready(Some(Ok::<Frame<bytes::Bytes>, E>(Frame::Trailers(trailers)))),
        steps[2].frame == Poll::Ready(None::<Result<Frame<bytes::Bytes>, E>>),
        steps[3].frame == Poll::Ready(None::<Result<Frame<bytes::Bytes>, E>>),
        *final(bodies[3]) == *bodies[3],
        forall|i: int| #![trigger steps[i]]
            0 <= i < 4 ==> final(entries[i])@ == entries[i]@ && steps[i].wake is None,
{
    assert(steps[0].frame == steps[0].frame && steps[1].frame == steps[1].frame);
    assert(steps[2].frame == steps[2].frame && steps[3].frame == steps[3].frame);
}

/// A cached body hands out each of its parts once, as it is, the data first; once it has nothing left
/// it has come to its end.
pub proof fn law_cached_body_hands_out_its_parts<B, H, W, E>(
    body: &mut MaybeCachedBody<B>,
    entries: &mut Entries<H, W>,
    polled: FramePoll<Vec<u8>, E>,
    step: FrameStep<E, W>,
)
    requires
        call_ensures(MaybeCachedBody::<B>::poll_frame::<H, W, E>, (body, entries, polled), step),
        *old(body) is Cached,
    ensures
        *final(body) is Cached,
        final(entries)@ == old(entries)@,
        step.wake is None,
        final(body)->data is None,
        old(body)->data matches Some(data) ==> step.frame == Poll::Ready(
            Some(Ok::<Frame<bytes::Bytes>, E>(Frame::Data(data))),
        ) && final(body)->trailers == old(body)->trailers,
        old(body)->data is None ==> final(body)->trailers is None && step.frame == Poll::Ready(
            match old(body)->trailers {
                Some(trailers) => Some(Ok::<Frame<bytes::Bytes>, E>(Frame::Trailers(trailers))),
                None => None,
            },
        ),
{
}

/// A body that is dropped while its response is being streamed has the response forgotten by the next
/// request: the flag of its entry is cleared. Those who wait are woken. No other flag is touched.
pub proof fn law_dropped_stream_is_given_up<B, H, W>(
    stream: CacheStreamBody<B>,
    entries: Entries<H, W>,
    invalidator: &mut Invalidator,
    wake: Option<&W>,
    idx: usize,
)
    requires
        call_ensures(
            CacheStreamBody::<B>::on_drop::<H, W>,
            (&stream, &entries, invalidator),
            wake,
        ),
        stream.cache_entry == Some(idx),
        idx < entries@.len(),
        entries@[idx as int].valid < old(invalidator)@.len(),
    ensures
        final(invalidator)@.len() == old(invalidator)@.len(),
        forall|i: int|
            0 <= i < old(invalidator)@.len() ==> (#[trigger] final(invalidator)@[i]).0 == old(
                invalidator,
            )@[i].0,
        forall|i: int|
            0 <= i < old(invalidator)@.len() && i != entries@[idx as int].valid ==> (
            #[trigger] final(invalidator)@[i]).1 == old(invalidator)@[i].1,
        entries@[idx as int].response is Partial ==> {
            &&& !final(invalidator)@[entries@[idx as int].valid as int].1
            &&& wake == Some(&entries@[idx as int].response->cond_var)
        },
        !(entries@[idx as int].response is Partial) ==> final(invalidator)@ == old(invalidator)@
            && wake is None,
{
}

/// Dropping a body that was not cached touches nothing.
pub proof fn law_dropping_an_uncached_body_touches_nothing<B, H, W>(
    stream: CacheStreamBody<B>,
    entries: Entries<H, W>,
    invalidator: &mut Invalidator,
    wake: Option<&W>,
)
    requires
        call_ensures(
            CacheStreamBody::<B>::on_drop::<H, W>,
            (&stream, &entries, invalidator),
            wake,
        ),
        stream.cache_entry is None,
    ensures
        final(invalidator)@ == old(invalidator)@,
        wake is None,
{
}

/// A body can be dropped at any time at which its entry and the flag of the entry are there.
pub proof fn law_body_can_be_dropped<B, H, W>(
    stream: CacheStreamBody<B>,
    entries: Entries<H, W>,
    invalidator: &mut Invalidator,
)
    requires
        stream.cache_entry matches Some(idx) ==> idx < entries@.len() && entries@[idx as int].valid
            < old(invalidator)@.len(),
    ensures
        call_requires(
            CacheStreamBody::<B>::on_drop::<H, W>,
            (&stream, &entries, old(invalidator)),
        ),
{
}

/// The body without data has come to its end whenever it is asked.
pub proof fn law_no_op_body_has_ended<D, E>(frame: FramePoll<D, E>)
    requires
        call_ensures(NoOpBody::poll_frame::<D, E>, (&NoOpBody,), frame),
    ensures
        frame == Poll::Ready(None::<Result<Frame<D>, E>>),
{
}

}
