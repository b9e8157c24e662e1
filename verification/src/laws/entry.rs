//! What the steps in the life of an entry do, said of the calls themselves.

use vstd::prelude::*;

use crate::body::MaybeCachedBody;
use crate::buffer::bytes_of;
use crate::entry::{CachedRespInner, Entries, EntryState};
use crate::invalidator::Invalidator;
use crate::response::{Response, StatusCode};
use crate::trailers::{header_values, Headers};

verus! {

/// Nothing is known of the response of a new entry, which has the flag that it was made with.
pub proof fn law_nothing_is_known_of_a_new_entry<H, W>(valid: usize, entry: CachedRespInner<H, W>)
    requires
        call_ensures(CachedRespInner::<H, W>::new, (valid,), entry),
    ensures
        entry@.valid == valid,
        entry@.response is Nothing,
{
}

/// A look at its flag has an entry forget its response if the flag was cleared, and sets the flag. If
/// it was set, the entry keeps what it knows. No other flag, and no key, is touched.
pub proof fn law_refresh_forgets_what_is_invalid<H, W>(
    entry: &mut CachedRespInner<H, W>,
    invalidator: &mut Invalidator,
)
    requires
        call_ensures(CachedRespInner::<H, W>::refresh, (entry, invalidator), ()),
        old(entry)@.valid < old(invalidator)@.len(),
    ensures
        ({
            let flag = old(entry)@.valid as int;
            &&& final(entry)@.valid == flag
            &&& old(invalidator)@[flag].1 ==> final(entry)@.response == old(entry)@.response
            &&& !old(invalidator)@[flag].1 ==> final(entry)@.response is Nothing
            &&& final(invalidator)@.len() == old(invalidator)@.len()
            &&& final(invalidator)@[flag].1
            &&& forall|i: int|
                0 <= i < old(invalidator)@.len() ==> (#[trigger] final(invalidator)@[i]).0 == old(
                    invalidator,
                )@[i].0
            &&& forall|i: int|
                0 <= i < old(invalidator)@.len() && i != flag ==> (
                #[trigger] final(invalidator)@[i]).1 == old(invalidator)@[i].1
        }),
{
}

/// A response can be repeated if and only if it is complete; then it has its status and a clone of its
/// head, and its body holds all the data and the trailers.
pub proof fn law_replay_repeats_the_response<H: Clone, W, B>(
    entry: CachedRespInner<H, W>,
    resp: Option<Response<H, MaybeCachedBody<B>>>,
)
    requires
        call_ensures(CachedRespInner::<H, W>::replay::<B>, (&entry,), resp),
    ensures
        resp is Some <==> entry@.response is Complete,
        resp is Some ==> {
            &&& resp->0.status == entry@.response->Complete_status
            &&& cloned(entry@.response->Complete_head, resp->0.head)
            &&& resp->0.body is Cached
            &&& resp->0.body->data is Some
            &&& bytes_of(resp->0.body->data->0) == entry@.response->Complete_data
            &&& resp->0.body->trailers is Some
            &&& header_values(resp->0.body->trailers->0) == entry@.response->Complete_trailers
        },
{
}

/// A response begins with its status and its head, and without data or trailers.
pub proof fn law_response_begins_empty<H, W>(
    entry: &mut CachedRespInner<H, W>,
    status: StatusCode,
    head: H,
    cond_var: W,
)
    requires
        call_ensures(CachedRespInner::<H, W>::begin, (entry, status, head, cond_var), ()),
    ensures
        final(entry)@.valid == old(entry)@.valid,
        final(entry)@.response is Partial,
        final(entry)@.response->Partial_status == status,
        final(entry)@.response->Partial_head == head,
        final(entry)@.response->Partial_data.len() == 0,
        final(entry)@.response->Partial_trailers == Headers::empty(),
        final(entry)@.response->cond_var == cond_var,
{
}

/// Data that is received is appended, all of it. The rest stays as it is.
pub proof fn law_received_data_is_appended<H, W>(entry: &mut CachedRespInner<H, W>, data: Vec<u8>)
    requires
        call_ensures(CachedRespInner::<H, W>::receive_data, (entry, &data), ()),
        old(entry)@.response is Partial,
    ensures
        final(entry)@.valid == old(entry)@.valid,
        final(entry)@.response is Partial,
        final(entry)@.response->Partial_data == old(entry)@.response->Partial_data + data@,
        final(entry)@.response->Partial_status == old(entry)@.response->Partial_status,
        final(entry)@.response->Partial_head == old(entry)@.response->Partial_head,
        final(entry)@.response->Partial_trailers == old(entry)@.response->Partial_trailers,
        final(entry)@.response->cond_var == old(entry)@.response->cond_var,
{
}

/// Trailers that are received are there afterwards, in place of those of the same name; the others
/// stay. So does the rest.
pub proof fn law_received_trailers_are_kept<H, W>(
    entry: &mut CachedRespInner<H, W>,
    trailers: http::HeaderMap,
)
    requires
        call_ensures(CachedRespInner::<H, W>::receive_trailers, (entry, trailers), ()),
        old(entry)@.response is Partial,
    ensures
        ({
            let before = old(entry)@.response->Partial_trailers;
            let after = final(entry)@.response->Partial_trailers;
            let more = header_values(trailers);
            &&& forall|name: Seq<char>| #[trigger]
                after.dom().contains(name) <==> more.dom().contains(name) || before.dom().contains(name)
            &&& forall|name: Seq<char>|
                after.dom().contains(name) ==> #[trigger] after[name] == (if more.dom().contains(
                    name,
                ) {
                    more[name]
                } else {
                    before[name]
                })
        }),
        final(entry)@.valid == old(entry)@.valid,
        final(entry)@.response is Partial,
        final(entry)@.response->Partial_data == old(entry)@.response->Partial_data,
        final(entry)@.response->Partial_status == old(entry)@.response->Partial_status,
        final(entry)@.response->Partial_head == old(entry)@.response->Partial_head,
        final(entry)@.response->cond_var == old(entry)@.response->cond_var,
{
}

/// A response that is being streamed can be added to as long as there is room.
pub proof fn law_streamed_response_can_be_added_to<H, W>(
    entry: &mut CachedRespInner<H, W>,
    data: Vec<u8>,
    trailers: http::HeaderMap,
)
    requires
        old(entry)@.response is Partial,
    ensures
        old(entry)@.response->Partial_data.len() + data@.len() <= isize::MAX / 2 ==> call_requires(
            CachedRespInner::<H, W>::receive_data,
            (old(entry), &data),
        ),
        old(entry)@.response->Partial_trailers.dom().union(header_values(trailers).dom()).len()
            <= 6553 ==> call_requires(
            CachedRespInner::<H, W>::receive_trailers,
            (old(entry), trailers),
        ),
{
}

/// A response that is being streamed is complete when it has come to its end, with all that was
/// gathered. Any other is left alone. Those who wait for it are named.
pub proof fn law_finish_completes_what_was_gathered<H, W>(
    entry: &mut CachedRespInner<H, W>,
    cond_var: Option<W>,
)
    requires
        call_ensures(CachedRespInner::<H, W>::finish, (entry,), cond_var),
    ensures
        final(entry)@.valid == old(entry)@.valid,
        old(entry)@.response is Partial ==> {
            &&& final(entry)@.response is Complete
            &&& final(entry)@.response->Complete_status == old(entry)@.response->Partial_status
            &&& final(entry)@.response->Complete_head == old(entry)@.response->Partial_head
            &&& final(entry)@.response->Complete_data == old(entry)@.response->Partial_data
            &&& final(entry)@.response->Complete_trailers == old(entry)@.response->Partial_trailers
            &&& cond_var == Some(old(entry)@.response->cond_var)
        },
        !(old(entry)@.response is Partial) ==> final(entry)@ == old(entry)@ && cond_var is None,
{
}

/// A response that fails while it is being streamed is forgotten. Any other is left alone. Those who
/// wait for it are named.
pub proof fn law_fail_forgets_what_was_gathered<H, W>(
    entry: &mut CachedRespInner<H, W>,
    cond_var: Option<W>,
)
    requires
        call_ensures(CachedRespInner::<H, W>::fail, (entry,), cond_var),
    ensures
        final(entry)@.valid == old(entry)@.valid,
        old(entry)@.response is Partial ==> final(entry)@.response is Nothing && cond_var == Some(
            old(entry)@.response->cond_var,
        ),
        !(old(entry)@.response is Partial) ==> final(entry)@ == old(entry)@ && cond_var is None,
{
}

/// A response that is abandoned while it is being streamed has its flag cleared, and those who wait for
/// it are named. No other flag, and no key, is touched.
pub proof fn law_abandoned_response_is_marked<H, W>(
    entry: CachedRespInner<H, W>,
    invalidator: &mut Invalidator,
    cond_var: Option<&W>,
)
    requires
        call_ensures(CachedRespInner::<H, W>::abandon, (&entry, invalidator), cond_var),
        entry@.valid < old(invalidator)@.len(),
    ensures
        final(invalidator)@.len() == old(invalidator)@.len(),
        forall|i: int|
            0 <= i < old(invalidator)@.len() ==> (#[trigger] final(invalidator)@[i]).0 == old(
                invalidator,
            )@[i].0,
        forall|i: int|
            0 <= i < old(invalidator)@.len() && i != entry@.valid ==> (
            #[trigger] final(invalidator)@[i]).1 == old(invalidator)@[i].1,
        final(invalidator)@[entry@.valid as int].1 == (old(invalidator)@[entry@.valid as int].1 && !(
        entry@.response is Partial)),
        entry@.response is Partial ==> cond_var == Some(&entry@.response->cond_var),
        !(entry@.response is Partial) ==> cond_var is None,
{
}

/// There are no entries at first. One that is added comes last, with nothing known of its response, and
/// the others stay what and where they are.
pub proof fn law_entries_are_added_at_the_end<H, W>(
    none: Entries<H, W>,
    entries: &mut Entries<H, W>,
    valid: usize,
    idx: usize,
)
    requires
        call_ensures(Entries::<H, W>::default, (), none),
        call_ensures(Entries::<H, W>::add, (entries, valid), idx),
    ensures
        none@.len() == 0,
        idx == old(entries)@.len(),
        final(entries)@.len() == old(entries)@.len() + 1,
        final(entries)@[idx as int].valid == valid,
        final(entries)@[idx as int].response is Nothing,
        forall|i: int|
            0 <= i < old(entries)@.len() ==> #[trigger] final(entries)@[i] == old(entries)@[i],
{
}

/// An entry is found by its number, of which there are as many as [`Entries::len`] says.
pub proof fn law_entries_are_numbered<H, W>(
    entries: Entries<H, W>,
    len: usize,
    idx: usize,
    entry: &CachedRespInner<H, W>,
)
    requires
        call_ensures(Entries::<H, W>::len, (&entries,), len),
        call_ensures(Entries::<H, W>::get, (&entries, idx), entry),
    ensures
        len == entries@.len(),
        entry@ == entries@[idx as int],
        idx < len ==> call_requires(Entries::<H, W>::get, (&entries, idx)),
{
}

/// Changing an entry through its number changes this entry, and no other.
pub proof fn law_entry_is_changed_alone<H, W>(
    entries: &mut Entries<H, W>,
    idx: usize,
    entry: &mut CachedRespInner<H, W>,
)
    requires
        call_ensures(Entries::<H, W>::get_mut, (entries, idx), entry),
        idx < old(entries)@.len(),
    ensures
        old(entry)@ == old(entries)@[idx as int],
        final(entries)@.len() == old(entries)@.len(),
        final(entries)@[idx as int] == final(entry)@,
        forall|i: int|
            0 <= i < old(entries)@.len() && i != idx ==> #[trigger] final(entries)@[i] == old(
                entries,
            )@[i],
        call_requires(Entries::<H, W>::get_mut, (old(entries), idx)),
{
}

}
