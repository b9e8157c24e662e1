//! The bodies of responses that are cached or may be.

use vstd::prelude::*;

use crate::buffer::{buffer_len, bytes_fit, bytes_of, own_bytes};
use crate::entry::{Entries, EntryState, MaybeCompleteResponse, ResponseState};
use crate::invalidator::{flag_set, Invalidator};
use crate::trailers::{copy_headers, have_room, header_values, headers_fit};

verus! {

/// What a poll comes to.
pub enum Poll<T> {
    /// A value is there.
    Ready(T),
    /// There is no value yet.
    Pending,
}

/// A part of a body. `D` is the type of the data.
pub enum Frame<D> {
    /// Data.
    Data(D),
    /// Trailers.
    Trailers(http::HeaderMap),
}

/// What polling a body for its next frame comes to: nothing yet, a frame, an error, or the end.
pub type FramePoll<D, E> = Poll<Option<Result<Frame<D>, E>>>;

/// A body that contains no data and is always ready to answer that it has come to its end.
#[derive(Clone, Copy, Debug)]
pub struct NoOpBody;

impl Default for NoOpBody {
    fn default() -> (body: NoOpBody)
        ensures
            body == NoOpBody,
    {
        NoOpBody
    }
}

impl NoOpBody {
    /// The end.
    pub fn poll_frame<D, E>(&self) -> (frame: FramePoll<D, E>)
        ensures
            frame == Poll::Ready(None::<Result<Frame<D>, E>>),
    {
        Poll::Ready(None)
    }
}

/// The whole body of a cached response.
pub struct CachedBody {
    pub(crate) data: bytes::Bytes,
    pub(crate) trailers: http::HeaderMap,
}

/// What has been learned of a response once its body was polled with the given outcome.
pub open spec fn after_poll<H, W, E>(
    state: ResponseState<H, W>,
    polled: FramePoll<Vec<u8>, E>,
) -> ResponseState<H, W> {
    match polled {
        Poll::Pending => state,
        Poll::Ready(Some(Ok(Frame::Data(data)))) => state.with_data(data@),
        Poll::Ready(Some(Ok(Frame::Trailers(trailers)))) => state.with_trailers(
            header_values(trailers),
        ),
        Poll::Ready(Some(Err(_))) => ResponseState::Nothing,
        Poll::Ready(None) => state.completed(),
    }
}

/// What has to be woken once the body of a response in `state` was polled with the given outcome:
/// those who wait for the response, when it ends, well or badly.
pub open spec fn woken_by_poll<H, W, E>(
    state: ResponseState<H, W>,
    polled: FramePoll<Vec<u8>, E>,
) -> Option<W> {
    match (state, polled) {
        (ResponseState::Partial { cond_var, .. }, Poll::Ready(None)) => Some(cond_var),
        (ResponseState::Partial { cond_var, .. }, Poll::Ready(Some(Err(_)))) => Some(cond_var),
        _ => None,
    }
}

/// `frame` is what the wrapped body yielded.
pub open spec fn passed_on<E>(
    polled: FramePoll<Vec<u8>, E>,
    frame: FramePoll<bytes::Bytes, E>,
) -> bool {
    match polled {
        Poll::Pending => frame is Pending,
        Poll::Ready(Some(Ok(Frame::Data(data)))) => {
            &&& frame matches Poll::Ready(Some(Ok(Frame::Data(out))))
            &&& bytes_of(out) == data@
        },
        Poll::Ready(Some(Ok(Frame::Trailers(trailers)))) => {
            &&& frame matches Poll::Ready(Some(Ok(Frame::Trailers(out))))
            &&& out == trailers
        },
        Poll::Ready(Some(Err(error))) => frame == Poll::Ready(
            Some(Err::<Frame<bytes::Bytes>, E>(error)),
        ),
        Poll::Ready(None) => frame == Poll::Ready(None::<Result<Frame<bytes::Bytes>, E>>),
    }
}

/// A response in `state` can take what its body was polled to: it is being streamed, and there is
/// room for the data or the trailers.
pub open spec fn can_take<H, W, E>(
    state: ResponseState<H, W>,
    polled: FramePoll<Vec<u8>, E>,
) -> bool {
    match polled {
        Poll::Pending => true,
        Poll::Ready(Some(Ok(Frame::Data(data)))) => {
            &&& state matches ResponseState::Partial { data: held, .. }
            &&& bytes_fit(held.len(), data@.len())
        },
        Poll::Ready(Some(Ok(Frame::Trailers(trailers)))) => {
            &&& state matches ResponseState::Partial { trailers: held, .. }
            &&& headers_fit(held, header_values(trailers))
        },
        _ => state is Partial,
    }
}

/// What [`CacheStreamBody::poll_frame`] and [`MaybeCachedBody::poll_frame`] come to.
pub struct FrameStep<E, W> {
    /// What the poll comes to.
    pub frame: FramePoll<bytes::Bytes, E>,
    /// What has to be woken.
    pub wake: Option<W>,
}

/// A body that passes on what the wrapped body yields, and copies it to an entry of the cache.
pub struct CacheStreamBody<B> {
    /// The wrapped body.
    pub inner: B,
    /// The number of the entry, or [`None`] if the response is not to be cached.
    pub cache_entry: Option<usize>,
}

impl<B> CacheStreamBody<B> {
    /// [`CacheStreamBody::poll_frame`] may be called.
    pub open spec fn accepts<H, W, E>(
        &self,
        entries: Seq<EntryState<H, W>>,
        polled: FramePoll<Vec<u8>, E>,
    ) -> bool {
        self.cache_entry matches Some(idx) ==> {
            &&& idx < entries.len()
            &&& can_take(entries[idx as int].response, polled)
        }
    }

    /// What the wrapped body was polled to is copied to the entry, if there is one, and nothing else
    /// changes; `wake` is what has to be woken.
    pub open spec fn copied<H, W, E>(
        &self,
        entries: Seq<EntryState<H, W>>,
        polled: FramePoll<Vec<u8>, E>,
        after: Seq<EntryState<H, W>>,
        wake: Option<W>,
    ) -> bool {
        match self.cache_entry {
            Some(idx) => {
                let before = entries[idx as int];
                &&& after == entries.update(
                    idx as int,
                    before.with_response(after_poll(before.response, polled)),
                )
                &&& wake == woken_by_poll(before.response, polled)
            },
            None => after == entries && wake is None,
        }
    }

    /// Whether [`CacheStreamBody::poll_frame`] may be called. It may not when the response that is
    /// being streamed was forgotten meanwhile, or has come to its end, and when it has grown too
    /// large.
    pub fn accepts_frame<H, W, E>(
        &self,
        entries: &Entries<H, W>,
        polled: &FramePoll<Vec<u8>, E>,
    ) -> (accepts: bool)
        ensures
            accepts == self.accepts(entries@, *polled),
    {
        let idx: usize = match self.cache_entry {
            Some(idx) => idx,
            None => {
                return true;
            },
        };
        if idx >= entries.len() {
            return false;
        }
        match (&entries.get(idx).response, polled) {
            (_, Poll::Pending) => true,
            (
                MaybeCompleteResponse::Partial(partial),
                Poll::Ready(Some(Ok(Frame::Data(data)))),
            ) => {
                let limit: usize = isize::MAX as usize / 2;
                let held: usize = buffer_len(&partial.data);
                held <= limit && data.len() <= limit - held
            },
            (
                MaybeCompleteResponse::Partial(partial),
                Poll::Ready(Some(Ok(Frame::Trailers(trailers)))),
            ) => have_room(&partial.trailers, trailers),
            (MaybeCompleteResponse::Partial(_), _) => true,
            _ => false,
        }
    }

    /// Go on with what the wrapped body was polled to: it is passed on, and copied to the entry.
    pub fn poll_frame<H, W, E>(
        &self,
        entries: &mut Entries<H, W>,
        polled: FramePoll<Vec<u8>, E>,
    ) -> (step: FrameStep<E, W>)
        requires
            self.accepts(old(entries)@, polled),
        ensures
            passed_on(polled, step.frame),
            self.copied(old(entries)@, polled, final(entries)@, step.wake),
    {
        match polled {
            Poll::Pending => {
                assert(self.cache_entry matches Some(idx) ==> entries@ =~= old(entries)@.update(
                    idx as int,
                    old(entries)@[idx as int],
                ));
                FrameStep { frame: Poll::Pending, wake: None }
            },
            Poll::Ready(Some(Err(error))) => {
                let wake = match self.cache_entry {
                    Some(idx) => entries.get_mut(idx).fail(),
                    None => None,
                };
                FrameStep { frame: Poll::Ready(Some(Err(error))), wake }
            },
            Poll::Ready(None) => {
                let wake = match self.cache_entry {
                    Some(idx) => entries.get_mut(idx).finish(),
                    None => None,
                };
                FrameStep { frame: Poll::Ready(None), wake }
            },
            Poll::Ready(Some(Ok(Frame::Data(data)))) => {
                if let Some(idx) = self.cache_entry {
                    entries.get_mut(idx).receive_data(&data);
                }
                FrameStep { frame: Poll::Ready(Some(Ok(Frame::Data(own_bytes(data))))), wake: None }
            },
            Poll::Ready(Some(Ok(Frame::Trailers(trailers)))) => {
                if let Some(idx) = self.cache_entry {
                    entries.get_mut(idx).receive_trailers(copy_headers(&trailers));
                }
                FrameStep { frame: Poll::Ready(Some(Ok(Frame::Trailers(trailers)))), wake: None }
            },
        }
    }

    /// The body goes away. If the response is still being streamed, those who wait for it are to be
    /// woken, and its flag is cleared, so that the next request for it forgets it and tries again.
    pub fn on_drop<'a, H, W>(
        &self,
        entries: &'a Entries<H, W>,
        invalidator: &mut Invalidator,
    ) -> (wake: Option<&'a W>)
        requires
            self.cache_entry matches Some(idx) ==> idx < entries@.len()
                && entries@[idx as int].valid < old(invalidator)@.len(),
        ensures
            match self.cache_entry {
                Some(idx) => {
                    let entry = entries@[idx as int];
                    match entry.response {
                        ResponseState::Partial { cond_var, .. } => {
                            &&& wake == Some(&cond_var)
                            &&& final(invalidator)@ == flag_set(
                                old(invalidator)@,
                                entry.valid as int,
                                false,
                            )
                        },
                        _ => wake is None && final(invalidator)@ == old(invalidator)@,
                    }
                },
                None => wake is None && final(invalidator)@ == old(invalidator)@,
            },
    {
        match self.cache_entry {
            Some(idx) => entries.get(idx).abandon(invalidator),
            None => None,
        }
    }
}

/// A body that may be cached already, or may need to be polled.
pub enum MaybeCachedBody<B> {
    /// The body is cached and just has to be handed out.
    Cached {
        /// The data, until it has been handed out.
        data: Option<bytes::Bytes>,
        /// The trailers, until they have been handed out.
        trailers: Option<http::HeaderMap>,
    },
    /// The body is new and has to be polled.
    New(CacheStreamBody<B>),
}

impl<B> MaybeCachedBody<B> {
    /// The body once its next frame was handed out: a cached body gives away its data, then its
    /// trailers.
    pub open spec fn handed_out(self) -> MaybeCachedBody<B> {
        match self {
            MaybeCachedBody::Cached { data: Some(_), trailers } => MaybeCachedBody::Cached {
                data: None,
                trailers,
            },
            MaybeCachedBody::Cached { data: None, trailers } => MaybeCachedBody::Cached {
                data: None,
                trailers: None,
            },
            MaybeCachedBody::New(body) => self,
        }
    }

    /// The next frame of a cached body.
    pub open spec fn next_cached(self) -> Option<Frame<bytes::Bytes>> {
        match self {
            MaybeCachedBody::Cached { data: Some(data), .. } => Some(Frame::Data(data)),
            MaybeCachedBody::Cached { data: None, trailers: Some(trailers) } => Some(
                Frame::Trailers(trailers),
            ),
            _ => None,
        }
    }

    /// Hand out the next frame. A cached body has its data and its trailers at hand. A new body goes
    /// on with `polled`, which is what the body wrapped in it was polled to; a cached body wraps none
    /// and does not look at `polled`.
    pub fn poll_frame<H, W, E>(
        &mut self,
        entries: &mut Entries<H, W>,
        polled: FramePoll<Vec<u8>, E>,
    ) -> (step: FrameStep<E, W>)
        requires
            *old(self) matches MaybeCachedBody::New(body) ==> body.accepts(old(entries)@, polled),
        ensures
            *final(self) == old(self).handed_out(),
            match *old(self) {
                MaybeCachedBody::Cached { .. } => {
                    &&& step.frame == Poll::Ready(
                        match old(self).next_cached() {
                            Some(frame) => Some(Ok::<Frame<bytes::Bytes>, E>(frame)),
                            None => None,
                        },
                    )
                    &&& step.wake is None
                    &&& final(entries)@ == old(entries)@
                },
                MaybeCachedBody::New(body) => {
                    &&& passed_on(polled, step.frame)
                    &&& body.copied(old(entries)@, polled, final(entries)@, step.wake)
                },
            },
    {
        match self {
            MaybeCachedBody::Cached { data, trailers } => {
                if let Some(data) = data.take() {
                    return FrameStep { frame: Poll::Ready(Some(Ok(Frame::Data(data)))), wake: None };
                }
                if let Some(trailers) = trailers.take() {
                    return FrameStep {
                        frame: Poll::Ready(Some(Ok(Frame::Trailers(trailers)))),
                        wake: None,
                    };
                }
                FrameStep { frame: Poll::Ready(None), wake: None }
            },
            MaybeCachedBody::New(body) => body.poll_frame(entries, polled),
        }
    }
}

}
