//! The entries of a cache: what has been learned of one response so far.

use vstd::prelude::*;

use crate::body::{CachedBody, MaybeCachedBody, NoOpBody};
use crate::buffer::{
    bytes_fit, bytes_in, bytes_of, copy_bytes, extend_buffer, freeze_buffer, new_buffer,
};
use crate::invalidator::{flag_set, Invalidator};
use crate::response::{Response, StatusCode};
use crate::trailers::{
    copy_headers, extend_headers, header_values, headers_fit, new_headers, Headers,
};

verus! {

/// What has been learned of a response so far, in the abstract.
pub enum ResponseState<H, W> {
    /// Nothing.
    Nothing,
    /// Its head and the beginning of its body, which is being streamed.
    Partial { status: StatusCode, head: H, data: Seq<u8>, trailers: Headers, cond_var: W },
    /// All of it.
    Complete { status: StatusCode, head: H, data: Seq<u8>, trailers: Headers },
}

impl<H, W> ResponseState<H, W> {
    /// The state once `more` bytes of the body have been streamed.
    pub open spec fn with_data(self, more: Seq<u8>) -> Self {
        match self {
            ResponseState::Partial { status, head, data, trailers, cond_var } =>
                ResponseState::Partial { status, head, data: data + more, trailers, cond_var },
            _ => self,
        }
    }

    /// The state once `more` trailers have been streamed. They replace those of the same name.
    pub open spec fn with_trailers(self, more: Headers) -> Self {
        match self {
            ResponseState::Partial { status, head, data, trailers, cond_var } =>
                ResponseState::Partial {
                    status,
                    head,
                    data,
                    trailers: trailers.union_prefer_right(more),
                    cond_var,
                },
            _ => self,
        }
    }

    /// The state once the body has come to its end.
    pub open spec fn completed(self) -> Self {
        match self {
            ResponseState::Partial { status, head, data, trailers, cond_var } =>
                ResponseState::Complete { status, head, data, trailers },
            _ => self,
        }
    }
}

/// An entry in the abstract: the number of its flag in the [`Invalidator`], and its response.
pub struct EntryState<H, W> {
    /// The number of the flag.
    pub valid: usize,
    /// The response.
    pub response: ResponseState<H, W>,
}

impl<H, W> EntryState<H, W> {
    /// The entry after a look at its flag, which said `valid`: an invalid response is forgotten.
    pub open spec fn refreshed(self, valid: bool) -> Self {
        if valid {
            self
        } else {
            EntryState { valid: self.valid, response: ResponseState::Nothing }
        }
    }

    /// The entry with another response.
    pub open spec fn with_response(self, response: ResponseState<H, W>) -> Self {
        EntryState { valid: self.valid, response }
    }
}

/// A response whose body is being streamed.
pub struct PartialResponse<H, W> {
    pub(crate) resp: Response<H, NoOpBody>,
    pub(crate) data: bytes::BytesMut,
    pub(crate) trailers: http::HeaderMap,
    pub(crate) cond_var: W,
}

/// What has been learned of a response so far.
pub enum MaybeCompleteResponse<H, W> {
    /// Nothing.
    Nothing,
    /// Its head and the beginning of its body, which is being streamed.
    Partial(PartialResponse<H, W>),
    /// All of it.
    Complete(Response<H, CachedBody>),
}

impl<H, W> View for MaybeCompleteResponse<H, W> {
    type V = ResponseState<H, W>;

    open(crate) spec fn view(&self) -> ResponseState<H, W> {
        match *self {
            MaybeCompleteResponse::Nothing => ResponseState::Nothing,
            MaybeCompleteResponse::Partial(partial) => ResponseState::Partial {
                status: partial.resp.status,
                head: partial.resp.head,
                data: bytes_in(partial.data),
                trailers: header_values(partial.trailers),
                cond_var: partial.cond_var,
            },
            MaybeCompleteResponse::Complete(resp) => ResponseState::Complete {
                status: resp.status,
                head: resp.head,
                data: bytes_of(resp.body.data),
                trailers: header_values(resp.body.trailers),
            },
        }
    }
}

/// A cached response and the number of the flag that says whether it is valid.
///
/// `H` is the head of a response, which is carried along. `W` is what those who wait for the
/// response to be complete wait on.
pub struct CachedRespInner<H, W> {
    pub(crate) valid: usize,
    pub(crate) response: MaybeCompleteResponse<H, W>,
}

impl<H, W> View for CachedRespInner<H, W> {
    type V = EntryState<H, W>;

    open(crate) spec fn view(&self) -> EntryState<H, W> {
        EntryState { valid: self.valid, response: self.response@ }
    }
}

/// `copy` is a copy of a response, whose body is the cached one.
pub open spec fn copies<H: Clone, B>(
    status: StatusCode,
    head: H,
    data: Seq<u8>,
    trailers: Headers,
    copy: Response<H, MaybeCachedBody<B>>,
) -> bool {
    &&& copy.status == status
    &&& cloned(head, copy.head)
    &&& copy.body matches MaybeCachedBody::Cached { data: Some(d), trailers: Some(t) }
    &&& bytes_of(d) == data
    &&& header_values(t) == trailers
}

/// `resp` is a copy of the complete response in `state`, whose body is the cached one.
pub open spec fn replays<H: Clone, W, B>(
    state: ResponseState<H, W>,
    resp: Response<H, MaybeCachedBody<B>>,
) -> bool {
    &&& state matches ResponseState::Complete { status, head, data, trailers }
    &&& copies(status, head, data, trailers, resp)
}

/// A copy of a cached response.
pub(crate) fn clone_cached<H: Clone, B>(resp: &Response<H, CachedBody>) -> (copy: Response<
    H,
    MaybeCachedBody<B>,
>)
    ensures
        copies(
            resp.status,
            resp.head,
            bytes_of(resp.body.data),
            header_values(resp.body.trailers),
            copy,
        ),
{
    Response {
        status: resp.status,
        head: resp.head.clone(),
        body: MaybeCachedBody::Cached {
            data: Some(copy_bytes(&resp.body.data)),
            trailers: Some(copy_headers(&resp.body.trailers)),
        },
    }
}

impl<H, W> CachedRespInner<H, W> {
    /// An entry of whose response nothing has been learned.
    pub fn new(valid: usize) -> (entry: Self)
        ensures
            entry@ == (EntryState::<H, W> { valid, response: ResponseState::Nothing }),
    {
        CachedRespInner { valid, response: MaybeCompleteResponse::Nothing }
    }

    /// Forget the response if its flag has been cleared, and set the flag.
    pub fn refresh(&mut self, invalidator: &mut Invalidator)
        requires
            old(self)@.valid < old(invalidator)@.len(),
        ensures
            final(self)@ == old(self)@.refreshed(
                old(invalidator)@[old(self)@.valid as int].1,
            ),
            final(invalidator)@ == flag_set(
                old(invalidator)@,
                old(self)@.valid as int,
                true,
            ),
    {
        if !invalidator.is_valid(self.valid) {
            self.response = MaybeCompleteResponse::Nothing;
            invalidator.set_valid(self.valid, true);
        }
    }

    /// A copy of the response, if it is complete.
    pub fn replay<B>(&self) -> (resp: Option<Response<H, MaybeCachedBody<B>>>) where H: Clone
        ensures
            match resp {
                Some(resp) => replays(self@.response, resp),
                None => !(self@.response is Complete),
            },
    {
        match &self.response {
            MaybeCompleteResponse::Complete(resp) => Some(clone_cached(resp)),
            _ => None,
        }
    }

    /// Start to gather a response with the given status and head.
    pub fn begin(&mut self, status: StatusCode, head: H, cond_var: W)
        ensures
            final(self)@ == old(self)@.with_response(
                ResponseState::Partial {
                    status,
                    head,
                    data: Seq::empty(),
                    trailers: Headers::empty(),
                    cond_var,
                },
            ),
    {
        self.response =
        MaybeCompleteResponse::Partial(
            PartialResponse {
                resp: Response { status, head, body: NoOpBody },
                data: new_buffer(),
                trailers: new_headers(),
                cond_var,
            },
        );
    }

    /// Add to the data of the response.
    pub fn receive_data(&mut self, data: &Vec<u8>)
        requires
            old(self)@.response matches ResponseState::Partial { data: held, .. } && bytes_fit(
                held.len(),
                data@.len(),
            ),
        ensures
            final(self)@ == old(self)@.with_response(old(self)@.response.with_data(data@)),
    {
        if let MaybeCompleteResponse::Partial(partial) = &mut self.response {
            extend_buffer(&mut partial.data, data);
        }
    }

    /// Add to the trailers of the response.
    pub fn receive_trailers(&mut self, trailers: http::HeaderMap)
        requires
            old(self)@.response matches ResponseState::Partial { trailers: held, .. }
                && headers_fit(held, header_values(trailers)),
        ensures
            final(self)@ == old(self)@.with_response(
                old(self)@.response.with_trailers(header_values(trailers)),
            ),
    {
        if let MaybeCompleteResponse::Partial(partial) = &mut self.response {
            extend_headers(&mut partial.trailers, trailers);
        }
    }

    /// The response is complete. Returns what those who waited for it wait on.
    pub fn finish(&mut self) -> (cond_var: Option<W>)
        ensures
            final(self)@ == old(self)@.with_response(old(self)@.response.completed()),
            match old(self)@.response {
                ResponseState::Partial { cond_var: waited_on, .. } => cond_var == Some(waited_on),
                _ => cond_var is None,
            },
    {
        let mut response = MaybeCompleteResponse::Nothing;
        std::mem::swap(&mut response, &mut self.response);
        match response {
            MaybeCompleteResponse::Partial(partial) => {
                self.response =
                MaybeCompleteResponse::Complete(
                    Response {
                        status: partial.resp.status,
                        head: partial.resp.head,
                        body: CachedBody {
                            data: freeze_buffer(partial.data),
                            trailers: partial.trailers,
                        },
                    },
                );
                Some(partial.cond_var)
            },
            response => {
                self.response = response;
                None
            },
        }
    }

    /// The response could not be completed, so that someone else can try to get it. Returns what
    /// those who waited for it wait on.
    pub fn fail(&mut self) -> (cond_var: Option<W>)
        ensures
            match old(self)@.response {
                ResponseState::Partial { cond_var: waited_on, .. } => {
                    &&& final(self)@ == old(self)@.with_response(ResponseState::Nothing)
                    &&& cond_var == Some(waited_on)
                },
                _ => final(self)@ == old(self)@ && cond_var is None,
            },
    {
        let mut response = MaybeCompleteResponse::Nothing;
        std::mem::swap(&mut response, &mut self.response);
        match response {
            MaybeCompleteResponse::Partial(partial) => Some(partial.cond_var),
            response => {
                self.response = response;
                None
            },
        }
    }

    /// Whoever streamed the response has gone. If it is not complete, its flag is cleared, so that
    /// the next request forgets it and tries again; what those who wait for it wait on is returned.
    pub fn abandon(&self, invalidator: &mut Invalidator) -> (cond_var: Option<&W>)
        requires
            self@.valid < old(invalidator)@.len(),
        ensures
            match self@.response {
                ResponseState::Partial { cond_var: waited_on, .. } => {
                    &&& cond_var == Some(&waited_on)
                    &&& final(invalidator)@ == flag_set(
                        old(invalidator)@,
                        self@.valid as int,
                        false,
                    )
                },
                _ => cond_var is None && final(invalidator)@ == old(invalidator)@,
            },
    {
        match &self.response {
            MaybeCompleteResponse::Partial(partial) => {
                invalidator.set_valid(self.valid, false);
                Some(&partial.cond_var)
            },
            _ => None,
        }
    }
}

/// The entries that the services with one cache share. A cache maps a key to the number of an entry.
pub struct Entries<H, W> {
    pub(crate) entries: Vec<CachedRespInner<H, W>>,
}

impl<H, W> View for Entries<H, W> {
    type V = Seq<EntryState<H, W>>;

    open(crate) spec fn view(&self) -> Seq<EntryState<H, W>> {
        self.entries@.map_values(|entry: CachedRespInner<H, W>| entry@)
    }
}

impl<H, W> Default for Entries<H, W> {
    fn default() -> (entries: Self)
        ensures
            entries@ == Seq::<EntryState<H, W>>::empty(),
    {
        let entries = Entries { entries: Vec::new() };
        assert(entries@ =~= Seq::<EntryState<H, W>>::empty());
        entries
    }
}

impl<H, W> Entries<H, W> {
    /// The number of entries.
    pub fn len(&self) -> (len: usize)
        ensures
            len == self@.len(),
    {
        self.entries.len()
    }

    /// Add an entry of whose response nothing has been learned, and return its number.
    pub fn add(&mut self, valid: usize) -> (idx: usize)
        ensures
            idx == old(self)@.len(),
            final(self)@ == old(self)@.push(
                EntryState { valid, response: ResponseState::Nothing },
            ),
    {
        let idx: usize = self.entries.len();
        self.entries.push(CachedRespInner::new(valid));
        assert(self@ =~= old(self)@.push(EntryState { valid, response: ResponseState::Nothing }));
        idx
    }

    /// The entry with the given number.
    pub fn get(&self, idx: usize) -> (entry: &CachedRespInner<H, W>)
        requires
            idx < self@.len(),
        ensures
            entry@ == self@[idx as int],
    {
        &self.entries[idx]
    }

    /// The entry with the given number, to be changed.
    pub fn get_mut(&mut self, idx: usize) -> (entry: &mut CachedRespInner<H, W>)
        requires
            idx < old(self)@.len(),
        ensures
            entry@ == old(self)@[idx as int],
            final(self)@ == old(self)@.update(idx as int, final(entry)@),
    {
        let ghost before = self.entries@;
        let entry = &mut self.entries[idx];
        assert(before.update(idx as int, *final(entry)).map_values(
            |e: CachedRespInner<H, W>| e@,
        ) =~= before.map_values(|e: CachedRespInner<H, W>| e@).update(
            idx as int,
            final(entry)@,
        ));
        entry
    }
}

}
