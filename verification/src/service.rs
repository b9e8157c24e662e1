//! The layer and the service that cache the responses of an inner service.

use std::sync::Arc;

use vstd::prelude::*;

use crate::body::{CacheStreamBody, MaybeCachedBody, Poll};
use crate::cache::{found_after_insert, Cache, CopyCache};
use crate::entry::{clone_cached, replays, Entries, EntryState, MaybeCompleteResponse, ResponseState};
use crate::invalidator::{flag_set, Invalidator};
use crate::key::{same_key, CacheKey, Request};
use crate::laws::law_keys_are_compared_lawfully;
use crate::options::{share_option, CacheOptions, Predicate};
use crate::response::Response;
use crate::trailers::Headers;
use crate::valids::key_fits;

verus! {

/// Makes services that cache responses as its options say.
pub struct CacheLayer<RespPred, ReqPred> {
    options: CacheOptions<RespPred, ReqPred>,
}

impl<RespPred, ReqPred> CacheLayer<RespPred, ReqPred> {
    /// The options that the layer was made with.
    pub closed spec fn options(&self) -> CacheOptions<RespPred, ReqPred> {
        self.options
    }

    /// A layer with the given options.
    pub fn new(options: CacheOptions<RespPred, ReqPred>) -> (layer: Self)
        ensures
            layer.options() == options,
    {
        CacheLayer { options }
    }

    /// A service with a cache of its own, which is empty, and with the options of the layer.
    pub fn layer<C: Cache<CacheKey, usize>>(&self) -> (service: CacheService<C, RespPred, ReqPred>)
        ensures
            service.options() == self.options(),
            service.cache().wf(),
            forall|k: CacheKey| (#[trigger] service.cache().value_at(k)) is None,
    {
        CacheService { cache: C::empty(), options: self.options.clone() }
    }
}

impl<RespPred, ReqPred> Clone for CacheLayer<RespPred, ReqPred> {
    fn clone(&self) -> (copy: Self)
        ensures
            copy.options() == self.options(),
    {
        CacheLayer { options: self.options.clone() }
    }
}

/// What a cache, the entries that it names and the flags of these entries have to do with each
/// other: a key that is found names an entry, every entry has a flag of its own, and the key beside
/// the flag equals the key that was found.
pub open spec fn consistent<C: Cache<CacheKey, usize>, H, W>(
    cache: C,
    entries: Seq<EntryState<H, W>>,
    valids: Seq<(CacheKey, bool)>,
) -> bool {
    &&& cache.wf()
    &&& forall|k: CacheKey|
        #![trigger cache.value_at(k)]
        cache.value_at(k) matches Some(idx) ==> {
            &&& idx < entries.len()
            &&& same_key(valids[entries[idx as int].valid as int].0, k)
        }
    &&& forall|i: int| 0 <= i < entries.len() ==> (#[trigger] entries[i]).valid < valids.len()
    &&& forall|i: int, j: int|
        0 <= i < j < entries.len() ==> (#[trigger] entries[i]).valid != (
        #[trigger] entries[j]).valid
}

/// The entries after a request for `key`, which the cache maps to `found`: an entry whose flag was
/// cleared forgets its response; for a key that was not found there is a new entry.
pub open spec fn entries_after_call<H, W>(
    found: Option<usize>,
    entries: Seq<EntryState<H, W>>,
    valids: Seq<(CacheKey, bool)>,
) -> Seq<EntryState<H, W>> {
    match found {
        Some(idx) => {
            let entry = entries[idx as int];
            entries.update(idx as int, entry.refreshed(valids[entry.valid as int].1))
        },
        None => entries.push(
            EntryState { valid: valids.len() as usize, response: ResponseState::Nothing },
        ),
    }
}

/// The flags after a request for `key`, which the cache maps to `found`: the flag of the entry is
/// set; for a key that was not found there is a new flag.
pub open spec fn valids_after_call<H, W>(
    key: CacheKey,
    found: Option<usize>,
    entries: Seq<EntryState<H, W>>,
    valids: Seq<(CacheKey, bool)>,
) -> Seq<(CacheKey, bool)> {
    match found {
        Some(idx) => flag_set(valids, entries[idx as int].valid as int, true),
        None => valids.push((key, true)),
    }
}

/// Evaluates the predicates of its options and keeps the responses of an inner service.
pub struct CacheService<C, RespPred, ReqPred> {
    cache: C,
    options: CacheOptions<RespPred, ReqPred>,
}

impl<C, RespPred, ReqPred> CacheService<C, RespPred, ReqPred> {
    /// The map from keys to the numbers of entries.
    pub closed spec fn cache(&self) -> C {
        self.cache
    }

    /// The options.
    pub closed spec fn options(&self) -> CacheOptions<RespPred, ReqPred> {
        self.options
    }
}

/// The clone has the options of the service and a copy of its cache, with which it goes on for itself.
/// The entries that the cache names when it is copied are those of both.
impl<C: CopyCache<CacheKey, usize>, RespPred, ReqPred> Clone for CacheService<
    C,
    RespPred,
    ReqPred,
> {
    fn clone(&self) -> (copy: Self)
        ensures
            self.cache().wf() ==> copy.cache().wf(),
            forall|k: CacheKey| #[trigger]
                copy.cache().value_at(k) == self.cache().value_at(k),
            copy.options() == self.options(),
    {
        CacheService { cache: self.cache.duplicate(), options: self.options.clone() }
    }
}

impl<C: Cache<CacheKey, usize>, RespPred, ReqPred> CacheService<C, RespPred, ReqPred> {
    /// Whether a request for `key` can be served: its entry is there, or there is room for its flag.
    pub fn has_room_for(&self, invalidator: &Invalidator, key: &CacheKey) -> (room: bool)
        requires
            self.cache().wf(),
        ensures
            room == (self.cache().value_at(*key) is None ==> key_fits(invalidator@.len())),
    {
        self.cache.get(key).is_some() || invalidator.has_room()
    }

    /// Begin to serve a request: find the entry for its key, or make one, and see whether it has been
    /// invalidated since the last request. The inner service is called next, and what it answers goes
    /// to the [`CachingFut`] that is returned.
    pub fn call<T, H, W>(
        &mut self,
        entries: &mut Entries<H, W>,
        invalidator: &mut Invalidator,
        req: &Request<T>,
    ) -> (fut: CachingFut<RespPred>) where ReqPred: Predicate<Request<T>>
        requires
            old(self).cache().value_at(req.key) is None ==> key_fits(old(invalidator)@.len()),
            consistent(old(self).cache(), old(entries)@, old(invalidator)@),
            old(self).options().req_pred matches Some(pred) ==> pred.applies(req),
        ensures
            consistent(final(self).cache(), final(entries)@, final(invalidator)@),
            final(self).options() == old(self).options(),
            ({
                let found = old(self).cache().value_at(req.key);
                &&& fut.entry() == (match found {
                    Some(idx) => idx,
                    None => old(entries)@.len() as usize,
                })
                &&& fut.entry() < final(entries)@.len()
                &&& final(entries)@ == entries_after_call(found, old(entries)@, old(invalidator)@)
                &&& final(invalidator)@ == valids_after_call(
                    req.key,
                    found,
                    old(entries)@,
                    old(invalidator)@,
                )
                &&& forall|k: CacheKey| #[trigger]
                    final(self).cache().value_at(k) == found_after_insert(
                        old(self).cache().value_at(k),
                        k,
                        found is Some,
                        req.key,
                        fut.entry(),
                    )
            }),
            match old(self).options().req_pred {
                Some(pred) => pred.may_answer(req, fut.valid_so_far()),
                None => fut.valid_so_far(),
            },
            fut.resp_pred() == old(self).options().resp_pred,
    {
        proof {
            law_keys_are_compared_lawfully();
        }
        let entry: usize = match self.cache.get(&req.key) {
            Some(entry) => {
                entries.get_mut(entry).refresh(invalidator);
                entry
            },
            None => {
                let valid: usize = invalidator.insert(req.key.clone());
                let entry: usize = entries.add(valid);
                self.cache.insert_if_not_exists(req.key.clone(), entry);
                entry
            },
        };
        let valid_so_far = match &self.options.req_pred {
            Some(pred) => pred.fulfills(req),
            None => true,
        };
        CachingFut { entry, valid_so_far, resp_pred: share_option(&self.options.resp_pred) }
    }
}

/// What is left to do of a request for which the inner service has been called.
pub struct CachingFut<RespPred> {
    entry: usize,
    valid_so_far: bool,
    resp_pred: Option<Arc<RespPred>>,
}

impl<RespPred> CachingFut<RespPred> {
    /// The number of the entry for the key of the request.
    pub closed spec fn entry(&self) -> usize {
        self.entry
    }

    /// The request fulfilled the predicate on requests.
    pub closed spec fn valid_so_far(&self) -> bool {
        self.valid_so_far
    }

    /// The predicate on responses.
    pub closed spec fn resp_pred(&self) -> Option<Arc<RespPred>> {
        self.resp_pred
    }

    /// The response of the inner service, its body wrapped so that it is copied to the entry, or only
    /// passed on.
    pub open spec fn wrapped<H, B>(
        resp: Response<H, B>,
        cache_entry: Option<usize>,
    ) -> Response<H, MaybeCachedBody<B>> {
        Response {
            status: resp.status,
            head: resp.head,
            body: MaybeCachedBody::New(CacheStreamBody { inner: resp.body, cache_entry }),
        }
    }

    /// The predicates may come to `cacheable` for the response: the request has to have fulfilled
    /// its predicate and, if there is a predicate on responses, so does the response.
    pub open spec fn may_decide<H, B>(&self, resp: Response<H, B>, cacheable: bool) -> bool where
        RespPred: Predicate<Response<H, MaybeCachedBody<B>>>,
     {
        if !self.valid_so_far() {
            !cacheable
        } else {
            match self.resp_pred() {
                Some(pred) => pred.may_answer(
                    &Self::wrapped(resp, Some(self.entry())),
                    cacheable,
                ),
                None => cacheable,
            }
        }
    }

    /// The predicate on responses, if it is needed, can be evaluated on the response.
    pub open spec fn can_decide<H, B>(&self, resp: Response<H, B>) -> bool where
        RespPred: Predicate<Response<H, MaybeCachedBody<B>>>,
     {
        self.valid_so_far() ==> match self.resp_pred() {
            Some(pred) => pred.applies(&Self::wrapped(resp, Some(self.entry()))),
            None => true,
        }
    }

    /// The complete response in the entry, if there is one. It is to be asked for before the inner
    /// service is polled, which is needless where the response is known.
    pub fn poll_cached<H: Clone, W, B>(&self, entries: &Entries<H, W>) -> (resp: Option<
        Response<H, MaybeCachedBody<B>>,
    >)
        requires
            self.entry() < entries@.len(),
        ensures
            match resp {
                Some(resp) => replays(entries@[self.entry() as int].response, resp),
                None => !(entries@[self.entry() as int].response is Complete),
            },
    {
        entries.get(self.entry).replay()
    }

    /// Go on with what the inner service was polled to. `cond_var` is for others to wait on, should
    /// they ask for the response while it is being streamed.
    pub fn poll<H: Clone, W: Clone, B, E>(
        &self,
        entries: &mut Entries<H, W>,
        polled: Poll<Result<Response<H, B>, E>>,
        cond_var: W,
    ) -> (step: PollStep<H, W, B, E>) where RespPred: Predicate<Response<H, MaybeCachedBody<B>>>
        requires
            self.entry() < old(entries)@.len(),
            polled matches Poll::Ready(Ok(resp)) ==> self.can_decide(resp),
        ensures
            self.polled_to(old(entries)@, polled, cond_var, final(entries)@, step),
    {
        let resp = match polled {
            Poll::Ready(Ok(resp)) => resp,
            Poll::Ready(Err(error)) => {
                return PollStep::Ready(Err(error));
            },
            Poll::Pending => {
                return PollStep::Pending;
            },
        };
        match &entries.get(self.entry).response {
            MaybeCompleteResponse::Nothing => {},
            MaybeCompleteResponse::Partial(partial) => {
                return PollStep::Wait { cond_var: partial.cond_var.clone(), resp };
            },
            MaybeCompleteResponse::Complete(cached) => {
                return PollStep::Ready(Ok(clone_cached(cached)));
            },
        }
        let ghost answer = resp;
        let head = resp.head.clone();
        let mut resp = Response {
            status: resp.status,
            head: resp.head,
            body: MaybeCachedBody::New(
                CacheStreamBody { inner: resp.body, cache_entry: Some(self.entry) },
            ),
        };
        let cacheable = self.valid_so_far && match &self.resp_pred {
            Some(pred) => pred.fulfills(&resp),
            None => true,
        };
        if cacheable {
            entries.get_mut(self.entry).begin(resp.status, head, cond_var);
        } else if let MaybeCachedBody::New(body) = &mut resp.body {
            body.cache_entry = None;
        }
        proof {
            if cacheable {
                assert(resp == Self::wrapped(answer, Some(self.entry())));
                assert(self.may_decide(answer, true));
                assert(cloned(answer.head, head));
            } else {
                assert(resp == Self::wrapped(answer, None));
                assert(self.may_decide(answer, false));
            }
        }
        PollStep::Ready(Ok(resp))
    }

    /// What [`CachingFut::poll`] comes to.
    ///
    /// - A response that is complete in the entry is returned in place of that of the inner service.
    /// - While someone else streams the response, there is nothing to do but to wait for it.
    /// - Where nothing is known of the response, that of the inner service is returned. If it may be
    ///   cached, its body is copied to the entry as it is streamed.
    pub open spec fn polled_to<H: Clone, W: Clone, B, E>(
        &self,
        entries: Seq<EntryState<H, W>>,
        polled: Poll<Result<Response<H, B>, E>>,
        cond_var: W,
        after: Seq<EntryState<H, W>>,
        step: PollStep<H, W, B, E>,
    ) -> bool where RespPred: Predicate<Response<H, MaybeCachedBody<B>>> {
        let idx = self.entry() as int;
        match polled {
            Poll::Pending => step is Pending && after == entries,
            Poll::Ready(Err(error)) => step == PollStep::<H, W, B, E>::Ready(Err(error))
                && after == entries,
            Poll::Ready(Ok(resp)) => match entries[idx].response {
                ResponseState::Complete { .. } => {
                    &&& step matches PollStep::Ready(Ok(cached))
                    &&& replays(entries[idx].response, cached)
                    &&& after == entries
                },
                ResponseState::Partial { cond_var: streaming, .. } => {
                    &&& step matches PollStep::Wait { cond_var: wait_on, resp: given_back }
                    &&& cloned(streaming, wait_on)
                    &&& given_back == resp
                    &&& after == entries
                },
                ResponseState::Nothing => {
                    ||| {
                        &&& self.may_decide(resp, true)
                        &&& step == PollStep::<H, W, B, E>::Ready(
                            Ok(Self::wrapped(resp, Some(self.entry()))),
                        )
                        &&& exists|head: H|
                            {
                                &&& #[trigger] cloned(resp.head, head)
                                &&& after == entries.update(
                                    idx,
                                    entries[idx].with_response(
                                        ResponseState::Partial {
                                            status: resp.status,
                                            head,
                                            data: Seq::empty(),
                                            trailers: Headers::empty(),
                                            cond_var,
                                        },
                                    ),
                                )
                            }
                    }
                    ||| {
                        &&& self.may_decide(resp, false)
                        &&& step == PollStep::<H, W, B, E>::Ready(Ok(Self::wrapped(resp, None)))
                        &&& after == entries
                    }
                },
            },
        }
    }
}

/// What [`CachingFut::poll`] comes to.
pub enum PollStep<H, W, B, E> {
    /// The request is answered.
    Ready(Result<Response<H, MaybeCachedBody<B>>, E>),
    /// The inner service has not answered yet.
    Pending,
    /// Someone else is streaming the response. When what they wake has been woken, `resp`, which is
    /// what the inner service answered, is to be polled with once more.
    Wait {
        /// What to wait on.
        cond_var: W,
        /// What the inner service answered.
        resp: Response<H, B>,
    },
}

}
