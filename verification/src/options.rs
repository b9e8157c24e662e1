//! Options that say how a [`CacheLayer`](crate::service::CacheLayer) and a
//! [`CacheService`](crate::service::CacheService) should work.

use std::ops::Range;
use std::sync::Arc;

use vstd::prelude::*;

use crate::key::{method_name, same_method, Request};
use crate::response::{Response, StatusCode};

verus! {

/// A condition on requests or on responses. Values of types that implement this trait can be passed
/// to [`CacheOptions::new`] to declare which responses should be cached.
pub trait Predicate<Value> {
    /// The predicate can be evaluated on `val`.
    spec fn applies(&self, val: &Value) -> bool;

    /// The predicate may answer `fulfilled` on `val`.
    spec fn may_answer(&self, val: &Value, fulfilled: bool) -> bool;

    /// Whether the predicate is fulfilled, which means that the response should be cached. It is
    /// evaluated on the response, or on the request that the response answers.
    fn fulfills(&self, val: &Value) -> (fulfilled: bool)
        requires
            self.applies(val),
        ensures
            self.may_answer(val, fulfilled),
    ;
}

/// A function from references to `bool` is a predicate.
impl<Value, Func: Fn(&Value) -> bool> Predicate<Value> for Func {
    open spec fn applies(&self, val: &Value) -> bool {
        call_requires(*self, (val,))
    }

    open spec fn may_answer(&self, val: &Value, fulfilled: bool) -> bool {
        call_ensures(*self, (val,), fulfilled)
    }

    fn fulfills(&self, val: &Value) -> (fulfilled: bool) {
        self(val)
    }
}

/// A status code is fulfilled by the responses that have it.
impl<H, B> Predicate<Response<H, B>> for StatusCode {
    open spec fn applies(&self, val: &Response<H, B>) -> bool {
        true
    }

    open spec fn may_answer(&self, val: &Response<H, B>, fulfilled: bool) -> bool {
        fulfilled == (val.status == *self)
    }

    fn fulfills(&self, val: &Response<H, B>) -> (fulfilled: bool) {
        val.status == *self
    }
}

/// A range of status codes is fulfilled by the responses whose status code lies in it, the end not
/// included.
impl<H, B> Predicate<Response<H, B>> for Range<StatusCode> {
    open spec fn applies(&self, val: &Response<H, B>) -> bool {
        true
    }

    open spec fn may_answer(&self, val: &Response<H, B>, fulfilled: bool) -> bool {
        fulfilled == (self.start.0 <= val.status.0 < self.end.0)
    }

    fn fulfills(&self, val: &Response<H, B>) -> (fulfilled: bool) {
        self.start.0 <= val.status.0 && val.status.0 < self.end.0
    }
}

/// A method is fulfilled by the requests that have it.
impl<T> Predicate<Request<T>> for http::Method {
    open spec fn applies(&self, val: &Request<T>) -> bool {
        true
    }

    open spec fn may_answer(&self, val: &Request<T>, fulfilled: bool) -> bool {
        fulfilled == (method_name(val.key.method) == method_name(*self))
    }

    fn fulfills(&self, val: &Request<T>) -> (fulfilled: bool) {
        same_method(&val.key.method, self)
    }
}

/// `Arc::clone` gives another handle to the same value.
#[verifier::external_body]
pub(crate) fn share<T>(arc: &Arc<T>) -> (shared: Arc<T>)
    ensures
        shared == *arc,
{
    arc.clone()
}

pub(crate) fn share_option<T>(arc: &Option<Arc<T>>) -> (shared: Option<Arc<T>>)
    ensures
        shared == *arc,
{
    match arc {
        Some(a) => Some(share(a)),
        None => None,
    }
}

/// Options to pass to [`CacheLayer::new`](crate::service::CacheLayer::new): when a response should
/// be cached.
pub struct CacheOptions<RespPred, ReqPred> {
    /// If it is [`Some`], only responses that fulfill this predicate are cached. It is not evaluated
    /// if the request did not fulfill [`Self::req_pred`].
    pub resp_pred: Option<Arc<RespPred>>,
    /// If it is [`Some`], only responses to requests that fulfill this predicate are cached.
    pub req_pred: Option<Arc<ReqPred>>,
}

impl<RespPred, ReqPred> CacheOptions<RespPred, ReqPred> {
    /// Options with the given `resp_pred` and `req_pred`.
    pub fn new(resp_pred: Option<RespPred>, req_pred: Option<ReqPred>) -> (options: Self)
        ensures
            match resp_pred {
                Some(p) => options.resp_pred matches Some(arc) && *arc == p,
                None => options.resp_pred is None,
            },
            match req_pred {
                Some(p) => options.req_pred matches Some(arc) && *arc == p,
                None => options.req_pred is None,
            },
    {
        CacheOptions {
            resp_pred: match resp_pred {
                Some(p) => Some(Arc::new(p)),
                None => None,
            },
            req_pred: match req_pred {
                Some(p) => Some(Arc::new(p)),
                None => None,
            },
        }
    }
}

impl<RespPred, ReqPred> Clone for CacheOptions<RespPred, ReqPred> {
    fn clone(&self) -> (copy: Self)
        ensures
            copy == *self,
    {
        CacheOptions {
            resp_pred: share_option(&self.resp_pred),
            req_pred: share_option(&self.req_pred),
        }
    }
}

}
