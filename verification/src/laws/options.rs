//! What the predicates and the options say, said of the calls themselves.

use std::ops::Range;

use vstd::prelude::*;

use crate::key::{method_name, Request};
use crate::options::{CacheOptions, Predicate};
use crate::response::{Response, StatusCode};

verus! {

/// A status code is fulfilled by the responses that have it, and by no other.
pub proof fn law_status_code_is_fulfilled_by_its_responses<H, B>(
    status: StatusCode,
    resp: Response<H, B>,
    fulfilled: bool,
)
    requires
        call_ensures(
            <StatusCode as Predicate<Response<H, B>>>::fulfills,
            (&status, &resp),
            fulfilled,
        ),
    ensures
        fulfilled <==> resp.status.0 == status.0,
        Predicate::<Response<H, B>>::applies(&status, &resp),
{
}

/// A range of status codes is fulfilled by the responses whose status is at least its start and below
/// its end, and by no other.
pub proof fn law_status_range_is_fulfilled_by_its_responses<H, B>(
    range: Range<StatusCode>,
    resp: Response<H, B>,
    fulfilled: bool,
)
    requires
        call_ensures(
            <Range<StatusCode> as Predicate<Response<H, B>>>::fulfills,
            (&range, &resp),
            fulfilled,
        ),
    ensures
        resp.status.0 < range.start.0 ==> !fulfilled,
        resp.status.0 >= range.end.0 ==> !fulfilled,
        range.start.0 <= resp.status.0 < range.end.0 ==> fulfilled,
        Predicate::<Response<H, B>>::applies(&range, &resp),
{
}

/// A method is fulfilled by the requests that have it, and by no other.
pub proof fn law_method_is_fulfilled_by_its_requests<T>(
    method: http::Method,
    req: Request<T>,
    fulfilled: bool,
)
    requires
        call_ensures(<http::Method as Predicate<Request<T>>>::fulfills, (&method, &req), fulfilled),
    ensures
        fulfilled <==> method_name(req.key.method) == method_name(method),
        Predicate::<Request<T>>::applies(&method, &req),
{
}

/// A function is fulfilled where it says so, and can be asked where it can be called.
pub proof fn law_function_is_fulfilled_where_it_says_so<Value, Func: Fn(&Value) -> bool>(
    func: Func,
    val: Value,
    fulfilled: bool,
)
    requires
        call_ensures(<Func as Predicate<Value>>::fulfills, (&func, &val), fulfilled),
    ensures
        call_ensures(func, (&val,), fulfilled),
        call_requires(func, (&val,)) ==> Predicate::<Value>::applies(&func, &val),
{
}

/// Options hold the predicates that they were made with, each in its place, and so do their clones.
pub proof fn law_options_hold_their_predicates<RespPred, ReqPred>(
    resp_pred: Option<RespPred>,
    req_pred: Option<ReqPred>,
    options: CacheOptions<RespPred, ReqPred>,
    copy: CacheOptions<RespPred, ReqPred>,
)
    requires
        call_ensures(CacheOptions::<RespPred, ReqPred>::new, (resp_pred, req_pred), options),
        call_ensures(CacheOptions::<RespPred, ReqPred>::clone, (&options,), copy),
    ensures
        options.resp_pred is Some <==> resp_pred is Some,
        resp_pred is Some ==> *options.resp_pred->0 == resp_pred->0,
        options.req_pred is Some <==> req_pred is Some,
        req_pred is Some ==> *options.req_pred->0 == req_pred->0,
        copy.resp_pred == options.resp_pred,
        copy.req_pred == options.req_pred,
{
}

}
