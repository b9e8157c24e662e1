use http::Method;
use tower_cache::key::{CacheKey, Request};
use tower_cache::options::{CacheOptions, Predicate};
use tower_cache::response::{Response, StatusCode};

fn response(status: u16) -> Response<(), ()> {
    Response { status: StatusCode(status), head: (), body: () }
}

fn request(method: &str) -> Request<u64> {
    Request {
        key: CacheKey { method: method.parse().unwrap(), uri: "/".parse().unwrap() },
        rest: 42,
    }
}

#[test]
fn status_code_predicate() {
    let pred = StatusCode(200);
    assert!(pred.fulfills(&response(200)));
    assert!(!pred.fulfills(&response(201)));
    assert!(!pred.fulfills(&response(199)));
}

#[test]
fn status_range_predicate() {
    let pred = StatusCode(200)..StatusCode(300);
    assert!(!pred.fulfills(&response(199)));
    assert!(pred.fulfills(&response(200)));
    assert!(pred.fulfills(&response(299)));
    assert!(!pred.fulfills(&response(300)));
}

#[test]
fn method_predicate() {
    assert!(Method::GET.fulfills(&request("GET")));
    assert!(!Method::GET.fulfills(&request("POST")));
    assert!(!Method::GET.fulfills(&request("get")));
}

#[test]
fn function_predicate() {
    let even = |val: &u64| *val % 2 == 0;
    assert!(even.fulfills(&4));
    assert!(!even.fulfills(&5));
    let pred = |req: &Request<u64>| req.rest == 42;
    assert!(pred.fulfills(&request("GET")));
}

#[test]
fn options_hold_their_predicates() {
    let options: CacheOptions<StatusCode, Method> =
        CacheOptions::new(Some(StatusCode(404)), Some(Method::PUT));
    let copy = options.clone();
    assert_eq!(*copy.resp_pred.unwrap(), StatusCode(404));
    assert_eq!(*copy.req_pred.unwrap(), Method::PUT);
    let options: CacheOptions<StatusCode, Method> = CacheOptions::new(None, None);
    assert!(options.resp_pred.is_none());
    assert!(options.req_pred.is_none());
}

#[test]
fn clones_share_their_predicates() {
    let options: CacheOptions<StatusCode, Method> = CacheOptions::new(Some(StatusCode(200)), None);
    let copy = options.clone();
    assert!(std::sync::Arc::ptr_eq(&options.resp_pred.unwrap(), &copy.resp_pred.unwrap()));
}
