use bytes::Bytes;
use dashmap::DashMap;
use http::{HeaderMap, HeaderName, HeaderValue, Method};
use tower_cache::body::{CacheStreamBody, Frame, FramePoll, FrameStep, MaybeCachedBody, NoOpBody, Poll};
use tower_cache::cache::{Cache, SendLinearMap};
use tower_cache::entry::Entries;
use tower_cache::invalidator::Invalidator;
use tower_cache::key::{CacheKey, Request};
use tower_cache::options::{CacheOptions, Predicate};
use tower_cache::response::{Response, StatusCode};
use tower_cache::service::PollStep;
use tower_cache::{CacheLayer, CacheService, CachingFut};

type Linear = SendLinearMap<CacheKey, usize>;
type Body = MaybeCachedBody<&'static str>;
type Answer = Response<String, Body>;
type Step = PollStep<String, u32, &'static str, String>;

fn key(method: &str, uri: &str) -> CacheKey {
    CacheKey { method: method.parse().unwrap(), uri: uri.parse().unwrap() }
}

fn request(method: &str, uri: &str) -> Request<u64> {
    Request { key: key(method, uri), rest: 0 }
}

fn answer(status: u16, head: &str) -> Poll<Result<Response<String, &'static str>, String>> {
    Poll::Ready(Ok(Response { status: StatusCode(status), head: head.to_string(), body: "inner" }))
}

fn data(bytes: &[u8]) -> FramePoll<Vec<u8>, String> {
    Poll::Ready(Some(Ok(Frame::Data(bytes.to_vec()))))
}

fn headers(pairs: &[(&'static str, &'static str)]) -> HeaderMap {
    let mut map = HeaderMap::new();
    for (name, value) in pairs {
        map.append(HeaderName::from_static(name), HeaderValue::from_static(value));
    }
    map
}

fn trailers(pairs: &[(&'static str, &'static str)]) -> FramePoll<Vec<u8>, String> {
    Poll::Ready(Some(Ok(Frame::Trailers(headers(pairs)))))
}

fn end() -> FramePoll<Vec<u8>, String> {
    Poll::Ready(None)
}

fn failure() -> FramePoll<Vec<u8>, String> {
    Poll::Ready(Some(Err("broken".to_string())))
}

struct World<C, RespPred, ReqPred> {
    service: CacheService<C, RespPred, ReqPred>,
    entries: Entries<String, u32>,
    invalidator: Invalidator,
}

type Plain<C> = World<C, StatusCode, Method>;

fn world<C: Cache<CacheKey, usize>, RespPred, ReqPred>(
    resp_pred: Option<RespPred>,
    req_pred: Option<ReqPred>,
) -> World<C, RespPred, ReqPred> {
    let layer = CacheLayer::new(CacheOptions::new(resp_pred, req_pred));
    World {
        service: layer.clone().layer(),
        entries: Entries::default(),
        invalidator: Invalidator::default(),
    }
}

fn plain() -> Plain<Linear> {
    world(None, None)
}

impl<C, RespPred, ReqPred> World<C, RespPred, ReqPred>
where
    C: Cache<CacheKey, usize>,
    RespPred: Predicate<Answer>,
    ReqPred: Predicate<Request<u64>>,
{
    fn call(&mut self, method: &str, uri: &str) -> CachingFut<RespPred> {
        self.service.call(&mut self.entries, &mut self.invalidator, &request(method, uri))
    }

    fn cached(&self, fut: &CachingFut<RespPred>) -> Option<Answer> {
        fut.poll_cached(&self.entries)
    }

    fn poll(
        &mut self,
        fut: &CachingFut<RespPred>,
        polled: Poll<Result<Response<String, &'static str>, String>>,
        cond_var: u32,
    ) -> Step {
        fut.poll(&mut self.entries, polled, cond_var)
    }

    fn fetch(&mut self, fut: &CachingFut<RespPred>, status: u16, head: &str, cond_var: u32) -> Answer {
        match self.poll(fut, answer(status, head), cond_var) {
            PollStep::Ready(Ok(resp)) => resp,
            _ => panic!("not answered"),
        }
    }

    fn frame(&mut self, body: &mut Body, polled: FramePoll<Vec<u8>, String>) -> FrameStep<String, u32> {
        if let MaybeCachedBody::New(stream) = &*body {
            assert!(stream.accepts_frame(&self.entries, &polled));
        }
        body.poll_frame(&mut self.entries, polled)
    }

    fn stream(&mut self, body: &mut Body, chunks: &[&[u8]]) {
        for chunk in chunks {
            let step = self.frame(body, data(chunk));
            assert_eq!(out_data(step), chunk.to_vec());
        }
        let step = self.frame(body, end());
        assert!(matches!(step.frame, Poll::Ready(None)));
    }
}

fn out_data(step: FrameStep<String, u32>) -> Vec<u8> {
    match step.frame {
        Poll::Ready(Some(Ok(Frame::Data(out)))) => out.to_vec(),
        _ => panic!("no data"),
    }
}

fn out_trailers(step: FrameStep<String, u32>) -> HeaderMap {
    match step.frame {
        Poll::Ready(Some(Ok(Frame::Trailers(out)))) => out,
        _ => panic!("no trailers"),
    }
}

fn stream_of(body: &Body) -> &CacheStreamBody<&'static str> {
    match body {
        MaybeCachedBody::New(stream) => stream,
        _ => panic!("cached"),
    }
}

fn replayed(world: &mut Plain<Linear>, mut resp: Answer) -> (Vec<u8>, HeaderMap) {
    let first = world.frame(&mut resp.body, Poll::Pending);
    assert!(first.wake.is_none());
    let second = world.frame(&mut resp.body, Poll::Pending);
    let third = world.frame(&mut resp.body, Poll::Pending);
    assert!(matches!(third.frame, Poll::Ready(None)));
    let fourth = world.frame(&mut resp.body, data(b"ignored"));
    assert!(matches!(fourth.frame, Poll::Ready(None)));
    (out_data(first), out_trailers(second))
}

#[test]
fn first_request_is_answered_by_the_inner_service() {
    let mut world = plain();
    let fut = world.call("GET", "/a");
    assert!(world.cached(&fut).is_none());
    let resp = world.fetch(&fut, 200, "head", 1);
    assert_eq!(resp.status, StatusCode(200));
    assert_eq!(resp.head, "head");
    assert_eq!(stream_of(&resp.body).inner, "inner");
    assert_eq!(stream_of(&resp.body).cache_entry, Some(0));
}

#[test]
fn second_request_is_replayed() {
    let mut world = plain();
    let fut = world.call("GET", "/a");
    let mut resp = world.fetch(&fut, 203, "head", 1);
    world.stream(&mut resp.body, &[b"he", b"llo", b"", b" you"]);
    let fut = world.call("GET", "/a");
    let resp = world.cached(&fut).unwrap();
    assert_eq!(resp.status, StatusCode(203));
    assert_eq!(resp.head, "head");
    let (bytes, trailers) = replayed(&mut world, resp);
    assert_eq!(bytes, b"hello you".to_vec());
    assert!(trailers.is_empty());
    // Once more: replaying does not use the response up.
    let resp = world.cached(&fut).unwrap();
    assert_eq!(replayed(&mut world, resp).0, b"hello you".to_vec());
}

#[test]
fn trailers_are_replayed() {
    let mut world = plain();
    let fut = world.call("GET", "/a");
    let mut resp = world.fetch(&fut, 200, "head", 1);
    world.frame(&mut resp.body, data(b"x"));
    let step = world.frame(&mut resp.body, trailers(&[("x-a", "1"), ("x-a", "2"), ("x-b", "3")]));
    assert!(step.wake.is_none());
    assert_eq!(out_trailers(step), headers(&[("x-a", "1"), ("x-a", "2"), ("x-b", "3")]));
    world.frame(&mut resp.body, trailers(&[("x-b", "4"), ("x-c", "5"), ("x-c", "6")]));
    world.frame(&mut resp.body, end());
    let resp = world.cached(&fut).unwrap();
    let (bytes, trailers) = replayed(&mut world, resp);
    assert_eq!(bytes, b"x".to_vec());
    // Where a name came again, its values were replaced.
    assert_eq!(
        trailers,
        headers(&[("x-a", "1"), ("x-a", "2"), ("x-b", "4"), ("x-c", "5"), ("x-c", "6")])
    );
}

#[test]
fn empty_body_is_replayed() {
    let mut world = plain();
    let fut = world.call("HEAD", "/");
    let mut resp = world.fetch(&fut, 204, "", 1);
    world.stream(&mut resp.body, &[]);
    let resp = world.cached(&fut).unwrap();
    let (bytes, trailers) = replayed(&mut world, resp);
    assert!(bytes.is_empty());
    assert!(trailers.is_empty());
}

#[test]
fn pending_polls_change_nothing() {
    let mut world = plain();
    let fut = world.call("GET", "/a");
    assert!(matches!(world.poll(&fut, Poll::Pending, 1), PollStep::Pending));
    let mut resp = world.fetch(&fut, 200, "head", 1);
    let step = world.frame(&mut resp.body, Poll::Pending);
    assert!(matches!(step.frame, Poll::Pending));
    assert!(step.wake.is_none());
    world.frame(&mut resp.body, data(b"a"));
    world.frame(&mut resp.body, Poll::Pending);
    world.frame(&mut resp.body, data(b"b"));
    world.frame(&mut resp.body, end());
    let resp = world.cached(&fut).unwrap();
    assert_eq!(replayed(&mut world, resp).0, b"ab".to_vec());
}

#[test]
fn keys_have_entries_of_their_own() {
    let mut world = plain();
    let get = world.call("GET", "/a");
    let post = world.call("POST", "/a");
    let other = world.call("GET", "/b");
    let mut resp = world.fetch(&get, 200, "get", 1);
    world.stream(&mut resp.body, &[b"1"]);
    assert!(world.cached(&get).is_some());
    assert!(world.cached(&post).is_none());
    assert!(world.cached(&other).is_none());
    assert_eq!(world.entries.len(), 3);
    assert_eq!(world.invalidator.len(), 3);
    world.call("GET", "/b");
    assert_eq!(world.entries.len(), 3);
    assert_eq!(world.invalidator.len(), 3);
}

#[test]
fn equal_keys_share_an_entry() {
    let mut world = plain();
    let fut = world.call("GET", "http://a.b/x");
    let mut resp = world.fetch(&fut, 200, "head", 1);
    world.stream(&mut resp.body, &[b"1"]);
    let fut = world.call("GET", "HTTP://A.B/x");
    assert_eq!(world.entries.len(), 1);
    let resp = world.cached(&fut).unwrap();
    assert_eq!(replayed(&mut world, resp).0, b"1".to_vec());
}

#[test]
fn inner_error_is_passed_on() {
    let mut world = plain();
    let fut = world.call("GET", "/a");
    match world.poll(&fut, Poll::Ready(Err("down".to_string())), 1) {
        PollStep::Ready(Err(error)) => assert_eq!(error, "down"),
        _ => panic!("no error"),
    }
    assert!(world.cached(&fut).is_none());
    let resp = world.fetch(&fut, 200, "head", 1);
    assert_eq!(stream_of(&resp.body).cache_entry, Some(0));
}

#[test]
fn others_wait_while_a_response_is_streamed() {
    let mut world = plain();
    let first = world.call("GET", "/a");
    let mut resp = world.fetch(&first, 200, "first", 17);
    let second = world.call("GET", "/a");
    let given_back = match world.poll(&second, answer(200, "second"), 18) {
        PollStep::Wait { cond_var, resp } => {
            assert_eq!(cond_var, 17);
            assert_eq!(resp.head, "second");
            resp
        }
        _ => panic!("did not wait"),
    };
    world.frame(&mut resp.body, data(b"abc"));
    let step = world.frame(&mut resp.body, end());
    assert_eq!(step.wake, Some(17));
    match world.poll(&second, Poll::Ready(Ok(given_back)), 18) {
        PollStep::Ready(Ok(resp)) => {
            assert_eq!(resp.head, "first");
            assert_eq!(replayed(&mut world, resp).0, b"abc".to_vec());
        }
        _ => panic!("not answered"),
    }
}

#[test]
fn failed_body_is_not_cached() {
    let mut world = plain();
    let fut = world.call("GET", "/a");
    let mut resp = world.fetch(&fut, 200, "head", 5);
    world.frame(&mut resp.body, data(b"a"));
    let step = world.frame(&mut resp.body, failure());
    assert_eq!(step.wake, Some(5));
    match step.frame {
        Poll::Ready(Some(Err(error))) => assert_eq!(error, "broken"),
        _ => panic!("no error"),
    }
    assert!(world.cached(&fut).is_none());
    // Someone else can try.
    let fut = world.call("GET", "/a");
    let mut resp = world.fetch(&fut, 200, "again", 6);
    world.stream(&mut resp.body, &[b"b"]);
    let resp = world.cached(&fut).unwrap();
    assert_eq!(resp.head, "again");
    assert_eq!(replayed(&mut world, resp).0, b"b".to_vec());
}

#[test]
fn dropped_body_is_forgotten() {
    let mut world = plain();
    let fut = world.call("GET", "/a");
    let mut resp = world.fetch(&fut, 200, "head", 5);
    world.frame(&mut resp.body, data(b"a"));
    let wake = stream_of(&resp.body).on_drop(&world.entries, &mut world.invalidator);
    assert_eq!(wake, Some(&5));
    assert!(!world.invalidator.is_valid(0));
    let fut = world.call("GET", "/a");
    assert!(world.invalidator.is_valid(0));
    let mut resp = world.fetch(&fut, 200, "again", 6);
    world.stream(&mut resp.body, &[b"b"]);
    let resp = world.cached(&fut).unwrap();
    assert_eq!(replayed(&mut world, resp).0, b"b".to_vec());
}

#[test]
fn dropping_a_finished_body_does_nothing() {
    let mut world = plain();
    let fut = world.call("GET", "/a");
    let mut resp = world.fetch(&fut, 200, "head", 5);
    world.stream(&mut resp.body, &[b"a"]);
    let wake = stream_of(&resp.body).on_drop(&world.entries, &mut world.invalidator);
    assert_eq!(wake, None);
    assert!(world.invalidator.is_valid(0));
    let fut = world.call("GET", "/a");
    assert!(world.cached(&fut).is_some());
}

#[test]
fn invalidated_response_is_forgotten() {
    let mut world = plain();
    for uri in ["/a", "/b"] {
        let fut = world.call("GET", uri);
        let mut resp = world.fetch(&fut, 200, uri, 1);
        world.stream(&mut resp.body, &[uri.as_bytes()]);
    }
    world.invalidator.invalidate(&key("GET", "/a"));
    let a = world.call("GET", "/a");
    let b = world.call("GET", "/b");
    assert!(world.cached(&a).is_none());
    assert!(world.cached(&b).is_some());
    // The flag is set again, and what is learned since is kept.
    let mut resp = world.fetch(&a, 200, "new", 2);
    world.stream(&mut resp.body, &[b"new"]);
    let a = world.call("GET", "/a");
    let resp = world.cached(&a).unwrap();
    assert_eq!(replayed(&mut world, resp).0, b"new".to_vec());
}

#[test]
fn invalidated_uri_is_forgotten_for_every_method() {
    let mut world = plain();
    for method in ["GET", "POST"] {
        let fut = world.call(method, "/a");
        let mut resp = world.fetch(&fut, 200, method, 1);
        world.stream(&mut resp.body, &[b"x"]);
    }
    world.invalidator.invalidate_all_for(&"/a".parse().unwrap());
    for method in ["GET", "POST"] {
        let fut = world.call(method, "/a");
        assert!(world.cached(&fut).is_none());
    }
}

#[test]
fn forgotten_stream_accepts_no_more_frames() {
    let mut world = plain();
    let fut = world.call("GET", "/a");
    let resp = world.fetch(&fut, 200, "head", 5);
    world.invalidator.invalidate(&key("GET", "/a"));
    world.call("GET", "/a");
    let stream = stream_of(&resp.body);
    assert!(stream.accepts_frame(&world.entries, &Poll::<Option<Result<Frame<Vec<u8>>, String>>>::Pending));
    assert!(!stream.accepts_frame(&world.entries, &data(b"a")));
    assert!(!stream.accepts_frame(&world.entries, &end()));
}

#[test]
fn too_many_trailers_are_not_accepted() {
    let mut world = plain();
    let fut = world.call("GET", "/a");
    let mut resp = world.fetch(&fut, 200, "head", 5);
    let mut many = HeaderMap::new();
    for i in 0..6553 {
        let name = HeaderName::from_bytes(format!("x-{}", i).as_bytes()).unwrap();
        many.append(name, HeaderValue::from_static("v"));
    }
    let one_more = trailers(&[("y", "v")]);
    assert!(stream_of(&resp.body).accepts_frame(&world.entries, &one_more));
    let polled = Poll::Ready(Some(Ok::<Frame<Vec<u8>>, String>(Frame::Trailers(many.clone()))));
    let step = world.frame(&mut resp.body, polled);
    assert_eq!(out_trailers(step), many);
    assert!(!stream_of(&resp.body).accepts_frame(&world.entries, &one_more));
    // A name that is there already takes no room.
    let again = trailers(&[("x-0", "w")]);
    assert!(stream_of(&resp.body).accepts_frame(&world.entries, &again));
    world.frame(&mut resp.body, again);
    many.insert("x-0", HeaderValue::from_static("w"));
    assert!(stream_of(&resp.body).accepts_frame(&world.entries, &data(b"a")));
    world.frame(&mut resp.body, end());
    let resp = world.cached(&fut).unwrap();
    assert_eq!(replayed(&mut world, resp).1, many);
}

#[test]
fn names_that_come_again_take_no_room() {
    let mut world = plain();
    let fut = world.call("GET", "/a");
    let mut resp = world.fetch(&fut, 200, "head", 5);
    for value in ["first", "second", "third"] {
        let mut some = HeaderMap::new();
        for i in 0..3300 {
            let name = HeaderName::from_bytes(format!("x-{}", i).as_bytes()).unwrap();
            some.append(name, HeaderValue::from_static(value));
        }
        world.frame(&mut resp.body, Poll::Ready(Some(Ok(Frame::Trailers(some)))));
    }
    world.frame(&mut resp.body, end());
    let resp = world.cached(&fut).unwrap();
    let (_, replayed) = replayed(&mut world, resp);
    assert_eq!(replayed.len(), 3300);
    assert_eq!(replayed["x-3299"], "third");
}

#[test]
fn rejected_request_is_not_cached() {
    let mut world: World<Linear, StatusCode, Method> = world(None, Some(Method::GET));
    let fut = world.call("POST", "/a");
    let mut resp = world.fetch(&fut, 200, "head", 1);
    assert_eq!(stream_of(&resp.body).cache_entry, None);
    world.frame(&mut resp.body, trailers(&[("x-a", "1")]));
    world.stream(&mut resp.body, &[b"a", b"b"]);
    assert!(world.cached(&fut).is_none());
    assert_eq!(stream_of(&resp.body).on_drop(&world.entries, &mut world.invalidator), None);
    assert!(world.invalidator.is_valid(0));
    let fut = world.call("GET", "/a");
    let mut resp = world.fetch(&fut, 200, "head", 1);
    world.stream(&mut resp.body, &[b"a"]);
    assert!(world.cached(&fut).is_some());
}

#[test]
fn rejected_response_is_not_cached() {
    let mut world: World<Linear, std::ops::Range<StatusCode>, Method> =
        world(Some(StatusCode(200)..StatusCode(300)), None);
    let fut = world.call("GET", "/a");
    let mut resp = world.fetch(&fut, 404, "head", 1);
    assert_eq!(stream_of(&resp.body).cache_entry, None);
    let step = world.frame(&mut resp.body, failure());
    assert!(step.wake.is_none());
    assert!(world.cached(&fut).is_none());
    let mut resp = world.fetch(&fut, 299, "head", 1);
    assert_eq!(stream_of(&resp.body).cache_entry, Some(0));
    world.stream(&mut resp.body, &[b"a"]);
    assert!(world.cached(&fut).is_some());
}

#[test]
fn response_predicate_is_not_asked_for_a_rejected_request() {
    let asked = std::cell::Cell::new(0);
    let mut world: World<Linear, _, Method> = world(
        Some(|_: &Answer| {
            asked.set(asked.get() + 1);
            true
        }),
        Some(Method::GET),
    );
    let post = world.call("POST", "/a");
    world.fetch(&post, 200, "head", 1);
    assert_eq!(asked.get(), 0);
    let get = world.call("GET", "/a");
    world.fetch(&get, 200, "head", 1);
    assert_eq!(asked.get(), 1);
}

#[test]
fn services_of_a_layer_have_caches_of_their_own() {
    let layer: CacheLayer<StatusCode, Method> = CacheLayer::new(CacheOptions::new(None, None));
    let mut invalidator = Invalidator::default();
    let mut one: CacheService<Linear, _, _> = layer.layer();
    let mut other: CacheService<Linear, _, _> = layer.layer();
    let mut one_entries: Entries<String, u32> = Entries::default();
    let mut other_entries: Entries<String, u32> = Entries::default();
    one.call(&mut one_entries, &mut invalidator, &request("GET", "/a"));
    other.call(&mut other_entries, &mut invalidator, &request("GET", "/a"));
    one.call(&mut one_entries, &mut invalidator, &request("GET", "/b"));
    assert_eq!(one_entries.len(), 2);
    assert_eq!(other_entries.len(), 1);
    // The flags are shared, and an invalidation reaches both services.
    assert_eq!(invalidator.len(), 3);
    invalidator.invalidate(&key("GET", "/a"));
    assert!(!invalidator.is_valid(0));
    assert!(!invalidator.is_valid(1));
    assert!(invalidator.is_valid(2));
    one.call(&mut one_entries, &mut invalidator, &request("GET", "/a"));
    assert!(invalidator.is_valid(0));
    assert!(!invalidator.is_valid(1));
}

#[test]
fn service_with_a_dash_map() {
    let mut world: Plain<DashMap<CacheKey, usize>> = world(None, None);
    let fut = world.call("GET", "/a");
    let mut resp = world.fetch(&fut, 200, "head", 1);
    world.stream(&mut resp.body, &[b"a"]);
    let fut = world.call("GET", "/a");
    assert!(world.cached(&fut).is_some());
    assert_eq!(world.entries.len(), 1);
    // A clone has a copy of the map, and the copies go their own ways.
    let mut copy = world.service.clone();
    world.call("GET", "/b");
    assert_eq!(world.entries.len(), 2);
    copy.call(&mut world.entries, &mut world.invalidator, &request("GET", "/a"));
    assert_eq!(world.entries.len(), 2);
    copy.call(&mut world.entries, &mut world.invalidator, &request("GET", "/b"));
    assert_eq!(world.entries.len(), 3);
}

#[test]
fn requests_of_one_service_leave_the_flags_of_others_alone() {
    let layer: CacheLayer<StatusCode, Method> = CacheLayer::new(CacheOptions::new(None, None));
    let mut invalidator = Invalidator::default();
    let mut one: CacheService<Linear, _, _> = layer.layer();
    let mut other: CacheService<Linear, _, _> = layer.layer();
    let mut one_entries: Entries<String, u32> = Entries::default();
    let mut other_entries: Entries<String, u32> = Entries::default();
    one.call(&mut one_entries, &mut invalidator, &request("GET", "/a"));
    other.call(&mut other_entries, &mut invalidator, &request("GET", "/a"));
    invalidator.invalidate(&key("GET", "/a"));
    for _ in 0..3 {
        one.call(&mut one_entries, &mut invalidator, &request("GET", "/a"));
        one.call(&mut one_entries, &mut invalidator, &request("GET", "/c"));
    }
    assert!(invalidator.is_valid(0));
    assert!(!invalidator.is_valid(1));
}

#[test]
fn there_is_room_for_a_first_request() {
    let mut world = plain();
    assert!(world.service.has_room_for(&world.invalidator, &key("GET", "/a")));
    world.call("GET", "/a");
    assert!(world.service.has_room_for(&world.invalidator, &key("GET", "/a")));
}

#[test]
fn no_op_body_has_ended() {
    let body = NoOpBody::default();
    let polled: FramePoll<Bytes, String> = body.poll_frame();
    assert!(matches!(polled, Poll::Ready(None)));
}
