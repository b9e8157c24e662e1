use http::uri::Scheme;
use http::Uri;
use tower_cache::invalidator::Invalidator;
use tower_cache::key::CacheKey;

fn key(uri: &str) -> CacheKey {
    CacheKey { method: http::Method::GET, uri: uri.parse().unwrap() }
}

fn built(scheme: &str) -> CacheKey {
    let scheme: Scheme = scheme.parse().unwrap();
    let uri = Uri::builder().scheme(scheme).authority("a.b").path_and_query("/").build().unwrap();
    CacheKey { method: http::Method::GET, uri }
}

#[test]
fn authorities_are_equal_in_any_case() {
    assert_eq!(key("http://a.b:80/"), key("http://A.b:80/"));
    assert_ne!(key("http://a.b:80/"), key("http://a.b:81/"));
    assert_ne!(key("http://a.b/"), key("/"));
}

#[test]
fn schemes_are_equal_in_any_case() {
    assert_eq!(key("ftp://a.b/"), key("FTP://a.b/"));
    assert_eq!(key("http://a.b/"), key("HTTP://a.b/"));
    assert_ne!(key("http://a.b/"), key("https://a.b/"));
}

#[test]
fn built_schemes_are_set_apart() {
    assert_eq!(built("http"), key("http://a.b/"));
    assert_ne!(built("HTTP"), key("http://a.b/"));
    assert_eq!(built("HTTP"), built("Http"));
}

#[test]
fn paths_and_queries_are_equal_letter_for_letter() {
    assert_eq!(key("/a?b"), key("/a?b"));
    assert_ne!(key("/a?b"), key("/A?b"));
    assert_ne!(key("/a?b"), key("/a?B"));
    assert_ne!(key("/a?"), key("/a"));
    assert_eq!(key("http://a.b"), key("http://a.b/"));
}

#[test]
fn methods_are_equal_letter_for_letter() {
    let of = |method: &str| CacheKey { method: method.parse().unwrap(), uri: "/".parse().unwrap() };
    assert_eq!(of("GET"), of("GET"));
    assert_ne!(of("GET"), of("Get"));
    assert_eq!(of("CUSTOM"), of("CUSTOM"));
    assert_ne!(of("CUSTOM"), of("CUSTOM2"));
    assert_eq!(of("AVERYLONGEXTENSIONMETHOD"), of("AVERYLONGEXTENSIONMETHOD"));
    assert_ne!(of("AVERYLONGEXTENSIONMETHOD"), of("AVERYLONGEXTENSIONMETHODS"));
}

#[test]
fn a_key_and_its_flag_take_no_more_than_128_bytes() {
    assert!(std::mem::size_of::<(CacheKey, bool)>() <= 128);
    assert!(Invalidator::default().has_room());
}
