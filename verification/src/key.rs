//! The key under which a response is cached: the method and the URI of the request.

use vstd::prelude::*;

verus! {

/// [`http::Method`], a value that is compared, copied and otherwise only carried.
#[verifier::external_type_specification]
#[verifier::external_body]
pub struct ExMethod(http::Method);

/// [`http::Uri`], a value that is compared, copied and otherwise only carried.
#[verifier::external_type_specification]
#[verifier::external_body]
pub struct ExUri(http::Uri);

/// The name of a method, as `Method::as_str` gives it.
pub uninterp spec fn method_name(method: http::Method) -> Seq<char>;

/// `==` of [`http::Method`]: the names are the same, letter for letter.
#[verifier::external_body]
pub(crate) fn same_method(a: &http::Method, b: &http::Method) -> (same: bool)
    ensures
        same == (method_name(*a) == method_name(*b)),
{
    a == b
}

/// The parts of a URI.
pub struct UriParts {
    /// The scheme.
    pub scheme: Option<Seq<char>>,
    /// The authority.
    pub authority: Option<Seq<char>>,
    /// The path.
    pub path: Seq<char>,
    /// The query.
    pub query: Option<Seq<char>>,
}

/// The parts of a URI, as `Uri::scheme_str`, `Uri::authority`, `Uri::path` and `Uri::query` give them.
pub uninterp spec fn uri_parts(uri: http::Uri) -> UriParts;

/// `text` with every ASCII letter in upper case.
pub open spec fn upper(text: Seq<char>) -> Seq<char> {
    text.map_values(|c: char| if 'a' <= c && c <= 'z' {
        ((c as int) - 32) as char
    } else {
        c
    })
}

/// What schemes that equal each other have in common. The case of the letters does not matter, except
/// that `http` and `https` are set apart from schemes that a builder was given in another case.
pub open spec fn folded_scheme(scheme: Option<Seq<char>>) -> Option<Seq<char>> {
    match scheme {
        Some(name) if name == "http"@ || name == "https"@ => Some(name),
        Some(name) => Some(upper(name)),
        None => None,
    }
}

/// What authorities that equal each other have in common: the case of the letters does not matter.
pub open spec fn folded_authority(authority: Option<Seq<char>>) -> Option<Seq<char>> {
    match authority {
        Some(name) => Some(upper(name)),
        None => None,
    }
}

/// The parts are those of equal URIs.
pub open spec fn same_parts(a: UriParts, b: UriParts) -> bool {
    &&& folded_scheme(a.scheme) == folded_scheme(b.scheme)
    &&& folded_authority(a.authority) == folded_authority(b.authority)
    &&& a.path == b.path
    &&& a.query == b.query
}

/// The URIs are equal.
pub open spec fn same_uris(a: http::Uri, b: http::Uri) -> bool {
    same_parts(uri_parts(a), uri_parts(b))
}

/// `==` of [`http::Uri`]: the paths and the queries are the same, letter for letter; the schemes and
/// the authorities are the same but for the case of their letters.
#[verifier::external_body]
pub(crate) fn same_uri(a: &http::Uri, b: &http::Uri) -> (same: bool)
    ensures
        same == same_parts(uri_parts(*a), uri_parts(*b)),
{
    a == b
}

/// `clone` of [`http::Method`] gives the same method.
#[verifier::external_body]
fn copy_method(method: &http::Method) -> (copy: http::Method)
    ensures
        copy == *method,
{
    method.clone()
}

/// `clone` of [`http::Uri`] gives the same URI.
#[verifier::external_body]
fn copy_uri(uri: &http::Uri) -> (copy: http::Uri)
    ensures
        copy == *uri,
{
    uri.clone()
}

/// The key under which a response is cached.
#[derive(Eq, Hash, Debug)]
pub struct CacheKey {
    /// The method of the request.
    pub method: http::Method,
    /// The URI of the request.
    pub uri: http::Uri,
}

/// The keys are equal: the methods are, and the URIs are.
pub open spec fn same_key(a: CacheKey, b: CacheKey) -> bool {
    method_name(a.method) == method_name(b.method) && same_uris(a.uri, b.uri)
}

impl CacheKey {
    /// Whether the methods are equal and the URIs are equal.
    pub(crate) fn same_as(&self, other: &CacheKey) -> (same: bool)
        ensures
            same == same_key(*self, *other),
    {
        same_method(&self.method, &other.method) && same_uri(&self.uri, &other.uri)
    }
}

impl vstd::std_specs::cmp::PartialEqSpecImpl for CacheKey {
    open spec fn obeys_eq_spec() -> bool {
        true
    }

    open spec fn eq_spec(&self, other: &CacheKey) -> bool {
        same_key(*self, *other)
    }
}

impl PartialEq for CacheKey {
    fn eq(&self, other: &CacheKey) -> (same: bool) {
        self.same_as(other)
    }
}

impl Clone for CacheKey {
    fn clone(&self) -> (copy: CacheKey)
        ensures
            copy == *self,
    {
        CacheKey { method: copy_method(&self.method), uri: copy_uri(&self.uri) }
    }
}

/// A request, as far as caching is concerned: its key, and the rest of it, which only the service
/// that answers it looks into.
pub struct Request<T> {
    /// The method and the URI.
    pub key: CacheKey,
    /// Everything else.
    pub rest: T,
}

}
