//! When keys are equal, said of the calls themselves.

use vstd::prelude::*;

use crate::key::{method_name, same_key, same_uris, upper, uri_parts, CacheKey};

verus! {

/// Equal keys have the same method, letter for letter, and equal URIs, and keys with the same method
/// and equal URIs are equal.
pub proof fn law_keys_are_equal_by_method_and_uri(a: CacheKey, b: CacheKey, same: bool)
    requires
        call_ensures(CacheKey::eq, (&a, &b), same),
    ensures
        same <==> method_name(a.method) == method_name(b.method) && same_uris(a.uri, b.uri),
        same == same_key(a, b),
{
}

/// Equal URIs have the same path and the same query, letter for letter. If one has a scheme or an
/// authority so has the other, and these are the same but for the case of their letters.
pub proof fn law_equal_uris_differ_in_case_only(a: http::Uri, b: http::Uri)
    requires
        same_uris(a, b),
    ensures
        uri_parts(a).path == uri_parts(b).path,
        uri_parts(a).query == uri_parts(b).query,
        uri_parts(a).scheme is Some <==> uri_parts(b).scheme is Some,
        uri_parts(a).scheme is Some ==> upper(uri_parts(a).scheme->0) == upper(
            uri_parts(b).scheme->0,
        ) || uri_parts(a).scheme == uri_parts(b).scheme,
        uri_parts(a).authority is Some <==> uri_parts(b).authority is Some,
        uri_parts(a).authority is Some ==> upper(uri_parts(a).authority->0) == upper(
            uri_parts(b).authority->0,
        ),
{
}

/// Whether an authority is written in upper or in lower case, and likewise a scheme that is neither
/// `http` nor `https`, does not matter: URIs that differ in nothing else are equal.
pub proof fn law_case_of_scheme_and_authority_does_not_matter(a: http::Uri, b: http::Uri)
    requires
        uri_parts(a).path == uri_parts(b).path,
        uri_parts(a).query == uri_parts(b).query,
        uri_parts(a).scheme == uri_parts(b).scheme || {
            &&& uri_parts(a).scheme is Some
            &&& uri_parts(b).scheme is Some
            &&& uri_parts(a).scheme->0 != "http"@ && uri_parts(a).scheme->0 != "https"@
            &&& uri_parts(b).scheme->0 != "http"@ && uri_parts(b).scheme->0 != "https"@
            &&& upper(uri_parts(a).scheme->0) == upper(uri_parts(b).scheme->0)
        },
        uri_parts(a).authority == uri_parts(b).authority || {
            &&& uri_parts(a).authority is Some
            &&& uri_parts(b).authority is Some
            &&& upper(uri_parts(a).authority->0) == upper(uri_parts(b).authority->0)
        },
    ensures
        same_uris(a, b),
{
}

/// Texts are the same but for the case of their letters if and only if they are equally long and
/// differ, where they do, by a letter in upper and the same letter in lower case.
pub proof fn law_case_is_that_of_letters(a: Seq<char>, b: Seq<char>)
    ensures
        upper(a) == upper(b) <==> a.len() == b.len() && forall|i: int|
            0 <= i < a.len() ==> {
                ||| #[trigger] a[i] == b[i]
                ||| 'a' <= a[i] <= 'z' && b[i] as int == a[i] as int - 32
                ||| 'a' <= b[i] <= 'z' && a[i] as int == b[i] as int - 32
            },
{
    if upper(a) == upper(b) {
        assert(upper(a).len() == a.len() && upper(b).len() == b.len());
        assert forall|i: int| 0 <= i < a.len() implies {
            ||| #[trigger] a[i] == b[i]
            ||| 'a' <= a[i] <= 'z' && b[i] as int == a[i] as int - 32
            ||| 'a' <= b[i] <= 'z' && a[i] as int == b[i] as int - 32
        } by {
            assert(upper(a)[i] == upper(b)[i]);
        }
    }
    if a.len() == b.len() && forall|i: int|
        0 <= i < a.len() ==> {
            ||| #[trigger] a[i] == b[i]
            ||| 'a' <= a[i] <= 'z' && b[i] as int == a[i] as int - 32
            ||| 'a' <= b[i] <= 'z' && a[i] as int == b[i] as int - 32
        } {
        assert forall|i: int| 0 <= i < a.len() implies upper(a)[i] == upper(b)[i] by {
            assert(a[i] == a[i]);
        }
        assert(upper(a) =~= upper(b));
    }
}

/// URIs with the same parts are equal.
pub proof fn law_uris_with_the_same_parts_are_equal(a: http::Uri, b: http::Uri)
    requires
        uri_parts(a).scheme == uri_parts(b).scheme,
        uri_parts(a).authority == uri_parts(b).authority,
        uri_parts(a).path == uri_parts(b).path,
        uri_parts(a).query == uri_parts(b).query,
    ensures
        same_uris(a, b),
{
}

/// A clone of a key is the same key, and equals it.
pub proof fn law_clone_of_a_key_equals_it(key: CacheKey, copy: CacheKey)
    requires
        call_ensures(CacheKey::clone, (&key,), copy),
    ensures
        copy == key,
        same_key(copy, key),
{
}

}
