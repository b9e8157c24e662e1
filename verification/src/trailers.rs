//! What the cache needs of [`http::HeaderMap`], which holds the trailers of a body.

use vstd::prelude::*;

verus! {

/// [`http::HeaderMap`], a map from header names to one or more values each.
#[verifier::external_type_specification]
#[verifier::external_body]
#[verifier::reject_recursive_types(T)]
pub struct ExHeaderMap<T>(http::HeaderMap<T>);

/// [`http::HeaderValue`], the values in a header map.
#[verifier::external_type_specification]
#[verifier::external_body]
pub struct ExHeaderValue(http::HeaderValue);

/// [`http::HeaderName`], the names in a header map.
#[verifier::external_type_specification]
#[verifier::external_body]
pub struct ExHeaderName(http::HeaderName);

/// The text of a header name, as `HeaderName::as_str` gives it.
pub uninterp spec fn name_text(name: http::HeaderName) -> Seq<char>;

/// The texts of a row of header names.
pub open spec fn name_texts(names: Seq<&http::HeaderName>) -> Seq<Seq<char>> {
    names.map_values(|name: &http::HeaderName| name_text(*name))
}

/// Headers in the abstract: for each name, its values in the order in which they were added.
pub type Headers = Map<Seq<char>, Seq<Seq<u8>>>;

/// What a header map holds.
pub uninterp spec fn header_values(map: http::HeaderMap<http::HeaderValue>) -> Headers;

/// How many names a map may have when it has been extended by another. A header map
/// doubles its table when it is full or, while it sees many collisions, when it is a fifth full, and
/// panics where the table would grow past 32768 slots.
pub const MAX_NAMES: usize = 6553;

/// There is room for the headers `more` beside the headers `held`.
pub open spec fn headers_fit(held: Headers, more: Headers) -> bool {
    held.dom().union(more.dom()).len() <= MAX_NAMES
}

/// `HeaderMap::new`: a map without a header.
#[verifier::external_body]
pub(crate) fn new_headers() -> (map: http::HeaderMap)
    ensures
        header_values(map) == Headers::empty(),
{
    http::HeaderMap::new()
}

/// `HeaderMap::keys`: every name in the map, once.
#[verifier::external_body]
fn names_of(map: &http::HeaderMap) -> (names: Vec<&http::HeaderName>)
    ensures
        name_texts(names@).no_duplicates(),
        name_texts(names@).to_set() == header_values(*map).dom(),
{
    map.keys().collect()
}

/// `HeaderMap::contains_key`: whether the map has values for the name.
#[verifier::external_body]
fn has_name(map: &http::HeaderMap, name: &http::HeaderName) -> (has: bool)
    ensures
        has == header_values(*map).dom().contains(name_text(*name)),
{
    map.contains_key(name)
}

/// Whether there is room for the headers `more` beside the headers `held`.
pub(crate) fn have_room(held: &http::HeaderMap, more: &http::HeaderMap) -> (fit: bool)
    ensures
        fit == headers_fit(header_values(*held), header_values(*more)),
{
    let held_names = names_of(held);
    let names = names_of(more);
    let ghost before = header_values(*held).dom();
    let ghost texts = name_texts(names@);
    let ghost all = before.union(header_values(*more).dom());
    proof {
        name_texts(held_names@).unique_seq_to_set();
        vstd::seq_lib::seq_to_set_is_finite(name_texts(held_names@));
        vstd::seq_lib::seq_to_set_is_finite(texts);
        vstd::set_lib::lemma_len_subset(before, all);
    }
    if held_names.len() > MAX_NAMES {
        return false;
    }
    let mut room: usize = MAX_NAMES - held_names.len();
    let mut i: usize = 0;
    assert(before.union(texts.take(0).to_set()) =~= before);
    while i < names.len()
        invariant
            i <= names.len(),
            texts == name_texts(names@),
            texts.no_duplicates(),
            texts.to_set() == header_values(*more).dom(),
            before == header_values(*held).dom(),
            before.finite(),
            all == before.union(header_values(*more).dom()),
            all.finite(),
            room <= MAX_NAMES,
            before.union(texts.take(i as int).to_set()).len() + room == MAX_NAMES,
        decreases names.len() - i,
    {
        let ghost seen = texts.take(i as int).to_set();
        let ghost next = texts.take(i + 1).to_set();
        proof {
            vstd::seq_lib::seq_to_set_is_finite(texts.take(i as int));
            assert(texts.take(i + 1) =~= texts.take(i as int).push(texts[i as int]));
            texts.take(i as int).lemma_push_to_set_commute(texts[i as int]);
            assert(!seen.contains(texts[i as int]));
            assert(before.union(next) =~= before.union(seen).insert(texts[i as int]));
            assert(before.union(next).subset_of(all)) by {
                assert(texts.contains(texts[i as int]));
            }
            vstd::set_lib::lemma_len_subset(before.union(next), all);
        }
        if !has_name(held, names[i]) {
            if room == 0 {
                return false;
            }
            room -= 1;
        }
        i += 1;
    }
    assert(texts.take(names.len() as int) =~= texts);
    true
}

/// `HeaderMap::extend` with the contents of another map: every name of the other map has the values
/// that it has there, which replace those that it had; every other name keeps its values.
#[verifier::external_body]
pub(crate) fn extend_headers(map: &mut http::HeaderMap, other: http::HeaderMap)
    requires
        headers_fit(header_values(*old(map)), header_values(other)),
    ensures
        header_values(*final(map)) == header_values(*old(map)).union_prefer_right(
            header_values(other),
        ),
{
    map.extend(other)
}

/// `clone` of a header map holds the same headers.
#[verifier::external_body]
pub(crate) fn copy_headers(map: &http::HeaderMap) -> (copy: http::HeaderMap)
    ensures
        header_values(copy) == header_values(*map),
{
    map.clone()
}

}
