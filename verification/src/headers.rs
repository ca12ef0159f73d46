//! The header map of `trillium-http`: what it holds, and the operations on it
//! that the rest of the library uses.
//!
//! A header map is modelled as a map from the lower-cased header name to the
//! values stored under it, in the order in which they were added.

use crate::text::lower;
use trillium_http::Headers;
use vstd::prelude::*;
use vstd::utf8::{decode_utf8, encode_utf8, valid_utf8};

verus! {

/// The header map type of `trillium-http`.
#[verifier::external_type_specification]
#[verifier::external_body]
pub struct ExHeaders(trillium_http::Headers);

/// What a header map holds: under each lower-cased name, its values.
pub uninterp spec fn header_map(h: Headers) -> Map<Seq<char>, Seq<Seq<u8>>>;

/// The contents of an empty header map.
pub open spec fn no_headers() -> Map<Seq<char>, Seq<Seq<u8>>> {
    Map::empty()
}

/// The values held under `name`, whatever its case; none if the name is absent.
pub open spec fn values_of(m: Map<Seq<char>, Seq<Seq<u8>>>, name: Seq<char>) -> Seq<Seq<u8>> {
    if m.dom().contains(lower(name)) {
        m[lower(name)]
    } else {
        Seq::empty()
    }
}

/// The text of a header that has exactly one value, where that value is UTF-8.
pub open spec fn single_text(m: Map<Seq<char>, Seq<Seq<u8>>>, name: Seq<char>) -> Option<Seq<char>> {
    let values = values_of(m, name);
    if values.len() == 1 && valid_utf8(values[0]) {
        Some(decode_utf8(values[0]))
    } else {
        None
    }
}

/// A header map after `value` has replaced whatever stood under `name`.
pub open spec fn inserted(
    m: Map<Seq<char>, Seq<Seq<u8>>>,
    name: Seq<char>,
    value: Seq<char>,
) -> Map<Seq<char>, Seq<Seq<u8>>> {
    m.insert(lower(name), seq![encode_utf8(value)])
}

/// Wraps `Headers::new`: the map holds nothing.
#[verifier::external_body]
pub(crate) fn headers_new() -> (h: Headers)
    ensures
        header_map(h) == no_headers(),
{
    Headers::new()
}

/// Wraps `Headers::insert` with one text value: whatever stood under the name
/// is replaced by that value; other names keep their values.
#[verifier::external_body]
pub(crate) fn headers_insert(h: &mut Headers, name: &str, value: &str)
    ensures
        header_map(*final(h)) == inserted(header_map(*old(h)), name@, value@),
{
    h.insert(name.to_owned(), value.to_owned());
}

/// Wraps `Headers::append` with one text value: the value goes behind those
/// already under the name; other names keep their values.
#[verifier::external_body]
pub(crate) fn headers_append(h: &mut Headers, name: &str, value: &str)
    ensures
        header_map(*final(h)) == header_map(*old(h)).insert(
            lower(name@),
            values_of(header_map(*old(h)), name@).push(encode_utf8(value@)),
        ),
{
    h.append(name.to_owned(), value.to_owned());
}

/// Wraps `Headers::remove`: nothing stands under the name any more; other
/// names keep their values.
#[verifier::external_body]
pub(crate) fn headers_remove(h: &mut Headers, name: &str)
    ensures
        header_map(*final(h)) == header_map(*old(h)).remove(lower(name@)),
{
    h.remove(name);
}

/// Wraps `Headers::clone`: a header map that holds the same.
#[verifier::external_body]
pub(crate) fn headers_clone(h: &Headers) -> (r: Headers)
    ensures
        header_map(r) == header_map(*h),
{
    h.clone()
}

/// Wraps `Headers::get_str`: the text of the header's value, if it has exactly
/// one and that one is UTF-8.
#[verifier::external_body]
pub(crate) fn headers_get_str(h: &Headers, name: &str) -> (r: Option<String>)
    ensures
        r is Some <==> single_text(header_map(*h), name@) is Some,
        r is Some ==> r->0@ == single_text(header_map(*h), name@)->0,
{
    h.get_str(name).map(|s| s.to_owned())
}

/// The bytes of a list of header values.
pub open spec fn bytes_of(values: Seq<Vec<u8>>) -> Seq<Seq<u8>> {
    Seq::new(values.len(), |i: int| values[i]@)
}

/// Wraps `Headers::get_values`: the bytes of every value under the name, in
/// order; none if the name is absent.
#[verifier::external_body]
pub(crate) fn headers_get_values(h: &Headers, name: &str) -> (r: Vec<Vec<u8>>)
    ensures
        bytes_of(r@) == values_of(header_map(*h), name@),
{
    match h.get_values(name) {
        Some(values) => values.iter().map(|v| AsRef::<[u8]>::as_ref(v).to_vec()).collect(),
        None => Vec::new(),
    }
}

/// Wraps `Headers::iter`: every name once, with its values in order. A name
/// comes in the case in which the map presents it; the order of the names is
/// left open.
#[verifier::external_body]
pub(crate) fn headers_entries(h: &Headers) -> (r: Vec<(String, Vec<Vec<u8>>)>)
    ensures
        forall|i: int|
            0 <= i < r@.len() ==> header_map(*h).dom().contains(lower(#[trigger] r@[i].0@))
                && header_map(*h)[lower(r@[i].0@)] == bytes_of(r@[i].1@),
        forall|i: int, j: int|
            0 <= i < j < r@.len() ==> lower(#[trigger] r@[i].0@) != lower(#[trigger] r@[j].0@),
        forall|k: Seq<char>| #[trigger]
            header_map(*h).dom().contains(k) ==> exists|i: int|
                0 <= i < r@.len() && lower(#[trigger] r@[i].0@) == k,
{
    h.iter()
        .map(|(name, values)| {
            let name: &str = name.as_ref();
            (name.to_owned(), values.iter().map(|v| AsRef::<[u8]>::as_ref(v).to_vec()).collect())
        })
        .collect()
}

} // verus!
