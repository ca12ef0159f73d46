//! The two headers that make a request a gRPC request: `content-type` and
//! `te: trailers`.

use crate::headers::headers_get_values;
use crate::text::{before, chars_of, from_utf8, split, str_eq, string_from, to_lower, trim};
use trillium_http::Headers;
use vstd::prelude::*;

verus! {

/// The media type of a content-type value: what stands before the first `;`,
/// without surrounding white space.
pub open spec fn media_type(value: Seq<char>) -> Seq<char> {
    crate::text::trimmed(crate::text::before_first(crate::text::trimmed(value), ';'))
}

/// The codec suffix of a gRPC content-type; nothing if the value is not one.
pub open spec fn content_suffix(value: Seq<char>) -> Option<Seq<char>> {
    let t = media_type(value);
    let n = "application/grpc"@.len() as int;
    if t.len() < n || crate::text::lower(t.take(n)) != "application/grpc"@ {
        None
    } else if t.len() == n {
        Some("proto"@)
    } else if t[n] == '+' {
        Some(t.skip(n + 1))
    } else {
        None
    }
}

/// Parse a gRPC content-type header.
///
/// Returns `Some(suffix)` if the value is a valid gRPC content-type. The bare
/// `application/grpc` returns `Some("proto")`, since it is an alias for
/// `application/grpc+proto`.
///
/// Examples:
/// - `application/grpc` gives `Some("proto")`
/// - `application/grpc+proto` gives `Some("proto")`
/// - `application/grpc+json` gives `Some("json")`
/// - `application/grpc+json; charset=utf-8` gives `Some("json")` (parameters ignored)
/// - `application/json` gives `None`
pub fn parse_grpc_content_type(value: &str) -> (r: Option<String>)
    ensures
        r is Some <==> content_suffix(value@) is Some,
        r is Some ==> content_suffix(value@) == Some(r->0@),
{
    let value = trim(value);
    let head = before(value.as_str(), ';');
    let media = trim(head.as_str());
    let chars = chars_of(media.as_str());
    proof {
        reveal_strlit("application/grpc");
    }
    let n: usize = 16;
    if chars.len() < n {
        return None;
    }
    let start = string_from(&chars, 0, n);
    assert(start@ =~= media@.take(n as int));
    if !str_eq(to_lower(start.as_str()).as_str(), "application/grpc") {
        return None;
    }
    if chars.len() == n {
        return Some("proto".to_owned());
    }
    if chars[n] == '+' {
        let suffix = string_from(&chars, n + 1, chars.len());
        assert(suffix@ =~= media@.skip(n + 1));
        return Some(suffix);
    }
    None
}

/// Whether the text is a comma-separated list with the element `trailers`, in
/// any case and with any white space around it.
pub open spec fn lists_trailers(text: Seq<char>) -> bool {
    exists|i: int|
        0 <= i < crate::text::split_on(text, ',').len() && #[trigger] is_trailers(
            crate::text::split_on(text, ',')[i],
        )
}

/// Whether a list element is `trailers`.
pub open spec fn is_trailers(token: Seq<char>) -> bool {
    crate::text::lower(crate::text::trimmed(token)) == "trailers"@
}

/// Whether header bytes are text that lists `trailers`.
pub open spec fn value_lists_trailers(value: Seq<u8>) -> bool {
    vstd::utf8::valid_utf8(value) && lists_trailers(vstd::utf8::decode_utf8(value))
}

/// Whether a header map carries `te: trailers`.
pub open spec fn te_trailers(m: Map<Seq<char>, Seq<Seq<u8>>>) -> bool {
    exists|i: int|
        0 <= i < crate::headers::values_of(m, "te"@).len() && value_lists_trailers(
            #[trigger] crate::headers::values_of(m, "te"@)[i],
        )
}

fn text_lists_trailers(text: &str) -> (r: bool)
    ensures
        r == lists_trailers(text@),
{
    let tokens = split(text, ',');
    let mut i: usize = 0;
    while i < tokens.len()
        invariant
            crate::text::texts(tokens@) == crate::text::split_on(text@, ','),
            i <= tokens@.len(),
            forall|j: int|
                0 <= j < i ==> !is_trailers(#[trigger] crate::text::split_on(text@, ',')[j]),
        decreases tokens@.len() - i,
    {
        assert(crate::text::split_on(text@, ',')[i as int] == tokens@[i as int]@);
        let token = trim(tokens[i].as_str());
        if str_eq(to_lower(token.as_str()).as_str(), "trailers") {
            assert(is_trailers(crate::text::split_on(text@, ',')[i as int]));
            return true;
        }
        i = i + 1;
    }
    assert(crate::text::texts(tokens@).len() == tokens@.len());
    false
}

/// Validate that the request carries `te: trailers`. The gRPC HTTP/2 protocol
/// requires this so HTTP/2 intermediaries don't strip response trailers.
///
/// Returns `true` if any value of the `te` header equals `trailers`
/// (case-insensitive). `te` is a list-valued header, so multiple comma-separated
/// values or multiple header lines are both accepted.
pub fn has_te_trailers(headers: &Headers) -> (r: bool)
    ensures
        r == te_trailers(crate::headers::header_map(*headers)),
{
    let values = headers_get_values(headers, "te");
    let ghost all = crate::headers::values_of(crate::headers::header_map(*headers), "te"@);
    let mut i: usize = 0;
    while i < values.len()
        invariant
            crate::headers::bytes_of(values@) == all,
            i <= values@.len(),
            forall|j: int| 0 <= j < i ==> !value_lists_trailers(#[trigger] all[j]),
            all == crate::headers::values_of(crate::headers::header_map(*headers), "te"@),
        decreases values@.len() - i,
    {
        assert(all[i as int] == values@[i as int]@);
        if let Some(text) = from_utf8(values[i].as_slice()) {
            if text_lists_trailers(text.as_str()) {
                assert(value_lists_trailers(all[i as int]));
                return true;
            }
        }
        i = i + 1;
    }
    assert(all.len() == values@.len());
    false
}

} // verus!
