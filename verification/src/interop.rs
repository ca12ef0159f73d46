//! What the two halves promise each other: the server accepts the head of every
//! request that the client writes, the client accepts the head of every response
//! that the server writes, and each reads from it what the other meant.

use crate::client::conn::{head_refusal, request_headers, response_codec};
use crate::content_type::{
    content_suffix, is_trailers, media_type, te_trailers, value_lists_trailers,
};
use crate::encoding::{token_list, token_round_trip, Encoding};
use crate::headers::{inserted, single_text, values_of};
use crate::metadata::{
    appended, header_metadata, metadata_round_trip, reserved_key, reserved_untouched, valid_entries,
    valid_key, values_for, ValueView,
};
use crate::server::dispatch::{
    accepted_headers, negotiated, preflight_status, request_codec, request_timeout,
};
use crate::text::{before_first, lower, split_on, trimmed, white_space};
use crate::timeout::{longest_timeout, never_tighter, saturation, timeout_text};
use vstd::prelude::*;
use vstd::utf8::{encode_utf8, encode_utf8_decode_utf8, encode_utf8_valid_utf8};

verus! {

/// Whether a codec suffix is one that can stand in a content type: without white
/// space, and without the `;` that starts a parameter.
pub open spec fn plain_suffix(suffix: Seq<char>) -> bool {
    forall|i: int|
        0 <= i < suffix.len() ==> !white_space(#[trigger] suffix[i]) && suffix[i] != ';'
}

/// A text that neither starts nor ends with white space is not trimmed.
proof fn trimmed_is_same(s: Seq<char>)
    requires
        s.len() > 0,
        !white_space(s[0]),
        !white_space(s.last()),
    ensures
        trimmed(s) == s,
{
}

/// A text without `c` has all of itself before the first `c`.
proof fn before_none(s: Seq<char>, c: char)
    requires
        forall|i: int| 0 <= i < s.len() ==> s[i] != c,
    ensures
        before_first(s, c) == s,
    decreases s.len(),
{
    if s.len() > 0 {
        before_none(s.skip(1), c);
        assert(s =~= seq![s[0]] + s.skip(1));
    } else {
        assert(before_first(s, c) =~= s);
    }
}

/// The content type that is written for a suffix is read as that suffix.
pub proof fn content_type_round_trip(suffix: Seq<char>)
    requires
        plain_suffix(suffix),
    ensures
        content_suffix("application/grpc+"@ + suffix) == Some(suffix),
{
    reveal_strlit("application/grpc+");
    reveal_strlit("application/grpc");
    let t = "application/grpc+"@ + suffix;
    assert(t.len() == 17 + suffix.len());
    assert(t[0] == 'a');
    assert(!white_space(t.last())) by {
        if suffix.len() == 0 {
            assert(t.last() == '+');
        } else {
            assert(t.last() == suffix.last());
        }
    }
    assert forall|i: int| 0 <= i < t.len() implies t[i] != ';' by {
        if i >= 17 {
            assert(t[i] == suffix[i - 17]);
        }
    }
    trimmed_is_same(t);
    before_none(t, ';');
    assert(media_type(t) == t);
    assert(lower(t.take(16)) =~= "application/grpc"@);
    assert(t[16] == '+');
    assert(t.skip(17) =~= suffix);
}

/// The header names that both halves use, in lower case.
proof fn names_are_lower()
    ensures
        lower("content-type"@) == "content-type"@,
        lower("te"@) == "te"@,
        lower("grpc-accept-encoding"@) == "grpc-accept-encoding"@,
        lower("grpc-encoding"@) == "grpc-encoding"@,
        lower("grpc-timeout"@) == "grpc-timeout"@,
        "content-type"@ != "te"@,
        "content-type"@ != "grpc-accept-encoding"@,
        "content-type"@ != "grpc-encoding"@,
        "content-type"@ != "grpc-timeout"@,
        "te"@ != "grpc-accept-encoding"@,
        "te"@ != "grpc-encoding"@,
        "te"@ != "grpc-timeout"@,
        "grpc-accept-encoding"@ != "grpc-encoding"@,
        "grpc-accept-encoding"@ != "grpc-timeout"@,
        "grpc-encoding"@ != "grpc-timeout"@,
        reserved_key("content-type"@),
        reserved_key("te"@),
        reserved_key("grpc-accept-encoding"@),
        reserved_key("grpc-encoding"@),
        reserved_key("grpc-timeout"@),
{
    reveal_strlit("content-type");
    reveal_strlit("te");
    reveal_strlit("grpc-accept-encoding");
    reveal_strlit("grpc-encoding");
    reveal_strlit("grpc-timeout");
    reveal_strlit("grpc-");
    assert(lower("content-type"@) =~= "content-type"@);
    assert(lower("te"@) =~= "te"@);
    assert(lower("grpc-accept-encoding"@) =~= "grpc-accept-encoding"@);
    assert(lower("grpc-encoding"@) =~= "grpc-encoding"@);
    assert(lower("grpc-timeout"@) =~= "grpc-timeout"@);
    assert("content-type"@[0] == 'c' && "grpc-timeout"@[0] == 'g');
    assert("content-type"@.len() == 12 && "te"@.len() == 2);
    assert("grpc-accept-encoding"@.len() == 20 && "grpc-encoding"@.len() == 13);
    assert("grpc-timeout"@.len() == 12);
    assert("grpc-accept-encoding"@.take(5) =~= "grpc-"@);
    assert("grpc-encoding"@.take(5) =~= "grpc-"@);
    assert("grpc-timeout"@.take(5) =~= "grpc-"@);
}

/// `te: trailers` is read as what it says.
proof fn te_is_read(m: Map<Seq<char>, Seq<Seq<u8>>>)
    requires
        values_of(m, "te"@) == seq![encode_utf8("trailers"@)],
    ensures
        te_trailers(m),
{
    reveal_strlit("trailers");
    let text = "trailers"@;
    encode_utf8_valid_utf8(text);
    encode_utf8_decode_utf8(text);
    before_none(text, ',');
    trimmed_is_same(text);
    assert(lower(text) =~= text);
    assert(split_on(text, ',') == seq![text]);
    assert(is_trailers(split_on(text, ',')[0]));
    assert(value_lists_trailers(values_of(m, "te"@)[0]));
}

/// The text under a name that was set is the text it was set to.
proof fn single_text_of(m: Map<Seq<char>, Seq<Seq<u8>>>, name: Seq<char>, text: Seq<char>)
    requires
        values_of(m, name) == seq![encode_utf8(text)],
    ensures
        single_text(m, name) == Some(text),
{
    encode_utf8_valid_utf8(text);
    encode_utf8_decode_utf8(text);
}

/// The server accepts every request that the client writes, and reads from it
/// what the client meant: the codec of its messages, a time limit that is not
/// tighter than the client's or is the longest that can be written, and under
/// every key the client's metadata. `m` is what the client sends with every call;
/// where a call's messages are not compressed, that names no codec, and where it
/// has no time limit, none.
pub proof fn request_is_accepted(
    m: Map<Seq<char>, Seq<Seq<u8>>>,
    suffix: Seq<char>,
    outbound: Encoding,
    remaining: Option<nat>,
    metadata: Seq<(Seq<char>, ValueView)>,
    key: Seq<char>,
)
    requires
        plain_suffix(suffix),
        valid_entries(metadata),
        outbound == Encoding::Identity ==> !m.dom().contains("grpc-encoding"@),
        remaining is None ==> !m.dom().contains("grpc-timeout"@),
        valid_key(key) && !reserved_key(key) ==> !m.dom().contains(key),
    ensures
        ({
            let written = request_headers(
                m,
                "application/grpc+"@ + suffix,
                outbound,
                remaining,
                metadata,
            );
            &&& preflight_status(written, suffix) == 200
            &&& request_codec(written) == Ok::<Encoding, crate::status::StatusView>(outbound)
            &&& match remaining {
                None => request_timeout(written) == Ok::<
                    Option<nat>,
                    crate::status::StatusView,
                >(None),
                Some(nanos) => request_timeout(written) matches Ok(Some(limit)) && (nanos <= limit
                    || limit == longest_timeout()),
            }
            &&& header_metadata(written, key) == values_for(metadata, key)
        }),
{
    let content_type = "application/grpc+"@ + suffix;
    let written = request_headers(m, content_type, outbound, remaining, metadata);
    let typed = inserted(m, "content-type"@, content_type);
    let te = inserted(typed, "te"@, "trailers"@);
    let accept = inserted(te, "grpc-accept-encoding"@, token_list(Encoding::ALL@));
    let encoded = if outbound == Encoding::Identity {
        accept
    } else {
        inserted(accept, "grpc-encoding"@, outbound.token())
    };
    let timed = match remaining {
        Some(nanos) => inserted(encoded, "grpc-timeout"@, timeout_text(nanos)),
        None => encoded,
    };
    assert(written == appended(timed, metadata));
    names_are_lower();
    reserved_untouched(timed, metadata, "content-type"@);
    reserved_untouched(timed, metadata, "te"@);
    reserved_untouched(timed, metadata, "grpc-encoding"@);
    reserved_untouched(timed, metadata, "grpc-timeout"@);

    content_type_round_trip(suffix);
    single_text_of(written, "content-type"@, content_type);
    te_is_read(written);

    if outbound != Encoding::Identity {
        single_text_of(written, "grpc-encoding"@, outbound.token());
        token_round_trip(outbound, outbound.token());
    } else {
        assert(values_of(written, "grpc-encoding"@) =~= Seq::empty());
    }
    if let Some(nanos) = remaining {
        single_text_of(written, "grpc-timeout"@, timeout_text(nanos));
        if nanos <= longest_timeout() {
            never_tighter(nanos);
        } else {
            saturation(nanos);
        }
    } else {
        assert(values_of(written, "grpc-timeout"@) =~= Seq::empty());
    }
    if valid_key(key) && !reserved_key(key) {
        assert(!timed.dom().contains(key));
    }
    metadata_round_trip(timed, metadata, key);
}

/// The client accepts the head of every response that the server writes for a
/// request that it has accepted, and takes the codec of its messages to be the one
/// that the server has chosen. `response` is what the server sends with every
/// response; it names no codec of its own.
pub proof fn response_is_accepted(
    response: Map<Seq<char>, Seq<Seq<u8>>>,
    request: Map<Seq<char>, Seq<Seq<u8>>>,
    suffix: Seq<char>,
)
    requires
        plain_suffix(suffix),
        !response.dom().contains("grpc-encoding"@),
    ensures
        head_refusal(Some(200u16), accepted_headers(response, request, suffix)) is None,
        response_codec(accepted_headers(response, request, suffix)) == negotiated(request),
{
    let head = accepted_headers(response, request, suffix);
    let content_type = "application/grpc+"@ + suffix;
    names_are_lower();
    content_type_round_trip(suffix);
    single_text_of(head, "content-type"@, content_type);
    if negotiated(request) == Encoding::Identity {
        assert(values_of(head, "grpc-encoding"@) =~= Seq::empty());
    } else {
        single_text_of(head, "grpc-encoding"@, negotiated(request).token());
        token_round_trip(negotiated(request), negotiated(request).token());
    }
}

} // verus!
