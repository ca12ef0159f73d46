//! Laws of the headers that make a request a gRPC request.

use super::text::{before_ends, blank, free_of, padding_is_trimmed, tight};
use super::{lacks, lower_case, lower_case_is_kept};
use crate::content_type::{
    content_suffix, has_te_trailers, is_trailers, lists_trailers, media_type,
    parse_grpc_content_type, te_trailers, value_lists_trailers,
};
use crate::headers::{header_map, values_of};
use crate::text::{lower, split_on, trimmed, white_space};
use trillium_http::Headers;
use vstd::prelude::*;
use vstd::utf8::encode_utf8;

verus! {

/// Whether a content-type value is the media type `t`: with any white space around it,
/// and with any parameters behind a `;`.
pub open spec fn names_media(value: Seq<char>, t: Seq<char>) -> bool {
    &&& tight(t)
    &&& free_of(t, ';')
    &&& exists|a: Seq<char>, b: Seq<char>, p: Seq<char>| #[trigger] padded(value, t, a, b, p)
}

/// Whether a value is `t` between the white space `a` and `b`, alone or with the
/// parameters `p`.
pub open spec fn padded(
    value: Seq<char>,
    t: Seq<char>,
    a: Seq<char>,
    b: Seq<char>,
    p: Seq<char>,
) -> bool {
    &&& blank(a)
    &&& blank(b)
    &&& (value == a + t + b || value == a + t + b + seq![';'] + p)
}

/// Any text is a text that does not end in white space, and then white space.
proof fn end_split(p: Seq<char>) -> (q: int)
    ensures
        0 <= q <= p.len(),
        blank(p.skip(q)),
        q > 0 ==> !white_space(p[q - 1]),
    decreases p.len(),
{
    if p.len() == 0 {
        0
    } else if white_space(p.last()) {
        let q = end_split(p.drop_last());
        assert forall|i: int| 0 <= i < p.skip(q).len() implies white_space(
            #[trigger] p.skip(q)[i],
        ) by {
            if i < p.len() - 1 - q {
                assert(p.drop_last().skip(q)[i] == p.skip(q)[i]);
            }
        }
        q
    } else {
        p.len() as int
    }
}

proof fn blank_has_no_semicolon(b: Seq<char>)
    requires
        blank(b),
    ensures
        free_of(b, ';'),
{
    assert forall|i: int| 0 <= i < b.len() implies #[trigger] b[i] != ';' by {
        assert(white_space(b[i]));
    }
}

proof fn both_blank(a: Seq<char>, b: Seq<char>)
    requires
        blank(a),
        blank(b),
    ensures
        blank(a + b),
{
    assert forall|i: int| 0 <= i < (a + b).len() implies white_space(#[trigger] (a + b)[i]) by {
        if i < a.len() {
            assert((a + b)[i] == a[i]);
        } else {
            assert((a + b)[i] == b[i - a.len()]);
        }
    }
}

/// The media type of a value is found whatever stands around it.
pub proof fn media_is_found(value: Seq<char>, t: Seq<char>)
    requires
        names_media(value, t),
    ensures
        media_type(value) == t,
{
    let (a, b, p) = choose|a: Seq<char>, b: Seq<char>, p: Seq<char>| #[trigger]
        padded(value, t, a, b, p);
    let none = Seq::<char>::empty();
    blank_has_no_semicolon(b);
    assert(none + t + none =~= t);
    padding_is_trimmed(none, t, none);
    if value == a + t + b {
        padding_is_trimmed(a, t, b);
        before_ends(t, ';', none);
    } else {
        let q = end_split(p);
        let end = p.skip(q);
        if t.len() == 0 {
            let core = seq![';'] + p.take(q);
            both_blank(a, b);
            assert(value =~= (a + b) + core + end);
            assert(core.last() == (if q > 0 {
                p[q - 1]
            } else {
                ';'
            }));
            padding_is_trimmed(a + b, core, end);
            assert(core =~= none.push(';') + p.take(q));
            before_ends(none, ';', p.take(q));
            assert(t =~= none);
        } else {
            let core = t + b + seq![';'] + p.take(q);
            assert(value =~= a + core + end);
            assert(core[0] == t[0]);
            assert(core.last() == (if q > 0 {
                p[q - 1]
            } else {
                ';'
            }));
            padding_is_trimmed(a, core, end);
            assert(core =~= (t + b).push(';') + p.take(q));
            assert(free_of(t + b, ';')) by {
                assert forall|i: int| 0 <= i < (t + b).len() implies #[trigger] (t + b)[i]
                    != ';' by {
                    if i < t.len() {
                        assert((t + b)[i] == t[i]);
                    } else {
                        assert((t + b)[i] == b[i - t.len()]);
                    }
                }
            }
            before_ends(t + b, ';', p.take(q));
            assert(none + t + b =~= t + b);
            padding_is_trimmed(none, t, b);
        }
    }
}

/// `application/grpc`, in any case, is a gRPC content type, and stands for the codec
/// `proto`.
pub proof fn the_bare_type_is_proto(value: &str, t: Seq<char>, r: Option<String>)
    requires
        call_ensures(parse_grpc_content_type, (value,), r),
        names_media(value@, t),
        lower(t) == "application/grpc"@,
    ensures
        r matches Some(suffix) && suffix@ == "proto"@,
{
    bare_suffix(value@, t);
}

/// `application/grpc`, in any case, stands for the codec `proto`.
pub proof fn bare_suffix(value: Seq<char>, t: Seq<char>)
    requires
        names_media(value, t),
        lower(t) == "application/grpc"@,
    ensures
        content_suffix(value) == Some("proto"@),
{
    media_is_found(value, t);
    assert(lower(t).len() == t.len());
    assert(t.take(t.len() as int) =~= t);
}

/// `application/grpc+`, in any case, is followed by the codec.
pub proof fn the_suffix_is_the_codec(
    value: &str,
    t: Seq<char>,
    start: Seq<char>,
    suffix: Seq<char>,
    r: Option<String>,
)
    requires
        call_ensures(parse_grpc_content_type, (value,), r),
        names_media(value@, t),
        t == start + seq!['+'] + suffix,
        lower(start) == "application/grpc"@,
    ensures
        r matches Some(found) && found@ == suffix,
{
    plus_suffix(value@, t, start, suffix);
}

/// `application/grpc+`, in any case, is followed by the codec.
pub proof fn plus_suffix(value: Seq<char>, t: Seq<char>, start: Seq<char>, suffix: Seq<char>)
    requires
        names_media(value, t),
        t == start + seq!['+'] + suffix,
        lower(start) == "application/grpc"@,
    ensures
        content_suffix(value) == Some(suffix),
{
    media_is_found(value, t);
    let n = "application/grpc"@.len() as int;
    assert(lower(start).len() == start.len());
    assert(t.take(n) =~= start);
    assert(t[n] == '+');
    assert(t.skip(n + 1) =~= suffix);
}

/// No other content type is taken for gRPC.
pub proof fn other_types_are_refused(value: &str, t: Seq<char>, r: Option<String>)
    requires
        call_ensures(parse_grpc_content_type, (value,), r),
        names_media(value@, t),
        lower(t) != "application/grpc"@,
        forall|start: Seq<char>, suffix: Seq<char>|
            lower(start) == "application/grpc"@ ==> t != #[trigger] (start + seq!['+'] + suffix),
    ensures
        r is None,
{
    media_is_found(value@, t);
    let n = "application/grpc"@.len() as int;
    if r is Some {
        let start = t.take(n);
        if t.len() == n {
            assert(start =~= t);
        } else {
            assert(t =~= start + seq!['+'] + t.skip(n + 1));
        }
    }
}

/// Whether a list element is `trailers`: in any case, with any white space around it.
pub open spec fn trailers_element(element: Seq<char>, a: Seq<char>, t: Seq<char>, b: Seq<char>) -> bool {
    &&& blank(a)
    &&& blank(b)
    &&& element == a + t + b
    &&& lower(t) == "trailers"@
}

proof fn te_name()
    ensures
        lower_case("te"@),
        "te"@.len() == 2,
        "trailers"@.len() == 8,
        forall|t: Seq<char>| #[trigger] lower(t) == "trailers"@ ==> tight(t),
{
    reveal_strlit("te");
    reveal_strlit("trailers");
    assert forall|t: Seq<char>| #[trigger] lower(t) == "trailers"@ implies tight(t) by {
        assert(lower(t).len() == t.len());
        assert(lower(t)[0] == 't');
        assert(lower(t)[7] == 's');
        if white_space(t[0]) {
            assert(lower(t)[0] == t[0]);
        }
        if white_space(t[7]) {
            assert(lower(t)[7] == t[7]);
        }
    }
}

/// `te: trailers` is seen in any value of the header, at any place of its list.
pub proof fn trailers_are_seen(
    h: &Headers,
    at: int,
    text: Seq<char>,
    element: int,
    a: Seq<char>,
    t: Seq<char>,
    b: Seq<char>,
    r: bool,
)
    requires
        call_ensures(has_te_trailers, (h,), r),
        header_map(*h).dom().contains("te"@),
        0 <= at < header_map(*h)["te"@].len(),
        header_map(*h)["te"@][at] == encode_utf8(text),
        0 <= element < split_on(text, ',').len(),
        trailers_element(split_on(text, ',')[element], a, t, b),
    ensures
        r,
{
    te_name();
    lower_case_is_kept("te"@);
    vstd::utf8::encode_utf8_valid_utf8(text);
    vstd::utf8::encode_utf8_decode_utf8(text);
    padding_is_trimmed(a, t, b);
    assert(is_trailers(split_on(text, ',')[element]));
    assert(value_lists_trailers(values_of(header_map(*h), "te"@)[at]));
}

/// A request without the header has no `te: trailers`, nor has one in which no element
/// of a value is `trailers`.
pub proof fn missing_trailers_are_missed(h: &Headers, r: bool)
    requires
        call_ensures(has_te_trailers, (h,), r),
        lacks(*h, "te"@) || forall|at: int, element: int|
            0 <= at < header_map(*h)["te"@].len() && 0 <= element < split_on(
                vstd::utf8::decode_utf8(header_map(*h)["te"@][at]),
                ',',
            ).len() ==> lower(
                trimmed(
                    #[trigger] split_on(
                        vstd::utf8::decode_utf8(header_map(*h)["te"@][at]),
                        ',',
                    )[element],
                ),
            ) != "trailers"@,
    ensures
        !r,
{
    te_name();
    lower_case_is_kept("te"@);
    if r {
        let values = values_of(header_map(*h), "te"@);
        let at = choose|i: int| 0 <= i < values.len() && value_lists_trailers(#[trigger] values[i]);
        let text = vstd::utf8::decode_utf8(values[at]);
        assert(lists_trailers(text));
        let element = choose|i: int|
            0 <= i < split_on(text, ',').len() && #[trigger] is_trailers(split_on(text, ',')[i]);
        assert(is_trailers(split_on(text, ',')[element]));
    }
}

} // verus!
