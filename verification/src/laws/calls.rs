//! Laws of the calls that a client makes, and of its configuration.

use super::client::http_code;
use super::encoding::{all_tokens, named, wire_name};
use super::metadata::{for_bytes, free, key_rules, plain_text};
use super::status::{has_number, number_text, states};
use super::timeout::{lasts, written_as};
use super::{absent_text_is_none, carried_text_is_read, carries, lacks, lower_case, lower_case_is_kept};
use crate::client::conn::{configured_encoding, ClientView, Phase};
use crate::client::dispatch::{
    deadline_from_client, extract_response_encoding, finish_with_trailers, grpc_request,
    open_upgrade, outbound_encoding_from_client, read_loop, read_one_response, trailers_only, validate_response_headers, LoopStep, OpenUpgrade,
};
use crate::client::service_client::{configured_timeout, ClientDefaults, ServiceClient, ServiceClientExt};
use crate::client::typed::{
    stream_item, BidiConn, StreamingConn, UnaryConn, UnaryRead, UnaryStep,
};
use crate::client::{with_service_prefix, without_trailing_slashes};
use crate::codec::{encodes, suffixed, Codec};
use crate::content_type::parse_grpc_content_type;
use crate::encoding::Encoding;
use crate::headers::{header_map, inserted};
use crate::metadata::ValueView;
use crate::status::{verdict, Code, Status, StatusView};
use crate::text::{debug_quoted, decimal, digits_value};
use crate::timeout::{nanos_of, timeout_text};
use core::time::Duration;
use trillium_http::Headers;
use vstd::prelude::*;

verus! {

// ---------------------------------------------------------------------------
// One response

/// A unary call has exactly one response: the message that came, once the stream has
/// ended behind it with success. None, or more than one, is an `Internal` error, and a
/// stream that ends with an error has that error.
pub proof fn exactly_one_response<Resp>(
    first: UnaryRead<Resp>,
    a: Result<Option<Resp>, Status>,
    then: UnaryStep<Resp>,
    b: Result<Option<Resp>, Status>,
    r: UnaryStep<Resp>,
)
    requires
        call_ensures(UnaryRead::<Resp>::new, (), first),
        call_ensures(UnaryRead::<Resp>::received, (first, a), then),
        then matches UnaryStep::Receive(second) ==> call_ensures(
            UnaryRead::<Resp>::received,
            (second, b),
            r,
        ),
    ensures
        a matches Ok(None) ==> (then matches UnaryStep::Done(None, Err(s)) && states(
            s,
            Code::Internal,
            "unary response had no message"@,
        )),
        a matches Err(s) ==> then == UnaryStep::<Resp>::Done(None, Err(s)),
        a matches Ok(Some(message)) ==> then is Receive && match b {
            Ok(None) => r == UnaryStep::Done(Some(message), Ok(())),
            Ok(Some(_)) => r matches UnaryStep::Done(None, Err(s)) && states(
                s,
                Code::Internal,
                "unary response had multiple messages"@,
            ),
            Err(s) => r matches UnaryStep::Done(_, Err(e)) && e == s,
        },
{
    if let UnaryStep::Done(_, Err(e)) = then {
        assert(e@.code == e.code);
    }
    if let UnaryStep::Done(_, Err(e)) = r {
        assert(e@.code == e.code);
    }
}

/// What a unary call has come to is what it reports: its message where it has
/// succeeded, and its error where it has not.
pub proof fn outcomes_are_reported<C, Req, Resp>(
    call: UnaryConn<C, Req, Resp>,
    message: Option<&Resp>,
    status: Result<(), Status>,
    r: Result<Resp, Status>,
)
    requires
        call_ensures(UnaryConn::<C, Req, Resp>::message, (&call,), message),
        call_ensures(UnaryConn::<C, Req, Resp>::status, (&call,), status),
        call_ensures(UnaryConn::<C, Req, Resp>::into_message, (call,), r),
    ensures
        call.outcome() matches Some((Some(m), Ok(()))) ==> message == Some(&m) && status is Ok && r
            == Ok::<Resp, Status>(m),
        call.outcome() matches Some((_, Err(s))) ==> message is None && (status matches Err(e) && e@
            == s@) && r == Err::<Resp, Status>(s),
        call.outcome() matches Some((None, Ok(()))) ==> message is None && status is Ok && (
        r matches Err(e) && states(e, Code::Internal, "unary response had no message"@)),
        call.outcome() is None ==> message is None && status is Ok && (r matches Err(e) && states(
            e,
            Code::Internal,
            "call has not been awaited"@,
        )),
{
    if let Err(e) = r {
        assert(e@.code == e.code);
    }
}

/// What is recorded of a unary call is its outcome.
pub proof fn outcomes_are_recorded<C, Req, Resp>(
    call: &mut UnaryConn<C, Req, Resp>,
    message: Option<Resp>,
    status: Result<(), Status>,
)
    requires
        call_ensures(UnaryConn::<C, Req, Resp>::finish, (call, message, status), ()),
    ensures
        final(call).outcome() == Some((message, status)),
        final(call).call() == old(call).call(),
{
}

/// Whether a call has been made ready with a single request: in its body as the frame
/// of its encoding, or as the error that the call is to fail with.
pub open spec fn ready_with<C: Codec<Req>, Req>(call: ClientView, request: Req, e: Encoding) -> bool {
    &&& call.outbound == e
    &&& !call.full_duplex
    &&& exists|suffix: Seq<char>| #[trigger]
        suffixed::<C, Req>(suffix) && call.content_type == "application/grpc+"@ + suffix
    &&& exists|payload: Result<Seq<u8>, StatusView>| #[trigger]
        encodes::<C, Req>(request, payload) && match payload {
            Err(s) => call.init_error == Some(s),
            Ok(bytes) => match crate::frame::writer::framed(bytes, e) {
                Err(s) => call.init_error == Some(s),
                Ok(frame) => call.init_error is None && call.phase == (Phase::Pending {
                    metadata: Seq::empty(),
                    body: frame,
                    send_closed: false,
                }),
            },
        }
}

proof fn made_ready<C: Codec<Req>, Req>(
    suffix: Seq<char>,
    m: Map<Seq<char>, Seq<Seq<u8>>>,
    request: Req,
    call: ClientView,
    e: Encoding,
)
    requires
        suffixed::<C, Req>(suffix),
        crate::client::typed::with_request::<C, Req>(
            crate::client::typed::fresh_call(suffix, m, false),
            request,
            call,
        ),
        e == crate::client::conn::configured_codec(m),
    ensures
        ready_with::<C, Req>(call, request, e),
{
    let before = crate::client::typed::fresh_call(suffix, m, false);
    let payload = choose|payload: Result<Seq<u8>, StatusView>| #[trigger]
        encodes::<C, Req>(request, payload) && match crate::server::body::framed_payload(
            payload,
            before.outbound,
        ) {
            Ok(frame) => call == (ClientView {
                phase: Phase::Pending {
                    metadata: Seq::empty(),
                    body: frame,
                    send_closed: false,
                },
                ..before
            }),
            Err(s) => call == (ClientView { init_error: Some(s), ..before }),
        };
    assert(encodes::<C, Req>(request, payload));
    assert(suffixed::<C, Req>(suffix) && call.content_type == "application/grpc+"@ + suffix);
}

/// A unary call is made ready with its request, compressed as the client's headers say.
pub proof fn unary_calls<C: Codec<Req> + Codec<Resp>, Req, Resp>(
    defaults: &Headers,
    request: &Req,
    e: Encoding,
    r: UnaryConn<C, Req, Resp>,
)
    requires
        call_ensures(UnaryConn::<C, Req, Resp>::unary, (defaults, request), r),
        call_ensures(configured_encoding, (defaults,), e),
    ensures
        ready_with::<C, Req>(r.call(), *request, e),
        r.outcome() is None,
{
    let suffix = choose|suffix: Seq<char>| #[trigger]
        suffixed::<C, Req>(suffix) && crate::client::typed::with_request::<C, Req>(
            crate::client::typed::fresh_call(suffix, header_map(*defaults), false),
            *request,
            r.call(),
        );
    made_ready::<C, Req>(suffix, header_map(*defaults), *request, r.call(), e);
}

/// A server-streaming call is made ready with its request, compressed as the client's
/// headers say.
pub proof fn server_streaming_calls<C: Codec<Req> + Codec<Resp>, Req, Resp>(
    defaults: &Headers,
    request: &Req,
    e: Encoding,
    r: StreamingConn<C, Req, Resp>,
)
    requires
        call_ensures(StreamingConn::<C, Req, Resp>::server_streaming, (defaults, request), r),
        call_ensures(configured_encoding, (defaults,), e),
    ensures
        ready_with::<C, Req>(r.call(), *request, e),
{
    let suffix = choose|suffix: Seq<char>| #[trigger]
        suffixed::<C, Req>(suffix) && crate::client::typed::with_request::<C, Req>(
            crate::client::typed::fresh_call(suffix, header_map(*defaults), false),
            *request,
            r.call(),
        );
    made_ready::<C, Req>(suffix, header_map(*defaults), *request, r.call(), e);
}

/// A client-streaming call starts without a request, and does not interleave; a
/// bidirectional one starts without a request, and does.
pub proof fn streaming_calls<C: Codec<Req>, Req, Resp>(
    defaults: &Headers,
    e: Encoding,
    one: UnaryConn<C, Req, Resp>,
    many: BidiConn<C, Req, Resp>,
)
    requires
        call_ensures(UnaryConn::<C, Req, Resp>::client_streaming, (defaults,), one),
        call_ensures(BidiConn::<C, Req, Resp>::bidi, (defaults,), many),
        call_ensures(configured_encoding, (defaults,), e),
    ensures
        one.outcome() is None,
        !one.call().full_duplex,
        many.call().full_duplex,
        one.call().outbound == e,
        many.call().outbound == e,
        one.call().init_error is None && many.call().init_error is None,
        one.call().phase == (Phase::Pending {
            metadata: Seq::empty(),
            body: Seq::empty(),
            send_closed: false,
        }),
        many.call().phase == one.call().phase,
{
}

/// An entry that may be sent is attached to a call that has not been opened, behind the
/// others.
pub proof fn entries_are_attached<C, Req, Resp>(
    call: UnaryConn<C, Req, Resp>,
    key: &str,
    value: &str,
    metadata: Seq<(Seq<char>, ValueView)>,
    body: Seq<u8>,
    closed: bool,
    r: UnaryConn<C, Req, Resp>,
    stream: StreamingConn<C, Req, Resp>,
    s: StreamingConn<C, Req, Resp>,
    bidi: BidiConn<C, Req, Resp>,
    b: BidiConn<C, Req, Resp>,
)
    requires
        call_ensures(UnaryConn::<C, Req, Resp>::with_ascii_metadata, (call, key, value), r),
        call_ensures(StreamingConn::<C, Req, Resp>::with_ascii_metadata, (stream, key, value), s),
        call_ensures(BidiConn::<C, Req, Resp>::with_ascii_metadata, (bidi, key, value), b),
        call.call().phase == (Phase::Pending { metadata, body, send_closed: closed }),
        stream.call().phase == call.call().phase,
        bidi.call().phase == call.call().phase,
        free(key@) && !for_bytes(key@) && plain_text(value@),
    ensures
        r.call().phase == (Phase::Pending {
            metadata: metadata.push((key@, ValueView::Ascii(value@))),
            body,
            send_closed: closed,
        }),
        r.call().init_error == call.call().init_error,
        r.outcome() == call.outcome(),
        s.call().phase == r.call().phase,
        s.call().init_error == stream.call().init_error,
        b.call().phase == r.call().phase,
        b.call().init_error == bidi.call().init_error,
{
    key_rules(key@, value@);
}

/// A binary entry that may be sent is attached to a call that has not been opened,
/// behind the others.
pub proof fn binary_entries_are_attached<C, Req, Resp>(
    call: UnaryConn<C, Req, Resp>,
    key: &str,
    value: Vec<u8>,
    metadata: Seq<(Seq<char>, ValueView)>,
    body: Seq<u8>,
    closed: bool,
    r: UnaryConn<C, Req, Resp>,
    stream: StreamingConn<C, Req, Resp>,
    s: StreamingConn<C, Req, Resp>,
    bidi: BidiConn<C, Req, Resp>,
    b: BidiConn<C, Req, Resp>,
)
    requires
        call_ensures(UnaryConn::<C, Req, Resp>::with_binary_metadata, (call, key, value), r),
        call_ensures(StreamingConn::<C, Req, Resp>::with_binary_metadata, (stream, key, value), s),
        call_ensures(BidiConn::<C, Req, Resp>::with_binary_metadata, (bidi, key, value), b),
        call.call().phase == (Phase::Pending { metadata, body, send_closed: closed }),
        stream.call().phase == call.call().phase,
        bidi.call().phase == call.call().phase,
        free(key@) && for_bytes(key@),
    ensures
        r.call().phase == (Phase::Pending {
            metadata: metadata.push((key@, ValueView::Binary(value@))),
            body,
            send_closed: closed,
        }),
        r.call().init_error == call.call().init_error,
        s.call().phase == r.call().phase,
        b.call().phase == r.call().phase,
{
    key_rules(key@, Seq::empty());
}

/// The metadata of a response is there once its head has come, and its trailers once
/// the call has ended.
pub proof fn response_metadata<C, Req, Resp>(
    call: UnaryConn<C, Req, Resp>,
    head: Option<&Headers>,
    trailers: Option<&Headers>,
)
    requires
        call_ensures(UnaryConn::<C, Req, Resp>::metadata, (&call,), head),
        call_ensures(UnaryConn::<C, Req, Resp>::trailers, (&call,), trailers),
    ensures
        call.call().phase matches Phase::Live { headers, .. } ==> (head matches Some(h)
            && header_map(*h) == headers) && trailers is None,
        call.call().phase matches Phase::Done { headers, trailers: t } ==> (head matches Some(h)
            && header_map(*h) == headers) && (trailers matches Some(h) && header_map(*h) == t),
        call.call().phase is Pending || call.call().phase is Failed ==> head is None
            && trailers is None,
{
}

/// The items of a response stream: its messages, an error, and nothing at its end.
pub proof fn stream_items<Resp>(
    received: Result<Option<Resp>, Status>,
    r: Option<Result<Resp, Status>>,
)
    requires
        call_ensures(stream_item::<Resp>, (received,), r),
    ensures
        r is None <==> received == Ok::<Option<Resp>, Status>(None),
        received matches Ok(Some(m)) ==> r == Some(Ok::<Resp, Status>(m)),
        received matches Err(s) ==> r == Some(Err::<Resp, Status>(s)),
{
}

// ---------------------------------------------------------------------------
// Configuration

proof fn names()
    ensures
        lower_case("grpc-encoding"@),
        lower_case("grpc-timeout"@),
        lower_case("content-type"@),
        lower_case("te"@),
        lower_case("grpc-accept-encoding"@),
        lower_case("grpc-status"@),
        "grpc-encoding"@ != "grpc-timeout"@,
        "content-type"@ != "te"@,
        "content-type"@ != "grpc-accept-encoding"@,
        "te"@ != "grpc-accept-encoding"@,
{
    reveal_strlit("grpc-encoding");
    reveal_strlit("grpc-timeout");
    reveal_strlit("content-type");
    reveal_strlit("te");
    reveal_strlit("grpc-accept-encoding");
    reveal_strlit("grpc-status");
    assert("grpc-encoding"@.len() != "grpc-timeout"@.len());
    assert("content-type"@.len() != "te"@.len());
    assert("content-type"@.len() != "grpc-accept-encoding"@.len());
    assert("te"@.len() != "grpc-accept-encoding"@.len());
}

/// Whether default headers hold one text under a name.
pub open spec fn sends(
    m: Map<Seq<char>, Seq<Seq<u8>>>,
    name: Seq<char>,
    text: Seq<char>,
) -> bool {
    m.dom().contains(name) && m[name] == seq![vstd::utf8::encode_utf8(text)]
}

/// A client that is set to compress sends the codec's name with every call, and one
/// that is set not to sends none; nothing else of what it sends changes, and what was
/// set is what it reports.
pub proof fn compression_is_set<T: ServiceClient>(
    client: T,
    e: Encoding,
    name: Seq<char>,
    other: Seq<char>,
    r: T,
    reported: Encoding,
)
    requires
        call_ensures(<T as ServiceClientExt>::with_outbound_compression, (client, e), r),
        call_ensures(<T as ServiceClientExt>::outbound_compression, (&r,), reported),
        wire_name(e, name),
        other != "grpc-encoding"@,
    ensures
        e != Encoding::Identity ==> sends(r.defaults(), "grpc-encoding"@, name),
        e == Encoding::Identity ==> !r.defaults().dom().contains("grpc-encoding"@),
        r.defaults().dom().contains(other) <==> client.defaults().dom().contains(other),
        r.defaults().dom().contains(other) ==> r.defaults()[other] == client.defaults()[other],
        reported == e,
{
    names();
    lower_case_is_kept("grpc-encoding"@);
    crate::client::service_client::compression_round_trip(client.defaults(), e);
}

/// A client that is set a time limit sends it with every call, in the finest unit that
/// there is room for; zero clears it. Nothing else of what it sends changes, and what it
/// reports is not shorter.
pub proof fn time_limits_are_set<T: ServiceClient>(
    client: T,
    d: Duration,
    other: Seq<char>,
    r: T,
    reported: Option<Duration>,
)
    requires
        call_ensures(<T as ServiceClientExt>::with_default_timeout, (client, d), r),
        call_ensures(<T as ServiceClientExt>::default_timeout, (&r,), reported),
        other != "grpc-timeout"@,
    ensures
        nanos_of(d) > 0 ==> exists|number: nat, unit: char, length: nat| #[trigger]
            written_as(nanos_of(d), number, unit, length) && sends(
                r.defaults(),
                "grpc-timeout"@,
                decimal(number).push(unit),
            ) && (reported matches Some(limit) && nanos_of(limit) == number * length),
        nanos_of(d) == 0 ==> !r.defaults().dom().contains("grpc-timeout"@) && reported is None,
        r.defaults().dom().contains(other) <==> client.defaults().dom().contains(other),
        r.defaults().dom().contains(other) ==> r.defaults()[other] == client.defaults()[other],
{
    names();
    lower_case_is_kept("grpc-timeout"@);
    let nanos = nanos_of(d);
    super::timeout::text_is_written_as(nanos);
    let (number, unit, length) = choose|number: nat, unit: char, length: nat| #[trigger]
        written_as(nanos, number, unit, length) && timeout_text(nanos) == decimal(number).push(
            unit,
        );
    if nanos > 0 {
        crate::timeout::parse_written(number, unit);
        assert(crate::timeout::unit_nanos(unit) == Some(length));
        vstd::utf8::encode_utf8_valid_utf8(timeout_text(nanos));
        vstd::utf8::encode_utf8_decode_utf8(timeout_text(nanos));
        assert(written_as(nanos, number, unit, length));
    }
}

/// The service's path goes behind the path of a client's base URL, between slashes, of
/// which there is one where any number stood at the end.
pub proof fn service_paths(base: &str, prefix: &str, path: Seq<char>, slashes: Seq<char>, r: String)
    requires
        call_ensures(with_service_prefix, (base, prefix), r),
        base@ == path + slashes,
        forall|i: int| 0 <= i < slashes.len() ==> slashes[i] == '/',
        path.len() > 0 ==> path.last() != '/',
    ensures
        r@ == path + "/"@ + prefix@ + "/"@,
{
    slashes_are_cut(path, slashes);
}

proof fn slashes_are_cut(path: Seq<char>, slashes: Seq<char>)
    requires
        forall|i: int| 0 <= i < slashes.len() ==> slashes[i] == '/',
        path.len() > 0 ==> path.last() != '/',
    ensures
        without_trailing_slashes(path + slashes) == path,
    decreases slashes.len(),
{
    if slashes.len() == 0 {
        assert(path + slashes =~= path);
    } else {
        assert((path + slashes).last() == slashes.last());
        assert((path + slashes).drop_last() =~= path + slashes.drop_last());
        slashes_are_cut(path, slashes.drop_last());
    }
}

// ---------------------------------------------------------------------------
// Streams that are opened once

/// The head of an opened stream is valid where its HTTP status is 200 and its content
/// type is one of gRPC; it is refused with the code of the HTTP status, or `Internal`.
pub proof fn stream_heads(
    status: Option<u16>,
    h: &Headers,
    value: &str,
    parsed: Option<String>,
    r: Result<(), Status>,
)
    requires
        call_ensures(validate_response_headers, (status, h), r),
        carries(*h, "content-type"@, value@) || lacks(*h, "content-type"@),
        call_ensures(parse_grpc_content_type, (value,), parsed),
    ensures
        r is Ok <==> status == Some(200u16) && carries(*h, "content-type"@, value@)
            && parsed is Some,
        status != Some(200u16) ==> (r matches Err(s) && http_code(
            match status {
                Some(http) => http,
                None => 0,
            },
            s.code,
        ) && s.message@ == "HTTP "@ + crate::text::decimal(
            match status {
                Some(http) => http as nat,
                None => 0,
            },
        )),
        status == Some(200u16) && lacks(*h, "content-type"@) ==> (r matches Err(s) && states(
            s,
            Code::Internal,
            "unexpected response content-type: "@ + "None"@,
        )),
        status == Some(200u16) && carries(*h, "content-type"@, value@) && parsed is None ==> (
        r matches Err(s) && states(
            s,
            Code::Internal,
            "unexpected response content-type: "@ + ("Some("@ + debug_quoted(value@) + ")"@),
        )),
{
    names();
    if lacks(*h, "content-type"@) {
        absent_text_is_none(*h, "content-type"@);
    } else {
        carried_text_is_read(*h, "content-type"@, value@);
    }
    if let Err(e) = r {
        assert(e@.code == e.code);
    }
}

/// The codec of a stream is the one that its head names; none is no compression, and
/// one that is not known an `Internal` error.
pub proof fn stream_codecs(h: &Headers, name: Seq<char>, e: Encoding, r: Result<Encoding, Status>)
    requires
        call_ensures(extract_response_encoding, (h,), r),
    ensures
        lacks(*h, "grpc-encoding"@) ==> r == Ok::<Encoding, Status>(Encoding::Identity),
        carries(*h, "grpc-encoding"@, name) ==> {
            &&& r == Ok::<Encoding, Status>(e) <==> wire_name(e, name)
            &&& r matches Err(s) ==> states(
                s,
                Code::Internal,
                "server returned unsupported grpc-encoding "@ + debug_quoted(name),
            )
        },
{
    names();
    if lacks(*h, "grpc-encoding"@) {
        absent_text_is_none(*h, "grpc-encoding"@);
    }
    if carries(*h, "grpc-encoding"@, name) {
        carried_text_is_read(*h, "grpc-encoding"@, name);
        named(name, e);
    }
    if let Err(s) = r {
        assert(s@.code == s.code);
    }
}

/// An opened stream has messages in its codec, unless its head carries a status: then
/// it is that status. A head that is not valid is its error.
pub proof fn opened_streams(
    status: Option<u16>,
    h: &Headers,
    valid: Result<(), Status>,
    codec: Result<Encoding, Status>,
    own: Result<(), Status>,
    r: Result<OpenUpgrade, Status>,
)
    requires
        call_ensures(open_upgrade, (status, h), r),
        call_ensures(validate_response_headers, (status, h), valid),
        call_ensures(extract_response_encoding, (h,), codec),
        call_ensures(Status::from_trailers, (h,), own),
    ensures
        valid matches Err(s) ==> (r matches Err(e) && e@ == s@),
        valid is Ok ==> (codec matches Err(s) ==> (r matches Err(e) && e@ == s@)),
        valid is Ok && codec is Ok && lacks(*h, "grpc-status"@) ==> r == Ok::<OpenUpgrade, Status>(
            OpenUpgrade::Streaming(codec->Ok_0),
        ),
        valid is Ok && codec is Ok && (exists|text: Seq<char>| #[trigger]
            carries(*h, "grpc-status"@, text)) ==> (r matches Ok(OpenUpgrade::TrailersOnly(v)) && (
        v is Ok <==> own is Ok) && (v matches Err(e) ==> own matches Err(s) && e.code == s.code
            && e.message@ == s.message@)),
{
    names();
    if lacks(*h, "grpc-status"@) {
        absent_text_is_none(*h, "grpc-status"@);
    }
    if exists|text: Seq<char>| #[trigger] carries(*h, "grpc-status"@, text) {
        let text = choose|text: Seq<char>| #[trigger] carries(*h, "grpc-status"@, text);
        carried_text_is_read(*h, "grpc-status"@, text);
    }
    assert(crate::status::reads_as(header_map(*h), verdict(own)));
}

/// A call that must have messages takes the codec of the stream; a stream without a
/// body is its own error, or `Internal` where it says success.
pub proof fn streams_must_have_messages(opened: OpenUpgrade, r: Result<Encoding, Status>)
    requires
        call_ensures(OpenUpgrade::into_streaming, (opened,), r),
    ensures
        opened matches OpenUpgrade::Streaming(e) ==> r == Ok::<Encoding, Status>(e),
        opened matches OpenUpgrade::TrailersOnly(Err(s)) ==> r == Err::<Encoding, Status>(s),
        opened matches OpenUpgrade::TrailersOnly(Ok(())) ==> (r matches Err(e) && states(
            e,
            Code::Internal,
            "response missing message body"@,
        )),
{
    if let Err(s) = r {
        assert(s@.code == s.code);
    }
}

/// A stream ends with the outcome of its trailers; without any, that is `Internal`.
pub proof fn streams_end(trailers: Option<&Headers>, own: Result<(), Status>, r: Result<(), Status>)
    requires
        call_ensures(finish_with_trailers, (trailers,), r),
        trailers matches Some(h) ==> call_ensures(Status::from_trailers, (h,), own),
    ensures
        trailers is None ==> (r matches Err(s) && states(
            s,
            Code::Internal,
            "stream ended without grpc-status trailer"@,
        )),
        trailers is Some ==> (r is Ok <==> own is Ok) && (r matches Err(e) ==> own matches Err(s)
            && e.code == s.code && e.message@ == s.message@),
{
    if let Err(s) = r {
        assert(s@.code == s.code && s@.message == s.message@);
    }
    if let Some(h) = trailers {
        assert(crate::status::reads_as(header_map(*h), verdict(own)));
        assert(crate::status::reads_as(header_map(*h), verdict(r)));
    }
}

/// The single response of a stream is its only message; another behind it, or none, is
/// an `Internal` error unless the stream has one of its own.
pub proof fn single_messages<Resp>(
    first: Option<Result<Resp, Status>>,
    second: Option<Result<Resp, Status>>,
    trailers: Option<&Headers>,
    own: Result<(), Status>,
    r: Result<Resp, Status>,
)
    requires
        call_ensures(read_one_response::<Resp>, (first, second, trailers), r),
        trailers matches Some(h) ==> call_ensures(Status::from_trailers, (h,), own),
    ensures
        first matches Some(Ok(m)) ==> (second is None ==> r == Ok::<Resp, Status>(m)) && (
        second is Some ==> (r matches Err(s) && states(
            s,
            Code::Internal,
            "expected one response message, got multiple"@,
        ))),
        first matches Some(Err(s)) ==> r == Err::<Resp, Status>(s),
        first is None ==> r is Err,
        first is None && second is None && trailers is None ==> states(
            r->Err_0,
            Code::Internal,
            "stream ended without grpc-status trailer"@,
        ),
        first is None && second is None && trailers is Some ==> match own {
            Err(s) => r->Err_0.code == s.code && r->Err_0.message@ == s.message@,
            Ok(()) => states(r->Err_0, Code::Internal, "response missing message body"@),
        },
{
    if let Err(s) = r {
        assert(s@.code == s.code && s@.message == s.message@);
    }
    if let Some(h) = trailers {
        assert(crate::status::reads_as(header_map(*h), verdict(own)));
    }
}

/// A reader hands on messages, an error once and last, and at the end of the stream
/// nothing where it has succeeded.
pub proof fn readers_hand_on<T>(
    next: Result<Option<Result<T, Status>>, Status>,
    trailers: Option<&Headers>,
    own: Result<(), Status>,
    r: LoopStep<T>,
)
    requires
        call_ensures(read_loop::<T>, (next, trailers), r),
        trailers matches Some(h) ==> call_ensures(Status::from_trailers, (h,), own),
    ensures
        next matches Err(s) ==> r == LoopStep::<T>::Last(s),
        next matches Ok(Some(Err(s))) ==> r == LoopStep::<T>::Last(s),
        next matches Ok(Some(Ok(m))) ==> r == LoopStep::Forward(m),
        next matches Ok(None) ==> match trailers {
            None => r matches LoopStep::Last(e) && states(
                e,
                Code::Internal,
                "stream ended without grpc-status trailer"@,
            ),
            Some(_) => match own {
                Ok(()) => r is Stop,
                Err(s) => r matches LoopStep::Last(e) && e.code == s.code && e.message@
                    == s.message@,
            },
        },
{
    if let LoopStep::Last(s) = r {
        assert(s@.code == s.code && s@.message == s.message@);
    }
    if let Some(h) = trailers {
        assert(crate::status::reads_as(header_map(*h), verdict(own)));
    }
}

/// A stream without a body hands on its error, and nothing where it has succeeded.
pub proof fn bodyless_streams<T>(result: Result<(), Status>, r: LoopStep<T>)
    requires
        call_ensures(trailers_only::<T>, (result,), r),
    ensures
        result matches Err(s) ==> r == LoopStep::<T>::Last(s),
        result is Ok ==> r is Stop,
{
}

/// The request of such a stream carries its content type, `te: trailers` and the codecs
/// that the client takes; it goes over HTTP/3 where the client's headers ask for `h3`.
pub proof fn stream_requests(
    defaults: &Headers,
    h: &mut Headers,
    suffix: &str,
    version: Seq<char>,
    r: bool,
)
    requires
        call_ensures(grpc_request, (defaults, h, suffix), r),
    ensures
        carries(*final(h), "content-type"@, "application/grpc+"@ + suffix@),
        carries(*final(h), "te"@, "trailers"@),
        carries(*final(h), "grpc-accept-encoding"@, "identity,gzip,deflate,zstd"@),
        lacks(*defaults, "x-trillium-grpc-version"@) ==> !r,
        carries(*defaults, "x-trillium-grpc-version"@, version) ==> (r <==> version == "h3"@),
{
    names();
    reveal_strlit("x-trillium-grpc-version");
    all_tokens();
    lower_case_is_kept("content-type"@);
    lower_case_is_kept("te"@);
    lower_case_is_kept("grpc-accept-encoding"@);
    if lacks(*defaults, "x-trillium-grpc-version"@) {
        absent_text_is_none(*defaults, "x-trillium-grpc-version"@);
    }
    if carries(*defaults, "x-trillium-grpc-version"@, version) {
        carried_text_is_read(*defaults, "x-trillium-grpc-version"@, version);
    }
}

/// A client's default headers are those that it is given, none at first, and come back
/// as they are.
pub proof fn default_headers_are_kept(
    h: Headers,
    given: ClientDefaults,
    fresh: ClientDefaults,
    shown: &Headers,
    back: Headers,
)
    requires
        call_ensures(ClientDefaults::from_headers, (h,), given),
        call_ensures(ClientDefaults::new, (), fresh),
        call_ensures(<ClientDefaults as ServiceClient>::default_headers, (&given,), shown),
        call_ensures(ClientDefaults::into_headers, (given,), back),
    ensures
        header_map(*shown) == header_map(h),
        header_map(back) == header_map(h),
        fresh.defaults() == Map::<Seq<char>, Seq<Seq<u8>>>::empty(),
{
}

/// The codec and the time limit of a dispatched call are those that the client's headers
/// configure.
pub proof fn dispatched_calls_are_configured(
    h: &Headers,
    e: Encoding,
    own: Encoding,
    limit: Option<Duration>,
    configured: Option<Duration>,
)
    requires
        call_ensures(outbound_encoding_from_client, (h,), e),
        call_ensures(configured_encoding, (h,), own),
        call_ensures(deadline_from_client, (h,), limit),
        call_ensures(configured_timeout, (h,), configured),
    ensures
        e == own,
        limit is Some <==> configured is Some,
        limit matches Some(d) ==> nanos_of(d) == nanos_of(configured->0),
{
}

} // verus!
