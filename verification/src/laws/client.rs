//! Laws of the client half.

use super::encoding::{all_tokens, named, wire_name};
use super::metadata::{for_bytes, free, insertable, insertable_is_valid, key_rules, plain_text};
use super::server::decoded_from;
use super::status::{has_number, number_text, states};
use super::timeout::{lasts, limit_form, written_as};
use super::{absent_text_is_none, carried_text_is_read, carries, lacks, lower_case, lower_case_is_kept};
use crate::client::conn::{
    configured_encoding, decode_response, http_to_grpc_status, process_head, settle,
    transport_error, ClientRecv, ClientView, CloseStep, GrpcClientConn, Head, Phase, RaceView,
    ResponseHead, SendStep,
};
use crate::client::service_client::configured_timeout;
use crate::codec::{encodes, Codec};
use crate::content_type::{content_suffix, parse_grpc_content_type};
use crate::encoding::{outcome, Encoding, DEFAULT_MAX_MESSAGE_SIZE};
use crate::frame::reader::{ReadEvent, ReadState, ReadStep, StateView};
use crate::headers::{header_map, inserted, no_headers, values_of};
use crate::metadata::{appended, values_for, Metadata, MetadataError, ValueView};
use crate::status::{reads_as, verdict, Code, Status, StatusView};
use crate::text::{debug_quoted, decimal, digits_value};
use crate::timeout::{nanos_of, timeout_text};
use core::time::Duration;
use trillium_http::Headers;
use vstd::prelude::*;
use vstd::utf8::encode_utf8;

verus! {

proof fn header_names()
    ensures
        lower_case("content-type"@),
        lower_case("grpc-encoding"@),
        lower_case("grpc-accept-encoding"@),
        lower_case("grpc-timeout"@),
        lower_case("grpc-status"@),
        lower_case("te"@),
        "content-type"@.len() == 12,
        "grpc-encoding"@.len() == 13,
        "grpc-accept-encoding"@.len() == 20,
        "grpc-timeout"@.len() == 12,
        "grpc-status"@.len() == 11,
        "te"@.len() == 2,
        "content-type"@ != "grpc-timeout"@,
{
    reveal_strlit("content-type");
    reveal_strlit("grpc-encoding");
    reveal_strlit("grpc-accept-encoding");
    reveal_strlit("grpc-timeout");
    reveal_strlit("grpc-status");
    reveal_strlit("te");
    assert("content-type"@[0] == 'c');
    assert("grpc-timeout"@[0] == 'g');
}

// ---------------------------------------------------------------------------
// The head of a response

/// What an HTTP status other than 200 stands for.
pub open spec fn http_code(http: u16, code: Code) -> bool {
    ||| http == 400 && code == Code::Internal
    ||| http == 401 && code == Code::Unauthenticated
    ||| http == 403 && code == Code::PermissionDenied
    ||| http == 404 && code == Code::Unimplemented
    ||| (http == 429 || http == 502 || http == 503 || http == 504) && code == Code::Unavailable
    ||| !(http == 400 || http == 401 || http == 403 || http == 404 || http == 429 || http == 502
        || http == 503 || http == 504) && code == Code::Unknown
}

/// An HTTP status stands for its code, and is named in the message.
pub proof fn http_statuses(http: u16, r: Status)
    requires
        call_ensures(http_to_grpc_status, (http,), r),
    ensures
        http_code(http, r.code),
        r.message@ == "HTTP "@ + decimal(http as nat),
{
    assert(r@.code == r.code && r@.message == r.message@);
}

/// A response head is accepted where its HTTP status is 200, its content type is one of
/// gRPC, and its codec is known or not named: the call then goes on with that codec,
/// and with the headers of the head.
pub proof fn grpc_heads_are_accepted(
    head: ResponseHead,
    value: &str,
    parsed: Option<String>,
    name: Seq<char>,
    e: Encoding,
    r: Result<Head, Status>,
)
    requires
        call_ensures(process_head, (head,), r),
        head.status == Some(200u16),
        carries(head.headers, "content-type"@, value@),
        call_ensures(parse_grpc_content_type, (value,), parsed),
        parsed is Some,
        (lacks(head.headers, "grpc-encoding"@) && e == Encoding::Identity) || (carries(
            head.headers,
            "grpc-encoding"@,
            name,
        ) && wire_name(e, name)),
    ensures
        r matches Ok(read) && read.response_encoding == e && header_map(read.response_headers)
            == header_map(head.headers),
        lacks(head.headers, "grpc-status"@) ==> r->Ok_0.head_status is None,
{
    header_names();
    carried_text_is_read(head.headers, "content-type"@, value@);
    if lacks(head.headers, "grpc-encoding"@) {
        absent_text_is_none(head.headers, "grpc-encoding"@);
    } else {
        carried_text_is_read(head.headers, "grpc-encoding"@, name);
        named(name, e);
    }
    if lacks(head.headers, "grpc-status"@) {
        absent_text_is_none(head.headers, "grpc-status"@);
    }
}

/// A head of the bare content type `application/grpc` is accepted, as what other
/// servers send: in any case, with any white space around it and any parameters.
pub proof fn bare_heads_are_accepted(
    head: ResponseHead,
    value: Seq<char>,
    t: Seq<char>,
    r: Result<Head, Status>,
)
    requires
        call_ensures(process_head, (head,), r),
        head.status == Some(200u16),
        carries(head.headers, "content-type"@, value),
        super::content_type::names_media(value, t),
        crate::text::lower(t) == "application/grpc"@ || exists|start: Seq<char>, suffix: Seq<char>|
            t == #[trigger] (start + seq!['+'] + suffix) && crate::text::lower(start)
                == "application/grpc"@,
        lacks(head.headers, "grpc-encoding"@),
    ensures
        r matches Ok(read) && read.response_encoding == Encoding::Identity,
{
    header_names();
    carried_text_is_read(head.headers, "content-type"@, value);
    absent_text_is_none(head.headers, "grpc-encoding"@);
    if crate::text::lower(t) == "application/grpc"@ {
        super::content_type::bare_suffix(value, t);
    } else {
        let (start, suffix) = choose|start: Seq<char>, suffix: Seq<char>|
            t == #[trigger] (start + seq!['+'] + suffix) && crate::text::lower(start)
                == "application/grpc"@;
        super::content_type::plus_suffix(value, t, start, suffix);
    }
}

/// Any other head is refused: with the code of its HTTP status where that is not 200,
/// with `Unknown` where its content type is not one of gRPC, and with `Internal` where
/// its codec is not known.
pub proof fn other_heads_are_refused(
    head: ResponseHead,
    value: &str,
    parsed: Option<String>,
    name: Seq<char>,
    r: Result<Head, Status>,
)
    requires
        call_ensures(process_head, (head,), r),
        carries(head.headers, "content-type"@, value@) || lacks(head.headers, "content-type"@),
        call_ensures(parse_grpc_content_type, (value,), parsed),
    ensures
        head.status != Some(200u16) ==> (r matches Err(s) && http_code(
            match head.status {
                Some(http) => http,
                None => 0,
            },
            s.code,
        ) && s.message@ == "HTTP "@ + decimal(
            match head.status {
                Some(http) => http as nat,
                None => 0,
            },
        )),
        head.status == Some(200u16) && lacks(head.headers, "content-type"@) ==> (r matches Err(s)
            && states(s, Code::Unknown, "unexpected response content-type: "@ + "None"@)),
        head.status == Some(200u16) && carries(head.headers, "content-type"@, value@)
            && parsed is None ==> (r matches Err(s) && states(
            s,
            Code::Unknown,
            "unexpected response content-type: "@ + ("Some("@ + debug_quoted(value@) + ")"@),
        )),
        head.status == Some(200u16) && carries(head.headers, "content-type"@, value@)
            && parsed is Some && carries(head.headers, "grpc-encoding"@, name) && (forall|e: Encoding|
            !(#[trigger] wire_name(e, name))) ==> (r matches Err(s) && states(
            s,
            Code::Internal,
            "unsupported grpc-encoding "@ + debug_quoted(name),
        )),
{
    header_names();
    if lacks(head.headers, "content-type"@) {
        absent_text_is_none(head.headers, "content-type"@);
    } else {
        carried_text_is_read(head.headers, "content-type"@, value@);
    }
    if carries(head.headers, "grpc-encoding"@, name) {
        carried_text_is_read(head.headers, "grpc-encoding"@, name);
        named(name, Encoding::Identity);
        named(name, Encoding::Gzip);
        named(name, Encoding::Deflate);
        named(name, Encoding::Zstd);
    }
}

/// A head that carries a status has the outcome of that status.
pub proof fn heads_with_a_status(
    head: ResponseHead,
    text: Seq<char>,
    digits: Seq<char>,
    r: Result<Head, Status>,
)
    requires
        call_ensures(process_head, (head,), r),
        carries(head.headers, "grpc-status"@, text),
        number_text(text, digits),
        r is Ok,
    ensures
        r->Ok_0.head_status matches Some(v) && (v is Ok <==> digits_value(digits) == 0) && (
        v matches Err(s) ==> if digits_value(digits) <= 16 {
            has_number(s.code, digits_value(digits))
        } else {
            s.code == Code::Unknown
        }),
{
    header_names();
    carried_text_is_read(head.headers, "grpc-status"@, text);
    super::status::code_is_found(text, digits);
    super::status::code_is_found_zero(text, digits);
}

/// A transport that fails is `Unavailable`.
pub proof fn transports_fail(err: &str, r: Status)
    requires
        call_ensures(transport_error, (err,), r),
    ensures
        r.code == Code::Unavailable,
        r.message@ == "transport error: "@ + err@,
{
    assert(r@.code == r.code && r@.message == r.message@);
}

/// A message that cannot be decoded is the server's fault, `Internal`; any other is
/// what the codec made of it.
pub proof fn responses_are_decoded<C: Codec<Resp>, Resp>(bytes: &[u8], r: Result<Resp, Status>)
    requires
        call_ensures(decode_response::<C, Resp>, (bytes,), r),
    ensures
        exists|d: Result<Resp, Status>| #[trigger]
            decoded_from::<C, Resp>(bytes@, d) && match d {
                Ok(v) => r == Ok::<Resp, Status>(v),
                Err(s) => r matches Err(e) && e.code == Code::Internal && e.message@ == s.message@,
            },
{
    let d = choose|d: Result<Resp, Status>| #[trigger]
        crate::codec::decodes::<C, Resp>(bytes@, d) && match d {
            Ok(v) => r == Ok::<Resp, Status>(v),
            Err(s) => r is Err && r->Err_0@ == crate::status::plain_status(
                Code::Internal,
                s.message@,
            ),
        };
    assert(decoded_from::<C, Resp>(bytes@, d));
    if let Err(e) = r {
        assert(e@.code == e.code && e@.message == e.message@);
    }
}

/// A deadline that had passed comes before a cancellation, that before a deadline that
/// passes meanwhile, and only then the operation counts.
pub proof fn races_are_settled<T>(race: RaceView<T>, r: Option<Result<T, Status>>)
    requires
        call_ensures(settle::<T>, (race,), r),
    ensures
        race.elapsed_before ==> (r matches Some(Err(s)) && states(
            s,
            Code::DeadlineExceeded,
            "deadline elapsed"@,
        )),
        !race.elapsed_before && race.cancelled ==> (r matches Some(Err(s)) && states(
            s,
            Code::Cancelled,
            "call cancelled"@,
        )),
        !race.elapsed_before && !race.cancelled && race.timed_out ==> (r matches Some(Err(s))
            && states(s, Code::DeadlineExceeded, "deadline elapsed"@)),
        !race.elapsed_before && !race.cancelled && !race.timed_out ==> r == race.result,
{
}

// ---------------------------------------------------------------------------
// The request

/// A fresh call is of its codec's content type, compresses as the client's headers say,
/// has the metadata that it is given and nothing in its body.
pub proof fn fresh_calls<C: Codec<Req>, Req, Resp>(
    defaults: &Headers,
    metadata: Metadata,
    full_duplex: bool,
    e: Encoding,
    call: GrpcClientConn<C, Req, Resp>,
)
    requires
        call_ensures(
            GrpcClientConn::<C, Req, Resp>::new,
            (defaults, metadata, full_duplex),
            call,
        ),
        call_ensures(configured_encoding, (defaults,), e),
    ensures
        exists|suffix: &'static str| #[trigger]
            call_ensures(<C as Codec<Req>>::content_type_suffix, (), suffix) && call@.content_type
                == "application/grpc+"@ + suffix@,
        call@.outbound == e,
        call@.full_duplex == full_duplex,
        call@.init_error is None,
        call@.phase == (Phase::Pending {
            metadata: metadata@,
            body: Seq::empty(),
            send_closed: false,
        }),
{
}

/// A client compresses with the codec that its default headers name, and with none
/// where they name none that is known.
pub proof fn configured_codecs(h: &Headers, name: Seq<char>, r: Encoding)
    requires
        call_ensures(configured_encoding, (h,), r),
    ensures
        lacks(*h, "grpc-encoding"@) ==> r == Encoding::Identity,
        carries(*h, "grpc-encoding"@, name) ==> wire_name(r, name) || (r == Encoding::Identity
            && forall|e: Encoding| !(#[trigger] wire_name(e, name))),
{
    header_names();
    if lacks(*h, "grpc-encoding"@) {
        absent_text_is_none(*h, "grpc-encoding"@);
    }
    if carries(*h, "grpc-encoding"@, name) {
        carried_text_is_read(*h, "grpc-encoding"@, name);
        named(name, r);
        named(name, Encoding::Identity);
        named(name, Encoding::Gzip);
        named(name, Encoding::Deflate);
        named(name, Encoding::Zstd);
    }
}

/// A client's calls have the time limit that its default headers say.
pub proof fn configured_limits(
    h: &Headers,
    text: Seq<char>,
    digits: Seq<char>,
    unit: char,
    nanos: nat,
    r: Option<Duration>,
)
    requires
        call_ensures(configured_timeout, (h,), r),
    ensures
        lacks(*h, "grpc-timeout"@) ==> r is None,
        carries(*h, "grpc-timeout"@, text) && limit_form(text, digits, unit, nanos) ==> (r matches Some(
            d,
        ) && nanos_of(d) == digits_value(digits) * nanos),
        carries(*h, "grpc-timeout"@, text) && (forall|ds: Seq<char>, u: char, n: nat|
            !(#[trigger] limit_form(text, ds, u, n))) ==> r is None,
{
    header_names();
    if lacks(*h, "grpc-timeout"@) {
        absent_text_is_none(*h, "grpc-timeout"@);
    }
    if carries(*h, "grpc-timeout"@, text) && limit_form(text, digits, unit, nanos) {
        carried_text_is_read(*h, "grpc-timeout"@, text);
        super::timeout::form_is_read(text, digits, unit, nanos);
    }
    if carries(*h, "grpc-timeout"@, text) && (forall|ds: Seq<char>, u: char, n: nat|
        !(#[trigger] limit_form(text, ds, u, n))) {
        carried_text_is_read(*h, "grpc-timeout"@, text);
        if crate::timeout::timeout_nanos(text) is Some {
            super::timeout::read_has_form(text);
        }
    }
}

/// A text entry that is refused makes the call fail with `InvalidArgument` once it is
/// opened, unless it was to fail already; any other goes with the call.
pub proof fn calls_take_text_entries<C, Req, Resp>(
    call: &mut GrpcClientConn<C, Req, Resp>,
    key: &str,
    value: &str,
    metadata: Seq<(Seq<char>, ValueView)>,
    body: Seq<u8>,
    closed: bool,
)
    requires
        call_ensures(
            GrpcClientConn::<C, Req, Resp>::add_ascii_metadata,
            (call, key, value),
            (),
        ),
        old(call)@.phase == (Phase::Pending { metadata, body, send_closed: closed }),
    ensures
        free(key@) && !for_bytes(key@) && plain_text(value@) ==> final(call)@ == (ClientView {
            phase: Phase::Pending {
                metadata: metadata.push((key@, ValueView::Ascii(value@))),
                body,
                send_closed: closed,
            },
            ..old(call)@
        }),
        !(free(key@) && !for_bytes(key@) && plain_text(value@)) ==> {
            &&& final(call)@.phase == old(call)@.phase
            &&& old(call)@.init_error is Some ==> final(call)@.init_error == old(call)@.init_error
            &&& old(call)@.init_error is None ==> (final(call)@.init_error matches Some(s) && s.code
                == Code::InvalidArgument)
        },
{
    key_rules(key@, value@);
}

/// A binary entry that is refused makes the call fail with `InvalidArgument` once it is
/// opened, unless it was to fail already; any other goes with the call.
pub proof fn calls_take_binary_entries<C, Req, Resp>(
    call: &mut GrpcClientConn<C, Req, Resp>,
    key: &str,
    value: Vec<u8>,
    metadata: Seq<(Seq<char>, ValueView)>,
    body: Seq<u8>,
    closed: bool,
)
    requires
        call_ensures(
            GrpcClientConn::<C, Req, Resp>::add_binary_metadata,
            (call, key, value),
            (),
        ),
        old(call)@.phase == (Phase::Pending { metadata, body, send_closed: closed }),
    ensures
        free(key@) && for_bytes(key@) ==> final(call)@ == (ClientView {
            phase: Phase::Pending {
                metadata: metadata.push((key@, ValueView::Binary(value@))),
                body,
                send_closed: closed,
            },
            ..old(call)@
        }),
        !(free(key@) && for_bytes(key@)) ==> {
            &&& final(call)@.phase == old(call)@.phase
            &&& old(call)@.init_error is Some ==> final(call)@.init_error == old(call)@.init_error
            &&& old(call)@.init_error is None ==> (final(call)@.init_error matches Some(s) && s.code
                == Code::InvalidArgument)
        },
{
    key_rules(key@, Seq::empty());
}

/// The request of a call carries its content type, `te: trailers`, the codecs that the
/// client takes, the codec of its messages where they are compressed, and the time that
/// is left, in the finest unit that there is room for; and its body is what was sent.
pub proof fn requests_are_opened<C, Req, Resp>(
    call: &mut GrpcClientConn<C, Req, Resp>,
    h: &mut Headers,
    remaining: Option<Duration>,
    metadata: Seq<(Seq<char>, ValueView)>,
    body: Seq<u8>,
    closed: bool,
    name: Seq<char>,
    r: Result<Vec<u8>, Status>,
)
    requires
        call_ensures(GrpcClientConn::<C, Req, Resp>::begin_open, (call, h, remaining), r),
        old(call)@.phase == (Phase::Pending { metadata, body, send_closed: closed }),
        old(call)@.init_error is None,
        insertable(metadata),
        wire_name(old(call)@.outbound, name),
    ensures
        r matches Ok(sent) && sent@ == body,
        carries(*final(h), "content-type"@, old(call)@.content_type),
        carries(*final(h), "te"@, "trailers"@),
        carries(*final(h), "grpc-accept-encoding"@, "identity,gzip,deflate,zstd"@),
        old(call)@.outbound != Encoding::Identity ==> carries(*final(h), "grpc-encoding"@, name),
        old(call)@.outbound == Encoding::Identity ==> values_of(
            header_map(*final(h)),
            "grpc-encoding"@,
        ) == values_of(header_map(*old(h)), "grpc-encoding"@),
        remaining matches Some(d) ==> exists|number: nat, unit: char, length: nat| #[trigger]
            written_as(nanos_of(d), number, unit, length) && carries(
                *final(h),
                "grpc-timeout"@,
                decimal(number).push(unit),
            ),
        remaining is None ==> values_of(header_map(*final(h)), "grpc-timeout"@) == values_of(
            header_map(*old(h)),
            "grpc-timeout"@,
        ),
{
    header_names();
    lower_case_is_kept("content-type"@);
    lower_case_is_kept("te"@);
    lower_case_is_kept("grpc-accept-encoding"@);
    lower_case_is_kept("grpc-encoding"@);
    lower_case_is_kept("grpc-timeout"@);
    all_tokens();
    insertable_is_valid(metadata);
    protocol_names();
    let m = header_map(*old(h));
    let typed = inserted(m, "content-type"@, old(call)@.content_type);
    let te = inserted(typed, "te"@, "trailers"@);
    let accept = inserted(te, "grpc-accept-encoding"@, "identity,gzip,deflate,zstd"@);
    let encoded = if old(call)@.outbound == Encoding::Identity {
        accept
    } else {
        inserted(accept, "grpc-encoding"@, old(call)@.outbound.token())
    };
    let timed = match remaining {
        Some(d) => inserted(encoded, "grpc-timeout"@, timeout_text(nanos_of(d))),
        None => encoded,
    };
    assert(header_map(*final(h)) == appended(timed, metadata));
    untouched(timed, metadata, "content-type"@);
    untouched(timed, metadata, "te"@);
    untouched(timed, metadata, "grpc-accept-encoding"@);
    untouched(timed, metadata, "grpc-encoding"@);
    untouched(timed, metadata, "grpc-timeout"@);
    if let Some(d) = remaining {
        super::timeout::text_is_written_as(nanos_of(d));
    }
}

proof fn untouched(
    m: Map<Seq<char>, Seq<Seq<u8>>>,
    metadata: Seq<(Seq<char>, ValueView)>,
    name: Seq<char>,
)
    requires
        insertable(metadata),
        super::metadata::taken(name),
        lower_case(name),
    ensures
        values_of(appended(m, metadata), name) == values_of(m, name),
        appended(m, metadata).dom().contains(name) == m.dom().contains(name),
        m.dom().contains(name) ==> appended(m, metadata)[name] == m[name],
{
    lower_case_is_kept(name);
    insertable_is_valid(metadata);
    key_rules(name, Seq::empty());
    crate::metadata::reserved_untouched(m, metadata, name);
    crate::metadata::appended_values(m, metadata, name);
    super::metadata::free_values(metadata, name);
}

proof fn protocol_names()
    ensures
        super::metadata::taken("content-type"@),
        super::metadata::taken("te"@),
        super::metadata::taken("grpc-accept-encoding"@),
        super::metadata::taken("grpc-encoding"@),
        super::metadata::taken("grpc-timeout"@),
{
    reveal_strlit("grpc-accept-encoding");
    reveal_strlit("grpc-encoding");
    reveal_strlit("grpc-timeout");
    reveal_strlit("grpc-");
    reveal_strlit("accept-encoding");
    reveal_strlit("encoding");
    reveal_strlit("timeout");
    assert("grpc-accept-encoding"@ =~= "grpc-"@ + "accept-encoding"@);
    assert("grpc-encoding"@ =~= "grpc-"@ + "encoding"@);
    assert("grpc-timeout"@ =~= "grpc-"@ + "timeout"@);
}

/// The metadata of a call goes with its request: behind what the request holds under
/// each key, a text as it is and bytes in base64.
pub proof fn requests_carry_their_metadata<C, Req, Resp>(
    call: &mut GrpcClientConn<C, Req, Resp>,
    h: &mut Headers,
    remaining: Option<Duration>,
    metadata: Seq<(Seq<char>, ValueView)>,
    body: Seq<u8>,
    closed: bool,
    key: Seq<char>,
    r: Result<Vec<u8>, Status>,
)
    requires
        call_ensures(GrpcClientConn::<C, Req, Resp>::begin_open, (call, h, remaining), r),
        old(call)@.phase == (Phase::Pending { metadata, body, send_closed: closed }),
        old(call)@.init_error is None,
        insertable(metadata),
        free(key),
        lacks(*old(h), key),
    ensures
        ({
            let values = values_for(metadata, key);
            let sent = values_of(header_map(*final(h)), key);
            &&& sent.len() == values.len()
            &&& forall|i: int|
                0 <= i < values.len() ==> #[trigger] sent[i] == (match values[i] {
                    ValueView::Ascii(text) => encode_utf8(text),
                    ValueView::Binary(bytes) => encode_utf8(crate::binary::base64_text(bytes)),
                })
        }),
{
    header_names();
    lower_case_is_kept("content-type"@);
    lower_case_is_kept("te"@);
    lower_case_is_kept("grpc-accept-encoding"@);
    lower_case_is_kept("grpc-encoding"@);
    lower_case_is_kept("grpc-timeout"@);
    protocol_names();
    insertable_is_valid(metadata);
    super::metadata::spelled_is_lower(key);
    let m = header_map(*old(h));
    let typed = inserted(m, "content-type"@, old(call)@.content_type);
    let te = inserted(typed, "te"@, "trailers"@);
    let accept = inserted(
        te,
        "grpc-accept-encoding"@,
        crate::encoding::token_list(Encoding::ALL@),
    );
    let encoded = if old(call)@.outbound == Encoding::Identity {
        accept
    } else {
        inserted(accept, "grpc-encoding"@, old(call)@.outbound.token())
    };
    let timed = match remaining {
        Some(d) => inserted(encoded, "grpc-timeout"@, timeout_text(nanos_of(d))),
        None => encoded,
    };
    assert(header_map(*final(h)) == appended(timed, metadata));
    assert(!timed.dom().contains(key));
    crate::metadata::appended_values(timed, metadata, key);
    let values = values_for(metadata, key);
    assert(Seq::<Seq<u8>>::empty() + crate::metadata::wire_values(values)
        =~= crate::metadata::wire_values(values));
}

/// A call that was to fail fails when it is opened, with that status and without
/// sending anything, and reports it once.
pub proof fn deferred_errors<C, Req, Resp>(
    call: &mut GrpcClientConn<C, Req, Resp>,
    h: &mut Headers,
    remaining: Option<Duration>,
    s: StatusView,
    r: Result<Vec<u8>, Status>,
)
    requires
        call_ensures(GrpcClientConn::<C, Req, Resp>::begin_open, (call, h, remaining), r),
        old(call)@.phase is Pending,
        old(call)@.init_error == Some(s),
    ensures
        r matches Err(e) && e@ == s,
        final(call)@.phase == Phase::Failed(s),
        header_map(*final(h)) == header_map(*old(h)),
{
}

/// What came of opening a call: it is live with the codec and the headers of its head,
/// at the start of the first message; or it has failed with the status of the failure,
/// or of the head that was refused.
pub proof fn calls_are_opened<C, Req, Resp>(
    call: &mut GrpcClientConn<C, Req, Resp>,
    result: Result<ResponseHead, Status>,
    read: Result<Head, Status>,
    r: Result<(), Status>,
)
    requires
        call_ensures(GrpcClientConn::<C, Req, Resp>::opened, (call, result), r),
        result matches Ok(head) ==> call_ensures(process_head, (head,), read),
    ensures
        result matches Err(s) ==> (r matches Err(e) && e@ == s@) && final(call)@.phase
            == Phase::Failed(s@),
        result is Ok && read is Err ==> (r matches Err(e) && e@ == read->Err_0@)
            && final(call)@.phase == Phase::Failed(read->Err_0@),
        result is Ok && read is Ok ==> {
            &&& r is Ok
            &&& final(call)@.phase is Live
            &&& final(call)@.phase->Live_headers == header_map(result->Ok_0.headers)
            &&& final(call)@.phase->state == StateView::Prefix(Seq::empty())
            &&& final(call)@.phase->encoding == read->Ok_0.response_encoding
            &&& final(call)@.phase->head_status is Some <==> read->Ok_0.head_status is Some
        },
        final(call)@.content_type == old(call)@.content_type,
        final(call)@.outbound == old(call)@.outbound,
        final(call)@.full_duplex == old(call)@.full_duplex,
{
}

// ---------------------------------------------------------------------------
// Sending

/// A message is sent as the frame of its encoding: into the body before the request is
/// fired, and onto the wire while a full-duplex call is live. A message after the end
/// of the requests is an `Internal` error, and so is one after the response has begun
/// in any other call.
pub proof fn messages_are_sent<C: Codec<Req> + Codec<Resp>, Req, Resp>(
    call: &mut GrpcClientConn<C, Req, Resp>,
    message: &Req,
    r: Result<SendStep, Status>,
)
    requires
        call_ensures(GrpcClientConn::<C, Req, Resp>::send, (call, message), r),
    ensures
        exists|payload: Result<Seq<u8>, StatusView>| #[trigger]
            encodes::<C, Req>(*message, payload) && match payload {
                Err(s) => (r matches Err(e) && e@ == s) && final(call)@ == old(call)@,
                Ok(bytes) => match crate::frame::writer::framed(bytes, old(call)@.outbound) {
                    Err(s) => (r matches Err(e) && e@ == s) && final(call)@ == old(call)@,
                    Ok(frame) => match old(call)@.phase {
                        Phase::Pending { metadata, body, send_closed: false } => r matches Ok(
                            SendStep::Buffered,
                        ) && final(call)@.phase == (Phase::Pending {
                            metadata,
                            body: body + frame,
                            send_closed: false,
                        }),
                        Phase::Live { .. } if old(call)@.full_duplex => r matches Ok(
                            SendStep::Write(w),
                        ) && w@ == frame && final(call)@ == old(call)@,
                        Phase::Pending { .. } => (r matches Err(e) && states(
                            e,
                            Code::Internal,
                            "send after close_send"@,
                        )) && final(call)@ == old(call)@,
                        _ => (r matches Err(e) && states(
                            e,
                            Code::Internal,
                            "send after response started"@,
                        )) && final(call)@ == old(call)@,
                    },
                },
            },
{
    let payload = choose|payload: Result<Seq<u8>, StatusView>| #[trigger]
        encodes::<C, Req>(*message, payload) && match crate::server::body::framed_payload(
            payload,
            old(call)@.outbound,
        ) {
            Err(s) => r is Err && r->Err_0@ == s && final(call)@ == old(call)@,
            Ok(frame) => match old(call)@.phase {
                Phase::Pending { metadata, body, send_closed } => if send_closed {
                    r is Err && r->Err_0@ == crate::status::plain_status(
                        Code::Internal,
                        "send after close_send"@,
                    ) && final(call)@ == old(call)@
                } else {
                    r is Ok && r->Ok_0 is Buffered && final(call)@ == (ClientView {
                        phase: Phase::Pending { metadata, body: body + frame, send_closed },
                        ..old(call)@
                    })
                },
                Phase::Live { .. } if old(call)@.full_duplex => r is Ok && r->Ok_0 is Write
                    && r->Ok_0->Write_0@ == frame && final(call)@ == old(call)@,
                _ => r is Err && r->Err_0@ == crate::status::plain_status(
                    Code::Internal,
                    "send after response started"@,
                ) && final(call)@ == old(call)@,
            },
        };
    assert(encodes::<C, Req>(*message, payload));
    if let Err(e) = r {
        assert(e@.code == e.code);
    }
}

/// The end of the requests fires the request of a call that has not been opened, and
/// closes the writing of a full-duplex call that is live.
pub proof fn requests_end<C, Req, Resp>(call: &mut GrpcClientConn<C, Req, Resp>, r: CloseStep)
    requires
        call_ensures(GrpcClientConn::<C, Req, Resp>::close_send, (call,), r),
    ensures
        old(call)@.phase matches Phase::Pending { metadata, body, send_closed } ==> r is Open
            && final(call)@.phase == (Phase::Pending { metadata, body, send_closed: true }),
        old(call)@.phase is Live ==> (r is Close <==> old(call)@.full_duplex) && (r is Nothing
            <==> !old(call)@.full_duplex) && final(call)@ == old(call)@,
        old(call)@.phase is Done || old(call)@.phase is Failed ==> r is Nothing && final(call)@
            == old(call)@,
{
}

// ---------------------------------------------------------------------------
// Receiving

/// A call that has not been opened is opened by the first receive; a live one reads on;
/// one that has ended gives nothing more; and one that has failed gives its status,
/// once.
pub proof fn receives_start<C, Req, Resp>(
    call: &mut GrpcClientConn<C, Req, Resp>,
    r: ClientRecv<Resp>,
)
    requires
        call_ensures(GrpcClientConn::<C, Req, Resp>::recv, (call,), r),
    ensures
        old(call)@.phase is Pending ==> r is Open && final(call)@ == old(call)@,
        old(call)@.phase matches Phase::Live { state: StateView::Prefix(buf), .. } ==> buf.len() < 5
            ==> r == ClientRecv::<Resp>::Read((5 - buf.len()) as usize) && final(call)@ == old(call)@,
        old(call)@.phase is Done ==> r == ClientRecv::<Resp>::Done(Ok(None)) && final(call)@ == old(call)@,
        old(call)@.phase matches Phase::Failed(s) ==> (r matches ClientRecv::Done(Err(e)) && e@
            == s) && final(call)@.phase is Done,
{
}

/// How a call that is live ends: with the outcome of its trailers where they carry a
/// status, or else with that of its head where that does, or else with that of trailers
/// without a status.
pub proof fn calls_end_with_their_status<C: Codec<Req> + Codec<Resp>, Req, Resp>(
    call: &mut GrpcClientConn<C, Req, Resp>,
    data: Vec<u8>,
    trailers: Headers,
    text: Seq<char>,
    digits: Seq<char>,
    r: ClientRecv<Resp>,
)
    requires
        call_ensures(
            GrpcClientConn::<C, Req, Resp>::absorb,
            (call, ReadEvent::Data(data), trailers),
            r,
        ),
        old(call)@.phase is Live,
        old(call)@.phase->state == StateView::Prefix(Seq::empty()),
        data@.len() == 0,
    ensures
        final(call)@.phase is Done,
        final(call)@.phase->Done_headers == old(call)@.phase->Live_headers,
        carries(trailers, "grpc-status"@, text) && number_text(text, digits) ==> {
            &&& digits_value(digits) == 0 ==> r == ClientRecv::<Resp>::Done(Ok(None))
            &&& 0 < digits_value(digits) <= 16 ==> (r matches ClientRecv::Done(Err(s)) && has_number(
                s.code,
                digits_value(digits),
            ))
            &&& digits_value(digits) > 16 ==> (r matches ClientRecv::Done(Err(s)) && s.code
                == Code::Unknown)
            &&& final(call)@.phase->trailers == header_map(trailers)
        },
        lacks(trailers, "grpc-status"@) && old(call)@.phase->head_status is Some ==> final(call)@.phase->trailers == old(call)@.phase->Live_headers,
        lacks(trailers, "grpc-status"@) && old(call)@.phase->head_status is None ==> final(call)@.phase->trailers == header_map(trailers),
        lacks(trailers, "grpc-status"@) && old(call)@.phase->head_status is None ==> (
        r matches ClientRecv::Done(Err(s)) && s.code == Code::Unknown),
        lacks(trailers, "grpc-status"@) && (old(call)@.phase->head_status matches Some(Ok(())))
            ==> r == ClientRecv::<Resp>::Done(Ok(None)),
        lacks(trailers, "grpc-status"@) && (old(call)@.phase->head_status matches Some(Err(_)))
            ==> (r matches ClientRecv::Done(Err(s)) && s@
            == old(call)@.phase->head_status->0->Err_0),
{
    header_names();
    if carries(trailers, "grpc-status"@, text) && number_text(text, digits) {
        carried_text_is_read(trailers, "grpc-status"@, text);
        super::status::code_is_found(text, digits);
        super::status::code_is_found_zero(text, digits);
    }
    if lacks(trailers, "grpc-status"@) {
        absent_text_is_none(trailers, "grpc-status"@);
    }
    let end = choose|end: Result<(), StatusView>| #[trigger]
        crate::client::conn::settled(old(call)@, final(call)@, header_map(trailers), end)
            && match end {
            Ok(()) => r == ClientRecv::<Resp>::Done(Ok(None)),
            Err(status) => r matches ClientRecv::Done(Err(e)) && e@ == status,
        };
    if let ClientRecv::Done(Err(e)) = r {
        assert(e@.code == e.code);
    }
}

/// A live call reads as its frames are read, up to the cap on a message, and gives each
/// message as its codec decodes it; what cannot be read or decoded ends the call with
/// its status.
pub proof fn responses_are_received<C: Codec<Req> + Codec<Resp>, Req, Resp>(
    call: &mut GrpcClientConn<C, Req, Resp>,
    reader: &mut ReadState,
    event: ReadEvent,
    trailers: Headers,
    step: ReadStep,
    r: ClientRecv<Resp>,
)
    requires
        call_ensures(GrpcClientConn::<C, Req, Resp>::absorb, (call, event, trailers), r),
        old(call)@.phase is Live,
        old(reader)@ == old(call)@.phase->state,
        call_ensures(
            ReadState::absorb,
            (reader, event, DEFAULT_MAX_MESSAGE_SIZE, old(call)@.phase->encoding),
            step,
        ),
    ensures
        step matches ReadStep::Read(n) ==> r == ClientRecv::<Resp>::Read(n) && final(call)@.phase
            is Live && final(call)@.phase->state == final(reader)@,
        step matches ReadStep::Payload(Err(e)) ==> (r matches ClientRecv::Done(Err(x)) && x@ == e@)
            && final(call)@.phase is Done,
        step matches ReadStep::Payload(Ok(bytes)) ==> exists|d: Result<Resp, Status>| #[trigger]
            decoded_from::<C, Resp>(bytes@, d) && match d {
                Err(s) => (r matches ClientRecv::Done(Err(x)) && x.code == Code::Internal
                    && x.message@ == s.message@) && final(call)@.phase is Done,
                Ok(message) => if old(call)@.phase->head_status is Some {
                    (r matches ClientRecv::Done(Err(x)) && states(
                        x,
                        Code::Internal,
                        "trailers-only response (grpc-status in headers) carried a message body"@,
                    )) && final(call)@.phase is Done
                } else {
                    r == ClientRecv::Done(Ok::<Option<Resp>, Status>(Some(message)))
                        && final(call)@.phase is Live && final(call)@.phase->state == final(reader)@
                },
            },
{
    if let ReadStep::Payload(Ok(bytes)) = step {
        received_item::<C, Req, Resp>(call, event, trailers, r, bytes@);
    }
}

proof fn received_item<C: Codec<Req> + Codec<Resp>, Req, Resp>(
    call: &mut GrpcClientConn<C, Req, Resp>,
    event: ReadEvent,
    trailers: Headers,
    r: ClientRecv<Resp>,
    bytes: Seq<u8>,
)
    requires
        call_ensures(GrpcClientConn::<C, Req, Resp>::absorb, (call, event, trailers), r),
        old(call)@.phase is Live,
        crate::frame::reader::advanced(
            old(call)@.phase->state,
            event,
            DEFAULT_MAX_MESSAGE_SIZE as nat,
        ).1 matches crate::frame::reader::Signal::Frame { flag, payload }
            && crate::frame::reader::unpacked(
            flag,
            payload,
            old(call)@.phase->encoding,
            DEFAULT_MAX_MESSAGE_SIZE as nat,
        ) == Ok::<Seq<u8>, StatusView>(bytes),
    ensures
        exists|d: Result<Resp, Status>| #[trigger]
            decoded_from::<C, Resp>(bytes, d) && match d {
                Err(s) => (r matches ClientRecv::Done(Err(x)) && x.code == Code::Internal
                    && x.message@ == s.message@) && final(call)@.phase is Done,
                Ok(message) => if old(call)@.phase->head_status is Some {
                    (r matches ClientRecv::Done(Err(x)) && states(
                        x,
                        Code::Internal,
                        "trailers-only response (grpc-status in headers) carried a message body"@,
                    )) && final(call)@.phase is Done
                } else {
                    r == ClientRecv::Done(Ok::<Option<Resp>, Status>(Some(message)))
                        && final(call)@.phase is Live && final(call)@.phase->state
                        == crate::frame::reader::advanced(
                        old(call)@.phase->state,
                        event,
                        DEFAULT_MAX_MESSAGE_SIZE as nat,
                    ).0
                },
            },
{
    let signal = crate::frame::reader::advanced(
        old(call)@.phase->state,
        event,
        DEFAULT_MAX_MESSAGE_SIZE as nat,
    ).1;
    let flag = signal->Frame_flag;
    let payload = signal->Frame_payload;
    let item = choose|item: Result<Resp, Status>|
        #[trigger] crate::client::conn::response_item::<C, Resp>(
            item,
            flag,
            payload,
            old(call)@.phase->encoding,
        ) && match item {
            Ok(msg) => if old(call)@.phase->head_status is Some {
                &&& r matches ClientRecv::Done(Err(e)) && e@
                    == crate::client::conn::trailers_only_violation()
                &&& final(call)@.phase is Done
            } else {
                r == ClientRecv::Done(Ok::<Option<Resp>, Status>(Some(msg)))
                    && final(call)@.phase is Live && final(call)@.phase->state
                    == crate::frame::reader::advanced(
                    old(call)@.phase->state,
                    event,
                    DEFAULT_MAX_MESSAGE_SIZE as nat,
                ).0
            },
            Err(e) => r == ClientRecv::<Resp>::Done(Err(e)) && final(call)@.phase is Done,
        };
    assert(crate::client::conn::decodes_response::<C, Resp>(bytes, item));
    let d = choose|d: Result<Resp, Status>| #[trigger]
        crate::codec::decodes::<C, Resp>(bytes, d) && match d {
            Ok(v) => item == Ok::<Resp, Status>(v),
            Err(s) => item is Err && item->Err_0@ == crate::status::plain_status(
                Code::Internal,
                s.message@,
            ),
        };
    assert(decoded_from::<C, Resp>(bytes, d));
    if let ClientRecv::Done(Err(x)) = r {
        assert(x@.code == x.code && x@.message == x.message@);
    }
}

/// A refused text entry is told in the words of its refusal.
pub proof fn refused_text_entries_are_told<C, Req, Resp>(
    call: &mut GrpcClientConn<C, Req, Resp>,
    key: &str,
    value: &str,
    m: &mut Metadata,
    e: MetadataError,
    words: String,
)
    requires
        call_ensures(
            GrpcClientConn::<C, Req, Resp>::add_ascii_metadata,
            (call, key, value),
            (),
        ),
        old(call)@.phase is Pending,
        old(call)@.init_error is None,
        call_ensures(Metadata::insert_ascii, (m, key, value), Err::<(), MetadataError>(e)),
        call_ensures(MetadataError::message, (&e,), words),
    ensures
        final(call)@.init_error matches Some(s) && s.code == Code::InvalidArgument && s.message
            == "invalid metadata: "@ + words@ && s.metadata.len() == 0,
{
}

/// A refused binary entry is told in the words of its refusal.
pub proof fn refused_binary_entries_are_told<C, Req, Resp>(
    call: &mut GrpcClientConn<C, Req, Resp>,
    key: &str,
    value: Vec<u8>,
    m: &mut Metadata,
    e: MetadataError,
    words: String,
)
    requires
        call_ensures(
            GrpcClientConn::<C, Req, Resp>::add_binary_metadata,
            (call, key, value),
            (),
        ),
        old(call)@.phase is Pending,
        old(call)@.init_error is None,
        call_ensures(Metadata::insert_binary, (m, key, value), Err::<(), MetadataError>(e)),
        call_ensures(MetadataError::message, (&e,), words),
    ensures
        final(call)@.init_error matches Some(s) && s.code == Code::InvalidArgument && s.message
            == "invalid metadata: "@ + words@ && s.metadata.len() == 0,
{
}

/// The response's headers are there once its head has come, and a call is pending until
/// it is opened.
pub proof fn heads_are_shown<C, Req, Resp>(
    call: &GrpcClientConn<C, Req, Resp>,
    h: Option<&Headers>,
    pending: bool,
)
    requires
        call_ensures(GrpcClientConn::<C, Req, Resp>::headers, (call,), h),
        call_ensures(GrpcClientConn::<C, Req, Resp>::is_pending, (call,), pending),
    ensures
        call@.phase is Pending <==> pending,
        call@.phase matches Phase::Live { headers, .. } ==> (h matches Some(m) && header_map(*m)
            == headers),
        call@.phase matches Phase::Done { headers, .. } ==> (h matches Some(m) && header_map(*m)
            == headers),
        call@.phase is Pending || call@.phase is Failed ==> h is None,
{
}

/// A call that is cut ends with the status that it is cut with, and keeps its headers.
pub proof fn cut_calls_end<C, Req, Resp>(
    call: &mut GrpcClientConn<C, Req, Resp>,
    status: Status,
    trailers: Headers,
    r: ClientRecv<Resp>,
)
    requires
        call_ensures(GrpcClientConn::<C, Req, Resp>::cut, (call, status, trailers), r),
        old(call)@.phase is Live,
    ensures
        r == ClientRecv::<Resp>::Done(Err(status)),
        final(call)@.phase is Done,
        final(call)@.phase->Done_headers == old(call)@.phase->Live_headers,
{
}

/// A request that is made ready before the call goes into its body as a frame; where it
/// cannot be framed, the call is to fail with that, unless it was to fail already.
pub proof fn requests_are_buffered<C: Codec<Req> + Codec<Resp>, Req, Resp>(
    call: &mut GrpcClientConn<C, Req, Resp>,
    message: &Req,
    metadata: Seq<(Seq<char>, ValueView)>,
    body: Seq<u8>,
    closed: bool,
)
    requires
        call_ensures(GrpcClientConn::<C, Req, Resp>::buffer_request, (call, message), ()),
        old(call)@.phase == (Phase::Pending { metadata, body, send_closed: closed }),
    ensures
        exists|payload: Result<Seq<u8>, StatusView>| #[trigger]
            encodes::<C, Req>(*message, payload) && match payload {
                Err(s) => final(call)@.phase == old(call)@.phase && final(call)@.init_error
                    == Some(
                    match old(call)@.init_error {
                        Some(e) => e,
                        None => s,
                    },
                ),
                Ok(bytes) => match crate::frame::writer::framed(bytes, old(call)@.outbound) {
                    Err(s) => final(call)@.phase == old(call)@.phase && final(call)@.init_error
                        == Some(
                        match old(call)@.init_error {
                            Some(e) => e,
                            None => s,
                        },
                    ),
                    Ok(frame) => final(call)@.init_error == old(call)@.init_error
                        && final(call)@.phase == (Phase::Pending {
                        metadata,
                        body: body + frame,
                        send_closed: closed,
                    }),
                },
            },
{
    let payload = choose|payload: Result<Seq<u8>, StatusView>| #[trigger]
        encodes::<C, Req>(*message, payload) && match crate::server::body::framed_payload(
            payload,
            old(call)@.outbound,
        ) {
            Ok(frame) => final(call)@ == (ClientView {
                phase: Phase::Pending { metadata, body: body + frame, send_closed: closed },
                ..old(call)@
            }),
            Err(s) => final(call)@ == (ClientView {
                init_error: crate::client::conn::first_error(old(call)@.init_error, s),
                ..old(call)@
            }),
        };
    assert(encodes::<C, Req>(*message, payload));
}

} // verus!
