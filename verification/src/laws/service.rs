//! The conformance service: what it tells of a call, and how it answers.

use super::status::{code_of, has_number, states};
use super::{carries, lower_case_is_kept};
use crate::binary::base64_unpadded;
use crate::conformance::bidi::{BidiAction, BidiResponderImpl, BidiStreamRequest, BidiView};
use crate::conformance::service::{
    apply_headers, echo_headers, is_transport_header, lists, request_info, respond_single,
    status_from_error, text_values, timeout_ms, to_any, with_values, write_details,
    ClientStreamRequests, ConformanceServiceImpl, Response, RpcStatus, SingleReply,
    UnaryResponseDefinition,
};
use crate::conformance::stream::{
    ResponseStream, StreamItem, StreamReply, StreamResponseDefinition,
};
use crate::conformance::{
    any_views, header_views, optional_info, Any, AnyView, ConformancePayload, Error, Header,
    HeaderView, InfoView, RequestInfo,
};
use crate::headers::{header_map, values_of};
use crate::status::{Code, Status};
use crate::text::{lower, texts};
use crate::timeout::nanos_of;
use core::time::Duration;
use trillium_http::Headers;
use vstd::prelude::*;
use vstd::utf8::{decode_utf8, encode_utf8, valid_utf8};

verus! {

// ---------------------------------------------------------------------------
// Messages

/// Whether a message is the suite's message `name` with this encoding.
pub open spec fn is_message(any: AnyView, name: Seq<char>, encoded: Seq<u8>) -> bool {
    any.type_url == "type.googleapis.com/connectrpc.conformance.v1."@ + name && any.value
        == encoded
}

/// A wrapped message has the URL of its type and its own encoding.
pub proof fn messages_are_wrapped(name: &str, encoded: Vec<u8>, r: Any)
    requires
        call_ensures(to_any, (name, encoded), r),
    ensures
        is_message(r@, name@, encoded@),
{
}

// ---------------------------------------------------------------------------
// Headers

/// The bytes of some texts.
pub open spec fn encoded_texts(values: Seq<Seq<char>>) -> Seq<Seq<u8>> {
    Seq::new(values.len(), |i: int| encode_utf8(values[i]))
}

/// Values under one name go behind those that stand there.
proof fn values_go_behind(m: Map<Seq<char>, Seq<Seq<u8>>>, name: Seq<char>, values: Seq<Seq<char>>)
    ensures
        values.len() == 0 ==> with_values(m, name, values) == m,
        values.len() > 0 ==> with_values(m, name, values) == m.insert(
            lower(name),
            values_of(m, name) + encoded_texts(values),
        ),
    decreases values.len(),
{
    if values.len() > 0 {
        let before = values.drop_last();
        values_go_behind(m, name, before);
        let held = with_values(m, name, before);
        let all = values_of(m, name) + encoded_texts(values);
        assert(encoded_texts(values) =~= encoded_texts(before).push(encode_utf8(values.last())));
        if before.len() == 0 {
            assert(encoded_texts(before) =~= Seq::<Seq<u8>>::empty());
        }
        assert(values_of(held, name).push(encode_utf8(values.last())) =~= all);
        assert(with_values(m, name, values) =~= m.insert(lower(name), all));
    }
}

/// No headers change nothing.
pub proof fn no_headers_are_added(dest: &mut Headers, headers: &Vec<Header>)
    requires
        call_ensures(apply_headers, (dest, headers), ()),
        headers@.len() == 0,
    ensures
        header_map(*final(dest)) == header_map(*old(dest)),
{
}

/// One header more puts its values, in order, behind those under its name, whatever its
/// case, and leaves every other name alone.
pub proof fn headers_are_added(
    dest: &mut Headers,
    longer: &mut Headers,
    headers: &Vec<Header>,
    more: &Vec<Header>,
)
    requires
        call_ensures(apply_headers, (dest, headers), ()),
        call_ensures(apply_headers, (longer, more), ()),
        header_map(*old(dest)) == header_map(*old(longer)),
        more@.len() == headers@.len() + 1,
        header_views(more@).drop_last() == header_views(headers@),
    ensures
        ({
            let last = more@[headers@.len() as int];
            let before = header_map(*final(dest));
            let after = header_map(*final(longer));
            &&& last.value@.len() == 0 ==> after == before
            &&& last.value@.len() > 0 ==> after.dom().contains(lower(last.name@)) && after[lower(
                last.name@,
            )] == values_of(before, last.name@) + encoded_texts(texts(last.value@))
            &&& forall|name: Seq<char>|
                name != lower(last.name@) ==> (#[trigger] after.dom().contains(name)
                    == before.dom().contains(name) && after[name] == before[name])
        }),
{
    let last = more@[headers@.len() as int];
    assert(header_views(more@).last() == last@);
    assert(texts(last.value@).len() == last.value@.len());
    values_go_behind(header_map(*final(dest)), last.name@, texts(last.value@));
}

/// Texts are read back from their bytes.
proof fn texts_survive(values: Seq<Seq<char>>)
    ensures
        text_values(encoded_texts(values)) == values,
    decreases values.len(),
{
    if values.len() == 0 {
        assert(text_values(encoded_texts(values)) =~= values);
    } else {
        let before = values.drop_last();
        texts_survive(before);
        assert(encoded_texts(values).drop_last() =~= encoded_texts(before));
        assert(encoded_texts(values).last() == encode_utf8(values.last()));
        vstd::utf8::encode_utf8_valid_utf8(values.last());
        vstd::utf8::encode_utf8_decode_utf8(values.last());
        assert(before.push(values.last()) =~= values);
    }
}

/// Values are read one after the other.
proof fn texts_are_read_in_turn(a: Seq<Seq<u8>>, b: Seq<Seq<u8>>)
    ensures
        text_values(a + b) == text_values(a) + text_values(b),
    decreases b.len(),
{
    if b.len() == 0 {
        assert(a + b =~= a);
        assert(text_values(a) + text_values(b) =~= text_values(a));
    } else {
        texts_are_read_in_turn(a, b.drop_last());
        assert((a + b).drop_last() =~= a + b.drop_last());
        assert((a + b).last() == b.last());
        if valid_utf8(b.last()) {
            let v = decode_utf8(b.last());
            assert((text_values(a) + text_values(b.drop_last())).push(v) =~= text_values(a)
                + text_values(b.drop_last()).push(v));
        }
    }
}

/// Whether a name, in lower case, belongs to the protocol.
pub open spec fn of_the_protocol(name: Seq<char>) -> bool {
    ||| name == "grpc-timeout"@
    ||| name == "grpc-status"@
    ||| name == "grpc-message"@
    ||| name == "grpc-status-details-bin"@
    ||| name == "grpc-encoding"@
    ||| name == "grpc-accept-encoding"@
    ||| name == "content-type"@
}

/// A header belongs to the protocol or to the application, whatever the case of its
/// name.
pub proof fn protocol_headers_are_known(name: &str, r: bool)
    requires
        call_ensures(is_transport_header, (name,), r),
    ensures
        r == of_the_protocol(lower(name@)),
{
}

/// Whether `listed` lists the headers of `h`: those of the application only, or all.
pub open spec fn tells_headers(h: Headers, application: bool, listed: Seq<HeaderView>) -> bool {
    &&& forall|i: int, j: int|
        0 <= i < listed.len() && 0 <= j < listed.len() && lower((#[trigger] listed[i]).name)
            == lower((#[trigger] listed[j]).name) ==> i == j
    &&& forall|i: int|
        0 <= i < listed.len() ==> header_map(h).dom().contains(lower((#[trigger] listed[i]).name))
            && listed[i].value.len() > 0 && !(application && of_the_protocol(
            lower(listed[i].name),
        ))
}

/// What is listed of headers.
proof fn listing(h: Headers, application: bool, listed: Seq<HeaderView>)
    requires
        lists(header_map(h), application, listed),
    ensures
        tells_headers(h, application, listed),
{
}

/// A header that holds texts is listed, with all of them, in order.
proof fn texts_are_listed(
    h: Headers,
    application: bool,
    listed: Seq<HeaderView>,
    name: Seq<char>,
    values: Seq<Seq<char>>,
) -> (i: int)
    requires
        lists(header_map(h), application, listed),
        header_map(h).dom().contains(name),
        header_map(h)[name] == encoded_texts(values),
        values.len() > 0,
        !(application && of_the_protocol(name)),
    ensures
        0 <= i < listed.len(),
        lower(listed[i].name) == name,
        listed[i].value == values,
{
    texts_survive(values);
    assert(crate::conformance::service::is_listed(header_map(h), name, application));
    choose|i: int| 0 <= i < listed.len() && lower((#[trigger] listed[i]).name) == name
}

/// Every request header is echoed once, with its texts, in order, and nothing else is.
pub proof fn headers_are_echoed(
    h: &Headers,
    name: Seq<char>,
    values: Seq<Seq<char>>,
    r: Vec<Header>,
)
    requires
        call_ensures(echo_headers, (h,), r),
    ensures
        tells_headers(*h, false, header_views(r@)),
        header_map(*h).dom().contains(name) && header_map(*h)[name] == encoded_texts(values)
            && values.len() > 0 ==> exists|i: int|
            0 <= i < r@.len() && lower((#[trigger] r@[i]).name@) == name && texts(r@[i].value@)
                == values,
{
    let listed = header_views(r@);
    listing(*h, false, listed);
    if header_map(*h).dom().contains(name) && header_map(*h)[name] == encoded_texts(values)
        && values.len() > 0 {
        let i = texts_are_listed(*h, false, listed, name, values);
        assert(listed[i] == r@[i]@);
        assert(lower(r@[i].name@) == name && texts(r@[i].value@) == values);
    }
}

/// Of a header with a value that is no text, the other values are echoed.
pub proof fn values_that_are_no_text_are_left_out(
    h: &Headers,
    name: Seq<char>,
    before: Seq<Seq<char>>,
    broken: Seq<u8>,
    after: Seq<Seq<char>>,
    r: Vec<Header>,
)
    requires
        call_ensures(echo_headers, (h,), r),
        header_map(*h).dom().contains(name),
        header_map(*h)[name] == encoded_texts(before) + seq![broken] + encoded_texts(after),
        !valid_utf8(broken),
        before.len() + after.len() > 0,
    ensures
        exists|i: int|
            0 <= i < r@.len() && lower((#[trigger] r@[i]).name@) == name && texts(r@[i].value@)
                == before + after,
{
    let listed = header_views(r@);
    texts_survive(before);
    texts_survive(after);
    texts_are_read_in_turn(encoded_texts(before) + seq![broken], encoded_texts(after));
    texts_are_read_in_turn(encoded_texts(before), seq![broken]);
    assert(seq![broken].drop_last() =~= Seq::<Seq<u8>>::empty());
    assert(seq![broken].last() == broken);
    reveal_with_fuel(text_values, 2);
    assert(text_values(seq![broken]) =~= Seq::<Seq<char>>::empty());
    assert(text_values(header_map(*h)[name]) =~= before + after);
    assert(crate::conformance::service::is_listed(header_map(*h), name, false));
    let i = choose|i: int| 0 <= i < listed.len() && lower((#[trigger] listed[i]).name) == name;
    assert(listed[i] == r@[i]@);
    assert(lower(r@[i].name@) == name && texts(r@[i].value@) == before + after);
}

/// Of a response, the headers of the application are reported, each once, with its
/// texts; those of the protocol are not. No headers give none.
pub proof fn response_headers_are_reported(
    h: Option<&Headers>,
    name: Seq<char>,
    values: Seq<Seq<char>>,
    r: Vec<Header>,
)
    requires
        call_ensures(crate::conformance::drive::headers_to_proto, (h,), r),
    ensures
        h is None ==> r@.len() == 0,
        h matches Some(h) ==> tells_headers(*h, true, header_views(r@)) && (header_map(
            *h,
        ).dom().contains(name) && header_map(*h)[name] == encoded_texts(values) && values.len()
            > 0 && !of_the_protocol(name) ==> exists|i: int|
            0 <= i < r@.len() && lower((#[trigger] r@[i]).name@) == name && texts(r@[i].value@)
                == values),
{
    let listed = header_views(r@);
    match h {
        None => {
            if r@.len() > 0 {
                assert(crate::conformance::service::is_listed(
                    crate::headers::no_headers(),
                    lower(listed[0].name),
                    true,
                ));
            }
        },
        Some(h) => {
            listing(*h, true, listed);
            if header_map(*h).dom().contains(name) && header_map(*h)[name] == encoded_texts(values)
                && values.len() > 0 && !of_the_protocol(name) {
                let i = texts_are_listed(*h, true, listed, name, values);
                assert(listed[i] == r@[i]@);
                assert(lower(r@[i].name@) == name && texts(r@[i].value@) == values);
            }
        },
    }
}

/// The time left is told in whole milliseconds, rounded down; no deadline, no time.
pub proof fn time_left_is_told(remaining: Option<Duration>, r: Option<i64>)
    requires
        call_ensures(timeout_ms, (remaining,), r),
    ensures
        remaining is None ==> r is None,
        remaining matches Some(d) ==> nanos_of(d) < 0x7FFF_FFFF_FFFF_FFFF * 1_000_000 ==> (
        r matches Some(ms) && ms * 1_000_000 <= nanos_of(d) < (ms + 1) * 1_000_000),
{
}

/// What the server has seen is told as it is.
pub proof fn what_was_seen_is_told(
    headers: Vec<Header>,
    ms: Option<i64>,
    requests: Vec<Any>,
    r: RequestInfo,
)
    requires
        call_ensures(request_info, (headers, ms, requests), r),
    ensures
        header_views(r.request_headers@) == header_views(headers@),
        r.timeout_ms == ms,
        any_views(r.requests@) == any_views(requests@),
{
    assert(r@.request_headers == header_views(r.request_headers@));
    assert(r@.requests == any_views(r.requests@));
    assert(r@.timeout_ms == r.timeout_ms);
}

// ---------------------------------------------------------------------------
// Errors

/// An error becomes the status of its number, `Unknown` where no code has it, with its
/// message, empty where it has none. Its details travel in order, what was seen last.
pub proof fn errors_become_statuses(err: &Error, info: Option<Any>, r: (Status, RpcStatus))
    requires
        call_ensures(status_from_error, (err, info), r),
        0 <= err.code < 256,
    ensures
        err.code <= 16 ==> has_number(r.0.code, err.code as nat),
        err.code > 16 ==> r.0.code == Code::Unknown,
        r.0.metadata@.len() == 0,
        r.1.code == err.code,
        err.message matches Some(m) ==> r.0.message@ == m@ && r.1.message@ == m@,
        err.message is None ==> r.0.message@.len() == 0 && r.1.message@.len() == 0,
        info is None ==> any_views(r.1.details@) == any_views(err.details@),
        info matches Some(any) ==> any_views(r.1.details@) == any_views(err.details@).push(any@),
{
    let code = r.0.code;
    assert(r.0@.code == code && r.0@.message == r.0.message@ && r.0@.metadata
        == r.0.metadata@);
    assert(r.1@.code == r.1.code && r.1@.message == r.1.message@ && r.1@.details == any_views(
        r.1.details@,
    ));
    if err.code <= 16 {
        code_of(err.code as nat);
    }
}

/// Details go into the trailers as base64 without padding, in place of what stood there,
/// and nothing else changes.
pub proof fn details_are_written(trailers: &mut Headers, encoded: &Vec<u8>)
    requires
        call_ensures(write_details, (trailers, encoded), ()),
    ensures
        carries(*final(trailers), "grpc-status-details-bin"@, base64_unpadded(encoded@)),
        forall|name: Seq<char>|
            name != "grpc-status-details-bin"@ ==> (#[trigger] header_map(
                *final(trailers),
            ).dom().contains(name) == header_map(*old(trailers)).dom().contains(name)
                && header_map(*final(trailers))[name] == header_map(*old(trailers))[name]),
{
    reveal_strlit("grpc-status-details-bin");
    lower_case_is_kept("grpc-status-details-bin"@);
}

// ---------------------------------------------------------------------------
// Single responses

/// What a reply tells of what was seen.
pub open spec fn told(reply: SingleReply) -> Option<InfoView> {
    match reply.outcome {
        Ok(payload) => optional_info(payload.request_info),
        Err(failure) => optional_info(failure.info),
    }
}

/// Whether a single reply does what is asked for: it waits as long, raises the error or
/// sends the data, none where none is asked for, and tells what was seen either way.
pub open spec fn does_as_asked(
    reply: SingleReply,
    def: Option<UnaryResponseDefinition>,
    received: Headers,
    ms: Option<i64>,
    requests: Seq<AnyView>,
) -> bool {
    &&& def is None ==> reply.delay_ms == 0
    &&& def matches Some(d) ==> reply.delay_ms == d.response_delay_ms
    &&& match def {
        Some(d) => match d.response {
            Some(Response::Error(e)) => reply.outcome matches Err(f) && f.error@ == e@,
            Some(Response::ResponseData(data)) => reply.outcome matches Ok(p) && p.data@ == data@,
            None => reply.outcome matches Ok(p) && p.data@.len() == 0,
        },
        None => reply.outcome matches Ok(p) && p.data@.len() == 0,
    }
    &&& told(reply) matches Some(info) && info.timeout_ms == ms && info.requests == requests
        && lists(header_map(received), false, info.request_headers)
}

/// What a reply's contract says, piece by piece.
proof fn reply_does_as_asked(
    reply: SingleReply,
    def: Option<UnaryResponseDefinition>,
    info: InfoView,
    received: Headers,
    ms: Option<i64>,
    requests: Seq<AnyView>,
)
    requires
        crate::conformance::service::answers_single(reply, def, info),
        info.timeout_ms == ms,
        info.requests == requests,
        lists(header_map(received), false, info.request_headers),
    ensures
        does_as_asked(reply, def, received, ms, requests),
{
    if let Ok(p) = reply.outcome {
        assert(p@.data == p.data@);
        assert(p@.request_info == optional_info(p.request_info));
    }
}

/// A call with a single response is answered as its definition asks, and the definition's
/// headers and trailers are added to the response.
pub proof fn single_calls_are_answered(
    received: &Headers,
    remaining: Option<Duration>,
    def: Option<UnaryResponseDefinition>,
    requests: Vec<Any>,
    headers: &mut Headers,
    trailers: &mut Headers,
    ms: Option<i64>,
    r: SingleReply,
)
    requires
        call_ensures(
            respond_single,
            (received, remaining, def, requests, headers, trailers),
            r,
        ),
        call_ensures(timeout_ms, (remaining,), ms),
    ensures
        does_as_asked(r, def, *received, ms, any_views(requests@)),
        def is None ==> header_map(*final(headers)) == header_map(*old(headers)) && header_map(
            *final(trailers),
        ) == header_map(*old(trailers)),
{
    let info = choose|info: InfoView|
        crate::conformance::service::tells(
            info,
            header_map(*received),
            remaining,
            any_views(requests@),
        ) && #[trigger] crate::conformance::service::answers_single(r, def, info);
    reply_does_as_asked(r, def, info, *received, ms, any_views(requests@));
}

/// The headers and trailers that a definition names are added as they are on their own.
pub proof fn definitions_add_headers(
    received: &Headers,
    remaining: Option<Duration>,
    def: UnaryResponseDefinition,
    requests: Vec<Any>,
    headers: &mut Headers,
    trailers: &mut Headers,
    h: &mut Headers,
    t: &mut Headers,
    r: SingleReply,
)
    requires
        call_ensures(
            respond_single,
            (received, remaining, Some(def), requests, headers, trailers),
            r,
        ),
        call_ensures(apply_headers, (h, &def.response_headers), ()),
        call_ensures(apply_headers, (t, &def.response_trailers), ()),
        header_map(*old(h)) == header_map(*old(headers)),
        header_map(*old(t)) == header_map(*old(trailers)),
    ensures
        header_map(*final(headers)) == header_map(*final(h)),
        header_map(*final(trailers)) == header_map(*final(t)),
{
}

/// `Unary` echoes its request under its own type, and adds the headers asked for.
pub proof fn unary_calls_are_answered(
    service: &ConformanceServiceImpl,
    received: &Headers,
    remaining: Option<Duration>,
    request: Vec<u8>,
    def: Option<UnaryResponseDefinition>,
    headers: &mut Headers,
    trailers: &mut Headers,
    h: &mut Headers,
    t: &mut Headers,
    ms: Option<i64>,
    r: SingleReply,
) -> (requests: Seq<AnyView>)
    requires
        call_ensures(
            ConformanceServiceImpl::unary,
            (service, received, remaining, request, def, headers, trailers),
            r,
        ),
        call_ensures(timeout_ms, (remaining,), ms),
        def matches Some(d) ==> call_ensures(apply_headers, (h, &d.response_headers), ())
            && call_ensures(apply_headers, (t, &d.response_trailers), ()),
        header_map(*old(h)) == header_map(*old(headers)),
        header_map(*old(t)) == header_map(*old(trailers)),
    ensures
        requests.len() == 1,
        is_message(requests[0], "UnaryRequest"@, request@),
        does_as_asked(r, def, *received, ms, requests),
        def is Some ==> header_map(*final(headers)) == header_map(*final(h)) && header_map(
            *final(trailers),
        ) == header_map(*final(t)),
        def is None ==> header_map(*final(headers)) == header_map(*old(headers)) && header_map(
            *final(trailers),
        ) == header_map(*old(trailers)),
{
    let requests = seq![crate::conformance::service::wrapped("UnaryRequest"@, request@)];
    let info = choose|info: InfoView|
        crate::conformance::service::tells(info, header_map(*received), remaining, requests)
            && #[trigger] crate::conformance::service::answers_single(r, def, info);
    reply_does_as_asked(r, def, info, *received, ms, requests);
    requests
}

/// `IdempotentUnary` echoes its request under its own type, and adds the headers asked
/// for.
pub proof fn idempotent_calls_are_answered(
    service: &ConformanceServiceImpl,
    received: &Headers,
    remaining: Option<Duration>,
    request: Vec<u8>,
    def: Option<UnaryResponseDefinition>,
    headers: &mut Headers,
    trailers: &mut Headers,
    h: &mut Headers,
    t: &mut Headers,
    ms: Option<i64>,
    r: SingleReply,
) -> (requests: Seq<AnyView>)
    requires
        call_ensures(
            ConformanceServiceImpl::idempotent_unary,
            (service, received, remaining, request, def, headers, trailers),
            r,
        ),
        call_ensures(timeout_ms, (remaining,), ms),
        def matches Some(d) ==> call_ensures(apply_headers, (h, &d.response_headers), ())
            && call_ensures(apply_headers, (t, &d.response_trailers), ()),
        header_map(*old(h)) == header_map(*old(headers)),
        header_map(*old(t)) == header_map(*old(trailers)),
    ensures
        requests.len() == 1,
        is_message(requests[0], "IdempotentUnaryRequest"@, request@),
        does_as_asked(r, def, *received, ms, requests),
        def is Some ==> header_map(*final(headers)) == header_map(*final(h)) && header_map(
            *final(trailers),
        ) == header_map(*final(t)),
        def is None ==> header_map(*final(headers)) == header_map(*old(headers)) && header_map(
            *final(trailers),
        ) == header_map(*old(trailers)),
{
    let requests = seq![
        crate::conformance::service::wrapped("IdempotentUnaryRequest"@, request@),
    ];
    let info = choose|info: InfoView|
        crate::conformance::service::tells(info, header_map(*received), remaining, requests)
            && #[trigger] crate::conformance::service::answers_single(r, def, info);
    reply_does_as_asked(r, def, info, *received, ms, requests);
    requests
}

/// `Unimplemented` is not implemented.
pub proof fn unimplemented_is_refused(service: &ConformanceServiceImpl, r: Status)
    requires
        call_ensures(ConformanceServiceImpl::unimplemented, (service,), r),
    ensures
        states(
            r,
            Code::Unimplemented,
            "connectrpc.conformance.v1.ConformanceService.Unimplemented is not implemented"@,
        ),
{
    assert(r@.code == r.code && r@.message == r.message@ && r@.metadata == r.metadata@);
}

/// A client stream starts with nothing asked and nothing seen.
pub proof fn client_streams_start_empty(r: ClientStreamRequests)
    requires
        call_ensures(ClientStreamRequests::new, (), r),
    ensures
        r.definition() is None,
        r.seen().len() == 0,
{
}

/// The first request of a client stream says what is asked for, and no later one does;
/// every request is seen, in order.
pub proof fn client_streams_take_requests(
    stream: &mut ClientStreamRequests,
    request: Vec<u8>,
    def: Option<UnaryResponseDefinition>,
)
    requires
        call_ensures(ClientStreamRequests::push, (stream, request, def), ()),
    ensures
        old(stream).seen().len() == 0 ==> final(stream).definition() == def,
        old(stream).seen().len() > 0 ==> final(stream).definition() == old(stream).definition(),
        final(stream).seen().len() == old(stream).seen().len() + 1,
        final(stream).seen().drop_last() == old(stream).seen(),
        is_message(final(stream).seen().last(), "ClientStreamRequest"@, request@),
{
    assert(final(stream).seen().drop_last() =~= old(stream).seen());
}

/// A client stream is answered as its first request asks, with every request seen.
pub proof fn client_streams_are_answered(
    stream: ClientStreamRequests,
    received: &Headers,
    remaining: Option<Duration>,
    headers: &mut Headers,
    trailers: &mut Headers,
    h: &mut Headers,
    t: &mut Headers,
    ms: Option<i64>,
    r: SingleReply,
)
    requires
        call_ensures(
            ClientStreamRequests::client_stream,
            (stream, received, remaining, headers, trailers),
            r,
        ),
        call_ensures(timeout_ms, (remaining,), ms),
        stream.definition() matches Some(d) ==> call_ensures(
            apply_headers,
            (h, &d.response_headers),
            (),
        ) && call_ensures(apply_headers, (t, &d.response_trailers), ()),
        header_map(*old(h)) == header_map(*old(headers)),
        header_map(*old(t)) == header_map(*old(trailers)),
    ensures
        does_as_asked(r, stream.definition(), *received, ms, stream.seen()),
        stream.definition() is Some ==> header_map(*final(headers)) == header_map(*final(h))
            && header_map(*final(trailers)) == header_map(*final(t)),
        stream.definition() is None ==> header_map(*final(headers)) == header_map(*old(headers))
            && header_map(*final(trailers)) == header_map(*old(trailers)),
{
    let info = choose|info: InfoView|
        crate::conformance::service::tells(
            info,
            header_map(*received),
            remaining,
            stream.seen(),
        ) && #[trigger] crate::conformance::service::answers_single(r, stream.definition(), info);
    reply_does_as_asked(r, stream.definition(), info, *received, ms, stream.seen());
}

// ---------------------------------------------------------------------------
// Streams of responses

/// A server stream sends the data asked for, in order; the first response tells what was
/// seen, or the error does where there is no response, and nothing else does.
pub proof fn server_streams_are_answered(
    service: &ConformanceServiceImpl,
    received: &Headers,
    remaining: Option<Duration>,
    request: Vec<u8>,
    def: StreamResponseDefinition,
    headers: &mut Headers,
    trailers: &mut Headers,
    ms: Option<i64>,
    r: StreamReply,
) -> (info: InfoView)
    requires
        call_ensures(
            ConformanceServiceImpl::server_stream,
            (service, received, remaining, request, Some(def), headers, trailers),
            r,
        ),
        call_ensures(timeout_ms, (remaining,), ms),
    ensures
        info.timeout_ms == ms,
        info.requests.len() == 1,
        is_message(info.requests[0], "ServerStreamRequest"@, request@),
        lists(header_map(*received), false, info.request_headers),
        r.delay_ms == def.response_delay_ms,
        r.responses@.len() == def.response_data@.len(),
        forall|i: int|
            0 <= i < r.responses@.len() ==> (#[trigger] r.responses@[i]).data@
                == def.response_data@[i]@,
        forall|i: int|
            0 < i < r.responses@.len() ==> (#[trigger] r.responses@[i]).request_info is None,
        r.responses@.len() > 0 ==> optional_info(r.responses@[0].request_info) == Some(info),
        r.failure is Some <==> def.error is Some,
        r.failure matches Some(f) ==> f.error@ == def.error->0@ && optional_info(f.info) == (
        if r.responses@.len() == 0 {
            Some(info)
        } else {
            None
        }),
{
    let info = choose|info: InfoView|
        crate::conformance::service::tells(
            info,
            header_map(*received),
            remaining,
            seq![crate::conformance::service::wrapped("ServerStreamRequest"@, request@)],
        ) && #[trigger] crate::conformance::stream::answers_stream(r, Some(def@), info);
    let views = crate::conformance::payload_views(r.responses@);
    assert(views.len() == r.responses@.len());
    assert(def@.response_data.len() == def.response_data@.len());
    assert forall|i: int| 0 <= i < r.responses@.len() implies (#[trigger] r.responses@[i]).data@
        == def.response_data@[i]@ && optional_info(r.responses@[i].request_info) == (if i == 0 {
        Some(info)
    } else {
        None
    }) by {
        assert(views[i] == r.responses@[i]@);
    }
    if let Some(f) = r.failure {
        assert(f@.error == f.error@ && f@.info == optional_info(f.info));
    }
    info
}

/// The headers and trailers asked for are added to a server stream's response.
pub proof fn server_streams_add_headers(
    service: &ConformanceServiceImpl,
    received: &Headers,
    remaining: Option<Duration>,
    request: Vec<u8>,
    def: StreamResponseDefinition,
    headers: &mut Headers,
    trailers: &mut Headers,
    h: &mut Headers,
    t: &mut Headers,
    r: StreamReply,
)
    requires
        call_ensures(
            ConformanceServiceImpl::server_stream,
            (service, received, remaining, request, Some(def), headers, trailers),
            r,
        ),
        call_ensures(apply_headers, (h, &def.response_headers), ()),
        call_ensures(apply_headers, (t, &def.response_trailers), ()),
        header_map(*old(h)) == header_map(*old(headers)),
        header_map(*old(t)) == header_map(*old(trailers)),
    ensures
        header_map(*final(headers)) == header_map(*final(h)),
        header_map(*final(trailers)) == header_map(*final(t)),
{
    assert(def@.response_headers == header_views(def.response_headers@));
}

/// A server stream that is asked for nothing is empty.
pub proof fn empty_server_streams(
    service: &ConformanceServiceImpl,
    received: &Headers,
    remaining: Option<Duration>,
    request: Vec<u8>,
    headers: &mut Headers,
    trailers: &mut Headers,
    r: StreamReply,
)
    requires
        call_ensures(
            ConformanceServiceImpl::server_stream,
            (
                service,
                received,
                remaining,
                request,
                None::<StreamResponseDefinition>,
                headers,
                trailers,
            ),
            r,
        ),
    ensures
        r.responses@.len() == 0,
        r.failure is None,
        r.delay_ms == 0,
        header_map(*final(headers)) == header_map(*old(headers)),
        header_map(*final(trailers)) == header_map(*old(trailers)),
{
}

/// A response stream gives each response after its delay, in order, then its status at
/// once, and then nothing.
pub proof fn response_streams_run(stream: &mut ResponseStream, r: Option<StreamItem>)
    requires
        call_ensures(ResponseStream::next, (stream,), r),
    ensures
        old(stream).left().len() > 0 ==> {
            &&& r matches Some(item) && item.delay_ms == old(stream).delay() && item.item is Ok
                && item.item->Ok_0 == old(stream).left().first()
            &&& old(stream).left() == seq![old(stream).left().first()] + final(stream).left()
            &&& final(stream).last() == old(stream).last()
        },
        old(stream).left().len() == 0 && old(stream).last() is Some ==> {
            &&& r matches Some(item) && item.delay_ms == 0 && item.item is Err && item.item->Err_0
                == old(stream).last()->0
            &&& final(stream).last() is None && final(stream).left().len() == 0
        },
        old(stream).left().len() == 0 && old(stream).last() is None ==> r is None,
        final(stream).delay() == old(stream).delay(),
{
    if old(stream).left().len() > 0 {
        assert(old(stream).left() =~= seq![old(stream).left().first()] + final(stream).left());
    }
}

/// A new response stream holds what it is given.
pub proof fn response_streams_start(
    responses: Vec<ConformancePayload>,
    terminal: Option<Status>,
    delay_ms: u32,
    r: ResponseStream,
)
    requires
        call_ensures(ResponseStream::new, (responses, terminal, delay_ms), r),
    ensures
        r.left() == responses@,
        r.last() == terminal,
        r.delay() == delay_ms,
{
}

// ---------------------------------------------------------------------------
// Two-way calls

/// A two-way call starts with what was seen and with its first request, which says what
/// is asked for; where that could not be read, the call ends with its status.
pub proof fn two_way_calls_start(
    service: &ConformanceServiceImpl,
    received: &Headers,
    remaining: Option<Duration>,
    first: Result<Option<BidiStreamRequest>, Status>,
    headers: &mut Headers,
    trailers: &mut Headers,
    ms: Option<i64>,
    r: Result<BidiResponderImpl, Status>,
)
    requires
        call_ensures(
            ConformanceServiceImpl::bidi_stream,
            (service, received, remaining, first, headers, trailers),
            r,
        ),
        call_ensures(timeout_ms, (remaining,), ms),
    ensures
        first matches Err(status) ==> (r matches Err(s) && s == status),
        first is Ok ==> (r matches Ok(b) && {
            &&& lists(header_map(*received), false, b@.request_headers)
            &&& b@.timeout_ms == ms
            &&& b@.requests.len() == 0
            &&& b@.resp_num == 0
            &&& b@.receiving
        }),
        first matches Ok(Some(request)) ==> (r matches Ok(b) && {
            &&& b@.first == Some(request.encoded@)
            &&& b@.full_duplex == request.full_duplex
            &&& b@.def is Some <==> request.response_definition is Some
            &&& request.response_definition matches Some(d) ==> b@.def == Some(d@)
        }),
        first matches Ok(None) ==> (r matches Ok(b) && b@.first is None && b@.def is None
            && !b@.full_duplex),
{
}

/// The headers and trailers that the first request asks for are added to the response,
/// and none where it asks for nothing.
pub proof fn two_way_calls_add_headers(
    service: &ConformanceServiceImpl,
    received: &Headers,
    remaining: Option<Duration>,
    request: BidiStreamRequest,
    headers: &mut Headers,
    trailers: &mut Headers,
    h: &mut Headers,
    t: &mut Headers,
    r: Result<BidiResponderImpl, Status>,
)
    requires
        call_ensures(
            ConformanceServiceImpl::bidi_stream,
            (
                service,
                received,
                remaining,
                Ok::<Option<BidiStreamRequest>, Status>(Some(request)),
                headers,
                trailers,
            ),
            r,
        ),
        request.response_definition matches Some(d) ==> call_ensures(
            apply_headers,
            (h, &d.response_headers),
            (),
        ) && call_ensures(apply_headers, (t, &d.response_trailers), ()),
        header_map(*old(h)) == header_map(*old(headers)),
        header_map(*old(t)) == header_map(*old(trailers)),
    ensures
        request.response_definition is Some ==> header_map(*final(headers)) == header_map(
            *final(h),
        ) && header_map(*final(trailers)) == header_map(*final(t)),
        request.response_definition is None ==> header_map(*final(headers)) == header_map(
            *old(headers),
        ) && header_map(*final(trailers)) == header_map(*old(trailers)),
{
    if let Some(d) = request.response_definition {
        assert(d@.response_headers == header_views(d.response_headers@));
        assert(d@.response_trailers == header_views(d.response_trailers@));
    }
}

/// Whether an action sends this data, after the delay asked for, with this told.
pub open spec fn sends(
    action: BidiAction,
    delay_ms: u32,
    data: Seq<u8>,
    info: Option<InfoView>,
) -> bool {
    action matches BidiAction::Send { delay_ms: delay, payload } && delay == delay_ms
        && payload.data@ == data && optional_info(payload.request_info) == info
}

/// What a two-way call does once no request is read any more: it sends the data that is
/// left, then raises the error, then ends. Only the first response of the call tells
/// what was seen, and the error where there was none.
pub open spec fn winds_up(before: BidiView, after: BidiView, action: BidiAction) -> bool {
    let seen = if before.resp_num == 0 {
        Some(
            InfoView {
                request_headers: before.request_headers,
                timeout_ms: before.timeout_ms,
                requests: before.requests,
            },
        )
    } else {
        None
    };
    &&& !after.receiving
    &&& after.resp_num == before.resp_num
    &&& after.def == before.def
    &&& match before.def {
        None => action matches BidiAction::Done(Ok(())),
        Some(def) => if before.resp_num < def.response_data.len() {
            sends(
                action,
                def.response_delay_ms,
                def.response_data[before.resp_num as int],
                seen,
            )
        } else if def.error is Some {
            action matches BidiAction::Fail(f) && f.error@ == def.error->0 && optional_info(f.info)
                == seen
        } else {
            action matches BidiAction::Done(Ok(()))
        },
    }
}

/// The contract of the end of the requests, piece by piece.
proof fn drained_winds_up(before: BidiView, after: BidiView, action: BidiAction)
    requires
        (after, action@) == crate::conformance::bidi::drained(before),
    ensures
        winds_up(before, after, action),
{
    match action {
        BidiAction::Send { delay_ms, payload } => {
            assert(payload@.data == payload.data@);
            assert(payload@.request_info == optional_info(payload.request_info));
        },
        BidiAction::Fail(f) => {
            assert(f@.error == f.error@ && f@.info == optional_info(f.info));
        },
        BidiAction::Done(result) => {},
        BidiAction::Recv => {},
    }
}

/// What a two-way call does with a request. In half duplex it only keeps it. In full
/// duplex it answers with the next data, the first time with all that was seen, later
/// with the request alone; and winds up where no data is left.
pub open spec fn takes_request(
    before: BidiView,
    encoded: Seq<u8>,
    after: BidiView,
    action: BidiAction,
) -> bool {
    exists|request: AnyView| #[trigger]
        is_message(request, "BidiStreamRequest"@, encoded) && {
            let requests = before.requests.push(request);
            if !before.full_duplex {
                action is Recv && after == (BidiView { requests, ..before })
            } else if before.def is None || before.resp_num
                >= before.def->0.response_data.len() {
                winds_up(BidiView { requests, ..before }, after, action)
            } else {
                &&& after == (BidiView { requests: Seq::empty(), ..before })
                &&& sends(
                    action,
                    before.def->0.response_delay_ms,
                    before.def->0.response_data[before.resp_num as int],
                    Some(
                        if before.resp_num == 0 {
                            InfoView {
                                request_headers: before.request_headers,
                                timeout_ms: before.timeout_ms,
                                requests,
                            }
                        } else {
                            InfoView {
                                request_headers: Seq::empty(),
                                timeout_ms: None,
                                requests,
                            }
                        },
                    ),
                )
            }
        }
}

/// The contract of a request, piece by piece.
proof fn requested_is_taken(before: BidiView, encoded: Seq<u8>, after: BidiView, action: BidiAction)
    requires
        (after, action@) == crate::conformance::bidi::requested(before, encoded),
    ensures
        takes_request(before, encoded, after, action),
{
    let request = crate::conformance::service::wrapped("BidiStreamRequest"@, encoded);
    assert(is_message(request, "BidiStreamRequest"@, encoded));
    let kept = BidiView { requests: before.requests.push(request), ..before };
    if before.full_duplex && (before.def is None || before.resp_num
        >= before.def->0.response_data.len()) {
        drained_winds_up(kept, after, action);
    }
    match action {
        BidiAction::Send { delay_ms, payload } => {
            assert(payload@.data == payload.data@);
            assert(payload@.request_info == optional_info(payload.request_info));
        },
        _ => {},
    }
}

/// A two-way call takes its first request first, and reads one where there is none.
pub proof fn two_way_calls_begin(b: &mut BidiResponderImpl, r: BidiAction)
    requires
        call_ensures(BidiResponderImpl::respond, (b,), r),
    ensures
        old(b)@.first matches Some(encoded) ==> takes_request(
            BidiView { first: None, ..old(b)@ },
            encoded,
            final(b)@,
            r,
        ),
        old(b)@.first is None ==> r is Recv && final(b)@ == old(b)@,
{
    if let Some(encoded) = old(b)@.first {
        requested_is_taken(BidiView { first: None, ..old(b)@ }, encoded, final(b)@, r);
    }
}

/// A two-way call takes each request as it comes, winds up when they end, and ends with
/// the status of a failed read.
pub proof fn two_way_calls_receive(
    b: &mut BidiResponderImpl,
    item: Option<Result<Vec<u8>, Status>>,
    r: BidiAction,
)
    requires
        call_ensures(BidiResponderImpl::received, (b, item), r),
    ensures
        item matches Some(Ok(encoded)) ==> takes_request(old(b)@, encoded@, final(b)@, r),
        item is None ==> winds_up(old(b)@, final(b)@, r),
        item matches Some(Err(status)) ==> (r matches BidiAction::Done(Err(s)) && s == status)
            && final(b)@ == old(b)@,
{
    match item {
        Some(Ok(encoded)) => {
            requested_is_taken(old(b)@, encoded@, final(b)@, r);
        },
        None => {
            drained_winds_up(old(b)@, final(b)@, r);
        },
        Some(Err(status)) => {},
    }
}

/// Behind a response that was sent, a two-way call reads on, or winds up where no request
/// is read any more; a failed send ends it with its status.
pub proof fn two_way_calls_go_on(b: &mut BidiResponderImpl, result: Result<(), Status>, r: BidiAction)
    requires
        call_ensures(BidiResponderImpl::sent, (b, result), r),
    ensures
        result is Ok ==> final(b)@.resp_num == old(b)@.resp_num + 1,
        result is Ok && old(b)@.receiving ==> r is Recv && final(b)@ == (BidiView {
            resp_num: old(b)@.resp_num + 1,
            ..old(b)@
        }),
        result is Ok && !old(b)@.receiving ==> winds_up(
            BidiView { resp_num: old(b)@.resp_num + 1, ..old(b)@ },
            final(b)@,
            r,
        ),
        result matches Err(status) ==> (r matches BidiAction::Done(Err(s)) && s == status)
            && final(b)@ == old(b)@,
{
    if result is Ok && !old(b)@.receiving {
        drained_winds_up(
            BidiView { resp_num: old(b)@.resp_num + 1, ..old(b)@ },
            final(b)@,
            r,
        );
    }
}

} // verus!
