//! Laws of the server half.

use super::encoding::{all_tokens, named, wire_name};
use super::frame::frames;
use super::metadata::{insertable, insertable_is_valid};
use super::status::{has_number, number_of, states};
use super::{absent_text_is_none, carried_text_is_read, carries, lacks, lower_case, lower_case_is_kept};
use crate::codec::{encodes, Codec};
use crate::content_type::{content_suffix, has_te_trailers, parse_grpc_content_type};
use crate::encoding::{outcome, Encoding, DEFAULT_MAX_MESSAGE_SIZE};
use crate::frame::reader::{ReadEvent, ReadState, ReadStep, StateView};
use crate::frame::writer::encode_payload;
use crate::headers::{header_map, inserted, values_of};
use crate::metadata::ValueView;
use crate::server::bidi::{after_prologue, after_setup, finish_bidi, Continuation};
use crate::server::body::{BodyStep, OneShotBody, StreamBody, StreamEvent};
use crate::server::dispatch::{
    begin_call, error_response, error_response_with_trailers, extract_request_encoding,
    extract_timeout, finish_unary, negotiate_response_encoding, offers, prepare_grpc_conn,
    race_outcome, CallSetup, OneRequest, OneRequestStep, Race,
};
use crate::server::grpc_conn::GrpcServerConn;
use crate::server::streaming::{Channel, ChannelStep, RecvStep, RequestStream};
use crate::status::{plain_status, written, Code, Status, StatusView};
use crate::text::{debug_quoted, decimal, split_on, trimmed};
use crate::timeout::nanos_of;
use core::time::Duration;
use trillium_http::Headers;
use vstd::prelude::*;
use vstd::utf8::encode_utf8;

verus! {

proof fn header_names()
    ensures
        lower_case("content-type"@),
        lower_case("grpc-encoding"@),
        lower_case("grpc-accept-encoding"@),
        lower_case("grpc-timeout"@),
        lower_case("te"@),
        "content-type"@.len() == 12,
        "grpc-encoding"@.len() == 13,
        "grpc-accept-encoding"@.len() == 20,
        "grpc-timeout"@.len() == 12,
        "content-type"@ != "grpc-timeout"@,
        "te"@.len() == 2,
{
    reveal_strlit("content-type");
    reveal_strlit("grpc-encoding");
    reveal_strlit("grpc-accept-encoding");
    reveal_strlit("grpc-timeout");
    reveal_strlit("te");
    assert("content-type"@[0] == 'c');
    assert("grpc-timeout"@[0] == 'g');
}

// ---------------------------------------------------------------------------
// Codecs

/// Whether a comma-separated list has an element, white space around it aside.
pub open spec fn listed(list: Seq<char>, name: Seq<char>) -> bool {
    exists|i: int|
        0 <= i < split_on(list, ',').len() && trimmed(#[trigger] split_on(list, ',')[i]) == name
}

/// Of the codecs that the client lists, the response has gzip before deflate, deflate
/// before zstd, and none of them where none is listed.
pub proof fn the_response_codec(h: &Headers, list: Seq<char>, r: Encoding)
    requires
        call_ensures(negotiate_response_encoding, (h,), r),
        carries(*h, "grpc-accept-encoding"@, list),
    ensures
        r == Encoding::Gzip <==> listed(list, "gzip"@),
        r == Encoding::Deflate <==> listed(list, "deflate"@) && !listed(list, "gzip"@),
        r == Encoding::Zstd <==> listed(list, "zstd"@) && !listed(list, "deflate"@) && !listed(
            list,
            "gzip"@,
        ),
{
    header_names();
    carried_text_is_read(*h, "grpc-accept-encoding"@, list);
    same_offer(list, "gzip"@);
    same_offer(list, "deflate"@);
    same_offer(list, "zstd"@);
}

proof fn same_offer(list: Seq<char>, name: Seq<char>)
    ensures
        offers(list, name) == listed(list, name),
{
    if listed(list, name) {
        let i = choose|i: int|
            0 <= i < split_on(list, ',').len() && trimmed(#[trigger] split_on(list, ',')[i])
                == name;
        assert(trimmed(split_on(list, ',')[i]) == name);
    }
}

/// A client that lists no codec gets its responses uncompressed.
pub proof fn no_list_no_codec(h: &Headers, r: Encoding)
    requires
        call_ensures(negotiate_response_encoding, (h,), r),
        lacks(*h, "grpc-accept-encoding"@),
    ensures
        r == Encoding::Identity,
{
    header_names();
    absent_text_is_none(*h, "grpc-accept-encoding"@);
}

/// The request's messages are in the codec that its header names; a codec that the
/// library does not have is `Unimplemented`.
pub proof fn the_request_codec(h: &Headers, name: Seq<char>, e: Encoding, r: Result<Encoding, Status>)
    requires
        call_ensures(extract_request_encoding, (h,), r),
        carries(*h, "grpc-encoding"@, name),
    ensures
        r == Ok::<Encoding, Status>(e) <==> wire_name(e, name),
        r matches Err(s) ==> states(
            s,
            Code::Unimplemented,
            "unsupported grpc-encoding "@ + debug_quoted(name) + "; accepted: "@
                + "identity,gzip,deflate,zstd"@,
        ),
{
    header_names();
    carried_text_is_read(*h, "grpc-encoding"@, name);
    named(name, e);
    all_tokens();
}

/// A request that names no codec is not compressed.
pub proof fn no_name_no_codec(h: &Headers, r: Result<Encoding, Status>)
    requires
        call_ensures(extract_request_encoding, (h,), r),
        lacks(*h, "grpc-encoding"@),
    ensures
        r == Ok::<Encoding, Status>(Encoding::Identity),
{
    header_names();
    absent_text_is_none(*h, "grpc-encoding"@);
}

// ---------------------------------------------------------------------------
// Preflight

/// A request is accepted where its content type stands for the codec served and it has
/// `te: trailers`; it is answered 415 where the content type does not, and otherwise
/// 400, and the response's headers are then left alone.
pub proof fn requests_are_accepted(
    request: &Headers,
    response: &mut Headers,
    suffix: &str,
    value: &str,
    parsed: Option<String>,
    te: bool,
    r: Result<u16, u16>,
)
    requires
        call_ensures(prepare_grpc_conn, (request, response, suffix), r),
        carries(*request, "content-type"@, value@),
        call_ensures(parse_grpc_content_type, (value,), parsed),
        call_ensures(has_te_trailers, (request,), te),
    ensures
        ({
            let served = parsed matches Some(found) && found@ == suffix@;
            &&& r is Ok <==> served && te
            &&& r is Ok ==> r == Ok::<u16, u16>(200)
            &&& !served ==> r == Err::<u16, u16>(415)
            &&& served && !te ==> r == Err::<u16, u16>(400)
            &&& r is Err ==> header_map(*final(response)) == header_map(*old(response))
        }),
{
    header_names();
    carried_text_is_read(*request, "content-type"@, value@);
}

/// A request without a content type is answered 415.
pub proof fn no_type_no_service(
    request: &Headers,
    response: &mut Headers,
    suffix: &str,
    r: Result<u16, u16>,
)
    requires
        call_ensures(prepare_grpc_conn, (request, response, suffix), r),
        lacks(*request, "content-type"@),
    ensures
        r == Err::<u16, u16>(415),
        header_map(*final(response)) == header_map(*old(response)),
{
    header_names();
    absent_text_is_none(*request, "content-type"@);
}

/// The response to an accepted request says its codec, which codecs the server takes,
/// and how its own messages are compressed. Its other headers are left alone.
pub proof fn responses_say_their_codec(
    request: &Headers,
    response: &mut Headers,
    suffix: &str,
    e: Encoding,
    name: Seq<char>,
    other: Seq<char>,
    r: Result<u16, u16>,
)
    requires
        call_ensures(prepare_grpc_conn, (request, response, suffix), r),
        r is Ok,
        call_ensures(negotiate_response_encoding, (request,), e),
        wire_name(e, name),
        other != "content-type"@,
        other != "grpc-accept-encoding"@,
        other != "grpc-encoding"@,
    ensures
        carries(*final(response), "content-type"@, "application/grpc+"@ + suffix@),
        carries(*final(response), "grpc-accept-encoding"@, "identity,gzip,deflate,zstd"@),
        e != Encoding::Identity ==> carries(*final(response), "grpc-encoding"@, name),
        e == Encoding::Identity ==> (header_map(*final(response)).dom().contains("grpc-encoding"@)
            <==> header_map(*old(response)).dom().contains("grpc-encoding"@)),
        header_map(*final(response)).dom().contains(other) <==> header_map(
            *old(response),
        ).dom().contains(other),
        header_map(*final(response)).dom().contains(other) ==> header_map(*final(response))[other]
            == header_map(*old(response))[other],
{
    header_names();
    lower_case_is_kept("content-type"@);
    lower_case_is_kept("grpc-accept-encoding"@);
    lower_case_is_kept("grpc-encoding"@);
    all_tokens();
}

// ---------------------------------------------------------------------------
// Replies

/// Whether a fresh reply has a body and trailers.
pub open spec fn replies_with(
    b: OneShotBody,
    content: Seq<u8>,
    trailers: Map<Seq<char>, Seq<Seq<u8>>>,
) -> bool {
    &&& b.content() == content
    &&& b.position() == 0
    &&& b.pending_trailers() == Some(trailers)
}

/// Whether trailers say a code, and a message where there is one.
pub open spec fn trailers_say(
    m: Map<Seq<char>, Seq<Seq<u8>>>,
    code: Code,
    message: Seq<char>,
) -> bool {
    &&& exists|number: nat| #[trigger]
        has_number(code, number) && m.dom().contains("grpc-status"@) && m["grpc-status"@] == seq![
            encode_utf8(decimal(number)),
        ]
    &&& message.len() > 0 ==> m.dom().contains("grpc-message"@) && m["grpc-message"@] == seq![
        encode_utf8(crate::status::percent_encoded(encode_utf8(message))),
    ]
}

/// A written status is what its trailers say, on top of what stood there.
pub proof fn written_says(
    base: Map<Seq<char>, Seq<Seq<u8>>>,
    code: Code,
    message: Seq<char>,
    metadata: Seq<(Seq<char>, ValueView)>,
    other: Seq<char>,
)
    requires
        insertable(metadata),
    ensures
        ({
            let m = written(base, StatusView { code, message, metadata });
            &&& trailers_say(m, code, message)
            &&& metadata.len() == 0 && other != "grpc-status"@ && other != "grpc-message"@ ==> {
                &&& m.dom().contains(other) <==> base.dom().contains(other)
                &&& base.dom().contains(other) ==> m[other] == base[other]
            }
        }),
{
    let s = StatusView { code, message, metadata };
    super::status::trailer_names();
    super::status::prefixed();
    lower_case_is_kept("grpc-status"@);
    lower_case_is_kept("grpc-message"@);
    number_of(code);
    let with_code = inserted(base, "grpc-status"@, decimal(code.number() as nat));
    let full = if message.len() == 0 {
        with_code
    } else {
        inserted(
            with_code,
            "grpc-message"@,
            crate::status::percent_encoded(encode_utf8(message)),
        )
    };
    let m = written(base, s);
    assert(m == crate::metadata::appended(full, metadata));
    super::metadata::key_rules("grpc-status"@, Seq::empty());
    super::metadata::key_rules("grpc-message"@, Seq::empty());
    insertable_is_valid(metadata);
    crate::metadata::reserved_untouched(full, metadata, "grpc-status"@);
    crate::metadata::reserved_untouched(full, metadata, "grpc-message"@);
    crate::metadata::appended_values(full, metadata, "grpc-status"@);
    crate::metadata::appended_values(full, metadata, "grpc-message"@);
    assert(values_of(m, "grpc-status"@) == seq![encode_utf8(decimal(code.number() as nat))]);
}

/// An error is answered with an empty body, and trailers that say it.
pub proof fn errors_are_answered(status: Status, trailers: Headers, r: OneShotBody)
    requires
        call_ensures(error_response_with_trailers, (status, trailers), r),
        insertable(status.metadata@),
    ensures
        exists|m: Map<Seq<char>, Seq<Seq<u8>>>| #[trigger]
            replies_with(r, Seq::empty(), m) && trailers_say(m, status.code, status.message@),
{
    let m = written(header_map(trailers), status@);
    assert(r.replies_error(status@, header_map(trailers)));
    assert(status@ == (StatusView {
        code: status.code,
        message: status.message@,
        metadata: status.metadata@,
    }));
    written_says(header_map(trailers), status.code, status.message@, status.metadata@, Seq::empty());
    assert(replies_with(r, Seq::empty(), m));
}

/// A call is run with what its headers say; a codec that is not known is answered
/// first, a malformed time limit second, each with its status.
pub proof fn calls_begin_as_their_headers_say(
    h: &Headers,
    encoding: Result<Encoding, Status>,
    limit: Result<Option<Duration>, Status>,
    e: Encoding,
    r: Result<CallSetup, OneShotBody>,
)
    requires
        call_ensures(begin_call, (h,), r),
        call_ensures(extract_request_encoding, (h,), encoding),
        call_ensures(extract_timeout, (h,), limit),
        call_ensures(negotiate_response_encoding, (h,), e),
    ensures
        r is Ok <==> encoding is Ok && limit is Ok,
        r matches Ok(setup) ==> {
            &&& setup.request_encoding == encoding->Ok_0
            &&& setup.response_encoding == e
            &&& setup.timeout is Some <==> limit->Ok_0 is Some
            &&& setup.timeout is Some ==> nanos_of(setup.timeout->0) == nanos_of(limit->Ok_0->0)
        },
        r matches Err(body) ==> exists|m: Map<Seq<char>, Seq<Seq<u8>>>| #[trigger]
            replies_with(body, Seq::empty(), m) && match encoding {
                Err(s) => trailers_say(m, s.code, s.message@),
                Ok(_) => trailers_say(m, limit->Err_0.code, limit->Err_0.message@),
            },
{
    let none = Seq::<(Seq<char>, ValueView)>::empty();
    if let Err(body) = r {
        let s = match encoding {
            Err(s) => s@,
            Ok(_) => limit->Err_0@,
        };
        assert(s.metadata =~= none);
        written_says(crate::headers::no_headers(), s.code, s.message, none, Seq::empty());
        assert(replies_with(body, Seq::empty(), written(crate::headers::no_headers(), s)));
    }
}

/// Exactly one request: the one that came, once the stream has ended behind it.
pub proof fn exactly_one_request<T>(
    first: OneRequest<T>,
    a: Result<Option<T>, Status>,
    then: OneRequestStep<T>,
    b: Result<Option<T>, Status>,
    r: OneRequestStep<T>,
)
    requires
        call_ensures(OneRequest::<T>::new, (), first),
        call_ensures(OneRequest::<T>::received, (first, a), then),
        then matches OneRequestStep::Receive(second) ==> call_ensures(
            OneRequest::<T>::received,
            (second, b),
            r,
        ),
    ensures
        a matches Ok(None) ==> (then matches OneRequestStep::Done(Err(s)) && states(
            s,
            Code::Unimplemented,
            "expected exactly one request message, but the request stream was empty"@,
        )),
        a matches Err(s) ==> then == OneRequestStep::<T>::Done(Err(s)),
        a matches Ok(Some(t)) ==> then is Receive && match b {
            Ok(None) => r == OneRequestStep::Done(Ok(t)),
            Ok(Some(_)) => r matches OneRequestStep::Done(Err(s)) && states(
                s,
                Code::Unimplemented,
                "expected exactly one request message, but the request stream had more than one"@,
            ),
            Err(s) => r == OneRequestStep::<T>::Done(Err(s)),
        },
{
}

/// A call that is cut says why: `Cancelled` on shutdown, `DeadlineExceeded` on the
/// deadline. One that is not has its own result.
pub proof fn cut_calls<T>(race: Race<T>, r: Result<T, Status>)
    requires
        call_ensures(race_outcome::<T>, (race,), r),
    ensures
        race matches Race::Finished(own) ==> r == own,
        race is ShuttingDown ==> (r matches Err(s) && states(
            s,
            Code::Cancelled,
            "connection shutting down"@,
        )),
        race is DeadlinePassed ==> (r matches Err(s) && states(
            s,
            Code::DeadlineExceeded,
            "deadline elapsed"@,
        )),
{
}

/// Whether a reply has an empty body and trailers that say a status.
pub open spec fn answers(b: OneShotBody, s: StatusView) -> bool {
    exists|m: Map<Seq<char>, Seq<Seq<u8>>>| #[trigger]
        replies_with(b, Seq::empty(), m) && trailers_say(m, s.code, s.message)
}

proof fn answered(b: OneShotBody, s: StatusView, base: Map<Seq<char>, Seq<Seq<u8>>>)
    requires
        b.replies_error(s, base),
    ensures
        insertable(s.metadata) ==> answers(b, s),
{
    if insertable(s.metadata) {
        written_says(base, s.code, s.message, s.metadata, Seq::empty());
        assert(s == (StatusView { code: s.code, message: s.message, metadata: s.metadata }));
        assert(replies_with(b, Seq::empty(), written(base, s)));
    }
}

/// A single response is its frame, and trailers that say success on top of those that
/// the method set; an error is an empty body, and trailers that say it.
pub proof fn single_responses<C: Codec<Resp>, Resp>(
    result: Result<Resp, Status>,
    e: Encoding,
    trailers: Headers,
    r: OneShotBody,
    other: Seq<char>,
)
    requires
        call_ensures(finish_unary::<C, Resp>, (result, e, trailers), r),
        result matches Err(s) ==> insertable(s.metadata@),
        other != "grpc-status"@,
        other != "grpc-message"@,
    ensures
        result matches Err(s) ==> exists|m: Map<Seq<char>, Seq<Seq<u8>>>| #[trigger]
            replies_with(r, Seq::empty(), m) && trailers_say(m, s.code, s.message@),
        result matches Ok(resp) ==> exists|payload: Result<Seq<u8>, StatusView>| #[trigger]
            encodes::<C, Resp>(resp, payload) && match payload {
                Err(s) => r.content().len() == 0 && (insertable(s.metadata) ==> answers(r, s)),
                Ok(bytes) => match crate::frame::writer::framed(bytes, e) {
                    Err(s) => r.content().len() == 0 && (insertable(s.metadata) ==> answers(r, s)),
                    Ok(frame) => exists|m: Map<Seq<char>, Seq<Seq<u8>>>| #[trigger]
                        replies_with(r, frame, m) && trailers_say(m, Code::OK, Seq::empty()) && (
                        header_map(trailers).dom().contains(other) ==> m.dom().contains(other)
                            && m[other] == header_map(trailers)[other]),
                },
            },
{
    let base = header_map(trailers);
    match result {
        Err(s) => {
            assert(s@ == (StatusView {
                code: s.code,
                message: s.message@,
                metadata: s.metadata@,
            }));
            written_says(base, s.code, s.message@, s.metadata@, Seq::empty());
            assert(replies_with(r, Seq::empty(), written(base, s@)));
        },
        Ok(resp) => {
            let none = Seq::<(Seq<char>, ValueView)>::empty();
            written_says(base, Code::OK, Seq::empty(), none, other);
            let payload = choose|payload: Result<Seq<u8>, StatusView>| #[trigger]
                encodes::<C, Resp>(resp, payload) && match payload {
                    Err(s) => r.replies_error(s, base),
                    Ok(bytes) => match crate::frame::writer::framed(bytes, e) {
                        Err(s) => r.replies_error(s, base),
                        Ok(frame) => r.replies(
                            frame,
                            written(base, plain_status(Code::OK, Seq::empty())),
                        ),
                    },
                };
            assert(encodes::<C, Resp>(resp, payload));
            if let Err(s) = payload {
                answered(r, s, base);
            }
            if let Ok(bytes) = payload {
                if let Err(s) = crate::frame::writer::framed(bytes, e) {
                    answered(r, s, base);
                }
                if let Ok(frame) = crate::frame::writer::framed(bytes, e) {
                    assert(replies_with(
                        r,
                        frame,
                        written(base, plain_status(Code::OK, Seq::empty())),
                    ));
                }
            }
        },
    }
}

/// A reply is read from its start, in the order of its bytes and without a gap, and its
/// trailers are given once.
pub proof fn replies_are_read_in_order(b: &mut OneShotBody, n: usize, r: Vec<u8>)
    requires
        call_ensures(OneShotBody::read, (b, n), r),
        0 <= old(b).position() <= old(b).content().len(),
    ensures
        r@.len() == (if n < old(b).content().len() - old(b).position() {
            n as int
        } else {
            old(b).content().len() - old(b).position()
        }),
        r@ == old(b).content().subrange(old(b).position(), old(b).position() + r@.len()),
        final(b).position() == old(b).position() + r@.len(),
        final(b).content() == old(b).content(),
        final(b).pending_trailers() == old(b).pending_trailers(),
{
    assert(r@ =~= old(b).content().subrange(old(b).position(), old(b).position() + r@.len()));
}

/// A reply is made of its bytes and its trailers, and the trailers are given once.
pub proof fn trailers_are_given_once(
    bytes: Vec<u8>,
    trailers: Headers,
    fresh: OneShotBody,
    b: &mut OneShotBody,
    r: Option<Headers>,
)
    requires
        call_ensures(OneShotBody::new, (bytes, trailers), fresh),
        *old(b) == fresh,
        call_ensures(OneShotBody::trailers, (b,), r),
    ensures
        fresh.content() == bytes@,
        fresh.position() == 0,
        r matches Some(h) && header_map(h) == header_map(trailers),
        final(b).pending_trailers() is None,
        final(b).content() == bytes@,
{
}

// ---------------------------------------------------------------------------
// Streams of responses

/// A stream's item becomes the bytes to be read, as the frame of its message; whatever
/// ends the stream leaves its status: success at its end, the item's own where that is
/// an error, and that of the cancellation.
pub proof fn streams_are_taken_in<C: Codec<Resp>, Resp>(b: &mut StreamBody, event: StreamEvent<Resp>)
    requires
        call_ensures(StreamBody::polled::<C, Resp>, (b, event), ()),
    ensures
        event is Ended ==> final(b)@.finished && (final(b)@.status matches Some(s) && s.code
            == Code::OK && s.message.len() == 0),
        event matches StreamEvent::Cancelled(s) ==> final(b)@.finished && final(b)@.status == Some(
            s@,
        ),
        event matches StreamEvent::Item(Err(s)) ==> final(b)@.finished && final(b)@.status
            == Some(s@),
        event matches StreamEvent::Item(Ok(resp)) ==> exists|
            payload: Result<Seq<u8>, StatusView>,
        |
            #[trigger]
            encodes::<C, Resp>(resp, payload) && match payload {
                Err(s) => final(b)@.finished && final(b)@.status == Some(s),
                Ok(bytes) => match crate::frame::writer::framed(bytes, old(b)@.encoding) {
                    Ok(frame) => final(b)@.unread == frame && final(b)@.finished
                        == old(b)@.finished && final(b)@.status == old(b)@.status,
                    Err(s) => final(b)@.finished && final(b)@.status == Some(s),
                },
            },
        final(b)@.base_trailers == old(b)@.base_trailers,
        final(b)@.encoding == old(b)@.encoding,
        !(event matches StreamEvent::Item(Ok(_))) ==> final(b)@.unread == old(b)@.unread,
{
    if let StreamEvent::Item(Ok(resp)) = event {
        let payload = choose|payload: Result<Seq<u8>, StatusView>| #[trigger]
            encodes::<C, Resp>(resp, payload) && match crate::server::body::framed_payload(
                payload,
                old(b)@.encoding,
            ) {
                Ok(frame) => final(b)@ == (crate::server::body::StreamBodyView {
                    unread: frame,
                    ..old(b)@
                }),
                Err(s) => crate::server::body::ended_with(old(b)@, s, final(b)@),
            };
        assert(encodes::<C, Resp>(resp, payload));
    }
}

/// A read gives the next bytes of the frame, as many as there is room for; the end of
/// the body once the stream has ended; and asks for the next item otherwise.
pub proof fn stream_bodies_are_read(b: &mut StreamBody, n: usize, r: BodyStep)
    requires
        call_ensures(StreamBody::read, (b, n), r),
    ensures
        r is Poll <==> old(b)@.unread.len() == 0 && !old(b)@.finished,
        r matches BodyStep::Bytes(bytes) ==> bytes@ + final(b)@.unread == old(b)@.unread,
        r matches BodyStep::Bytes(bytes) ==> bytes@.len() == (if n < old(b)@.unread.len() {
            n as int
        } else {
            old(b)@.unread.len() as int
        }),
        final(b)@.finished == old(b)@.finished,
        final(b)@.status == old(b)@.status,
        final(b)@.base_trailers == old(b)@.base_trailers,
{
    if let BodyStep::Bytes(bytes) = r {
        crate::server::body::reads_are_in_order(old(b)@.unread, n as nat);
        if old(b)@.unread.len() == 0 {
            assert(bytes@ + final(b)@.unread =~= old(b)@.unread);
        }
    }
}

/// The trailers of a stream say the status that it has ended with.
pub proof fn streams_end_with_their_status(b: &mut StreamBody, r: Headers, s: StatusView)
    requires
        call_ensures(StreamBody::trailers, (b,), r),
        old(b)@.status == Some(s),
        insertable(s.metadata),
    ensures
        trailers_say(header_map(r), s.code, s.message),
{
    written_says(old(b)@.base_trailers, s.code, s.message, s.metadata, Seq::empty());
    assert(s == (StatusView { code: s.code, message: s.message, metadata: s.metadata }));
}

/// The trailers of a stream that was not told how it ended say success.
pub proof fn streams_end_well_by_default(b: &mut StreamBody, r: Headers)
    requires
        call_ensures(StreamBody::trailers, (b,), r),
        old(b)@.status is None,
    ensures
        trailers_say(header_map(r), Code::OK, Seq::empty()),
{
    let none = Seq::<(Seq<char>, ValueView)>::empty();
    written_says(old(b)@.base_trailers, Code::OK, Seq::empty(), none, Seq::empty());
}

/// What a handler has set stays in the trailers of its stream, beside a status without
/// metadata of its own; a second time neither is there.
pub proof fn streams_keep_their_trailers(b: &mut StreamBody, r: Headers, name: Seq<char>)
    requires
        call_ensures(StreamBody::trailers, (b,), r),
        old(b)@.status matches Some(s) ==> s.metadata.len() == 0,
        name != "grpc-status"@,
        name != "grpc-message"@,
    ensures
        header_map(r).dom().contains(name) == old(b)@.base_trailers.dom().contains(name),
        old(b)@.base_trailers.dom().contains(name) ==> header_map(r)[name]
            == old(b)@.base_trailers[name],
        final(b)@.status is None,
        final(b)@.base_trailers == Map::<Seq<char>, Seq<Seq<u8>>>::empty(),
{
    super::status::trailer_names();
    lower_case_is_kept("grpc-status"@);
    lower_case_is_kept("grpc-message"@);
}

/// The trailers of a bidirectional call say how its method has ended.
pub proof fn bidi_calls_end_with_their_status(result: Result<(), Status>, trailers: Headers, r: Headers)
    requires
        call_ensures(finish_bidi, (result, trailers), r),
        result matches Err(s) ==> insertable(s.metadata@),
    ensures
        result is Ok ==> trailers_say(header_map(r), Code::OK, Seq::empty()),
        result matches Err(s) ==> trailers_say(header_map(r), s.code, s.message@),
{
    let none = Seq::<(Seq<char>, ValueView)>::empty();
    match result {
        Ok(()) => {
            written_says(header_map(trailers), Code::OK, Seq::empty(), none, Seq::empty());
        },
        Err(s) => {
            assert(s@ == (StatusView {
                code: s.code,
                message: s.message@,
                metadata: s.metadata@,
            }));
            written_says(header_map(trailers), s.code, s.message@, s.metadata@, Seq::empty());
        },
    }
}

/// A method that is refused before it starts is answered with its status; one that is
/// not goes on, with its trailers and codecs.
pub proof fn prologues<R>(
    result: Result<R, Status>,
    trailers: Headers,
    inbound: Encoding,
    outbound: Encoding,
    r: Continuation<R, Channel>,
)
    requires
        call_ensures(after_prologue::<R>, (result, trailers, inbound, outbound), r),
        result matches Err(s) ==> insertable(s.metadata@),
    ensures
        result matches Ok(own) ==> (r matches Continuation::Continue(next, channel) && next == own
            && channel@.response_trailers == header_map(trailers) && channel@.inbound_encoding
            == inbound && channel@.outbound_encoding == outbound && channel@.state
            == StateView::Prefix(Seq::empty())),
        result matches Err(s) ==> (r matches Continuation::Reply(body) && exists|
            m: Map<Seq<char>, Seq<Seq<u8>>>,
        |
            #[trigger]
            replies_with(body, Seq::empty(), m) && trailers_say(m, s.code, s.message@)),
{
    if let Err(s) = result {
        assert(s@ == (StatusView { code: s.code, message: s.message@, metadata: s.metadata@ }));
        written_says(header_map(trailers), s.code, s.message@, s.metadata@, Seq::empty());
        assert(replies_with(r->Reply_0, Seq::empty(), written(header_map(trailers), s@)));
    }
}

/// A stream that is refused before it starts is answered with its status; one that is
/// not is read into a body with its trailers and codec.
pub proof fn setups<S>(
    result: Result<S, Status>,
    e: Encoding,
    trailers: Headers,
    r: Continuation<S, StreamBody>,
)
    requires
        call_ensures(after_setup::<S>, (result, e, trailers), r),
        result matches Err(s) ==> insertable(s.metadata@),
    ensures
        result matches Ok(own) ==> (r matches Continuation::Continue(next, body) && next == own
            && body@.base_trailers == header_map(trailers) && body@.encoding == e
            && !body@.finished && body@.status is None && body@.unread.len() == 0),
        result matches Err(s) ==> (r matches Continuation::Reply(body) && exists|
            m: Map<Seq<char>, Seq<Seq<u8>>>,
        |
            #[trigger]
            replies_with(body, Seq::empty(), m) && trailers_say(m, s.code, s.message@)),
{
    if let Err(s) = result {
        assert(s@ == (StatusView { code: s.code, message: s.message@, metadata: s.metadata@ }));
        written_says(header_map(trailers), s.code, s.message@, s.metadata@, Seq::empty());
        assert(replies_with(r->Reply_0, Seq::empty(), written(header_map(trailers), s@)));
    }
}

// ---------------------------------------------------------------------------
// Streams of requests

/// Whether `out` is what the codec made of some bytes.
pub open spec fn decoded_from<C: Codec<T>, T>(bytes: Seq<u8>, out: Result<T, Status>) -> bool {
    exists|b: &[u8]| #[trigger] call_ensures(C::decode, (b,), out) && b@ == bytes
}

/// A stream of requests reads as its frames are read, up to the cap on a message, and
/// gives each message as its codec decodes it.
pub proof fn requests_are_received<C: Codec<T>, T>(
    s: &mut RequestStream<C, T>,
    reader: &mut ReadState,
    event: ReadEvent,
    step: ReadStep,
    r: RecvStep<T>,
)
    requires
        call_ensures(RequestStream::<C, T>::absorb, (s, event), r),
        old(reader)@ == old(s).state(),
        call_ensures(
            ReadState::absorb,
            (reader, event, DEFAULT_MAX_MESSAGE_SIZE, old(s).encoding()),
            step,
        ),
    ensures
        final(s).state() == final(reader)@,
        final(s).encoding() == old(s).encoding(),
        step matches ReadStep::Read(n) ==> r == RecvStep::<T>::Read(n),
        step is End ==> r == RecvStep::<T>::Done(Ok(None)),
        step matches ReadStep::Payload(Err(e)) ==> (r matches RecvStep::Done(Err(x)) && x@ == e@),
        step matches ReadStep::Payload(Ok(bytes)) ==> exists|out: Result<T, Status>| #[trigger]
            decoded_from::<C, T>(bytes@, out) && r == RecvStep::Done(
                match out {
                    Ok(t) => Ok(Some(t)),
                    Err(e) => Err(e),
                },
            ),
{
    reveal_received::<C, T>();
}

proof fn reveal_received<C: Codec<T>, T>()
    ensures
        forall|bytes: Seq<u8>, out: Result<T, Status>|
            #[trigger] crate::codec::decodes::<C, T>(bytes, out) ==> decoded_from::<C, T>(
                bytes,
                out,
            ),
{
}

/// A channel reads as its frames are read, and gives each message as its codec decodes
/// it; an error ends its reading.
pub proof fn channels_receive<C: Codec<Req>, Req>(
    channel: &mut Channel,
    reader: &mut ReadState,
    event: ReadEvent,
    step: ReadStep,
    r: ChannelStep<Req>,
)
    requires
        call_ensures(Channel::absorb::<C, Req>, (channel, event), r),
        old(reader)@ == old(channel)@.state,
        call_ensures(
            ReadState::absorb,
            (reader, event, DEFAULT_MAX_MESSAGE_SIZE, old(channel)@.inbound_encoding),
            step,
        ),
    ensures
        final(channel)@.response_trailers == old(channel)@.response_trailers,
        final(channel)@.inbound_encoding == old(channel)@.inbound_encoding,
        final(channel)@.outbound_encoding == old(channel)@.outbound_encoding,
        step matches ReadStep::Read(n) ==> r == ChannelStep::<Req>::Read(n) && final(channel)@.state
            == final(reader)@,
        step is End ==> r == ChannelStep::<Req>::Done(None),
        step matches ReadStep::Payload(Err(e)) ==> (r matches ChannelStep::Done(Some(Err(x))) && x@
            == e@) && final(channel)@.state is Done,
        step matches ReadStep::Payload(Ok(bytes)) ==> exists|out: Result<Req, Status>| #[trigger]
            decoded_from::<C, Req>(bytes@, out) && r == ChannelStep::Done(Some(out)) && (
            out is Ok ==> final(channel)@.state == final(reader)@) && (out is Err
                ==> final(channel)@.state is Done),
{
    reveal_received::<C, Req>();
}

/// A channel sends a message as the frame of its encoding, and hands on the codec's
/// error where it has none.
pub proof fn channels_send<C: Codec<Resp>, Resp>(
    channel: &Channel,
    value: &Resp,
    r: Result<Vec<u8>, Status>,
)
    requires
        call_ensures(Channel::send::<C, Resp>, (channel, value), r),
    ensures
        exists|payload: Result<Seq<u8>, StatusView>| #[trigger]
            encodes::<C, Resp>(*value, payload) && match payload {
                Err(s) => r is Err && r->Err_0@ == s,
                Ok(bytes) => outcome(r) == crate::frame::writer::framed(
                    bytes,
                    channel@.outbound_encoding,
                ),
            },
{
}

/// A call's surface has the headers of its request, empty trailers, the codec that it
/// is given, and the time limit that the request's header says.
pub proof fn surfaces<C>(
    request: Headers,
    response: Headers,
    e: Encoding,
    text: Seq<char>,
    digits: Seq<char>,
    unit: char,
    nanos: nat,
    conn: GrpcServerConn<C>,
    limit: Option<Duration>,
)
    requires
        call_ensures(GrpcServerConn::<C>::new, (request, response, e), conn),
        call_ensures(GrpcServerConn::<C>::timeout, (&conn,), limit),
    ensures
        conn@.request_headers == header_map(request),
        conn@.response_headers == header_map(response),
        conn@.response_trailers == Map::<Seq<char>, Seq<Seq<u8>>>::empty(),
        conn@.request_encoding == e,
        lacks(request, "grpc-timeout"@) ==> limit is None,
        carries(request, "grpc-timeout"@, text) && super::timeout::limit_form(
            text,
            digits,
            unit,
            nanos,
        ) ==> (limit matches Some(d) && nanos_of(d) == crate::text::digits_value(digits) * nanos),
{
    header_names();
    if lacks(request, "grpc-timeout"@) {
        absent_text_is_none(request, "grpc-timeout"@);
    }
    if carries(request, "grpc-timeout"@, text) && super::timeout::limit_form(
        text,
        digits,
        unit,
        nanos,
    ) {
        carried_text_is_read(request, "grpc-timeout"@, text);
        super::timeout::form_is_read(text, digits, unit, nanos);
    }
}

/// What a method sets on its call's surface is what is sent.
pub proof fn surfaces_are_sent<C>(conn: GrpcServerConn<C>, r: (Headers, Headers))
    requires
        call_ensures(GrpcServerConn::<C>::into_parts, (conn,), r),
    ensures
        header_map(r.0) == conn@.response_headers,
        header_map(r.1) == conn@.response_trailers,
{
}

/// Failed writes are `Unavailable`.
pub proof fn failed_writes(e: &str, r: Status)
    requires
        call_ensures(Channel::write_failed, (e,), r),
    ensures
        r.code == Code::Unavailable,
        r.message@ == "write error: "@ + e@,
{
    assert(r@.code == r.code && r@.message == r.message@);
}

/// An error is answered with its status, over no other trailers.
pub proof fn errors_are_answered_alone(
    status: Status,
    trailers: Headers,
    alone: OneShotBody,
    own: OneShotBody,
)
    requires
        call_ensures(error_response, (status,), alone),
        call_ensures(error_response_with_trailers, (status, trailers), own),
        header_map(trailers) == Map::<Seq<char>, Seq<Seq<u8>>>::empty(),
    ensures
        replies_with(alone, Seq::empty(), written(Map::empty(), status@)),
        replies_with(own, Seq::empty(), written(Map::empty(), status@)),
{
}

/// A call shows the headers of its request, and reads its messages from the first, in the
/// codec of the request.
pub proof fn calls_show_their_request<C: Codec<Req>, Req>(
    conn: &GrpcServerConn<C>,
    h: &Headers,
    s: RequestStream<C, Req>,
)
    requires
        call_ensures(GrpcServerConn::<C>::received_headers, (conn,), h),
        call_ensures(GrpcServerConn::<C>::requests::<Req>, (conn,), s),
    ensures
        header_map(*h) == conn@.request_headers,
        s.state() == StateView::Prefix(Seq::empty()),
        s.encoding() == conn@.request_encoding,
{
}

/// A status without metadata of its own leaves every other trailer alone.
proof fn others_are_kept(m: Map<Seq<char>, Seq<Seq<u8>>>, s: StatusView, name: Seq<char>)
    requires
        s.metadata.len() == 0,
        name != "grpc-status"@,
        name != "grpc-message"@,
    ensures
        written(m, s).dom().contains(name) == m.dom().contains(name),
        m.dom().contains(name) ==> written(m, s)[name] == m[name],
{
    super::status::trailer_names();
    lower_case_is_kept("grpc-status"@);
    lower_case_is_kept("grpc-message"@);
}

/// What a method has set stays in the trailers of an error reply, beside a status without
/// metadata of its own.
pub proof fn errors_keep_their_trailers(
    status: Status,
    trailers: Headers,
    r: OneShotBody,
    name: Seq<char>,
)
    requires
        call_ensures(error_response_with_trailers, (status, trailers), r),
        status.metadata@.len() == 0,
        name != "grpc-status"@,
        name != "grpc-message"@,
    ensures
        exists|m: Map<Seq<char>, Seq<Seq<u8>>>| #[trigger]
            replies_with(r, Seq::empty(), m) && m.dom().contains(name) == header_map(
                trailers,
            ).dom().contains(name) && (header_map(trailers).dom().contains(name) ==> m[name]
                == header_map(trailers)[name]),
{
    let m = written(header_map(trailers), status@);
    assert(r.replies_error(status@, header_map(trailers)));
    assert(status@.metadata == status.metadata@);
    others_are_kept(header_map(trailers), status@, name);
    assert(replies_with(r, Seq::empty(), m));
}

/// What a method has set stays in the trailers of a bidirectional call, beside a status
/// without metadata of its own.
pub proof fn bidi_calls_keep_their_trailers(
    result: Result<(), Status>,
    trailers: Headers,
    r: Headers,
    name: Seq<char>,
)
    requires
        call_ensures(finish_bidi, (result, trailers), r),
        result matches Err(s) ==> s.metadata@.len() == 0,
        name != "grpc-status"@,
        name != "grpc-message"@,
    ensures
        header_map(r).dom().contains(name) == header_map(trailers).dom().contains(name),
        header_map(trailers).dom().contains(name) ==> header_map(r)[name] == header_map(
            trailers,
        )[name],
{
    match result {
        Ok(()) => {
            others_are_kept(header_map(trailers), plain_status(Code::OK, Seq::empty()), name);
        },
        Err(s) => {
            assert(s@.metadata == s.metadata@);
            others_are_kept(header_map(trailers), s@, name);
        },
    }
}

} // verus!
