//! Server-side request dispatch.
//!
//! [`prepare_grpc_conn`] is the shared preflight (content-type and
//! `te: trailers` validation, response content-type and
//! `grpc-accept-encoding`). [`begin_call`] reads the rest of the request
//! headers, [`OneRequest`] enforces the cardinality of single-request shapes,
//! [`race_outcome`] settles a race against shutdown and deadline, and
//! [`finish_unary`] turns the result of a service method into the response.

use crate::codec::{encodes, Codec};
use crate::content_type::{has_te_trailers, parse_grpc_content_type};
use crate::encoding::Encoding;
use crate::frame::writer::{encode_frame, framed};
use crate::headers::{headers_get_str, headers_insert, headers_new};
use crate::server::body::OneShotBody;
use crate::status::{plain_status, Code, Status, StatusView};
use crate::text::{debug_text, split, str_eq, trim};
use crate::timeout::{nanos_of, parse_grpc_timeout, timeout_nanos};
use core::time::Duration;
use trillium_http::Headers;
use vstd::prelude::*;

verus! {

// ---------------------------------------------------------------------------
// Codec negotiation

/// Whether a comma-separated list offers `token`, white space aside.
pub open spec fn offers(list: Seq<char>, token: Seq<char>) -> bool {
    exists|i: int|
        0 <= i < crate::text::split_on(list, ',').len() && #[trigger] crate::text::trimmed(
            crate::text::split_on(list, ',')[i],
        ) == token
}

/// The codec for the response: the first of the library's codecs, in its own
/// order, that the request's `grpc-accept-encoding` offers; `Identity` if it
/// offers none of the others.
pub open spec fn negotiated(m: Map<Seq<char>, Seq<Seq<u8>>>) -> Encoding {
    match crate::headers::single_text(m, "grpc-accept-encoding"@) {
        None => Encoding::Identity,
        Some(list) => if offers(list, Encoding::Gzip.token()) {
            Encoding::Gzip
        } else if offers(list, Encoding::Deflate.token()) {
            Encoding::Deflate
        } else if offers(list, Encoding::Zstd.token()) {
            Encoding::Zstd
        } else {
            Encoding::Identity
        },
    }
}

/// The codec of the request's messages.
pub open spec fn request_codec(m: Map<Seq<char>, Seq<Seq<u8>>>) -> Result<Encoding, StatusView> {
    match crate::headers::single_text(m, "grpc-encoding"@) {
        None => Ok(Encoding::Identity),
        Some(name) => match crate::encoding::codec_named(name) {
            Some(e) => Ok(e),
            None => Err(unsupported_encoding(name)),
        },
    }
}

/// The refusal of a codec that the library does not know.
pub open spec fn unsupported_encoding(name: Seq<char>) -> StatusView {
    plain_status(
        Code::Unimplemented,
        "unsupported grpc-encoding "@ + crate::text::debug_quoted(name) + "; accepted: "@
            + crate::encoding::token_list(Encoding::ALL@),
    )
}

fn list_offers(tokens: &Vec<String>, token: &str) -> (r: bool)
    ensures
        r == exists|i: int|
            0 <= i < tokens@.len() && #[trigger] crate::text::trimmed(tokens@[i]@) == token@,
{
    let mut i: usize = 0;
    while i < tokens.len()
        invariant
            i <= tokens@.len(),
            forall|j: int|
                0 <= j < i ==> #[trigger] crate::text::trimmed(tokens@[j]@) != token@,
        decreases tokens@.len() - i,
    {
        let candidate = trim(tokens[i].as_str());
        if str_eq(candidate.as_str(), token) {
            assert(crate::text::trimmed(tokens@[i as int]@) == token@);
            return true;
        }
        i = i + 1;
    }
    false
}

/// Pick the response encoding by intersecting the client's
/// `grpc-accept-encoding` with the library's codecs in their own order (prefer
/// gzip, deflate, zstd, then identity).
pub fn negotiate_response_encoding(request_headers: &Headers) -> (r: Encoding)
    ensures
        r == negotiated(crate::headers::header_map(*request_headers)),
{
    let accepted = match headers_get_str(request_headers, "grpc-accept-encoding") {
        None => {
            return Encoding::Identity;
        },
        Some(list) => list,
    };
    let tokens = split(accepted.as_str(), ',');
    proof {
        assert forall|token: Seq<char>|
            (exists|i: int|
                0 <= i < tokens@.len() && #[trigger] crate::text::trimmed(tokens@[i]@) == token)
                == #[trigger] offers(accepted@, token) by {
            let pieces = crate::text::split_on(accepted@, ',');
            assert(pieces.len() == tokens@.len());
            if exists|i: int|
                0 <= i < tokens@.len() && #[trigger] crate::text::trimmed(tokens@[i]@) == token {
                let i = choose|i: int|
                    0 <= i < tokens@.len() && #[trigger] crate::text::trimmed(tokens@[i]@) == token;
                assert(crate::text::trimmed(pieces[i]) == token);
            }
            if offers(accepted@, token) {
                let i = choose|i: int|
                    0 <= i < pieces.len() && #[trigger] crate::text::trimmed(pieces[i]) == token;
                assert(crate::text::trimmed(tokens@[i]@) == token);
            }
        }
    }
    if list_offers(&tokens, "gzip") {
        Encoding::Gzip
    } else if list_offers(&tokens, "deflate") {
        Encoding::Deflate
    } else if list_offers(&tokens, "zstd") {
        Encoding::Zstd
    } else {
        Encoding::Identity
    }
}

/// Resolve the inbound message encoding from `grpc-encoding`. Missing is
/// `Identity`. Unknown is `Unimplemented`.
pub fn extract_request_encoding(request_headers: &Headers) -> (r: Result<Encoding, Status>)
    ensures
        match request_codec(crate::headers::header_map(*request_headers)) {
            Ok(e) => r == Ok::<Encoding, Status>(e),
            Err(s) => r is Err && r->Err_0@ == s,
        },
{
    match headers_get_str(request_headers, "grpc-encoding") {
        None => Ok(Encoding::Identity),
        Some(name) => match Encoding::from_grpc_encoding(name.as_str()) {
            Some(e) => Ok(e),
            None => {
                let text = String::new().concat("unsupported grpc-encoding ").concat(
                    debug_text(name.as_str()).as_str(),
                ).concat("; accepted: ").concat(Encoding::accepted_encodings());
                assert(text@ =~= "unsupported grpc-encoding "@ + crate::text::debug_quoted(name@)
                    + "; accepted: "@ + crate::encoding::token_list(Encoding::ALL@));
                Err(Status::unimplemented(text.as_str()))
            },
        },
    }
}

// ---------------------------------------------------------------------------
// Preflight

/// Whether the request's content-type names the codec served.
pub open spec fn codec_matches(m: Map<Seq<char>, Seq<Seq<u8>>>, suffix: Seq<char>) -> bool {
    match crate::headers::single_text(m, "content-type"@) {
        Some(value) => crate::content_type::content_suffix(value) == Some(suffix),
        None => false,
    }
}

/// The HTTP status that a request is answered with: 415 for a content-type that
/// does not name the codec served, 400 without `te: trailers`, 200 otherwise.
pub open spec fn preflight_status(m: Map<Seq<char>, Seq<Seq<u8>>>, suffix: Seq<char>) -> u16 {
    if !codec_matches(m, suffix) {
        415
    } else if !crate::content_type::te_trailers(m) {
        400
    } else {
        200
    }
}

/// The response headers after a request has been accepted.
pub open spec fn accepted_headers(
    response: Map<Seq<char>, Seq<Seq<u8>>>,
    request: Map<Seq<char>, Seq<Seq<u8>>>,
    suffix: Seq<char>,
) -> Map<Seq<char>, Seq<Seq<u8>>> {
    let with_type = crate::headers::inserted(
        response,
        "content-type"@,
        "application/grpc+"@ + suffix,
    );
    let with_accept = crate::headers::inserted(
        with_type,
        "grpc-accept-encoding"@,
        crate::encoding::token_list(Encoding::ALL@),
    );
    if negotiated(request) == Encoding::Identity {
        with_accept
    } else {
        crate::headers::inserted(with_accept, "grpc-encoding"@, negotiated(request).token())
    }
}

/// Validate request preflight (content-type, te:trailers) and set the gRPC
/// response headers (content-type, grpc-accept-encoding, and grpc-encoding if
/// the response will be compressed). Returns the HTTP status of the response:
/// `Ok(200)` with those headers set, or the error status with the response
/// headers left alone.
///
/// The request's content-type must name the codec that is actually served;
/// `application/grpc+foo` for an unknown `foo` is rejected here rather than
/// mis-decoded as the service's codec.
pub fn prepare_grpc_conn(
    request_headers: &Headers,
    response_headers: &mut Headers,
    codec_suffix: &str,
) -> (r: Result<u16, u16>)
    ensures
        ({
            let request = crate::headers::header_map(*request_headers);
            let before = crate::headers::header_map(*old(response_headers));
            let after = crate::headers::header_map(*final(response_headers));
            let status = preflight_status(request, codec_suffix@);
            if status == 200 {
                &&& r == Ok::<u16, u16>(200)
                &&& after == accepted_headers(before, request, codec_suffix@)
            } else {
                &&& r == Err::<u16, u16>(status)
                &&& after == before
            }
        }),
{
    let matches = match headers_get_str(request_headers, "content-type") {
        Some(value) => match parse_grpc_content_type(value.as_str()) {
            Some(suffix) => str_eq(suffix.as_str(), codec_suffix),
            None => false,
        },
        None => false,
    };
    if !matches {
        return Err(415);
    }
    if !has_te_trailers(request_headers) {
        return Err(400);
    }
    let content_type = String::new().concat("application/grpc+").concat(codec_suffix);
    assert(content_type@ =~= "application/grpc+"@ + codec_suffix@);
    let response_encoding = negotiate_response_encoding(request_headers);
    headers_insert(response_headers, "content-type", content_type.as_str());
    headers_insert(response_headers, "grpc-accept-encoding", Encoding::accepted_encodings());
    if response_encoding != Encoding::Identity {
        headers_insert(response_headers, "grpc-encoding", response_encoding.as_grpc_encoding());
    }
    Ok(200)
}

// ---------------------------------------------------------------------------
// The start of a call

/// The timeout that a request carries, in nanoseconds.
pub open spec fn request_timeout(m: Map<Seq<char>, Seq<Seq<u8>>>) -> Result<
    Option<nat>,
    StatusView,
> {
    match crate::headers::single_text(m, "grpc-timeout"@) {
        None => Ok(None),
        Some(text) => match timeout_nanos(text) {
            Some(nanos) => Ok(Some(nanos)),
            None => Err(
                plain_status(
                    Code::InvalidArgument,
                    "malformed grpc-timeout "@ + crate::text::debug_quoted(text),
                ),
            ),
        },
    }
}

/// The length of an optional duration.
pub open spec fn optional_nanos(d: Option<Duration>) -> Option<nat> {
    match d {
        Some(d) => Some(nanos_of(d)),
        None => None,
    }
}

/// The timeout that a request carries in `grpc-timeout`; `InvalidArgument` if
/// the header is malformed.
pub fn extract_timeout(request_headers: &Headers) -> (r: Result<Option<Duration>, Status>)
    ensures
        match request_timeout(crate::headers::header_map(*request_headers)) {
            Ok(t) => r is Ok && optional_nanos(r->Ok_0) == t,
            Err(s) => r is Err && r->Err_0@ == s,
        },
{
    match headers_get_str(request_headers, "grpc-timeout") {
        None => Ok(None),
        Some(header) => match parse_grpc_timeout(header.as_str()) {
            Some(d) => Ok(Some(d)),
            None => {
                let text = String::new().concat("malformed grpc-timeout ").concat(
                    debug_text(header.as_str()).as_str(),
                );
                assert(text@ =~= "malformed grpc-timeout "@ + crate::text::debug_quoted(header@));
                Err(Status::invalid_argument(text.as_str()))
            },
        },
    }
}

/// What a call is run with.
pub struct CallSetup {
    /// The codec of the request's messages.
    pub request_encoding: Encoding,
    /// The time that the call may take.
    pub timeout: Option<Duration>,
    /// The codec of the response's messages.
    pub response_encoding: Encoding,
}

/// Read what a call of any shape needs from the request headers: the request's
/// codec, the timeout, and the response's codec. A request whose codec is
/// unknown or, failing that, whose timeout is malformed is answered with that
/// status and an empty body.
pub fn begin_call(request_headers: &Headers) -> (r: Result<CallSetup, OneShotBody>)
    ensures
        ({
            let m = crate::headers::header_map(*request_headers);
            match request_codec(m) {
                Err(s) => r is Err && r->Err_0.replies_error(s, crate::headers::no_headers()),
                Ok(e) => match request_timeout(m) {
                    Err(s) => r is Err && r->Err_0.replies_error(s, crate::headers::no_headers()),
                    Ok(t) => {
                        &&& r is Ok
                        &&& r->Ok_0.request_encoding == e
                        &&& optional_nanos(r->Ok_0.timeout) == t
                        &&& r->Ok_0.response_encoding == negotiated(m)
                    },
                },
            }
        }),
{
    let request_encoding = match extract_request_encoding(request_headers) {
        Ok(e) => e,
        Err(status) => {
            return Err(error_response(status));
        },
    };
    let timeout = match extract_timeout(request_headers) {
        Ok(t) => t,
        Err(status) => {
            return Err(error_response(status));
        },
    };
    let response_encoding = negotiate_response_encoding(request_headers);
    Ok(CallSetup { request_encoding, timeout, response_encoding })
}

// ---------------------------------------------------------------------------
// Exactly one request

/// Reading exactly one request message, as unary and server-streaming calls
/// do. Zero or more than one is a cardinality violation, which maps to
/// `Unimplemented`.
pub enum OneRequest<T> {
    /// Nothing has been received.
    First,
    /// The request has been received; the end of the stream has not.
    End(T),
}

/// What to do after a receive.
pub enum OneRequestStep<T> {
    /// Receive again.
    Receive(OneRequest<T>),
    /// The request, or the status of the call.
    Done(Result<T, Status>),
}

impl<T> OneRequest<T> {
    /// The start of the reading.
    pub fn new() -> (r: Self)
        ensures
            r == OneRequest::<T>::First,
    {
        OneRequest::First
    }

    /// Take in what a receive gave: a message, the clean end of the stream, or
    /// a status.
    pub fn received(self, item: Result<Option<T>, Status>) -> (r: OneRequestStep<T>)
        ensures
            match item {
                Err(s) => r == OneRequestStep::<T>::Done(Err(s)),
                Ok(next) => match self {
                    OneRequest::First => match next {
                        Some(t) => r == OneRequestStep::Receive(OneRequest::End(t)),
                        None => r is Done && r->Done_0 is Err && r->Done_0->Err_0@ == plain_status(
                            Code::Unimplemented,
                            "expected exactly one request message, but the request stream was empty"@,
                        ),
                    },
                    OneRequest::End(t) => match next {
                        None => r == OneRequestStep::Done(Ok(t)),
                        Some(_) => r is Done && r->Done_0 is Err && r->Done_0->Err_0@
                            == plain_status(
                            Code::Unimplemented,
                            "expected exactly one request message, but the request stream had more than one"@,
                        ),
                    },
                },
            },
    {
        let next = match item {
            Err(s) => {
                return OneRequestStep::Done(Err(s));
            },
            Ok(next) => next,
        };
        match self {
            OneRequest::First => match next {
                Some(t) => OneRequestStep::Receive(OneRequest::End(t)),
                None => OneRequestStep::Done(
                    Err(
                        Status::unimplemented(
                            "expected exactly one request message, but the request stream was empty",
                        ),
                    ),
                ),
            },
            OneRequest::End(t) => match next {
                None => OneRequestStep::Done(Ok(t)),
                Some(_) => OneRequestStep::Done(
                    Err(
                        Status::unimplemented(
                            "expected exactly one request message, but the request stream had more than one",
                        ),
                    ),
                ),
            },
        }
    }
}

// ---------------------------------------------------------------------------
// Shutdown and deadlines

/// How a race between a service method, the connection's shutdown and the
/// deadline ended.
pub enum Race<T> {
    /// The method returned first.
    Finished(Result<T, Status>),
    /// The connection began to shut down first.
    ShuttingDown,
    /// The deadline passed first, or had passed before.
    DeadlinePassed,
}

/// The status of a call cut by shutdown.
pub open spec fn shutdown_status() -> StatusView {
    plain_status(Code::Cancelled, "connection shutting down"@)
}

/// The status of a call cut by its deadline.
pub open spec fn deadline_status() -> StatusView {
    plain_status(Code::DeadlineExceeded, "deadline elapsed"@)
}

/// The result of a race: the method's own result if it came first, `Cancelled`
/// on shutdown, `DeadlineExceeded` on the deadline.
pub fn race_outcome<T>(race: Race<T>) -> (r: Result<T, Status>)
    ensures
        match race {
            Race::Finished(result) => r == result,
            Race::ShuttingDown => r is Err && r->Err_0@ == shutdown_status(),
            Race::DeadlinePassed => r is Err && r->Err_0@ == deadline_status(),
        },
{
    match race {
        Race::Finished(result) => result,
        Race::ShuttingDown => Err(Status::cancelled("connection shutting down")),
        Race::DeadlinePassed => Err(Status::deadline_exceeded("deadline elapsed")),
    }
}

// ---------------------------------------------------------------------------
// The end of a call

/// Encode the single-response result (unary / client-streaming) into a
/// response body with trailers, or an error response.
pub fn finish_unary<C: Codec<Resp>, Resp>(
    result: Result<Resp, Status>,
    response_encoding: Encoding,
    trailers: Headers,
) -> (r: OneShotBody)
    ensures
        ({
            let base = crate::headers::header_map(trailers);
            match result {
                Err(s) => r.replies_error(s@, base),
                Ok(resp) => exists|payload: Result<Seq<u8>, StatusView>| #[trigger]
                    encodes::<C, Resp>(resp, payload) && match payload {
                        Err(s) => r.replies_error(s, base),
                        Ok(bytes) => match framed(bytes, response_encoding) {
                            Err(s) => r.replies_error(s, base),
                            Ok(frame) => r.replies(
                                frame,
                                crate::status::written(
                                    base,
                                    plain_status(Code::OK, Seq::empty()),
                                ),
                            ),
                        },
                    },
            }
        }),
{
    match result {
        Ok(resp) => match encode_frame::<C, Resp>(&resp, response_encoding) {
            Ok(frame) => {
                let mut trailers = trailers;
                Status::ok().write_into(&mut trailers);
                OneShotBody::new(frame, trailers)
            },
            Err(status) => error_response_with_trailers(status, trailers),
        },
        Err(status) => error_response_with_trailers(status, trailers),
    }
}

/// An error response: empty body and `grpc-status` trailers merged onto any
/// trailing metadata the handler set.
pub fn error_response_with_trailers(status: Status, trailers: Headers) -> (r: OneShotBody)
    ensures
        r.replies_error(status@, crate::headers::header_map(trailers)),
{
    let mut trailers = trailers;
    status.write_into(&mut trailers);
    let bytes: Vec<u8> = Vec::new();
    assert(bytes@ =~= Seq::<u8>::empty());
    OneShotBody::new(bytes, trailers)
}

/// An error response with no handler-set trailing metadata.
pub fn error_response(status: Status) -> (r: OneShotBody)
    ensures
        r.replies_error(status@, crate::headers::no_headers()),
{
    error_response_with_trailers(status, headers_new())
}

// ---------------------------------------------------------------------------
// Laws

/// A response is only ever compressed with a codec that the client offered.
pub proof fn negotiated_is_offered(m: Map<Seq<char>, Seq<Seq<u8>>>)
    ensures
        negotiated(m) == Encoding::Identity || (crate::headers::single_text(
            m,
            "grpc-accept-encoding"@,
        ) matches Some(list) && offers(list, negotiated(m).token())),
{
}

} // verus!
