//! [`GrpcClientConn`]: the owned, per-call client state.
//!
//! # Two transports, chosen by interaction
//!
//! - **Send-then-receive** (unary, server-stream, client-stream, *half-duplex*
//!   bidi): the write side is a request body that ends before the response is
//!   read. `send` accumulates frames, `close_send` ends the body, and only then
//!   does `recv` await the head and read responses.
//! - **Full-duplex bidi** (the only interleaving shape): the request frames sent
//!   before the first `recv` form a prelude; the first `recv` opens the
//!   transport, after which `send` writes frames live and `recv` reads them
//!   back, interleaved.
//!
//! The surface (`send`/`close_send`/`recv`/`headers`/`trailers`) is uniform
//! across both; only construction picks the transport. Each operation says what
//! the transport has to do, and takes in what came of it.

use crate::codec::{decodes, encodes, suffixed, Codec};
use crate::content_type::parse_grpc_content_type;
use crate::encoding::{outcome, Encoding, DEFAULT_MAX_MESSAGE_SIZE};
use crate::frame::reader::{
    advanced, boundary, unpacked, ReadEvent, ReadState, ReadStep, Signal, StateView,
};
use crate::frame::writer::encode_payload;
use crate::headers::{headers_clone, headers_get_str, headers_insert, headers_new};
use crate::metadata::{
    appended, ascii_refusal, binary_refusal, error_message, Metadata, MetadataErrorView, ValueView,
};
use crate::server::body::framed_payload;
use crate::status::{plain_status, reads_as, verdict, Code, Status, StatusView};
use crate::text::{debug_text, decimal_string};
use crate::timeout::{format_grpc_timeout, timeout_text};
use core::marker::PhantomData;
use core::time::Duration;
use trillium_http::Headers;
use vstd::prelude::*;

verus! {

/// What the transport knows when the response head has arrived.
pub struct ResponseHead {
    /// The HTTP status, if there is one.
    pub status: Option<u16>,
    /// The response headers.
    pub headers: Headers,
}

/// A valid gRPC response head: HTTP 200 and a gRPC content-type. `head_status`
/// is the head's `grpc-status` (if present): its presence marks the response
/// as Trailers-Only, which carries no body.
pub struct Head {
    pub response_headers: Headers,
    pub response_encoding: Encoding,
    pub head_status: Option<Result<(), Status>>,
}

/// The gRPC code for an HTTP status other than 200.
pub open spec fn code_for_http(http: u16) -> Code {
    if http == 400 {
        Code::Internal
    } else if http == 401 {
        Code::Unauthenticated
    } else if http == 403 {
        Code::PermissionDenied
    } else if http == 404 {
        Code::Unimplemented
    } else if http == 429 || http == 502 || http == 503 || http == 504 {
        Code::Unavailable
    } else {
        Code::Unknown
    }
}

/// Map an HTTP status code to a gRPC status.
pub fn http_to_grpc_status(http: u16) -> (r: Status)
    ensures
        r@ == plain_status(code_for_http(http), "HTTP "@ + crate::text::decimal(http as nat)),
{
    let code = if http == 400 {
        Code::Internal
    } else if http == 401 {
        Code::Unauthenticated
    } else if http == 403 {
        Code::PermissionDenied
    } else if http == 404 {
        Code::Unimplemented
    } else if http == 429 || http == 502 || http == 503 || http == 504 {
        Code::Unavailable
    } else {
        Code::Unknown
    };
    let text = String::new().concat("HTTP ").concat(decimal_string(http as u128).as_str());
    assert(text@ =~= "HTTP "@ + crate::text::decimal(http as nat));
    Status::new(code, text.as_str())
}

/// An optional text as `{:?}` writes it.
pub open spec fn debug_option(text: Option<Seq<char>>) -> Seq<char> {
    match text {
        Some(s) => "Some("@ + crate::text::debug_quoted(s) + ")"@,
        None => "None"@,
    }
}

/// Why a response head is refused, if it is: an HTTP status other than 200, a
/// content-type that is not gRPC, or a codec that the library does not know.
pub open spec fn head_refusal(
    status: Option<u16>,
    m: Map<Seq<char>, Seq<Seq<u8>>>,
) -> Option<StatusView> {
    let http = match status {
        Some(n) => n,
        None => 0,
    };
    let content_type = crate::headers::single_text(m, "content-type"@);
    if status != Some(200u16) {
        Some(plain_status(code_for_http(http), "HTTP "@ + crate::text::decimal(http as nat)))
    } else if !(content_type matches Some(ct) && crate::content_type::content_suffix(ct) is Some) {
        Some(
            plain_status(
                Code::Unknown,
                "unexpected response content-type: "@ + debug_option(content_type),
            ),
        )
    } else {
        match crate::headers::single_text(m, "grpc-encoding"@) {
            Some(name) => match crate::encoding::codec_named(name) {
                Some(_) => None,
                None => Some(
                    plain_status(
                        Code::Internal,
                        "unsupported grpc-encoding "@ + crate::text::debug_quoted(name),
                    ),
                ),
            },
            None => None,
        }
    }
}

/// The codec of the response's messages.
pub open spec fn response_codec(m: Map<Seq<char>, Seq<Seq<u8>>>) -> Encoding {
    match crate::headers::single_text(m, "grpc-encoding"@) {
        Some(name) => match crate::encoding::codec_named(name) {
            Some(e) => e,
            None => Encoding::Identity,
        },
        None => Encoding::Identity,
    }
}

/// What an optional outcome is.
pub open spec fn optional_verdict(r: Option<Result<(), Status>>) -> Option<
    Result<(), StatusView>,
> {
    match r {
        Some(v) => Some(verdict(v)),
        None => None,
    }
}

/// Whether `head_status` is the head's own `grpc-status`: none without the
/// header, its outcome with it.
pub open spec fn head_verdict(
    m: Map<Seq<char>, Seq<Seq<u8>>>,
    head_status: Option<Result<(), StatusView>>,
) -> bool {
    match head_status {
        None => crate::headers::single_text(m, "grpc-status"@) is None,
        Some(v) => crate::headers::single_text(m, "grpc-status"@) is Some && reads_as(m, v),
    }
}

/// Validate the response head (HTTP 200 and gRPC content-type) and pull the
/// inbound message encoding.
///
/// A 200 response whose content-type isn't gRPC means the peer isn't speaking
/// gRPC, which maps to `Unknown`. A `grpc-status` in the head is carried along
/// as the fallback for a response without a body.
pub fn process_head(head: ResponseHead) -> (r: Result<Head, Status>)
    ensures
        ({
            let m = crate::headers::header_map(head.headers);
            match head_refusal(head.status, m) {
                Some(s) => r is Err && r->Err_0@ == s,
                None => {
                    &&& r is Ok
                    &&& crate::headers::header_map(r->Ok_0.response_headers) == m
                    &&& r->Ok_0.response_encoding == response_codec(m)
                    &&& head_verdict(m, optional_verdict(r->Ok_0.head_status))
                },
            }
        }),
{
    let http: u16 = match head.status {
        Some(n) => n,
        None => 0,
    };
    let is_ok = match head.status {
        Some(n) => n == 200,
        None => false,
    };
    if !is_ok {
        return Err(http_to_grpc_status(http));
    }
    let content_type = headers_get_str(&head.headers, "content-type");
    let is_grpc = match &content_type {
        Some(ct) => parse_grpc_content_type(ct.as_str()).is_some(),
        None => false,
    };
    if !is_grpc {
        let found = match &content_type {
            Some(ct) => String::new().concat("Some(").concat(
                debug_text(ct.as_str()).as_str(),
            ).concat(")"),
            None => "None".to_owned(),
        };
        let text = String::new().concat("unexpected response content-type: ").concat(
            found.as_str(),
        );
        assert(found@ =~= debug_option(
            crate::headers::single_text(
                crate::headers::header_map(head.headers),
                "content-type"@,
            ),
        ));
        assert(text@ =~= "unexpected response content-type: "@ + found@);
        return Err(Status::unknown(text.as_str()));
    }
    let response_encoding = match headers_get_str(&head.headers, "grpc-encoding") {
        None => Encoding::Identity,
        Some(name) => match Encoding::from_grpc_encoding(name.as_str()) {
            Some(e) => e,
            None => {
                let text = String::new().concat("unsupported grpc-encoding ").concat(
                    debug_text(name.as_str()).as_str(),
                );
                assert(text@ =~= "unsupported grpc-encoding "@ + crate::text::debug_quoted(name@));
                return Err(Status::internal(text.as_str()));
            },
        },
    };
    let head_status = match headers_get_str(&head.headers, "grpc-status") {
        Some(_) => Some(Status::from_trailers(&head.headers)),
        None => None,
    };
    Ok(Head { response_headers: head.headers, response_encoding, head_status })
}

/// The status for a call whose transport failed.
pub fn transport_error(err: &str) -> (r: Status)
    ensures
        r@ == plain_status(Code::Unavailable, "transport error: "@ + err@),
{
    let text = String::new().concat("transport error: ").concat(err);
    assert(text@ =~= "transport error: "@ + err@);
    Status::unavailable(text.as_str())
}

/// Whether `out` is what decoding a response message comes to: the codec's
/// value, or an `Internal` status with the codec's words.
pub open spec fn decodes_response<C: Codec<Resp>, Resp>(
    bytes: Seq<u8>,
    out: Result<Resp, Status>,
) -> bool {
    exists|d: Result<Resp, Status>| #[trigger]
        decodes::<C, Resp>(bytes, d) && match d {
            Ok(v) => out == Ok::<Resp, Status>(v),
            Err(s) => out is Err && out->Err_0@ == plain_status(Code::Internal, s.message@),
        }
}

/// Decode a response message, mapping a codec failure to `Internal`. The codec's
/// own `decode` reports `InvalidArgument`, which is correct for the server
/// decoding a bad *request*, but on the client a body we can't decode is the
/// server's fault.
pub fn decode_response<C: Codec<Resp>, Resp>(bytes: &[u8]) -> (r: Result<Resp, Status>)
    ensures
        decodes_response::<C, Resp>(bytes@, r),
{
    let d = C::decode(bytes);
    let ghost given = d;
    assert(decodes::<C, Resp>(bytes@, given));
    match d {
        Ok(v) => Ok(v),
        Err(s) => Err(Status::new(Code::Internal, s.message.as_str())),
    }
}

// ---------------------------------------------------------------------------
// Races against cancellation and the deadline

/// The status of a cancelled call.
pub open spec fn cancelled_status() -> StatusView {
    plain_status(Code::Cancelled, "call cancelled"@)
}

/// The status of a call past its deadline.
pub open spec fn elapsed_status() -> StatusView {
    plain_status(Code::DeadlineExceeded, "deadline elapsed"@)
}

/// One look at a race between an operation, the cancellation of its call, and
/// the call's deadline.
pub struct RaceView<T> {
    /// The deadline had passed before the operation began.
    pub elapsed_before: bool,
    /// The call has been cancelled.
    pub cancelled: bool,
    /// The deadline has passed since.
    pub timed_out: bool,
    /// What the operation came to, if it has come to anything.
    pub result: Option<Result<T, Status>>,
}

/// Settle a race, if it can be settled. A deadline that had passed before comes
/// first; then cancellation, then the deadline, and only then the operation:
/// an already-cancelled call never lets a response slip through.
pub fn settle<T>(race: RaceView<T>) -> (r: Option<Result<T, Status>>)
    ensures
        if race.elapsed_before {
            r matches Some(Err(s)) && s@ == elapsed_status()
        } else if race.cancelled {
            r matches Some(Err(s)) && s@ == cancelled_status()
        } else if race.timed_out {
            r matches Some(Err(s)) && s@ == elapsed_status()
        } else {
            r == race.result
        },
{
    if race.elapsed_before {
        Some(Err(Status::deadline_exceeded("deadline elapsed")))
    } else if race.cancelled {
        Some(Err(Status::cancelled("call cancelled")))
    } else if race.timed_out {
        Some(Err(Status::deadline_exceeded("deadline elapsed")))
    } else {
        race.result
    }
}

// ---------------------------------------------------------------------------
// The engine

/// Where a call stands.
enum Inner {
    /// Accumulating request frames; no network I/O yet.
    Pending { request_metadata: Metadata, body: Vec<u8>, send_closed: bool },
    /// The head has arrived; responses are read, and for a full-duplex call
    /// requests are written, over the open transport.
    Live { response_headers: Headers, read_state: ReadState, response_encoding: Encoding, head_status:
        Option<Result<(), Status>> },
    /// The response stream has ended (or the call failed).
    Done { response_headers: Headers, trailers: Headers },
    /// Opening the call failed. The error is delivered once on the next
    /// receive, then becomes `Done`. Distinct from `Pending` so a failed open
    /// is never retried.
    Failed(Status),
}

/// What stage a call has reached.
pub enum Phase {
    Pending { metadata: Seq<(Seq<char>, ValueView)>, body: Seq<u8>, send_closed: bool },
    Live {
        headers: Map<Seq<char>, Seq<Seq<u8>>>,
        state: StateView,
        encoding: Encoding,
        head_status: Option<Result<(), StatusView>>,
    },
    Done {
        headers: Map<Seq<char>, Seq<Seq<u8>>>,
        trailers: Map<Seq<char>, Seq<Seq<u8>>>,
    },
    Failed(StatusView),
}

/// An owned, typed gRPC client call.
///
/// Construct one, then drive it with [`send`](Self::send) /
/// [`close_send`](Self::close_send) / [`recv`](Self::recv). Initial and trailing
/// response metadata are available via [`headers`](Self::headers) /
/// [`trailers`](Self::trailers) once they've arrived, on the error path too.
pub struct GrpcClientConn<C, Req, Resp> {
    inner: Inner,
    content_type: String,
    outbound_encoding: Encoding,
    full_duplex: bool,
    init_error: Option<Status>,
    marker: PhantomData<(C, Req, Resp)>,
}

/// What a client call is.
pub ghost struct ClientView {
    /// The stage reached.
    pub phase: Phase,
    /// The content-type of the request.
    pub content_type: Seq<char>,
    /// The codec of the request's messages.
    pub outbound: Encoding,
    /// Whether requests and responses are interleaved.
    pub full_duplex: bool,
    /// A request-side error (invalid metadata, a message that cannot be
    /// encoded) that is deferred until the call is opened.
    pub init_error: Option<StatusView>,
}

impl Inner {
    spec fn phase(self) -> Phase {
        match self {
            Inner::Pending { request_metadata, body, send_closed } => Phase::Pending {
                metadata: request_metadata@,
                body: body@,
                send_closed,
            },
            Inner::Live { response_headers, read_state, response_encoding, head_status } => Phase::Live {
                headers: crate::headers::header_map(response_headers),
                state: read_state@,
                encoding: response_encoding,
                head_status: optional_verdict(head_status),
            },
            Inner::Done { response_headers, trailers } => Phase::Done {
                headers: crate::headers::header_map(response_headers),
                trailers: crate::headers::header_map(trailers),
            },
            Inner::Failed(s) => Phase::Failed(s@),
        }
    }
}

/// What an optional status is.
pub open spec fn optional_status(s: Option<Status>) -> Option<StatusView> {
    match s {
        Some(s) => Some(s@),
        None => None,
    }
}

impl<C, Req, Resp> View for GrpcClientConn<C, Req, Resp> {
    type V = ClientView;

    closed spec fn view(&self) -> ClientView {
        ClientView {
            phase: self.inner.phase(),
            content_type: self.content_type@,
            outbound: self.outbound_encoding,
            full_duplex: self.full_duplex,
            init_error: optional_status(self.init_error),
        }
    }
}

impl ClientView {
    /// The invariant of a call: while it is live, its reader has not ended.
    pub open spec fn wf(self) -> bool {
        self.phase matches Phase::Live { state, .. } ==> state.wf() && state !is Done
    }
}

/// The deferred error after `s` has come up: the first one stays.
pub open spec fn first_error(old: Option<StatusView>, s: StatusView) -> Option<StatusView> {
    match old {
        Some(e) => Some(e),
        None => Some(s),
    }
}

/// The deferred error for a metadata entry that was refused.
pub open spec fn metadata_failure(e: MetadataErrorView) -> StatusView {
    plain_status(Code::InvalidArgument, "invalid metadata: "@ + error_message(e))
}

/// The codec that a client's default headers configure.
pub open spec fn configured_codec(m: Map<Seq<char>, Seq<Seq<u8>>>) -> Encoding {
    match crate::headers::single_text(m, "grpc-encoding"@) {
        Some(name) => match crate::encoding::codec_named(name) {
            Some(e) => e,
            None => Encoding::Identity,
        },
        None => Encoding::Identity,
    }
}

/// The codec that a client's default headers configure; `Identity` if none.
pub fn configured_encoding(default_headers: &Headers) -> (r: Encoding)
    ensures
        r == configured_codec(crate::headers::header_map(*default_headers)),
{
    match headers_get_str(default_headers, "grpc-encoding") {
        Some(name) => match Encoding::from_grpc_encoding(name.as_str()) {
            Some(e) => e,
            None => Encoding::Identity,
        },
        None => Encoding::Identity,
    }
}

/// The headers of a request after the gRPC headers and the metadata have been
/// added.
pub open spec fn request_headers(
    m: Map<Seq<char>, Seq<Seq<u8>>>,
    content_type: Seq<char>,
    outbound: Encoding,
    remaining: Option<nat>,
    metadata: Seq<(Seq<char>, ValueView)>,
) -> Map<Seq<char>, Seq<Seq<u8>>> {
    let typed = crate::headers::inserted(m, "content-type"@, content_type);
    let te = crate::headers::inserted(typed, "te"@, "trailers"@);
    let accept = crate::headers::inserted(
        te,
        "grpc-accept-encoding"@,
        crate::encoding::token_list(Encoding::ALL@),
    );
    let encoded = if outbound == Encoding::Identity {
        accept
    } else {
        crate::headers::inserted(accept, "grpc-encoding"@, outbound.token())
    };
    let timed = match remaining {
        Some(nanos) => crate::headers::inserted(encoded, "grpc-timeout"@, timeout_text(nanos)),
        None => encoded,
    };
    appended(timed, metadata)
}

/// What a send asks of the transport.
pub enum SendStep {
    /// Nothing: the frame is part of the request body.
    Buffered,
    /// Write these bytes now.
    Write(Vec<u8>),
}

/// What closing the request side asks of the transport.
pub enum CloseStep {
    /// Open the call; a full-duplex call then closes its write half.
    Open,
    /// Close the write half.
    Close,
    /// Nothing.
    Nothing,
}

/// What a receive asks of the transport.
pub enum ClientRecv<Resp> {
    /// Open the call, then receive again.
    Open,
    /// Read at most this many bytes, and hand them over.
    Read(usize),
    /// A message, the clean end of the stream, or the status of the call.
    Done(Result<Option<Resp>, Status>),
}

impl<C, Req, Resp> GrpcClientConn<C, Req, Resp> {
    /// Prepare a call without firing it. The content-type comes from the codec,
    /// the outbound compression from the client's configured `grpc-encoding`.
    /// `full_duplex` selects the interleaving transport; everything else uses
    /// send-then-receive.
    pub fn new(default_headers: &Headers, metadata: Metadata, full_duplex: bool) -> (r: Self) where
        C: Codec<Req>,

        ensures
            r@.wf(),
            exists|suffix: Seq<char>| #[trigger]
                suffixed::<C, Req>(suffix) && r@ == (ClientView {
                    phase: Phase::Pending {
                        metadata: metadata@,
                        body: Seq::empty(),
                        send_closed: false,
                    },
                    content_type: "application/grpc+"@ + suffix,
                    outbound: configured_codec(crate::headers::header_map(*default_headers)),
                    full_duplex,
                    init_error: None,
                }),
    {
        let suffix = C::content_type_suffix();
        assert(suffixed::<C, Req>(suffix@));
        let content_type = "application/grpc+".to_owned().concat(suffix);
        let body: Vec<u8> = Vec::new();
        assert(body@ =~= Seq::<u8>::empty());
        GrpcClientConn {
            inner: Inner::Pending { request_metadata: metadata, body, send_closed: false },
            content_type,
            outbound_encoding: configured_encoding(default_headers),
            full_duplex,
            init_error: None,
            marker: PhantomData,
        }
    }

    fn defer(&mut self, status: Status)
        ensures
            final(self)@ == (ClientView {
                init_error: first_error(old(self)@.init_error, status@),
                ..old(self)@
            }),
    {
        if self.init_error.is_none() {
            self.init_error = Some(status);
        }
    }

    /// Append an ASCII request-metadata entry before the call fires. Invalid
    /// keys/values are recorded as a deferred error surfaced when the call is
    /// opened. No-op once the request is in flight.
    pub fn add_ascii_metadata(&mut self, key: &str, value: &str)
        ensures
            match old(self)@.phase {
                Phase::Pending { metadata, body, send_closed } => match ascii_refusal(
                    key@,
                    value@,
                ) {
                    None => final(self)@ == (ClientView {
                        phase: Phase::Pending {
                            metadata: metadata.push((key@, ValueView::Ascii(value@))),
                            body,
                            send_closed,
                        },
                        ..old(self)@
                    }),
                    Some(e) => final(self)@ == (ClientView {
                        init_error: first_error(old(self)@.init_error, metadata_failure(e)),
                        ..old(self)@
                    }),
                },
                _ => final(self)@ == old(self)@,
            },
    {
        let result = match &mut self.inner {
            Inner::Pending { request_metadata, .. } => request_metadata.insert_ascii(key, value),
            _ => Ok(()),
        };
        if let Err(e) = result {
            let text = String::new().concat("invalid metadata: ").concat(e.message().as_str());
            assert(text@ =~= "invalid metadata: "@ + error_message(e@));
            self.defer(Status::invalid_argument(text.as_str()));
        }
    }

    /// Append a binary (`-bin`) request-metadata entry before the call fires.
    /// See [`add_ascii_metadata`](Self::add_ascii_metadata) for error handling.
    pub fn add_binary_metadata(&mut self, key: &str, value: Vec<u8>)
        ensures
            match old(self)@.phase {
                Phase::Pending { metadata, body, send_closed } => match binary_refusal(key@) {
                    None => final(self)@ == (ClientView {
                        phase: Phase::Pending {
                            metadata: metadata.push((key@, ValueView::Binary(value@))),
                            body,
                            send_closed,
                        },
                        ..old(self)@
                    }),
                    Some(e) => final(self)@ == (ClientView {
                        init_error: first_error(old(self)@.init_error, metadata_failure(e)),
                        ..old(self)@
                    }),
                },
                _ => final(self)@ == old(self)@,
            },
    {
        let result = match &mut self.inner {
            Inner::Pending { request_metadata, .. } => request_metadata.insert_binary(key, value),
            _ => Ok(()),
        };
        if let Err(e) = result {
            let text = String::new().concat("invalid metadata: ").concat(e.message().as_str());
            assert(text@ =~= "invalid metadata: "@ + error_message(e@));
            self.defer(Status::invalid_argument(text.as_str()));
        }
    }

    /// The response's initial metadata, available once the head has arrived
    /// (after the first `recv`, or after `close_send` for half-duplex). `None`
    /// before then.
    pub fn headers(&self) -> (r: Option<&Headers>)
        ensures
            match self@.phase {
                Phase::Live { headers, .. } => r is Some && crate::headers::header_map(*r->0)
                    == headers,
                Phase::Done { headers, .. } => r is Some && crate::headers::header_map(*r->0)
                    == headers,
                _ => r is None,
            },
    {
        match &self.inner {
            Inner::Live { response_headers, .. } => Some(response_headers),
            Inner::Done { response_headers, .. } => Some(response_headers),
            _ => None,
        }
    }

    /// The response's trailing metadata, available once the response stream has
    /// ended. `None` before end-of-stream.
    pub fn trailers(&self) -> (r: Option<&Headers>)
        ensures
            match self@.phase {
                Phase::Done { trailers, .. } => r is Some && crate::headers::header_map(*r->0)
                    == trailers,
                _ => r is None,
            },
    {
        match &self.inner {
            Inner::Done { trailers, .. } => Some(trailers),
            _ => None,
        }
    }

    /// Whether the call has not been opened yet.
    pub fn is_pending(&self) -> (r: bool)
        ensures
            r == (self@.phase is Pending),
    {
        match &self.inner {
            Inner::Pending { .. } => true,
            _ => false,
        }
    }

    /// Half-close the request side.
    ///
    /// For send-then-receive shapes this is what fires the request: the call is
    /// to be opened, with the accumulated body. For a live full-duplex call the
    /// write half is to be closed, leaving the read side open.
    pub fn close_send(&mut self) -> (r: CloseStep)
        ensures
            match old(self)@.phase {
                Phase::Pending { metadata, body, send_closed } => r is Open && final(self)@ == (
                ClientView {
                    phase: Phase::Pending { metadata, body, send_closed: true },
                    ..old(self)@
                }),
                Phase::Live { .. } => final(self)@ == old(self)@ && if old(self)@.full_duplex {
                    r is Close
                } else {
                    r is Nothing
                },
                _ => r is Nothing && final(self)@ == old(self)@,
            },
    {
        let full_duplex = self.full_duplex;
        match &mut self.inner {
            Inner::Pending { send_closed, .. } => {
                *send_closed = true;
                CloseStep::Open
            },
            Inner::Live { .. } => {
                if full_duplex {
                    CloseStep::Close
                } else {
                    CloseStep::Nothing
                }
            },
            _ => CloseStep::Nothing,
        }
    }

    /// The outcome of closing the write half.
    pub fn closed(result: Result<(), String>) -> (r: Result<(), Status>)
        ensures
            match result {
                Ok(()) => r is Ok,
                Err(e) => r is Err && r->Err_0@ == plain_status(
                    Code::Unavailable,
                    "close error: "@ + e@,
                ),
            },
    {
        match result {
            Ok(()) => Ok(()),
            Err(e) => {
                let text = String::new().concat("close error: ").concat(e.as_str());
                assert(text@ =~= "close error: "@ + e@);
                Err(Status::unavailable(text.as_str()))
            },
        }
    }

    /// Record a fatal open error as the terminal `Failed` state and return it,
    /// so the call never re-fires its request on a subsequent `recv`.
    fn fail(&mut self, status: Status) -> (r: Result<(), Status>)
        ensures
            r is Err,
            r->Err_0@ == status@,
            final(self)@ == (ClientView { phase: Phase::Failed(status@), ..old(self)@ }),
    {
        self.inner = Inner::Failed(status.clone());
        Err(status)
    }

    /// Begin to open the call: add the gRPC headers, the time that remains and
    /// the metadata to the request's headers, and hand out the body: all of it
    /// for send-then-receive, the prelude for full-duplex. A deferred error
    /// fails the call instead.
    pub fn begin_open(&mut self, headers: &mut Headers, remaining: Option<Duration>) -> (r: Result<
        Vec<u8>,
        Status,
    >)
        requires
            old(self)@.phase is Pending,
        ensures
            match old(self)@.init_error {
                Some(s) => {
                    &&& r is Err
                    &&& r->Err_0@ == s
                    &&& final(self)@ == (ClientView {
                        phase: Phase::Failed(s),
                        init_error: None,
                        ..old(self)@
                    })
                    &&& *final(headers) == *old(headers)
                },
                None => {
                    &&& r is Ok
                    &&& r->Ok_0@ == old(self)@.phase->body
                    &&& final(self)@ == (ClientView {
                        phase: Phase::Pending {
                            metadata: old(self)@.phase->metadata,
                            body: Seq::empty(),
                            send_closed: old(self)@.phase->send_closed,
                        },
                        ..old(self)@
                    })
                    &&& crate::headers::header_map(*final(headers)) == request_headers(
                        crate::headers::header_map(*old(headers)),
                        old(self)@.content_type,
                        old(self)@.outbound,
                        crate::server::dispatch::optional_nanos(remaining),
                        old(self)@.phase->metadata,
                    )
                },
            },
    {
        let mut init_error: Option<Status> = None;
        core::mem::swap(&mut init_error, &mut self.init_error);
        if let Some(status) = init_error {
            return match self.fail(status) {
                Ok(()) => Ok(Vec::new()),
                Err(s) => Err(s),
            };
        }
        let mut taken: Vec<u8> = Vec::new();
        assert(taken@ =~= Seq::<u8>::empty());
        headers_insert(headers, "content-type", self.content_type.as_str());
        headers_insert(headers, "te", "trailers");
        headers_insert(headers, "grpc-accept-encoding", Encoding::accepted_encodings());
        if self.outbound_encoding != Encoding::Identity {
            headers_insert(headers, "grpc-encoding", self.outbound_encoding.as_grpc_encoding());
        }
        if let Some(d) = remaining {
            let text = format_grpc_timeout(d);
            headers_insert(headers, "grpc-timeout", text.as_str());
        }
        match &mut self.inner {
            Inner::Pending { request_metadata, body, .. } => {
                request_metadata.write_into(headers);
                core::mem::swap(&mut taken, body);
            },
            _ => {},
        }
        Ok(taken)
    }

    /// Take in what came of opening the call: the response head, or the status
    /// of a call that was cancelled, timed out or could not be sent. The call
    /// becomes live, or fails for good.
    pub fn opened(&mut self, result: Result<ResponseHead, Status>) -> (r: Result<(), Status>)
        requires
            old(self)@.phase is Pending,
        ensures
            final(self)@.wf(),
            match result {
                Err(s) => r is Err && r->Err_0@ == s@ && final(self)@ == (ClientView {
                    phase: Phase::Failed(s@),
                    ..old(self)@
                }),
                Ok(head) => {
                    let m = crate::headers::header_map(head.headers);
                    match head_refusal(head.status, m) {
                        Some(s) => r is Err && r->Err_0@ == s && final(self)@ == (ClientView {
                            phase: Phase::Failed(s),
                            ..old(self)@
                        }),
                        None => {
                            &&& r is Ok
                            &&& final(self)@.phase is Live
                            &&& final(self)@.phase->Live_headers == m
                            &&& final(self)@.phase->state == boundary()
                            &&& final(self)@.phase->encoding == response_codec(m)
                            &&& head_verdict(m, final(self)@.phase->head_status)
                            &&& final(self)@ == (ClientView {
                                phase: final(self)@.phase,
                                ..old(self)@
                            })
                        },
                    }
                },
            },
    {
        let head = match result {
            Ok(head) => head,
            Err(status) => {
                return self.fail(status);
            },
        };
        match process_head(head) {
            Ok(h) => {
                self.inner = Inner::Live {
                    response_headers: h.response_headers,
                    read_state: ReadState::new(),
                    response_encoding: h.response_encoding,
                    head_status: h.head_status,
                };
                Ok(())
            },
            Err(status) => self.fail(status),
        }
    }

    /// Start a receive. A call that has not been opened is to be opened first
    /// (for send-then-receive, an implicit close of the request side). A failed
    /// open is reported once; after that, and after the end of the stream,
    /// there is nothing more to receive.
    pub fn recv(&mut self) -> (r: ClientRecv<Resp>)
        requires
            old(self)@.wf(),
        ensures
            final(self)@.wf(),
            match old(self)@.phase {
                Phase::Pending { .. } => r is Open && final(self)@ == old(self)@,
                Phase::Live { state, .. } => r == ClientRecv::<Resp>::Read(state.wanted() as usize)
                    && final(self)@ == old(self)@,
                Phase::Done { .. } => r == ClientRecv::<Resp>::Done(Ok(None)) && final(self)@ == old(
                    self,
                )@,
                Phase::Failed(s) => {
                    &&& r matches ClientRecv::Done(Err(e)) && e@ == s
                    &&& final(self)@ == (ClientView {
                        phase: Phase::Done {
                            headers: crate::headers::no_headers(),
                            trailers: crate::headers::no_headers(),
                        },
                        ..old(self)@
                    })
                },
            },
    {
        match &self.inner {
            Inner::Pending { .. } => {
                return ClientRecv::Open;
            },
            Inner::Live { read_state, .. } => {
                return match read_state.wanted() {
                    Some(n) => ClientRecv::Read(n),
                    None => ClientRecv::Done(Ok(None)),
                };
            },
            Inner::Done { .. } => {
                return ClientRecv::Done(Ok(None));
            },
            Inner::Failed(_) => {},
        }
        let mut inner = Inner::Done { response_headers: headers_new(), trailers: headers_new() };
        core::mem::swap(&mut inner, &mut self.inner);
        match inner {
            Inner::Failed(status) => ClientRecv::Done(Err(status)),
            _ => ClientRecv::Done(Ok(None)),
        }
    }

    /// Settle the call at the end of its response stream, given the trailers
    /// that have been received, and return the response's `grpc-status`.
    ///
    /// Precedence: a `grpc-status` in the real trailers always wins; otherwise,
    /// for a Trailers-Only response, the head's `grpc-status` (and the head
    /// metadata, surfaced as the trailers) is authoritative; otherwise a normal
    /// response ended without a trailing `grpc-status`, which is `Unknown`.
    fn finish_from_trailers(&mut self, trailers: Headers) -> (r: Result<(), Status>)
        requires
            old(self)@.phase is Live,
        ensures
            settled(
                old(self)@,
                final(self)@,
                crate::headers::header_map(trailers),
                verdict(r),
            ),
    {
        let mut inner = Inner::Done { response_headers: headers_new(), trailers: headers_new() };
        core::mem::swap(&mut inner, &mut self.inner);
        match inner {
            Inner::Live { response_headers, read_state: _, response_encoding: _, head_status } => {
                if headers_get_str(&trailers, "grpc-status").is_some() {
                    let status = Status::from_trailers(&trailers);
                    self.inner = Inner::Done { response_headers, trailers };
                    return status;
                }
                match head_status {
                    Some(status) => {
                        let trailers = headers_clone(&response_headers);
                        self.inner = Inner::Done { response_headers, trailers };
                        status
                    },
                    None => {
                        let status = Status::from_trailers(&trailers);
                        self.inner = Inner::Done { response_headers, trailers };
                        status
                    },
                }
            },
            _ => Ok(()),
        }
    }

    /// Give up a receive whose read lost to the deadline or to cancellation, with the
    /// status that comes of it and the trailers that have been received by then. Like
    /// every error, it ends the stream.
    pub fn cut(&mut self, status: Status, trailers: Headers) -> (r: ClientRecv<Resp>)
        requires
            old(self)@.wf(),
            old(self)@.phase is Live,
        ensures
            final(self)@.wf(),
            r == ClientRecv::<Resp>::Done(Err(status)),
            exists|end: Result<(), StatusView>| #[trigger]
                settled(old(self)@, final(self)@, crate::headers::header_map(trailers), end),
    {
        let end = self.finish_from_trailers(trailers);
        assert(settled(
            old(self)@,
            self@,
            crate::headers::header_map(trailers),
            verdict(end),
        ));
        ClientRecv::Done(Err(status))
    }
}

/// Whether `after` is the call `before` settled at the end of its response
/// stream, with the received trailers `m` and the outcome `status`.
pub open spec fn settled(
    before: ClientView,
    after: ClientView,
    m: Map<Seq<char>, Seq<Seq<u8>>>,
    status: Result<(), StatusView>,
) -> bool {
    let headers = before.phase->Live_headers;
    let from_head = crate::headers::single_text(m, "grpc-status"@) is None
        && before.phase->head_status is Some;
    &&& after == (ClientView {
        phase: Phase::Done {
            headers,
            trailers: if from_head {
                headers
            } else {
                m
            },
        },
        ..before
    })
    &&& if from_head {
        status == before.phase->head_status->0
    } else {
        reads_as(m, status)
    }
}

/// The status of a Trailers-Only response that carried a message all the same.
pub open spec fn trailers_only_violation() -> StatusView {
    plain_status(
        Code::Internal,
        "trailers-only response (grpc-status in headers) carried a message body"@,
    )
}

/// Whether `out` is what receiving a whole response frame comes to.
pub open spec fn response_item<C: Codec<Resp>, Resp>(
    out: Result<Resp, Status>,
    flag: u8,
    payload: Seq<u8>,
    encoding: Encoding,
) -> bool {
    match unpacked(flag, payload, encoding, DEFAULT_MAX_MESSAGE_SIZE as nat) {
        Ok(bytes) => decodes_response::<C, Resp>(bytes, out),
        Err(status) => out is Err && out->Err_0@ == status,
    }
}

impl<C: Codec<Req> + Codec<Resp>, Req, Resp> GrpcClientConn<C, Req, Resp> {
    fn frame(&self, message: &Req) -> (r: Result<Vec<u8>, Status>)
        ensures
            exists|payload: Result<Seq<u8>, StatusView>| #[trigger]
                encodes::<C, Req>(*message, payload) && outcome(r) == framed_payload(
                    payload,
                    self@.outbound,
                ),
    {
        match <C as Codec<Req>>::encode(message) {
            Ok(payload) => {
                assert(encodes::<C, Req>(*message, Ok(payload@)));
                encode_payload(payload.as_slice(), self.outbound_encoding)
            },
            Err(s) => {
                assert(encodes::<C, Req>(*message, Err(s@)));
                Err(s)
            },
        }
    }

    /// Frame and buffer a single request message before the call fires. An
    /// encode failure becomes the deferred error.
    pub fn buffer_request(&mut self, message: &Req)
        ensures
            exists|payload: Result<Seq<u8>, StatusView>| #[trigger]
                encodes::<C, Req>(*message, payload) && match framed_payload(
                    payload,
                    old(self)@.outbound,
                ) {
                    Ok(frame) => match old(self)@.phase {
                        Phase::Pending { metadata, body, send_closed } => final(self)@ == (
                        ClientView {
                            phase: Phase::Pending { metadata, body: body + frame, send_closed },
                            ..old(self)@
                        }),
                        _ => final(self)@ == old(self)@,
                    },
                    Err(s) => final(self)@ == (ClientView {
                        init_error: first_error(old(self)@.init_error, s),
                        ..old(self)@
                    }),
                },
    {
        match self.frame(message) {
            Ok(frame) => {
                self.append_body(&frame);
            },
            Err(status) => {
                self.defer(status);
            },
        }
    }

    fn append_body(&mut self, frame: &Vec<u8>)
        ensures
            match old(self)@.phase {
                Phase::Pending { metadata, body, send_closed } => final(self)@ == (ClientView {
                    phase: Phase::Pending { metadata, body: body + frame@, send_closed },
                    ..old(self)@
                }),
                _ => final(self)@ == old(self)@,
            },
    {
        match &mut self.inner {
            Inner::Pending { body, .. } => {
                let ghost before = body@;
                body.extend_from_slice(frame.as_slice());
                assert(body@ =~= before + frame@);
            },
            _ => {},
        }
    }

    /// Frame and send one request message.
    ///
    /// Before the request has fired (the common case for half-duplex), this
    /// accumulates the frame into the request body. Once a full-duplex call is
    /// live, the frame is to be written on the wire immediately.
    pub fn send(&mut self, message: &Req) -> (r: Result<SendStep, Status>)
        ensures
            exists|payload: Result<Seq<u8>, StatusView>| #[trigger]
                encodes::<C, Req>(*message, payload) && match framed_payload(
                    payload,
                    old(self)@.outbound,
                ) {
                    Err(s) => r is Err && r->Err_0@ == s && final(self)@ == old(self)@,
                    Ok(frame) => match old(self)@.phase {
                        Phase::Pending { metadata, body, send_closed } => if send_closed {
                            r is Err && r->Err_0@ == plain_status(
                                Code::Internal,
                                "send after close_send"@,
                            ) && final(self)@ == old(self)@
                        } else {
                            r is Ok && r->Ok_0 is Buffered && final(self)@ == (ClientView {
                                phase: Phase::Pending {
                                    metadata,
                                    body: body + frame,
                                    send_closed,
                                },
                                ..old(self)@
                            })
                        },
                        Phase::Live { .. } if old(self)@.full_duplex => r is Ok && r->Ok_0 is Write
                            && r->Ok_0->Write_0@ == frame && final(self)@ == old(self)@,
                        _ => r is Err && r->Err_0@ == plain_status(
                            Code::Internal,
                            "send after response started"@,
                        ) && final(self)@ == old(self)@,
                    },
                },
    {
        let frame = match self.frame(message) {
            Ok(frame) => frame,
            Err(s) => {
                return Err(s);
            },
        };
        match &self.inner {
            Inner::Pending { send_closed, .. } => {
                if *send_closed {
                    return Err(Status::internal("send after close_send"));
                }
            },
            Inner::Live { .. } => {
                if self.full_duplex {
                    return Ok(SendStep::Write(frame));
                }
                return Err(Status::internal("send after response started"));
            },
            _ => {
                return Err(Status::internal("send after response started"));
            },
        }
        self.append_body(&frame);
        Ok(SendStep::Buffered)
    }

    /// Take in what a read gave, at most the bytes asked for, together with the
    /// trailers that have been received by then.
    ///
    /// `Ok(Some)` is a message, `Ok(None)` a clean end of the stream
    /// (`grpc-status: 0`), `Err` an error of the call, which also ends the
    /// stream. A Trailers-Only response (`grpc-status` in the head) carries no
    /// body; a message in it is dropped and ends the call.
    pub fn absorb(&mut self, event: ReadEvent, trailers: Headers) -> (r: ClientRecv<Resp>)
        requires
            old(self)@.wf(),
            old(self)@.phase is Live,
            event matches ReadEvent::Data(data) ==> data@.len()
                <= old(self)@.phase->state.wanted(),
        ensures
            final(self)@.wf(),
            ({
                let before = old(self)@;
                let after = final(self)@;
                let m = crate::headers::header_map(trailers);
                let (s, signal) = advanced(
                    before.phase->state,
                    event,
                    DEFAULT_MAX_MESSAGE_SIZE as nat,
                );
                let moved = ClientView {
                    phase: Phase::Live {
                        headers: before.phase->Live_headers,
                        state: s,
                        encoding: before.phase->encoding,
                        head_status: before.phase->head_status,
                    },
                    ..before
                };
                match signal {
                    Signal::More => r == ClientRecv::<Resp>::Read(s.wanted() as usize) && after
                        == moved,
                    Signal::Frame { flag, payload } => exists|item: Result<Resp, Status>|
                        #[trigger]
                        response_item::<C, Resp>(item, flag, payload, before.phase->encoding)
                            && match item {
                            Ok(msg) => if before.phase->head_status is Some {
                                &&& r matches ClientRecv::Done(Err(e)) && e@
                                    == trailers_only_violation()
                                &&& exists|status: Result<(), StatusView>| #[trigger]
                                    settled(before, after, m, status)
                            } else {
                                r == ClientRecv::Done(Ok::<Option<Resp>, Status>(Some(msg)))
                                    && after == moved
                            },
                            Err(e) => {
                                &&& r == ClientRecv::<Resp>::Done(Err(e))
                                &&& exists|status: Result<(), StatusView>| #[trigger]
                                    settled(before, after, m, status)
                            },
                        },
                    Signal::Refused(status) => {
                        &&& r matches ClientRecv::Done(Err(e)) && e@ == status
                        &&& exists|end: Result<(), StatusView>| #[trigger]
                            settled(before, after, m, end)
                    },
                    Signal::End => exists|end: Result<(), StatusView>| #[trigger]
                        settled(before, after, m, end) && match end {
                            Ok(()) => r == ClientRecv::<Resp>::Done(Ok(None)),
                            Err(status) => r matches ClientRecv::Done(Err(e)) && e@ == status,
                        },
                }
            }),
    {
        let ghost before = self@;
        let ghost m = crate::headers::header_map(trailers);
        let ghost signal = advanced(
            self@.phase->state,
            event,
            DEFAULT_MAX_MESSAGE_SIZE as nat,
        ).1;
        let (step, trailers_only) = match &mut self.inner {
            Inner::Live { read_state, response_encoding, head_status, .. } => (
                read_state.absorb(event, DEFAULT_MAX_MESSAGE_SIZE, *response_encoding),
                head_status.is_some(),
            ),
            _ => (ReadStep::End, false),
        };
        let item: Result<Resp, Status> = match step {
            ReadStep::Read(n) => {
                return ClientRecv::Read(n);
            },
            ReadStep::End => {
                let end = self.finish_from_trailers(trailers);
                assert(settled(before, self@, m, verdict(end)));
                return match end {
                    Ok(()) => ClientRecv::Done(Ok(None)),
                    Err(status) => ClientRecv::Done(Err(status)),
                };
            },
            ReadStep::Payload(Ok(bytes)) => decode_response::<C, Resp>(bytes.as_slice()),
            ReadStep::Payload(Err(status)) => Err(status),
        };
        proof {
            if let Signal::Frame { flag, payload } = signal {
                assert(response_item::<C, Resp>(item, flag, payload, before.phase->encoding));
            }
        }
        match item {
            Ok(msg) => {
                if trailers_only {
                    let end = self.finish_from_trailers(trailers);
                    assert(settled(before, self@, m, verdict(end)));
                    ClientRecv::Done(
                        Err(
                            Status::internal(
                                "trailers-only response (grpc-status in headers) carried a message body",
                            ),
                        ),
                    )
                } else {
                    ClientRecv::Done(Ok(Some(msg)))
                }
            },
            Err(status) => {
                let end = self.finish_from_trailers(trailers);
                assert(settled(before, self@, m, verdict(end)));
                ClientRecv::Done(Err(status))
            },
        }
    }
}

} // verus!
