//! Typed, shape-specific call handles built on the [`GrpcClientConn`] engine.
//!
//! Each handle exposes only the operations that make sense for its shape: build
//! it with chainable `with_*` setters, drive it through its engine, then read
//! the response metadata off the same value. The readers behave like an
//! `Option` that execution populates: they return `None` until the call has
//! run.
//!
//! - [`UnaryConn`]: unary and client-streaming (one response).
//! - [`StreamingConn`]: server-streaming.
//! - [`BidiConn`]: full-duplex bidi.

use crate::client::conn::{
    configured_codec, first_error, metadata_failure, ClientView, GrpcClientConn, Phase,
};
use crate::codec::{encodes, suffixed, Codec};
use crate::metadata::{ascii_refusal, binary_refusal, Metadata, ValueView};
use crate::server::body::framed_payload;
use crate::status::{clone_verdict, plain_status, verdict, Code, Status, StatusView};
use trillium_http::Headers;
use vstd::prelude::*;

verus! {

/// Reading exactly one response message and confirming that the stream ends
/// cleanly. The second receive is load-bearing: `grpc-status` rides the
/// trailing frame *after* the message, so it drives the body to its end, reads
/// the verdict, and detects a cardinality-violating second message.
pub enum UnaryRead<Resp> {
    /// Nothing has been received.
    First,
    /// The message has been received; the end of the stream has not.
    Second(Resp),
}

/// What to do after a receive.
pub enum UnaryStep<Resp> {
    /// Receive again.
    Receive(UnaryRead<Resp>),
    /// The message, if there is one, and the call's logical verdict.
    Done(Option<Resp>, Result<(), Status>),
}

/// Whether a verdict is the `Internal` status with the given message.
pub open spec fn internal_error(v: Result<(), Status>, message: Seq<char>) -> bool {
    verdict(v) == Err::<(), StatusView>(plain_status(Code::Internal, message))
}

impl<Resp> UnaryRead<Resp> {
    /// The start of the reading.
    pub fn new() -> (r: Self)
        ensures
            r == UnaryRead::<Resp>::First,
    {
        UnaryRead::First
    }

    /// Take in what a receive gave.
    pub fn received(self, item: Result<Option<Resp>, Status>) -> (r: UnaryStep<Resp>)
        ensures
            match self {
                UnaryRead::First => match item {
                    Ok(Some(message)) => r == UnaryStep::Receive(UnaryRead::Second(message)),
                    Ok(None) => r is Done && r->Done_0 is None && internal_error(
                        r->Done_1,
                        "unary response had no message"@,
                    ),
                    Err(s) => r == UnaryStep::<Resp>::Done(None, Err(s)),
                },
                UnaryRead::Second(message) => match item {
                    Ok(None) => r == UnaryStep::Done(Some(message), Ok(())),
                    Ok(Some(_)) => r is Done && r->Done_0 is None && internal_error(
                        r->Done_1,
                        "unary response had multiple messages"@,
                    ),
                    Err(s) => r == UnaryStep::Done(Some(message), Err(s)),
                },
            },
    {
        match self {
            UnaryRead::First => match item {
                Ok(Some(message)) => UnaryStep::Receive(UnaryRead::Second(message)),
                Ok(None) => UnaryStep::Done(
                    None,
                    Err(Status::internal("unary response had no message")),
                ),
                Err(s) => UnaryStep::Done(None, Err(s)),
            },
            UnaryRead::Second(message) => match item {
                Ok(None) => UnaryStep::Done(Some(message), Ok(())),
                Ok(Some(_)) => UnaryStep::Done(
                    None,
                    Err(Status::internal("unary response had multiple messages")),
                ),
                Err(s) => UnaryStep::Done(Some(message), Err(s)),
            },
        }
    }
}

/// A call before it has been opened, with nothing in its body.
pub open spec fn fresh_call(
    content_suffix: Seq<char>,
    defaults: Map<Seq<char>, Seq<Seq<u8>>>,
    full_duplex: bool,
) -> ClientView {
    ClientView {
        phase: Phase::Pending { metadata: Seq::empty(), body: Seq::empty(), send_closed: false },
        content_type: "application/grpc+"@ + content_suffix,
        outbound: configured_codec(defaults),
        full_duplex,
        init_error: None,
    }
}

/// Whether `after` is the fresh call `before` with a single request: in its
/// body, or, where the request cannot be encoded, as the deferred error.
pub open spec fn with_request<C: Codec<Req>, Req>(
    before: ClientView,
    request: Req,
    after: ClientView,
) -> bool {
    exists|payload: Result<Seq<u8>, StatusView>| #[trigger]
        encodes::<C, Req>(request, payload) && match framed_payload(payload, before.outbound) {
            Ok(frame) => after == (ClientView {
                phase: Phase::Pending {
                    metadata: Seq::empty(),
                    body: frame,
                    send_closed: false,
                },
                ..before
            }),
            Err(s) => after == (ClientView { init_error: Some(s), ..before }),
        }
}

/// A call after an ASCII metadata entry has been attached.
pub open spec fn with_ascii(c: ClientView, key: Seq<char>, value: Seq<char>) -> ClientView {
    match c.phase {
        Phase::Pending { metadata, body, send_closed } => match ascii_refusal(key, value) {
            None => ClientView {
                phase: Phase::Pending {
                    metadata: metadata.push((key, ValueView::Ascii(value))),
                    body,
                    send_closed,
                },
                ..c
            },
            Some(e) => ClientView {
                init_error: first_error(c.init_error, metadata_failure(e)),
                ..c
            },
        },
        _ => c,
    }
}

/// A call after a binary metadata entry has been attached.
pub open spec fn with_binary(c: ClientView, key: Seq<char>, value: Seq<u8>) -> ClientView {
    match c.phase {
        Phase::Pending { metadata, body, send_closed } => match binary_refusal(key) {
            None => ClientView {
                phase: Phase::Pending {
                    metadata: metadata.push((key, ValueView::Binary(value))),
                    body,
                    send_closed,
                },
                ..c
            },
            Some(e) => ClientView {
                init_error: first_error(c.init_error, metadata_failure(e)),
                ..c
            },
        },
        _ => c,
    }
}

/// Whether `r` is the response's initial metadata in stage `p`.
pub open spec fn initial_metadata(p: Phase, r: Option<&Headers>) -> bool {
    match p {
        Phase::Live { headers, .. } => r is Some && crate::headers::header_map(*r->0) == headers,
        Phase::Done { headers, .. } => r is Some && crate::headers::header_map(*r->0) == headers,
        _ => r is None,
    }
}

/// Whether `r` is the response's trailing metadata in stage `p`.
pub open spec fn trailing_metadata(p: Phase, r: Option<&Headers>) -> bool {
    match p {
        Phase::Done { trailers, .. } => r is Some && crate::headers::header_map(*r->0) == trailers,
        _ => r is None,
    }
}

/// A unary or client-streaming call: one request (or a stream of requests) in,
/// exactly one response out.
///
/// Running it sends the request(s), reads the single response, drains the
/// stream to its trailers, and enforces the one-response cardinality.
/// Transport-level failures (connection, non-200 head) surface while it runs;
/// the logical `grpc-status` is read afterward via [`status`](Self::status) /
/// [`into_message`](Self::into_message), so response metadata stays readable
/// even on a logical error.
pub struct UnaryConn<C, Req, Resp> {
    engine: GrpcClientConn<C, Req, Resp>,
    outcome: Option<(Option<Resp>, Result<(), Status>)>,
}

impl<C, Req, Resp> UnaryConn<C, Req, Resp> {
    /// The call behind the handle.
    pub closed spec fn call(self) -> ClientView {
        self.engine@
    }

    /// The message and the verdict, once the call has run.
    pub closed spec fn outcome(self) -> Option<(Option<Resp>, Result<(), Status>)> {
        self.outcome
    }

    /// A client-streaming call: each request is sent through the engine.
    pub fn client_streaming(default_headers: &Headers) -> (r: Self) where C: Codec<Req>
        ensures
            r.outcome() is None,
            exists|suffix: Seq<char>| #[trigger]
                suffixed::<C, Req>(suffix) && r.call() == fresh_call(
                    suffix,
                    crate::headers::header_map(*default_headers),
                    false,
                ),
    {
        UnaryConn {
            engine: GrpcClientConn::new(default_headers, Metadata::new(), false),
            outcome: None,
        }
    }

    /// Attach an ASCII request-metadata entry. Chainable; takes effect when the
    /// call fires.
    pub fn with_ascii_metadata(self, key: &str, value: &str) -> (r: Self)
        ensures
            r.call() == with_ascii(self.call(), key@, value@),
            r.outcome() == self.outcome(),
    {
        let mut engine = self.engine;
        engine.add_ascii_metadata(key, value);
        UnaryConn { engine, outcome: self.outcome }
    }

    /// Attach a binary (`-bin`) request-metadata entry. Chainable.
    pub fn with_binary_metadata(self, key: &str, value: Vec<u8>) -> (r: Self)
        ensures
            r.call() == with_binary(self.call(), key@, value@),
            r.outcome() == self.outcome(),
    {
        let mut engine = self.engine;
        engine.add_binary_metadata(key, value);
        UnaryConn { engine, outcome: self.outcome }
    }

    /// The engine, to run the call with.
    pub fn engine_mut(&mut self) -> (r: &mut GrpcClientConn<C, Req, Resp>)
        ensures
            r@ == old(self).call(),
            final(self).call() == final(r)@,
            final(self).outcome() == old(self).outcome(),
    {
        &mut self.engine
    }

    /// Record what reading the response came to.
    pub fn finish(&mut self, message: Option<Resp>, status: Result<(), Status>)
        ensures
            final(self).call() == old(self).call(),
            final(self).outcome() == Some((message, status)),
    {
        self.outcome = Some((message, status));
    }

    /// The response's initial metadata, once the call has run. `None` before.
    pub fn metadata(&self) -> (r: Option<&Headers>)
        ensures
            initial_metadata(self.call().phase, r),
    {
        self.engine.headers()
    }

    /// The response's trailing metadata, once the call has run. `None` before.
    pub fn trailers(&self) -> (r: Option<&Headers>)
        ensures
            trailing_metadata(self.call().phase, r),
    {
        self.engine.trailers()
    }

    /// The response message, if the call ran and yielded one. `None` before the
    /// call, and on the error path.
    pub fn message(&self) -> (r: Option<&Resp>)
        ensures
            match self.outcome() {
                Some((Some(m), Ok(()))) => r == Some(&m),
                _ => r is None,
            },
    {
        match &self.outcome {
            Some((Some(m), Ok(()))) => Some(m),
            _ => None,
        }
    }

    /// The call's logical verdict, once it has run: `Ok(())` on success, the
    /// server's `grpc-status` (or a cardinality violation) as `Err`. `Ok(())`
    /// before the call has run.
    pub fn status(&self) -> (r: Result<(), Status>)
        ensures
            match self.outcome() {
                Some((_, s)) => verdict(r) == verdict(s),
                None => r is Ok,
            },
    {
        match &self.outcome {
            Some((_, s)) => clone_verdict(s),
            None => Ok(()),
        }
    }

    /// Consume the handle and give the response's single message, or the error
    /// that the call has ended with: its `grpc-status`, or a wrong number of
    /// messages. Read [`metadata`](Self::metadata) /
    /// [`trailers`](Self::trailers) first if you need them on the error path.
    pub fn into_message(self) -> (r: Result<Resp, Status>)
        ensures
            match self.outcome() {
                None => r is Err && r->Err_0@ == plain_status(
                    Code::Internal,
                    "call has not been awaited"@,
                ),
                Some((_, Err(s))) => r == Err::<Resp, Status>(s),
                Some((Some(m), Ok(()))) => r == Ok::<Resp, Status>(m),
                Some((None, Ok(()))) => r is Err && r->Err_0@ == plain_status(
                    Code::Internal,
                    "unary response had no message"@,
                ),
            },
    {
        match self.outcome {
            Some((message, status)) => {
                match status {
                    Err(s) => {
                        return Err(s);
                    },
                    Ok(()) => {},
                }
                match message {
                    Some(m) => Ok(m),
                    None => Err(Status::internal("unary response had no message")),
                }
            },
            None => Err(Status::internal("call has not been awaited")),
        }
    }
}

impl<C: Codec<Req> + Codec<Resp>, Req, Resp> UnaryConn<C, Req, Resp> {
    /// A unary call sending the single `request`.
    pub fn unary(default_headers: &Headers, request: &Req) -> (r: Self)
        ensures
            r.outcome() is None,
            exists|suffix: Seq<char>| #[trigger]
                suffixed::<C, Req>(suffix) && with_request::<C, Req>(
                    fresh_call(suffix, crate::headers::header_map(*default_headers), false),
                    *request,
                    r.call(),
                ),
    {
        let mut engine: GrpcClientConn<C, Req, Resp> = GrpcClientConn::new(
            default_headers,
            Metadata::new(),
            false,
        );
        engine.buffer_request(request);
        assert forall|frame: Seq<u8>| #[trigger] (Seq::<u8>::empty() + frame) == frame by {
            assert(Seq::<u8>::empty() + frame =~= frame);
        }
        UnaryConn { engine, outcome: None }
    }
}

/// A server-streaming call: one request in, a stream of responses out.
pub struct StreamingConn<C, Req, Resp> {
    engine: GrpcClientConn<C, Req, Resp>,
}

impl<C, Req, Resp> StreamingConn<C, Req, Resp> {
    /// The call behind the handle.
    pub closed spec fn call(self) -> ClientView {
        self.engine@
    }

    /// Attach an ASCII request-metadata entry. Chainable.
    pub fn with_ascii_metadata(self, key: &str, value: &str) -> (r: Self)
        ensures
            r.call() == with_ascii(self.call(), key@, value@),
    {
        let mut engine = self.engine;
        engine.add_ascii_metadata(key, value);
        StreamingConn { engine }
    }

    /// Attach a binary (`-bin`) request-metadata entry. Chainable.
    pub fn with_binary_metadata(self, key: &str, value: Vec<u8>) -> (r: Self)
        ensures
            r.call() == with_binary(self.call(), key@, value@),
    {
        let mut engine = self.engine;
        engine.add_binary_metadata(key, value);
        StreamingConn { engine }
    }

    /// The engine, to run the call with.
    pub fn engine_mut(&mut self) -> (r: &mut GrpcClientConn<C, Req, Resp>)
        ensures
            r@ == old(self).call(),
            final(self).call() == final(r)@,
    {
        &mut self.engine
    }

    /// The response's initial metadata, once the head has arrived. `None` before.
    pub fn metadata(&self) -> (r: Option<&Headers>)
        ensures
            initial_metadata(self.call().phase, r),
    {
        self.engine.headers()
    }

    /// The response's trailing metadata, once the stream has ended. `None` before.
    pub fn trailers(&self) -> (r: Option<&Headers>)
        ensures
            trailing_metadata(self.call().phase, r),
    {
        self.engine.trailers()
    }
}

impl<C: Codec<Req> + Codec<Resp>, Req, Resp> StreamingConn<C, Req, Resp> {
    /// A server-streaming call sending the single `request`, which is buffered
    /// until the first receive.
    pub fn server_streaming(default_headers: &Headers, request: &Req) -> (r: Self)
        ensures
            exists|suffix: Seq<char>| #[trigger]
                suffixed::<C, Req>(suffix) && with_request::<C, Req>(
                    fresh_call(suffix, crate::headers::header_map(*default_headers), false),
                    *request,
                    r.call(),
                ),
    {
        let mut engine: GrpcClientConn<C, Req, Resp> = GrpcClientConn::new(
            default_headers,
            Metadata::new(),
            false,
        );
        engine.buffer_request(request);
        assert forall|frame: Seq<u8>| #[trigger] (Seq::<u8>::empty() + frame) == frame by {
            assert(Seq::<u8>::empty() + frame =~= frame);
        }
        StreamingConn { engine }
    }
}

/// A full-duplex bidirectional call: send and receive messages interleaved over
/// one live stream.
pub struct BidiConn<C, Req, Resp> {
    engine: GrpcClientConn<C, Req, Resp>,
}

impl<C, Req, Resp> BidiConn<C, Req, Resp> {
    /// The call behind the handle.
    pub closed spec fn call(self) -> ClientView {
        self.engine@
    }

    /// A full-duplex bidi call. Requests are sent live through the engine.
    pub fn bidi(default_headers: &Headers) -> (r: Self) where C: Codec<Req>
        ensures
            exists|suffix: Seq<char>| #[trigger]
                suffixed::<C, Req>(suffix) && r.call() == fresh_call(
                    suffix,
                    crate::headers::header_map(*default_headers),
                    true,
                ),
    {
        BidiConn { engine: GrpcClientConn::new(default_headers, Metadata::new(), true) }
    }

    /// Attach an ASCII request-metadata entry, before the first send. Chainable.
    pub fn with_ascii_metadata(self, key: &str, value: &str) -> (r: Self)
        ensures
            r.call() == with_ascii(self.call(), key@, value@),
    {
        let mut engine = self.engine;
        engine.add_ascii_metadata(key, value);
        BidiConn { engine }
    }

    /// Attach a binary (`-bin`) request-metadata entry, before the first send.
    pub fn with_binary_metadata(self, key: &str, value: Vec<u8>) -> (r: Self)
        ensures
            r.call() == with_binary(self.call(), key@, value@),
    {
        let mut engine = self.engine;
        engine.add_binary_metadata(key, value);
        BidiConn { engine }
    }

    /// The engine, to run the call with.
    pub fn engine_mut(&mut self) -> (r: &mut GrpcClientConn<C, Req, Resp>)
        ensures
            r@ == old(self).call(),
            final(self).call() == final(r)@,
    {
        &mut self.engine
    }

    /// The response's initial metadata, once the head has arrived. `None` before.
    pub fn metadata(&self) -> (r: Option<&Headers>)
        ensures
            initial_metadata(self.call().phase, r),
    {
        self.engine.headers()
    }

    /// The response's trailing metadata, once the stream has ended. `None` before.
    pub fn trailers(&self) -> (r: Option<&Headers>)
        ensures
            trailing_metadata(self.call().phase, r),
    {
        self.engine.trailers()
    }
}

/// The next item of a response stream, once a receive is done: nothing at the
/// clean end of the stream.
pub fn stream_item<Resp>(received: Result<Option<Resp>, Status>) -> (r: Option<
    Result<Resp, Status>,
>)
    ensures
        match received {
            Ok(None) => r is None,
            Ok(Some(m)) => r == Some(Ok::<Resp, Status>(m)),
            Err(s) => r == Some(Err::<Resp, Status>(s)),
        },
{
    match received {
        Ok(None) => None,
        Ok(Some(m)) => Some(Ok(m)),
        Err(s) => Some(Err(s)),
    }
}

} // verus!
