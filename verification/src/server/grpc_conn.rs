//! [`GrpcServerConn`]: the per-call control surface handed to every service method.
//!
//! It exposes the request's initial metadata, mutable response initial- and
//! trailing-metadata, the time that the call may take, and, for the shapes
//! that read a request stream, a typed [`RequestStream`] via
//! [`requests`](GrpcServerConn::requests).
//!
//! Response headers are committed to the wire when the handler returns and the
//! head is flushed; response trailers accumulate until the end of the body.

use crate::codec::Codec;
use crate::encoding::Encoding;
use crate::headers::{headers_get_str, headers_new};
use crate::server::dispatch::optional_nanos;
use crate::server::streaming::RequestStream;
use crate::timeout::{parse_grpc_timeout, timeout_nanos};
use core::marker::PhantomData;
use core::time::Duration;
use trillium_http::Headers;
use vstd::prelude::*;

verus! {

/// The control surface for a single gRPC call.
pub struct GrpcServerConn<C> {
    request_headers: Headers,
    response_headers: Headers,
    response_trailers: Headers,
    request_encoding: Encoding,
    timeout: Option<Duration>,
    codec: PhantomData<C>,
}

/// What the control surface of a call holds.
pub ghost struct ServerConnView {
    pub request_headers: Map<Seq<char>, Seq<Seq<u8>>>,
    pub response_headers: Map<Seq<char>, Seq<Seq<u8>>>,
    pub response_trailers: Map<Seq<char>, Seq<Seq<u8>>>,
    pub request_encoding: Encoding,
    /// The time that the call may take, in nanoseconds.
    pub timeout: Option<nat>,
}

impl<C> View for GrpcServerConn<C> {
    type V = ServerConnView;

    closed spec fn view(&self) -> ServerConnView {
        ServerConnView {
            request_headers: crate::headers::header_map(self.request_headers),
            response_headers: crate::headers::header_map(self.response_headers),
            response_trailers: crate::headers::header_map(self.response_trailers),
            request_encoding: self.request_encoding,
            timeout: optional_nanos(self.timeout),
        }
    }
}

/// The timeout that a header map carries, in nanoseconds; none if it carries
/// none or a malformed one.
pub open spec fn lenient_timeout(m: Map<Seq<char>, Seq<Seq<u8>>>) -> Option<nat> {
    match crate::headers::single_text(m, "grpc-timeout"@) {
        Some(text) => timeout_nanos(text),
        None => None,
    }
}

impl<C> GrpcServerConn<C> {
    /// Take over the headers of one call. `request_encoding` is the
    /// already-validated inbound `grpc-encoding`, used to decompress request
    /// frames.
    pub fn new(
        request_headers: Headers,
        response_headers: Headers,
        request_encoding: Encoding,
    ) -> (r: Self)
        ensures
            r@ == (ServerConnView {
                request_headers: crate::headers::header_map(request_headers),
                response_headers: crate::headers::header_map(response_headers),
                response_trailers: crate::headers::no_headers(),
                request_encoding,
                timeout: lenient_timeout(crate::headers::header_map(request_headers)),
            }),
    {
        let timeout = match headers_get_str(&request_headers, "grpc-timeout") {
            Some(header) => parse_grpc_timeout(header.as_str()),
            None => None,
        };
        GrpcServerConn {
            request_headers,
            response_headers,
            response_trailers: headers_new(),
            request_encoding,
            timeout,
            codec: PhantomData,
        }
    }

    /// The request's initial metadata (received headers), including any custom
    /// metadata the client attached.
    pub fn received_headers(&self) -> (r: &Headers)
        ensures
            crate::headers::header_map(*r) == self@.request_headers,
    {
        &self.request_headers
    }

    /// The response's initial metadata. Committed to the wire when the handler
    /// returns, before the first response byte.
    pub fn response_headers_mut(&mut self) -> (r: &mut Headers)
        ensures
            crate::headers::header_map(*r) == old(self)@.response_headers,
            final(self)@ == (ServerConnView {
                response_headers: crate::headers::header_map(*final(r)),
                ..old(self)@
            }),
    {
        &mut self.response_headers
    }

    /// The response's trailing metadata, emitted alongside `grpc-status` after
    /// the response body.
    pub fn response_trailers_mut(&mut self) -> (r: &mut Headers)
        ensures
            crate::headers::header_map(*r) == old(self)@.response_trailers,
            final(self)@ == (ServerConnView {
                response_trailers: crate::headers::header_map(*final(r)),
                ..old(self)@
            }),
    {
        &mut self.response_trailers
    }

    /// The time that the call may take, from the request's `grpc-timeout`
    /// header; none if there is no such header or it is malformed.
    pub fn timeout(&self) -> (r: Option<Duration>)
        ensures
            optional_nanos(r) == self@.timeout,
    {
        self.timeout
    }

    /// A typed stream of decoded request messages. The codec's `decode` is
    /// selected by the codec parameter, so the only thing you supply is the
    /// message type.
    pub fn requests<Req>(&self) -> (r: RequestStream<C, Req>) where C: Codec<Req>
        ensures
            r.wf(),
            r.state() == crate::frame::reader::boundary(),
            r.encoding() == self@.request_encoding,
    {
        RequestStream::new(self.request_encoding)
    }

    /// Give back the response headers and the accumulated response trailers.
    pub fn into_parts(self) -> (r: (Headers, Headers))
        ensures
            crate::headers::header_map(r.0) == self@.response_headers,
            crate::headers::header_map(r.1) == self@.response_trailers,
    {
        (self.response_headers, self.response_trailers)
    }
}

} // verus!
