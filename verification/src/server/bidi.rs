//! Bidirectional-streaming: the prologue and responder split that straddles
//! the seam between the response head and the rest of the response.
//!
//! Read-while-write needs the response head already flushed. But the
//! response's *initial* metadata must be committed before the flush, and that
//! decision may depend on reading the first request message. So a bidi call is
//! two steps: a prologue that runs before the flush and may reject the call,
//! and a responder that drives a [`Channel`](crate::server::Channel) after it.

use crate::encoding::Encoding;
use crate::server::body::{fresh_body, OneShotBody, StreamBody};
use crate::server::dispatch::error_response_with_trailers;
use crate::server::streaming::Channel;
use crate::status::{plain_status, written, Code, Status};
use trillium_http::Headers;
use vstd::prelude::*;

verus! {

/// What follows a prologue, or the set-up of a server-streaming call.
pub enum Continuation<R, B> {
    /// The call goes on with what the service method returned.
    Continue(R, B),
    /// The call is answered at once.
    Reply(OneShotBody),
}

/// What follows the prologue of a bidi call: the responder is driven over a
/// channel whose trailing metadata is what the prologue set, or the call is
/// rejected with the prologue's status, without an upgrade.
pub fn after_prologue<R>(
    result: Result<R, Status>,
    trailers: Headers,
    request_encoding: Encoding,
    response_encoding: Encoding,
) -> (r: Continuation<R, Channel>)
    ensures
        match result {
            Ok(responder) => {
                &&& r is Continue
                &&& r->Continue_0 == responder
                &&& r->Continue_1@.response_trailers == crate::headers::header_map(trailers)
                &&& r->Continue_1@.state == crate::frame::reader::boundary()
                &&& r->Continue_1@.inbound_encoding == request_encoding
                &&& r->Continue_1@.outbound_encoding == response_encoding
            },
            Err(s) => r is Reply && r->Reply_0.replies_error(
                s@,
                crate::headers::header_map(trailers),
            ),
        },
{
    match result {
        Ok(responder) => Continuation::Continue(
            responder,
            Channel::new(trailers, request_encoding, response_encoding),
        ),
        Err(status) => Continuation::Reply(error_response_with_trailers(status, trailers)),
    }
}

/// What follows the set-up of a server-streaming call: the stream is pulled
/// into a response body, or the call is answered with the method's status.
pub fn after_setup<S>(
    result: Result<S, Status>,
    response_encoding: Encoding,
    trailers: Headers,
) -> (r: Continuation<S, StreamBody>)
    ensures
        match result {
            Ok(stream) => {
                &&& r is Continue
                &&& r->Continue_0 == stream
                &&& r->Continue_1.wf()
                &&& r->Continue_1@ == fresh_body(
                    response_encoding,
                    crate::headers::header_map(trailers),
                )
            },
            Err(s) => r is Reply && r->Reply_0.replies_error(
                s@,
                crate::headers::header_map(trailers),
            ),
        },
{
    match result {
        Ok(stream) => Continuation::Continue(stream, StreamBody::new(response_encoding, trailers)),
        Err(status) => Continuation::Reply(error_response_with_trailers(status, trailers)),
    }
}

/// The trailers that end a bidi call: `grpc-status` from the responder's
/// result, on top of the trailing metadata.
pub fn finish_bidi(result: Result<(), Status>, trailers: Headers) -> (r: Headers)
    ensures
        crate::headers::header_map(r) == written(
            crate::headers::header_map(trailers),
            match result {
                Ok(()) => plain_status(Code::OK, Seq::empty()),
                Err(s) => s@,
            },
        ),
{
    let mut trailers = trailers;
    match result {
        Ok(()) => {
            Status::ok().write_into(&mut trailers);
        },
        Err(status) => {
            status.write_into(&mut trailers);
        },
    }
    trailers
}

} // verus!
