//! The streaming methods of the conformance service.

use super::service::{
    apply_headers, echo_headers, request_info, tells, timeout_ms, to_any, with_headers, wrapped,
    ConformanceServiceImpl, Failure,
};
use super::{
    any_views, copy_bytes, copy_info, header_views, optional_info, payload_views,
    ConformancePayload, Error, ErrorView, Header, HeaderView, InfoView, PayloadView,
};
use crate::headers::{bytes_of, header_map};
use crate::status::Status;
use core::time::Duration;
use trillium_http::Headers;
use vstd::prelude::*;

verus! {

/// What a call with a stream of responses is asked to do.
#[derive(Debug)]
pub struct StreamResponseDefinition {
    pub response_headers: Vec<Header>,
    pub response_trailers: Vec<Header>,
    pub response_data: Vec<Vec<u8>>,
    pub response_delay_ms: u32,
    pub error: Option<Error>,
}

/// What a [`StreamResponseDefinition`] says.
pub ghost struct StreamDefView {
    pub response_headers: Seq<HeaderView>,
    pub response_trailers: Seq<HeaderView>,
    pub response_data: Seq<Seq<u8>>,
    pub response_delay_ms: u32,
    pub error: Option<ErrorView>,
}

/// What an error that may be missing says.
pub open spec fn optional_error(e: Option<Error>) -> Option<ErrorView> {
    match e {
        Some(e) => Some(e@),
        None => None,
    }
}

impl View for StreamResponseDefinition {
    type V = StreamDefView;

    open spec fn view(&self) -> StreamDefView {
        StreamDefView {
            response_headers: header_views(self.response_headers@),
            response_trailers: header_views(self.response_trailers@),
            response_data: bytes_of(self.response_data@),
            response_delay_ms: self.response_delay_ms,
            error: optional_error(self.error),
        }
    }
}

/// What a definition that may be missing says.
pub open spec fn optional_def(def: Option<StreamResponseDefinition>) -> Option<StreamDefView> {
    match def {
        Some(def) => Some(def@),
        None => None,
    }
}

/// The headers that a definition adds to the response.
pub open spec fn stream_headers(def: Option<StreamDefView>) -> Seq<HeaderView> {
    match def {
        Some(def) => def.response_headers,
        None => Seq::empty(),
    }
}

/// The trailers that a definition adds to the response.
pub open spec fn stream_trailers(def: Option<StreamDefView>) -> Seq<HeaderView> {
    match def {
        Some(def) => def.response_trailers,
        None => Seq::empty(),
    }
}

/// What an error to raise says.
pub ghost struct FailureView {
    pub error: ErrorView,
    pub info: Option<InfoView>,
}

impl View for Failure {
    type V = FailureView;

    open spec fn view(&self) -> FailureView {
        FailureView { error: self.error@, info: optional_info(self.info) }
    }
}

/// What a failure that may be missing says.
pub open spec fn optional_failure(f: Option<Failure>) -> Option<FailureView> {
    match f {
        Some(f) => Some(f@),
        None => None,
    }
}

// ---------------------------------------------------------------------------
// Server streaming

/// What a `ServerStream` call does: send the responses, waiting before each,
/// then raise the error, if there is one.
#[derive(Debug)]
pub struct StreamReply {
    pub responses: Vec<ConformancePayload>,
    pub failure: Option<Failure>,
    pub delay_ms: u32,
}

/// The responses with the given data; only the first tells what was seen.
pub open spec fn data_responses(data: Seq<Seq<u8>>, info: InfoView) -> Seq<PayloadView> {
    Seq::new(
        data.len(),
        |i: int|
            PayloadView {
                data: data[i],
                request_info: if i == 0 {
                    Some(info)
                } else {
                    None
                },
            },
    )
}

/// The error that ends the stream; it tells what was seen where no response has.
pub open spec fn stream_failure(def: StreamDefView, info: InfoView) -> Option<FailureView> {
    match def.error {
        Some(error) => Some(
            FailureView {
                error,
                info: if def.response_data.len() == 0 {
                    Some(info)
                } else {
                    None
                },
            },
        ),
        None => None,
    }
}

/// Whether the stream is as `def` asks, with `info` for what the server has seen.
pub open spec fn answers_stream(
    reply: StreamReply,
    def: Option<StreamDefView>,
    info: InfoView,
) -> bool {
    match def {
        Some(def) => {
            &&& payload_views(reply.responses@) == data_responses(def.response_data, info)
            &&& optional_failure(reply.failure) == stream_failure(def, info)
            &&& reply.delay_ms == def.response_delay_ms
        },
        None => reply.responses@.len() == 0 && reply.failure is None && reply.delay_ms == 0,
    }
}

impl ConformanceServiceImpl {
    /// `ServerStream`: `request` is the encoding of the request message, `def`
    /// what it asks for.
    pub fn server_stream(
        &self,
        received: &Headers,
        remaining: Option<Duration>,
        request: Vec<u8>,
        def: Option<StreamResponseDefinition>,
        response_headers: &mut Headers,
        response_trailers: &mut Headers,
    ) -> (r: StreamReply)
        ensures
            exists|info: InfoView|
                tells(
                    info,
                    header_map(*received),
                    remaining,
                    seq![wrapped("ServerStreamRequest"@, request@)],
                ) && #[trigger] answers_stream(r, optional_def(def), info),
            header_map(*final(response_headers)) == with_headers(
                header_map(*old(response_headers)),
                stream_headers(optional_def(def)),
            ),
            header_map(*final(response_trailers)) == with_headers(
                header_map(*old(response_trailers)),
                stream_trailers(optional_def(def)),
            ),
    {
        let any = to_any("ServerStreamRequest", request);
        let requests = vec![any];
        assert(any_views(requests@) =~= seq![wrapped("ServerStreamRequest"@, request@)]);
        let info = request_info(echo_headers(received), timeout_ms(remaining), requests);
        let ghost seen = info@;
        let ghost asked = optional_def(def);
        assert(tells(
            seen,
            header_map(*received),
            remaining,
            seq![wrapped("ServerStreamRequest"@, request@)],
        ));
        let def = match def {
            None => {
                let reply = StreamReply { responses: Vec::new(), failure: None, delay_ms: 0 };
                assert(answers_stream(reply, asked, seen));
                return reply;
            },
            Some(def) => def,
        };
        apply_headers(response_headers, &def.response_headers);
        apply_headers(response_trailers, &def.response_trailers);
        let mut responses: Vec<ConformancePayload> = Vec::new();
        let ghost data = bytes_of(def.response_data@);
        let mut i: usize = 0;
        while i < def.response_data.len()
            invariant
                i <= def.response_data@.len(),
                data == bytes_of(def.response_data@),
                seen == info@,
                responses@.len() == i,
                forall|j: int|
                    0 <= j < i ==> (#[trigger] responses@[j])@ == data_responses(data, seen)[j],
            decreases def.response_data@.len() - i,
        {
            let request_info = if i == 0 {
                Some(copy_info(&info))
            } else {
                None
            };
            let payload = ConformancePayload {
                data: copy_bytes(&def.response_data[i]),
                request_info,
            };
            assert(payload@ == data_responses(data, seen)[i as int]);
            responses.push(payload);
            i = i + 1;
        }
        assert(payload_views(responses@) =~= data_responses(data, seen));
        let failure = match def.error {
            Some(error) => {
                let info = if responses.len() == 0 {
                    Some(info)
                } else {
                    None
                };
                Some(Failure { error, info })
            },
            None => None,
        };
        let reply = StreamReply { responses, failure, delay_ms: def.response_delay_ms };
        assert(answers_stream(reply, asked, seen));
        reply
    }
}

/// The responses of a stream that are still to be sent, and the status that ends
/// it.
#[derive(Debug)]
pub struct ResponseStream {
    responses: Vec<ConformancePayload>,
    terminal: Option<Status>,
    delay_ms: u32,
}

/// One item of a response stream: how long to wait for it, and the item.
#[derive(Debug)]
pub struct StreamItem {
    pub delay_ms: u32,
    pub item: Result<ConformancePayload, Status>,
}

impl ResponseStream {
    /// The responses that are left.
    pub closed spec fn left(&self) -> Seq<ConformancePayload> {
        self.responses@
    }

    /// The status that ends the stream.
    pub closed spec fn last(&self) -> Option<Status> {
        self.terminal
    }

    /// How long to wait before each response.
    pub closed spec fn delay(&self) -> u32 {
        self.delay_ms
    }

    /// A stream of `responses`, with a wait before each, that ends with
    /// `terminal`.
    pub fn new(responses: Vec<ConformancePayload>, terminal: Option<Status>, delay_ms: u32) -> (r:
        Self)
        ensures
            r.left() == responses@,
            r.last() == terminal,
            r.delay() == delay_ms,
    {
        ResponseStream { responses, terminal, delay_ms }
    }

    /// The next item: each response, then the status, once; then nothing.
    pub fn next(&mut self) -> (r: Option<StreamItem>)
        ensures
            final(self).delay() == old(self).delay(),
            old(self).left().len() > 0 ==> {
                &&& r matches Some(item) && item.delay_ms == old(self).delay() && item.item == Ok::<
                    ConformancePayload,
                    Status,
                >(old(self).left()[0])
                &&& final(self).left() == old(self).left().skip(1)
                &&& final(self).last() == old(self).last()
            },
            old(self).left().len() == 0 ==> {
                &&& final(self).left().len() == 0
                &&& final(self).last() is None
                &&& match old(self).last() {
                    Some(status) => r matches Some(item) && item.delay_ms == 0 && item.item == Err::<
                        ConformancePayload,
                        Status,
                    >(status),
                    None => r is None,
                }
            },
    {
        if self.responses.len() > 0 {
            let first = self.responses.remove(0);
            assert(self.responses@ =~= old(self).responses@.skip(1));
            return Some(StreamItem { delay_ms: self.delay_ms, item: Ok(first) });
        }
        let mut terminal = None;
        core::mem::swap(&mut terminal, &mut self.terminal);
        match terminal {
            Some(status) => Some(StreamItem { delay_ms: 0, item: Err(status) }),
            None => None,
        }
    }
}

} // verus!
