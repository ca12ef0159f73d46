//! The steps of one call of the conformance client: send each request, receive
//! the responses, cancel when the test case says so, and report what was seen.

use super::client::CancelTiming;
use super::service::{list_headers, lists};
use super::stream::optional_error;
use super::{
    any_views, header_views, payload_views, push_views, Any, ConformancePayload, Error, ErrorView,
    Header, PayloadView,
};
use crate::binary::{
    base64_decode_unpadded, base64_unpadded, base64_unpadded_decoded, base64_unpadded_round_trip,
};
use crate::headers::{header_map, headers_get_str, inserted, no_headers, single_text};
use crate::status::Status;
use crate::text::{decimal, decimal_string};
use trillium_http::Headers;
use vstd::prelude::*;
use vstd::utf8::{encode_utf8, encode_utf8_decode_utf8, encode_utf8_valid_utf8};

verus! {

/// Where a call stands: about to send the next request; waiting for the response
/// to one, in full duplex; about to end the requests; about to cancel after that;
/// receiving what is left; or over.
#[derive(Debug, Clone, Copy, PartialEq, Eq, Structural)]
pub enum DrivePhase {
    Sending,
    Answering,
    Closing,
    Timing,
    Draining,
    Finished,
}

/// What is to be done next. A cancellation after a delay is waited for where
/// `wait` says so, and otherwise runs beside what follows.
#[derive(Debug, Clone, Copy, PartialEq, Eq, Structural)]
pub enum DriveAction {
    Send { index: usize, delay_ms: u32 },
    Recv,
    Cancel,
    CloseSend,
    CancelAfter { delay_ms: u32, wait: bool },
    Finish,
}

/// What was received: a response and its payload, if it has one; the end of the
/// responses; or an error.
#[derive(Debug)]
pub enum Received {
    Message(Option<ConformancePayload>),
    End,
    Failed(Error),
}

/// A call of the conformance client.
#[derive(Debug)]
pub struct Drive {
    total: usize,
    next: usize,
    request_delay_ms: u32,
    full_duplex: bool,
    single_response: bool,
    cancel: Option<CancelTiming>,
    payloads: Vec<ConformancePayload>,
    error: Option<Error>,
    num_unsent: i32,
    phase: DrivePhase,
}

/// What a [`Drive`] holds: how many requests there are and how many were sent,
/// how the test case wants them sent, and what was seen so far.
pub ghost struct DriveView {
    pub total: nat,
    pub next: nat,
    pub request_delay_ms: u32,
    pub full_duplex: bool,
    pub single_response: bool,
    pub cancel: Option<CancelTiming>,
    pub payloads: Seq<PayloadView>,
    pub error: Option<ErrorView>,
    pub num_unsent: i32,
    pub phase: DrivePhase,
}

impl View for Drive {
    type V = DriveView;

    closed spec fn view(&self) -> DriveView {
        DriveView {
            total: self.total as nat,
            next: self.next as nat,
            request_delay_ms: self.request_delay_ms,
            full_duplex: self.full_duplex,
            single_response: self.single_response,
            cancel: self.cancel,
            payloads: payload_views(self.payloads@),
            error: optional_error(self.error),
            num_unsent: self.num_unsent,
            phase: self.phase,
        }
    }
}

impl DriveView {
    /// The state is one that a call can be in.
    pub open spec fn wf(self) -> bool {
        &&& self.next <= self.total
        &&& self.phase == DrivePhase::Sending ==> self.next < self.total
        &&& self.phase == DrivePhase::Answering ==> self.full_duplex && self.next > 0
        &&& (self.phase == DrivePhase::Closing || self.phase == DrivePhase::Timing || self.phase
            == DrivePhase::Draining) ==> self.next == self.total
        &&& self.phase == DrivePhase::Timing ==> self.cancel is Some && self.cancel->0
            is AfterCloseSendMs
        &&& self.error is Some ==> self.phase == DrivePhase::Finished
        &&& self.phase != DrivePhase::Finished ==> self.num_unsent == 0
    }
}

/// Where a call stands once its next request or response is done with.
pub open spec fn resumed(next: nat, total: nat) -> DrivePhase {
    if next < total {
        DrivePhase::Sending
    } else {
        DrivePhase::Closing
    }
}

/// What a call in the given state does next.
pub open spec fn next_action(d: DriveView) -> DriveAction {
    match d.phase {
        DrivePhase::Sending => DriveAction::Send {
            index: d.next as usize,
            delay_ms: d.request_delay_ms,
        },
        DrivePhase::Answering => DriveAction::Recv,
        DrivePhase::Closing => if d.cancel == Some(CancelTiming::BeforeCloseSend) {
            DriveAction::Cancel
        } else {
            DriveAction::CloseSend
        },
        DrivePhase::Timing => match d.cancel {
            Some(CancelTiming::AfterCloseSendMs(delay_ms)) => DriveAction::CancelAfter {
                delay_ms,
                wait: d.single_response,
            },
            _ => DriveAction::Recv,
        },
        DrivePhase::Draining => DriveAction::Recv,
        DrivePhase::Finished => DriveAction::Finish,
    }
}

/// The state after the next request was sent, or could not be: then it and those
/// behind it are unsent, and the call is over.
pub open spec fn after_sent(d: DriveView, result: Result<(), ErrorView>) -> DriveView {
    match result {
        Err(e) => DriveView {
            error: Some(e),
            num_unsent: (d.total - d.next) as i32,
            phase: DrivePhase::Finished,
            ..d
        },
        Ok(()) => DriveView {
            next: d.next + 1,
            phase: if d.full_duplex {
                DrivePhase::Answering
            } else {
                resumed(d.next + 1, d.total)
            },
            ..d
        },
    }
}

/// The payload of a response; an empty one where it has none.
pub open spec fn payload_or_empty(payload: Option<PayloadView>) -> PayloadView {
    match payload {
        Some(payload) => payload,
        None => PayloadView { data: Seq::empty(), request_info: None },
    }
}

/// The state after a response.
pub open spec fn after_message(d: DriveView, payload: Option<PayloadView>) -> DriveView {
    DriveView {
        payloads: d.payloads.push(payload_or_empty(payload)),
        phase: if d.phase == DrivePhase::Answering {
            resumed(d.next, d.total)
        } else {
            d.phase
        },
        ..d
    }
}

/// Whether the call is cancelled once that many responses have come in.
pub open spec fn cancels_at(cancel: Option<CancelTiming>, responses: nat) -> bool {
    cancel matches Some(CancelTiming::AfterNumResponses(n)) && (responses as u32) == n
}

/// What a payload that may be missing says.
pub open spec fn optional_payload(p: Option<ConformancePayload>) -> Option<PayloadView> {
    match p {
        Some(p) => Some(p@),
        None => None,
    }
}

/// The outcome of a send.
pub open spec fn send_outcome(r: Result<(), Error>) -> Result<(), ErrorView> {
    match r {
        Ok(()) => Ok(()),
        Err(e) => Err(e@),
    }
}

impl Drive {
    /// A call with `total` request messages, about to start.
    pub fn new(
        total: usize,
        request_delay_ms: u32,
        full_duplex: bool,
        single_response: bool,
        cancel: Option<CancelTiming>,
    ) -> (r: Self)
        ensures
            r@.wf(),
            r@ == (DriveView {
                total: total as nat,
                next: 0,
                request_delay_ms,
                full_duplex,
                single_response,
                cancel,
                payloads: Seq::empty(),
                error: None,
                num_unsent: 0,
                phase: resumed(0, total as nat),
            }),
    {
        let phase = if total > 0 {
            DrivePhase::Sending
        } else {
            DrivePhase::Closing
        };
        proof {
            push_views();
        }
        Drive {
            total,
            next: 0,
            request_delay_ms,
            full_duplex,
            single_response,
            cancel,
            payloads: Vec::new(),
            error: None,
            num_unsent: 0,
            phase,
        }
    }

    /// What is to be done next.
    pub fn action(&self) -> (r: DriveAction)
        ensures
            r == next_action(self@),
    {
        match self.phase {
            DrivePhase::Sending => DriveAction::Send {
                index: self.next,
                delay_ms: self.request_delay_ms,
            },
            DrivePhase::Answering => DriveAction::Recv,
            DrivePhase::Closing => match self.cancel {
                Some(CancelTiming::BeforeCloseSend) => DriveAction::Cancel,
                _ => DriveAction::CloseSend,
            },
            DrivePhase::Timing => match self.cancel {
                Some(CancelTiming::AfterCloseSendMs(delay_ms)) => DriveAction::CancelAfter {
                    delay_ms,
                    wait: self.single_response,
                },
                _ => DriveAction::Recv,
            },
            DrivePhase::Draining => DriveAction::Recv,
            DrivePhase::Finished => DriveAction::Finish,
        }
    }

    fn resume(&self) -> (r: DrivePhase)
        ensures
            r == resumed(self@.next, self@.total),
    {
        if self.next < self.total {
            DrivePhase::Sending
        } else {
            DrivePhase::Closing
        }
    }

    /// How the send went that was to be done.
    pub fn sent(&mut self, result: Result<(), Error>)
        requires
            old(self)@.wf(),
            old(self)@.phase == DrivePhase::Sending,
        ensures
            final(self)@ == after_sent(old(self)@, send_outcome(result)),
            final(self)@.wf(),
    {
        match result {
            Err(e) => {
                let unsent: usize = self.total - self.next;
                self.num_unsent = #[verifier::truncate]
                (unsent as i32);
                self.error = Some(e);
                self.phase = DrivePhase::Finished;
            },
            Ok(()) => {
                self.next = self.next + 1;
                self.phase = if self.full_duplex {
                    DrivePhase::Answering
                } else {
                    self.resume()
                };
            },
        }
    }

    /// What was received. The result says whether the call is to be cancelled now.
    pub fn received(&mut self, item: Received) -> (r: bool)
        requires
            old(self)@.wf(),
            old(self)@.phase == DrivePhase::Answering || old(self)@.phase == DrivePhase::Draining,
        ensures
            match item {
                Received::Message(payload) => {
                    &&& final(self)@ == after_message(old(self)@, optional_payload(payload))
                    &&& r == cancels_at(old(self)@.cancel, final(self)@.payloads.len())
                },
                Received::End => {
                    &&& final(self)@ == (DriveView { phase: DrivePhase::Finished, ..old(self)@ })
                    &&& !r
                },
                Received::Failed(e) => {
                    &&& final(self)@ == (DriveView {
                        error: Some(e@),
                        phase: DrivePhase::Finished,
                        ..old(self)@
                    })
                    &&& !r
                },
            },
            final(self)@.wf(),
    {
        match item {
            Received::Message(payload) => {
                let ghost given = optional_payload(payload);
                let payload = match payload {
                    Some(payload) => payload,
                    None => ConformancePayload { data: Vec::new(), request_info: None },
                };
                assert(payload@ == payload_or_empty(given)) by {
                    if given is None {
                        assert(payload@.data =~= Seq::empty());
                    }
                }
                proof {
                    push_views();
                }
                self.payloads.push(payload);
                if let DrivePhase::Answering = self.phase {
                    self.phase = self.resume();
                }
                let count: usize = self.payloads.len();
                match self.cancel {
                    Some(CancelTiming::AfterNumResponses(n)) => (#[verifier::truncate]
                    (count as u32)) == n,
                    _ => false,
                }
            },
            Received::End => {
                self.phase = DrivePhase::Finished;
                false
            },
            Received::Failed(e) => {
                self.error = Some(e);
                self.phase = DrivePhase::Finished;
                false
            },
        }
    }

    /// The requests were ended, or the call was cancelled in place of that.
    pub fn closed(&mut self)
        requires
            old(self)@.wf(),
            old(self)@.phase == DrivePhase::Closing,
        ensures
            final(self)@ == (DriveView {
                phase: if old(self)@.cancel is Some && old(self)@.cancel->0 is AfterCloseSendMs {
                    DrivePhase::Timing
                } else {
                    DrivePhase::Draining
                },
                ..old(self)@
            }),
            final(self)@.wf(),
    {
        self.phase = match self.cancel {
            Some(CancelTiming::AfterCloseSendMs(_)) => DrivePhase::Timing,
            _ => DrivePhase::Draining,
        };
    }

    /// The cancellation after a delay was done or started.
    pub fn timed(&mut self)
        requires
            old(self)@.wf(),
            old(self)@.phase == DrivePhase::Timing,
        ensures
            final(self)@ == (DriveView { phase: DrivePhase::Draining, ..old(self)@ }),
            final(self)@.wf(),
    {
        self.phase = DrivePhase::Draining;
    }
}

// ---------------------------------------------------------------------------
// The result

/// What is reported of a call.
#[derive(Debug)]
pub struct ClientResponseResult {
    pub response_headers: Vec<Header>,
    pub payloads: Vec<ConformancePayload>,
    pub error: Option<Error>,
    pub response_trailers: Vec<Header>,
    pub num_unsent_requests: i32,
}

/// Whether a call that ended well has another number of responses than the one
/// that is asked for.
pub open spec fn miscounted(d: DriveView) -> bool {
    d.error is None && d.single_response && d.payloads.len() != 1
}

/// The error of a call that has another number of responses than one.
pub open spec fn miscount_error(responses: nat) -> ErrorView {
    ErrorView {
        code: 12,
        message: Some("expected exactly one response message, got "@ + decimal(responses)),
        details: Seq::empty(),
    }
}

/// What the headers of a response hold, nothing where none have come.
pub open spec fn optional_headers(h: Option<&Headers>) -> Map<Seq<char>, Seq<Seq<u8>>> {
    match h {
        Some(h) => header_map(*h),
        None => no_headers(),
    }
}

/// The application's headers of a response.
pub fn headers_to_proto(headers: Option<&Headers>) -> (r: Vec<Header>)
    ensures
        lists(optional_headers(headers), true, header_views(r@)),
{
    match headers {
        Some(headers) => list_headers(headers, true),
        None => Vec::new(),
    }
}

impl Drive {
    /// The result that is reported once the call is over. Where one response is
    /// asked for, any other number is an error, and none is reported.
    pub fn finish(self, headers: Option<&Headers>, trailers: Option<&Headers>) -> (r:
        ClientResponseResult)
        ensures
            lists(optional_headers(headers), true, header_views(r.response_headers@)),
            lists(optional_headers(trailers), true, header_views(r.response_trailers@)),
            r.num_unsent_requests == self@.num_unsent,
            miscounted(self@) ==> {
                &&& optional_error(r.error) == Some(miscount_error(self@.payloads.len()))
                &&& r.payloads@.len() == 0
            },
            !miscounted(self@) ==> {
                &&& optional_error(r.error) == self@.error
                &&& payload_views(r.payloads@) == self@.payloads
            },
            self@.single_response && r.error is None ==> r.payloads@.len() == 1,
    {
        let response_headers = headers_to_proto(headers);
        let response_trailers = headers_to_proto(trailers);
        let num_unsent_requests = self.num_unsent;
        let count: usize = self.payloads.len();
        if self.error.is_none() && self.single_response && count != 1 {
            let message = "expected exactly one response message, got ".to_owned().concat(
                decimal_string(count as u128).as_str(),
            );
            let error = Error { code: 12, message: Some(message), details: Vec::new() };
            proof {
                push_views();
            }
            return ClientResponseResult {
                response_headers,
                payloads: Vec::new(),
                error: Some(error),
                response_trailers,
                num_unsent_requests,
            };
        }
        ClientResponseResult {
            response_headers,
            payloads: self.payloads,
            error: self.error,
            response_trailers,
            num_unsent_requests,
        }
    }
}

// ---------------------------------------------------------------------------
// Errors

/// The encoding of the status with details that trailers carry, if they do.
pub open spec fn carried_details(m: Map<Seq<char>, Seq<Seq<u8>>>) -> Option<Seq<u8>> {
    match single_text(m, "grpc-status-details-bin"@) {
        Some(text) => base64_unpadded_decoded(encode_utf8(text)),
        None => None,
    }
}

/// The encoding of the status with details that trailers carry, if they do.
pub fn details_bytes(trailers: &Headers) -> (r: Option<Vec<u8>>)
    ensures
        match carried_details(header_map(*trailers)) {
            Some(bytes) => r matches Some(b) && b@ == bytes,
            None => r is None,
        },
{
    match headers_get_str(trailers, "grpc-status-details-bin") {
        Some(text) => base64_decode_unpadded(text.as_str().as_bytes()),
        None => None,
    }
}

/// The error that is reported of a status, with the details that were read from
/// its trailers.
pub fn rpc_error(status: &Status, details: Vec<Any>) -> (r: Error)
    ensures
        r@ == (ErrorView {
            code: status@.code.number() as i32,
            message: Some(status@.message),
            details: any_views(details@),
        }),
{
    Error {
        code: status.code.as_u8() as i32,
        message: Some(status.message.as_str().to_owned()),
        details,
    }
}

/// Details that are put into trailers are read back from them.
pub proof fn details_round_trip(trailers: Map<Seq<char>, Seq<Seq<u8>>>, encoded: Seq<u8>)
    ensures
        carried_details(
            inserted(trailers, "grpc-status-details-bin"@, base64_unpadded(encoded)),
        ) == Some(encoded),
{
    encode_utf8_valid_utf8(base64_unpadded(encoded));
    encode_utf8_decode_utf8(base64_unpadded(encoded));
    base64_unpadded_round_trip(encoded);
}

} // verus!
