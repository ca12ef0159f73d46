//! The `BidiStream` method of the conformance service: a prologue that reads the
//! first request, and a responder that receives and sends in turn.
//!
//! In full duplex each request is answered at once, as long as responses are
//! left; in half duplex the responses follow the last request. What is left over
//! when the requests end is sent then.

use super::service::{
    apply_headers, echo_headers, lists, millis_left, request_info, timeout_ms, to_any, with_headers,
    wrapped, ConformanceServiceImpl, Failure,
};
use super::stream::{
    optional_def, stream_headers, stream_trailers, FailureView, StreamDefView,
    StreamResponseDefinition,
};
use super::{
    any_views, copy_bytes, copy_headers, copy_messages, header_views, push_views, Any, AnyView,
    ConformancePayload, Error, Header, HeaderView, InfoView, PayloadView, RequestInfo,
};
use crate::headers::header_map;
use crate::status::{Status, StatusView};
use core::time::Duration;
use trillium_http::Headers;
use vstd::prelude::*;

verus! {

/// A request of a `BidiStream` call: its encoding, and what it asks for.
#[derive(Debug)]
pub struct BidiStreamRequest {
    pub encoded: Vec<u8>,
    pub response_definition: Option<StreamResponseDefinition>,
    pub full_duplex: bool,
}

/// The state of a `BidiStream` call behind its prologue.
#[derive(Debug)]
pub struct BidiResponderImpl {
    request_headers: Vec<Header>,
    timeout_ms: Option<i64>,
    def: Option<StreamResponseDefinition>,
    full_duplex: bool,
    first: Option<Vec<u8>>,
    requests: Vec<Any>,
    resp_num: usize,
    receiving: bool,
}

/// What a [`BidiResponderImpl`] holds: what the prologue has seen and read, the
/// first request until it is replayed, the requests that no response has echoed,
/// how many responses were sent, and whether requests are still read.
pub ghost struct BidiView {
    pub request_headers: Seq<HeaderView>,
    pub timeout_ms: Option<i64>,
    pub def: Option<StreamDefView>,
    pub full_duplex: bool,
    pub first: Option<Seq<u8>>,
    pub requests: Seq<AnyView>,
    pub resp_num: nat,
    pub receiving: bool,
}

/// What is to be done next: read a request; wait and send a response; end with an
/// error; or end.
#[derive(Debug)]
pub enum BidiAction {
    Recv,
    Send { delay_ms: u32, payload: ConformancePayload },
    Fail(Failure),
    Done(Result<(), Status>),
}

/// What a [`BidiAction`] says.
pub ghost enum ActionView {
    Recv,
    Send { delay_ms: u32, payload: PayloadView },
    Fail(FailureView),
    Done(Result<(), StatusView>),
}

impl View for BidiAction {
    type V = ActionView;

    open spec fn view(&self) -> ActionView {
        match self {
            BidiAction::Recv => ActionView::Recv,
            BidiAction::Send { delay_ms, payload } => ActionView::Send {
                delay_ms: *delay_ms,
                payload: payload@,
            },
            BidiAction::Fail(failure) => ActionView::Fail(failure@),
            BidiAction::Done(result) => ActionView::Done(crate::status::verdict(*result)),
        }
    }
}

/// All that the server has seen and not echoed yet.
pub open spec fn full_info(s: BidiView) -> InfoView {
    InfoView {
        request_headers: s.request_headers,
        timeout_ms: s.timeout_ms,
        requests: s.requests,
    }
}

/// The requests alone.
pub open spec fn requests_info(s: BidiView) -> InfoView {
    InfoView { request_headers: Seq::empty(), timeout_ms: None, requests: s.requests }
}

/// The state once the requests have been echoed.
pub open spec fn echoed(s: BidiView) -> BidiView {
    BidiView { requests: Seq::empty(), ..s }
}

/// No request is read any more: the next response that is left, else the error,
/// else the end. Only the call's first response tells what was seen, and the
/// error where there was none.
pub open spec fn drained(s: BidiView) -> (BidiView, ActionView) {
    let s = BidiView { receiving: false, ..s };
    match s.def {
        None => (s, ActionView::Done(Ok(()))),
        Some(def) => if s.resp_num < def.response_data.len() {
            (
                if s.resp_num == 0 {
                    echoed(s)
                } else {
                    s
                },
                ActionView::Send {
                    delay_ms: def.response_delay_ms,
                    payload: PayloadView {
                        data: def.response_data[s.resp_num as int],
                        request_info: if s.resp_num == 0 {
                            Some(full_info(s))
                        } else {
                            None
                        },
                    },
                },
            )
        } else {
            match def.error {
                Some(error) => (
                    s,
                    ActionView::Fail(
                        FailureView {
                            error,
                            info: if s.resp_num == 0 {
                                Some(full_info(s))
                            } else {
                                None
                            },
                        },
                    ),
                ),
                None => (s, ActionView::Done(Ok(()))),
            }
        },
    }
}

/// A request has come in. In full duplex it is answered, if a response is left:
/// the first with all that was seen, the others with the request alone.
pub open spec fn requested(s: BidiView, encoded: Seq<u8>) -> (BidiView, ActionView) {
    let s = BidiView {
        requests: s.requests.push(wrapped("BidiStreamRequest"@, encoded)),
        ..s
    };
    if !s.full_duplex {
        (s, ActionView::Recv)
    } else {
        match s.def {
            None => drained(s),
            Some(def) => if s.resp_num >= def.response_data.len() {
                drained(s)
            } else {
                (
                    echoed(s),
                    ActionView::Send {
                        delay_ms: def.response_delay_ms,
                        payload: PayloadView {
                            data: def.response_data[s.resp_num as int],
                            request_info: Some(
                                if s.resp_num == 0 {
                                    full_info(s)
                                } else {
                                    requests_info(s)
                                },
                            ),
                        },
                    },
                )
            },
        }
    }
}

/// The first step: the request that the prologue has read comes first.
pub open spec fn begun(s: BidiView) -> (BidiView, ActionView) {
    match s.first {
        Some(encoded) => requested(BidiView { first: None, ..s }, encoded),
        None => (s, ActionView::Recv),
    }
}

/// A response was sent.
pub open spec fn after_send(s: BidiView) -> (BidiView, ActionView) {
    let s = BidiView { resp_num: s.resp_num + 1, ..s };
    if s.receiving {
        (s, ActionView::Recv)
    } else {
        drained(s)
    }
}

/// The bytes that may be missing.
pub open spec fn optional_bytes(b: Option<Vec<u8>>) -> Option<Seq<u8>> {
    match b {
        Some(b) => Some(b@),
        None => None,
    }
}

impl View for BidiResponderImpl {
    type V = BidiView;

    closed spec fn view(&self) -> BidiView {
        BidiView {
            request_headers: header_views(self.request_headers@),
            timeout_ms: self.timeout_ms,
            def: optional_def(self.def),
            full_duplex: self.full_duplex,
            first: optional_bytes(self.first),
            requests: any_views(self.requests@),
            resp_num: self.resp_num as nat,
            receiving: self.receiving,
        }
    }
}

/// A copy of an error.
fn copy_error(e: &Error) -> (r: Error)
    ensures
        r@ == e@,
{
    let message = match &e.message {
        Some(message) => Some(message.as_str().to_owned()),
        None => None,
    };
    Error { code: e.code, message, details: copy_messages(&e.details) }
}

impl ConformanceServiceImpl {
    /// `BidiStream`, its prologue: `first` is the first request, which says what
    /// the responses are to be, or the status with which it could not be read.
    pub fn bidi_stream(
        &self,
        received: &Headers,
        remaining: Option<Duration>,
        first: Result<Option<BidiStreamRequest>, Status>,
        response_headers: &mut Headers,
        response_trailers: &mut Headers,
    ) -> (r: Result<BidiResponderImpl, Status>)
        ensures
            match (first, r) {
                (Err(status), Err(s)) => s == status && *final(response_headers) == *old(
                    response_headers,
                ) && *final(response_trailers) == *old(response_trailers),
                (Ok(request), Ok(responder)) => {
                    let def = match request {
                        Some(request) => optional_def(request.response_definition),
                        None => None,
                    };
                    &&& lists(header_map(*received), false, responder@.request_headers)
                    &&& responder@ == (BidiView {
                        request_headers: responder@.request_headers,
                        timeout_ms: millis_left(remaining),
                        def,
                        full_duplex: request is Some && request->0.full_duplex,
                        first: match request {
                            Some(request) => Some(request.encoded@),
                            None => None,
                        },
                        requests: Seq::empty(),
                        resp_num: 0,
                        receiving: true,
                    })
                    &&& header_map(*final(response_headers)) == with_headers(
                        header_map(*old(response_headers)),
                        stream_headers(def),
                    )
                    &&& header_map(*final(response_trailers)) == with_headers(
                        header_map(*old(response_trailers)),
                        stream_trailers(def),
                    )
                },
                _ => false,
            },
    {
        let first = match first {
            Err(status) => return Err(status),
            Ok(first) => first,
        };
        let request_headers = echo_headers(received);
        let timeout_ms = timeout_ms(remaining);
        let (def, full_duplex, first) = match first {
            Some(request) => (
                request.response_definition,
                request.full_duplex,
                Some(request.encoded),
            ),
            None => (None, false, None),
        };
        if let Some(def) = &def {
            apply_headers(response_headers, &def.response_headers);
            apply_headers(response_trailers, &def.response_trailers);
        }
        proof {
            push_views();
        }
        Ok(
            BidiResponderImpl {
                request_headers,
                timeout_ms,
                def,
                full_duplex,
                first,
                requests: Vec::new(),
                resp_num: 0,
                receiving: true,
            },
        )
    }
}

impl BidiResponderImpl {
    /// Fewer responses were sent than there are numbers for.
    pub open spec fn wf(&self) -> bool {
        match self@.def {
            Some(def) => self@.resp_num <= def.response_data.len(),
            None => self@.resp_num == 0,
        }
    }

    fn take_requests(&mut self) -> (r: Vec<Any>)
        ensures
            any_views(r@) == old(self)@.requests,
            final(self)@ == echoed(old(self)@),
    {
        let mut requests: Vec<Any> = Vec::new();
        core::mem::swap(&mut requests, &mut self.requests);
        proof {
            push_views();
        }
        requests
    }

    fn take_full_info(&mut self) -> (r: RequestInfo)
        ensures
            r@ == full_info(old(self)@),
            final(self)@ == echoed(old(self)@),
    {
        let headers = copy_headers(&self.request_headers);
        let timeout_ms = self.timeout_ms;
        let requests = self.take_requests();
        request_info(headers, timeout_ms, requests)
    }

    fn drain(&mut self) -> (r: BidiAction)
        requires
            old(self).wf(),
        ensures
            final(self)@ == drained(old(self)@).0,
            r@ == drained(old(self)@).1,
            final(self).wf(),
    {
        self.receiving = false;
        let resp_num = self.resp_num;
        let (delay_ms, data) = match &self.def {
            None => return BidiAction::Done(Ok(())),
            Some(def) => {
                if resp_num >= def.response_data.len() {
                    match &def.error {
                        Some(error) => {
                            let error = copy_error(error);
                            let info = if resp_num == 0 {
                                Some(
                                    request_info(
                                        copy_headers(&self.request_headers),
                                        self.timeout_ms,
                                        copy_messages(&self.requests),
                                    ),
                                )
                            } else {
                                None
                            };
                            return BidiAction::Fail(Failure { error, info });
                        },
                        None => return BidiAction::Done(Ok(())),
                    }
                }
                (def.response_delay_ms, copy_bytes(&def.response_data[resp_num]))
            },
        };
        let info = if resp_num == 0 {
            Some(self.take_full_info())
        } else {
            None
        };
        BidiAction::Send { delay_ms, payload: ConformancePayload { data, request_info: info } }
    }

    fn request(&mut self, encoded: Vec<u8>) -> (r: BidiAction)
        requires
            old(self).wf(),
        ensures
            final(self)@ == requested(old(self)@, encoded@).0,
            r@ == requested(old(self)@, encoded@).1,
            final(self).wf(),
    {
        proof {
            push_views();
        }
        self.requests.push(to_any("BidiStreamRequest", encoded));
        if !self.full_duplex {
            return BidiAction::Recv;
        }
        let resp_num = self.resp_num;
        let (delay_ms, data) = match &self.def {
            None => return self.drain(),
            Some(def) => {
                if resp_num >= def.response_data.len() {
                    return self.drain();
                }
                (def.response_delay_ms, copy_bytes(&def.response_data[resp_num]))
            },
        };
        let info = if resp_num == 0 {
            self.take_full_info()
        } else {
            request_info(Vec::new(), None, self.take_requests())
        };
        BidiAction::Send {
            delay_ms,
            payload: ConformancePayload { data, request_info: Some(info) },
        }
    }

    /// The first step of the loop.
    pub fn respond(&mut self) -> (r: BidiAction)
        requires
            old(self).wf(),
        ensures
            final(self)@ == begun(old(self)@).0,
            r@ == begun(old(self)@).1,
            final(self).wf(),
    {
        let mut first: Option<Vec<u8>> = None;
        core::mem::swap(&mut first, &mut self.first);
        match first {
            Some(encoded) => self.request(encoded),
            None => BidiAction::Recv,
        }
    }

    /// What was read: the encoding of a request, the end of the requests, or the
    /// status with which reading failed.
    pub fn received(&mut self, item: Option<Result<Vec<u8>, Status>>) -> (r: BidiAction)
        requires
            old(self).wf(),
        ensures
            match item {
                Some(Ok(encoded)) => {
                    &&& final(self)@ == requested(old(self)@, encoded@).0
                    &&& r@ == requested(old(self)@, encoded@).1
                },
                Some(Err(status)) => {
                    &&& *final(self) == *old(self)
                    &&& r == BidiAction::Done(Err(status))
                },
                None => {
                    &&& final(self)@ == drained(old(self)@).0
                    &&& r@ == drained(old(self)@).1
                },
            },
            final(self).wf(),
    {
        match item {
            Some(Ok(encoded)) => self.request(encoded),
            Some(Err(status)) => BidiAction::Done(Err(status)),
            None => self.drain(),
        }
    }

    /// How the last send went.
    pub fn sent(&mut self, result: Result<(), Status>) -> (r: BidiAction)
        requires
            old(self).wf(),
            old(self)@.def is Some,
            old(self)@.resp_num < old(self)@.def->0.response_data.len(),
        ensures
            match result {
                Ok(()) => {
                    &&& final(self)@ == after_send(old(self)@).0
                    &&& r@ == after_send(old(self)@).1
                },
                Err(status) => {
                    &&& *final(self) == *old(self)
                    &&& r == BidiAction::Done(Err(status))
                },
            },
            final(self).wf(),
    {
        match result {
            Err(status) => BidiAction::Done(Err(status)),
            Ok(()) => {
                let owed: usize = match &self.def {
                    Some(def) => def.response_data.len(),
                    None => 0,
                };
                assert(self.resp_num < owed);
                self.resp_num = self.resp_num + 1;
                if self.receiving {
                    BidiAction::Recv
                } else {
                    self.drain()
                }
            },
        }
    }
}

// ---------------------------------------------------------------------------
// What a whole call sends

/// The responses that follow once no request is read any more, every send going
/// well.
pub open spec fn drained_responses(s: BidiView) -> Seq<PayloadView>
    decreases
            (match s.def {
                Some(def) => def.response_data.len() - s.resp_num,
                None => 0,
            }),
{
    match drained(s).1 {
        ActionView::Send { delay_ms, payload } => seq![payload] + drained_responses(
            BidiView { resp_num: s.resp_num + 1, ..drained(s).0 },
        ),
        _ => Seq::empty(),
    }
}

/// The responses to the requests `incoming`, which come in one after the other
/// and then end, every send going well.
pub open spec fn responses_to(s: BidiView, incoming: Seq<Seq<u8>>) -> Seq<PayloadView>
    decreases incoming.len(),
{
    if incoming.len() == 0 {
        drained_responses(s)
    } else {
        let (next, action) = requested(s, incoming[0]);
        match action {
            ActionView::Recv => responses_to(next, incoming.skip(1)),
            ActionView::Send { delay_ms, payload } => seq![payload] + responses_to(
                BidiView { resp_num: next.resp_num + 1, ..next },
                incoming.skip(1),
            ),
            _ => Seq::empty(),
        }
    }
}

/// The requests as they are echoed.
pub open spec fn wrapped_requests(incoming: Seq<Seq<u8>>) -> Seq<AnyView> {
    incoming.map_values(|encoded: Seq<u8>| wrapped("BidiStreamRequest"@, encoded))
}

/// The responses that are left, none of which is the call's first.
proof fn later_drained(s: BidiView, def: StreamDefView)
    requires
        s.def == Some(def),
        0 < s.resp_num <= def.response_data.len(),
    ensures
        drained_responses(s) == Seq::new(
            (def.response_data.len() - s.resp_num) as nat,
            |i: int| PayloadView { data: def.response_data[s.resp_num + i], request_info: None },
        ),
    decreases def.response_data.len() - s.resp_num,
{
    let expected = Seq::new(
        (def.response_data.len() - s.resp_num) as nat,
        |i: int| PayloadView { data: def.response_data[s.resp_num + i], request_info: None },
    );
    if s.resp_num < def.response_data.len() {
        let next = BidiView { resp_num: s.resp_num + 1, ..drained(s).0 };
        later_drained(next, def);
        assert(drained_responses(s) =~= expected);
    } else {
        assert(drained_responses(s) =~= expected);
    }
}

/// In half duplex, the responses follow the last request: all the data, in
/// order. The first tells all that was seen, with every request.
pub proof fn half_duplex_responses(s: BidiView, def: StreamDefView, incoming: Seq<Seq<u8>>)
    requires
        s.def == Some(def),
        !s.full_duplex,
        s.resp_num == 0,
    ensures
        responses_to(s, incoming) == Seq::new(
            def.response_data.len(),
            |i: int|
                PayloadView {
                    data: def.response_data[i],
                    request_info: if i == 0 {
                        Some(
                            InfoView {
                                request_headers: s.request_headers,
                                timeout_ms: s.timeout_ms,
                                requests: s.requests + wrapped_requests(incoming),
                            },
                        )
                    } else {
                        None
                    },
                },
        ),
    decreases incoming.len(),
{
    let expected = Seq::new(
        def.response_data.len(),
        |i: int|
            PayloadView {
                data: def.response_data[i],
                request_info: if i == 0 {
                    Some(
                        InfoView {
                            request_headers: s.request_headers,
                            timeout_ms: s.timeout_ms,
                            requests: s.requests + wrapped_requests(incoming),
                        },
                    )
                } else {
                    None
                },
            },
    );
    if incoming.len() == 0 {
        assert(s.requests + wrapped_requests(incoming) =~= s.requests);
        if def.response_data.len() > 0 {
            let next = BidiView { resp_num: 1, ..drained(s).0 };
            later_drained(next, def);
        }
        assert(responses_to(s, incoming) =~= expected);
    } else {
        let next = requested(s, incoming[0]).0;
        half_duplex_responses(next, def, incoming.skip(1));
        assert(next.requests + wrapped_requests(incoming.skip(1)) =~= s.requests
            + wrapped_requests(incoming));
        assert(responses_to(s, incoming) =~= expected);
    }
}

/// In full duplex, each request is answered by the next data, as long as there is
/// some, and what is left follows the last request: as many responses as there is
/// data, each with its own, in order.
pub proof fn full_duplex_responses(s: BidiView, def: StreamDefView, incoming: Seq<Seq<u8>>)
    requires
        s.def == Some(def),
        s.full_duplex,
        s.requests.len() == 0,
        s.resp_num <= def.response_data.len(),
    ensures
        ({
            let sent = responses_to(s, incoming);
            &&& sent.len() == def.response_data.len() - s.resp_num
            &&& forall|i: int|
                0 <= i < sent.len() ==> (#[trigger] sent[i]).data == def.response_data[s.resp_num
                    + i]
            &&& forall|i: int|
                0 <= i < sent.len() && i < incoming.len() ==> (#[trigger] sent[i]).request_info
                    == Some(
                    InfoView {
                        request_headers: if s.resp_num + i == 0 {
                            s.request_headers
                        } else {
                            Seq::empty()
                        },
                        timeout_ms: if s.resp_num + i == 0 {
                            s.timeout_ms
                        } else {
                            None
                        },
                        requests: seq![wrapped("BidiStreamRequest"@, incoming[i])],
                    },
                )
        }),
    decreases incoming.len(),
{
    let sent = responses_to(s, incoming);
    if incoming.len() == 0 {
        if s.resp_num == 0 {
            if def.response_data.len() > 0 {
                let next = BidiView { resp_num: 1, ..drained(s).0 };
                later_drained(next, def);
                assert(sent =~= seq![drained(s).1->payload] + drained_responses(next));
            }
        } else {
            later_drained(s, def);
        }
    } else if s.resp_num < def.response_data.len() {
        let (next, action) = requested(s, incoming[0]);
        let then = BidiView { resp_num: next.resp_num + 1, ..next };
        full_duplex_responses(then, def, incoming.skip(1));
        let rest = responses_to(then, incoming.skip(1));
        assert(sent =~= seq![action->payload] + rest);
        assert(s.requests.push(wrapped("BidiStreamRequest"@, incoming[0])) =~= seq![
            wrapped("BidiStreamRequest"@, incoming[0]),
        ]);
        assert forall|i: int| 0 <= i < sent.len() implies (#[trigger] sent[i]).data
            == def.response_data[s.resp_num + i] by {
            if i > 0 {
                assert(sent[i] == rest[i - 1]);
            }
        }
        assert forall|i: int|
            0 <= i < sent.len() && i < incoming.len() implies (#[trigger] sent[i]).request_info
            == Some(
            InfoView {
                request_headers: if s.resp_num + i == 0 {
                    s.request_headers
                } else {
                    Seq::empty()
                },
                timeout_ms: if s.resp_num + i == 0 {
                    s.timeout_ms
                } else {
                    None
                },
                requests: seq![wrapped("BidiStreamRequest"@, incoming[i])],
            },
        ) by {
            if i > 0 {
                assert(sent[i] == rest[i - 1]);
                assert(incoming.skip(1)[i - 1] == incoming[i]);
            }
        }
    }
}

} // verus!
