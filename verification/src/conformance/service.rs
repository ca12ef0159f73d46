//! The conformance service: every method echoes what the server has seen of the
//! call, and otherwise does what the request's response definition asks: set
//! headers and trailers, wait, send data, raise an error.

use super::{
    any_views, copy_messages, header_views, optional_info, push_views, Any, AnyView,
    ConformancePayload, Error, ErrorView, Header, HeaderView, InfoView, PayloadView, RequestInfo,
};
use crate::binary::{base64_encode_unpadded, base64_unpadded};
use crate::headers::{
    bytes_of, header_map, headers_append, headers_entries, headers_insert, inserted, values_of,
};
use crate::status::{code_of_number, plain_status, Code, Status, StatusView};
use crate::text::{from_utf8, lower, str_eq, texts, to_lower};
use crate::timeout::nanos_of;
use core::time::Duration;
use trillium_http::Headers;
use vstd::prelude::*;
use vstd::utf8::{decode_utf8, encode_utf8, valid_utf8};

verus! {

/// The conformance service.
pub struct ConformanceServiceImpl;

/// The type URL of the suite's message `short_name`.
pub open spec fn type_url(short_name: Seq<char>) -> Seq<char> {
    "type.googleapis.com/connectrpc.conformance.v1."@ + short_name
}

/// The message `short_name` with the given encoding, as a message of any type.
pub open spec fn wrapped(short_name: Seq<char>, encoded: Seq<u8>) -> AnyView {
    AnyView { type_url: type_url(short_name), value: encoded }
}

/// Wrap a message, given its encoding, with the URL of its type.
pub fn to_any(short_name: &str, encoded: Vec<u8>) -> (r: Any)
    ensures
        r@ == wrapped(short_name@, encoded@),
{
    Any {
        type_url: "type.googleapis.com/connectrpc.conformance.v1.".to_owned().concat(short_name),
        value: encoded,
    }
}

// ---------------------------------------------------------------------------
// Headers in and out

/// `m` with `values` behind those under `name`, one entry each.
pub open spec fn with_values(
    m: Map<Seq<char>, Seq<Seq<u8>>>,
    name: Seq<char>,
    values: Seq<Seq<char>>,
) -> Map<Seq<char>, Seq<Seq<u8>>>
    decreases values.len(),
{
    if values.len() == 0 {
        m
    } else {
        let before = with_values(m, name, values.drop_last());
        before.insert(lower(name), values_of(before, name).push(encode_utf8(values.last())))
    }
}

/// `m` with every value of `headers` added, in order.
pub open spec fn with_headers(
    m: Map<Seq<char>, Seq<Seq<u8>>>,
    headers: Seq<HeaderView>,
) -> Map<Seq<char>, Seq<Seq<u8>>>
    decreases headers.len(),
{
    if headers.len() == 0 {
        m
    } else {
        with_values(
            with_headers(m, headers.drop_last()),
            headers.last().name,
            headers.last().value,
        )
    }
}

/// Add every value of `headers` to `dest`, in order.
pub fn apply_headers(dest: &mut Headers, headers: &Vec<Header>)
    ensures
        header_map(*final(dest)) == with_headers(header_map(*old(dest)), header_views(headers@)),
{
    let ghost start = header_map(*dest);
    let ghost views = header_views(headers@);
    let mut i: usize = 0;
    while i < headers.len()
        invariant
            i <= headers@.len(),
            views == header_views(headers@),
            header_map(*dest) == with_headers(start, views.take(i as int)),
        decreases headers@.len() - i,
    {
        let h = &headers[i];
        let ghost base = header_map(*dest);
        let ghost values = texts(h.value@);
        let mut j: usize = 0;
        while j < h.value.len()
            invariant
                j <= h.value@.len(),
                values == texts(h.value@),
                header_map(*dest) == with_values(base, h.name@, values.take(j as int)),
            decreases h.value@.len() - j,
        {
            proof {
                assert(values.take(j + 1).drop_last() =~= values.take(j as int));
                assert(values.take(j + 1).last() == h.value@[j as int]@);
            }
            headers_append(dest, h.name.as_str(), h.value[j].as_str());
            j = j + 1;
        }
        proof {
            assert(values.take(j as int) =~= values);
            assert(views.take(i + 1).drop_last() =~= views.take(i as int));
            assert(views.take(i + 1).last() == h@);
        }
        i = i + 1;
    }
    assert(views.take(i as int) =~= views);
}

/// Those of the values that are text.
pub open spec fn text_values(values: Seq<Seq<u8>>) -> Seq<Seq<char>>
    decreases values.len(),
{
    if values.len() == 0 {
        Seq::empty()
    } else {
        let before = text_values(values.drop_last());
        if valid_utf8(values.last()) {
            before.push(decode_utf8(values.last()))
        } else {
            before
        }
    }
}

/// Whether a header of this name, in lower case, belongs to the protocol and not
/// to the application.
pub open spec fn transport_name(name: Seq<char>) -> bool {
    ||| name == "content-type"@
    ||| name == "grpc-encoding"@
    ||| name == "grpc-accept-encoding"@
    ||| name == "grpc-status"@
    ||| name == "grpc-message"@
    ||| name == "grpc-status-details-bin"@
    ||| name == "grpc-timeout"@
}

/// Whether the header under `name`, in lower case, is listed: it has a value that
/// is text and, where only the application's headers are asked for, it is one.
pub open spec fn is_listed(
    m: Map<Seq<char>, Seq<Seq<u8>>>,
    name: Seq<char>,
    application: bool,
) -> bool {
    &&& m.dom().contains(name)
    &&& text_values(m[name]).len() > 0
    &&& !(application && transport_name(name))
}

/// Whether `listed` lists the headers of `m`: each listed header once, with its
/// values that are text, in order.
pub open spec fn lists(
    m: Map<Seq<char>, Seq<Seq<u8>>>,
    application: bool,
    listed: Seq<HeaderView>,
) -> bool {
    &&& forall|i: int|
        0 <= i < listed.len() ==> is_listed(m, lower((#[trigger] listed[i]).name), application)
            && listed[i].value == text_values(m[lower(listed[i].name)])
    &&& forall|i: int, j: int|
        0 <= i < j < listed.len() ==> lower((#[trigger] listed[i]).name) != lower(
            (#[trigger] listed[j]).name,
        )
    &&& forall|name: Seq<char>|
        is_listed(m, name, application) ==> exists|i: int|
            0 <= i < listed.len() && lower((#[trigger] listed[i]).name) == name
}

/// Whether a header of this name, whatever its case, belongs to the protocol and
/// not to the application.
pub fn is_transport_header(name: &str) -> (r: bool)
    ensures
        r == transport_name(lower(name@)),
{
    let name = to_lower(name);
    let name = name.as_str();
    str_eq(name, "content-type") || str_eq(name, "grpc-encoding") || str_eq(
        name,
        "grpc-accept-encoding",
    ) || str_eq(name, "grpc-status") || str_eq(name, "grpc-message") || str_eq(
        name,
        "grpc-status-details-bin",
    ) || str_eq(name, "grpc-timeout")
}

/// Those of the values that are text.
fn values_as_text(values: &Vec<Vec<u8>>) -> (r: Vec<String>)
    ensures
        texts(r@) == text_values(bytes_of(values@)),
{
    let ghost all = bytes_of(values@);
    let mut out: Vec<String> = Vec::new();
    let mut i: usize = 0;
    assert(texts(out@) =~= Seq::empty());
    while i < values.len()
        invariant
            i <= values@.len(),
            all == bytes_of(values@),
            texts(out@) == text_values(all.take(i as int)),
        decreases values@.len() - i,
    {
        let ghost before = out@;
        proof {
            assert(all.take(i + 1).drop_last() =~= all.take(i as int));
            assert(all.take(i + 1).last() == values@[i as int]@);
        }
        match from_utf8(values[i].as_slice()) {
            Some(text) => {
                out.push(text);
                assert(texts(out@) =~= texts(before).push(text@));
            },
            None => {},
        }
        i = i + 1;
    }
    assert(all.take(i as int) =~= all);
    out
}

/// The headers with a value that is text; only the application's where asked.
pub(super) fn list_headers(headers: &Headers, application: bool) -> (r: Vec<Header>)
    ensures
        lists(header_map(*headers), application, header_views(r@)),
{
    let entries = headers_entries(headers);
    let ghost m = header_map(*headers);
    let mut out: Vec<Header> = Vec::new();
    let ghost mut places: Seq<int> = Seq::empty();
    let mut i: usize = 0;
    while i < entries.len()
        invariant
            i <= entries@.len(),
            m == header_map(*headers),
            forall|k: int|
                0 <= k < entries@.len() ==> m.dom().contains(lower(#[trigger] entries@[k].0@))
                    && m[lower(entries@[k].0@)] == bytes_of(entries@[k].1@),
            forall|k: int, l: int|
                0 <= k < l < entries@.len() ==> lower(#[trigger] entries@[k].0@) != lower(
                    #[trigger] entries@[l].0@,
                ),
            places.len() == out@.len(),
            forall|k: int| 0 <= k < places.len() ==> 0 <= #[trigger] places[k] < i,
            forall|k: int, l: int|
                0 <= k < l < places.len() ==> #[trigger] places[k] < #[trigger] places[l],
            forall|k: int|
                0 <= k < out@.len() ==> (#[trigger] out@[k]).name@ == entries@[places[k]].0@,
            forall|k: int|
                0 <= k < out@.len() ==> is_listed(
                    m,
                    lower((#[trigger] out@[k]).name@),
                    application,
                ) && texts(out@[k].value@) == text_values(m[lower(out@[k].name@)]),
            forall|k: int|
                0 <= k < i && is_listed(m, lower(#[trigger] entries@[k].0@), application)
                    ==> exists|l: int| 0 <= l < places.len() && #[trigger] places[l] == k,
        decreases entries@.len() - i,
    {
        let ghost before = places;
        let skip = application && is_transport_header(entries[i].0.as_str());
        let value = values_as_text(&entries[i].1);
        let ghost name = lower(entries@[i as int].0@);
        assert(texts(value@).len() == value@.len());
        if !skip && value.len() > 0 {
            out.push(Header { name: entries[i].0.as_str().to_owned(), value });
            proof {
                places = places.push(i as int);
                assert forall|k: int|
                    0 <= k < i + 1 && is_listed(m, lower(#[trigger] entries@[k].0@), application)
                    implies exists|l: int| 0 <= l < places.len() && #[trigger] places[l] == k by {
                    if k == i {
                        assert(places[before.len() as int] == k);
                    } else {
                        let l = choose|l: int| 0 <= l < before.len() && #[trigger] before[l] == k;
                        assert(places[l] == k);
                    }
                }
            }
        } else {
            assert(!is_listed(m, name, application));
        }
        i = i + 1;
    }
    proof {
        let listed = header_views(out@);
        assert forall|k: int| 0 <= k < listed.len() implies is_listed(
            m,
            lower((#[trigger] listed[k]).name),
            application,
        ) && listed[k].value == text_values(m[lower(listed[k].name)]) by {
            assert(listed[k] == out@[k]@);
        }
        assert forall|k: int, l: int| 0 <= k < l < listed.len() implies lower(
            (#[trigger] listed[k]).name,
        ) != lower((#[trigger] listed[l]).name) by {
            assert(listed[k].name == entries@[places[k]].0@);
            assert(listed[l].name == entries@[places[l]].0@);
        }
        assert forall|name: Seq<char>| is_listed(m, name, application) implies exists|k: int|
            0 <= k < listed.len() && lower((#[trigger] listed[k]).name) == name by {
            let e = choose|e: int| 0 <= e < entries@.len() && lower(#[trigger] entries@[e].0@) == name;
            let l = choose|l: int| 0 <= l < places.len() && #[trigger] places[l] == e;
            assert(out@[l].name@ == entries@[places[l]].0@);
            assert(lower(listed[l].name) == name);
        }
    }
    out
}

/// The request headers, as they are echoed.
pub fn echo_headers(headers: &Headers) -> (r: Vec<Header>)
    ensures
        lists(header_map(*headers), false, header_views(r@)),
{
    list_headers(headers, false)
}

// ---------------------------------------------------------------------------
// What the server has seen

/// The time that is left, in milliseconds: `remaining` is what is left until the
/// deadline, zero once it has passed, and `None` where there is no deadline.
pub open spec fn millis_left(remaining: Option<Duration>) -> Option<i64> {
    match remaining {
        Some(d) => Some((nanos_of(d) / 1_000_000) as i64),
        None => None,
    }
}

/// The time that is left, in milliseconds.
pub fn timeout_ms(remaining: Option<Duration>) -> (r: Option<i64>)
    ensures
        r == millis_left(remaining),
{
    match remaining {
        Some(d) => {
            let millis: u128 = d.as_nanos() / 1_000_000;
            Some(
                #[verifier::truncate]
                (millis as i64),
            )
        },
        None => None,
    }
}

/// What the server has seen of a call.
pub fn request_info(headers: Vec<Header>, timeout_ms: Option<i64>, requests: Vec<Any>) -> (r:
    RequestInfo)
    ensures
        r@ == (InfoView {
            request_headers: header_views(headers@),
            timeout_ms,
            requests: any_views(requests@),
        }),
{
    RequestInfo { request_headers: headers, timeout_ms, requests }
}

/// Whether `info` tells what the server has seen of a call with these headers,
/// this time left and these requests.
pub open spec fn tells(
    info: InfoView,
    received: Map<Seq<char>, Seq<Seq<u8>>>,
    remaining: Option<Duration>,
    requests: Seq<AnyView>,
) -> bool {
    &&& lists(received, false, info.request_headers)
    &&& info.timeout_ms == millis_left(remaining)
    &&& info.requests == requests
}

// ---------------------------------------------------------------------------
// Errors

/// A status with its details, whose encoding travels in the trailers.
#[derive(Debug)]
pub struct RpcStatus {
    pub code: i32,
    pub message: String,
    pub details: Vec<Any>,
}

/// What an [`RpcStatus`] says.
pub ghost struct RpcStatusView {
    pub code: i32,
    pub message: Seq<char>,
    pub details: Seq<AnyView>,
}

impl View for RpcStatus {
    type V = RpcStatusView;

    open spec fn view(&self) -> RpcStatusView {
        RpcStatusView {
            code: self.code,
            message: self.message@,
            details: any_views(self.details@),
        }
    }
}

/// The message of an error, empty where it has none.
pub open spec fn message_of(err: ErrorView) -> Seq<char> {
    match err.message {
        Some(message) => message,
        None => Seq::empty(),
    }
}

/// The status that an error stands for. Its code is read from the low eight bits;
/// a number that no code has is `Unknown`.
pub open spec fn error_status(err: ErrorView) -> StatusView {
    plain_status(code_of_number((err.code as u8) as nat), message_of(err))
}

/// The details that travel with an error, `info` behind its own.
pub open spec fn error_details(err: ErrorView, info: Option<AnyView>) -> RpcStatusView {
    RpcStatusView {
        code: err.code,
        message: message_of(err),
        details: match info {
            Some(any) => err.details.push(any),
            None => err.details,
        },
    }
}

/// What a message that may be missing says.
pub open spec fn optional_any(any: Option<Any>) -> Option<AnyView> {
    match any {
        Some(any) => Some(any@),
        None => None,
    }
}

/// The status that `err` stands for, and the status with details that goes into
/// the trailers; `info` is put behind the details of `err`.
pub fn status_from_error(err: &Error, info: Option<Any>) -> (r: (Status, RpcStatus))
    ensures
        r.0@ == error_status(err@),
        r.1@ == error_details(err@, optional_any(info)),
{
    let number: u8 = #[verifier::truncate]
    (err.code as u8);
    let code = match Code::from_u8(number) {
        Some(code) => {
            proof {
                crate::status::code_numbers(code, code_of_number(number as nat));
            }
            code
        },
        None => Code::Unknown,
    };
    let message = match &err.message {
        Some(message) => message.as_str().to_owned(),
        None => String::new(),
    };
    let mut details = copy_messages(&err.details);
    if let Some(any) = info {
        proof {
            push_views();
        }
        details.push(any);
    }
    let status = Status::new(code, message.as_str());
    assert(message@ =~= message_of(err@));
    (status, RpcStatus { code: err.code, message, details })
}

/// Put the encoding of a status with details into the trailers.
pub fn write_details(trailers: &mut Headers, encoded: &Vec<u8>)
    ensures
        header_map(*final(trailers)) == inserted(
            header_map(*old(trailers)),
            "grpc-status-details-bin"@,
            base64_unpadded(encoded@),
        ),
{
    let text = base64_encode_unpadded(encoded.as_slice());
    headers_insert(trailers, "grpc-status-details-bin", text.as_str());
}

// ---------------------------------------------------------------------------
// One response

/// The outcome that a single response is asked to have.
#[derive(Debug)]
pub enum Response {
    ResponseData(Vec<u8>),
    Error(Error),
}

/// What a call with a single response is asked to do.
#[derive(Debug)]
pub struct UnaryResponseDefinition {
    pub response_headers: Vec<Header>,
    pub response_trailers: Vec<Header>,
    pub response_delay_ms: u32,
    pub response: Option<Response>,
}

/// An error to raise, and what goes into its details: the encoding of the
/// `RequestInfo` is put there, where one is given, as
/// `ConformancePayload.RequestInfo`.
#[derive(Debug)]
pub struct Failure {
    pub error: Error,
    pub info: Option<RequestInfo>,
}

/// What a call with a single response does: wait, then answer.
#[derive(Debug)]
pub struct SingleReply {
    pub delay_ms: u32,
    pub outcome: Result<ConformancePayload, Failure>,
}

/// Whether the call waits and answers as `def` asks, with `info` for what the
/// server has seen.
pub open spec fn answers_single(
    reply: SingleReply,
    def: Option<UnaryResponseDefinition>,
    info: InfoView,
) -> bool {
    match def {
        None => {
            &&& reply.delay_ms == 0
            &&& reply.outcome matches Ok(p) && p@ == (PayloadView {
                data: Seq::empty(),
                request_info: Some(info),
            })
        },
        Some(def) => {
            &&& reply.delay_ms == def.response_delay_ms
            &&& match def.response {
                Some(Response::Error(err)) => reply.outcome matches Err(f) && f.error@ == err@
                    && optional_info(f.info) == Some(info),
                Some(Response::ResponseData(data)) => reply.outcome matches Ok(p) && p@ == (
                PayloadView { data: data@, request_info: Some(info) }),
                None => reply.outcome matches Ok(p) && p@ == (PayloadView {
                    data: Seq::empty(),
                    request_info: Some(info),
                }),
            }
        },
    }
}

/// The headers that a definition adds to the response.
pub open spec fn single_headers(def: Option<UnaryResponseDefinition>) -> Seq<HeaderView> {
    match def {
        Some(def) => header_views(def.response_headers@),
        None => Seq::empty(),
    }
}

/// The trailers that a definition adds to the response.
pub open spec fn single_trailers(def: Option<UnaryResponseDefinition>) -> Seq<HeaderView> {
    match def {
        Some(def) => header_views(def.response_trailers@),
        None => Seq::empty(),
    }
}

/// Answer a call with a single response: set headers and trailers, then wait and
/// echo what was seen, or raise the error.
pub fn respond_single(
    received: &Headers,
    remaining: Option<Duration>,
    def: Option<UnaryResponseDefinition>,
    requests: Vec<Any>,
    response_headers: &mut Headers,
    response_trailers: &mut Headers,
) -> (r: SingleReply)
    ensures
        exists|info: InfoView|
            tells(info, header_map(*received), remaining, any_views(requests@))
                && #[trigger] answers_single(r, def, info),
        header_map(*final(response_headers)) == with_headers(
            header_map(*old(response_headers)),
            single_headers(def),
        ),
        header_map(*final(response_trailers)) == with_headers(
            header_map(*old(response_trailers)),
            single_trailers(def),
        ),
{
    let info = request_info(echo_headers(received), timeout_ms(remaining), requests);
    let ghost seen = info@;
    assert(tells(seen, header_map(*received), remaining, any_views(requests@)));
    let ghost asked = def;
    let def = match def {
        None => {
            let reply = SingleReply {
                delay_ms: 0,
                outcome: Ok(ConformancePayload { data: Vec::new(), request_info: Some(info) }),
            };
            assert(reply.outcome->Ok_0@.data =~= Seq::empty());
            assert(answers_single(reply, asked, seen));
            return reply;
        },
        Some(def) => def,
    };
    apply_headers(response_headers, &def.response_headers);
    apply_headers(response_trailers, &def.response_trailers);
    let outcome = match def.response {
        Some(Response::Error(error)) => Err(Failure { error, info: Some(info) }),
        Some(Response::ResponseData(data)) => Ok(
            ConformancePayload { data, request_info: Some(info) },
        ),
        None => Ok(ConformancePayload { data: Vec::new(), request_info: Some(info) }),
    };
    let reply = SingleReply { delay_ms: def.response_delay_ms, outcome };
    proof {
        if def.response is None {
            assert(reply.outcome->Ok_0@.data =~= Seq::empty());
        }
        assert(answers_single(reply, asked, seen));
    }
    reply
}

impl ConformanceServiceImpl {
    /// `Unary`: `request` is the encoding of the request message, `def` what it
    /// asks for.
    pub fn unary(
        &self,
        received: &Headers,
        remaining: Option<Duration>,
        request: Vec<u8>,
        def: Option<UnaryResponseDefinition>,
        response_headers: &mut Headers,
        response_trailers: &mut Headers,
    ) -> (r: SingleReply)
        ensures
            exists|info: InfoView|
                tells(
                    info,
                    header_map(*received),
                    remaining,
                    seq![wrapped("UnaryRequest"@, request@)],
                ) && #[trigger] answers_single(r, def, info),
            header_map(*final(response_headers)) == with_headers(
                header_map(*old(response_headers)),
                single_headers(def),
            ),
            header_map(*final(response_trailers)) == with_headers(
                header_map(*old(response_trailers)),
                single_trailers(def),
            ),
    {
        let any = to_any("UnaryRequest", request);
        let requests = vec![any];
        assert(any_views(requests@) =~= seq![wrapped("UnaryRequest"@, request@)]);
        respond_single(received, remaining, def, requests, response_headers, response_trailers)
    }

    /// `IdempotentUnary`: `request` is the encoding of the request message, `def`
    /// what it asks for.
    pub fn idempotent_unary(
        &self,
        received: &Headers,
        remaining: Option<Duration>,
        request: Vec<u8>,
        def: Option<UnaryResponseDefinition>,
        response_headers: &mut Headers,
        response_trailers: &mut Headers,
    ) -> (r: SingleReply)
        ensures
            exists|info: InfoView|
                tells(
                    info,
                    header_map(*received),
                    remaining,
                    seq![wrapped("IdempotentUnaryRequest"@, request@)],
                ) && #[trigger] answers_single(r, def, info),
            header_map(*final(response_headers)) == with_headers(
                header_map(*old(response_headers)),
                single_headers(def),
            ),
            header_map(*final(response_trailers)) == with_headers(
                header_map(*old(response_trailers)),
                single_trailers(def),
            ),
    {
        let any = to_any("IdempotentUnaryRequest", request);
        let requests = vec![any];
        assert(any_views(requests@) =~= seq![wrapped("IdempotentUnaryRequest"@, request@)]);
        respond_single(received, remaining, def, requests, response_headers, response_trailers)
    }

    /// `Unimplemented`: always the error of that name.
    pub fn unimplemented(&self) -> (r: Status)
        ensures
            r@ == plain_status(
                Code::Unimplemented,
                "connectrpc.conformance.v1.ConformanceService.Unimplemented is not implemented"@,
            ),
    {
        Status::unimplemented(
            "connectrpc.conformance.v1.ConformanceService.Unimplemented is not implemented",
        )
    }
}

/// The requests of a `ClientStream` call as they come in: the first says what the
/// response is to be.
#[derive(Debug)]
pub struct ClientStreamRequests {
    def: Option<UnaryResponseDefinition>,
    requests: Vec<Any>,
    first: bool,
}

impl ClientStreamRequests {
    /// What the first request has asked for.
    pub closed spec fn definition(&self) -> Option<UnaryResponseDefinition> {
        self.def
    }

    /// The requests so far.
    pub closed spec fn seen(&self) -> Seq<AnyView> {
        any_views(self.requests@)
    }

    /// Nothing is asked for before the first request.
    pub closed spec fn wf(&self) -> bool {
        self.first == (self.requests@.len() == 0)
    }

    /// No request yet.
    pub fn new() -> (r: Self)
        ensures
            r.wf(),
            r.definition() is None,
            r.seen() == Seq::<AnyView>::empty(),
    {
        proof {
            push_views();
        }
        ClientStreamRequests { def: None, requests: Vec::new(), first: true }
    }

    /// One more request: its encoding, and the response definition in it.
    pub fn push(&mut self, request: Vec<u8>, def: Option<UnaryResponseDefinition>)
        requires
            old(self).wf(),
        ensures
            final(self).wf(),
            final(self).definition() == (if old(self).seen().len() == 0 {
                def
            } else {
                old(self).definition()
            }),
            final(self).seen() == old(self).seen().push(
                wrapped("ClientStreamRequest"@, request@),
            ),
    {
        if self.first {
            self.def = def;
            self.first = false;
        }
        proof {
            push_views();
        }
        self.requests.push(to_any("ClientStreamRequest", request));
    }

    /// Answer once every request has come in.
    pub fn client_stream(
        self,
        received: &Headers,
        remaining: Option<Duration>,
        response_headers: &mut Headers,
        response_trailers: &mut Headers,
    ) -> (r: SingleReply)
        ensures
            exists|info: InfoView|
                tells(info, header_map(*received), remaining, self.seen())
                    && #[trigger] answers_single(r, self.definition(), info),
            header_map(*final(response_headers)) == with_headers(
                header_map(*old(response_headers)),
                single_headers(self.definition()),
            ),
            header_map(*final(response_trailers)) == with_headers(
                header_map(*old(response_trailers)),
                single_trailers(self.definition()),
            ),
    {
        respond_single(
            received,
            remaining,
            self.def,
            self.requests,
            response_headers,
            response_trailers,
        )
    }
}

} // verus!
