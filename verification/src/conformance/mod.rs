//! The conformance suite's service and the client that drives it: what each
//! call answers, sends and reports, decided on plain values.
//!
//! A message that the suite defines is held here as its fields; its encoding is
//! handed in as bytes where a rule needs it.

use crate::text::optional_text;
use vstd::prelude::*;

pub mod bidi;
pub mod client;
pub mod delimited;
pub mod drive;
pub mod server;
pub mod service;
pub mod stream;

verus! {

/// A header: its name and its values.
#[derive(Debug)]
pub struct Header {
    pub name: String,
    pub value: Vec<String>,
}

/// What a [`Header`] says.
pub ghost struct HeaderView {
    pub name: Seq<char>,
    pub value: Seq<Seq<char>>,
}

impl View for Header {
    type V = HeaderView;

    open spec fn view(&self) -> HeaderView {
        HeaderView { name: self.name@, value: crate::text::texts(self.value@) }
    }
}

/// What each of the headers says.
pub open spec fn header_views(headers: Seq<Header>) -> Seq<HeaderView> {
    headers.map_values(|h: Header| h@)
}

/// A message of any type: the URL of its type, and its encoding.
#[derive(Debug)]
pub struct Any {
    pub type_url: String,
    pub value: Vec<u8>,
}

/// What an [`Any`] says.
pub ghost struct AnyView {
    pub type_url: Seq<char>,
    pub value: Seq<u8>,
}

impl View for Any {
    type V = AnyView;

    open spec fn view(&self) -> AnyView {
        AnyView { type_url: self.type_url@, value: self.value@ }
    }
}

/// What each of the messages says.
pub open spec fn any_views(messages: Seq<Any>) -> Seq<AnyView> {
    messages.map_values(|a: Any| a@)
}

/// An error that a call is told to raise, or has ended with.
#[derive(Debug)]
pub struct Error {
    pub code: i32,
    pub message: Option<String>,
    pub details: Vec<Any>,
}

/// What an [`Error`] says.
pub ghost struct ErrorView {
    pub code: i32,
    pub message: Option<Seq<char>>,
    pub details: Seq<AnyView>,
}

impl View for Error {
    type V = ErrorView;

    open spec fn view(&self) -> ErrorView {
        ErrorView {
            code: self.code,
            message: optional_text(self.message),
            details: any_views(self.details@),
        }
    }
}

/// What the server has seen of a call: the request headers, the time that was
/// left, in milliseconds, and the request messages.
#[derive(Debug)]
pub struct RequestInfo {
    pub request_headers: Vec<Header>,
    pub timeout_ms: Option<i64>,
    pub requests: Vec<Any>,
}

/// What a [`RequestInfo`] says.
pub ghost struct InfoView {
    pub request_headers: Seq<HeaderView>,
    pub timeout_ms: Option<i64>,
    pub requests: Seq<AnyView>,
}

impl View for RequestInfo {
    type V = InfoView;

    open spec fn view(&self) -> InfoView {
        InfoView {
            request_headers: header_views(self.request_headers@),
            timeout_ms: self.timeout_ms,
            requests: any_views(self.requests@),
        }
    }
}

/// The payload of a response: its data, and what the server has seen.
#[derive(Debug)]
pub struct ConformancePayload {
    pub data: Vec<u8>,
    pub request_info: Option<RequestInfo>,
}

/// What a [`ConformancePayload`] says.
pub ghost struct PayloadView {
    pub data: Seq<u8>,
    pub request_info: Option<InfoView>,
}

/// What a [`RequestInfo`] that may be missing says.
pub open spec fn optional_info(info: Option<RequestInfo>) -> Option<InfoView> {
    match info {
        Some(info) => Some(info@),
        None => None,
    }
}

impl View for ConformancePayload {
    type V = PayloadView;

    open spec fn view(&self) -> PayloadView {
        PayloadView { data: self.data@, request_info: optional_info(self.request_info) }
    }
}

/// What each of the payloads says.
pub open spec fn payload_views(payloads: Seq<ConformancePayload>) -> Seq<PayloadView> {
    payloads.map_values(|p: ConformancePayload| p@)
}

/// Push onto a list of views.
pub(crate) proof fn push_views()
    ensures
        forall|s: Seq<Any>, a: Any| #[trigger] any_views(s.push(a)) == any_views(s).push(a@),
        forall|s: Seq<Header>, h: Header| #[trigger]
            header_views(s.push(h)) == header_views(s).push(h@),
        forall|s: Seq<ConformancePayload>, p: ConformancePayload| #[trigger]
            payload_views(s.push(p)) == payload_views(s).push(p@),
        any_views(Seq::empty()) == Seq::<AnyView>::empty(),
        header_views(Seq::empty()) == Seq::<HeaderView>::empty(),
        payload_views(Seq::empty()) == Seq::<PayloadView>::empty(),
{
    assert forall|s: Seq<Any>, a: Any| #[trigger] any_views(s.push(a)) == any_views(s).push(a@) by {
        assert(any_views(s.push(a)) =~= any_views(s).push(a@));
    }
    assert forall|s: Seq<Header>, h: Header| #[trigger]
        header_views(s.push(h)) == header_views(s).push(h@) by {
        assert(header_views(s.push(h)) =~= header_views(s).push(h@));
    }
    assert forall|s: Seq<ConformancePayload>, p: ConformancePayload| #[trigger]
        payload_views(s.push(p)) == payload_views(s).push(p@) by {
        assert(payload_views(s.push(p)) =~= payload_views(s).push(p@));
    }
    assert(any_views(Seq::empty()) =~= Seq::<AnyView>::empty());
    assert(header_views(Seq::empty()) =~= Seq::<HeaderView>::empty());
    assert(payload_views(Seq::empty()) =~= Seq::<PayloadView>::empty());
}

// ---------------------------------------------------------------------------
// Copies

/// A copy of a list of texts.
pub(crate) fn copy_texts(list: &Vec<String>) -> (r: Vec<String>)
    ensures
        crate::text::texts(r@) == crate::text::texts(list@),
{
    let mut out: Vec<String> = Vec::new();
    let mut i: usize = 0;
    while i < list.len()
        invariant
            i <= list@.len(),
            out@.len() == i,
            forall|j: int| 0 <= j < i ==> (#[trigger] out@[j])@ == list@[j]@,
        decreases list@.len() - i,
    {
        out.push(list[i].as_str().to_owned());
        i = i + 1;
    }
    assert(crate::text::texts(out@) =~= crate::text::texts(list@));
    out
}

/// A copy of some bytes.
pub(crate) fn copy_bytes(bytes: &Vec<u8>) -> (r: Vec<u8>)
    ensures
        r@ == bytes@,
{
    let mut out: Vec<u8> = Vec::new();
    out.extend_from_slice(bytes.as_slice());
    assert(out@ =~= bytes@);
    out
}

/// A copy of a list of headers.
pub(crate) fn copy_headers(list: &Vec<Header>) -> (r: Vec<Header>)
    ensures
        header_views(r@) == header_views(list@),
{
    let mut out: Vec<Header> = Vec::new();
    let mut i: usize = 0;
    while i < list.len()
        invariant
            i <= list@.len(),
            out@.len() == i,
            forall|j: int| 0 <= j < i ==> (#[trigger] out@[j])@ == list@[j]@,
        decreases list@.len() - i,
    {
        let copy = Header {
            name: list[i].name.as_str().to_owned(),
            value: copy_texts(&list[i].value),
        };
        out.push(copy);
        i = i + 1;
    }
    assert(header_views(out@) =~= header_views(list@));
    out
}

/// A copy of a list of messages.
pub(crate) fn copy_messages(list: &Vec<Any>) -> (r: Vec<Any>)
    ensures
        any_views(r@) == any_views(list@),
{
    let mut out: Vec<Any> = Vec::new();
    let mut i: usize = 0;
    while i < list.len()
        invariant
            i <= list@.len(),
            out@.len() == i,
            forall|j: int| 0 <= j < i ==> (#[trigger] out@[j])@ == list@[j]@,
        decreases list@.len() - i,
    {
        let copy = Any {
            type_url: list[i].type_url.as_str().to_owned(),
            value: copy_bytes(&list[i].value),
        };
        out.push(copy);
        i = i + 1;
    }
    assert(any_views(out@) =~= any_views(list@));
    out
}

/// A copy of what the server has seen.
pub(crate) fn copy_info(info: &RequestInfo) -> (r: RequestInfo)
    ensures
        r@ == info@,
{
    RequestInfo {
        request_headers: copy_headers(&info.request_headers),
        timeout_ms: info.timeout_ms,
        requests: copy_messages(&info.requests),
    }
}

} // verus!
