//! The client side of the conformance suite: which call a test case asks for, the
//! steps of the call, and the result that is reported.

use super::{any_views, header_views, Any, AnyView, ConformancePayload, Header, HeaderView};
use crate::binary::{base64_decode_unpadded, base64_unpadded_decoded};
use crate::headers::bytes_of;
use crate::metadata::{
    ascii_refusal, binary_key, binary_refusal, valid_entries, Metadata, ValueView,
};
use crate::text::{
    chars_of, decimal, decimal_string, ends_with, lower, optional_text, str_eq, string_from, texts, to_lower,
};
use vstd::prelude::*;
use vstd::utf8::encode_utf8;

verus! {

/// The shape of the stream that a test case asks for.
#[derive(Debug, Clone, Copy, PartialEq, Eq, Structural)]
pub enum StreamType {
    Unspecified,
    Unary,
    ClientStream,
    ServerStream,
    HalfDuplexBidiStream,
    FullDuplexBidiStream,
}

/// When a test case has its call cancelled.
#[derive(Debug, Clone, Copy, PartialEq, Eq, Structural)]
pub enum CancelTiming {
    BeforeCloseSend,
    AfterCloseSendMs(u32),
    AfterNumResponses(u32),
}

/// Where and how a test case wants its call made.
#[derive(Debug)]
pub struct ClientCompatRequest {
    pub service: Option<String>,
    pub method: Option<String>,
    pub stream_type: StreamType,
    pub host: String,
    pub port: u32,
    pub server_tls_cert: Vec<u8>,
    pub gzip: bool,
}

// ---------------------------------------------------------------------------
// Which call

/// The suite's service.
pub open spec fn service_name() -> Seq<char> {
    "connectrpc.conformance.v1.ConformanceService"@
}

/// The method that a stream type stands for.
pub open spec fn method_for(stream_type: StreamType) -> Seq<char> {
    match stream_type {
        StreamType::ClientStream => "ClientStream"@,
        StreamType::ServerStream => "ServerStream"@,
        StreamType::HalfDuplexBidiStream => "BidiStream"@,
        StreamType::FullDuplexBidiStream => "BidiStream"@,
        _ => "Unary"@,
    }
}

/// The method that a stream type stands for.
pub fn default_method(stream_type: StreamType) -> (r: &'static str)
    ensures
        r@ == method_for(stream_type),
{
    match stream_type {
        StreamType::ClientStream => "ClientStream",
        StreamType::ServerStream => "ServerStream",
        StreamType::HalfDuplexBidiStream => "BidiStream",
        StreamType::FullDuplexBidiStream => "BidiStream",
        _ => "Unary",
    }
}

/// How a method of the service is called: the name of its request message, whether
/// it takes a single request and gives a single response, and whether its
/// responses have a payload.
#[derive(Debug)]
pub struct MethodShape {
    pub request_type: &'static str,
    pub single_request: bool,
    pub single_response: bool,
    pub has_payload: bool,
}

/// What a [`MethodShape`] says.
pub ghost struct ShapeView {
    pub request_type: Seq<char>,
    pub single_request: bool,
    pub single_response: bool,
    pub has_payload: bool,
}

impl View for MethodShape {
    type V = ShapeView;

    open spec fn view(&self) -> ShapeView {
        ShapeView {
            request_type: self.request_type@,
            single_request: self.single_request,
            single_response: self.single_response,
            has_payload: self.has_payload,
        }
    }
}

impl MethodShape {
    /// The payload that a response stands for: the one it was read with, where the
    /// method's responses have any.
    pub fn payload(&self, read: Option<ConformancePayload>) -> (r: Option<ConformancePayload>)
        ensures
            r == (if self.has_payload {
                read
            } else {
                None
            }),
    {
        if self.has_payload {
            read
        } else {
            None
        }
    }
}

/// The shape of the service's methods.
pub open spec fn shape_of_method(method: Seq<char>) -> Option<ShapeView> {
    if method == "Unary"@ {
        Some(
            ShapeView {
                request_type: "UnaryRequest"@,
                single_request: true,
                single_response: true,
                has_payload: true,
            },
        )
    } else if method == "IdempotentUnary"@ {
        Some(
            ShapeView {
                request_type: "IdempotentUnaryRequest"@,
                single_request: true,
                single_response: true,
                has_payload: true,
            },
        )
    } else if method == "Unimplemented"@ {
        Some(
            ShapeView {
                request_type: "UnimplementedRequest"@,
                single_request: true,
                single_response: true,
                has_payload: false,
            },
        )
    } else if method == "ClientStream"@ {
        Some(
            ShapeView {
                request_type: "ClientStreamRequest"@,
                single_request: false,
                single_response: true,
                has_payload: true,
            },
        )
    } else if method == "ServerStream"@ {
        Some(
            ShapeView {
                request_type: "ServerStreamRequest"@,
                single_request: true,
                single_response: false,
                has_payload: true,
            },
        )
    } else if method == "BidiStream"@ {
        Some(
            ShapeView {
                request_type: "BidiStreamRequest"@,
                single_request: false,
                single_response: false,
                has_payload: true,
            },
        )
    } else {
        None
    }
}

fn method_shape(method: &str) -> (r: Option<MethodShape>)
    ensures
        match shape_of_method(method@) {
            Some(shape) => r matches Some(s) && s@ == shape,
            None => r is None,
        },
{
    let (request_type, single_request, single_response, has_payload) = if str_eq(
        method,
        "Unary",
    ) {
        ("UnaryRequest", true, true, true)
    } else if str_eq(method, "IdempotentUnary") {
        ("IdempotentUnaryRequest", true, true, true)
    } else if str_eq(method, "Unimplemented") {
        ("UnimplementedRequest", true, true, false)
    } else if str_eq(method, "ClientStream") {
        ("ClientStreamRequest", false, true, true)
    } else if str_eq(method, "ServerStream") {
        ("ServerStreamRequest", true, false, true)
    } else if str_eq(method, "BidiStream") {
        ("BidiStreamRequest", false, false, true)
    } else {
        return None;
    };
    Some(MethodShape { request_type, single_request, single_response, has_payload })
}

/// The call that a test case asks for: the server's address, whether it is reached
/// over TLS, whether the requests are compressed, the path, and the shape.
#[derive(Debug)]
pub struct CallPlan {
    pub base: String,
    pub tls: bool,
    pub gzip: bool,
    pub path: String,
    pub shape: MethodShape,
    pub full_duplex: bool,
}

/// The service that a test case names, the suite's own where it names none.
pub open spec fn named_service(req: ClientCompatRequest) -> Seq<char> {
    match req.service {
        Some(service) => service@,
        None => service_name(),
    }
}

/// The method that a test case names, that of its stream type where it names none.
pub open spec fn named_method(req: ClientCompatRequest) -> Seq<char> {
    match req.method {
        Some(method) => method@,
        None => method_for(req.stream_type),
    }
}

/// The address of the server.
pub open spec fn base_url(req: ClientCompatRequest) -> Seq<char> {
    (if req.server_tls_cert@.len() == 0 {
        "http://"@
    } else {
        "https://"@
    }) + req.host@ + ":"@ + decimal(req.port as nat)
}

/// The call that a test case asks for, or why there is none: the service or the
/// method is unknown.
pub fn handle(req: &ClientCompatRequest) -> (r: Result<CallPlan, String>)
    ensures
        match r {
            Ok(plan) => {
                &&& named_service(*req) == service_name()
                &&& shape_of_method(named_method(*req)) == Some(plan.shape@)
                &&& plan.base@ == base_url(*req)
                &&& plan.tls == (req.server_tls_cert@.len() > 0)
                &&& plan.gzip == req.gzip
                &&& plan.path@ == "/"@ + service_name() + "/"@ + named_method(*req)
                &&& plan.full_duplex == (req.stream_type == StreamType::FullDuplexBidiStream)
            },
            Err(message) => if named_service(*req) != service_name() {
                message@ == "unknown service "@ + named_service(*req)
            } else {
                &&& shape_of_method(named_method(*req)) is None
                &&& message@ == "unknown method "@ + named_method(*req)
            },
        },
{
    let service = match &req.service {
        Some(service) => service.as_str(),
        None => "connectrpc.conformance.v1.ConformanceService",
    };
    if !str_eq(service, "connectrpc.conformance.v1.ConformanceService") {
        return Err("unknown service ".to_owned().concat(service));
    }
    let method = match &req.method {
        Some(method) => method.as_str(),
        None => default_method(req.stream_type),
    };
    let tls = req.server_tls_cert.len() > 0;
    let scheme = if tls {
        "https://"
    } else {
        "http://"
    };
    let base = scheme.to_owned().concat(req.host.as_str()).concat(":").concat(
        decimal_string(req.port as u128).as_str(),
    );
    let path = "/".to_owned().concat("connectrpc.conformance.v1.ConformanceService").concat(
        "/",
    ).concat(method);
    let full_duplex = match req.stream_type {
        StreamType::FullDuplexBidiStream => true,
        _ => false,
    };
    match method_shape(method) {
        Some(shape) => Ok(CallPlan { base, tls, gzip: req.gzip, path, shape, full_duplex }),
        None => Err("unknown method ".to_owned().concat(method)),
    }
}

// ---------------------------------------------------------------------------
// The server's certificates

/// The certificates in a PEM file, in order, as `rustls_pemfile` reads them; `None`
/// where it reports an error.
pub uninterp spec fn pem_certificates(pem: Seq<u8>) -> Option<Seq<Seq<u8>>>;

/// What a list of byte strings holds, if there is one.
pub open spec fn optional_strings(list: Option<Vec<Vec<u8>>>) -> Option<Seq<Seq<u8>>> {
    match list {
        Some(list) => Some(bytes_of(list@)),
        None => None,
    }
}

/// Wraps `rustls_pemfile::certs`, collected: the result is a function of the bytes
/// alone, and is named [`pem_certificates`].
#[verifier::external_body]
fn pem_certs(pem: &[u8]) -> (r: Option<Vec<Vec<u8>>>)
    ensures
        optional_strings(r) == pem_certificates(pem@),
{
    rustls_pemfile::certs(&mut std::io::Cursor::new(pem))
        .map(|cert| cert.map(|cert| cert.to_vec()))
        .collect::<Result<Vec<Vec<u8>>, std::io::Error>>()
        .ok()
}

/// The certificates by which the server of a test case is to be trusted; nothing where
/// `pem` is not valid PEM.
pub fn server_certs(pem: &[u8]) -> (r: Option<Vec<Vec<u8>>>)
    ensures
        optional_strings(r) == pem_certificates(pem@),
{
    pem_certs(pem)
}

// ---------------------------------------------------------------------------
// The request messages

/// What stands behind the last slash of a type URL.
pub open spec fn message_name(url: Seq<char>) -> Seq<char>
    decreases url.len(),
{
    if url.len() == 0 || url.last() == '/' {
        Seq::empty()
    } else {
        message_name(url.drop_last()).push(url.last())
    }
}

/// The full name of the message `short`.
pub open spec fn expected_type(short: Seq<char>) -> Seq<char> {
    "connectrpc.conformance.v1."@ + short
}

/// Why the request messages cannot be sent, if they cannot: the first that has
/// another type, or whose encoding is broken; else a number other than one, where
/// one is asked for. `broken` gives for each message the error with which its
/// encoding could not be read.
pub open spec fn messages_refusal(
    messages: Seq<AnyView>,
    broken: Seq<Option<Seq<char>>>,
    short: Seq<char>,
    single: bool,
) -> Option<Seq<char>> {
    match first_refusal(messages, broken, short) {
        Some(e) => Some(e),
        None => if single && messages.len() != 1 {
            Some("expected exactly one request message, got "@ + decimal(messages.len()))
        } else {
            None
        },
    }
}

/// Why the first message that cannot be sent cannot.
pub open spec fn first_refusal(
    messages: Seq<AnyView>,
    broken: Seq<Option<Seq<char>>>,
    short: Seq<char>,
) -> Option<Seq<char>>
    decreases messages.len(),
{
    if messages.len() == 0 {
        None
    } else {
        match first_refusal(messages.drop_last(), broken.drop_last(), short) {
            Some(e) => Some(e),
            None => if message_name(messages.last().type_url) != expected_type(short) {
                Some(
                    "expected request type "@ + expected_type(short) + ", got "@ + message_name(
                        messages.last().type_url,
                    ),
                )
            } else {
                match broken.last() {
                    Some(e) => Some("failed to decode request: "@ + e),
                    None => None,
                }
            },
        }
    }
}

/// A refusal stays as more messages follow.
proof fn first_refusal_stays(
    messages: Seq<AnyView>,
    broken: Seq<Option<Seq<char>>>,
    short: Seq<char>,
    i: int,
)
    requires
        0 <= i <= messages.len(),
        messages.len() == broken.len(),
        first_refusal(messages.take(i), broken.take(i), short) is Some,
    ensures
        first_refusal(messages, broken, short) == first_refusal(
            messages.take(i),
            broken.take(i),
            short,
        ),
    decreases messages.len() - i,
{
    if i == messages.len() {
        assert(messages.take(i) =~= messages);
        assert(broken.take(i) =~= broken);
    } else {
        assert(messages.take(i + 1).drop_last() =~= messages.take(i));
        assert(broken.take(i + 1).drop_last() =~= broken.take(i));
        first_refusal_stays(messages, broken, short, i + 1);
    }
}

fn is_slash(c: char) -> (r: bool)
    ensures
        r == (c == '/'),
{
    c == '/'
}

proof fn message_name_at(url: Seq<char>, i: int)
    requires
        0 <= i <= url.len(),
        forall|j: int| i <= j < url.len() ==> url[j] != '/',
        i > 0 ==> url[i - 1] == '/',
    ensures
        message_name(url) == url.skip(i),
    decreases url.len(),
{
    if i == url.len() {
        assert(url.skip(i) =~= Seq::empty());
    } else {
        message_name_at(url.drop_last(), i);
        assert(url.skip(i) =~= url.drop_last().skip(i).push(url.last()));
    }
}

/// What stands behind the last slash of a type URL.
fn last_segment(url: &str) -> (r: String)
    ensures
        r@ == message_name(url@),
{
    let chars = chars_of(url);
    let mut i: usize = chars.len();
    while i > 0 && !is_slash(chars[i - 1])
        invariant
            chars@ == url@,
            i <= chars@.len(),
            forall|j: int| i <= j < chars@.len() ==> chars@[j] != '/',
        decreases i,
    {
        i = i - 1;
    }
    proof {
        message_name_at(url@, i as int);
    }
    let name = string_from(&chars, i, chars.len());
    assert(name@ =~= url@.skip(i as int));
    name
}

/// The texts that may be missing.
pub open spec fn optional_texts(list: Seq<Option<String>>) -> Seq<Option<Seq<char>>> {
    list.map_values(|s: Option<String>| optional_text(s))
}

/// Check the request messages. `broken` gives for each message the error with
/// which its encoding could not be read.
pub fn check_messages(
    messages: &Vec<Any>,
    broken: &Vec<Option<String>>,
    short: &str,
    single: bool,
) -> (r: Result<(), String>)
    requires
        messages@.len() == broken@.len(),
    ensures
        match messages_refusal(any_views(messages@), optional_texts(broken@), short@, single) {
            Some(e) => r matches Err(m) && m@ == e,
            None => r is Ok,
        },
{
    let expected = "connectrpc.conformance.v1.".to_owned().concat(short);
    let ghost all = any_views(messages@);
    let ghost errors = optional_texts(broken@);
    let mut i: usize = 0;
    while i < messages.len()
        invariant
            i <= messages@.len(),
            messages@.len() == broken@.len(),
            all == any_views(messages@),
            errors == optional_texts(broken@),
            expected@ == expected_type(short@),
            first_refusal(all.take(i as int), errors.take(i as int), short@) is None,
        decreases messages@.len() - i,
    {
        proof {
            assert(all.take(i + 1).drop_last() =~= all.take(i as int));
            assert(all.take(i + 1).last() == messages@[i as int]@);
            assert(errors.take(i + 1).drop_last() =~= errors.take(i as int));
            assert(errors.take(i + 1).last() == optional_text(broken@[i as int]));
        }
        let name = last_segment(messages[i].type_url.as_str());
        if !str_eq(name.as_str(), expected.as_str()) {
            proof {
                first_refusal_stays(all, errors, short@, i + 1);
            }
            return Err(
                "expected request type ".to_owned().concat(expected.as_str()).concat(
                    ", got ",
                ).concat(name.as_str()),
            );
        }
        if let Some(e) = &broken[i] {
            proof {
                first_refusal_stays(all, errors, short@, i + 1);
            }
            return Err("failed to decode request: ".to_owned().concat(e.as_str()));
        }
        i = i + 1;
    }
    assert(all.take(i as int) =~= all);
    assert(errors.take(i as int) =~= errors);
    if single && messages.len() != 1 {
        return Err(
            "expected exactly one request message, got ".to_owned().concat(
                decimal_string(messages.len() as u128).as_str(),
            ),
        );
    }
    Ok(())
}

/// `entries` with one more header value. A value under a `-bin` name is the
/// unpadded base64 of its bytes; one that is not, or that metadata may not hold, is
/// left out.
pub open spec fn with_header_value(
    entries: Seq<(Seq<char>, ValueView)>,
    name: Seq<char>,
    value: Seq<char>,
) -> Seq<(Seq<char>, ValueView)> {
    if binary_key(name) {
        match base64_unpadded_decoded(encode_utf8(value)) {
            Some(bytes) => if binary_refusal(name) is None {
                entries.push((name, ValueView::Binary(bytes)))
            } else {
                entries
            },
            None => entries,
        }
    } else if ascii_refusal(name, value) is None {
        entries.push((name, ValueView::Ascii(value)))
    } else {
        entries
    }
}

/// `entries` with the values of one header.
pub open spec fn with_header_values(
    entries: Seq<(Seq<char>, ValueView)>,
    name: Seq<char>,
    values: Seq<Seq<char>>,
) -> Seq<(Seq<char>, ValueView)>
    decreases values.len(),
{
    if values.len() == 0 {
        entries
    } else {
        with_header_value(
            with_header_values(entries, name, values.drop_last()),
            name,
            values.last(),
        )
    }
}

/// The metadata that request headers make, their names in lower case.
pub open spec fn headers_metadata(headers: Seq<HeaderView>) -> Seq<(Seq<char>, ValueView)>
    decreases headers.len(),
{
    if headers.len() == 0 {
        Seq::empty()
    } else {
        with_header_values(
            headers_metadata(headers.drop_last()),
            lower(headers.last().name),
            headers.last().value,
        )
    }
}

/// The metadata that request headers make.
pub fn metadata_from_headers(headers: &Vec<Header>) -> (r: Metadata)
    ensures
        r@ == headers_metadata(header_views(headers@)),
        valid_entries(r@),
{
    let ghost views = header_views(headers@);
    let mut metadata = Metadata::new();
    let mut i: usize = 0;
    assert(views.take(0) =~= Seq::empty());
    while i < headers.len()
        invariant
            i <= headers@.len(),
            views == header_views(headers@),
            metadata@ == headers_metadata(views.take(i as int)),
            valid_entries(metadata@),
        decreases headers@.len() - i,
    {
        let name = to_lower(headers[i].name.as_str());
        let ghost start = metadata@;
        let ghost values = texts(headers@[i as int].value@);
        let mut j: usize = 0;
        while j < headers[i as usize].value.len()
            invariant
                i < headers@.len(),
                j <= headers@[i as int].value@.len(),
                values == texts(headers@[i as int].value@),
                metadata@ == with_header_values(start, name@, values.take(j as int)),
                valid_entries(metadata@),
            decreases headers@[i as int].value@.len() - j,
        {
            proof {
                assert(values.take(j + 1).drop_last() =~= values.take(j as int));
                assert(values.take(j + 1).last() == headers@[i as int].value@[j as int]@);
            }
            let value = headers[i].value[j].as_str();
            if ends_with(name.as_str(), "-bin") {
                if let Some(bytes) = base64_decode_unpadded(value.as_bytes()) {
                    let _ = metadata.insert_binary(name.as_str(), bytes);
                }
            } else {
                let _ = metadata.insert_ascii(name.as_str(), value);
            }
            j = j + 1;
        }
        proof {
            assert(values.take(j as int) =~= values);
            assert(views.take(i + 1).drop_last() =~= views.take(i as int));
            assert(views.take(i + 1).last() == headers@[i as int]@);
        }
        i = i + 1;
    }
    assert(views.take(i as int) =~= views);
    metadata
}

} // verus!
