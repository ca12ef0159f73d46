//! The conformance suite: messages on the wire, where calls go, and what is checked
//! before they are made.

use super::metadata::{for_bytes, free, key_rules, plain_text};
use super::text::free_of;
use crate::binary::base64_unpadded;
use crate::conformance::client::{
    check_messages, default_method, handle, metadata_from_headers, pem_certificates, server_certs,
    CallPlan, ClientCompatRequest, MethodShape, StreamType,
};
use crate::conformance::delimited::{message_len, read_delimited, write_delimited};
use crate::conformance::server::{
    listener, route, server_response, Listener, ServerCompatResponse, ServiceMethod, TlsCreds,
};
use crate::conformance::{any_views, header_views, Any, ConformancePayload, Header};
use crate::metadata::{Metadata, ValueView};
use crate::text::{decimal_string, lower, optional_text, texts};
use vstd::prelude::*;
use vstd::utf8::encode_utf8;

verus! {

// ---------------------------------------------------------------------------
// Messages behind their length

/// Whether a message stands behind its length: four bytes, the most significant first.
pub open spec fn prefixed(bytes: Seq<u8>, message: Seq<u8>) -> bool {
    &&& bytes.len() == 4 + message.len()
    &&& bytes.skip(4) == message
    &&& bytes[0] * 256 * 256 * 256 + bytes[1] * 256 * 256 + bytes[2] * 256 + bytes[3]
        == message.len()
}

/// The four bytes in front of a message say how long it is.
pub proof fn lengths_are_read(prefix: [u8; 4], r: u32)
    requires
        call_ensures(message_len, (prefix,), r),
    ensures
        r == prefix@[0] * 256 * 256 * 256 + prefix@[1] * 256 * 256 + prefix@[2] * 256 + prefix@[3],
{
}

/// A message is written behind its length.
pub proof fn messages_are_written(message: &Vec<u8>, r: Vec<u8>)
    requires
        call_ensures(write_delimited, (message,), r),
        message@.len() < 0x1_0000_0000,
    ensures
        prefixed(r@, message@),
{
    crate::frame::be32_round_trip(message@.len());
    assert(r@.skip(4) =~= message@);
    let front = crate::frame::be32(message@.len());
    assert(r@[0] == front[0] && r@[1] == front[1] && r@[2] == front[2] && r@[3] == front[3]);
    assert(crate::frame::be32_value(front) == message@.len());
}

/// A message that is there in full is read, whatever stands behind it.
pub proof fn whole_messages_are_read(
    input: &Vec<u8>,
    bytes: Seq<u8>,
    message: Seq<u8>,
    rest: Seq<u8>,
    r: Option<(Vec<u8>, usize)>,
)
    requires
        call_ensures(read_delimited, (input,), r),
        prefixed(bytes, message),
        input@ == bytes + rest,
    ensures
        r matches Some((m, n)) && m@ == message && n == bytes.len(),
{
    assert(input@.take(4) =~= bytes.take(4));
    assert(crate::frame::be32_value(input@.take(4)) == message.len());
    assert(input@.subrange(4, 4 + message.len() as int) =~= message);
    assert(input@.skip(4 + message.len() as int) =~= rest);
    if let Some((m, n)) = r {
        assert(input@.skip(n as int).len() == input@.len() - n);
    }
}

/// A message that is not there in full is not read.
pub proof fn cut_messages_are_not_read(
    input: &Vec<u8>,
    bytes: Seq<u8>,
    message: Seq<u8>,
    n: int,
    r: Option<(Vec<u8>, usize)>,
)
    requires
        call_ensures(read_delimited, (input,), r),
        prefixed(bytes, message),
        0 <= n < bytes.len(),
        input@ == bytes.take(n),
    ensures
        r is None,
{
    if n >= 4 {
        assert(input@.take(4) =~= bytes.take(4));
        assert(crate::frame::be32_value(input@.take(4)) == message.len());
    }
}

// ---------------------------------------------------------------------------
// The server

/// The name of a method of the service.
pub open spec fn method_name(method: ServiceMethod) -> Seq<char> {
    match method {
        ServiceMethod::Unary => "Unary"@,
        ServiceMethod::IdempotentUnary => "IdempotentUnary"@,
        ServiceMethod::Unimplemented => "Unimplemented"@,
        ServiceMethod::ClientStream => "ClientStream"@,
        ServiceMethod::ServerStream => "ServerStream"@,
        ServiceMethod::BidiStream => "BidiStream"@,
    }
}

/// The paths of the methods are their names behind that of the service.
proof fn paths_are_names(method: ServiceMethod)
    ensures
        crate::conformance::server::path_of(method)
            == "/connectrpc.conformance.v1.ConformanceService/"@ + method_name(method),
{
    reveal_strlit("/connectrpc.conformance.v1.ConformanceService/");
    match method {
        ServiceMethod::Unary => {
            reveal_strlit("/connectrpc.conformance.v1.ConformanceService/Unary");
            reveal_strlit("Unary");
        },
        ServiceMethod::IdempotentUnary => {
            reveal_strlit("/connectrpc.conformance.v1.ConformanceService/IdempotentUnary");
            reveal_strlit("IdempotentUnary");
        },
        ServiceMethod::Unimplemented => {
            reveal_strlit("/connectrpc.conformance.v1.ConformanceService/Unimplemented");
            reveal_strlit("Unimplemented");
        },
        ServiceMethod::ClientStream => {
            reveal_strlit("/connectrpc.conformance.v1.ConformanceService/ClientStream");
            reveal_strlit("ClientStream");
        },
        ServiceMethod::ServerStream => {
            reveal_strlit("/connectrpc.conformance.v1.ConformanceService/ServerStream");
            reveal_strlit("ServerStream");
        },
        ServiceMethod::BidiStream => {
            reveal_strlit("/connectrpc.conformance.v1.ConformanceService/BidiStream");
            reveal_strlit("BidiStream");
        },
    }
    assert(crate::conformance::server::path_of(method)
        =~= "/connectrpc.conformance.v1.ConformanceService/"@ + method_name(method));
}

/// No two methods have the same name.
proof fn names_tell_methods_apart(a: ServiceMethod, b: ServiceMethod)
    requires
        method_name(a) == method_name(b),
    ensures
        a == b,
{
    reveal_strlit("Unary");
    reveal_strlit("IdempotentUnary");
    reveal_strlit("Unimplemented");
    reveal_strlit("ClientStream");
    reveal_strlit("ServerStream");
    reveal_strlit("BidiStream");
    assert("Unary"@.len() == 5 && "IdempotentUnary"@.len() == 15);
    assert("Unimplemented"@.len() == 13 && "BidiStream"@.len() == 10);
    assert("ClientStream"@.len() == 12 && "ServerStream"@.len() == 12);
    assert("ClientStream"@[0] == 'C' && "ServerStream"@[0] == 'S');
    assert("ClientStream"@ != "ServerStream"@);
}

/// A request goes to a method exactly where it is posted to the method's name behind
/// that of the service.
pub proof fn requests_are_routed(
    post: bool,
    path: &str,
    method: ServiceMethod,
    r: Option<ServiceMethod>,
)
    requires
        call_ensures(route, (post, path), r),
    ensures
        r == Some(method) <==> post && path@
            == "/connectrpc.conformance.v1.ConformanceService/"@ + method_name(method),
{
    paths_are_names(method);
    if let Some(other) = r {
        paths_are_names(other);
        let service = "/connectrpc.conformance.v1.ConformanceService/"@;
        if path@ == service + method_name(method) {
            assert(method_name(method) =~= (service + method_name(method)).skip(
                service.len() as int,
            ));
            assert(method_name(other) =~= (service + method_name(other)).skip(
                service.len() as int,
            ));
            names_tell_methods_apart(method, other);
        }
    } else if post {
        assert(path@ != crate::conformance::server::path_of(method));
    }
}

/// The service is served in the clear unless TLS is asked for, and then only with the
/// credentials for it.
pub proof fn tls_needs_credentials(
    use_tls: bool,
    creds: Option<TlsCreds>,
    r: Result<Listener, String>,
)
    requires
        call_ensures(listener, (use_tls, creds), r),
    ensures
        !use_tls ==> r == Ok::<Listener, String>(Listener::Plain),
        use_tls && creds is Some ==> r == Ok::<Listener, String>(Listener::Tls(creds->0)),
        use_tls && creds is None ==> (r matches Err(e) && e@
            == "use_tls set but no server_creds provided"@),
{
}

/// The runner is told the port that was bound and the certificate, or that none was.
pub proof fn servers_are_announced(
    port: Option<u16>,
    cert: Vec<u8>,
    r: Result<ServerCompatResponse, String>,
)
    requires
        call_ensures(server_response, (port, cert), r),
    ensures
        port matches Some(p) ==> (r matches Ok(response) && response.host@ == "127.0.0.1"@
            && response.port == p && response.pem_cert == cert),
        port is None ==> (r matches Err(e) && e@ == "server did not bind a TCP socket"@),
{
}

// ---------------------------------------------------------------------------
// The client

/// A stream type stands for the method of its shape; both kinds of two-way stream stand
/// for one, and no stream type for the unary method.
pub proof fn stream_types_have_methods(stream_type: StreamType, r: &'static str)
    requires
        call_ensures(default_method, (stream_type,), r),
    ensures
        stream_type == StreamType::Unspecified || stream_type == StreamType::Unary ==> r@
            == "Unary"@,
        stream_type == StreamType::ClientStream ==> r@ == "ClientStream"@,
        stream_type == StreamType::ServerStream ==> r@ == "ServerStream"@,
        stream_type == StreamType::HalfDuplexBidiStream || stream_type
            == StreamType::FullDuplexBidiStream ==> r@ == "BidiStream"@,
{
}

/// A response keeps its payload where the method's responses have any.
pub proof fn payloads_are_kept(
    shape: &MethodShape,
    read: Option<ConformancePayload>,
    r: Option<ConformancePayload>,
)
    requires
        call_ensures(MethodShape::payload, (shape, read), r),
    ensures
        shape.has_payload ==> r == read,
        !shape.has_payload ==> r is None,
{
}

/// Whether a method is called as its kind is: by its request message, with single
/// messages on the sides that do not stream; only `Unimplemented` has no payload.
pub open spec fn shaped(method: ServiceMethod, shape: MethodShape) -> bool {
    &&& shape.request_type@ == method_name(method) + "Request"@
    &&& shape.single_request <==> method != ServiceMethod::ClientStream && method
        != ServiceMethod::BidiStream
    &&& shape.single_response <==> method != ServiceMethod::ServerStream && method
        != ServiceMethod::BidiStream
    &&& shape.has_payload <==> method != ServiceMethod::Unimplemented
}

/// The shape of a method that the service has.
proof fn shapes_are_known(method: ServiceMethod, shape: MethodShape)
    requires
        crate::conformance::client::shape_of_method(method_name(method)) == Some(shape@),
    ensures
        shaped(method, shape),
{
    reveal_strlit("Unary");
    reveal_strlit("IdempotentUnary");
    reveal_strlit("Unimplemented");
    reveal_strlit("ClientStream");
    reveal_strlit("ServerStream");
    reveal_strlit("BidiStream");
    reveal_strlit("Request");
    reveal_strlit("UnaryRequest");
    reveal_strlit("IdempotentUnaryRequest");
    reveal_strlit("UnimplementedRequest");
    reveal_strlit("ClientStreamRequest");
    reveal_strlit("ServerStreamRequest");
    reveal_strlit("BidiStreamRequest");
    assert("ClientStream"@[0] == 'C');
    assert("ServerStream"@[0] == 'S');
    let named = method_name(method) + "Request"@;
    assert("UnaryRequest"@ =~= "Unary"@ + "Request"@);
    assert("IdempotentUnaryRequest"@ =~= "IdempotentUnary"@ + "Request"@);
    assert("UnimplementedRequest"@ =~= "Unimplemented"@ + "Request"@);
    assert("ClientStreamRequest"@ =~= "ClientStream"@ + "Request"@);
    assert("ServerStreamRequest"@ =~= "ServerStream"@ + "Request"@);
    assert("BidiStreamRequest"@ =~= "BidiStream"@ + "Request"@);
    assert(shape@.request_type == shape.request_type@);
    assert(shape@.single_request == shape.single_request);
    assert(shape@.single_response == shape.single_response);
    assert(shape@.has_payload == shape.has_payload);
}

/// The shape of a method exists where the service has it.
proof fn methods_are_known(method: ServiceMethod)
    ensures
        crate::conformance::client::shape_of_method(method_name(method)) is Some,
{
}

/// Whether a test case asks for this method of the suite's service: by its name, or by
/// naming none and having a stream type that stands for it.
pub open spec fn asks_for(req: ClientCompatRequest, method: ServiceMethod) -> bool {
    &&& (req.service is None || req.service->0@
        == "connectrpc.conformance.v1.ConformanceService"@)
    &&& match req.method {
        Some(name) => name@ == method_name(method),
        None => match method {
            ServiceMethod::Unary => req.stream_type == StreamType::Unary || req.stream_type
                == StreamType::Unspecified,
            ServiceMethod::ClientStream => req.stream_type == StreamType::ClientStream,
            ServiceMethod::ServerStream => req.stream_type == StreamType::ServerStream,
            ServiceMethod::BidiStream => req.stream_type == StreamType::HalfDuplexBidiStream
                || req.stream_type == StreamType::FullDuplexBidiStream,
            _ => false,
        },
    }
}

/// A test case that asks for a method of the service has that method called, at the
/// server's address: over TLS where there is a certificate, in the clear otherwise.
pub proof fn cases_are_called(
    req: &ClientCompatRequest,
    method: ServiceMethod,
    port: String,
    r: Result<CallPlan, String>,
)
    requires
        call_ensures(handle, (req,), r),
        call_ensures(decimal_string, (req.port as u128,), port),
        asks_for(*req, method),
    ensures
        r matches Ok(plan) && {
            &&& shaped(method, plan.shape)
            &&& plan.path@ == "/connectrpc.conformance.v1.ConformanceService/"@ + method_name(
                method,
            )
            &&& plan.tls == (req.server_tls_cert@.len() > 0)
            &&& req.server_tls_cert@.len() > 0 ==> plan.base@ == "https://"@ + req.host@ + ":"@
                + port@
            &&& req.server_tls_cert@.len() == 0 ==> plan.base@ == "http://"@ + req.host@ + ":"@
                + port@
            &&& plan.gzip == req.gzip
            &&& plan.full_duplex == (req.stream_type == StreamType::FullDuplexBidiStream)
        },
{
    assert(crate::conformance::client::named_method(*req) == method_name(method));
    methods_are_known(method);
    if let Ok(plan) = r {
        shapes_are_known(method, plan.shape);
        reveal_strlit("/");
        reveal_strlit("connectrpc.conformance.v1.ConformanceService");
        reveal_strlit("/connectrpc.conformance.v1.ConformanceService/");
        assert("/"@ + "connectrpc.conformance.v1.ConformanceService"@ + "/"@
            =~= "/connectrpc.conformance.v1.ConformanceService/"@);
    }
}

/// A test case that asks for another service or another method is not called, and told
/// which it was.
pub proof fn strange_cases_are_refused(req: &ClientCompatRequest, r: Result<CallPlan, String>)
    requires
        call_ensures(handle, (req,), r),
    ensures
        req.service matches Some(service) ==> service@
            != "connectrpc.conformance.v1.ConformanceService"@ ==> (r matches Err(e) && e@
            == "unknown service "@ + service@),
        (req.service is None || req.service->0@
            == "connectrpc.conformance.v1.ConformanceService"@) && req.method is Some && (forall|
            method: ServiceMethod,
        |
            req.method->0@ != #[trigger] method_name(method)) ==> (r matches Err(e) && e@
            == "unknown method "@ + req.method->0@),
{
    if (req.service is None || req.service->0@
        == "connectrpc.conformance.v1.ConformanceService"@) && req.method is Some && (forall|
        method: ServiceMethod,
    |
        req.method->0@ != #[trigger] method_name(method)) {
        let name = req.method->0@;
        assert(name != method_name(ServiceMethod::Unary));
        assert(name != method_name(ServiceMethod::IdempotentUnary));
        assert(name != method_name(ServiceMethod::Unimplemented));
        assert(name != method_name(ServiceMethod::ClientStream));
        assert(name != method_name(ServiceMethod::ServerStream));
        assert(name != method_name(ServiceMethod::BidiStream));
        assert(crate::conformance::client::shape_of_method(name) is None);
    }
}

// ---------------------------------------------------------------------------
// Request messages

/// Whether the URL of a type names the message `name`: it is what stands behind the last
/// slash, or all of it where there is none.
pub open spec fn names_message(url: Seq<char>, name: Seq<char>) -> bool {
    free_of(name, '/') && (url == name || exists|host: Seq<char>|
        url == #[trigger] (host.push('/') + name))
}

/// What stands behind the last slash.
proof fn message_is_named(url: Seq<char>, name: Seq<char>)
    requires
        names_message(url, name),
    ensures
        crate::conformance::client::message_name(url) == name,
    decreases name.len(),
{
    let first = name.drop_last();
    if name.len() > 0 {
        assert(name[name.len() - 1] != '/');
        assert forall|i: int| 0 <= i < first.len() implies #[trigger] first[i] != '/' by {
            assert(first[i] == name[i]);
        }
        assert(first.push(name.last()) =~= name);
    }
    if url == name {
        if name.len() > 0 {
            message_is_named(first, first);
        } else {
            assert(crate::conformance::client::message_name(url) =~= name);
        }
    } else {
        let host = choose|host: Seq<char>| url == #[trigger] (host.push('/') + name);
        if name.len() > 0 {
            assert(url.drop_last() =~= host.push('/') + first);
            assert(names_message(url.drop_last(), first));
            message_is_named(url.drop_last(), first);
            assert(url.last() == name.last());
        } else {
            assert(url =~= host.push('/'));
            assert(crate::conformance::client::message_name(url) =~= name);
        }
    }
}

/// Messages of the expected type that could all be read are not refused one by one.
proof fn good_messages_pass(
    messages: Seq<crate::conformance::AnyView>,
    broken: Seq<Option<Seq<char>>>,
    short: Seq<char>,
)
    requires
        messages.len() == broken.len(),
        forall|i: int|
            0 <= i < messages.len() ==> names_message(
                (#[trigger] messages[i]).type_url,
                "connectrpc.conformance.v1."@ + short,
            ) && broken[i] is None,
    ensures
        crate::conformance::client::first_refusal(messages, broken, short) is None,
    decreases messages.len(),
{
    if messages.len() > 0 {
        let n = messages.len() - 1;
        assert forall|i: int| 0 <= i < messages.drop_last().len() implies names_message(
            (#[trigger] messages.drop_last()[i]).type_url,
            "connectrpc.conformance.v1."@ + short,
        ) && broken.drop_last()[i] is None by {
            assert(messages.drop_last()[i] == messages[i]);
        }
        good_messages_pass(messages.drop_last(), broken.drop_last(), short);
        assert(messages[n] == messages.last());
        message_is_named(messages.last().type_url, "connectrpc.conformance.v1."@ + short);
    }
}

/// The first message that is refused decides.
proof fn first_bad_message_decides(
    messages: Seq<crate::conformance::AnyView>,
    broken: Seq<Option<Seq<char>>>,
    short: Seq<char>,
    k: int,
)
    requires
        messages.len() == broken.len(),
        0 <= k < messages.len(),
        forall|i: int|
            0 <= i < k ==> names_message(
                (#[trigger] messages[i]).type_url,
                "connectrpc.conformance.v1."@ + short,
            ) && broken[i] is None,
        crate::conformance::client::message_name(messages[k].type_url)
            != "connectrpc.conformance.v1."@ + short || broken[k] is Some,
    ensures
        crate::conformance::client::first_refusal(messages, broken, short) == Some(
            if crate::conformance::client::message_name(messages[k].type_url)
                != "connectrpc.conformance.v1."@ + short {
                "expected request type "@ + ("connectrpc.conformance.v1."@ + short) + ", got "@
                    + crate::conformance::client::message_name(messages[k].type_url)
            } else {
                "failed to decode request: "@ + broken[k]->0
            },
        ),
    decreases messages.len(),
{
    let before = messages.drop_last();
    let errors = broken.drop_last();
    assert forall|i: int| 0 <= i < k && i < before.len() implies names_message(
        (#[trigger] before[i]).type_url,
        "connectrpc.conformance.v1."@ + short,
    ) && errors[i] is None by {
        assert(before[i] == messages[i]);
    }
    if k == messages.len() - 1 {
        good_messages_pass(before, errors, short);
    } else {
        first_bad_message_decides(before, errors, short, k);
    }
}

/// Request messages that all are of the method's type and could be read are sent, unless
/// one is asked for and there is not exactly one.
pub proof fn good_messages_are_sent(
    messages: &Vec<Any>,
    broken: &Vec<Option<String>>,
    short: &str,
    single: bool,
    n: u128,
    count: String,
    r: Result<(), String>,
)
    requires
        messages@.len() == broken@.len(),
        call_ensures(check_messages, (messages, broken, short, single), r),
        n == messages@.len(),
        call_ensures(decimal_string, (n,), count),
        forall|i: int|
            0 <= i < messages@.len() ==> names_message(
                (#[trigger] messages@[i]).type_url@,
                "connectrpc.conformance.v1."@ + short@,
            ) && broken@[i] is None,
    ensures
        !single || messages@.len() == 1 ==> r is Ok,
        single && messages@.len() != 1 ==> (r matches Err(e) && e@
            == "expected exactly one request message, got "@ + count@),
{
    let views = any_views(messages@);
    let errors = crate::conformance::client::optional_texts(broken@);
    assert forall|i: int| 0 <= i < views.len() implies names_message(
        (#[trigger] views[i]).type_url,
        "connectrpc.conformance.v1."@ + short@,
    ) && errors[i] is None by {
        assert(views[i].type_url == messages@[i].type_url@);
        assert(errors[i] == optional_text(broken@[i]));
    }
    good_messages_pass(views, errors, short@);
}

/// The first request message that is of another type, or could not be read, has the call
/// refused, and is told.
pub proof fn bad_messages_are_refused(
    messages: &Vec<Any>,
    broken: &Vec<Option<String>>,
    short: &str,
    single: bool,
    k: int,
    name: Seq<char>,
    r: Result<(), String>,
)
    requires
        messages@.len() == broken@.len(),
        call_ensures(check_messages, (messages, broken, short, single), r),
        0 <= k < messages@.len(),
        forall|i: int|
            0 <= i < k ==> names_message(
                (#[trigger] messages@[i]).type_url@,
                "connectrpc.conformance.v1."@ + short@,
            ) && broken@[i] is None,
        names_message(messages@[k].type_url@, name),
        name != "connectrpc.conformance.v1."@ + short@ || broken@[k] is Some,
    ensures
        name != "connectrpc.conformance.v1."@ + short@ ==> (r matches Err(e) && e@
            == "expected request type "@ + ("connectrpc.conformance.v1."@ + short@) + ", got "@
            + name),
        name == "connectrpc.conformance.v1."@ + short@ ==> (r matches Err(e) && e@
            == "failed to decode request: "@ + broken@[k]->0@),
{
    let views = any_views(messages@);
    let errors = crate::conformance::client::optional_texts(broken@);
    assert forall|i: int| 0 <= i < k implies names_message(
        (#[trigger] views[i]).type_url,
        "connectrpc.conformance.v1."@ + short@,
    ) && errors[i] is None by {
        assert(views[i].type_url == messages@[i].type_url@);
        assert(errors[i] == optional_text(broken@[i]));
    }
    assert(views[k].type_url == messages@[k].type_url@);
    assert(errors[k] == optional_text(broken@[k]));
    message_is_named(views[k].type_url, name);
    first_bad_message_decides(views, errors, short@, k);
}

// ---------------------------------------------------------------------------
// Request headers

/// No request headers make no metadata.
pub proof fn no_headers_no_metadata(headers: &Vec<Header>, r: Metadata)
    requires
        call_ensures(metadata_from_headers, (headers,), r),
        headers@.len() == 0,
    ensures
        r@.len() == 0,
{
}

/// Whether one more value under a header gives this entry. A value under a `-bin` name
/// stands for bytes, as base64 without padding.
pub open spec fn makes_entry(
    name: Seq<char>,
    value: Seq<char>,
    entry: Option<(Seq<char>, ValueView)>,
) -> bool {
    let key = lower(name);
    if !free(key) {
        entry is None
    } else if for_bytes(key) {
        ||| exists|bytes: Seq<u8>|
            value == #[trigger] base64_unpadded(bytes) && entry == Some(
                (key, ValueView::Binary(bytes)),
            )
        ||| entry is None && forall|bytes: Seq<u8>| value != #[trigger] base64_unpadded(bytes)
    } else if plain_text(value) {
        entry == Some((key, ValueView::Ascii(value)))
    } else {
        entry is None
    }
}

/// One more header value adds its entry behind the others, or nothing where metadata may
/// not hold it.
pub proof fn headers_become_entries(
    headers: &Vec<Header>,
    more: &Vec<Header>,
    r: Metadata,
    s: Metadata,
) -> (entry: Option<(Seq<char>, ValueView)>)
    requires
        call_ensures(metadata_from_headers, (headers,), r),
        call_ensures(metadata_from_headers, (more,), s),
        more@.len() == headers@.len() + 1,
        header_views(more@).drop_last() == header_views(headers@),
        more@[headers@.len() as int].value@.len() == 1,
    ensures
        makes_entry(
            more@[headers@.len() as int].name@,
            more@[headers@.len() as int].value@[0]@,
            entry,
        ),
        entry is None ==> s@ == r@,
        entry matches Some(e) ==> s@ == r@.push(e),
{
    let views = header_views(more@);
    let last = more@[headers@.len() as int];
    assert(views.last() == last@);
    let name = lower(last.name@);
    let value = last.value@[0]@;
    assert(last@.value =~= seq![value]);
    assert(last@.value.drop_last() =~= Seq::<Seq<char>>::empty());
    assert(last@.value.last() == value);
    reveal_with_fuel(crate::conformance::client::with_header_values, 2);
    assert(s@ == crate::conformance::client::with_header_value(r@, name, value));
    key_rules(name, value);
    if free(name) && for_bytes(name) {
        match crate::binary::base64_unpadded_decoded(encode_utf8(value)) {
            Some(bytes) => {
                assert(exists|b: Seq<u8>| encode_utf8(#[trigger] base64_unpadded(b)) == encode_utf8(
                    value,
                ));
                vstd::utf8::encode_utf8_decode_utf8(value);
                vstd::utf8::encode_utf8_decode_utf8(base64_unpadded(bytes));
                assert(value == base64_unpadded(bytes));
                Some((name, ValueView::Binary(bytes)))
            },
            None => None,
        }
    } else if free(name) && plain_text(value) {
        Some((name, ValueView::Ascii(value)))
    } else {
        None
    }
}

/// The certificates of a server are those that its PEM file holds.
pub proof fn certificates_are_read(pem: &[u8], r: Option<Vec<Vec<u8>>>)
    requires
        call_ensures(server_certs, (pem,), r),
    ensures
        r is Some <==> pem_certificates(pem@) is Some,
        r matches Some(list) ==> {
            &&& list@.len() == pem_certificates(pem@)->0.len()
            &&& forall|i: int|
                0 <= i < list@.len() ==> (#[trigger] list@[i])@ == pem_certificates(pem@)->0[i]
        },
{
    if let Some(list) = r {
        let held = crate::headers::bytes_of(list@);
        assert(held == pem_certificates(pem@)->0);
        assert forall|i: int| 0 <= i < list@.len() implies (#[trigger] list@[i])@
            == pem_certificates(pem@)->0[i] by {
            assert(held[i] == list@[i]@);
        }
    }
}

/// One more value of the last header adds its entry behind the others, or nothing where
/// metadata may not hold it.
pub proof fn values_become_entries(
    headers: &Vec<Header>,
    more: &Vec<Header>,
    name: Seq<char>,
    value: Seq<char>,
    r: Metadata,
    s: Metadata,
) -> (entry: Option<(Seq<char>, ValueView)>)
    requires
        call_ensures(metadata_from_headers, (headers,), r),
        call_ensures(metadata_from_headers, (more,), s),
        more@.len() == headers@.len(),
        headers@.len() > 0,
        header_views(more@).drop_last() == header_views(headers@).drop_last(),
        header_views(headers@).last().name == name,
        header_views(more@).last().name == name,
        header_views(more@).last().value == header_views(headers@).last().value.push(value),
    ensures
        makes_entry(name, value, entry),
        entry is None ==> s@ == r@,
        entry matches Some(e) ==> s@ == r@.push(e),
{
    let before = header_views(headers@).last().value;
    assert(before.push(value).drop_last() =~= before);
    assert(before.push(value).last() == value);
    let key = lower(name);
    assert(s@ == crate::conformance::client::with_header_value(r@, key, value));
    key_rules(key, value);
    if free(key) && for_bytes(key) {
        match crate::binary::base64_unpadded_decoded(encode_utf8(value)) {
            Some(bytes) => {
                assert(exists|b: Seq<u8>| encode_utf8(#[trigger] base64_unpadded(b)) == encode_utf8(
                    value,
                ));
                vstd::utf8::encode_utf8_decode_utf8(value);
                vstd::utf8::encode_utf8_decode_utf8(base64_unpadded(bytes));
                assert(value == base64_unpadded(bytes));
                Some((key, ValueView::Binary(bytes)))
            },
            None => None,
        }
    } else if free(key) && plain_text(value) {
        Some((key, ValueView::Ascii(value)))
    } else {
        None
    }
}

} // verus!
