//! The two halves against each other: what the client writes, the server reads,
//! and the other way round.

use std::time::Duration;
use trillium_grpc::client::conn::{process_head, ClientRecv, ResponseHead, SendStep};
use trillium_grpc::client::service_client::ClientDefaults;
use trillium_grpc::frame::reader::ReadEvent;
use trillium_grpc::server::bidi::{after_setup, Continuation};
use trillium_grpc::server::body::{BodyStep, StreamEvent};
use trillium_grpc::server::dispatch::{begin_call, finish_unary, OneRequest, OneRequestStep};
use trillium_grpc::server::streaming::RecvStep;
use trillium_grpc::{
    prepare_grpc_conn, Code, Encoding, GrpcClientConn, GrpcServerConn, Metadata, Prost,
    ServiceClientExt, Status,
};
use trillium_http::Headers;

type Conn = GrpcClientConn<Prost, Vec<u8>, Vec<u8>>;

fn request(defaults: &Headers, timeout: Option<Duration>) -> Headers {
    let mut metadata = Metadata::new();
    metadata.insert_ascii("x-id", "7").unwrap();
    metadata.insert_binary("x-raw-bin", vec![0, 255]).unwrap();
    let mut conn: Conn = GrpcClientConn::new(defaults, metadata, false);
    assert!(conn.is_pending());
    let mut headers = defaults.clone();
    conn.begin_open(&mut headers, timeout).unwrap();
    headers
}

#[test]
fn the_server_accepts_what_the_client_writes() {
    let timeout = Duration::from_millis(1500);
    let defaults = ClientDefaults::from_headers(Headers::new())
        .with_outbound_compression(Encoding::Gzip)
        .with_default_timeout(timeout)
        .into_headers();
    assert_eq!(defaults.get_str("grpc-encoding"), Some("gzip"));
    let request = request(&defaults, Some(timeout));

    let mut response = Headers::new();
    assert_eq!(prepare_grpc_conn(&request, &mut response, "proto"), Ok(200));
    let setup = begin_call(&request).ok().unwrap();
    assert_eq!(setup.request_encoding, Encoding::Gzip);
    assert_eq!(setup.timeout, Some(timeout));
    let metadata = Metadata::from_headers(&request);
    assert_eq!(metadata.get_ascii("x-id"), Some("7"));
    assert_eq!(metadata.get_binary("x-raw-bin"), Some(&[0u8, 255][..]));
}

#[test]
fn an_uncompressed_call_without_a_time_limit() {
    let request = request(&Headers::new(), None);
    let mut response = Headers::new();
    assert_eq!(prepare_grpc_conn(&request, &mut response, "proto"), Ok(200));
    let setup = begin_call(&request).ok().unwrap();
    assert_eq!(setup.request_encoding, Encoding::Identity);
    assert_eq!(setup.timeout, None);
    assert_eq!(prepare_grpc_conn(&request, &mut response, "json"), Err(415));
}

#[test]
fn a_codec_that_nobody_knows_is_refused() {
    let mut defaults = Headers::new();
    defaults.insert("grpc-encoding", "br");
    let mut body = begin_call(&request(&defaults, None)).err().unwrap();
    let trailers = body.trailers().unwrap();
    assert_eq!(trailers.get_str("grpc-status"), Some("12"));
}

#[test]
fn a_time_limit_past_the_longest_saturates() {
    let request = request(&Headers::new(), Some(Duration::MAX));
    let setup = begin_call(&request).ok().unwrap();
    assert_eq!(setup.timeout, Some(Duration::from_secs(99_999_999 * 3600)));
}

#[test]
fn the_client_accepts_what_the_server_writes() {
    let request = request(&Headers::new(), None);
    let mut response = Headers::new();
    prepare_grpc_conn(&request, &mut response, "proto").unwrap();
    let head = process_head(ResponseHead { status: Some(200), headers: response });
    assert_eq!(head.ok().unwrap().response_encoding, Encoding::Gzip);

    let mut refused = Headers::new();
    let status = prepare_grpc_conn(&Headers::new(), &mut refused, "proto").unwrap_err();
    assert_eq!(status, 415);
    let head = process_head(ResponseHead { status: Some(status), headers: refused });
    assert_eq!(head.err().unwrap().code, Code::Unknown);
}

fn next_event(input: &mut &[u8], wanted: usize) -> ReadEvent {
    // A few bytes at a time, as a slow peer would send them.
    let n = wanted.min(3).min(input.len());
    let (now, later) = input.split_at(n);
    *input = later;
    ReadEvent::Data(now.to_vec())
}

fn open_call(conn: &mut Conn, defaults: &Headers) -> (Headers, Headers, Vec<u8>) {
    let mut request = defaults.clone();
    let body = conn.begin_open(&mut request, None).unwrap();
    let mut response = Headers::new();
    assert_eq!(prepare_grpc_conn(&request, &mut response, "proto"), Ok(200));
    (request, response, body)
}

fn read_request(server: &GrpcServerConn<Prost>, mut body: &[u8]) -> Result<Vec<u8>, Status> {
    let mut stream = server.requests::<Vec<u8>>();
    let mut one = OneRequest::new();
    loop {
        let mut step = stream.recv();
        let item = loop {
            step = match step {
                RecvStep::Read(wanted) => stream.absorb(next_event(&mut body, wanted)),
                RecvStep::Done(item) => break item,
            };
        };
        one = match one.received(item) {
            OneRequestStep::Receive(next) => next,
            OneRequestStep::Done(result) => return result,
        };
    }
}

fn read_response(
    conn: &mut Conn,
    body: &mut &[u8],
    trailers: &Headers,
) -> Result<Option<Vec<u8>>, Status> {
    let mut step = conn.recv();
    loop {
        step = match step {
            ClientRecv::Read(wanted) => conn.absorb(next_event(body, wanted), trailers.clone()),
            ClientRecv::Done(result) => return result,
            ClientRecv::Open => panic!("the call is open"),
        };
    }
}

#[test]
fn a_unary_call_end_to_end() {
    let defaults = ClientDefaults::new()
        .with_outbound_compression(Encoding::Zstd)
        .into_headers();
    let mut conn: Conn = GrpcClientConn::new(&defaults, Metadata::new(), false);
    let message = "world ".repeat(200).into_bytes();
    assert!(matches!(conn.send(&message), Ok(SendStep::Buffered)));
    conn.close_send();
    let (request, response, body) = open_call(&mut conn, &defaults);
    assert!(body.len() < message.len());

    let setup = begin_call(&request).ok().unwrap();
    let server = GrpcServerConn::<Prost>::new(request, response, setup.request_encoding);
    let received = read_request(&server, &body).unwrap();
    assert_eq!(received, message);
    let (response, mut trailers) = server.into_parts();
    trailers.insert("x-trailing", "t");
    let mut reply =
        finish_unary::<Prost, Vec<u8>>(Ok(received), setup.response_encoding, trailers);

    conn.opened(Ok(ResponseHead { status: Some(200), headers: response })).unwrap();
    assert!(!conn.is_pending());
    let bytes = reply.read(usize::MAX);
    let trailers = reply.trailers().unwrap();
    let mut rest = bytes.as_slice();
    assert_eq!(read_response(&mut conn, &mut rest, &trailers).unwrap(), Some(message));
    assert_eq!(read_response(&mut conn, &mut rest, &trailers).unwrap(), None);
    assert_eq!(conn.trailers().unwrap().get_str("x-trailing"), Some("t"));
}

#[test]
fn an_error_carries_its_metadata_to_the_client() {
    let mut conn: Conn = GrpcClientConn::new(&Headers::new(), Metadata::new(), false);
    conn.send(&b"q".to_vec()).ok().unwrap();
    let (_, response, _) = open_call(&mut conn, &Headers::new());
    let mut status = Status::resource_exhausted("slow down");
    status.metadata.insert_ascii("retry-after", "30").unwrap();
    status.metadata.insert_binary("debug-bin", vec![0xde, 0xad, 0xbe, 0xef]).unwrap();
    let mut reply =
        finish_unary::<Prost, Vec<u8>>(Err(status), Encoding::Gzip, Headers::new());

    conn.opened(Ok(ResponseHead { status: Some(200), headers: response })).unwrap();
    let trailers = reply.trailers().unwrap();
    let e = read_response(&mut conn, &mut &[][..], &trailers).unwrap_err();
    assert_eq!(e.code, Code::ResourceExhausted);
    assert_eq!(e.message, "slow down");
    assert_eq!(e.metadata.get_ascii("retry-after"), Some("30"));
    assert_eq!(e.metadata.get_binary("debug-bin"), Some(&[0xde, 0xad, 0xbe, 0xef][..]));
}

#[test]
fn a_stream_of_responses_end_to_end() {
    let mut conn: Conn = GrpcClientConn::new(&Headers::new(), Metadata::new(), false);
    conn.send(&b"q".to_vec()).ok().unwrap();
    let (request, response, _) = open_call(&mut conn, &Headers::new());
    let setup = begin_call(&request).ok().unwrap();
    let items: Vec<Vec<u8>> = (1..=3).map(|i| format!("Hello {i}, world").into_bytes()).collect();
    let Continuation::Continue(stream, mut body) =
        after_setup(Ok(items.clone()), setup.response_encoding, Headers::new())
    else {
        panic!("the method returned a stream")
    };
    let mut events = stream.into_iter();
    let mut bytes = Vec::new();
    loop {
        match body.read(7) {
            BodyStep::Bytes(part) if part.is_empty() => break,
            BodyStep::Bytes(part) => bytes.extend(part),
            BodyStep::Poll => body.polled::<Prost, Vec<u8>>(match events.next() {
                Some(item) => StreamEvent::Item(Ok(item)),
                None => StreamEvent::Item(Err(Status::aborted("cut"))),
            }),
        }
    }
    let trailers = body.trailers();

    conn.opened(Ok(ResponseHead { status: Some(200), headers: response })).unwrap();
    let mut rest = bytes.as_slice();
    for item in items {
        assert_eq!(read_response(&mut conn, &mut rest, &trailers).unwrap(), Some(item));
    }
    let e = read_response(&mut conn, &mut rest, &trailers).unwrap_err();
    assert_eq!((e.code, e.message.as_str()), (Code::Aborted, "cut"));
    assert_eq!(read_response(&mut conn, &mut rest, &trailers).unwrap(), None);
}
