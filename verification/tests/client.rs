//! The client half: the call engine, the typed handles, and client defaults.

use std::time::Duration;
use trillium_grpc::client::conn::{
    http_to_grpc_status, process_head, settle, transport_error, ClientRecv, CloseStep, RaceView,
    ResponseHead, SendStep,
};
use trillium_grpc::client::dispatch::{
    deadline_from_client, extract_response_encoding, finish_with_trailers, grpc_request,
    open_upgrade, outbound_encoding_from_client, read_loop, read_one_response, trailers_only,
    LoopStep, OpenUpgrade,
};
use trillium_grpc::client::service_client::ClientDefaults;
use trillium_grpc::client::typed::{stream_item, UnaryRead, UnaryStep};
use trillium_grpc::frame::reader::ReadEvent;
use trillium_grpc::{
    with_service_prefix, BidiConn, Code, Encoding, GrpcClientConn, Metadata, Prost, ServiceClient,
    ServiceClientExt, Status, StreamingConn, UnaryConn,
};
use trillium_http::Headers;

type Conn = GrpcClientConn<Prost, Vec<u8>, Vec<u8>>;

fn head(fields: &[(&'static str, &'static str)]) -> ResponseHead {
    let mut headers = Headers::new();
    headers.insert("content-type", "application/grpc+proto");
    for (name, value) in fields {
        headers.insert(*name, *value);
    }
    ResponseHead { status: Some(200), headers }
}

fn trailers(status: &'static str) -> Headers {
    let mut h = Headers::new();
    h.insert("grpc-status", status);
    h
}

fn fresh() -> Conn {
    GrpcClientConn::new(&Headers::new(), Metadata::new(), false)
}

fn live(fields: &[(&'static str, &'static str)]) -> Conn {
    let mut conn = fresh();
    conn.begin_open(&mut Headers::new(), None).unwrap();
    conn.opened(Ok(head(fields))).unwrap();
    conn
}

#[test]
fn service_prefix_joins_paths() {
    assert_eq!(with_service_prefix("/", "greeter.v1.Greeter"), "/greeter.v1.Greeter/");
    assert_eq!(with_service_prefix("/api//", "S"), "/api/S/");
    assert_eq!(with_service_prefix("", "S"), "/S/");
}

#[test]
fn http_statuses_map_to_codes() {
    let codes = [
        (400, Code::Internal),
        (401, Code::Unauthenticated),
        (403, Code::PermissionDenied),
        (404, Code::Unimplemented),
        (429, Code::Unavailable),
        (502, Code::Unavailable),
        (503, Code::Unavailable),
        (504, Code::Unavailable),
        (500, Code::Unknown),
        (0, Code::Unknown),
    ];
    for (http, code) in codes {
        let status = http_to_grpc_status(http);
        assert_eq!(status.code, code);
        assert_eq!(status.message, format!("HTTP {http}"));
    }
    let e = transport_error("refused");
    assert_eq!((e.code, e.message.as_str()), (Code::Unavailable, "transport error: refused"));
}

#[test]
fn response_heads() {
    let ok = process_head(head(&[("grpc-encoding", "gzip")])).ok().unwrap();
    assert_eq!(ok.response_encoding, Encoding::Gzip);
    assert!(ok.head_status.is_none());
    let only = process_head(head(&[("grpc-status", "5")])).ok().unwrap();
    assert_eq!(only.head_status.unwrap().unwrap_err().code, Code::NotFound);

    let e = process_head(ResponseHead { status: Some(503), headers: Headers::new() })
        .err()
        .unwrap();
    assert_eq!(e.code, Code::Unavailable);
    let e = process_head(ResponseHead { status: None, headers: Headers::new() }).err().unwrap();
    assert_eq!(e.message, "HTTP 0");
    let e = process_head(ResponseHead { status: Some(200), headers: Headers::new() })
        .err()
        .unwrap();
    assert_eq!(
        (e.code, e.message.as_str()),
        (Code::Unknown, "unexpected response content-type: None")
    );
    let e = process_head(head(&[("content-type", "text/html")])).err().unwrap();
    assert_eq!(e.message, "unexpected response content-type: Some(\"text/html\")");
    let e = process_head(head(&[("grpc-encoding", "br")])).err().unwrap();
    assert_eq!(
        (e.code, e.message.as_str()),
        (Code::Internal, "unsupported grpc-encoding \"br\"")
    );
}

fn race(before: bool, cancelled: bool, late: bool, result: Option<Result<u8, Status>>) -> RaceView<u8> {
    RaceView { elapsed_before: before, cancelled, timed_out: late, result }
}

#[test]
fn races_settle_in_order() {
    assert!(settle(race(false, false, false, None)).is_none());
    assert_eq!(settle(race(false, false, false, Some(Ok(1)))).unwrap().unwrap(), 1);
    let e = settle(race(false, true, false, Some(Ok(1)))).unwrap().unwrap_err();
    assert_eq!((e.code, e.message.as_str()), (Code::Cancelled, "call cancelled"));
    let e = settle(race(false, false, true, Some(Ok(1)))).unwrap().unwrap_err();
    assert_eq!((e.code, e.message.as_str()), (Code::DeadlineExceeded, "deadline elapsed"));
    let e = settle(race(true, true, false, None)).unwrap().unwrap_err();
    assert_eq!(e.code, Code::DeadlineExceeded);
}

#[test]
fn request_head_and_body() {
    let mut defaults = Headers::new();
    defaults.insert("grpc-encoding", "gzip");
    let mut conn: Conn = GrpcClientConn::new(&defaults, Metadata::new(), false);
    conn.add_ascii_metadata("x-key", "value");
    conn.add_binary_metadata("x-bin", vec![1, 2]);
    assert!(matches!(conn.send(&b"hi".to_vec()), Ok(SendStep::Buffered)));
    assert!(matches!(conn.close_send(), CloseStep::Open));
    let e = conn.send(&Vec::new()).err().unwrap();
    assert_eq!((e.code, e.message.as_str()), (Code::Internal, "send after close_send"));

    let mut headers = Headers::new();
    let body = conn.begin_open(&mut headers, Some(Duration::from_millis(1500))).unwrap();
    assert_eq!(body[0], 1);
    assert_eq!(headers.get_str("content-type"), Some("application/grpc+proto"));
    assert_eq!(headers.get_str("te"), Some("trailers"));
    assert_eq!(
        headers.get_str("grpc-accept-encoding"),
        Some("identity,gzip,deflate,zstd")
    );
    assert_eq!(headers.get_str("grpc-encoding"), Some("gzip"));
    assert_eq!(headers.get_str("grpc-timeout"), Some("1500000u"));
    assert_eq!(headers.get_str("x-key"), Some("value"));
    assert_eq!(headers.get_str("x-bin"), Some("AQI="));
}

#[test]
fn invalid_metadata_fails_the_call_once() {
    let mut conn = fresh();
    conn.add_ascii_metadata("Bad Key", "v");
    conn.add_ascii_metadata("grpc-x", "v");
    let mut headers = Headers::new();
    let e = conn.begin_open(&mut headers, None).unwrap_err();
    assert_eq!(e.code, Code::InvalidArgument);
    assert!(e.message.starts_with("invalid metadata: metadata key \"Bad Key\""));
    assert_eq!(headers.len(), 0);
    assert!(matches!(conn.recv(), ClientRecv::Done(Err(e)) if e.code == Code::InvalidArgument));
    assert!(matches!(conn.recv(), ClientRecv::Done(Ok(None))));
    assert_eq!(conn.trailers().unwrap().len(), 0);
}

#[test]
fn messages_then_status() {
    let mut conn = live(&[("x-head", "h")]);
    assert_eq!(conn.headers().unwrap().get_str("x-head"), Some("h"));
    assert!(conn.trailers().is_none());
    assert!(matches!(conn.recv(), ClientRecv::Read(5)));
    let step = conn.absorb(ReadEvent::Data(vec![0, 0, 0, 0, 3]), Headers::new());
    assert!(matches!(step, ClientRecv::Read(3)));
    let step = conn.absorb(ReadEvent::Data(vec![10, 1, b'a']), Headers::new());
    assert!(matches!(step, ClientRecv::Done(Ok(Some(m))) if m == b"a"));
    let step = conn.absorb(ReadEvent::Data(Vec::new()), trailers("0"));
    assert!(matches!(step, ClientRecv::Done(Ok(None))));
    assert!(matches!(conn.recv(), ClientRecv::Done(Ok(None))));
    assert_eq!(conn.trailers().unwrap().get_str("grpc-status"), Some("0"));
    assert_eq!(conn.headers().unwrap().get_str("x-head"), Some("h"));
}

#[test]
fn trailing_error_ends_the_call() {
    let mut conn = live(&[]);
    let step = conn.absorb(ReadEvent::Data(Vec::new()), trailers("7"));
    assert!(matches!(step, ClientRecv::Done(Err(e)) if e.code == Code::PermissionDenied));
    assert!(matches!(conn.recv(), ClientRecv::Done(Ok(None))));
    let mut conn = live(&[]);
    let step = conn.absorb(ReadEvent::Data(Vec::new()), Headers::new());
    assert!(matches!(step, ClientRecv::Done(Err(e)) if e.code == Code::Unknown));
}

#[test]
fn trailers_only_response() {
    let mut conn = live(&[("grpc-status", "5"), ("grpc-message", "nope")]);
    let step = conn.absorb(ReadEvent::Data(Vec::new()), Headers::new());
    assert!(
        matches!(step, ClientRecv::Done(Err(e)) if e.code == Code::NotFound && e.message == "nope")
    );
    assert_eq!(conn.trailers().unwrap().get_str("grpc-message"), Some("nope"));

    let mut conn = live(&[("grpc-status", "0")]);
    let step = conn.absorb(ReadEvent::Data(vec![0, 0, 0, 0, 0]), Headers::new());
    assert!(matches!(step, ClientRecv::Done(Err(e)) if e.code == Code::Internal));

    let mut conn = live(&[("grpc-status", "5")]);
    let step = conn.absorb(ReadEvent::Data(Vec::new()), trailers("0"));
    assert!(matches!(step, ClientRecv::Done(Ok(None))));
}

#[test]
fn undecodable_response_is_internal() {
    let mut conn = live(&[]);
    conn.absorb(ReadEvent::Data(vec![0, 0, 0, 0, 1]), Headers::new());
    let step = conn.absorb(ReadEvent::Data(vec![0xff]), Headers::new());
    assert!(matches!(step, ClientRecv::Done(Err(e)) if e.code == Code::Internal));
}

#[test]
fn failed_open_is_reported_once() {
    let mut conn = fresh();
    assert!(matches!(conn.recv(), ClientRecv::Open));
    assert!(conn.headers().is_none());
    conn.begin_open(&mut Headers::new(), None).unwrap();
    let e = conn.opened(Err(Status::unavailable("down"))).unwrap_err();
    assert_eq!(e.message, "down");
    assert!(matches!(conn.recv(), ClientRecv::Done(Err(e)) if e.message == "down"));
    assert!(matches!(conn.recv(), ClientRecv::Done(Ok(None))));
    let e = conn.send(&Vec::new()).err().unwrap();
    assert_eq!(e.message, "send after response started");
}

#[test]
fn a_cut_receive_ends_the_stream() {
    let mut conn = live(&[]);
    let mut received = Headers::new();
    received.insert("x-early", "1");
    let step = conn.cut(Status::deadline_exceeded("deadline elapsed"), received);
    assert!(matches!(step, ClientRecv::Done(Err(e)) if e.code == Code::DeadlineExceeded));
    assert!(matches!(conn.recv(), ClientRecv::Done(Ok(None))));
    assert_eq!(conn.trailers().unwrap().get_str("x-early"), Some("1"));
    assert!(conn.headers().is_some());
}

#[test]
fn full_duplex_writes_live() {
    let mut conn: Conn = GrpcClientConn::new(&Headers::new(), Metadata::new(), true);
    assert!(matches!(conn.send(&Vec::new()), Ok(SendStep::Buffered)));
    let prelude = conn.begin_open(&mut Headers::new(), None).unwrap();
    assert_eq!(prelude, [0, 0, 0, 0, 0]);
    conn.opened(Ok(head(&[]))).unwrap();
    assert!(matches!(conn.send(&Vec::new()), Ok(SendStep::Write(f)) if f == [0, 0, 0, 0, 0]));
    assert!(matches!(conn.close_send(), CloseStep::Close));
    assert!(Conn::closed(Ok(())).is_ok());
    let e = Conn::closed(Err("reset".to_string())).unwrap_err();
    assert_eq!((e.code, e.message.as_str()), (Code::Unavailable, "close error: reset"));
    let mut half = live(&[]);
    assert!(matches!(half.close_send(), CloseStep::Nothing));
}

#[test]
fn unary_reads_one_message() {
    let UnaryStep::Receive(second) = UnaryRead::new().received(Ok(Some(1))) else {
        panic!("the end is owed")
    };
    let UnaryStep::Done(message, status) = second.received(Ok(None)) else {
        panic!("the stream has ended")
    };
    assert_eq!(message, Some(1));
    assert!(status.is_ok());

    let UnaryStep::Done(message, status) = UnaryRead::<u8>::new().received(Ok(None)) else {
        panic!("the stream has ended")
    };
    assert!(message.is_none());
    assert_eq!(status.unwrap_err().message, "unary response had no message");
    let UnaryStep::Done(_, status) = UnaryRead::Second(1).received(Ok(Some(2))) else {
        panic!("a second message is an error")
    };
    assert_eq!(status.unwrap_err().message, "unary response had multiple messages");
    let UnaryStep::Done(message, status) =
        UnaryRead::Second(1).received(Err(Status::aborted("x")))
    else {
        panic!("the call has failed")
    };
    assert_eq!(message, Some(1));
    assert_eq!(status.unwrap_err().code, Code::Aborted);
}

#[test]
fn unary_handle() {
    let request = b"r".to_vec();
    let mut call: UnaryConn<Prost, Vec<u8>, Vec<u8>> = UnaryConn::unary(&Headers::new(), &request);
    assert!(call.message().is_none());
    assert!(call.status().is_ok());
    call.finish(Some(b"m".to_vec()), Ok(()));
    assert_eq!(call.message().unwrap(), b"m");
    assert_eq!(call.into_message().unwrap(), b"m");

    let mut call: UnaryConn<Prost, Vec<u8>, Vec<u8>> = UnaryConn::unary(&Headers::new(), &request);
    call.finish(Some(b"m".to_vec()), Err(Status::not_found("gone")));
    assert!(call.message().is_none());
    assert_eq!(call.status().unwrap_err().code, Code::NotFound);
    assert_eq!(call.into_message().unwrap_err().code, Code::NotFound);

    let mut call: UnaryConn<Prost, Vec<u8>, Vec<u8>> =
        UnaryConn::client_streaming(&Headers::new()).with_ascii_metadata("k", "v");
    call.finish(None, Err(Status::internal("x")));
    assert_eq!(call.status().unwrap_err().code, Code::Internal);
    assert_eq!(call.into_message().unwrap_err().message, "x");
}

#[test]
fn streaming_handles() {
    let call: StreamingConn<Prost, Vec<u8>, Vec<u8>> =
        StreamingConn::server_streaming(&Headers::new(), &Vec::new());
    let mut call = call.with_binary_metadata("k-bin", vec![255]);
    assert!(call.metadata().is_none() && call.trailers().is_none());
    let mut headers = Headers::new();
    let body = call.engine_mut().begin_open(&mut headers, None).unwrap();
    assert_eq!(body, [0, 0, 0, 0, 0]);
    assert_eq!(headers.get_str("k-bin"), Some("/w=="));

    let mut call: BidiConn<Prost, Vec<u8>, Vec<u8>> = BidiConn::bidi(&Headers::new());
    assert!(matches!(call.engine_mut().send(&Vec::new()), Ok(SendStep::Buffered)));

    assert!(stream_item::<u8>(Ok(None)).is_none());
    assert_eq!(stream_item(Ok(Some(4))).unwrap().unwrap(), 4);
    assert!(stream_item::<u8>(Err(Status::internal("x"))).unwrap().is_err());
}

#[test]
fn client_defaults_are_set_and_cleared() {
    let mut client = ClientDefaults::new()
        .with_outbound_compression(Encoding::Zstd)
        .with_default_timeout(Duration::from_secs(3));
    assert_eq!(client.outbound_compression(), Encoding::Zstd);
    assert_eq!(client.default_timeout(), Some(Duration::from_secs(3)));
    assert_eq!(client.default_headers().get_str("grpc-encoding"), Some("zstd"));
    assert_eq!(outbound_encoding_from_client(client.default_headers()), Encoding::Zstd);
    assert_eq!(
        deadline_from_client(client.default_headers()),
        Some(Duration::from_secs(3))
    );
    client.set_outbound_compression(Encoding::Identity);
    client.set_default_timeout(Duration::ZERO);
    assert_eq!(client.outbound_compression(), Encoding::Identity);
    assert_eq!(client.default_timeout(), None);
    assert_eq!(client.default_headers().len(), 0);
    client
        .set_outbound_compression(Encoding::Gzip)
        .set_default_timeout(Duration::from_secs(1))
        .set_outbound_compression(Encoding::Deflate);
    assert_eq!(client.outbound_compression(), Encoding::Deflate);
    assert_eq!(client.default_timeout(), Some(Duration::from_secs(1)));
}

#[test]
fn opened_streams() {
    let h = head(&[("grpc-encoding", "deflate")]).headers;
    let opened = open_upgrade(Some(200), &h).unwrap();
    assert_eq!(opened.into_streaming().unwrap(), Encoding::Deflate);
    let h = head(&[("grpc-status", "0")]).headers;
    let e = open_upgrade(Some(200), &h).unwrap().into_streaming().unwrap_err();
    assert_eq!(e.message, "response missing message body");
    let h = head(&[("grpc-status", "9")]).headers;
    let opened = open_upgrade(Some(200), &h).unwrap();
    assert!(matches!(&opened, OpenUpgrade::TrailersOnly(Err(_))));
    assert_eq!(opened.into_streaming().unwrap_err().code, Code::FailedPrecondition);
    assert_eq!(open_upgrade(Some(404), &h).unwrap_err().code, Code::Unimplemented);
    let e = open_upgrade(Some(200), &Headers::new()).unwrap_err();
    assert_eq!(e.code, Code::Internal);
    let h = head(&[("grpc-encoding", "br")]).headers;
    assert_eq!(
        extract_response_encoding(&h).unwrap_err().message,
        "server returned unsupported grpc-encoding \"br\""
    );
}

#[test]
fn one_response_of_a_stream() {
    let ok = trailers("0");
    assert_eq!(read_one_response(Some(Ok(1)), None, Some(&ok)).unwrap(), 1);
    let e = read_one_response(Some(Ok(1)), Some(Ok(2)), Some(&ok)).unwrap_err();
    assert_eq!(e.message, "expected one response message, got multiple");
    let e = read_one_response::<u8>(None, None, Some(&ok)).unwrap_err();
    assert_eq!(e.message, "response missing message body");
    let e = read_one_response::<u8>(None, None, Some(&trailers("8"))).unwrap_err();
    assert_eq!(e.code, Code::ResourceExhausted);
    let e = read_one_response::<u8>(Some(Err(Status::aborted("a"))), None, None).unwrap_err();
    assert_eq!(e.code, Code::Aborted);
    assert_eq!(
        finish_with_trailers(None).unwrap_err().message,
        "stream ended without grpc-status trailer"
    );
}

#[test]
fn reader_turns() {
    let ok = trailers("0");
    assert!(matches!(read_loop(Ok(Some(Ok(3))), None), LoopStep::Forward(3)));
    let step = read_loop::<u8>(Err(Status::deadline_exceeded("deadline elapsed")), None);
    assert!(matches!(step, LoopStep::Last(s) if s.code == Code::DeadlineExceeded));
    let step = read_loop::<u8>(Ok(Some(Err(Status::internal("x")))), None);
    assert!(matches!(step, LoopStep::Last(_)));
    assert!(matches!(read_loop::<u8>(Ok(None), Some(&ok)), LoopStep::Stop));
    assert!(matches!(read_loop::<u8>(Ok(None), None), LoopStep::Last(_)));
    assert!(matches!(trailers_only::<u8>(Ok(())), LoopStep::Stop));
    assert!(matches!(trailers_only::<u8>(Err(Status::internal("x"))), LoopStep::Last(_)));
}

#[test]
fn request_headers_of_an_opened_stream() {
    let mut headers = Headers::new();
    assert!(!grpc_request(&Headers::new(), &mut headers, "json"));
    assert_eq!(headers.get_str("content-type"), Some("application/grpc+json"));
    assert_eq!(headers.get_str("te"), Some("trailers"));
    let mut defaults = Headers::new();
    defaults.insert("x-trillium-grpc-version", "h3");
    assert!(grpc_request(&defaults, &mut headers, "json"));
}
