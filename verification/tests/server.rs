//! The server half: preflight, negotiation, the shapes of a call, and response
//! bodies.

use std::time::Duration;
use trillium_grpc::frame::reader::ReadEvent;
use trillium_grpc::frame::writer::encode_frame;
use trillium_grpc::server::bidi::{after_prologue, after_setup, finish_bidi, Continuation};
use trillium_grpc::server::body::{BodyStep, OneShotBody, StreamBody, StreamEvent};
use trillium_grpc::server::dispatch::{
    begin_call, error_response, error_response_with_trailers, extract_request_encoding,
    extract_timeout, finish_unary, negotiate_response_encoding, prepare_grpc_conn, race_outcome,
    OneRequest, OneRequestStep, Race,
};
use trillium_grpc::server::streaming::{ChannelStep, RecvStep};
use trillium_grpc::{
    Channel, Code, Encoding, GrpcServerConn, Prost, RequestStream, Status,
};
use trillium_http::Headers;

fn headers_with(accept: &str) -> Headers {
    let mut h = Headers::new();
    h.insert("grpc-accept-encoding", accept.to_owned());
    h
}

#[test]
fn no_accept_header_falls_back_to_identity() {
    assert_eq!(
        negotiate_response_encoding(&Headers::new()),
        Encoding::Identity
    );
}

#[test]
fn identity_only_means_identity() {
    assert_eq!(
        negotiate_response_encoding(&headers_with("identity")),
        Encoding::Identity
    );
}

#[test]
fn picks_gzip_when_offered() {
    assert_eq!(
        negotiate_response_encoding(&headers_with("identity, gzip")),
        Encoding::Gzip
    );
}

#[test]
fn prefers_build_order_over_client_order() {
    assert_eq!(
        negotiate_response_encoding(&headers_with("zstd, gzip")),
        Encoding::Gzip
    );
}

#[test]
fn ignores_unknown_codecs() {
    assert_eq!(
        negotiate_response_encoding(&headers_with("snappy, gzip")),
        Encoding::Gzip
    );
    assert_eq!(
        negotiate_response_encoding(&headers_with("snappy")),
        Encoding::Identity
    );
}

fn request(content_type: &'static str) -> Headers {
    let mut h = Headers::new();
    h.insert("content-type", content_type);
    h.insert("te", "trailers");
    h
}

#[test]
fn preflight_accepts_and_sets_headers() {
    let mut req = request("application/grpc");
    let mut resp = Headers::new();
    resp.insert("x-kept", "1");
    assert_eq!(prepare_grpc_conn(&req, &mut resp, "proto"), Ok(200));
    assert_eq!(resp.get_str("content-type"), Some("application/grpc+proto"));
    assert_eq!(
        resp.get_str("grpc-accept-encoding"),
        Some("identity,gzip,deflate,zstd")
    );
    assert_eq!(resp.get_str("grpc-encoding"), None);
    assert_eq!(resp.get_str("x-kept"), Some("1"));

    req.insert("grpc-accept-encoding", "zstd");
    assert_eq!(prepare_grpc_conn(&req, &mut resp, "proto"), Ok(200));
    assert_eq!(resp.get_str("grpc-encoding"), Some("zstd"));
}

#[test]
fn preflight_refusals() {
    let mut resp = Headers::new();
    assert_eq!(
        prepare_grpc_conn(&request("text/plain"), &mut resp, "proto"),
        Err(415)
    );
    assert_eq!(
        prepare_grpc_conn(&request("application/grpc+json"), &mut resp, "proto"),
        Err(415)
    );
    assert_eq!(prepare_grpc_conn(&Headers::new(), &mut resp, "proto"), Err(415));
    let mut no_te = Headers::new();
    no_te.insert("content-type", "application/grpc");
    assert_eq!(prepare_grpc_conn(&no_te, &mut resp, "proto"), Err(400));
    assert_eq!(resp.len(), 0);
}

#[test]
fn request_encoding_and_timeout() {
    let mut h = Headers::new();
    assert_eq!(extract_request_encoding(&h).unwrap(), Encoding::Identity);
    assert_eq!(extract_timeout(&h).unwrap(), None);
    h.insert("grpc-encoding", "gzip");
    h.insert("grpc-timeout", "250m");
    assert_eq!(extract_request_encoding(&h).unwrap(), Encoding::Gzip);
    assert_eq!(extract_timeout(&h).unwrap(), Some(Duration::from_millis(250)));

    h.insert("grpc-encoding", "snappy");
    let err = extract_request_encoding(&h).unwrap_err();
    assert_eq!(err.code, Code::Unimplemented);
    assert!(err.message.contains("\"snappy\""));
    h.insert("grpc-timeout", "soon");
    let err = extract_timeout(&h).unwrap_err();
    assert_eq!(err.code, Code::InvalidArgument);
    assert_eq!(err.message, "malformed grpc-timeout \"soon\"");
}

#[test]
fn begin_call_reads_or_refuses() {
    let mut h = headers_with("gzip");
    h.insert("grpc-timeout", "2S");
    let setup = begin_call(&h).ok().unwrap();
    assert_eq!(setup.request_encoding, Encoding::Identity);
    assert_eq!(setup.timeout, Some(Duration::from_secs(2)));
    assert_eq!(setup.response_encoding, Encoding::Gzip);

    h.insert("grpc-timeout", "x");
    let mut body = begin_call(&h).err().unwrap();
    assert!(body.read(8).is_empty());
    let trailers = body.trailers().unwrap();
    assert_eq!(trailers.get_str("grpc-status"), Some("3"));
    assert!(body.trailers().is_none());

    h.insert("grpc-encoding", "snappy");
    let mut body = begin_call(&h).err().unwrap();
    assert_eq!(
        body.trailers().unwrap().get_str("grpc-status"),
        Some("12")
    );
}

fn step(read: OneRequest<u8>, item: Result<Option<u8>, Status>) -> OneRequestStep<u8> {
    read.received(item)
}

#[test]
fn exactly_one_request() {
    let OneRequestStep::Receive(read) = step(OneRequest::new(), Ok(Some(7))) else {
        panic!("one more read is owed");
    };
    let OneRequestStep::Done(result) = step(read, Ok(None)) else {
        panic!("the stream has ended");
    };
    assert_eq!(result.unwrap(), 7);
}

#[test]
fn other_numbers_of_requests_are_unimplemented() {
    let OneRequestStep::Done(Err(e)) = step(OneRequest::new(), Ok(None)) else {
        panic!("an empty stream is an error");
    };
    assert_eq!(e.code, Code::Unimplemented);
    assert!(e.message.ends_with("was empty"));

    let OneRequestStep::Receive(read) = step(OneRequest::new(), Ok(Some(7))) else {
        panic!("one more read is owed");
    };
    let OneRequestStep::Done(Err(e)) = step(read, Ok(Some(8))) else {
        panic!("a second message is an error");
    };
    assert_eq!(e.code, Code::Unimplemented);
    assert!(e.message.ends_with("had more than one"));

    let OneRequestStep::Done(Err(e)) = step(OneRequest::new(), Err(Status::data_loss("x"))) else {
        panic!("a failed read is an error");
    };
    assert_eq!(e.code, Code::DataLoss);
}

#[test]
fn race_outcomes() {
    assert_eq!(race_outcome(Race::Finished(Ok(3))).unwrap(), 3);
    let e = race_outcome::<u8>(Race::ShuttingDown).unwrap_err();
    assert_eq!((e.code, e.message.as_str()), (Code::Cancelled, "connection shutting down"));
    let e = race_outcome::<u8>(Race::DeadlinePassed).unwrap_err();
    assert_eq!((e.code, e.message.as_str()), (Code::DeadlineExceeded, "deadline elapsed"));
}

#[test]
fn unary_response_is_one_frame_and_ok_trailers() {
    let mut trailers = Headers::new();
    trailers.insert("x-trailing", "t");
    let mut body =
        finish_unary::<Prost, Vec<u8>>(Ok(b"hi".to_vec()), Encoding::Identity, trailers);
    assert_eq!(body.read(3), [0, 0, 0]);
    assert_eq!(body.read(100), [0, 4, 10, 2, b'h', b'i']);
    assert!(body.read(100).is_empty());
    let trailers = body.trailers().unwrap();
    assert_eq!(trailers.get_str("grpc-status"), Some("0"));
    assert_eq!(trailers.get_str("x-trailing"), Some("t"));
}

#[test]
fn unary_error_is_an_empty_body() {
    let mut trailers = Headers::new();
    trailers.insert("x-trailing", "t");
    let result: Result<Vec<u8>, Status> = Err(Status::not_found("no such thing"));
    let mut body = finish_unary::<Prost, Vec<u8>>(result, Encoding::Gzip, trailers);
    assert!(body.read(1).is_empty());
    let trailers = body.trailers().unwrap();
    assert_eq!(trailers.get_str("grpc-status"), Some("5"));
    assert_eq!(trailers.get_str("grpc-message"), Some("no such thing"));
    assert_eq!(trailers.get_str("x-trailing"), Some("t"));
}

#[test]
fn error_responses() {
    let mut body = error_response(Status::aborted("a"));
    assert_eq!(body.trailers().unwrap().get_str("grpc-status"), Some("10"));
    let mut base = Headers::new();
    base.insert("x", "y");
    let mut body = error_response_with_trailers(Status::aborted("a"), base);
    assert_eq!(body.trailers().unwrap().get_str("x"), Some("y"));
    let mut whole = OneShotBody::new(vec![1, 2, 3], Headers::new());
    assert_eq!(whole.read(0).len(), 0);
    assert_eq!(whole.read(3), [1, 2, 3]);
}

fn poll(body: &mut StreamBody, event: StreamEvent<Vec<u8>>) {
    assert!(matches!(body.read(16), BodyStep::Poll));
    body.polled::<Prost, Vec<u8>>(event);
}

#[test]
fn stream_body_delivers_frames_in_order() {
    let mut body = StreamBody::new(Encoding::Identity, Headers::new());
    poll(&mut body, StreamEvent::Item(Ok(b"ab".to_vec())));
    let BodyStep::Bytes(first) = body.read(5) else { panic!("bytes are pending") };
    assert_eq!(first, [0, 0, 0, 0, 4]);
    let BodyStep::Bytes(rest) = body.read(100) else { panic!("bytes are pending") };
    assert_eq!(rest, [10, 2, b'a', b'b']);
    poll(&mut body, StreamEvent::Item(Ok(Vec::new())));
    let BodyStep::Bytes(empty) = body.read(100) else { panic!("bytes are pending") };
    assert_eq!(empty, [0, 0, 0, 0, 0]);
    poll(&mut body, StreamEvent::Ended);
    assert!(matches!(body.read(100), BodyStep::Bytes(b) if b.is_empty()));
    assert_eq!(body.trailers().get_str("grpc-status"), Some("0"));
}

#[test]
fn stream_body_ends_with_its_status() {
    let mut base = Headers::new();
    base.insert("x", "y");
    let mut body = StreamBody::new(Encoding::Identity, base);
    poll(&mut body, StreamEvent::Item(Err(Status::internal("broken"))));
    assert!(matches!(body.read(100), BodyStep::Bytes(b) if b.is_empty()));
    let trailers = body.trailers();
    assert_eq!(trailers.get_str("grpc-status"), Some("13"));
    assert_eq!(trailers.get_str("x"), Some("y"));

    let mut body = StreamBody::new(Encoding::Identity, Headers::new());
    poll(&mut body, StreamEvent::Cancelled(Status::cancelled("connection shutting down")));
    assert_eq!(body.trailers().get_str("grpc-status"), Some("1"));
}

#[test]
fn grpc_conn_surface() {
    let mut req = Headers::new();
    req.insert("grpc-timeout", "1S");
    req.insert("x-meta", "m");
    let mut conn: GrpcServerConn<Prost> =
        GrpcServerConn::new(req, Headers::new(), Encoding::Identity);
    assert_eq!(conn.received_headers().get_str("x-meta"), Some("m"));
    assert_eq!(conn.timeout(), Some(Duration::from_secs(1)));
    conn.response_headers_mut().insert("a", "1");
    conn.response_trailers_mut().insert("b", "2");
    let mut requests: RequestStream<Prost, Vec<u8>> = conn.requests::<Vec<u8>>();
    assert!(matches!(requests.recv(), RecvStep::Read(5)));
    let step = requests.absorb(ReadEvent::Data(vec![0, 0, 0, 0, 3]));
    assert!(matches!(step, RecvStep::Read(3)));
    let step = requests.absorb(ReadEvent::Data(vec![10, 1, b'z']));
    assert!(matches!(step, RecvStep::Done(Ok(Some(m))) if m == b"z"));
    let step = requests.absorb(ReadEvent::Data(Vec::new()));
    assert!(matches!(step, RecvStep::Done(Ok(None))));
    let (headers, trailers) = conn.into_parts();
    assert_eq!(headers.get_str("a"), Some("1"));
    assert_eq!(trailers.get_str("b"), Some("2"));
}

#[test]
fn malformed_timeout_is_no_timeout_on_the_surface() {
    let mut req = Headers::new();
    req.insert("grpc-timeout", "never");
    let conn: GrpcServerConn<Prost> = GrpcServerConn::new(req, Headers::new(), Encoding::Identity);
    assert_eq!(conn.timeout(), None);
}

#[test]
fn channel_reads_and_writes() {
    let mut channel = Channel::new(Headers::new(), Encoding::Identity, Encoding::Identity);
    channel.response_trailers_mut().insert("t", "1");
    assert!(matches!(channel.recv::<Vec<u8>>(), ChannelStep::Read(5)));
    let step = channel.absorb::<Prost, Vec<u8>>(ReadEvent::Data(vec![0, 0, 0, 0, 0]));
    assert!(matches!(step, ChannelStep::Done(Some(Ok(m))) if m.is_empty()));
    assert_eq!(
        channel.send::<Prost, Vec<u8>>(&b"q".to_vec()).unwrap(),
        [0, 0, 0, 0, 3, 10, 1, b'q']
    );
    let step = channel.absorb::<Prost, Vec<u8>>(ReadEvent::Failed("gone".to_string()));
    assert!(matches!(step, ChannelStep::Done(Some(Err(_)))));
    assert!(matches!(channel.recv::<Vec<u8>>(), ChannelStep::Done(None)));
    let e = Channel::write_failed("pipe");
    assert_eq!((e.code, e.message.as_str()), (Code::Unavailable, "write error: pipe"));
    assert_eq!(channel.into_trailers().get_str("t"), Some("1"));
}

#[test]
fn prologue_and_setup() {
    let Continuation::Continue(responder, channel) =
        after_prologue(Ok(5), Headers::new(), Encoding::Gzip, Encoding::Identity)
    else {
        panic!("the call goes on")
    };
    assert_eq!(responder, 5);
    assert!(matches!(channel.recv::<Vec<u8>>(), ChannelStep::Read(5)));

    let refused: Result<u8, Status> = Err(Status::unauthenticated("who"));
    let Continuation::Reply(mut body) =
        after_prologue(refused, Headers::new(), Encoding::Gzip, Encoding::Identity)
    else {
        panic!("the call is refused")
    };
    assert_eq!(body.trailers().unwrap().get_str("grpc-status"), Some("16"));

    let Continuation::Continue(stream, mut body) =
        after_setup(Ok("stream"), Encoding::Identity, Headers::new())
    else {
        panic!("the call goes on")
    };
    assert_eq!(stream, "stream");
    assert!(matches!(body.read(1), BodyStep::Poll));
    let refused: Result<u8, Status> = Err(Status::unavailable("later"));
    let Continuation::Reply(mut body) = after_setup(refused, Encoding::Identity, Headers::new())
    else {
        panic!("the call is refused")
    };
    assert_eq!(body.trailers().unwrap().get_str("grpc-status"), Some("14"));
}

#[test]
fn bidi_trailers() {
    let mut base = Headers::new();
    base.insert("x", "y");
    let trailers = finish_bidi(Ok(()), base);
    assert_eq!(trailers.get_str("grpc-status"), Some("0"));
    assert_eq!(trailers.get_str("x"), Some("y"));
    let trailers = finish_bidi(Err(Status::out_of_range("r")), Headers::new());
    assert_eq!(trailers.get_str("grpc-status"), Some("11"));
    assert_eq!(trailers.get_str("grpc-message"), Some("r"));
}

#[test]
fn a_body_is_the_frames_of_its_stream_whatever_the_reads() {
    let items: Vec<Vec<u8>> = vec![b"one".to_vec(), Vec::new(), b"three".to_vec()];
    let mut expected = Vec::new();
    for item in &items {
        expected.extend(encode_frame::<Prost, Vec<u8>>(item, Encoding::Identity).unwrap());
    }
    for size in [1, 2, 7, 64] {
        for failed in [false, true] {
            let mut base = Headers::new();
            base.insert("x-trailing", "t");
            let mut body = StreamBody::new(Encoding::Identity, base);
            let mut stream = items.clone().into_iter();
            let mut read = Vec::new();
            loop {
                match body.read(size) {
                    BodyStep::Bytes(part) if part.is_empty() => break,
                    BodyStep::Bytes(part) => read.extend(part),
                    BodyStep::Poll => body.polled::<Prost, Vec<u8>>(match stream.next() {
                        Some(item) => StreamEvent::Item(Ok(item)),
                        None if failed => StreamEvent::Item(Err(Status::aborted("cut"))),
                        None => StreamEvent::Ended,
                    }),
                }
            }
            assert_eq!(read, expected);
            assert!(matches!(body.read(size), BodyStep::Bytes(b) if b.is_empty()));
            let trailers = body.trailers();
            let status = if failed { "10" } else { "0" };
            assert_eq!(trailers.get_str("grpc-status"), Some(status));
            assert_eq!(trailers.get_str("x-trailing"), Some("t"));
        }
    }
}
