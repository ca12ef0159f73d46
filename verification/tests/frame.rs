use trillium_grpc::frame::reader::{MessageStream, NextStep, ReadEvent};
use trillium_grpc::frame::writer::{encode_frame, encode_payload};
use trillium_grpc::frame::PREFIX_LEN;
use trillium_grpc::{Code, Encoding, Prost};

/// Build a single framed message: [compressed=0, len BE u32, payload].
fn frame(payload: &[u8]) -> Vec<u8> {
    let mut out = Vec::with_capacity(PREFIX_LEN + payload.len());
    out.push(0); // compressed flag
    out.extend_from_slice(&(payload.len() as u32).to_be_bytes());
    out.extend_from_slice(payload);
    out
}

type Stream<'a> = MessageStream<Prost, Vec<u8>, &'a [u8]>;

#[test]
fn empty_input_yields_none() {
    let bytes: &[u8] = &[];
    let mut s = Stream::new(bytes);
    assert!(s.next().is_none());
}

#[test]
fn single_empty_message() {
    let body = frame(&[]);
    let mut s = Stream::new(&body[..]);
    // Vec<u8> as a prost Message decodes from empty bytes to empty Vec
    let msg = s.next().unwrap().unwrap();
    assert!(msg.is_empty());
    assert!(s.next().is_none());
}

#[test]
fn multiple_messages() {
    // Vec<u8> as a prost top-level Message: a `bytes` field at tag 1.
    // Encoding: tag byte 0x0A, then varint-len, then payload.
    // For payload b"hi": [0x0A, 0x02, b'h', b'i']
    let mut body = Vec::new();
    body.extend_from_slice(&frame(&[0x0A, 0x02, b'h', b'i']));
    body.extend_from_slice(&frame(&[0x0A, 0x03, b'b', b'y', b'e']));

    let mut s = Stream::new(&body[..]);
    let m1 = s.next().unwrap().unwrap();
    let m2 = s.next().unwrap().unwrap();
    assert_eq!(m1, b"hi");
    assert_eq!(m2, b"bye");
    assert!(s.next().is_none());
}

#[test]
fn partial_prefix_at_eof_is_error() {
    let body = [0u8, 0u8, 0u8]; // 3 of 5 prefix bytes
    let mut s = Stream::new(&body[..]);
    let err = s.next().unwrap().unwrap_err();
    assert_eq!(err.code, Code::Internal);
    assert!(s.next().is_none());
}

#[test]
fn partial_payload_at_eof_is_error() {
    let mut body = Vec::new();
    body.push(0); // compressed
    body.extend_from_slice(&10u32.to_be_bytes()); // claim 10 bytes
    body.extend_from_slice(&[1, 2, 3]); // only deliver 3
    let mut s = Stream::new(&body[..]);
    let err = s.next().unwrap().unwrap_err();
    assert_eq!(err.code, Code::Internal);
}

#[test]
fn oversized_message_is_resource_exhausted() {
    let mut body = Vec::new();
    body.push(0);
    body.extend_from_slice(&100u32.to_be_bytes());
    let mut s = Stream::new(&body[..]).with_max_message_size(50);
    let err = s.next().unwrap().unwrap_err();
    assert_eq!(err.code, Code::ResourceExhausted);
}

#[test]
fn compressed_flag_with_identity_encoding_is_internal() {
    // Peer set the Compressed-Flag but we negotiated no encoding:
    // protocol error.
    let mut body = Vec::new();
    body.push(1); // compressed
    body.extend_from_slice(&0u32.to_be_bytes());
    let mut s = Stream::new(&body[..]);
    let err = s.next().unwrap().unwrap_err();
    assert_eq!(err.code, Code::Internal);
}

#[test]
fn compressed_frame_decompressed_with_gzip() {
    // Frame body: gzip-compressed prost-encoded `Vec<u8>` of b"hi".
    let inner = [0x0Au8, 0x02, b'h', b'i'];
    let compressed = Encoding::Gzip.compress(&inner).unwrap();

    let mut body = Vec::new();
    body.push(1); // compressed flag
    body.extend_from_slice(&(compressed.len() as u32).to_be_bytes());
    body.extend_from_slice(&compressed);

    let mut s = Stream::new(&body[..]).with_encoding(Encoding::Gzip);
    let msg = s.next().unwrap().unwrap();
    assert_eq!(msg, b"hi");
}

#[test]
fn codec_decode_failure_propagates_invalid_argument() {
    // 0xFF is an invalid prost tag (non-terminating varint).
    let body = frame(&[0xFF, 0xFF, 0xFF, 0xFF]);
    let mut s = Stream::new(&body[..]);
    let err = s.next().unwrap().unwrap_err();
    assert_eq!(err.code, Code::InvalidArgument);
}

#[test]
fn encode_single_frame_identity() {
    let buf = encode_frame::<Prost, Vec<u8>>(&b"hi".to_vec(), Encoding::Identity).unwrap();
    // Vec<u8> as a top-level prost Message is bytes-tagged: tag 0x0A, len 2, "hi"
    assert_eq!(buf, frame(&[0x0A, 0x02, b'h', b'i']));
}

#[test]
fn encode_single_frame_gzip_sets_compressed_flag() {
    let buf = encode_frame::<Prost, Vec<u8>>(&b"hi".to_vec(), Encoding::Gzip).unwrap();
    assert_eq!(buf[0], 1, "compressed flag");
    // Round-trip the payload to confirm it's actually gzip-compressed.
    let len = u32::from_be_bytes([buf[1], buf[2], buf[3], buf[4]]) as usize;
    let payload = &buf[PREFIX_LEN..PREFIX_LEN + len];
    let decoded = Encoding::Gzip.decompress(payload, 1024).unwrap();
    assert_eq!(decoded, [0x0A, 0x02, b'h', b'i']);
}

#[test]
fn errors_in_a_message_do_not_end_the_stream() {
    let mut body = frame(&[0xFF, 0xFF, 0xFF, 0xFF]);
    body.extend_from_slice(&frame(&[0x0A, 0x01, b'x']));
    let mut s = Stream::new(&body[..]);
    assert!(s.next().unwrap().is_err());
    assert_eq!(s.next().unwrap().unwrap(), b"x");
    assert!(s.next().is_none());
}

#[test]
fn refusals_say_why_and_end_the_stream() {
    let mut body = vec![0u8];
    body.extend_from_slice(&51u32.to_be_bytes());
    body.extend_from_slice(&[0; 51]);
    let mut s = Stream::new(&body[..]).with_max_message_size(50);
    let err = s.next().unwrap().unwrap_err();
    assert_eq!(err.message, "received message of 51 bytes exceeds limit of 50");
    assert!(s.next().is_none());

    let mut s = Stream::new(&[0u8, 0, 0][..]);
    assert_eq!(
        s.next().unwrap().unwrap_err().message,
        "unexpected EOF in frame prefix"
    );

    let mut s = Stream::new(&[0u8, 0, 0, 0, 2, 9][..]);
    assert_eq!(
        s.next().unwrap().unwrap_err().message,
        "unexpected EOF in frame payload"
    );
    assert!(s.next().is_none());
}

#[test]
fn byte_by_byte_reads_give_the_same_messages() {
    let mut body = frame(&[0x0A, 0x02, b'h', b'i']);
    body.extend_from_slice(&frame(&[]));
    body.extend_from_slice(&frame(&[0x0A, 0x03, b'b', b'y', b'e']));
    let mut s: MessageStream<Prost, Vec<u8>, ()> = MessageStream::new(());
    let mut messages = Vec::new();
    for b in &body {
        match s.absorb(ReadEvent::Data(vec![*b])) {
            NextStep::Read(n) => assert_eq!(s.wanted(), Some(n)),
            NextStep::Item(item) => messages.push(item.unwrap()),
            NextStep::End => panic!("ended early"),
        }
    }
    assert!(matches!(s.absorb(ReadEvent::Data(Vec::new())), NextStep::End));
    assert_eq!(messages, vec![b"hi".to_vec(), Vec::new(), b"bye".to_vec()]);
    assert_eq!(s.wanted(), None);
}

#[test]
fn a_failed_read_is_unavailable() {
    let mut s: MessageStream<Prost, Vec<u8>, ()> = MessageStream::new(());
    match s.absorb(ReadEvent::Failed("broken pipe".to_owned())) {
        NextStep::Item(Err(status)) => {
            assert_eq!(status.code, Code::Unavailable);
            assert_eq!(status.message, "read error: broken pipe");
        }
        _ => panic!("expected a status"),
    }
    assert_eq!(s.wanted(), None);
}

#[test]
fn what_encode_payload_writes_is_read_back() {
    for encoding in Encoding::ALL {
        let payload = [0x0Au8, 0x02, b'h', b'i'];
        let mut body = encode_payload(&payload, encoding).unwrap();
        body.extend_from_slice(&encode_payload(&payload, Encoding::Identity).unwrap());
        let mut s = Stream::new(&body[..]).with_encoding(encoding);
        assert_eq!(s.next().unwrap().unwrap(), b"hi");
        assert_eq!(s.next().unwrap().unwrap(), b"hi");
        assert!(s.next().is_none());
    }
}

#[test]
fn a_list_of_messages_is_read_back_through_every_codec() {
    let messages: Vec<Vec<u8>> = vec![
        b"first".to_vec(),
        Vec::new(),
        b"again and again ".repeat(100),
        vec![0, 255, 10],
    ];
    for encoding in Encoding::ALL {
        let mut body = Vec::new();
        for message in &messages {
            body.extend(encode_frame::<Prost, Vec<u8>>(message, encoding).unwrap());
        }
        let mut s = Stream::new(&body[..]).with_encoding(encoding).with_max_message_size(2000);
        for message in &messages {
            assert_eq!(&s.next().unwrap().unwrap(), message);
        }
        assert!(s.next().is_none());
        assert!(s.next().is_none());
    }
}
