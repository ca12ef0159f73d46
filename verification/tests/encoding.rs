use trillium_grpc::encoding::DEFAULT_MAX_MESSAGE_SIZE;
use trillium_grpc::{Code, Encoding};

#[test]
fn identity_roundtrip() {
    let data = b"hello world";
    let compressed = Encoding::Identity.compress(data).unwrap();
    let decompressed = Encoding::Identity
        .decompress(&compressed, DEFAULT_MAX_MESSAGE_SIZE)
        .unwrap();
    assert_eq!(decompressed, data);
}

#[test]
fn identity_decompress_respects_max_size() {
    let data = vec![0u8; 100];
    let err = Encoding::Identity.decompress(&data, 50).unwrap_err();
    assert_eq!(err.code, Code::ResourceExhausted);
}

#[test]
fn from_grpc_encoding_identity_always_recognized() {
    assert_eq!(
        Encoding::from_grpc_encoding("identity"),
        Some(Encoding::Identity)
    );
}

#[test]
fn from_grpc_encoding_unknown_returns_none() {
    assert!(Encoding::from_grpc_encoding("snappy").is_none());
    assert!(Encoding::from_grpc_encoding("").is_none());
    assert!(Encoding::from_grpc_encoding("GZIP").is_none()); // case-sensitive
}

#[test]
fn accepted_encodings_starts_with_identity() {
    assert!(Encoding::accepted_encodings().starts_with("identity"));
}

#[test]
fn encoding_parse_and_serialize() {
    assert_eq!(Encoding::from_grpc_encoding("gzip"), Some(Encoding::Gzip));
    assert_eq!(Encoding::Gzip.as_grpc_encoding(), "gzip");
    assert!(Encoding::accepted_encodings().contains("gzip"));

    assert_eq!(
        Encoding::from_grpc_encoding("deflate"),
        Some(Encoding::Deflate)
    );
    assert_eq!(Encoding::Deflate.as_grpc_encoding(), "deflate");

    assert_eq!(Encoding::from_grpc_encoding("zstd"), Some(Encoding::Zstd));
    assert_eq!(Encoding::Zstd.as_grpc_encoding(), "zstd");
}

#[test]
fn encoding_roundtrip() {
    let data = b"hello, gzip-compressed world! ".repeat(100);
    let compressed = Encoding::Gzip.compress(&data).unwrap();
    assert!(compressed.len() < data.len(), "compression had effect");
    let decompressed = Encoding::Gzip
        .decompress(&compressed, DEFAULT_MAX_MESSAGE_SIZE)
        .unwrap();
    assert_eq!(decompressed, data);

    let data = b"hello, deflate-compressed world! ".repeat(100);
    let compressed = Encoding::Deflate.compress(&data).unwrap();
    let decompressed = Encoding::Deflate
        .decompress(&compressed, DEFAULT_MAX_MESSAGE_SIZE)
        .unwrap();
    assert_eq!(decompressed, data);

    let data = b"hello, zstd-compressed world! ".repeat(100);
    let compressed = Encoding::Zstd.compress(&data).unwrap();
    let decompressed = Encoding::Zstd
        .decompress(&compressed, DEFAULT_MAX_MESSAGE_SIZE)
        .unwrap();
    assert_eq!(decompressed, data);
}

#[test]
fn decompress_respects_max_size() {
    // 100 KB of 'a' compresses well; decompressed size > 1 KB cap.
    let data = vec![b'a'; 100 * 1024];
    let compressed = Encoding::Gzip.compress(&data).unwrap();
    let err = Encoding::Gzip.decompress(&compressed, 1024).unwrap_err();
    assert_eq!(err.code, Code::ResourceExhausted);
}

#[test]
fn every_codec_restores_at_the_cap_and_refuses_below_it() {
    let data = b"abcabcabcabc".repeat(50);
    for encoding in Encoding::ALL {
        let packed = encoding.compress(&data).unwrap();
        if encoding != Encoding::Identity {
            assert_ne!(packed, data);
        }
        assert_eq!(encoding.decompress(&packed, data.len()).unwrap(), data);
        assert_eq!(encoding.decompress(&packed, usize::MAX).unwrap(), data);
        let err = encoding.decompress(&packed, data.len() - 1).unwrap_err();
        assert_eq!(err.code, Code::ResourceExhausted);
        assert_eq!(err.message, "decompressed message exceeds limit of 599 bytes");
    }
}

#[test]
fn garbage_is_an_internal_error_with_the_codec_in_the_message() {
    for (encoding, prefix) in [
        (Encoding::Gzip, "gzip decompress: "),
        (Encoding::Deflate, "deflate decompress: "),
        (Encoding::Zstd, "zstd decompress: "),
    ] {
        let err = encoding.decompress(&[0xFF, 0xFF, 0xFF, 0xFF], 1024).unwrap_err();
        assert_eq!(err.code, Code::Internal);
        assert!(err.message.starts_with(prefix), "{}", err.message);
        assert!(err.message.len() > prefix.len());
    }
}

#[test]
fn accepted_encodings_lists_every_codec() {
    assert_eq!(Encoding::accepted_encodings(), "identity,gzip,deflate,zstd");
}
