use trillium_grpc::{Metadata, MetadataError};
use trillium_http::Headers;

#[test]
fn insert_and_get_ascii() {
    let mut m = Metadata::new();
    m.insert_ascii("trace-id", "abc123").unwrap();
    assert_eq!(m.get_ascii("trace-id"), Some("abc123"));
    assert_eq!(m.get_binary("trace-id"), None);
}

#[test]
fn insert_and_get_binary() {
    let mut m = Metadata::new();
    m.insert_binary("token-bin", vec![1, 2, 3, 0xFF]).unwrap();
    assert_eq!(m.get_binary("token-bin"), Some(&[1, 2, 3, 0xFF][..]));
    assert_eq!(m.get_ascii("token-bin"), None);
}

#[test]
fn rejects_uppercase_key() {
    let mut m = Metadata::new();
    let err = m.insert_ascii("Trace-Id", "x").unwrap_err();
    assert!(matches!(err, MetadataError::InvalidKey(_)));
}

#[test]
fn rejects_invalid_key_chars() {
    let mut m = Metadata::new();
    assert!(matches!(
        m.insert_ascii("trace id", "x"),
        Err(MetadataError::InvalidKey(_))
    ));
    assert!(matches!(
        m.insert_ascii("trace/id", "x"),
        Err(MetadataError::InvalidKey(_))
    ));
    assert!(matches!(
        m.insert_ascii("", "x"),
        Err(MetadataError::InvalidKey(_))
    ));
}

#[test]
fn rejects_reserved_keys() {
    let mut m = Metadata::new();
    assert!(matches!(
        m.insert_ascii("grpc-status", "0"),
        Err(MetadataError::ReservedKey(_))
    ));
    assert!(matches!(
        m.insert_ascii("content-type", "x"),
        Err(MetadataError::ReservedKey(_))
    ));
    assert!(matches!(
        m.insert_binary("grpc-status-details-bin", vec![0]),
        Err(MetadataError::ReservedKey(_))
    ));
}

#[test]
fn ascii_key_cannot_end_in_bin() {
    let mut m = Metadata::new();
    let err = m.insert_ascii("token-bin", "x").unwrap_err();
    assert!(matches!(err, MetadataError::AsciiKeyHasBinSuffix(_)));
}

#[test]
fn binary_key_must_end_in_bin() {
    let mut m = Metadata::new();
    let err = m.insert_binary("token", vec![1, 2, 3]).unwrap_err();
    assert!(matches!(err, MetadataError::BinaryKeyMissingBinSuffix(_)));
}

#[test]
fn rejects_non_printable_ascii_value() {
    let mut m = Metadata::new();
    assert!(matches!(
        m.insert_ascii("trace-id", "line1\nline2"),
        Err(MetadataError::InvalidAsciiValue)
    ));
    assert!(matches!(
        m.insert_ascii("trace-id", "café"),
        Err(MetadataError::InvalidAsciiValue)
    ));
}

#[test]
fn round_trip_through_headers() {
    let mut m = Metadata::new();
    m.insert_ascii("trace-id", "abc").unwrap();
    m.insert_ascii("trace-id", "def").unwrap();
    m.insert_binary("token-bin", vec![0, 1, 2, 0xFF]).unwrap();

    let mut headers = Headers::new();
    m.write_into(&mut headers);

    let parsed = Metadata::from_headers(&headers);
    let entries: Vec<_> = parsed
        .iter()
        .into_iter()
        .map(|(k, v)| (k, v.clone()))
        .collect();

    let trace_ids: Vec<_> = entries
        .iter()
        .filter(|(k, _)| *k == "trace-id")
        .filter_map(|(_, v)| v.as_ascii())
        .collect();
    assert_eq!(trace_ids, vec!["abc", "def"]);

    let token = entries
        .iter()
        .find(|(k, _)| *k == "token-bin")
        .and_then(|(_, v)| v.as_binary())
        .unwrap();
    assert_eq!(token, &[0, 1, 2, 0xFF]);
}

#[test]
fn from_headers_skips_reserved() {
    let mut headers = Headers::new();
    headers.append("grpc-status", "0");
    headers.append("content-type", "application/grpc");
    headers.append("trace-id", "abc");
    let m = Metadata::from_headers(&headers);
    assert_eq!(m.len(), 1);
    assert_eq!(m.get_ascii("trace-id"), Some("abc"));
}

#[test]
fn from_headers_skips_undecodable_bin() {
    let mut headers = Headers::new();
    headers.append("token-bin", "not!valid!base64!");
    let m = Metadata::from_headers(&headers);
    assert!(m.is_empty());
}

#[test]
fn from_headers_lowercases_names_and_skips_bytes_that_are_not_text() {
    let mut headers = Headers::new();
    headers.append("Retry-After", "30");
    headers.append("X-Blob", vec![0xFFu8, 0xFE]);
    headers.append("x-blob", "text");
    let m = Metadata::from_headers(&headers);
    assert_eq!(m.get_ascii("retry-after"), Some("30"));
    assert_eq!(m.get_ascii("x-blob"), Some("text"));
    assert_eq!(m.len(), 2);
}

#[test]
fn base64_must_be_canonical() {
    for (text, bytes) in [
        ("AAEC/w==", Some(vec![0u8, 1, 2, 0xFF])),
        ("AAEC/w", None),
        ("AAEC/x==", None),
        ("", Some(vec![])),
        ("YQ==", Some(b"a".to_vec())),
        ("YWI=", Some(b"ab".to_vec())),
        ("YWJj", Some(b"abc".to_vec())),
    ] {
        let mut headers = Headers::new();
        headers.append("t-bin", text.to_owned());
        let m = Metadata::from_headers(&headers);
        assert_eq!(m.get_binary("t-bin"), bytes.as_deref(), "{text:?}");
    }
}

#[test]
fn binary_values_are_written_in_base64() {
    let mut m = Metadata::new();
    m.insert_binary("t-bin", vec![0xFB, 0xEF, 0xBE, 0x00]).unwrap();
    let mut headers = Headers::new();
    m.write_into(&mut headers);
    assert_eq!(headers.get_str("t-bin"), Some("++++AA=="));
}

#[test]
fn first_value_wins_on_lookup() {
    let mut m = Metadata::new();
    m.insert_ascii("k", "one").unwrap();
    m.insert_ascii("k", "two").unwrap();
    assert_eq!(m.get_ascii("k"), Some("one"));
    assert_eq!(m.get_ascii("absent"), None);
    assert_eq!(m.clone().len(), 2);
}

#[test]
fn refused_entries_leave_the_metadata_unchanged() {
    let mut m = Metadata::new();
    m.insert_ascii("k", "v").unwrap();
    assert!(m.insert_ascii("te", "trailers").is_err());
    assert!(m.insert_binary("k", vec![]).is_err());
    assert_eq!(m.len(), 1);
}

#[test]
fn error_messages() {
    let mut m = Metadata::new();
    assert_eq!(
        m.insert_ascii("A b", "x").unwrap_err().message(),
        "metadata key \"A b\" contains invalid characters (must match [0-9a-z_\\-.]+)"
    );
    assert_eq!(
        m.insert_ascii("host", "x").unwrap_err().message(),
        "metadata key \"host\" is reserved by the gRPC framework"
    );
    assert_eq!(
        m.insert_ascii("a-bin", "x").unwrap_err().message(),
        "ASCII metadata key \"a-bin\" must not end in -bin"
    );
    assert_eq!(
        m.insert_binary("a", vec![]).unwrap_err().message(),
        "binary metadata key \"a\" must end in -bin"
    );
    assert_eq!(
        m.insert_ascii("a", "\t").unwrap_err().message(),
        "ASCII metadata value contains non-printable bytes"
    );
}

#[test]
fn no_entry_is_lost_in_a_header_map() {
    let mut m = Metadata::new();
    for (key, value) in [("a", "1"), ("b", "2"), ("a", "1"), ("c", ""), ("b", "3")] {
        m.insert_ascii(key, value).unwrap();
    }
    m.insert_binary("d-bin", Vec::new()).unwrap();
    let mut headers = Headers::new();
    headers.insert("grpc-status", "0");
    m.write_into(&mut headers);
    assert_eq!(Metadata::from_headers(&headers).iter().len(), 6);
}
