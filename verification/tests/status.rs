use trillium_grpc::status::{hex_nibble, hex_value, percent_decode, percent_encode};
use trillium_grpc::{Code, Metadata, Status};
use trillium_http::Headers;

#[test]
fn code_roundtrip() {
    for n in 0u8..=16 {
        let code = Code::from_u8(n).unwrap();
        assert_eq!(code.as_u8(), n);
    }
    assert!(Code::from_u8(17).is_none());
    assert!(Code::from_u8(255).is_none());
}

#[test]
fn status_into_from_trailers_ok() {
    let trailers = Status::ok().into_trailers();
    assert_eq!(trailers.get_str("grpc-status"), Some("0"));
    assert_eq!(trailers.get_str("grpc-message"), None);
    Status::from_trailers(&trailers).unwrap();
}

#[test]
fn status_into_from_trailers_err() {
    let original = Status::not_found("user 42 missing");
    let trailers = original.clone().into_trailers();
    assert_eq!(trailers.get_str("grpc-status"), Some("5"));
    assert_eq!(trailers.get_str("grpc-message"), Some("user 42 missing"));

    let parsed = Status::from_trailers(&trailers).unwrap_err();
    assert_eq!(parsed.code, original.code);
    assert_eq!(parsed.message, original.message);
}

#[test]
fn missing_grpc_status_is_unknown() {
    let headers = Headers::new();
    let err = Status::from_trailers(&headers).unwrap_err();
    assert_eq!(err.code, Code::Unknown);
    assert!(err.message.is_empty());
}

#[test]
fn unknown_grpc_status_value_is_unknown() {
    let mut headers = Headers::new();
    headers.insert("grpc-status", "999");
    let err = Status::from_trailers(&headers).unwrap_err();
    assert_eq!(err.code, Code::Unknown);
}

#[test]
fn percent_encode_roundtrip() {
    let cases = [
        ("hello", "hello"),
        ("hello world", "hello world"), // space is 0x20, allowed literal
        ("100%", "100%25"),
        ("\n\r\t", "%0A%0D%09"),
        ("café", "caf%C3%A9"),
        ("emoji: 🎉", "emoji: %F0%9F%8E%89"),
    ];
    for (raw, encoded) in cases {
        assert_eq!(percent_encode(raw), encoded, "encoding {raw:?}");
        assert_eq!(percent_decode(encoded), raw, "decoding {encoded:?}");
    }
}

#[test]
fn percent_decode_passes_through_invalid_sequences() {
    // Malformed %-escapes are left as-is rather than erroring.
    assert_eq!(percent_decode("100%"), "100%");
    assert_eq!(percent_decode("100%2"), "100%2");
    assert_eq!(percent_decode("100%ZZ"), "100%ZZ");
}

#[test]
fn message_omitted_when_empty() {
    let trailers = Status::cancelled("").into_trailers();
    assert_eq!(trailers.get_str("grpc-status"), Some("1"));
    assert_eq!(trailers.get_str("grpc-message"), None);
}

#[test]
fn status_round_trip_preserves_metadata() {
    let mut metadata = Metadata::new();
    metadata.insert_ascii("retry-after", "30").unwrap();
    metadata
        .insert_binary("debug-bin", vec![0xDE, 0xAD])
        .unwrap();

    let original = Status::resource_exhausted("slow down").with_metadata(metadata);
    let trailers = original.clone().into_trailers();

    let parsed = Status::from_trailers(&trailers).unwrap_err();
    assert_eq!(parsed.code, original.code);
    assert_eq!(parsed.message, original.message);
    assert_eq!(parsed.metadata.get_ascii("retry-after"), Some("30"));
    assert_eq!(
        parsed.metadata.get_binary("debug-bin"),
        Some(&[0xDE, 0xAD][..]),
    );
}

#[test]
fn percent_decode_falls_back_to_replacement_characters() {
    assert_eq!(percent_decode("bad %FF byte"), "bad \u{FFFD} byte");
    assert_eq!(percent_decode("%41%6a"), "Aj");
}

#[test]
fn grpc_status_number_forms() {
    for (text, code) in [
        ("+5", Code::NotFound),
        ("005", Code::NotFound),
        ("+", Code::Unknown),
        ("-0", Code::Unknown),
        ("", Code::Unknown),
        ("16", Code::Unauthenticated),
        ("17", Code::Unknown),
        ("256", Code::Unknown),
        ("99999999999999999999999", Code::Unknown),
    ] {
        let mut headers = Headers::new();
        headers.insert("grpc-status", text.to_owned());
        assert_eq!(Status::from_trailers(&headers).unwrap_err().code, code, "{text:?}");
    }
}

#[test]
fn grpc_status_sent_twice_is_unknown() {
    let mut headers = Headers::new();
    headers.append("grpc-status", "0");
    headers.append("grpc-status", "0");
    assert_eq!(Status::from_trailers(&headers).unwrap_err().code, Code::Unknown);
}

#[test]
fn writing_a_status_replaces_the_old_code_and_keeps_other_headers() {
    let mut headers = Headers::new();
    headers.insert("Grpc-Status", "0");
    headers.insert("x-other", "kept");
    Status::data_loss("gone").write_into(&mut headers);
    assert_eq!(headers.get_str("grpc-status"), Some("15"));
    assert_eq!(headers.get_str("x-other"), Some("kept"));
}

#[test]
fn constructors_set_their_codes() {
    let cases = [
        (Status::cancelled("m"), Code::Cancelled),
        (Status::unknown("m"), Code::Unknown),
        (Status::invalid_argument("m"), Code::InvalidArgument),
        (Status::deadline_exceeded("m"), Code::DeadlineExceeded),
        (Status::not_found("m"), Code::NotFound),
        (Status::already_exists("m"), Code::AlreadyExists),
        (Status::permission_denied("m"), Code::PermissionDenied),
        (Status::resource_exhausted("m"), Code::ResourceExhausted),
        (Status::failed_precondition("m"), Code::FailedPrecondition),
        (Status::aborted("m"), Code::Aborted),
        (Status::out_of_range("m"), Code::OutOfRange),
        (Status::unimplemented("m"), Code::Unimplemented),
        (Status::internal("m"), Code::Internal),
        (Status::unavailable("m"), Code::Unavailable),
        (Status::data_loss("m"), Code::DataLoss),
        (Status::unauthenticated("m"), Code::Unauthenticated),
    ];
    for (status, code) in cases {
        assert_eq!(status.code, code);
        assert_eq!(status.message, "m");
        assert!(status.metadata.is_empty());
        assert!(!status.is_ok());
    }
    assert!(Status::ok().is_ok());
    assert_eq!(Status::new(Code::Aborted, "why").display(), "Aborted: why");
    assert_eq!(Status::ok().display(), "Ok: ");
}

#[test]
fn hexadecimal_digits() {
    assert_eq!(hex_nibble(9), '9');
    assert_eq!(hex_nibble(10), 'A');
    assert_eq!(hex_nibble(15), 'F');
    assert_eq!(hex_value(b'f'), Some(15));
    assert_eq!(hex_value(b'F'), Some(15));
    assert_eq!(hex_value(b'0'), Some(0));
    assert_eq!(hex_value(b'g'), None);
}

#[test]
fn text_without_escapes_is_its_own_decoding() {
    for text in ["", "plain", "100% of 5%", "%", "%%", "%4", "%zz", "\u{e9}%\u{1F600}"] {
        assert_eq!(percent_decode(text), text);
    }
}
