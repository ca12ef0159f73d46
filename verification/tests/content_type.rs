use trillium_grpc::content_type::{has_te_trailers, parse_grpc_content_type};
use trillium_http::{Headers, KnownHeaderName};


#[test]
fn bare_application_grpc_is_proto() {
    assert_eq!(parse_grpc_content_type("application/grpc").as_deref(), Some("proto"));
}

#[test]
fn proto_suffix() {
    assert_eq!(
        parse_grpc_content_type("application/grpc+proto").as_deref(),
        Some("proto")
    );
}

#[test]
fn json_suffix() {
    assert_eq!(
        parse_grpc_content_type("application/grpc+json").as_deref(),
        Some("json")
    );
}

#[test]
fn case_insensitive_prefix() {
    assert_eq!(
        parse_grpc_content_type("Application/GRPC+proto").as_deref(),
        Some("proto")
    );
}

#[test]
fn parameters_are_ignored() {
    assert_eq!(
        parse_grpc_content_type("application/grpc+proto; charset=utf-8").as_deref(),
        Some("proto")
    );
    assert_eq!(
        parse_grpc_content_type("application/grpc; encoding=identity").as_deref(),
        Some("proto")
    );
}

#[test]
fn surrounding_whitespace_trimmed() {
    assert_eq!(
        parse_grpc_content_type("  application/grpc+json  ").as_deref(),
        Some("json")
    );
}

#[test]
fn rejects_non_grpc_types() {
    assert_eq!(parse_grpc_content_type("application/json"), None);
    assert_eq!(parse_grpc_content_type("text/plain"), None);
    assert_eq!(parse_grpc_content_type(""), None);
    assert_eq!(parse_grpc_content_type("application/grpc-web"), None);
    assert_eq!(parse_grpc_content_type("application/grpcfoo"), None);
}

#[test]
fn te_trailers_present() {
    let mut headers = Headers::new();
    headers.insert(KnownHeaderName::Te, "trailers");
    assert!(has_te_trailers(&headers));
}

#[test]
fn te_trailers_case_insensitive() {
    let mut headers = Headers::new();
    headers.insert(KnownHeaderName::Te, "Trailers");
    assert!(has_te_trailers(&headers));
}

#[test]
fn te_trailers_among_other_values() {
    let mut headers = Headers::new();
    headers.insert(KnownHeaderName::Te, "gzip, trailers");
    assert!(has_te_trailers(&headers));
}

#[test]
fn te_missing_or_wrong() {
    let headers = Headers::new();
    assert!(!has_te_trailers(&headers));

    let mut headers = Headers::new();
    headers.insert(KnownHeaderName::Te, "gzip");
    assert!(!has_te_trailers(&headers));
}

#[test]
fn suffix_may_be_empty_and_unicode_space_is_trimmed() {
    assert_eq!(parse_grpc_content_type("application/grpc+").as_deref(), Some(""));
    assert_eq!(
        parse_grpc_content_type("\u{3000}application/grpc+json\u{2003};x").as_deref(),
        Some("json")
    );
    assert_eq!(parse_grpc_content_type("application/gRp").as_deref(), None);
    assert_eq!(parse_grpc_content_type("application/grp\u{e9}").as_deref(), None);
}

#[test]
fn te_trailers_on_a_second_line_beside_bytes() {
    let mut headers = Headers::new();
    headers.append("te", vec![0xFFu8]);
    headers.append("TE", " gzip ,\tTRAILERS ");
    assert!(has_te_trailers(&headers));
}
