//! Calls over a stream that is opened once: how its head is read, which single
//! message is taken from it, and how its messages are handed on.

use super::conn::{
    code_for_http, configured_codec, configured_encoding, debug_option, http_to_grpc_status,
};
use super::service_client::configured_timeout;
use crate::content_type::{content_suffix, parse_grpc_content_type};
use crate::encoding::{codec_named, token_list, Encoding};
use crate::headers::{header_map, headers_get_str, headers_insert, inserted, single_text};
use crate::server::dispatch::optional_nanos;
use crate::server::grpc_conn::lenient_timeout;
use crate::status::{plain_status, reads_as, verdict, Code, Status, StatusView};
use crate::text::{debug_quoted, debug_text, decimal, str_eq};
use core::time::Duration;
use trillium_http::Headers;
use vstd::prelude::*;

verus! {

/// A stream that has been opened: its messages follow, in this codec, or the head
/// already holds the call's status.
#[derive(Debug)]
pub enum OpenUpgrade {
    Streaming(Encoding),
    TrailersOnly(Result<(), Status>),
}

/// Why a head is not that of a gRPC response, if it is not.
pub open spec fn invalid_head(
    status: Option<u16>,
    m: Map<Seq<char>, Seq<Seq<u8>>>,
) -> Option<StatusView> {
    let http = match status {
        Some(n) => n,
        None => 0,
    };
    let content_type = single_text(m, "content-type"@);
    if status != Some(200u16) {
        Some(plain_status(code_for_http(http), "HTTP "@ + decimal(http as nat)))
    } else if !(content_type matches Some(ct) && content_suffix(ct) is Some) {
        Some(
            plain_status(
                Code::Internal,
                "unexpected response content-type: "@ + debug_option(content_type),
            ),
        )
    } else {
        None
    }
}

/// The codec that a response names: none is `Identity`, and one that is not known
/// an error.
pub open spec fn named_codec(m: Map<Seq<char>, Seq<Seq<u8>>>) -> Result<Encoding, StatusView> {
    match single_text(m, "grpc-encoding"@) {
        None => Ok(Encoding::Identity),
        Some(name) => match codec_named(name) {
            Some(e) => Ok(e),
            None => Err(
                plain_status(
                    Code::Internal,
                    "server returned unsupported grpc-encoding "@ + debug_quoted(name),
                ),
            ),
        },
    }
}

/// Check that a head is that of a gRPC response: HTTP status 200 and a gRPC
/// content type.
pub fn validate_response_headers(status: Option<u16>, headers: &Headers) -> (r: Result<(), Status>)
    ensures
        match invalid_head(status, header_map(*headers)) {
            Some(s) => r matches Err(e) && e@ == s,
            None => r is Ok,
        },
{
    let (http, ok): (u16, bool) = match status {
        Some(n) => (n, n == 200),
        None => (0, false),
    };
    if !ok {
        return Err(http_to_grpc_status(http));
    }
    let content_type = headers_get_str(headers, "content-type");
    let is_grpc = match &content_type {
        Some(ct) => parse_grpc_content_type(ct.as_str()).is_some(),
        None => false,
    };
    if !is_grpc {
        let found = match &content_type {
            Some(ct) => "Some(".to_owned().concat(debug_text(ct.as_str()).as_str()).concat(")"),
            None => "None".to_owned(),
        };
        let text = "unexpected response content-type: ".to_owned().concat(found.as_str());
        return Err(Status::internal(text.as_str()));
    }
    Ok(())
}

/// The codec of the response's messages. A codec that the library does not know,
/// though it has told the server which ones it does, is an error.
pub fn extract_response_encoding(headers: &Headers) -> (r: Result<Encoding, Status>)
    ensures
        match named_codec(header_map(*headers)) {
            Ok(e) => r == Ok::<Encoding, Status>(e),
            Err(s) => r matches Err(e) && e@ == s,
        },
{
    match headers_get_str(headers, "grpc-encoding") {
        None => Ok(Encoding::Identity),
        Some(name) => match Encoding::from_grpc_encoding(name.as_str()) {
            Some(e) => Ok(e),
            None => {
                let text = "server returned unsupported grpc-encoding ".to_owned().concat(
                    debug_text(name.as_str()).as_str(),
                );
                Err(Status::internal(text.as_str()))
            },
        },
    }
}

/// The codec of outgoing messages that a client's default headers configure;
/// `Identity` where they name none that is known.
pub fn outbound_encoding_from_client(default_headers: &Headers) -> (r: Encoding)
    ensures
        r == configured_codec(header_map(*default_headers)),
{
    configured_encoding(default_headers)
}

/// How long a call may take, as a client's default headers configure it.
pub fn deadline_from_client(default_headers: &Headers) -> (r: Option<Duration>)
    ensures
        optional_nanos(r) == lenient_timeout(header_map(*default_headers)),
{
    configured_timeout(default_headers)
}

/// The headers of a call, over those that stand there already.
pub open spec fn call_headers(
    m: Map<Seq<char>, Seq<Seq<u8>>>,
    suffix: Seq<char>,
) -> Map<Seq<char>, Seq<Seq<u8>>> {
    inserted(
        inserted(
            inserted(m, "content-type"@, "application/grpc+"@ + suffix),
            "te"@,
            "trailers"@,
        ),
        "grpc-accept-encoding"@,
        token_list(Encoding::ALL@),
    )
}

/// Set the headers of a call. The result says whether it goes over HTTP/3, as the
/// client's default headers may ask.
pub fn grpc_request(default_headers: &Headers, headers: &mut Headers, suffix: &str) -> (r: bool)
    ensures
        header_map(*final(headers)) == call_headers(header_map(*old(headers)), suffix@),
        r == (single_text(header_map(*default_headers), "x-trillium-grpc-version"@) == Some(
            "h3"@,
        )),
{
    let content_type = "application/grpc+".to_owned().concat(suffix);
    headers_insert(headers, "content-type", content_type.as_str());
    headers_insert(headers, "te", "trailers");
    headers_insert(headers, "grpc-accept-encoding", Encoding::accepted_encodings());
    match headers_get_str(default_headers, "x-trillium-grpc-version") {
        Some(version) => str_eq(version.as_str(), "h3"),
        None => false,
    }
}

/// Read the head of an opened stream.
pub fn open_upgrade(status: Option<u16>, headers: &Headers) -> (r: Result<OpenUpgrade, Status>)
    ensures
        ({
            let m = header_map(*headers);
            match invalid_head(status, m) {
                Some(s) => r matches Err(e) && e@ == s,
                None => match named_codec(m) {
                    Err(s) => r matches Err(e) && e@ == s,
                    Ok(codec) => match single_text(m, "grpc-status"@) {
                        Some(_) => r matches Ok(OpenUpgrade::TrailersOnly(v)) && reads_as(
                            m,
                            verdict(v),
                        ),
                        None => r == Ok::<OpenUpgrade, Status>(OpenUpgrade::Streaming(codec)),
                    },
                },
            }
        }),
{
    if let Err(e) = validate_response_headers(status, headers) {
        return Err(e);
    }
    let codec = match extract_response_encoding(headers) {
        Ok(codec) => codec,
        Err(e) => return Err(e),
    };
    match headers_get_str(headers, "grpc-status") {
        Some(_) => Ok(OpenUpgrade::TrailersOnly(Status::from_trailers(headers))),
        None => Ok(OpenUpgrade::Streaming(codec)),
    }
}

impl OpenUpgrade {
    /// The codec of the messages that follow, for a call that must have one. A
    /// response without a body is its status, or an error where that is `Ok`.
    pub fn into_streaming(self) -> (r: Result<Encoding, Status>)
        ensures
            match self {
                OpenUpgrade::Streaming(codec) => r == Ok::<Encoding, Status>(codec),
                OpenUpgrade::TrailersOnly(Ok(())) => r matches Err(e) && e@ == plain_status(
                    Code::Internal,
                    "response missing message body"@,
                ),
                OpenUpgrade::TrailersOnly(Err(s)) => r == Err::<Encoding, Status>(s),
            },
    {
        match self {
            OpenUpgrade::Streaming(codec) => Ok(codec),
            OpenUpgrade::TrailersOnly(Ok(())) => Err(
                Status::internal("response missing message body"),
            ),
            OpenUpgrade::TrailersOnly(Err(s)) => Err(s),
        }
    }
}

/// Whether `v` is the verdict of a stream with these trailers.
pub open spec fn trailers_verdict(
    trailers: Option<Map<Seq<char>, Seq<Seq<u8>>>>,
    v: Result<(), StatusView>,
) -> bool {
    match trailers {
        Some(m) => reads_as(m, v),
        None => v == Err::<(), StatusView>(
            plain_status(Code::Internal, "stream ended without grpc-status trailer"@),
        ),
    }
}

/// What trailers that may be missing hold.
pub open spec fn optional_map(h: Option<&Headers>) -> Option<Map<Seq<char>, Seq<Seq<u8>>>> {
    match h {
        Some(h) => Some(header_map(*h)),
        None => None,
    }
}

/// The verdict of a stream that has been read to its end.
pub fn finish_with_trailers(trailers: Option<&Headers>) -> (r: Result<(), Status>)
    ensures
        trailers_verdict(optional_map(trailers), verdict(r)),
{
    match trailers {
        Some(trailers) => Status::from_trailers(trailers),
        None => Err(Status::internal("stream ended without grpc-status trailer")),
    }
}

/// The single message of a response: `first` and `second` are the first two reads
/// of its stream. More than one is an error; of a stream without any, the trailers
/// say what went wrong.
pub fn read_one_response<Resp>(
    first: Option<Result<Resp, Status>>,
    second: Option<Result<Resp, Status>>,
    trailers: Option<&Headers>,
) -> (r: Result<Resp, Status>)
    ensures
        match (first, second) {
            (Some(Ok(message)), None) => r == Ok::<Resp, Status>(message),
            (Some(Ok(_)), Some(_)) => r matches Err(e) && e@ == plain_status(
                Code::Internal,
                "expected one response message, got multiple"@,
            ),
            (Some(Err(s)), _) => r == Err::<Resp, Status>(s),
            (None, Some(Err(s))) => r == Err::<Resp, Status>(s),
            (None, _) => {
                &&& r is Err
                &&& {
                    ||| trailers_verdict(optional_map(trailers), Err(r->Err_0@))
                    ||| trailers_verdict(optional_map(trailers), Ok(())) && r->Err_0@
                        == plain_status(Code::Internal, "response missing message body"@)
                }
            },
        },
{
    match (first, second) {
        (Some(Ok(message)), None) => Ok(message),
        (Some(Ok(_)), Some(_)) => Err(
            Status::internal("expected one response message, got multiple"),
        ),
        (Some(Err(s)), _) => Err(s),
        (None, Some(Err(s))) => Err(s),
        (None, _) => match finish_with_trailers(trailers) {
            Err(s) => Err(s),
            Ok(()) => Err(Status::internal("response missing message body")),
        },
    }
}

/// What a reader hands on next: a message; its last item, an error; or nothing
/// more.
#[derive(Debug)]
pub enum LoopStep<T> {
    Forward(T),
    Last(Status),
    Stop,
}

/// One turn of the reader of a response's messages. `next` is the next item of its
/// stream, or the error of a deadline that came first; `trailers` are those of a
/// stream that has ended. An error is handed on and ends the reading; a stream
/// that ends with another status than `Ok` hands that on.
pub fn read_loop<T>(next: Result<Option<Result<T, Status>>, Status>, trailers: Option<&Headers>) -> (r:
    LoopStep<T>)
    ensures
        match next {
            Err(s) => r == LoopStep::<T>::Last(s),
            Ok(Some(Ok(message))) => r == LoopStep::Forward(message),
            Ok(Some(Err(s))) => r == LoopStep::<T>::Last(s),
            Ok(None) => match r {
                LoopStep::Last(s) => trailers_verdict(optional_map(trailers), Err(s@)),
                LoopStep::Stop => trailers_verdict(optional_map(trailers), Ok(())),
                LoopStep::Forward(_) => false,
            },
        },
{
    match next {
        Err(s) => LoopStep::Last(s),
        Ok(Some(Ok(message))) => LoopStep::Forward(message),
        Ok(Some(Err(s))) => LoopStep::Last(s),
        Ok(None) => match finish_with_trailers(trailers) {
            Err(s) => LoopStep::Last(s),
            Ok(()) => LoopStep::Stop,
        },
    }
}

/// The items of a response without a body: the error of its status, if it is one.
pub fn trailers_only<T>(result: Result<(), Status>) -> (r: LoopStep<T>)
    ensures
        match result {
            Err(s) => r == LoopStep::<T>::Last(s),
            Ok(()) => r == LoopStep::<T>::Stop,
        },
{
    match result {
        Err(s) => LoopStep::Last(s),
        Ok(()) => LoopStep::Stop,
    }
}

} // verus!
