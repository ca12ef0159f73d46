//! The server side of the conformance suite: how the runner wants it served.

use crate::text::str_eq;
use vstd::prelude::*;

verus! {

/// A certificate and its key.
#[derive(Debug)]
pub struct TlsCreds {
    pub cert: Vec<u8>,
    pub key: Vec<u8>,
}

/// How the service is served: over TLS with these credentials, or in the clear.
#[derive(Debug)]
pub enum Listener {
    Plain,
    Tls(TlsCreds),
}

/// Where the service is served.
#[derive(Debug)]
pub struct ServerCompatResponse {
    pub host: String,
    pub port: u32,
    pub pem_cert: Vec<u8>,
}

/// A method of the service.
#[derive(Debug, Clone, Copy, PartialEq, Eq, Structural)]
pub enum ServiceMethod {
    Unary,
    IdempotentUnary,
    Unimplemented,
    ClientStream,
    ServerStream,
    BidiStream,
}

/// The path of a method.
pub open spec fn path_of(method: ServiceMethod) -> Seq<char> {
    match method {
        ServiceMethod::Unary => "/connectrpc.conformance.v1.ConformanceService/Unary"@,
        ServiceMethod::IdempotentUnary =>
            "/connectrpc.conformance.v1.ConformanceService/IdempotentUnary"@,
        ServiceMethod::Unimplemented =>
            "/connectrpc.conformance.v1.ConformanceService/Unimplemented"@,
        ServiceMethod::ClientStream =>
            "/connectrpc.conformance.v1.ConformanceService/ClientStream"@,
        ServiceMethod::ServerStream =>
            "/connectrpc.conformance.v1.ConformanceService/ServerStream"@,
        ServiceMethod::BidiStream => "/connectrpc.conformance.v1.ConformanceService/BidiStream"@,
    }
}

/// The method that a request is for: it is posted to the method's path.
pub fn route(post: bool, path: &str) -> (r: Option<ServiceMethod>)
    ensures
        match r {
            Some(method) => post && path@ == path_of(method),
            None => !post || forall|m: ServiceMethod| path@ != #[trigger] path_of(m),
        },
{
    if !post {
        None
    } else if str_eq(path, "/connectrpc.conformance.v1.ConformanceService/Unary") {
        Some(ServiceMethod::Unary)
    } else if str_eq(path, "/connectrpc.conformance.v1.ConformanceService/IdempotentUnary") {
        Some(ServiceMethod::IdempotentUnary)
    } else if str_eq(path, "/connectrpc.conformance.v1.ConformanceService/Unimplemented") {
        Some(ServiceMethod::Unimplemented)
    } else if str_eq(path, "/connectrpc.conformance.v1.ConformanceService/ClientStream") {
        Some(ServiceMethod::ClientStream)
    } else if str_eq(path, "/connectrpc.conformance.v1.ConformanceService/ServerStream") {
        Some(ServiceMethod::ServerStream)
    } else if str_eq(path, "/connectrpc.conformance.v1.ConformanceService/BidiStream") {
        Some(ServiceMethod::BidiStream)
    } else {
        None
    }
}

/// How the service is to be served. TLS without credentials is an error; without
/// TLS, credentials are not looked at.
pub fn listener(use_tls: bool, creds: Option<TlsCreds>) -> (r: Result<Listener, String>)
    ensures
        match r {
            Ok(Listener::Plain) => !use_tls,
            Ok(Listener::Tls(c)) => use_tls && creds == Some(c),
            Err(e) => use_tls && creds is None && e@
                == "use_tls set but no server_creds provided"@,
        },
{
    if !use_tls {
        return Ok(Listener::Plain);
    }
    match creds {
        Some(creds) => Ok(Listener::Tls(creds)),
        None => Err("use_tls set but no server_creds provided".to_owned()),
    }
}

/// What the runner is told: the port that was bound, and the certificate that
/// clients are to trust.
pub fn server_response(port: Option<u16>, pem_cert: Vec<u8>) -> (r: Result<
    ServerCompatResponse,
    String,
>)
    ensures
        match (port, r) {
            (Some(port), Ok(response)) => response.host@ == "127.0.0.1"@ && response.port == port
                && response.pem_cert == pem_cert,
            (None, Err(e)) => e@ == "server did not bind a TCP socket"@,
            _ => false,
        },
{
    match port {
        Some(port) => Ok(
            ServerCompatResponse { host: "127.0.0.1".to_owned(), port: port as u32, pem_cert },
        ),
        None => Err("server did not bind a TCP socket".to_owned()),
    }
}

} // verus!
