//! Configuration of service clients.
//!
//! A service client implements [`ServiceClient`]; the blanket
//! [`ServiceClientExt`] then provides the builder/setter methods every service
//! client gets for free. They work on the headers that the client sends with
//! every call.

use crate::client::conn::{configured_codec, configured_encoding};
use crate::encoding::Encoding;
use crate::headers::{headers_get_str, headers_insert, headers_new, headers_remove};
use crate::server::dispatch::optional_nanos;
use crate::server::grpc_conn::lenient_timeout;
use crate::timeout::{format_grpc_timeout, nanos_of, parse_grpc_timeout, timeout_text};
use core::time::Duration;
use trillium_http::Headers;
use vstd::prelude::*;

verus! {

/// Service clients implement this so that [`ServiceClientExt`] can configure
/// the underlying connection client.
pub trait ServiceClient: Sized {
    /// What the client sends with every call.
    spec fn defaults(&self) -> Map<Seq<char>, Seq<Seq<u8>>>;

    /// The default headers of the underlying connection client.
    fn default_headers(&self) -> (r: &Headers)
        ensures
            crate::headers::header_map(*r) == self.defaults(),
    ;

    /// The default headers of the underlying connection client, mutably: the
    /// hook the [`ServiceClientExt`] setters write through.
    fn default_headers_mut(&mut self) -> (r: &mut Headers)
        ensures
            crate::headers::header_map(*r) == old(self).defaults(),
            final(self).defaults() == crate::headers::header_map(*final(r)),
    ;
}

/// Default headers after the outbound compression has been set.
pub open spec fn with_compression(
    m: Map<Seq<char>, Seq<Seq<u8>>>,
    encoding: Encoding,
) -> Map<Seq<char>, Seq<Seq<u8>>> {
    if encoding == Encoding::Identity {
        m.remove(crate::text::lower("grpc-encoding"@))
    } else {
        crate::headers::inserted(m, "grpc-encoding"@, encoding.token())
    }
}

/// Default headers after the default timeout has been set.
pub open spec fn with_timeout(m: Map<Seq<char>, Seq<Seq<u8>>>, nanos: nat) -> Map<
    Seq<char>,
    Seq<Seq<u8>>,
> {
    if nanos == 0 {
        m.remove(crate::text::lower("grpc-timeout"@))
    } else {
        crate::headers::inserted(m, "grpc-timeout"@, timeout_text(nanos))
    }
}

/// The default timeout that a client's default headers configure.
pub fn configured_timeout(default_headers: &Headers) -> (r: Option<Duration>)
    ensures
        optional_nanos(r) == lenient_timeout(crate::headers::header_map(*default_headers)),
{
    match headers_get_str(default_headers, "grpc-timeout") {
        Some(text) => parse_grpc_timeout(text.as_str()),
        None => None,
    }
}

/// Builder-style configuration available on every service client.
pub trait ServiceClientExt: ServiceClient {
    /// Compress every outgoing request body with this codec. Sent on the
    /// wire as `grpc-encoding: <codec>`.
    ///
    /// Picking a codec your server is known to support is the caller's
    /// responsibility. Setting `Encoding::Identity` clears any previously-set
    /// compression.
    fn with_outbound_compression(self, encoding: Encoding) -> (r: Self)
        ensures
            r.defaults() == with_compression(self.defaults(), encoding),
    {
        let mut this = self;
        this.set_outbound_compression(encoding);
        this
    }

    /// `&mut` form of [`with_outbound_compression`](Self::with_outbound_compression).
    fn set_outbound_compression(&mut self, encoding: Encoding) -> (r: &mut Self)
        ensures
            r.defaults() == with_compression(old(self).defaults(), encoding),
            *final(self) == *final(r),
    {
        let headers = self.default_headers_mut();
        if encoding == Encoding::Identity {
            headers_remove(headers, "grpc-encoding");
        } else {
            headers_insert(headers, "grpc-encoding", encoding.as_grpc_encoding());
        }
        self
    }

    /// The currently-configured outbound compression. `Identity` if none
    /// has been set.
    fn outbound_compression(&self) -> (r: Encoding)
        ensures
            r == configured_codec(self.defaults()),
    {
        configured_encoding(self.default_headers())
    }

    /// Apply this duration as the default deadline on every call. Sent on
    /// the wire as `grpc-timeout: <unit>` so the server can enforce the
    /// same deadline.
    ///
    /// Setting `Duration::ZERO` clears any previously-set deadline.
    fn with_default_timeout(self, duration: Duration) -> (r: Self)
        ensures
            r.defaults() == with_timeout(self.defaults(), nanos_of(duration)),
    {
        let mut this = self;
        this.set_default_timeout(duration);
        this
    }

    /// `&mut` form of [`with_default_timeout`](Self::with_default_timeout).
    fn set_default_timeout(&mut self, duration: Duration) -> (r: &mut Self)
        ensures
            r.defaults() == with_timeout(old(self).defaults(), nanos_of(duration)),
            *final(self) == *final(r),
    {
        let headers = self.default_headers_mut();
        if duration.as_nanos() == 0 {
            headers_remove(headers, "grpc-timeout");
        } else {
            let text = format_grpc_timeout(duration);
            headers_insert(headers, "grpc-timeout", text.as_str());
        }
        self
    }

    /// The currently-configured default timeout, if any.
    fn default_timeout(&self) -> (r: Option<Duration>)
        ensures
            optional_nanos(r) == lenient_timeout(self.defaults()),
    {
        configured_timeout(self.default_headers())
    }
}

impl<T: ServiceClient> ServiceClientExt for T {

}

/// The default headers of a connection client, configured on their own.
pub struct ClientDefaults {
    headers: Headers,
}

impl ClientDefaults {
    /// No default headers.
    pub fn new() -> (r: Self)
        ensures
            r.defaults() == crate::headers::no_headers(),
    {
        ClientDefaults { headers: headers_new() }
    }

    /// The given default headers.
    pub fn from_headers(headers: Headers) -> (r: Self)
        ensures
            r.defaults() == crate::headers::header_map(headers),
    {
        ClientDefaults { headers }
    }

    /// Give back the headers.
    pub fn into_headers(self) -> (r: Headers)
        ensures
            crate::headers::header_map(r) == self.defaults(),
    {
        self.headers
    }
}

impl ServiceClient for ClientDefaults {
    closed spec fn defaults(&self) -> Map<Seq<char>, Seq<Seq<u8>>> {
        crate::headers::header_map(self.headers)
    }

    fn default_headers(&self) -> (r: &Headers) {
        &self.headers
    }

    fn default_headers_mut(&mut self) -> (r: &mut Headers) {
        &mut self.headers
    }
}

// ---------------------------------------------------------------------------
// Laws

/// The compression that was set is the compression that is reported, and
/// setting `Identity` clears it.
pub proof fn compression_round_trip(m: Map<Seq<char>, Seq<Seq<u8>>>, encoding: Encoding)
    ensures
        configured_codec(with_compression(m, encoding)) == encoding,
{
    let token = encoding.token();
    vstd::utf8::encode_utf8_valid_utf8(token);
    vstd::utf8::encode_utf8_decode_utf8(token);
    crate::encoding::token_round_trip(encoding, token);
}

/// A default timeout is reported as one that is no shorter, and by less than
/// one unit longer; zero clears it.
pub proof fn timeout_round_trip(m: Map<Seq<char>, Seq<Seq<u8>>>, nanos: nat)
    requires
        nanos <= crate::timeout::longest_timeout(),
    ensures
        nanos == 0 ==> lenient_timeout(with_timeout(m, nanos)) is None,
        nanos > 0 ==> (lenient_timeout(with_timeout(m, nanos)) matches Some(t) && nanos <= t < nanos
            + crate::timeout::unit_nanos(crate::timeout::smallest_unit(nanos)->0)->0),
{
    vstd::utf8::encode_utf8_valid_utf8(timeout_text(nanos));
    vstd::utf8::encode_utf8_decode_utf8(timeout_text(nanos));
    crate::timeout::never_tighter(nanos);
}

} // verus!
