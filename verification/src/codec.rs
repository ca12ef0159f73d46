//! Message codecs: the [`Codec`] trait and the default [`Prost`]
//! implementation.

use crate::encoding::outcome;
use crate::status::{Code, Status, StatusView};
use prost::Message;
use vstd::prelude::*;

verus! {

/// Per-call value codec: encodes a request/response message to bytes and back.
///
/// The default is [`Prost`]. Other codecs (JSON, custom) implement this trait
/// so the same call-shape dispatch functions can drive them. Nothing is asked of
/// an implementation: what the library does with its results is stated for
/// whatever they are, through [`encodes`], [`decodes`] and [`suffixed`].
pub trait Codec<T>: Sized {
    /// The fragment after `application/grpc+` in the content-type header
    /// (e.g. `"proto"`, `"json"`). For raw `application/grpc`, return `"proto"`:
    /// the bare type implies protobuf.
    fn content_type_suffix() -> &'static str;

    /// Serialize one message to its wire bytes. The framing layer wraps the
    /// result in a length-prefixed gRPC frame; this is just the payload.
    fn encode(value: &T) -> Result<Vec<u8>, Status>;

    /// Deserialize one message from the bytes of a single frame's payload
    /// (already de-framed and decompressed).
    fn decode(bytes: &[u8]) -> Result<T, Status>;
}

/// Whether `suffix` is a content-type suffix that the codec gives.
pub open spec fn suffixed<C: Codec<T>, T>(suffix: Seq<char>) -> bool {
    exists|r: &'static str| #[trigger]
        call_ensures(C::content_type_suffix, (), r) && r@ == suffix
}

/// Whether `out` is an outcome of the codec's encoding of `value`.
pub open spec fn encodes<C: Codec<T>, T>(value: T, out: Result<Seq<u8>, StatusView>) -> bool {
    exists|r: Result<Vec<u8>, Status>| #[trigger]
        call_ensures(C::encode, (&value,), r) && outcome(r) == out
}

/// Whether `out` is an outcome of the codec's decoding of `bytes`.
pub open spec fn decodes<C: Codec<T>, T>(bytes: Seq<u8>, out: Result<T, Status>) -> bool {
    exists|b: &[u8]| #[trigger] call_ensures(C::decode, (b,), out) && b@ == bytes
}

/// The default protobuf codec, backed by `prost`.
pub struct Prost;

/// `n` as a protobuf varint: seven bits per byte, low bits first, the high bit
/// set on every byte but the last.
pub open spec fn varint(n: nat) -> Seq<u8>
    decreases n,
{
    if n < 128 {
        seq![n as u8]
    } else {
        seq![(n % 128 + 128) as u8] + varint(n / 128)
    }
}

/// A byte string as a protobuf message: field 1, length-delimited; nothing at
/// all for the empty string.
pub open spec fn message_bytes(value: Seq<u8>) -> Seq<u8> {
    if value.len() == 0 {
        Seq::empty()
    } else {
        seq![0x0Au8] + varint(value.len()) + value
    }
}

/// What `prost` decodes from `bytes`, as a byte-string message: the bytes, or
/// the error in words.
pub uninterp spec fn message_value(bytes: Seq<u8>) -> Result<Seq<u8>, Seq<char>>;

/// A decoding that succeeded.
pub open spec fn success(value: Seq<u8>) -> Result<Seq<u8>, Seq<char>> {
    Ok(value)
}

/// Wraps `prost::Message::encode` on a byte string, into a buffer that grows:
/// it writes the message's bytes, which `Message::decode` reads back.
#[verifier::external_body]
fn prost_encode(value: &Vec<u8>) -> (r: Result<Vec<u8>, String>)
    ensures
        r is Ok,
        r->Ok_0@ == message_bytes(value@),
        message_value(r->Ok_0@) == success(value@),
{
    let mut buf = bytes::BytesMut::with_capacity(value.encoded_len());
    value.encode(&mut buf).map_err(|e| e.to_string())?;
    Ok(buf.freeze().to_vec())
}

/// Wraps `prost::Message::decode` for a byte string.
#[verifier::external_body]
fn prost_decode(bytes: &[u8]) -> (r: Result<Vec<u8>, String>)
    ensures
        crate::encoding::codec_outcome(r) == message_value(bytes@),
{
    <Vec<u8> as Message>::decode(bytes).map_err(|e| e.to_string())
}

/// What a decoded message comes to, with the codec's error as a status.
pub open spec fn decoded(value: Result<Seq<u8>, Seq<char>>) -> Result<Seq<u8>, StatusView> {
    match value {
        Ok(v) => Ok(v),
        Err(e) => Err(
            crate::status::plain_status(Code::InvalidArgument, "prost decode failed: "@ + e),
        ),
    }
}

/// The result of decoding, with the codec's error as an `InvalidArgument`
/// status.
pub fn decode_outcome(value: Result<Vec<u8>, String>) -> (r: Result<Vec<u8>, Status>)
    ensures
        outcome(r) == decoded(crate::encoding::codec_outcome(value)),
{
    match value {
        Ok(v) => Ok(v),
        Err(e) => {
            let text = String::new().concat("prost decode failed: ").concat(e.as_str());
            assert(text@ =~= "prost decode failed: "@ + e@);
            Err(Status::invalid_argument(text.as_str()))
        },
    }
}

impl Codec<Vec<u8>> for Prost {
    fn content_type_suffix() -> (r: &'static str)
        ensures
            r@ == "proto"@,
    {
        "proto"
    }

    fn encode(value: &Vec<u8>) -> (r: Result<Vec<u8>, Status>)
        ensures
            outcome(r) == Ok::<Seq<u8>, StatusView>(message_bytes(value@)),
            message_value(message_bytes(value@)) == success(value@),
    {
        match prost_encode(value) {
            Ok(bytes) => Ok(bytes),
            Err(e) => {
                let text = String::new().concat("prost encode failed: ").concat(e.as_str());
                Err(Status::internal(text.as_str()))
            },
        }
    }

    fn decode(bytes: &[u8]) -> (r: Result<Vec<u8>, Status>)
        ensures
            outcome(r) == decoded(message_value(bytes@)),
    {
        decode_outcome(prost_decode(bytes))
    }
}

/// What [`Prost`] encodes and decodes: every byte string has the bytes of its
/// message, and decoding them gives the byte string back.
pub proof fn prost_round_trip(
    value: Vec<u8>,
    out: Result<Seq<u8>, StatusView>,
    back: Result<Vec<u8>, Status>,
)
    requires
        encodes::<Prost, Vec<u8>>(value, out),
        decodes::<Prost, Vec<u8>>(message_bytes(value@), back),
    ensures
        out == Ok::<Seq<u8>, StatusView>(message_bytes(value@)),
        outcome(back) == Ok::<Seq<u8>, StatusView>(value@),
{
}

} // verus!
