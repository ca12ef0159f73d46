//! Encode a message into a gRPC frame. See [`encode_frame`].

use crate::codec::{encodes, Codec};
use crate::encoding::{outcome, Encoding};
use crate::frame::{be32, frame_bytes};
use crate::status::{Status, StatusView};
use vstd::prelude::*;

verus! {

/// What framing `payload` comes to: a flag-0 frame with the bare payload for
/// `Identity`, a flag-1 frame with the compressed payload for anything else.
pub open spec fn framed(payload: Seq<u8>, encoding: Encoding) -> Result<Seq<u8>, StatusView> {
    if encoding == Encoding::Identity {
        Ok(frame_bytes(0, payload))
    } else {
        match encoding.compressed(payload) {
            Ok(packed) => Ok(frame_bytes(1, packed)),
            Err(s) => Err(s),
        }
    }
}

/// Whether `frame` was written for `payload`: it is its frame, and where the payload
/// was compressed, decompressing gives it back.
pub open spec fn wrote(payload: Seq<u8>, encoding: Encoding, frame: Seq<u8>) -> bool {
    &&& framed(payload, encoding) == Ok::<Seq<u8>, StatusView>(frame)
    &&& encoding != Encoding::Identity ==> exists|packed: Seq<u8>|
        frame == frame_bytes(1, packed) && #[trigger] encoding.restores(packed, payload)
}

/// Encode one message as a framed gRPC wire-format buffer:
/// `[compressed=flag][len: u32 BE][payload]`.
///
/// `encoding == Identity` writes a flag-0 frame with the bare codec output.
/// Anything else compresses the codec output with the given codec and
/// writes a flag-1 frame.
pub fn encode_frame<C: Codec<T>, T>(value: &T, encoding: Encoding) -> (r: Result<Vec<u8>, Status>)
    ensures
        exists|payload: Result<Seq<u8>, StatusView>| #[trigger]
            encodes::<C, T>(*value, payload) && match payload {
                Ok(bytes) => outcome(r) == framed(bytes, encoding) && (r is Ok ==> wrote(
                    bytes,
                    encoding,
                    r->Ok_0@,
                )),
                Err(s) => outcome(r) == Err::<Seq<u8>, StatusView>(s),
            },
{
    match C::encode(value) {
        Ok(payload) => {
            assert(encodes::<C, T>(*value, Ok(payload@)));
            encode_payload(payload.as_slice(), encoding)
        },
        Err(s) => {
            assert(encodes::<C, T>(*value, Err(s@)));
            Err(s)
        },
    }
}

/// Codec-agnostic variant: wrap already-encoded bytes in a gRPC frame,
/// compressing if `encoding` is non-Identity.
pub fn encode_payload(payload: &[u8], encoding: Encoding) -> (r: Result<Vec<u8>, Status>)
    ensures
        outcome(r) == framed(payload@, encoding),
        r is Ok ==> wrote(payload@, encoding, r->Ok_0@),
{
    if encoding == Encoding::Identity {
        Ok(frame_vec(0, payload))
    } else {
        match encoding.compress(payload) {
            Ok(packed) => {
                let out = frame_vec(1, packed.as_slice());
                assert(encoding.restores(packed@, payload@));
                Ok(out)
            },
            Err(s) => Err(s),
        }
    }
}

fn frame_vec(flag: u8, payload: &[u8]) -> (r: Vec<u8>)
    ensures
        r@ == frame_bytes(flag, payload@),
{
    let n: u64 = payload.len() as u64;
    let mut out: Vec<u8> = Vec::new();
    out.push(flag);
    out.push((n / 0x100_0000 % 0x100) as u8);
    out.push((n / 0x1_0000 % 0x100) as u8);
    out.push((n / 0x100 % 0x100) as u8);
    out.push((n % 0x100) as u8);
    assert(out@ =~= seq![flag] + be32(payload@.len()));
    out.extend_from_slice(payload);
    assert(out@ =~= frame_bytes(flag, payload@));
    out
}

} // verus!
