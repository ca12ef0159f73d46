//! gRPC message framing.
//!
//! Every gRPC message on the wire is a 5-byte prefix (one Compressed-Flag
//! byte followed by a big-endian `u32` length), then that many payload bytes.
//! A single HTTP/2 body carries a sequence of these frames.
//!
//! [`reader`] turns the bytes of a body into decoded messages; [`writer`]
//! encodes a message (optionally compressed) into a frame. Codec and
//! compression are both pushed in from the caller, so this layer is agnostic
//! to message type and encoding.

use vstd::prelude::*;

pub mod reader;
pub mod writer;

verus! {

/// The length of a frame's prefix.
pub const PREFIX_LEN: usize = 5;

/// The low 32 bits of `n`, most significant byte first.
pub open spec fn be32(n: nat) -> Seq<u8> {
    seq![
        (n / 0x100_0000 % 0x100) as u8,
        (n / 0x1_0000 % 0x100) as u8,
        (n / 0x100 % 0x100) as u8,
        (n % 0x100) as u8,
    ]
}

/// The number that four bytes stand for, most significant byte first.
pub open spec fn be32_value(b: Seq<u8>) -> nat {
    (b[0] * 0x100_0000 + b[1] * 0x1_0000 + b[2] * 0x100 + b[3]) as nat
}

/// A frame: the flag, the length, and the payload.
pub open spec fn frame_bytes(flag: u8, payload: Seq<u8>) -> Seq<u8> {
    seq![flag] + be32(payload.len()) + payload
}

/// Reading a length back gives what was written, up to 32 bits.
pub proof fn be32_round_trip(n: nat)
    ensures
        be32(n).len() == 4,
        be32_value(be32(n)) == n % 0x1_0000_0000,
{
}

} // verus!
