//! Messages on a byte stream, each behind its length: four bytes, the most
//! significant first.

use crate::frame::{be32, be32_round_trip, be32_value};
use vstd::prelude::*;

verus! {

/// A message behind its length. A length past 32 bits loses its high bits.
pub open spec fn delimited(message: Seq<u8>) -> Seq<u8> {
    be32(message.len()) + message
}

/// The first message of `input` and what stands behind it, or nothing where
/// `input` ends before the message does.
pub open spec fn first_delimited(input: Seq<u8>) -> Option<(Seq<u8>, Seq<u8>)> {
    if input.len() < 4 {
        None
    } else {
        let len = be32_value(input.take(4)) as int;
        if input.len() < 4 + len {
            None
        } else {
            Some((input.subrange(4, 4 + len), input.skip(4 + len)))
        }
    }
}

/// How many bytes of a message follow its four length bytes.
pub fn message_len(prefix: [u8; 4]) -> (r: u32)
    ensures
        r == be32_value(prefix@),
{
    (prefix[0] as u32) * 0x100_0000 + (prefix[1] as u32) * 0x1_0000 + (prefix[2] as u32) * 0x100
        + (prefix[3] as u32)
}

/// A message behind its length.
pub fn write_delimited(message: &Vec<u8>) -> (r: Vec<u8>)
    ensures
        r@ == delimited(message@),
{
    let n: usize = message.len();
    let mut out: Vec<u8> = Vec::new();
    out.push(((n / 0x100_0000) % 0x100) as u8);
    out.push(((n / 0x1_0000) % 0x100) as u8);
    out.push(((n / 0x100) % 0x100) as u8);
    out.push((n % 0x100) as u8);
    assert(out@ =~= be32(message@.len()));
    out.extend_from_slice(message.as_slice());
    assert(out@ =~= delimited(message@));
    out
}

/// The first message of `input`, and how many bytes it takes with its length;
/// nothing where `input` ends before the message does.
pub fn read_delimited(input: &Vec<u8>) -> (r: Option<(Vec<u8>, usize)>)
    ensures
        match first_delimited(input@) {
            Some((message, rest)) => r matches Some((m, n)) && m@ == message && n <= input@.len()
                && input@.skip(n as int) == rest,
            None => r is None,
        },
{
    if input.len() < 4 {
        return None;
    }
    let prefix = [input[0], input[1], input[2], input[3]];
    assert(prefix@ =~= input@.take(4));
    let len = message_len(prefix) as usize;
    if input.len() - 4 < len {
        return None;
    }
    let mut message: Vec<u8> = Vec::new();
    message.extend_from_slice(vstd::slice::slice_subrange(input.as_slice(), 4, 4 + len));
    assert(message@ =~= input@.subrange(4, 4 + len));
    Some((message, 4 + len))
}

/// What is written in front of anything is read back whole, and what stood behind
/// it is left: of a message whose length fits in the prefix.
pub proof fn delimited_round_trip(message: Seq<u8>, rest: Seq<u8>)
    requires
        message.len() <= u32::MAX,
    ensures
        first_delimited(delimited(message) + rest) == Some((message, rest)),
{
    let input = delimited(message) + rest;
    be32_round_trip(message.len());
    assert(input.take(4) =~= be32(message.len()));
    assert(input.subrange(4, 4 + message.len() as int) =~= message);
    assert(input.skip(4 + message.len() as int) =~= rest);
}

} // verus!
