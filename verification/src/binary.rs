//! Base64, as binary header values are written on the wire, with padding and
//! without.

use base64::engine::general_purpose::{STANDARD, STANDARD_NO_PAD};
use base64::Engine;
use vstd::prelude::*;
use vstd::utf8::{encode_utf8, encode_utf8_decode_utf8};

verus! {

/// The symbol of the standard base64 alphabet for a six-bit value.
pub open spec fn base64_symbol(n: int) -> char {
    if n < 26 {
        ('A' as u32 + n) as char
    } else if n < 52 {
        ('a' as u32 + (n - 26)) as char
    } else if n < 62 {
        ('0' as u32 + (n - 52)) as char
    } else if n == 62 {
        '+'
    } else {
        '/'
    }
}

/// `b` in base64 with the standard alphabet and padding.
pub open spec fn base64_text(b: Seq<u8>) -> Seq<char>
    decreases b.len(),
{
    if b.len() == 0 {
        Seq::empty()
    } else if b.len() == 1 {
        seq![base64_symbol(b[0] as int / 4), base64_symbol(b[0] as int % 4 * 16), '=', '=']
    } else if b.len() == 2 {
        seq![
            base64_symbol(b[0] as int / 4),
            base64_symbol(b[0] as int % 4 * 16 + b[1] as int / 16),
            base64_symbol(b[1] as int % 16 * 4),
            '=',
        ]
    } else {
        seq![
            base64_symbol(b[0] as int / 4),
            base64_symbol(b[0] as int % 4 * 16 + b[1] as int / 16),
            base64_symbol(b[1] as int % 16 * 4 + b[2] as int / 64),
            base64_symbol(b[2] as int % 64),
        ] + base64_text(b.skip(3))
    }
}

/// The bytes whose base64 text, as UTF-8, is `text`; nothing if `text` is not
/// the base64 text of any bytes.
pub open spec fn base64_decoded(text: Seq<u8>) -> Option<Seq<u8>> {
    if exists|b: Seq<u8>| encode_utf8(#[trigger] base64_text(b)) == text {
        Some(choose|b: Seq<u8>| encode_utf8(#[trigger] base64_text(b)) == text)
    } else {
        None
    }
}

/// Wraps `Engine::encode` of the `STANDARD` engine of `base64`.
#[verifier::external_body]
pub(crate) fn base64_encode(b: &[u8]) -> (r: String)
    ensures
        r@ == base64_text(b@),
{
    STANDARD.encode(b)
}

/// Wraps `Engine::decode` of the `STANDARD` engine of `base64`, which accepts
/// canonical, padded text only: exactly what `encode` writes.
#[verifier::external_body]
pub(crate) fn base64_decode(text: &[u8]) -> (r: Option<Vec<u8>>)
    ensures
        match r {
            Some(b) => base64_decoded(text@) == Some(b@),
            None => base64_decoded(text@) is None,
        },
{
    STANDARD.decode(text).ok()
}

proof fn base64_symbol_injective(m: int, n: int)
    requires
        0 <= m < 64,
        0 <= n < 64,
        base64_symbol(m) == base64_symbol(n),
    ensures
        m == n,
{
}

proof fn base64_symbol_not_padding(n: int)
    requires
        0 <= n < 64,
    ensures
        base64_symbol(n) != '=',
{
}

/// The byte at `i`, or zero past the end.
spec fn byte_or_zero(b: Seq<u8>, i: int) -> int {
    if i < b.len() {
        b[i] as int
    } else {
        0
    }
}

proof fn base64_text_head(b: Seq<u8>)
    requires
        b.len() > 0,
    ensures
        base64_text(b).len() >= 4,
        base64_text(b)[0] == base64_symbol(b[0] as int / 4),
        base64_text(b)[1] == base64_symbol(b[0] as int % 4 * 16 + byte_or_zero(b, 1) / 16),
        b.len() == 1 ==> base64_text(b)[2] == '=',
        b.len() > 1 ==> base64_text(b)[2] == base64_symbol(
            b[1] as int % 16 * 4 + byte_or_zero(b, 2) / 64,
        ),
        b.len() <= 2 ==> base64_text(b)[3] == '=',
        b.len() > 2 ==> base64_text(b)[3] == base64_symbol(b[2] as int % 64),
        b.len() <= 2 ==> base64_text(b).len() == 4,
        b.len() > 2 ==> base64_text(b).skip(4) == base64_text(b.skip(3)),
{
    if b.len() > 2 {
        assert(base64_text(b).skip(4) =~= base64_text(b.skip(3)));
    }
}

/// Different bytes have different base64 texts.
pub proof fn base64_text_injective(a: Seq<u8>, b: Seq<u8>)
    requires
        base64_text(a) == base64_text(b),
    ensures
        a == b,
    decreases a.len(),
{
    if a.len() == 0 || b.len() == 0 {
        if a.len() > 0 {
            base64_text_head(a);
        }
        if b.len() > 0 {
            base64_text_head(b);
        }
        assert(a =~= b);
    } else {
        base64_text_head(a);
        base64_text_head(b);
        let a1 = byte_or_zero(a, 1);
        let b1 = byte_or_zero(b, 1);
        let a2 = byte_or_zero(a, 2);
        let b2 = byte_or_zero(b, 2);
        base64_symbol_injective(a[0] as int / 4, b[0] as int / 4);
        base64_symbol_injective(a[0] as int % 4 * 16 + a1 / 16, b[0] as int % 4 * 16 + b1 / 16);
        base64_symbol_not_padding(a1 % 16 * 4 + a2 / 64);
        base64_symbol_not_padding(b1 % 16 * 4 + b2 / 64);
        base64_symbol_not_padding(a2 % 64);
        base64_symbol_not_padding(b2 % 64);
        if a.len() == 1 || b.len() == 1 {
            assert(a =~= b);
        } else {
            base64_symbol_injective(a1 % 16 * 4 + a2 / 64, b1 % 16 * 4 + b2 / 64);
            if a.len() == 2 || b.len() == 2 {
                assert(a =~= b);
            } else {
                base64_symbol_injective(a2 % 64, b2 % 64);
                base64_text_injective(a.skip(3), b.skip(3));
                assert(a.skip(3).len() == b.skip(3).len());
                assert forall|i: int| 0 <= i < a.len() implies a[i] == b[i] by {
                    if i >= 3 {
                        assert(a.skip(3)[i - 3] == b.skip(3)[i - 3]);
                    }
                }
                assert(a =~= b);
            }
        }
    }
}

/// Decoding the base64 text of some bytes gives the bytes back.
pub proof fn base64_round_trip(b: Seq<u8>)
    ensures
        base64_decoded(encode_utf8(base64_text(b))) == Some(b),
{
    let text = encode_utf8(base64_text(b));
    let c = choose|c: Seq<u8>| encode_utf8(#[trigger] base64_text(c)) == text;
    encode_utf8_decode_utf8(base64_text(b));
    encode_utf8_decode_utf8(base64_text(c));
    base64_text_injective(c, b);
}

// ---------------------------------------------------------------------------
// Without padding

/// How many symbols the base64 text of `n` bytes has, padding left out.
pub open spec fn symbol_count(n: nat) -> nat {
    (4 * n + 2) / 3
}

/// `b` in base64 with the standard alphabet, without padding.
pub open spec fn base64_unpadded(b: Seq<u8>) -> Seq<char> {
    base64_text(b).take(symbol_count(b.len()) as int)
}

/// The bytes whose unpadded base64 text, as UTF-8, is `text`; nothing if `text`
/// is not the unpadded base64 text of any bytes.
pub open spec fn base64_unpadded_decoded(text: Seq<u8>) -> Option<Seq<u8>> {
    if exists|b: Seq<u8>| encode_utf8(#[trigger] base64_unpadded(b)) == text {
        Some(choose|b: Seq<u8>| encode_utf8(#[trigger] base64_unpadded(b)) == text)
    } else {
        None
    }
}

/// Wraps `Engine::encode` of the `STANDARD_NO_PAD` engine of `base64`.
#[verifier::external_body]
pub(crate) fn base64_encode_unpadded(b: &[u8]) -> (r: String)
    ensures
        r@ == base64_unpadded(b@),
{
    STANDARD_NO_PAD.encode(b)
}

/// Wraps `Engine::decode` of the `STANDARD_NO_PAD` engine of `base64`, which
/// accepts canonical text without padding only: exactly what `encode` writes.
#[verifier::external_body]
pub(crate) fn base64_decode_unpadded(text: &[u8]) -> (r: Option<Vec<u8>>)
    ensures
        match r {
            Some(b) => base64_unpadded_decoded(text@) == Some(b@),
            None => base64_unpadded_decoded(text@) is None,
        },
{
    STANDARD_NO_PAD.decode(text).ok()
}

/// Behind its symbols, the base64 text holds padding only.
proof fn base64_padding(b: Seq<u8>)
    ensures
        base64_text(b).len() == (b.len() + 2) / 3 * 4,
        symbol_count(b.len()) <= base64_text(b).len(),
        forall|i: int|
            symbol_count(b.len()) <= i < base64_text(b).len() ==> base64_text(b)[i] == '=',
    decreases b.len(),
{
    if b.len() > 2 {
        base64_padding(b.skip(3));
        let rest = base64_text(b.skip(3));
        assert(symbol_count(b.len()) == symbol_count(b.skip(3).len()) + 4);
        assert forall|i: int| symbol_count(b.len()) <= i < base64_text(b).len() implies base64_text(
            b,
        )[i] == '=' by {
            assert(base64_text(b)[i] == rest[i - 4]);
        }
    }
}

/// Different bytes have different unpadded base64 texts.
pub proof fn base64_unpadded_injective(a: Seq<u8>, b: Seq<u8>)
    requires
        base64_unpadded(a) == base64_unpadded(b),
    ensures
        a == b,
{
    base64_padding(a);
    base64_padding(b);
    let n = symbol_count(a.len());
    assert(base64_unpadded(a).len() == n);
    assert(base64_unpadded(b).len() == symbol_count(b.len()));
    assert(a.len() == b.len());
    assert(base64_text(a) =~= base64_text(b)) by {
        assert forall|i: int| 0 <= i < base64_text(a).len() implies base64_text(a)[i]
            == base64_text(b)[i] by {
            if i < n {
                assert(base64_unpadded(a)[i] == base64_text(a)[i]);
                assert(base64_unpadded(b)[i] == base64_text(b)[i]);
            } else {
                assert(base64_text(a)[i] == '=' && base64_text(b)[i] == '=');
            }
        }
    }
    base64_text_injective(a, b);
}

/// Decoding the unpadded base64 text of some bytes gives the bytes back.
pub proof fn base64_unpadded_round_trip(b: Seq<u8>)
    ensures
        base64_unpadded_decoded(encode_utf8(base64_unpadded(b))) == Some(b),
{
    let text = encode_utf8(base64_unpadded(b));
    let c = choose|c: Seq<u8>| encode_utf8(#[trigger] base64_unpadded(c)) == text;
    encode_utf8_decode_utf8(base64_unpadded(b));
    encode_utf8_decode_utf8(base64_unpadded(c));
    base64_unpadded_injective(c, b);
}

} // verus!
