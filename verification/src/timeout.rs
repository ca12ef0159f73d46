//! `grpc-timeout` header codec.
//!
//! The wire format is `<positive_integer><unit>` where unit is one of
//! `H`, `M`, `S`, `m`, `u`, `n` (hour, minute, second, millisecond,
//! microsecond, nanosecond). The integer is at most 8 ASCII digits.
//!
//! When formatting a `Duration` we pick the smallest unit that fits in 8
//! digits and round *up*, so the wire value is at least the requested
//! duration: we never advertise a tighter deadline than asked, up to the
//! largest value that the format can hold.

use crate::text::{chars_of, decimal_string, parse_digits};
use core::time::Duration;
use vstd::prelude::*;

verus! {

/// The largest number that fits in 8 digits.
pub const MAX_VALUE: u128 = 99_999_999;

/// The length of a duration in nanoseconds.
pub uninterp spec fn nanos_of(d: Duration) -> nat;

/// `Duration::as_nanos` gives the length in nanoseconds.
pub assume_specification[ Duration::as_nanos ](d: &Duration) -> (n: u128)
    ensures
        n == nanos_of(*d),
;

/// `Duration::new` makes the duration of that many seconds and nanoseconds.
pub assume_specification[ Duration::new ](secs: u64, nanos: u32) -> (d: Duration)
    requires
        nanos < 1_000_000_000,
    ensures
        nanos_of(d) == secs * 1_000_000_000 + nanos,
;

/// The length of a unit in nanoseconds.
pub open spec fn unit_nanos(suffix: char) -> Option<nat> {
    if suffix == 'n' {
        Some(1)
    } else if suffix == 'u' {
        Some(1_000)
    } else if suffix == 'm' {
        Some(1_000_000)
    } else if suffix == 'S' {
        Some(1_000_000_000)
    } else if suffix == 'M' {
        Some(60_000_000_000)
    } else if suffix == 'H' {
        Some(3_600_000_000_000)
    } else {
        None
    }
}

/// The least number of units of `unit` nanoseconds that last `nanos`
/// nanoseconds or more.
pub open spec fn ceil_div(nanos: nat, unit: nat) -> nat {
    if nanos % unit == 0 {
        nanos / unit
    } else {
        nanos / unit + 1
    }
}

/// Whether `nanos`, rounded up to units of `suffix`, fits in 8 digits.
pub open spec fn fits(nanos: nat, suffix: char) -> bool {
    ceil_div(nanos, unit_nanos(suffix)->0) <= 99_999_999
}

/// The smallest unit in which `nanos` fits; nothing if not even hours do.
pub open spec fn smallest_unit(nanos: nat) -> Option<char> {
    if fits(nanos, 'n') {
        Some('n')
    } else if fits(nanos, 'u') {
        Some('u')
    } else if fits(nanos, 'm') {
        Some('m')
    } else if fits(nanos, 'S') {
        Some('S')
    } else if fits(nanos, 'M') {
        Some('M')
    } else if fits(nanos, 'H') {
        Some('H')
    } else {
        None
    }
}

/// The header value for a timeout of `nanos` nanoseconds.
pub open spec fn timeout_text(nanos: nat) -> Seq<char> {
    match smallest_unit(nanos) {
        Some(suffix) => crate::text::decimal(ceil_div(nanos, unit_nanos(suffix)->0)).push(suffix),
        None => crate::text::decimal(99_999_999).push('H'),
    }
}

/// The timeout, in nanoseconds, that a header value stands for: one to eight
/// digits and a unit. Nothing if it is malformed.
pub open spec fn timeout_nanos(text: Seq<char>) -> Option<nat> {
    if text.len() < 2 || text.len() > 9 || !crate::text::all_digits(text.drop_last()) {
        None
    } else {
        match unit_nanos(text.last()) {
            Some(unit) => Some(crate::text::digits_value(text.drop_last()) * unit),
            None => None,
        }
    }
}

/// How many units of `unit` nanoseconds `nanos` needs, rounded up.
fn div_ceil(nanos: u128, unit: u128) -> (r: u128)
    requires
        unit > 0,
    ensures
        r == ceil_div(nanos as nat, unit as nat),
{
    let whole: u128 = nanos / unit;
    if nanos % unit == 0 {
        whole
    } else {
        assert(whole < u128::MAX) by (nonlinear_arith)
            requires
                whole == nanos / unit,
                nanos % unit != 0,
                unit > 0,
        ;
        whole + 1
    }
}

/// Format a [`Duration`] as a `grpc-timeout` header value.
///
/// Picks the smallest unit such that the rounded-up integer value fits in
/// 8 digits. Durations longer than 99,999,999 hours saturate to that.
pub fn format_grpc_timeout(d: Duration) -> (r: String)
    ensures
        r@ == timeout_text(nanos_of(d)),
{
    let nanos: u128 = d.as_nanos();
    let n: u128 = div_ceil(nanos, 1);
    let u: u128 = div_ceil(nanos, 1_000);
    let m: u128 = div_ceil(nanos, 1_000_000);
    let s: u128 = div_ceil(nanos, 1_000_000_000);
    let min: u128 = div_ceil(nanos, 60_000_000_000);
    let h: u128 = div_ceil(nanos, 3_600_000_000_000);
    let (value, suffix): (u128, char) = if n <= MAX_VALUE {
        (n, 'n')
    } else if u <= MAX_VALUE {
        (u, 'u')
    } else if m <= MAX_VALUE {
        (m, 'm')
    } else if s <= MAX_VALUE {
        (s, 'S')
    } else if min <= MAX_VALUE {
        (min, 'M')
    } else if h <= MAX_VALUE {
        (h, 'H')
    } else {
        (MAX_VALUE, 'H')
    };
    let mut out = decimal_string(value);
    out.push(suffix);
    out
}

/// Parse a `grpc-timeout` header value into a [`Duration`]. Returns `None`
/// for malformed input (empty, missing/unknown unit, non-digit body, or more
/// than 8 digits).
pub fn parse_grpc_timeout(s: &str) -> (r: Option<Duration>)
    ensures
        r is Some <==> timeout_nanos(s@) is Some,
        r is Some ==> timeout_nanos(s@) == Some(nanos_of(r->0)),
{
    let chars = chars_of(s);
    if chars.len() < 2 || chars.len() > 9 {
        return None;
    }
    let last: usize = chars.len() - 1;
    let unit: u64 = match suffix_nanos(chars[last]) {
        Some(unit) => unit,
        None => {
            return None;
        },
    };
    assert(chars@.subrange(0, last as int) =~= s@.drop_last());
    proof {
        if crate::text::all_digits(s@.drop_last()) {
            eight_digits(s@.drop_last());
        }
    }
    let value: u64 = match parse_digits(&chars, 0, last, 99_999_999) {
        Some(value) => value,
        None => {
            return None;
        },
    };
    assert(value * unit <= 99_999_999 * 3_600_000_000_000) by (nonlinear_arith)
        requires
            value <= 99_999_999,
            unit <= 3_600_000_000_000,
    ;
    let total: u128 = value as u128 * unit as u128;
    let secs: u64 = (total / 1_000_000_000) as u64;
    let nanos: u32 = (total % 1_000_000_000) as u32;
    Some(Duration::new(secs, nanos))
}

/// What at most eight digits stand for is at most 99,999,999.
proof fn eight_digits(s: Seq<char>)
    requires
        crate::text::all_digits(s),
        s.len() <= 8,
    ensures
        crate::text::digits_value(s) <= 99_999_999,
{
    crate::text::digits_value_bound(s);
    vstd::arithmetic::power::lemma_pow_increases(10, s.len(), 8);
    assert(vstd::arithmetic::power::pow(10, 8) == 100_000_000) by {
        reveal_with_fuel(vstd::arithmetic::power::pow, 9);
    }
}

fn suffix_nanos(suffix: char) -> (r: Option<u64>)
    ensures
        r is Some <==> unit_nanos(suffix) is Some,
        r is Some ==> unit_nanos(suffix) == Some(r->0 as nat) && r->0 <= 3_600_000_000_000,
{
    if suffix == 'n' {
        Some(1)
    } else if suffix == 'u' {
        Some(1_000)
    } else if suffix == 'm' {
        Some(1_000_000)
    } else if suffix == 'S' {
        Some(1_000_000_000)
    } else if suffix == 'M' {
        Some(60_000_000_000)
    } else if suffix == 'H' {
        Some(3_600_000_000_000)
    } else {
        None
    }
}

// ---------------------------------------------------------------------------
// Laws

/// The longest timeout that can be written, in nanoseconds: 99,999,999 hours.
pub open spec fn longest_timeout() -> nat {
    99_999_999 * 3_600_000_000_000
}

/// A number of at most eight digits and a unit read back as their product.
pub proof fn parse_written(value: nat, suffix: char)
    requires
        value <= 99_999_999,
        unit_nanos(suffix) is Some,
    ensures
        timeout_nanos(crate::text::decimal(value).push(suffix)) == Some(
            value * unit_nanos(suffix)->0,
        ),
{
    crate::text::decimal_round_trip(value);
    fits_in_eight(value);
    assert(crate::text::decimal(value).push(suffix).drop_last() =~= crate::text::decimal(value));
}

/// A formatted timeout that does not saturate reads back as a duration that
/// is at least the one asked for, and longer by less than one unit.
pub proof fn never_tighter(nanos: nat)
    requires
        nanos <= longest_timeout(),
    ensures
        smallest_unit(nanos) is Some,
        timeout_nanos(timeout_text(nanos)) matches Some(parsed) && nanos <= parsed < nanos
            + unit_nanos(smallest_unit(nanos)->0)->0,
{
    assert(fits(nanos, 'H'));
    let suffix = smallest_unit(nanos)->0;
    let unit = unit_nanos(suffix)->0;
    let value = ceil_div(nanos, unit);
    parse_written(value, suffix);
    assert(nanos <= value * unit < nanos + unit) by (nonlinear_arith)
        requires
            unit > 0,
            value == (if nanos % unit == 0 {
                nanos / unit
            } else {
                nanos / unit + 1
            }),
    ;
}

/// A duration that is a whole number of the unit chosen for it survives the
/// round trip exactly.
pub proof fn exact_round_trip(nanos: nat)
    requires
        nanos <= longest_timeout(),
        nanos % unit_nanos(smallest_unit(nanos)->0)->0 == 0,
    ensures
        timeout_nanos(timeout_text(nanos)) == Some(nanos),
{
    never_tighter(nanos);
    let unit = unit_nanos(smallest_unit(nanos)->0)->0;
    let value = ceil_div(nanos, unit);
    parse_written(value, smallest_unit(nanos)->0);
    assert(value * unit == nanos) by (nonlinear_arith)
        requires
            unit > 0,
            nanos % unit == 0,
            value == nanos / unit,
    ;
}

/// What a header value stands for survives being written again, in whatever unit.
pub proof fn rewritten_is_the_same(text: Seq<char>)
    requires
        timeout_nanos(text) is Some,
    ensures
        timeout_nanos(timeout_text(timeout_nanos(text)->0)) == timeout_nanos(text),
{
    let nanos = timeout_nanos(text)->0;
    let value = crate::text::digits_value(text.drop_last());
    let suffix = text.last();
    eight_digits(text.drop_last());
    if suffix == 'n' {
        assert(nanos == value * 1);
        assert(fits(nanos, 'n'));
    } else if suffix == 'u' {
        assert(nanos == value * 1_000);
        assert(nanos % 1_000 == 0 && nanos / 1_000 == value);
        assert(fits(nanos, 'u'));
    } else if suffix == 'm' {
        assert(nanos == value * 1_000_000);
        assert(nanos % 1_000 == 0);
        assert(nanos % 1_000_000 == 0 && nanos / 1_000_000 == value);
        assert(fits(nanos, 'm'));
    } else if suffix == 'S' {
        assert(nanos == value * 1_000_000_000);
        assert(nanos % 1_000 == 0);
        assert(nanos % 1_000_000 == 0);
        assert(nanos % 1_000_000_000 == 0 && nanos / 1_000_000_000 == value);
        assert(fits(nanos, 'S'));
    } else if suffix == 'M' {
        assert(nanos == value * 60_000_000_000);
        assert(nanos % 1_000 == 0);
        assert(nanos % 1_000_000 == 0);
        assert(nanos % 1_000_000_000 == 0);
        assert(nanos % 60_000_000_000 == 0 && nanos / 60_000_000_000 == value);
        assert(fits(nanos, 'M'));
    } else {
        assert(nanos == value * 3_600_000_000_000);
        assert(nanos % 1_000 == 0);
        assert(nanos % 1_000_000 == 0);
        assert(nanos % 1_000_000_000 == 0);
        assert(nanos % 60_000_000_000 == 0);
        assert(nanos % 3_600_000_000_000 == 0 && nanos / 3_600_000_000_000 == value);
        assert(fits(nanos, 'H'));
    }
    exact_round_trip(nanos);
}

/// Longer durations saturate at 99,999,999 hours.
pub proof fn saturation(nanos: nat)
    requires
        nanos > longest_timeout(),
    ensures
        timeout_nanos(timeout_text(nanos)) == Some(longest_timeout()),
{
    assert(!fits(nanos, 'n'));
    assert(!fits(nanos, 'u'));
    assert(!fits(nanos, 'm'));
    assert(!fits(nanos, 'S'));
    assert(!fits(nanos, 'M'));
    assert(!fits(nanos, 'H'));
    parse_written(99_999_999, 'H');
}

proof fn decimal_len(n: nat, digits: nat)
    requires
        digits > 0,
        n < vstd::arithmetic::power::pow(10, digits),
    ensures
        crate::text::decimal(n).len() <= digits,
    decreases digits,
{
    if n >= 10 {
        vstd::arithmetic::power::lemma_pow1(10);
        if digits == 1 {
            assert(false);
        }
        vstd::arithmetic::power::lemma_pow_adds(10, 1, (digits - 1) as nat);
        decimal_len(n / 10, (digits - 1) as nat);
    }
}

/// A number up to 99,999,999 is written with at most eight digits.
proof fn fits_in_eight(value: nat)
    requires
        value <= 99_999_999,
    ensures
        crate::text::decimal(value).len() <= 8,
{
    assert(vstd::arithmetic::power::pow(10, 8) == 100_000_000) by {
        reveal_with_fuel(vstd::arithmetic::power::pow, 9);
    }
    decimal_len(value, 8);
}

/// The number in a header value never has more than 8 digits.
pub proof fn at_most_eight_digits(nanos: nat)
    ensures
        2 <= timeout_text(nanos).len() <= 9,
{
    let value = match smallest_unit(nanos) {
        Some(suffix) => ceil_div(nanos, unit_nanos(suffix)->0),
        None => 99_999_999,
    };
    fits_in_eight(value);
    crate::text::decimal_round_trip(value);
}

} // verus!
