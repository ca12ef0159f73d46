//! Laws of time limits.

use super::status::states;
use super::{absent_text_is_none, carried_text_is_read, carries, lacks, lower_case};
use crate::server::dispatch::extract_timeout;
use crate::status::{Code, Status};
use crate::text::{all_digits, debug_quoted, decimal, digits_value};
use crate::timeout::{
    ceil_div, fits, format_grpc_timeout, nanos_of, parse_grpc_timeout, smallest_unit,
    timeout_nanos, timeout_text, unit_nanos,
};
use core::time::Duration;
use trillium_http::Headers;
use vstd::prelude::*;

verus! {

/// The units of a time limit, and how many nanoseconds each lasts.
pub open spec fn lasts(unit: char, nanos: nat) -> bool {
    ||| unit == 'n' && nanos == 1
    ||| unit == 'u' && nanos == 1_000
    ||| unit == 'm' && nanos == 1_000 * 1_000
    ||| unit == 'S' && nanos == 1_000 * 1_000 * 1_000
    ||| unit == 'M' && nanos == 60 * 1_000 * 1_000 * 1_000
    ||| unit == 'H' && nanos == 60 * 60 * 1_000 * 1_000 * 1_000
}

/// Whether a header value is one to eight digits and a unit that lasts `nanos`.
pub open spec fn limit_form(text: Seq<char>, digits: Seq<char>, unit: char, nanos: nat) -> bool {
    &&& text == digits.push(unit)
    &&& 1 <= digits.len() <= 8
    &&& forall|i: int| 0 <= i < digits.len() ==> '0' as u32 <= #[trigger] digits[i] as u32 <= '9' as u32
    &&& lasts(unit, nanos)
}

/// A header value of the right form is read as the number times the unit.
pub proof fn form_is_read(text: Seq<char>, digits: Seq<char>, unit: char, nanos: nat)
    requires
        limit_form(text, digits, unit, nanos),
    ensures
        timeout_nanos(text) == Some(digits_value(digits) * nanos),
{
    assert(text.drop_last() =~= digits);
    assert(all_digits(digits));
    assert(unit_nanos(unit) == Some(nanos));
}

/// What is read as a limit has the form of one.
pub proof fn read_has_form(text: Seq<char>)
    requires
        timeout_nanos(text) is Some,
    ensures
        exists|digits: Seq<char>, unit: char, nanos: nat| #[trigger]
            limit_form(text, digits, unit, nanos),
{
    let digits = text.drop_last();
    let unit = text.last();
    assert(text =~= digits.push(unit));
    assert forall|i: int| 0 <= i < digits.len() implies '0' as u32 <= #[trigger] digits[i] as u32
        <= '9' as u32 by {
        assert(crate::text::is_digit(digits[i]));
    }
    assert(limit_form(text, digits, unit, unit_nanos(unit)->0));
}

/// A header value of digits and a unit is read as the number times the unit.
pub proof fn a_limit_is_number_times_unit(
    s: &str,
    digits: Seq<char>,
    unit: char,
    nanos: nat,
    r: Option<Duration>,
)
    requires
        call_ensures(parse_grpc_timeout, (s,), r),
        limit_form(s@, digits, unit, nanos),
    ensures
        r is Some,
        nanos_of(r->0) == digits_value(digits) * nanos,
{
    form_is_read(s@, digits, unit, nanos);
}

/// Nothing else is read as a time limit.
pub proof fn other_limits_are_refused(s: &str, r: Option<Duration>)
    requires
        call_ensures(parse_grpc_timeout, (s,), r),
        r is Some,
    ensures
        exists|digits: Seq<char>, unit: char, nanos: nat| #[trigger]
            limit_form(s@, digits, unit, nanos),
{
    read_has_form(s@);
}

/// How a time limit of `nanos` nanoseconds is written, as `number` units that last
/// `length`: the number has at most eight digits; it is the least whose units last as
/// long; and in every finer unit it would have more than eight digits. Where even
/// hours do not do, it is 99,999,999 of them.
pub open spec fn written_as(nanos: nat, number: nat, unit: char, length: nat) -> bool {
    &&& lasts(unit, length)
    &&& number <= 99_999_999
    &&& if nanos <= 99_999_999 * (60 * 60 * 1_000 * 1_000 * 1_000) {
        nanos <= number * length < nanos + length
    } else {
        number == 99_999_999 && unit == 'H'
    }
    &&& forall|finer: char, short: nat|
        #[trigger] lasts(finer, short) && short < length ==> nanos > 99_999_999 * short
}

proof fn rounding(nanos: nat, unit: nat)
    requires
        unit > 0,
    ensures
        nanos <= ceil_div(nanos, unit) * unit < nanos + unit,
{
    let value = ceil_div(nanos, unit);
    assert(nanos <= value * unit < nanos + unit) by (nonlinear_arith)
        requires
            unit > 0,
            value == (if nanos % unit == 0 {
                nanos / unit
            } else {
                nanos / unit + 1
            }),
    ;
}

proof fn too_long_for(nanos: nat, suffix: char)
    requires
        unit_nanos(suffix) is Some,
    ensures
        fits(nanos, suffix) <==> nanos <= 99_999_999 * unit_nanos(suffix)->0,
{
    let unit = unit_nanos(suffix)->0;
    let value = ceil_div(nanos, unit);
    rounding(nanos, unit);
    if value <= 99_999_999 {
        assert(value * unit <= 99_999_999 * unit) by (nonlinear_arith)
            requires
                value <= 99_999_999,
        ;
    } else {
        assert(value * unit >= 100_000_000 * unit) by (nonlinear_arith)
            requires
                value >= 100_000_000,
        ;
        assert(100_000_000 * unit == 99_999_999 * unit + unit) by (nonlinear_arith);
    }
}

/// A time limit is written in the finest unit that eight digits leave room for,
/// rounded up.
pub proof fn the_finest_unit_is_written(d: Duration, r: String)
    requires
        call_ensures(format_grpc_timeout, (d,), r),
    ensures
        exists|number: nat, unit: char, length: nat| #[trigger]
            written_as(nanos_of(d), number, unit, length) && r@ == decimal(number).push(unit),
{
    text_is_written_as(nanos_of(d));
}

/// The text of a time limit, in the finest unit that eight digits leave room for.
pub proof fn text_is_written_as(nanos: nat)
    ensures
        exists|number: nat, unit: char, length: nat| #[trigger]
            written_as(nanos, number, unit, length) && timeout_text(nanos) == decimal(number).push(
                unit,
            ),
{
    too_long_for(nanos, 'n');
    too_long_for(nanos, 'u');
    too_long_for(nanos, 'm');
    too_long_for(nanos, 'S');
    too_long_for(nanos, 'M');
    too_long_for(nanos, 'H');
    match smallest_unit(nanos) {
        Some(unit) => {
            let length = unit_nanos(unit)->0;
            let number = ceil_div(nanos, length);
            rounding(nanos, length);
            assert(lasts(unit, length));
            assert(written_as(nanos, number, unit, length));
        },
        None => {
            assert(lasts('H', 3_600_000_000_000));
            assert(written_as(nanos, 99_999_999, 'H', 3_600_000_000_000));
        },
    }
}

/// What is written is not longer than what was asked for by a unit that eight digits
/// leave room for: up to 99,999,999 nanoseconds it is exact, up to as many
/// microseconds it is less than a microsecond more, and so on.
pub proof fn rounding_is_as_small_as_can_be(d: Duration, text: String, s: &str, r: Option<Duration>)
    requires
        call_ensures(format_grpc_timeout, (d,), text),
        s@ == text@,
        call_ensures(parse_grpc_timeout, (s,), r),
    ensures
        r is Some,
        nanos_of(d) <= 99_999_999 ==> nanos_of(r->0) == nanos_of(d),
        forall|unit: char, length: nat|
            #[trigger] lasts(unit, length) && nanos_of(d) <= 99_999_999 * length ==> nanos_of(d)
                <= nanos_of(r->0) < nanos_of(d) + length,
        nanos_of(d) > 99_999_999 * (60 * 60 * 1_000 * 1_000 * 1_000) ==> nanos_of(r->0)
            == 99_999_999 * (60 * 60 * 1_000 * 1_000 * 1_000),
{
    let nanos = nanos_of(d);
    text_is_written_as(nanos);
    let (number, unit, length) = choose|number: nat, unit: char, length: nat| #[trigger]
        written_as(nanos, number, unit, length) && timeout_text(nanos) == decimal(number).push(
            unit,
        );
    crate::timeout::parse_written(number, unit);
    assert(unit_nanos(unit) == Some(length));
    assert(lasts('n', 1));
    assert forall|other: char, long: nat| #[trigger]
        lasts(other, long) && nanos <= 99_999_999 * long implies nanos <= nanos_of(r->0) < nanos
        + long by {
        assert(!(long < length));
    }
}

proof fn limit_name()
    ensures
        lower_case("grpc-timeout"@),
{
    reveal_strlit("grpc-timeout");
}

/// The server runs a call with the time limit that its header says.
pub proof fn the_header_is_the_limit(
    h: &Headers,
    text: Seq<char>,
    digits: Seq<char>,
    unit: char,
    nanos: nat,
    r: Result<Option<Duration>, Status>,
)
    requires
        call_ensures(extract_timeout, (h,), r),
        carries(*h, "grpc-timeout"@, text),
        limit_form(text, digits, unit, nanos),
    ensures
        r matches Ok(Some(limit)) && nanos_of(limit) == digits_value(digits) * nanos,
{
    limit_name();
    carried_text_is_read(*h, "grpc-timeout"@, text);
    form_is_read(text, digits, unit, nanos);
}

/// Without the header there is no time limit.
pub proof fn no_header_no_limit(h: &Headers, r: Result<Option<Duration>, Status>)
    requires
        call_ensures(extract_timeout, (h,), r),
        lacks(*h, "grpc-timeout"@),
    ensures
        r matches Ok(None),
{
    limit_name();
    absent_text_is_none(*h, "grpc-timeout"@);
}

/// A header of any other form is answered with `InvalidArgument`.
pub proof fn a_malformed_limit_is_refused(
    h: &Headers,
    text: Seq<char>,
    r: Result<Option<Duration>, Status>,
)
    requires
        call_ensures(extract_timeout, (h,), r),
        carries(*h, "grpc-timeout"@, text),
        forall|digits: Seq<char>, unit: char, nanos: nat|
            !(#[trigger] limit_form(text, digits, unit, nanos)),
    ensures
        r matches Err(status) && states(
            status,
            Code::InvalidArgument,
            "malformed grpc-timeout "@ + debug_quoted(text),
        ),
{
    limit_name();
    carried_text_is_read(*h, "grpc-timeout"@, text);
    if timeout_nanos(text) is Some {
        read_has_form(text);
    }
}

} // verus!
