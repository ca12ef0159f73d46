//! Laws of statuses.

use super::metadata::insertable;
use super::{absent_text_is_none, carried_text_is_read, carries, lacks, lower_case, lower_case_is_kept};
use crate::headers::{header_map, inserted, values_of};
use crate::metadata::{
    appended, appended_values, reserved_untouched, valid_entries, values_for, Metadata, ValueView,
};
use crate::status::{
    clone_verdict, hex_nibble, hex_value, code_of_text, percent_byte, percent_decode, percent_decoded, percent_encode,
    percent_encoded, trailers_code, unescaped, unsigned_value, written, Code, Status,
};
use crate::text::{all_digits, decimal, decimal_round_trip, digits_value};
use trillium_http::Headers;
use vstd::prelude::*;
use vstd::utf8::{decode_utf8, encode_utf8, valid_utf8};

verus! {

/// The numbers and the names of the codes.
pub open spec fn numbered(code: Code, number: nat, name: Seq<char>) -> bool {
    ||| code == Code::OK && number == 0 && name == "Ok"@
    ||| code == Code::Cancelled && number == 1 && name == "Cancelled"@
    ||| code == Code::Unknown && number == 2 && name == "Unknown"@
    ||| code == Code::InvalidArgument && number == 3 && name == "InvalidArgument"@
    ||| code == Code::DeadlineExceeded && number == 4 && name == "DeadlineExceeded"@
    ||| code == Code::NotFound && number == 5 && name == "NotFound"@
    ||| code == Code::AlreadyExists && number == 6 && name == "AlreadyExists"@
    ||| code == Code::PermissionDenied && number == 7 && name == "PermissionDenied"@
    ||| code == Code::ResourceExhausted && number == 8 && name == "ResourceExhausted"@
    ||| code == Code::FailedPrecondition && number == 9 && name == "FailedPrecondition"@
    ||| code == Code::Aborted && number == 10 && name == "Aborted"@
    ||| code == Code::OutOfRange && number == 11 && name == "OutOfRange"@
    ||| code == Code::Unimplemented && number == 12 && name == "Unimplemented"@
    ||| code == Code::Internal && number == 13 && name == "Internal"@
    ||| code == Code::Unavailable && number == 14 && name == "Unavailable"@
    ||| code == Code::DataLoss && number == 15 && name == "DataLoss"@
    ||| code == Code::Unauthenticated && number == 16 && name == "Unauthenticated"@
}

/// Whether a code has a number.
pub open spec fn has_number(code: Code, number: nat) -> bool {
    exists|name: Seq<char>| #[trigger] numbered(code, number, name)
}

/// Every code has its number and its name.
pub proof fn codes_are_numbered(code: Code, number: u8, name: &str)
    requires
        call_ensures(Code::as_u8, (code,), number),
        call_ensures(Code::as_str, (code,), name),
    ensures
        numbered(code, number as nat, name@),
{
}

/// A number is read as the code that has it; a number over 16 as none.
pub proof fn numbers_are_codes(number: u8, r: Option<Code>)
    requires
        call_ensures(Code::from_u8, (number,), r),
    ensures
        r matches Some(code) ==> has_number(code, number as nat),
        r is None <==> number > 16,
{
    if let Some(code) = r {
        assert(numbered(code, number as nat, code.name()));
    }
}

/// Every code has a number and a name.
pub proof fn number_of(code: Code)
    ensures
        numbered(code, code.number() as nat, code.name()),
        has_number(code, code.number() as nat),
{
    assert(numbered(code, code.number() as nat, code.name()));
}

/// A status is shown as the name of its code, a colon and its message.
pub proof fn statuses_are_shown(s: &Status, number: nat, name: Seq<char>, r: String)
    requires
        call_ensures(Status::display, (s,), r),
        numbered(s.code, number, name),
    ensures
        r@ == name + ": "@ + s.message@,
{
}

/// A new status has the code and the message that it is given, and no metadata.
pub proof fn new_statuses(code: Code, message: &str, r: Status)
    requires
        call_ensures(Status::new, (code, message), r),
    ensures
        r.code == code,
        r.message@ == message@,
        r.metadata@.len() == 0,
{
    assert(r@.code == code && r@.message == message@ && r@.metadata.len() == 0);
}

/// Whether a status has a code, a message and no metadata.
pub open spec fn states(s: Status, code: Code, message: Seq<char>) -> bool {
    s.code == code && s.message@ == message && s.metadata@.len() == 0
}

/// Each constructor makes a status of the code that it is named after.
pub proof fn constructors(message: &str, s: Status)
    ensures
        call_ensures(Status::cancelled, (message,), s) ==> states(s, Code::Cancelled, message@),
        call_ensures(Status::unknown, (message,), s) ==> states(s, Code::Unknown, message@),
        call_ensures(Status::invalid_argument, (message,), s) ==> states(
            s,
            Code::InvalidArgument,
            message@,
        ),
        call_ensures(Status::deadline_exceeded, (message,), s) ==> states(
            s,
            Code::DeadlineExceeded,
            message@,
        ),
        call_ensures(Status::not_found, (message,), s) ==> states(s, Code::NotFound, message@),
        call_ensures(Status::already_exists, (message,), s) ==> states(
            s,
            Code::AlreadyExists,
            message@,
        ),
        call_ensures(Status::permission_denied, (message,), s) ==> states(
            s,
            Code::PermissionDenied,
            message@,
        ),
        call_ensures(Status::resource_exhausted, (message,), s) ==> states(
            s,
            Code::ResourceExhausted,
            message@,
        ),
        call_ensures(Status::failed_precondition, (message,), s) ==> states(
            s,
            Code::FailedPrecondition,
            message@,
        ),
        call_ensures(Status::aborted, (message,), s) ==> states(s, Code::Aborted, message@),
        call_ensures(Status::out_of_range, (message,), s) ==> states(s, Code::OutOfRange, message@),
        call_ensures(Status::unimplemented, (message,), s) ==> states(
            s,
            Code::Unimplemented,
            message@,
        ),
        call_ensures(Status::internal, (message,), s) ==> states(s, Code::Internal, message@),
        call_ensures(Status::unavailable, (message,), s) ==> states(s, Code::Unavailable, message@),
        call_ensures(Status::data_loss, (message,), s) ==> states(s, Code::DataLoss, message@),
        call_ensures(Status::unauthenticated, (message,), s) ==> states(
            s,
            Code::Unauthenticated,
            message@,
        ),
        call_ensures(Status::ok, (), s) ==> states(s, Code::OK, Seq::empty()),
{
    assert(s@.code == s.code && s@.message == s.message@ && s@.metadata == s.metadata@);
}

/// Metadata is attached without changing anything else, and success is code `OK`.
pub proof fn attached_metadata(s: Status, metadata: Metadata, r: Status, ok: bool)
    requires
        call_ensures(Status::with_metadata, (s, metadata), r),
        call_ensures(Status::is_ok, (&s,), ok),
    ensures
        r.code == s.code,
        r.message@ == s.message@,
        r.metadata@ == metadata@,
        ok <==> s.code == Code::OK,
{
    assert(r@.code == s@.code && r@.message == s@.message && r@.metadata == metadata@);
}

// ---------------------------------------------------------------------------
// Messages

/// An upper-case hexadecimal digit.
pub open spec fn hex(c: char, n: int) -> bool {
    ||| 0 <= n < 10 && c as u32 == '0' as u32 + n
    ||| 10 <= n < 16 && c as u32 == 'A' as u32 + (n - 10)
}

/// A hexadecimal digit of either case, as a byte.
pub open spec fn hex_byte(b: u8, n: int) -> bool {
    ||| 0 <= n < 10 && b == 0x30 + n
    ||| 10 <= n < 16 && (b == 0x41 + (n - 10) || b == 0x61 + (n - 10))
}

/// A message is encoded byte by byte: printable ASCII other than `%` as it is, every
/// other byte as `%` and its two digits.
pub proof fn bytes_are_encoded(b: u8, rest: Seq<u8>)
    ensures
        percent_encoded(Seq::empty()) == Seq::<char>::empty(),
        0x20 <= b <= 0x7E && b != '%' as u32 ==> percent_encoded(seq![b] + rest) == seq![b as char]
            + percent_encoded(rest),
        !(0x20 <= b <= 0x7E && b != '%' as u32) ==> exists|high: char, low: char|
            #[trigger] hex(high, b as int / 16) && #[trigger] hex(low, b as int % 16)
                && percent_encoded(seq![b] + rest) == seq!['%', high, low] + percent_encoded(rest),
{
    let all = seq![b] + rest;
    assert(all.skip(1) =~= rest);
    assert(all[0] == b);
    if !(0x20 <= b <= 0x7E && b != '%' as u32) {
        let high = percent_byte(b)[1];
        let low = percent_byte(b)[2];
        assert(hex(high, b as int / 16));
        assert(hex(low, b as int % 16));
        assert(percent_byte(b) =~= seq!['%', high, low]);
    }
}

/// What is encoded is the UTF-8 of the message.
pub proof fn messages_are_encoded(s: &str, r: String)
    requires
        call_ensures(percent_encode, (s,), r),
    ensures
        r@ == percent_encoded(encode_utf8(s@)),
{
}

/// `%` and two hexadecimal digits are decoded as the byte that they stand for.
pub proof fn escapes_are_decoded(x: u8, y: u8, high: int, low: int, rest: Seq<u8>)
    requires
        hex_byte(x, high),
        hex_byte(y, low),
    ensures
        unescaped(seq!['%' as u8, x, y] + rest) == seq![(16 * high + low) as u8] + unescaped(rest),
{
    let all = seq!['%' as u8, x, y] + rest;
    assert(all.skip(3) =~= rest);
    assert(all[0] == 0x25);
    assert(all[1] == x && all[2] == y);
    assert(crate::status::hex_digit_value(x) == Some(high as u8));
    assert(crate::status::hex_digit_value(y) == Some(low as u8));
}

/// A byte that does not start an escape is kept.
pub proof fn other_bytes_are_kept(b: u8, rest: Seq<u8>)
    requires
        b != '%' as u8 || rest.len() < 2 || (forall|n: int| !(#[trigger] hex_byte(rest[0], n))) || (
        forall|n: int| !(#[trigger] hex_byte(rest[1], n))),
    ensures
        unescaped(seq![b] + rest) == seq![b] + unescaped(rest),
        unescaped(Seq::empty()) == Seq::<u8>::empty(),
{
    let all = seq![b] + rest;
    assert(all.skip(1) =~= rest);
    assert(all[0] == b);
    if crate::status::escape_first(all) {
        assert(all[1] == rest[0] && all[2] == rest[1]);
        let v = crate::status::hex_digit_value(rest[0])->0;
        let w = crate::status::hex_digit_value(rest[1])->0;
        assert(hex_byte(rest[0], v as int));
        assert(hex_byte(rest[1], w as int));
    }
}

/// What is decoded is the UTF-8 of the text, and the bytes that come out are a text
/// again where they are UTF-8.
pub proof fn messages_are_decoded(s: &str, r: String)
    requires
        call_ensures(percent_decode, (s,), r),
        valid_utf8(unescaped(encode_utf8(s@))),
    ensures
        r@ == decode_utf8(unescaped(encode_utf8(s@))),
{
}

/// A message that was encoded is decoded again.
pub proof fn messages_survive(s: &str, text: String, t: &str, r: String)
    requires
        call_ensures(percent_encode, (s,), text),
        t@ == text@,
        call_ensures(percent_decode, (t,), r),
    ensures
        r@ == s@,
{
    crate::status::percent_round_trip(s@);
}

// ---------------------------------------------------------------------------
// Trailers

/// The two names that carry a status.
pub proof fn trailer_names()
    ensures
        lower_case("grpc-status"@),
        lower_case("grpc-message"@),
        "grpc-status"@ != "grpc-message"@,
{
    reveal_strlit("grpc-status");
    reveal_strlit("grpc-message");
    assert("grpc-status"@.len() != "grpc-message"@.len());
}

/// Whether a text is a number in decimal digits, with or without a `+` before it.
pub open spec fn number_text(text: Seq<char>, digits: Seq<char>) -> bool {
    &&& text == digits || text == seq!['+'] + digits
    &&& digits.len() > 0
    &&& forall|i: int| 0 <= i < digits.len() ==> '0' as u32 <= #[trigger] digits[i] as u32 <= '9' as u32
}

proof fn number_is_read(text: Seq<char>, digits: Seq<char>)
    requires
        number_text(text, digits),
    ensures
        unsigned_value(text) == Some(digits_value(digits)),
{
    assert(all_digits(digits));
    if text == seq!['+'] + digits {
        assert(text[0] == '+');
        assert(text.skip(1) =~= digits);
    } else {
        assert('0' as u32 <= text[0] as u32);
    }
}

/// Every number up to 16 has a code.
pub proof fn code_of(n: nat)
    requires
        n <= 16,
    ensures
        has_number(crate::status::code_of_number(n), n),
{
    let known = if n == 0 {
        Code::OK
    } else if n == 1 {
        Code::Cancelled
    } else if n == 2 {
        Code::Unknown
    } else if n == 3 {
        Code::InvalidArgument
    } else if n == 4 {
        Code::DeadlineExceeded
    } else if n == 5 {
        Code::NotFound
    } else if n == 6 {
        Code::AlreadyExists
    } else if n == 7 {
        Code::PermissionDenied
    } else if n == 8 {
        Code::ResourceExhausted
    } else if n == 9 {
        Code::FailedPrecondition
    } else if n == 10 {
        Code::Aborted
    } else if n == 11 {
        Code::OutOfRange
    } else if n == 12 {
        Code::Unimplemented
    } else if n == 13 {
        Code::Internal
    } else if n == 14 {
        Code::Unavailable
    } else if n == 15 {
        Code::DataLoss
    } else {
        Code::Unauthenticated
    };
    assert(known.number() == n);
    let code = crate::status::code_of_number(n);
    assert(code.number() == n);
    number_of(code);
}

/// The code of a number.
pub proof fn code_is_found(text: Seq<char>, digits: Seq<char>)
    requires
        number_text(text, digits),
    ensures
        digits_value(digits) <= 16 ==> has_number(code_of_text(text), digits_value(digits)),
        digits_value(digits) > 16 ==> code_of_text(text) == Code::Unknown,
{
    number_is_read(text, digits);
    if digits_value(digits) <= 16 {
        code_of(digits_value(digits));
    }
}

/// Trailers with a known number are the outcome of its code: success for zero, and
/// otherwise an error with that code. A number that no code has is `Unknown`.
pub proof fn the_number_is_the_outcome(
    h: &Headers,
    text: Seq<char>,
    digits: Seq<char>,
    r: Result<(), Status>,
)
    requires
        call_ensures(Status::from_trailers, (h,), r),
        carries(*h, "grpc-status"@, text),
        number_text(text, digits),
    ensures
        r is Ok <==> digits_value(digits) == 0,
        r matches Err(s) ==> if digits_value(digits) <= 16 {
            has_number(s.code, digits_value(digits))
        } else {
            s.code == Code::Unknown
        },
{
    trailer_names();
    carried_text_is_read(*h, "grpc-status"@, text);
    code_is_found(text, digits);
    code_is_found_zero(text, digits);
    assert(crate::status::reads_as(header_map(*h), crate::status::verdict(r)));
}

/// Zero is success, and nothing else is.
pub proof fn code_is_found_zero(text: Seq<char>, digits: Seq<char>)
    requires
        number_text(text, digits),
    ensures
        code_of_text(text) == Code::OK <==> digits_value(digits) == 0,
{
    code_is_found(text, digits);
}

/// Trailers without a number that can be read are an `Unknown` error.
pub proof fn no_number_is_unknown(h: &Headers, r: Result<(), Status>)
    requires
        call_ensures(Status::from_trailers, (h,), r),
        lacks(*h, "grpc-status"@) || (exists|text: Seq<char>| #[trigger]
            carries(*h, "grpc-status"@, text) && forall|digits: Seq<char>| !(
            #[trigger] number_text(text, digits))),
    ensures
        r matches Err(s) && s.code == Code::Unknown,
{
    trailer_names();
    if lacks(*h, "grpc-status"@) {
        absent_text_is_none(*h, "grpc-status"@);
    } else {
        let text = choose|text: Seq<char>| #[trigger]
            carries(*h, "grpc-status"@, text) && forall|digits: Seq<char>| !(
            #[trigger] number_text(text, digits));
        carried_text_is_read(*h, "grpc-status"@, text);
        if unsigned_value(text) is Some {
            let digits = if text.len() > 0 && text[0] == '+' {
                text.skip(1)
            } else {
                text
            };
            if text.len() > 0 && text[0] == '+' {
                assert(text =~= seq!['+'] + digits);
            }
            assert forall|i: int| 0 <= i < digits.len() implies '0' as u32
                <= #[trigger] digits[i] as u32 <= '9' as u32 by {
                assert(crate::text::is_digit(digits[i]));
            }
            assert(number_text(text, digits));
        }
    }
    assert(crate::status::reads_as(header_map(*h), crate::status::verdict(r)));
}

/// An error has the message of its trailers, decoded; without one its message is empty.
/// Its metadata is that of the trailers.
pub proof fn errors_have_their_message(
    h: &Headers,
    text: Seq<char>,
    r: Result<(), Status>,
    m: Metadata,
    key: Seq<char>,
)
    requires
        call_ensures(Status::from_trailers, (h,), r),
        carries(*h, "grpc-message"@, text) || lacks(*h, "grpc-message"@),
        call_ensures(Metadata::from_headers, (h,), m),
    ensures
        r matches Err(s) ==> {
            &&& carries(*h, "grpc-message"@, text) ==> s.message@ == percent_decoded(text)
            &&& lacks(*h, "grpc-message"@) ==> s.message@.len() == 0
            &&& values_for(s.metadata@, key) == values_for(m@, key)
        },
{
    trailer_names();
    if carries(*h, "grpc-message"@, text) {
        carried_text_is_read(*h, "grpc-message"@, text);
    } else {
        absent_text_is_none(*h, "grpc-message"@);
    }
    assert(crate::status::reads_as(header_map(*h), crate::status::verdict(r)));
}

/// A status is written as its number, and its message where it has one, encoded.
pub proof fn statuses_are_written(s: &Status, h: &mut Headers, number: nat)
    requires
        call_ensures(Status::write_into, (s, h), ()),
        has_number(s.code, number),
        insertable(s.metadata@),
    ensures
        carries(*final(h), "grpc-status"@, decimal(number)),
        s.message@.len() > 0 ==> carries(
            *final(h),
            "grpc-message"@,
            percent_encoded(encode_utf8(s.message@)),
        ),
        s.message@.len() == 0 ==> (header_map(*final(h)).dom().contains("grpc-message"@)
            <==> header_map(*old(h)).dom().contains("grpc-message"@)),
{
    trailer_names();
    number_of(s.code);
    lower_case_is_kept("grpc-status"@);
    lower_case_is_kept("grpc-message"@);
    let base = header_map(*old(h));
    let with_code = inserted(base, "grpc-status"@, decimal(s.code.number() as nat));
    let full = if s.message@.len() == 0 {
        with_code
    } else {
        inserted(with_code, "grpc-message"@, percent_encoded(encode_utf8(s.message@)))
    };
    assert(header_map(*final(h)) == appended(full, s.metadata@));
    super::metadata::key_rules("grpc-status"@, Seq::empty());
    super::metadata::key_rules("grpc-message"@, Seq::empty());
    prefixed();
    super::metadata::insertable_is_valid(s.metadata@);
    reserved_untouched(full, s.metadata@, "grpc-status"@);
    reserved_untouched(full, s.metadata@, "grpc-message"@);
    appended_values(full, s.metadata@, "grpc-status"@);
    appended_values(full, s.metadata@, "grpc-message"@);
    assert(values_of(header_map(*final(h)), "grpc-status"@) == seq![encode_utf8(decimal(number))]);
    super::metadata::free_values(s.metadata@, "grpc-message"@);
}

/// The two names that carry a status belong to the protocol.
pub proof fn prefixed()
    ensures
        super::metadata::taken("grpc-status"@),
        super::metadata::taken("grpc-message"@),
{
    reveal_strlit("grpc-status");
    reveal_strlit("grpc-message");
    reveal_strlit("grpc-");
    reveal_strlit("status");
    reveal_strlit("message");
    assert("grpc-status"@ =~= "grpc-"@ + "status"@);
    assert("grpc-message"@ =~= "grpc-"@ + "message"@);
}

/// The outcome that is read is the outcome that was written, with its code and message.
pub proof fn outcomes_survive(s: Status, h: Headers, r: Result<(), Status>)
    requires
        call_ensures(Status::into_trailers, (s,), h),
        call_ensures(Status::from_trailers, (&h,), r),
        insertable(s.metadata@),
    ensures
        r is Ok <==> s.code == Code::OK,
        r matches Err(e) ==> e.code == s.code && e.message@ == s.message@,
{
    super::metadata::insertable_is_valid(s.metadata@);
    assert(crate::status::reads_as(header_map(h), crate::status::verdict(r)));
    assert(header_map(h) == written(crate::headers::no_headers(), s@));
    crate::status::outcome_is_carried(crate::headers::no_headers(), s@, crate::status::verdict(r));
}

// ---------------------------------------------------------------------------
// Copies and digits

/// A copy of a status says the same, and so does a copy of an outcome.
pub proof fn copies_say_the_same(
    s: &Status,
    t: Status,
    v: &Result<(), Status>,
    w: Result<(), Status>,
)
    requires
        call_ensures(<Status as Clone>::clone, (s,), t),
        call_ensures(clone_verdict, (v,), w),
    ensures
        t.code == s.code && t.message@ == s.message@ && t.metadata@ == s.metadata@,
        w is Ok <==> v is Ok,
        w matches Err(b) ==> (*v matches Err(a) && b.code == a.code && b.message@ == a.message@
            && b.metadata@ == a.metadata@),
{
    assert(t@.code == t.code && t@.message == t.message@ && t@.metadata == t.metadata@);
    assert(s@.code == s.code && s@.message == s.message@ && s@.metadata == s.metadata@);
    if w is Err && v is Err {
        let a = v->Err_0;
        let b = w->Err_0;
        assert(a@ == b@);
        assert(a@.code == a.code && a@.message == a.message@ && a@.metadata == a.metadata@);
        assert(b@.code == b.code && b@.message == b.message@ && b@.metadata == b.metadata@);
    }
}

/// Half a byte has an upper-case digit, and a digit of either case is read back as it.
pub proof fn digits_are_hexadecimal(n: u8, c: char, b: u8, r: Option<u8>)
    requires
        n < 16,
        call_ensures(hex_nibble, (n,), c),
        call_ensures(hex_value, (b,), r),
    ensures
        n < 10 ==> c as u32 == 0x30 + n,
        n >= 10 ==> c as u32 == 0x41 + (n - 10),
        r matches Some(v) ==> hex_byte(b, v as int),
        r is None ==> forall|v: int| !#[trigger] hex_byte(b, v),
        b == c as u32 ==> r == Some(n),
{
}

} // verus!
