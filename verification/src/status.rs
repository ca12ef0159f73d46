//! Status codes and statuses, and how a status travels in HTTP trailers.

use crate::headers::{headers_get_str, headers_insert, headers_new};
use crate::metadata::{Metadata, ValueView};
use crate::text::{chars_of, decimal_string, from_utf8_lossy, parse_digits};
use trillium_http::Headers;
use vstd::prelude::*;
use vstd::utf8::{
    decode_utf8, encode_utf8, encode_utf8_decode_utf8, encode_utf8_valid_utf8, is_ascii_chars,
    is_ascii_chars_encode_utf8, valid_utf8,
};

verus! {

broadcast use vstd::seq_lib::group_seq_properties;

/// The status codes of gRPC.
#[derive(Debug, Clone, Copy, PartialEq, Eq, Hash, Structural)]
pub enum Code {
    OK,
    Cancelled,
    Unknown,
    InvalidArgument,
    DeadlineExceeded,
    NotFound,
    AlreadyExists,
    PermissionDenied,
    ResourceExhausted,
    FailedPrecondition,
    Aborted,
    OutOfRange,
    Unimplemented,
    Internal,
    Unavailable,
    DataLoss,
    Unauthenticated,
}

/// The outcome of a call: a code, a message, and trailing metadata.
#[derive(Debug)]
pub struct Status {
    pub code: Code,
    pub message: String,
    pub metadata: Metadata,
}

/// What a status is.
#[verifier::ext_equal]
pub ghost struct StatusView {
    pub code: Code,
    pub message: Seq<char>,
    pub metadata: Seq<(Seq<char>, ValueView)>,
}

impl View for Status {
    type V = StatusView;

    open spec fn view(&self) -> StatusView {
        StatusView { code: self.code, message: self.message@, metadata: self.metadata@ }
    }
}

/// The status with the given code and message and no metadata.
pub open spec fn plain_status(code: Code, message: Seq<char>) -> StatusView {
    StatusView { code, message, metadata: Seq::empty() }
}

impl Code {
    /// The number of the code on the wire.
    pub open spec fn number(self) -> u8 {
        match self {
            Code::OK => 0,
            Code::Cancelled => 1,
            Code::Unknown => 2,
            Code::InvalidArgument => 3,
            Code::DeadlineExceeded => 4,
            Code::NotFound => 5,
            Code::AlreadyExists => 6,
            Code::PermissionDenied => 7,
            Code::ResourceExhausted => 8,
            Code::FailedPrecondition => 9,
            Code::Aborted => 10,
            Code::OutOfRange => 11,
            Code::Unimplemented => 12,
            Code::Internal => 13,
            Code::Unavailable => 14,
            Code::DataLoss => 15,
            Code::Unauthenticated => 16,
        }
    }

    /// The code with number `n`; nothing for a number that no code has.
    pub fn from_u8(n: u8) -> (r: Option<Self>)
        ensures
            match r {
                Some(c) => c.number() == n,
                None => n > 16,
            },
    {
        match n {
            0 => Some(Code::OK),
            1 => Some(Code::Cancelled),
            2 => Some(Code::Unknown),
            3 => Some(Code::InvalidArgument),
            4 => Some(Code::DeadlineExceeded),
            5 => Some(Code::NotFound),
            6 => Some(Code::AlreadyExists),
            7 => Some(Code::PermissionDenied),
            8 => Some(Code::ResourceExhausted),
            9 => Some(Code::FailedPrecondition),
            10 => Some(Code::Aborted),
            11 => Some(Code::OutOfRange),
            12 => Some(Code::Unimplemented),
            13 => Some(Code::Internal),
            14 => Some(Code::Unavailable),
            15 => Some(Code::DataLoss),
            16 => Some(Code::Unauthenticated),
            _ => None,
        }
    }

    /// The number of the code.
    pub fn as_u8(self) -> (r: u8)
        ensures
            r == self.number(),
    {
        match self {
            Code::OK => 0,
            Code::Cancelled => 1,
            Code::Unknown => 2,
            Code::InvalidArgument => 3,
            Code::DeadlineExceeded => 4,
            Code::NotFound => 5,
            Code::AlreadyExists => 6,
            Code::PermissionDenied => 7,
            Code::ResourceExhausted => 8,
            Code::FailedPrecondition => 9,
            Code::Aborted => 10,
            Code::OutOfRange => 11,
            Code::Unimplemented => 12,
            Code::Internal => 13,
            Code::Unavailable => 14,
            Code::DataLoss => 15,
            Code::Unauthenticated => 16,
        }
    }

    /// The name of the code.
    pub open spec fn name(self) -> Seq<char> {
        match self {
            Code::OK => "Ok"@,
            Code::Cancelled => "Cancelled"@,
            Code::Unknown => "Unknown"@,
            Code::InvalidArgument => "InvalidArgument"@,
            Code::DeadlineExceeded => "DeadlineExceeded"@,
            Code::NotFound => "NotFound"@,
            Code::AlreadyExists => "AlreadyExists"@,
            Code::PermissionDenied => "PermissionDenied"@,
            Code::ResourceExhausted => "ResourceExhausted"@,
            Code::FailedPrecondition => "FailedPrecondition"@,
            Code::Aborted => "Aborted"@,
            Code::OutOfRange => "OutOfRange"@,
            Code::Unimplemented => "Unimplemented"@,
            Code::Internal => "Internal"@,
            Code::Unavailable => "Unavailable"@,
            Code::DataLoss => "DataLoss"@,
            Code::Unauthenticated => "Unauthenticated"@,
        }
    }

    /// The name of the code, as `{:?}` writes it.
    pub fn as_str(self) -> (r: &'static str)
        ensures
            r@ == self.name(),
    {
        match self {
            Code::OK => "Ok",
            Code::Cancelled => "Cancelled",
            Code::Unknown => "Unknown",
            Code::InvalidArgument => "InvalidArgument",
            Code::DeadlineExceeded => "DeadlineExceeded",
            Code::NotFound => "NotFound",
            Code::AlreadyExists => "AlreadyExists",
            Code::PermissionDenied => "PermissionDenied",
            Code::ResourceExhausted => "ResourceExhausted",
            Code::FailedPrecondition => "FailedPrecondition",
            Code::Aborted => "Aborted",
            Code::OutOfRange => "OutOfRange",
            Code::Unimplemented => "Unimplemented",
            Code::Internal => "Internal",
            Code::Unavailable => "Unavailable",
            Code::DataLoss => "DataLoss",
            Code::Unauthenticated => "Unauthenticated",
        }
    }
}

/// A code is determined by its number, and every number up to 16 has a code.
pub proof fn code_numbers(a: Code, b: Code)
    ensures
        a.number() <= 16,
        a.number() == b.number() ==> a == b,
{
}

impl Clone for Status {
    fn clone(&self) -> (r: Self)
        ensures
            r@ == self@,
    {
        Status {
            code: self.code,
            message: self.message.clone(),
            metadata: self.metadata.clone(),
        }
    }
}

impl Status {
    /// A status with the given code and message and no metadata.
    pub fn new(code: Code, message: &str) -> (r: Self)
        ensures
            r@ == plain_status(code, message@),
    {
        let r = Status { code, message: message.to_owned(), metadata: Metadata::new() };
        assert(r@ =~= plain_status(code, message@));
        r
    }

    /// The successful status.
    pub fn ok() -> (r: Self)
        ensures
            r@ == plain_status(Code::OK, Seq::empty()),
    {
        let r = Status { code: Code::OK, message: String::new(), metadata: Metadata::new() };
        assert(r@ =~= plain_status(Code::OK, Seq::empty()));
        r
    }

    /// Whether the code is `OK`.
    pub fn is_ok(&self) -> (r: bool)
        ensures
            r == (self.code == Code::OK),
    {
        match self.code {
            Code::OK => true,
            _ => false,
        }
    }

    /// Attach trailing metadata. Carried in the `grpc-status` trailers
    /// alongside `grpc-message`.
    pub fn with_metadata(self, metadata: Metadata) -> (r: Self)
        ensures
            r@ == (StatusView { metadata: metadata@, ..self@ }),
    {
        Status { code: self.code, message: self.message, metadata }
    }

    /// A `Cancelled` status with the given message.
    pub fn cancelled(message: &str) -> (r: Self)
        ensures
            r@ == plain_status(Code::Cancelled, message@),
    {
        Status::new(Code::Cancelled, message)
    }

    /// A `Unknown` status with the given message.
    pub fn unknown(message: &str) -> (r: Self)
        ensures
            r@ == plain_status(Code::Unknown, message@),
    {
        Status::new(Code::Unknown, message)
    }

    /// A `InvalidArgument` status with the given message.
    pub fn invalid_argument(message: &str) -> (r: Self)
        ensures
            r@ == plain_status(Code::InvalidArgument, message@),
    {
        Status::new(Code::InvalidArgument, message)
    }

    /// A `DeadlineExceeded` status with the given message.
    pub fn deadline_exceeded(message: &str) -> (r: Self)
        ensures
            r@ == plain_status(Code::DeadlineExceeded, message@),
    {
        Status::new(Code::DeadlineExceeded, message)
    }

    /// A `NotFound` status with the given message.
    pub fn not_found(message: &str) -> (r: Self)
        ensures
            r@ == plain_status(Code::NotFound, message@),
    {
        Status::new(Code::NotFound, message)
    }

    /// A `AlreadyExists` status with the given message.
    pub fn already_exists(message: &str) -> (r: Self)
        ensures
            r@ == plain_status(Code::AlreadyExists, message@),
    {
        Status::new(Code::AlreadyExists, message)
    }

    /// A `PermissionDenied` status with the given message.
    pub fn permission_denied(message: &str) -> (r: Self)
        ensures
            r@ == plain_status(Code::PermissionDenied, message@),
    {
        Status::new(Code::PermissionDenied, message)
    }

    /// A `ResourceExhausted` status with the given message.
    pub fn resource_exhausted(message: &str) -> (r: Self)
        ensures
            r@ == plain_status(Code::ResourceExhausted, message@),
    {
        Status::new(Code::ResourceExhausted, message)
    }

    /// A `FailedPrecondition` status with the given message.
    pub fn failed_precondition(message: &str) -> (r: Self)
        ensures
            r@ == plain_status(Code::FailedPrecondition, message@),
    {
        Status::new(Code::FailedPrecondition, message)
    }

    /// A `Aborted` status with the given message.
    pub fn aborted(message: &str) -> (r: Self)
        ensures
            r@ == plain_status(Code::Aborted, message@),
    {
        Status::new(Code::Aborted, message)
    }

    /// A `OutOfRange` status with the given message.
    pub fn out_of_range(message: &str) -> (r: Self)
        ensures
            r@ == plain_status(Code::OutOfRange, message@),
    {
        Status::new(Code::OutOfRange, message)
    }

    /// A `Unimplemented` status with the given message.
    pub fn unimplemented(message: &str) -> (r: Self)
        ensures
            r@ == plain_status(Code::Unimplemented, message@),
    {
        Status::new(Code::Unimplemented, message)
    }

    /// A `Internal` status with the given message.
    pub fn internal(message: &str) -> (r: Self)
        ensures
            r@ == plain_status(Code::Internal, message@),
    {
        Status::new(Code::Internal, message)
    }

    /// A `Unavailable` status with the given message.
    pub fn unavailable(message: &str) -> (r: Self)
        ensures
            r@ == plain_status(Code::Unavailable, message@),
    {
        Status::new(Code::Unavailable, message)
    }

    /// A `DataLoss` status with the given message.
    pub fn data_loss(message: &str) -> (r: Self)
        ensures
            r@ == plain_status(Code::DataLoss, message@),
    {
        Status::new(Code::DataLoss, message)
    }

    /// A `Unauthenticated` status with the given message.
    pub fn unauthenticated(message: &str) -> (r: Self)
        ensures
            r@ == plain_status(Code::Unauthenticated, message@),
    {
        Status::new(Code::Unauthenticated, message)
    }

    /// The status as trailers.
    pub fn into_trailers(self) -> (r: Headers)
        ensures
            crate::headers::header_map(r) == written(crate::headers::no_headers(), self@),
    {
        let mut headers = headers_new();
        self.write_into(&mut headers);
        headers
    }

    /// Write the status into a header map: the code, the percent-encoded
    /// message unless it is empty, and the metadata.
    pub fn write_into(&self, headers: &mut Headers)
        ensures
            crate::headers::header_map(*final(headers)) == written(
                crate::headers::header_map(*old(headers)),
                self@,
            ),
    {
        let number = decimal_string(self.code.as_u8() as u128);
        headers_insert(headers, "grpc-status", number.as_str());
        if !self.message.as_str().is_empty() {
            let text = percent_encode(self.message.as_str());
            headers_insert(headers, "grpc-message", text.as_str());
        }
        self.metadata.write_into(headers);
    }

    /// Read a Status from response trailers (or trailer-only response headers).
    /// Returns `Ok(())` for `grpc-status: 0`, `Err(Status)` otherwise.
    /// Missing `grpc-status` is treated as `Unknown`. On the Err path the
    /// returned `Status` carries any custom trailing metadata extracted from
    /// the same headers.
    pub fn from_trailers(headers: &Headers) -> (r: Result<(), Self>)
        ensures
            reads_as(crate::headers::header_map(*headers), verdict(r)),
    {
        let code = match headers_get_str(headers, "grpc-status") {
            Some(text) => parse_code(text.as_str()),
            None => Code::Unknown,
        };
        if code == Code::OK {
            return Ok(());
        }
        let message = match headers_get_str(headers, "grpc-message") {
            Some(text) => percent_decode(text.as_str()),
            None => String::new(),
        };
        Err(Status { code, message, metadata: Metadata::from_headers(headers) })
    }

    /// The status in words: the code's name, a colon, and the message.
    pub fn display(&self) -> (r: String)
        ensures
            r@ == self.code.name() + ": "@ + self.message@,
    {
        String::new().concat(self.code.as_str()).concat(": ").concat(self.message.as_str())
    }
}

/// What the outcome of a call is.
pub open spec fn verdict(r: Result<(), Status>) -> Result<(), StatusView> {
    match r {
        Ok(()) => Ok(()),
        Err(s) => Err(s@),
    }
}

/// Whether `r` is the outcome that trailers carry: success for code `OK`;
/// otherwise a status with their code, their message and their metadata.
pub open spec fn reads_as(m: Map<Seq<char>, Seq<Seq<u8>>>, r: Result<(), StatusView>) -> bool {
    match r {
        Ok(()) => trailers_code(m) == Code::OK,
        Err(s) => {
            &&& s.code == trailers_code(m)
            &&& s.code != Code::OK
            &&& s.message == trailers_message(m)
            &&& crate::metadata::carried_by(s.metadata, m)
            &&& crate::metadata::valid_entries(s.metadata)
        },
    }
}

/// A copy of an outcome.
pub fn clone_verdict(r: &Result<(), Status>) -> (c: Result<(), Status>)
    ensures
        verdict(c) == verdict(*r),
{
    match r {
        Ok(()) => Ok(()),
        Err(s) => Err(s.clone()),
    }
}

/// A header map after a status has been written into it.
pub open spec fn written(
    m: Map<Seq<char>, Seq<Seq<u8>>>,
    s: StatusView,
) -> Map<Seq<char>, Seq<Seq<u8>>> {
    let with_code = crate::headers::inserted(
        m,
        "grpc-status"@,
        crate::text::decimal(s.code.number() as nat),
    );
    let with_message = if s.message.len() == 0 {
        with_code
    } else {
        crate::headers::inserted(
            with_code,
            "grpc-message"@,
            percent_encoded(encode_utf8(s.message)),
        )
    };
    crate::metadata::appended(with_message, s.metadata)
}

/// The number written in `text`: digits, at least one, with an optional `+`
/// before them.
pub open spec fn unsigned_value(text: Seq<char>) -> Option<nat> {
    let digits = if text.len() > 0 && text[0] == '+' {
        text.skip(1)
    } else {
        text
    };
    if digits.len() > 0 && crate::text::all_digits(digits) {
        Some(crate::text::digits_value(digits))
    } else {
        None
    }
}

/// The code that the number in `text` stands for; `Unknown` if `text` is no
/// number or no code has it.
pub open spec fn code_of_text(text: Seq<char>) -> Code {
    match unsigned_value(text) {
        Some(n) => code_of_number(n),
        None => Code::Unknown,
    }
}

/// The code with number `n`; `Unknown` if there is none.
pub open spec fn code_of_number(n: nat) -> Code {
    if n <= 16 {
        choose|c: Code| #[trigger] c.number() == n
    } else {
        Code::Unknown
    }
}

/// The code that trailers carry.
pub open spec fn trailers_code(m: Map<Seq<char>, Seq<Seq<u8>>>) -> Code {
    match crate::headers::single_text(m, "grpc-status"@) {
        Some(text) => code_of_text(text),
        None => Code::Unknown,
    }
}

/// The message that trailers carry.
pub open spec fn trailers_message(m: Map<Seq<char>, Seq<Seq<u8>>>) -> Seq<char> {
    match crate::headers::single_text(m, "grpc-message"@) {
        Some(text) => percent_decoded(text),
        None => Seq::empty(),
    }
}

/// The code written in `text`, `Unknown` if there is none.
fn parse_code(text: &str) -> (r: Code)
    ensures
        r == code_of_text(text@),
{
    let chars = chars_of(text);
    let start: usize = if chars.len() > 0 && chars[0] == '+' {
        1
    } else {
        0
    };
    let ghost digits = chars@.subrange(start as int, chars@.len() as int);
    assert(start == 0 ==> digits =~= text@);
    assert(start == 1 ==> digits =~= text@.skip(1));
    match parse_digits(&chars, start, chars.len(), 255) {
        Some(n) => match Code::from_u8(n as u8) {
            Some(c) => {
                assert(c.number() == crate::text::digits_value(digits));
                proof {
                    let d = choose|d: Code| #[trigger] d.number() == crate::text::digits_value(digits);
                    code_numbers(c, d);
                }
                c
            },
            None => Code::Unknown,
        },
        None => Code::Unknown,
    }
}

// ---------------------------------------------------------------------------
// Percent encoding of messages

/// The upper-case hexadecimal digit for `n`.
pub open spec fn hex_digit(n: int) -> char {
    if n < 10 {
        ('0' as u32 + n) as char
    } else {
        ('A' as u32 + (n - 10)) as char
    }
}

/// The value of a hexadecimal digit of either case.
pub open spec fn hex_digit_value(b: u8) -> Option<u8> {
    if 0x30 <= b <= 0x39 {
        Some((b - 0x30) as u8)
    } else if 0x61 <= b <= 0x66 {
        Some((b - 0x61 + 10) as u8)
    } else if 0x41 <= b <= 0x46 {
        Some((b - 0x41 + 10) as u8)
    } else {
        None
    }
}

/// One byte, percent-encoded: itself if it is printable ASCII other than `%`,
/// otherwise `%` and two upper-case hexadecimal digits.
pub open spec fn percent_byte(b: u8) -> Seq<char> {
    if 0x20 <= b <= 0x7E && b != 0x25 {
        seq![b as char]
    } else {
        seq!['%', hex_digit(b as int / 16), hex_digit(b as int % 16)]
    }
}

/// Bytes, percent-encoded one by one.
pub open spec fn percent_encoded(bytes: Seq<u8>) -> Seq<char>
    decreases bytes.len(),
{
    if bytes.len() == 0 {
        Seq::empty()
    } else {
        percent_byte(bytes[0]) + percent_encoded(bytes.skip(1))
    }
}

/// Whether `bytes` begins with `%` and two hexadecimal digits.
pub open spec fn escape_first(bytes: Seq<u8>) -> bool {
    &&& bytes.len() >= 3
    &&& bytes[0] == 0x25
    &&& hex_digit_value(bytes[1]) is Some
    &&& hex_digit_value(bytes[2]) is Some
}

/// Bytes with every escape replaced by the byte that it stands for; everything
/// else, malformed escapes among it, is left as it is.
pub open spec fn unescaped(bytes: Seq<u8>) -> Seq<u8>
    decreases bytes.len(),
{
    if bytes.len() == 0 {
        Seq::empty()
    } else if escape_first(bytes) {
        seq![(hex_digit_value(bytes[1])->0 * 16 + hex_digit_value(bytes[2])->0) as u8] + unescaped(
            bytes.skip(3),
        )
    } else {
        seq![bytes[0]] + unescaped(bytes.skip(1))
    }
}

/// The text of bytes that should be UTF-8, with replacement characters where
/// they are not.
pub open spec fn lossy_text(bytes: Seq<u8>) -> Seq<char> {
    if valid_utf8(bytes) {
        decode_utf8(bytes)
    } else {
        crate::text::utf8_lossy(bytes)
    }
}

/// A percent-encoded message, decoded.
pub open spec fn percent_decoded(text: Seq<char>) -> Seq<char> {
    lossy_text(unescaped(encode_utf8(text)))
}

/// Percent-encode a `grpc-message`.
///
/// Bytes 0x20-0x7E except `%` (0x25) pass through literally; everything else
/// (control chars, non-ASCII UTF-8 continuation bytes, and `%` itself) becomes
/// `%XX` with uppercase hex.
pub fn percent_encode(s: &str) -> (r: String)
    ensures
        r@ == percent_encoded(encode_utf8(s@)),
{
    let bytes = s.as_bytes();
    let mut out = String::new();
    let mut i: usize = 0;
    assert(bytes@.skip(0) =~= bytes@);
    assert(out@ + percent_encoded(bytes@) =~= percent_encoded(bytes@));
    while i < bytes.len()
        invariant
            i <= bytes@.len(),
            out@ + percent_encoded(bytes@.skip(i as int)) == percent_encoded(bytes@),
        decreases bytes@.len() - i,
    {
        let ghost before = out@;
        let ghost rest = bytes@.skip(i as int);
        assert(rest.skip(1) =~= bytes@.skip(i + 1));
        let b: u8 = bytes[i];
        if b >= 0x20 && b <= 0x7E && b != 0x25 {
            out.push(b as char);
        } else {
            out.push('%');
            out.push(hex_nibble(b / 16));
            out.push(hex_nibble(b % 16));
        }
        assert(out@ =~= before + percent_byte(b));
        assert(out@ + percent_encoded(rest.skip(1)) =~= before + percent_encoded(rest));
        i = i + 1;
    }
    assert(percent_encoded(bytes@.skip(i as int)) =~= Seq::empty());
    assert(out@ + Seq::<char>::empty() =~= out@);
    out
}

/// Percent-decode a `grpc-message`. Invalid `%XX` sequences are passed through
/// literally.
pub fn percent_decode(s: &str) -> (r: String)
    ensures
        r@ == percent_decoded(s@),
{
    let bytes = s.as_bytes();
    let mut out: Vec<u8> = Vec::new();
    let mut i: usize = 0;
    assert(bytes@.skip(0) =~= bytes@);
    assert(out@ + unescaped(bytes@) =~= unescaped(bytes@));
    while i < bytes.len()
        invariant
            i <= bytes@.len(),
            out@ + unescaped(bytes@.skip(i as int)) == unescaped(bytes@),
        decreases bytes@.len() - i,
    {
        let ghost before = out@;
        let ghost rest = bytes@.skip(i as int);
        let mut taken: usize = 1;
        let mut byte: u8 = bytes[i];
        if bytes[i] == 0x25 && bytes.len() - i > 2 {
            let hi = hex_value(bytes[i + 1]);
            let lo = hex_value(bytes[i + 2]);
            if let Some(h) = hi {
                if let Some(l) = lo {
                    byte = h * 16 + l;
                    taken = 3;
                }
            }
        }
        out.push(byte);
        assert(rest.len() > 2 ==> rest[1] == bytes@[i + 1] && rest[2] == bytes@[i + 2]);
        assert((taken == 3) == escape_first(rest));
        assert(rest.skip(taken as int) =~= bytes@.skip(i + taken));
        assert(unescaped(rest) == seq![byte] + unescaped(rest.skip(taken as int)));
        assert(out@ + unescaped(rest.skip(taken as int)) =~= before + unescaped(rest));
        i = i + taken;
    }
    assert(unescaped(bytes@.skip(i as int)) =~= Seq::empty());
    assert(out@ + Seq::<u8>::empty() =~= out@);
    from_utf8_lossy(out.as_slice())
}

/// The upper-case hexadecimal digit for `n`.
pub fn hex_nibble(n: u8) -> (r: char)
    requires
        n < 16,
    ensures
        r == hex_digit(n as int),
{
    if n < 10 {
        (48u8 + n) as char
    } else {
        (65u8 + (n - 10)) as char
    }
}

/// The value of a hexadecimal digit of either case.
pub fn hex_value(b: u8) -> (r: Option<u8>)
    ensures
        r == hex_digit_value(b),
        r is Some ==> r->0 < 16,
{
    if b >= 0x30 && b <= 0x39 {
        Some(b - 0x30)
    } else if b >= 0x61 && b <= 0x66 {
        Some(b - 0x61 + 10)
    } else if b >= 0x41 && b <= 0x46 {
        Some(b - 0x41 + 10)
    } else {
        None
    }
}

// ---------------------------------------------------------------------------
// Laws

/// The characters of ASCII text as bytes.
spec fn ascii_bytes(s: Seq<char>) -> Seq<u8> {
    Seq::new(s.len(), |i: int| s[i] as u8)
}

proof fn percent_encoded_is_ascii(bytes: Seq<u8>)
    ensures
        is_ascii_chars(percent_encoded(bytes)),
        encode_utf8(percent_encoded(bytes)) == ascii_bytes(percent_encoded(bytes)),
    decreases bytes.len(),
{
    if bytes.len() > 0 {
        percent_encoded_is_ascii(bytes.skip(1));
        let head = percent_byte(bytes[0]);
        let tail = percent_encoded(bytes.skip(1));
        assert(is_ascii_chars(head));
        assert forall|i: int| 0 <= i < (head + tail).len() implies 0 <= #[trigger] (head + tail)[i]
            <= 127 by {
            if i < head.len() {
                assert((head + tail)[i] == head[i]);
            } else {
                assert((head + tail)[i] == tail[i - head.len()]);
            }
        }
    }
    is_ascii_chars_encode_utf8(percent_encoded(bytes));
    assert(encode_utf8(percent_encoded(bytes)) =~= ascii_bytes(percent_encoded(bytes)));
}

proof fn unescaped_percent_encoded(bytes: Seq<u8>)
    ensures
        unescaped(ascii_bytes(percent_encoded(bytes))) == bytes,
    decreases bytes.len(),
{
    if bytes.len() == 0 {
        assert(unescaped(ascii_bytes(percent_encoded(bytes))) =~= bytes);
    } else {
        let b = bytes[0];
        let head = percent_byte(b);
        let tail = percent_encoded(bytes.skip(1));
        let all = ascii_bytes(percent_encoded(bytes));
        unescaped_percent_encoded(bytes.skip(1));
        assert(all =~= ascii_bytes(head) + ascii_bytes(tail));
        assert(all.skip(head.len() as int) =~= ascii_bytes(tail));
        assert(all[0] == head[0] as u8);
        if head.len() == 1 {
            assert(!escape_first(all));
        } else {
            assert(all[1] == head[1] as u8);
            assert(all[2] == head[2] as u8);
            assert(hex_digit_value(all[1]) == Some((b / 16) as u8));
            assert(hex_digit_value(all[2]) == Some((b % 16) as u8));
            assert(escape_first(all));
        }
        assert(unescaped(all) =~= seq![b] + bytes.skip(1));
        assert(bytes =~= seq![b] + bytes.skip(1));
    }
}

/// Decoding an encoded message gives the message back.
pub proof fn percent_round_trip(message: Seq<char>)
    ensures
        percent_decoded(percent_encoded(encode_utf8(message))) == message,
{
    percent_encoded_is_ascii(encode_utf8(message));
    unescaped_percent_encoded(encode_utf8(message));
    encode_utf8_valid_utf8(message);
    encode_utf8_decode_utf8(message);
}

proof fn unescaped_without_escapes(bytes: Seq<u8>)
    requires
        forall|i: int| 0 <= i < bytes.len() ==> !escape_first(#[trigger] bytes.skip(i)),
    ensures
        unescaped(bytes) == bytes,
    decreases bytes.len(),
{
    if bytes.len() > 0 {
        let rest = bytes.skip(1);
        assert forall|i: int| 0 <= i < rest.len() implies !escape_first(
            #[trigger] rest.skip(i),
        ) by {
            assert(rest.skip(i) =~= bytes.skip(i + 1));
        }
        unescaped_without_escapes(rest);
        assert(bytes.skip(0) =~= bytes);
        assert(seq![bytes[0]] + rest =~= bytes);
    }
    assert(unescaped(bytes) =~= bytes);
}

/// A text in which no `%` has two hexadecimal digits behind it is its own decoding.
pub proof fn text_without_escapes_is_kept(text: Seq<char>)
    requires
        forall|i: int|
            0 <= i < encode_utf8(text).len() ==> !escape_first(
                #[trigger] encode_utf8(text).skip(i),
            ),
    ensures
        percent_decoded(text) == text,
{
    unescaped_without_escapes(encode_utf8(text));
    encode_utf8_valid_utf8(text);
    encode_utf8_decode_utf8(text);
}

/// An encoded message holds printable ASCII only, so that it can stand in a
/// header whatever the message holds.
pub proof fn percent_encoded_is_printable(bytes: Seq<u8>)
    ensures
        crate::metadata::printable_text(percent_encoded(bytes)),
    decreases bytes.len(),
{
    if bytes.len() > 0 {
        percent_encoded_is_printable(bytes.skip(1));
        let head = percent_byte(bytes[0]);
        let tail = percent_encoded(bytes.skip(1));
        assert forall|i: int| 0 <= i < (head + tail).len() implies crate::metadata::printable(
            #[trigger] (head + tail)[i],
        ) by {
            if i < head.len() {
                assert((head + tail)[i] == head[i]);
            } else {
                assert((head + tail)[i] == tail[i - head.len()]);
            }
        }
    }
}

proof fn code_text(code: Code)
    ensures
        code_of_text(crate::text::decimal(code.number() as nat)) == code,
{
    let n = code.number() as nat;
    crate::text::decimal_round_trip(n);
    let text = crate::text::decimal(n);
    assert(crate::text::is_digit(text[0]));
    assert(unsigned_value(text) == Some(n));
    assert(code.number() == n);
    let found = choose|c: Code| #[trigger] c.number() == n;
    code_numbers(found, code);
}

proof fn reserved_names()
    ensures
        crate::metadata::reserved_key(crate::text::lower("grpc-status"@)),
        crate::metadata::reserved_key(crate::text::lower("grpc-message"@)),
        crate::text::lower("grpc-status"@) == "grpc-status"@,
        crate::text::lower("grpc-message"@) == "grpc-message"@,
        "grpc-status"@ != "grpc-message"@,
{
    reveal_strlit("grpc-status");
    reveal_strlit("grpc-message");
    reveal_strlit("grpc-");
    assert(crate::text::lower("grpc-status"@) =~= "grpc-status"@);
    assert(crate::text::lower("grpc-message"@) =~= "grpc-message"@);
    assert("grpc-status"@.take(5) =~= "grpc-"@);
    assert("grpc-message"@.take(5) =~= "grpc-"@);
    assert("grpc-status"@.len() != "grpc-message"@.len());
}

/// A status survives a trip through trailers: reading back what was written
/// into a header map gives its code, its message, and under every key that the
/// header map did not hold the metadata values in order. An empty message is
/// not written, so for it the header map must not hold a message already.
pub proof fn status_round_trip(
    base: Map<Seq<char>, Seq<Seq<u8>>>,
    s: StatusView,
    key: Seq<char>,
)
    requires
        crate::metadata::valid_entries(s.metadata),
        s.message.len() == 0 ==> crate::headers::single_text(base, "grpc-message"@) is None,
    ensures
        ({
            let m = written(base, s);
            &&& trailers_code(m) == s.code
            &&& trailers_message(m) == s.message
            &&& !base.dom().contains(key) ==> crate::metadata::header_metadata(m, key)
                == crate::metadata::values_for(s.metadata, key)
        }),
{
    let number = encode_utf8(crate::text::decimal(s.code.number() as nat));
    let with_code = base.insert(crate::text::lower("grpc-status"@), seq![number]);
    let text = encode_utf8(percent_encoded(encode_utf8(s.message)));
    let full = if s.message.len() == 0 {
        with_code
    } else {
        with_code.insert(crate::text::lower("grpc-message"@), seq![text])
    };
    let m = written(base, s);
    reserved_names();
    crate::metadata::reserved_untouched(full, s.metadata, "grpc-status"@);
    crate::metadata::reserved_untouched(full, s.metadata, "grpc-message"@);
    code_text(s.code);
    encode_utf8_valid_utf8(crate::text::decimal(s.code.number() as nat));
    encode_utf8_decode_utf8(crate::text::decimal(s.code.number() as nat));
    encode_utf8_valid_utf8(percent_encoded(encode_utf8(s.message)));
    encode_utf8_decode_utf8(percent_encoded(encode_utf8(s.message)));
    percent_round_trip(s.message);
    assert(crate::headers::values_of(m, "grpc-status"@) == seq![number]);
    if s.message.len() == 0 {
        assert(s.message =~= Seq::empty());
        assert(crate::headers::values_of(m, "grpc-message"@) == crate::headers::values_of(
            base,
            "grpc-message"@,
        ));
    } else {
        assert(crate::headers::values_of(m, "grpc-message"@) == seq![text]);
    }
    if !base.dom().contains(key) {
        assert(crate::metadata::valid_key(key) && !crate::metadata::reserved_key(key)
            ==> !full.dom().contains(key));
        crate::metadata::metadata_round_trip(full, s.metadata, key);
    }
}

/// The outcome that a receiver reads is the outcome that the sender wrote:
/// success for success, and otherwise the same code and message.
pub proof fn outcome_is_carried(
    base: Map<Seq<char>, Seq<Seq<u8>>>,
    s: StatusView,
    read: Result<(), StatusView>,
)
    requires
        crate::metadata::valid_entries(s.metadata),
        s.message.len() == 0 ==> crate::headers::single_text(base, "grpc-message"@) is None,
        reads_as(written(base, s), read),
    ensures
        read is Ok <==> s.code == Code::OK,
        read matches Err(e) ==> e.code == s.code && e.message == s.message,
{
    status_round_trip(base, s, Seq::empty());
}

/// Trailing metadata rides along with every status, the errors among them: what
/// a header map held under any name but the two that carry the status is still
/// there, in front of the status's own metadata.
pub proof fn trailing_metadata_is_kept(
    base: Map<Seq<char>, Seq<Seq<u8>>>,
    s: StatusView,
    key: Seq<char>,
)
    requires
        crate::metadata::valid_entries(s.metadata),
        crate::text::lower(key) == key,
        key != "grpc-status"@,
        key != "grpc-message"@,
    ensures
        crate::headers::values_of(written(base, s), key) == crate::headers::values_of(base, key)
            + crate::metadata::wire_values(crate::metadata::values_for(s.metadata, key)),
{
    let with_code = crate::headers::inserted(
        base,
        "grpc-status"@,
        crate::text::decimal(s.code.number() as nat),
    );
    let full = if s.message.len() == 0 {
        with_code
    } else {
        crate::headers::inserted(
            with_code,
            "grpc-message"@,
            percent_encoded(encode_utf8(s.message)),
        )
    };
    reserved_names();
    crate::metadata::appended_values(full, s.metadata, key);
}

} // verus!
