//! Text helpers: strings as sequences of characters, ASCII case folding,
//! searching, trimming, decimal numbers and UTF-8 decoding.

use vstd::prelude::*;
use vstd::utf8::{decode_utf8, valid_utf8};

verus! {

/// `String::push` appends one character to the end of the string.
pub assume_specification[ String::push ](s: &mut String, c: char)
    ensures
        final(s)@ == old(s)@.push(c),
;

/// The characters with Unicode's `White_Space` property.
pub open spec fn white_space(c: char) -> bool {
    let n = c as u32;
    ||| 0x09 <= n <= 0x0D
    ||| n == 0x20
    ||| n == 0x85
    ||| n == 0xA0
    ||| n == 0x1680
    ||| 0x2000 <= n <= 0x200A
    ||| n == 0x2028
    ||| n == 0x2029
    ||| n == 0x202F
    ||| n == 0x205F
    ||| n == 0x3000
}

/// `char::is_whitespace` tells whether the character has Unicode's
/// `White_Space` property.
pub assume_specification[ char::is_whitespace ](c: char) -> (r: bool)
    ensures
        r == white_space(c),
;

/// The text that `String::from_utf8_lossy` gives for bytes that are not UTF-8.
pub uninterp spec fn utf8_lossy(bytes: Seq<u8>) -> Seq<char>;

/// Wraps `String::from_utf8_lossy`: valid UTF-8 is decoded exactly; anything
/// else is decoded with replacement characters, as `utf8_lossy` names it.
#[verifier::external_body]
pub(crate) fn from_utf8_lossy(bytes: &[u8]) -> (r: String)
    ensures
        r@ == (if valid_utf8(bytes@) {
            decode_utf8(bytes@)
        } else {
            utf8_lossy(bytes@)
        }),
{
    String::from_utf8_lossy(bytes).into_owned()
}

/// Wraps `String::from_utf8`: the decoded text of valid UTF-8, nothing otherwise.
#[verifier::external_body]
pub(crate) fn from_utf8(bytes: &[u8]) -> (r: Option<String>)
    ensures
        r is Some <==> valid_utf8(bytes@),
        r is Some ==> r->0@ == decode_utf8(bytes@),
{
    String::from_utf8(bytes.to_vec()).ok()
}

/// The text that `format!("{:?}", s)` gives for the string `s`: quoted, with
/// the special characters escaped.
pub uninterp spec fn debug_quoted(s: Seq<char>) -> Seq<char>;

/// Wraps `format!("{:?}", ..)` on a string slice.
#[verifier::external_body]
pub(crate) fn debug_text(s: &str) -> (r: String)
    ensures
        r@ == debug_quoted(s@),
{
    format!("{:?}", s)
}

// ---------------------------------------------------------------------------
// Characters of a string

/// The characters of `s`, one per element.
pub fn chars_of(s: &str) -> (r: Vec<char>)
    ensures
        r@ == s@,
{
    let mut out: Vec<char> = Vec::new();
    for c in it: s.chars()
        invariant
            it.seq() == s@,
            out@ == s@.take(it.index() as int),
    {
        assert(s@.take(it.index() + 1) =~= s@.take(it.index() as int).push(c));
        out.push(c);
    }
    assert(s@.take(s@.len() as int) =~= s@);
    out
}

/// The string made of the characters `start..end` of `chars`.
pub fn string_from(chars: &Vec<char>, start: usize, end: usize) -> (r: String)
    requires
        start <= end <= chars@.len(),
    ensures
        r@ == chars@.subrange(start as int, end as int),
{
    let mut out = String::new();
    let mut i: usize = start;
    while i < end
        invariant
            start <= i <= end <= chars@.len(),
            out@ == chars@.subrange(start as int, i as int),
        decreases end - i,
    {
        assert(chars@.subrange(start as int, i + 1) =~= chars@.subrange(start as int, i as int).push(
            chars@[i as int],
        ));
        out.push(chars[i]);
        i = i + 1;
    }
    out
}

/// Whether two strings hold the same characters.
pub fn str_eq(a: &str, b: &str) -> (r: bool)
    ensures
        r == (a@ == b@),
{
    let x = chars_of(a);
    let y = chars_of(b);
    if x.len() != y.len() {
        return false;
    }
    let mut i: usize = 0;
    while i < x.len()
        invariant
            x@ == a@,
            y@ == b@,
            x@.len() == y@.len(),
            i <= x@.len(),
            forall|j: int| 0 <= j < i ==> x@[j] == y@[j],
        decreases x@.len() - i,
    {
        if x[i] != y[i] {
            return false;
        }
        i = i + 1;
    }
    assert(a@ =~= b@);
    true
}

/// Whether `s` begins with `prefix`.
pub open spec fn begins_with(s: Seq<char>, prefix: Seq<char>) -> bool {
    prefix.len() <= s.len() && s.take(prefix.len() as int) == prefix
}

/// Whether `s` ends in `suffix`.
pub open spec fn ends_in(s: Seq<char>, suffix: Seq<char>) -> bool {
    suffix.len() <= s.len() && s.skip(s.len() - suffix.len()) == suffix
}

/// Whether `s` begins with `prefix`.
pub fn starts_with(s: &str, prefix: &str) -> (r: bool)
    ensures
        r == begins_with(s@, prefix@),
{
    let x = chars_of(s);
    let y = chars_of(prefix);
    if y.len() > x.len() {
        return false;
    }
    let mut i: usize = 0;
    while i < y.len()
        invariant
            x@ == s@,
            y@ == prefix@,
            y@.len() <= x@.len(),
            i <= y@.len(),
            forall|j: int| 0 <= j < i ==> x@[j] == y@[j],
        decreases y@.len() - i,
    {
        if x[i] != y[i] {
            assert(s@.take(prefix@.len() as int)[i as int] != prefix@[i as int]);
            return false;
        }
        i = i + 1;
    }
    assert(s@.take(prefix@.len() as int) =~= prefix@);
    true
}

/// Whether `s` ends in `suffix`.
pub fn ends_with(s: &str, suffix: &str) -> (r: bool)
    ensures
        r == ends_in(s@, suffix@),
{
    let x = chars_of(s);
    let y = chars_of(suffix);
    if y.len() > x.len() {
        return false;
    }
    let len: usize = x.len();
    let off: usize = len - y.len();
    let mut i: usize = 0;
    while i < y.len()
        invariant
            x@ == s@,
            y@ == suffix@,
            len == x@.len(),
            off + y@.len() == len,
            i <= y@.len(),
            forall|j: int| 0 <= j < i ==> x@[off + j] == y@[j],
        decreases y@.len() - i,
    {
        if x[off + i] != y[i] {
            assert(s@.skip(off as int)[i as int] != suffix@[i as int]);
            return false;
        }
        i = i + 1;
    }
    assert(s@.skip(off as int) =~= suffix@);
    true
}

/// Whether `part` occurs in `s` at `i`.
pub open spec fn occurs_at(s: Seq<char>, part: Seq<char>, i: int) -> bool {
    0 <= i && i + part.len() <= s.len() && s.subrange(i, i + part.len()) == part
}

/// Whether `part` occurs in `s` at `i`.
pub fn stands_at(s: &Vec<char>, part: &str, i: usize) -> (r: bool)
    ensures
        r == occurs_at(s@, part@, i as int),
{
    let y = chars_of(part);
    let len: usize = s.len();
    if i > len || y.len() > len - i {
        return false;
    }
    let mut n: usize = 0;
    while n < y.len()
        invariant
            y@ == part@,
            len == s@.len(),
            i + y@.len() <= len,
            n <= y@.len(),
            forall|k: int| 0 <= k < n ==> s@[i + k] == y@[k],
        decreases y@.len() - n,
    {
        if s[i + n] != y[n] {
            assert(s@.subrange(i as int, i + part@.len())[n as int] != part@[n as int]);
            return false;
        }
        n = n + 1;
    }
    assert(s@.subrange(i as int, i + part@.len()) =~= part@);
    true
}

// ---------------------------------------------------------------------------
// ASCII case

/// The ASCII lower-case form of one character; everything outside `A`-`Z` is
/// left alone.
pub open spec fn lower_char(c: char) -> char {
    if 'A' as u32 <= c as u32 <= 'Z' as u32 {
        (c as u32 + 32) as char
    } else {
        c
    }
}

/// `s` with every ASCII upper-case letter replaced by its lower-case form.
pub open spec fn lower(s: Seq<char>) -> Seq<char> {
    Seq::new(s.len(), |i: int| lower_char(s[i]))
}

/// The ASCII lower-case form of `c`.
pub fn char_to_lower(c: char) -> (r: char)
    ensures
        r == lower_char(c),
{
    if c >= 'A' && c <= 'Z' {
        ((c as u8) + 32u8) as char
    } else {
        c
    }
}

/// A copy of `s` with ASCII letters in lower case.
pub fn to_lower(s: &str) -> (r: String)
    ensures
        r@ == lower(s@),
{
    let mut out = String::new();
    for c in it: s.chars()
        invariant
            it.seq() == s@,
            out@ == lower(s@.take(it.index() as int)),
    {
        assert(lower(s@.take(it.index() + 1)) =~= lower(s@.take(it.index() as int)).push(
            lower_char(c),
        ));
        out.push(char_to_lower(c));
    }
    assert(s@.take(s@.len() as int) =~= s@);
    out
}

/// Folding a name that is already folded changes nothing.
pub proof fn lower_idempotent(s: Seq<char>)
    ensures
        lower(lower(s)) == lower(s),
{
    assert(lower(lower(s)) =~= lower(s));
}

// ---------------------------------------------------------------------------
// Trimming and splitting

/// `s` without its leading white space.
pub open spec fn trimmed_start(s: Seq<char>) -> Seq<char>
    decreases s.len(),
{
    if s.len() > 0 && white_space(s[0]) {
        trimmed_start(s.skip(1))
    } else {
        s
    }
}

/// `s` without its trailing white space.
pub open spec fn trimmed_end(s: Seq<char>) -> Seq<char>
    decreases s.len(),
{
    if s.len() > 0 && white_space(s.last()) {
        trimmed_end(s.drop_last())
    } else {
        s
    }
}

/// `s` without its leading and trailing white space.
pub open spec fn trimmed(s: Seq<char>) -> Seq<char> {
    trimmed_end(trimmed_start(s))
}

/// A copy of `s` without leading and trailing white space.
pub fn trim(s: &str) -> (r: String)
    ensures
        r@ == trimmed(s@),
{
    let chars = chars_of(s);
    let mut start: usize = 0;
    assert(s@.skip(0) =~= s@);
    while start < chars.len() && chars[start].is_whitespace()
        invariant
            chars@ == s@,
            start <= chars@.len(),
            trimmed_start(s@.skip(start as int)) == trimmed_start(s@),
        decreases chars@.len() - start,
    {
        assert(s@.skip(start as int).skip(1) =~= s@.skip(start + 1));
        start = start + 1;
    }
    assert(trimmed_start(s@) == s@.skip(start as int));
    let mut end: usize = chars.len();
    assert(s@.subrange(start as int, end as int) =~= s@.skip(start as int));
    while end > start && chars[end - 1].is_whitespace()
        invariant
            chars@ == s@,
            start <= end <= chars@.len(),
            trimmed_end(s@.subrange(start as int, end as int)) == trimmed(s@),
        decreases end,
    {
        let ghost part = s@.subrange(start as int, end as int);
        assert(part.drop_last() =~= s@.subrange(start as int, end - 1));
        assert(part.last() == chars@[end - 1]);
        end = end - 1;
    }
    let ghost part = s@.subrange(start as int, end as int);
    assert(part.len() > 0 ==> part.last() == chars@[end - 1]);
    string_from(&chars, start, end)
}

/// The part of `s` before the first `c`; all of `s` if `c` does not occur.
pub open spec fn before_first(s: Seq<char>, c: char) -> Seq<char>
    decreases s.len(),
{
    if s.len() == 0 || s[0] == c {
        Seq::empty()
    } else {
        seq![s[0]] + before_first(s.skip(1), c)
    }
}

proof fn before_first_len(s: Seq<char>, c: char)
    ensures
        before_first(s, c).len() <= s.len(),
    decreases s.len(),
{
    if s.len() > 0 && s[0] != c {
        before_first_len(s.skip(1), c);
    }
}

proof fn before_first_at(s: Seq<char>, c: char, i: int)
    requires
        0 <= i <= s.len(),
        forall|j: int| 0 <= j < i ==> s[j] != c,
        i < s.len() ==> s[i] == c,
    ensures
        before_first(s, c) == s.take(i),
    decreases i,
{
    if i == 0 {
        assert(s.take(0) =~= Seq::empty());
    } else {
        before_first_at(s.skip(1), c, i - 1);
        assert(s.take(i) =~= seq![s[0]] + s.skip(1).take(i - 1));
    }
}

/// A copy of the part of `s` before the first `c`.
pub fn before(s: &str, c: char) -> (r: String)
    ensures
        r@ == before_first(s@, c),
{
    let chars = chars_of(s);
    let mut i: usize = 0;
    while i < chars.len() && chars[i] != c
        invariant
            chars@ == s@,
            i <= chars@.len(),
            forall|j: int| 0 <= j < i ==> chars@[j] != c,
        decreases chars@.len() - i,
    {
        i = i + 1;
    }
    proof {
        before_first_at(s@, c, i as int);
    }
    let r = string_from(&chars, 0, i);
    assert(r@ =~= s@.take(i as int));
    r
}

/// The pieces of `s` between the occurrences of `c`, in order.
pub open spec fn split_on(s: Seq<char>, c: char) -> Seq<Seq<char>>
    decreases s.len(),
{
    let head = before_first(s, c);
    if head.len() >= s.len() {
        seq![s]
    } else {
        seq![head] + split_on(s.skip(head.len() as int + 1), c)
    }
}

/// What a list of strings holds.
pub open spec fn texts(strings: Seq<String>) -> Seq<Seq<char>> {
    Seq::new(strings.len(), |i: int| strings[i]@)
}

/// What an optional string holds.
pub open spec fn optional_text(s: Option<String>) -> Option<Seq<char>> {
    match s {
        Some(s) => Some(s@),
        None => None,
    }
}

/// The pieces of `s` between the occurrences of `c`, in order.
pub fn split(s: &str, c: char) -> (r: Vec<String>)
    ensures
        texts(r@) == split_on(s@, c),
{
    let chars = chars_of(s);
    let mut out: Vec<String> = Vec::new();
    let mut start: usize = 0;
    let mut i: usize = 0;
    assert(s@.skip(0) =~= s@);
    assert(texts(out@) + split_on(s@, c) =~= split_on(s@, c));
    while i < chars.len()
        invariant
            chars@ == s@,
            start <= i <= chars@.len(),
            forall|j: int| start <= j < i ==> chars@[j] != c,
            texts(out@) + split_on(s@.skip(start as int), c) == split_on(s@, c),
        decreases chars@.len() - i,
    {
        if chars[i] == c {
            let ghost rest = s@.skip(start as int);
            let ghost before = out@;
            let piece = string_from(&chars, start, i);
            proof {
                before_first_at(rest, c, i - start);
                assert(rest.take(i - start) =~= piece@);
                assert(rest.skip(i - start + 1) =~= s@.skip(i + 1));
            }
            out.push(piece);
            assert(texts(out@) =~= texts(before).push(piece@));
            assert(texts(out@) + split_on(s@.skip(i + 1), c) =~= texts(before) + split_on(rest, c));
            start = i + 1;
        }
        i = i + 1;
    }
    let ghost rest = s@.skip(start as int);
    let ghost before = out@;
    let piece = string_from(&chars, start, chars.len());
    proof {
        before_first_at(rest, c, rest.len() as int);
        assert(rest.take(rest.len() as int) =~= rest);
        assert(piece@ =~= rest);
    }
    out.push(piece);
    assert(texts(out@) =~= texts(before) + seq![rest]);
    out
}

// ---------------------------------------------------------------------------
// Joining

/// The texts one after the other, with `sep` between each two.
pub open spec fn joined(items: Seq<Seq<char>>, sep: Seq<char>) -> Seq<char>
    decreases items.len(),
{
    if items.len() == 0 {
        Seq::empty()
    } else if items.len() == 1 {
        items[0]
    } else {
        joined(items.drop_last(), sep) + sep + items.last()
    }
}

/// The strings one after the other, with `sep` between each two.
pub fn join(items: &Vec<String>, sep: &str) -> (r: String)
    ensures
        r@ == joined(texts(items@), sep@),
{
    let mut out = String::new();
    let mut i: usize = 0;
    while i < items.len()
        invariant
            i <= items@.len(),
            out@ == joined(texts(items@).take(i as int), sep@),
        decreases items@.len() - i,
    {
        let ghost before = texts(items@).take(i as int);
        let ghost after = texts(items@).take(i + 1);
        proof {
            assert(after.drop_last() =~= before);
            assert(after.last() == items@[i as int]@);
        }
        if i == 0 {
            out = items[0].as_str().to_owned();
        } else {
            out = out.concat(sep).concat(items[i].as_str());
        }
        i = i + 1;
    }
    assert(texts(items@).take(i as int) =~= texts(items@));
    out
}

// ---------------------------------------------------------------------------
// Decimal numbers

/// The decimal digit character for `d`.
pub open spec fn digit_char(d: nat) -> char {
    (('0' as u32) + d) as char
}

/// Whether `c` is one of `0`-`9`.
pub open spec fn is_digit(c: char) -> bool {
    '0' as u32 <= c as u32 <= '9' as u32
}

/// The value of the digit `c`.
pub open spec fn digit_value(c: char) -> nat {
    (c as u32 - '0' as u32) as nat
}

/// The value of `c` as a decimal digit, if it is one.
pub fn char_digit(c: char) -> (r: Option<u64>)
    ensures
        r == (if is_digit(c) {
            Some(digit_value(c) as u64)
        } else {
            None
        }),
{
    if c >= '0' && c <= '9' {
        Some((c as u8 - 48u8) as u64)
    } else {
        None
    }
}

/// `n` written in decimal, without leading zeros.
pub open spec fn decimal(n: nat) -> Seq<char>
    decreases n,
{
    if n < 10 {
        seq![digit_char(n)]
    } else {
        decimal(n / 10).push(digit_char(n % 10))
    }
}

/// Whether `s` holds decimal digits only.
pub open spec fn all_digits(s: Seq<char>) -> bool {
    forall|i: int| 0 <= i < s.len() ==> is_digit(#[trigger] s[i])
}

/// The number that a sequence of digits stands for.
pub open spec fn digits_value(s: Seq<char>) -> nat
    decreases s.len(),
{
    if s.len() == 0 {
        0
    } else {
        digits_value(s.drop_last()) * 10 + digit_value(s.last())
    }
}

/// Reading back a number written in decimal gives the number.
pub proof fn decimal_round_trip(n: nat)
    ensures
        decimal(n).len() > 0,
        all_digits(decimal(n)),
        digits_value(decimal(n)) == n,
    decreases n,
{
    if n < 10 {
        assert(decimal(n) =~= seq![digit_char(n)]);
        assert(decimal(n).drop_last() =~= Seq::<char>::empty());
        assert(digits_value(decimal(n).drop_last()) == 0);
        assert(digit_value(digit_char(n)) == n);
    } else {
        decimal_round_trip(n / 10);
        assert(decimal(n).drop_last() =~= decimal(n / 10));
        assert(digit_value(digit_char(n % 10)) == n % 10);
    }
}

/// A number of so many digits is below that power of ten.
pub proof fn digits_value_bound(s: Seq<char>)
    requires
        all_digits(s),
    ensures
        digits_value(s) < vstd::arithmetic::power::pow(10, s.len()),
    decreases s.len(),
{
    if s.len() == 0 {
        vstd::arithmetic::power::lemma_pow0(10);
    } else {
        digits_value_bound(s.drop_last());
        vstd::arithmetic::power::lemma_pow1(10);
        vstd::arithmetic::power::lemma_pow_adds(10, 1, (s.len() - 1) as nat);
        assert(is_digit(s.last()));
    }
}

/// `n` in decimal.
pub fn decimal_string(n: u128) -> (r: String)
    ensures
        r@ == decimal(n as nat),
    decreases n,
{
    let digit: char = ((n % 10) as u8 + 48u8) as char;
    if n < 10 {
        let mut out = String::new();
        out.push(digit);
        assert(out@ =~= decimal(n as nat));
        out
    } else {
        let mut out = decimal_string(n / 10);
        out.push(digit);
        out
    }
}

proof fn digits_value_monotonic(s: Seq<char>, i: int)
    requires
        all_digits(s),
        0 <= i <= s.len(),
    ensures
        digits_value(s.take(i)) <= digits_value(s),
    decreases s.len(),
{
    if i < s.len() {
        digits_value_monotonic(s.drop_last(), i);
        assert(s.drop_last().take(i) =~= s.take(i));
    } else {
        assert(s.take(i) =~= s);
    }
}

/// The number written by the characters `start..end`, if they are digits, at
/// least one, and the number is at most `max`.
pub fn parse_digits(chars: &Vec<char>, start: usize, end: usize, max: u64) -> (r: Option<u64>)
    requires
        start <= end <= chars@.len(),
    ensures
        ({
            let s = chars@.subrange(start as int, end as int);
            if s.len() > 0 && all_digits(s) && digits_value(s) <= max {
                r == Some(digits_value(s) as u64)
            } else {
                r is None
            }
        }),
{
    let ghost s = chars@.subrange(start as int, end as int);
    if start == end {
        return None;
    }
    let mut value: u64 = 0;
    let mut too_big: bool = false;
    let mut i: usize = start;
    while i < end
        invariant
            start <= i <= end <= chars@.len(),
            s == chars@.subrange(start as int, end as int),
            all_digits(s.take(i - start)),
            too_big ==> digits_value(s.take(i - start)) > max,
            !too_big ==> value == digits_value(s.take(i - start)) && value <= max,
        decreases end - i,
    {
        let c: char = chars[i];
        assert(c == s[i - start]);
        let d: u64 = match char_digit(c) {
            Some(d) => d,
            None => {
                return None;
            },
        };
        let ghost next = s.take(i - start + 1);
        assert(next.drop_last() =~= s.take(i - start));
        assert(next.last() == c);
        assert forall|j: int| 0 <= j < next.len() implies is_digit(#[trigger] next[j]) by {
            if j < i - start {
                assert(next[j] == s.take(i - start)[j]);
            }
        }
        if !too_big {
            let wide: u128 = value as u128 * 10 + d as u128;
            if wide > max as u128 {
                too_big = true;
            } else {
                value = wide as u64;
            }
        }
        i = i + 1;
    }
    assert(s.take(end - start) =~= s);
    if too_big {
        None
    } else {
        Some(value)
    }
}

} // verus!
