//! Laws of texts.

use crate::text::{
    all_digits, before, before_first, begins_with, char_digit, char_to_lower, chars_of, decimal,
    decimal_round_trip, decimal_string, digits_value, ends_in, ends_with, is_digit, join, joined,
    lower, parse_digits, split, split_on, stands_at, starts_with, str_eq, string_from, texts, to_lower, trim, trimmed, trimmed_end, trimmed_start,
    white_space,
};
use vstd::prelude::*;

verus! {

/// Whether a text is white space throughout.
pub open spec fn blank(s: Seq<char>) -> bool {
    forall|i: int| 0 <= i < s.len() ==> white_space(#[trigger] s[i])
}

/// Whether a text has no white space at either end.
pub open spec fn tight(s: Seq<char>) -> bool {
    s.len() > 0 ==> !white_space(s[0]) && !white_space(s.last())
}

/// Whether a character does not occur in a text.
pub open spec fn free_of(s: Seq<char>, c: char) -> bool {
    forall|i: int| 0 <= i < s.len() ==> #[trigger] s[i] != c
}

proof fn start_is_cut(a: Seq<char>, t: Seq<char>)
    requires
        blank(a),
        t.len() > 0 ==> !white_space(t[0]),
    ensures
        trimmed_start(a + t) == t,
    decreases a.len(),
{
    if a.len() == 0 {
        assert(a + t =~= t);
    } else {
        assert((a + t)[0] == a[0]);
        assert((a + t).skip(1) =~= a.skip(1) + t);
        start_is_cut(a.skip(1), t);
    }
}

proof fn end_is_cut(t: Seq<char>, b: Seq<char>)
    requires
        blank(b),
        t.len() > 0 ==> !white_space(t.last()),
    ensures
        trimmed_end(t + b) == t,
    decreases b.len(),
{
    if b.len() == 0 {
        assert(t + b =~= t);
    } else {
        assert((t + b).last() == b.last());
        assert((t + b).drop_last() =~= t + b.drop_last());
        end_is_cut(t, b.drop_last());
    }
}

/// White space around a text is cut off, and nothing else.
pub proof fn padding_is_trimmed(a: Seq<char>, t: Seq<char>, b: Seq<char>)
    requires
        blank(a),
        blank(b),
        tight(t),
    ensures
        trimmed(a + t + b) == t,
{
    if t.len() == 0 {
        assert(a + t + b =~= a + b + t);
        assert(blank(a + b)) by {
            assert forall|i: int| 0 <= i < (a + b).len() implies white_space(#[trigger] (a + b)[i]) by {
                if i < a.len() {
                    assert((a + b)[i] == a[i]);
                } else {
                    assert((a + b)[i] == b[i - a.len()]);
                }
            }
        }
        start_is_cut(a + b, t);
        assert(trimmed_end(t) =~= t);
    } else {
        assert(a + t + b =~= a + (t + b));
        assert((t + b)[0] == t[0]);
        start_is_cut(a, t + b);
        end_is_cut(t, b);
    }
}

/// [`trim`] cuts off the white space around a text, and nothing else.
pub proof fn trim_cuts_the_padding(
    s: &str,
    a: Seq<char>,
    t: Seq<char>,
    b: Seq<char>,
    r: String,
)
    requires
        call_ensures(trim, (s,), r),
        s@ == a + t + b,
        blank(a),
        blank(b),
        tight(t),
    ensures
        r@ == t,
{
    padding_is_trimmed(a, t, b);
}

/// Letters `A` to `Z` are folded, and everything else is kept.
pub proof fn folding(s: &str, r: String, i: int)
    requires
        call_ensures(to_lower, (s,), r),
        0 <= i < s@.len(),
    ensures
        r@.len() == s@.len(),
        'A' as u32 <= s@[i] as u32 <= 'Z' as u32 ==> r@[i] as u32 == s@[i] as u32 + 32,
        !('A' as u32 <= s@[i] as u32 <= 'Z' as u32) ==> r@[i] == s@[i],
{
}

/// What stands before the first `c` ends there, or where the text does.
pub proof fn text_before(s: &str, c: char, head: Seq<char>, tail: Seq<char>, r: String)
    requires
        call_ensures(before, (s, c), r),
        free_of(head, c),
        s@ == head || s@ == head.push(c) + tail,
    ensures
        r@ == head,
{
    before_ends(head, c, tail);
}

/// What stands before the first `c` ends there, or where the text does.
pub proof fn before_ends(head: Seq<char>, c: char, tail: Seq<char>)
    requires
        free_of(head, c),
    ensures
        before_first(head, c) == head,
        before_first(head.push(c) + tail, c) == head,
    decreases head.len(),
{
    if head.len() == 0 {
        assert(before_first(head, c) =~= head);
        assert((head.push(c) + tail)[0] == c);
        assert(before_first(head.push(c) + tail, c) =~= head);
    } else {
        let whole = head.push(c) + tail;
        before_ends(head.skip(1), c, tail);
        assert(whole.skip(1) =~= head.skip(1).push(c) + tail);
        assert(whole[0] == head[0]);
        assert(head =~= seq![head[0]] + head.skip(1));
    }
}

/// A text without `c` is one piece; one with it is what stands before the first, and
/// then the pieces of the rest.
pub proof fn pieces(head: Seq<char>, c: char, tail: Seq<char>)
    requires
        free_of(head, c),
    ensures
        split_on(head, c) == seq![head],
        split_on(head.push(c) + tail, c) == seq![head] + split_on(tail, c),
{
    before_ends(head, c, tail);
    let whole = head.push(c) + tail;
    assert(whole.skip(head.len() as int + 1) =~= tail);
}

/// [`split`] cuts at every `c`: no piece holds one, and put together again with `c`
/// between them the pieces are the text.
pub proof fn split_cuts_at_every(s: &str, c: char, r: Vec<String>)
    requires
        call_ensures(split, (s, c), r),
    ensures
        r@.len() > 0,
        forall|i: int| 0 <= i < r@.len() ==> free_of((#[trigger] r@[i])@, c),
        joined(texts(r@), seq![c]) == s@,
{
    split_parts(s@, c);
    assert(texts(r@).len() == r@.len());
    assert forall|i: int| 0 <= i < r@.len() implies free_of((#[trigger] r@[i])@, c) by {
        assert(texts(r@)[i] == r@[i]@);
    }
}

proof fn split_parts(s: Seq<char>, c: char)
    ensures
        split_on(s, c).len() > 0,
        forall|i: int| 0 <= i < split_on(s, c).len() ==> free_of(#[trigger] split_on(s, c)[i], c),
        joined(split_on(s, c), seq![c]) == s,
    decreases s.len(),
{
    let n = first_place(s, c);
    let head = s.take(n);
    if n == s.len() {
        assert(head =~= s);
        pieces(s, c, Seq::empty());
        assert(joined(seq![s], seq![c]) == s);
    } else {
        let tail = s.skip(n + 1);
        assert(s =~= head.push(c) + tail);
        pieces(head, c, tail);
        split_parts(tail, c);
        let rest = split_on(tail, c);
        joined_first(head, rest, seq![c]);
        assert(joined(split_on(s, c), seq![c]) =~= s);
    }
}

/// Two texts that are cut into the same pieces are the same.
pub proof fn pieces_tell_texts_apart(a: Seq<char>, b: Seq<char>, c: char)
    requires
        split_on(a, c) == split_on(b, c),
    ensures
        a == b,
{
    split_parts(a, c);
    split_parts(b, c);
}

/// What stands behind the last `c` is the last piece, and what stands before it is cut
/// as it is on its own.
pub proof fn last_piece(head: Seq<char>, c: char, tail: Seq<char>)
    requires
        free_of(tail, c),
    ensures
        split_on(head.push(c) + tail, c) == split_on(head, c).push(tail),
    decreases head.len(),
{
    let n = first_place(head, c);
    pieces(tail, c, Seq::empty());
    if n == head.len() {
        assert(head.take(n) =~= head);
        pieces(head, c, tail);
        assert(seq![head] + seq![tail] =~= seq![head].push(tail));
    } else {
        let first = head.take(n);
        let rest = head.skip(n + 1);
        last_piece(rest, c, tail);
        assert(head =~= first.push(c) + rest);
        assert(head.push(c) + tail =~= first.push(c) + (rest.push(c) + tail));
        pieces(first, c, rest.push(c) + tail);
        pieces(first, c, rest);
        assert(seq![first] + split_on(rest, c).push(tail) =~= (seq![first] + split_on(
            rest,
            c,
        )).push(tail));
    }
}

proof fn first_place(s: Seq<char>, c: char) -> (n: int)
    ensures
        0 <= n <= s.len(),
        free_of(s.take(n), c),
        n < s.len() ==> s[n] == c,
    decreases s.len(),
{
    if s.len() == 0 || s[0] == c {
        0
    } else {
        let n = first_place(s.skip(1), c);
        assert forall|i: int| 0 <= i < s.take(n + 1).len() implies #[trigger] s.take(n + 1)[i]
            != c by {
            if i > 0 {
                assert(s.skip(1).take(n)[i - 1] == s[i]);
            }
        }
        n + 1
    }
}

/// Texts put together start with the first of them.
pub proof fn joined_first(head: Seq<char>, rest: Seq<Seq<char>>, sep: Seq<char>)
    requires
        rest.len() > 0,
    ensures
        joined(seq![head] + rest, sep) == head + sep + joined(rest, sep),
    decreases rest.len(),
{
    let all = seq![head] + rest;
    assert(all.last() == rest.last());
    if rest.len() == 1 {
        assert(all.drop_last() =~= seq![head]);
        assert(joined(seq![head], sep) == head);
        assert(joined(rest, sep) == rest[0]);
    } else {
        assert(all.drop_last() =~= seq![head] + rest.drop_last());
        joined_first(head, rest.drop_last(), sep);
        assert(joined(all, sep) =~= head + sep + joined(rest, sep));
    }
}

/// [`join`] puts the first text in front of the others, with the separator behind it.
pub proof fn joining(items: &Vec<String>, sep: &str, rest: Seq<Seq<char>>, r: String)
    requires
        call_ensures(join, (items, sep), r),
        items@.len() > 0,
        rest == texts(items@).skip(1),
    ensures
        items@.len() == 1 ==> r@ == items@[0]@,
        items@.len() > 1 ==> r@ == items@[0]@ + sep@ + joined(rest, sep@),
{
    if items@.len() > 1 {
        assert(texts(items@) =~= seq![items@[0]@] + rest);
        joined_first(items@[0]@, rest, sep@);
    }
}

/// A text begins with another where it is that text and something more.
pub proof fn beginning(s: &str, prefix: &str, r: bool)
    requires
        call_ensures(starts_with, (s, prefix), r),
    ensures
        r <==> exists|rest: Seq<char>| s@ == #[trigger] (prefix@ + rest),
{
    begins(s@, prefix@);
}

/// A text begins with another where it is that text and something more.
pub proof fn begins(s: Seq<char>, prefix: Seq<char>)
    ensures
        begins_with(s, prefix) <==> exists|rest: Seq<char>| s == #[trigger] (prefix + rest),
{
    if begins_with(s, prefix) {
        assert(s =~= prefix + s.skip(prefix.len() as int));
    }
    if exists|rest: Seq<char>| s == #[trigger] (prefix + rest) {
        let rest = choose|rest: Seq<char>| s == #[trigger] (prefix + rest);
        assert(s.take(prefix.len() as int) =~= prefix);
    }
}

/// A text ends in another where it is something and that text.
pub proof fn ending(s: &str, suffix: &str, r: bool)
    requires
        call_ensures(ends_with, (s, suffix), r),
    ensures
        r <==> exists|start: Seq<char>| s@ == #[trigger] (start + suffix@),
{
    ends(s@, suffix@);
}

/// A text ends in another where it is something and that text.
pub proof fn ends(s: Seq<char>, suffix: Seq<char>)
    ensures
        ends_in(s, suffix) <==> exists|start: Seq<char>| s == #[trigger] (start + suffix),
{
    if ends_in(s, suffix) {
        assert(s =~= s.take(s.len() - suffix.len()) + suffix);
    }
    if exists|start: Seq<char>| s == #[trigger] (start + suffix) {
        let start = choose|start: Seq<char>| s == #[trigger] (start + suffix);
        assert(s.skip(s.len() - suffix.len()) =~= suffix);
    }
}

/// One digit more makes a number ten times as large, and adds the digit.
pub proof fn one_digit_more(s: Seq<char>, c: char)
    requires
        '0' as int <= c as int <= '9' as int,
    ensures
        digits_value(s.push(c)) == 10 * digits_value(s) + (c as int - '0' as int),
        digits_value(Seq::empty()) == 0,
{
    assert(s.push(c).drop_last() =~= s);
}

/// The digits are `0` to `9`.
pub proof fn digits(s: Seq<char>)
    ensures
        all_digits(s) <==> forall|i: int|
            0 <= i < s.len() ==> '0' as u32 <= #[trigger] s[i] as u32 <= '9' as u32,
{
    if all_digits(s) {
        assert forall|i: int| 0 <= i < s.len() implies '0' as u32 <= #[trigger] s[i] as u32 <= '9' as u32 by {
            assert(is_digit(s[i]));
        }
    }
}

/// A number is written in decimal digits that stand for it, without a leading zero.
pub proof fn decimal_is_short(n: u128, r: String)
    requires
        call_ensures(decimal_string, (n,), r),
    ensures
        all_digits(r@),
        r@.len() > 0,
        digits_value(r@) == n,
        r@.len() > 1 ==> r@[0] != '0',
{
    decimal_round_trip(n as nat);
    no_leading_zero(n as nat);
}

proof fn no_leading_zero(n: nat)
    ensures
        decimal(n).len() > 0,
        n > 0 ==> decimal(n)[0] != '0',
        decimal(n).len() > 1 ==> decimal(n)[0] != '0',
    decreases n,
{
    if n >= 10 {
        no_leading_zero(n / 10);
        assert(decimal(n)[0] == decimal(n / 10)[0]);
    }
}

/// Two texts are told apart by a character or by their lengths.
pub proof fn equal_texts(a: &str, b: &str, r: bool)
    requires
        call_ensures(str_eq, (a, b), r),
    ensures
        r <==> a@.len() == b@.len() && forall|i: int| 0 <= i < a@.len() ==> #[trigger] a@[i] == b@[i],
{
    if a@.len() == b@.len() && forall|i: int| 0 <= i < a@.len() ==> #[trigger] a@[i] == b@[i] {
        assert(a@ =~= b@);
    }
}

/// Folding one letter.
pub proof fn folded_letter(c: char, r: char)
    requires
        call_ensures(char_to_lower, (c,), r),
    ensures
        r as int == (if 'A' as int <= c as int <= 'Z' as int {
            c as int + 32
        } else {
            c as int
        }),
{
}

/// A text is the list of its characters, and any stretch of the list is a text again.
pub proof fn texts_are_characters(s: &str, chars: Vec<char>, start: usize, end: usize, r: String)
    requires
        call_ensures(chars_of, (s,), chars),
        start <= end <= chars@.len(),
        call_ensures(string_from, (&chars, start, end), r),
    ensures
        chars@ == s@,
        r@.len() == end - start,
        forall|i: int| 0 <= i < r@.len() ==> #[trigger] r@[i] == s@[start + i],
{
}

/// A text stands in another where every one of its characters does.
pub proof fn parts_stand_where_they_stand(s: &Vec<char>, part: &str, i: usize, r: bool)
    requires
        call_ensures(stands_at, (s, part, i), r),
    ensures
        r <==> i + part@.len() <= s@.len() && forall|j: int|
            0 <= j < part@.len() ==> s@[i + j] == #[trigger] part@[j],
{
    if i + part@.len() <= s@.len() {
        let stretch = s@.subrange(i as int, i + part@.len() as int);
        if r {
            assert forall|j: int| 0 <= j < part@.len() implies s@[i + j] == #[trigger] part@[j] by {
                assert(stretch[j] == part@[j]);
            }
        } else if forall|j: int| 0 <= j < part@.len() ==> s@[i + j] == #[trigger] part@[j] {
            assert(stretch =~= part@);
        }
    }
}

/// A digit has its value, and nothing else has one.
pub proof fn digits_have_values(c: char, r: Option<u64>)
    requires
        call_ensures(char_digit, (c,), r),
    ensures
        r matches Some(n) ==> n <= 9 && c as u32 == 48 + n,
        r is None ==> !(48 <= c as u32 <= 57),
{
}

/// Digits up to the limit are read as the number that they stand for, and nothing else
/// is read.
pub proof fn numbers_are_read(chars: &Vec<char>, start: usize, end: usize, max: u64, r: Option<u64>)
    requires
        start <= end <= chars@.len(),
        call_ensures(parse_digits, (chars, start, end, max), r),
    ensures
        ({
            let s = chars@.subrange(start as int, end as int);
            let readable = s.len() > 0 && all_digits(s) && digits_value(s) <= max;
            &&& r is Some <==> readable
            &&& r matches Some(n) ==> n == digits_value(s)
        }),
{
}

} // verus!
