//! Laws of custom metadata.

use super::text::{begins, ends};
use super::{carries, lacks, lower_case_is_kept};
use crate::binary::{base64_decoded, base64_round_trip, base64_text};
use crate::headers::{header_map, values_of};
use crate::metadata::{
    is_reserved, is_valid_ascii_value, is_valid_key, validate_key,
    appended, appended_values, binary_key, binary_refusal, ascii_refusal, decoded_value,
    decoded_values, first_ascii, first_binary, header_metadata, key_char, printable_text,
    reserved_key, valid_entries, valid_entry, valid_key, values_for, wire_value, wire_values,
    Metadata, MetadataError, MetadataErrorView, MetadataValue, ValueView,
};
use crate::text::{debug_quoted, lower};
use trillium_http::Headers;
use vstd::prelude::*;
use vstd::utf8::{decode_utf8, encode_utf8, valid_utf8};

verus! {

/// Whether a key is spelled as a key may be: it is not empty, and holds lower-case
/// letters, digits, `_`, `-` and `.` only.
pub open spec fn well_spelled(key: Seq<char>) -> bool {
    &&& key.len() > 0
    &&& forall|i: int|
        0 <= i < key.len() ==> {
            let c = #[trigger] key[i];
            ||| 'a' as u32 <= c as u32 <= 'z' as u32
            ||| '0' as u32 <= c as u32 <= '9' as u32
            ||| c == '-'
            ||| c == '_'
            ||| c == '.'
        }
}

/// Whether a key belongs to the protocol: it is one of five, or begins with `grpc-`.
pub open spec fn taken(key: Seq<char>) -> bool {
    ||| key == "te"@
    ||| key == "host"@
    ||| key == "connection"@
    ||| key == "user-agent"@
    ||| key == "content-type"@
    ||| exists|rest: Seq<char>| key == #[trigger] ("grpc-"@ + rest)
}

/// Whether a key names binary values: it ends in `-bin`.
pub open spec fn for_bytes(key: Seq<char>) -> bool {
    exists|start: Seq<char>| key == #[trigger] (start + "-bin"@)
}

/// Whether a key is free for callers to use.
pub open spec fn free(key: Seq<char>) -> bool {
    well_spelled(key) && !taken(key)
}

/// Whether a text is printable ASCII.
pub open spec fn plain_text(value: Seq<char>) -> bool {
    forall|i: int| 0 <= i < value.len() ==> 0x20 <= #[trigger] value[i] as u32 <= 0x7E
}

/// Whether entries are such as can be inserted.
pub open spec fn insertable(entries: Seq<(Seq<char>, ValueView)>) -> bool {
    forall|i: int|
        0 <= i < entries.len() ==> free((#[trigger] entries[i]).0) && (entries[i].1 is Binary
            <==> for_bytes(entries[i].0))
}

/// The rules on keys, one by one.
pub proof fn key_rules(key: Seq<char>, value: Seq<char>)
    ensures
        valid_key(key) == well_spelled(key),
        reserved_key(key) == taken(key),
        binary_key(key) == for_bytes(key),
        printable_text(value) == plain_text(value),
{
    begins(key, "grpc-"@);
    ends(key, "-bin"@);
    if valid_key(key) {
        assert forall|i: int| 0 <= i < key.len() implies {
            let c = #[trigger] key[i];
            ||| 'a' as u32 <= c as u32 <= 'z' as u32
            ||| '0' as u32 <= c as u32 <= '9' as u32
            ||| c == '-'
            ||| c == '_'
            ||| c == '.'
        } by {
            assert(key_char(key[i]));
        }
    }
    if printable_text(value) {
        assert forall|i: int| 0 <= i < value.len() implies 0x20 <= #[trigger] value[i] as u32
            <= 0x7E by {
            assert(crate::metadata::printable(value[i]));
        }
    }
}

/// Entries that can be inserted have no value under a key that belongs to the protocol.
pub proof fn free_values(entries: Seq<(Seq<char>, ValueView)>, key: Seq<char>)
    requires
        insertable(entries),
        taken(key),
    ensures
        values_for(entries, key).len() == 0,
    decreases entries.len(),
{
    if entries.len() > 0 {
        let before = entries.drop_last();
        assert forall|i: int| 0 <= i < before.len() implies free((#[trigger] before[i]).0) && (
        before[i].1 is Binary <==> for_bytes(before[i].0)) by {
            assert(before[i] == entries[i]);
        }
        free_values(before, key);
        assert(free(entries[entries.len() - 1].0));
    }
}

/// Entries that can be inserted keep the invariant of metadata.
pub proof fn insertable_is_valid(entries: Seq<(Seq<char>, ValueView)>)
    requires
        insertable(entries),
    ensures
        valid_entries(entries),
{
    assert forall|i: int| 0 <= i < entries.len() implies valid_entry(#[trigger] entries[i]) by {
        key_rules(entries[i].0, Seq::empty());
    }
}

/// A text entry is accepted where its key is free and not for bytes, and its value is
/// printable ASCII; it then stands behind the others. Otherwise nothing changes.
pub proof fn text_entries_are_accepted(
    m: &mut Metadata,
    key: &str,
    value: &str,
    r: Result<(), MetadataError>,
)
    requires
        call_ensures(Metadata::insert_ascii, (m, key, value), r),
    ensures
        r is Ok <==> free(key@) && !for_bytes(key@) && plain_text(value@),
        r is Ok ==> final(m)@ == old(m)@.push((key@, ValueView::Ascii(value@))),
        r is Err ==> final(m)@ == old(m)@,
        !well_spelled(key@) ==> (r matches Err(e) && e@ == MetadataErrorView::InvalidKey(key@)),
        well_spelled(key@) && taken(key@) ==> (r matches Err(e) && e@
            == MetadataErrorView::ReservedKey(key@)),
        free(key@) && for_bytes(key@) ==> (r matches Err(e) && e@
            == MetadataErrorView::AsciiKeyHasBinSuffix(key@)),
        free(key@) && !for_bytes(key@) && !plain_text(value@) ==> (r matches Err(e) && e@
            == MetadataErrorView::InvalidAsciiValue),
{
    key_rules(key@, value@);
}

/// A binary entry is accepted where its key is free and for bytes, whatever its value;
/// it then stands behind the others. Otherwise nothing changes.
pub proof fn binary_entries_are_accepted(
    m: &mut Metadata,
    key: &str,
    value: Vec<u8>,
    r: Result<(), MetadataError>,
)
    requires
        call_ensures(Metadata::insert_binary, (m, key, value), r),
    ensures
        r is Ok <==> free(key@) && for_bytes(key@),
        r is Ok ==> final(m)@ == old(m)@.push((key@, ValueView::Binary(value@))),
        r is Err ==> final(m)@ == old(m)@,
        !well_spelled(key@) ==> (r matches Err(e) && e@ == MetadataErrorView::InvalidKey(key@)),
        well_spelled(key@) && taken(key@) ==> (r matches Err(e) && e@
            == MetadataErrorView::ReservedKey(key@)),
        free(key@) && !for_bytes(key@) ==> (r matches Err(e) && e@
            == MetadataErrorView::BinaryKeyMissingBinSuffix(key@)),
{
    key_rules(key@, Seq::empty());
}

proof fn first_text(entries: Seq<(Seq<char>, ValueView)>, key: Seq<char>)
    ensures
        match first_ascii(entries, key) {
            Some(v) => exists|i: int|
                0 <= i < entries.len() && #[trigger] entries[i] == (key, ValueView::Ascii(v))
                    && forall|j: int|
                    0 <= j < i ==> !((#[trigger] entries[j]).0 == key && entries[j].1 is Ascii),
            None => forall|i: int|
                0 <= i < entries.len() ==> !((#[trigger] entries[i]).0 == key
                    && entries[i].1 is Ascii),
        },
    decreases entries.len(),
{
    if entries.len() > 0 {
        let rest = entries.skip(1);
        if entries[0].0 == key && entries[0].1 is Ascii {
            assert(entries[0] == (key, ValueView::Ascii(entries[0].1->Ascii_0)));
        } else {
            first_text(rest, key);
            match first_ascii(rest, key) {
                Some(v) => {
                    let i = choose|i: int|
                        0 <= i < rest.len() && #[trigger] rest[i] == (key, ValueView::Ascii(v))
                            && forall|j: int|
                            0 <= j < i ==> !((#[trigger] rest[j]).0 == key && rest[j].1 is Ascii);
                    assert(entries[i + 1] == (key, ValueView::Ascii(v)));
                    assert forall|j: int| 0 <= j < i + 1 implies !((#[trigger] entries[j]).0 == key
                        && entries[j].1 is Ascii) by {
                        if j > 0 {
                            assert(rest[j - 1] == entries[j]);
                        }
                    }
                },
                None => {
                    assert forall|i: int| 0 <= i < entries.len() implies !((#[trigger] entries[i]).0
                        == key && entries[i].1 is Ascii) by {
                        if i > 0 {
                            assert(rest[i - 1] == entries[i]);
                        }
                    }
                },
            }
        }
    }
}

proof fn first_bytes(entries: Seq<(Seq<char>, ValueView)>, key: Seq<char>)
    ensures
        match first_binary(entries, key) {
            Some(v) => exists|i: int|
                0 <= i < entries.len() && #[trigger] entries[i] == (key, ValueView::Binary(v))
                    && forall|j: int|
                    0 <= j < i ==> !((#[trigger] entries[j]).0 == key && entries[j].1 is Binary),
            None => forall|i: int|
                0 <= i < entries.len() ==> !((#[trigger] entries[i]).0 == key
                    && entries[i].1 is Binary),
        },
    decreases entries.len(),
{
    if entries.len() > 0 {
        let rest = entries.skip(1);
        if entries[0].0 == key && entries[0].1 is Binary {
            assert(entries[0] == (key, ValueView::Binary(entries[0].1->Binary_0)));
        } else {
            first_bytes(rest, key);
            match first_binary(rest, key) {
                Some(v) => {
                    let i = choose|i: int|
                        0 <= i < rest.len() && #[trigger] rest[i] == (key, ValueView::Binary(v))
                            && forall|j: int|
                            0 <= j < i ==> !((#[trigger] rest[j]).0 == key && rest[j].1 is Binary);
                    assert(entries[i + 1] == (key, ValueView::Binary(v)));
                    assert forall|j: int| 0 <= j < i + 1 implies !((#[trigger] entries[j]).0 == key
                        && entries[j].1 is Binary) by {
                        if j > 0 {
                            assert(rest[j - 1] == entries[j]);
                        }
                    }
                },
                None => {
                    assert forall|i: int| 0 <= i < entries.len() implies !((#[trigger] entries[i]).0
                        == key && entries[i].1 is Binary) by {
                        if i > 0 {
                            assert(rest[i - 1] == entries[i]);
                        }
                    }
                },
            }
        }
    }
}

/// A look-up gives the first text under a key, and nothing where there is none.
pub proof fn look_up_gives_the_first_text(m: &Metadata, key: &str, r: Option<&str>)
    requires
        call_ensures(Metadata::get_ascii, (m, key), r),
    ensures
        match r {
            Some(v) => exists|i: int|
                0 <= i < m@.len() && #[trigger] m@[i] == (key@, ValueView::Ascii(v@)) && forall|
                    j: int,
                |
                    0 <= j < i ==> !((#[trigger] m@[j]).0 == key@ && m@[j].1 is Ascii),
            None => forall|i: int|
                0 <= i < m@.len() ==> !((#[trigger] m@[i]).0 == key@ && m@[i].1 is Ascii),
        },
{
    first_text(m@, key@);
}

/// A look-up gives the first bytes under a key, and nothing where there are none.
pub proof fn look_up_gives_the_first_bytes(m: &Metadata, key: &str, r: Option<&[u8]>)
    requires
        call_ensures(Metadata::get_binary, (m, key), r),
    ensures
        match r {
            Some(v) => exists|i: int|
                0 <= i < m@.len() && #[trigger] m@[i] == (key@, ValueView::Binary(v@)) && forall|
                    j: int,
                |
                    0 <= j < i ==> !((#[trigger] m@[j]).0 == key@ && m@[j].1 is Binary),
            None => forall|i: int|
                0 <= i < m@.len() ==> !((#[trigger] m@[i]).0 == key@ && m@[i].1 is Binary),
        },
{
    first_bytes(m@, key@);
}

/// The entries are walked in the order in which they were inserted.
pub proof fn entries_are_walked_in_order(m: &Metadata, r: Vec<(&str, &MetadataValue)>, i: int)
    requires
        call_ensures(Metadata::iter, (m,), r),
        0 <= i < m@.len(),
    ensures
        r@.len() == m@.len(),
        r@[i].0@ == m@[i].0,
        r@[i].1@ == m@[i].1,
{
}

/// The values under a key, in order: an entry under the key adds its value at the end,
/// and any other adds none.
pub proof fn values_of_a_key(
    entries: Seq<(Seq<char>, ValueView)>,
    entry: (Seq<char>, ValueView),
    key: Seq<char>,
)
    ensures
        values_for(Seq::empty(), key) == Seq::<ValueView>::empty(),
        values_for(entries.push(entry), key) == (if entry.0 == key {
            values_for(entries, key).push(entry.1)
        } else {
            values_for(entries, key)
        }),
{
    assert(entries.push(entry).drop_last() =~= entries);
}

proof fn decoded_texts(texts: Seq<Seq<char>>, values: Seq<Seq<u8>>)
    requires
        values.len() == texts.len(),
        forall|i: int| 0 <= i < texts.len() ==> #[trigger] values[i] == encode_utf8(texts[i]),
    ensures
        decoded_values(false, values) == Seq::new(
            texts.len(),
            |i: int| ValueView::Ascii(texts[i]),
        ),
    decreases texts.len(),
{
    let all = Seq::new(texts.len(), |i: int| ValueView::Ascii(texts[i]));
    if texts.len() > 0 {
        decoded_texts(texts.drop_last(), values.drop_last());
        vstd::utf8::encode_utf8_valid_utf8(texts.last());
        vstd::utf8::encode_utf8_decode_utf8(texts.last());
        assert(values.last() == encode_utf8(texts.last()));
    }
    assert(decoded_values(false, values) =~= all);
}

proof fn decoded_bytes(bytes: Seq<Seq<u8>>, values: Seq<Seq<u8>>)
    requires
        values.len() == bytes.len(),
        forall|i: int|
            0 <= i < bytes.len() ==> #[trigger] values[i] == encode_utf8(base64_text(bytes[i])),
    ensures
        decoded_values(true, values) == Seq::new(
            bytes.len(),
            |i: int| ValueView::Binary(bytes[i]),
        ),
    decreases bytes.len(),
{
    let all = Seq::new(bytes.len(), |i: int| ValueView::Binary(bytes[i]));
    if bytes.len() > 0 {
        decoded_bytes(bytes.drop_last(), values.drop_last());
        base64_round_trip(bytes.last());
        assert(values.last() == encode_utf8(base64_text(bytes.last())));
    }
    assert(decoded_values(true, values) =~= all);
}

/// The texts that a header map holds under a free key are read, all of them and in
/// order.
pub proof fn texts_are_read(
    h: &Headers,
    key: Seq<char>,
    texts: Seq<Seq<char>>,
    r: Metadata,
)
    requires
        call_ensures(Metadata::from_headers, (h,), r),
        free(key),
        !for_bytes(key),
        header_map(*h).dom().contains(key),
        header_map(*h)[key].len() == texts.len(),
        forall|i: int|
            0 <= i < texts.len() ==> #[trigger] header_map(*h)[key][i] == encode_utf8(texts[i]),
    ensures
        values_for(r@, key) == Seq::new(texts.len(), |i: int| ValueView::Ascii(texts[i])),
{
    key_rules(key, Seq::empty());
    decoded_texts(texts, header_map(*h)[key]);
    assert(values_for(r@, key) == header_metadata(header_map(*h), key));
}

/// The bytes that a header map holds in base64 under a free key for bytes are read, all
/// of them and in order.
pub proof fn bytes_are_read(
    h: &Headers,
    key: Seq<char>,
    bytes: Seq<Seq<u8>>,
    r: Metadata,
)
    requires
        call_ensures(Metadata::from_headers, (h,), r),
        free(key),
        for_bytes(key),
        header_map(*h).dom().contains(key),
        header_map(*h)[key].len() == bytes.len(),
        forall|i: int|
            0 <= i < bytes.len() ==> #[trigger] header_map(*h)[key][i] == encode_utf8(
                base64_text(bytes[i]),
            ),
    ensures
        values_for(r@, key) == Seq::new(bytes.len(), |i: int| ValueView::Binary(bytes[i])),
{
    key_rules(key, Seq::empty());
    decoded_bytes(bytes, header_map(*h)[key]);
    assert(values_for(r@, key) == header_metadata(header_map(*h), key));
}

/// A value that cannot be decoded is passed over, and those around it are read.
pub proof fn broken_values_are_passed_over(binary: bool, values: Seq<Seq<u8>>, value: Seq<u8>)
    ensures
        (if binary {
            base64_decoded(value) is None
        } else {
            !valid_utf8(value)
        }) ==> decoded_values(binary, values.push(value)) == decoded_values(binary, values),
        !binary && valid_utf8(value) ==> decoded_values(binary, values.push(value))
            == decoded_values(binary, values).push(ValueView::Ascii(decode_utf8(value))),
        binary && base64_decoded(value) is Some ==> decoded_values(binary, values.push(value))
            == decoded_values(binary, values).push(ValueView::Binary(base64_decoded(value)->0)),
{
    assert(values.push(value).drop_last() =~= values);
    assert(decoded_value(binary, values.push(value).last()) == decoded_value(binary, value));
}

/// Nothing is read under a key that is not free, or that the header map does not hold.
pub proof fn other_headers_are_not_metadata(h: &Headers, key: Seq<char>, r: Metadata)
    requires
        call_ensures(Metadata::from_headers, (h,), r),
        !free(key) || lacks(*h, key),
    ensures
        values_for(r@, key) == Seq::<ValueView>::empty(),
{
    key_rules(key, Seq::empty());
    assert(values_for(r@, key) == header_metadata(header_map(*h), key));
}

/// What is looked up in the metadata of a header map is the header's text.
pub proof fn a_header_is_looked_up(
    h: &Headers,
    key: &str,
    text: Seq<char>,
    m: Metadata,
    r: Option<&str>,
)
    requires
        call_ensures(Metadata::from_headers, (h,), m),
        call_ensures(Metadata::get_ascii, (&m, key), r),
        free(key@),
        !for_bytes(key@),
        carries(*h, key@, text),
    ensures
        r matches Some(found) && found@ == text,
{
    texts_are_read(h, key@, seq![text], m);
    only_value(m@, key@, ValueView::Ascii(text));
    first_text(m@, key@);
}

proof fn only_value(entries: Seq<(Seq<char>, ValueView)>, key: Seq<char>, value: ValueView)
    requires
        values_for(entries, key) =~= seq![value],
    ensures
        exists|i: int| 0 <= i < entries.len() && #[trigger] entries[i] == (key, value),
        forall|i: int|
            0 <= i < entries.len() && (#[trigger] entries[i]).0 == key ==> entries[i].1 == value,
    decreases entries.len(),
{
    let before = entries.drop_last();
    if entries.last().0 == key {
        assert(values_for(entries, key).drop_last() =~= values_for(before, key));
        assert(values_for(before, key).len() == 0);
        assert(entries.last() == (key, values_for(entries, key).last()));
        assert forall|i: int|
            0 <= i < entries.len() && (#[trigger] entries[i]).0 == key implies entries[i].1
            == value by {
            if i < before.len() {
                assert(before[i] == entries[i]);
                no_value(before, key, i);
            }
        }
    } else {
        only_value(before, key, value);
        let i = choose|i: int| 0 <= i < before.len() && #[trigger] before[i] == (key, value);
        assert(entries[i] == (key, value));
        assert forall|i: int|
            0 <= i < entries.len() && (#[trigger] entries[i]).0 == key implies entries[i].1
            == value by {
            assert(before[i] == entries[i]);
        }
    }
}

proof fn no_value(entries: Seq<(Seq<char>, ValueView)>, key: Seq<char>, i: int)
    requires
        values_for(entries, key).len() == 0,
        0 <= i < entries.len(),
    ensures
        entries[i].0 != key,
    decreases entries.len(),
{
    if i < entries.len() - 1 {
        no_value(entries.drop_last(), key, i);
    }
}

/// Metadata is written behind what a header map holds under each key: a text as it is,
/// bytes in base64. Names that no entry has keep their values.
pub proof fn metadata_is_written(m: &Metadata, h: &mut Headers, key: Seq<char>)
    requires
        call_ensures(Metadata::write_into, (m, h), ()),
        insertable(m@),
        well_spelled(key),
    ensures
        ({
            let before = if header_map(*old(h)).dom().contains(key) {
                header_map(*old(h))[key]
            } else {
                Seq::empty()
            };
            let after = if header_map(*final(h)).dom().contains(key) {
                header_map(*final(h))[key]
            } else {
                Seq::empty()
            };
            let values = values_for(m@, key);
            &&& after.len() == before.len() + values.len()
            &&& after.take(before.len() as int) == before
            &&& forall|i: int|
                0 <= i < values.len() ==> #[trigger] after[before.len() + i] == (match values[i] {
                    ValueView::Ascii(text) => encode_utf8(text),
                    ValueView::Binary(bytes) => encode_utf8(base64_text(bytes)),
                })
        }),
{
    insertable_is_valid(m@);
    spelled_is_lower(key);
    appended_values(header_map(*old(h)), m@, key);
    let before = values_of(header_map(*old(h)), key);
    let values = values_for(m@, key);
    assert((before + wire_values(values)).take(before.len() as int) =~= before);
    assert forall|i: int| 0 <= i < values.len() implies #[trigger] (before + wire_values(
        values,
    ))[before.len() + i] == wire_value(values[i]) by {
        assert(wire_values(values)[i] == wire_value(values[i]));
    }
}

/// A well-spelled key is its own lower-case form.
pub proof fn spelled_is_lower(key: Seq<char>)
    requires
        well_spelled(key),
    ensures
        lower(key) == key,
{
    assert forall|i: int| 0 <= i < key.len() implies !('A' as u32 <= #[trigger] key[i] as u32
        <= 'Z' as u32) by {}
    lower_case_is_kept(key);
}

/// A key or a value is told by its own rule.
pub proof fn keys_are_checked(
    key: &str,
    value: &str,
    checked: Result<(), MetadataError>,
    valid: bool,
    printable: bool,
    reserved: bool,
)
    requires
        call_ensures(validate_key, (key,), checked),
        call_ensures(is_valid_key, (key,), valid),
        call_ensures(is_valid_ascii_value, (value,), printable),
        call_ensures(is_reserved, (key,), reserved),
    ensures
        valid == well_spelled(key@),
        printable == plain_text(value@),
        reserved == taken(key@),
        checked is Ok <==> well_spelled(key@),
        checked matches Err(e) ==> e@ == MetadataErrorView::InvalidKey(key@),
{
    key_rules(key@, value@);
}

/// A value is read as what it is, and as nothing else.
pub proof fn values_are_told_apart(v: &MetadataValue, text: Option<&str>, bytes: Option<&[u8]>)
    requires
        call_ensures(MetadataValue::as_ascii, (v,), text),
        call_ensures(MetadataValue::as_binary, (v,), bytes),
    ensures
        v@ matches ValueView::Ascii(s) ==> (text matches Some(t) && t@ == s) && bytes is None,
        v@ matches ValueView::Binary(b) ==> text is None && (bytes matches Some(c) && c@ == b),
{
}

/// The entries are counted.
pub proof fn entries_are_counted(m: &Metadata, n: usize, empty: bool, fresh: Metadata)
    requires
        call_ensures(Metadata::len, (m,), n),
        call_ensures(Metadata::is_empty, (m,), empty),
        call_ensures(Metadata::new, (), fresh),
    ensures
        n == m@.len(),
        empty <==> m@.len() == 0,
        fresh@.len() == 0,
{
}

/// A copy holds the same entries, in the same order.
pub proof fn copies_hold_the_same(m: &Metadata, v: &MetadataValue, n: Metadata, w: MetadataValue)
    requires
        call_ensures(<Metadata as Clone>::clone, (m,), n),
        call_ensures(<MetadataValue as Clone>::clone, (v,), w),
    ensures
        n@ == m@,
        w@ == v@,
{
}

/// A refusal says why, and which key it was.
pub proof fn refusals_are_worded(e: &MetadataError, r: String)
    requires
        call_ensures(MetadataError::message, (e,), r),
    ensures
        e@ matches MetadataErrorView::InvalidKey(k) ==> r@ == "metadata key "@ + debug_quoted(k)
            + " contains invalid characters (must match [0-9a-z_\\-.]+)"@,
        e@ matches MetadataErrorView::ReservedKey(k) ==> r@ == "metadata key "@ + debug_quoted(k)
            + " is reserved by the gRPC framework"@,
        e@ matches MetadataErrorView::AsciiKeyHasBinSuffix(k) ==> r@ == "ASCII metadata key "@
            + debug_quoted(k) + " must not end in -bin"@,
        e@ matches MetadataErrorView::BinaryKeyMissingBinSuffix(k) ==> r@
            == "binary metadata key "@ + debug_quoted(k) + " must end in -bin"@,
        e@ is InvalidAsciiValue ==> r@ == "ASCII metadata value contains non-printable bytes"@,
{
}

} // verus!
