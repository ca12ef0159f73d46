//! Custom request, response, and trailing metadata.
//!
//! gRPC distinguishes "ASCII metadata" (printable-ASCII values) from "binary
//! metadata" (key ends in `-bin`, value base64-encoded on the wire). Reserved
//! keys (`grpc-*`, `te`, `content-type`, `user-agent`, `host`, `connection`)
//! are owned by the framework and rejected on insert.
//!
//! [`Metadata`] keeps its entries in the order in which they were inserted and
//! round-trips through a header map, key by key.

use crate::binary::{base64_decode, base64_encode};
use crate::headers::{headers_append, headers_entries};
use crate::text::{chars_of, debug_text, ends_with, from_utf8, starts_with, str_eq, to_lower};
use trillium_http::Headers;
use vstd::prelude::*;
use vstd::utf8::{
    decode_utf8, encode_utf8, encode_utf8_decode_utf8, encode_utf8_valid_utf8, valid_utf8,
};

verus! {

broadcast use vstd::seq_lib::group_seq_properties;

/// Metadata entries in insertion order.
#[derive(Debug)]
pub struct Metadata {
    entries: Vec<(String, MetadataValue)>,
}

/// The value of one metadata entry.
#[derive(Debug)]
pub enum MetadataValue {
    /// Text, sent as it stands.
    Ascii(String),
    /// Raw bytes, sent in base64.
    Binary(Vec<u8>),
}

/// Why an entry was refused.
#[derive(Debug)]
pub enum MetadataError {
    /// The key is empty or holds a character outside `[0-9a-z_\-.]`.
    InvalidKey(String),
    /// The key belongs to the framework.
    ReservedKey(String),
    /// A text entry under a key that ends in `-bin`.
    AsciiKeyHasBinSuffix(String),
    /// A binary entry under a key that does not end in `-bin`.
    BinaryKeyMissingBinSuffix(String),
    /// A text value with a character outside 0x20-0x7E.
    InvalidAsciiValue,
}

/// What a metadata value is.
#[verifier::ext_equal]
pub ghost enum ValueView {
    Ascii(Seq<char>),
    Binary(Seq<u8>),
}

/// What a metadata error says.
pub ghost enum MetadataErrorView {
    InvalidKey(Seq<char>),
    ReservedKey(Seq<char>),
    AsciiKeyHasBinSuffix(Seq<char>),
    BinaryKeyMissingBinSuffix(Seq<char>),
    InvalidAsciiValue,
}

impl View for MetadataValue {
    type V = ValueView;

    open spec fn view(&self) -> ValueView {
        match self {
            MetadataValue::Ascii(s) => ValueView::Ascii(s@),
            MetadataValue::Binary(b) => ValueView::Binary(b@),
        }
    }
}

impl View for MetadataError {
    type V = MetadataErrorView;

    open spec fn view(&self) -> MetadataErrorView {
        match self {
            MetadataError::InvalidKey(k) => MetadataErrorView::InvalidKey(k@),
            MetadataError::ReservedKey(k) => MetadataErrorView::ReservedKey(k@),
            MetadataError::AsciiKeyHasBinSuffix(k) => MetadataErrorView::AsciiKeyHasBinSuffix(k@),
            MetadataError::BinaryKeyMissingBinSuffix(k) => MetadataErrorView::BinaryKeyMissingBinSuffix(
                k@,
            ),
            MetadataError::InvalidAsciiValue => MetadataErrorView::InvalidAsciiValue,
        }
    }
}

/// What a list of entries is.
pub open spec fn entries_view(entries: Seq<(String, MetadataValue)>) -> Seq<(Seq<char>, ValueView)> {
    Seq::new(entries.len(), |i: int| (entries[i].0@, entries[i].1@))
}

impl View for Metadata {
    type V = Seq<(Seq<char>, ValueView)>;

    closed spec fn view(&self) -> Seq<(Seq<char>, ValueView)> {
        entries_view(self.entries@)
    }
}

// ---------------------------------------------------------------------------
// The rules on keys and values

/// Whether `c` may stand in a metadata key.
pub open spec fn key_char(c: char) -> bool {
    ||| '0' as u32 <= c as u32 <= '9' as u32
    ||| 'a' as u32 <= c as u32 <= 'z' as u32
    ||| c == '_'
    ||| c == '-'
    ||| c == '.'
}

/// Whether `key` is a well-formed metadata key: not empty, `[0-9a-z_\-.]` only.
pub open spec fn valid_key(key: Seq<char>) -> bool {
    key.len() > 0 && forall|i: int| 0 <= i < key.len() ==> key_char(#[trigger] key[i])
}

/// Whether `c` is printable ASCII.
pub open spec fn printable(c: char) -> bool {
    0x20 <= c as u32 <= 0x7E
}

/// Whether `value` is printable ASCII throughout.
pub open spec fn printable_text(value: Seq<char>) -> bool {
    forall|i: int| 0 <= i < value.len() ==> printable(#[trigger] value[i])
}

/// Whether `key` is owned by the framework or the transport.
pub open spec fn reserved_key(key: Seq<char>) -> bool {
    ||| crate::text::begins_with(key, "grpc-"@)
    ||| key == "te"@
    ||| key == "content-type"@
    ||| key == "user-agent"@
    ||| key == "host"@
    ||| key == "connection"@
}

/// Whether `key` names binary metadata.
pub open spec fn binary_key(key: Seq<char>) -> bool {
    crate::text::ends_in(key, "-bin"@)
}

/// Why a text entry is refused, if it is.
pub open spec fn ascii_refusal(key: Seq<char>, value: Seq<char>) -> Option<MetadataErrorView> {
    if !valid_key(key) {
        Some(MetadataErrorView::InvalidKey(key))
    } else if reserved_key(key) {
        Some(MetadataErrorView::ReservedKey(key))
    } else if binary_key(key) {
        Some(MetadataErrorView::AsciiKeyHasBinSuffix(key))
    } else if !printable_text(value) {
        Some(MetadataErrorView::InvalidAsciiValue)
    } else {
        None
    }
}

/// Why a binary entry under `key` is refused, if it is.
pub open spec fn binary_refusal(key: Seq<char>) -> Option<MetadataErrorView> {
    if !valid_key(key) {
        Some(MetadataErrorView::InvalidKey(key))
    } else if reserved_key(key) {
        Some(MetadataErrorView::ReservedKey(key))
    } else if !binary_key(key) {
        Some(MetadataErrorView::BinaryKeyMissingBinSuffix(key))
    } else {
        None
    }
}

/// Whether one entry may stand in a `Metadata`: its key is well-formed and not
/// reserved, and its value is of the kind that the key's suffix announces.
pub open spec fn valid_entry(entry: (Seq<char>, ValueView)) -> bool {
    &&& valid_key(entry.0)
    &&& !reserved_key(entry.0)
    &&& entry.1 is Binary <==> binary_key(entry.0)
}

/// The invariant of `Metadata`, which every operation establishes or keeps.
pub open spec fn valid_entries(entries: Seq<(Seq<char>, ValueView)>) -> bool {
    forall|i: int| 0 <= i < entries.len() ==> valid_entry(#[trigger] entries[i])
}

// ---------------------------------------------------------------------------
// Lookup

/// The text of the first text entry under `key`.
pub open spec fn first_ascii(entries: Seq<(Seq<char>, ValueView)>, key: Seq<char>) -> Option<Seq<char>>
    decreases entries.len(),
{
    if entries.len() == 0 {
        None
    } else if entries[0].0 == key && entries[0].1 is Ascii {
        Some(entries[0].1->Ascii_0)
    } else {
        first_ascii(entries.skip(1), key)
    }
}

/// The bytes of the first binary entry under `key`.
pub open spec fn first_binary(entries: Seq<(Seq<char>, ValueView)>, key: Seq<char>) -> Option<Seq<u8>>
    decreases entries.len(),
{
    if entries.len() == 0 {
        None
    } else if entries[0].0 == key && entries[0].1 is Binary {
        Some(entries[0].1->Binary_0)
    } else {
        first_binary(entries.skip(1), key)
    }
}

/// All values under `key`, in order.
pub open spec fn values_for(entries: Seq<(Seq<char>, ValueView)>, key: Seq<char>) -> Seq<ValueView>
    decreases entries.len(),
{
    if entries.len() == 0 {
        Seq::empty()
    } else if entries.last().0 == key {
        values_for(entries.drop_last(), key).push(entries.last().1)
    } else {
        values_for(entries.drop_last(), key)
    }
}

// ---------------------------------------------------------------------------
// Header maps

/// The value that the header bytes stand for: base64 under a binary key, UTF-8
/// text under any other. Nothing if they cannot be decoded.
pub open spec fn decoded_value(binary: bool, bytes: Seq<u8>) -> Option<ValueView> {
    if binary {
        match crate::binary::base64_decoded(bytes) {
            Some(b) => Some(ValueView::Binary(b)),
            None => None,
        }
    } else if valid_utf8(bytes) {
        Some(ValueView::Ascii(decode_utf8(bytes)))
    } else {
        None
    }
}

/// The values of a header, in order, without those that cannot be decoded.
pub open spec fn decoded_values(binary: bool, values: Seq<Seq<u8>>) -> Seq<ValueView>
    decreases values.len(),
{
    if values.len() == 0 {
        Seq::empty()
    } else {
        let before = decoded_values(binary, values.drop_last());
        match decoded_value(binary, values.last()) {
            Some(v) => before.push(v),
            None => before,
        }
    }
}

/// The metadata that a header map carries under `key`: none if the key is
/// reserved or not a well-formed metadata key.
pub open spec fn header_metadata(
    m: Map<Seq<char>, Seq<Seq<u8>>>,
    key: Seq<char>,
) -> Seq<ValueView> {
    if valid_key(key) && !reserved_key(key) && m.dom().contains(key) {
        decoded_values(binary_key(key), m[key])
    } else {
        Seq::empty()
    }
}

/// Whether `entries` are the metadata carried by a header map: under every key
/// the same values in the same order. The order of different keys is open, as
/// it is in the header map.
pub open spec fn carried_by(
    entries: Seq<(Seq<char>, ValueView)>,
    m: Map<Seq<char>, Seq<Seq<u8>>>,
) -> bool {
    forall|key: Seq<char>| #[trigger] values_for(entries, key) == header_metadata(m, key)
}

/// The header bytes of a metadata value.
pub open spec fn wire_value(value: ValueView) -> Seq<u8> {
    match value {
        ValueView::Ascii(s) => encode_utf8(s),
        ValueView::Binary(b) => encode_utf8(crate::binary::base64_text(b)),
    }
}

/// A header map after every entry has been appended to it, in order.
pub open spec fn appended(
    m: Map<Seq<char>, Seq<Seq<u8>>>,
    entries: Seq<(Seq<char>, ValueView)>,
) -> Map<Seq<char>, Seq<Seq<u8>>>
    decreases entries.len(),
{
    if entries.len() == 0 {
        m
    } else {
        let before = appended(m, entries.drop_last());
        let (key, value) = entries.last();
        before.insert(
            crate::text::lower(key),
            crate::headers::values_of(before, key).push(wire_value(value)),
        )
    }
}

impl MetadataValue {
    /// The text of a text value.
    pub fn as_ascii(&self) -> (r: Option<&str>)
        ensures
            r is Some <==> self@ is Ascii,
            r is Some ==> self@ == ValueView::Ascii(r->0@),
    {
        match self {
            MetadataValue::Ascii(s) => Some(s.as_str()),
            MetadataValue::Binary(_) => None,
        }
    }

    /// The bytes of a binary value.
    pub fn as_binary(&self) -> (r: Option<&[u8]>)
        ensures
            r is Some <==> self@ is Binary,
            r is Some ==> self@ == ValueView::Binary(r->0@),
    {
        match self {
            MetadataValue::Binary(b) => Some(b.as_slice()),
            MetadataValue::Ascii(_) => None,
        }
    }
}

impl Clone for MetadataValue {
    fn clone(&self) -> (r: Self)
        ensures
            r@ == self@,
    {
        match self {
            MetadataValue::Ascii(s) => MetadataValue::Ascii(s.clone()),
            MetadataValue::Binary(b) => {
                let c = b.clone();
                assert(c@ =~= b@);
                MetadataValue::Binary(c)
            },
        }
    }
}

impl Clone for Metadata {
    fn clone(&self) -> (r: Self)
        ensures
            r@ == self@,
    {
        let mut entries: Vec<(String, MetadataValue)> = Vec::new();
        let mut i: usize = 0;
        while i < self.entries.len()
            invariant
                i <= self.entries@.len(),
                entries@.len() == i,
                entries_view(entries@) == self@.take(i as int),
            decreases self.entries@.len() - i,
        {
            let key = self.entries[i].0.clone();
            let value = self.entries[i].1.clone();
            let ghost before = entries@;
            entries.push((key, value));
            assert forall|j: int| 0 <= j < i + 1 implies entries_view(entries@)[j] == self@.take(
                i + 1,
            )[j] by {
                if j < i {
                    assert(entries_view(before)[j] == self@.take(i as int)[j]);
                }
            }
            assert(entries_view(entries@) =~= self@.take(i + 1));
            i = i + 1;
        }
        assert(self@.take(i as int) =~= self@);
        Metadata { entries }
    }
}

impl Default for Metadata {
    fn default() -> (r: Self)
        ensures
            r@ == Seq::<(Seq<char>, ValueView)>::empty(),
            valid_entries(r@),
    {
        Metadata::new()
    }
}

impl Metadata {
    /// Metadata without entries.
    pub fn new() -> (r: Self)
        ensures
            r@ == Seq::<(Seq<char>, ValueView)>::empty(),
            valid_entries(r@),
    {
        let r = Metadata { entries: Vec::new() };
        assert(r@ =~= Seq::<(Seq<char>, ValueView)>::empty());
        r
    }

    /// Whether there are no entries.
    pub fn is_empty(&self) -> (r: bool)
        ensures
            r == (self@.len() == 0),
    {
        self.entries.len() == 0
    }

    /// The number of entries.
    pub fn len(&self) -> (r: usize)
        ensures
            r == self@.len(),
    {
        self.entries.len()
    }

    /// Insert an ASCII metadata entry. Key must be lowercase
    /// `[0-9a-z_\-.]+`, must not be reserved, and must not end in `-bin`.
    /// Value must be printable ASCII (0x20-0x7E).
    pub fn insert_ascii(&mut self, key: &str, value: &str) -> (r: Result<(), MetadataError>)
        ensures
            match ascii_refusal(key@, value@) {
                None => r is Ok && final(self)@ == old(self)@.push(
                    (key@, ValueView::Ascii(value@)),
                ),
                Some(e) => r is Err && r->Err_0@ == e && final(self)@ == old(self)@,
            },
            valid_entries(old(self)@) ==> valid_entries(final(self)@),
    {
        match validate_key(key) {
            Ok(()) => {},
            Err(e) => {
                return Err(e);
            },
        }
        if is_reserved(key) {
            return Err(MetadataError::ReservedKey(key.to_owned()));
        }
        if ends_with(key, "-bin") {
            return Err(MetadataError::AsciiKeyHasBinSuffix(key.to_owned()));
        }
        if !is_valid_ascii_value(value) {
            return Err(MetadataError::InvalidAsciiValue);
        }
        self.entries.push((key.to_owned(), MetadataValue::Ascii(value.to_owned())));
        assert(self@ =~= old(self)@.push((key@, ValueView::Ascii(value@))));
        Ok(())
    }

    /// Insert a binary metadata entry. Key must end in `-bin` and otherwise
    /// follow the same rules as ASCII keys. Value bytes are base64-encoded
    /// at write time.
    pub fn insert_binary(&mut self, key: &str, value: Vec<u8>) -> (r: Result<(), MetadataError>)
        ensures
            match binary_refusal(key@) {
                None => r is Ok && final(self)@ == old(self)@.push(
                    (key@, ValueView::Binary(value@)),
                ),
                Some(e) => r is Err && r->Err_0@ == e && final(self)@ == old(self)@,
            },
            valid_entries(old(self)@) ==> valid_entries(final(self)@),
    {
        match validate_key(key) {
            Ok(()) => {},
            Err(e) => {
                return Err(e);
            },
        }
        if is_reserved(key) {
            return Err(MetadataError::ReservedKey(key.to_owned()));
        }
        if !ends_with(key, "-bin") {
            return Err(MetadataError::BinaryKeyMissingBinSuffix(key.to_owned()));
        }
        let ghost bytes = value@;
        self.entries.push((key.to_owned(), MetadataValue::Binary(value)));
        assert(self@ =~= old(self)@.push((key@, ValueView::Binary(bytes))));
        Ok(())
    }

    /// Return the first ASCII value for `key`, if any.
    pub fn get_ascii(&self, key: &str) -> (r: Option<&str>)
        ensures
            r is Some <==> first_ascii(self@, key@) is Some,
            r is Some ==> first_ascii(self@, key@) == Some(r->0@),
    {
        let mut i: usize = 0;
        assert(self@.skip(0) =~= self@);
        while i < self.entries.len()
            invariant
                i <= self.entries@.len(),
                first_ascii(self@.skip(i as int), key@) == first_ascii(self@, key@),
            decreases self.entries@.len() - i,
        {
            let ghost rest = self@.skip(i as int);
            assert(rest[0] == (self.entries@[i as int].0@, self.entries@[i as int].1@));
            assert(rest.skip(1) =~= self@.skip(i + 1));
            if let MetadataValue::Ascii(s) = &self.entries[i].1 {
                if str_eq(self.entries[i].0.as_str(), key) {
                    return Some(s.as_str());
                }
            }
            i = i + 1;
        }
        None
    }

    /// Return the first binary value for `key`, if any.
    pub fn get_binary(&self, key: &str) -> (r: Option<&[u8]>)
        ensures
            r is Some <==> first_binary(self@, key@) is Some,
            r is Some ==> first_binary(self@, key@) == Some(r->0@),
    {
        let mut i: usize = 0;
        assert(self@.skip(0) =~= self@);
        while i < self.entries.len()
            invariant
                i <= self.entries@.len(),
                first_binary(self@.skip(i as int), key@) == first_binary(self@, key@),
            decreases self.entries@.len() - i,
        {
            let ghost rest = self@.skip(i as int);
            assert(rest[0] == (self.entries@[i as int].0@, self.entries@[i as int].1@));
            assert(rest.skip(1) =~= self@.skip(i + 1));
            if let MetadataValue::Binary(b) = &self.entries[i].1 {
                if str_eq(self.entries[i].0.as_str(), key) {
                    return Some(b.as_slice());
                }
            }
            i = i + 1;
        }
        None
    }

    /// The entries, in insertion order.
    pub fn iter(&self) -> (r: Vec<(&str, &MetadataValue)>)
        ensures
            r@.len() == self@.len(),
            forall|i: int|
                0 <= i < r@.len() ==> self@[i] == ((#[trigger] r@[i]).0@, r@[i].1@),
    {
        let mut out: Vec<(&str, &MetadataValue)> = Vec::new();
        let mut i: usize = 0;
        while i < self.entries.len()
            invariant
                i <= self.entries@.len(),
                out@.len() == i,
                forall|j: int|
                    0 <= j < out@.len() ==> self@[j] == ((#[trigger] out@[j]).0@, out@[j].1@),
            decreases self.entries@.len() - i,
        {
            out.push((self.entries[i].0.as_str(), &self.entries[i].1));
            i = i + 1;
        }
        out
    }
}

impl Metadata {
    /// Pluck non-reserved entries out of `headers`. Binary `-bin` entries
    /// are base64-decoded; entries that fail to decode or whose ASCII values
    /// are not valid UTF-8 are skipped silently: unparseable user metadata is
    /// dropped rather than failing the whole call.
    ///
    /// Header names are normalized to lowercase before they are matched
    /// against the reserved set and stored.
    pub fn from_headers(headers: &Headers) -> (r: Self)
        ensures
            carried_by(r@, crate::headers::header_map(*headers)),
            valid_entries(r@),
    {
        let ghost m = crate::headers::header_map(*headers);
        let all = headers_entries(headers);
        let mut out = Metadata::new();
        let mut i: usize = 0;
        while i < all.len()
            invariant
                m == crate::headers::header_map(*headers),
                i <= all@.len(),
                forall|j: int|
                    0 <= j < all@.len() ==> m.dom().contains(
                        crate::text::lower(#[trigger] all@[j].0@),
                    ) && m[crate::text::lower(all@[j].0@)] == crate::headers::bytes_of(all@[j].1@),
                forall|j: int, k: int|
                    0 <= j < k < all@.len() ==> crate::text::lower(#[trigger] all@[j].0@)
                        != crate::text::lower(#[trigger] all@[k].0@),
                valid_entries(out@),
                forall|j: int|
                    0 <= j < i ==> values_for(
                        out@,
                        crate::text::lower(#[trigger] all@[j].0@),
                    ) == header_metadata(m, crate::text::lower(all@[j].0@)),
                forall|key: Seq<char>|
                    (forall|j: int| 0 <= j < i ==> crate::text::lower(#[trigger] all@[j].0@) != key)
                        ==> #[trigger] values_for(out@, key).len() == 0,
            decreases all@.len() - i,
        {
            let key = to_lower(all[i].0.as_str());
            let ghost before = out@;
            out.push_decoded(key.as_str(), &all[i].1);
            assert(key@ == crate::text::lower(all@[i as int].0@));
            assert forall|j: int| 0 <= j < i + 1 implies values_for(
                out@,
                crate::text::lower(#[trigger] all@[j].0@),
            ) == header_metadata(m, crate::text::lower(all@[j].0@)) by {
                if j == i {
                    assert(values_for(before, key@).len() == 0);
                    assert(values_for(before, key@) =~= Seq::empty());
                    assert(values_for(out@, key@) =~= header_metadata(m, key@));
                } else {
                    assert(crate::text::lower(all@[j].0@) != key@);
                }
            }
            assert forall|other: Seq<char>|
                (forall|j: int| 0 <= j < i + 1 ==> crate::text::lower(#[trigger] all@[j].0@) != other)
                implies #[trigger] values_for(out@, other).len() == 0 by {
                assert(crate::text::lower(all@[i as int].0@) != other);
                assert(values_for(before, other).len() == 0);
            }
            i = i + 1;
        }
        assert forall|key: Seq<char>| #[trigger]
            values_for(out@, key) == header_metadata(m, key) by {
            if m.dom().contains(key) {
                let j = choose|j: int|
                    0 <= j < all@.len() && crate::text::lower(#[trigger] all@[j].0@) == key;
                assert(values_for(out@, crate::text::lower(all@[j].0@)) == header_metadata(m, key));
            } else {
                assert(values_for(out@, key).len() == 0);
                assert(values_for(out@, key) =~= Seq::empty());
            }
        }
        out
    }

    /// Append under `key` those of `values` that can be decoded, unless the key
    /// is reserved or malformed.
    fn push_decoded(&mut self, key: &str, values: &Vec<Vec<u8>>)
        ensures
            values_for(final(self)@, key@) == values_for(old(self)@, key@) + (if valid_key(key@)
                && !reserved_key(key@) {
                decoded_values(binary_key(key@), crate::headers::bytes_of(values@))
            } else {
                Seq::empty()
            }),
            forall|other: Seq<char>|
                other != key@ ==> #[trigger] values_for(final(self)@, other) == values_for(
                    old(self)@,
                    other,
                ),
            valid_entries(old(self)@) ==> valid_entries(final(self)@),
    {
        let ghost start = self@;
        let ghost bytes = crate::headers::bytes_of(values@);
        if is_reserved(key) || !is_valid_key(key) {
            assert(values_for(self@, key@) =~= values_for(start, key@) + Seq::empty());
            return ;
        }
        let is_bin = ends_with(key, "-bin");
        let mut i: usize = 0;
        assert(values_for(self@, key@) =~= values_for(start, key@) + decoded_values(
            is_bin,
            bytes.take(0),
        ));
        while i < values.len()
            invariant
                i <= values@.len(),
                valid_key(key@),
                !reserved_key(key@),
                is_bin == binary_key(key@),
                bytes == crate::headers::bytes_of(values@),
                valid_entries(start) ==> valid_entries(self@),
                values_for(self@, key@) == values_for(start, key@) + decoded_values(
                    is_bin,
                    bytes.take(i as int),
                ),
                forall|other: Seq<char>|
                    other != key@ ==> #[trigger] values_for(self@, other) == values_for(
                        start,
                        other,
                    ),
            decreases values@.len() - i,
        {
            let ghost before = self@;
            let ghost done = bytes.take(i as int);
            let ghost next = bytes.take(i + 1);
            assert(next.drop_last() =~= done);
            assert(next.last() == values@[i as int]@);
            if is_bin {
                if let Some(decoded) = base64_decode(values[i].as_slice()) {
                    self.entries.push((key.to_owned(), MetadataValue::Binary(decoded)));
                    assert(self@ =~= before.push((key@, ValueView::Binary(decoded@))));
                    proof {
                        values_for_push(before, (key@, ValueView::Binary(decoded@)));
                    }
                }
            } else {
                if let Some(s) = from_utf8(values[i].as_slice()) {
                    self.entries.push((key.to_owned(), MetadataValue::Ascii(s)));
                    assert(self@ =~= before.push((key@, ValueView::Ascii(s@))));
                    proof {
                        values_for_push(before, (key@, ValueView::Ascii(s@)));
                    }
                }
            }
            assert(values_for(self@, key@) =~= values_for(start, key@) + decoded_values(
                is_bin,
                next,
            ));
            i = i + 1;
        }
        assert(bytes.take(values@.len() as int) =~= bytes);
    }

    /// Append every entry to `headers`. Binary values are base64-encoded.
    /// Multiple values for the same key produce multiple appended entries,
    /// preserving wire order.
    pub fn write_into(&self, headers: &mut Headers)
        ensures
            crate::headers::header_map(*final(headers)) == appended(
                crate::headers::header_map(*old(headers)),
                self@,
            ),
    {
        let ghost m = crate::headers::header_map(*headers);
        let mut i: usize = 0;
        assert(self@.take(0).len() == 0);
        while i < self.entries.len()
            invariant
                i <= self.entries@.len(),
                crate::headers::header_map(*headers) == appended(m, self@.take(i as int)),
            decreases self.entries@.len() - i,
        {
            let ghost next = self@.take(i + 1);
            assert(next.drop_last() =~= self@.take(i as int));
            assert(next.last() == self@[i as int]);
            let key = self.entries[i].0.as_str();
            match &self.entries[i].1 {
                MetadataValue::Ascii(v) => {
                    headers_append(headers, key, v.as_str());
                },
                MetadataValue::Binary(b) => {
                    let text = base64_encode(b.as_slice());
                    headers_append(headers, key, text.as_str());
                },
            }
            i = i + 1;
        }
        assert(self@.take(i as int) =~= self@);
    }
}

proof fn values_for_push(entries: Seq<(Seq<char>, ValueView)>, entry: (Seq<char>, ValueView))
    ensures
        values_for(entries.push(entry), entry.0) == values_for(entries, entry.0).push(entry.1),
        forall|other: Seq<char>|
            other != entry.0 ==> #[trigger] values_for(entries.push(entry), other) == values_for(
                entries,
                other,
            ),
{
    assert(entries.push(entry).drop_last() =~= entries);
}

/// Whether `key` is a well-formed metadata key, as a result.
pub fn validate_key(key: &str) -> (r: Result<(), MetadataError>)
    ensures
        valid_key(key@) ==> r is Ok,
        !valid_key(key@) ==> r is Err && r->Err_0@ == MetadataErrorView::InvalidKey(key@),
{
    if is_valid_key(key) {
        Ok(())
    } else {
        Err(MetadataError::InvalidKey(key.to_owned()))
    }
}

fn is_key_char(c: char) -> (r: bool)
    ensures
        r == key_char(c),
{
    (c >= '0' && c <= '9') || (c >= 'a' && c <= 'z') || c == '_' || c == '-' || c == '.'
}

/// Whether `key` is a well-formed metadata key.
pub fn is_valid_key(key: &str) -> (r: bool)
    ensures
        r == valid_key(key@),
{
    let chars = chars_of(key);
    if chars.len() == 0 {
        return false;
    }
    let mut i: usize = 0;
    while i < chars.len()
        invariant
            chars@ == key@,
            i <= chars@.len(),
            forall|j: int| 0 <= j < i ==> key_char(#[trigger] key@[j]),
        decreases chars@.len() - i,
    {
        if !is_key_char(chars[i]) {
            assert(!key_char(key@[i as int]));
            return false;
        }
        i = i + 1;
    }
    true
}

fn is_printable(c: char) -> (r: bool)
    ensures
        r == printable(c),
{
    c >= ' ' && c <= '~'
}

/// Whether `value` is printable ASCII throughout.
pub fn is_valid_ascii_value(value: &str) -> (r: bool)
    ensures
        r == printable_text(value@),
{
    let chars = chars_of(value);
    let mut i: usize = 0;
    while i < chars.len()
        invariant
            chars@ == value@,
            i <= chars@.len(),
            forall|j: int| 0 <= j < i ==> printable(#[trigger] value@[j]),
        decreases chars@.len() - i,
    {
        if !is_printable(chars[i]) {
            assert(!printable(value@[i as int]));
            return false;
        }
        i = i + 1;
    }
    true
}

/// Keys owned by the gRPC framework or HTTP transport. The `grpc-` prefix
/// catches the documented family (`grpc-status`, `grpc-message`,
/// `grpc-status-details-bin`, `grpc-timeout`, `grpc-encoding`,
/// `grpc-accept-encoding`) plus any future additions.
pub fn is_reserved(key: &str) -> (r: bool)
    ensures
        r == reserved_key(key@),
{
    starts_with(key, "grpc-") || str_eq(key, "te") || str_eq(key, "content-type") || str_eq(
        key,
        "user-agent",
    ) || str_eq(key, "host") || str_eq(key, "connection")
}

impl MetadataError {
    /// The error in words.
    pub fn message(&self) -> (r: String)
        ensures
            r@ == error_message(self@),
    {
        match self {
            MetadataError::InvalidKey(k) => String::new().concat("metadata key ").concat(
                debug_text(k.as_str()).as_str(),
            ).concat(" contains invalid characters (must match [0-9a-z_\\-.]+)"),
            MetadataError::ReservedKey(k) => String::new().concat("metadata key ").concat(
                debug_text(k.as_str()).as_str(),
            ).concat(" is reserved by the gRPC framework"),
            MetadataError::AsciiKeyHasBinSuffix(k) => String::new().concat(
                "ASCII metadata key ",
            ).concat(debug_text(k.as_str()).as_str()).concat(" must not end in -bin"),
            MetadataError::BinaryKeyMissingBinSuffix(k) => String::new().concat(
                "binary metadata key ",
            ).concat(debug_text(k.as_str()).as_str()).concat(" must end in -bin"),
            MetadataError::InvalidAsciiValue => "ASCII metadata value contains non-printable bytes".to_owned(),
        }
    }
}

/// The words for a metadata error; a key is quoted as `{:?}` quotes it.
pub open spec fn error_message(e: MetadataErrorView) -> Seq<char> {
    match e {
        MetadataErrorView::InvalidKey(k) => "metadata key "@ + crate::text::debug_quoted(k)
            + " contains invalid characters (must match [0-9a-z_\\-.]+)"@,
        MetadataErrorView::ReservedKey(k) => "metadata key "@ + crate::text::debug_quoted(k)
            + " is reserved by the gRPC framework"@,
        MetadataErrorView::AsciiKeyHasBinSuffix(k) => "ASCII metadata key "@
            + crate::text::debug_quoted(k) + " must not end in -bin"@,
        MetadataErrorView::BinaryKeyMissingBinSuffix(k) => "binary metadata key "@
            + crate::text::debug_quoted(k) + " must end in -bin"@,
        MetadataErrorView::InvalidAsciiValue => "ASCII metadata value contains non-printable bytes"@,
    }
}

// ---------------------------------------------------------------------------
// Laws

/// The header bytes of a list of values.
pub open spec fn wire_values(values: Seq<ValueView>) -> Seq<Seq<u8>> {
    Seq::new(values.len(), |i: int| wire_value(values[i]))
}

/// A well-formed key is its own lower-case form.
pub proof fn valid_key_is_lower(key: Seq<char>)
    requires
        valid_key(key),
    ensures
        crate::text::lower(key) == key,
{
    assert forall|i: int| 0 <= i < key.len() implies crate::text::lower_char(key[i]) == key[i] by {
        assert(key_char(key[i]));
    }
    assert(crate::text::lower(key) =~= key);
}

/// Writing entries leaves what a header map held under a key in place, and
/// puts the entries' values for that key behind it, in order.
pub proof fn appended_values(
    m: Map<Seq<char>, Seq<Seq<u8>>>,
    entries: Seq<(Seq<char>, ValueView)>,
    key: Seq<char>,
)
    requires
        valid_entries(entries),
        crate::text::lower(key) == key,
    ensures
        crate::headers::values_of(appended(m, entries), key) == crate::headers::values_of(m, key)
            + wire_values(values_for(entries, key)),
        m.dom().contains(key) || values_for(entries, key).len() > 0 <==> appended(
            m,
            entries,
        ).dom().contains(key),
    decreases entries.len(),
{
    if entries.len() == 0 {
        assert(wire_values(values_for(entries, key)) =~= Seq::empty());
        assert(crate::headers::values_of(m, key) + Seq::<Seq<u8>>::empty()
            =~= crate::headers::values_of(m, key));
    } else {
        let before = entries.drop_last();
        let (last, value) = entries.last();
        appended_values(m, before, key);
        valid_key_is_lower(last);
        if last == key {
            assert(wire_values(values_for(entries, key)) =~= wire_values(
                values_for(before, key),
            ).push(wire_value(value)));
            assert(crate::headers::values_of(appended(m, entries), key)
                =~= crate::headers::values_of(m, key) + wire_values(values_for(entries, key)));
        }
    }
}

proof fn decoded_wire_values(binary: bool, values: Seq<ValueView>)
    requires
        forall|i: int| 0 <= i < values.len() ==> ((#[trigger] values[i]) is Binary <==> binary),
    ensures
        decoded_values(binary, wire_values(values)) == values,
    decreases values.len(),
{
    if values.len() == 0 {
        assert(decoded_values(binary, wire_values(values)) =~= values);
    } else {
        let before = values.drop_last();
        assert forall|i: int| 0 <= i < before.len() implies ((#[trigger] before[i]) is Binary
            <==> binary) by {
            assert(before[i] == values[i]);
        }
        decoded_wire_values(binary, before);
        let wire = wire_values(values);
        assert(wire.drop_last() =~= wire_values(before));
        let last = values.last();
        assert(last is Binary <==> binary);
        match last {
            ValueView::Ascii(s) => {
                encode_utf8_valid_utf8(s);
                encode_utf8_decode_utf8(s);
            },
            ValueView::Binary(b) => {
                crate::binary::base64_round_trip(b);
            },
        }
        assert(decoded_value(binary, wire.last()) == Some(last));
        assert(values =~= before.push(last));
    }
}

proof fn values_for_kind(entries: Seq<(Seq<char>, ValueView)>, key: Seq<char>)
    requires
        valid_entries(entries),
    ensures
        forall|i: int|
            0 <= i < values_for(entries, key).len() ==> ((#[trigger] values_for(
                entries,
                key,
            )[i]) is Binary <==> binary_key(key)),
        values_for(entries, key).len() > 0 ==> valid_key(key) && !reserved_key(key),
    decreases entries.len(),
{
    if entries.len() > 0 {
        let before = entries.drop_last();
        assert forall|i: int| 0 <= i < before.len() implies valid_entry(#[trigger] before[i]) by {
            assert(before[i] == entries[i]);
        }
        values_for_kind(before, key);
        assert(valid_entry(entries.last()));
    }
}

/// Writing entries leaves every reserved header as it was.
pub proof fn reserved_untouched(
    m: Map<Seq<char>, Seq<Seq<u8>>>,
    entries: Seq<(Seq<char>, ValueView)>,
    name: Seq<char>,
)
    requires
        valid_entries(entries),
        reserved_key(crate::text::lower(name)),
    ensures
        crate::headers::values_of(appended(m, entries), name) == crate::headers::values_of(m, name),
{
    let key = crate::text::lower(name);
    crate::text::lower_idempotent(name);
    values_for_kind(entries, key);
    appended_values(m, entries, key);
    assert(wire_values(values_for(entries, key)) =~= Seq::empty());
    assert(crate::headers::values_of(m, key) + Seq::<Seq<u8>>::empty() =~= crate::headers::values_of(
        m,
        key,
    ));
}

/// Metadata survives a trip through a header map: under every key, the values
/// written into a header map that held no metadata are the values read back,
/// in order.
pub proof fn metadata_round_trip(
    m: Map<Seq<char>, Seq<Seq<u8>>>,
    entries: Seq<(Seq<char>, ValueView)>,
    key: Seq<char>,
)
    requires
        valid_entries(entries),
        valid_key(key) && !reserved_key(key) ==> !m.dom().contains(key),
    ensures
        header_metadata(appended(m, entries), key) == values_for(entries, key),
{
    values_for_kind(entries, key);
    if valid_key(key) && !reserved_key(key) {
        valid_key_is_lower(key);
        appended_values(m, entries, key);
        decoded_wire_values(binary_key(key), values_for(entries, key));
        assert(Seq::<Seq<u8>>::empty() + wire_values(values_for(entries, key)) =~= wire_values(
            values_for(entries, key),
        ));
        if values_for(entries, key).len() == 0 {
            assert(values_for(entries, key) =~= Seq::empty());
        }
    } else {
        assert(values_for(entries, key) =~= Seq::empty());
    }
}

/// Taking out an entry takes one value from its key, and none from another.
proof fn values_for_remove(entries: Seq<(Seq<char>, ValueView)>, at: int, key: Seq<char>)
    requires
        0 <= at < entries.len(),
    ensures
        values_for(entries, key).len() == values_for(entries.remove(at), key).len() + (if entries[at].0
            == key {
            1int
        } else {
            0int
        }),
    decreases entries.len(),
{
    let less = entries.remove(at);
    if at == entries.len() - 1 {
        assert(less =~= entries.drop_last());
    } else {
        values_for_remove(entries.drop_last(), at, key);
        assert(less.drop_last() =~= entries.drop_last().remove(at));
        assert(less.last() == entries.last());
    }
}

/// A key that has a value stands in some entry.
proof fn values_for_position(entries: Seq<(Seq<char>, ValueView)>, key: Seq<char>) -> (at: int)
    requires
        values_for(entries, key).len() > 0,
    ensures
        0 <= at < entries.len(),
        entries[at].0 == key,
    decreases entries.len(),
{
    if entries.last().0 == key {
        entries.len() - 1
    } else {
        values_for_position(entries.drop_last(), key)
    }
}

/// Entries with as many values under every key are as many.
proof fn same_counts(a: Seq<(Seq<char>, ValueView)>, b: Seq<(Seq<char>, ValueView)>)
    requires
        forall|key: Seq<char>| #[trigger] values_for(a, key).len() == values_for(b, key).len(),
    ensures
        a.len() == b.len(),
    decreases a.len(),
{
    if a.len() == 0 {
        if b.len() > 0 {
            assert(values_for(a, b.last().0).len() == values_for(b, b.last().0).len());
        }
    } else {
        let key = a.last().0;
        assert(values_for(a, key).len() == values_for(b, key).len());
        let at = values_for_position(b, key);
        assert forall|other: Seq<char>| #[trigger]
            values_for(a.drop_last(), other).len() == values_for(b.remove(at), other).len() by {
            assert(values_for(a, other).len() == values_for(b, other).len());
            values_for_remove(b, at, other);
        }
        same_counts(a.drop_last(), b.remove(at));
    }
}

/// No entry is lost or made up on a trip through a header map that held no metadata:
/// what is read back has the same values under every key, and as many entries in all.
pub proof fn no_entry_is_lost(
    m: Map<Seq<char>, Seq<Seq<u8>>>,
    entries: Seq<(Seq<char>, ValueView)>,
    read: Seq<(Seq<char>, ValueView)>,
)
    requires
        valid_entries(entries),
        forall|key: Seq<char>|
            valid_key(key) && !reserved_key(key) ==> !(#[trigger] m.dom().contains(key)),
        carried_by(read, appended(m, entries)),
    ensures
        forall|key: Seq<char>| #[trigger] values_for(read, key) == values_for(entries, key),
        read.len() == entries.len(),
{
    assert forall|key: Seq<char>| #[trigger] values_for(read, key) == values_for(entries, key) by {
        metadata_round_trip(m, entries, key);
    }
    same_counts(read, entries);
}

/// The first value read back for a key is the first one inserted under it.
pub proof fn insert_then_get(entries: Seq<(Seq<char>, ValueView)>, key: Seq<char>, value: Seq<char>)
    requires
        first_ascii(entries, key) is None,
    ensures
        first_ascii(entries.push((key, ValueView::Ascii(value))), key) == Some(value),
    decreases entries.len(),
{
    let longer = entries.push((key, ValueView::Ascii(value)));
    if entries.len() > 0 {
        insert_then_get(entries.skip(1), key, value);
        assert(longer.skip(1) =~= entries.skip(1).push((key, ValueView::Ascii(value))));
    }
}

} // verus!
