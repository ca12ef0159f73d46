//! What the library promises, stated of its functions' arguments and results.
//!
//! Each law speaks of a call that has been made: `call_ensures` holds of a function,
//! the arguments of a call and the result that it gave. What follows is written out
//! in characters, numbers and header values.

pub mod calls;
pub mod client;
pub mod codegen;
pub mod conformance;
pub mod content_type;
pub mod drive;
pub mod encoding;
pub mod expand;
pub mod files;
pub mod frame;
pub mod metadata;
pub mod server;
pub mod service;
pub mod status;
pub mod stream;
pub mod text;
pub mod timeout;

use crate::headers::header_map;
use trillium_http::Headers;
use vstd::prelude::*;
use vstd::utf8::encode_utf8;

verus! {

/// Whether a header map holds one value under a lower-case name: this text.
pub open spec fn carries(h: Headers, name: Seq<char>, text: Seq<char>) -> bool {
    header_map(h).dom().contains(name) && header_map(h)[name] == seq![encode_utf8(text)]
}

/// Whether a header map holds nothing under a lower-case name.
pub open spec fn lacks(h: Headers, name: Seq<char>) -> bool {
    !header_map(h).dom().contains(name)
}

/// Whether a name has no upper-case ASCII letter.
pub open spec fn lower_case(name: Seq<char>) -> bool {
    forall|i: int| 0 <= i < name.len() ==> !('A' as u32 <= #[trigger] name[i] as u32 <= 'Z' as u32)
}

/// A name without upper-case letters is its own lower-case form.
pub proof fn lower_case_is_kept(name: Seq<char>)
    requires
        lower_case(name),
    ensures
        crate::text::lower(name) == name,
{
    assert(crate::text::lower(name) =~= name);
}

/// A header that carries one text is read as that text.
pub proof fn carried_text_is_read(h: Headers, name: Seq<char>, text: Seq<char>)
    requires
        lower_case(name),
        carries(h, name, text),
    ensures
        crate::headers::single_text(header_map(h), name) == Some(text),
        crate::headers::values_of(header_map(h), name) == seq![encode_utf8(text)],
{
    lower_case_is_kept(name);
    vstd::utf8::encode_utf8_valid_utf8(text);
    vstd::utf8::encode_utf8_decode_utf8(text);
}

/// A header that is absent is read as nothing.
pub proof fn absent_text_is_none(h: Headers, name: Seq<char>)
    requires
        lower_case(name),
        lacks(h, name),
    ensures
        crate::headers::single_text(header_map(h), name) is None,
        crate::headers::values_of(header_map(h), name) == Seq::<Seq<u8>>::empty(),
{
    lower_case_is_kept(name);
}

} // verus!
