//! The client half.
//!
//! A call is one of [`UnaryConn`], [`StreamingConn`] or [`BidiConn`], built on
//! the [`GrpcClientConn`] engine. The engine performs no I/O: it says what to
//! send and when to open, read or close the transport, is told what came of
//! it, and keeps the call's state. Per-client configuration (compression,
//! deadlines) lives on [`ServiceClientExt`].

use crate::text::{chars_of, string_from};
use vstd::prelude::*;

pub mod conn;
pub mod dispatch;
pub mod service_client;
pub mod typed;

pub use conn::GrpcClientConn;
pub use service_client::{ServiceClient, ServiceClientExt};
pub use typed::{BidiConn, StreamingConn, UnaryConn};

verus! {

/// `s` without the slashes at its end.
pub open spec fn without_trailing_slashes(s: Seq<char>) -> Seq<char>
    decreases s.len(),
{
    if s.len() > 0 && s.last() == '/' {
        without_trailing_slashes(s.drop_last())
    } else {
        s
    }
}

/// Append a service-prefix segment to the path of a client's base URL, so that
/// each method only needs to specify its own name as a relative path.
pub fn with_service_prefix(base_path: &str, prefix: &str) -> (r: String)
    ensures
        r@ == without_trailing_slashes(base_path@) + "/"@ + prefix@ + "/"@,
{
    let chars = chars_of(base_path);
    let mut end: usize = chars.len();
    assert(base_path@.take(end as int) =~= base_path@);
    while end > 0 && chars[end - 1] == '/'
        invariant
            chars@ == base_path@,
            end <= chars@.len(),
            without_trailing_slashes(base_path@.take(end as int)) == without_trailing_slashes(
                base_path@,
            ),
        decreases end,
    {
        assert(base_path@.take(end as int).drop_last() =~= base_path@.take(end - 1));
        end = end - 1;
    }
    let base = string_from(&chars, 0, end);
    assert(base@ =~= base_path@.take(end as int));
    assert(end > 0 ==> base_path@.take(end as int).last() == chars@[end - 1]);
    base.concat("/").concat(prefix).concat("/")
}

} // verus!
