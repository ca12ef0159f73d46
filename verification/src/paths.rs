//! Paths of files, read by the rules of the platform.
//!
//! Which paths are absolute, what stands between two joined ones and where a path
//! ends differ from platform to platform. Nothing is claimed of a result here but
//! which call it came from: each relation below holds of arguments and a result that the call on them
//! has given.

use crate::text::optional_text;
use vstd::prelude::*;

verus! {

/// Wraps `std::path::Path::is_absolute`. Nothing is claimed of the answer.
#[verifier::external_body]
fn path_is_absolute(path: &str) -> (r: bool) {
    std::path::Path::new(path).is_absolute()
}

/// Whether `answer` is what asking if `path` is absolute has given.
pub closed spec fn found_absolute(path: Seq<char>, answer: bool) -> bool {
    exists|x: &str| #[trigger] call_ensures(path_is_absolute, (x,), answer) && x@ == path
}

/// Whether a path is absolute.
pub fn is_absolute(path: &str) -> (r: bool)
    ensures
        found_absolute(path@, r),
{
    let r = path_is_absolute(path);
    assert(call_ensures(path_is_absolute, (path,), r));
    r
}

/// Wraps `std::path::Path::join`. Nothing is claimed of the path.
#[verifier::external_body]
fn path_join(dir: &str, path: &str) -> (r: String) {
    std::path::Path::new(dir).join(path).to_string_lossy().into_owned()
}

/// Whether `out` is what joining `path` to `dir` has given.
pub closed spec fn joins(dir: Seq<char>, path: Seq<char>, out: Seq<char>) -> bool {
    exists|x: &str, y: &str, r: String| #[trigger]
        call_ensures(path_join, (x, y), r) && x@ == dir && y@ == path && r@ == out
}

/// The path of `path` in `dir`.
pub fn join(dir: &str, path: &str) -> (r: String)
    ensures
        joins(dir@, path@, r@),
{
    let r = path_join(dir, path);
    assert(call_ensures(path_join, (dir, path), r));
    r
}

/// Wraps `std::path::Path::parent`. Nothing is claimed of the directory.
#[verifier::external_body]
fn path_parent(path: &str) -> (r: Option<String>) {
    std::path::Path::new(path).parent().map(|dir| dir.to_string_lossy().into_owned())
}

/// Whether `out` is what asking for the directory of `path` has given.
pub closed spec fn found_parent(path: Seq<char>, out: Option<Seq<char>>) -> bool {
    exists|x: &str, r: Option<String>| #[trigger]
        call_ensures(path_parent, (x,), r) && x@ == path && optional_text(r) == out
}

/// The directory that a path stands in, where it stands in one.
pub fn parent(path: &str) -> (r: Option<String>)
    ensures
        found_parent(path@, optional_text(r)),
{
    let r = path_parent(path);
    assert(call_ensures(path_parent, (path,), r));
    r
}

} // verus!
