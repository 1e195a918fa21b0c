//! Filesystem path operations the display logic needs (`std::path::Path`).
//! Paths are held as strings; each operation here makes one call into
//! `Path`, whose result the library names rather than restates.

use vstd::prelude::*;
use std::path::Path;

verus! {

/// Sign of the comparison of two paths as `Path` orders them (component by
/// component): negative when `a` sorts first, zero when equal, positive
/// when `b` sorts first.
pub uninterp spec fn path_order(a: Seq<char>, b: Seq<char>) -> int;

/// The final component of a path (`Path::file_name`), if it has one.
pub uninterp spec fn path_file_name(p: Seq<char>) -> Option<Seq<char>>;

/// `p` relative to `base` (`Path::strip_prefix`), if `base` is a prefix of
/// `p` component by component.
pub uninterp spec fn path_relative_to(p: Seq<char>, base: Seq<char>) -> Option<Seq<char>>;

/// Compare two paths with `Path::cmp`; returns -1, 0 or 1.
///
/// Trusted: the result is named `path_order`. Beyond its sign encoding,
/// only what `Ord` promises of `Path` (a total order) is claimed: comparing
/// the other way round gives the opposite sign, and a path that does not
/// sort after `a` does not sort after `b` when `a` does not sort after `b`.
#[verifier::external_body]
pub(crate) fn compare_paths(a: &str, b: &str) -> (r: i8)
    ensures
        r == path_order(a@, b@),
        -1 <= r <= 1,
        path_order(b@, a@) == -r,
        forall|c: Seq<char>| #[trigger] path_order(c, a@) <= 0 && r <= 0 ==> path_order(c, b@) <= 0,
{
    match Path::new(a).cmp(Path::new(b)) {
        std::cmp::Ordering::Less => -1,
        std::cmp::Ordering::Equal => 0,
        std::cmp::Ordering::Greater => 1,
    }
}

/// The final component of `p` (`Path::file_name`, read as text).
///
/// Trusted: the result is named `path_file_name`.
#[verifier::external_body]
pub(crate) fn file_name(p: &str) -> (r: Option<String>)
    ensures
        r.is_some() == path_file_name(p@).is_some(),
        r.is_some() ==> r.unwrap()@ == path_file_name(p@).unwrap(),
{
    Path::new(p).file_name().map(|n| n.to_string_lossy().to_string())
}

/// `p` relative to `base` (`Path::strip_prefix`, read as text).
///
/// Trusted: the result is named `path_relative_to`.
#[verifier::external_body]
pub(crate) fn strip_prefix(p: &str, base: &str) -> (r: Option<String>)
    ensures
        r.is_some() == path_relative_to(p@, base@).is_some(),
        r.is_some() ==> r.unwrap()@ == path_relative_to(p@, base@).unwrap(),
{
    Path::new(p).strip_prefix(Path::new(base)).ok().map(|q| q.to_string_lossy().to_string())
}

} // verus!
