//! Paths of the host. The library holds a path as text and leaves it to
//! `std::path` to say when two of them name the same place and how a file name
//! is joined to a directory.

use vstd::prelude::*;

verus! {

/// Whether the `==` of `std::path::Path` holds the paths written as `a` and
/// `b` equal.
pub uninterp spec fn path_eq(a: Seq<char>, b: Seq<char>) -> bool;

/// Whether `a` and `b` name the same place: they are the same text, or
/// `std::path::Path` holds them equal.
pub open spec fn same_path(a: Seq<char>, b: Seq<char>) -> bool {
    a == b || path_eq(a, b)
}

/// The path that `std::path::Path::join` makes of the directory written as
/// `dir` and the file name `name`.
pub uninterp spec fn joined_path(dir: Seq<char>, name: Seq<char>) -> Seq<char>;

/// Compares two paths with the `==` of `std::path::Path`, which compares them
/// component by component. The result is trusted to depend on the two texts
/// alone, and to be `true` for equal texts.
#[verifier::external_body]
pub(crate) fn paths_equal(a: &str, b: &str) -> (equal: bool)
    ensures
        equal == (a@ == b@ || path_eq(a@, b@)),
{
    std::path::Path::new(a) == std::path::Path::new(b)
}

/// Joins a file name to a directory with `std::path::Path::join`. The result
/// is trusted to depend on the two texts alone.
#[verifier::external_body]
pub(crate) fn join_path(dir: &str, name: &str) -> (path: String)
    ensures
        path@ == joined_path(dir@, name@),
{
    std::path::Path::new(dir).join(name).to_string_lossy().into_owned()
}

} // verus!
