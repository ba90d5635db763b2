//! Text and path predicates the rest of the crate is stated over.
//!
//! Plain string facts (suffix, equality) are given directly over
//! `Seq<char>`. Path questions are answered by the standard library's path
//! parser, under the path syntax of the platform the crate is built for;
//! its answers are named here so that contracts can refer to them without
//! restating how paths are split into components.

use vstd::prelude::*;

verus! {

/// Whether the components of `child` are the trailing components of `path`,
/// as decided by `std::path::Path::ends_with`.
pub uninterp spec fn path_ends_with(path: Seq<char>, child: Seq<char>) -> bool;

/// The final component of `path`, as given by `std::path::Path::file_name`;
/// `None` where the path has no such component.
pub uninterp spec fn path_file_name(path: Seq<char>) -> Option<Seq<char>>;

/// `suffix` occurs at the very end of `text`.
pub open spec fn ends_with(text: Seq<char>, suffix: Seq<char>) -> bool {
    suffix.len() <= text.len() && text.subrange(text.len() - suffix.len(), text.len() as int)
        == suffix
}

/// Calls `std::path::Path::ends_with` on the two texts read as paths.
/// Trusted: the answer is the one named by [`path_ends_with`].
#[verifier::external_body]
pub(crate) fn path_has_tail(path: &str, child: &str) -> (r: bool)
    ensures
        r == path_ends_with(path@, child@),
{
    std::path::Path::new(path).ends_with(child)
}

/// Calls `std::path::Path::file_name` and hands the component back as text.
/// Trusted: the answer is the one named by [`path_file_name`].
#[verifier::external_body]
pub(crate) fn path_last_component(path: &str) -> (r: Option<String>)
    ensures
        r.deep_view() == path_file_name(path@),
{
    std::path::Path::new(path).file_name().map(|n| n.to_string_lossy().into_owned())
}

/// Calls `str::ends_with` with a string pattern.
/// Trusted: the answer is true exactly when `suffix` is a suffix of `text`.
#[verifier::external_body]
pub(crate) fn text_ends_with(text: &str, suffix: &str) -> (r: bool)
    ensures
        r == ends_with(text@, suffix@),
{
    text.ends_with(suffix)
}

/// Calls `str::eq`.
/// Trusted: the answer is true exactly when both hold the same characters.
#[verifier::external_body]
pub(crate) fn text_eq(a: &str, b: &str) -> (r: bool)
    ensures
        r == (a@ == b@),
{
    a == b
}

} // verus!
