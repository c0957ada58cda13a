//! Messages put together from pieces of text.
use vstd::prelude::*;
use vstd::string::StringExecFns;

verus! {

/// Whether `part` occurs in `text` without a gap.
pub open spec fn occurs_in(part: Seq<char>, text: Seq<char>) -> bool {
    exists|at: int|
        0 <= at <= text.len() - part.len() && #[trigger] text.subrange(at, at + part.len()) == part
}

/// `str::contains` with a string slice as the pattern: whether it matches a sub-slice of the text.
#[verifier::external_body]
pub(crate) fn contains_text(text: &str, part: &str) -> (found: bool)
    ensures
        found == occurs_in(part@, text@),
{
    text.contains(part)
}

/// How a path is written by `Debug` of `std::path::Path`.
pub uninterp spec fn path_debug(path: Seq<char>) -> Seq<char>;

/// `Debug` of `std::path::Path`, on a path that is valid text. The result is a function of the path,
/// called `path_debug` here.
#[verifier::external_body]
pub(crate) fn show_path(path: &str) -> (shown: String)
    ensures
        shown@ == path_debug(path@),
{
    format!("{:?}", std::path::Path::new(path))
}

/// Two pieces in a row.
pub(crate) fn join(first: &str, second: &str) -> (text: String)
    ensures
        text@ == first@ + second@,
{
    first.to_owned().concat(second)
}

/// Three pieces in a row.
pub(crate) fn join3(first: &str, second: &str, third: &str) -> (text: String)
    ensures
        text@ == first@ + second@ + third@,
{
    first.to_owned().concat(second).concat(third)
}

/// Four pieces in a row.
pub(crate) fn join4(first: &str, second: &str, third: &str, fourth: &str) -> (text: String)
    ensures
        text@ == first@ + second@ + third@ + fourth@,
{
    first.to_owned().concat(second).concat(third).concat(fourth)
}

} // verus!
