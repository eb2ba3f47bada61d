//! Quoting of text for diagnostics.
use vstd::prelude::*;

verus! {

/// The text that the standard library's `Debug` formatting of a string slice
/// produces: the slice between double quotes, with quotes, backslashes and
/// unprintable characters escaped.
pub uninterp spec fn debug_quoted(s: Seq<char>) -> Seq<char>;

/// Formats `s` with the standard library's `Debug` implementation for `str`
/// (`{:?}`). The contract only names the outcome: it is the same text for the
/// same input, and nothing more is claimed about it.
#[verifier::external_body]
pub(crate) fn debug_quote(s: &str) -> (r: String)
    ensures
        r@ == debug_quoted(s@),
{
    format!("{:?}", s)
}

/// An optional piece of text, as a sequence of characters.
pub open spec fn opt_text(o: Option<String>) -> Option<Seq<char>> {
    match o {
        Some(s) => Some(s@),
        None => None,
    }
}

/// The concatenation of two pieces of text.
pub fn join_text(head: &str, tail: &str) -> (r: String)
    ensures
        r@ == head@ + tail@,
{
    let mut out = String::from_str(head);
    out.append(tail);
    out
}

} // verus!
