//! Text as `{:?}` writes it: between double quotes and escaped.

use vstd::prelude::*;

verus! {

/// What `{:?}` writes for a string: the string between double quotes, with
/// the characters escaped that Rust escapes in a string literal.
pub uninterp spec fn debug_text(s: Seq<char>) -> Seq<char>;

/// `<str as core::fmt::Debug>::fmt`, through `format!`: the string as `{:?}`
/// writes it.
#[verifier::external_body]
pub(crate) fn debug_format(s: &str) -> (text: String)
    ensures
        text@ == debug_text(s@),
{
    format!("{:?}", s)
}

} // verus!
