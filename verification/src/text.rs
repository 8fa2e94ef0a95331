//! Case conversion, which is left to the standard library.

use vstd::prelude::*;

verus! {

/// The upper-case form of a text as Unicode defines it: what
/// `str::to_uppercase` returns for it.
pub uninterp spec fn uppercase_of(text: Seq<char>) -> Seq<char>;

/// Calls `str::to_uppercase`. Trusted: the result is the upper-case form of
/// `text`, a function of `text` alone.
#[verifier::external_body]
pub(crate) fn to_uppercase(text: &str) -> (upper: String)
    ensures
        upper@ == uppercase_of(text@),
{
    text.to_uppercase()
}

} // verus!
