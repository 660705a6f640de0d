//! Text as it appears in messages.

use vstd::prelude::*;

verus! {

/// `text` as Rust's `Debug` formatting prints a string: between double
/// quotes, with quotes, backslashes and control characters escaped.
pub uninterp spec fn quoted(text: Seq<char>) -> Seq<char>;

/// `<str as Debug>::fmt`, reached through `format!` with `{:?}`: the
/// result is a function of the text alone.
#[verifier::external_body]
pub(crate) fn quote(text: &str) -> (r: String)
    ensures
        r@ == quoted(text@),
{
    format!("{text:?}")
}

} // verus!
