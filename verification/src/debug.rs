//! How a string is shown in diagnostics: as `{:?}` shows it.
use vstd::prelude::*;

verus! {

/// The text `{:?}` gives for a string: quoted, with its escapes.
pub uninterp spec fn str_debug(s: Seq<char>) -> Seq<char>;

/// Shows a string as `{:?}` does: std's `<str as Debug>::fmt`. The contract
/// only names the result; which characters are escaped, and how, is left
/// to that implementation.
#[verifier::external_body]
pub(crate) fn str_debug_exec(s: &str) -> (r: String)
    ensures
        r@ == str_debug(s@),
{
    format!("{:?}", s)
}

} // verus!
