//! Node identifiers: tool inputs are bare (UUID, file path or
//! `file#headline/path`); the `org://` form is accepted from the user and
//! stripped before a tool call.
use vstd::prelude::*;
use crate::text::{chars_from, has_prefix};

verus! {

/// The resource-URI prefix that tool inputs must not carry.
pub open spec fn org_prefix() -> Seq<char> {
    seq!['o', 'r', 'g', ':', '/', '/']
}

/// What a tool receives for a user-supplied identifier: the identifier with
/// one leading `org://` removed, or the identifier itself.
pub open spec fn bare(s: Seq<char>) -> Seq<char> {
    if org_prefix().is_prefix_of(s) {
        s.skip(6)
    } else {
        s
    }
}

/// Why `org outline` refused its argument.
#[derive(Debug)]
pub enum OutlineUriError {
    OrgUriNotAllowed,
}

impl OutlineUriError {
    /// The human-readable message of the error.
    pub fn message(&self) -> (r: String)
        ensures
            r@ == "org outline expects a file path, not an org:// URI"@,
    {
        "org outline expects a file path, not an org:// URI".to_owned()
    }
}

fn starts_with_org(input: &str) -> (r: bool)
    ensures
        r == org_prefix().is_prefix_of(input@),
{
    proof {
        reveal_strlit("org://");
    }
    assert("org://"@ =~= org_prefix());
    has_prefix(input, "org://")
}

/// Strips a leading `org://` if present; otherwise returns the input
/// unchanged. This is the normalisation applied before every tool call.
pub fn normalize_for_tool(input: &str) -> (r: String)
    ensures
        r@ == bare(input@),
        org_prefix().is_prefix_of(input@) ==> r@ == input@.skip(6),
        !org_prefix().is_prefix_of(input@) ==> r@ == input@,
{
    if starts_with_org(input) {
        chars_from(input, 6)
    } else {
        input.to_owned()
    }
}

/// Checks a path given to `org outline`: an `org://` URI is refused, any
/// other input passes through as it is.
pub fn validate_outline_path(input: &str) -> (r: Result<&str, OutlineUriError>)
    ensures
        r is Ok <==> !org_prefix().is_prefix_of(input@),
        r matches Ok(s) ==> s == input,
        r matches Err(e) ==> e == OutlineUriError::OrgUriNotAllowed,
{
    if starts_with_org(input) {
        return Err(OutlineUriError::OrgUriNotAllowed);
    }
    Ok(input)
}

/// Normalising `org://` followed by an identifier gives that identifier back.
pub proof fn lemma_normalize_strips_prefix(s: Seq<char>)
    ensures
        bare(org_prefix() + s) == s,
{
    assert(org_prefix().is_prefix_of(org_prefix() + s)) by {
        assert((org_prefix() + s).subrange(0, 6) =~= org_prefix());
    }
    assert((org_prefix() + s).skip(6) =~= s);
}

/// A path that `org outline` accepts is already bare: normalising it
/// changes nothing.
pub proof fn lemma_outline_paths_are_bare(s: Seq<char>)
    requires
        !org_prefix().is_prefix_of(s),
    ensures
        bare(s) == s,
{
}

} // verus!
