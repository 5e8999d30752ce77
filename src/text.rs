//! Text predicates used by the rule tables.

use vstd::prelude::*;

verus! {

/// `pat` occurs in `s` as a contiguous run of characters.
pub open spec fn has_substring(s: Seq<char>, pat: Seq<char>) -> bool {
    exists|i: int| 0 <= i <= s.len() - pat.len() && #[trigger] s.subrange(i, i + pat.len()) == pat
}

/// Relies on `str::contains` with a `&str` pattern: true exactly when `pat`
/// occurs in `s`.
#[verifier::external_body]
pub(crate) fn contains_text(s: &str, pat: &str) -> (r: bool)
    ensures
        r == has_substring(s@, pat@),
{
    s.contains(pat)
}

/// Relies on `==` on `str`: true exactly when both hold the same characters.
#[verifier::external_body]
pub(crate) fn same_text(a: &str, b: &str) -> (r: bool)
    ensures
        r == (a@ == b@),
{
    a == b
}

} // verus!
