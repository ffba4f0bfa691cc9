//! Regular-expression search, delegated to the `regex` crate.

use vstd::prelude::*;

verus! {

/// What the regex engine answers for a pattern and a text: whether the
/// pattern finds a match somewhere in the text, or `None` where the pattern
/// does not compile.
pub uninterp spec fn pattern_match(pattern: Seq<char>, text: Seq<char>) -> Option<bool>;

/// `regex::Regex::new` followed by `regex::Regex::is_match`. Trusted: the
/// answer depends on the pattern and the text alone, and is `None` exactly
/// when the engine refuses the pattern.
#[verifier::external_body]
pub(crate) fn search(pattern: &str, text: &str) -> (r: Option<bool>)
    ensures
        r == pattern_match(pattern@, text@),
{
    match regex::Regex::new(pattern) {
        Ok(re) => Some(re.is_match(text)),
        Err(_) => None,
    }
}

/// Whether the text matches the pattern; a pattern that does not compile
/// matches nothing.
pub open spec fn accepts(pattern: Seq<char>, text: Seq<char>) -> bool {
    pattern_match(pattern, text) == Some(true)
}

/// Whether the text matches the pattern.
pub fn is_match(pattern: &str, text: &str) -> (r: bool)
    ensures
        r == accepts(pattern@, text@),
{
    match search(pattern, text) {
        Some(found) => found,
        None => false,
    }
}

} // verus!
