//! Holding the text of an error against a pattern.

use vstd::prelude::*;

verus! {

/// Whether the regular expression `pattern` matches somewhere in `text`.
pub uninterp spec fn pattern_matches(pattern: Seq<char>, text: Seq<char>) -> bool;

/// Calls `regex::Regex::new` on the pattern and `Regex::is_match` on the
/// text. Trusted: where the pattern is accepted, the result says whether it
/// matches somewhere in the text. Nothing is claimed of which patterns are
/// accepted.
#[verifier::external_body]
fn search(pattern: &str, text: &str) -> (r: Option<bool>)
    ensures
        r matches Some(found) ==> found == pattern_matches(pattern@, text@),
{
    match regex::Regex::new(pattern) {
        Ok(re) => Some(re.is_match(text)),
        Err(_) => None,
    }
}

/// Why a text does not pass.
#[derive(Debug, Clone, Copy, PartialEq, Eq, Structural)]
pub enum ContentsError {
    /// The pattern is no regular expression, or too large a one.
    BadPattern,
    /// The pattern matches nowhere in the text.
    NoMatch,
}

/// The verdict on a search: a match passes, no match and no search do not.
pub open spec fn verdict_of(found: Option<bool>) -> Result<(), ContentsError> {
    match found {
        Some(true) => Ok(()),
        Some(false) => Err(ContentsError::NoMatch),
        None => Err(ContentsError::BadPattern),
    }
}

/// Gives the verdict on the outcome of a search.
pub fn verdict(found: Option<bool>) -> (r: Result<(), ContentsError>)
    ensures
        r == verdict_of(found),
{
    match found {
        Some(true) => Ok(()),
        Some(false) => Err(ContentsError::NoMatch),
        None => Err(ContentsError::BadPattern),
    }
}

/// Holds the text of an error against a pattern. It passes only where the
/// pattern matches, and fails with `NoMatch` only where it does not.
pub fn check_error_contents(value: &str, pattern: &str) -> (r: Result<(), ContentsError>)
    ensures
        r is Ok ==> pattern_matches(pattern@, value@),
        r == Err::<(), ContentsError>(ContentsError::NoMatch) ==> !pattern_matches(
            pattern@,
            value@,
        ),
{
    verdict(search(pattern, value))
}

} // verus!
