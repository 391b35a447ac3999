//! The decision whether an existing file may be overwritten, taken from the
//! user's one-line answer to the prompt.

use vstd::prelude::*;

verus! {

/// A character that counts as a yes.
pub open spec fn is_affirmative_char(c: char) -> bool {
    c == 'y' || c == 'Y' || c == 'j' || c == 'J'
}

/// Relies on `regex::Regex::is_match` with the pattern `^[yYjJ]$`: anchored
/// at both ends of the haystack, it accepts exactly the one-character
/// strings `y`, `Y`, `j` and `J`.
#[verifier::external_body]
fn matches_affirmative(s: &str) -> (r: bool)
    ensures
        r == (s@.len() == 1 && is_affirmative_char(s@[0])),
{
    let pattern = regex::Regex::new("^[yYjJ]$").unwrap();
    pattern.is_match(s)
}

/// Whether `response`, already stripped of surrounding whitespace, allows
/// the overwrite: an affirmative single character, or nothing at all (a bare
/// return accepts).
pub fn overwrite_confirmed(response: &str) -> (r: bool)
    ensures
        r == (response@.len() == 0 || (response@.len() == 1 && is_affirmative_char(
            response@[0],
        ))),
{
    let affirmative = matches_affirmative(response);
    affirmative || response.is_empty()
}

} // verus!
