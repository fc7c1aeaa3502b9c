//! Wildcard patterns: `?` stands for exactly one character, `*` for any run
//! of characters (none included); every other character stands for itself.
use vstd::prelude::*;

verus! {

/// Whether `pattern` matches the whole of `text`.
pub open spec fn glob_matches(pattern: Seq<char>, text: Seq<char>) -> bool
    decreases pattern.len() + text.len(),
{
    if pattern.len() == 0 {
        text.len() == 0
    } else if pattern[0] == '*' {
        glob_matches(pattern.drop_first(), text) || (text.len() > 0 && glob_matches(pattern, text.drop_first()))
    } else {
        text.len() > 0 && (pattern[0] == '?' || pattern[0] == text[0]) && glob_matches(pattern.drop_first(), text.drop_first())
    }
}

/// Relies on `wildmatch::WildMatch::new(pattern).matches(text)`: whole-text
/// matching where `?` is one character and `*` any run, with no escapes.
#[verifier::external_body]
pub(crate) fn wildcard_matches(pattern: &str, text: &str) -> (r: bool)
    ensures
        r == glob_matches(pattern@, text@),
{
    wildmatch::WildMatch::new(pattern).matches(text)
}

} // verus!
