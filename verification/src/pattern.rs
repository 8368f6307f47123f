//! Matching a text against a regular expression.

use vstd::prelude::*;

verus! {

/// What the `regex` crate answers for a pattern and a text: `None` when it
/// does not accept the pattern (the pattern is malformed, or compiles to
/// more than the crate's default size limit), else whether the compiled
/// pattern finds a match anywhere in the text. The answer depends on the two
/// texts alone.
pub uninterp spec fn regex_match(pattern: Seq<char>, text: Seq<char>) -> Option<bool>;

/// Compiles `pattern` with `regex::Regex::new` and, where that succeeds, asks
/// `regex::Regex::is_match` about `text`. Nothing here is proved: the
/// contract only gives the crate's answer its name, [`regex_match`].
#[verifier::external_body]
pub(crate) fn match_pattern(pattern: &str, text: &str) -> (r: Option<bool>)
    ensures
        r == regex_match(pattern@, text@),
{
    match regex::Regex::new(pattern) {
        Ok(compiled) => Some(compiled.is_match(text)),
        Err(_) => None,
    }
}

} // verus!
