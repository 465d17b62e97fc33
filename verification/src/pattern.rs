//! Searching a text with a regular expression.

use vstd::prelude::*;
use vstd::string::*;
use crate::text::optional_text;

verus! {

/// The text of capture group `group` in the leftmost match of the regular
/// expression `pattern` in `haystack`; nothing where the pattern is not a valid
/// expression, does not match, or matches without that group taking part.
pub uninterp spec fn captured_group(pattern: Seq<char>, haystack: Seq<char>, group: int) -> Option<
    Seq<char>,
>;

/// Compiles `pattern` with `regex::Regex::new`, searches `haystack` with
/// `Regex::captures` and copies out the text of one group with `Captures::get`.
/// The contract only names the outcome: it is a function of the three
/// arguments, and nothing is claimed of what it is.
#[verifier::external_body]
pub(crate) fn capture_group(pattern: &str, haystack: &str, group: usize) -> (r: Option<String>)
    ensures
        optional_text(r) == captured_group(pattern@, haystack@, group as int),
{
    let expression = regex::Regex::new(pattern).ok()?;
    let captures = expression.captures(haystack)?;
    captures.get(group).map(|m| m.as_str().to_string())
}

} // verus!
