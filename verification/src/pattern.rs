//! Regular expressions, as far as the harness needs them: does a pattern
//! compile, and does it match somewhere in a line.

use vstd::prelude::*;
use vstd::string::*;

verus! {

/// What compiling `pattern` with `regex::Regex::new` and searching `text`
/// with `Regex::is_match` gives: `None` where the pattern does not compile,
/// else whether it matches somewhere in `text`.
pub uninterp spec fn regex_search(pattern: Seq<char>, text: Seq<char>) -> Option<bool>;

/// Compiles `pattern` with `regex::Regex::new` and searches `text` with
/// `Regex::is_match`. Nothing is proved of either. Both depend on their
/// arguments alone in a given build, so the result is named: `None` stands
/// for a pattern that `Regex::new` refused (a syntax error, or a compiled
/// size over the crate's default limit), `Some(found)` for what `is_match`
/// returned, which is whether the pattern matches anywhere in `text`.
#[verifier::external_body]
pub(crate) fn search(pattern: &str, text: &str) -> (found: Option<bool>)
    ensures
        found == regex_search(pattern@, text@),
{
    match regex::Regex::new(pattern) {
        Ok(compiled) => Some(compiled.is_match(text)),
        Err(_) => None,
    }
}

/// `pattern` wrapped so that it matches only a whole text: between the
/// anchors for the start and the end of the text, in a group of its own.
/// The wrapping can break a pattern that compiles as it stands, so callers
/// search with the pattern as it stands too.
pub open spec fn anchored(pattern: Seq<char>) -> Seq<char> {
    "\\A(?:"@ + pattern + ")\\z"@
}

/// `pattern`, anchored at both ends of the text.
pub fn anchor(pattern: &str) -> (whole: String)
    ensures
        whole@ == anchored(pattern@),
{
    let mut whole = String::from_str("\\A(?:");
    whole.append(pattern);
    whole.append(")\\z");
    whole
}

} // verus!
