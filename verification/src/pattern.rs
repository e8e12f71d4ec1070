//! Regular-expression searches, done by the `regex` crate.
//!
//! What a search finds is a function of the pattern and the text alone. It
//! is given a name here, and the rest of the library reasons about the named
//! result without looking inside the matcher.

use vstd::prelude::*;

verus! {

/// Whether the regular expression `pattern` matches somewhere in `haystack`;
/// `None` when `pattern` is no regular expression that the matcher accepts.
pub uninterp spec fn regex_is_match(pattern: Seq<char>, haystack: Seq<char>) -> Option<bool>;

/// The capture groups of the leftmost match of the regular expression
/// `pattern` in `haystack`: one entry per group, group 0 being the whole
/// match, each the matched text or `None` for a group that took no part.
/// `None` when there is no match or `pattern` is not accepted.
pub uninterp spec fn regex_captures(pattern: Seq<char>, haystack: Seq<char>) -> Option<
    Seq<Option<Seq<char>>>,
>;

/// Compiles `pattern` with `regex::Regex::new` and asks `Regex::is_match`
/// whether it matches in `haystack`. Trusted: the answer is the named result
/// `regex_is_match`; nothing is claimed about when a pattern matches.
#[verifier::external_body]
pub(crate) fn is_match(pattern: &str, haystack: &str) -> (found: Option<bool>)
    ensures
        found == regex_is_match(pattern@, haystack@),
{
    match regex::Regex::new(pattern) {
        Ok(re) => Some(re.is_match(haystack)),
        Err(_) => None,
    }
}

/// Compiles `pattern` with `regex::Regex::new`, searches `haystack` with
/// `Regex::captures` and copies out the text of every group
/// (`Captures::iter`, `Match::as_str`). Trusted: the groups are the named
/// result `regex_captures`; nothing is claimed about what they hold.
#[verifier::external_body]
pub(crate) fn captures(pattern: &str, haystack: &str) -> (groups: Option<Vec<Option<String>>>)
    ensures
        groups.deep_view() == regex_captures(pattern@, haystack@),
{
    match regex::Regex::new(pattern) {
        Ok(re) => re.captures(haystack).map(
            |caps| caps.iter().map(|group| group.map(|m| m.as_str().to_string())).collect(),
        ),
        Err(_) => None,
    }
}

} // verus!
