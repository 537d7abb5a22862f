use vstd::prelude::*;
use regex::Regex;
use crate::views::option_view;

verus! {

/// What the capture group `index` holds in the leftmost match of the regular
/// expression `pattern` in `text`: `None` where `pattern` does not compile, where
/// it matches nowhere, or where the group took no part in the match.
pub uninterp spec fn group_of(pattern: Seq<char>, text: Seq<char>, index: nat) -> Option<
    Seq<char>,
>;

/// Calls `regex::Regex::new`, then `regex::Regex::captures` and
/// `regex::Captures::get`. Not proved: that the outcome depends on the pattern, the
/// text and the index alone.
#[verifier::external_body]
pub(crate) fn group(pattern: &str, text: &str, index: usize) -> (found: Option<String>)
    ensures
        option_view(found) == group_of(pattern@, text@, index as nat),
{
    let compiled = match Regex::new(pattern) {
        Ok(compiled) => compiled,
        Err(_) => return None,
    };
    match compiled.captures(text) {
        Some(captures) => match captures.get(index) {
            Some(part) => Some(part.as_str().to_owned()),
            None => None,
        },
        None => None,
    }
}

} // verus!
