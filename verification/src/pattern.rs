//! Regular expressions.
use vstd::prelude::*;

use crate::text;

verus! {

/// The groups that a regular expression captures in a text, the whole match first.
pub uninterp spec fn captures_of(pattern: Seq<char>, text: Seq<char>) -> Option<Seq<Seq<char>>>;

/// `regex::Regex::new` and `regex::Regex::captures`: the first match of the pattern
/// in the text, as the texts of its groups, the whole match first. Nothing where the
/// pattern does not match, is no regular expression, or leaves a group out. What is
/// captured is a function of the two texts alone; which one is not stated here.
#[verifier::external_body]
pub(crate) fn captures(pattern: &str, text: &str) -> (r: Option<Vec<String>>)
    ensures
        match r {
            Some(groups) => captures_of(pattern@, text@) == Some(text::texts(groups@)),
            None => captures_of(pattern@, text@) is None,
        },
{
    let re = regex::Regex::new(pattern).ok()?;
    let groups = re.captures(text)?;
    groups.iter().map(|group| group.map(|part| part.as_str().to_owned())).collect()
}

} // verus!
