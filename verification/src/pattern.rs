//! Regular expressions, through the `regex` crate.

use vstd::prelude::*;

verus! {

/// What a search with a pattern finds in a text: `None` where
/// `regex::Regex::new` refuses the pattern; else the matches that
/// `captures_iter` yields, left to right and never overlapping, each with the
/// text of its groups. Group 0 is the whole match; a group that took no part
/// in the match is `None`.
pub uninterp spec fn regex_matches(pattern: Seq<char>, text: Seq<char>) -> Option<
    Seq<Seq<Option<Seq<char>>>>,
>;

/// The texts of the groups of one match.
pub open spec fn group_views(groups: Seq<Option<String>>) -> Seq<Option<Seq<char>>> {
    groups.map_values(
        |g: Option<String>|
            match g {
                Some(s) => Some(s@),
                None => None,
            },
    )
}

/// The texts of the groups of a list of matches.
pub open spec fn match_views(found: Seq<Vec<Option<String>>>) -> Seq<Seq<Option<Seq<char>>>> {
    found.map_values(|m: Vec<Option<String>>| group_views(m@))
}

/// `regex::Regex::new` and, on the expression it builds,
/// `Regex::captures_iter`: all matches of the pattern in the text with their
/// groups. The result depends on the pattern and the text alone.
#[verifier::external_body]
pub(crate) fn captures(pattern: &str, text: &str) -> (out: Option<Vec<Vec<Option<String>>>>)
    ensures
        match out {
            Some(found) => regex_matches(pattern@, text@) == Some(match_views(found@)),
            None => regex_matches(pattern@, text@) is None,
        },
{
    match regex::Regex::new(pattern) {
        Ok(re) => Some(
            re.captures_iter(text).map(
                |c| c.iter().map(|g| g.map(|m| m.as_str().to_string())).collect(),
            ).collect(),
        ),
        Err(_) => None,
    }
}

/// The text of group `k` of a match, if the match has such a group and it
/// took part.
pub open spec fn group_text(groups: Seq<Option<Seq<char>>>, k: int) -> Option<Seq<char>> {
    if 0 <= k < groups.len() {
        groups[k]
    } else {
        None
    }
}

/// The text of group `k` of a match.
pub fn group(groups: &Vec<Option<String>>, k: usize) -> (out: Option<&String>)
    ensures
        match out {
            Some(s) => group_text(group_views(groups@), k as int) == Some(s@),
            None => group_text(group_views(groups@), k as int) is None,
        },
{
    if k < groups.len() {
        groups[k].as_ref()
    } else {
        None
    }
}

} // verus!
