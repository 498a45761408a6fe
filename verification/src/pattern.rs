//! Regular expressions.
//!
//! The expressions are those of the `regex` crate. What an expression finds
//! in a text is left to that crate: it is named here, and the functions
//! that read tooltips say what they make of it.

use vstd::prelude::*;

verus! {

/// The groups of the leftmost match of the expression `pattern` in `text`,
/// as the `regex` crate finds it: group 0 is the whole match, group `k` the
/// `k`-th capturing group, and a group that took no part in the match is
/// `None`. `None` where the text holds no match, and where `pattern` is not
/// an expression the crate accepts.
pub uninterp spec fn regex_groups(pattern: Seq<char>, text: Seq<char>) -> Option<
    Seq<Option<Seq<char>>>,
>;

/// The texts of a list of groups.
pub open spec fn group_views(groups: Seq<Option<String>>) -> Seq<Option<Seq<char>>> {
    Seq::new(
        groups.len(),
        |i: int|
            match groups[i] {
                Some(text) => Some(text@),
                None => None,
            },
    )
}

/// `Regex::captures` of the `regex` crate, on the expression that
/// `Regex::new` compiles from `pattern`: the groups of the leftmost match in
/// `text`, and nothing where the expression does not compile or does not
/// match. The contract only gives the outcome its name.
#[verifier::external_body]
pub(crate) fn captures(pattern: &str, text: &str) -> (groups: Option<Vec<Option<String>>>)
    ensures
        match groups {
            Some(list) => regex_groups(pattern@, text@) == Some(group_views(list@)),
            None => regex_groups(pattern@, text@) is None,
        },
{
    let regex = regex::Regex::new(pattern).ok()?;
    let found = regex.captures(text)?;
    Some(found.iter().map(|group| group.map(|m| m.as_str().to_string())).collect())
}

/// The text of group `index` of a match, if the group took part in it.
pub open spec fn group_text(groups: Option<Seq<Option<Seq<char>>>>, index: int) -> Option<
    Seq<char>,
> {
    match groups {
        Some(list) => if 0 <= index < list.len() {
            list[index]
        } else {
            None
        },
        None => None,
    }
}

/// The text of group `index` of a match, if the group took part in it.
pub fn group(groups: &Option<Vec<Option<String>>>, index: usize) -> (text: Option<&str>)
    ensures
        match text {
            Some(found) => group_text(
                match groups {
                    Some(list) => Some(group_views(list@)),
                    None => None,
                },
                index as int,
            ) == Some(found@),
            None => group_text(
                match groups {
                    Some(list) => Some(group_views(list@)),
                    None => None,
                },
                index as int,
            ) is None,
        },
{
    match groups {
        Some(list) => {
            if index < list.len() {
                match &list[index] {
                    Some(text) => Some(text.as_str()),
                    None => None,
                }
            } else {
                None
            }
        },
        None => None,
    }
}

/// Whether the expression `pattern` has a match in `text`.
pub fn is_match(pattern: &str, text: &str) -> (found: bool)
    ensures
        found == regex_groups(pattern@, text@) is Some,
{
    captures(pattern, text).is_some()
}

} // verus!
