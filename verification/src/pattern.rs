//! The regular expressions of the two log styles, and the calls into the
//! `regex` crate that match them.
use regex::Regex;
use vstd::prelude::*;

verus! {

/// A line that reports a message received from the other player.
pub const ENEMY_LINE: &'static str =
    r"(?<timestamp>\d+:\d+:\d+).*Client got (?<message>\w+) message:\s+(?<contents>.*)";

/// A line that reports a message sent by the local player.
pub const CLIENT_LINE: &'static str =
    r"(?<timestamp>\d+:\d+:\d+).*Client sent message:\s+(?<contents>.*)";

/// One `(key: value)` pair of a received message.
pub const ENEMY_PAIR: &'static str = r"\((?<key>\w+): (?<value>[-\w\s;]+)\)";

/// One `key:value` pair of a sent message.
pub const CLIENT_PAIR: &'static str = r"(?<key>\w+):(?<value>[-\w\s;]+)";

/// The groups of one match, by group number: group 0 is the whole match, and
/// a group that took no part in the match is `None`.
pub type Groups = Seq<Option<Seq<char>>>;

/// The groups of the leftmost match of `pattern` in `haystack`, as
/// `Regex::captures` finds it; `None` where there is no match, or where
/// `pattern` is not a regular expression that `Regex::new` accepts.
pub uninterp spec fn first_captures(pattern: Seq<char>, haystack: Seq<char>) -> Option<Groups>;

/// The groups of each of the successive non-overlapping matches of `pattern`
/// in `haystack`, from left to right, as `Regex::captures_iter` yields them;
/// empty where `pattern` is not a regular expression that `Regex::new`
/// accepts.
pub uninterp spec fn all_captures(pattern: Seq<char>, haystack: Seq<char>) -> Seq<Groups>;

/// `Regex::new`, then `Regex::captures` on each haystack: compiles `pattern`
/// once and looks for its leftmost match in each of `haystacks`. What is
/// found in a haystack depends on the pattern and that haystack alone, and
/// the contract only gives it its name.
#[verifier::external_body]
pub(crate) fn captures_each(pattern: &str, haystacks: &Vec<String>) -> (found: Vec<
    Option<Vec<Option<String>>>,
>)
    ensures
        found.len() == haystacks.len(),
        forall|i: int|
            0 <= i < found.len() ==> (#[trigger] found@[i]).deep_view() == first_captures(
                pattern@,
                haystacks@[i]@,
            ),
{
    let re = Regex::new(pattern).ok();
    haystacks.iter().map(
        |h| {
            let caps = re.as_ref()?.captures(h)?;
            Some(caps.iter().map(|m| m.map(|m| m.as_str().to_string())).collect())
        },
    ).collect()
}

/// `Regex::new`, then `Regex::captures_iter` on each haystack: compiles
/// `pattern` once and collects its successive matches in each of
/// `haystacks`. What is found in a haystack depends on the pattern and that
/// haystack alone, and the contract only gives it its name.
#[verifier::external_body]
pub(crate) fn captures_iter_each(pattern: &str, haystacks: &Vec<String>) -> (found: Vec<
    Vec<Vec<Option<String>>>,
>)
    ensures
        found.len() == haystacks.len(),
        forall|i: int|
            0 <= i < found.len() ==> (#[trigger] found@[i]).deep_view() == all_captures(
                pattern@,
                haystacks@[i]@,
            ),
{
    let re = Regex::new(pattern).ok();
    haystacks.iter().map(
        |h| match &re {
            Some(re) => re.captures_iter(h).map(
                |caps| caps.iter().map(|m| m.map(|m| m.as_str().to_string())).collect(),
            ).collect(),
            None => Vec::new(),
        },
    ).collect()
}

/// The text of group `i`; empty where the match has no such group or the
/// group took no part in it.
pub open spec fn group_spec(groups: Groups, i: int) -> Seq<char> {
    if 0 <= i < groups.len() {
        match groups[i] {
            Some(text) => text,
            None => Seq::<char>::empty(),
        }
    } else {
        Seq::<char>::empty()
    }
}

/// The text that group `i` of a match captured.
pub fn group(groups: &Vec<Option<String>>, i: usize) -> (text: String)
    ensures
        text@ == group_spec(groups.deep_view(), i as int),
{
    if i < groups.len() {
        match &groups[i] {
            Some(text) => text.clone(),
            None => String::new(),
        }
    } else {
        String::new()
    }
}

} // verus!
