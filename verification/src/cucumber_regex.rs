//! Helpers for regular expressions: compiling a pattern, and asking a
//! compiled expression for the capture groups of a text.

use crate::helpers::r;
use regex::Regex;
use vstd::prelude::*;

verus! {

#[verifier::external_type_specification]
#[verifier::external_body]
pub struct ExRegex(regex::Regex);

#[verifier::external_type_specification]
#[verifier::external_body]
pub struct ExRegexError(regex::Error);

/// True when `Regex::new` accepts the pattern.
pub uninterp spec fn pattern_compiles(pattern: Seq<char>) -> bool;

/// The pattern a regular expression was compiled from, as `Regex::as_str`
/// gives it.
pub uninterp spec fn regex_source(regex: Regex) -> Seq<char>;

/// The capture groups that `Regex::captures` finds in a text, group 0
/// first: `None` where the expression matches nowhere; for each group the
/// byte offset at which it starts and its text, or `None` for a group that
/// took no part in the match.
pub uninterp spec fn regex_captures(regex: Regex, text: Seq<char>) -> Option<
    Seq<Option<(usize, Seq<char>)>>,
>;

/// The length of a text in bytes, as UTF-8.
pub open spec fn byte_length(text: Seq<char>) -> nat {
    vstd::utf8::encode_utf8(text).len()
}

/// One group of a match as plain values.
pub open spec fn group_view(group: Option<(usize, String)>) -> Option<(usize, Seq<char>)> {
    match group {
        Some((start, text)) => Some((start, text@)),
        None => None,
    }
}

/// The groups of a match as plain values.
pub open spec fn groups_view(groups: Seq<Option<(usize, String)>>) -> Seq<
    Option<(usize, Seq<char>)>,
> {
    groups.map_values(|g: Option<(usize, String)>| group_view(g))
}

/// True when `part` is the piece of `text` that starts at byte `start`.
pub open spec fn lies_at(text: Seq<char>, start: usize, part: Seq<char>) -> bool {
    &&& start + byte_length(part) <= byte_length(text)
    &&& vstd::utf8::encode_utf8(text).subrange(start as int, start + byte_length(part))
        == vstd::utf8::encode_utf8(part)
}

/// What the documentation of `regex` promises of every match: there is a
/// group 0, and the text of each group that took part is the piece of the
/// searched text at the offset of the group.
pub open spec fn captures_fit(groups: Seq<Option<(usize, Seq<char>)>>, text: Seq<char>) -> bool {
    &&& groups.len() >= 1
    &&& forall|i: int|
        0 <= i < groups.len() ==> ((#[trigger] groups[i]) matches Some(g) ==> lies_at(
            text,
            g.0,
            g.1,
        ))
}

/// Calls `Regex::new`. The outcome is `Ok` exactly for the patterns that
/// [`pattern_compiles`] names, and the expression then reports the pattern
/// it was given as its source.
#[verifier::external_body]
fn compile(pattern: &str) -> (r: Result<Regex, regex::Error>)
    ensures
        r is Ok <==> pattern_compiles(pattern@),
        r matches Ok(regex) ==> regex_source(regex) == pattern@,
{
    Regex::new(pattern)
}

/// `Regex::as_str` returns the pattern the expression was compiled from.
pub assume_specification[ Regex::as_str ](regex: &Regex) -> (source: &str)
    ensures
        source@ == regex_source(*regex),
;

/// Calls `Regex::captures` and hands out, for each group in order, the byte
/// offset of `Match::start` and the text of `Match::as_str`. The result is
/// the one [`regex_captures`] names; as documented, group 0 is always there
/// and the text of a group is the slice of the searched text that starts at
/// its offset.
#[verifier::external_body]
pub(crate) fn capture_groups(regex: &Regex, text: &str) -> (r: Option<Vec<Option<(usize, String)>>>)
    ensures
        match r {
            Some(groups) => regex_captures(*regex, text@) == Some(groups_view(groups@)),
            None => regex_captures(*regex, text@) is None,
        },
        r matches Some(groups) ==> captures_fit(groups_view(groups@), text@),
{
    regex.captures(text).map(
        |caps| caps.iter().map(|m| m.map(|m| (m.start(), m.as_str().to_owned()))).collect(),
    )
}

/// Compiles a pattern that is known to be valid.
pub fn build(str: &str) -> (r: Regex)
    requires
        pattern_compiles(str@),
    ensures
        regex_source(r) == str@,
{
    match compile(str) {
        Ok(regex) => regex,
        Err(_) => {
            proof {
                assert(false);
            }
            unreached()
        },
    }
}

/// Compiles a pattern, or returns `None` where the pattern is not valid.
pub fn try_build(str: &str) -> (r: Option<Regex>)
    ensures
        r is Some <==> pattern_compiles(str@),
        r matches Some(regex) ==> regex_source(regex) == str@,
{
    match compile(str) {
        Ok(_) => Some(r(str)),
        Err(_) => None,
    }
}

} // verus!
