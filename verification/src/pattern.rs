//! Text that is found by a regular expression or read as JSON.

use vstd::prelude::*;
use regex::Regex;
use serde_json::Value;

verus! {

/// An optional string inside an option, by its characters.
pub open spec fn found_view(r: Option<Option<String>>) -> Option<Option<Seq<char>>> {
    match r {
        None => None,
        Some(None) => Some(None),
        Some(Some(s)) => Some(Some(s@)),
    }
}

/// What the group `group` holds in the first match of `pattern` in `text`:
/// `None` where `pattern` is no regular expression, `Some(None)` where it
/// matches nowhere or the group took no part in the match.
pub uninterp spec fn capture_of(pattern: Seq<char>, text: Seq<char>, group: nat) -> Option<
    Option<Seq<char>>,
>;

/// The string that the JSON document `text` holds at the JSON pointer
/// `pointer`: `None` where `text` is no JSON, `Some(None)` where it holds
/// no string there.
pub uninterp spec fn json_string_of(text: Seq<char>, pointer: Seq<char>) -> Option<
    Option<Seq<char>>,
>;

/// Compiles `pattern` with `regex::Regex::new`, searches `text` with
/// `Regex::captures` and copies out the group with `Captures::get`. The
/// result is a function of the arguments alone; nothing else is claimed
/// of it.
#[verifier::external_body]
pub(crate) fn first_capture(pattern: &str, text: &str, group: usize) -> (r: Option<Option<String>>)
    ensures
        found_view(r) == capture_of(pattern@, text@, group as nat),
{
    let regex = Regex::new(pattern).ok()?;
    Some(regex.captures(text).and_then(|c| c.get(group)).map(|m| m.as_str().to_owned()))
}

/// Parses `text` with `serde_json::from_str`, follows `pointer` with
/// `Value::pointer` and copies out the string that `Value::as_str` finds
/// there. The result is a function of the arguments alone; nothing else is
/// claimed of it.
#[verifier::external_body]
pub(crate) fn json_string(text: &str, pointer: &str) -> (r: Option<Option<String>>)
    ensures
        found_view(r) == json_string_of(text@, pointer@),
{
    let value: Value = serde_json::from_str(text).ok()?;
    Some(value.pointer(pointer).and_then(Value::as_str).map(str::to_owned))
}

} // verus!
