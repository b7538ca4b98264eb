//! What the page of a course tells beside its listing.

use vstd::prelude::*;
use crate::error::{CrawlError, text_result_view};
use crate::pattern::{capture_of, first_capture};
use crate::text::{contains, from_chars, has, slice, to_chars};

verus! {

/// The parameter that names the command node of a course.
pub const COMMAND_NODE: &'static str = r"cmdNode=uf:\w\w";

/// The name of that parameter, with its `=`.
pub const COMMAND_NODE_KEY: &'static str = "cmdNode=";

/// The markup of the prompt to join a course.
pub const JOIN_PROMPT: &'static str = "input[name=\"cmd[join]\"";

/// The command node that the course page `page` names: the value of the
/// first parameter of that kind in it.
pub open spec fn command_node_of(page: Seq<char>) -> Result<Seq<char>, CrawlError> {
    match capture_of(COMMAND_NODE@, page, 0) {
        None => Err(CrawlError::Pattern),
        Some(None) => Err(CrawlError::MissingCommandNode),
        Some(Some(found)) => command_node_in(found),
    }
}

/// The value of the parameter `found`: what follows its name.
pub open spec fn command_node_in(found: Seq<char>) -> Result<Seq<char>, CrawlError> {
    if found.len() < COMMAND_NODE_KEY@.len() {
        Err(CrawlError::MissingCommandNode)
    } else {
        Ok(found.skip(COMMAND_NODE_KEY@.len() as int))
    }
}

/// The value of the command-node parameter `found`.
pub fn command_node_value(found: &str) -> (r: Result<String, CrawlError>)
    ensures
        text_result_view(r) == command_node_in(found@),
{
    let chars = to_chars(found);
    let key = to_chars(COMMAND_NODE_KEY);
    if chars.len() < key.len() {
        Err(CrawlError::MissingCommandNode)
    } else {
        Ok(from_chars(&slice(&chars, key.len(), chars.len())))
    }
}

/// The command node that the course page `page` names.
pub fn command_node(page: &str) -> (r: Result<String, CrawlError>)
    ensures
        text_result_view(r) == command_node_of(page@),
{
    match first_capture(COMMAND_NODE, page, 0) {
        None => Err(CrawlError::Pattern),
        Some(None) => Err(CrawlError::MissingCommandNode),
        Some(Some(found)) => command_node_value(found.as_str()),
    }
}

/// Whether the course page `page` asks the viewer to join, which it does
/// for one who is no member.
pub open spec fn asks_to_join(page: Seq<char>) -> bool {
    contains(page, JOIN_PROMPT@)
}

/// Whether the course page `page` shows that the viewer is no member.
pub fn not_a_member(page: &str) -> (b: bool)
    ensures
        b == asks_to_join(page@),
{
    has(&to_chars(page), JOIN_PROMPT)
}

} // verus!
