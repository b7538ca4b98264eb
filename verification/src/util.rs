//! File-name sanitising.

use vstd::prelude::*;
use crate::text::{from_chars, to_chars};

verus! {

/// Whether `c` may not stand in a file name.
pub open spec fn is_path_unsafe(c: char) -> bool {
    c == '/' || c == '\\' || c == ':' || c == '<' || c == '>' || c == '"' || c == '|'
        || c == '?' || c == '*' || c == '\n' || c == '\t'
}

/// `s` with every path-unsafe character replaced by `-`.
pub open spec fn escaped(s: Seq<char>) -> Seq<char> {
    s.map_values(|c: char| if is_path_unsafe(c) { '-' } else { c })
}

fn path_unsafe(c: char) -> (b: bool)
    ensures
        b == is_path_unsafe(c),
{
    c == '/' || c == '\\' || c == ':' || c == '<' || c == '>' || c == '"' || c == '|'
        || c == '?' || c == '*' || c == '\n' || c == '\t'
}

/// A sanitised name is as long as the name and holds no path-unsafe
/// character; what was safe in the name stands where it stood.
pub proof fn escaped_is_safe(s: Seq<char>)
    ensures
        escaped(s).len() == s.len(),
        forall|i: int| 0 <= i < s.len() ==> !is_path_unsafe(#[trigger] escaped(s)[i]),
        forall|i: int| 0 <= i < s.len() && !is_path_unsafe(s[i]) ==> escaped(s)[i] == s[i],
{
}

/// Sanitising a sanitised name changes nothing.
pub proof fn escaping_twice_changes_nothing(s: Seq<char>)
    ensures
        escaped(escaped(s)) == escaped(s),
{
    assert(escaped(escaped(s)) =~= escaped(s));
}

/// Replaces every character that is unsafe in a file name by `-`.
pub fn file_escape(s: &str) -> (r: String)
    ensures
        r@ == escaped(s@),
{
    let chars = to_chars(s);
    let mut out: Vec<char> = Vec::new();
    let mut i: usize = 0;
    while i < chars.len()
        invariant
            i <= chars.len(),
            chars@ == s@,
            out@ =~= escaped(s@.take(i as int)),
        decreases chars.len() - i,
    {
        let c = chars[i];
        out.push(if path_unsafe(c) { '-' } else { c });
        i = i + 1;
    }
    from_chars(&out)
}

} // verus!
