//! How a reference becomes the address that is fetched.

use vstd::prelude::*;
use crate::text::{append_str, from_chars, starts_with, to_chars};

verus! {

/// The root of the service; it ends with `/`.
pub const ILIAS_URL: &'static str = "https://ilias.studium.kit.edu/";

/// The address of the reference `url`: the reference itself where it
/// begins with a scheme or with the service's host, else the reference
/// below the service root.
pub open spec fn resolved(url: Seq<char>) -> Seq<char> {
    if "http"@.is_prefix_of(url) || "ilias.studium.kit.edu"@.is_prefix_of(url) {
        url
    } else {
        ILIAS_URL@ + url
    }
}

/// The reference `url` below the service root.
pub open spec fn rooted(url: Seq<char>) -> Seq<char> {
    ILIAS_URL@ + url
}

/// A reference below the service root is an address as it stands.
pub proof fn rooted_is_resolved(url: Seq<char>)
    ensures
        resolved(rooted(url)) == rooted(url),
{
    reveal_strlit("https://ilias.studium.kit.edu/");
    reveal_strlit("http");
    assert("http"@ =~= rooted(url).subrange(0, 4));
}

/// An address is its own address: addressing twice changes nothing.
pub proof fn resolving_twice_changes_nothing(url: Seq<char>)
    ensures
        resolved(resolved(url)) == resolved(url),
{
    if !("http"@.is_prefix_of(url) || "ilias.studium.kit.edu"@.is_prefix_of(url)) {
        rooted_is_resolved(url);
    }
}

/// The address under which the reference `url` is fetched.
pub fn resolve(url: &str) -> (r: String)
    ensures
        r@ == resolved(url@),
{
    let chars = to_chars(url);
    if starts_with(&chars, "http") || starts_with(&chars, "ilias.studium.kit.edu") {
        url.to_owned()
    } else {
        below_root(url)
    }
}

/// The reference `url` below the service root.
pub fn below_root(url: &str) -> (r: String)
    ensures
        r@ == rooted(url@),
{
    let mut address = to_chars(ILIAS_URL);
    append_str(&mut address, url);
    from_chars(&address)
}

} // verus!
