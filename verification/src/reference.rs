//! The reference descriptor that a hyperlink's query carries.

use vstd::prelude::*;
use crate::text::{append_str, equals, from_chars, opt_view, to_chars};
use url::Url;

verus! {

/// What a hyperlink refers to: the link as written, and the parameters of
/// its query that the crawl reads.
#[allow(non_snake_case)]
#[derive(Debug)]
pub struct URL {
    pub url: String,
    pub baseClass: String,
    pub cmdClass: Option<String>,
    pub cmdNode: Option<String>,
    pub cmd: Option<String>,
    pub forwardCmd: Option<String>,
    pub thr_pk: Option<String>,
    pub pos_pk: Option<String>,
    pub ref_id: String,
    pub target: Option<String>,
}

/// What the contracts see of a `URL`: the characters of its strings.
#[allow(non_snake_case)]
pub struct UrlView {
    pub url: Seq<char>,
    pub baseClass: Seq<char>,
    pub cmdClass: Option<Seq<char>>,
    pub cmdNode: Option<Seq<char>>,
    pub cmd: Option<Seq<char>>,
    pub forwardCmd: Option<Seq<char>>,
    pub thr_pk: Option<Seq<char>>,
    pub pos_pk: Option<Seq<char>>,
    pub ref_id: Seq<char>,
    pub target: Option<Seq<char>>,
}

impl View for URL {
    type V = UrlView;

    open spec fn view(&self) -> UrlView {
        UrlView {
            url: self.url@,
            baseClass: self.baseClass@,
            cmdClass: opt_view(self.cmdClass),
            cmdNode: opt_view(self.cmdNode),
            cmd: opt_view(self.cmd),
            forwardCmd: opt_view(self.forwardCmd),
            thr_pk: opt_view(self.thr_pk),
            pos_pk: opt_view(self.pos_pk),
            ref_id: self.ref_id@,
            target: opt_view(self.target),
        }
    }
}

/// The name/value pairs of a query, each string by its characters.
pub open spec fn pairs_view(pairs: Seq<(String, String)>) -> Seq<(Seq<char>, Seq<char>)> {
    pairs.map_values(|p: (String, String)| (p.0@, p.1@))
}

/// The value of the last pair named `key`.
pub open spec fn last_value(pairs: Seq<(Seq<char>, Seq<char>)>, key: Seq<char>) -> Option<
    Seq<char>,
>
    decreases pairs.len(),
{
    if pairs.len() == 0 {
        None
    } else if pairs.last().0 == key {
        Some(pairs.last().1)
    } else {
        last_value(pairs.drop_last(), key)
    }
}

/// The value of the last pair named `key`, or the empty string.
pub open spec fn last_value_or_empty(
    pairs: Seq<(Seq<char>, Seq<char>)>,
    key: Seq<char>,
) -> Seq<char> {
    match last_value(pairs, key) {
        Some(v) => v,
        None => Seq::empty(),
    }
}

/// The descriptor of a link with no query parameters.
pub open spec fn raw_descriptor(url: Seq<char>) -> UrlView {
    UrlView {
        url,
        baseClass: Seq::empty(),
        cmdClass: None,
        cmdNode: None,
        cmd: None,
        forwardCmd: None,
        thr_pk: None,
        pos_pk: None,
        ref_id: Seq::empty(),
        target: None,
    }
}

/// The descriptor of the link `href` whose query holds `pairs`: each
/// parameter has the value of the last pair that names it.
pub open spec fn descriptor(href: Seq<char>, pairs: Seq<(Seq<char>, Seq<char>)>) -> UrlView {
    UrlView {
        url: href,
        baseClass: last_value_or_empty(pairs, "baseClass"@),
        cmdClass: last_value(pairs, "cmdClass"@),
        cmdNode: last_value(pairs, "cmdNode"@),
        cmd: last_value(pairs, "cmd"@),
        forwardCmd: last_value(pairs, "forwardCmd"@),
        thr_pk: last_value(pairs, "thr_pk"@),
        pos_pk: last_value(pairs, "pos_pk"@),
        ref_id: last_value_or_empty(pairs, "ref_id"@),
        target: last_value(pairs, "target"@),
    }
}

/// The address under which a relative link is parsed.
pub open spec fn parse_address(href: Seq<char>) -> Seq<char> {
    "http://domain/"@ + href
}

/// The decoded name/value pairs of the query of the address `url`, in the
/// order in which the query holds them; `None` where `url` is no address.
pub uninterp spec fn query_pairs_of(url: Seq<char>) -> Option<Seq<(Seq<char>, Seq<char>)>>;

/// The pairs that `query_pairs` returned, as `query_pairs_of` gives them.
pub open spec fn opt_pairs_view(r: Option<Vec<(String, String)>>) -> Option<
    Seq<(Seq<char>, Seq<char>)>,
> {
    match r {
        Some(v) => Some(pairs_view(v@)),
        None => None,
    }
}

/// Parses `url` with `url::Url::parse` and collects what `Url::query_pairs`
/// yields. The result is a function of `url` alone and is known to the
/// verifier only as `query_pairs_of(url)`.
#[verifier::external_body]
fn query_pairs(url: &str) -> (r: Option<Vec<(String, String)>>)
    ensures
        opt_pairs_view(r) == query_pairs_of(url@),
{
    Some(Url::parse(url).ok()?.query_pairs().into_owned().collect())
}

/// The value of the last pair named `key`.
fn lookup(pairs: &Vec<(String, String)>, key: &str) -> (r: Option<String>)
    ensures
        opt_view(r) == last_value(pairs_view(pairs@), key@),
{
    let mut i: usize = pairs.len();
    assert(pairs_view(pairs@).take(i as int) =~= pairs_view(pairs@));
    while i > 0
        invariant
            i <= pairs.len(),
            last_value(pairs_view(pairs@), key@) == last_value(
                pairs_view(pairs@).take(i as int),
                key@,
            ),
        decreases i,
    {
        let name = to_chars(pairs[i - 1].0.as_str());
        assert(pairs_view(pairs@).take(i as int).last() == (pairs@[i - 1].0@, pairs@[i - 1].1@));
        if equals(&name, key) {
            return Some(pairs[i - 1].1.clone());
        }
        assert(pairs_view(pairs@).take(i as int).drop_last() =~= pairs_view(pairs@).take(i - 1));
        i = i - 1;
    }
    None
}

fn lookup_or_empty(pairs: &Vec<(String, String)>, key: &str) -> (r: String)
    ensures
        r@ == last_value_or_empty(pairs_view(pairs@), key@),
{
    match lookup(pairs, key) {
        Some(v) => v,
        None => String::new(),
    }
}

impl URL {
    /// A descriptor that holds the link alone.
    pub fn raw(url: String) -> (r: Self)
        ensures
            r@ == raw_descriptor(url@),
    {
        URL {
            url,
            baseClass: String::new(),
            cmdClass: None,
            cmdNode: None,
            cmd: None,
            forwardCmd: None,
            thr_pk: None,
            pos_pk: None,
            ref_id: String::new(),
            target: None,
        }
    }

    /// The descriptor of the link `href`, given the pairs of its query.
    pub fn from_pairs(href: &str, pairs: &Vec<(String, String)>) -> (r: Self)
        ensures
            r@ == descriptor(href@, pairs_view(pairs@)),
    {
        URL {
            url: href.to_owned(),
            baseClass: lookup_or_empty(pairs, "baseClass"),
            cmdClass: lookup(pairs, "cmdClass"),
            cmdNode: lookup(pairs, "cmdNode"),
            cmd: lookup(pairs, "cmd"),
            forwardCmd: lookup(pairs, "forwardCmd"),
            thr_pk: lookup(pairs, "thr_pk"),
            pos_pk: lookup(pairs, "pos_pk"),
            ref_id: lookup_or_empty(pairs, "ref_id"),
            target: lookup(pairs, "target"),
        }
    }

    /// The descriptor of the link `href`. The link is read relative to a
    /// fixed address; where the two together are no address there is no
    /// descriptor.
    pub fn from_href(href: &str) -> (r: Option<Self>)
        ensures
            match r {
                Some(u) => query_pairs_of(parse_address(href@)) is Some && u@ == descriptor(
                    href@,
                    query_pairs_of(parse_address(href@))->0,
                ),
                None => query_pairs_of(parse_address(href@)) is None,
            },
    {
        let mut address = to_chars("http://domain/");
        append_str(&mut address, href);
        let address = from_chars(&address);
        match query_pairs(address.as_str()) {
            Some(pairs) => Some(URL::from_pairs(href, &pairs)),
            None => None,
        }
    }
}

} // verus!
