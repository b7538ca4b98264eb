//! Content nodes, and the classifier that makes one out of a hyperlink.

use vstd::prelude::*;
use crate::address::{resolve, resolved};
use crate::error::CrawlError;
use crate::reference::{descriptor, parse_address, query_pairs_of, URL, UrlView};
use crate::text::{
    append, append_str, ends_with, equals, from_chars, lowered, nth_segment, replace_char, replaced,
    segment, slice, starts_with, strings_view, to_chars, to_lower, trim, trimmed,
};

verus! {

/// A classified unit of the remote content tree.
#[derive(Debug)]
pub enum Object {
    Course { name: String, url: URL },
    Folder { name: String, url: URL },
    File { name: String, url: URL },
    Forum { name: String, url: URL },
    Thread { url: URL },
    Wiki { name: String, url: URL },
    ExerciseHandler { name: String, url: URL },
    PluginDispatch { name: String, url: URL },
    Video { url: URL },
    Generic { name: String, url: URL },
}

/// What the contracts see of an `Object`: the characters of its strings.
pub enum ObjectView {
    Course { name: Seq<char>, url: UrlView },
    Folder { name: Seq<char>, url: UrlView },
    File { name: Seq<char>, url: UrlView },
    Forum { name: Seq<char>, url: UrlView },
    Thread { url: UrlView },
    Wiki { name: Seq<char>, url: UrlView },
    ExerciseHandler { name: Seq<char>, url: UrlView },
    PluginDispatch { name: Seq<char>, url: UrlView },
    Video { url: UrlView },
    Generic { name: Seq<char>, url: UrlView },
}

impl View for Object {
    type V = ObjectView;

    open spec fn view(&self) -> ObjectView {
        match self {
            Object::Course { name, url } => ObjectView::Course { name: name@, url: url@ },
            Object::Folder { name, url } => ObjectView::Folder { name: name@, url: url@ },
            Object::File { name, url } => ObjectView::File { name: name@, url: url@ },
            Object::Forum { name, url } => ObjectView::Forum { name: name@, url: url@ },
            Object::Thread { url } => ObjectView::Thread { url: url@ },
            Object::Wiki { name, url } => ObjectView::Wiki { name: name@, url: url@ },
            Object::ExerciseHandler { name, url } => ObjectView::ExerciseHandler {
                name: name@,
                url: url@,
            },
            Object::PluginDispatch { name, url } => ObjectView::PluginDispatch {
                name: name@,
                url: url@,
            },
            Object::Video { url } => ObjectView::Video { url: url@ },
            Object::Generic { name, url } => ObjectView::Generic { name: name@, url: url@ },
        }
    }
}

impl ObjectView {
    /// The node's reference descriptor.
    pub open spec fn url(self) -> UrlView {
        match self {
            ObjectView::Course { url, .. } => url,
            ObjectView::Folder { url, .. } => url,
            ObjectView::File { url, .. } => url,
            ObjectView::Forum { url, .. } => url,
            ObjectView::Thread { url } => url,
            ObjectView::Wiki { url, .. } => url,
            ObjectView::ExerciseHandler { url, .. } => url,
            ObjectView::PluginDispatch { url, .. } => url,
            ObjectView::Video { url } => url,
            ObjectView::Generic { url, .. } => url,
        }
    }

    /// Whether the node has something to be called by: every node but a
    /// thread without a thread key.
    pub open spec fn is_named(self) -> bool {
        match self {
            ObjectView::Thread { url } => url.thr_pk is Some,
            _ => true,
        }
    }

    /// What the node is called by: its display name; for a thread its
    /// thread key; for a video its link.
    pub open spec fn name(self) -> Seq<char>
        recommends
            self.is_named(),
    {
        match self {
            ObjectView::Course { name, .. } => name,
            ObjectView::Folder { name, .. } => name,
            ObjectView::File { name, .. } => name,
            ObjectView::Forum { name, .. } => name,
            ObjectView::Thread { url } => url.thr_pk->0,
            ObjectView::Wiki { name, .. } => name,
            ObjectView::ExerciseHandler { name, .. } => name,
            ObjectView::PluginDispatch { name, .. } => name,
            ObjectView::Video { url } => url.url,
            ObjectView::Generic { name, .. } => name,
        }
    }

    /// The kind of the node in words.
    pub open spec fn kind(self) -> Seq<char> {
        match self {
            ObjectView::Course { .. } => "course"@,
            ObjectView::Folder { .. } => "folder"@,
            ObjectView::File { .. } => "file"@,
            ObjectView::Forum { .. } => "forum"@,
            ObjectView::Thread { .. } => "thread"@,
            ObjectView::Wiki { .. } => "wiki"@,
            ObjectView::ExerciseHandler { .. } => "exercise handler"@,
            ObjectView::PluginDispatch { .. } => "plugin dispatch"@,
            ObjectView::Video { .. } => "video"@,
            ObjectView::Generic { .. } => "generic"@,
        }
    }
}

/// The display name that a link's text gives: `/` replaced by `-`, and the
/// whitespace around it removed.
pub open spec fn link_name(text: Seq<char>) -> Seq<char> {
    trimmed(replaced(text, '/', '-'))
}

/// Whether the link `href` goes through the service's router, so that its
/// `target` says what it leads to.
pub open spec fn is_router(href: Seq<char>) -> bool {
    "https://ilias.studium.kit.edu/goto.php"@.is_prefix_of(resolved(href))
}

/// The reference id that a router target holds: what stands between its
/// first and its second `_`.
pub open spec fn target_ref_id(target: Seq<char>) -> Seq<char> {
    match segment(target, '_', 1) {
        Some(id) => id,
        None => Seq::empty(),
    }
}

/// `u` with the reference id that its router target `target` holds.
pub open spec fn with_target_ref(u: UrlView, target: Seq<char>) -> UrlView {
    UrlView { ref_id: target_ref_id(target), ..u }
}

/// The name of a file: the display name, then `_v` and the version where
/// the second metadata span begins with `Version: `, then `.` and the
/// extension, which the first metadata span holds.
pub open spec fn file_name(name: Seq<char>, props: Seq<Seq<char>>) -> Seq<char>
    recommends
        props.len() >= 2,
{
    let version = trimmed(props[1]);
    let stem = if "Version: "@.is_prefix_of(version) {
        name + "_v"@ + version.skip("Version: "@.len() as int)
    } else {
        name
    };
    stem + "."@ + trimmed(props[0])
}

/// The node of a router link, by the prefix of its target.
pub open spec fn routed(name: Seq<char>, props: Seq<Seq<char>>, u: UrlView) -> Result<
    ObjectView,
    CrawlError,
> {
    match u.target {
        None => Ok(ObjectView::Generic { name, url: u }),
        Some(t) => if "wiki_"@.is_prefix_of(t) {
            Ok(ObjectView::Wiki { name, url: u })
        } else if "root_"@.is_prefix_of(t) {
            Ok(ObjectView::Generic { name, url: u })
        } else if "crs_"@.is_prefix_of(t) {
            Ok(ObjectView::Course { name, url: with_target_ref(u, t) })
        } else if "frm_"@.is_prefix_of(t) {
            Ok(ObjectView::Forum { name, url: with_target_ref(u, t) })
        } else if "lm_"@.is_prefix_of(t) {
            Ok(ObjectView::Generic { name, url: u })
        } else if "fold_"@.is_prefix_of(t) {
            Ok(ObjectView::Folder { name, url: with_target_ref(u, t) })
        } else if "file_"@.is_prefix_of(t) {
            if !"download"@.is_suffix_of(t) {
                Ok(ObjectView::Generic { name, url: u })
            } else if props.len() < 2 {
                Err(CrawlError::MissingMetadata)
            } else {
                Ok(ObjectView::File { name: file_name(name, props), url: u })
            }
        } else {
            Ok(ObjectView::Generic { name, url: u })
        },
    }
}

/// The node of a link that carries its base class, by that class in lower
/// case and by its command.
pub open spec fn by_base_class(name: Seq<char>, u: UrlView) -> ObjectView {
    let class = lowered(u.baseClass);
    if class == "ilexercisehandlergui"@ {
        ObjectView::ExerciseHandler { name, url: u }
    } else if class == "ililwikihandlergui"@ {
        ObjectView::Wiki { name, url: u }
    } else if class == "ilrepositorygui"@ {
        match u.cmd {
            Some(c) => if c == "view"@ {
                ObjectView::Folder { name, url: u }
            } else {
                ObjectView::Generic { name, url: u }
            },
            None => ObjectView::Course { name, url: u },
        }
    } else if class == "ilobjplugindispatchgui"@ {
        ObjectView::PluginDispatch { name, url: u }
    } else {
        ObjectView::Generic { name, url: u }
    }
}

/// The node of the link with text `text` and descriptor `u`, in an item
/// whose metadata spans hold `props`. A thread key decides first, then the
/// router target, then the command `showThreads`, then the base class.
pub open spec fn classified(text: Seq<char>, props: Seq<Seq<char>>, u: UrlView) -> Result<
    ObjectView,
    CrawlError,
> {
    let name = link_name(text);
    if u.thr_pk is Some {
        Ok(ObjectView::Thread { url: u })
    } else if is_router(u.url) {
        routed(name, props, u)
    } else if u.cmd == Some("showThreads"@) {
        Ok(ObjectView::Forum { name, url: u })
    } else {
        Ok(by_base_class(name, u))
    }
}

/// The node of the link with text `text` and address `href`.
pub open spec fn classified_link(text: Seq<char>, href: Seq<char>, props: Seq<Seq<char>>) -> Result<
    ObjectView,
    CrawlError,
> {
    match query_pairs_of(parse_address(href)) {
        Some(pairs) => classified(text, props, descriptor(href, pairs)),
        None => Err(CrawlError::BadReference),
    }
}

/// The classifier is a function of the link: whatever it returns for one
/// text, address and list of metadata spans is the same node, of the same
/// kind and name, or the same failure.
pub proof fn classification_is_determined(
    text: Seq<char>,
    href: Seq<char>,
    props: Seq<Seq<char>>,
    first: Result<Object, CrawlError>,
    second: Result<Object, CrawlError>,
)
    requires
        result_view(first) == classified_link(text, href, props),
        result_view(second) == classified_link(text, href, props),
    ensures
        result_view(first) == result_view(second),
        first is Ok <==> second is Ok,
        first is Ok ==> first->Ok_0@.kind() == second->Ok_0@.kind() && first->Ok_0@.name()
            == second->Ok_0@.name(),
{
}

/// A link that carries a thread key is a thread, whatever else it carries.
pub proof fn thread_key_decides(text: Seq<char>, props: Seq<Seq<char>>, u: UrlView)
    requires
        u.thr_pk is Some,
    ensures
        classified(text, props, u) == Ok::<ObjectView, CrawlError>(ObjectView::Thread { url: u }),
        (ObjectView::Thread { url: u }).name() == u.thr_pk->0,
{
}

/// A classification by its view.
pub open spec fn result_view(r: Result<Object, CrawlError>) -> Result<ObjectView, CrawlError> {
    match r {
        Ok(o) => Ok(o@),
        Err(e) => Err(e),
    }
}

fn file_name_of(name: &Vec<char>, props: &Vec<String>) -> (r: String)
    requires
        props.len() >= 2,
    ensures
        r@ == file_name(name@, strings_view(props@)),
{
    let version = trim(&to_chars(props[1].as_str()));
    let mut out: Vec<char> = Vec::new();
    append(&mut out, name);
    if starts_with(&version, "Version: ") {
        let prefix = to_chars("Version: ");
        append_str(&mut out, "_v");
        let tail = slice(&version, prefix.len(), version.len());
        append(&mut out, &tail);
    }
    append_str(&mut out, ".");
    let ext = trim(&to_chars(props[0].as_str()));
    append(&mut out, &ext);
    assert(out@ =~= file_name(name@, strings_view(props@)));
    from_chars(&out)
}

fn target_ref(target: &Vec<char>) -> (r: String)
    ensures
        r@ == target_ref_id(target@),
{
    match nth_segment(target, '_', 1) {
        Some(id) => from_chars(&id),
        None => String::new(),
    }
}

impl Object {
    /// What the node is called by.
    pub fn name(&self) -> (r: &str)
        requires
            self@.is_named(),
        ensures
            r@ == self@.name(),
    {
        match self {
            Object::Course { name, .. } => name.as_str(),
            Object::Folder { name, .. } => name.as_str(),
            Object::File { name, .. } => name.as_str(),
            Object::Forum { name, .. } => name.as_str(),
            Object::Thread { url } => match &url.thr_pk {
                Some(key) => key.as_str(),
                None => "",
            },
            Object::Wiki { name, .. } => name.as_str(),
            Object::ExerciseHandler { name, .. } => name.as_str(),
            Object::PluginDispatch { name, .. } => name.as_str(),
            Object::Video { url } => url.url.as_str(),
            Object::Generic { name, .. } => name.as_str(),
        }
    }

    /// The node's reference descriptor.
    pub fn url(&self) -> (r: &URL)
        ensures
            r@ == self@.url(),
    {
        match self {
            Object::Course { url, .. } => url,
            Object::Folder { url, .. } => url,
            Object::File { url, .. } => url,
            Object::Forum { url, .. } => url,
            Object::Thread { url } => url,
            Object::Wiki { url, .. } => url,
            Object::ExerciseHandler { url, .. } => url,
            Object::PluginDispatch { url, .. } => url,
            Object::Video { url } => url,
            Object::Generic { url, .. } => url,
        }
    }

    /// The kind of the node in words.
    pub fn kind(&self) -> (r: &str)
        ensures
            r@ == self@.kind(),
    {
        match self {
            Object::Course { .. } => "course",
            Object::Folder { .. } => "folder",
            Object::File { .. } => "file",
            Object::Forum { .. } => "forum",
            Object::Thread { .. } => "thread",
            Object::Wiki { .. } => "wiki",
            Object::ExerciseHandler { .. } => "exercise handler",
            Object::PluginDispatch { .. } => "plugin dispatch",
            Object::Video { .. } => "video",
            Object::Generic { .. } => "generic",
        }
    }

    /// The node of a router link, by the prefix of its target.
    fn route(name: String, props: &Vec<String>, url: URL) -> (r: Result<Object, CrawlError>)
        ensures
            result_view(r) == routed(name@, strings_view(props@), url@),
    {
        let mut url = url;
        let target = match &url.target {
            Some(t) => to_chars(t.as_str()),
            None => {
                return Ok(Object::Generic { name, url });
            },
        };
        if starts_with(&target, "wiki_") {
            Ok(Object::Wiki { name, url })
        } else if starts_with(&target, "root_") {
            Ok(Object::Generic { name, url })
        } else if starts_with(&target, "crs_") {
            url.ref_id = target_ref(&target);
            Ok(Object::Course { name, url })
        } else if starts_with(&target, "frm_") {
            url.ref_id = target_ref(&target);
            Ok(Object::Forum { name, url })
        } else if starts_with(&target, "lm_") {
            Ok(Object::Generic { name, url })
        } else if starts_with(&target, "fold_") {
            url.ref_id = target_ref(&target);
            Ok(Object::Folder { name, url })
        } else if starts_with(&target, "file_") {
            if !ends_with(&target, "download") {
                Ok(Object::Generic { name, url })
            } else if props.len() < 2 {
                Err(CrawlError::MissingMetadata)
            } else {
                let name = file_name_of(&to_chars(name.as_str()), props);
                Ok(Object::File { name, url })
            }
        } else {
            Ok(Object::Generic { name, url })
        }
    }

    /// The node of a link that carries its base class.
    fn by_class(name: String, url: URL) -> (r: Object)
        ensures
            r@ == by_base_class(name@, url@),
    {
        let class = to_lower(&to_chars(url.baseClass.as_str()));
        if equals(&class, "ilexercisehandlergui") {
            Object::ExerciseHandler { name, url }
        } else if equals(&class, "ililwikihandlergui") {
            Object::Wiki { name, url }
        } else if equals(&class, "ilrepositorygui") {
            let view = match &url.cmd {
                Some(c) => Some(equals(&to_chars(c.as_str()), "view")),
                None => None,
            };
            match view {
                Some(true) => Object::Folder { name, url },
                Some(false) => Object::Generic { name, url },
                None => Object::Course { name, url },
            }
        } else if equals(&class, "ilobjplugindispatchgui") {
            Object::PluginDispatch { name, url }
        } else {
            Object::Generic { name, url }
        }
    }

    /// Classifies the link with text `text` and descriptor `url`, found in
    /// an item whose metadata spans hold `props`.
    pub fn classify(text: &str, props: &Vec<String>, url: URL) -> (r: Result<Object, CrawlError>)
        ensures
            result_view(r) == classified(text@, strings_view(props@), url@),
            r matches Ok(o) ==> o@.is_named(),
    {
        let name = from_chars(&trim(&replace_char(&to_chars(text), '/', '-')));
        if url.thr_pk.is_some() {
            return Ok(Object::Thread { url });
        }
        let address = to_chars(resolve(url.url.as_str()).as_str());
        if starts_with(&address, "https://ilias.studium.kit.edu/goto.php") {
            return Object::route(name, props, url);
        }
        let threads = match &url.cmd {
            Some(c) => equals(&to_chars(c.as_str()), "showThreads"),
            None => false,
        };
        if threads {
            return Ok(Object::Forum { name, url });
        }
        Ok(Object::by_class(name, url))
    }

    /// Classifies the link with text `text` and address `href`, found in an
    /// item whose metadata spans hold `props`.
    pub fn from_link(text: &str, href: &str, props: &Vec<String>) -> (r: Result<Object, CrawlError>)
        ensures
            result_view(r) == classified_link(text@, href@, strings_view(props@)),
            r matches Ok(o) ==> o@.is_named(),
    {
        match URL::from_href(href) {
            Some(url) => Object::classify(text, props, url),
            None => Err(CrawlError::BadReference),
        }
    }
}

} // verus!
