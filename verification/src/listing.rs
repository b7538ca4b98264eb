//! The content nodes that a listing page shows.

use vstd::prelude::*;
use crate::address::ILIAS_URL;
use crate::error::CrawlError;
use crate::gather::{gathered, gathered_all, lemma_gathered_next, lemma_gathered_stops, Step};
use crate::object::{classified_link, Object, ObjectView};
use crate::page::{
    Cell, CellView, document_grid, fragment_grid, HREF, joined, LINK, NOTHING, Row, rows_view,
    RowView, select_in_document, select_in_fragment,
};
use crate::task::all_named;
use crate::text::{append_str, from_chars, strings_view, to_chars};

verus! {

/// An item of a listing.
pub const ITEM: &'static str = "div.il_ContainerListItem";

/// The title link of an item.
pub const TITLE: &'static str = "a.il_ContainerItemTitle";

/// A metadata span of an item.
pub const PROPERTY: &'static str = "span.il_ItemProperty";

/// The banner with which the service reports a failure.
pub const BANNER: &'static str = "div.alert-danger";

/// The reference of the page that lists the user's own courses.
pub const DESKTOP: &'static str = "ilias.php?baseClass=ilPersonalDesktopGUI&cmd=jumpToSelectedItems";

/// The reference that switches the service to showing content trees.
pub const TREE_MODE: &'static str =
    "ilias.php?baseClass=ilRepositoryGUI&cmd=frameset&set_mode=tree&ref_id=1";

/// The reference that switches the service back to flat listings.
pub const FLAT_MODE: &'static str =
    "ilias.php?baseClass=ilRepositoryGUI&cmd=frameset&set_mode=flat&ref_id=1";

/// What the address of a course's content tree begins with, below the
/// service root; the course's reference id follows.
pub const TREE_HEAD: &'static str = "ilias.php?ref_id=";

/// What stands before the command node in that address.
pub const TREE_COMMAND: &'static str = "&cmdClass=ilobjcoursegui&cmd=showRepTree&cmdNode=";

/// What stands before the node id, which ends with the reference id.
pub const TREE_NODE: &'static str =
    "&baseClass=ilRepositoryGUI&cmdMode=asynch&exp_cmd=getNodeAsync&node_id=exp_node_rep_exp_";

/// What the address of a course's content tree ends with.
pub const TREE_TAIL: &'static str = "&exp_cont=il_expl2_jstree_cont_rep_exp&searchterm=";

/// The nodes of `v`, each by its view.
pub open spec fn objects_view(v: Seq<Object>) -> Seq<ObjectView> {
    v.map_values(|o: Object| o@)
}

/// A list of nodes, or the failure, by its view.
pub open spec fn listing_view(r: Result<Vec<Object>, CrawlError>) -> Result<
    Seq<ObjectView>,
    CrawlError,
> {
    match r {
        Ok(v) => Ok(objects_view(v@)),
        Err(e) => Err(e),
    }
}

/// The text of each cell of `cells`.
pub open spec fn cell_texts(cells: Seq<CellView>) -> Seq<Seq<char>> {
    cells.map_values(|c: CellView| joined(c.own.texts))
}

/// The text of each cell of `cells`.
pub fn texts_of(cells: &Vec<Cell>) -> (r: Vec<String>)
    ensures
        strings_view(r@) == cell_texts(cells@.map_values(|c: Cell| c@)),
{
    let mut out: Vec<String> = Vec::new();
    let mut i: usize = 0;
    while i < cells.len()
        invariant
            i <= cells.len(),
            out.len() == i,
            forall|j: int| 0 <= j < i ==> (#[trigger] out@[j])@ == joined(cells@[j]@.own.texts),
        decreases cells.len() - i,
    {
        out.push(cells[i].own.text());
        i = i + 1;
    }
    assert(strings_view(out@) =~= cell_texts(cells@.map_values(|c: Cell| c@)));
    out
}

/// Whether the document `page` is free of the service's error banner.
pub open spec fn document_checked(page: Seq<char>) -> Result<(), CrawlError> {
    match document_grid(page, BANNER@, NOTHING@, NOTHING@, HREF@) {
        None => Err(CrawlError::Selector),
        Some(rows) => if rows.len() > 0 {
            Err(CrawlError::Service)
        } else {
            Ok(())
        },
    }
}

/// Whether the fragment `page` is free of the service's error banner.
pub open spec fn fragment_checked(page: Seq<char>) -> Result<(), CrawlError> {
    match fragment_grid(page, BANNER@, NOTHING@, NOTHING@, HREF@) {
        None => Err(CrawlError::Selector),
        Some(rows) => if rows.len() > 0 {
            Err(CrawlError::Service)
        } else {
            Ok(())
        },
    }
}

/// Fails where the document `page` carries the service's error banner.
pub fn check_document(page: &str) -> (r: Result<(), CrawlError>)
    ensures
        r == document_checked(page@),
{
    match select_in_document(page, BANNER, NOTHING, NOTHING, HREF) {
        None => Err(CrawlError::Selector),
        Some(rows) => if rows.len() > 0 {
            Err(CrawlError::Service)
        } else {
            Ok(())
        },
    }
}

/// Fails where the fragment `page` carries the service's error banner.
pub fn check_fragment(page: &str) -> (r: Result<(), CrawlError>)
    ensures
        r == fragment_checked(page@),
{
    match select_in_fragment(page, BANNER, NOTHING, NOTHING, HREF) {
        None => Err(CrawlError::Selector),
        Some(rows) => if rows.len() > 0 {
            Err(CrawlError::Service)
        } else {
            Ok(())
        },
    }
}

/// The metadata spans of the item at position `i`.
pub open spec fn props_at(props: Seq<RowView>, i: int) -> Seq<CellView> {
    if 0 <= i < props.len() {
        props[i].cells
    } else {
        Seq::empty()
    }
}

/// The node of one item: of its first title link, which must be there and
/// have an address.
pub open spec fn listed_item(title: RowView, props: Seq<CellView>) -> Step<ObjectView> {
    if title.cells.len() == 0 {
        Step::Fail(CrawlError::MissingLink)
    } else {
        match title.cells[0].own.attr {
            None => Step::Fail(CrawlError::MissingReference),
            Some(href) => match classified_link(
                joined(title.cells[0].own.texts),
                href,
                cell_texts(props),
            ) {
                Ok(o) => Step::Take(o),
                Err(e) => Step::Fail(e),
            },
        }
    }
}

/// The nodes of the items, one for each row of `titles`.
pub open spec fn listed_steps(titles: Seq<RowView>, props: Seq<RowView>) -> Seq<Step<ObjectView>> {
    Seq::new(titles.len(), |i: int| listed_item(titles[i], props_at(props, i)))
}

/// The nodes of the items whose title links `titles` holds and whose
/// metadata spans `props` holds, item by item: all of them, or the failure
/// of the first item that has one.
pub open spec fn listed(titles: Seq<RowView>, props: Seq<RowView>) -> Result<
    Seq<ObjectView>,
    CrawlError,
> {
    gathered_all(listed_steps(titles, props))
}

/// The nodes of the items of a listing, given the title links and the
/// metadata spans found in each item.
pub fn items_of(titles: &Vec<Row>, props: &Vec<Row>) -> (r: Result<Vec<Object>, CrawlError>)
    ensures
        listing_view(r) == listed(rows_view(titles@), rows_view(props@)),
        r matches Ok(v) ==> all_named(objects_view(v@)),
{
    let ghost steps = listed_steps(rows_view(titles@), rows_view(props@));
    let mut out: Vec<Object> = Vec::new();
    let mut i: usize = 0;
    assert(steps.take(0) =~= Seq::<Step<ObjectView>>::empty());
    while i < titles.len()
        invariant
            i <= titles.len(),
            steps == listed_steps(rows_view(titles@), rows_view(props@)),
            gathered(steps.take(i as int)).failure is None,
            gathered(steps.take(i as int)).taken =~= objects_view(out@),
            forall|j: int| 0 <= j < out.len() ==> (#[trigger] out@[j])@.is_named(),
        decreases titles.len() - i,
    {
        proof {
            lemma_gathered_next(steps, i as int);
        }
        let empty: Vec<Cell> = Vec::new();
        let spans = if i < props.len() {
            texts_of(&props[i].cells)
        } else {
            texts_of(&empty)
        };
        assert(strings_view(spans@) =~= cell_texts(props_at(rows_view(props@), i as int)));
        let title = &titles[i];
        let step = if title.cells.len() == 0 {
            Err(CrawlError::MissingLink)
        } else {
            let link = &title.cells[0].own;
            match &link.attr {
                None => Err(CrawlError::MissingReference),
                Some(href) => Object::from_link(link.text().as_str(), href.as_str(), &spans),
            }
        };
        match step {
            Ok(o) => {
                out.push(o);
            },
            Err(e) => {
                proof {
                    lemma_gathered_stops(steps, i + 1);
                }
                return Err(e);
            },
        }
        i = i + 1;
    }
    assert(steps.take(titles.len() as int) =~= steps);
    assert(all_named(objects_view(out@)));
    Ok(out)
}

/// The nodes that the listing `page` shows.
pub open spec fn document_items(page: Seq<char>) -> Result<Seq<ObjectView>, CrawlError> {
    match (
        document_grid(page, ITEM@, TITLE@, NOTHING@, HREF@),
        document_grid(page, ITEM@, PROPERTY@, NOTHING@, HREF@),
    ) {
        (Some(titles), Some(props)) => listed(titles, props),
        _ => Err(CrawlError::Selector),
    }
}

/// The nodes that the listing `page` shows, one for each item.
pub fn get_items(page: &str) -> (r: Result<Vec<Object>, CrawlError>)
    ensures
        listing_view(r) == document_items(page@),
        r matches Ok(v) ==> all_named(objects_view(v@)),
{
    let titles = select_in_document(page, ITEM, TITLE, NOTHING, HREF);
    let props = select_in_document(page, ITEM, PROPERTY, NOTHING, HREF);
    match (titles, props) {
        (Some(titles), Some(props)) => items_of(&titles, &props),
        _ => Err(CrawlError::Selector),
    }
}

/// The nodes of a listing page as it was fetched: none where the page
/// carries the error banner.
pub open spec fn content_of(page: Seq<char>) -> Result<Seq<ObjectView>, CrawlError> {
    match document_checked(page) {
        Err(e) => Err(e),
        Ok(_) => document_items(page),
    }
}

/// The nodes of the listing page `page` of a course or folder.
pub fn get_course_content(page: &str) -> (r: Result<Vec<Object>, CrawlError>)
    ensures
        listing_view(r) == content_of(page@),
        r matches Ok(v) ==> all_named(objects_view(v@)),
{
    match check_document(page) {
        Err(e) => Err(e),
        Ok(_) => get_items(page),
    }
}

/// The node of one link of a content tree: none for a link without an
/// address, which stands for a course that is switched off.
pub open spec fn tree_item(link: RowView) -> Step<ObjectView> {
    match link.own.attr {
        None => Step::Skip,
        Some(href) => if href.len() == 0 {
            Step::Skip
        } else {
            match classified_link(joined(link.own.texts), href, cell_texts(link.cells)) {
                Ok(o) => Step::Take(o),
                Err(e) => Step::Fail(e),
            }
        },
    }
}

/// The nodes of the links `links` of a content tree, or the failure of the
/// first link that has one.
pub open spec fn tree_listed(links: Seq<RowView>) -> Result<Seq<ObjectView>, CrawlError> {
    gathered_all(links.map_values(|l: RowView| tree_item(l)))
}

/// The nodes of a content tree, given its links with the metadata spans
/// found inside each.
pub fn tree_items_of(links: &Vec<Row>) -> (r: Result<Vec<Object>, CrawlError>)
    ensures
        listing_view(r) == tree_listed(rows_view(links@)),
        r matches Ok(v) ==> all_named(objects_view(v@)),
{
    let ghost steps = rows_view(links@).map_values(|l: RowView| tree_item(l));
    let mut out: Vec<Object> = Vec::new();
    let mut i: usize = 0;
    assert(steps.take(0) =~= Seq::<Step<ObjectView>>::empty());
    while i < links.len()
        invariant
            i <= links.len(),
            steps == rows_view(links@).map_values(|l: RowView| tree_item(l)),
            gathered(steps.take(i as int)).failure is None,
            gathered(steps.take(i as int)).taken =~= objects_view(out@),
            forall|j: int| 0 <= j < out.len() ==> (#[trigger] out@[j])@.is_named(),
        decreases links.len() - i,
    {
        proof {
            lemma_gathered_next(steps, i as int);
        }
        let link = &links[i];
        let found = match &link.own.attr {
            Some(href) => if href.as_str().is_empty() {
                None
            } else {
                let spans = texts_of(&link.cells);
                Some(Object::from_link(link.own.text().as_str(), href.as_str(), &spans))
            },
            None => None,
        };
        match found {
            None => {},
            Some(Ok(o)) => {
                out.push(o);
            },
            Some(Err(e)) => {
                proof {
                    lemma_gathered_stops(steps, i + 1);
                }
                return Err(e);
            },
        }
        i = i + 1;
    }
    assert(steps.take(links.len() as int) =~= steps);
    assert(all_named(objects_view(out@)));
    Ok(out)
}

/// The nodes that the content tree `page` shows: none where the page
/// carries the error banner.
pub open spec fn tree_content_of(page: Seq<char>) -> Result<Seq<ObjectView>, CrawlError> {
    match fragment_checked(page) {
        Err(e) => Err(e),
        Ok(_) => match fragment_grid(page, LINK@, PROPERTY@, NOTHING@, HREF@) {
            Some(links) => tree_listed(links),
            None => Err(CrawlError::Selector),
        },
    }
}

/// The nodes of the content tree `page` of a course.
pub fn get_course_content_tree(page: &str) -> (r: Result<Vec<Object>, CrawlError>)
    ensures
        listing_view(r) == tree_content_of(page@),
        r matches Ok(v) ==> all_named(objects_view(v@)),
{
    match check_fragment(page) {
        Err(e) => Err(e),
        Ok(_) => match select_in_fragment(page, LINK, PROPERTY, NOTHING, HREF) {
            Some(links) => tree_items_of(&links),
            None => Err(CrawlError::Selector),
        },
    }
}

/// The address of the content tree of the course `ref_id`, asked through
/// the command node `cmd_node`.
pub open spec fn tree_address(ref_id: Seq<char>, cmd_node: Seq<char>) -> Seq<char> {
    ILIAS_URL@ + TREE_HEAD@ + ref_id + TREE_COMMAND@ + cmd_node + TREE_NODE@ + ref_id + TREE_TAIL@
}

/// The address of the content tree of the course `ref_id`.
pub fn content_tree_url(ref_id: &str, cmd_node: &str) -> (r: String)
    ensures
        r@ == tree_address(ref_id@, cmd_node@),
{
    let mut out = to_chars(ILIAS_URL);
    append_str(&mut out, TREE_HEAD);
    append_str(&mut out, ref_id);
    append_str(&mut out, TREE_COMMAND);
    append_str(&mut out, cmd_node);
    append_str(&mut out, TREE_NODE);
    append_str(&mut out, ref_id);
    append_str(&mut out, TREE_TAIL);
    from_chars(&out)
}

} // verus!
