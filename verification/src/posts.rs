//! Forum threads: the posts of a page, and the page that follows it.

use vstd::prelude::*;
use crate::error::CrawlError;
use crate::gather::{Gathered, gathered, lemma_gathered_next, lemma_gathered_stops, Step};
use crate::object::{Object, ObjectView};
use crate::page::{
    Cell, cells_at, CellView, document_grid, HREF, joined, LINK, NOTHING, Row, rows_view, RowView,
    select_in_document,
};
use crate::reference::{descriptor, parse_address, query_pairs_of, URL};
use crate::text::{
    append, append_str, equals, from_chars, nth_segment, replace_char, replaced, segment, to_chars,
    trim, trimmed,
};

verus! {

/// A post of a thread.
pub const POST: &'static str = ".ilFrmPostRow";

/// The title of a post.
pub const POST_TITLE: &'static str = ".ilFrmPostTitle";

/// The byline of a post.
pub const BYLINE: &'static str = "span.small";

/// What holds the content of a post, with the post's anchor.
pub const POST_CONTAINER: &'static str = ".ilFrmPostContentContainer";

/// The body of a post.
pub const POST_BODY: &'static str = ".ilFrmPostContent";

/// The attribute that holds an anchor's id.
pub const ANCHOR_ID: &'static str = "name";

/// A table.
pub const TABLE: &'static str = "table";

/// The links of a table's body.
pub const TABLE_LINKS: &'static str = "tbody tr td a";

/// What the link to the next page reads.
pub const NEXT_PAGE: &'static str = ">>";

/// A post as it is saved: the name of its file and what the file holds.
#[derive(Debug)]
pub struct PostFile {
    pub name: String,
    pub body: String,
}

/// What the contracts see of a `PostFile`: the characters of its strings.
pub struct PostFileView {
    pub name: Seq<char>,
    pub body: Seq<char>,
}

impl View for PostFile {
    type V = PostFileView;

    open spec fn view(&self) -> PostFileView {
        PostFileView { name: self.name@, body: self.body@ }
    }
}

/// The posts of `v`, each by its view.
pub open spec fn posts_view(v: Seq<PostFile>) -> Seq<PostFileView> {
    v.map_values(|p: PostFile| p@)
}

/// The author that a byline names: what stands between its first and its
/// second `|`, without the whitespace around it.
pub open spec fn author_in(byline: Seq<char>) -> Option<Seq<char>> {
    match segment(trimmed(byline), '|', 1) {
        Some(a) => Some(trimmed(a)),
        None => None,
    }
}

/// The name of the file of a post.
pub open spec fn post_file_name(anchor: Seq<char>, author: Seq<char>, title: Seq<char>) -> Seq<
    char,
> {
    anchor + "_"@ + author + "_"@ + trimmed(replaced(title, '/', '-')) + ".html"@
}

/// The post of one row, given the titles, bylines, containers and bodies
/// found in it. The first of each counts; the anchor is the first link of
/// the container. A row that lacks one of them fails.
pub open spec fn post_of(
    titles: Seq<CellView>,
    bylines: Seq<CellView>,
    containers: Seq<CellView>,
    bodies: Seq<CellView>,
) -> Step<PostFileView> {
    if titles.len() == 0 || bylines.len() == 0 || containers.len() == 0 || bodies.len() == 0
        || containers[0].inner.len() == 0 {
        Step::Fail(CrawlError::MissingPostPart)
    } else {
        match (author_in(joined(bylines[0].own.texts)), containers[0].inner[0].attr) {
            (Some(author), Some(anchor)) => Step::Take(
                PostFileView {
                    name: post_file_name(anchor, author, joined(titles[0].own.texts)),
                    body: bodies[0].own.inner_html,
                },
            ),
            _ => Step::Fail(CrawlError::MissingPostPart),
        }
    }
}

/// For each row its post.
pub open spec fn post_steps(
    titles: Seq<RowView>,
    bylines: Seq<RowView>,
    containers: Seq<RowView>,
    bodies: Seq<RowView>,
) -> Seq<Step<PostFileView>> {
    Seq::new(
        titles.len(),
        |i: int|
            post_of(
                cells_at(titles, i),
                cells_at(bylines, i),
                cells_at(containers, i),
                cells_at(bodies, i),
            ),
    )
}

/// The posts of the rows, given what was found in each row: those of the
/// rows before the first that fails, and that failure.
pub open spec fn posts_listed(
    titles: Seq<RowView>,
    bylines: Seq<RowView>,
    containers: Seq<RowView>,
    bodies: Seq<RowView>,
) -> Gathered<PostFileView> {
    gathered(post_steps(titles, bylines, containers, bodies))
}

/// The cells of the row at position `i`, where there is such a row.
fn row_cells(rows: &Vec<Row>, i: usize) -> (r: Option<&Vec<Cell>>)
    ensures
        match r {
            Some(cells) => cells@.map_values(|c: Cell| c@) == cells_at(rows_view(rows@), i as int),
            None => cells_at(rows_view(rows@), i as int).len() == 0,
        },
{
    if i < rows.len() {
        Some(&rows[i].cells)
    } else {
        None
    }
}

/// The first cell of the row at position `i`, where there is one.
fn first_cell(rows: &Vec<Row>, i: usize) -> (r: Option<&Cell>)
    ensures
        match r {
            Some(cell) => cells_at(rows_view(rows@), i as int).len() > 0 && cell@ == cells_at(
                rows_view(rows@),
                i as int,
            )[0],
            None => cells_at(rows_view(rows@), i as int).len() == 0,
        },
{
    match row_cells(rows, i) {
        Some(cells) => if cells.len() > 0 {
            Some(&cells[0])
        } else {
            None
        },
        None => None,
    }
}

fn author_of(byline: &str) -> (r: Option<Vec<char>>)
    ensures
        match r {
            Some(a) => author_in(byline@) == Some(a@),
            None => author_in(byline@) is None,
        },
{
    match nth_segment(&trim(&to_chars(byline)), '|', 1) {
        Some(a) => Some(trim(&a)),
        None => None,
    }
}

/// The post of the row at position `i`.
fn read_post(
    titles: &Vec<Row>,
    bylines: &Vec<Row>,
    containers: &Vec<Row>,
    bodies: &Vec<Row>,
    i: usize,
) -> (r: Option<PostFile>)
    ensures
        match r {
            Some(p) => post_of(
                cells_at(rows_view(titles@), i as int),
                cells_at(rows_view(bylines@), i as int),
                cells_at(rows_view(containers@), i as int),
                cells_at(rows_view(bodies@), i as int),
            ) == Step::Take(p@),
            None => post_of(
                cells_at(rows_view(titles@), i as int),
                cells_at(rows_view(bylines@), i as int),
                cells_at(rows_view(containers@), i as int),
                cells_at(rows_view(bodies@), i as int),
            ) == Step::<PostFileView>::Fail(CrawlError::MissingPostPart),
        },
{
    let title = match first_cell(titles, i) {
        Some(c) => c,
        None => {
            return None;
        },
    };
    let byline = match first_cell(bylines, i) {
        Some(c) => c,
        None => {
            return None;
        },
    };
    let container = match first_cell(containers, i) {
        Some(c) => c,
        None => {
            return None;
        },
    };
    let body = match first_cell(bodies, i) {
        Some(c) => c,
        None => {
            return None;
        },
    };
    if container.inner.len() == 0 {
        return None;
    }
    let author = match author_of(byline.own.text().as_str()) {
        Some(a) => a,
        None => {
            return None;
        },
    };
    let mut name = match &container.inner[0].attr {
        Some(anchor) => to_chars(anchor.as_str()),
        None => {
            return None;
        },
    };
    append_str(&mut name, "_");
    append(&mut name, &author);
    append_str(&mut name, "_");
    append(&mut name, &trim(&replace_char(&to_chars(title.own.text().as_str()), '/', '-')));
    append_str(&mut name, ".html");
    Some(PostFile { name: from_chars(&name), body: body.own.inner_html.clone() })
}

/// The posts of a thread page, given the titles, bylines, containers and
/// bodies found in each post row.
pub fn posts_of(
    titles: &Vec<Row>,
    bylines: &Vec<Row>,
    containers: &Vec<Row>,
    bodies: &Vec<Row>,
) -> (r: (Vec<PostFile>, Option<CrawlError>))
    ensures
        posts_view(r.0@) == posts_listed(
            rows_view(titles@),
            rows_view(bylines@),
            rows_view(containers@),
            rows_view(bodies@),
        ).taken,
        r.1 == posts_listed(
            rows_view(titles@),
            rows_view(bylines@),
            rows_view(containers@),
            rows_view(bodies@),
        ).failure,
{
    let ghost steps = post_steps(
        rows_view(titles@),
        rows_view(bylines@),
        rows_view(containers@),
        rows_view(bodies@),
    );
    let mut out: Vec<PostFile> = Vec::new();
    let mut i: usize = 0;
    assert(steps.take(0) =~= Seq::<Step<PostFileView>>::empty());
    while i < titles.len()
        invariant
            i <= titles.len(),
            steps == post_steps(
                rows_view(titles@),
                rows_view(bylines@),
                rows_view(containers@),
                rows_view(bodies@),
            ),
            gathered(steps.take(i as int)).failure is None,
            gathered(steps.take(i as int)).taken =~= posts_view(out@),
        decreases titles.len() - i,
    {
        proof {
            lemma_gathered_next(steps, i as int);
        }
        match read_post(titles, bylines, containers, bodies, i) {
            Some(post) => {
                out.push(post);
            },
            None => {
                proof {
                    lemma_gathered_stops(steps, i + 1);
                }
                return (out, Some(CrawlError::MissingPostPart));
            },
        }
        i = i + 1;
    }
    assert(steps.take(titles.len() as int) =~= steps);
    (out, None)
}

/// The posts that the thread page `page` shows.
pub open spec fn posts_in(page: Seq<char>) -> Gathered<PostFileView> {
    match (
        document_grid(page, POST@, POST_TITLE@, NOTHING@, HREF@),
        document_grid(page, POST@, BYLINE@, NOTHING@, HREF@),
        document_grid(page, POST@, POST_CONTAINER@, LINK@, ANCHOR_ID@),
        document_grid(page, POST@, POST_BODY@, NOTHING@, HREF@),
    ) {
        (Some(titles), Some(bylines), Some(containers), Some(bodies)) => posts_listed(
            titles,
            bylines,
            containers,
            bodies,
        ),
        _ => Gathered { taken: Seq::empty(), failure: Some(CrawlError::Selector) },
    }
}

/// The posts that the thread page `page` shows, each with the name of its
/// file, and the failure of the first post that could not be read.
pub fn list_posts(page: &str) -> (r: (Vec<PostFile>, Option<CrawlError>))
    ensures
        posts_view(r.0@) == posts_in(page@).taken,
        r.1 == posts_in(page@).failure,
{
    let titles = select_in_document(page, POST, POST_TITLE, NOTHING, HREF);
    let bylines = select_in_document(page, POST, BYLINE, NOTHING, HREF);
    let containers = select_in_document(page, POST, POST_CONTAINER, LINK, ANCHOR_ID);
    let bodies = select_in_document(page, POST, POST_BODY, NOTHING, HREF);
    match (titles, bylines, containers, bodies) {
        (Some(titles), Some(bylines), Some(containers), Some(bodies)) => posts_of(
            &titles,
            &bylines,
            &containers,
            &bodies,
        ),
        _ => {
            let none: Vec<PostFile> = Vec::new();
            assert(posts_view(none@) =~= Seq::<PostFileView>::empty());
            (none, Some(CrawlError::Selector))
        },
    }
}

/// What follows a page of a thread.
#[derive(Debug)]
pub enum Pagination {
    /// Nothing: the page is the last, or it shows no table.
    Last,
    /// The page's first table holds no link to tell by.
    NoLinks,
    /// The thread goes on at this node.
    Next(Object),
    /// The link to the next page cannot be followed.
    Broken(CrawlError),
}

/// What the contracts see of a `Pagination`: the characters of its strings.
pub enum PaginationView {
    Last,
    NoLinks,
    Next(ObjectView),
    Broken(CrawlError),
}

impl View for Pagination {
    type V = PaginationView;

    open spec fn view(&self) -> PaginationView {
        match self {
            Pagination::Last => PaginationView::Last,
            Pagination::NoLinks => PaginationView::NoLinks,
            Pagination::Next(o) => PaginationView::Next(o@),
            Pagination::Broken(e) => PaginationView::Broken(*e),
        }
    }
}

/// What follows a page, given the tables of the page with the links of
/// each table's body: the last link of the first table leads on where it
/// reads `>>`.
pub open spec fn following(tables: Seq<RowView>) -> PaginationView {
    if tables.len() == 0 {
        PaginationView::Last
    } else if tables[0].cells.len() == 0 {
        PaginationView::NoLinks
    } else {
        let last = tables[0].cells.last().own;
        if trimmed(joined(last.texts)) == NEXT_PAGE@ {
            match last.attr {
                None => PaginationView::Broken(CrawlError::MissingReference),
                Some(href) => match query_pairs_of(parse_address(href)) {
                    None => PaginationView::Broken(CrawlError::BadReference),
                    Some(pairs) => PaginationView::Next(
                        ObjectView::Thread { url: descriptor(href, pairs) },
                    ),
                },
            }
        } else {
            PaginationView::Last
        }
    }
}

/// What follows a page of a thread, given the tables of the page with the
/// links of each table's body.
pub fn next_page_of(tables: &Vec<Row>) -> (r: Pagination)
    ensures
        r@ == following(rows_view(tables@)),
{
    if tables.len() == 0 {
        return Pagination::Last;
    }
    let links = &tables[0].cells;
    if links.len() == 0 {
        return Pagination::NoLinks;
    }
    let last = &links[links.len() - 1].own;
    assert(last@ == rows_view(tables@)[0].cells.last().own);
    if !equals(&trim(&to_chars(last.text().as_str())), NEXT_PAGE) {
        return Pagination::Last;
    }
    match &last.attr {
        None => Pagination::Broken(CrawlError::MissingReference),
        Some(href) => match URL::from_href(href.as_str()) {
            None => Pagination::Broken(CrawlError::BadReference),
            Some(url) => Pagination::Next(Object::Thread { url }),
        },
    }
}

/// What follows the thread page `page`.
pub open spec fn following_page(page: Seq<char>) -> PaginationView {
    match document_grid(page, TABLE@, TABLE_LINKS@, NOTHING@, HREF@) {
        Some(tables) => following(tables),
        None => PaginationView::Broken(CrawlError::Selector),
    }
}

/// What follows the thread page `page`.
pub fn next_page(page: &str) -> (r: Pagination)
    ensures
        r@ == following_page(page@),
{
    match select_in_document(page, TABLE, TABLE_LINKS, NOTHING, HREF) {
        Some(tables) => next_page_of(&tables),
        None => Pagination::Broken(CrawlError::Selector),
    }
}

} // verus!
