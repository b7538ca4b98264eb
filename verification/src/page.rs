//! What a page of markup holds, as plain values.
//!
//! A page is queried with three selectors, one inside the other: the rows
//! of the page, the cells of each row, and the elements inside each cell.
//! The markup is parsed and matched by `scraper`; what comes back is a
//! function of the page and the selectors, and is known to the verifier
//! only under the names `document_grid` and `fragment_grid`.

use vstd::prelude::*;
use crate::text::{append_str, from_chars};
use scraper::{ElementRef, Html, Selector};

verus! {

/// A selector that no element matches, for a level that a query does not need.
pub const NOTHING: &'static str = ":not(*)";

/// A hyperlink.
pub const LINK: &'static str = "a";

/// The attribute that holds a link's address.
pub const HREF: &'static str = "href";

/// A row of a table.
pub const TABLE_ROW: &'static str = "tr";

/// A cell of a table.
pub const TABLE_CELL: &'static str = "td";

/// One element of a page, as far as the handlers read it.
#[derive(Debug)]
pub struct Element {
    /// The text nodes below the element, in document order.
    pub texts: Vec<String>,
    /// The markup inside the element.
    pub inner_html: String,
    /// The value of the attribute that the query asked for, if the element has it.
    pub attr: Option<String>,
}

/// What the contracts see of an `Element`: the characters of its strings.
pub struct ElementView {
    pub texts: Seq<Seq<char>>,
    pub inner_html: Seq<char>,
    pub attr: Option<Seq<char>>,
}

impl View for Element {
    type V = ElementView;

    open spec fn view(&self) -> ElementView {
        ElementView {
            texts: self.texts@.map_values(|s: String| s@),
            inner_html: self.inner_html@,
            attr: match self.attr {
                Some(a) => Some(a@),
                None => None,
            },
        }
    }
}

/// An element found inside a row, with the elements found inside it.
#[derive(Debug)]
pub struct Cell {
    pub own: Element,
    pub inner: Vec<Element>,
}

/// What the contracts see of a `Cell`: the characters of its strings.
pub struct CellView {
    pub own: ElementView,
    pub inner: Seq<ElementView>,
}

impl View for Cell {
    type V = CellView;

    open spec fn view(&self) -> CellView {
        CellView { own: self.own@, inner: self.inner@.map_values(|e: Element| e@) }
    }
}

/// An element found in a page, with the cells found inside it.
#[derive(Debug)]
pub struct Row {
    pub own: Element,
    pub cells: Vec<Cell>,
}

/// What the contracts see of a `Row`: the characters of its strings.
pub struct RowView {
    pub own: ElementView,
    pub cells: Seq<CellView>,
}

impl View for Row {
    type V = RowView;

    open spec fn view(&self) -> RowView {
        RowView { own: self.own@, cells: self.cells@.map_values(|c: Cell| c@) }
    }
}

/// The rows of `rows`, each by its view.
pub open spec fn rows_view(rows: Seq<Row>) -> Seq<RowView> {
    rows.map_values(|r: Row| r@)
}

/// What a query returned, by its view.
pub open spec fn grid_view(grid: Option<Vec<Row>>) -> Option<Seq<RowView>> {
    match grid {
        Some(rows) => Some(rows_view(rows@)),
        None => None,
    }
}

/// The cells of the table row at position `i`.
pub open spec fn cells_at(cells: Seq<RowView>, i: int) -> Seq<CellView> {
    if 0 <= i < cells.len() {
        cells[i].cells
    } else {
        Seq::empty()
    }
}

/// The texts `texts` one after the other.
pub open spec fn joined(texts: Seq<Seq<char>>) -> Seq<char>
    decreases texts.len(),
{
    if texts.len() == 0 {
        Seq::empty()
    } else {
        joined(texts.drop_last()) + texts.last()
    }
}

impl Element {
    /// All the text below the element.
    pub fn text(&self) -> (r: String)
        ensures
            r@ == joined(self@.texts),
    {
        let mut out: Vec<char> = Vec::new();
        let mut i: usize = 0;
        assert(self@.texts.take(0) =~= Seq::<Seq<char>>::empty());
        while i < self.texts.len()
            invariant
                i <= self.texts.len(),
                out@ == joined(self@.texts.take(i as int)),
            decreases self.texts.len() - i,
        {
            assert(self@.texts.take(i + 1).drop_last() =~= self@.texts.take(i as int));
            append_str(&mut out, self.texts[i].as_str());
            i = i + 1;
        }
        assert(self@.texts.take(self.texts.len() as int) =~= self@.texts);
        from_chars(&out)
    }
}

/// The rows that the selector `row` matches in the document `page`; in
/// each, the cells that `cell` matches below the row; in each, the
/// elements that `inner` matches below the cell; every element with the
/// value of its attribute `attr`. `None` where a selector is not understood.
pub uninterp spec fn document_grid(
    page: Seq<char>,
    row: Seq<char>,
    cell: Seq<char>,
    inner: Seq<char>,
    attr: Seq<char>,
) -> Option<Seq<RowView>>;

/// As `document_grid`, with `page` read as a fragment of a document.
pub uninterp spec fn fragment_grid(
    page: Seq<char>,
    row: Seq<char>,
    cell: Seq<char>,
    inner: Seq<char>,
    attr: Seq<char>,
) -> Option<Seq<RowView>>;

/// Parses `page` with `scraper::Html::parse_document` and the selectors
/// with `scraper::Selector::parse`; matches rows with `Html::select`, and
/// cells and inner elements with `ElementRef::select`. Each element is
/// copied out by `ElementRef::text`, `inner_html` and `attr`. The result
/// is a function of the arguments alone; nothing else is claimed of it.
#[verifier::external_body]
pub(crate) fn select_in_document(
    page: &str,
    row: &str,
    cell: &str,
    inner: &str,
    attr: &str,
) -> (r: Option<Vec<Row>>)
    ensures
        grid_view(r) == document_grid(page@, row@, cell@, inner@, attr@),
{
    let snap = |e: ElementRef| Element {
        texts: e.text().map(str::to_owned).collect(),
        inner_html: e.inner_html(),
        attr: e.attr(attr).map(str::to_owned),
    };
    let row = Selector::parse(row).ok()?;
    let cell = Selector::parse(cell).ok()?;
    let inner = Selector::parse(inner).ok()?;
    let below = |c: ElementRef| Cell { own: snap(c), inner: c.select(&inner).map(snap).collect() };
    let cells = |r: ElementRef| Row { own: snap(r), cells: r.select(&cell).map(below).collect() };
    Some(Html::parse_document(page).select(&row).map(cells).collect())
}

/// As `select_in_document`, with `scraper::Html::parse_fragment` in place
/// of `parse_document`.
#[verifier::external_body]
pub(crate) fn select_in_fragment(
    page: &str,
    row: &str,
    cell: &str,
    inner: &str,
    attr: &str,
) -> (r: Option<Vec<Row>>)
    ensures
        grid_view(r) == fragment_grid(page@, row@, cell@, inner@, attr@),
{
    let snap = |e: ElementRef| Element {
        texts: e.text().map(str::to_owned).collect(),
        inner_html: e.inner_html(),
        attr: e.attr(attr).map(str::to_owned),
    };
    let row = Selector::parse(row).ok()?;
    let cell = Selector::parse(cell).ok()?;
    let inner = Selector::parse(inner).ok()?;
    let below = |c: ElementRef| Cell { own: snap(c), inner: c.select(&inner).map(snap).collect() };
    let cells = |r: ElementRef| Row { own: snap(r), cells: r.select(&cell).map(below).collect() };
    Some(Html::parse_fragment(page).select(&row).map(cells).collect())
}

} // verus!
