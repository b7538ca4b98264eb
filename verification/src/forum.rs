//! Forums: the table of threads, and which threads are fetched.

use vstd::prelude::*;
use crate::address::{below_root, ILIAS_URL, rooted};
use crate::error::{CrawlError, text_result_view};
use crate::gather::{
    Gathered, gathered, lemma_all_skipped, lemma_gathered_next, lemma_gathered_stops, Step,
};
use crate::object::{classified_link, link_name, Object, ObjectView};
use crate::page::{
    document_grid, HREF, joined, LINK, NOTHING, Row, rows_view, RowView, select_in_document,
    TABLE_CELL, TABLE_ROW,
};
use crate::task::{entry, entry_path, path_view, Task, tasks_view, TaskView};
use crate::text::{
    append_str, contains, from_chars, has, parse_count, parsed_count, replace_char, strings_view,
    to_chars, trim, trimmed,
};
use crate::util::{escaped, file_escape};

verus! {

/// What the address of the full thread table holds.
pub const FULL_TABLE: &'static str = "trows=800";

/// A link to a further page of the thread table.
pub const FURTHER_PAGES: &'static str = "div.ilTableNav > table > tbody > tr > td > a";

/// What the address of a forum's thread list begins with, below the
/// service root; the forum's reference id follows.
pub const THREAD_LIST_HEAD: &'static str = "ilias.php?ref_id=";

/// What the address of a forum's thread list ends with.
pub const THREAD_LIST_TAIL: &'static str =
    "&cmd=showThreads&cmdClass=ilrepositorygui&cmdNode=uf&baseClass=ilrepositorygui";

/// The number of cells of a row that lists a thread.
pub const THREAD_CELLS: usize = 6;

/// The address of the thread list of the forum `ref_id`.
pub open spec fn forum_address(ref_id: Seq<char>) -> Seq<char> {
    ILIAS_URL@ + THREAD_LIST_HEAD@ + ref_id + THREAD_LIST_TAIL@
}

/// The address of the thread list of the forum `ref_id`.
pub fn forum_url(ref_id: &str) -> (r: String)
    ensures
        r@ == forum_address(ref_id@),
{
    let mut out = to_chars(ILIAS_URL);
    append_str(&mut out, THREAD_LIST_HEAD);
    append_str(&mut out, ref_id);
    append_str(&mut out, THREAD_LIST_TAIL);
    from_chars(&out)
}

/// The address of the first link of `links` that asks for the full thread table.
pub open spec fn first_full_table(links: Seq<RowView>) -> Option<Seq<char>>
    decreases links.len(),
{
    if links.len() == 0 {
        None
    } else {
        match links[0].own.attr {
            Some(href) => if contains(href, FULL_TABLE@) {
                Some(href)
            } else {
                first_full_table(links.drop_first())
            },
            None => first_full_table(links.drop_first()),
        }
    }
}

/// The address of the full thread table, given the links of the forum page.
pub open spec fn full_table_among(links: Seq<RowView>) -> Result<Seq<char>, CrawlError> {
    match first_full_table(links) {
        Some(href) => Ok(rooted(href)),
        None => Err(CrawlError::MissingThreadTable),
    }
}

/// The address of the full thread table, given the links of the forum
/// page: that of the first link that asks for it, below the service root.
pub fn full_table_link_of(links: &Vec<Row>) -> (r: Result<String, CrawlError>)
    ensures
        text_result_view(r) == full_table_among(rows_view(links@)),
{
    let mut i: usize = 0;
    assert(rows_view(links@).skip(0) =~= rows_view(links@));
    while i < links.len()
        invariant
            i <= links.len(),
            first_full_table(rows_view(links@)) == first_full_table(
                rows_view(links@).skip(i as int),
            ),
        decreases links.len() - i,
    {
        assert(rows_view(links@).skip(i as int).drop_first() =~= rows_view(links@).skip(i + 1));
        match &links[i].own.attr {
            Some(href) => {
                if has(&to_chars(href.as_str()), FULL_TABLE) {
                    return Ok(below_root(href.as_str()));
                }
            },
            None => {},
        }
        i = i + 1;
    }
    Err(CrawlError::MissingThreadTable)
}

/// The address of the full thread table that the forum page `page` links to.
pub open spec fn full_table_of(page: Seq<char>) -> Result<Seq<char>, CrawlError> {
    match document_grid(page, LINK@, NOTHING@, NOTHING@, HREF@) {
        Some(links) => full_table_among(links),
        None => Err(CrawlError::Selector),
    }
}

/// The address of the full thread table that the forum page `page` links to.
pub fn full_table_url(page: &str) -> (r: Result<String, CrawlError>)
    ensures
        text_result_view(r) == full_table_of(page@),
{
    match select_in_document(page, LINK, NOTHING, NOTHING, HREF) {
        Some(links) => full_table_link_of(&links),
        None => Err(CrawlError::Selector),
    }
}

/// A thread that the thread table lists.
#[derive(Debug)]
pub struct ThreadRow {
    /// The name of the thread's directory.
    pub name: String,
    /// The thread.
    pub object: Object,
    /// The number of posts that the table reports.
    pub available: usize,
}

/// What the contracts see of a `ThreadRow`: the characters of its strings.
pub struct ThreadRowView {
    pub name: Seq<char>,
    pub object: ObjectView,
    pub available: usize,
}

impl View for ThreadRow {
    type V = ThreadRowView;

    open spec fn view(&self) -> ThreadRowView {
        ThreadRowView { name: self.name@, object: self.object@, available: self.available }
    }
}

/// The threads of `v`, each by its view.
pub open spec fn thread_rows_view(v: Seq<ThreadRow>) -> Seq<ThreadRowView> {
    v.map_values(|t: ThreadRow| t@)
}

/// The name of the directory of the thread with key `key` whose link reads
/// `text`: the key, `_`, and the sanitised title.
pub open spec fn thread_directory(key: Seq<char>, text: Seq<char>) -> Seq<char> {
    key + "_"@ + escaped(link_name(text))
}

/// The thread that one row of the table lists: none for a row that has
/// not six cells. The second cell holds the thread's link, which must
/// carry a thread key, the fourth the number of posts.
pub open spec fn thread_of(row: RowView) -> Step<ThreadRowView> {
    if row.cells.len() != THREAD_CELLS {
        Step::Skip
    } else if row.cells[1].inner.len() == 0 {
        Step::Fail(CrawlError::MissingThreadLink)
    } else {
        let link = row.cells[1].inner[0];
        match link.attr {
            None => Step::Fail(CrawlError::MissingReference),
            Some(href) => match classified_link(joined(link.texts), href, Seq::empty()) {
                Err(e) => Step::Fail(e),
                Ok(object) => match object.url().thr_pk {
                    None => Step::Fail(CrawlError::MissingThreadKey),
                    Some(key) => if row.cells[3].own.texts.len() == 0 {
                        Step::Fail(CrawlError::BadPostCount)
                    } else {
                        match parsed_count(trimmed(row.cells[3].own.texts[0])) {
                            None => Step::Fail(CrawlError::BadPostCount),
                            Some(n) => Step::Take(
                                ThreadRowView {
                                    name: thread_directory(key, joined(link.texts)),
                                    object,
                                    available: n,
                                },
                            ),
                        }
                    },
                },
            },
        }
    }
}

/// The threads that the rows `rows` list: those of the rows before the
/// first that fails, and that failure.
pub open spec fn threads_listed(rows: Seq<RowView>) -> Gathered<ThreadRowView> {
    gathered(rows.map_values(|r: RowView| thread_of(r)))
}

/// What one row of the thread table lists.
fn read_thread(row: &Row) -> (r: Result<Option<ThreadRow>, CrawlError>)
    ensures
        match r {
            Ok(None) => thread_of(row@) == Step::<ThreadRowView>::Skip,
            Ok(Some(t)) => thread_of(row@) == Step::Take(t@),
            Err(e) => thread_of(row@) == Step::<ThreadRowView>::Fail(e),
        },
{
    if row.cells.len() != THREAD_CELLS {
        return Ok(None);
    }
    if row.cells[1].inner.len() == 0 {
        return Err(CrawlError::MissingThreadLink);
    }
    let link = &row.cells[1].inner[0];
    let href = match &link.attr {
        None => {
            return Err(CrawlError::MissingReference);
        },
        Some(href) => href,
    };
    let text = link.text();
    let spans: Vec<String> = Vec::new();
    assert(strings_view(spans@) =~= Seq::<Seq<char>>::empty());
    let object = match Object::from_link(text.as_str(), href.as_str(), &spans) {
        Err(e) => {
            return Err(e);
        },
        Ok(object) => object,
    };
    let mut name = match &object.url().thr_pk {
        None => {
            return Err(CrawlError::MissingThreadKey);
        },
        Some(key) => to_chars(key.as_str()),
    };
    append_str(&mut name, "_");
    let title = from_chars(&trim(&replace_char(&to_chars(text.as_str()), '/', '-')));
    append_str(&mut name, file_escape(title.as_str()).as_str());
    if row.cells[3].own.texts.len() == 0 {
        return Err(CrawlError::BadPostCount);
    }
    let count = trim(&to_chars(row.cells[3].own.texts[0].as_str()));
    match parse_count(&count) {
        None => Err(CrawlError::BadPostCount),
        Some(available) => Ok(Some(ThreadRow { name: from_chars(&name), object, available })),
    }
}

/// The threads that the rows of a thread table list, given the cells of
/// each row and the links in each cell.
pub fn threads_of(rows: &Vec<Row>) -> (r: (Vec<ThreadRow>, Option<CrawlError>))
    ensures
        thread_rows_view(r.0@) == threads_listed(rows_view(rows@)).taken,
        r.1 == threads_listed(rows_view(rows@)).failure,
{
    let ghost steps = rows_view(rows@).map_values(|r: RowView| thread_of(r));
    let mut out: Vec<ThreadRow> = Vec::new();
    let mut i: usize = 0;
    assert(steps.take(0) =~= Seq::<Step<ThreadRowView>>::empty());
    while i < rows.len()
        invariant
            i <= rows.len(),
            steps == rows_view(rows@).map_values(|r: RowView| thread_of(r)),
            gathered(steps.take(i as int)).failure is None,
            gathered(steps.take(i as int)).taken =~= thread_rows_view(out@),
        decreases rows.len() - i,
    {
        proof {
            lemma_gathered_next(steps, i as int);
        }
        match read_thread(&rows[i]) {
            Ok(None) => {},
            Ok(Some(thread)) => {
                out.push(thread);
            },
            Err(e) => {
                proof {
                    lemma_gathered_stops(steps, i + 1);
                }
                return (out, Some(e));
            },
        }
        i = i + 1;
    }
    assert(steps.take(rows.len() as int) =~= steps);
    (out, None)
}

/// The threads that the thread table `page` lists.
pub open spec fn threads_in(page: Seq<char>) -> Gathered<ThreadRowView> {
    match document_grid(page, TABLE_ROW@, TABLE_CELL@, LINK@, HREF@) {
        Some(rows) => threads_listed(rows),
        None => Gathered { taken: Seq::empty(), failure: Some(CrawlError::Selector) },
    }
}

/// The threads that the thread table `page` lists, and the failure of the
/// first row that could not be read.
pub fn list_threads(page: &str) -> (r: (Vec<ThreadRow>, Option<CrawlError>))
    ensures
        thread_rows_view(r.0@) == threads_in(page@).taken,
        r.1 == threads_in(page@).failure,
{
    match select_in_document(page, TABLE_ROW, TABLE_CELL, LINK, HREF) {
        Some(rows) => threads_of(&rows),
        None => {
            let none: Vec<ThreadRow> = Vec::new();
            assert(thread_rows_view(none@) =~= Seq::<ThreadRowView>::empty());
            (none, Some(CrawlError::Selector))
        },
    }
}

/// Whether the thread table `page` goes on beyond the rows that it shows.
pub open spec fn goes_on(page: Seq<char>) -> bool {
    match document_grid(page, FURTHER_PAGES@, NOTHING@, NOTHING@, HREF@) {
        Some(links) => links.len() > 0,
        None => false,
    }
}

/// Whether the thread table `page` has further pages, which are not read.
pub fn has_further_pages(page: &str) -> (b: bool)
    ensures
        b == goes_on(page@),
{
    match select_in_document(page, FURTHER_PAGES, NOTHING, NOTHING, HREF) {
        Some(links) => links.len() > 0,
        None => false,
    }
}

/// The number of posts saved of the thread at position `i`; none where
/// nothing was counted.
pub open spec fn saved_at(saved: Seq<usize>, i: int) -> usize {
    if 0 <= i < saved.len() {
        saved[i]
    } else {
        0
    }
}

/// Whether a thread is fetched: when it has more posts than are saved, or
/// when everything is fetched anew.
pub open spec fn wanted(available: usize, saved: usize, force: bool) -> bool {
    available > saved || force
}

/// The task of the thread `thread` of the forum at `parent`.
pub open spec fn thread_task(parent: Seq<Seq<char>>, thread: ThreadRowView) -> TaskView {
    TaskView { path: entry_path(parent, thread.name), object: thread.object }
}

/// For each thread its task, where the thread is fetched.
pub open spec fn wanted_steps(
    parent: Seq<Seq<char>>,
    threads: Seq<ThreadRowView>,
    saved: Seq<usize>,
    force: bool,
) -> Seq<Step<TaskView>> {
    Seq::new(
        threads.len(),
        |i: int|
            if wanted(threads[i].available, saved_at(saved, i), force) {
                Step::Take(thread_task(parent, threads[i]))
            } else {
                Step::Skip
            },
    )
}

/// The tasks of the threads that are fetched, in the order of the threads.
pub open spec fn threads_wanted(
    parent: Seq<Seq<char>>,
    threads: Seq<ThreadRowView>,
    saved: Seq<usize>,
    force: bool,
) -> Seq<TaskView> {
    gathered(wanted_steps(parent, threads, saved, force)).taken
}

/// The tasks of the threads of the forum at `parent` that are fetched,
/// given for each thread the number of its posts that are saved.
pub fn threads_to_fetch(
    parent: &Vec<String>,
    threads: Vec<ThreadRow>,
    saved: &Vec<usize>,
    force: bool,
) -> (r: Vec<Task>)
    ensures
        tasks_view(r@) == threads_wanted(
            path_view(parent@),
            thread_rows_view(threads@),
            saved@,
            force,
        ),
{
    let ghost all = thread_rows_view(threads@);
    let ghost steps = wanted_steps(path_view(parent@), all, saved@, force);
    assert(all.len() == threads.len());
    let mut out: Vec<Task> = Vec::new();
    let mut position: usize = 0;
    assert(steps.take(0) =~= Seq::<Step<TaskView>>::empty());
    for thread in it: threads
        invariant
            thread_rows_view(it.seq()) == all,
            position == it.index(),
            all.len() <= usize::MAX,
            steps == wanted_steps(path_view(parent@), all, saved@, force),
            gathered(steps.take(it.index())).failure is None,
            gathered(steps.take(it.index())).taken =~= tasks_view(out@),
    {
        let ghost i = it.index();
        proof {
            lemma_gathered_next(steps, i);
        }
        assert(thread@ == all[i]);
        let have: usize = if position < saved.len() {
            saved[position]
        } else {
            0
        };
        if thread.available > have || force {
            let path = entry(parent, thread.name);
            out.push(Task { path, object: thread.object });
        }
        position = position + 1;
    }
    assert(steps.take(all.len() as int) =~= steps);
    out
}

/// With nothing forced, a forum none of whose threads has more posts than
/// are saved gives no task.
pub proof fn unchanged_forum_gives_no_task(
    parent: Seq<Seq<char>>,
    threads: Seq<ThreadRowView>,
    saved: Seq<usize>,
)
    requires
        forall|i: int| 0 <= i < threads.len() ==> threads[i].available <= saved_at(saved, i),
    ensures
        threads_wanted(parent, threads, saved, false).len() == 0,
{
    lemma_all_skipped(wanted_steps(parent, threads, saved, false));
}

} // verus!
