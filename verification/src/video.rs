//! Video containers and the player page of a video.

use vstd::prelude::*;
use crate::address::ILIAS_URL;
use crate::error::{CrawlError, text_result_view};
use crate::gather::{Gathered, gathered, lemma_gathered_next, lemma_gathered_stops, Step};
use crate::object::{Object, ObjectView};
use crate::page::{
    cells_at, CellView, fragment_grid, HREF, NOTHING, Row, rows_view, RowView, select_in_fragment,
    TABLE_CELL, TABLE_ROW,
};
use crate::pattern::{capture_of, first_capture, json_string, json_string_of};
use crate::reference::{raw_descriptor, URL};
use crate::task::{entry, entry_path, path_view, Task, tasks_view, TaskView};
use crate::text::{
    append_str, find, find_in, from_chars, lemma_find_from, slice, starts_with, to_chars, trim,
    trimmed,
};

verus! {

/// The script that starts the player, with the player's data as its group.
pub const PLAYER: &'static str =
    r"(?m)<script>\s+xoctPaellaPlayer\.init\(([\s\S]+)\)\s+</script>";

/// Where the player's data names the first MP4 source of the first stream.
pub const SOURCE: &'static str = "/streams/0/sources/mp4/0/src";

/// What the address of a container's table of videos begins with, below
/// the service root; the container's reference id follows.
pub const VIDEO_LIST_HEAD: &'static str = "ilias.php?ref_id=";

/// What the address of a container's table of videos ends with.
pub const VIDEO_LIST_TAIL: &'static str =
    "&cmdClass=xocteventgui&cmdNode=n7:mz:14p&baseClass=ilObjPluginDispatchGUI&lang=de&limit=20\
&cmd=asyncGetTableGUI&cmdMode=asynch";

/// What the name of a video's file ends with.
pub const VIDEO_SUFFIX: &'static str = ".mp4";

/// A link that opens in a new tab.
pub const NEW_TAB_LINK: &'static str = "a[target=\"_blank\"]";

/// The first argument of the player's initialisation `captured`: what
/// stands before the first comma at the end of a line, without the
/// whitespace around it.
pub open spec fn first_argument(captured: Seq<char>) -> Seq<char> {
    trimmed(
        match find(captured, ",\n"@) {
            Some(i) => captured.take(i),
            None => captured,
        },
    )
}

/// The first argument of the player's initialisation.
pub fn player_data(captured: &str) -> (r: String)
    ensures
        r@ == first_argument(captured@),
{
    let chars = to_chars(captured);
    let mark = to_chars(",\n");
    let head = match find_in(&chars, &mark) {
        Some(i) => {
            proof {
                lemma_find_from(chars@, mark@, 0);
            }
            slice(&chars, 0, i)
        },
        None => chars,
    };
    from_chars(&trim(&head))
}

/// The address of the video that the player page `page` plays.
pub open spec fn video_source_of(page: Seq<char>) -> Result<Seq<char>, CrawlError> {
    match capture_of(PLAYER@, page, 1) {
        None => Err(CrawlError::Pattern),
        Some(None) => Err(CrawlError::MissingPlayerScript),
        Some(Some(captured)) => match json_string_of(first_argument(captured), SOURCE@) {
            None => Err(CrawlError::MalformedPlayerData),
            Some(None) => Err(CrawlError::MissingVideoSource),
            Some(Some(source)) => Ok(source),
        },
    }
}

/// The address of the video that the player page `page` plays: the first
/// MP4 source that the player's data names.
pub fn video_source(page: &str) -> (r: Result<String, CrawlError>)
    ensures
        text_result_view(r) == video_source_of(page@),
{
    match first_capture(PLAYER, page, 1) {
        None => Err(CrawlError::Pattern),
        Some(None) => Err(CrawlError::MissingPlayerScript),
        Some(Some(captured)) => {
            let data = player_data(captured.as_str());
            match json_string(data.as_str(), SOURCE) {
                None => Err(CrawlError::MalformedPlayerData),
                Some(None) => Err(CrawlError::MissingVideoSource),
                Some(Some(source)) => Ok(source),
            }
        },
    }
}

/// The address of the table of videos of the container `ref_id`.
pub open spec fn video_list_address(ref_id: Seq<char>) -> Seq<char> {
    ILIAS_URL@ + VIDEO_LIST_HEAD@ + ref_id + VIDEO_LIST_TAIL@
}

/// The address of the table of videos of the container `ref_id`.
pub fn video_list_url(ref_id: &str) -> (r: String)
    ensures
        r@ == video_list_address(ref_id@),
{
    let mut out = to_chars(ILIAS_URL);
    append_str(&mut out, VIDEO_LIST_HEAD);
    append_str(&mut out, ref_id);
    append_str(&mut out, VIDEO_LIST_TAIL);
    from_chars(&out)
}

/// The task of the video that one table row lists: none for a row without
/// a new-tab link or a third cell, or whose third cell holds markup. The
/// title is the third cell's content, and the link is taken as it stands.
pub open spec fn video_of(parent: Seq<Seq<char>>, link: RowView, cells: Seq<CellView>) -> Step<
    TaskView,
> {
    if link.cells.len() == 0 || cells.len() < 3 {
        Step::Skip
    } else {
        let title = trimmed(cells[2].own.inner_html);
        if "<div"@.is_prefix_of(title) {
            Step::Skip
        } else {
            match link.cells[0].own.attr {
                None => Step::Fail(CrawlError::MissingReference),
                Some(href) => Step::Take(
                    TaskView {
                        path: entry_path(parent, title + VIDEO_SUFFIX@),
                        object: ObjectView::Video { url: raw_descriptor(href) },
                    },
                ),
            }
        }
    }
}

/// For each row the task of the video that it lists.
pub open spec fn video_steps(
    parent: Seq<Seq<char>>,
    links: Seq<RowView>,
    cells: Seq<RowView>,
) -> Seq<Step<TaskView>> {
    Seq::new(links.len(), |i: int| video_of(parent, links[i], cells_at(cells, i)))
}

/// The tasks of the videos that the rows list, given the new-tab links and
/// the cells found in each row: those of the rows before the first that
/// fails, and that failure.
pub open spec fn videos_listed(
    parent: Seq<Seq<char>>,
    links: Seq<RowView>,
    cells: Seq<RowView>,
) -> Gathered<TaskView> {
    gathered(video_steps(parent, links, cells))
}

/// The tasks of the videos that a container's table lists, given the
/// new-tab links and the cells found in each row.
pub fn videos_of(parent: &Vec<String>, links: &Vec<Row>, cells: &Vec<Row>) -> (r: (
    Vec<Task>,
    Option<CrawlError>,
))
    ensures
        tasks_view(r.0@) == videos_listed(
            path_view(parent@),
            rows_view(links@),
            rows_view(cells@),
        ).taken,
        r.1 == videos_listed(path_view(parent@), rows_view(links@), rows_view(cells@)).failure,
{
    let ghost steps = video_steps(path_view(parent@), rows_view(links@), rows_view(cells@));
    let mut out: Vec<Task> = Vec::new();
    let mut i: usize = 0;
    assert(steps.take(0) =~= Seq::<Step<TaskView>>::empty());
    while i < links.len()
        invariant
            i <= links.len(),
            steps == video_steps(path_view(parent@), rows_view(links@), rows_view(cells@)),
            gathered(steps.take(i as int)).failure is None,
            gathered(steps.take(i as int)).taken =~= tasks_view(out@),
        decreases links.len() - i,
    {
        proof {
            lemma_gathered_next(steps, i as int);
        }
        let link = &links[i];
        if link.cells.len() > 0 && i < cells.len() && cells[i].cells.len() >= 3 {
            let title = trim(&to_chars(cells[i].cells[2].own.inner_html.as_str()));
            if !starts_with(&title, "<div") {
                match &link.cells[0].own.attr {
                    None => {
                        proof {
                            lemma_gathered_stops(steps, i + 1);
                        }
                        return (out, Some(CrawlError::MissingReference));
                    },
                    Some(href) => {
                        let mut name = title;
                        append_str(&mut name, VIDEO_SUFFIX);
                        let path = entry(parent, from_chars(&name));
                        let object = Object::Video { url: URL::raw(href.clone()) };
                        out.push(Task { path, object });
                    },
                }
            }
        }
        i = i + 1;
    }
    assert(steps.take(links.len() as int) =~= steps);
    (out, None)
}

/// The tasks of the videos that the table `page` of a container lists.
pub open spec fn videos_in(parent: Seq<Seq<char>>, page: Seq<char>) -> Gathered<TaskView> {
    match (
        fragment_grid(page, TABLE_ROW@, NEW_TAB_LINK@, NOTHING@, HREF@),
        fragment_grid(page, TABLE_ROW@, TABLE_CELL@, NOTHING@, HREF@),
    ) {
        (Some(links), Some(cells)) => videos_listed(parent, links, cells),
        _ => Gathered { taken: Seq::empty(), failure: Some(CrawlError::Selector) },
    }
}

/// The tasks of the videos that the table `page` of the container at
/// `parent` lists, each at `<title>.mp4` below `parent`, and the failure
/// of the first row that could not be read.
pub fn list_videos(parent: &Vec<String>, page: &str) -> (r: (Vec<Task>, Option<CrawlError>))
    ensures
        tasks_view(r.0@) == videos_in(path_view(parent@), page@).taken,
        r.1 == videos_in(path_view(parent@), page@).failure,
{
    let links = select_in_fragment(page, TABLE_ROW, NEW_TAB_LINK, NOTHING, HREF);
    let cells = select_in_fragment(page, TABLE_ROW, TABLE_CELL, NOTHING, HREF);
    match (links, cells) {
        (Some(links), Some(cells)) => videos_of(parent, &links, &cells),
        _ => {
            let none: Vec<Task> = Vec::new();
            assert(tasks_view(none@) =~= Seq::<TaskView>::empty());
            (none, Some(CrawlError::Selector))
        },
    }
}

} // verus!
