//! The content handlers, one step at a time.
//!
//! A handler works on one task. It cannot fetch a page or look at the
//! disk, so it asks: each step takes the answer to the last request and
//! gives the next request, until the task is done. Who drives the handler
//! performs the requests and reports the answers.

use vstd::prelude::*;
use crate::address::{below_root, resolve, resolved, rooted};
use crate::course::{asks_to_join, command_node, command_node_of, not_a_member};
use crate::error::CrawlError;
use crate::forum::{
    saved_at, unchanged_forum_gives_no_task,
    forum_address, forum_url, full_table_of, full_table_url, goes_on, has_further_pages,
    list_threads, thread_rows_view, ThreadRow, ThreadRowView, threads_in, threads_to_fetch,
    threads_wanted,
};
use crate::listing::{
    content_of, content_tree_url, get_course_content, get_course_content_tree, tree_address,
    tree_content_of,
};
use crate::object::{Object, ObjectView};
use crate::posts::{
    following_page, list_posts, next_page, Pagination, PaginationView, PostFile, PostFileView,
    posts_in, posts_view,
};
use crate::reference::{URL, UrlView};
use crate::task::{all_named, child_tasks, copy_path, path_view, Task, tasks_for, tasks_view, TaskView};
use crate::text::strings_view;
use crate::video::{
    list_videos, video_list_address, video_list_url, video_source, video_source_of, videos_in,
};

verus! {

/// What the user asked for.
#[derive(Debug, Clone, Copy)]
pub struct Options {
    /// Files are not downloaded.
    pub skip_files: bool,
    /// Videos are not downloaded.
    pub no_videos: bool,
    /// Forums are downloaded.
    pub forum: bool,
    /// What is there already is downloaded anew.
    pub force: bool,
    /// Courses are listed through their content tree.
    pub content_tree: bool,
    /// How much is printed.
    pub verbose: usize,
    /// The job limit.
    pub jobs: usize,
}

/// Why a handler stops without doing anything.
#[derive(Debug, Clone, Copy, PartialEq, Eq, Structural)]
pub enum Reason {
    /// The options leave this kind of node out.
    Disabled,
    /// The destination exists already.
    Present,
    /// The viewer is no member of the course.
    NotMember,
    /// Nodes of this kind are not followed.
    Ignored,
}

/// How far a handler has come: which answer it waits for.
#[derive(Debug)]
pub enum Stage {
    /// Nothing was asked yet.
    Start,
    /// Whether the destination exists.
    Exists,
    /// The listing page of a course or folder.
    Listing,
    /// The page of a course, for its command node.
    CoursePage,
    /// The content tree of the course whose page is kept here.
    Tree { course_page: String },
    /// The table of videos of a container.
    VideoList,
    /// The player page of a video.
    PlayerPage,
    /// The page of a forum.
    ForumPage,
    /// The full thread table of a forum.
    ThreadTable,
    /// How many posts of each listed thread are saved.
    Saved { threads: Vec<ThreadRow>, failure: Option<CrawlError>, truncated: bool },
    /// A page of a thread.
    ThreadPage,
    /// The handler is done.
    Done,
}

/// What the contracts see of a `Stage`: the characters of its strings.
pub enum StageView {
    Start,
    Exists,
    Listing,
    CoursePage,
    Tree { course_page: Seq<char> },
    VideoList,
    PlayerPage,
    ForumPage,
    ThreadTable,
    Saved { threads: Seq<ThreadRowView>, failure: Option<CrawlError>, truncated: bool },
    ThreadPage,
    Done,
}

impl View for Stage {
    type V = StageView;

    open spec fn view(&self) -> StageView {
        match self {
            Stage::Start => StageView::Start,
            Stage::Exists => StageView::Exists,
            Stage::Listing => StageView::Listing,
            Stage::CoursePage => StageView::CoursePage,
            Stage::Tree { course_page } => StageView::Tree { course_page: course_page@ },
            Stage::VideoList => StageView::VideoList,
            Stage::PlayerPage => StageView::PlayerPage,
            Stage::ForumPage => StageView::ForumPage,
            Stage::ThreadTable => StageView::ThreadTable,
            Stage::Saved { threads, failure, truncated } => StageView::Saved {
                threads: thread_rows_view(threads@),
                failure: *failure,
                truncated: *truncated,
            },
            Stage::ThreadPage => StageView::ThreadPage,
            Stage::Done => StageView::Done,
        }
    }
}

/// The answer to a handler's request.
#[derive(Debug)]
pub enum Event {
    /// The task was dispatched.
    Begin,
    /// Whether the destination exists.
    Exists(bool),
    /// The page that was asked for.
    Page(String),
    /// The page that was asked for could not be fetched.
    Unavailable,
    /// For each directory that was named, the number of its entries; zero
    /// for one that could not be read.
    Saved(Vec<usize>),
}

/// What the contracts see of an `Event`: the characters of its strings.
pub enum EventView {
    Begin,
    Exists(bool),
    Page(Seq<char>),
    Unavailable,
    Saved(Seq<usize>),
}

impl View for Event {
    type V = EventView;

    open spec fn view(&self) -> EventView {
        match self {
            Event::Begin => EventView::Begin,
            Event::Exists(b) => EventView::Exists(*b),
            Event::Page(p) => EventView::Page(p@),
            Event::Unavailable => EventView::Unavailable,
            Event::Saved(counts) => EventView::Saved(counts@),
        }
    }
}

/// What a handler asks for, or how it ends.
#[derive(Debug)]
pub enum Action {
    /// The handler ends without doing anything.
    Stop(Reason),
    /// The handler fails.
    Fail(CrawlError),
    /// The handler fails with the failure of the fetch.
    Abort,
    /// Does the destination exist?
    AskExists,
    /// Fetch the page at `url`; before that, make the destination a
    /// directory where `make_dir` is set. `fallback` tells that the
    /// content tree failed and the listing is fetched in its place.
    Fetch { url: String, make_dir: bool, fallback: bool },
    /// Stream what is at `url` to the destination; the handler ends.
    Download { url: String },
    /// Count the entries of each of the directories `names` below the
    /// destination.
    CountSaved { names: Vec<String> },
    /// Submit `tasks`; the handler ends, with `failure` if there is one.
    /// `truncated` tells that the thread table had more rows than it showed.
    Spawn { tasks: Vec<Task>, failure: Option<CrawlError>, truncated: bool },
    /// Write each of `posts` to its file below the destination, then
    /// submit `tasks`; the handler ends, with `failure` if there is one.
    /// `no_links` tells that no link was there to tell whether the thread
    /// goes on.
    Save { posts: Vec<PostFile>, tasks: Vec<Task>, failure: Option<CrawlError>, no_links: bool },
}

/// What the contracts see of an `Action`: the characters of its strings.
pub enum ActionView {
    Stop(Reason),
    Fail(CrawlError),
    Abort,
    AskExists,
    Fetch { url: Seq<char>, make_dir: bool, fallback: bool },
    Download { url: Seq<char> },
    CountSaved { names: Seq<Seq<char>> },
    Spawn { tasks: Seq<TaskView>, failure: Option<CrawlError>, truncated: bool },
    Save {
        posts: Seq<PostFileView>,
        tasks: Seq<TaskView>,
        failure: Option<CrawlError>,
        no_links: bool,
    },
}

impl View for Action {
    type V = ActionView;

    open spec fn view(&self) -> ActionView {
        match self {
            Action::Stop(r) => ActionView::Stop(*r),
            Action::Fail(e) => ActionView::Fail(*e),
            Action::Abort => ActionView::Abort,
            Action::AskExists => ActionView::AskExists,
            Action::Fetch { url, make_dir, fallback } => ActionView::Fetch {
                url: url@,
                make_dir: *make_dir,
                fallback: *fallback,
            },
            Action::Download { url } => ActionView::Download { url: url@ },
            Action::CountSaved { names } => ActionView::CountSaved { names: strings_view(names@) },
            Action::Spawn { tasks, failure, truncated } => ActionView::Spawn {
                tasks: tasks_view(tasks@),
                failure: *failure,
                truncated: *truncated,
            },
            Action::Save { posts, tasks, failure, no_links } => ActionView::Save {
                posts: posts_view(posts@),
                tasks: tasks_view(tasks@),
                failure: *failure,
                no_links: *no_links,
            },
        }
    }
}

/// One step of a handler: what it asks for, and where it then stands.
#[derive(Debug)]
pub struct Move {
    pub stage: Stage,
    pub action: Action,
}

/// What the contracts see of a `Move`: the characters of its strings.
pub struct MoveView {
    pub stage: StageView,
    pub action: ActionView,
}

impl View for Move {
    type V = MoveView;

    open spec fn view(&self) -> MoveView {
        MoveView { stage: self.stage@, action: self.action@ }
    }
}

/// The handler ends with `action`.
pub open spec fn ending(action: ActionView) -> MoveView {
    MoveView { stage: StageView::Done, action }
}

/// The handler asks for the page at `url` and waits for it at `stage`.
pub open spec fn fetching(stage: StageView, url: Seq<char>, make_dir: bool) -> MoveView {
    MoveView { stage, action: ActionView::Fetch { url, make_dir, fallback: false } }
}

/// The answer is none that the handler waits for.
pub open spec fn out_of_turn() -> MoveView {
    ending(ActionView::Fail(CrawlError::OutOfTurn))
}

/// The children `items` of the node at `path` are submitted.
pub open spec fn spawning(path: Seq<Seq<char>>, items: Seq<ObjectView>) -> MoveView {
    ending(
        ActionView::Spawn { tasks: child_tasks(path, items), failure: None, truncated: false },
    )
}

/// A course or folder whose listing page was asked for: each item of the
/// page becomes a child task.
pub open spec fn listing_step(path: Seq<Seq<char>>, event: EventView) -> MoveView {
    match event {
        EventView::Page(page) => match content_of(page) {
            Ok(items) => spawning(path, items),
            Err(e) => ending(ActionView::Fail(e)),
        },
        EventView::Unavailable => ending(ActionView::Abort),
        _ => out_of_turn(),
    }
}

/// A folder: its directory is made and its listing fetched.
pub open spec fn folder_step(
    path: Seq<Seq<char>>,
    url: UrlView,
    stage: StageView,
    event: EventView,
) -> MoveView {
    match (stage, event) {
        (StageView::Start, EventView::Begin) => fetching(
            StageView::Listing,
            resolved(url.url),
            true,
        ),
        (StageView::Listing, _) => listing_step(path, event),
        _ => out_of_turn(),
    }
}

/// A course whose content tree could not be had: nothing where the course
/// page asks the viewer to join, else the listing in place of the tree.
pub open spec fn falling_back(course_page: Seq<char>, url: UrlView) -> MoveView {
    if asks_to_join(course_page) {
        ending(ActionView::Stop(Reason::NotMember))
    } else {
        MoveView {
            stage: StageView::Listing,
            action: ActionView::Fetch { url: resolved(url.url), make_dir: false, fallback: true },
        }
    }
}

/// A course: as a folder, or, where the options ask for the content tree,
/// through the course page and its command node to the tree.
pub open spec fn course_step(
    options: Options,
    path: Seq<Seq<char>>,
    url: UrlView,
    stage: StageView,
    event: EventView,
) -> MoveView {
    match (stage, event) {
        (StageView::Start, EventView::Begin) => fetching(
            if options.content_tree {
                StageView::CoursePage
            } else {
                StageView::Listing
            },
            resolved(url.url),
            true,
        ),
        (StageView::CoursePage, EventView::Page(page)) => match command_node_of(page) {
            Err(e) => ending(ActionView::Fail(e)),
            Ok(node) => fetching(
                StageView::Tree { course_page: page },
                tree_address(url.ref_id, node),
                false,
            ),
        },
        (StageView::CoursePage, EventView::Unavailable) => ending(ActionView::Abort),
        (StageView::Tree { course_page }, EventView::Page(page)) => match tree_content_of(page) {
            Ok(items) => spawning(path, items),
            Err(_) => falling_back(course_page, url),
        },
        (StageView::Tree { course_page }, EventView::Unavailable) => falling_back(
            course_page,
            url,
        ),
        (StageView::Listing, _) => listing_step(path, event),
        _ => out_of_turn(),
    }
}

/// A file: downloaded, unless files are left out, or the destination
/// exists and nothing is forced.
pub open spec fn file_step(
    options: Options,
    url: UrlView,
    stage: StageView,
    event: EventView,
) -> MoveView {
    match (stage, event) {
        (StageView::Start, EventView::Begin) => if options.skip_files {
            ending(ActionView::Stop(Reason::Disabled))
        } else if options.force {
            ending(ActionView::Download { url: resolved(url.url) })
        } else {
            MoveView { stage: StageView::Exists, action: ActionView::AskExists }
        },
        (StageView::Exists, EventView::Exists(present)) => if present {
            ending(ActionView::Stop(Reason::Present))
        } else {
            ending(ActionView::Download { url: resolved(url.url) })
        },
        _ => out_of_turn(),
    }
}

/// A video: its player page is fetched and its first MP4 source
/// downloaded, unless videos are left out, or the destination exists and
/// nothing is forced.
pub open spec fn video_step(
    options: Options,
    url: UrlView,
    stage: StageView,
    event: EventView,
) -> MoveView {
    match (stage, event) {
        (StageView::Start, EventView::Begin) => if options.no_videos {
            ending(ActionView::Stop(Reason::Disabled))
        } else if options.force {
            fetching(StageView::PlayerPage, rooted(url.url), false)
        } else {
            MoveView { stage: StageView::Exists, action: ActionView::AskExists }
        },
        (StageView::Exists, EventView::Exists(present)) => if present {
            ending(ActionView::Stop(Reason::Present))
        } else {
            fetching(StageView::PlayerPage, rooted(url.url), false)
        },
        (StageView::PlayerPage, EventView::Page(page)) => match video_source_of(page) {
            Ok(source) => ending(ActionView::Download { url: resolved(source) }),
            Err(e) => ending(ActionView::Fail(e)),
        },
        (StageView::PlayerPage, EventView::Unavailable) => ending(ActionView::Abort),
        _ => out_of_turn(),
    }
}

/// A container of videos: each video that its table lists becomes a task,
/// unless videos are left out.
pub open spec fn container_step(
    options: Options,
    path: Seq<Seq<char>>,
    url: UrlView,
    stage: StageView,
    event: EventView,
) -> MoveView {
    match (stage, event) {
        (StageView::Start, EventView::Begin) => if options.no_videos {
            ending(ActionView::Stop(Reason::Disabled))
        } else {
            fetching(StageView::VideoList, video_list_address(url.ref_id), true)
        },
        (StageView::VideoList, EventView::Page(page)) => ending(
            ActionView::Spawn {
                tasks: videos_in(path, page).taken,
                failure: videos_in(path, page).failure,
                truncated: false,
            },
        ),
        (StageView::VideoList, EventView::Unavailable) => ending(ActionView::Abort),
        _ => out_of_turn(),
    }
}

/// The names of the directories of `threads`.
pub open spec fn directory_names(threads: Seq<ThreadRowView>) -> Seq<Seq<char>> {
    threads.map_values(|t: ThreadRowView| t.name)
}

/// A forum, where the options ask for forums: the forum page leads to the
/// full thread table; each thread that the table lists and that has more
/// posts than are saved becomes a task.
pub open spec fn forum_step(
    options: Options,
    path: Seq<Seq<char>>,
    url: UrlView,
    stage: StageView,
    event: EventView,
) -> MoveView {
    match (stage, event) {
        (StageView::Start, EventView::Begin) => if !options.forum {
            ending(ActionView::Stop(Reason::Disabled))
        } else {
            fetching(StageView::ForumPage, forum_address(url.ref_id), true)
        },
        (StageView::ForumPage, EventView::Page(page)) => match full_table_of(page) {
            Err(e) => ending(ActionView::Fail(e)),
            Ok(address) => fetching(StageView::ThreadTable, address, false),
        },
        (StageView::ThreadTable, EventView::Page(page)) => MoveView {
            stage: StageView::Saved {
                threads: threads_in(page).taken,
                failure: threads_in(page).failure,
                truncated: threads_in(page).failure is None && goes_on(page),
            },
            action: ActionView::CountSaved { names: directory_names(threads_in(page).taken) },
        },
        (StageView::Saved { threads, failure, truncated }, EventView::Saved(counts)) => ending(
            ActionView::Spawn {
                tasks: threads_wanted(path, threads, counts, options.force),
                failure,
                truncated,
            },
        ),
        (StageView::ForumPage, EventView::Unavailable) => ending(ActionView::Abort),
        (StageView::ThreadTable, EventView::Unavailable) => ending(ActionView::Abort),
        _ => out_of_turn(),
    }
}

/// What a page of a thread gives: its posts, and after them the task of
/// the page that follows, at the same path.
pub open spec fn thread_page(path: Seq<Seq<char>>, page: Seq<char>) -> ActionView {
    let posts = posts_in(page);
    if posts.failure is Some {
        ActionView::Save {
            posts: posts.taken,
            tasks: Seq::empty(),
            failure: posts.failure,
            no_links: false,
        }
    } else {
        match following_page(page) {
            PaginationView::Last => ActionView::Save {
                posts: posts.taken,
                tasks: Seq::empty(),
                failure: None,
                no_links: false,
            },
            PaginationView::NoLinks => ActionView::Save {
                posts: posts.taken,
                tasks: Seq::empty(),
                failure: None,
                no_links: true,
            },
            PaginationView::Next(object) => ActionView::Save {
                posts: posts.taken,
                tasks: seq![TaskView { path, object }],
                failure: None,
                no_links: false,
            },
            PaginationView::Broken(e) => ActionView::Save {
                posts: posts.taken,
                tasks: Seq::empty(),
                failure: Some(e),
                no_links: false,
            },
        }
    }
}

/// A thread, where the options ask for forums: its page is fetched, its
/// posts are saved, and the page that follows becomes a task.
pub open spec fn thread_step(
    options: Options,
    path: Seq<Seq<char>>,
    url: UrlView,
    stage: StageView,
    event: EventView,
) -> MoveView {
    match (stage, event) {
        (StageView::Start, EventView::Begin) => if !options.forum {
            ending(ActionView::Stop(Reason::Disabled))
        } else {
            fetching(StageView::ThreadPage, rooted(url.url), true)
        },
        (StageView::ThreadPage, EventView::Page(page)) => ending(thread_page(path, page)),
        (StageView::ThreadPage, EventView::Unavailable) => ending(ActionView::Abort),
        _ => out_of_turn(),
    }
}

/// A node that is not followed.
pub open spec fn ignored_step(stage: StageView, event: EventView) -> MoveView {
    match (stage, event) {
        (StageView::Start, EventView::Begin) => ending(ActionView::Stop(Reason::Ignored)),
        _ => out_of_turn(),
    }
}

/// The step that the handler of `task` takes from `stage` on `event`.
pub open spec fn advanced(
    options: Options,
    task: TaskView,
    stage: StageView,
    event: EventView,
) -> MoveView {
    match task.object {
        ObjectView::Course { url, .. } => course_step(options, task.path, url, stage, event),
        ObjectView::Folder { url, .. } => folder_step(task.path, url, stage, event),
        ObjectView::File { url, .. } => file_step(options, url, stage, event),
        ObjectView::PluginDispatch { url, .. } => container_step(
            options,
            task.path,
            url,
            stage,
            event,
        ),
        ObjectView::Video { url } => video_step(options, url, stage, event),
        ObjectView::Forum { url, .. } => forum_step(options, task.path, url, stage, event),
        ObjectView::Thread { url } => thread_step(options, task.path, url, stage, event),
        _ => ignored_step(stage, event),
    }
}

/// With nothing forced, the handler of a file or video never begins by
/// fetching: it stops, or asks whether the destination exists. Told that
/// it does, it stops without a download.
pub proof fn present_destination_is_kept(options: Options, task: TaskView)
    requires
        !options.force,
        task.object is File || task.object is Video,
    ensures
        advanced(options, task, StageView::Start, EventView::Begin).action is Stop || advanced(
            options,
            task,
            StageView::Start,
            EventView::Begin,
        ) == (MoveView { stage: StageView::Exists, action: ActionView::AskExists }),
        advanced(options, task, StageView::Exists, EventView::Exists(true)) == ending(
            ActionView::Stop(Reason::Present),
        ),
{
}

/// With nothing forced, the handler of a forum none of whose threads has
/// more posts than are saved submits no task.
pub proof fn unchanged_forum_is_not_fetched(
    options: Options,
    task: TaskView,
    threads: Seq<ThreadRowView>,
    failure: Option<CrawlError>,
    truncated: bool,
    saved: Seq<usize>,
)
    requires
        !options.force,
        task.object is Forum,
        forall|i: int|
            0 <= i < threads.len() ==> threads[i].available <= saved_at(saved, i),
    ensures
        advanced(
            options,
            task,
            StageView::Saved { threads, failure, truncated },
            EventView::Saved(saved),
        ) == ending(ActionView::Spawn { tasks: Seq::empty(), failure, truncated }),
{
    unchanged_forum_gives_no_task(task.path, threads, saved);
    assert(threads_wanted(task.path, threads, saved, false) =~= Seq::<TaskView>::empty());
}

/// With everything forced, the handler of a file downloads it without
/// asking whether it is there.
pub proof fn forced_file_is_fetched(options: Options, task: TaskView)
    requires
        options.force,
        !options.skip_files,
        task.object is File,
    ensures
        advanced(options, task, StageView::Start, EventView::Begin) == ending(
            ActionView::Download { url: resolved(task.object.url().url) },
        ),
{
}

fn end(action: Action) -> (m: Move)
    ensures
        m@ == ending(action@),
{
    Move { stage: Stage::Done, action }
}

fn fetch(stage: Stage, url: String, make_dir: bool) -> (m: Move)
    ensures
        m@ == fetching(stage@, url@, make_dir),
{
    Move { stage, action: Action::Fetch { url, make_dir, fallback: false } }
}

fn wrong_turn() -> (m: Move)
    ensures
        m@ == out_of_turn(),
{
    end(Action::Fail(CrawlError::OutOfTurn))
}

fn spawn(path: &Vec<String>, items: Vec<Object>) -> (m: Move)
    requires
        all_named(items@.map_values(|o: Object| o@)),
    ensures
        m@ == spawning(path_view(path@), items@.map_values(|o: Object| o@)),
{
    end(Action::Spawn { tasks: tasks_for(path, items), failure: None, truncated: false })
}

fn advance_listing(path: &Vec<String>, event: Event) -> (m: Move)
    ensures
        m@ == listing_step(path_view(path@), event@),
{
    match event {
        Event::Page(page) => match get_course_content(page.as_str()) {
            Ok(items) => spawn(path, items),
            Err(e) => end(Action::Fail(e)),
        },
        Event::Unavailable => end(Action::Abort),
        _ => wrong_turn(),
    }
}

fn advance_folder(path: &Vec<String>, url: &URL, stage: Stage, event: Event) -> (m: Move)
    ensures
        m@ == folder_step(path_view(path@), url@, stage@, event@),
{
    match (stage, event) {
        (Stage::Start, Event::Begin) => fetch(Stage::Listing, resolve(url.url.as_str()), true),
        (Stage::Listing, event) => advance_listing(path, event),
        _ => wrong_turn(),
    }
}

fn fall_back(course_page: &str, url: &URL) -> (m: Move)
    ensures
        m@ == falling_back(course_page@, url@),
{
    if not_a_member(course_page) {
        end(Action::Stop(Reason::NotMember))
    } else {
        Move {
            stage: Stage::Listing,
            action: Action::Fetch {
                url: resolve(url.url.as_str()),
                make_dir: false,
                fallback: true,
            },
        }
    }
}

fn advance_course(
    options: &Options,
    path: &Vec<String>,
    url: &URL,
    stage: Stage,
    event: Event,
) -> (m: Move)
    ensures
        m@ == course_step(*options, path_view(path@), url@, stage@, event@),
{
    match (stage, event) {
        (Stage::Start, Event::Begin) => {
            let next = if options.content_tree {
                Stage::CoursePage
            } else {
                Stage::Listing
            };
            fetch(next, resolve(url.url.as_str()), true)
        },
        (Stage::CoursePage, Event::Page(page)) => match command_node(page.as_str()) {
            Err(e) => end(Action::Fail(e)),
            Ok(node) => {
                let address = content_tree_url(url.ref_id.as_str(), node.as_str());
                fetch(Stage::Tree { course_page: page }, address, false)
            },
        },
        (Stage::CoursePage, Event::Unavailable) => end(Action::Abort),
        (Stage::Tree { course_page }, Event::Page(page)) => match get_course_content_tree(
            page.as_str(),
        ) {
            Ok(items) => spawn(path, items),
            Err(_) => fall_back(course_page.as_str(), url),
        },
        (Stage::Tree { course_page }, Event::Unavailable) => fall_back(
            course_page.as_str(),
            url,
        ),
        (Stage::Listing, event) => advance_listing(path, event),
        _ => wrong_turn(),
    }
}

fn advance_file(options: &Options, url: &URL, stage: Stage, event: Event) -> (m: Move)
    ensures
        m@ == file_step(*options, url@, stage@, event@),
{
    match (stage, event) {
        (Stage::Start, Event::Begin) => if options.skip_files {
            end(Action::Stop(Reason::Disabled))
        } else if options.force {
            end(Action::Download { url: resolve(url.url.as_str()) })
        } else {
            Move { stage: Stage::Exists, action: Action::AskExists }
        },
        (Stage::Exists, Event::Exists(present)) => if present {
            end(Action::Stop(Reason::Present))
        } else {
            end(Action::Download { url: resolve(url.url.as_str()) })
        },
        _ => wrong_turn(),
    }
}

fn advance_video(options: &Options, url: &URL, stage: Stage, event: Event) -> (m: Move)
    ensures
        m@ == video_step(*options, url@, stage@, event@),
{
    match (stage, event) {
        (Stage::Start, Event::Begin) => if options.no_videos {
            end(Action::Stop(Reason::Disabled))
        } else if options.force {
            fetch(Stage::PlayerPage, below_root(url.url.as_str()), false)
        } else {
            Move { stage: Stage::Exists, action: Action::AskExists }
        },
        (Stage::Exists, Event::Exists(present)) => if present {
            end(Action::Stop(Reason::Present))
        } else {
            fetch(Stage::PlayerPage, below_root(url.url.as_str()), false)
        },
        (Stage::PlayerPage, Event::Page(page)) => match video_source(page.as_str()) {
            Ok(source) => end(Action::Download { url: resolve(source.as_str()) }),
            Err(e) => end(Action::Fail(e)),
        },
        (Stage::PlayerPage, Event::Unavailable) => end(Action::Abort),
        _ => wrong_turn(),
    }
}

fn advance_container(
    options: &Options,
    path: &Vec<String>,
    url: &URL,
    stage: Stage,
    event: Event,
) -> (m: Move)
    ensures
        m@ == container_step(*options, path_view(path@), url@, stage@, event@),
{
    match (stage, event) {
        (Stage::Start, Event::Begin) => if options.no_videos {
            end(Action::Stop(Reason::Disabled))
        } else {
            fetch(Stage::VideoList, video_list_url(url.ref_id.as_str()), true)
        },
        (Stage::VideoList, Event::Page(page)) => {
            let (tasks, failure) = list_videos(path, page.as_str());
            end(Action::Spawn { tasks, failure, truncated: false })
        },
        (Stage::VideoList, Event::Unavailable) => end(Action::Abort),
        _ => wrong_turn(),
    }
}

/// The names of the directories of `threads`.
fn names_of(threads: &Vec<ThreadRow>) -> (r: Vec<String>)
    ensures
        strings_view(r@) == directory_names(thread_rows_view(threads@)),
{
    let mut out: Vec<String> = Vec::new();
    let mut i: usize = 0;
    while i < threads.len()
        invariant
            i <= threads.len(),
            out.len() == i,
            forall|j: int| 0 <= j < i ==> (#[trigger] out@[j])@ == threads@[j].name@,
        decreases threads.len() - i,
    {
        out.push(threads[i].name.clone());
        i = i + 1;
    }
    assert(strings_view(out@) =~= directory_names(thread_rows_view(threads@)));
    out
}

fn advance_forum(
    options: &Options,
    path: &Vec<String>,
    url: &URL,
    stage: Stage,
    event: Event,
) -> (m: Move)
    ensures
        m@ == forum_step(*options, path_view(path@), url@, stage@, event@),
{
    match (stage, event) {
        (Stage::Start, Event::Begin) => if !options.forum {
            end(Action::Stop(Reason::Disabled))
        } else {
            fetch(Stage::ForumPage, forum_url(url.ref_id.as_str()), true)
        },
        (Stage::ForumPage, Event::Page(page)) => match full_table_url(page.as_str()) {
            Err(e) => end(Action::Fail(e)),
            Ok(address) => fetch(Stage::ThreadTable, address, false),
        },
        (Stage::ThreadTable, Event::Page(page)) => {
            let (threads, failure) = list_threads(page.as_str());
            let truncated = failure.is_none() && has_further_pages(page.as_str());
            let names = names_of(&threads);
            Move {
                stage: Stage::Saved { threads, failure, truncated },
                action: Action::CountSaved { names },
            }
        },
        (Stage::Saved { threads, failure, truncated }, Event::Saved(counts)) => {
            let tasks = threads_to_fetch(path, threads, &counts, options.force);
            end(Action::Spawn { tasks, failure, truncated })
        },
        (Stage::ForumPage, Event::Unavailable) => end(Action::Abort),
        (Stage::ThreadTable, Event::Unavailable) => end(Action::Abort),
        _ => wrong_turn(),
    }
}

/// What a page of the thread at `path` gives.
pub fn read_thread_page(path: &Vec<String>, page: &str) -> (r: Action)
    ensures
        r@ == thread_page(path_view(path@), page@),
{
    let (posts, failure) = list_posts(page);
    let mut tasks: Vec<Task> = Vec::new();
    assert(tasks_view(tasks@) =~= Seq::<TaskView>::empty());
    if failure.is_some() {
        return Action::Save { posts, tasks, failure, no_links: false };
    }
    match next_page(page) {
        Pagination::Last => Action::Save { posts, tasks, failure: None, no_links: false },
        Pagination::NoLinks => Action::Save { posts, tasks, failure: None, no_links: true },
        Pagination::Next(object) => {
            let next = Task { path: copy_path(path), object };
            tasks.push(next);
            assert(tasks_view(tasks@) =~= seq![next@]);
            Action::Save { posts, tasks, failure: None, no_links: false }
        },
        Pagination::Broken(e) => Action::Save { posts, tasks, failure: Some(e), no_links: false },
    }
}

fn advance_thread(
    options: &Options,
    path: &Vec<String>,
    url: &URL,
    stage: Stage,
    event: Event,
) -> (m: Move)
    ensures
        m@ == thread_step(*options, path_view(path@), url@, stage@, event@),
{
    match (stage, event) {
        (Stage::Start, Event::Begin) => if !options.forum {
            end(Action::Stop(Reason::Disabled))
        } else {
            fetch(Stage::ThreadPage, below_root(url.url.as_str()), true)
        },
        (Stage::ThreadPage, Event::Page(page)) => end(read_thread_page(path, page.as_str())),
        (Stage::ThreadPage, Event::Unavailable) => end(Action::Abort),
        _ => wrong_turn(),
    }
}

fn advance_ignored(stage: Stage, event: Event) -> (m: Move)
    ensures
        m@ == ignored_step(stage@, event@),
{
    match (stage, event) {
        (Stage::Start, Event::Begin) => end(Action::Stop(Reason::Ignored)),
        _ => wrong_turn(),
    }
}

/// Takes the next step of the handler of `task`: from `stage`, where the
/// handler stood, and `event`, the answer to its last request, to the
/// stage where it stands now and what it asks for.
pub fn advance(options: &Options, task: &Task, stage: Stage, event: Event) -> (m: Move)
    ensures
        m@ == advanced(*options, task@, stage@, event@),
{
    match &task.object {
        Object::Course { url, .. } => advance_course(options, &task.path, url, stage, event),
        Object::Folder { url, .. } => advance_folder(&task.path, url, stage, event),
        Object::File { url, .. } => advance_file(options, url, stage, event),
        Object::PluginDispatch { url, .. } => advance_container(
            options,
            &task.path,
            url,
            stage,
            event,
        ),
        Object::Video { url } => advance_video(options, url, stage, event),
        Object::Forum { url, .. } => advance_forum(options, &task.path, url, stage, event),
        Object::Thread { url } => advance_thread(options, &task.path, url, stage, event),
        _ => advance_ignored(stage, event),
    }
}

} // verus!
