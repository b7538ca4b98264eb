use kit_ilias_downloader::error::CrawlError;
use kit_ilias_downloader::forum::{
    forum_url, full_table_url, has_further_pages, list_threads, threads_to_fetch, ThreadRow,
};
use kit_ilias_downloader::object::Object;
use kit_ilias_downloader::posts::{list_posts, next_page, Pagination};
use kit_ilias_downloader::reference::URL;

fn document(body: &str) -> String {
    format!("<!DOCTYPE html><html><head><title>t</title></head><body>{}</body></html>", body)
}

fn thread_row(href: &str, title: &str, posts: &str) -> String {
    format!(
        "<tr><td><input type=\"checkbox\"></td><td><a href=\"{}\">{}</a></td><td>author</td>\
         <td> {} <span>new</span></td><td>5</td><td>today</td></tr>",
        href, title, posts
    )
}

fn row(name: &str, key: &str, available: usize) -> ThreadRow {
    ThreadRow {
        name: name.to_owned(),
        object: Object::Thread { url: URL::from_href(&format!("ilias.php?thr_pk={}", key)).unwrap() },
        available,
    }
}

#[test]
fn forum_address_is_exact() {
    assert_eq!(
        forum_url("122"),
        "https://ilias.studium.kit.edu/ilias.php?ref_id=122&cmd=showThreads&cmdClass=ilrepositorygui&cmdNode=uf&baseClass=ilrepositorygui"
    );
}

#[test]
fn full_table_is_the_first_link_that_asks_for_it() {
    let page = document(
        "<a>no address</a><a href=\"ilias.php?trows=80\">80</a>\
         <a href=\"ilias.php?ref_id=1&amp;frm_tt_trows=800&amp;cmd=showThreads\">800</a>\
         <a href=\"ilias.php?other&amp;trows=800\">again</a>",
    );
    assert_eq!(
        full_table_url(&page),
        Ok("https://ilias.studium.kit.edu/ilias.php?ref_id=1&frm_tt_trows=800&cmd=showThreads"
            .to_owned())
    );
}

#[test]
fn forum_without_table_link_fails() {
    assert_eq!(
        full_table_url(&document("<a href=\"ilias.php\">x</a>")),
        Err(CrawlError::MissingThreadTable)
    );
    assert_eq!(full_table_url(""), Err(CrawlError::MissingThreadTable));
}

#[test]
fn thread_table_lists_six_cell_rows() {
    let page = document(&format!(
        "<table><thead><tr><th>a</th><th>b</th></tr></thead><tbody>{}{}{}</tbody></table>",
        thread_row("ilias.php?ref_id=1&amp;thr_pk=55&amp;cmd=viewThread", " Exam / dates? ", "10"),
        "<tr><td>only</td><td>two</td></tr>",
        thread_row("ilias.php?thr_pk=56", "Second", "+3"),
    ));
    let (threads, failure) = list_threads(&page);
    assert_eq!(failure, None);
    assert_eq!(threads.len(), 2);
    assert_eq!(threads[0].name, "55_Exam - dates-");
    assert_eq!(threads[0].available, 10);
    assert_eq!(threads[0].object.kind(), "thread");
    assert_eq!(threads[0].object.name(), "55");
    assert_eq!(threads[0].object.url().url, "ilias.php?ref_id=1&thr_pk=55&cmd=viewThread");
    assert_eq!(threads[1].name, "56_Second");
    assert_eq!(threads[1].available, 3);
}

#[test]
fn thread_row_failures_come_after_the_rows_before_them() {
    let good = thread_row("ilias.php?thr_pk=1", "One", "1");
    let cases: [(String, CrawlError); 5] = [
        (
            "<tr><td>a</td><td>no link</td><td>c</td><td>1</td><td>e</td><td>f</td></tr>".to_owned(),
            CrawlError::MissingThreadLink,
        ),
        (
            "<tr><td>a</td><td><a>t</a></td><td>c</td><td>1</td><td>e</td><td>f</td></tr>".to_owned(),
            CrawlError::MissingReference,
        ),
        (thread_row("ilias.php?cmd=x", "No key", "1"), CrawlError::MissingThreadKey),
        (thread_row("ilias.php?thr_pk=2", "Two", "many"), CrawlError::BadPostCount),
        (
            "<tr><td>a</td><td><a href=\"ilias.php?thr_pk=3\">t</a></td><td>c</td><td></td><td>e</td><td>f</td></tr>"
                .to_owned(),
            CrawlError::BadPostCount,
        ),
    ];
    for (bad, error) in cases {
        let page = document(&format!("<table><tbody>{}{}{}</tbody></table>", good, bad, good));
        let (threads, failure) = list_threads(&page);
        assert_eq!(failure, Some(error));
        assert_eq!(threads.len(), 1);
        assert_eq!(threads[0].name, "1_One");
    }
}

#[test]
fn further_pages_are_noticed() {
    let with = document(
        "<div class=\"ilTableNav\"><table><tbody><tr><td><a href=\"x\">2</a></td></tr></tbody></table></div>",
    );
    assert!(has_further_pages(&with));
    assert!(!has_further_pages(&document("<table><tbody><tr><td><a href=\"x\">2</a></td></tr></tbody></table>")));
}

#[test]
fn thread_with_as_many_posts_saved_is_not_fetched() {
    let parent = vec!["Course".to_owned(), "Forum".to_owned()];
    let tasks = threads_to_fetch(&parent, vec![row("7_T", "7", 10)], &vec![10], false);
    assert_eq!(tasks.len(), 0);
    let tasks = threads_to_fetch(&parent, vec![row("7_T", "7", 10)], &vec![11], false);
    assert_eq!(tasks.len(), 0);
}

#[test]
fn thread_with_new_posts_is_fetched() {
    let parent = vec!["Course".to_owned(), "Forum".to_owned()];
    let tasks = threads_to_fetch(&parent, vec![row("7_T", "7", 10)], &vec![9], false);
    assert_eq!(tasks.len(), 1);
    assert_eq!(tasks[0].path, vec!["Course", "Forum", "7_T"]);
    assert_eq!(tasks[0].object.kind(), "thread");
    assert_eq!(tasks[0].object.name(), "7");
}

#[test]
fn forced_threads_are_all_fetched() {
    let rows = vec![row("1_a", "1", 0), row("2_b", "2", 5), row("3_c", "3", 9)];
    let tasks = threads_to_fetch(&Vec::new(), rows, &vec![0, 5, 20], true);
    assert_eq!(tasks.len(), 3);
    assert_eq!(tasks[2].path, vec!["3_c"]);
}

#[test]
fn threads_are_chosen_one_by_one() {
    let rows = vec![row("1_a", "1", 3), row("2_b", "2", 5), row("3_c", "3", 1), row("4_d", "4", 0)];
    let tasks = threads_to_fetch(&Vec::new(), rows, &vec![3, 4], false);
    assert_eq!(tasks.len(), 2);
    assert_eq!(tasks[0].path, vec!["2_b"]);
    assert_eq!(tasks[1].path, vec!["3_c"]);
}

fn post(anchor: &str, byline: &str, title: &str, body: &str) -> String {
    format!(
        "<div class=\"ilFrmPostRow\"><div class=\"ilFrmPostContentContainer\">{}\
         <span class=\"small\">{}</span><div class=\"ilFrmPostTitle\">{}</div>\
         <div class=\"ilFrmPostContent\">{}</div></div></div>",
        anchor, byline, title, body
    )
}

#[test]
fn posts_are_named_by_anchor_author_and_title() {
    let page = document(&format!(
        "{}{}",
        post(
            "<a name=\"post_100\"></a>",
            " Re | Ada Lovelace | 1. Jan 2020 ",
            " On engines / notes ",
            "<p>Hello <b>world</b></p>"
        ),
        post("<a name=\"post_101\" href=\"#\">x</a>", "a|b", "Second", "plain &amp; simple"),
    ));
    let (posts, failure) = list_posts(&page);
    assert_eq!(failure, None);
    assert_eq!(posts.len(), 2);
    assert_eq!(posts[0].name, "post_100_Ada Lovelace_On engines - notes.html");
    assert_eq!(posts[0].body, "<p>Hello <b>world</b></p>");
    assert_eq!(posts[1].name, "post_101_b_Second.html");
    assert_eq!(posts[1].body, "plain &amp; simple");
}

#[test]
fn incomplete_post_fails_after_the_posts_before_it() {
    let good = post("<a name=\"post_1\"></a>", "x|Author|y", "T", "b");
    let bad = [
        post("<a name=\"post_2\"></a>", "no bar here", "T", "b"),
        post("", "x|A|y", "T", "b"),
        post("<a href=\"#\"></a>", "x|A|y", "T", "b"),
        "<div class=\"ilFrmPostRow\"><span class=\"small\">x|A</span></div>".to_owned(),
    ];
    for b in bad {
        let page = document(&format!("{}{}{}", good, b, good));
        let (posts, failure) = list_posts(&page);
        assert_eq!(failure, Some(CrawlError::MissingPostPart));
        assert_eq!(posts.len(), 1);
        assert_eq!(posts[0].name, "post_1_Author_T.html");
    }
}

#[test]
fn thread_goes_on_where_the_last_link_says_so() {
    let page = document(
        "<table><tbody><tr><td><a href=\"ilias.php?thr_pk=5&amp;page=0\">1</a></td>\
         <td><a href=\"ilias.php?thr_pk=5&amp;page=1\"> &gt;&gt; </a></td></tr></tbody></table>\
         <table><tbody><tr><td><a href=\"other\">x</a></td></tr></tbody></table>",
    );
    match next_page(&page) {
        Pagination::Next(object) => {
            assert_eq!(object.kind(), "thread");
            assert_eq!(object.url().url, "ilias.php?thr_pk=5&page=1");
            assert_eq!(object.url().thr_pk.as_deref(), Some("5"));
        }
        other => panic!("{:?}", other),
    }
}

#[test]
fn thread_ends_where_the_last_link_is_another() {
    let page = document(
        "<table><tbody><tr><td><a href=\"a\">&gt;&gt;</a></td><td><a href=\"b\">&lt;&lt;</a></td></tr></tbody></table>",
    );
    assert!(matches!(next_page(&page), Pagination::Last));
    assert!(matches!(next_page(&document("<p>no table</p>")), Pagination::Last));
}

#[test]
fn table_without_links_is_told() {
    let page = document("<table><tbody><tr><td>nothing</td></tr></tbody></table>");
    assert!(matches!(next_page(&page), Pagination::NoLinks));
}

#[test]
fn next_link_without_address_is_broken() {
    let page = document("<table><tbody><tr><td><a>&gt;&gt;</a></td></tr></tbody></table>");
    assert!(matches!(next_page(&page), Pagination::Broken(CrawlError::MissingReference)));
}
