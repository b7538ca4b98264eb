use kit_ilias_downloader::course::{command_node, command_node_value, not_a_member};
use kit_ilias_downloader::error::CrawlError;
use kit_ilias_downloader::listing::{
    check_document, check_fragment, content_tree_url, get_course_content,
    get_course_content_tree, get_items,
};
use kit_ilias_downloader::login::{handover, LoginError};
use kit_ilias_downloader::video::{list_videos, player_data, video_list_url, video_source};

fn item(link: &str, props: &[&str]) -> String {
    let spans: String =
        props.iter().map(|p| format!("<span class=\"il_ItemProperty\">{}</span>", p)).collect();
    format!("<div class=\"il_ContainerListItem\"><h4>{}</h4><div>{}</div></div>", link, spans)
}

fn title(href: &str, text: &str) -> String {
    format!("<a class=\"il_ContainerItemTitle\" href=\"{}\">{}</a>", href, text)
}

fn document(body: &str) -> String {
    format!("<!DOCTYPE html><html><head><title>t</title></head><body>{}</body></html>", body)
}

#[test]
fn page_without_banner_passes() {
    assert_eq!(check_document(&document("<p>fine</p>")), Ok(()));
    assert_eq!(check_fragment("<p>fine</p>"), Ok(()));
    assert_eq!(check_document(""), Ok(()));
}

#[test]
fn page_with_banner_is_a_service_error() {
    let page = document("<div class=\"alert alert-danger\">Sorry</div>");
    assert_eq!(check_document(&page), Err(CrawlError::Service));
    assert_eq!(check_fragment("<div class=\"alert-danger\">Sorry</div>"), Err(CrawlError::Service));
    assert_eq!(get_course_content(&page).err(), Some(CrawlError::Service));
    assert_eq!(
        get_course_content_tree("<div class=\"alert-danger\">x</div><a href=\"ilias.php\">a</a>").err(),
        Some(CrawlError::Service)
    );
}

#[test]
fn listing_gives_one_node_for_each_item() {
    let page = document(&format!(
        "{}{}{}",
        item(&title("goto.php?target=crs_10&client_id=p", " Course / One "), &[]),
        item(
            &title("goto.php?target=file_20_download", "Slides"),
            &["pdf", "Version: 2", "1 MB"]
        ),
        item(&title("ilias.php?baseClass=ilRepositoryGUI&cmd=view&ref_id=30", "Folder"), &["x"]),
    ));
    let items = get_items(&page).unwrap();
    assert_eq!(items.len(), 3);
    assert_eq!(items[0].kind(), "course");
    assert_eq!(items[0].name(), "Course - One");
    assert_eq!(items[0].url().ref_id, "10");
    assert_eq!(items[1].kind(), "file");
    assert_eq!(items[1].name(), "Slides_v2.pdf");
    assert_eq!(items[2].kind(), "folder");
    assert_eq!(items[2].name(), "Folder");
    assert_eq!(items[2].url().ref_id, "30");
    let again = get_course_content(&page).unwrap();
    assert_eq!(again.len(), 3);
    assert_eq!(again[1].name(), "Slides_v2.pdf");
}

#[test]
fn listing_takes_the_first_title_link_of_an_item() {
    let links = format!(
        "{}{}",
        title("ilias.php?baseClass=ilExerciseHandlerGUI", "First"),
        title("ilias.php?baseClass=ililWikiHandlerGUI", "Second")
    );
    let items = get_items(&document(&item(&links, &[]))).unwrap();
    assert_eq!(items.len(), 1);
    assert_eq!(items[0].kind(), "exercise handler");
    assert_eq!(items[0].name(), "First");
}

#[test]
fn listing_joins_the_text_below_a_link() {
    let link = title("ilias.php?baseClass=x", "A <b>bold</b> name");
    let items = get_items(&document(&item(&link, &[]))).unwrap();
    assert_eq!(items[0].name(), "A bold name");
}

#[test]
fn empty_listing_has_no_node() {
    assert_eq!(get_items(&document("<p>nothing</p>")).unwrap().len(), 0);
}

#[test]
fn item_without_title_link_fails() {
    let page = document(&format!(
        "{}{}",
        item(&title("ilias.php?baseClass=x", "ok"), &[]),
        item("<a href=\"ilias.php\">no class</a>", &[])
    ));
    assert_eq!(get_items(&page).err(), Some(CrawlError::MissingLink));
}

#[test]
fn title_link_without_address_fails() {
    let page = document(&item("<a class=\"il_ContainerItemTitle\">x</a>", &[]));
    assert_eq!(get_items(&page).err(), Some(CrawlError::MissingReference));
}

#[test]
fn file_item_without_metadata_fails() {
    let page = document(&item(&title("goto.php?target=file_20_download", "Slides"), &["pdf"]));
    assert_eq!(get_items(&page).err(), Some(CrawlError::MissingMetadata));
}

#[test]
fn content_tree_lists_links_with_an_address() {
    let page = "<ul><li><a href=\"goto.php?target=fold_5\">Folder / A</a></li>\
        <li><a href=\"\">disabled</a></li><li><a>no address</a></li>\
        <li><a href=\"goto.php?target=file_6_download\">Doc \
        <span class=\"il_ItemProperty\">txt</span><span class=\"il_ItemProperty\">n</span></a></li>\
        <li><a href=\"ilias.php?thr_pk=9\">t</a></li></ul>";
    let items = get_course_content_tree(page).unwrap();
    assert_eq!(items.len(), 3);
    assert_eq!(items[0].kind(), "folder");
    assert_eq!(items[0].name(), "Folder - A");
    assert_eq!(items[0].url().ref_id, "5");
    assert_eq!(items[1].kind(), "file");
    assert_eq!(items[1].name(), "Doc txtn.txt");
    assert_eq!(items[2].kind(), "thread");
    assert_eq!(items[2].name(), "9");
}

#[test]
fn content_tree_address_is_exact() {
    assert_eq!(
        content_tree_url("123", "uf:ab"),
        "https://ilias.studium.kit.edu/ilias.php?ref_id=123&cmdClass=ilobjcoursegui&cmd=showRepTree&cmdNode=uf:ab&baseClass=ilRepositoryGUI&cmdMode=asynch&exp_cmd=getNodeAsync&node_id=exp_node_rep_exp_123&exp_cont=il_expl2_jstree_cont_rep_exp&searchterm="
    );
}

#[test]
fn command_node_is_what_follows_the_parameter_name() {
    let page = "<a href=\"ilias.php?ref_id=1&cmdNode=uf:x7&cmdNode=uf:zz\">x</a>";
    assert_eq!(command_node(page), Ok("uf:x7".to_owned()));
    assert_eq!(command_node("cmdNode=ab:cd cmdNode=uf:"), Err(CrawlError::MissingCommandNode));
    assert_eq!(command_node(""), Err(CrawlError::MissingCommandNode));
    assert_eq!(command_node_value("cmdNode=uf:q1"), Ok("uf:q1".to_owned()));
    assert_eq!(command_node_value("cmdNode="), Ok("".to_owned()));
    assert_eq!(command_node_value("cmd"), Err(CrawlError::MissingCommandNode));
}

#[test]
fn join_prompt_marks_a_stranger() {
    assert!(not_a_member("<form><input[name=\"cmd[join]\" x></form>"));
    assert!(!not_a_member("<form><input name=\"cmd[join]\"></form>"));
    assert!(!not_a_member(""));
}

#[test]
fn player_data_is_the_first_argument() {
    assert_eq!(player_data("{\"a\": 1},\n{\"b\": 2},\nfoo"), "{\"a\": 1}");
    assert_eq!(player_data("  {\"a\": [1, 2]}  "), "{\"a\": [1, 2]}");
    assert_eq!(player_data("{\"a\": 1}, {\"b\": 2}"), "{\"a\": 1}, {\"b\": 2}");
    assert_eq!(player_data(",\nrest"), "");
    assert_eq!(player_data(""), "");
}

#[test]
fn video_source_is_the_first_mp4_source() {
    let page = "<html><body><script>\n\txoctPaellaPlayer.init({\"streams\": [{\"sources\": \
        {\"mp4\": [{\"src\": \"https://host/clip.mp4\", \"mimetype\": \"video/mp4\"}, \
        {\"src\": \"https://host/other.mp4\"}]}}, {\"sources\": {\"mp4\": [{\"src\": \
        \"https://host/second.mp4\"}]}}]},\n\t{\"theme\": \"default\"},\n\t\"extra\")\n</script>\
        </body></html>";
    assert_eq!(video_source(page), Ok("https://host/clip.mp4".to_owned()));
}

#[test]
fn video_page_without_player_fails() {
    assert_eq!(
        video_source("<script>\n other.init({})\n</script>"),
        Err(CrawlError::MissingPlayerScript)
    );
    assert_eq!(video_source(""), Err(CrawlError::MissingPlayerScript));
    assert_eq!(
        video_source("<script>xoctPaellaPlayer.init({})</script>"),
        Err(CrawlError::MissingPlayerScript)
    );
}

#[test]
fn video_page_with_broken_data_fails() {
    assert_eq!(
        video_source("<script>\nxoctPaellaPlayer.init({\"streams\": [)\n</script>"),
        Err(CrawlError::MalformedPlayerData)
    );
    assert_eq!(
        video_source("<script>\nxoctPaellaPlayer.init({\"streams\": []})\n</script>"),
        Err(CrawlError::MissingVideoSource)
    );
    assert_eq!(
        video_source(
            "<script>\nxoctPaellaPlayer.init({\"streams\": [{\"sources\": {\"mp4\": [{\"src\": 5}]}}]})\n</script>"
        ),
        Err(CrawlError::MissingVideoSource)
    );
}

#[test]
fn video_list_address_is_exact() {
    assert_eq!(
        video_list_url("77"),
        "https://ilias.studium.kit.edu/ilias.php?ref_id=77&cmdClass=xocteventgui&cmdNode=n7:mz:14p&baseClass=ilObjPluginDispatchGUI&lang=de&limit=20&cmd=asyncGetTableGUI&cmdMode=asynch"
    );
}

#[test]
fn video_table_gives_one_task_for_each_titled_row() {
    let page = "<table><tbody>\
        <tr><th>a</th><th>b</th><th>c</th></tr>\
        <tr><td><a target=\"_blank\" href=\"ilias.php?v=1\">play</a></td><td>x</td><td> Lecture 1 </td></tr>\
        <tr><td><a href=\"ilias.php?v=2\">same tab</a></td><td>x</td><td>Lecture 2</td></tr>\
        <tr><td><a target=\"_blank\" href=\"ilias.php?v=3\">play</a></td><td>x</td><td> <div>busy</div></td></tr>\
        <tr><td><a target=\"_blank\" href=\"ilias.php?v=4\">play</a></td><td>x</td></tr>\
        <tr><td><a target=\"_blank\" href=\"ilias.php?v=5\">play</a></td><td>x</td><td></td></tr>\
        <tr><td><a target=\"_blank\" href=\"ilias.php?v=6\">play</a></td><td>x</td><td>A/B</td><td>y</td></tr>\
        </tbody></table>";
    let parent = vec!["Course".to_owned(), "Videos".to_owned()];
    let (tasks, failure) = list_videos(&parent, page);
    assert_eq!(failure, None);
    assert_eq!(tasks.len(), 3);
    assert_eq!(tasks[0].path, vec!["Course", "Videos", "Lecture 1.mp4"]);
    assert_eq!(tasks[0].object.kind(), "video");
    assert_eq!(tasks[0].object.url().url, "ilias.php?v=1");
    assert_eq!(tasks[0].object.url().ref_id, "");
    assert_eq!(tasks[1].path, vec!["Course", "Videos", ".mp4"]);
    assert_eq!(tasks[1].object.url().url, "ilias.php?v=5");
    assert_eq!(tasks[2].path, vec!["Course", "Videos", "A/B.mp4"]);
    assert_eq!(tasks[2].object.url().url, "ilias.php?v=6");
}

#[test]
fn video_row_whose_link_has_no_address_fails_after_the_rows_before_it() {
    let page = "<table><tbody>\
        <tr><td><a target=\"_blank\" href=\"ilias.php?v=1\">p</a></td><td>x</td><td>One</td></tr>\
        <tr><td><a target=\"_blank\">p</a></td><td>x</td><td>Two</td></tr>\
        <tr><td><a target=\"_blank\" href=\"ilias.php?v=3\">p</a></td><td>x</td><td>Three</td></tr>\
        </tbody></table>";
    let (tasks, failure) = list_videos(&Vec::new(), page);
    assert_eq!(failure, Some(CrawlError::MissingReference));
    assert_eq!(tasks.len(), 1);
    assert_eq!(tasks[0].path, vec!["One.mp4"]);
}

#[test]
fn handover_reads_both_fields() {
    let page = document(
        "<form><input type=\"hidden\" name=\"RelayState\" value=\"state &amp; more\">\
         <input type=\"hidden\" name=\"SAMLResponse\" value=\"PHNhbWw+\">\
         <input type=\"hidden\" name=\"SAMLResponse\" value=\"second\"></form>",
    );
    assert_eq!(handover(&page), Ok(("PHNhbWw+".to_owned(), "state & more".to_owned())));
}

#[test]
fn handover_without_a_field_fails() {
    assert_eq!(
        handover(&document("<input name=\"RelayState\" value=\"s\">")),
        Err(LoginError::NoAssertion)
    );
    assert_eq!(
        handover(&document("<input name=\"SAMLResponse\" value=\"s\">")),
        Err(LoginError::NoRelayState)
    );
    assert_eq!(
        handover(&document("<input name=\"SAMLResponse\"><input name=\"RelayState\" value=\"s\">")),
        Err(LoginError::NoAssertion)
    );
    assert_eq!(LoginError::NoAssertion.message(), "no SAML response, incorrect password?");
    assert_eq!(LoginError::NoRelayState.message(), "no relay state");
}
