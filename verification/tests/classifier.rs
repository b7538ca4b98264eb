use kit_ilias_downloader::error::CrawlError;
use kit_ilias_downloader::object::Object;
use kit_ilias_downloader::reference::URL;

fn no_props() -> Vec<String> {
    Vec::new()
}

fn props(v: &[&str]) -> Vec<String> {
    v.iter().map(|s| s.to_string()).collect()
}

fn classify(text: &str, href: &str, p: &Vec<String>) -> Object {
    Object::from_link(text, href, p).unwrap()
}

#[test]
fn raw_descriptor_holds_the_link_only() {
    let u = URL::raw("some/link".to_owned());
    assert_eq!(u.url, "some/link");
    assert_eq!(u.baseClass, "");
    assert_eq!(u.ref_id, "");
    assert!(u.cmdClass.is_none() && u.cmdNode.is_none() && u.cmd.is_none());
    assert!(u.forwardCmd.is_none() && u.thr_pk.is_none() && u.pos_pk.is_none());
    assert!(u.target.is_none());
}

#[test]
fn descriptor_reads_each_parameter() {
    let href = "ilias.php?ref_id=12&cmdClass=a&cmdNode=b%3Ac&cmd=view&forwardCmd=f&thr_pk=5&pos_pk=6&baseClass=ilRepositoryGUI&target=crs_1&other=x";
    let u = URL::from_href(href).unwrap();
    assert_eq!(u.url, href);
    assert_eq!(u.ref_id, "12");
    assert_eq!(u.cmdClass.as_deref(), Some("a"));
    assert_eq!(u.cmdNode.as_deref(), Some("b:c"));
    assert_eq!(u.cmd.as_deref(), Some("view"));
    assert_eq!(u.forwardCmd.as_deref(), Some("f"));
    assert_eq!(u.thr_pk.as_deref(), Some("5"));
    assert_eq!(u.pos_pk.as_deref(), Some("6"));
    assert_eq!(u.baseClass, "ilRepositoryGUI");
    assert_eq!(u.target.as_deref(), Some("crs_1"));
}

#[test]
fn descriptor_takes_the_last_of_a_repeated_parameter() {
    let u = URL::from_href("ilias.php?cmd=first&cmd=second&ref_id=1&ref_id=2").unwrap();
    assert_eq!(u.cmd.as_deref(), Some("second"));
    assert_eq!(u.ref_id, "2");
}

#[test]
fn descriptor_without_query_is_raw() {
    let u = URL::from_href("goto.php").unwrap();
    assert_eq!(u.url, "goto.php");
    assert_eq!(u.baseClass, "");
    assert!(u.target.is_none() && u.cmd.is_none() && u.thr_pk.is_none());
}

#[test]
fn descriptor_from_pairs_is_exact() {
    let pairs = vec![
        ("cmd".to_owned(), "a".to_owned()),
        ("unknown".to_owned(), "x".to_owned()),
        ("cmd".to_owned(), "b".to_owned()),
        ("baseClass".to_owned(), "C".to_owned()),
    ];
    let u = URL::from_pairs("h", &pairs);
    assert_eq!(u.url, "h");
    assert_eq!(u.cmd.as_deref(), Some("b"));
    assert_eq!(u.baseClass, "C");
    assert_eq!(u.ref_id, "");
    assert!(u.target.is_none());
}

#[test]
fn absolute_link_is_parsed_as_written() {
    let href = "https://ilias.studium.kit.edu/goto.php?target=fold_77&client_id=produktiv";
    let u = URL::from_href(href).unwrap();
    assert_eq!(u.url, href);
    assert_eq!(u.target.as_deref(), Some("fold_77"));
}

#[test]
fn router_course_link_resolves_its_reference_id() {
    let o = classify("Analysis I", "goto.php?target=crs_1234_&client_id=produktiv", &no_props());
    assert!(matches!(o, Object::Course { .. }));
    assert_eq!(o.kind(), "course");
    assert_eq!(o.name(), "Analysis I");
    assert_eq!(o.url().ref_id, "1234");
}

#[test]
fn absolute_router_course_link_resolves_its_reference_id() {
    let o = classify(
        "Analysis I",
        "https://ilias.studium.kit.edu/goto.php?target=crs_1234&client_id=produktiv",
        &no_props(),
    );
    assert!(matches!(o, Object::Course { .. }));
    assert_eq!(o.url().ref_id, "1234");
}

#[test]
fn thread_key_wins_over_every_other_marker() {
    for href in [
        "ilias.php?thr_pk=55",
        "goto.php?target=crs_1234_&thr_pk=55",
        "ilias.php?cmd=showThreads&thr_pk=55&baseClass=ilRepositoryGUI",
        "https://ilias.studium.kit.edu/goto.php?target=file_9_download&thr_pk=55",
    ] {
        let o = classify("Some thread", href, &no_props());
        assert!(matches!(o, Object::Thread { .. }), "{}", href);
        assert_eq!(o.kind(), "thread");
        assert_eq!(o.name(), "55");
        assert_eq!(o.url().thr_pk.as_deref(), Some("55"));
    }
}

#[test]
fn router_targets_are_classified_by_prefix() {
    let cases: [(&str, &str, &str); 9] = [
        ("wiki_12", "wiki", ""),
        ("root_1", "generic", ""),
        ("crs_12_x", "course", "12"),
        ("frm_34", "forum", "34"),
        ("lm_5", "generic", ""),
        ("fold_6_", "folder", "6"),
        ("file_7", "generic", ""),
        ("grp_8", "generic", ""),
        ("crs_", "course", ""),
    ];
    for (target, kind, ref_id) in cases {
        let href = format!("goto.php?target={}", target);
        let o = classify("n", &href, &no_props());
        assert_eq!(o.kind(), kind, "{}", target);
        assert_eq!(o.url().ref_id, ref_id, "{}", target);
        assert_eq!(o.name(), "n");
    }
}

#[test]
fn router_link_without_target_is_generic() {
    let o = classify("n", "goto.php?client_id=x", &no_props());
    assert_eq!(o.kind(), "generic");
}

#[test]
fn file_takes_extension_and_version_from_metadata() {
    let o = classify(
        " Sheet 1/2 ",
        "goto.php?target=file_99_download",
        &props(&[" pdf ", "  Version: 3  ", "12 KB"]),
    );
    assert!(matches!(o, Object::File { .. }));
    assert_eq!(o.name(), "Sheet 1-2_v3.pdf");
    assert_eq!(o.kind(), "file");
}

#[test]
fn file_without_version_has_no_suffix() {
    let o = classify("Sheet", "goto.php?target=file_99_download", &props(&["pdf", "12 KB"]));
    assert_eq!(o.name(), "Sheet.pdf");
    let o = classify("Sheet", "goto.php?target=file_99_download", &props(&["pdf", "version: 3"]));
    assert_eq!(o.name(), "Sheet.pdf");
    let o = classify("Sheet", "goto.php?target=file_99_download", &props(&["pdf", "Version: "]));
    assert_eq!(o.name(), "Sheet.pdf");
    let o = classify("Sheet", "goto.php?target=file_99_download", &props(&["pdf", "Version:  x"]));
    assert_eq!(o.name(), "Sheet_v x.pdf");
}

#[test]
fn file_without_metadata_fails() {
    let r = Object::from_link("Sheet", "goto.php?target=file_99_download", &props(&["pdf"]));
    assert_eq!(r.err(), Some(CrawlError::MissingMetadata));
    let r = Object::from_link("Sheet", "goto.php?target=file_99_download", &no_props());
    assert_eq!(r.err(), Some(CrawlError::MissingMetadata));
}

#[test]
fn show_threads_is_a_forum() {
    let o = classify("Forum", "ilias.php?ref_id=3&cmd=showThreads&baseClass=ilRepositoryGUI", &no_props());
    assert!(matches!(o, Object::Forum { .. }));
    assert_eq!(o.url().ref_id, "3");
}

#[test]
fn base_class_decides_last_and_without_regard_to_case() {
    let cases: [(&str, &str); 10] = [
        ("baseClass=ilExerciseHandlerGUI", "exercise handler"),
        ("baseClass=ilexercisehandlergui&cmd=view", "exercise handler"),
        ("baseClass=ililWikiHandlerGUI", "wiki"),
        ("baseClass=ilRepositoryGUI&cmd=view", "folder"),
        ("baseClass=ilrepositorygui&cmd=render", "generic"),
        ("baseClass=ILREPOSITORYGUI", "course"),
        ("baseClass=ilObjPluginDispatchGUI&ref_id=4", "plugin dispatch"),
        ("baseClass=ilSomethingElseGUI", "generic"),
        ("cmd=view", "generic"),
        ("baseClass=ilRepositoryGUI&cmd=View", "generic"),
    ];
    for (query, kind) in cases {
        let o = classify("n", &format!("ilias.php?{}", query), &no_props());
        assert_eq!(o.kind(), kind, "{}", query);
    }
}

#[test]
fn name_replaces_slashes_and_trims() {
    let o = classify("\n  A/B / C \t", "ilias.php?baseClass=x", &no_props());
    assert_eq!(o.name(), "A-B - C");
}

#[test]
fn classifier_gives_the_same_node_twice() {
    let p = props(&["pdf", "Version: 2"]);
    for href in [
        "goto.php?target=file_1_download",
        "ilias.php?thr_pk=3",
        "ilias.php?baseClass=ilRepositoryGUI",
    ] {
        let a = classify("Name", href, &p);
        let b = classify("Name", href, &p);
        assert_eq!(a.kind(), b.kind());
        assert_eq!(a.name(), b.name());
        assert_eq!(a.url().url, b.url().url);
        assert_eq!(a.url().ref_id, b.url().ref_id);
    }
}

#[test]
fn kinds_have_their_words() {
    let u = || URL::raw("l".to_owned());
    let n = || "n".to_owned();
    assert_eq!(Object::Course { name: n(), url: u() }.kind(), "course");
    assert_eq!(Object::Folder { name: n(), url: u() }.kind(), "folder");
    assert_eq!(Object::File { name: n(), url: u() }.kind(), "file");
    assert_eq!(Object::Forum { name: n(), url: u() }.kind(), "forum");
    assert_eq!(Object::Thread { url: u() }.kind(), "thread");
    assert_eq!(Object::Wiki { name: n(), url: u() }.kind(), "wiki");
    assert_eq!(Object::ExerciseHandler { name: n(), url: u() }.kind(), "exercise handler");
    assert_eq!(Object::PluginDispatch { name: n(), url: u() }.kind(), "plugin dispatch");
    assert_eq!(Object::Video { url: u() }.kind(), "video");
    assert_eq!(Object::Generic { name: n(), url: u() }.kind(), "generic");
}

#[test]
fn video_is_called_by_its_link() {
    let v = Object::Video { url: URL::raw("ilias.php?video=1".to_owned()) };
    assert_eq!(v.name(), "ilias.php?video=1");
    assert_eq!(v.url().url, "ilias.php?video=1");
}

#[test]
fn errors_have_their_words() {
    assert_eq!(CrawlError::Service.message(), "ILIAS error");
    assert_eq!(CrawlError::MissingLink.message(), "can't find link");
    assert_eq!(CrawlError::MissingCommandNode.message(), "can't find cmdNode");
    assert_eq!(CrawlError::MissingPlayerScript.message(), "xoct player json not found");
    assert_eq!(CrawlError::MalformedPlayerData.message(), "invalid xoct player json");
    assert_eq!(
        CrawlError::MissingThreadTable.message(),
        "can't find forum thread count selector (empty forum?)"
    );
    assert_eq!(CrawlError::MissingThreadLink.message(), "thread link not found");
    assert_eq!(CrawlError::MissingThreadKey.message(), "thr_pk not found for thread");
    assert_eq!(CrawlError::BadPostCount.message(), "parsing post count failed");
}

#[test]
fn odd_links_have_a_descriptor_too() {
    for href in [
        "",
        " ",
        "#fragment",
        "?thr_pk=1",
        "//host:99999/x?cmd=a",
        "\\\\share\\x",
        "%zz%",
        "a b c?x=y z",
        "http://[::1/x",
        "nul\u{0}l?cmd=\u{0}",
        "../../..?target=crs_1",
        "ünïcödé?cmd=ä",
        "?cmd=%ff%fe",
        "?=&&=&cmd",
    ] {
        let u = URL::from_href(href);
        assert!(u.is_some(), "{:?}", href);
        assert_eq!(u.unwrap().url, href);
    }
    assert_eq!(URL::from_href("?thr_pk=1").unwrap().thr_pk.as_deref(), Some("1"));
    assert_eq!(URL::from_href("?cmd=a+b%20c").unwrap().cmd.as_deref(), Some("a b c"));
    assert_eq!(URL::from_href("?=&&=&cmd").unwrap().cmd.as_deref(), Some(""));
    assert_eq!(URL::from_href("x?cmd=a#cmd=b").unwrap().cmd.as_deref(), Some("a"));
}
