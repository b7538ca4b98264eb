use kit_ilias_downloader::text::{
    ends_with, equals, find_in, from_chars, has, nth_segment, parse_count, replace_char, slice,
    starts_with, to_chars, to_lower, trim,
};
use kit_ilias_downloader::util::file_escape;

fn chars(s: &str) -> Vec<char> {
    s.chars().collect()
}

#[test]
fn file_escape_replaces_each_unsafe_character() {
    assert_eq!(file_escape("a/b\\c:d<e>f\"g|h?i*j\nk\tl"), "a-b-c-d-e-f-g-h-i-j-k-l");
}

#[test]
fn file_escape_keeps_safe_text() {
    assert_eq!(file_escape("Lecture 01 - Intro.pdf"), "Lecture 01 - Intro.pdf");
    assert_eq!(file_escape(""), "");
    assert_eq!(file_escape("Übung äöü €"), "Übung äöü €");
}

#[test]
fn file_escape_agrees_with_replace() {
    let invalid: &[char] = &['/', '\\', ':', '<', '>', '"', '|', '?', '*', '\n', '\t'];
    for s in ["", "plain", "a/b", "??", "x\ty\nz", "C:\\dir\\file<1>", "quote\"d|pipe*"] {
        assert_eq!(file_escape(s), s.replace(invalid, "-"));
    }
}

#[test]
fn chars_go_there_and_back() {
    assert_eq!(to_chars("aß€"), vec!['a', 'ß', '€']);
    assert_eq!(from_chars(&vec!['a', 'ß', '€']), "aß€");
    assert_eq!(to_chars(""), Vec::<char>::new());
}

#[test]
fn slice_takes_the_range() {
    assert_eq!(slice(&chars("abcdef"), 2, 4), chars("cd"));
    assert_eq!(slice(&chars("abcdef"), 3, 3), chars(""));
    assert_eq!(slice(&chars("abcdef"), 0, 6), chars("abcdef"));
}

#[test]
fn trim_agrees_with_std() {
    for s in [
        "",
        " ",
        "  a  ",
        "\t\n x y \r\n",
        "\u{a0}non-breaking\u{a0}",
        "\u{2003}em space\u{3000}",
        "\u{85}next line\u{2028}\u{2029}",
        "\u{1680}ogham\u{205f}\u{202f}",
        "\u{200b}zero width is kept\u{200b}",
        "\u{180e}mongolian is kept",
        "inner  space",
    ] {
        assert_eq!(from_chars(&trim(&chars(s))), s.trim(), "{:?}", s);
    }
}

#[test]
fn whitespace_is_what_std_calls_whitespace() {
    for n in 0u32..0x3100 {
        if let Some(c) = char::from_u32(n) {
            let s = format!("{}x{}", c, c);
            assert_eq!(from_chars(&trim(&chars(&s))), s.trim(), "U+{:04X}", n);
        }
    }
}

#[test]
fn replace_char_replaces_all() {
    assert_eq!(from_chars(&replace_char(&chars("a/b/c"), '/', '-')), "a-b-c");
    assert_eq!(from_chars(&replace_char(&chars("abc"), '/', '-')), "abc");
}

#[test]
fn to_lower_changes_ascii_capitals_only() {
    for s in ["ilRepositoryGUI", "ILOBJPLUGINDISPATCHGUI", "already lower", "ÄÖÜ Straße", "A-Z@[`{"] {
        assert_eq!(from_chars(&to_lower(&chars(s))), s.to_ascii_lowercase());
    }
}

#[test]
fn prefix_suffix_and_equality() {
    let v = chars("file_123_download");
    assert!(starts_with(&v, "file_"));
    assert!(starts_with(&v, ""));
    assert!(!starts_with(&v, "fold_"));
    assert!(!starts_with(&chars("fi"), "file_"));
    assert!(ends_with(&v, "download"));
    assert!(ends_with(&v, ""));
    assert!(!ends_with(&v, "downloa"));
    assert!(!ends_with(&chars("load"), "download"));
    assert!(equals(&v, "file_123_download"));
    assert!(!equals(&v, "file_123_downloa"));
    assert!(!equals(&v, "file_123_downloae"));
}

#[test]
fn find_gives_the_first_position() {
    assert_eq!(find_in(&chars("a,\nb,\nc"), &chars(",\n")), Some(1));
    assert_eq!(find_in(&chars("abc"), &chars(",\n")), None);
    assert_eq!(find_in(&chars("abc"), &chars("")), Some(0));
    assert_eq!(find_in(&chars(""), &chars("")), Some(0));
    assert_eq!(find_in(&chars("aab"), &chars("ab")), Some(1));
    assert_eq!(find_in(&chars("ab"), &chars("abc")), None);
    assert_eq!(find_in(&chars("xxabc"), &chars("abc")), Some(2));
    assert!(has(&chars("x trows=800 y"), "trows=800"));
    assert!(!has(&chars("x trows=80 y"), "trows=800"));
}

#[test]
fn segments_agree_with_split() {
    for s in ["crs_1234_", "crs_1234", "a|b|c", "", "_", "__", "nounderscore", "x_y_z_"] {
        for n in 0usize..5 {
            let expected: Option<String> = s.split('_').nth(n).map(str::to_owned);
            let got = nth_segment(&chars(s), '_', n).map(|v| from_chars(&v));
            assert_eq!(got, expected, "{:?} {}", s, n);
        }
    }
}

#[test]
fn parse_count_agrees_with_std() {
    for s in [
        "0",
        "10",
        "007",
        "+5",
        "+",
        "",
        "-1",
        "1 ",
        " 1",
        "12a",
        "٣",
        "18446744073709551615",
        "18446744073709551616",
        "99999999999999999999999",
        "++1",
        "1+",
    ] {
        assert_eq!(parse_count(&chars(s)), s.parse::<usize>().ok(), "{:?}", s);
    }
}

#[test]
fn parse_count_gives_the_exact_value() {
    assert_eq!(parse_count(&chars("800")), Some(800));
    assert_eq!(parse_count(&chars("+42")), Some(42));
}

#[test]
fn escaping_twice_is_escaping_once() {
    for s in ["a/b", "x:y|z", "plain", "", "tab\there"] {
        let once = file_escape(s);
        assert_eq!(file_escape(&once), once);
        assert_eq!(once.chars().count(), s.chars().count());
        assert!(!once.contains(&['/', '\\', ':', '<', '>', '"', '|', '?', '*', '\n', '\t'][..]));
    }
}
