use harkonnen::lines::{join_texts, lines, split_at_char};
use harkonnen::mason_guard::is_alphanumeric;
use harkonnen::numeral::{decimal_text, parse_usize};
use harkonnen::order::{add_text, comes_before, holds_text, sort_texts};
use harkonnen::pairs::{merge_pairs, put_pair};
use harkonnen::search::contains;
use harkonnen::text::{
    byte_len, ends_with, is_blank, is_whitespace, same, starts_with, strip_prefix, to_lower,
    to_upper, trim, trim_start,
};
use harkonnen::words::words_of;
use harkonnen::workspace::{
    file_name, is_absolute, join_workspace_relative_path, normalize_project_path, parts_of,
};

fn strings(list: &[&str]) -> Vec<String> {
    list.iter().map(|s| s.to_string()).collect()
}

#[test]
fn characters_have_the_properties_that_unicode_gives_them() {
    for c in '\0'..=char::MAX {
        assert_eq!(is_whitespace(c), c.is_whitespace(), "{c:?}");
        assert_eq!(is_alphanumeric(c), c.is_alphanumeric(), "{c:?}");
    }
}

#[test]
fn texts_are_trimmed_and_compared_as_in_the_standard_library() {
    for s in ["", " ", "\u{2003}a \r\n", "a", "  a b\u{a0}", "\u{1680}", "\u{200b}x"] {
        assert_eq!(trim(s), s.trim());
        assert_eq!(trim_start(s), s.trim_start());
        assert_eq!(is_blank(s), s.trim().is_empty());
        assert_eq!(to_lower(s), s.to_ascii_lowercase());
        assert_eq!(to_upper(s), s.to_ascii_uppercase());
        assert_eq!(byte_len(s), s.len());
        let expected: Vec<&str> = s.split_whitespace().collect();
        assert_eq!(words_of(s), strings(&expected));
    }
    assert_eq!(to_lower("\u{c9}A"), "\u{c9}a");
    assert_eq!(to_upper("\u{e9}a"), "\u{e9}A");
    assert!(same("a\u{e9}", "a\u{e9}") && !same("a", "ab") && !same("ab", "aB"));
    assert!(starts_with("abc", "ab") && !starts_with("abc", "b") && starts_with("abc", ""));
    assert!(ends_with("abc", "bc") && !ends_with("abc", "b") && !ends_with("c", "bc"));
    assert_eq!(strip_prefix("abc", "ab"), Some("c"));
    assert_eq!(strip_prefix("abc", "b"), None);
    assert!(contains("abcabd", "abd") && !contains("abab", "abb") && contains("", ""));
}

#[test]
fn lines_are_those_of_the_standard_library() {
    for s in ["", "\n", "a", "a\n", "a\r\nb", "a\n\nb\r", "\r\n", "a\r\r\n"] {
        let expected: Vec<&str> = s.lines().collect();
        assert_eq!(lines(s), strings(&expected), "{s:?}");
        let expected: Vec<&str> = s.split('\n').collect();
        assert_eq!(split_at_char(s, '\n'), strings(&expected), "{s:?}");
        assert_eq!(join_texts(&split_at_char(s, '\n'), "\n"), s);
    }
    assert_eq!(join_texts(&strings(&["a", "", "b"]), ", "), "a, , b");
    assert_eq!(join_texts(&[], ", "), "");
}

#[test]
fn numbers_are_written_and_read_in_decimal() {
    for n in [0u64, 7, 10, 999, 1000, u64::MAX] {
        assert_eq!(decimal_text(n), n.to_string());
    }
    for s in ["0", "007", "+5", "", "+", "-1", " 1", "1 ", "x", "18446744073709551615",
        "18446744073709551616", "\u{661}"]
    {
        assert_eq!(parse_usize(s), s.parse::<usize>().ok(), "{s:?}");
    }
}

#[test]
fn texts_are_kept_in_the_order_of_the_standard_library() {
    let list = strings(&["b", "a", "\u{1F600}", "ab", "", "\u{fb01}", "a", "B"]);
    let mut expected = list.clone();
    expected.sort();
    assert_eq!(sort_texts(list.clone()), expected);
    for a in &list {
        for b in &list {
            assert_eq!(comes_before(a, b), a < b, "{a:?} {b:?}");
        }
    }
    let mut distinct = Vec::new();
    for text in &list {
        add_text(&mut distinct, text.clone());
    }
    expected.dedup();
    assert_eq!(distinct, expected);
    assert!(holds_text(&distinct, "ab") && !holds_text(&distinct, "abc"));
}

#[test]
fn pairs_are_kept_in_the_order_of_their_keys() {
    let pair = |k: &str, v: &str| (k.to_string(), v.to_string());
    let mut pairs = Vec::new();
    for (k, v) in [("m", "1"), ("z", "2"), ("a", "3"), ("m", "4"), ("n", "5")] {
        put_pair(&mut pairs, k.to_string(), v.to_string());
    }
    assert_eq!(
        pairs,
        vec![pair("a", "3"), pair("m", "4"), pair("n", "5"), pair("z", "2")]
    );
    merge_pairs(&mut pairs, &vec![pair("b", "6"), pair("z", "7")]);
    assert_eq!(
        pairs,
        vec![pair("a", "3"), pair("b", "6"), pair("m", "4"), pair("n", "5"), pair("z", "7")]
    );
}

#[test]
fn paths_have_one_spelling() {
    for (path, normal) in [
        ("js/./a.js", "js/a.js"),
        ("js\\a.js", "js/a.js"),
        ("/etc/x", "etc/x"),
        (".", ""),
        ("./", ""),
        ("a//b/", "a/b"),
        ("a/../b", "a/../b"),
    ] {
        let spelled = normalize_project_path(path);
        assert_eq!(spelled, normal, "{path}");
        assert_eq!(normalize_project_path(&spelled), spelled);
        assert!(!is_absolute(&spelled));
    }
    assert!(is_absolute("/x") && !is_absolute("x/") && !is_absolute(""));
    assert_eq!(parts_of("a/./b"), strings(&["a", "b"]));
    assert_eq!(join_workspace_relative_path("a/b"), Some(strings(&["a", "b"])));
    assert_eq!(join_workspace_relative_path(""), Some(Vec::new()));
    assert_eq!(join_workspace_relative_path("a/../../b"), None);
    assert_eq!(join_workspace_relative_path("/a"), None);
    assert_eq!(file_name("a/b.txt").as_deref(), Some("b.txt"));
    assert_eq!(file_name("a/.."), None);
    assert_eq!(file_name(""), None);
}
