use regex::Regex;
use reverse_proxy_service::text::{replace_all_exec, replace_first_exec, strip_suffix_exec};
use reverse_proxy_service::{
    AppendPrefix, AppendSuffix, Func, Identity, PathRewriter, RegexAll, RegexN, ReplaceAll,
    ReplaceN, Static, TrimPrefix, TrimSuffix,
};

#[test]
fn rewrite_static() {
    let path = "/foo/bar";
    let mut rw = Static("/baz");
    assert_eq!(rw.rewrite(path), "/baz");
}

#[test]
fn replace() {
    let path = "/foo/bar/foo/baz/foo";
    let mut rw = ReplaceAll("foo", "FOO");
    assert_eq!(rw.rewrite(path), "/FOO/bar/FOO/baz/FOO");

    let path = "/foo/bar/foo/baz/foo";
    let mut rw = ReplaceAll("/foo", "");
    assert_eq!(rw.rewrite(path), "/bar/baz");

    let path = "/foo/bar/foo/baz/foo";
    let mut rw = ReplaceN("foo", "FOO", 2);
    assert_eq!(rw.rewrite(path), "/FOO/bar/FOO/baz/foo");
}

#[test]
fn trim() {
    let path = "/foo/foo/bar";
    let mut rw = TrimPrefix("/foo");
    assert_eq!(rw.rewrite(path), "/foo/bar");

    let path = "/foo/foo/bar";
    let mut rw = TrimPrefix("foo");
    assert_eq!(rw.rewrite(path), "/foo/foo/bar");

    let path = "/bar/foo/foo";
    let mut rw = TrimSuffix("foo");
    assert_eq!(rw.rewrite(path), "/bar/foo/");

    let path = "/bar/foo/foo";
    let mut rw = TrimSuffix("foo/");
    assert_eq!(rw.rewrite(path), "/bar/foo/foo");
}

#[test]
fn append() {
    let path = "/foo/bar";
    let mut rw = AppendPrefix("/baz");
    assert_eq!(rw.rewrite(path), "/baz/foo/bar");

    let path = "/foo/bar";
    let mut rw = AppendSuffix("/baz");
    assert_eq!(rw.rewrite(path), "/foo/bar/baz");
}

#[test]
fn regex() {
    let path = "/2021/10/21/2021/12/02/2022/01/13";
    let mut rw = RegexAll(
        Regex::new(r"(?P<y>\d{4})/(?P<m>\d{2})/(?P<d>\d{2})").unwrap(),
        "$m-$d-$y",
    );
    assert_eq!(rw.rewrite(path), "/10-21-2021/12-02-2021/01-13-2022");

    let path = "/2021/10/21/2021/12/02/2022/01/13";
    let mut rw = RegexN(
        Regex::new(r"(?P<y>\d{4})/(?P<m>\d{2})/(?P<d>\d{2})").unwrap(),
        "$m-$d-$y",
        2,
    );
    assert_eq!(rw.rewrite(path), "/10-21-2021/12-02-2021/2022/01/13");
}

#[test]
fn func() {
    let path = "/abcdefg";
    let mut rw = Func(|path: &str| path.len().to_string());
    assert_eq!(rw.rewrite(path), "8");
}

#[test]
fn identity_keeps_path() {
    let mut rw = Identity;
    assert_eq!(rw.rewrite("/a/b?c"), "/a/b?c");
    assert_eq!(rw.rewrite(""), "");
}

#[test]
fn replace_all_length_matches_count() {
    // Three matches of "foo" (3 chars) replaced by "quux" (4 chars).
    let path = "/foo/bar/foo/baz/foo";
    let out = replace_all_exec(path, "foo", "quux");
    assert_eq!(out, "/quux/bar/quux/baz/quux");
    assert_eq!(out.len(), path.len() + 3 * (4 - 3));
}

#[test]
fn replace_all_without_match_is_unchanged() {
    let mut rw = ReplaceAll("zzz", "y");
    assert_eq!(rw.rewrite("/foo/bar"), "/foo/bar");
}

#[test]
fn replace_all_matches_do_not_overlap() {
    assert_eq!(replace_all_exec("aaaa", "aa", "b"), "bb");
    assert_eq!(replace_all_exec("aaa", "aa", "b"), "ba");
}

#[test]
fn replace_empty_pattern_at_every_boundary() {
    assert_eq!(replace_all_exec("ab", "", "x"), "xaxbx");
    assert_eq!(replace_all_exec("", "", "x"), "x");
    assert_eq!(replace_first_exec("ab", "", "x", 2), "xaxb");
    assert_eq!(replace_first_exec("ab", "", "x", 7), "xaxbx");
}

#[test]
fn replace_n_beyond_count_equals_replace_all() {
    let path = "/foo/bar/foo";
    let mut all = ReplaceAll("foo", "baz");
    let mut many = ReplaceN("foo", "baz", 5);
    assert_eq!(many.rewrite(path), all.rewrite(path));
    assert_eq!(many.rewrite(path), "/baz/bar/baz");
}

#[test]
fn replace_n_zero_changes_nothing() {
    let mut rw = ReplaceN("foo", "baz", 0);
    assert_eq!(rw.rewrite("/foo/foo"), "/foo/foo");
}

#[test]
fn replace_non_ascii() {
    assert_eq!(replace_all_exec("/é/ü/é", "é", "e"), "/e/ü/e");
}

#[test]
fn trim_prefix_removes_once() {
    let mut rw = TrimPrefix("/foo");
    assert_eq!(rw.rewrite("/foo/foo/bar"), "/foo/bar");
    assert_eq!(rw.rewrite("/foo"), "");
}

#[test]
fn trim_suffix_longer_than_path() {
    assert_eq!(strip_suffix_exec("ab", "xab"), "ab");
    let mut rw = TrimSuffix("/bar");
    assert_eq!(rw.rewrite("/foo/bar/bar"), "/foo/bar");
}

#[test]
fn regex_n_zero_replaces_none() {
    let mut rw = RegexN(Regex::new(r"\d+").unwrap(), "N", 0);
    assert_eq!(rw.rewrite("/1/22/333"), "/1/22/333");
}

#[test]
fn regex_all_without_match() {
    let mut rw = RegexAll(Regex::new(r"\d+").unwrap(), "N");
    assert_eq!(rw.rewrite("/a/b"), "/a/b");
}

#[test]
fn cloned_regex_rule_rewrites_alike() {
    let rw = RegexN(Regex::new(r"o+").unwrap(), "0", 1);
    let mut copy = rw.clone();
    assert_eq!(copy.rewrite("/foo/boo"), "/f0/boo");
}
