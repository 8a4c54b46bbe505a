//! Rules that rewrite a request path.
//!
//! A "path" never includes the query string.

use vstd::prelude::*;

use crate::uri::{
    build_uri, join_path_and_query, opt_view, rebuild_outcome, rebuilt_from_text, uri_path, uri_query,
    without_delimiters,
};
use crate::text::{
    match_count, replace_all, replace_all_exec, replace_all_length, replace_first,
    replace_first_covering_all, replace_first_exec, strip_prefix, strip_prefix_exec, strip_suffix,
    strip_suffix_exec,
};

verus! {

/// A rule that rewrites a path such as `/foo/bar/baz` into a new one.
pub trait PathRewriter: Sized {
    /// Whether the rule may be applied to `path` in its current state.
    spec fn admits(&self, path: Seq<char>) -> bool;

    /// Whether `out` is a path that the rule, in its current state, may produce
    /// from `path`.
    spec fn rewrites(&self, path: Seq<char>, out: Seq<char>) -> bool;

    /// Whether rewriting leaves the rule as it was.
    spec fn keeps_state(&self) -> bool;

    /// The new path for `path`.
    fn rewrite(&mut self, path: &str) -> (r: String)
        requires
            old(self).admits(path@),
        ensures
            old(self).rewrites(path@, r@),
            old(self).keeps_state() ==> *final(self) == *old(self),
    ;

    /// Rebuilds the request URI `uri` for the target `scheme` and `authority`:
    /// its path rewritten by this rule, then, where there is one, `?` and its
    /// query, byte for byte.
    fn rewrite_uri(
        &mut self,
        uri: &http::Uri,
        scheme: &http::uri::Scheme,
        authority: &http::uri::Authority,
    ) -> (r: Result<http::Uri, http::Error>)
        requires
            old(self).admits(uri_path(*uri)),
        ensures
            without_delimiters(uri_path(*uri)),
            old(self).keeps_state() ==> *final(self) == *old(self),
            exists|out: Seq<char>|
                old(self).rewrites(uri_path(*uri), out) && rebuild_outcome(
                    match r {
                        Ok(u) => Some(u),
                        Err(_) => None,
                    },
                    out,
                    uri_query(*uri),
                    *scheme,
                    *authority,
                ),
    {
        let path = uri.path();
        let query = uri.query();
        let new_path = self.rewrite(path);
        let ghost out = new_path@;
        let p_and_q = join_path_and_query(new_path, query);
        let r = build_uri(scheme, authority, p_and_q.as_str());
        proof {
            if r is Ok {
                rebuilt_from_text(r->Ok_0, out, opt_view(query), *scheme, *authority);
            }
        }
        r
    }
}

/// Returns the path as it is.
#[derive(Debug, Clone, Copy, PartialEq, Eq)]
pub struct Identity;

impl PathRewriter for Identity {
    open spec fn admits(&self, path: Seq<char>) -> bool {
        true
    }

    open spec fn rewrites(&self, path: Seq<char>, out: Seq<char>) -> bool {
        out == path
    }

    open spec fn keeps_state(&self) -> bool {
        true
    }

    fn rewrite(&mut self, path: &str) -> (r: String) {
        String::from_str(path)
    }
}

/// Returns `self.0` whatever the path is.
#[derive(Debug, Clone, Copy, PartialEq, Eq)]
pub struct Static<'a>(pub &'a str);

impl<'a> PathRewriter for Static<'a> {
    open spec fn admits(&self, path: Seq<char>) -> bool {
        true
    }

    open spec fn rewrites(&self, path: Seq<char>, out: Seq<char>) -> bool {
        out == self.0@
    }

    open spec fn keeps_state(&self) -> bool {
        true
    }

    fn rewrite(&mut self, path: &str) -> (r: String) {
        String::from_str(self.0)
    }
}

/// Rewrites the path by a function of the caller's.
pub struct Func<F>(pub F);

impl<F: FnMut(&str) -> String> PathRewriter for Func<F> {
    open spec fn admits(&self, path: Seq<char>) -> bool {
        forall|p: &str| p@ == path ==> call_requires(self.0, (p,))
    }

    open spec fn rewrites(&self, path: Seq<char>, out: Seq<char>) -> bool {
        exists|p: &str, o: String| p@ == path && o@ == out && call_ensures(self.0, (p,), o)
    }

    open spec fn keeps_state(&self) -> bool {
        false
    }

    fn rewrite(&mut self, path: &str) -> (r: String) {
        (self.0)(path)
    }
}

/// `ReplaceAll(old, new)` replaces every match of `old` by `new`.
#[derive(Debug, Clone, Copy, PartialEq, Eq)]
pub struct ReplaceAll<'a>(pub &'a str, pub &'a str);

impl<'a> PathRewriter for ReplaceAll<'a> {
    open spec fn admits(&self, path: Seq<char>) -> bool {
        true
    }

    open spec fn rewrites(&self, path: Seq<char>, out: Seq<char>) -> bool {
        out == replace_all(path, self.0@, self.1@)
    }

    open spec fn keeps_state(&self) -> bool {
        true
    }

    fn rewrite(&mut self, path: &str) -> (r: String) {
        replace_all_exec(path, self.0, self.1)
    }
}

/// `ReplaceN(old, new, n)` replaces the first `n` matches of `old` by `new`,
/// or all of them where there are fewer.
#[derive(Debug, Clone, Copy, PartialEq, Eq)]
pub struct ReplaceN<'a>(pub &'a str, pub &'a str, pub usize);

impl<'a> PathRewriter for ReplaceN<'a> {
    open spec fn admits(&self, path: Seq<char>) -> bool {
        true
    }

    open spec fn rewrites(&self, path: Seq<char>, out: Seq<char>) -> bool {
        out == replace_first(path, self.0@, self.1@, self.2 as nat)
    }

    open spec fn keeps_state(&self) -> bool {
        true
    }

    fn rewrite(&mut self, path: &str) -> (r: String) {
        replace_first_exec(path, self.0, self.1, self.2)
    }
}

/// `ReplaceAll(old, new)` turns a path with `k` matches of `old` into one whose
/// length is that of the path plus `k` times the difference in length between
/// `new` and `old`.
pub proof fn replace_all_changes_length(rule: ReplaceAll, path: Seq<char>, out: Seq<char>)
    requires
        rule.rewrites(path, out),
    ensures
        out.len() == path.len() + match_count(path, rule.0@) * (rule.1@.len() - rule.0@.len()),
{
    replace_all_length(path, rule.0@, rule.1@);
}

/// `ReplaceN(old, new, n)`, where `n` is at least the number of matches of
/// `old` in the path, rewrites it as `ReplaceAll(old, new)` does.
pub proof fn replace_n_covering_is_replace_all(
    first: ReplaceN,
    all: ReplaceAll,
    path: Seq<char>,
    out: Seq<char>,
)
    requires
        first.0@ == all.0@,
        first.1@ == all.1@,
        first.2 >= match_count(path, all.0@),
    ensures
        first.rewrites(path, out) <==> all.rewrites(path, out),
{
    replace_first_covering_all(path, all.0@, all.1@, first.2 as nat);
}

/// Removes a prefix once, where the path starts with it.
#[derive(Debug, Clone, Copy, PartialEq, Eq)]
pub struct TrimPrefix<'a>(pub &'a str);

impl<'a> PathRewriter for TrimPrefix<'a> {
    open spec fn admits(&self, path: Seq<char>) -> bool {
        true
    }

    open spec fn rewrites(&self, path: Seq<char>, out: Seq<char>) -> bool {
        out == strip_prefix(path, self.0@)
    }

    open spec fn keeps_state(&self) -> bool {
        true
    }

    fn rewrite(&mut self, path: &str) -> (r: String) {
        strip_prefix_exec(path, self.0)
    }
}

/// Removes a suffix once, where the path ends with it.
#[derive(Debug, Clone, Copy, PartialEq, Eq)]
pub struct TrimSuffix<'a>(pub &'a str);

impl<'a> PathRewriter for TrimSuffix<'a> {
    open spec fn admits(&self, path: Seq<char>) -> bool {
        true
    }

    open spec fn rewrites(&self, path: Seq<char>, out: Seq<char>) -> bool {
        out == strip_suffix(path, self.0@)
    }

    open spec fn keeps_state(&self) -> bool {
        true
    }

    fn rewrite(&mut self, path: &str) -> (r: String) {
        strip_suffix_exec(path, self.0)
    }
}

/// Puts `self.0` before the path.
#[derive(Debug, Clone, Copy, PartialEq, Eq)]
pub struct AppendPrefix<'a>(pub &'a str);

impl<'a> PathRewriter for AppendPrefix<'a> {
    open spec fn admits(&self, path: Seq<char>) -> bool {
        true
    }

    open spec fn rewrites(&self, path: Seq<char>, out: Seq<char>) -> bool {
        out == self.0@ + path
    }

    open spec fn keeps_state(&self) -> bool {
        true
    }

    fn rewrite(&mut self, path: &str) -> (r: String) {
        let mut r = String::from_str(self.0);
        r.append(path);
        r
    }
}

/// Puts `self.0` after the path.
#[derive(Debug, Clone, Copy, PartialEq, Eq)]
pub struct AppendSuffix<'a>(pub &'a str);

impl<'a> PathRewriter for AppendSuffix<'a> {
    open spec fn admits(&self, path: Seq<char>) -> bool {
        true
    }

    open spec fn rewrites(&self, path: Seq<char>, out: Seq<char>) -> bool {
        out == path + self.0@
    }

    open spec fn keeps_state(&self) -> bool {
        true
    }

    fn rewrite(&mut self, path: &str) -> (r: String) {
        let mut r = String::from_str(path);
        r.append(self.0);
        r
    }
}

/// Declares the compiled regular expression of the regex crate.
#[verifier::external_type_specification]
#[verifier::external_body]
pub struct ExRegex(regex::Regex);

/// Relies on `regex::Regex::clone`, which shares the compiled program;
/// nothing is stated of the copy.
#[verifier::external_body]
fn copy_regex(re: &regex::Regex) -> regex::Regex {
    re.clone()
}

/// What `re.replacen(haystack, limit, template)` returns: `haystack` with the
/// first `limit` matches of `re` (all of them where `limit` is zero) replaced by
/// `template`, in which `$name` and `$1` stand for the captured groups.
pub uninterp spec fn regex_replaced(
    re: regex::Regex,
    template: Seq<char>,
    limit: nat,
    haystack: Seq<char>,
) -> Seq<char>;

/// Relies on `regex::Regex::replacen` with a `&str` replacement, whose result
/// depends on the expression, the template, the limit and the haystack alone.
#[verifier::external_body]
fn regex_replacen(re: &regex::Regex, haystack: &str, limit: usize, template: &str) -> (r: String)
    ensures
        r@ == regex_replaced(*re, template@, limit as nat, haystack@),
{
    re.replacen(haystack, limit, template).into_owned()
}

/// `RegexAll(re, template)` replaces every match of `re` by `template`, in
/// which `$name` and `$1` stand for the captured groups.
#[derive(Debug)]
pub struct RegexAll<'a>(pub regex::Regex, pub &'a str);

impl<'a> Clone for RegexAll<'a> {
    fn clone(&self) -> (r: Self)
        ensures
            r.1 == self.1,
    {
        RegexAll(copy_regex(&self.0), self.1)
    }
}

impl<'a> PathRewriter for RegexAll<'a> {
    open spec fn admits(&self, path: Seq<char>) -> bool {
        true
    }

    open spec fn rewrites(&self, path: Seq<char>, out: Seq<char>) -> bool {
        out == regex_replaced(self.0, self.1@, 0, path)
    }

    open spec fn keeps_state(&self) -> bool {
        true
    }

    fn rewrite(&mut self, path: &str) -> (r: String) {
        regex_replacen(&self.0, path, 0, self.1)
    }
}

/// `RegexN(re, template, n)` replaces the first `n` matches of `re` by
/// `template`, or all of them where there are fewer; an `n` of zero replaces
/// none.
#[derive(Debug)]
pub struct RegexN<'a>(pub regex::Regex, pub &'a str, pub usize);

impl<'a> Clone for RegexN<'a> {
    fn clone(&self) -> (r: Self)
        ensures
            r.1 == self.1,
            r.2 == self.2,
    {
        RegexN(copy_regex(&self.0), self.1, self.2)
    }
}

impl<'a> PathRewriter for RegexN<'a> {
    open spec fn admits(&self, path: Seq<char>) -> bool {
        true
    }

    open spec fn rewrites(&self, path: Seq<char>, out: Seq<char>) -> bool {
        if self.2 == 0 {
            out == path
        } else {
            out == regex_replaced(self.0, self.1@, self.2 as nat, path)
        }
    }

    open spec fn keeps_state(&self) -> bool {
        true
    }

    fn rewrite(&mut self, path: &str) -> (r: String) {
        if self.2 == 0 {
            String::from_str(path)
        } else {
            regex_replacen(&self.0, path, self.2, self.1)
        }
    }
}

} // verus!
