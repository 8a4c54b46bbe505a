//! The target of a proxy and the request URI rebuilt for it, on top of the
//! `http` crate's URI types.

use vstd::prelude::*;

verus! {

/// Declares `http::uri::Scheme`.
#[verifier::external_type_specification]
#[verifier::external_body]
pub struct ExScheme(http::uri::Scheme);

/// Declares `http::uri::Authority`.
#[verifier::external_type_specification]
#[verifier::external_body]
pub struct ExAuthority(http::uri::Authority);

/// Declares `http::Uri`.
#[verifier::external_type_specification]
#[verifier::external_body]
pub struct ExUri(http::Uri);

/// Declares `http::Error`.
#[verifier::external_type_specification]
#[verifier::external_body]
pub struct ExHttpError(http::Error);

/// Relies on `Scheme::clone`: the copy is the same scheme.
pub assume_specification[ <http::uri::Scheme as Clone>::clone ](s: &http::uri::Scheme) -> (r:
    http::uri::Scheme)
    ensures
        r == *s,
;

/// Relies on `Authority::clone`: the copy is the same authority.
pub assume_specification[ <http::uri::Authority as Clone>::clone ](
    a: &http::uri::Authority,
) -> (r: http::uri::Authority)
    ensures
        r == *a,
;

/// Characters that `http` accepts in a scheme other than `http` and
/// `https`: ASCII letters and digits, `+`, `-`, `.` and `~`.
pub open spec fn scheme_char(c: char) -> bool {
    ('a' <= c <= 'z') || ('A' <= c <= 'Z') || ('0' <= c <= '9') || c == '+' || c == '-' || c
        == '.' || c == '~'
}

/// Whether `http` accepts `s` as a scheme: `http`, `https`, or at most 64
/// scheme characters.
pub open spec fn scheme_accepted(s: Seq<char>) -> bool {
    s == "http"@ || s == "https"@ || (s.len() <= 64 && forall|i: int|
        0 <= i < s.len() ==> scheme_char(#[trigger] s[i]))
}

/// The scheme that `http` parses from the text `s`.
pub uninterp spec fn parsed_scheme(s: Seq<char>) -> http::uri::Scheme;

/// Whether `http` accepts `s` as an authority (`host[:port]`).
pub uninterp spec fn authority_accepted(s: Seq<char>) -> bool;

/// The authority that `http` parses from the text `s`.
pub uninterp spec fn parsed_authority(s: Seq<char>) -> http::uri::Authority;

/// Authorities that `http` refuses: the empty one, and one that holds a space,
/// `/`, `?` or `#`.
pub open spec fn authority_refused(s: Seq<char>) -> bool {
    s.len() == 0 || exists|i: int|
        0 <= i < s.len() && (s[i] == ' ' || s[i] == '/' || s[i] == '?' || s[i] == '#')
}

/// Authorities that `http` accepts: a non-empty text of ASCII letters,
/// digits, `.`, `-`, with at most one `:` (a host, and perhaps a port).
pub open spec fn authority_plain(s: Seq<char>) -> bool {
    &&& s.len() > 0
    &&& forall|i: int|
        0 <= i < s.len() ==> ('a' <= #[trigger] s[i] <= 'z') || ('A' <= s[i] <= 'Z') || ('0'
            <= s[i] <= '9') || s[i] == '.' || s[i] == '-' || s[i] == ':'
    &&& forall|i: int, j: int| 0 <= i < s.len() && 0 <= j < s.len() && s[i] == ':' && s[j] == ':' ==> i == j
}

/// The scheme that `Uri::scheme` returns for `u`.
pub uninterp spec fn uri_scheme(u: http::Uri) -> Option<http::uri::Scheme>;

/// The authority that `Uri::authority` returns for `u`.
pub uninterp spec fn uri_authority(u: http::Uri) -> Option<http::uri::Authority>;

/// The path that `Uri::path` returns for `u`.
pub uninterp spec fn uri_path(u: http::Uri) -> Seq<char>;

/// The query that `Uri::query` returns for `u`.
pub uninterp spec fn uri_query(u: http::Uri) -> Option<Seq<char>>;

/// Relies on `Uri::path`: a path never holds `?` nor `#`, which end it.
pub assume_specification[ http::Uri::path ](u: &http::Uri) -> (r: &str)
    ensures
        r@ == uri_path(*u),
        forall|i: int| 0 <= i < r@.len() ==> r@[i] != '?' && r@[i] != '#',
;

/// Relies on `Uri::query`: a query never holds `#`, which ends it.
pub assume_specification[ http::Uri::query ](u: &http::Uri) -> (r: Option<&str>)
    ensures
        match r {
            Some(q) => uri_query(*u) == Some(q@) && forall|i: int| 0 <= i < q@.len() ==> q@[i] != '#',
            None => uri_query(*u) is None,
        },
;

/// Whether `http` accepts `s` as the path and query of a URI that has a
/// scheme and an authority.
pub uninterp spec fn path_and_query_accepted(s: Seq<char>) -> bool;

/// Characters that `http` refuses in the path of a URI: controls, space,
/// `<`, `>`, `` ` `` and DEL.
pub open spec fn refused_in_path(c: char) -> bool {
    c <= ' ' || c == '<' || c == '>' || c == '`' || c == '\x7f'
}

/// Characters that `http` refuses in the query of a URI: controls, space,
/// `"`, `<`, `>` and DEL.
pub open spec fn refused_in_query(c: char) -> bool {
    c <= ' ' || c == '"' || c == '<' || c == '>' || c == '\x7f'
}

/// Whether no `?` and no `#` occurs in `s` before position `i`.
pub open spec fn in_path_part(s: Seq<char>, i: int) -> bool {
    forall|j: int| 0 <= j < i ==> s[j] != '?' && s[j] != '#'
}

/// Path-and-query texts that `http` refuses: a text that does not start with
/// `/`, `?` or `#` (but for `*`), and one whose path holds a refused character.
pub open spec fn path_and_query_refused(s: Seq<char>) -> bool {
    ||| (s.len() > 0 && s[0] != '/' && s[0] != '?' && s[0] != '#' && s != seq!['*'])
    ||| exists|i: int| 0 <= i < s.len() && refused_in_path(#[trigger] s[i]) && in_path_part(s, i)
}

/// Path-and-query texts that `http` accepts whatever else they hold: those that
/// start with `/`, are short enough, hold no `#`, and hold no character refused
/// in a path before the first `?` nor one refused in a query after it.
pub open spec fn path_and_query_plain(s: Seq<char>) -> bool {
    &&& 1 <= s.len() <= 16383
    &&& s[0] == '/'
    &&& forall|i: int|
        0 <= i < s.len() ==> #[trigger] s[i] != '#' && (in_path_part(s, i) ==> !refused_in_path(s[i]))
            && (!in_path_part(s, i) ==> !refused_in_query(s[i]))
}

/// The query of a path-and-query text: what follows the first `?` of the path,
/// up to the first `#` or the end.
pub open spec fn query_of(s: Seq<char>) -> Option<Seq<char>> {
    if exists|i: int| 0 <= i < s.len() && s[i] == '?' && in_path_part(s, i) {
        let i = choose|i: int| 0 <= i < s.len() && s[i] == '?' && in_path_part(s, i);
        let rest = s.skip(i + 1);
        if exists|j: int| 0 <= j < rest.len() && rest[j] == '#' {
            let j = choose|j: int|
                0 <= j < rest.len() && rest[j] == '#' && forall|k: int|
                    0 <= k < j ==> rest[k] != '#';
            Some(rest.take(j))
        } else {
            Some(rest)
        }
    } else {
        None
    }
}

/// The path of a path-and-query text: what comes before the first `?` or `#`.
pub open spec fn path_part(s: Seq<char>) -> Seq<char>
    decreases s.len(),
{
    if s.len() == 0 || s[0] == '?' || s[0] == '#' {
        Seq::empty()
    } else {
        seq![s[0]] + path_part(s.drop_first())
    }
}

/// The path of a URI built from a path-and-query text: its path part, or `/`
/// where that is empty.
pub open spec fn path_text(s: Seq<char>) -> Seq<char> {
    if path_part(s).len() == 0 {
        seq!['/']
    } else {
        path_part(s)
    }
}

/// Whether `s` holds neither `?` nor `#`.
pub open spec fn without_delimiters(s: Seq<char>) -> bool {
    forall|i: int| 0 <= i < s.len() ==> s[i] != '?' && s[i] != '#'
}

/// What `u`, built for the target `scheme` and `authority` from the
/// rewritten path `out` and the query `query`, holds: the target, the path
/// and the query of the joined text; and so, where `out` holds no `?` nor `#`,
/// the query given and, where `out` is not empty, `out` as its path.
pub open spec fn rebuilt(
    u: http::Uri,
    out: Seq<char>,
    query: Option<Seq<char>>,
    scheme: http::uri::Scheme,
    authority: http::uri::Authority,
) -> bool {
    &&& uri_scheme(u) == Some(scheme)
    &&& uri_authority(u) == Some(authority)
    &&& uri_path(u) == path_text(joined(out, query))
    &&& uri_query(u) == query_of(joined(out, query))
    &&& without_delimiters(out) ==> uri_query(u) == query
    &&& without_delimiters(out) && out.len() > 0 ==> uri_path(u) == out
}

/// What is known of a URI rebuilt (or not, `None`) for the target `scheme`
/// and `authority` from the rewritten path `out` and the query `query`.
pub open spec fn rebuild_outcome(
    r: Option<http::Uri>,
    out: Seq<char>,
    query: Option<Seq<char>>,
    scheme: http::uri::Scheme,
    authority: http::uri::Authority,
) -> bool {
    &&& build_outcome(r is Some, joined(out, query))
    &&& r matches Some(u) ==> rebuilt(u, out, query, scheme, authority)
}

/// The text of an optional string.
pub open spec fn opt_view(q: Option<&str>) -> Option<Seq<char>> {
    match q {
        Some(q) => Some(q@),
        None => None,
    }
}

/// A path followed, where there is a query, by `?` and the query.
pub open spec fn joined(path: Seq<char>, query: Option<Seq<char>>) -> Seq<char> {
    match query {
        Some(q) => path + seq!['?'] + q,
        None => path,
    }
}

/// What is known of whether `http` builds a URI from the path and query `s`;
/// `built` tells whether it did.
pub open spec fn build_outcome(built: bool, s: Seq<char>) -> bool {
    &&& built <==> path_and_query_accepted(s)
    &&& path_and_query_refused(s) ==> !built
    &&& path_and_query_plain(s) ==> built
}

/// Relies on `Scheme::try_from(&str)`: it accepts `http`, `https`, and up to
/// 64 scheme characters; the scheme depends on the text alone.
#[verifier::external_body]
pub(crate) fn parse_scheme(s: &str) -> (r: Result<http::uri::Scheme, http::Error>)
    ensures
        r is Ok <==> scheme_accepted(s@),
        r matches Ok(v) ==> v == parsed_scheme(s@),
{
    http::uri::Scheme::try_from(s).map_err(http::Error::from)
}

/// Relies on `Authority::try_from(&str)`: an empty text, and one that holds a
/// space, `/`, `?` or `#`, is refused; a host of letters, digits, `.` and `-`
/// with at most one `:` is accepted; the authority depends on the text alone.
#[verifier::external_body]
pub(crate) fn parse_authority(s: &str) -> (r: Result<http::uri::Authority, http::Error>)
    ensures
        r is Ok <==> authority_accepted(s@),
        authority_refused(s@) ==> r is Err,
        authority_plain(s@) ==> r is Ok,
        r matches Ok(v) ==> v == parsed_authority(s@),
{
    http::uri::Authority::try_from(s).map_err(http::Error::from)
}

/// Relies on `Uri::builder()` with a scheme and an authority set, whose
/// `build` fails only where the path and query does not parse (an empty one
/// stands for `/`); the URI holds the scheme, the authority, and the path and
/// query parsed from the text.
#[verifier::external_body]
pub(crate) fn build_uri(
    scheme: &http::uri::Scheme,
    authority: &http::uri::Authority,
    path_and_query: &str,
) -> (r: Result<http::Uri, http::Error>)
    ensures
        r is Ok <==> path_and_query_accepted(path_and_query@),
        path_and_query_refused(path_and_query@) ==> r is Err,
        path_and_query_plain(path_and_query@) ==> r is Ok,
        r matches Ok(u) ==> uri_scheme(u) == Some(*scheme) && uri_authority(u) == Some(*authority)
            && uri_path(u) == path_text(path_and_query@) && uri_query(u) == query_of(
            path_and_query@,
        ),
{
    http::Uri::builder().scheme(scheme.clone()).authority(authority.clone()).path_and_query(
        path_and_query,
    ).build()
}

/// `path`, followed, where there is a query, by `?` and the query as it is.
pub fn join_path_and_query(path: String, query: Option<&str>) -> (r: String)
    ensures
        r@ == joined(path@, opt_view(query)),
{
    match query {
        Some(q) => {
            let mut r = path;
            proof {
                reveal_strlit("?");
            }
            r.append("?");
            r.append(q);
            r
        },
        None => path,
    }
}

/// Where the path holds neither `?` nor `#`, and the query no `#`, the query
/// of the joined text is exactly the query given, and without a query there is
/// none.
pub proof fn query_kept(path: Seq<char>, query: Option<Seq<char>>)
    requires
        forall|i: int| 0 <= i < path.len() ==> path[i] != '?' && path[i] != '#',
        query matches Some(q) ==> forall|i: int| 0 <= i < q.len() ==> q[i] != '#',
    ensures
        query_of(joined(path, query)) == query,
{
    let s = joined(path, query);
    match query {
        Some(q) => {
            let n = path.len() as int;
            assert(s[n] == '?');
            assert(in_path_part(s, n));
            let i = choose|i: int| 0 <= i < s.len() && s[i] == '?' && in_path_part(s, i);
            if i < n {
                assert(path[i] == '?');
            }
            if i > n {
                assert(s[n] == '?');
            }
            assert(i == n);
            let rest = s.skip(i + 1);
            assert(rest =~= q);
        },
        None => {
            assert(s == path);
        },
    }
}

/// Where the rewritten path holds a character refused in a path, what is
/// joined from it is refused whatever the query.
pub proof fn refused_path_stays_refused(path: Seq<char>, query: Option<Seq<char>>, i: int)
    requires
        0 <= i < path.len(),
        refused_in_path(path[i]),
        in_path_part(path, i),
    ensures
        path_and_query_refused(joined(path, query)),
{
    let s = joined(path, query);
    assert(s[i] == path[i]);
    assert(in_path_part(s, i));
}

/// The path part of a path holding neither `?` nor `#`, joined with a query,
/// is that path.
pub proof fn path_kept(path: Seq<char>, query: Option<Seq<char>>)
    requires
        without_delimiters(path),
    ensures
        path_part(joined(path, query)) == path,
    decreases path.len(),
{
    let s = joined(path, query);
    if path.len() == 0 {
        assert(s.len() == 0 || s[0] == '?');
    } else {
        let rest = path.drop_first();
        path_kept(rest, query);
        assert(s.drop_first() =~= joined(rest, query));
        assert(path =~= seq![path[0]] + rest);
    }
}

/// A URI that holds the target and the path and query of the joined text is
/// what [`rebuilt`] says, where the query holds no `#`.
pub proof fn rebuilt_from_text(
    u: http::Uri,
    out: Seq<char>,
    query: Option<Seq<char>>,
    scheme: http::uri::Scheme,
    authority: http::uri::Authority,
)
    requires
        uri_scheme(u) == Some(scheme),
        uri_authority(u) == Some(authority),
        uri_path(u) == path_text(joined(out, query)),
        uri_query(u) == query_of(joined(out, query)),
        query matches Some(q) ==> forall|i: int| 0 <= i < q.len() ==> q[i] != '#',
    ensures
        rebuilt(u, out, query, scheme, authority),
{
    if without_delimiters(out) {
        query_kept(out, query);
        path_kept(out, query);
    }
}

} // verus!
