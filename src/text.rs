//! Character-level string operations on which the rewrite rules are built.
//!
//! Patterns are searched for from left to right, and matches never overlap.
//! An empty pattern matches at every character boundary, the start and the
//! end of the text included.

use vstd::prelude::*;

verus! {

/// Whether `pat` occurs in `s` at position `i`.
pub open spec fn occurs_at(s: Seq<char>, pat: Seq<char>, i: int) -> bool {
    0 <= i && i + pat.len() <= s.len() && s.subrange(i, i + pat.len()) == pat
}

/// `s` with every match of `from` replaced by `to`.
pub open spec fn replace_all(s: Seq<char>, from: Seq<char>, to: Seq<char>) -> Seq<char>
    decreases s.len(),
{
    if from.len() == 0 {
        if s.len() == 0 {
            to
        } else {
            to + seq![s[0]] + replace_all(s.drop_first(), from, to)
        }
    } else if s.len() < from.len() {
        s
    } else if s.take(from.len() as int) == from {
        to + replace_all(s.skip(from.len() as int), from, to)
    } else {
        seq![s[0]] + replace_all(s.drop_first(), from, to)
    }
}

/// `s` with its first `n` matches of `from` replaced by `to`; where there are
/// fewer than `n`, all of them.
pub open spec fn replace_first(s: Seq<char>, from: Seq<char>, to: Seq<char>, n: nat) -> Seq<char>
    decreases s.len(),
{
    if n == 0 {
        s
    } else if from.len() == 0 {
        if s.len() == 0 {
            to
        } else {
            to + seq![s[0]] + replace_first(s.drop_first(), from, to, (n - 1) as nat)
        }
    } else if s.len() < from.len() {
        s
    } else if s.take(from.len() as int) == from {
        to + replace_first(s.skip(from.len() as int), from, to, (n - 1) as nat)
    } else {
        seq![s[0]] + replace_first(s.drop_first(), from, to, n)
    }
}

/// The number of matches of `pat` in `s`.
pub open spec fn match_count(s: Seq<char>, pat: Seq<char>) -> nat
    decreases s.len(),
{
    if pat.len() == 0 {
        s.len() + 1
    } else if s.len() < pat.len() {
        0
    } else if s.take(pat.len() as int) == pat {
        1 + match_count(s.skip(pat.len() as int), pat)
    } else {
        match_count(s.drop_first(), pat)
    }
}

/// `s` without `prefix` where it starts with it; `s` otherwise.
pub open spec fn strip_prefix(s: Seq<char>, prefix: Seq<char>) -> Seq<char> {
    if prefix.is_prefix_of(s) {
        s.skip(prefix.len() as int)
    } else {
        s
    }
}

/// Whether `s` ends with `suffix`.
pub open spec fn ends_with(s: Seq<char>, suffix: Seq<char>) -> bool {
    suffix.len() <= s.len() && s.skip(s.len() - suffix.len()) == suffix
}

/// `s` without `suffix` where it ends with it; `s` otherwise.
pub open spec fn strip_suffix(s: Seq<char>, suffix: Seq<char>) -> Seq<char> {
    if ends_with(s, suffix) {
        s.take(s.len() - suffix.len())
    } else {
        s
    }
}

/// The characters of `s`, in order.
pub fn chars_of(s: &str) -> (r: Vec<char>)
    ensures
        r@ == s@,
{
    let mut r: Vec<char> = Vec::new();
    for c in it: s.chars()
        invariant
            r@ == it.seq().take(it.index() as int),
            it.seq() == s@,
    {
        r.push(c);
    }
    r
}

/// Whether `pat` occurs in `s` at position `i`.
fn occurs_at_exec(s: &Vec<char>, pat: &Vec<char>, i: usize) -> (r: bool)
    requires
        i <= s.len(),
    ensures
        r == occurs_at(s@, pat@, i as int),
{
    if pat.len() > s.len() - i {
        return false;
    }
    let mut j: usize = 0;
    while j < pat.len()
        invariant
            i + pat.len() <= s.len(),
            j <= pat.len(),
            forall|k: int| 0 <= k < j ==> s@[i + k] == pat@[k],
        decreases pat.len() - j,
    {
        if s[i + j] != pat[j] {
            assert(s@.subrange(i as int, i + pat.len())[j as int] != pat@[j as int]);
            return false;
        }
        j = j + 1;
    }
    assert(s@.subrange(i as int, i + pat.len()) =~= pat@);
    true
}

proof fn lemma_replace_all_step(s: Seq<char>, from: Seq<char>, to: Seq<char>, i: int)
    requires
        from.len() > 0,
        0 <= i,
        i + from.len() <= s.len(),
    ensures
        occurs_at(s, from, i) ==> replace_all(s.skip(i), from, to) == to + replace_all(
            s.skip(i + from.len()),
            from,
            to,
        ),
        !occurs_at(s, from, i) ==> replace_all(s.skip(i), from, to) == seq![s[i]] + replace_all(
            s.skip(i + 1),
            from,
            to,
        ),
{
    assert(s.skip(i).take(from.len() as int) =~= s.subrange(i, i + from.len()));
    assert(s.skip(i).skip(from.len() as int) =~= s.skip(i + from.len()));
    assert(s.skip(i).drop_first() =~= s.skip(i + 1));
}

/// `s` with every match of `from` replaced by `to`.
pub fn replace_all_exec(s: &str, from: &str, to: &str) -> (r: String)
    ensures
        r@ == replace_all(s@, from@, to@),
{
    let sc = chars_of(s);
    let fc = chars_of(from);
    let n = sc.len();
    let m = fc.len();
    let mut out = String::new();
    assert(s@.skip(0) =~= s@);
    assert(out@ + replace_all(s@, from@, to@) =~= replace_all(s@, from@, to@));
    if m == 0 {
        let mut i: usize = 0;
        while i < n
            invariant
                n == s@.len(),
                from@.len() == 0,
                i <= n,
                out@ + replace_all(s@.skip(i as int), from@, to@) == replace_all(s@, from@, to@),
            decreases n - i,
        {
            assert(s@.skip(i as int).drop_first() =~= s@.skip(i + 1));
            let c = s.substring_char(i, i + 1);
            assert(c@ =~= seq![s@[i as int]]);
            out.append(to);
            out.append(c);
            assert(out@ + replace_all(s@.skip(i + 1), from@, to@) =~= replace_all(s@, from@, to@));
            i = i + 1;
        }
        assert(s@.skip(n as int) =~= Seq::<char>::empty());
        out.append(to);
        return out;
    }
    let mut last: usize = 0;
    let mut i: usize = 0;
    assert(out@ + s@.subrange(0, 0) + replace_all(s@, from@, to@) =~= replace_all(s@, from@, to@));
    while m <= n - i
        invariant
            n == s@.len(),
            sc@ == s@,
            fc@ == from@,
            m == from@.len(),
            m > 0,
            last <= i <= n,
            out@ + s@.subrange(last as int, i as int) + replace_all(s@.skip(i as int), from@, to@)
                == replace_all(s@, from@, to@),
        decreases n - i,
    {
        proof {
            lemma_replace_all_step(s@, from@, to@, i as int);
        }
        if occurs_at_exec(&sc, &fc, i) {
            let run = s.substring_char(last, i);
            out.append(run);
            out.append(to);
            assert(s@.subrange((i + m) as int, (i + m) as int) =~= Seq::<char>::empty());
            assert(out@ + s@.subrange((i + m) as int, (i + m) as int) + replace_all(
                s@.skip((i + m) as int),
                from@,
                to@,
            ) =~= replace_all(s@, from@, to@));
            i = i + m;
            last = i;
        } else {
            assert(s@.subrange(last as int, i + 1) =~= s@.subrange(last as int, i as int) + seq![
                s@[i as int],
            ]);
            assert(out@ + s@.subrange(last as int, i + 1) + replace_all(
                s@.skip(i + 1),
                from@,
                to@,
            ) =~= replace_all(s@, from@, to@));
            i = i + 1;
        }
    }
    assert(replace_all(s@.skip(i as int), from@, to@) == s@.skip(i as int));
    let run = s.substring_char(last, n);
    out.append(run);
    assert(s@.subrange(last as int, i as int) + s@.skip(i as int) =~= s@.subrange(
        last as int,
        n as int,
    ));
    assert(out@ =~= replace_all(s@, from@, to@));
    out
}

proof fn lemma_replace_first_step(s: Seq<char>, from: Seq<char>, to: Seq<char>, i: int, k: nat)
    requires
        from.len() > 0,
        k > 0,
        0 <= i,
        i + from.len() <= s.len(),
    ensures
        occurs_at(s, from, i) ==> replace_first(s.skip(i), from, to, k) == to + replace_first(
            s.skip(i + from.len()),
            from,
            to,
            (k - 1) as nat,
        ),
        !occurs_at(s, from, i) ==> replace_first(s.skip(i), from, to, k) == seq![s[i]]
            + replace_first(s.skip(i + 1), from, to, k),
{
    assert(s.skip(i).take(from.len() as int) =~= s.subrange(i, i + from.len()));
    assert(s.skip(i).skip(from.len() as int) =~= s.skip(i + from.len()));
    assert(s.skip(i).drop_first() =~= s.skip(i + 1));
}

/// `s` with its first `n` matches of `from` replaced by `to`; where there are
/// fewer than `n`, all of them.
pub fn replace_first_exec(s: &str, from: &str, to: &str, n: usize) -> (r: String)
    ensures
        r@ == replace_first(s@, from@, to@, n as nat),
{
    let sc = chars_of(s);
    let fc = chars_of(from);
    let len = sc.len();
    let m = fc.len();
    let mut out = String::new();
    let mut done: usize = 0;
    let mut i: usize = 0;
    assert(s@.skip(0) =~= s@);
    if m == 0 {
        assert(out@ + replace_first(s@, from@, to@, n as nat) =~= replace_first(s@, from@, to@, n as nat));
        while i < len && done < n
            invariant
                len == s@.len(),
                from@.len() == 0,
                i <= len,
                done <= n,
                out@ + replace_first(s@.skip(i as int), from@, to@, (n - done) as nat)
                    == replace_first(s@, from@, to@, n as nat),
            decreases len - i,
        {
            assert(s@.skip(i as int).drop_first() =~= s@.skip(i + 1));
            let c = s.substring_char(i, i + 1);
            assert(c@ =~= seq![s@[i as int]]);
            out.append(to);
            out.append(c);
            assert(out@ + replace_first(s@.skip(i + 1), from@, to@, (n - (done + 1)) as nat)
                =~= replace_first(s@, from@, to@, n as nat));
            i = i + 1;
            done = done + 1;
        }
        if done < n {
            assert(s@.skip(i as int) =~= Seq::<char>::empty());
            out.append(to);
        } else {
            let rest = s.substring_char(i, len);
            assert(rest@ =~= s@.skip(i as int));
            out.append(rest);
        }
        return out;
    }
    let mut last: usize = 0;
    assert(out@ + s@.subrange(0, 0) + replace_first(s@, from@, to@, n as nat) =~= replace_first(
        s@,
        from@,
        to@,
        n as nat,
    ));
    while done < n && m <= len - i
        invariant
            len == s@.len(),
            sc@ == s@,
            fc@ == from@,
            m == from@.len(),
            m > 0,
            done <= n,
            last <= i <= len,
            out@ + s@.subrange(last as int, i as int) + replace_first(
                s@.skip(i as int),
                from@,
                to@,
                (n - done) as nat,
            ) == replace_first(s@, from@, to@, n as nat),
        decreases len - i,
    {
        proof {
            lemma_replace_first_step(s@, from@, to@, i as int, (n - done) as nat);
        }
        if occurs_at_exec(&sc, &fc, i) {
            let run = s.substring_char(last, i);
            out.append(run);
            out.append(to);
            assert(out@ + s@.subrange((i + m) as int, (i + m) as int) + replace_first(
                s@.skip((i + m) as int),
                from@,
                to@,
                (n - (done + 1)) as nat,
            ) =~= replace_first(s@, from@, to@, n as nat));
            i = i + m;
            last = i;
            done = done + 1;
        } else {
            assert(s@.subrange(last as int, i + 1) =~= s@.subrange(last as int, i as int) + seq![
                s@[i as int],
            ]);
            assert(out@ + s@.subrange(last as int, i + 1) + replace_first(
                s@.skip(i + 1),
                from@,
                to@,
                (n - done) as nat,
            ) =~= replace_first(s@, from@, to@, n as nat));
            i = i + 1;
        }
    }
    assert(replace_first(s@.skip(i as int), from@, to@, (n - done) as nat) == s@.skip(i as int));
    let run = s.substring_char(last, len);
    out.append(run);
    assert(s@.subrange(last as int, i as int) + s@.skip(i as int) =~= s@.subrange(
        last as int,
        len as int,
    ));
    assert(out@ =~= replace_first(s@, from@, to@, n as nat));
    out
}

/// Whether `s` starts with `prefix`.
fn starts_with_exec(s: &Vec<char>, prefix: &Vec<char>) -> (r: bool)
    ensures
        r == prefix@.is_prefix_of(s@),
{
    let r = occurs_at_exec(s, prefix, 0);
    assert(r ==> s@.subrange(0, prefix@.len() as int) == prefix@);
    proof {
        if prefix@.is_prefix_of(s@) {
            assert(s@.subrange(0, prefix@.len() as int) =~= prefix@);
        }
    }
    r
}

/// `s` without `prefix` where it starts with it; `s` otherwise.
pub fn strip_prefix_exec(s: &str, prefix: &str) -> (r: String)
    ensures
        r@ == strip_prefix(s@, prefix@),
{
    let sc = chars_of(s);
    let pc = chars_of(prefix);
    if starts_with_exec(&sc, &pc) {
        let rest = s.substring_char(pc.len(), sc.len());
        assert(rest@ =~= s@.skip(prefix@.len() as int));
        String::from_str(rest)
    } else {
        String::from_str(s)
    }
}

/// `s` without `suffix` where it ends with it; `s` otherwise.
pub fn strip_suffix_exec(s: &str, suffix: &str) -> (r: String)
    ensures
        r@ == strip_suffix(s@, suffix@),
{
    let sc = chars_of(s);
    let pc = chars_of(suffix);
    if pc.len() <= sc.len() && occurs_at_exec(&sc, &pc, sc.len() - pc.len()) {
        assert(s@.subrange(s@.len() - suffix@.len(), s@.len() as int) =~= s@.skip(
            s@.len() - suffix@.len(),
        ));
        let rest = s.substring_char(0, sc.len() - pc.len());
        assert(rest@ =~= s@.take(s@.len() - suffix@.len()));
        String::from_str(rest)
    } else {
        proof {
            if ends_with(s@, suffix@) {
                assert(s@.subrange(s@.len() - suffix@.len(), s@.len() as int) =~= s@.skip(
                    s@.len() - suffix@.len(),
                ));
            }
        }
        String::from_str(s)
    }
}

/// Replacing every match of `from` by `to` changes the length by the number
/// of matches times the difference in length between `to` and `from`.
pub proof fn replace_all_length(s: Seq<char>, from: Seq<char>, to: Seq<char>)
    ensures
        replace_all(s, from, to).len() == s.len() + match_count(s, from) * (to.len() - from.len()),
    decreases s.len(),
{
    let total = match_count(s, from) as int;
    let d = to.len() - from.len();
    if from.len() == 0 {
        if s.len() > 0 {
            replace_all_length(s.drop_first(), from, to);
            let rest = match_count(s.drop_first(), from) as int;
            assert(total * d == d + rest * d) by (nonlinear_arith)
                requires
                    total == rest + 1,
            ;
        } else {
            assert(total * d == d) by (nonlinear_arith)
                requires
                    total == 1,
            ;

        }
    } else if s.len() < from.len() {
        assert(total * d == 0) by (nonlinear_arith)
            requires
                total == 0,
        ;
    } else if s.take(from.len() as int) == from {
        replace_all_length(s.skip(from.len() as int), from, to);
        let rest = match_count(s.skip(from.len() as int), from) as int;
        assert(total * d == d + rest * d) by (nonlinear_arith)
            requires
                total == rest + 1,
        ;
    } else {
        replace_all_length(s.drop_first(), from, to);
    }
}

/// Replacing the first `n` matches, where `n` is at least the number of
/// matches, is replacing all of them.
pub proof fn replace_first_covering_all(s: Seq<char>, from: Seq<char>, to: Seq<char>, n: nat)
    requires
        n >= match_count(s, from),
    ensures
        replace_first(s, from, to, n) == replace_all(s, from, to),
    decreases s.len(),
{
    if from.len() == 0 {
        if s.len() > 0 {
            replace_first_covering_all(s.drop_first(), from, to, (n - 1) as nat);
        }
    } else if s.len() < from.len() {
    } else if s.take(from.len() as int) == from {
        replace_first_covering_all(s.skip(from.len() as int), from, to, (n - 1) as nat);
    } else {
        replace_first_covering_all(s.drop_first(), from, to, n);
    }
}

} // verus!
