//! Command-template utilities: placeholder substitution for the shell command
//! a handler runs, plus small verified string helpers.

use vstd::prelude::*;

verus! {

/// Leftmost, non-overlapping replacement of every occurrence of `pat` in `s`
/// by `to`. With an empty pattern, or once fewer than `pat.len()` characters
/// remain, the rest of the string is kept unchanged.
pub open spec fn replace_all_spec(s: Seq<char>, pat: Seq<char>, to: Seq<char>) -> Seq<char>
    decreases s.len(),
{
    if pat.len() == 0 || s.len() < pat.len() {
        s
    } else if s.subrange(0, pat.len() as int) == pat {
        to + replace_all_spec(s.skip(pat.len() as int), pat, to)
    } else {
        seq![s[0]] + replace_all_spec(s.skip(1), pat, to)
    }
}

/// Whether the characters of `pat` occur in `s` starting at position `at`.
fn matches_at(s: &str, pat: &str, at: usize, n: usize, m: usize) -> (r: bool)
    requires
        n == s@.len(),
        m == pat@.len(),
        at + m <= n,
    ensures
        r == (s@.subrange(at as int, at + m) == pat@),
{
    let mut j: usize = 0;
    while j < m
        invariant
            n == s@.len(),
            m == pat@.len(),
            at + m <= n,
            j <= m,
            forall|k: int| 0 <= k < j ==> s@[at + k] == pat@[k],
        decreases m - j,
    {
        if s.get_char(at + j) != pat.get_char(j) {
            assert(s@.subrange(at as int, at + m)[j as int] != pat@[j as int]);
            return false;
        }
        j = j + 1;
    }
    assert(s@.subrange(at as int, at + m) =~= pat@);
    true
}

/// Replace every occurrence of `pat` in `s` by `to`, scanning left to right
/// without rescanning replaced text.
pub fn replace_all(s: &str, pat: &str, to: &str) -> (r: String)
    ensures
        r@ == replace_all_spec(s@, pat@, to@),
{
    let n = s.unicode_len();
    let m = pat.unicode_len();
    if m == 0 {
        return s.to_owned();
    }
    let mut out = String::new();
    let mut i: usize = 0;
    assert(s@.skip(0) =~= s@);
    if n >= m {
        while i <= n - m
            invariant
                n == s@.len(),
                m == pat@.len(),
                1 <= m <= n,
                i <= n,
                out@ + replace_all_spec(s@.skip(i as int), pat@, to@) == replace_all_spec(
                    s@,
                    pat@,
                    to@,
                ),
            decreases n - i,
        {
            let ghost tail = s@.skip(i as int);
            if matches_at(s, pat, i, n, m) {
                assert(tail.subrange(0, m as int) =~= s@.subrange(i as int, i + m));
                assert(replace_all_spec(tail, pat@, to@) == to@ + replace_all_spec(
                    tail.skip(m as int),
                    pat@,
                    to@,
                ));
                assert(tail.skip(m as int) =~= s@.skip(i + m));
                out.append(to);
                i = i + m;
            } else {
                assert(tail.subrange(0, m as int) =~= s@.subrange(i as int, i + m));
                assert(replace_all_spec(tail, pat@, to@) == seq![tail[0]] + replace_all_spec(
                    tail.skip(1),
                    pat@,
                    to@,
                ));
                assert(tail.skip(1) =~= s@.skip(i + 1));
                let c = s.substring_char(i, i + 1);
                assert(c@ =~= seq![s@[i as int]]);
                out.append(c);
                i = i + 1;
            }
            assert(out@ + replace_all_spec(s@.skip(i as int), pat@, to@) == replace_all_spec(
                s@,
                pat@,
                to@,
            ));
        }
    }
    let rest = s.substring_char(i, n);
    assert(rest@ =~= s@.skip(i as int));
    assert(replace_all_spec(s@.skip(i as int), pat@, to@) == s@.skip(i as int));
    out.append(rest);
    out
}

/// Character-for-character equality of two string slices.
pub fn str_eq(a: &str, b: &str) -> (r: bool)
    ensures
        r == (a@ == b@),
{
    let n = a.unicode_len();
    if n != b.unicode_len() {
        return false;
    }
    let mut j: usize = 0;
    while j < n
        invariant
            n == a@.len(),
            n == b@.len(),
            j <= n,
            forall|k: int| 0 <= k < j ==> a@[k] == b@[k],
        decreases n - j,
    {
        if a.get_char(j) != b.get_char(j) {
            return false;
        }
        j = j + 1;
    }
    assert(a@ =~= b@);
    true
}

/// What one command argument becomes: `{path}` placeholders are substituted
/// first, then `{kind}` placeholders in the result.
pub open spec fn parsed_arg_spec(arg: Seq<char>, path: Seq<char>, kind: Seq<char>) -> Seq<char> {
    replace_all_spec(replace_all_spec(arg, "{path}"@, path), "{kind}"@, kind)
}

/// Substitute the `{path}` and `{kind}` placeholders of every argument of a
/// command with the given path and kind.
pub fn parse_command(command: &Vec<String>, path: &str, kind: &str) -> (r: Vec<String>)
    ensures
        r@.len() == command@.len(),
        forall|i: int|
            0 <= i < command@.len() ==> r@[i]@ == parsed_arg_spec(command@[i]@, path@, kind@),
{
    let mut parsed: Vec<String> = Vec::new();
    let mut idx: usize = 0;
    while idx < command.len()
        invariant
            idx <= command@.len(),
            parsed@.len() == idx,
            forall|i: int|
                0 <= i < idx ==> parsed@[i]@ == parsed_arg_spec(command@[i]@, path@, kind@),
        decreases command@.len() - idx,
    {
        let with_path = replace_all(command[idx].as_str(), "{path}", path);
        let with_kind = replace_all(with_path.as_str(), "{kind}", kind);
        parsed.push(with_kind);
        idx = idx + 1;
    }
    parsed
}

} // verus!
