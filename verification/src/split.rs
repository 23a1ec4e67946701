//! Splitting text: at a separator, at the first occurrence of a pattern, and into lines.
use vstd::prelude::*;

use crate::text::{chars_of, occurs_at, string_of, subrange_chars};

verus! {

/// The first index, from `i` on, at which `pat` occurs in `s`; -1 when it does not.
pub open spec fn find_from(s: Seq<char>, pat: Seq<char>, i: int) -> int
    decreases s.len() + 1 - i,
{
    if i < 0 || i + pat.len() > s.len() {
        -1
    } else if occurs_at(s, pat, i) {
        i
    } else {
        find_from(s, pat, i + 1)
    }
}

/// The first index at which `pat` occurs in `s`; -1 when it does not.
pub open spec fn find_first(s: Seq<char>, pat: Seq<char>) -> int {
    find_from(s, pat, 0)
}

pub proof fn lemma_find_from_range(s: Seq<char>, pat: Seq<char>, i: int)
    requires
        0 <= i,
    ensures
        find_from(s, pat, i) == -1 || (i <= find_from(s, pat, i) && find_from(s, pat, i) + pat.len()
            <= s.len() && occurs_at(s, pat, find_from(s, pat, i))),
    decreases s.len() + 1 - i,
{
    if i + pat.len() <= s.len() && !occurs_at(s, pat, i) {
        lemma_find_from_range(s, pat, i + 1);
    }
}

/// The text of `s` before the first `pat`, or all of it: `s.split(pat).next()`.
pub open spec fn before_first(s: Seq<char>, pat: Seq<char>) -> Seq<char> {
    let i = find_first(s, pat);
    if i >= 0 {
        s.take(i)
    } else {
        s
    }
}

fn matches_at(s: &Vec<char>, pat: &Vec<char>, i: usize) -> (b: bool)
    requires
        i + pat@.len() <= s@.len(),
    ensures
        b == occurs_at(s@, pat@, i as int),
{
    let n = s.len();
    let mut k: usize = 0;
    while k < pat.len()
        invariant
            k <= pat@.len(),
            n == s@.len(),
            i + pat@.len() <= s@.len(),
            forall|m: int| 0 <= m < k ==> s@[i + m] == pat@[m],
        decreases pat@.len() - k,
    {
        assert(i + k < s@.len());
        if s[i + k] != pat[k] {
            assert(s@.subrange(i as int, i + pat@.len())[k as int] != pat@[k as int]);
            return false;
        }
        k += 1;
    }
    assert(s@.subrange(i as int, i + pat@.len()) =~= pat@);
    true
}

/// The first index at which `pat` occurs in `s`.
pub fn find_first_exec(s: &Vec<char>, pat: &Vec<char>) -> (r: Option<usize>)
    ensures
        match r {
            Some(i) => i == find_first(s@, pat@) && i + pat@.len() <= s@.len(),
            None => find_first(s@, pat@) == -1,
        },
{
    if pat.len() > s.len() {
        return None;
    }
    let last = s.len() - pat.len();
    let mut i: usize = 0;
    loop
        invariant
            pat@.len() <= s@.len(),
            last == s@.len() - pat@.len(),
            i <= last,
            find_first(s@, pat@) == find_from(s@, pat@, i as int),
        decreases last - i,
    {
        if matches_at(s, pat, i) {
            return Some(i);
        }
        if i == last {
            assert(find_from(s@, pat@, i + 1) == -1);
            return None;
        }
        i += 1;
    }
}

/// `s.split(pat).next()`: the text before the first `pat`, or all of it.
pub fn before_first_exec(s: &Vec<char>, pat: &str) -> (r: Vec<char>)
    ensures
        r@ == before_first(s@, pat@),
{
    let p = chars_of(pat);
    match find_first_exec(s, &p) {
        Some(i) => {
            let r = subrange_chars(s, 0, i);
            assert(r@ =~= s@.take(i as int));
            r
        },
        None => {
            let r = subrange_chars(s, 0, s.len());
            assert(r@ =~= s@);
            r
        },
    }
}

/// The pieces of `s` between the occurrences of `c`, empty ones included: `s.split(c)`.
pub open spec fn split_on(s: Seq<char>, c: char) -> Seq<Seq<char>>
    decreases s.len(),
{
    let i = find_first(s, seq![c]);
    if i < 0 {
        seq![s]
    } else {
        proof {
            lemma_find_from_range(s, seq![c], 0);
        }
        seq![s.take(i)] + split_on(s.skip(i + 1), c)
    }
}

/// `s.split(c)`.
pub fn split_on_exec(s: &Vec<char>, c: char) -> (r: Vec<Vec<char>>)
    ensures
        r@.map_values(|v: Vec<char>| v@) == split_on(s@, c),
{
    let mut out: Vec<Vec<char>> = Vec::new();
    let mut start: usize = 0;
    let mut i: usize = 0;
    assert(s@.skip(0) =~= s@);
    assert(out@.map_values(|v: Vec<char>| v@) + split_on(s@, c) =~= split_on(s@, c));
    while i < s.len()
        invariant
            start <= i <= s@.len(),
            forall|k: int| start <= k < i ==> s@[k] != c,
            out@.map_values(|v: Vec<char>| v@) + split_on(s@.skip(start as int), c) == split_on(s@, c),
        decreases s@.len() - i,
    {
        if s[i] == c {
            let ghost rest = s@.skip(start as int);
            proof {
                assert forall|k: int| 0 <= k < i - start implies !occurs_at(rest, seq![c], k) by {
                    assert(rest.subrange(k, k + 1)[0] == s@[start + k]);
                }
                assert(occurs_at(rest, seq![c], i - start)) by {
                    assert(rest.subrange(i - start, i - start + 1) =~= seq![c]);
                }
                lemma_find_index(rest, c, i - start);
                assert(rest.take(i - start) =~= s@.subrange(start as int, i as int));
                assert(rest.skip(i - start + 1) =~= s@.skip(i + 1));
            }
            let piece = subrange_chars(s, start, i);
            let ghost before = out@;
            out.push(piece);
            assert(out@.map_values(|v: Vec<char>| v@) =~= before.map_values(|v: Vec<char>| v@).push(
                s@.subrange(start as int, i as int),
            ));
            start = i + 1;
        }
        i += 1;
    }
    let ghost rest = s@.skip(start as int);
    proof {
        assert forall|k: int| 0 <= k < rest.len() implies !occurs_at(rest, seq![c], k) by {
            assert(rest.subrange(k, k + 1)[0] == s@[start + k]);
        }
        lemma_find_none(rest, c, 0);
    }
    let piece = subrange_chars(s, start, s.len());
    assert(piece@ =~= rest);
    let ghost before = out@;
    out.push(piece);
    assert(out@.map_values(|v: Vec<char>| v@) =~= before.map_values(|v: Vec<char>| v@).push(rest));
    out
}

proof fn lemma_find_index(s: Seq<char>, c: char, i: int)
    requires
        0 <= i < s.len(),
        occurs_at(s, seq![c], i),
        forall|k: int| 0 <= k < i ==> !occurs_at(s, seq![c], k),
    ensures
        find_first(s, seq![c]) == i,
{
    lemma_find_index_from(s, c, i, 0);
}

proof fn lemma_find_index_from(s: Seq<char>, c: char, i: int, j: int)
    requires
        0 <= j <= i < s.len(),
        occurs_at(s, seq![c], i),
        forall|k: int| j <= k < i ==> !occurs_at(s, seq![c], k),
    ensures
        find_from(s, seq![c], j) == i,
    decreases i - j,
{
    if j < i {
        lemma_find_index_from(s, c, i, j + 1);
    }
}

proof fn lemma_find_none(s: Seq<char>, c: char, j: int)
    requires
        0 <= j,
        forall|k: int| j <= k < s.len() ==> !occurs_at(s, seq![c], k),
    ensures
        find_from(s, seq![c], j) == -1,
    decreases s.len() - j,
{
    if j < s.len() {
        lemma_find_none(s, c, j + 1);
    }
}

/// `line` without a trailing carriage return.
pub open spec fn strip_cr(line: Seq<char>) -> Seq<char> {
    if line.len() > 0 && line.last() == '\r' {
        line.drop_last()
    } else {
        line
    }
}

/// `str::lines`: the pieces between newlines, each ended line without a carriage
/// return before its newline; a last piece after a final newline is no line.
pub open spec fn lines_of(s: Seq<char>) -> Seq<Seq<char>> {
    let parts = split_on(s, '\n');
    let ended = parts.drop_last().map_values(|p: Seq<char>| strip_cr(p));
    if parts.last().len() == 0 {
        ended
    } else {
        ended.push(parts.last())
    }
}

proof fn lemma_split_nonempty(s: Seq<char>, c: char)
    ensures
        split_on(s, c).len() >= 1,
    decreases s.len(),
{
    let i = find_first(s, seq![c]);
    if i >= 0 {
        lemma_find_from_range(s, seq![c], 0);
        lemma_split_nonempty(s.skip(i + 1), c);
    }
}

/// `s.lines()`.
pub fn lines_exec(s: &str) -> (r: Vec<String>)
    ensures
        r@.map_values(|v: String| v@) == lines_of(s@),
{
    let cs = chars_of(s);
    let parts = split_on_exec(&cs, '\n');
    let ghost pv = parts@.map_values(|v: Vec<char>| v@);
    proof {
        lemma_split_nonempty(s@, '\n');
    }
    let n = parts.len();
    let mut out: Vec<String> = Vec::new();
    let mut i: usize = 0;
    while i + 1 < n
        invariant
            n == parts@.len(),
            n >= 1,
            pv == parts@.map_values(|v: Vec<char>| v@),
            i < n,
            out@.map_values(|v: String| v@) == pv.drop_last().take(i as int).map_values(|p: Seq<char>| strip_cr(p)),
        decreases n - i,
    {
        let p = &parts[i];
        let line = if p.len() > 0 && p[p.len() - 1] == '\r' {
            string_of(subrange_chars(p, 0, p.len() - 1).as_slice())
        } else {
            string_of(p.as_slice())
        };
        assert(pv[i as int] == p@);
        assert(line@ == strip_cr(p@)) by {
            if p@.len() > 0 && p@.last() == '\r' {
                assert(p@.subrange(0, p@.len() - 1) =~= p@.drop_last());
            }
        }
        let ghost before = out@;
        let ghost lv = line@;
        out.push(line);
        assert(out@.map_values(|v: String| v@) =~= before.map_values(|v: String| v@).push(lv));
        assert(pv.drop_last().take(i + 1) =~= pv.drop_last().take(i as int).push(pv[i as int]));
        assert(out@.map_values(|v: String| v@) =~= pv.drop_last().take(i + 1).map_values(|p: Seq<char>| strip_cr(p)));
        i += 1;
    }
    assert(pv.drop_last().take(i as int) =~= pv.drop_last());
    let last = &parts[n - 1];
    assert(pv.last() == last@);
    if last.len() > 0 {
        let ghost before = out@;
        out.push(string_of(last.as_slice()));
        assert(out@.map_values(|v: String| v@) =~= before.map_values(|v: String| v@).push(last@));
    }
    out
}

} // verus!
