//! The order in which `String`'s `Ord` sorts text: lexicographic by character, a
//! proper prefix first.
use vstd::prelude::*;

use crate::text::strings_view;

verus! {

/// `a` sorts strictly before `b`.
pub open spec fn lex_lt(a: Seq<char>, b: Seq<char>) -> bool
    decreases a.len(),
{
    if b.len() == 0 {
        false
    } else if a.len() == 0 {
        true
    } else if a[0] != b[0] {
        a[0] < b[0]
    } else {
        lex_lt(a.drop_first(), b.drop_first())
    }
}

pub proof fn lemma_lex_irreflexive(a: Seq<char>)
    ensures
        !lex_lt(a, a),
    decreases a.len(),
{
    if a.len() > 0 {
        lemma_lex_irreflexive(a.drop_first());
    }
}

pub proof fn lemma_lex_total(a: Seq<char>, b: Seq<char>)
    ensures
        a == b || lex_lt(a, b) || lex_lt(b, a),
    decreases a.len(),
{
    if a.len() > 0 && b.len() > 0 && a[0] == b[0] {
        lemma_lex_total(a.drop_first(), b.drop_first());
        if a.drop_first() == b.drop_first() {
            assert(a =~= seq![a[0]] + a.drop_first());
            assert(b =~= seq![b[0]] + b.drop_first());
        }
    } else if a.len() == 0 && b.len() == 0 {
        assert(a =~= b);
    }
}

pub proof fn lemma_lex_asymmetric(a: Seq<char>, b: Seq<char>)
    ensures
        lex_lt(a, b) ==> !lex_lt(b, a),
    decreases a.len(),
{
    if a.len() > 0 && b.len() > 0 && a[0] == b[0] {
        lemma_lex_asymmetric(a.drop_first(), b.drop_first());
    }
}

pub proof fn lemma_lex_transitive(a: Seq<char>, b: Seq<char>, c: Seq<char>)
    requires
        lex_lt(a, b),
        lex_lt(b, c),
    ensures
        lex_lt(a, c),
    decreases a.len(),
{
    if a.len() > 0 && b.len() > 0 && c.len() > 0 && a[0] == b[0] && b[0] == c[0] {
        lemma_lex_transitive(a.drop_first(), b.drop_first(), c.drop_first());
    }
}

/// `a` sorts strictly before `b`.
pub fn str_lt(a: &[char], b: &[char]) -> (r: bool)
    ensures
        r == lex_lt(a@, b@),
{
    let mut i: usize = 0;
    assert(a@.skip(0) =~= a@);
    assert(b@.skip(0) =~= b@);
    while i < a.len() && i < b.len() && a[i] == b[i]
        invariant
            i <= a@.len(),
            i <= b@.len(),
            lex_lt(a@, b@) == lex_lt(a@.skip(i as int), b@.skip(i as int)),
        decreases a@.len() - i,
    {
        assert(a@.skip(i as int).drop_first() =~= a@.skip(i + 1));
        assert(b@.skip(i as int).drop_first() =~= b@.skip(i + 1));
        i += 1;
    }
    if i == b.len() {
        false
    } else if i == a.len() {
        true
    } else {
        a[i] < b[i]
    }
}

/// Each string sorts strictly before the next.
pub open spec fn strictly_sorted(v: Seq<Seq<char>>) -> bool {
    forall|i: int, j: int| 0 <= i < j < v.len() ==> lex_lt(#[trigger] v[i], #[trigger] v[j])
}

/// Inserts `s` into the strictly sorted `v`, keeping it strictly sorted; a string
/// already present is not added again.
pub fn insert_sorted(v: &mut Vec<String>, s: String)
    requires
        strictly_sorted(strings_view(old(v)@)),
    ensures
        strictly_sorted(strings_view(final(v)@)),
        forall|x: Seq<char>| #[trigger] strings_view(final(v)@).contains(x) <==> (strings_view(
            old(v)@,
        ).contains(x) || x == s@),
{
    let ghost old_view = strings_view(v@);
    let sc = crate::text::chars_of(s.as_str());
    let mut i: usize = 0;
    while i < v.len()
        invariant
            i <= v@.len(),
            strings_view(v@) == old_view,
            old_view == strings_view(old(v)@),
            strictly_sorted(old_view),
            sc@ == s@,
            forall|k: int| 0 <= k < i ==> lex_lt(#[trigger] old_view[k], s@),
        decreases v@.len() - i,
    {
        let cur = crate::text::chars_of(v[i].as_str());
        assert(old_view[i as int] == v@[i as int]@);
        if !str_lt(&cur, &sc) {
            proof {
                lemma_lex_total(cur@, s@);
            }
            if crate::text::chars_eq(&cur, &sc) {
                proof {
                    assert forall|x: Seq<char>| #[trigger] strings_view(v@).contains(x) <==> (
                    old_view.contains(x) || x == s@) by {
                        if x == s@ {
                            assert(old_view[i as int] == x);
                        }
                    }
                }
                return;
            }
            let ghost before = strings_view(v@);
            v.insert(i, s);
            proof {
                let after = strings_view(v@);
                assert(after =~= before.take(i as int).push(s@) + before.skip(i as int));
                assert forall|a: int, b: int| 0 <= a < b < after.len() implies lex_lt(
                    #[trigger] after[a],
                    #[trigger] after[b],
                ) by {
                    if b == i {
                        assert(after[a] == before[a]);
                    } else if a == i {
                        assert(after[b] == before[b - 1]);
                        if b - 1 > i {
                            lemma_lex_transitive(s@, before[i as int], before[b - 1]);
                        }
                    } else if a < i && b > i {
                        assert(after[a] == before[a]);
                        assert(after[b] == before[b - 1]);
                    } else if a > i {
                        assert(after[a] == before[a - 1]);
                        assert(after[b] == before[b - 1]);
                    } else {
                        assert(after[a] == before[a]);
                        assert(after[b] == before[b]);
                    }
                }
                assert forall|x: Seq<char>| #[trigger] after.contains(x) <==> (old_view.contains(x)
                    || x == s@) by {
                    if after.contains(x) {
                        let k = choose|k: int| 0 <= k < after.len() && after[k] == x;
                        if k < i {
                            assert(before[k] == x);
                        } else if k > i {
                            assert(before[k - 1] == x);
                        }
                    }
                    if old_view.contains(x) {
                        let k = choose|k: int| 0 <= k < old_view.len() && old_view[k] == x;
                        if k < i {
                            assert(after[k] == x);
                        } else {
                            assert(after[k + 1] == x);
                        }
                    }
                    if x == s@ {
                        assert(after[i as int] == x);
                    }
                }
            }
            return;
        }
        i += 1;
    }
    let ghost before = strings_view(v@);
    v.push(s);
    proof {
        let after = strings_view(v@);
        assert(after =~= before.push(s@));
        crate::text::lemma_contains_after_push(before, s@, s@);
        assert forall|x: Seq<char>| #[trigger] after.contains(x) <==> (old_view.contains(x) || x
            == s@) by {
            crate::text::lemma_contains_after_push(before, s@, x);
        }
    }
}

} // verus!
