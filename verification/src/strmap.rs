//! A small map from string keys to values that keeps its keys in insertion order.
use vstd::prelude::*;

use crate::text::str_eq;

verus! {

/// String-keyed entries, each key at most once.
pub struct StrMap<V> {
    entries: Vec<(String, V)>,
}

/// The value under `key` among `entries[i..]`.
pub open spec fn find_from<V>(entries: Seq<(String, V)>, key: Seq<char>, i: int) -> Option<V>
    decreases entries.len() - i,
{
    if i < 0 || i >= entries.len() {
        None
    } else if entries[i].0@ == key {
        Some(entries[i].1)
    } else {
        find_from(entries, key, i + 1)
    }
}

proof fn lemma_find_from_index<V>(entries: Seq<(String, V)>, key: Seq<char>, i: int, j: int)
    requires
        0 <= i <= j < entries.len(),
        entries[j].0@ == key,
        forall|k: int| i <= k < j ==> entries[k].0@ != key,
    ensures
        find_from(entries, key, i) == Some(entries[j].1),
    decreases j - i,
{
    if i < j {
        lemma_find_from_index(entries, key, i + 1, j);
    }
}

proof fn lemma_find_from_absent<V>(entries: Seq<(String, V)>, key: Seq<char>, i: int)
    requires
        0 <= i <= entries.len(),
        forall|k: int| i <= k < entries.len() ==> entries[k].0@ != key,
    ensures
        find_from(entries, key, i) is None,
    decreases entries.len() - i,
{
    if i < entries.len() {
        lemma_find_from_absent(entries, key, i + 1);
    }
}

impl<V> StrMap<V> {
    /// The keys, in insertion order.
    pub closed spec fn keys(self) -> Seq<Seq<char>> {
        self.entries@.map_values(|e: (String, V)| e.0@)
    }

    /// The value under `key`.
    pub closed spec fn find(self, key: Seq<char>) -> Option<V> {
        find_from(self.entries@, key, 0)
    }

    /// No key occurs twice.
    pub closed spec fn wf(self) -> bool {
        self.keys().no_duplicates()
    }

    /// In a well-formed map no key occurs twice.
    pub proof fn lemma_keys_unique(self)
        requires
            self.wf(),
        ensures
            self.keys().no_duplicates(),
    {
    }

    /// The value under `key` is the one of the entry with that key; a key that is not
    /// among the keys has no value.
    pub proof fn lemma_find_matches_keys(self, key: Seq<char>)
        requires
            self.wf(),
        ensures
            self.find(key) is Some <==> self.keys().contains(key),
    {
        if self.keys().contains(key) {
            let j = choose|j: int| 0 <= j < self.keys().len() && self.keys()[j] == key;
            assert forall|k: int| 0 <= k < j implies self.entries@[k].0@ != key by {
                assert(self.keys()[k] == self.entries@[k].0@);
            }
            lemma_find_from_index(self.entries@, key, 0, j);
        } else {
            assert forall|k: int| 0 <= k < self.entries@.len() implies self.entries@[k].0@ != key by {
                assert(self.keys()[k] == self.entries@[k].0@);
            }
            lemma_find_from_absent(self.entries@, key, 0);
        }
    }

    /// An empty map.
    pub fn new() -> (m: Self)
        ensures
            m.wf(),
            m.keys() == Seq::<Seq<char>>::empty(),
            forall|k: Seq<char>| #[trigger] m.find(k) is None,
    {
        let m = StrMap { entries: Vec::new() };
        assert(m.keys() =~= Seq::<Seq<char>>::empty());
        m
    }

    /// The number of keys.
    pub fn len(&self) -> (n: usize)
        ensures
            n == self.keys().len(),
    {
        self.entries.len()
    }

    fn index_of(&self, key: &str) -> (r: Option<usize>)
        ensures
            match r {
                Some(i) => i < self.entries@.len() && self.entries@[i as int].0@ == key@
                    && find_from(self.entries@, key@, 0) == Some(self.entries@[i as int].1),
                None => find_from(self.entries@, key@, 0) is None && !self.keys().contains(key@),
            },
    {
        let mut i: usize = 0;
        while i < self.entries.len()
            invariant
                i <= self.entries@.len(),
                forall|k: int| 0 <= k < i ==> self.entries@[k].0@ != key@,
            decreases self.entries@.len() - i,
        {
            if str_eq(self.entries[i].0.as_str(), key) {
                proof {
                    lemma_find_from_index(self.entries@, key@, 0, i as int);
                }
                return Some(i);
            }
            i += 1;
        }
        proof {
            lemma_find_from_absent(self.entries@, key@, 0);
            if self.keys().contains(key@) {
                let j = choose|j: int| 0 <= j < self.keys().len() && self.keys()[j] == key@;
                assert(self.keys()[j] == self.entries@[j].0@);
            }
        }
        None
    }

    /// The value under `key`.
    pub fn get(&self, key: &str) -> (r: Option<&V>)
        ensures
            match r {
                Some(v) => self.find(key@) == Some(*v),
                None => self.find(key@) is None,
            },
    {
        match self.index_of(key) {
            Some(i) => Some(&self.entries[i].1),
            None => None,
        }
    }

    /// Sets the value under `key`; a new key goes last.
    pub fn insert(&mut self, key: String, value: V)
        requires
            old(self).wf(),
        ensures
            final(self).wf(),
            forall|k: Seq<char>| #[trigger] final(self).find(k) == if k == key@ {
                Some(value)
            } else {
                old(self).find(k)
            },
            old(self).keys().contains(key@) ==> final(self).keys() == old(self).keys(),
            !old(self).keys().contains(key@) ==> final(self).keys() == old(self).keys().push(key@),
    {
        let ghost old_entries = self.entries@;
        match self.index_of(key.as_str()) {
            Some(i) => {
                let ghost k0 = key@;
                self.entries.set(i, (key, value));
                proof {
                    assert(old(self).keys()[i as int] == old_entries[i as int].0@);
                    assert(old(self).keys().contains(k0));
                    assert(self.keys() =~= old(self).keys()) by {
                        assert forall|j: int| 0 <= j < self.keys().len() implies self.keys()[j]
                            == old(self).keys()[j] by {
                            assert(self.keys()[j] == self.entries@[j].0@);
                            assert(old(self).keys()[j] == old_entries[j].0@);
                        }
                    }
                    assert forall|k: Seq<char>| #[trigger] self.find(k) == if k == k0 {
                        Some(value)
                    } else {
                        old(self).find(k)
                    } by {
                        self.lemma_find_matches_keys(k);
                        old(self).lemma_find_matches_keys(k);
                        if k == k0 {
                            assert forall|m: int| 0 <= m < i implies self.entries@[m].0@ != k by {
                                assert(self.keys()[m] == self.entries@[m].0@);
                                assert(self.keys()[i as int] == k0);
                            }
                            lemma_find_from_index(self.entries@, k, 0, i as int);
                        } else if old(self).keys().contains(k) {
                            let j = choose|j: int| 0 <= j < old(self).keys().len() && old(self).keys()[j] == k;
                            assert(old(self).keys()[j] == old_entries[j].0@);
                            assert forall|m: int| 0 <= m < j implies old_entries[m].0@ != k by {
                                assert(old(self).keys()[m] == old_entries[m].0@);
                            }
                            lemma_find_from_index(old_entries, k, 0, j);
                            assert forall|m: int| 0 <= m < j implies self.entries@[m].0@ != k by {
                                assert(self.keys()[m] == self.entries@[m].0@);
                            }
                            assert(self.keys()[j] == self.entries@[j].0@);
                            lemma_find_from_index(self.entries@, k, 0, j);
                        }
                    }
                }
            },
            None => {
                let ghost k0 = key@;
                self.entries.push((key, value));
                proof {
                    assert(self.keys() =~= old(self).keys().push(k0));
                    crate::text::lemma_no_duplicates_after_push(old(self).keys(), k0);
                    assert forall|k: Seq<char>| #[trigger] self.find(k) == if k == k0 {
                        Some(value)
                    } else {
                        old(self).find(k)
                    } by {
                        self.lemma_find_matches_keys(k);
                        old(self).lemma_find_matches_keys(k);
                        let n = old_entries.len() as int;
                        if k == k0 {
                            assert forall|m: int| 0 <= m < n implies self.entries@[m].0@ != k by {
                                assert(old(self).keys()[m] == old_entries[m].0@);
                            }
                            lemma_find_from_index(self.entries@, k, 0, n);
                        } else if old(self).keys().contains(k) {
                            let j = choose|j: int| 0 <= j < old(self).keys().len() && old(self).keys()[j] == k;
                            assert(old(self).keys()[j] == old_entries[j].0@);
                            assert forall|m: int| 0 <= m < j implies old_entries[m].0@ != k by {
                                assert(old(self).keys()[m] == old_entries[m].0@);
                            }
                            lemma_find_from_index(old_entries, k, 0, j);
                            lemma_find_from_index(self.entries@, k, 0, j);
                        } else {
                            assert forall|m: int| 0 <= m < self.entries@.len() implies self.entries@[m].0@ != k by {
                                if m < n {
                                    assert(old(self).keys()[m] == old_entries[m].0@);
                                }
                            }
                            lemma_find_from_absent(self.entries@, k, 0);
                        }
                    }
                }
            },
        }
    }

    /// Removes `key` and its value, if present.
    pub fn remove(&mut self, key: &str)
        requires
            old(self).wf(),
        ensures
            final(self).wf(),
            forall|k: Seq<char>| #[trigger] final(self).find(k) == if k == key@ {
                None
            } else {
                old(self).find(k)
            },
    {
        match self.index_of(key) {
            None => {
                proof {
                    assert forall|k: Seq<char>| #[trigger] self.find(k) == if k == key@ {
                        None
                    } else {
                        old(self).find(k)
                    } by {
                    }
                }
            },
            Some(i) => {
                let ghost old_entries = self.entries@;
                let ghost old_keys = self.keys();
                self.entries.remove(i);
                proof {
                    assert(self.keys() =~= old_keys.remove(i as int));
                    assert(old_keys[i as int] == key@);
                    assert forall|a: int, b: int|
                        0 <= a < self.keys().len() && 0 <= b < self.keys().len() && a != b implies self.keys()[a]
                        != self.keys()[b] by {
                        let oa = if a < i { a } else { a + 1 };
                        let ob = if b < i { b } else { b + 1 };
                        assert(self.keys()[a] == old_keys[oa]);
                        assert(self.keys()[b] == old_keys[ob]);
                    }
                    assert(self.keys().no_duplicates());
                    assert forall|k: Seq<char>| #[trigger] self.find(k) == if k == key@ {
                        None
                    } else {
                        old(self).find(k)
                    } by {
                        if k == key@ {
                            assert forall|m: int| 0 <= m < self.entries@.len() implies self.entries@[m].0@ != k by {
                                let om = if m < i { m } else { m + 1 };
                                assert(self.entries@[m] == old_entries[om]);
                                assert(old_keys[om] == old_entries[om].0@);
                                assert(old_keys[i as int] == old_entries[i as int].0@);
                            }
                            lemma_find_from_absent(self.entries@, k, 0);
                        } else {
                            old(self).lemma_find_matches_keys(k);
                            if old_keys.contains(k) {
                                let j = choose|j: int| 0 <= j < old_keys.len() && old_keys[j] == k;
                                assert(old_keys[j] == old_entries[j].0@);
                                assert forall|m: int| 0 <= m < j implies old_entries[m].0@ != k by {
                                    assert(old_keys[m] == old_entries[m].0@);
                                }
                                lemma_find_from_index(old_entries, k, 0, j);
                                let nj = if j < i { j } else { j - 1 };
                                assert(j != i);
                                assert(self.entries@[nj] == old_entries[j]);
                                assert forall|m: int| 0 <= m < nj implies self.entries@[m].0@ != k by {
                                    let om = if m < i { m } else { m + 1 };
                                    assert(self.entries@[m] == old_entries[om]);
                                    assert(old_keys[om] == old_entries[om].0@);
                                }
                                lemma_find_from_index(self.entries@, k, 0, nj);
                            } else {
                                assert forall|m: int| 0 <= m < self.entries@.len() implies self.entries@[m].0@ != k by {
                                    let om = if m < i { m } else { m + 1 };
                                    assert(self.entries@[m] == old_entries[om]);
                                    assert(old_keys[om] == old_entries[om].0@);
                                }
                                lemma_find_from_absent(self.entries@, k, 0);
                            }
                        }
                    }
                }
            },
        }
    }

    /// The key and value of the entry at `index`, in insertion order.
    pub fn entry_at(&self, index: usize) -> (r: (&String, &V))
        requires
            self.wf(),
            index < self.keys().len(),
        ensures
            r.0@ == self.keys()[index as int],
            self.find(r.0@) == Some(*r.1),
    {
        proof {
            assert(self.keys()[index as int] == self.entries@[index as int].0@);
        }
        let e = &self.entries[index];
        proof {
            assert forall|m: int| 0 <= m < index implies self.entries@[m].0@ != e.0@ by {
                assert(self.keys()[m] == self.entries@[m].0@);
            }
            lemma_find_from_index(self.entries@, e.0@, 0, index as int);
        }
        (&e.0, &e.1)
    }
}

} // verus!
