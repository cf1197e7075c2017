//! A table of values keyed by token keys: at most one value per key, looked
//! up by the key's identity.

use crate::auth::token::{KeyView, TokenKey};
use vstd::prelude::*;

verus! {

/// The view of a table entry: its key's identity and its value.
pub type TableEntry<V> = (KeyView, V);

/// No key occurs twice.
pub open spec fn distinct_keys<V>(es: Seq<TableEntry<V>>) -> bool {
    forall|i: int, j: int|
        0 <= i < es.len() && 0 <= j < es.len() && i != j ==> (#[trigger] es[i]).0 != (
        #[trigger] es[j]).0
}

/// Whether some entry is keyed by `k`.
pub open spec fn has_key<V>(es: Seq<TableEntry<V>>, k: KeyView) -> bool {
    exists|i: int| 0 <= i < es.len() && (#[trigger] es[i]).0 == k
}

/// The value under `k`, if any.
pub open spec fn value_under<V>(es: Seq<TableEntry<V>>, k: KeyView) -> Option<V> {
    if has_key(es, k) {
        Some(es[choose|i: int| 0 <= i < es.len() && (#[trigger] es[i]).0 == k].1)
    } else {
        None
    }
}

/// The views of stored entries.
pub open spec fn table_view<V>(v: Seq<(TokenKey, V)>) -> Seq<TableEntry<V>> {
    v.map_values(|e: (TokenKey, V)| (e.0@, e.1))
}

/// In a table without repeated keys, the value under the key of an entry is
/// that entry's value.
proof fn lemma_value_at<V>(es: Seq<TableEntry<V>>, i: int)
    requires
        distinct_keys(es),
        0 <= i < es.len(),
    ensures
        has_key(es, es[i].0),
        value_under(es, es[i].0) == Some(es[i].1),
{
    let k = es[i].0;
    assert(has_key(es, k));
    let j = choose|j: int| 0 <= j < es.len() && (#[trigger] es[j]).0 == k;
    assert(j == i);
}

/// A table of values keyed by token keys.
#[derive(Debug)]
pub struct KeyedTable<V> {
    entries: Vec<(TokenKey, V)>,
}

impl<V> KeyedTable<V> {
    /// The entries, in the order they were stored.
    pub closed spec fn entries(&self) -> Seq<TableEntry<V>> {
        table_view(self.entries@)
    }

    /// No key occurs twice.
    pub open spec fn well_formed(&self) -> bool {
        distinct_keys(self.entries())
    }

    /// An empty table.
    pub fn new() -> (r: Self)
        ensures
            r.well_formed(),
            r.entries() == Seq::<TableEntry<V>>::empty(),
    {
        let r = KeyedTable { entries: Vec::new() };
        assert(r.entries() =~= Seq::<TableEntry<V>>::empty());
        r
    }

    /// The number of entries.
    pub fn len(&self) -> (r: usize)
        ensures
            r == self.entries().len(),
    {
        self.entries.len()
    }

    /// The key and value of the `i`-th entry.
    pub fn entry(&self, i: usize) -> (r: (&TokenKey, &V))
        requires
            i < self.entries().len(),
        ensures
            (r.0@, *r.1) == self.entries()[i as int],
    {
        (&self.entries[i].0, &self.entries[i].1)
    }

    fn find(&self, key: &TokenKey) -> (r: Option<usize>)
        ensures
            match r {
                Some(i) => i < self.entries().len() && self.entries()[i as int].0 == key@,
                None => !has_key(self.entries(), key@),
            },
    {
        let ghost es = self.entries();
        let mut i: usize = 0;
        while i < self.entries.len()
            invariant
                i <= self.entries.len(),
                es == table_view(self.entries@),
                forall|j: int| 0 <= j < i ==> (#[trigger] es[j]).0 != key@,
            decreases self.entries.len() - i,
        {
            if self.entries[i].0.same_key(key) {
                return Some(i);
            }
            i = i + 1;
        }
        None
    }

    /// The value stored under `key`, if any.
    pub fn get(&self, key: &TokenKey) -> (r: Option<&V>)
        requires
            self.well_formed(),
        ensures
            match r {
                Some(v) => value_under(self.entries(), key@) == Some(*v),
                None => value_under(self.entries(), key@) is None,
            },
    {
        match self.find(key) {
            Some(i) => {
                proof {
                    lemma_value_at(self.entries(), i as int);
                }
                Some(&self.entries[i].1)
            },
            None => None,
        }
    }

    /// Stores `value` under `key`, replacing what was stored there.
    pub fn set(&mut self, key: TokenKey, value: V)
        requires
            old(self).well_formed(),
        ensures
            final(self).well_formed(),
            forall|k: KeyView| #[trigger] value_under(final(self).entries(), k) == if k == key@ {
                Some(value)
            } else {
                value_under(old(self).entries(), k)
            },
    {
        let ghost before = self.entries();
        let ghost kv = key@;
        match self.find(&key) {
            Some(i) => {
                self.entries.set(i, (key, value));
                let ghost after = self.entries();
                proof {
                    assert(after =~= before.update(i as int, (kv, value)));
                    assert(distinct_keys(after)) by {
                        assert forall|a: int, b: int|
                            0 <= a < after.len() && 0 <= b < after.len() && a != b implies (
                            #[trigger] after[a]).0 != (#[trigger] after[b]).0 by {
                            assert(after[a].0 == before[a].0);
                            assert(after[b].0 == before[b].0);
                        }
                    }
                    assert forall|k: KeyView| #[trigger] value_under(after, k) == if k == kv {
                        Some(value)
                    } else {
                        value_under(before, k)
                    } by {
                        if k == kv {
                            lemma_value_at(after, i as int);
                        } else if has_key(before, k) {
                            let j = choose|j: int| 0 <= j < before.len() && (#[trigger] before[j]).0 == k;
                            lemma_value_at(before, j);
                            assert(after[j] == before[j]);
                            lemma_value_at(after, j);
                        } else {
                            assert(!has_key(after, k)) by {
                                if has_key(after, k) {
                                    let j = choose|j: int| 0 <= j < after.len() && (#[trigger] after[j]).0 == k;
                                    assert(before[j].0 == k);
                                }
                            }
                        }
                    }
                }
            },
            None => {
                self.entries.push((key, value));
                let ghost after = self.entries();
                proof {
                    assert(after =~= before.push((kv, value)));
                    assert(distinct_keys(after)) by {
                        assert forall|a: int, b: int|
                            0 <= a < after.len() && 0 <= b < after.len() && a != b implies (
                            #[trigger] after[a]).0 != (#[trigger] after[b]).0 by {
                            if a < before.len() && b < before.len() {
                                assert(after[a] == before[a] && after[b] == before[b]);
                            } else if a < before.len() {
                                assert(after[a] == before[a]);
                            } else {
                                assert(after[b] == before[b]);
                            }
                        }
                    }
                    assert forall|k: KeyView| #[trigger] value_under(after, k) == if k == kv {
                        Some(value)
                    } else {
                        value_under(before, k)
                    } by {
                        if k == kv {
                            lemma_value_at(after, before.len() as int);
                        } else if has_key(before, k) {
                            let j = choose|j: int| 0 <= j < before.len() && (#[trigger] before[j]).0 == k;
                            lemma_value_at(before, j);
                            assert(after[j] == before[j]);
                            lemma_value_at(after, j);
                        } else {
                            assert(!has_key(after, k)) by {
                                if has_key(after, k) {
                                    let j = choose|j: int| 0 <= j < after.len() && (#[trigger] after[j]).0 == k;
                                    if j < before.len() {
                                        assert(before[j].0 == k);
                                    }
                                }
                            }
                        }
                    }
                }
            },
        }
    }

    /// Removes and returns the value stored under `key`, if any.
    pub fn take(&mut self, key: &TokenKey) -> (r: Option<V>)
        requires
            old(self).well_formed(),
        ensures
            final(self).well_formed(),
            r == value_under(old(self).entries(), key@),
            forall|k: KeyView| #[trigger] value_under(final(self).entries(), k) == if k == key@ {
                None
            } else {
                value_under(old(self).entries(), k)
            },
    {
        let ghost before = self.entries();
        match self.find(key) {
            Some(i) => {
                proof {
                    lemma_value_at(before, i as int);
                }
                let (_, value) = self.entries.remove(i);
                let ghost after = self.entries();
                proof {
                    assert(after =~= before.remove(i as int));
                    assert(distinct_keys(after)) by {
                        assert forall|a: int, b: int|
                            0 <= a < after.len() && 0 <= b < after.len() && a != b implies (
                            #[trigger] after[a]).0 != (#[trigger] after[b]).0 by {
                            let ia = if a < i { a } else { a + 1 };
                            let ib = if b < i { b } else { b + 1 };
                            assert(after[a] == before[ia]);
                            assert(after[b] == before[ib]);
                        }
                    }
                    assert forall|k: KeyView| #[trigger] value_under(after, k) == if k == key@ {
                        None
                    } else {
                        value_under(before, k)
                    } by {
                        if has_key(after, k) {
                            let j = choose|j: int| 0 <= j < after.len() && (#[trigger] after[j]).0 == k;
                            let bj = if j < i { j } else { j + 1 };
                            assert(after[j] == before[bj]);
                            lemma_value_at(after, j);
                            lemma_value_at(before, bj);
                            assert(bj != i);
                            assert(k != key@);
                        } else if k != key@ && has_key(before, k) {
                            let j = choose|j: int| 0 <= j < before.len() && (#[trigger] before[j]).0 == k;
                            assert(j != i);
                            let aj = if j < i { j } else { j - 1 };
                            assert(after[aj] == before[j]);
                        }
                    }
                }
                Some(value)
            },
            None => {
                proof {
                    assert forall|k: KeyView| #[trigger] value_under(before, k) == if k == key@ {
                        None
                    } else {
                        value_under(before, k)
                    } by {}
                }
                None
            },
        }
    }
}

} // verus!
