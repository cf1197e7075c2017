//! In-memory token storage.

use crate::auth::table::{distinct_keys, has_key, value_under, KeyedTable, TableEntry};
use crate::auth::token::{KeyView, StoredToken, TokenKey};
use crate::id::ClientId;
use vstd::prelude::*;

verus! {

/// A stored token with the view of its key.
pub type StoreEntry = TableEntry<StoredToken>;

/// The token stored under `k`, if any.
pub open spec fn token_under(es: Seq<StoreEntry>, k: KeyView) -> Option<StoredToken> {
    value_under(es, k)
}

/// `after` holds `token` under `key` and, under every other key, what
/// `before` held.
pub open spec fn put_effect(
    before: Seq<StoreEntry>,
    after: Seq<StoreEntry>,
    key: KeyView,
    token: StoredToken,
) -> bool {
    forall|k: KeyView|
        #[trigger] token_under(after, k) == if k == key {
            Some(token)
        } else {
            token_under(before, k)
        }
}

/// `after` holds nothing under `key` and, under every other key, what
/// `before` held.
pub open spec fn remove_effect(before: Seq<StoreEntry>, after: Seq<StoreEntry>, key: KeyView) -> bool {
    forall|k: KeyView|
        #[trigger] token_under(after, k) == if k == key {
            None
        } else {
            token_under(before, k)
        }
}

/// The entries whose key names the client `c`, in order.
pub open spec fn entries_of_client(es: Seq<StoreEntry>, c: Seq<char>) -> Seq<StoreEntry>
    decreases es.len(),
{
    if es.len() == 0 {
        seq![]
    } else {
        let kept = entries_of_client(es.drop_last(), c);
        if es.last().0.1 == c {
            kept.push(es.last())
        } else {
            kept
        }
    }
}

/// In-memory token store: at most one token per key.
#[derive(Debug)]
pub struct InMemoryTokenStore {
    tokens: KeyedTable<StoredToken>,
}

impl InMemoryTokenStore {
    /// The stored entries, in the order the table keeps them.
    pub closed spec fn view_entries(&self) -> Seq<StoreEntry> {
        self.tokens.entries()
    }

    /// No key is stored twice.
    pub open spec fn well_formed(&self) -> bool {
        distinct_keys(self.view_entries())
    }

    /// Creates an empty in-memory token store.
    pub fn new() -> (r: Self)
        ensures
            r.well_formed(),
            forall|k: KeyView| token_under(r.view_entries(), k) is None,
    {
        InMemoryTokenStore { tokens: KeyedTable::new() }
    }

    /// Retrieves the token stored under `key`, if it exists.
    pub fn get(&self, key: &TokenKey) -> (r: Option<&StoredToken>)
        requires
            self.well_formed(),
        ensures
            match r {
                Some(t) => token_under(self.view_entries(), key@) == Some(*t),
                None => token_under(self.view_entries(), key@) is None,
            },
    {
        self.tokens.get(key)
    }

    /// Stores `token` under `key`, replacing what was stored there.
    pub fn put(&mut self, key: TokenKey, token: StoredToken)
        requires
            old(self).well_formed(),
        ensures
            final(self).well_formed(),
            put_effect(old(self).view_entries(), final(self).view_entries(), key@, token),
    {
        self.tokens.set(key, token);
    }

    /// Removes the token stored under `key`, if any.
    pub fn remove(&mut self, key: &TokenKey)
        requires
            old(self).well_formed(),
        ensures
            final(self).well_formed(),
            remove_effect(old(self).view_entries(), final(self).view_entries(), key@),
    {
        let _ = self.tokens.take(key);
    }

    /// The stored keys and tokens whose key names `client_id`, in the order
    /// the store keeps them.
    pub fn list_for_client(&self, client_id: &ClientId) -> (r: Vec<(TokenKey, &StoredToken)>)
        ensures
            r@.map_values(|e: (TokenKey, &StoredToken)| (e.0@, *e.1)) == entries_of_client(
                self.view_entries(),
                client_id@,
            ),
    {
        let ghost es = self.view_entries();
        let mut out: Vec<(TokenKey, &StoredToken)> = Vec::new();
        let mut i: usize = 0;
        while i < self.tokens.len()
            invariant
                i <= es.len(),
                es == self.tokens.entries(),
                out@.map_values(|e: (TokenKey, &StoredToken)| (e.0@, *e.1)) == entries_of_client(
                    es.take(i as int),
                    client_id@,
                ),
            decreases es.len() - i,
        {
            assert(es.take(i as int + 1).drop_last() == es.take(i as int));
            assert(es.take(i as int + 1).last() == es[i as int]);
            let (key, token) = self.tokens.entry(i);
            if key.client_id().same_as(client_id) {
                let ghost before = out@;
                out.push((key.clone(), token));
                assert(out@.map_values(|e: (TokenKey, &StoredToken)| (e.0@, *e.1))
                    =~= before.map_values(|e: (TokenKey, &StoredToken)| (e.0@, *e.1)).push(es[i as int]));
            }
            i = i + 1;
        }
        assert(es.take(es.len() as int) == es);
        out
    }
}

impl Default for InMemoryTokenStore {
    /// An empty store.
    fn default() -> (r: Self)
        ensures
            r.well_formed(),
            forall|k: KeyView| token_under(r.view_entries(), k) is None,
    {
        Self::new()
    }
}

/// What a client's listing holds, for entries without a repeated key: no
/// key twice, exactly the stored keys that name the client, each with the
/// token stored under it.
pub proof fn lemma_client_listing(es: Seq<StoreEntry>, c: Seq<char>)
    requires
        distinct_keys(es),
    ensures
        distinct_keys(entries_of_client(es, c)),
        forall|k: KeyView| #[trigger]
            has_key(entries_of_client(es, c), k) <==> (k.1 == c && has_key(es, k)),
        forall|i: int|
            0 <= i < entries_of_client(es, c).len() ==> token_under(
                es,
                #[trigger] entries_of_client(es, c)[i].0,
            ) == Some(entries_of_client(es, c)[i].1),
    decreases es.len(),
{
    let l = entries_of_client(es, c);
    if es.len() == 0 {
        assert forall|k: KeyView| #[trigger] has_key(l, k) <==> (k.1 == c && has_key(es, k)) by {}
    } else {
        let init = es.drop_last();
        assert(distinct_keys(init)) by {
            assert forall|i: int, j: int|
                0 <= i < init.len() && 0 <= j < init.len() && i != j implies (
                #[trigger] init[i]).0 != (#[trigger] init[j]).0 by {
                assert(init[i] == es[i] && init[j] == es[j]);
            }
        }
        lemma_client_listing(init, c);
        let kept = entries_of_client(init, c);
        let last = es.last();
        assert(last == es[es.len() - 1]);
        // every key of the shorter table differs from the last one
        assert forall|i: int| 0 <= i < init.len() implies (#[trigger] init[i]).0 != last.0 by {
            assert(init[i] == es[i]);
        }
        assert forall|k: KeyView| #[trigger] has_key(es, k) <==> (has_key(init, k) || k == last.0) by {
            if has_key(es, k) {
                let i = choose|i: int| 0 <= i < es.len() && (#[trigger] es[i]).0 == k;
                if i < es.len() - 1 {
                    assert(init[i] == es[i]);
                }
            }
            if has_key(init, k) {
                let i = choose|i: int| 0 <= i < init.len() && (#[trigger] init[i]).0 == k;
                assert(es[i] == init[i]);
            }
            if k == last.0 {
                assert(es[es.len() - 1].0 == k);
            }
        }
        assert forall|k: KeyView| has_key(init, k) implies token_under(es, k) == token_under(init, k) by {
            let i = choose|i: int| 0 <= i < init.len() && (#[trigger] init[i]).0 == k;
            assert(es[i] == init[i]);
            assert(has_key(es, k));
            let j = choose|j: int| 0 <= j < es.len() && (#[trigger] es[j]).0 == k;
            let j2 = choose|j2: int| 0 <= j2 < init.len() && (#[trigger] init[j2]).0 == k;
            assert(j == i);
            assert(j2 == i);
        }
        assert(has_key(es, last.0));
        assert(token_under(es, last.0) == Some(last.1)) by {
            let j = choose|j: int| 0 <= j < es.len() && (#[trigger] es[j]).0 == last.0;
            assert(j == es.len() - 1);
        }
        if last.0.1 == c {
            assert(l == kept.push(last));
            assert forall|k: KeyView| #[trigger] has_key(l, k) <==> (k.1 == c && has_key(es, k)) by {
                if has_key(l, k) {
                    let i = choose|i: int| 0 <= i < l.len() && (#[trigger] l[i]).0 == k;
                    if i < kept.len() {
                        assert(l[i] == kept[i]);
                        assert(has_key(kept, k));
                    }
                }
                if k.1 == c && has_key(es, k) {
                    if k == last.0 {
                        assert(l[l.len() - 1].0 == k);
                    } else {
                        assert(has_key(kept, k));
                        let i = choose|i: int| 0 <= i < kept.len() && (#[trigger] kept[i]).0 == k;
                        assert(l[i] == kept[i]);
                    }
                }
            }
            assert(!has_key(kept, last.0));
            assert(distinct_keys(l)) by {
                assert forall|i: int, j: int|
                    0 <= i < l.len() && 0 <= j < l.len() && i != j implies (#[trigger] l[i]).0 != (
                    #[trigger] l[j]).0 by {
                    if i < kept.len() && j < kept.len() {
                        assert(l[i] == kept[i] && l[j] == kept[j]);
                    } else if i < kept.len() {
                        assert(l[i] == kept[i]);
                        assert(has_key(kept, l[i].0));
                    } else {
                        assert(l[j] == kept[j]);
                        assert(has_key(kept, l[j].0));
                    }
                }
            }
            assert forall|i: int| 0 <= i < l.len() implies token_under(es, #[trigger] l[i].0) == Some(
                l[i].1,
            ) by {
                if i < kept.len() {
                    assert(l[i] == kept[i]);
                    assert(has_key(kept, kept[i].0));
                }
            }
        } else {
            assert(l == kept);
            assert forall|k: KeyView| #[trigger] has_key(l, k) <==> (k.1 == c && has_key(es, k)) by {}
            assert forall|i: int| 0 <= i < l.len() implies token_under(es, #[trigger] l[i].0) == Some(
                l[i].1,
            ) by {
                assert(has_key(kept, kept[i].0));
            }
        }
    }
}

/// A token written under a key is what a read of that key returns, and the
/// write leaves every other key as it was.
pub proof fn lemma_read_after_write(
    before: Seq<StoreEntry>,
    after: Seq<StoreEntry>,
    key: KeyView,
    token: StoredToken,
    other: KeyView,
)
    requires
        put_effect(before, after, key, token),
    ensures
        token_under(after, key) == Some(token),
        other != key ==> token_under(after, other) == token_under(before, other),
{
    assert(token_under(after, key) == if key == key {
        Some(token)
    } else {
        token_under(before, key)
    });
    assert(token_under(after, other) == if other == key {
        Some(token)
    } else {
        token_under(before, other)
    });
}

/// Removing a key after writing it leaves nothing under that key and every
/// other key as it was before the write.
pub proof fn lemma_remove_after_write(
    before: Seq<StoreEntry>,
    middle: Seq<StoreEntry>,
    after: Seq<StoreEntry>,
    key: KeyView,
    token: StoredToken,
    other: KeyView,
)
    requires
        put_effect(before, middle, key, token),
        remove_effect(middle, after, key),
    ensures
        token_under(after, key) is None,
        other != key ==> token_under(after, other) == token_under(before, other),
{
    assert(token_under(after, key) == if key == key {
        None::<StoredToken>
    } else {
        token_under(middle, key)
    });
    assert(token_under(after, other) == if other == key {
        None::<StoredToken>
    } else {
        token_under(middle, other)
    });
    assert(token_under(middle, other) == if other == key {
        Some(token)
    } else {
        token_under(before, other)
    });
}

} // verus!
