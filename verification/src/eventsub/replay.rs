//! Replay protection and duplicate suppression.

use crate::eventsub::error::EventSubError;
use crate::id::MessageId;
use crate::time::{min_datetime_nanos, steps_back_in_range, TimeSpan, Timestamp};
use vstd::prelude::*;
use vstd::string::*;

verus! {

/// Configuration for the built-in in-memory replay store.
#[derive(Clone, Copy, Debug, PartialEq, Eq)]
pub struct ReplayStoreConfig {
    /// Maximum accepted message age.
    pub replay_window: TimeSpan,
    /// Retention for message identifiers in duplicate suppression.
    pub message_id_ttl: TimeSpan,
    /// Maximum number of tracked message identifiers.
    pub max_entries: usize,
}

impl Default for ReplayStoreConfig {
    /// Ten minutes of replay window, fifteen minutes of retention, 4096
    /// tracked identifiers.
    fn default() -> (r: Self)
        ensures
            r.replay_window.total_nanos() == 600 * 1_000_000_000,
            r.message_id_ttl.total_nanos() == 900 * 1_000_000_000,
            r.max_entries == 4096,
    {
        ReplayStoreConfig {
            replay_window: TimeSpan::from_secs(10 * 60),
            message_id_ttl: TimeSpan::from_secs(15 * 60),
            max_entries: 4_096,
        }
    }
}

/// A tracked message: its identifier's text and when it was seen, in
/// nanoseconds since the Unix epoch.
pub type EntryView = (Seq<char>, int);

/// Whether some entry carries the identifier `id`.
pub open spec fn has_id(es: Seq<EntryView>, id: Seq<char>) -> bool {
    exists|i: int| 0 <= i < es.len() && (#[trigger] es[i]).0 == id
}

/// No identifier is tracked twice.
pub open spec fn distinct_ids(es: Seq<EntryView>) -> bool {
    forall|i: int, j: int|
        0 <= i < es.len() && 0 <= j < es.len() && i != j ==> (#[trigger] es[i]).0 != (
        #[trigger] es[j]).0
}

/// The entries seen at or after `oldest`, in order.
pub open spec fn retain_fresh(es: Seq<EntryView>, oldest: int) -> Seq<EntryView>
    decreases es.len(),
{
    if es.len() == 0 {
        seq![]
    } else {
        let kept = retain_fresh(es.drop_last(), oldest);
        if es.last().1 >= oldest {
            kept.push(es.last())
        } else {
            kept
        }
    }
}

/// `after` is what remains of `before` once its oldest entries are evicted
/// down to `max` entries: nothing is evicted when `before` fits, and every
/// evicted entry was seen no later than every kept one.
pub open spec fn evicts_oldest(before: Seq<EntryView>, after: Seq<EntryView>, max: int) -> bool {
    &&& before.len() <= max ==> after == before
    &&& after.len() == if before.len() <= max {
        before.len() as int
    } else {
        max
    }
    &&& forall|e: EntryView| #[trigger] after.contains(e) ==> before.contains(e)
    &&& forall|e: EntryView, k: EntryView|
        before.contains(e) && !after.contains(e) && after.contains(k) ==> e.1 <= k.1
}

/// What one `seen_or_insert` call does to the tracked entries: entries older
/// than `seen_at - ttl` are dropped; a message still tracked is reported as
/// seen, otherwise it is added and the oldest entries are evicted down to
/// `max`.
pub open spec fn replay_outcome(
    before: Seq<EntryView>,
    id: Seq<char>,
    seen_at: int,
    ttl: int,
    max: int,
    seen: bool,
    after: Seq<EntryView>,
) -> bool {
    let kept = retain_fresh(before, seen_at - ttl);
    if has_id(kept, id) {
        seen && after == kept
    } else {
        !seen && evicts_oldest(kept.push((id, seen_at)), after, max)
    }
}

/// Message of the error for a retention period beyond what a date-time
/// duration holds.
pub open spec fn duration_range_message() -> Seq<char> {
    "duration seconds exceed supported range"@
}

proof fn lemma_retain_fresh_subset(es: Seq<EntryView>, oldest: int)
    ensures
        forall|e: EntryView| #[trigger] retain_fresh(es, oldest).contains(e) ==> es.contains(e)
            && e.1 >= oldest,
        distinct_ids(es) ==> distinct_ids(retain_fresh(es, oldest)),
        retain_fresh(es, oldest).len() <= es.len(),
    decreases es.len(),
{
    if es.len() > 0 {
        lemma_retain_fresh_subset(es.drop_last(), oldest);
        let kept = retain_fresh(es.drop_last(), oldest);
        assert forall|e: EntryView| #[trigger] retain_fresh(es, oldest).contains(e) implies es.contains(
            e,
        ) && e.1 >= oldest by {
            if kept.contains(e) {
                let i = choose|i: int| 0 <= i < kept.len() && kept[i] == e;
                assert(es.drop_last().contains(e));
                let j = choose|j: int| 0 <= j < es.drop_last().len() && es.drop_last()[j] == e;
                assert(es[j] == e);
            } else {
                assert(e == es.last());
                assert(es[es.len() - 1] == e);
            }
        }
        if distinct_ids(es) {
            assert(distinct_ids(es.drop_last()));
            if es.last().1 >= oldest {
                let r = retain_fresh(es, oldest);
                assert forall|i: int, j: int|
                    0 <= i < r.len() && 0 <= j < r.len() && i != j implies (#[trigger] r[i]).0 != (
                    #[trigger] r[j]).0 by {
                    if i < kept.len() && j < kept.len() {
                    } else if i == kept.len() {
                        assert(kept.contains(r[j]));
                        assert(es.drop_last().contains(r[j]));
                        let k = choose|k: int| 0 <= k < es.drop_last().len() && es.drop_last()[k] == r[j];
                        assert(es[k] == r[j]);
                        assert(es[es.len() - 1] == r[i]);
                    } else {
                        assert(kept.contains(r[i]));
                        assert(es.drop_last().contains(r[i]));
                        let k = choose|k: int| 0 <= k < es.drop_last().len() && es.drop_last()[k] == r[i];
                        assert(es[k] == r[i]);
                        assert(es[es.len() - 1] == r[j]);
                    }
                }
            }
        }
    }
}

/// In-memory replay store: the tracked message identifiers with the time
/// each was seen, never more than the configured maximum and never one
/// identifier twice.
#[derive(Debug)]
pub struct InMemoryReplayStore {
    config: ReplayStoreConfig,
    entries: Vec<(MessageId, Timestamp)>,
}

/// The view of one stored entry.
pub open spec fn entry_view(e: (MessageId, Timestamp)) -> EntryView {
    (e.0@, e.1.unix_nanos_spec())
}

/// The views of stored entries.
pub open spec fn stored_view(v: Seq<(MessageId, Timestamp)>) -> Seq<EntryView> {
    v.map_values(|e: (MessageId, Timestamp)| entry_view(e))
}

impl InMemoryReplayStore {
    /// The tracked entries, in insertion order.
    pub closed spec fn entries_view(&self) -> Seq<EntryView> {
        stored_view(self.entries@)
    }

    /// The store's configuration.
    pub closed spec fn config_spec(&self) -> ReplayStoreConfig {
        self.config
    }

    /// Distinct identifiers, at most the configured maximum of them.
    pub open spec fn well_formed(&self) -> bool {
        &&& distinct_ids(self.entries_view())
        &&& self.entries_view().len() <= self.config_spec().max_entries
    }

    /// Creates a replay store with the provided configuration.
    pub fn new(config: ReplayStoreConfig) -> (r: Self)
        ensures
            r.well_formed(),
            r.config_spec() == config,
            r.entries_view() == Seq::<EntryView>::empty(),
    {
        let r = InMemoryReplayStore { config, entries: Vec::new() };
        assert(r.entries_view() =~= Seq::<EntryView>::empty());
        r
    }

    /// Returns the built-in replay store configuration.
    pub fn config(&self) -> (r: ReplayStoreConfig)
        ensures
            r == self.config_spec(),
    {
        self.config
    }

    fn evict_expired(entries: &Vec<(MessageId, Timestamp)>, oldest: i128) -> (r: Vec<
        (MessageId, Timestamp),
    >)
        ensures
            stored_view(r@) == retain_fresh(
                stored_view(entries@),
                oldest as int,
            ),
    {
        let ghost all = stored_view(entries@);
        let mut kept: Vec<(MessageId, Timestamp)> = Vec::new();
        let mut i: usize = 0;
        while i < entries.len()
            invariant
                i <= entries.len(),
                all == stored_view(entries@),
                stored_view(kept@) == retain_fresh(
                    all.take(i as int),
                    oldest as int,
                ),
            decreases entries.len() - i,
        {
            assert(all.take(i as int + 1).drop_last() == all.take(i as int));
            assert(all.take(i as int + 1).last() == entry_view(entries@[i as int]));
            let seen_at = entries[i].1;
            if seen_at.unix_nanos() >= oldest {
                let ghost before = kept@;
                let id = entries[i].0.clone();
                kept.push((id, seen_at));
                assert(stored_view(kept@) =~= before.map_values(
                    |e: (MessageId, Timestamp)| entry_view(e),
                ).push(entry_view(entries@[i as int])));
            }
            i = i + 1;
        }
        assert(all.take(entries.len() as int) == all);
        kept
    }

    fn contains_id(entries: &Vec<(MessageId, Timestamp)>, id: &MessageId) -> (r: bool)
        ensures
            r == has_id(stored_view(entries@), id@),
    {
        let ghost all = stored_view(entries@);
        let mut i: usize = 0;
        while i < entries.len()
            invariant
                i <= entries.len(),
                all == stored_view(entries@),
                forall|k: int| 0 <= k < i ==> (#[trigger] all[k]).0 != id@,
            decreases entries.len() - i,
        {
            if entries[i].0.same_as(id) {
                assert(all[i as int].0 == id@);
                return true;
            }
            i = i + 1;
        }
        false
    }

    fn enforce_bound(entries: &mut Vec<(MessageId, Timestamp)>, max_entries: usize)
        requires
            distinct_ids(stored_view(old(entries)@)),
        ensures
            distinct_ids(stored_view(final(entries)@)),
            evicts_oldest(
                stored_view(old(entries)@),
                stored_view(final(entries)@),
                max_entries as int,
            ),
    {
        let ghost before = stored_view(old(entries)@);
        if entries.len() <= max_entries {
            return;
        }
        while entries.len() > max_entries
            invariant
                entries.len() >= max_entries,
                before.len() > max_entries,
                distinct_ids(stored_view(entries@)),
                forall|e: EntryView|
                    #[trigger] stored_view(entries@).contains(e) ==> before.contains(e),
                forall|e: EntryView, k: EntryView|
                    before.contains(e) && !stored_view(entries@).contains(e) && stored_view(entries@).contains(k) ==> e.1 <= k.1,
            decreases entries.len(),
        {
            let ghost cur = stored_view(entries@);
            let mut min_index: usize = 0;
            let mut j: usize = 1;
            while j < entries.len()
                invariant
                    cur == stored_view(entries@),
                    entries.len() > 0,
                    1 <= j <= entries.len(),
                    min_index < j,
                    forall|k: int| 0 <= k < j ==> cur[min_index as int].1 <= (#[trigger] cur[k]).1,
                decreases entries.len() - j,
            {
                if entries[j].1.unix_nanos() < entries[min_index].1.unix_nanos() {
                    min_index = j;
                }
                j = j + 1;
            }
            let ghost m = cur[min_index as int];
            entries.remove(min_index);
            let ghost next = stored_view(entries@);
            proof {
                assert(next =~= cur.remove(min_index as int));
                assert forall|e: EntryView| #[trigger] next.contains(e) implies cur.contains(e) by {
                    let i = choose|i: int| 0 <= i < next.len() && next[i] == e;
                    if i < min_index {
                        assert(cur[i] == e);
                    } else {
                        assert(cur[i + 1] == e);
                    }
                }
                assert forall|e: EntryView| cur.contains(e) && e != m implies #[trigger] next.contains(e) by {
                    let i = choose|i: int| 0 <= i < cur.len() && cur[i] == e;
                    if i < min_index {
                        assert(next[i] == e);
                    } else {
                        assert(i != min_index);
                        assert(next[i - 1] == e);
                    }
                }
                assert forall|e: EntryView, k: EntryView|
                    before.contains(e) && !next.contains(e) && next.contains(k) implies e.1 <= k.1 by {
                    assert(cur.contains(k));
                    if cur.contains(e) {
                        assert(e == m);
                        let i = choose|i: int| 0 <= i < cur.len() && cur[i] == k;
                        assert(cur[min_index as int].1 <= cur[i].1);
                    }
                }
                assert(distinct_ids(next)) by {
                    assert forall|a: int, b: int|
                        0 <= a < next.len() && 0 <= b < next.len() && a != b implies (
                        #[trigger] next[a]).0 != (#[trigger] next[b]).0 by {
                        let ia = if a < min_index { a } else { a + 1 };
                        let ib = if b < min_index { b } else { b + 1 };
                        assert(next[a] == cur[ia]);
                        assert(next[b] == cur[ib]);
                    }
                }
            }
        }
    }

    /// Returns `true` when the message was already seen within `ttl` of
    /// `seen_at`, otherwise records it and returns `false`.
    ///
    /// Entries seen before `seen_at - ttl` are forgotten first. After a new
    /// message is recorded, the oldest entries are evicted so that at most
    /// the configured maximum remain. A `ttl` beyond what a date-time
    /// duration holds is an error that leaves the store unchanged.
    pub fn seen_or_insert(&mut self, message_id: &MessageId, seen_at: Timestamp, ttl: TimeSpan) -> (r:
        Result<bool, EventSubError>)
        requires
            old(self).well_formed(),
            ttl.whole_secs() <= i64::MAX ==> seen_at.unix_nanos_spec() - ttl.total_nanos()
                >= min_datetime_nanos(),
        ensures
            final(self).well_formed(),
            final(self).config_spec() == old(self).config_spec(),
            ttl.whole_secs() > i64::MAX ==> (r matches Err(EventSubError::Replay(m)) && m@
                == duration_range_message() && final(self).entries_view() == old(
                self,
            ).entries_view()),
            ttl.whole_secs() <= i64::MAX ==> (r matches Ok(seen) && replay_outcome(
                old(self).entries_view(),
                message_id@,
                seen_at.unix_nanos_spec(),
                ttl.total_nanos(),
                old(self).config_spec().max_entries as int,
                seen,
                final(self).entries_view(),
            )),
    {
        let secs = ttl.as_secs();
        if secs > 0x7FFF_FFFF_FFFF_FFFF {
            return Err(EventSubError::Replay(String::from_str("duration seconds exceed supported range")));
        }
        let nanos = ttl.subsec_nanos();
        let ttl_nanos: i128 = (secs as i128) * 1_000_000_000 + (nanos as i128);
        let oldest: i128 = seen_at.unix_nanos() - ttl_nanos;
        let ghost before = self.entries_view();
        let mut entries = Self::evict_expired(&self.entries, oldest);
        proof {
            lemma_retain_fresh_subset(before, oldest as int);
        }
        if Self::contains_id(&entries, message_id) {
            self.entries = entries;
            return Ok(true);
        }
        let ghost kept = stored_view(entries@);
        entries.push((message_id.clone(), seen_at));
        let ghost grown = stored_view(entries@);
        proof {
            assert(grown =~= kept.push((message_id@, seen_at.unix_nanos_spec())));
            assert forall|i: int, j: int|
                0 <= i < grown.len() && 0 <= j < grown.len() && i != j implies (#[trigger] grown[i]).0
                != (#[trigger] grown[j]).0 by {
                if i == kept.len() {
                    assert(grown[j] == kept[j]);
                } else if j == kept.len() {
                    assert(grown[i] == kept[i]);
                } else {
                    assert(grown[i] == kept[i] && grown[j] == kept[j]);
                }
            }
        }
        Self::enforce_bound(&mut entries, self.config.max_entries);
        self.entries = entries;
        Ok(false)
    }

    /// `seen_or_insert` wherever stepping back `ttl` from `seen_at` stays
    /// inside the range of date-times, and `None`, with the store untouched,
    /// where it would leave it.
    pub fn try_seen_or_insert(&mut self, message_id: &MessageId, seen_at: Timestamp, ttl: TimeSpan) -> (r:
        Option<Result<bool, EventSubError>>)
        requires
            old(self).well_formed(),
        ensures
            final(self).well_formed(),
            final(self).config_spec() == old(self).config_spec(),
            r is None <==> !(ttl.whole_secs() <= i64::MAX ==> seen_at.unix_nanos_spec()
                - ttl.total_nanos() >= min_datetime_nanos()),
            r is None ==> final(self).entries_view() == old(self).entries_view(),
            r is Some && ttl.whole_secs() > i64::MAX ==> (r matches Some(Err(EventSubError::Replay(m))) && m@
                == duration_range_message() && final(self).entries_view() == old(
                self,
            ).entries_view()),
            r is Some && ttl.whole_secs() <= i64::MAX ==> (r matches Some(Ok(seen)) && replay_outcome(
                old(self).entries_view(),
                message_id@,
                seen_at.unix_nanos_spec(),
                ttl.total_nanos(),
                old(self).config_spec().max_entries as int,
                seen,
                final(self).entries_view(),
            )),
    {
        if !steps_back_in_range(seen_at, ttl) {
            return None;
        }
        Some(self.seen_or_insert(message_id, seen_at, ttl))
    }
}

impl Default for InMemoryReplayStore {
    fn default() -> (r: Self)
        ensures
            r.well_formed(),
            r.config_spec().max_entries == 4096,
            r.entries_view() == Seq::<EntryView>::empty(),
    {
        Self::new(ReplayStoreConfig::default())
    }
}

/// A message the store accepted is reported as a replay when it arrives
/// again no later than its retention allows (the second call's oldest
/// retained instant is not after the first arrival), provided the store
/// keeps at least one entry and accepting it evicted nothing seen at the
/// same instant or later: either there was room, or everything retained was
/// older.
pub proof fn lemma_replay_is_detected(
    before: Seq<EntryView>,
    middle: Seq<EntryView>,
    after: Seq<EntryView>,
    id: Seq<char>,
    seen_at: int,
    ttl: int,
    later_seen_at: int,
    later_ttl: int,
    max: int,
    seen: bool,
)
    requires
        max > 0,
        replay_outcome(before, id, seen_at, ttl, max, false, middle),
        retain_fresh(before, seen_at - ttl).len() < max || forall|e: EntryView| #[trigger]
            retain_fresh(before, seen_at - ttl).contains(e) ==> e.1 < seen_at,
        later_seen_at - later_ttl <= seen_at,
        replay_outcome(middle, id, later_seen_at, later_ttl, max, seen, after),
    ensures
        seen,
{
    let kept = retain_fresh(before, seen_at - ttl);
    let grown = kept.push((id, seen_at));
    assert(grown[kept.len() as int] == (id, seen_at));
    assert(grown.contains((id, seen_at)));
    if !middle.contains((id, seen_at)) {
        if grown.len() <= max {
            assert(middle == grown);
        }
        assert(middle.len() > 0);
        let k = middle[0];
        assert(middle.contains(k));
        assert(grown.contains(k));
        let i = choose|i: int| 0 <= i < grown.len() && grown[i] == k;
        assert(seen_at <= k.1);
        if i < kept.len() {
            assert(kept[i] == k);
            assert(kept.contains(k));
            assert(k.1 < seen_at);
        } else {
            assert(k == (id, seen_at));
        }
        assert(false);
    }
    lemma_retain_fresh_keeps(middle, later_seen_at - later_ttl, (id, seen_at));
}

/// A store that still tracks a message seen at `seen_at` never accepts
/// another arrival of that message as new, unless the arrival is so late
/// that its retention no longer reaches back to `seen_at`: two accepted
/// arrivals of one identifier are further apart than the retention.
pub proof fn lemma_tracked_id_is_not_accepted_again(
    before: Seq<EntryView>,
    after: Seq<EntryView>,
    id: Seq<char>,
    seen_at: int,
    later_id: Seq<char>,
    later_seen_at: int,
    later_ttl: int,
    max: int,
)
    requires
        before.contains((id, seen_at)),
        later_seen_at - later_ttl <= seen_at,
        replay_outcome(before, later_id, later_seen_at, later_ttl, max, false, after),
    ensures
        later_id != id,
{
    if later_id == id {
        lemma_retain_fresh_keeps(before, later_seen_at - later_ttl, (id, seen_at));
    }
}

proof fn lemma_retain_fresh_keeps(es: Seq<EntryView>, oldest: int, e: EntryView)
    requires
        es.contains(e),
        e.1 >= oldest,
    ensures
        retain_fresh(es, oldest).contains(e),
        has_id(retain_fresh(es, oldest), e.0),
    decreases es.len(),
{
    let r = retain_fresh(es, oldest);
    if es.last() == e {
        assert(r[r.len() - 1] == e);
    } else {
        let i = choose|i: int| 0 <= i < es.len() && es[i] == e;
        assert(es.drop_last()[i] == e);
        lemma_retain_fresh_keeps(es.drop_last(), oldest, e);
        let kept = retain_fresh(es.drop_last(), oldest);
        let j = choose|j: int| 0 <= j < kept.len() && kept[j] == e;
        assert(r[j] == e);
    }
    let j = choose|j: int| 0 <= j < r.len() && r[j] == e;
    assert(r[j].0 == e.0);
}

} // verus!
