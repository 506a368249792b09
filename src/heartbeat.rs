//! The heartbeat store: the last time each instance id reported itself alive.
//!
//! Times are whole seconds on a clock that the caller reads.

use crate::models::strings_view;
use crate::registry::{lemma_filter_push, lemma_take_succ};
use vstd::prelude::*;

verus! {

/// The store as the contracts see it: one entry per id, with the time of its
/// last heartbeat, in the order in which ids first reported.
pub type HeartbeatView = Seq<(Seq<char>, u64)>;

/// No id has two entries.
pub open spec fn distinct_ids(h: HeartbeatView) -> bool {
    forall|i: int, j: int|
        0 <= i < h.len() && 0 <= j < h.len() && i != j ==> #[trigger] h[i].0 != #[trigger] h[j].0
}

/// `id` has an entry.
pub open spec fn has_id(h: HeartbeatView, id: Seq<char>) -> bool {
    exists|i: int| 0 <= i < h.len() && #[trigger] h[i].0 == id
}

/// The position of `id`'s entry, where it has one.
pub open spec fn id_index(h: HeartbeatView, id: Seq<char>) -> int {
    choose|i: int| 0 <= i < h.len() && #[trigger] h[i].0 == id
}

/// When `id` last reported, or `None` where it never did.
pub open spec fn last_seen(h: HeartbeatView, id: Seq<char>) -> Option<u64> {
    if has_id(h, id) {
        Some(h[id_index(h, id)].1)
    } else {
        None
    }
}

/// The store after `id` reports at time `now`: its time is replaced, or a new
/// entry is appended.
pub open spec fn touch_spec(h: HeartbeatView, id: Seq<char>, now: u64) -> HeartbeatView {
    if has_id(h, id) {
        h.update(id_index(h, id), (id, now))
    } else {
        h.push((id, now))
    }
}

/// A heartbeat at time `seen` has expired at time `now` when more than `ttl`
/// seconds have elapsed; a time after `now` has not elapsed at all.
pub open spec fn expired(seen: u64, now: u64, ttl: u64) -> bool {
    seen <= now && now - seen > ttl
}

/// The ids whose heartbeat has expired at `now`, in entry order.
pub open spec fn expired_ids(h: HeartbeatView, now: u64, ttl: u64) -> Seq<Seq<char>> {
    h.filter(|e: (Seq<char>, u64)| expired(e.1, now, ttl)).map_values(|e: (Seq<char>, u64)| e.0)
}

/// With distinct ids, the entry at `i` is the one found for its id.
pub proof fn lemma_id_index(h: HeartbeatView, i: int)
    requires
        distinct_ids(h),
        0 <= i < h.len(),
    ensures
        has_id(h, h[i].0),
        id_index(h, h[i].0) == i,
        last_seen(h, h[i].0) == Some(h[i].1),
{
    assert(has_id(h, h[i].0));
    let k = id_index(h, h[i].0);
    assert(h[k].0 == h[i].0);
}

struct HeartbeatEntry {
    id: String,
    last_seen: u64,
}

/// The heartbeat store. Expired entries stay: an instance that reports again
/// is known again at once.
pub struct HeartbeatStore {
    entries: Vec<HeartbeatEntry>,
}

impl View for HeartbeatStore {
    type V = HeartbeatView;

    closed spec fn view(&self) -> HeartbeatView {
        self.entries@.map_values(|e: HeartbeatEntry| (e.id@, e.last_seen))
    }
}

impl HeartbeatStore {
    /// No id has two entries.
    pub open spec fn wf(&self) -> bool {
        distinct_ids(self@)
    }

    /// An empty store.
    pub fn new() -> (r: Self)
        ensures
            r.wf(),
            r@ == Seq::<(Seq<char>, u64)>::empty(),
    {
        let r = HeartbeatStore { entries: Vec::new() };
        assert(r@ =~= Seq::<(Seq<char>, u64)>::empty());
        r
    }

    /// Records that `id` reported at time `now`: inserts it where new, else
    /// replaces its time without adding an entry.
    pub fn touch(&mut self, id: String, now: u64)
        requires
            old(self).wf(),
        ensures
            final(self).wf(),
            final(self)@ == touch_spec(old(self)@, id@, now),
    {
        let ghost old_view = self@;
        let mut i: usize = 0;
        while i < self.entries.len()
            invariant
                i <= self.entries.len(),
                self@ == old_view,
                old(self)@ == old_view,
                distinct_ids(old_view),
                forall|j: int| 0 <= j < i ==> #[trigger] self@[j].0 != id@,
            decreases self.entries.len() - i,
        {
            if self.entries[i].id == id {
                proof {
                    lemma_id_index(old_view, i as int);
                }
                self.entries[i].last_seen = now;
                assert(self@ =~= touch_spec(old_view, id@, now));
                assert forall|a: int, b: int|
                    0 <= a < self@.len() && 0 <= b < self@.len() && a != b implies #[trigger] self@[a].0
                    != #[trigger] self@[b].0 by {
                    assert(self@[a].0 == old_view[a].0);
                    assert(self@[b].0 == old_view[b].0);
                }
                return;
            }
            i += 1;
        }
        let ghost idv = id@;
        self.entries.push(HeartbeatEntry { id, last_seen: now });
        assert(self@ =~= touch_spec(old_view, idv, now));
    }

    /// The ids whose last heartbeat is more than `ttl` seconds before `now`.
    pub fn sweep(&self, now: u64, ttl: u64) -> (r: Vec<String>)
        ensures
            strings_view(r@) == expired_ids(self@, now, ttl),
    {
        let ghost p = |e: (Seq<char>, u64)| expired(e.1, now, ttl);
        let ghost f = |e: (Seq<char>, u64)| e.0;
        let mut r: Vec<String> = Vec::new();
        let mut i: usize = 0;
        while i < self.entries.len()
            invariant
                i <= self.entries.len(),
                p == (|e: (Seq<char>, u64)| expired(e.1, now, ttl)),
                f == (|e: (Seq<char>, u64)| e.0),
                strings_view(r@) == self@.take(i as int).filter(p).map_values(f),
            decreases self.entries.len() - i,
        {
            proof {
                lemma_take_succ(self@, i as int);
                lemma_filter_push(self@.take(i as int), self@[i as int], p);
            }
            let ghost before = r@;
            let seen = self.entries[i].last_seen;
            if seen <= now && now - seen > ttl {
                r.push(self.entries[i].id.clone());
                assert(strings_view(r@) =~= strings_view(before).push(self@[i as int].0));
                assert(self@.take(i as int).filter(p).push(self@[i as int]).map_values(f)
                    =~= self@.take(i as int).filter(p).map_values(f).push(self@[i as int].0));
            }
            i += 1;
        }
        assert(self@.take(self.entries.len() as int) =~= self@);
        r
    }
}

} // verus!
