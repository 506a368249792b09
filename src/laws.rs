//! Properties of the registry that hold across calls, proved over the models
//! that the operations' contracts use.

use crate::heartbeat::{
    distinct_ids, expired, expired_ids, has_id, id_index, last_seen, lemma_id_index, touch_spec,
    HeartbeatView,
};
use crate::inbound::handle_spec;
use crate::models::{BroadcastView, ServiceView, SingleView};
use crate::monitor::sweep_spec;
use crate::registry::{
    deregister_spec, distinct_names, evict_spec, has_name, lemma_name_index, lookup, lookup_or_empty,
    name_index, register_spec, without_id, without_ids, RegistryView,
};
use crate::request::{is_query, RequestView};
use vstd::prelude::*;

verus! {

broadcast use vstd::seq_lib::group_filter_ensures;

/// Filtering keeps a sequence whose every element passes.
pub proof fn lemma_filter_keeps_all<A>(l: Seq<A>, p: spec_fn(A) -> bool)
    requires
        forall|k: int| 0 <= k < l.len() ==> p(#[trigger] l[k]),
    ensures
        l.filter(p) == l,
    decreases l.len(),
{
    reveal(Seq::filter);
    if l.len() > 0 {
        lemma_filter_keeps_all(l.drop_last(), p);
        assert(l.drop_last().push(l.last()) =~= l);
    }
}

/// Registering appends the instance to its name's list, creating it where
/// absent, and leaves every other name's list as it was.
pub proof fn lemma_register_appends(r: RegistryView, s: ServiceView)
    requires
        distinct_names(r),
    ensures
        distinct_names(register_spec(r, s)),
        lookup(register_spec(r, s), s.name) == Some(lookup_or_empty(r, s.name).push(s)),
        forall|n: Seq<char>| n != s.name ==> #[trigger] lookup(register_spec(r, s), n) == lookup(r, n),
{
    let r2 = register_spec(r, s);
    if has_name(r, s.name) {
        let i = name_index(r, s.name);
        lemma_name_index(r, i);
        assert forall|a: int, b: int| 0 <= a < r2.len() && 0 <= b < r2.len() && a != b implies #[trigger] r2[a].0
            != #[trigger] r2[b].0 by {
            assert(r2[a].0 == r[a].0);
            assert(r2[b].0 == r[b].0);
        }
        lemma_name_index(r2, i);
        assert forall|n: Seq<char>| n != s.name implies #[trigger] lookup(r2, n) == lookup(r, n) by {
            if has_name(r, n) {
                let j = name_index(r, n);
                lemma_name_index(r, j);
                lemma_name_index(r2, j);
            } else {
                assert(!has_name(r2, n)) by {
                    if has_name(r2, n) {
                        let j = name_index(r2, n);
                        assert(r[j].0 == n);
                    }
                }
            }
        }
    } else {
        assert forall|a: int, b: int| 0 <= a < r2.len() && 0 <= b < r2.len() && a != b implies #[trigger] r2[a].0
            != #[trigger] r2[b].0 by {
            if a < r.len() && b < r.len() {
                assert(r2[a] == r[a] && r2[b] == r[b]);
            } else if a < r.len() {
                assert(r2[a] == r[a]);
            } else {
                assert(r2[b] == r[b]);
            }
        }
        lemma_name_index(r2, r.len() as int);
        assert(seq![s] =~= Seq::<ServiceView>::empty().push(s));
        assert forall|n: Seq<char>| n != s.name implies #[trigger] lookup(r2, n) == lookup(r, n) by {
            if has_name(r, n) {
                let j = name_index(r, n);
                lemma_name_index(r, j);
                lemma_name_index(r2, j);
            } else {
                assert(!has_name(r2, n)) by {
                    if has_name(r2, n) {
                        let j = name_index(r2, n);
                        assert(j < r.len());
                        assert(r[j].0 == n);
                    }
                }
            }
        }
    }
}

/// Two registrations under one name are both kept, in registration order:
/// discovery then lists the earlier instances, then `a`, then `b`.
pub proof fn lemma_register_twice_keeps_order(
    r: RegistryView,
    h: HeartbeatView,
    now: u64,
    a: ServiceView,
    b: ServiceView,
)
    requires
        distinct_names(r),
        a.name == b.name,
    ensures
        ({
            let r1 = handle_spec(RequestView::Registry { service: a }, r, h, now).registry;
            let r2 = handle_spec(RequestView::Registry { service: b }, r1, h, now).registry;
            &&& handle_spec(RequestView::Discovery { name: a.name }, r2, h, now).reply == (SingleView::Discovery {
                name: a.name,
                services: Some(lookup_or_empty(r, a.name).push(a).push(b)),
            })
            &&& !has_name(r, a.name) ==> lookup(r2, a.name) == Some(seq![a, b])
        }),
{
    lemma_register_appends(r, a);
    let r1 = register_spec(r, a);
    lemma_register_appends(r1, b);
    if !has_name(r, a.name) {
        assert(Seq::<ServiceView>::empty().push(a).push(b) =~= seq![a, b]);
    }
}

/// Registering answers with success and announces the name's list, which
/// ends with the new instance.
pub proof fn lemma_register_announces(r: RegistryView, h: HeartbeatView, now: u64, s: ServiceView)
    requires
        distinct_names(r),
    ensures
        handle_spec(RequestView::Registry { service: s }, r, h, now).reply == (SingleView::Registry {
            success: true,
        }),
        handle_spec(RequestView::Registry { service: s }, r, h, now).broadcast == Some(
            BroadcastView::AddService { name: s.name, list: lookup_or_empty(r, s.name).push(s) },
        ),
{
    lemma_register_appends(r, s);
}

/// Discovery answers "no services" exactly for a name never registered; a
/// registered name whose instances are all gone answers an empty list.
pub proof fn lemma_discover_unknown(r: RegistryView, h: HeartbeatView, now: u64, name: Seq<char>)
    ensures
        handle_spec(RequestView::Discovery { name }, r, h, now).reply == (SingleView::Discovery {
            name,
            services: lookup(r, name),
        }),
        lookup(r, name) is None <==> !has_name(r, name),
{
}

/// Deregistering an id that is not under the name changes nothing, and the
/// broadcast still goes out with the name's unchanged list (empty where the
/// name is unknown).
pub proof fn lemma_deregister_absent_is_noop(
    r: RegistryView,
    h: HeartbeatView,
    now: u64,
    name: Seq<char>,
    id: Seq<char>,
)
    requires
        distinct_names(r),
        forall|k: int|
            0 <= k < lookup_or_empty(r, name).len() ==> #[trigger] lookup_or_empty(r, name)[k].id != id,
    ensures
        handle_spec(RequestView::Deregistry { name, id }, r, h, now).registry == r,
        handle_spec(RequestView::Deregistry { name, id }, r, h, now).broadcast == Some(
            BroadcastView::RemoveService { name, list: lookup_or_empty(r, name) },
        ),
{
    if has_name(r, name) {
        let i = name_index(r, name);
        lemma_name_index(r, i);
        lemma_filter_keeps_all(r[i].1, |s: ServiceView| s.id != id);
        assert(r.update(i, (name, r[i].1)) =~= r);
    }
}

/// A heartbeat from a new id adds one entry; from a known id it only replaces
/// that id's time. Either way the id's time is `now` and no other entry changes.
pub proof fn lemma_touch_upserts(h: HeartbeatView, id: Seq<char>, now: u64)
    requires
        distinct_ids(h),
    ensures
        distinct_ids(touch_spec(h, id, now)),
        last_seen(touch_spec(h, id, now), id) == Some(now),
        has_id(h, id) ==> touch_spec(h, id, now).len() == h.len(),
        !has_id(h, id) ==> touch_spec(h, id, now).len() == h.len() + 1,
        forall|o: Seq<char>| o != id ==> #[trigger] last_seen(touch_spec(h, id, now), o) == last_seen(h, o),
{
    let t = touch_spec(h, id, now);
    let i = if has_id(h, id) {
        id_index(h, id)
    } else {
        h.len() as int
    };
    if has_id(h, id) {
        lemma_id_index(h, i);
    }
    assert forall|a: int, b: int| 0 <= a < t.len() && 0 <= b < t.len() && a != b implies #[trigger] t[a].0
        != #[trigger] t[b].0 by {
        if a != i && b != i {
            assert(t[a] == h[a] && t[b] == h[b]);
        } else if a != i {
            assert(t[a] == h[a]);
        } else {
            assert(t[b] == h[b]);
        }
    }
    lemma_id_index(t, i);
    assert forall|o: Seq<char>| o != id implies #[trigger] last_seen(t, o) == last_seen(h, o) by {
        if has_id(h, o) {
            let j = id_index(h, o);
            lemma_id_index(h, j);
            assert(t[j] == h[j]);
            lemma_id_index(t, j);
        } else {
            assert(!has_id(t, o)) by {
                if has_id(t, o) {
                    let j = id_index(t, o);
                    assert(j != i);
                    assert(h[j].0 == o);
                }
            }
        }
    }
}

/// A sweep reports exactly the ids whose last heartbeat is more than `ttl`
/// seconds before `now`.
pub proof fn lemma_sweep_reports_expired(h: HeartbeatView, now: u64, ttl: u64, id: Seq<char>)
    requires
        distinct_ids(h),
    ensures
        expired_ids(h, now, ttl).contains(id) <==> (last_seen(h, id) matches Some(t) && expired(t, now, ttl)),
{
    let p = |e: (Seq<char>, u64)| expired(e.1, now, ttl);
    let f = |e: (Seq<char>, u64)| e.0;
    let fl = h.filter(p);
    if expired_ids(h, now, ttl).contains(id) {
        let k = choose|k: int| 0 <= k < fl.len() && #[trigger] fl.map_values(f)[k] == id;
        assert(fl.contains(fl[k]));
        h.lemma_filter_contains_rev(p, fl[k]);
        let j = choose|j: int| 0 <= j < h.len() && h[j] == fl[k];
        lemma_id_index(h, j);
        assert(p(fl[k]));
    }
    if last_seen(h, id) matches Some(t) && expired(t, now, ttl) {
        let j = id_index(h, id);
        lemma_id_index(h, j);
        assert(p(h[j]));
        assert(fl.contains(h[j]));
        let k = choose|k: int| 0 <= k < fl.len() && fl[k] == h[j];
        assert(fl.map_values(f)[k] == id);
    }
}

/// After eviction no list holds an evicted id, each list keeps its other
/// instances in order, and the set of names stays.
pub proof fn lemma_evict_removes(r: RegistryView, ids: Set<Seq<char>>, name: Seq<char>)
    requires
        distinct_names(r),
    ensures
        distinct_names(evict_spec(r, ids)),
        lookup(evict_spec(r, ids), name) == (match lookup(r, name) {
            Some(l) => Some(without_ids(l, ids)),
            None => None,
        }),
        forall|k: int|
            0 <= k < lookup_or_empty(evict_spec(r, ids), name).len() ==> !ids.contains(
                #[trigger] lookup_or_empty(evict_spec(r, ids), name)[k].id,
            ),
{
    let e = evict_spec(r, ids);
    assert forall|a: int, b: int| 0 <= a < e.len() && 0 <= b < e.len() && a != b implies #[trigger] e[a].0
        != #[trigger] e[b].0 by {
        assert(e[a].0 == r[a].0 && e[b].0 == r[b].0);
    }
    if has_name(r, name) {
        let i = name_index(r, name);
        lemma_name_index(r, i);
        lemma_name_index(e, i);
        let l = without_ids(r[i].1, ids);
        assert forall|k: int| 0 <= k < l.len() implies !ids.contains(#[trigger] l[k].id) by {
            r[i].1.lemma_filter_pred(|s: ServiceView| !ids.contains(s.id), k);
        }
    } else {
        assert(!has_name(e, name)) by {
            if has_name(e, name) {
                let j = name_index(e, name);
                assert(r[j].0 == name);
            }
        }
    }
}

/// After a sweep, no list holds an instance whose heartbeat had expired, and
/// the broadcast names exactly the expired ids.
pub proof fn lemma_sweep_evicts(h: HeartbeatView, r: RegistryView, now: u64, ttl: u64, name: Seq<char>)
    requires
        distinct_names(r),
    ensures
        forall|k: int|
            0 <= k < lookup_or_empty(sweep_spec(h, r, now, ttl).0, name).len() ==> !expired_ids(h, now, ttl).contains(
                #[trigger] lookup_or_empty(sweep_spec(h, r, now, ttl).0, name)[k].id,
            ),
        expired_ids(h, now, ttl).len() > 0 ==> sweep_spec(h, r, now, ttl).1 == Some(
            BroadcastView::HeartbeatTimeout { ids: expired_ids(h, now, ttl) },
        ),
{
    let ids = expired_ids(h, now, ttl);
    if ids.len() > 0 {
        lemma_evict_removes(r, ids.to_set(), name);
    }
}

/// A query leaves both stores as they were, produces no broadcast, and asked
/// again gives the same reply.
pub proof fn lemma_query_is_idempotent(req: RequestView, r: RegistryView, h: HeartbeatView, now: u64, later: u64)
    requires
        is_query(req),
    ensures
        handle_spec(req, r, h, now).registry == r,
        handle_spec(req, r, h, now).heartbeats == h,
        handle_spec(req, r, h, now).broadcast is None,
        handle_spec(req, handle_spec(req, r, h, now).registry, handle_spec(req, r, h, now).heartbeats, later)
            == handle_spec(req, r, h, now),
{
}

} // verus!
