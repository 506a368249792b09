//! One pass of the heartbeat monitor: find the ids whose heartbeat expired,
//! drop their instances from the registry, and announce them.

use crate::heartbeat::{expired_ids, HeartbeatStore, HeartbeatView};
use crate::models::{BroadcastView, InboundHandleBroadcastEvent};
use crate::registry::{evict_spec, RegistryView, ServiceRegistry};
use vstd::prelude::*;

verus! {

/// Seconds between two sweeps.
pub const SWEEP_INTERVAL_SECS: u64 = 90;

/// Seconds without a heartbeat after which an instance is evicted.
pub const HEARTBEAT_TTL_SECS: u64 = 90;

/// The registry after one sweep at `now`, and the broadcast it makes: none
/// where nothing expired.
pub open spec fn sweep_spec(h: HeartbeatView, r: RegistryView, now: u64, ttl: u64) -> (RegistryView, Option<BroadcastView>) {
    let ids = expired_ids(h, now, ttl);
    if ids.len() == 0 {
        (r, None)
    } else {
        (evict_spec(r, ids.to_set()), Some(BroadcastView::HeartbeatTimeout { ids }))
    }
}

/// One sweep at time `now`: evicts every instance whose id last reported more
/// than `ttl` seconds ago and returns the notification for all clients; the
/// heartbeat entries themselves stay.
pub fn heartbeat_sweep(
    heartbeats: &HeartbeatStore,
    registry: &mut ServiceRegistry,
    now: u64,
    ttl: u64,
) -> (ev: Option<InboundHandleBroadcastEvent>)
    requires
        old(registry).wf(),
    ensures
        final(registry).wf(),
        final(registry)@ == sweep_spec(heartbeats@, old(registry)@, now, ttl).0,
        match ev {
            Some(e) => sweep_spec(heartbeats@, old(registry)@, now, ttl).1 == Some(e@),
            None => sweep_spec(heartbeats@, old(registry)@, now, ttl).1 is None,
        },
{
    let service_ids = heartbeats.sweep(now, ttl);
    if service_ids.len() == 0 {
        return None;
    }
    registry.evict(&service_ids);
    Some(InboundHandleBroadcastEvent::HeartbeatTimeoutResp { service_ids })
}

} // verus!
