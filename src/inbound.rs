//! The request dispatcher: one decoded request, applied to the stores, gives
//! a reply for the requesting connection and, for changes, a broadcast.

use crate::heartbeat::{touch_spec, HeartbeatStore, HeartbeatView};
use crate::models::{
    BroadcastView, InboundHandleBroadcastEvent, InboundHandleSingleEvent, SingleView,
};
use crate::registry::{
    deregister_spec, holds_id, lookup, lookup_or_empty, names_of, register_spec, RegistryView,
    ServiceRegistry,
};
use crate::request::{
    is_query, DeregistryRequest, DiscoveryRequest, HeartbeatRequest, InboundRequest, RegistryRequest,
    RequestView, ServiceCheckRequest,
};
use vstd::prelude::*;

verus! {

/// The stores and the events after handling one request.
pub struct Handled {
    pub registry: RegistryView,
    pub heartbeats: HeartbeatView,
    pub reply: SingleView,
    pub broadcast: Option<BroadcastView>,
}

/// What handling `req` at time `now` does to the registry `r` and the
/// heartbeat store `h`, and which events it produces.
pub open spec fn handle_spec(req: RequestView, r: RegistryView, h: HeartbeatView, now: u64) -> Handled {
    match req {
        RequestView::Registry { service } => {
            let r2 = register_spec(r, service);
            Handled {
                registry: r2,
                heartbeats: h,
                reply: SingleView::Registry { success: true },
                broadcast: Some(
                    BroadcastView::AddService {
                        name: service.name,
                        list: lookup_or_empty(r2, service.name),
                    },
                ),
            }
        },
        RequestView::Discovery { name } => Handled {
            registry: r,
            heartbeats: h,
            reply: SingleView::Discovery { name, services: lookup(r, name) },
            broadcast: None,
        },
        RequestView::DiscoveryNames => Handled {
            registry: r,
            heartbeats: h,
            reply: SingleView::Names { names: names_of(r) },
            broadcast: None,
        },
        RequestView::Deregistry { name, id } => {
            let r2 = deregister_spec(r, name, id);
            Handled {
                registry: r2,
                heartbeats: h,
                reply: SingleView::Deregistry { success: true },
                broadcast: Some(BroadcastView::RemoveService { name, list: lookup_or_empty(r2, name) }),
            }
        },
        RequestView::ServiceCheck { id } => Handled {
            registry: r,
            heartbeats: h,
            reply: SingleView::Check {
                id: if holds_id(r, id) {
                    id
                } else {
                    Seq::empty()
                },
            },
            broadcast: None,
        },
        RequestView::Heartbeat { id } => Handled {
            registry: r,
            heartbeats: touch_spec(h, id, now),
            reply: SingleView::Heartbeat { success: holds_id(r, id) },
            broadcast: None,
        },
    }
}

/// The events that handling one request produces.
#[derive(Debug, PartialEq)]
pub struct HandleOutcome {
    /// The reply to the requesting connection.
    pub reply: InboundHandleSingleEvent,
    /// The notification for every connection, where the request changed a list.
    pub broadcast: Option<InboundHandleBroadcastEvent>,
}

/// Stores the instance and announces the name's updated list.
pub fn registry_handle(req: RegistryRequest, registry: &mut ServiceRegistry) -> (ev: InboundHandleBroadcastEvent)
    requires
        old(registry).wf(),
    ensures
        final(registry).wf(),
        final(registry)@ == register_spec(old(registry)@, req.service@),
        ev@ == (BroadcastView::AddService {
            name: req.service.name@,
            list: lookup_or_empty(final(registry)@, req.service.name@),
        }),
{
    let service_name = req.service.name.clone();
    let service_list = registry.register(req.service);
    InboundHandleBroadcastEvent::AddServiceResp { service_name, service_list }
}

/// The instances under the requested name, or none where it is unknown.
pub fn discovery_handle(req: DiscoveryRequest, registry: &ServiceRegistry) -> (ev: InboundHandleSingleEvent)
    requires
        registry.wf(),
    ensures
        ev@ == (SingleView::Discovery {
            name: req.service_name@,
            services: lookup(registry@, req.service_name@),
        }),
{
    let services = registry.discover(&req.service_name);
    InboundHandleSingleEvent::ServiceDiscoveryResp { service_name: req.service_name, services }
}

/// Every registered name.
pub fn discovery_names_handle(registry: &ServiceRegistry) -> (ev: InboundHandleSingleEvent)
    ensures
        ev@ == (SingleView::Names { names: names_of(registry@) }),
{
    let service_names = registry.list_names();
    InboundHandleSingleEvent::ServiceNamesResp { service_names }
}

/// Removes the instance and announces the name's resulting list.
pub fn deregistry_handle(req: DeregistryRequest, registry: &mut ServiceRegistry) -> (ev: InboundHandleBroadcastEvent)
    requires
        old(registry).wf(),
    ensures
        final(registry).wf(),
        final(registry)@ == deregister_spec(old(registry)@, req.service_name@, req.service_id@),
        ev@ == (BroadcastView::RemoveService {
            name: req.service_name@,
            list: lookup_or_empty(final(registry)@, req.service_name@),
        }),
{
    let service_list = registry.deregister(&req.service_name, &req.service_id);
    InboundHandleBroadcastEvent::RemoveServiceResp { service_name: req.service_name, service_list }
}

/// The probed id where some instance has it, else the empty string.
pub fn service_check_handle(req: ServiceCheckRequest, registry: &ServiceRegistry) -> (ev: InboundHandleSingleEvent)
    ensures
        ev@ == (SingleView::Check {
            id: if holds_id(registry@, req.service_id@) {
                req.service_id@
            } else {
                Seq::empty()
            },
        }),
{
    let service_id = match registry.check(&req.service_id) {
        Some(id) => id,
        None => String::new(),
    };
    InboundHandleSingleEvent::ServiceCheckResp { service_id }
}

/// Records the heartbeat at `now` and answers whether the id is still
/// registered; `false` tells the client to register again.
pub fn heartbeat_handle(
    req: HeartbeatRequest,
    heartbeats: &mut HeartbeatStore,
    registry: &ServiceRegistry,
    now: u64,
) -> (ev: InboundHandleSingleEvent)
    requires
        old(heartbeats).wf(),
    ensures
        final(heartbeats).wf(),
        final(heartbeats)@ == touch_spec(old(heartbeats)@, req.service_id@, now),
        ev@ == (SingleView::Heartbeat { success: holds_id(registry@, req.service_id@) }),
{
    let known = registry.check(&req.service_id);
    heartbeats.touch(req.service_id, now);
    InboundHandleSingleEvent::HeartbeatResp { success: known.is_some() }
}

/// Answers a request that only reads the registry; `None` for any other.
pub fn inbound_query(req: &InboundRequest, registry: &ServiceRegistry) -> (ev: Option<InboundHandleSingleEvent>)
    requires
        registry.wf(),
    ensures
        ev is Some <==> is_query(req@),
        ev matches Some(e) ==> forall|h: HeartbeatView, now: u64|
            e@ == #[trigger] handle_spec(req@, registry@, h, now).reply,
{
    match req {
        InboundRequest::Discovery(r) => {
            let services = registry.discover(&r.service_name);
            Some(
                InboundHandleSingleEvent::ServiceDiscoveryResp {
                    service_name: r.service_name.clone(),
                    services,
                },
            )
        },
        InboundRequest::DiscoveryNames(_) => Some(discovery_names_handle(registry)),
        InboundRequest::ServiceCheck(r) => {
            let service_id = match registry.check(&r.service_id) {
                Some(id) => id,
                None => String::new(),
            };
            Some(InboundHandleSingleEvent::ServiceCheckResp { service_id })
        },
        _ => None,
    }
}

/// Applies one request to the stores and returns the events it produces, as
/// `handle_spec` describes.
pub fn inbound_handle(
    req: InboundRequest,
    registry: &mut ServiceRegistry,
    heartbeats: &mut HeartbeatStore,
    now: u64,
) -> (out: HandleOutcome)
    requires
        old(registry).wf(),
        old(heartbeats).wf(),
    ensures
        final(registry).wf(),
        final(heartbeats).wf(),
        ({
            let h = handle_spec(req@, old(registry)@, old(heartbeats)@, now);
            &&& final(registry)@ == h.registry
            &&& final(heartbeats)@ == h.heartbeats
            &&& out.reply@ == h.reply
            &&& match out.broadcast {
                Some(b) => h.broadcast == Some(b@),
                None => h.broadcast is None,
            }
        }),
        is_query(req@) ==> final(registry)@ == old(registry)@ && final(heartbeats)@ == old(heartbeats)@,
{
    match req {
        InboundRequest::Registry(r) => {
            let ev = registry_handle(r, registry);
            HandleOutcome {
                reply: InboundHandleSingleEvent::ServiceRegistryResp { success: true },
                broadcast: Some(ev),
            }
        },
        InboundRequest::Discovery(r) => HandleOutcome {
            reply: discovery_handle(r, registry),
            broadcast: None,
        },
        InboundRequest::DiscoveryNames(_) => HandleOutcome {
            reply: discovery_names_handle(registry),
            broadcast: None,
        },
        InboundRequest::Deregistry(r) => {
            let ev = deregistry_handle(r, registry);
            HandleOutcome {
                reply: InboundHandleSingleEvent::ServiceDeregistryResp { success: true },
                broadcast: Some(ev),
            }
        },
        InboundRequest::ServiceCheck(r) => HandleOutcome {
            reply: service_check_handle(r, registry),
            broadcast: None,
        },
        InboundRequest::Heartbeat(r) => HandleOutcome {
            reply: heartbeat_handle(r, heartbeats, registry, now),
            broadcast: None,
        },
    }
}

} // verus!
