//! From events to the records written to clients.

use crate::models::{
    event_kind, opt_services_view, services_view, strings_view, BroadcastView, EventView,
    InboundHandleBroadcastEvent, InboundHandleEvent, InboundHandleSingleEvent, RpcKind, SingleView,
};
use crate::response::{
    AddServiceResponse, DeregistryResponse, DiscoveryResponse, DiscoveryServiceNamesResponse,
    HeartbeatResponse, HeartbeatTimeoutResponse, RegistryResponse, RemoveServiceResponse,
    ServiceCheckResponse,
};
use vstd::prelude::*;

verus! {

/// A record ready to be written to a client, tagged by its kind.
#[derive(Debug, PartialEq)]
pub enum OutboundResponse {
    Registry(RegistryResponse),
    Discovery(DiscoveryResponse),
    DiscoveryNames(DiscoveryServiceNamesResponse),
    Deregistry(DeregistryResponse),
    ServiceCheck(ServiceCheckResponse),
    Heartbeat(HeartbeatResponse),
    AddService(AddServiceResponse),
    RemoveService(RemoveServiceResponse),
    HeartbeatTimeout(HeartbeatTimeoutResponse),
}

/// The event that a record reports.
pub open spec fn carried_event(r: OutboundResponse) -> EventView {
    match r {
        OutboundResponse::Registry(x) => EventView::Single(SingleView::Registry { success: x.success }),
        OutboundResponse::Discovery(x) => EventView::Single(
            SingleView::Discovery { name: x.service_name@, services: opt_services_view(x.services) },
        ),
        OutboundResponse::DiscoveryNames(x) => EventView::Single(
            SingleView::Names { names: strings_view(x.service_names@) },
        ),
        OutboundResponse::Deregistry(x) => EventView::Single(
            SingleView::Deregistry { success: x.success },
        ),
        OutboundResponse::ServiceCheck(x) => EventView::Single(SingleView::Check { id: x.service_id@ }),
        OutboundResponse::Heartbeat(x) => EventView::Single(SingleView::Heartbeat { success: x.success }),
        OutboundResponse::AddService(x) => EventView::Broadcast(
            BroadcastView::AddService { name: x.service_name@, list: services_view(x.service_list@) },
        ),
        OutboundResponse::RemoveService(x) => EventView::Broadcast(
            BroadcastView::RemoveService { name: x.service_name@, list: services_view(x.service_list@) },
        ),
        OutboundResponse::HeartbeatTimeout(x) => EventView::Broadcast(
            BroadcastView::HeartbeatTimeout { ids: strings_view(x.service_ids@) },
        ),
    }
}

impl OutboundResponse {
    /// The kind digit that prefixes this record on the wire.
    pub fn rpc_kind(&self) -> (k: RpcKind)
        ensures
            k == event_kind(carried_event(*self)),
    {
        match self {
            OutboundResponse::Registry(_) => RegistryResponse::rpc_kind(),
            OutboundResponse::Discovery(_) => DiscoveryResponse::rpc_kind(),
            OutboundResponse::DiscoveryNames(_) => DiscoveryServiceNamesResponse::rpc_kind(),
            OutboundResponse::Deregistry(_) => DeregistryResponse::rpc_kind(),
            OutboundResponse::ServiceCheck(_) => ServiceCheckResponse::rpc_kind(),
            OutboundResponse::Heartbeat(_) => HeartbeatResponse::rpc_kind(),
            OutboundResponse::AddService(_) => AddServiceResponse::rpc_kind(),
            OutboundResponse::RemoveService(_) => RemoveServiceResponse::rpc_kind(),
            OutboundResponse::HeartbeatTimeout(_) => HeartbeatTimeoutResponse::rpc_kind(),
        }
    }
}

/// The record that answers the requesting connection.
pub fn outbound_handle_resp(data: InboundHandleSingleEvent) -> (r: OutboundResponse)
    ensures
        carried_event(r) == EventView::Single(data@),
{
    match data {
        InboundHandleSingleEvent::ServiceRegistryResp { success } => OutboundResponse::Registry(
            RegistryResponse { success },
        ),
        InboundHandleSingleEvent::ServiceDiscoveryResp { service_name, services } => {
            OutboundResponse::Discovery(DiscoveryResponse::new(service_name.as_str(), services))
        },
        InboundHandleSingleEvent::ServiceNamesResp { service_names } => OutboundResponse::DiscoveryNames(
            DiscoveryServiceNamesResponse::new(service_names),
        ),
        InboundHandleSingleEvent::ServiceCheckResp { service_id } => OutboundResponse::ServiceCheck(
            ServiceCheckResponse::new(service_id.as_str()),
        ),
        InboundHandleSingleEvent::ServiceDeregistryResp { success } => OutboundResponse::Deregistry(
            DeregistryResponse { success },
        ),
        InboundHandleSingleEvent::HeartbeatResp { success } => OutboundResponse::Heartbeat(
            HeartbeatResponse { success },
        ),
    }
}

/// The record that a broadcast puts on every connection.
pub fn outbound_handle_broad(data: InboundHandleBroadcastEvent) -> (r: OutboundResponse)
    ensures
        carried_event(r) == EventView::Broadcast(data@),
{
    match data {
        InboundHandleBroadcastEvent::AddServiceResp { service_name, service_list } => {
            OutboundResponse::AddService(AddServiceResponse::new(service_name.as_str(), service_list))
        },
        InboundHandleBroadcastEvent::RemoveServiceResp { service_name, service_list } => {
            OutboundResponse::RemoveService(
                RemoveServiceResponse::new(service_name.as_str(), service_list),
            )
        },
        InboundHandleBroadcastEvent::HeartbeatTimeoutResp { service_ids } => {
            OutboundResponse::HeartbeatTimeout(HeartbeatTimeoutResponse::new(service_ids))
        },
    }
}

/// The record for an event of either kind.
pub fn outbound_response(data: InboundHandleEvent) -> (r: OutboundResponse)
    ensures
        carried_event(r) == data@,
{
    match data {
        InboundHandleEvent::Single(e) => outbound_handle_resp(e),
        InboundHandleEvent::Broadcast(e) => outbound_handle_broad(e),
    }
}

} // verus!
