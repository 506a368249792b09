//! The records that the server sends, one per outbound kind.

use crate::models::{services_view, opt_services_view, strings_view, NewService, RpcKind};
use vstd::prelude::*;

verus! {

/// Acknowledges a registration.
#[derive(Debug, PartialEq)]
pub struct RegistryResponse {
    pub success: bool,
}

/// The instances under a name; `services` is `None` where the name is unknown.
#[derive(Debug, PartialEq)]
pub struct DiscoveryResponse {
    pub service_name: String,
    pub services: Option<Vec<NewService>>,
}

/// Every registered name.
#[derive(Debug, PartialEq)]
pub struct DiscoveryServiceNamesResponse {
    pub service_names: Vec<String>,
}

/// Acknowledges a deregistration.
#[derive(Debug, PartialEq)]
pub struct DeregistryResponse {
    pub success: bool,
}

/// The probed id where it is registered, else empty.
#[derive(Debug, PartialEq)]
pub struct ServiceCheckResponse {
    pub service_id: String,
}

/// Tells every client that an instance was added under a name.
#[derive(Debug, PartialEq)]
pub struct AddServiceResponse {
    pub service_name: String,
    pub service_list: Vec<NewService>,
}

/// Tells every client that an instance was removed under a name.
#[derive(Debug, PartialEq)]
pub struct RemoveServiceResponse {
    pub service_name: String,
    pub service_list: Vec<NewService>,
}

/// Answers a heartbeat: `false` asks the client to register again.
#[derive(Debug, PartialEq)]
pub struct HeartbeatResponse {
    pub success: bool,
}

/// Tells every client which ids were evicted for missing heartbeats.
#[derive(Debug, PartialEq)]
pub struct HeartbeatTimeoutResponse {
    pub service_ids: Vec<String>,
}

impl DiscoveryResponse {
    pub fn new(service_name: &str, services: Option<Vec<NewService>>) -> (r: Self)
        ensures
            r.service_name@ == service_name@,
            opt_services_view(r.services) == opt_services_view(services),
    {
        DiscoveryResponse { service_name: service_name.to_owned(), services }
    }
}

impl DiscoveryServiceNamesResponse {
    pub fn new(service_names: Vec<String>) -> (r: Self)
        ensures
            strings_view(r.service_names@) == strings_view(service_names@),
    {
        DiscoveryServiceNamesResponse { service_names }
    }
}

impl ServiceCheckResponse {
    pub fn new(service_id: &str) -> (r: Self)
        ensures
            r.service_id@ == service_id@,
    {
        ServiceCheckResponse { service_id: service_id.to_owned() }
    }
}

impl AddServiceResponse {
    pub fn new(service_name: &str, service_list: Vec<NewService>) -> (r: Self)
        ensures
            r.service_name@ == service_name@,
            services_view(r.service_list@) == services_view(service_list@),
    {
        AddServiceResponse { service_name: service_name.to_owned(), service_list }
    }
}

impl RemoveServiceResponse {
    pub fn new(service_name: &str, service_list: Vec<NewService>) -> (r: Self)
        ensures
            r.service_name@ == service_name@,
            services_view(r.service_list@) == services_view(service_list@),
    {
        RemoveServiceResponse { service_name: service_name.to_owned(), service_list }
    }
}

impl HeartbeatTimeoutResponse {
    pub fn new(service_ids: Vec<String>) -> (r: Self)
        ensures
            strings_view(r.service_ids@) == strings_view(service_ids@),
    {
        HeartbeatTimeoutResponse { service_ids }
    }
}

impl RegistryResponse {
    pub fn rpc_kind() -> (k: RpcKind)
        ensures
            k == RpcKind::Registry,
    {
        RpcKind::Registry
    }
}

impl DiscoveryResponse {
    pub fn rpc_kind() -> (k: RpcKind)
        ensures
            k == RpcKind::Discovery,
    {
        RpcKind::Discovery
    }
}

impl DiscoveryServiceNamesResponse {
    pub fn rpc_kind() -> (k: RpcKind)
        ensures
            k == RpcKind::DiscoveryNames,
    {
        RpcKind::DiscoveryNames
    }
}

impl DeregistryResponse {
    pub fn rpc_kind() -> (k: RpcKind)
        ensures
            k == RpcKind::Deregistry,
    {
        RpcKind::Deregistry
    }
}

impl ServiceCheckResponse {
    pub fn rpc_kind() -> (k: RpcKind)
        ensures
            k == RpcKind::ServiceCheck,
    {
        RpcKind::ServiceCheck
    }
}

impl AddServiceResponse {
    pub fn rpc_kind() -> (k: RpcKind)
        ensures
            k == RpcKind::AddService,
    {
        RpcKind::AddService
    }
}

impl RemoveServiceResponse {
    pub fn rpc_kind() -> (k: RpcKind)
        ensures
            k == RpcKind::RemoveService,
    {
        RpcKind::RemoveService
    }
}

impl HeartbeatResponse {
    pub fn rpc_kind() -> (k: RpcKind)
        ensures
            k == RpcKind::Heartbeat,
    {
        RpcKind::Heartbeat
    }
}

impl HeartbeatTimeoutResponse {
    pub fn rpc_kind() -> (k: RpcKind)
        ensures
            k == RpcKind::HeartbeatTimeout,
    {
        RpcKind::HeartbeatTimeout
    }
}

} // verus!
