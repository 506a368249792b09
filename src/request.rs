//! The records that clients send, one per inbound request kind.

use crate::models::{NewService, RpcKind, ServiceView};
use vstd::prelude::*;

verus! {

/// Register one instance.
#[derive(Debug, PartialEq)]
pub struct RegistryRequest {
    pub service: NewService,
}

/// Look up the instances under a name.
#[derive(Debug, PartialEq)]
pub struct DiscoveryRequest {
    pub service_name: String,
}

/// List every registered name.
#[derive(Debug, PartialEq)]
pub struct DiscoveryServiceNamesRequest {}

/// Remove one instance from a name.
#[derive(Debug, PartialEq)]
pub struct DeregistryRequest {
    pub service_name: String,
    pub service_id: String,
}

/// Probe whether an id is registered.
#[derive(Debug, PartialEq)]
pub struct ServiceCheckRequest {
    pub service_id: String,
}

/// Report that an instance is alive.
#[derive(Debug, PartialEq)]
pub struct HeartbeatRequest {
    pub service_id: String,
}

impl RegistryRequest {
    pub fn rpc_kind() -> (k: RpcKind)
        ensures
            k == RpcKind::Registry,
    {
        RpcKind::Registry
    }
}

impl DiscoveryRequest {
    pub fn rpc_kind() -> (k: RpcKind)
        ensures
            k == RpcKind::Discovery,
    {
        RpcKind::Discovery
    }
}

impl DiscoveryServiceNamesRequest {
    pub fn rpc_kind() -> (k: RpcKind)
        ensures
            k == RpcKind::DiscoveryNames,
    {
        RpcKind::DiscoveryNames
    }
}

impl DeregistryRequest {
    pub fn rpc_kind() -> (k: RpcKind)
        ensures
            k == RpcKind::Deregistry,
    {
        RpcKind::Deregistry
    }
}

impl ServiceCheckRequest {
    pub fn rpc_kind() -> (k: RpcKind)
        ensures
            k == RpcKind::ServiceCheck,
    {
        RpcKind::ServiceCheck
    }
}

impl HeartbeatRequest {
    pub fn rpc_kind() -> (k: RpcKind)
        ensures
            k == RpcKind::Heartbeat,
    {
        RpcKind::Heartbeat
    }
}

/// A decoded inbound request, one variant per kind that clients may send.
#[derive(Debug, PartialEq)]
pub enum InboundRequest {
    Registry(RegistryRequest),
    Discovery(DiscoveryRequest),
    DiscoveryNames(DiscoveryServiceNamesRequest),
    Deregistry(DeregistryRequest),
    ServiceCheck(ServiceCheckRequest),
    Heartbeat(HeartbeatRequest),
}

/// What the contracts see of a request.
pub enum RequestView {
    Registry { service: ServiceView },
    Discovery { name: Seq<char> },
    DiscoveryNames,
    Deregistry { name: Seq<char>, id: Seq<char> },
    ServiceCheck { id: Seq<char> },
    Heartbeat { id: Seq<char> },
}

impl View for InboundRequest {
    type V = RequestView;

    open spec fn view(&self) -> RequestView {
        match self {
            InboundRequest::Registry(r) => RequestView::Registry { service: r.service@ },
            InboundRequest::Discovery(r) => RequestView::Discovery { name: r.service_name@ },
            InboundRequest::DiscoveryNames(_) => RequestView::DiscoveryNames,
            InboundRequest::Deregistry(r) => RequestView::Deregistry {
                name: r.service_name@,
                id: r.service_id@,
            },
            InboundRequest::ServiceCheck(r) => RequestView::ServiceCheck { id: r.service_id@ },
            InboundRequest::Heartbeat(r) => RequestView::Heartbeat { id: r.service_id@ },
        }
    }
}

/// The kind that a request travels under.
pub open spec fn request_kind(r: RequestView) -> RpcKind {
    match r {
        RequestView::Registry { .. } => RpcKind::Registry,
        RequestView::Discovery { .. } => RpcKind::Discovery,
        RequestView::DiscoveryNames => RpcKind::DiscoveryNames,
        RequestView::Deregistry { .. } => RpcKind::Deregistry,
        RequestView::ServiceCheck { .. } => RpcKind::ServiceCheck,
        RequestView::Heartbeat { .. } => RpcKind::Heartbeat,
    }
}

/// Requests that only read the stores.
pub open spec fn is_query(r: RequestView) -> bool {
    r is Discovery || r is DiscoveryNames || r is ServiceCheck
}

impl InboundRequest {
    /// The kind that this request travels under.
    pub fn rpc_kind(&self) -> (k: RpcKind)
        ensures
            k == request_kind(self@),
    {
        match self {
            InboundRequest::Registry(_) => RpcKind::Registry,
            InboundRequest::Discovery(_) => RpcKind::Discovery,
            InboundRequest::DiscoveryNames(_) => RpcKind::DiscoveryNames,
            InboundRequest::Deregistry(_) => RpcKind::Deregistry,
            InboundRequest::ServiceCheck(_) => RpcKind::ServiceCheck,
            InboundRequest::Heartbeat(_) => RpcKind::Heartbeat,
        }
    }

    /// Whether this request only reads the stores.
    pub fn is_query(&self) -> (r: bool)
        ensures
            r == is_query(self@),
    {
        match self {
            InboundRequest::Discovery(_) | InboundRequest::DiscoveryNames(_)
            | InboundRequest::ServiceCheck(_) => true,
            _ => false,
        }
    }
}

} // verus!
