//! Data shared by requests, responses and the stores.

use std::collections::HashMap;
use vstd::prelude::*;

verus! {

/// The request kind that prefixes every payload, as one ASCII digit.
#[derive(PartialEq, Eq, Structural, Clone, Copy, Debug)]
pub enum RpcKind {
    /// Register a service instance.
    Registry,
    /// Look up the instances registered under a name.
    Discovery,
    /// List every registered name.
    DiscoveryNames,
    /// Remove one instance.
    Deregistry,
    /// Probe whether an instance id is registered.
    ServiceCheck,
    /// Server push: an instance was added under a name.
    AddService,
    /// Server push: an instance was removed under a name.
    RemoveService,
    /// Report that an instance is alive.
    Heartbeat,
    /// Server push: instances were evicted for missing heartbeats.
    HeartbeatTimeout,
}

/// The numeric code of a kind on the wire.
pub open spec fn kind_code(k: RpcKind) -> u8 {
    match k {
        RpcKind::Registry => 0,
        RpcKind::Discovery => 1,
        RpcKind::DiscoveryNames => 2,
        RpcKind::Deregistry => 3,
        RpcKind::ServiceCheck => 4,
        RpcKind::AddService => 5,
        RpcKind::RemoveService => 6,
        RpcKind::Heartbeat => 7,
        RpcKind::HeartbeatTimeout => 8,
    }
}

/// The kind whose ASCII digit is `b`, if any.
pub open spec fn kind_of_digit(b: u8) -> Option<RpcKind> {
    if b == 0x30 {
        Some(RpcKind::Registry)
    } else if b == 0x31 {
        Some(RpcKind::Discovery)
    } else if b == 0x32 {
        Some(RpcKind::DiscoveryNames)
    } else if b == 0x33 {
        Some(RpcKind::Deregistry)
    } else if b == 0x34 {
        Some(RpcKind::ServiceCheck)
    } else if b == 0x35 {
        Some(RpcKind::AddService)
    } else if b == 0x36 {
        Some(RpcKind::RemoveService)
    } else if b == 0x37 {
        Some(RpcKind::Heartbeat)
    } else if b == 0x38 {
        Some(RpcKind::HeartbeatTimeout)
    } else {
        None
    }
}

/// Kinds that only the server sends; one that arrives inbound is ignored.
pub open spec fn is_push_kind(k: RpcKind) -> bool {
    k == RpcKind::AddService || k == RpcKind::RemoveService || k == RpcKind::HeartbeatTimeout
}

impl RpcKind {
    /// The ASCII digit that stands for this kind on the wire.
    pub fn digit(&self) -> (b: u8)
        ensures
            b == 0x30 + kind_code(*self),
            kind_of_digit(b) == Some(*self),
    {
        match self {
            RpcKind::Registry => 0x30,
            RpcKind::Discovery => 0x31,
            RpcKind::DiscoveryNames => 0x32,
            RpcKind::Deregistry => 0x33,
            RpcKind::ServiceCheck => 0x34,
            RpcKind::AddService => 0x35,
            RpcKind::RemoveService => 0x36,
            RpcKind::Heartbeat => 0x37,
            RpcKind::HeartbeatTimeout => 0x38,
        }
    }

    /// The kind written as the ASCII digit `b`, or `None` for any other byte.
    pub fn from_digit(b: u8) -> (r: Option<RpcKind>)
        ensures
            r == kind_of_digit(b),
            r matches Some(k) ==> b == 0x30 + kind_code(k),
    {
        if b == 0x30 {
            Some(RpcKind::Registry)
        } else if b == 0x31 {
            Some(RpcKind::Discovery)
        } else if b == 0x32 {
            Some(RpcKind::DiscoveryNames)
        } else if b == 0x33 {
            Some(RpcKind::Deregistry)
        } else if b == 0x34 {
            Some(RpcKind::ServiceCheck)
        } else if b == 0x35 {
            Some(RpcKind::AddService)
        } else if b == 0x36 {
            Some(RpcKind::RemoveService)
        } else if b == 0x37 {
            Some(RpcKind::Heartbeat)
        } else if b == 0x38 {
            Some(RpcKind::HeartbeatTimeout)
        } else {
            None
        }
    }

    /// Whether a client may send this kind; server pushes arriving inbound are ignored.
    pub fn is_inbound(&self) -> (r: bool)
        ensures
            r == !is_push_kind(*self),
    {
        match self {
            RpcKind::AddService | RpcKind::RemoveService | RpcKind::HeartbeatTimeout => false,
            _ => true,
        }
    }
}

/// What the stores and contracts see of a service instance.
pub struct ServiceView {
    pub id: Seq<char>,
    pub name: Seq<char>,
    pub port: u32,
    pub host: Seq<char>,
    pub meta: Option<Map<String, String>>,
}

/// One registered, addressable service instance. `id` identifies it; `name`
/// groups instances for discovery.
#[derive(Debug, PartialEq)]
pub struct NewService {
    pub id: String,
    pub name: String,
    pub port: u32,
    pub host: String,
    pub meta: Option<HashMap<String, String>>,
}

impl View for NewService {
    type V = ServiceView;

    open spec fn view(&self) -> ServiceView {
        ServiceView {
            id: self.id@,
            name: self.name@,
            port: self.port,
            host: self.host@,
            meta: match self.meta {
                Some(m) => Some(m@),
                None => None,
            },
        }
    }
}

impl Clone for NewService {
    fn clone(&self) -> (r: Self)
        ensures
            r@ == self@,
    {
        let meta = match &self.meta {
            Some(m) => Some(m.clone()),
            None => None,
        };
        NewService {
            id: self.id.clone(),
            name: self.name.clone(),
            port: self.port,
            host: self.host.clone(),
            meta,
        }
    }
}

impl NewService {
    /// An instance with the given fields.
    pub fn new(id: String, name: String, host: String, port: u32, meta: Option<HashMap<String, String>>) -> (r: Self)
        ensures
            r.id == id,
            r.name == name,
            r.host == host,
            r.port == port,
            r.meta == meta,
    {
        NewService { id, name, port, host, meta }
    }
}

/// The views of a list of instances, in order.
pub open spec fn services_view(v: Seq<NewService>) -> Seq<ServiceView> {
    v.map_values(|s: NewService| s@)
}

/// The views of a list of strings, in order.
pub open spec fn strings_view(v: Seq<String>) -> Seq<Seq<char>> {
    v.map_values(|s: String| s@)
}

} // verus!

verus! {

/// A copy of a list of instances.
pub fn clone_services(v: &Vec<NewService>) -> (r: Vec<NewService>)
    ensures
        services_view(r@) == services_view(v@),
{
    let mut r: Vec<NewService> = Vec::new();
    let mut i: usize = 0;
    while i < v.len()
        invariant
            i <= v.len(),
            r.len() == i,
            forall|j: int| 0 <= j < i ==> #[trigger] r@[j]@ == v@[j]@,
        decreases v.len() - i,
    {
        r.push(v[i].clone());
        i += 1;
    }
    assert(services_view(r@) =~= services_view(v@));
    r
}

/// A copy of a list of strings.
pub fn clone_strings(v: &Vec<String>) -> (r: Vec<String>)
    ensures
        strings_view(r@) == strings_view(v@),
{
    let mut r: Vec<String> = Vec::new();
    let mut i: usize = 0;
    while i < v.len()
        invariant
            i <= v.len(),
            r.len() == i,
            forall|j: int| 0 <= j < i ==> #[trigger] r@[j]@ == v@[j]@,
        decreases v.len() - i,
    {
        r.push(v[i].clone());
        i += 1;
    }
    assert(strings_view(r@) =~= strings_view(v@));
    r
}

} // verus!

verus! {

/// A reply that goes only to the connection whose request produced it.
#[derive(Debug, PartialEq)]
pub enum InboundHandleSingleEvent {
    /// Acknowledges a registration.
    ServiceRegistryResp { success: bool },
    /// Acknowledges a deregistration.
    ServiceDeregistryResp { success: bool },
    /// The instances under a name; `None` where the name is unknown.
    ServiceDiscoveryResp { service_name: String, services: Option<Vec<NewService>> },
    /// Every registered name.
    ServiceNamesResp { service_names: Vec<String> },
    /// The probed id where it is registered, else empty.
    ServiceCheckResp { service_id: String },
    /// Whether the reporting id is still registered.
    HeartbeatResp { success: bool },
}

/// A notification that goes to every connected client.
#[derive(Debug, PartialEq, Clone)]
pub enum InboundHandleBroadcastEvent {
    /// An instance was added; carries the name's updated list.
    AddServiceResp { service_name: String, service_list: Vec<NewService> },
    /// An instance was removed; carries the name's resulting list.
    RemoveServiceResp { service_name: String, service_list: Vec<NewService> },
    /// These ids were evicted for missing heartbeats.
    HeartbeatTimeoutResp { service_ids: Vec<String> },
}

/// Anything a connection's writer sends: a reply of its own or a broadcast.
#[derive(Debug, PartialEq)]
pub enum InboundHandleEvent {
    Single(InboundHandleSingleEvent),
    Broadcast(InboundHandleBroadcastEvent),
}

/// What the contracts see of a reply.
pub enum SingleView {
    Registry { success: bool },
    Deregistry { success: bool },
    Discovery { name: Seq<char>, services: Option<Seq<ServiceView>> },
    Names { names: Seq<Seq<char>> },
    Check { id: Seq<char> },
    Heartbeat { success: bool },
}

/// What the contracts see of a broadcast.
pub enum BroadcastView {
    AddService { name: Seq<char>, list: Seq<ServiceView> },
    RemoveService { name: Seq<char>, list: Seq<ServiceView> },
    HeartbeatTimeout { ids: Seq<Seq<char>> },
}

/// The views of an optional list of instances.
pub open spec fn opt_services_view(v: Option<Vec<NewService>>) -> Option<Seq<ServiceView>> {
    match v {
        Some(l) => Some(services_view(l@)),
        None => None,
    }
}

impl View for InboundHandleSingleEvent {
    type V = SingleView;

    open spec fn view(&self) -> SingleView {
        match self {
            InboundHandleSingleEvent::ServiceRegistryResp { success } => SingleView::Registry {
                success: *success,
            },
            InboundHandleSingleEvent::ServiceDeregistryResp { success } => SingleView::Deregistry {
                success: *success,
            },
            InboundHandleSingleEvent::ServiceDiscoveryResp { service_name, services } => {
                SingleView::Discovery { name: service_name@, services: opt_services_view(*services) }
            },
            InboundHandleSingleEvent::ServiceNamesResp { service_names } => SingleView::Names {
                names: strings_view(service_names@),
            },
            InboundHandleSingleEvent::ServiceCheckResp { service_id } => SingleView::Check {
                id: service_id@,
            },
            InboundHandleSingleEvent::HeartbeatResp { success } => SingleView::Heartbeat {
                success: *success,
            },
        }
    }
}

impl View for InboundHandleBroadcastEvent {
    type V = BroadcastView;

    open spec fn view(&self) -> BroadcastView {
        match self {
            InboundHandleBroadcastEvent::AddServiceResp { service_name, service_list } => {
                BroadcastView::AddService { name: service_name@, list: services_view(service_list@) }
            },
            InboundHandleBroadcastEvent::RemoveServiceResp { service_name, service_list } => {
                BroadcastView::RemoveService {
                    name: service_name@,
                    list: services_view(service_list@),
                }
            },
            InboundHandleBroadcastEvent::HeartbeatTimeoutResp { service_ids } => {
                BroadcastView::HeartbeatTimeout { ids: strings_view(service_ids@) }
            },
        }
    }
}

} // verus!

verus! {

/// What the contracts see of an event of either kind.
pub enum EventView {
    Single(SingleView),
    Broadcast(BroadcastView),
}

impl View for InboundHandleEvent {
    type V = EventView;

    open spec fn view(&self) -> EventView {
        match self {
            InboundHandleEvent::Single(e) => EventView::Single(e@),
            InboundHandleEvent::Broadcast(e) => EventView::Broadcast(e@),
        }
    }
}

/// The kind under which an event travels to clients.
pub open spec fn event_kind(e: EventView) -> RpcKind {
    match e {
        EventView::Single(SingleView::Registry { .. }) => RpcKind::Registry,
        EventView::Single(SingleView::Deregistry { .. }) => RpcKind::Deregistry,
        EventView::Single(SingleView::Discovery { .. }) => RpcKind::Discovery,
        EventView::Single(SingleView::Names { .. }) => RpcKind::DiscoveryNames,
        EventView::Single(SingleView::Check { .. }) => RpcKind::ServiceCheck,
        EventView::Single(SingleView::Heartbeat { .. }) => RpcKind::Heartbeat,
        EventView::Broadcast(BroadcastView::AddService { .. }) => RpcKind::AddService,
        EventView::Broadcast(BroadcastView::RemoveService { .. }) => RpcKind::RemoveService,
        EventView::Broadcast(BroadcastView::HeartbeatTimeout { .. }) => RpcKind::HeartbeatTimeout,
    }
}

} // verus!
