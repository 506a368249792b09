use connor::{
    encode_payload, heartbeat_sweep, inbound_handle, inbound_query, outbound_response,
    DeregistryRequest, DiscoveryRequest, DiscoveryServiceNamesRequest, HandleOutcome, HeartbeatRequest,
    HeartbeatStore, InboundHandleBroadcastEvent, InboundHandleEvent, InboundHandleSingleEvent,
    InboundRequest, NewService, OutboundResponse, RegistryRequest, ServiceCheckRequest, ServiceRegistry,
    HEARTBEAT_TTL_SECS,
};
use connor::{AddServiceResponse, DiscoveryResponse, HeartbeatTimeoutResponse, RegistryResponse, RpcKind};

fn i1() -> NewService {
    NewService {
        id: "i1".to_string(),
        name: "svc".to_string(),
        port: 80,
        host: "h".to_string(),
        meta: None,
    }
}

fn register(s: NewService) -> InboundRequest {
    InboundRequest::Registry(RegistryRequest { service: s })
}

fn discovery(name: &str) -> InboundRequest {
    InboundRequest::Discovery(DiscoveryRequest { service_name: name.to_string() })
}

fn heartbeat(id: &str) -> InboundRequest {
    InboundRequest::Heartbeat(HeartbeatRequest { service_id: id.to_string() })
}

#[test]
fn end_to_end_register_replies_and_broadcasts() {
    let mut reg = ServiceRegistry::new();
    let mut hb = HeartbeatStore::new();
    let out = inbound_handle(register(i1()), &mut reg, &mut hb, 0);
    assert_eq!(
        out,
        HandleOutcome {
            reply: InboundHandleSingleEvent::ServiceRegistryResp { success: true },
            broadcast: Some(InboundHandleBroadcastEvent::AddServiceResp {
                service_name: "svc".to_string(),
                service_list: vec![i1()],
            }),
        }
    );
    let reply = outbound_response(InboundHandleEvent::Single(out.reply));
    assert_eq!(reply, OutboundResponse::Registry(RegistryResponse { success: true }));
    assert_eq!(reply.rpc_kind(), RpcKind::Registry);
    let notice = outbound_response(InboundHandleEvent::Broadcast(out.broadcast.unwrap()));
    assert_eq!(notice, OutboundResponse::AddService(AddServiceResponse::new("svc", vec![i1()])));
    assert_eq!(notice.rpc_kind(), RpcKind::AddService);
    assert_eq!(encode_payload(notice.rpc_kind(), "{}"), b"5{}".to_vec());
}

#[test]
fn end_to_end_discovery_after_register() {
    let mut reg = ServiceRegistry::new();
    let mut hb = HeartbeatStore::new();
    inbound_handle(register(i1()), &mut reg, &mut hb, 0);
    let out = inbound_handle(discovery("svc"), &mut reg, &mut hb, 0);
    assert_eq!(
        out.reply,
        InboundHandleSingleEvent::ServiceDiscoveryResp {
            service_name: "svc".to_string(),
            services: Some(vec![i1()]),
        }
    );
    assert_eq!(out.broadcast, None);
    let out = inbound_handle(discovery("other"), &mut reg, &mut hb, 0);
    assert_eq!(
        outbound_response(InboundHandleEvent::Single(out.reply)),
        OutboundResponse::Discovery(DiscoveryResponse::new("other", None))
    );
}

#[test]
fn end_to_end_sweep_evicts_stale_instance() {
    let mut reg = ServiceRegistry::new();
    let mut hb = HeartbeatStore::new();
    let i2 = NewService { id: "i2".to_string(), ..i1() };
    inbound_handle(register(i1()), &mut reg, &mut hb, 0);
    inbound_handle(register(i2.clone()), &mut reg, &mut hb, 0);
    inbound_handle(heartbeat("i1"), &mut reg, &mut hb, 0);
    inbound_handle(heartbeat("i2"), &mut reg, &mut hb, 100);
    let ev = heartbeat_sweep(&hb, &mut reg, 150, HEARTBEAT_TTL_SECS);
    assert_eq!(
        ev,
        Some(InboundHandleBroadcastEvent::HeartbeatTimeoutResp { service_ids: vec!["i1".to_string()] })
    );
    assert_eq!(
        outbound_response(InboundHandleEvent::Broadcast(ev.unwrap())),
        OutboundResponse::HeartbeatTimeout(HeartbeatTimeoutResponse::new(vec!["i1".to_string()]))
    );
    let out = inbound_handle(discovery("svc"), &mut reg, &mut hb, 150);
    assert_eq!(
        out.reply,
        InboundHandleSingleEvent::ServiceDiscoveryResp {
            service_name: "svc".to_string(),
            services: Some(vec![i2]),
        }
    );
}

#[test]
fn sweep_with_nothing_expired_sends_nothing() {
    let mut reg = ServiceRegistry::new();
    let mut hb = HeartbeatStore::new();
    inbound_handle(register(i1()), &mut reg, &mut hb, 0);
    inbound_handle(heartbeat("i1"), &mut reg, &mut hb, 10);
    assert_eq!(heartbeat_sweep(&hb, &mut reg, 100, 90), None);
    assert_eq!(reg.discover(&"svc".to_string()), Some(vec![i1()]));
}

#[test]
fn heartbeat_after_eviction_reports_unknown_then_heals() {
    let mut reg = ServiceRegistry::new();
    let mut hb = HeartbeatStore::new();
    let out = inbound_handle(heartbeat("i1"), &mut reg, &mut hb, 0);
    assert_eq!(out.reply, InboundHandleSingleEvent::HeartbeatResp { success: false });
    inbound_handle(register(i1()), &mut reg, &mut hb, 0);
    let out = inbound_handle(heartbeat("i1"), &mut reg, &mut hb, 1);
    assert_eq!(out.reply, InboundHandleSingleEvent::HeartbeatResp { success: true });
    heartbeat_sweep(&hb, &mut reg, 200, 90);
    let out = inbound_handle(heartbeat("i1"), &mut reg, &mut hb, 201);
    assert_eq!(out.reply, InboundHandleSingleEvent::HeartbeatResp { success: false });
    inbound_handle(register(i1()), &mut reg, &mut hb, 202);
    assert_eq!(heartbeat_sweep(&hb, &mut reg, 250, 90), None);
}

#[test]
fn deregister_absent_still_broadcasts() {
    let mut reg = ServiceRegistry::new();
    let mut hb = HeartbeatStore::new();
    let req = InboundRequest::Deregistry(DeregistryRequest {
        service_name: "svc".to_string(),
        service_id: "i1".to_string(),
    });
    let out = inbound_handle(req, &mut reg, &mut hb, 0);
    assert_eq!(out.reply, InboundHandleSingleEvent::ServiceDeregistryResp { success: true });
    assert_eq!(
        out.broadcast,
        Some(InboundHandleBroadcastEvent::RemoveServiceResp {
            service_name: "svc".to_string(),
            service_list: vec![],
        })
    );
    assert_eq!(reg.list_names(), Vec::<String>::new());
}

#[test]
fn deregister_present_broadcasts_remaining_list() {
    let mut reg = ServiceRegistry::new();
    let mut hb = HeartbeatStore::new();
    inbound_handle(register(i1()), &mut reg, &mut hb, 0);
    let req = InboundRequest::Deregistry(DeregistryRequest {
        service_name: "svc".to_string(),
        service_id: "i1".to_string(),
    });
    let out = inbound_handle(req, &mut reg, &mut hb, 0);
    assert_eq!(
        out.broadcast,
        Some(InboundHandleBroadcastEvent::RemoveServiceResp {
            service_name: "svc".to_string(),
            service_list: vec![],
        })
    );
}

#[test]
fn service_check_present_and_absent() {
    let mut reg = ServiceRegistry::new();
    let mut hb = HeartbeatStore::new();
    inbound_handle(register(i1()), &mut reg, &mut hb, 0);
    let check = |id: &str| InboundRequest::ServiceCheck(ServiceCheckRequest { service_id: id.to_string() });
    let out = inbound_handle(check("i1"), &mut reg, &mut hb, 0);
    assert_eq!(out.reply, InboundHandleSingleEvent::ServiceCheckResp { service_id: "i1".to_string() });
    let out = inbound_handle(check("nope"), &mut reg, &mut hb, 0);
    assert_eq!(out.reply, InboundHandleSingleEvent::ServiceCheckResp { service_id: String::new() });
}

#[test]
fn repeated_queries_leave_stores_unchanged() {
    let mut reg = ServiceRegistry::new();
    let mut hb = HeartbeatStore::new();
    inbound_handle(register(i1()), &mut reg, &mut hb, 0);
    let names = || InboundRequest::DiscoveryNames(DiscoveryServiceNamesRequest {});
    let first = inbound_handle(names(), &mut reg, &mut hb, 0);
    let second = inbound_handle(names(), &mut reg, &mut hb, 5);
    assert_eq!(first, second);
    assert_eq!(first.reply, InboundHandleSingleEvent::ServiceNamesResp { service_names: vec!["svc".to_string()] });
    let a = inbound_handle(discovery("svc"), &mut reg, &mut hb, 0);
    let b = inbound_handle(discovery("svc"), &mut reg, &mut hb, 0);
    assert_eq!(a, b);
    assert_eq!(reg.list_names(), vec!["svc".to_string()]);
    assert_eq!(reg.discover(&"svc".to_string()), Some(vec![i1()]));
}

#[test]
fn query_answers_read_only_requests() {
    let mut reg = ServiceRegistry::new();
    let mut hb = HeartbeatStore::new();
    inbound_handle(register(i1()), &mut reg, &mut hb, 0);
    let req = discovery("svc");
    assert!(req.is_query());
    assert_eq!(req.rpc_kind(), RpcKind::Discovery);
    assert_eq!(
        inbound_query(&req, &reg),
        Some(InboundHandleSingleEvent::ServiceDiscoveryResp {
            service_name: "svc".to_string(),
            services: Some(vec![i1()]),
        })
    );
    let req = heartbeat("i1");
    assert!(!req.is_query());
    assert_eq!(inbound_query(&req, &reg), None);
    assert_eq!(inbound_query(&register(i1()), &reg), None);
}
