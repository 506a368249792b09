use connor::{
    outbound_handle_broad, outbound_handle_resp, AddServiceResponse, DeregistryRequest, DeregistryResponse,
    DiscoveryRequest, DiscoveryResponse, DiscoveryServiceNamesRequest, DiscoveryServiceNamesResponse,
    HeartbeatRequest, HeartbeatResponse, HeartbeatTimeoutResponse, InboundHandleBroadcastEvent,
    InboundHandleSingleEvent, NewService, OutboundResponse, RegistryRequest, RegistryResponse,
    RemoveServiceResponse, RpcKind, ServerConfig, ServiceCheckRequest, ServiceCheckResponse,
};

fn s1() -> NewService {
    NewService::new("i1".to_string(), "svc".to_string(), "h".to_string(), 80, None)
}

#[test]
fn response_constructors() {
    let d = DiscoveryResponse::new("svc", Some(vec![s1()]));
    assert_eq!(d.service_name, "svc");
    assert_eq!(d.services, Some(vec![s1()]));
    assert_eq!(DiscoveryResponse::new("x", None).services, None);
    let n = DiscoveryServiceNamesResponse::new(vec!["a".to_string()]);
    assert_eq!(n.service_names, vec!["a".to_string()]);
    assert_eq!(ServiceCheckResponse::new("i1").service_id, "i1");
    let a = AddServiceResponse::new("svc", vec![s1()]);
    assert_eq!((a.service_name.as_str(), a.service_list), ("svc", vec![s1()]));
    let r = RemoveServiceResponse::new("svc", vec![]);
    assert_eq!((r.service_name.as_str(), r.service_list.len()), ("svc", 0));
    let t = HeartbeatTimeoutResponse::new(vec!["i1".to_string()]);
    assert_eq!(t.service_ids, vec!["i1".to_string()]);
}

#[test]
fn record_kinds() {
    assert_eq!(RegistryRequest::rpc_kind(), RpcKind::Registry);
    assert_eq!(DiscoveryRequest::rpc_kind(), RpcKind::Discovery);
    assert_eq!(DiscoveryServiceNamesRequest::rpc_kind(), RpcKind::DiscoveryNames);
    assert_eq!(DeregistryRequest::rpc_kind(), RpcKind::Deregistry);
    assert_eq!(ServiceCheckRequest::rpc_kind(), RpcKind::ServiceCheck);
    assert_eq!(HeartbeatRequest::rpc_kind(), RpcKind::Heartbeat);
    assert_eq!(RegistryResponse::rpc_kind(), RpcKind::Registry);
    assert_eq!(DiscoveryResponse::rpc_kind(), RpcKind::Discovery);
    assert_eq!(DiscoveryServiceNamesResponse::rpc_kind(), RpcKind::DiscoveryNames);
    assert_eq!(DeregistryResponse::rpc_kind(), RpcKind::Deregistry);
    assert_eq!(ServiceCheckResponse::rpc_kind(), RpcKind::ServiceCheck);
    assert_eq!(AddServiceResponse::rpc_kind(), RpcKind::AddService);
    assert_eq!(RemoveServiceResponse::rpc_kind(), RpcKind::RemoveService);
    assert_eq!(HeartbeatResponse::rpc_kind(), RpcKind::Heartbeat);
    assert_eq!(HeartbeatTimeoutResponse::rpc_kind(), RpcKind::HeartbeatTimeout);
}

#[test]
fn single_events_map_to_records() {
    let cases = vec![
        (
            InboundHandleSingleEvent::ServiceDeregistryResp { success: true },
            OutboundResponse::Deregistry(DeregistryResponse { success: true }),
            RpcKind::Deregistry,
        ),
        (
            InboundHandleSingleEvent::ServiceNamesResp { service_names: vec!["svc".to_string()] },
            OutboundResponse::DiscoveryNames(DiscoveryServiceNamesResponse::new(vec!["svc".to_string()])),
            RpcKind::DiscoveryNames,
        ),
        (
            InboundHandleSingleEvent::ServiceCheckResp { service_id: "i1".to_string() },
            OutboundResponse::ServiceCheck(ServiceCheckResponse::new("i1")),
            RpcKind::ServiceCheck,
        ),
        (
            InboundHandleSingleEvent::HeartbeatResp { success: false },
            OutboundResponse::Heartbeat(HeartbeatResponse { success: false }),
            RpcKind::Heartbeat,
        ),
    ];
    for (event, record, kind) in cases {
        let r = outbound_handle_resp(event);
        assert_eq!(r, record);
        assert_eq!(r.rpc_kind(), kind);
    }
}

#[test]
fn broadcast_events_map_to_records() {
    let r = outbound_handle_broad(InboundHandleBroadcastEvent::RemoveServiceResp {
        service_name: "svc".to_string(),
        service_list: vec![s1()],
    });
    assert_eq!(r, OutboundResponse::RemoveService(RemoveServiceResponse::new("svc", vec![s1()])));
    assert_eq!(r.rpc_kind(), RpcKind::RemoveService);
}

#[test]
fn new_service_fields_and_clone() {
    let s = s1();
    assert_eq!((s.id.as_str(), s.name.as_str(), s.host.as_str(), s.port), ("i1", "svc", "h", 80));
    assert_eq!(s.clone(), s);
}

#[test]
fn server_config_fields() {
    let c = ServerConfig::new("127.0.0.1:8080".to_string(), vec!["127.0.0.1:8081".to_string()]);
    assert_eq!(c.server_address, "127.0.0.1:8080");
    assert_eq!(c.cluster_address, vec!["127.0.0.1:8081".to_string()]);
}
