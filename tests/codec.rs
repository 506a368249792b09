use connor::{decode_payload, encode_payload, Byte2JsonErr, Json2StructErr, RpcKind, Struct2JsonErr};

#[test]
fn decode_registry_payload() {
    let p = b"0{\"service\":{}}";
    assert_eq!(
        decode_payload(p),
        Ok(Some((RpcKind::Registry, "{\"service\":{}}".to_string())))
    );
}

#[test]
fn decode_every_kind_digit() {
    let kinds = [
        RpcKind::Registry,
        RpcKind::Discovery,
        RpcKind::DiscoveryNames,
        RpcKind::Deregistry,
        RpcKind::ServiceCheck,
        RpcKind::AddService,
        RpcKind::RemoveService,
        RpcKind::Heartbeat,
        RpcKind::HeartbeatTimeout,
    ];
    for (i, k) in kinds.iter().enumerate() {
        let digit = b'0' + i as u8;
        assert_eq!(k.digit(), digit);
        assert_eq!(RpcKind::from_digit(digit), Some(*k));
        assert_eq!(decode_payload(&[digit, b'{', b'}']), Ok(Some((*k, "{}".to_string()))));
    }
    assert_eq!(RpcKind::from_digit(b'9'), None);
    assert_eq!(RpcKind::from_digit(b'a'), None);
}

#[test]
fn decode_unknown_digit_is_dropped() {
    assert_eq!(decode_payload(b"9{}"), Ok(None));
    assert_eq!(decode_payload(b"x"), Ok(None));
    assert_eq!(decode_payload("é{}".as_bytes()), Ok(None));
}

#[test]
fn decode_empty_payload_is_fatal() {
    assert_eq!(decode_payload(b""), Err(Byte2JsonErr));
}

#[test]
fn decode_invalid_utf8_is_fatal() {
    assert_eq!(decode_payload(&[b'1', 0xff, b'}']), Err(Byte2JsonErr));
    assert_eq!(decode_payload(&[b'9', 0xc0, 0x80]), Err(Byte2JsonErr));
}

#[test]
fn decode_kind_digit_alone_gives_empty_body() {
    assert_eq!(decode_payload(b"2"), Ok(Some((RpcKind::DiscoveryNames, String::new()))));
}

#[test]
fn encode_prefixes_kind_digit() {
    assert_eq!(encode_payload(RpcKind::Registry, "{\"success\":true}"), b"0{\"success\":true}".to_vec());
    assert_eq!(encode_payload(RpcKind::HeartbeatTimeout, ""), b"8".to_vec());
}

#[test]
fn encode_then_decode_round_trip_non_ascii() {
    let json = "{\"service_name\":\"服务\"}";
    let bytes = encode_payload(RpcKind::Discovery, json);
    assert_eq!(bytes.len(), 1 + json.len());
    assert_eq!(decode_payload(&bytes), Ok(Some((RpcKind::Discovery, json.to_string()))));
}

#[test]
fn inbound_kinds() {
    assert!(RpcKind::Registry.is_inbound());
    assert!(RpcKind::Heartbeat.is_inbound());
    assert!(!RpcKind::AddService.is_inbound());
    assert!(!RpcKind::RemoveService.is_inbound());
    assert!(!RpcKind::HeartbeatTimeout.is_inbound());
}

#[test]
fn error_messages() {
    assert_eq!(Byte2JsonErr.message(), "Byte To Json Fail !");
    assert_eq!(Struct2JsonErr.message(), "Struct To Json Fail !");
    assert_eq!(Json2StructErr.message(), "Json To Struct Fail !");
}
