use flowcore::dubbo::{get_req_param_len, AppProtoLogsInfo, DubboHeader, DubboLog, FlowLogDubboInfo};
use flowcore::error::Error;
use flowcore::types::{IpProtocol, L7Protocol, L7ResponseStatus, LogMessageType, PacketDirection};

fn request_frame() -> Vec<u8> {
    let mut payload = vec![0xda, 0xbb, 0xc2, 0x00];
    payload.extend_from_slice(&1u64.to_be_bytes());
    let body: &[&[u8]] = &[b"2.0.2", b"com.foo.Svc", b"1.0", b"call"];
    let body_len: usize = body.iter().map(|s| s.len() + 1).sum();
    payload.extend_from_slice(&(body_len as u32).to_be_bytes());
    for s in body {
        payload.push(s.len() as u8);
        payload.extend_from_slice(s);
    }
    payload
}

#[test]
fn dubbo_request_parses_params() {
    let payload = request_frame();
    let mut log = DubboLog::default();
    let head = log
        .parse(&payload, IpProtocol::Tcp, PacketDirection::ClientToServer)
        .unwrap();
    assert_eq!(head.proto, L7Protocol::Dubbo);
    assert_eq!(head.msg_type, LogMessageType::Request);
    assert!(log.info.data_type != 0);
    assert_eq!(log.info.serial_id, 2);
    assert_eq!(log.info.request_id, 1);
    assert_eq!(log.info.dubbo_version.as_str(), "2.0.2");
    assert_eq!(log.info.service_name.as_str(), "com.foo.Svc");
    assert_eq!(log.info.service_version.as_str(), "1.0");
    assert_eq!(log.info.method_name.as_str(), "call");
    match log.info() {
        AppProtoLogsInfo::Dubbo(d) => assert_eq!(d.method_name.as_str(), "call"),
    }
}

#[test]
fn dubbo_unknown_tag_stops_walk() {
    // the second parameter carries an unsupported tag: later fields stay
    // empty, yet the frame still parses
    let mut payload = vec![0xda, 0xbb, 0xc2, 0x00];
    payload.extend_from_slice(&9u64.to_be_bytes());
    payload.extend_from_slice(&8u32.to_be_bytes());
    payload.push(5);
    payload.extend_from_slice(b"2.0.2");
    payload.push(0x70);
    payload.push(0x01);
    let mut log = DubboLog::default();
    log.parse(&payload, IpProtocol::Tcp, PacketDirection::ClientToServer)
        .unwrap();
    assert_eq!(log.info.dubbo_version.as_str(), "2.0.2");
    assert_eq!(log.info.service_name.as_str(), "");
    assert_eq!(log.info.method_name.as_str(), "");
}

#[test]
fn dubbo_response_status_codes() {
    let mut payload = vec![0xda, 0xbb, 0x42, 20];
    payload.extend_from_slice(&7u64.to_be_bytes());
    payload.extend_from_slice(&0u32.to_be_bytes());
    let mut log = DubboLog::default();
    let head = log
        .parse(&payload, IpProtocol::Tcp, PacketDirection::ServerToClient)
        .unwrap();
    assert_eq!(head.msg_type, LogMessageType::Response);
    assert_eq!(head.status, L7ResponseStatus::Success);
    assert_eq!(head.code, 20);
    assert_eq!(log.info.request_id, 7);

    payload[3] = 31;
    let head = log
        .parse(&payload, IpProtocol::Tcp, PacketDirection::ServerToClient)
        .unwrap();
    assert_eq!(head.status, L7ResponseStatus::ServerError);

    payload[3] = 90;
    let head = log
        .parse(&payload, IpProtocol::Tcp, PacketDirection::ServerToClient)
        .unwrap();
    assert_eq!(head.status, L7ResponseStatus::ClientError);
}

#[test]
fn dubbo_rejects_non_tcp() {
    let payload = request_frame();
    let mut log = DubboLog::default();
    let r = log.parse(&payload, IpProtocol::Udp, PacketDirection::ClientToServer);
    assert!(matches!(r, Err(Error::InvalidIpProtocol)));
}

#[test]
fn dubbo_rejects_bad_magic() {
    let mut payload = request_frame();
    payload[0] = 0xd0;
    let mut log = DubboLog::default();
    let r = log.parse(&payload, IpProtocol::Tcp, PacketDirection::ClientToServer);
    assert!(matches!(r, Err(Error::DubboHeaderParseFailed)));
}

#[test]
fn dubbo_header_parse_truncated() {
    let payload = [0xda, 0xbb, 0x00, 0x00, 0x00];
    let mut header = DubboHeader::default();
    assert!(matches!(
        header.parse_headers(&payload),
        Err(Error::DubboHeaderParseFailed)
    ));

    let mut full = vec![0xda, 0xbb, 0xc2, 0x14];
    full.extend_from_slice(&3u64.to_be_bytes());
    full.extend_from_slice(&77u32.to_be_bytes());
    header.parse_headers(&full).unwrap();
    assert_eq!(header.serial_id, 2);
    assert_eq!(header.data_type, 0x80);
    assert_eq!(header.status_code, 0x14);
    assert_eq!(header.request_id, 3);
    assert_eq!(header.data_length, 77);
}

#[test]
fn req_param_len_table() {
    assert_eq!(get_req_param_len(0x05), Some(5));
    assert_eq!(get_req_param_len(0x1f), Some(0x1f));
    assert_eq!(get_req_param_len(0x30), Some(0x30));
    assert_eq!(get_req_param_len(0x33), Some(0x33));
    assert_eq!(get_req_param_len(0x52), Some(0x52));
    assert_eq!(get_req_param_len(0x53), Some(0x53));
    assert_eq!(get_req_param_len(0x34), None);
    assert_eq!(get_req_param_len(0x70), None);
}

#[test]
fn dubbo_merge_takes_response_size() {
    let payload = request_frame();
    let mut req_log = DubboLog::default();
    req_log
        .parse(&payload, IpProtocol::Tcp, PacketDirection::ClientToServer)
        .unwrap();
    let mut req_info = req_log.info.clone();

    let mut resp = vec![0xda, 0xbb, 0x42, 20];
    resp.extend_from_slice(&1u64.to_be_bytes());
    resp.extend_from_slice(&321u32.to_be_bytes());
    let mut resp_log = DubboLog::default();
    resp_log
        .parse(&resp, IpProtocol::Tcp, PacketDirection::ServerToClient)
        .unwrap();

    req_info.merge(resp_log.info.clone());
    assert_eq!(req_info.resp_msg_size, 321);
    assert_eq!(req_info.method_name.as_str(), "call");
}

#[test]
fn dubbo_flow_log_mapping() {
    let payload = request_frame();
    let mut log = DubboLog::default();
    log.parse(&payload, IpProtocol::Tcp, PacketDirection::ClientToServer)
        .unwrap();
    let wire = FlowLogDubboInfo::from(log.info.clone());
    assert_eq!(wire.serial_id, 2);
    assert_eq!(wire.kind, 0x80);
    assert_eq!(wire.id, 1);
    assert_eq!(wire.version.as_str(), "2.0.2");
    assert_eq!(wire.method_name.as_str(), "call");
    assert_eq!(wire.trace_id.as_str(), "");
}
