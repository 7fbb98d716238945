use flowcore::flow_key::{FlowMapKey, FlowTimeKey};
use flowcore::flow_map::FlowMap;
use flowcore::flow_node::{
    Flow, FlowKey, FlowMetricsPeer, FlowNode, FlowState, MetaPacket, TaggedFlow,
};
use flowcore::types::{
    EthernetType, IpAddress, IpProtocol, LookupKey, MacAddr, PacketDirection, TapPort, TapType,
    TridentType, TunnelInfo, TunnelType,
};

fn ipv6_a() -> IpAddress {
    // fe80::88d3:f197:5843:f873
    IpAddress::from_v6_octets([
        0xfe, 0x80, 0x00, 0x00, 0x00, 0x00, 0x00, 0x00, 0x88, 0xd3, 0xf1, 0x97, 0x58, 0x43, 0xf8,
        0x73,
    ])
}

fn ipv6_b() -> IpAddress {
    // fe80::742a:d20d:8d45:56e6
    IpAddress::from_v6_octets([
        0xfe, 0x80, 0x00, 0x00, 0x00, 0x00, 0x00, 0x00, 0x74, 0x2a, 0xd2, 0x0d, 0x8d, 0x45, 0x56,
        0xe6,
    ])
}

fn new_map_key(eth_type: EthernetType, src_ip: IpAddress, dst_ip: IpAddress) -> FlowMapKey {
    let lookup_key = LookupKey {
        tap_type: TapType::Isp(7),
        src_mac: MacAddr::from_bytes([0xb0, 0x60, 0x88, 0x51, 0xd7, 0x54]),
        dst_mac: MacAddr::from_bytes([0x00, 0x15, 0x5d, 0x70, 0x01, 0x03]),
        src_ip,
        dst_ip,
        src_port: 19001,
        dst_port: 19002,
        eth_type,
        proto: IpProtocol::Tcp,
        l2_end_0: false,
        l2_end_1: false,
    };
    FlowMapKey::new(&lookup_key, TapPort { port: 2100 })
}

#[test]
fn ipv4_node_hash() {
    let key = new_map_key(
        EthernetType::Ipv4,
        IpAddress::from_v4_octets([192, 168, 66, 1]),
        IpAddress::from_v4_octets([192, 168, 66, 2]),
    );
    assert_eq!(key.key, 0xecb912dddb15b140);
}

#[test]
fn ipv6_node_hash() {
    let key = new_map_key(EthernetType::Ipv6, ipv6_a(), ipv6_b());
    assert_eq!(key.key, 0xe7f0aea2897fd9ad);
}

#[test]
fn arp_node_hash() {
    let key = new_map_key(EthernetType::Arp, ipv6_a(), ipv6_b());
    assert_eq!(key.key, 1098954493523811076);
}

#[test]
fn other_node_hash() {
    let key = new_map_key(EthernetType::Dot1Q, ipv6_a(), ipv6_b());
    assert_eq!(key.key, 4948968142922745785);
}

#[test]
fn map_key_direction_symmetric() {
    let forward = new_map_key(
        EthernetType::Ipv4,
        IpAddress::from_v4_octets([10, 0, 0, 1]),
        IpAddress::from_v4_octets([10, 0, 0, 2]),
    );
    let lookup_key = LookupKey {
        tap_type: TapType::Isp(7),
        src_mac: MacAddr::from_bytes([0x00, 0x15, 0x5d, 0x70, 0x01, 0x03]),
        dst_mac: MacAddr::from_bytes([0xb0, 0x60, 0x88, 0x51, 0xd7, 0x54]),
        src_ip: IpAddress::from_v4_octets([10, 0, 0, 2]),
        dst_ip: IpAddress::from_v4_octets([10, 0, 0, 1]),
        src_port: 19002,
        dst_port: 19001,
        eth_type: EthernetType::Ipv4,
        proto: IpProtocol::Tcp,
        l2_end_0: false,
        l2_end_1: false,
    };
    let reverse = FlowMapKey::new(&lookup_key, TapPort { port: 2100 });
    assert_eq!(forward.key, reverse.key);
}

fn tunneled_packet(
    src_ip: IpAddress,
    dst_ip: IpAddress,
    src_port: u16,
    dst_port: u16,
    src_mac: MacAddr,
    dst_mac: MacAddr,
) -> MetaPacket {
    MetaPacket {
        lookup_key: LookupKey {
            tap_type: TapType::Tor,
            src_mac,
            dst_mac,
            src_ip,
            dst_ip,
            src_port,
            dst_port,
            eth_type: EthernetType::Ipv4,
            proto: IpProtocol::Tcp,
            l2_end_0: false,
            l2_end_1: false,
        },
        tap_port: TapPort { port: 0x100 },
        tunnel: Some(TunnelInfo {
            tunnel_type: TunnelType::TencentGre,
            tier: 1,
        }),
        direction: PacketDirection::ClientToServer,
        timestamp_nanos: 0,
    }
}

fn node_for(pkt: &MetaPacket) -> FlowNode {
    FlowNode {
        timestamp_key: pkt.timestamp_nanos,
        tagged_flow: TaggedFlow {
            flow: Flow {
                flow_key: FlowKey {
                    tap_type: pkt.lookup_key.tap_type,
                    tap_port: pkt.tap_port,
                    mac_src: pkt.lookup_key.src_mac,
                    mac_dst: pkt.lookup_key.dst_mac,
                    ip_src: pkt.lookup_key.src_ip,
                    ip_dst: pkt.lookup_key.dst_ip,
                    port_src: pkt.lookup_key.src_port,
                    port_dst: pkt.lookup_key.dst_port,
                    proto: pkt.lookup_key.proto,
                },
                eth_type: pkt.lookup_key.eth_type,
                tunnel: match pkt.tunnel {
                    Some(t) => t,
                    None => TunnelInfo {
                        tunnel_type: TunnelType::NoTunnel,
                        tier: 0,
                    },
                },
                peer_src: FlowMetricsPeer::zeroed(pkt.lookup_key.l2_end_0),
                peer_dst: FlowMetricsPeer::zeroed(pkt.lookup_key.l2_end_1),
                flow_stat_time: 0,
                is_new_flow: true,
            },
        },
        min_arrived_time: pkt.timestamp_nanos,
        recent_time: pkt.timestamp_nanos,
        timeout: 0,
        flow_state: FlowState::Raw,
        next_tcp_seq0: 0,
        next_tcp_seq1: 0,
        policy_in_tick_0: false,
        policy_in_tick_1: false,
        packet_in_tick: true,
    }
}

#[test]
fn flow_match_under_tencent_gre_tunnel() {
    let mac_a = MacAddr::from_bytes([0x02, 0x00, 0x00, 0x00, 0x00, 0x01]);
    let mac_b = MacAddr::from_bytes([0x02, 0x00, 0x00, 0x00, 0x00, 0x02]);
    let ip_x = IpAddress::from_v4_octets([172, 16, 0, 1]);
    let ip_y = IpAddress::from_v4_octets([172, 16, 0, 2]);

    let mut first = tunneled_packet(ip_x, ip_y, 4000, 80, mac_a, mac_b);
    let node = node_for(&first);

    assert!(node.match_node(&mut first, (false, false), TridentType::TtPublicCloud));
    assert_eq!(first.direction, PacketDirection::ClientToServer);

    // the reply carries the inner 5-tuple reversed (the tuple is not a
    // palindrome, so only the reverse orientation matches), but its
    // hardware addresses did not swap: only the tunnel's degraded MAC
    // policy lets it join the flow
    let mut second = tunneled_packet(ip_y, ip_x, 80, 4000, mac_a, mac_b);
    assert!(node.match_node(&mut second, (false, false), TridentType::TtPublicCloud));
    assert_eq!(second.direction, PacketDirection::ServerToClient);
}

#[test]
fn match_node_rejects_other_tap_port() {
    let mac_a = MacAddr::from_bytes([0x02, 0x00, 0x00, 0x00, 0x00, 0x01]);
    let mac_b = MacAddr::from_bytes([0x02, 0x00, 0x00, 0x00, 0x00, 0x02]);
    let ip_x = IpAddress::from_v4_octets([172, 16, 0, 1]);
    let ip_y = IpAddress::from_v4_octets([172, 16, 0, 2]);
    let first = tunneled_packet(ip_x, ip_y, 4000, 80, mac_a, mac_b);
    let node = node_for(&first);

    let mut other = first;
    other.tap_port = TapPort { port: 0x200 };
    assert!(!node.match_node(&mut other, (false, false), TridentType::TtPublicCloud));
}

#[test]
fn flow_map_indexes_and_eviction() {
    let mac_a = MacAddr::from_bytes([0x02, 0x00, 0x00, 0x00, 0x00, 0x01]);
    let mac_b = MacAddr::from_bytes([0x02, 0x00, 0x00, 0x00, 0x00, 0x02]);
    let ip_x = IpAddress::from_v4_octets([172, 16, 0, 1]);
    let ip_y = IpAddress::from_v4_octets([172, 16, 0, 2]);
    let mut first = tunneled_packet(ip_x, ip_y, 4000, 80, mac_a, mac_b);
    first.timestamp_nanos = 1000;
    let node = node_for(&first);

    let mut map = FlowMap::new();
    let idx = map.insert(node);
    assert_eq!(idx, 0);
    assert_eq!(map.len(), 1);

    let key = FlowMapKey::new(&first.lookup_key, first.tap_port);
    let mut reply = tunneled_packet(ip_y, ip_x, 80, 4000, mac_a, mac_b);
    let found = map.lookup(key, &mut reply, (false, false), TridentType::TtPublicCloud);
    assert_eq!(found, Some(0));
    assert_eq!(reply.direction, PacketDirection::ServerToClient);

    map.reset_node_time(0, 5000);
    assert!(map.pop_expired(4000).is_none());
    let evicted = map.pop_expired(5000).unwrap();
    assert_eq!(evicted.timestamp_key, 5000);
    assert_eq!(map.len(), 0);
}

#[test]
fn reset_flow_stat_info_clears_counters() {
    let mac_a = MacAddr::from_bytes([0x02, 0x00, 0x00, 0x00, 0x00, 0x01]);
    let mac_b = MacAddr::from_bytes([0x02, 0x00, 0x00, 0x00, 0x00, 0x02]);
    let ip_x = IpAddress::from_v4_octets([172, 16, 0, 1]);
    let ip_y = IpAddress::from_v4_octets([172, 16, 0, 2]);
    let first = tunneled_packet(ip_x, ip_y, 4000, 80, mac_a, mac_b);
    let mut node = node_for(&first);
    node.tagged_flow.flow.peer_src.packet_count = 9;
    node.tagged_flow.flow.peer_dst.byte_count = 100;
    node.packet_in_tick = true;

    node.reset_flow_stat_info();
    assert_eq!(node.tagged_flow.flow.peer_src.packet_count, 0);
    assert_eq!(node.tagged_flow.flow.peer_dst.byte_count, 0);
    assert!(!node.packet_in_tick);
    assert!(!node.tagged_flow.flow.is_new_flow);
}

#[test]
fn flow_time_key_reset() {
    let key = FlowMapKey { key: 77 };
    let mut tk = FlowTimeKey::new(123, key);
    assert_eq!(tk.timestamp_key, 123);
    tk.reset_timestamp_key(456);
    assert_eq!(tk.timestamp_key, 456);
    assert_eq!(tk.map_key, key);
}
