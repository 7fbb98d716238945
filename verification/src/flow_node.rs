use vstd::prelude::*;

use crate::types::EthernetType;
use crate::types::IpProtocol;
use crate::types::LookupKey;
use crate::types::MacAddr;
use crate::types::PacketDirection;
use crate::types::TapPort;
use crate::types::TapType;
use crate::types::TridentType;
use crate::types::TunnelInfo;
use crate::types::TunnelType;

verus! {

/// How strictly the hardware addresses must agree for a packet to join a
/// flow; derived from tunnel state and topology.
#[derive(Clone, Copy, Debug, PartialEq, Eq, Structural)]
pub enum MatchMac {
    Ignore,
    Dst,
    Src,
    All,
}

/// Lifecycle state of a flow's transport connection.
#[derive(Clone, Copy, Debug, PartialEq, Eq, Structural)]
pub enum FlowState {
    Raw,
    Opening1,
    Opening2,
    Established,
    Closing,
    Closed,
    Reset,
    Exception,
}

/// Counters of one peer of a bidirectional flow.
#[derive(Clone, Copy, Debug, PartialEq, Eq, Structural)]
pub struct FlowMetricsPeer {
    pub packet_count: u64,
    pub byte_count: u64,
    pub l3_byte_count: u64,
    pub l4_byte_count: u64,
    pub is_l2_end: bool,
}

impl FlowMetricsPeer {
    pub fn zeroed(is_l2_end: bool) -> (r: Self)
        ensures
            r == (FlowMetricsPeer {
                packet_count: 0,
                byte_count: 0,
                l3_byte_count: 0,
                l4_byte_count: 0,
                is_l2_end,
            }),
    {
        FlowMetricsPeer {
            packet_count: 0,
            byte_count: 0,
            l3_byte_count: 0,
            l4_byte_count: 0,
            is_l2_end,
        }
    }
}

/// The first-seen-direction tuple that canonically identifies a flow.
#[derive(Clone, Copy, Debug)]
pub struct FlowKey {
    pub tap_type: TapType,
    pub tap_port: TapPort,
    pub mac_src: MacAddr,
    pub mac_dst: MacAddr,
    pub ip_src: crate::types::IpAddress,
    pub ip_dst: crate::types::IpAddress,
    pub port_src: u16,
    pub port_dst: u16,
    pub proto: IpProtocol,
}

/// Aggregated state of one bidirectional flow.
#[derive(Clone, Copy, Debug)]
pub struct Flow {
    pub flow_key: FlowKey,
    pub eth_type: EthernetType,
    pub tunnel: TunnelInfo,
    pub peer_src: FlowMetricsPeer,
    pub peer_dst: FlowMetricsPeer,
    pub flow_stat_time: u64,
    pub is_new_flow: bool,
}

/// A flow together with its enrichment tags.
#[derive(Clone, Copy, Debug)]
pub struct TaggedFlow {
    pub flow: Flow,
}

/// The packet attributes that the matcher reads; direction is assigned by
/// the matcher as a side effect.
#[derive(Clone, Copy, Debug)]
pub struct MetaPacket {
    pub lookup_key: LookupKey,
    pub tap_port: TapPort,
    pub tunnel: Option<TunnelInfo>,
    pub direction: PacketDirection,
    pub timestamp_nanos: u64,
}

/// The aggregation record of one flow, as kept in the flow map and the
/// time-ordered eviction set.
#[derive(Clone, Copy, Debug)]
pub struct FlowNode {
    /// Mirror of the node's position in the time set; equals the
    /// `timestamp_key` of its `FlowTimeKey`.
    pub timestamp_key: u64,
    pub tagged_flow: TaggedFlow,
    pub min_arrived_time: u64,
    pub recent_time: u64,
    pub timeout: u64,
    pub flow_state: FlowState,
    pub next_tcp_seq0: u32,
    pub next_tcp_seq1: u32,
    pub policy_in_tick_0: bool,
    pub policy_in_tick_1: bool,
    pub packet_in_tick: bool,
}

pub open spec fn spec_is_hyper_v(trident_type: TridentType) -> bool {
    trident_type == TridentType::TtHyperVCompute || trident_type == TridentType::TtHyperVNetwork
}

/// The hardware-address policy of the matcher. `config_ignore` is
/// (ignore l2-end, ignore mac) as configured by the user. Within the
/// from-agent branch: with neither endpoint flag set the addresses are
/// ignored; with only the source-side flag clear the destination must
/// match; otherwise — including when both endpoint flags are set — the
/// source must match.
pub open spec fn spec_mac_match(
    pkt: MetaPacket,
    config_ignore: (bool, bool),
    trident_type: TridentType,
) -> MatchMac {
    let ignore_mac = match pkt.tunnel {
        Some(t) => (spec_is_hyper_v(trident_type) && t.tier < 2) || t.tunnel_type
            == TunnelType::TencentGre || t.tunnel_type == TunnelType::Ipip,
        None => false,
    };
    let is_from_isp = pkt.lookup_key.tap_type != TapType::Tor;
    if is_from_isp || ignore_mac || config_ignore.1 {
        MatchMac::Ignore
    } else {
        let is_from_trident = pkt.lookup_key.tap_type == TapType::Tor && pkt.tap_port.port
            & 0xffff_ffff > 0;
        if !config_ignore.0 && is_from_trident {
            if !pkt.lookup_key.l2_end_0 && !pkt.lookup_key.l2_end_1 {
                MatchMac::Ignore
            } else if !pkt.lookup_key.l2_end_0 {
                MatchMac::Dst
            } else {
                MatchMac::Src
            }
        } else {
            MatchMac::All
        }
    }
}

/// Whether the packet's hardware addresses agree with the flow's under the
/// tentative direction, as strictly as `match_mac` demands.
pub open spec fn spec_mac_match_with_direction(
    pkt: MetaPacket,
    flow_mac_src: MacAddr,
    flow_mac_dst: MacAddr,
    match_mac: MatchMac,
    direction: PacketDirection,
) -> bool {
    let src_mac = if direction == PacketDirection::ClientToServer {
        flow_mac_src
    } else {
        flow_mac_dst
    };
    let dst_mac = if direction == PacketDirection::ClientToServer {
        flow_mac_dst
    } else {
        flow_mac_src
    };
    match match_mac {
        MatchMac::Dst => dst_mac == pkt.lookup_key.dst_mac,
        MatchMac::Src => src_mac == pkt.lookup_key.src_mac,
        MatchMac::All => dst_mac == pkt.lookup_key.dst_mac && src_mac == pkt.lookup_key.src_mac,
        MatchMac::Ignore => true,
    }
}

/// Tunnelled traffic hair-pinned on one port looks identical both ways;
/// the endpoint flags of the packet must agree with the flow's peers under
/// the tentative direction.
pub open spec fn spec_endpoint_match_with_direction(
    peer_src: FlowMetricsPeer,
    peer_dst: FlowMetricsPeer,
    pkt: MetaPacket,
    direction: PacketDirection,
) -> bool {
    match pkt.tunnel {
        None => true,
        Some(_) => {
            if direction == PacketDirection::ClientToServer {
                pkt.lookup_key.l2_end_0 == peer_src.is_l2_end && pkt.lookup_key.l2_end_1
                    == peer_dst.is_l2_end
            } else {
                pkt.lookup_key.l2_end_0 == peer_dst.is_l2_end && pkt.lookup_key.l2_end_1
                    == peer_src.is_l2_end
            }
        },
    }
}

/// The matcher's whole decision: whether the packet belongs to the flow,
/// and the packet's direction after the call (the tentative orientation is
/// assigned as soon as the tuple matches, even if a later policy check
/// rejects the packet).
pub open spec fn spec_match_node(
    flow: Flow,
    pkt: MetaPacket,
    config_ignore: (bool, bool),
    trident_type: TridentType,
) -> (bool, PacketDirection) {
    let flow_key = flow.flow_key;
    let lk = pkt.lookup_key;
    if flow_key.tap_port != pkt.tap_port || flow_key.tap_type != lk.tap_type {
        (false, pkt.direction)
    } else if flow.eth_type != EthernetType::Ipv4 && lk.eth_type != EthernetType::Ipv6 {
        if lk.eth_type != flow.eth_type {
            (false, pkt.direction)
        } else if flow_key.mac_src == lk.src_mac && flow_key.mac_dst == lk.dst_mac
            && flow_key.ip_src == lk.src_ip && flow_key.ip_dst == lk.dst_ip {
            (true, PacketDirection::ClientToServer)
        } else if flow_key.mac_src == lk.dst_mac && flow_key.mac_dst == lk.src_mac
            && flow_key.ip_src == lk.dst_ip && flow_key.ip_dst == lk.src_ip {
            (true, PacketDirection::ServerToClient)
        } else {
            (false, pkt.direction)
        }
    } else if flow.eth_type != lk.eth_type {
        (false, pkt.direction)
    } else if flow_key.proto != lk.proto {
        (false, pkt.direction)
    } else if (match pkt.tunnel {
        Some(t) => flow.tunnel.tunnel_type != t.tunnel_type,
        None => flow.tunnel.tunnel_type != TunnelType::NoTunnel,
    }) && !spec_is_hyper_v(trident_type) {
        (false, pkt.direction)
    } else {
        let mac_match = spec_mac_match(pkt, config_ignore, trident_type);
        if flow_key.ip_src == lk.src_ip && flow_key.ip_dst == lk.dst_ip && flow_key.port_src
            == lk.src_port && flow_key.port_dst == lk.dst_port {
            let d = PacketDirection::ClientToServer;
            (
                spec_endpoint_match_with_direction(flow.peer_src, flow.peer_dst, pkt, d)
                    && spec_mac_match_with_direction(
                    pkt,
                    flow_key.mac_src,
                    flow_key.mac_dst,
                    mac_match,
                    d,
                ),
                d,
            )
        } else if flow_key.ip_src == lk.dst_ip && flow_key.ip_dst == lk.src_ip && flow_key.port_src
            == lk.dst_port && flow_key.port_dst == lk.src_port {
            let d = PacketDirection::ServerToClient;
            (
                spec_endpoint_match_with_direction(flow.peer_src, flow.peer_dst, pkt, d)
                    && spec_mac_match_with_direction(
                    pkt,
                    flow_key.mac_src,
                    flow_key.mac_dst,
                    mac_match,
                    d,
                ),
                d,
            )
        } else {
            (false, pkt.direction)
        }
    }
}

impl FlowNode {
    /// Clears the per-tick statistics at the start of a statistics period.
    pub fn reset_flow_stat_info(&mut self)
        ensures
            final(self).policy_in_tick_0 == false,
            final(self).policy_in_tick_1 == false,
            final(self).packet_in_tick == false,
            final(self).tagged_flow.flow.flow_stat_time == 0,
            final(self).tagged_flow.flow.is_new_flow == false,
            final(self).tagged_flow.flow.peer_src == (FlowMetricsPeer {
                packet_count: 0,
                byte_count: 0,
                l3_byte_count: 0,
                l4_byte_count: 0,
                is_l2_end: old(self).tagged_flow.flow.peer_src.is_l2_end,
            }),
            final(self).tagged_flow.flow.peer_dst == (FlowMetricsPeer {
                packet_count: 0,
                byte_count: 0,
                l3_byte_count: 0,
                l4_byte_count: 0,
                is_l2_end: old(self).tagged_flow.flow.peer_dst.is_l2_end,
            }),
            final(self).tagged_flow.flow.flow_key == old(self).tagged_flow.flow.flow_key,
            final(self).tagged_flow.flow.eth_type == old(self).tagged_flow.flow.eth_type,
            final(self).tagged_flow.flow.tunnel == old(self).tagged_flow.flow.tunnel,
            final(self).timestamp_key == old(self).timestamp_key,
            final(self).min_arrived_time == old(self).min_arrived_time,
            final(self).recent_time == old(self).recent_time,
            final(self).timeout == old(self).timeout,
            final(self).flow_state == old(self).flow_state,
            final(self).next_tcp_seq0 == old(self).next_tcp_seq0,
            final(self).next_tcp_seq1 == old(self).next_tcp_seq1,
    {
        self.policy_in_tick_0 = false;
        self.policy_in_tick_1 = false;
        self.packet_in_tick = false;
        self.tagged_flow.flow.flow_stat_time = 0;
        self.tagged_flow.flow.is_new_flow = false;
        self.tagged_flow.flow.peer_src.packet_count = 0;
        self.tagged_flow.flow.peer_src.byte_count = 0;
        self.tagged_flow.flow.peer_src.l3_byte_count = 0;
        self.tagged_flow.flow.peer_src.l4_byte_count = 0;
        self.tagged_flow.flow.peer_dst.packet_count = 0;
        self.tagged_flow.flow.peer_dst.byte_count = 0;
        self.tagged_flow.flow.peer_dst.l3_byte_count = 0;
        self.tagged_flow.flow.peer_dst.l4_byte_count = 0;
    }

    /// Decides whether `meta_packet` belongs to this flow and, when the
    /// tuple matches in either orientation, assigns the packet's direction
    /// accordingly.
    pub fn match_node(
        &self,
        meta_packet: &mut MetaPacket,
        config_ignore: (bool, bool),
        trident_type: TridentType,
    ) -> (r: bool)
        ensures
            r == spec_match_node(
                self.tagged_flow.flow,
                *old(meta_packet),
                config_ignore,
                trident_type,
            ).0,
            *final(meta_packet) == (MetaPacket {
                direction: spec_match_node(
                    self.tagged_flow.flow,
                    *old(meta_packet),
                    config_ignore,
                    trident_type,
                ).1,
                ..*old(meta_packet)
            }),
    {
        let flow = &self.tagged_flow.flow;
        let flow_key = &flow.flow_key;
        if flow_key.tap_port != meta_packet.tap_port || flow_key.tap_type
            != meta_packet.lookup_key.tap_type {
            return false;
        }
        // other ethernet type
        if flow.eth_type != EthernetType::Ipv4 && meta_packet.lookup_key.eth_type
            != EthernetType::Ipv6 {
            if meta_packet.lookup_key.eth_type != flow.eth_type {
                return false;
            }
            if flow_key.mac_src == meta_packet.lookup_key.src_mac && flow_key.mac_dst
                == meta_packet.lookup_key.dst_mac && flow_key.ip_src
                == meta_packet.lookup_key.src_ip && flow_key.ip_dst
                == meta_packet.lookup_key.dst_ip {
                meta_packet.direction = PacketDirection::ClientToServer;
                return true;
            }
            if flow_key.mac_src == meta_packet.lookup_key.dst_mac && flow_key.mac_dst
                == meta_packet.lookup_key.src_mac && flow_key.ip_src
                == meta_packet.lookup_key.dst_ip && flow_key.ip_dst
                == meta_packet.lookup_key.src_ip {
                meta_packet.direction = PacketDirection::ServerToClient;
                return true;
            }
            return false;
        }
        if flow.eth_type != meta_packet.lookup_key.eth_type {
            return false;
        }
        if flow_key.proto != meta_packet.lookup_key.proto {
            return false;
        }
        let tunnel_mismatch = match meta_packet.tunnel {
            Some(t) => flow.tunnel.tunnel_type != t.tunnel_type,
            None => flow.tunnel.tunnel_type != TunnelType::NoTunnel,
        };
        if tunnel_mismatch {
            // asymmetric tunnel paths are expected under Hyper-V gateways
            if !Self::is_hyper_v(trident_type) {
                return false;
            }
        }
        let mac_match = Self::mac_match(meta_packet, config_ignore, trident_type);
        if flow_key.ip_src == meta_packet.lookup_key.src_ip && flow_key.ip_dst
            == meta_packet.lookup_key.dst_ip && flow_key.port_src
            == meta_packet.lookup_key.src_port && flow_key.port_dst
            == meta_packet.lookup_key.dst_port {
            meta_packet.direction = PacketDirection::ClientToServer;
            Self::endpoint_match_with_direction(
                &flow.peer_src,
                &flow.peer_dst,
                meta_packet,
                PacketDirection::ClientToServer,
            ) && Self::mac_match_with_direction(
                meta_packet,
                flow_key.mac_src,
                flow_key.mac_dst,
                mac_match,
                PacketDirection::ClientToServer,
            )
        } else if flow_key.ip_src == meta_packet.lookup_key.dst_ip && flow_key.ip_dst
            == meta_packet.lookup_key.src_ip && flow_key.port_src
            == meta_packet.lookup_key.dst_port && flow_key.port_dst
            == meta_packet.lookup_key.src_port {
            meta_packet.direction = PacketDirection::ServerToClient;
            Self::endpoint_match_with_direction(
                &flow.peer_src,
                &flow.peer_dst,
                meta_packet,
                PacketDirection::ServerToClient,
            ) && Self::mac_match_with_direction(
                meta_packet,
                flow_key.mac_src,
                flow_key.mac_dst,
                mac_match,
                PacketDirection::ServerToClient,
            )
        } else {
            false
        }
    }

    pub fn is_hyper_v(trident_type: TridentType) -> (r: bool)
        ensures
            r == spec_is_hyper_v(trident_type),
    {
        trident_type == TridentType::TtHyperVCompute || trident_type
            == TridentType::TtHyperVNetwork
    }

    fn mac_match(
        meta_packet: &MetaPacket,
        config_ignore: (bool, bool),
        trident_type: TridentType,
    ) -> (r: MatchMac)
        ensures
            r == spec_mac_match(*meta_packet, config_ignore, trident_type),
    {
        let ignore_mac = match meta_packet.tunnel {
            Some(t) => (Self::is_hyper_v(trident_type) && t.tier < 2) || t.tunnel_type
                == TunnelType::TencentGre || t.tunnel_type == TunnelType::Ipip,
            None => false,
        };
        let is_from_isp = meta_packet.lookup_key.tap_type != TapType::Tor;
        if is_from_isp || ignore_mac || config_ignore.1 {
            return MatchMac::Ignore;
        }
        let is_from_trident = meta_packet.lookup_key.tap_type == TapType::Tor
            && meta_packet.tap_port.split_fields().0 > 0;
        if !config_ignore.0 && is_from_trident {
            if !meta_packet.lookup_key.l2_end_0 && !meta_packet.lookup_key.l2_end_1 {
                return MatchMac::Ignore;
            } else if !meta_packet.lookup_key.l2_end_0 {
                return MatchMac::Dst;
            } else {
                return MatchMac::Src;
            }
        }
        MatchMac::All
    }

    fn mac_match_with_direction(
        meta_packet: &MetaPacket,
        flow_mac_src: MacAddr,
        flow_mac_dst: MacAddr,
        match_mac: MatchMac,
        direction: PacketDirection,
    ) -> (r: bool)
        ensures
            r == spec_mac_match_with_direction(
                *meta_packet,
                flow_mac_src,
                flow_mac_dst,
                match_mac,
                direction,
            ),
    {
        let (src_mac, dst_mac) = match direction {
            PacketDirection::ClientToServer => (flow_mac_src, flow_mac_dst),
            PacketDirection::ServerToClient => (flow_mac_dst, flow_mac_src),
        };
        match match_mac {
            MatchMac::Dst => dst_mac == meta_packet.lookup_key.dst_mac,
            MatchMac::Src => src_mac == meta_packet.lookup_key.src_mac,
            MatchMac::All => dst_mac == meta_packet.lookup_key.dst_mac && src_mac
                == meta_packet.lookup_key.src_mac,
            MatchMac::Ignore => true,
        }
    }

    fn endpoint_match_with_direction(
        peer_src: &FlowMetricsPeer,
        peer_dst: &FlowMetricsPeer,
        meta_packet: &MetaPacket,
        direction: PacketDirection,
    ) -> (r: bool)
        ensures
            r == spec_endpoint_match_with_direction(
                *peer_src,
                *peer_dst,
                *meta_packet,
                direction,
            ),
    {
        if meta_packet.tunnel.is_none() {
            return true;
        }
        let lookup_key = &meta_packet.lookup_key;
        match direction {
            PacketDirection::ClientToServer => {
                lookup_key.l2_end_0 == peer_src.is_l2_end && lookup_key.l2_end_1
                    == peer_dst.is_l2_end
            },
            PacketDirection::ServerToClient => {
                lookup_key.l2_end_0 == peer_dst.is_l2_end && lookup_key.l2_end_1
                    == peer_src.is_l2_end
            },
        }
    }
}

} // verus!
