use vstd::prelude::*;

use crate::spec_jenkins64;
use crate::jenkins64;
use crate::types::EthernetType;
use crate::types::IpAddress;
use crate::types::LookupKey;
use crate::types::TapPort;

verus! {

/// Identifier of a flow in the node map, computed by hashing a
/// direction-symmetric canonicalization of the packet tuple. Distinct flows
/// may collide on it; `FlowNode::match_node` disambiguates.
#[derive(Clone, Copy, Debug, PartialEq, Eq, Structural, PartialOrd, Ord, Hash)]
pub struct FlowMapKey {
    pub key: u64,
}

/// Direction-symmetric hash of the network-layer addresses: the two sides
/// are folded to 32-bit lanes and packed with the larger lane high.
pub open spec fn spec_l3_hash(src_ip: IpAddress, dst_ip: IpAddress) -> u64 {
    match (src_ip, dst_ip) {
        (IpAddress::V4(s), IpAddress::V4(d)) => if s >= d {
            ((s as u64) << 32) | (d as u64)
        } else {
            ((d as u64) << 32) | (s as u64)
        },
        (IpAddress::V6(s0, s1, s2, s3), IpAddress::V6(d0, d1, d2, d3)) => {
            let h1 = s0 ^ s1 ^ s2 ^ s3;
            let h2 = d0 ^ d1 ^ d2 ^ d3;
            if h1 >= h2 {
                ((h1 as u64) << 32) | (h2 as u64)
            } else {
                ((h2 as u64) << 32) | (h1 as u64)
            }
        },
        _ => 0,
    }
}

/// Direction-symmetric hash of the transport ports: larger port in the
/// high lane.
pub open spec fn spec_l4_hash(src_port: u16, dst_port: u16) -> u64 {
    if src_port >= dst_port {
        ((src_port as u64) << 16) | (dst_port as u64)
    } else {
        ((dst_port as u64) << 16) | (src_port as u64)
    }
}

/// Whether the two addresses belong to the same family, so that the
/// network-layer hash is defined on them.
pub open spec fn spec_same_family(src_ip: IpAddress, dst_ip: IpAddress) -> bool {
    match (src_ip, dst_ip) {
        (IpAddress::V4(_), IpAddress::V4(_)) => true,
        (IpAddress::V6(_, _, _, _), IpAddress::V6(_, _, _, _)) => true,
        _ => false,
    }
}

/// The flow map key of a packet tuple: an XOR of the scrambled
/// network-layer half and the scrambled transport half, with the ether
/// type dictating which fields participate.
pub open spec fn spec_flow_map_key(k: LookupKey, tap_port: u64) -> u64 {
    match k.eth_type {
        EthernetType::Ipv4 | EthernetType::Ipv6 => {
            let lhs = spec_l3_hash(k.src_ip, k.dst_ip);
            let rhs = ((((k.tap_type.spec_value() as u64) << 24) | tap_port) << 32)
                | spec_l4_hash(k.src_port, k.dst_port);
            spec_jenkins64(lhs) ^ spec_jenkins64(rhs)
        },
        EthernetType::Arp => {
            let lhs = spec_l3_hash(k.src_ip, k.dst_ip);
            let rhs = ((((k.tap_type.spec_value() as u64) << 24) | tap_port) << 32) | (
            k.src_mac.addr ^ k.dst_mac.addr);
            spec_jenkins64(lhs) ^ spec_jenkins64(rhs)
        },
        _ => {
            let lhs = ((k.tap_type.spec_value() as u64) << 24) | tap_port;
            let rhs = k.src_mac.addr ^ k.dst_mac.addr;
            spec_jenkins64(lhs) ^ spec_jenkins64(rhs)
        },
    }
}

impl FlowMapKey {
    fn l3_hash(lookup_key: &LookupKey) -> (r: u64)
        requires
            spec_same_family(lookup_key.src_ip, lookup_key.dst_ip),
        ensures
            r == spec_l3_hash(lookup_key.src_ip, lookup_key.dst_ip),
    {
        match (lookup_key.src_ip, lookup_key.dst_ip) {
            (IpAddress::V4(s), IpAddress::V4(d)) => {
                if s >= d {
                    ((s as u64) << 32) | (d as u64)
                } else {
                    ((d as u64) << 32) | (s as u64)
                }
            },
            (IpAddress::V6(s0, s1, s2, s3), IpAddress::V6(d0, d1, d2, d3)) => {
                let h1 = s0 ^ s1 ^ s2 ^ s3;
                let h2 = d0 ^ d1 ^ d2 ^ d3;
                if h1 >= h2 {
                    ((h1 as u64) << 32) | (h2 as u64)
                } else {
                    ((h2 as u64) << 32) | (h1 as u64)
                }
            },
            _ => 0,
        }
    }

    fn l4_hash(lookup_key: &LookupKey) -> (r: u64)
        ensures
            r == spec_l4_hash(lookup_key.src_port, lookup_key.dst_port),
    {
        if lookup_key.src_port >= lookup_key.dst_port {
            ((lookup_key.src_port as u64) << 16) | (lookup_key.dst_port as u64)
        } else {
            ((lookup_key.dst_port as u64) << 16) | (lookup_key.src_port as u64)
        }
    }

    /// Computes the map key of a packet. The network-layer hash needs both
    /// addresses in one family whenever the ether type makes them
    /// participate.
    pub fn new(lookup_key: &LookupKey, tap_port: TapPort) -> (r: Self)
        requires
            lookup_key.eth_type == EthernetType::Ipv4 || lookup_key.eth_type
                == EthernetType::Ipv6 || lookup_key.eth_type == EthernetType::Arp
                ==> spec_same_family(lookup_key.src_ip, lookup_key.dst_ip),
        ensures
            r.key == spec_flow_map_key(*lookup_key, tap_port.port),
    {
        match lookup_key.eth_type {
            EthernetType::Ipv4 | EthernetType::Ipv6 => {
                let lhs = Self::l3_hash(lookup_key);
                let rhs = (((lookup_key.tap_type.value() as u64) << 24 | tap_port.port) << 32)
                    | Self::l4_hash(lookup_key);
                FlowMapKey { key: jenkins64(lhs) ^ jenkins64(rhs) }
            },
            EthernetType::Arp => {
                let lhs = Self::l3_hash(lookup_key);
                let rhs = (((lookup_key.tap_type.value() as u64) << 24 | tap_port.port) << 32) | (
                lookup_key.src_mac.addr ^ lookup_key.dst_mac.addr);
                FlowMapKey { key: jenkins64(lhs) ^ jenkins64(rhs) }
            },
            _ => {
                let lhs = (lookup_key.tap_type.value() as u64) << 24 | tap_port.port;
                let rhs = lookup_key.src_mac.addr ^ lookup_key.dst_mac.addr;
                FlowMapKey { key: jenkins64(lhs) ^ jenkins64(rhs) }
            },
        }
    }
}

/// The same tuple with the two endpoints exchanged: addresses, ports,
/// hardware addresses and the endpoint flags all swap sides.
pub open spec fn spec_swap_direction(k: LookupKey) -> LookupKey {
    LookupKey {
        src_mac: k.dst_mac,
        dst_mac: k.src_mac,
        src_ip: k.dst_ip,
        dst_ip: k.src_ip,
        src_port: k.dst_port,
        dst_port: k.src_port,
        l2_end_0: k.l2_end_1,
        l2_end_1: k.l2_end_0,
        ..k
    }
}

/// A packet and its reply land on the same flow map key: swapping the two
/// endpoints of the tuple leaves the key unchanged, whatever the ether
/// type.
pub proof fn lemma_flow_map_key_symmetric(k: LookupKey, tap_port: u64)
    ensures
        spec_flow_map_key(spec_swap_direction(k), tap_port) == spec_flow_map_key(k, tap_port),
{
    let s = spec_swap_direction(k);
    assert(spec_l3_hash(s.src_ip, s.dst_ip) == spec_l3_hash(k.src_ip, k.dst_ip)) by {
        match (k.src_ip, k.dst_ip) {
            (IpAddress::V4(a), IpAddress::V4(b)) => {
                if a == b {
                    assert(a >= b && b >= a);
                }
            },
            (IpAddress::V6(s0, s1, s2, s3), IpAddress::V6(d0, d1, d2, d3)) => {
            },
            _ => {},
        }
    }
    assert(spec_l4_hash(s.src_port, s.dst_port) == spec_l4_hash(k.src_port, k.dst_port)) by {
        if k.src_port == k.dst_port {
            assert(k.src_port >= k.dst_port && k.dst_port >= k.src_port);
        }
    }
    let ma = k.src_mac.addr;
    let mb = k.dst_mac.addr;
    assert(ma ^ mb == mb ^ ma) by (bit_vector);
}


/// For IP traffic the hardware addresses do not participate in the key:
/// exchanging only the network-layer addresses and the ports — as a reply
/// does — already reproduces the key.
pub proof fn lemma_l3_l4_swap_same_key(k: LookupKey, tap_port: u64)
    requires
        k.eth_type == EthernetType::Ipv4 || k.eth_type == EthernetType::Ipv6,
    ensures
        spec_flow_map_key(
            LookupKey {
                src_ip: k.dst_ip,
                dst_ip: k.src_ip,
                src_port: k.dst_port,
                dst_port: k.src_port,
                ..k
            },
            tap_port,
        ) == spec_flow_map_key(k, tap_port),
{
    let s = LookupKey {
        src_ip: k.dst_ip,
        dst_ip: k.src_ip,
        src_port: k.dst_port,
        dst_port: k.src_port,
        ..k
    };
    assert(spec_l3_hash(s.src_ip, s.dst_ip) == spec_l3_hash(k.src_ip, k.dst_ip)) by {
        match (k.src_ip, k.dst_ip) {
            (IpAddress::V4(a), IpAddress::V4(b)) => {
                if a == b {
                    assert(a >= b && b >= a);
                }
            },
            (IpAddress::V6(s0, s1, s2, s3), IpAddress::V6(d0, d1, d2, d3)) => {
            },
            _ => {},
        }
    }
    assert(spec_l4_hash(s.src_port, s.dst_port) == spec_l4_hash(k.src_port, k.dst_port)) by {
        if k.src_port == k.dst_port {
            assert(k.src_port >= k.dst_port && k.dst_port >= k.src_port);
        }
    }
}

/// Index of a flow node in the time-ordered eviction set: the flush
/// deadline in nanoseconds, tie-broken by the map key.
#[derive(Debug, Clone, Copy, PartialEq, Eq, Structural, PartialOrd, Ord)]
pub struct FlowTimeKey {
    pub timestamp_key: u64,
    pub map_key: FlowMapKey,
}

impl FlowTimeKey {
    pub fn new(timestamp_nanos: u64, map_key: FlowMapKey) -> (r: Self)
        ensures
            r.timestamp_key == timestamp_nanos,
            r.map_key == map_key,
    {
        Self { timestamp_key: timestamp_nanos, map_key }
    }

    pub fn reset_timestamp_key(&mut self, timestamp: u64)
        ensures
            final(self).timestamp_key == timestamp,
            final(self).map_key == old(self).map_key,
    {
        self.timestamp_key = timestamp;
    }
}

} // verus!
