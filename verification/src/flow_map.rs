use vstd::prelude::*;

use crate::flow_key::FlowMapKey;
use crate::flow_key::FlowTimeKey;
use crate::flow_key::spec_flow_map_key;
use crate::flow_key::spec_same_family;
use crate::flow_node::FlowNode;
use crate::flow_node::MetaPacket;
use crate::flow_node::spec_match_node;
use crate::types::EthernetType;
use crate::types::LookupKey;
use crate::types::TridentType;

verus! {

/// The packet tuple a stored flow was first seen with, in the shape the
/// key computation takes. The endpoint flags do not participate in the
/// key.
pub open spec fn spec_lookup_of_node(n: FlowNode) -> LookupKey {
    LookupKey {
        tap_type: n.tagged_flow.flow.flow_key.tap_type,
        src_mac: n.tagged_flow.flow.flow_key.mac_src,
        dst_mac: n.tagged_flow.flow.flow_key.mac_dst,
        src_ip: n.tagged_flow.flow.flow_key.ip_src,
        dst_ip: n.tagged_flow.flow.flow_key.ip_dst,
        src_port: n.tagged_flow.flow.flow_key.port_src,
        dst_port: n.tagged_flow.flow.flow_key.port_dst,
        eth_type: n.tagged_flow.flow.eth_type,
        proto: n.tagged_flow.flow.flow_key.proto,
        l2_end_0: false,
        l2_end_1: false,
    }
}

/// The map key a stored flow is filed under.
pub open spec fn spec_node_key(n: FlowNode) -> u64 {
    spec_flow_map_key(spec_lookup_of_node(n), n.tagged_flow.flow.flow_key.tap_port.port)
}

/// The container of live flows: each node sits in the key index and, at
/// the same position, in the time-ordered eviction index.
pub struct FlowMap {
    nodes: Vec<FlowNode>,
    time_keys: Vec<FlowTimeKey>,
}

impl FlowMap {
    pub closed spec fn spec_nodes(&self) -> Seq<FlowNode> {
        self.nodes@
    }

    pub closed spec fn spec_time_keys(&self) -> Seq<FlowTimeKey> {
        self.time_keys@
    }

    /// The indexing invariant: every node is filed, at one position, both
    /// under the map key of its own flow tuple and in the time index at
    /// its scheduling timestamp — and nothing else is (no orphans in
    /// either index).
    pub open spec fn well_formed(&self) -> bool {
        &&& self.spec_time_keys().len() == self.spec_nodes().len()
        &&& forall|i: int|
            0 <= i < self.spec_nodes().len() ==> (#[trigger] self.spec_time_keys()[i]).map_key.key
                == spec_node_key(self.spec_nodes()[i]) && self.spec_time_keys()[i].timestamp_key
                == self.spec_nodes()[i].timestamp_key
    }

    /// Every node of a well-formed map is reachable through both indexes
    /// at one position, and both indexes hold exactly the map's nodes.
    pub proof fn lemma_no_orphans(&self)
        requires
            self.well_formed(),
        ensures
            self.spec_time_keys().len() == self.spec_nodes().len(),
            forall|i: int|
                0 <= i < self.spec_nodes().len() ==> (
                #[trigger] self.spec_time_keys()[i]).map_key.key == spec_node_key(
                    self.spec_nodes()[i],
                ) && self.spec_time_keys()[i].timestamp_key
                    == self.spec_nodes()[i].timestamp_key,
    {
    }

    pub fn new() -> (r: Self)
        ensures
            r.well_formed(),
            r.spec_nodes() == Seq::<FlowNode>::empty(),
            r.spec_time_keys() == Seq::<FlowTimeKey>::empty(),
    {
        FlowMap { nodes: Vec::new(), time_keys: Vec::new() }
    }

    pub fn len(&self) -> (r: usize)
        ensures
            r == self.spec_nodes().len(),
    {
        self.nodes.len()
    }

    /// Reads the node at a position.
    pub fn node_at(&self, i: usize) -> (r: &FlowNode)
        requires
            i < self.spec_nodes().len(),
        ensures
            *r == self.spec_nodes()[i as int],
    {
        &self.nodes[i]
    }

    /// Files a new flow under the key of its own tuple, and in the time
    /// index at its scheduling timestamp.
    pub fn insert(&mut self, node: FlowNode) -> (r: usize)
        requires
            old(self).well_formed(),
            node.tagged_flow.flow.eth_type == EthernetType::Ipv4
                || node.tagged_flow.flow.eth_type == EthernetType::Ipv6
                || node.tagged_flow.flow.eth_type == EthernetType::Arp ==> spec_same_family(
                node.tagged_flow.flow.flow_key.ip_src,
                node.tagged_flow.flow.flow_key.ip_dst,
            ),
        ensures
            final(self).well_formed(),
            final(self).spec_nodes() == old(self).spec_nodes().push(node),
            final(self).spec_time_keys() == old(self).spec_time_keys().push(
                FlowTimeKey {
                    timestamp_key: node.timestamp_key,
                    map_key: FlowMapKey { key: spec_node_key(node) },
                },
            ),
            r == old(self).spec_nodes().len(),
    {
        let lookup_key = LookupKey {
            tap_type: node.tagged_flow.flow.flow_key.tap_type,
            src_mac: node.tagged_flow.flow.flow_key.mac_src,
            dst_mac: node.tagged_flow.flow.flow_key.mac_dst,
            src_ip: node.tagged_flow.flow.flow_key.ip_src,
            dst_ip: node.tagged_flow.flow.flow_key.ip_dst,
            src_port: node.tagged_flow.flow.flow_key.port_src,
            dst_port: node.tagged_flow.flow.flow_key.port_dst,
            eth_type: node.tagged_flow.flow.eth_type,
            proto: node.tagged_flow.flow.flow_key.proto,
            l2_end_0: false,
            l2_end_1: false,
        };
        let map_key = FlowMapKey::new(&lookup_key, node.tagged_flow.flow.flow_key.tap_port);
        let time_key = FlowTimeKey::new(node.timestamp_key, map_key);
        let r = self.nodes.len();
        self.nodes.push(node);
        self.time_keys.push(time_key);
        r
    }

    /// Moves a flow to a new position in the time index, keeping both
    /// indexes aligned: the node's scheduling timestamp and its time key
    /// change together.
    pub fn reset_node_time(&mut self, i: usize, timestamp: u64)
        requires
            old(self).well_formed(),
            i < old(self).spec_nodes().len(),
        ensures
            final(self).well_formed(),
            final(self).spec_nodes() == old(self).spec_nodes().update(
                i as int,
                FlowNode { timestamp_key: timestamp, ..old(self).spec_nodes()[i as int] },
            ),
            final(self).spec_time_keys() == old(self).spec_time_keys().update(
                i as int,
                FlowTimeKey {
                    timestamp_key: timestamp,
                    ..old(self).spec_time_keys()[i as int]
                },
            ),
    {
        let node_ref = &mut self.nodes[i];
        node_ref.timestamp_key = timestamp;
        let tk = &mut self.time_keys[i];
        tk.reset_timestamp_key(timestamp);
        proof {
            assert(self.nodes@ =~= old(self).nodes@.update(
                i as int,
                FlowNode { timestamp_key: timestamp, ..old(self).nodes@[i as int] },
            ));
            assert(self.time_keys@ =~= old(self).time_keys@.update(
                i as int,
                FlowTimeKey { timestamp_key: timestamp, ..old(self).time_keys@[i as int] },
            ));
        }
    }

    /// Unfiles and returns the first flow whose flush deadline has passed,
    /// if any; both indexes stay aligned.
    pub fn pop_expired(&mut self, deadline: u64) -> (r: Option<FlowNode>)
        requires
            old(self).well_formed(),
        ensures
            final(self).well_formed(),
            match r {
                Some(node) => exists|i: int|
                    0 <= i < old(self).spec_nodes().len() && node == old(self).spec_nodes()[i]
                        && node.timestamp_key <= deadline && final(self).spec_nodes() == old(
                        self,
                    ).spec_nodes().remove(i) && final(self).spec_time_keys() == old(
                        self,
                    ).spec_time_keys().remove(i),
                None => *final(self) == *old(self) && forall|i: int|
                    0 <= i < old(self).spec_nodes().len() ==> (#[trigger] old(
                        self,
                    ).spec_nodes()[i]).timestamp_key > deadline,
            },
    {
        let n = self.time_keys.len();
        let mut i: usize = 0;
        while i < n
            invariant
                i <= n,
                n == self.spec_time_keys().len(),
                self.well_formed(),
                *self == *old(self),
                forall|j: int|
                    0 <= j < i ==> (#[trigger] self.spec_nodes()[j]).timestamp_key > deadline,
            decreases n - i,
        {
            if self.time_keys[i].timestamp_key <= deadline {
                let _tk = self.time_keys.remove(i);
                let node = self.nodes.remove(i);
                proof {
                    let ghost m = self.nodes@.len() as int;
                    assert forall|j: int|
                        0 <= j < self.nodes@.len() implies (
                    #[trigger] self.time_keys@[j]).map_key.key == spec_node_key(self.nodes@[j])
                        && self.time_keys@[j].timestamp_key == self.nodes@[j].timestamp_key by {
                        if j < i as int {
                            assert(self.nodes@[j] == old(self).nodes@[j]);
                            assert(self.time_keys@[j] == old(self).time_keys@[j]);
                        } else {
                            assert(self.nodes@[j] == old(self).nodes@[j + 1]);
                            assert(self.time_keys@[j] == old(self).time_keys@[j + 1]);
                        }
                    }
                }
                return Some(node);
            }
            i = i + 1;
        }
        None
    }

    /// Finds the flow that the packet belongs to among those filed under
    /// its map key, assigning the packet's direction as the matcher
    /// decides. Other than its direction, the packet is left unchanged;
    /// `None` means no filed flow with that key accepts the packet, and a
    /// new node is to be created.
    pub fn lookup(
        &self,
        key: FlowMapKey,
        pkt: &mut MetaPacket,
        config_ignore: (bool, bool),
        trident_type: TridentType,
    ) -> (r: Option<usize>)
        requires
            self.well_formed(),
        ensures
            match r {
                Some(i) => {
                    &&& i < self.spec_nodes().len()
                    &&& spec_match_node(
                        self.spec_nodes()[i as int].tagged_flow.flow,
                        *old(pkt),
                        config_ignore,
                        trident_type,
                    ).0
                    &&& *final(pkt) == (MetaPacket {
                        direction: spec_match_node(
                            self.spec_nodes()[i as int].tagged_flow.flow,
                            *old(pkt),
                            config_ignore,
                            trident_type,
                        ).1,
                        ..*old(pkt)
                    })
                },
                None => {
                    &&& forall|j: int|
                        0 <= j < self.spec_nodes().len() && (#[trigger] self.spec_time_keys()[j]).map_key
                            == key ==> !spec_match_node(
                            self.spec_nodes()[j].tagged_flow.flow,
                            *old(pkt),
                            config_ignore,
                            trident_type,
                        ).0
                    &&& *final(pkt) == (MetaPacket {
                        direction: final(pkt).direction,
                        ..*old(pkt)
                    })
                },
            },
    {
        let n = self.nodes.len();
        let mut i: usize = 0;
        while i < n
            invariant
                i <= n,
                n == self.spec_nodes().len(),
                self.spec_time_keys().len() == self.spec_nodes().len(),
                forall|j: int|
                    0 <= j < i && (#[trigger] self.spec_time_keys()[j]).map_key == key
                        ==> !spec_match_node(
                        self.spec_nodes()[j].tagged_flow.flow,
                        *old(pkt),
                        config_ignore,
                        trident_type,
                    ).0,
                *pkt == (MetaPacket { direction: pkt.direction, ..*old(pkt) }),
            decreases n - i,
        {
            if self.time_keys[i].map_key.key == key.key {
                let ghost pkt_pre = *pkt;
                let matched = self.nodes[i].match_node(pkt, config_ignore, trident_type);
                proof {
                    let flow = self.spec_nodes()[i as int].tagged_flow.flow;
                    assert(spec_match_node(flow, pkt_pre, config_ignore, trident_type).0
                        == spec_match_node(flow, *old(pkt), config_ignore, trident_type).0);
                    if spec_match_node(flow, pkt_pre, config_ignore, trident_type).0 {
                        assert(spec_match_node(flow, pkt_pre, config_ignore, trident_type).1
                            == spec_match_node(flow, *old(pkt), config_ignore, trident_type).1);
                    }
                }
                if matched {
                    return Some(i);
                }
                proof {
                    assert(self.spec_time_keys()[i as int].map_key == key);
                }
            }
            i = i + 1;
        }
        None
    }
}

} // verus!
