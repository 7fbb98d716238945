use vstd::prelude::*;

verus! {

/// A 48-bit hardware address held in the low bits of a word.
#[derive(Clone, Copy, Debug, PartialEq, Eq, Structural)]
pub struct MacAddr {
    pub addr: u64,
}

impl MacAddr {
    /// Folds six octets into one word, first octet highest.
    pub open spec fn spec_from_bytes(b: [u8; 6]) -> u64 {
        ((b[0] as u64) << 40) | ((b[1] as u64) << 32) | ((b[2] as u64) << 24)
            | ((b[3] as u64) << 16) | ((b[4] as u64) << 8) | (b[5] as u64)
    }

    pub fn from_bytes(b: [u8; 6]) -> (r: Self)
        ensures
            r.addr == Self::spec_from_bytes(b),
    {
        MacAddr {
            addr: ((b[0] as u64) << 40) | ((b[1] as u64) << 32) | ((b[2] as u64) << 24)
                | ((b[3] as u64) << 16) | ((b[4] as u64) << 8) | (b[5] as u64),
        }
    }

    pub fn to_u64(&self) -> (r: u64)
        ensures
            r == self.addr,
    {
        self.addr
    }
}

impl Default for MacAddr {
    fn default() -> (r: Self)
        ensures
            r.addr == 0,
    {
        MacAddr { addr: 0 }
    }
}

/// A network-layer address, stored as little-endian 32-bit lanes so that
/// the flow hash can mix it without reading bytes.
#[derive(Clone, Copy, Debug, PartialEq, Eq, Structural)]
pub enum IpAddress {
    V4(u32),
    V6(u32, u32, u32, u32),
}

/// Little-endian read of four bytes starting at `i`.
pub open spec fn spec_le32(b: Seq<u8>, i: int) -> u32
    recommends
        0 <= i,
        i + 4 <= b.len(),
{
    (b[i] as u32) | ((b[i + 1] as u32) << 8) | ((b[i + 2] as u32) << 16) | ((b[i + 3] as u32)
        << 24)
}

impl IpAddress {
    pub fn from_v4_octets(o: [u8; 4]) -> (r: Self)
        ensures
            r == IpAddress::V4(spec_le32(o@, 0)),
    {
        IpAddress::V4(
            (o[0] as u32) | ((o[1] as u32) << 8) | ((o[2] as u32) << 16) | ((o[3] as u32) << 24),
        )
    }

    pub fn from_v6_octets(o: [u8; 16]) -> (r: Self)
        ensures
            r == IpAddress::V6(
                spec_le32(o@, 0),
                spec_le32(o@, 4),
                spec_le32(o@, 8),
                spec_le32(o@, 12),
            ),
    {
        IpAddress::V6(
            (o[0] as u32) | ((o[1] as u32) << 8) | ((o[2] as u32) << 16) | ((o[3] as u32) << 24),
            (o[4] as u32) | ((o[5] as u32) << 8) | ((o[6] as u32) << 16) | ((o[7] as u32) << 24),
            (o[8] as u32) | ((o[9] as u32) << 8) | ((o[10] as u32) << 16) | ((o[11] as u32) << 24),
            (o[12] as u32) | ((o[13] as u32) << 8) | ((o[14] as u32) << 16) | ((o[15] as u32)
                << 24),
        )
    }
}

/// Link-layer frame type of a captured packet.
#[derive(Clone, Copy, Debug, PartialEq, Eq, Structural)]
pub enum EthernetType {
    Ipv4,
    Ipv6,
    Arp,
    Dot1Q,
    Unknown,
}

/// Class of the observation point: an in-rack agent (`Tor`) or a mirrored
/// uplink (`Isp`).
#[derive(Clone, Copy, Debug, PartialEq, Eq, Structural)]
pub enum TapType {
    Any,
    Isp(u8),
    Tor,
}

impl TapType {
    pub open spec fn spec_value(self) -> u16 {
        match self {
            TapType::Any => 0,
            TapType::Isp(v) => v as u16,
            TapType::Tor => 3,
        }
    }

    pub fn value(&self) -> (r: u16)
        ensures
            r == self.spec_value(),
    {
        match self {
            TapType::Any => 0,
            TapType::Isp(v) => *v as u16,
            TapType::Tor => 3,
        }
    }
}

/// Opaque identifier of the observation point; the low 32 bits encode the
/// interface index.
#[derive(Clone, Copy, Debug, PartialEq, Eq, Structural)]
pub struct TapPort {
    pub port: u64,
}

impl TapPort {
    /// Splits into (interface index, source kind, reserved bits).
    pub fn split_fields(&self) -> (r: (u32, u8, u16))
        ensures
            r.0 == self.port & 0xffff_ffff,
            r.1 == (self.port >> 32) & 0xff,
            r.2 == (self.port >> 40) & 0xffff,
    {
        proof {
            let p = self.port;
            assert(p & 0xffff_ffff < 0x1_0000_0000) by (bit_vector);
            assert((p >> 32) & 0xff < 0x100) by (bit_vector);
            assert((p >> 40) & 0xffff < 0x1_0000) by (bit_vector);
        }
        (
            (self.port & 0xffff_ffff) as u32,
            ((self.port >> 32) & 0xff) as u8,
            ((self.port >> 40) & 0xffff) as u16,
        )
    }
}

/// Which way a packet travels within its bidirectional flow.
#[derive(Clone, Copy, Debug, PartialEq, Eq, Structural)]
pub enum PacketDirection {
    ClientToServer,
    ServerToClient,
}

impl Default for PacketDirection {
    fn default() -> (r: Self)
        ensures
            r == PacketDirection::ClientToServer,
    {
        PacketDirection::ClientToServer
    }
}

/// Kind of tunnel encapsulation seen on the outer headers.
#[derive(Clone, Copy, Debug, PartialEq, Eq, Structural)]
pub enum TunnelType {
    NoTunnel,
    Ipip,
    TencentGre,
    VxLan,
}

/// Outer tunnel descriptor carried by a packet.
#[derive(Clone, Copy, Debug, PartialEq, Eq, Structural)]
pub struct TunnelInfo {
    pub tunnel_type: TunnelType,
    pub tier: u8,
}

/// Deployment flavour of the agent; the Hyper-V flavours tolerate
/// asymmetric tunnels.
#[derive(Clone, Copy, Debug, PartialEq, Eq, Structural)]
pub enum TridentType {
    TtProcess,
    TtPublicCloud,
    TtHyperVCompute,
    TtHyperVNetwork,
}

/// Transport protocol of the inner packet.
#[derive(Clone, Copy, Debug, PartialEq, Eq, Structural)]
pub enum IpProtocol {
    Tcp,
    Udp,
    Other,
}

/// The fields of a packet that steer it to a flow.
#[derive(Clone, Copy, Debug)]
pub struct LookupKey {
    pub tap_type: TapType,
    pub src_mac: MacAddr,
    pub dst_mac: MacAddr,
    pub src_ip: IpAddress,
    pub dst_ip: IpAddress,
    pub src_port: u16,
    pub dst_port: u16,
    pub eth_type: EthernetType,
    pub proto: IpProtocol,
    pub l2_end_0: bool,
    pub l2_end_1: bool,
}

/// Application protocol recognised by the layer-7 parsers.
#[derive(Clone, Copy, Debug, PartialEq, Eq, Structural)]
pub enum L7Protocol {
    PostgreSQL,
    Dubbo,
    Unknown,
}

/// Whether a parsed record observes the request or the response side.
#[derive(Clone, Copy, Debug, PartialEq, Eq, Structural)]
pub enum LogMessageType {
    Request,
    Response,
    Session,
    Other,
}

impl Default for LogMessageType {
    fn default() -> (r: Self)
        ensures
            r == LogMessageType::Other,
    {
        LogMessageType::Other
    }
}

/// Outcome classification of a response.
#[derive(Clone, Copy, Debug, PartialEq, Eq, Structural)]
pub enum L7ResponseStatus {
    Success,
    NotExist,
    ServerError,
    ClientError,
}

impl Default for L7ResponseStatus {
    fn default() -> (r: Self)
        ensures
            r == L7ResponseStatus::Success,
    {
        L7ResponseStatus::Success
    }
}

} // verus!
