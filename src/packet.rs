use vstd::prelude::*;
use vstd::slice::slice_subrange;
use vstd::slice::slice_to_vec;

use crate::protocol::protocol_of;
use crate::protocol::Protocol;
use crate::text::ipv4_string;
use crate::text::ipv4_text;
use crate::text::ipv6_string;
use crate::text::ipv6_text;
use crate::text::mac_string;
use crate::text::mac_text;

verus! {

/// Length of the Ethernet header: destination MAC, source MAC, ethertype.
pub const ETHERNET_HEADER_LEN: usize = 14;

/// An IP address as it was read from a frame, in network byte order.
#[derive(Clone, Debug)]
pub enum IpAddress {
    V4(Vec<u8>),
    V6(Vec<u8>),
}

/// Text form of an address given by its bytes: dotted decimal for four bytes, the IPv6
/// form otherwise.
pub open spec fn ip_text(b: Seq<u8>) -> Seq<char> {
    if b.len() == 4 {
        ipv4_text(b)
    } else {
        ipv6_text(b)
    }
}

impl IpAddress {
    /// The address bytes.
    pub open spec fn bytes(&self) -> Seq<u8> {
        match self {
            IpAddress::V4(b) => b@,
            IpAddress::V6(b) => b@,
        }
    }

    /// Four bytes for IPv4, sixteen for IPv6.
    pub open spec fn wf(&self) -> bool {
        match self {
            IpAddress::V4(b) => b@.len() == 4,
            IpAddress::V6(b) => b@.len() == 16,
        }
    }

    /// The usual text form of the address (`10.0.0.1`, `fe80::1`).
    pub fn to_text(&self) -> (r: String)
        requires
            self.wf(),
        ensures
            r@ == ip_text(self.bytes()),
    {
        match self {
            IpAddress::V4(b) => ipv4_string(b.as_slice()),
            IpAddress::V6(b) => ipv6_string(b.as_slice()),
        }
    }
}

/// What a frame's header says, as plain values.
pub ghost struct PacketView {
    pub protocol: Protocol,
    pub src_mac: Seq<u8>,
    pub dst_mac: Seq<u8>,
    pub src_ip: Option<Seq<u8>>,
    pub dst_ip: Option<Seq<u8>>,
    pub src_port: Option<u16>,
    pub dst_port: Option<u16>,
    pub len: u32,
}

/// Addressing and size of one decoded frame.
#[derive(Clone, Debug)]
pub struct PacketInfo {
    pub protocol: Protocol,
    pub src_mac: Vec<u8>,
    pub dst_mac: Vec<u8>,
    pub src_ip: Option<IpAddress>,
    pub dst_ip: Option<IpAddress>,
    pub src_port: Option<u16>,
    pub dst_port: Option<u16>,
    pub len: u32,
}

/// The bytes of an optional address.
pub open spec fn opt_ip_bytes(a: Option<IpAddress>) -> Option<Seq<u8>> {
    match a {
        Some(ip) => Some(ip.bytes()),
        None => None,
    }
}

impl View for PacketInfo {
    type V = PacketView;

    open spec fn view(&self) -> PacketView {
        PacketView {
            protocol: self.protocol,
            src_mac: self.src_mac@,
            dst_mac: self.dst_mac@,
            src_ip: opt_ip_bytes(self.src_ip),
            dst_ip: opt_ip_bytes(self.dst_ip),
            src_port: self.src_port,
            dst_port: self.dst_port,
            len: self.len,
        }
    }
}

/// A big-endian 16-bit value at `at`.
pub open spec fn be16(f: Seq<u8>, at: int) -> u16 {
    (f[at] as int * 256 + f[at + 1] as int) as u16
}

/// Decoding of an IP frame whose L4 number is at `proto_at`, addresses of `ip_len` bytes
/// start at `ip_at`, and ports (TCP and UDP only) at `ip_at + 2 * ip_len`.
pub open spec fn decode_ip(f: Seq<u8>, proto_at: int, ip_at: int, ip_len: int, len: u32) -> Option<
    PacketView,
> {
    let ports_at = ip_at + 2 * ip_len;
    if f.len() < ports_at {
        None
    } else {
        match protocol_of(f[proto_at]) {
            None => None,
            Some(p) => {
                let with_ports = p == Protocol::Tcp || p == Protocol::Udp;
                if with_ports && f.len() < ports_at + 4 {
                    None
                } else {
                    Some(
                        PacketView {
                            protocol: p,
                            src_mac: f.subrange(6, 12),
                            dst_mac: f.subrange(0, 6),
                            src_ip: Some(f.subrange(ip_at, ip_at + ip_len)),
                            dst_ip: Some(f.subrange(ip_at + ip_len, ports_at)),
                            src_port: if with_ports { Some(be16(f, ports_at)) } else { None },
                            dst_port: if with_ports { Some(be16(f, ports_at + 2)) } else { None },
                            len,
                        },
                    )
                }
            },
        }
    }
}

/// What a frame decodes to, read at fixed offsets: `None` for a frame shorter than an
/// Ethernet header, an ethertype other than IPv4, IPv6 and ARP, a frame too short for
/// the fields of its branch, or an unknown L4 number. An IPv4 frame reports its whole
/// length, an IPv6 frame its length past the IPv6 header, an ARP frame none.
pub open spec fn decode(f: Seq<u8>) -> Option<PacketView> {
    if f.len() < 14 {
        None
    } else if f[12] == 0x08 && f[13] == 0x00 {
        decode_ip(f, 23, 26, 4, f.len() as u32)
    } else if f[12] == 0x86 && f[13] == 0xdd {
        decode_ip(f, 20, 22, 16, (f.len() - 54) as u32)
    } else if f[12] == 0x08 && f[13] == 0x06 {
        Some(
            PacketView {
                protocol: Protocol::Arp,
                src_mac: f.subrange(6, 12),
                dst_mac: f.subrange(0, 6),
                src_ip: None,
                dst_ip: None,
                src_port: None,
                dst_port: None,
                len: 0,
            },
        )
    } else {
        None
    }
}

/// Copies `f[lo..hi]`.
fn copy_range(f: &[u8], lo: usize, hi: usize) -> (r: Vec<u8>)
    requires
        lo <= hi <= f@.len(),
    ensures
        r@ == f@.subrange(lo as int, hi as int),
{
    slice_to_vec(slice_subrange(f, lo, hi))
}

/// Reads a big-endian 16-bit value at `at`.
fn read_be16(f: &[u8], at: usize) -> (r: u16)
    requires
        at + 2 <= f@.len(),
    ensures
        r == be16(f@, at as int),
{
    let hi = f[at] as u16;
    let lo = f[at + 1] as u16;
    hi * 256 + lo
}

/// The IPv4 and IPv6 branches of `PacketInfo::from`.
fn decode_ip_frame(f: &[u8], proto_at: usize, ip_at: usize, ip_len: usize, len: u32) -> (r: Option<
    PacketInfo,
>)
    requires
        f@.len() >= 14,
        proto_at < ip_at,
        ip_len == 4 || ip_len == 16,
        ip_at + 2 * ip_len + 4 <= usize::MAX,
    ensures
        match r {
            Some(p) => decode_ip(f@, proto_at as int, ip_at as int, ip_len as int, len) == Some(p@)
                && p.wf(),
            None => decode_ip(f@, proto_at as int, ip_at as int, ip_len as int, len) is None,
        },
{
    let ports_at = ip_at + 2 * ip_len;
    if f.len() < ports_at {
        return None;
    }
    let p = match Protocol::from(f[proto_at]) {
        Some(p) => p,
        None => return None,
    };
    let with_ports = p.has_ports();
    if with_ports && f.len() < ports_at + 4 {
        return None;
    }
    let (src_port, dst_port) = if with_ports {
        (Some(read_be16(f, ports_at)), Some(read_be16(f, ports_at + 2)))
    } else {
        (None, None)
    };
    let src = copy_range(f, ip_at, ip_at + ip_len);
    let dst = copy_range(f, ip_at + ip_len, ports_at);
    let (src_ip, dst_ip) = if ip_len == 4 {
        (IpAddress::V4(src), IpAddress::V4(dst))
    } else {
        (IpAddress::V6(src), IpAddress::V6(dst))
    };
    let info = PacketInfo {
        protocol: p,
        src_mac: copy_range(f, 6, 12),
        dst_mac: copy_range(f, 0, 6),
        src_ip: Some(src_ip),
        dst_ip: Some(dst_ip),
        src_port,
        dst_port,
        len,
    };
    assert(info@ == decode_ip(f@, proto_at as int, ip_at as int, ip_len as int, len)->0);
    Some(info)
}

impl PacketInfo {
    /// Six-byte MAC addresses and well-formed IP addresses.
    pub open spec fn wf(&self) -> bool {
        &&& self.src_mac@.len() == 6
        &&& self.dst_mac@.len() == 6
        &&& (self.src_ip matches Some(a) ==> a.wf())
        &&& (self.dst_ip matches Some(a) ==> a.wf())
    }

    /// Decodes a raw Ethernet frame at the fixed offsets of its branch; `None` where the
    /// frame cannot be decoded.
    pub fn from(packet: &[u8]) -> (r: Option<PacketInfo>)
        ensures
            match r {
                Some(p) => decode(packet@) == Some(p@) && p.wf(),
                None => decode(packet@) is None,
            },
    {
        if packet.len() < ETHERNET_HEADER_LEN {
            return None;
        }
        let hi = packet[12];
        let lo = packet[13];
        if hi == 0x08 && lo == 0x00 {
            decode_ip_frame(packet, 23, 26, 4, packet.len() as u32)
        } else if hi == 0x86 && lo == 0xdd {
            if packet.len() < 54 {
                return None;
            }
            decode_ip_frame(packet, 20, 22, 16, (packet.len() - 54) as u32)
        } else if hi == 0x08 && lo == 0x06 {
            let info = PacketInfo {
                protocol: Protocol::Arp,
                src_mac: copy_range(packet, 6, 12),
                dst_mac: copy_range(packet, 0, 6),
                src_ip: None,
                dst_ip: None,
                src_port: None,
                dst_port: None,
                len: 0,
            };
            assert(info@ == decode(packet@)->0);
            Some(info)
        } else {
            None
        }
    }

    /// The host part of one side: its IP address where there is one, else its MAC address.
    pub fn host_text(ip: &Option<IpAddress>, mac: &Vec<u8>) -> (r: String)
        requires
            ip matches Some(a) ==> a.wf(),
        ensures
            r@ == match ip {
                Some(a) => ip_text(a.bytes()),
                None => mac_text(mac@),
            },
    {
        match ip {
            Some(a) => a.to_text(),
            None => mac_string(mac.as_slice()),
        }
    }
}

/// An IPv4 frame of at least 38 bytes whose L4 number is a known one decodes, and its
/// addresses are bytes 26..30 and 30..34.
pub proof fn lemma_ipv4_addresses(f: Seq<u8>)
    requires
        f.len() >= 38,
        f[12] == 0x08,
        f[13] == 0x00,
        protocol_of(f[23]) is Some,
    ensures
        decode(f) is Some,
        decode(f)->0.src_ip == Some(f.subrange(26, 30)),
        decode(f)->0.dst_ip == Some(f.subrange(30, 34)),
{
}

/// A frame with the ARP ethertype decodes as ARP, with no address or port of a higher
/// layer, whatever its other bytes are.
pub proof fn lemma_arp_frame(f: Seq<u8>)
    requires
        f.len() >= 14,
        f[12] == 0x08,
        f[13] == 0x06,
    ensures
        decode(f) is Some,
        decode(f)->0.protocol == Protocol::Arp,
        decode(f)->0.src_ip is None,
        decode(f)->0.dst_ip is None,
        decode(f)->0.src_port is None,
        decode(f)->0.dst_port is None,
{
}

/// A frame shorter than an Ethernet header does not decode.
pub proof fn lemma_short_frame(f: Seq<u8>)
    requires
        f.len() < 14,
    ensures
        decode(f) is None,
{
}

} // verus!
