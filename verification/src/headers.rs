//! Fixed protocol header layouts: field offsets, byte-order arithmetic and
//! parsed header views for Ethernet, IPv4, TCP and UDP.
//!
//! Every multi-byte field of these protocols is stored in network byte order
//! (big endian); the parsed views hold each field already converted to a
//! plain host value, so that no caller ever deals with raw byte order.

use vstd::prelude::*;

verus! {

/// Size in bytes of an Ethernet header: two 6-byte MAC addresses and a
/// 16-bit EtherType.
pub const ETH_HLEN: usize = 14;

/// EtherType identifying an IPv4 payload.
pub const ETH_P_IP: u16 = 0x0800;

/// Size in bytes of an IPv4 header without options.
pub const IP_HLEN: usize = 20;

/// IP protocol number of TCP.
pub const IPPROTO_TCP: u8 = 6;

/// IP protocol number of UDP.
pub const IPPROTO_UDP: u8 = 17;

/// Size in bytes of a TCP header without options.
pub const TCP_HLEN: usize = 20;

/// Size in bytes of a UDP header.
pub const UDP_HLEN: usize = 8;

/// The value of a 16-bit big-endian field whose bytes are `hi`, `lo`.
pub open spec fn be16(hi: u8, lo: u8) -> int {
    hi * 256 + lo
}

/// The value of a 32-bit big-endian field whose bytes are `b0` (most
/// significant) through `b3`.
pub open spec fn be32(b0: u8, b1: u8, b2: u8, b3: u8) -> int {
    ((b0 * 256 + b1) * 256 + b2) * 256 + b3
}

/// Reads the 16-bit big-endian field at byte offset `i` of `buf`.
pub fn read_be16(buf: &Vec<u8>, i: usize) -> (r: u16)
    requires
        i + 2 <= buf.len(),
    ensures
        r == be16(buf@[i as int], buf@[i + 1]),
{
    (buf[i] as u16) * 256 + (buf[i + 1] as u16)
}

/// Reads the 32-bit big-endian field at byte offset `i` of `buf`.
pub fn read_be32(buf: &Vec<u8>, i: usize) -> (r: u32)
    requires
        i + 4 <= buf.len(),
    ensures
        r == be32(buf@[i as int], buf@[i + 1], buf@[i + 2], buf@[i + 3]),
{
    ((buf[i] as u32) * 256 + (buf[i + 1] as u32)) * 256 * 256 + (buf[i + 2] as u32) * 256
        + (buf[i + 3] as u32)
}

/// A parsed Ethernet header: destination and source MAC addresses and the
/// EtherType, the latter converted to a host value.
#[derive(Clone, Copy, Debug, PartialEq, Eq)]
pub struct EthHdr {
    pub h_dest: [u8; 6],
    pub h_source: [u8; 6],
    pub h_proto: u16,
}

/// A parsed IPv4 header, every field converted to a host value. `ihl` counts
/// 32-bit words, so the header occupies `ihl * 4` bytes in the packet.
#[derive(Clone, Copy, Debug, PartialEq, Eq, Structural)]
pub struct IpHdr {
    pub version: u8,
    pub ihl: u8,
    pub tos: u8,
    pub tot_len: u16,
    pub id: u16,
    pub frag_off: u16,
    pub ttl: u8,
    pub protocol: u8,
    pub check: u16,
    pub saddr: u32,
    pub daddr: u32,
}

/// A parsed TCP header, every field converted to a host value. `doff` counts
/// 32-bit words including options; `flags` is the raw flag byte.
#[derive(Clone, Copy, Debug, PartialEq, Eq, Structural)]
pub struct TcpHdr {
    pub source: u16,
    pub dest: u16,
    pub seq: u32,
    pub ack_seq: u32,
    pub doff: u8,
    pub flags: u8,
    pub window: u16,
    pub check: u16,
    pub urg_ptr: u16,
}

/// A parsed UDP header, every field converted to a host value.
#[derive(Clone, Copy, Debug, PartialEq, Eq, Structural)]
pub struct UdpHdr {
    pub source: u16,
    pub dest: u16,
    pub len: u16,
    pub check: u16,
}

/// An Ethernet header fits at the start of the packet.
pub open spec fn eth_present(pkt: Seq<u8>) -> bool {
    pkt.len() >= ETH_HLEN
}

/// The EtherType field of the Ethernet header.
pub open spec fn spec_eth_proto(pkt: Seq<u8>) -> int {
    be16(pkt[12], pkt[13])
}

/// The frame carries IPv4 and a full fixed-size IPv4 header fits after the
/// Ethernet header.
pub open spec fn ip_present(pkt: Seq<u8>) -> bool {
    &&& eth_present(pkt)
    &&& spec_eth_proto(pkt) == ETH_P_IP
    &&& pkt.len() >= ETH_HLEN + IP_HLEN
}

/// The IHL field of the IPv4 header: its length in 32-bit words.
pub open spec fn spec_ihl(pkt: Seq<u8>) -> u8 {
    pkt[ETH_HLEN as int] & 0x0f
}

/// The protocol field of the IPv4 header.
pub open spec fn spec_ip_proto(pkt: Seq<u8>) -> u8 {
    pkt[ETH_HLEN + 9]
}

/// Byte offset of the transport header: the Ethernet header followed by the
/// real, IHL-derived length of the IP header.
pub open spec fn transport_base(pkt: Seq<u8>) -> int {
    ETH_HLEN + spec_ihl(pkt) * 4
}

/// The IP protocol is TCP or UDP and that protocol's fixed-size header fits
/// between the IHL-derived transport offset and the end of the packet.
pub open spec fn transport_present(pkt: Seq<u8>) -> bool {
    &&& ip_present(pkt)
    &&& {
        ||| spec_ip_proto(pkt) == IPPROTO_TCP && transport_base(pkt) + TCP_HLEN <= pkt.len()
        ||| spec_ip_proto(pkt) == IPPROTO_UDP && transport_base(pkt) + UDP_HLEN <= pkt.len()
    }
}

/// The data-offset field of the TCP header: its length in 32-bit words,
/// including options.
pub open spec fn spec_doff(pkt: Seq<u8>) -> u8 {
    pkt[transport_base(pkt) + 12] >> 4
}

/// Byte offset of the first payload byte: past the fixed transport header,
/// and for TCP also past any options that a data offset above 5 announces.
pub open spec fn payload_base(pkt: Seq<u8>) -> int {
    if spec_ip_proto(pkt) == IPPROTO_TCP {
        transport_base(pkt) + TCP_HLEN + if spec_doff(pkt) > 5 {
            (spec_doff(pkt) - 5) * 4
        } else {
            0
        }
    } else {
        transport_base(pkt) + UDP_HLEN
    }
}

/// The payload cursor exists: a transport header was found and the cursor,
/// options included, still lies within the packet.
pub open spec fn data_present(pkt: Seq<u8>) -> bool {
    transport_present(pkt) && payload_base(pkt) <= pkt.len()
}

/// The IPv4 header view that parsing a packet yields.
pub open spec fn spec_ip_hdr(pkt: Seq<u8>) -> IpHdr {
    IpHdr {
        version: pkt[ETH_HLEN as int] >> 4,
        ihl: spec_ihl(pkt),
        tos: pkt[ETH_HLEN + 1],
        tot_len: be16(pkt[ETH_HLEN + 2], pkt[ETH_HLEN + 3]) as u16,
        id: be16(pkt[ETH_HLEN + 4], pkt[ETH_HLEN + 5]) as u16,
        frag_off: be16(pkt[ETH_HLEN + 6], pkt[ETH_HLEN + 7]) as u16,
        ttl: pkt[ETH_HLEN + 8],
        protocol: spec_ip_proto(pkt),
        check: be16(pkt[ETH_HLEN + 10], pkt[ETH_HLEN + 11]) as u16,
        saddr: be32(
            pkt[ETH_HLEN + 12],
            pkt[ETH_HLEN + 13],
            pkt[ETH_HLEN + 14],
            pkt[ETH_HLEN + 15],
        ) as u32,
        daddr: be32(
            pkt[ETH_HLEN + 16],
            pkt[ETH_HLEN + 17],
            pkt[ETH_HLEN + 18],
            pkt[ETH_HLEN + 19],
        ) as u32,
    }
}

/// The TCP header view that parsing a packet yields.
pub open spec fn spec_tcp_hdr(pkt: Seq<u8>) -> TcpHdr {
    let tb = transport_base(pkt);
    TcpHdr {
        source: be16(pkt[tb], pkt[tb + 1]) as u16,
        dest: be16(pkt[tb + 2], pkt[tb + 3]) as u16,
        seq: be32(pkt[tb + 4], pkt[tb + 5], pkt[tb + 6], pkt[tb + 7]) as u32,
        ack_seq: be32(pkt[tb + 8], pkt[tb + 9], pkt[tb + 10], pkt[tb + 11]) as u32,
        doff: spec_doff(pkt),
        flags: pkt[tb + 13],
        window: be16(pkt[tb + 14], pkt[tb + 15]) as u16,
        check: be16(pkt[tb + 16], pkt[tb + 17]) as u16,
        urg_ptr: be16(pkt[tb + 18], pkt[tb + 19]) as u16,
    }
}

/// The UDP header view that parsing a packet yields.
pub open spec fn spec_udp_hdr(pkt: Seq<u8>) -> UdpHdr {
    let tb = transport_base(pkt);
    UdpHdr {
        source: be16(pkt[tb], pkt[tb + 1]) as u16,
        dest: be16(pkt[tb + 2], pkt[tb + 3]) as u16,
        len: be16(pkt[tb + 4], pkt[tb + 5]) as u16,
        check: be16(pkt[tb + 6], pkt[tb + 7]) as u16,
    }
}

} // verus!
