//! The chained, bounds-checked packet parser.
//!
//! [`XdpContext`] wraps the byte range of one packet and exposes accessors
//! that narrow step by step: whole packet, Ethernet header, IPv4 header,
//! transport header, payload cursor. Each accessor returns `None` as soon as
//! the next structure does not fit inside the buffer, so no field is ever
//! read past the end of the packet.

use crate::headers::{
    data_present, eth_present, ip_present, payload_base, read_be16, read_be32,
    spec_doff, spec_eth_proto, spec_ihl, spec_ip_proto, spec_ip_hdr, spec_tcp_hdr, spec_udp_hdr,
    transport_base, transport_present, EthHdr, IpHdr, TcpHdr, UdpHdr, ETH_HLEN, ETH_P_IP,
    IPPROTO_TCP, IPPROTO_UDP, IP_HLEN, TCP_HLEN, UDP_HLEN,
};
use vstd::prelude::*;
use vstd::slice::slice_subrange;

verus! {

/// The verdict an XDP program hands back to its caller for one packet.
#[derive(Clone, Copy, Debug, PartialEq, Eq, Structural)]
pub enum XdpAction {
    /// An unexpected anomaly; the packet is dropped.
    Aborted,
    /// Drop the packet.
    Drop,
    /// Pass the packet on to the normal network stack.
    Pass,
    /// Bounce the packet back out of the interface it arrived on.
    Tx,
    /// Send the packet out of another interface.
    Redirect,
}

impl XdpAction {
    /// The numeric code the processing environment understands.
    pub open spec fn spec_code(self) -> u32 {
        match self {
            XdpAction::Aborted => 0,
            XdpAction::Drop => 1,
            XdpAction::Pass => 2,
            XdpAction::Tx => 3,
            XdpAction::Redirect => 4,
        }
    }

    /// Returns the numeric code of this action.
    pub fn code(&self) -> (r: u32)
        ensures
            r == self.spec_code(),
    {
        match self {
            XdpAction::Aborted => 0,
            XdpAction::Drop => 1,
            XdpAction::Pass => 2,
            XdpAction::Tx => 3,
            XdpAction::Redirect => 4,
        }
    }
}

/// The packet transport header, already validated to lie within the packet.
///
/// Only TCP and UDP transports are supported.
#[derive(Clone, Copy, Debug, PartialEq, Eq, Structural)]
pub enum Transport {
    TCP(TcpHdr),
    UDP(UdpHdr),
}

/// The transport header that parsing a packet yields: TCP or UDP according
/// to the IP protocol field.
pub open spec fn spec_transport(pkt: Seq<u8>) -> Transport {
    if spec_ip_proto(pkt) == IPPROTO_TCP {
        Transport::TCP(spec_tcp_hdr(pkt))
    } else {
        Transport::UDP(spec_udp_hdr(pkt))
    }
}

impl Transport {
    /// The source port of either transport.
    pub open spec fn spec_source(self) -> u16 {
        match self {
            Transport::TCP(hdr) => hdr.source,
            Transport::UDP(hdr) => hdr.source,
        }
    }

    /// The destination port of either transport.
    pub open spec fn spec_dest(self) -> u16 {
        match self {
            Transport::TCP(hdr) => hdr.dest,
            Transport::UDP(hdr) => hdr.dest,
        }
    }

    /// Returns the source port, in host byte order.
    pub fn source(&self) -> (r: u16)
        ensures
            r == self.spec_source(),
    {
        match self {
            Transport::TCP(hdr) => hdr.source,
            Transport::UDP(hdr) => hdr.source,
        }
    }

    /// Returns the destination port, in host byte order.
    pub fn dest(&self) -> (r: u16)
        ensures
            r == self.spec_dest(),
    {
        match self {
            Transport::TCP(hdr) => hdr.dest,
            Transport::UDP(hdr) => hdr.dest,
        }
    }
}

/// Context object describing one packet: the byte range an XDP program may
/// inspect. All accessors recompute from the buffer; nothing is cached.
pub struct XdpContext {
    buf: Vec<u8>,
}

impl View for XdpContext {
    type V = Seq<u8>;

    closed spec fn view(&self) -> Seq<u8> {
        self.buf@
    }
}

impl XdpContext {
    /// The packet length fits the 32-bit size the environment reports.
    pub open spec fn wf(&self) -> bool {
        self@.len() <= u32::MAX
    }

    /// Wraps the byte range of one packet.
    pub fn new(buf: Vec<u8>) -> (ctx: Self)
        requires
            buf@.len() <= u32::MAX,
        ensures
            ctx@ == buf@,
            ctx.wf(),
    {
        XdpContext { buf }
    }

    /// Returns the raw packet buffer.
    pub fn inner(&self) -> (r: &Vec<u8>)
        ensures
            r@ == self@,
    {
        &self.buf
    }

    /// Returns the packet length.
    pub fn len(&self) -> (n: u32)
        requires
            self.wf(),
        ensures
            n == self@.len(),
    {
        self.buf.len() as u32
    }

    /// Returns the packet's Ethernet header if one fits.
    pub fn eth(&self) -> (r: Option<EthHdr>)
        ensures
            r is Some <==> eth_present(self@),
            r matches Some(h) ==> {
                &&& h.h_dest@ == self@.subrange(0, 6)
                &&& h.h_source@ == self@.subrange(6, 12)
                &&& h.h_proto == spec_eth_proto(self@)
            },
    {
        if self.buf.len() < ETH_HLEN {
            return None;
        }
        let h_dest = [
            self.buf[0],
            self.buf[1],
            self.buf[2],
            self.buf[3],
            self.buf[4],
            self.buf[5],
        ];
        let h_source = [
            self.buf[6],
            self.buf[7],
            self.buf[8],
            self.buf[9],
            self.buf[10],
            self.buf[11],
        ];
        let h_proto = read_be16(&self.buf, 12);
        proof {
            assert(h_dest@ =~= self@.subrange(0, 6));
            assert(h_source@ =~= self@.subrange(6, 12));
        }
        Some(EthHdr { h_dest, h_source, h_proto })
    }

    /// Returns the packet's IPv4 header if the frame is IPv4 and a full
    /// fixed-size IP header fits. IP parsing is never attempted over a
    /// non-IPv4 frame.
    pub fn ip(&self) -> (r: Option<IpHdr>)
        ensures
            r is Some <==> ip_present(self@),
            r matches Some(h) ==> h == spec_ip_hdr(self@),
    {
        let eth = match self.eth() {
            Some(h) => h,
            None => return None,
        };
        if eth.h_proto != ETH_P_IP {
            return None;
        }
        if self.buf.len() < ETH_HLEN + IP_HLEN {
            return None;
        }
        Some(
            IpHdr {
                version: self.buf[ETH_HLEN] >> 4,
                ihl: self.buf[ETH_HLEN] & 0x0f,
                tos: self.buf[ETH_HLEN + 1],
                tot_len: read_be16(&self.buf, ETH_HLEN + 2),
                id: read_be16(&self.buf, ETH_HLEN + 4),
                frag_off: read_be16(&self.buf, ETH_HLEN + 6),
                ttl: self.buf[ETH_HLEN + 8],
                protocol: self.buf[ETH_HLEN + 9],
                check: read_be16(&self.buf, ETH_HLEN + 10),
                saddr: read_be32(&self.buf, ETH_HLEN + 12),
                daddr: read_be32(&self.buf, ETH_HLEN + 16),
            },
        )
    }

    /// Returns the packet's transport header if the IP protocol is TCP or
    /// UDP and the protocol's fixed-size header fits after the IHL-derived
    /// end of the IP header.
    pub fn transport(&self) -> (r: Option<Transport>)
        ensures
            r is Some <==> transport_present(self@),
            transport_present(self@) ==> r == Some(spec_transport(self@)),
    {
        let ip = match self.ip() {
            Some(h) => h,
            None => return None,
        };
        let base = ETH_HLEN + (ip.ihl as usize) * 4;
        if ip.protocol == IPPROTO_TCP {
            if base + TCP_HLEN > self.buf.len() {
                return None;
            }
            Some(
                Transport::TCP(
                    TcpHdr {
                        source: read_be16(&self.buf, base),
                        dest: read_be16(&self.buf, base + 2),
                        seq: read_be32(&self.buf, base + 4),
                        ack_seq: read_be32(&self.buf, base + 8),
                        doff: self.buf[base + 12] >> 4,
                        flags: self.buf[base + 13],
                        window: read_be16(&self.buf, base + 14),
                        check: read_be16(&self.buf, base + 16),
                        urg_ptr: read_be16(&self.buf, base + 18),
                    },
                ),
            )
        } else if ip.protocol == IPPROTO_UDP {
            if base + UDP_HLEN > self.buf.len() {
                return None;
            }
            Some(
                Transport::UDP(
                    UdpHdr {
                        source: read_be16(&self.buf, base),
                        dest: read_be16(&self.buf, base + 2),
                        len: read_be16(&self.buf, base + 4),
                        check: read_be16(&self.buf, base + 6),
                    },
                ),
            )
        } else {
            None
        }
    }

    /// Returns the packet's payload cursor: the first byte after all parsed
    /// headers. For TCP, a data offset above 5 announces options, and the
    /// cursor skips them; the advanced cursor is checked against the end of
    /// the packet again before it is handed out.
    pub fn data<'a>(&'a self) -> (r: Option<Data<'a>>)
        ensures
            r is Some <==> data_present(self@),
            r matches Some(d) ==> {
                &&& d.packet() == self@
                &&& d.spec_offset() == payload_base(self@)
                &&& d.wf()
            },
    {
        let t = match self.transport() {
            Some(t) => t,
            None => return None,
        };
        let ip = match self.ip() {
            Some(h) => h,
            None => return None,
        };
        let tb = ETH_HLEN + (ip.ihl as usize) * 4;
        let base = match t {
            Transport::TCP(hdr) => {
                if tb + TCP_HLEN > self.buf.len() {
                    return None;
                }
                let mut cursor = tb + TCP_HLEN;
                if hdr.doff > 5 {
                    cursor = cursor + ((hdr.doff - 5) as usize) * 4;
                }
                cursor
            },
            Transport::UDP(_) => tb + UDP_HLEN,
        };
        if base > self.buf.len() {
            return None;
        }
        Some(Data { ctx: self, base })
    }
}

/// A payload cursor: an offset into the packet known to lie within bounds,
/// together with the packet it was cut from. A zero-length payload is valid
/// and means "headers only".
#[derive(Clone, Copy)]
pub struct Data<'a> {
    ctx: &'a XdpContext,
    base: usize,
}

impl<'a> Data<'a> {
    /// The bytes of the whole packet this cursor points into.
    pub closed spec fn packet(self) -> Seq<u8> {
        self.ctx@
    }

    /// The cursor lies within the packet bounds.
    pub closed spec fn wf(self) -> bool {
        self.base <= self.ctx@.len()
    }

    /// Distance from the first byte of the packet to the cursor.
    pub closed spec fn spec_offset(self) -> int {
        self.base as int
    }

    /// Number of bytes from the cursor to the end of the packet.
    pub closed spec fn spec_len(self) -> int {
        self.ctx@.len() - self.base
    }

    /// Returns the offset of the payload from the first byte of the packet.
    pub fn offset(&self) -> (r: usize)
        ensures
            r == self.spec_offset(),
    {
        self.base
    }

    /// Returns the length of the payload: the length of the packet minus
    /// the length of the headers.
    pub fn len(&self) -> (r: usize)
        requires
            self.wf(),
        ensures
            r == self.spec_len(),
    {
        self.ctx.buf.len() - self.base
    }

    /// Returns a slice of exactly `len` payload bytes, or `None` when fewer
    /// than `len` bytes remain. Never returns a short slice.
    pub fn slice(&self, len: usize) -> (r: Option<&'a [u8]>)
        requires
            self.wf(),
        ensures
            len <= self.spec_len() ==> (r matches Some(s) && s@ == self.packet().subrange(
                self.spec_offset(),
                self.spec_offset() + len,
            )),
            len > self.spec_len() ==> r is None,
    {
        let full = slice_subrange(self.ctx.buf.as_slice(), self.base, self.ctx.buf.len());
        if len <= full.len() {
            let s = slice_subrange(full, 0, len);
            proof {
                assert(s@ =~= self.packet().subrange(
                    self.spec_offset(),
                    self.spec_offset() + len,
                ));
            }
            Some(s)
        } else {
            None
        }
    }

    /// Reads a `T` from the first `T::spec_size()` payload bytes, or returns
    /// `None` when they would overrun the packet. The bytes are interpreted
    /// unaligned, exactly as [`FromBytes`] for `T` states.
    pub fn read<T: FromBytes>(&self) -> (r: Option<T>)
        requires
            self.wf(),
        ensures
            T::spec_size() <= self.spec_len() ==> (r matches Some(v) && v == T::spec_from(
                self.packet().subrange(
                    self.spec_offset(),
                    self.spec_offset() + T::spec_size(),
                ),
            )),
            T::spec_size() > self.spec_len() ==> r is None,
    {
        match self.slice(T::byte_size()) {
            Some(bytes) => Some(T::from_bytes(bytes)),
            None => None,
        }
    }
}

/// A value that can be decoded from a fixed number of raw payload bytes,
/// without any alignment requirement on the source buffer.
pub trait FromBytes: Sized {
    /// How many bytes a value occupies.
    spec fn spec_size() -> usize;

    /// The value the given bytes decode to.
    spec fn spec_from(bytes: Seq<u8>) -> Self;

    /// Returns how many bytes a value occupies.
    fn byte_size() -> (n: usize)
        ensures
            n == Self::spec_size(),
    ;

    /// Decodes a value from exactly `Self::spec_size()` bytes.
    fn from_bytes(bytes: &[u8]) -> (r: Self)
        requires
            bytes@.len() == Self::spec_size(),
        ensures
            r == Self::spec_from(bytes@),
    ;
}

impl FromBytes for u8 {
    open spec fn spec_size() -> usize {
        1
    }

    open spec fn spec_from(bytes: Seq<u8>) -> Self {
        bytes[0]
    }

    fn byte_size() -> (n: usize) {
        1
    }

    fn from_bytes(bytes: &[u8]) -> (r: Self) {
        *vstd::slice::slice_index_get(bytes, 0)
    }
}

impl FromBytes for u16 {
    open spec fn spec_size() -> usize {
        2
    }

    /// Little endian: the in-memory order of the machines this runs on.
    open spec fn spec_from(bytes: Seq<u8>) -> Self {
        (bytes[1] * 256 + bytes[0]) as u16
    }

    fn byte_size() -> (n: usize) {
        2
    }

    fn from_bytes(bytes: &[u8]) -> (r: Self) {
        (*vstd::slice::slice_index_get(bytes, 1) as u16) * 256 + (*vstd::slice::slice_index_get(
            bytes,
            0,
        ) as u16)
    }
}

impl FromBytes for u32 {
    open spec fn spec_size() -> usize {
        4
    }

    /// Little endian: the in-memory order of the machines this runs on.
    open spec fn spec_from(bytes: Seq<u8>) -> Self {
        (((bytes[3] * 256 + bytes[2]) * 256 + bytes[1]) * 256 + bytes[0]) as u32
    }

    fn byte_size() -> (n: usize) {
        4
    }

    fn from_bytes(bytes: &[u8]) -> (r: Self) {
        ((((*vstd::slice::slice_index_get(bytes, 3) as u32) * 256 + (*vstd::slice::slice_index_get(
            bytes,
            2,
        ) as u32)) * 256 + (*vstd::slice::slice_index_get(bytes, 1) as u32)) * 256) + (
        *vstd::slice::slice_index_get(bytes, 0) as u32)
    }
}

/// Each parsing stage only exists over the one before it: a payload cursor
/// implies a transport header, a transport header an IPv4 header, an IPv4
/// header an Ethernet header.
pub proof fn lemma_parse_chain(pkt: Seq<u8>)
    ensures
        data_present(pkt) ==> transport_present(pkt),
        transport_present(pkt) ==> ip_present(pkt),
        ip_present(pkt) ==> eth_present(pkt),
{
}

/// A buffer shorter than an Ethernet header has no Ethernet header, and
/// with it no deeper header either.
pub proof fn lemma_short_packet_no_eth(pkt: Seq<u8>)
    requires
        pkt.len() < ETH_HLEN,
    ensures
        !eth_present(pkt),
        !ip_present(pkt),
        !transport_present(pkt),
        !data_present(pkt),
{
}

/// A frame whose EtherType is not IPv4 has no IP header, however long it
/// is, and with it no transport header or payload cursor.
pub proof fn lemma_non_ipv4_no_ip(pkt: Seq<u8>)
    requires
        spec_eth_proto(pkt) != ETH_P_IP,
    ensures
        !ip_present(pkt),
        !transport_present(pkt),
        !data_present(pkt),
{
}

/// Over an IPv4 header of five words carrying TCP, the transport header is
/// present exactly when the fixed Ethernet, IP and TCP headers all fit, and
/// it is then TCP-tagged.
pub proof fn lemma_tcp_transport_iff(pkt: Seq<u8>)
    requires
        ip_present(pkt),
        spec_ihl(pkt) == 5,
        spec_ip_proto(pkt) == IPPROTO_TCP,
    ensures
        transport_present(pkt) <==> ETH_HLEN + IP_HLEN + TCP_HLEN <= pkt.len(),
        transport_present(pkt) ==> spec_transport(pkt) is TCP,
{
}

/// The payload cursor of a TCP packet with data offset 8 lies exactly 12
/// bytes past the fixed TCP header; with data offset 5 it lies directly
/// behind it.
pub proof fn lemma_tcp_payload_cursor(pkt: Seq<u8>)
    requires
        transport_present(pkt),
        spec_ip_proto(pkt) == IPPROTO_TCP,
    ensures
        spec_doff(pkt) == 8 ==> payload_base(pkt) == transport_base(pkt) + TCP_HLEN + 12,
        spec_doff(pkt) == 5 ==> payload_base(pkt) == transport_base(pkt) + TCP_HLEN,
{
}

/// Offset and length of every well-formed payload cursor sum to the length
/// of the whole packet.
pub proof fn lemma_data_len_offset<'a>(d: Data<'a>)
    requires
        d.wf(),
    ensures
        d.spec_offset() + d.spec_len() == d.packet().len(),
{
}

} // verus!
