use xdp_probes::headers::{EthHdr, IpHdr, ETH_P_IP, IPPROTO_TCP, IPPROTO_UDP};
use xdp_probes::xdp::{Transport, XdpAction, XdpContext};

/// A 14-byte Ethernet header with the given destination MAC, source MAC and
/// EtherType.
fn eth_header(dest: [u8; 6], source: [u8; 6], proto: u16) -> Vec<u8> {
    let mut v = Vec::new();
    v.extend_from_slice(&dest);
    v.extend_from_slice(&source);
    v.push((proto >> 8) as u8);
    v.push((proto & 0xff) as u8);
    v
}

/// An IPv4 header of `ihl` 32-bit words carrying `protocol`, options zeroed.
fn ipv4_header(ihl: u8, protocol: u8) -> Vec<u8> {
    let mut v = vec![0u8; (ihl as usize) * 4];
    v[0] = 0x40 | (ihl & 0x0f);
    v[1] = 0x00; // tos
    v[2] = 0x01; // total length, not interpreted by the parser
    v[3] = 0x02;
    v[4] = 0xab; // id
    v[5] = 0xcd;
    v[6] = 0x40; // flags + fragment offset
    v[7] = 0x00;
    v[8] = 64; // ttl
    v[9] = protocol;
    v[10] = 0x11; // checksum
    v[11] = 0x22;
    v[12..16].copy_from_slice(&[192, 168, 0, 1]);
    v[16..20].copy_from_slice(&[10, 0, 0, 7]);
    v
}

/// A TCP header of `doff` 32-bit words, ports and fields fixed, options
/// zeroed.
fn tcp_header(doff: u8) -> Vec<u8> {
    let mut v = vec![0u8; (doff as usize) * 4];
    v[0] = 0x1f; // source port 8080
    v[1] = 0x90;
    v[2] = 0x01; // destination port 443
    v[3] = 0xbb;
    v[4..8].copy_from_slice(&[0x00, 0x00, 0x10, 0x00]); // seq
    v[8..12].copy_from_slice(&[0x00, 0x00, 0x20, 0x00]); // ack
    v[12] = doff << 4;
    v[13] = 0x18; // flags: PSH|ACK
    v[14] = 0x01; // window
    v[15] = 0x00;
    v[16] = 0x33; // checksum
    v[17] = 0x44;
    v
}

/// An 8-byte UDP header: source port 8080, destination port 80.
fn udp_header() -> Vec<u8> {
    vec![0x1f, 0x90, 0x00, 0x50, 0x00, 0x08, 0x55, 0x66]
}

fn udp_packet(payload: &[u8]) -> Vec<u8> {
    let mut v = eth_header([1, 2, 3, 4, 5, 6], [7, 8, 9, 10, 11, 12], ETH_P_IP);
    v.extend_from_slice(&ipv4_header(5, IPPROTO_UDP));
    v.extend_from_slice(&udp_header());
    v.extend_from_slice(payload);
    v
}

fn tcp_packet(doff: u8, payload: &[u8]) -> Vec<u8> {
    let mut v = eth_header([1, 2, 3, 4, 5, 6], [7, 8, 9, 10, 11, 12], ETH_P_IP);
    v.extend_from_slice(&ipv4_header(5, IPPROTO_TCP));
    v.extend_from_slice(&tcp_header(doff));
    v.extend_from_slice(payload);
    v
}

#[test]
fn eth_absent_below_header_size() {
    for l in 0..14usize {
        let ctx = XdpContext::new(vec![0u8; l]);
        assert!(ctx.eth().is_none(), "length {}", l);
    }
    let ctx = XdpContext::new(vec![0u8; 14]);
    assert!(ctx.eth().is_some());
}

#[test]
fn eth_fields_parsed() {
    let ctx = XdpContext::new(udp_packet(&[]));
    let h: EthHdr = ctx.eth().unwrap();
    assert_eq!(h.h_dest, [1, 2, 3, 4, 5, 6]);
    assert_eq!(h.h_source, [7, 8, 9, 10, 11, 12]);
    assert_eq!(h.h_proto, 0x0800);
}

#[test]
fn ip_absent_on_non_ipv4_regardless_of_length() {
    for l in [14usize, 34, 60, 200] {
        let mut v = eth_header([0; 6], [0; 6], 0x86dd);
        v.resize(l, 0);
        let ctx = XdpContext::new(v);
        assert!(ctx.eth().is_some());
        assert!(ctx.ip().is_none(), "length {}", l);
        assert!(ctx.transport().is_none(), "length {}", l);
    }
}

#[test]
fn ip_absent_when_header_does_not_fit() {
    let full = udp_packet(&[]);
    for l in 14..34usize {
        let ctx = XdpContext::new(full[..l].to_vec());
        assert!(ctx.ip().is_none(), "length {}", l);
    }
}

#[test]
fn ip_fields_parsed() {
    let ctx = XdpContext::new(udp_packet(&[]));
    let h: IpHdr = ctx.ip().unwrap();
    assert_eq!(h.version, 4);
    assert_eq!(h.ihl, 5);
    assert_eq!(h.tos, 0);
    assert_eq!(h.tot_len, 0x0102);
    assert_eq!(h.id, 0xabcd);
    assert_eq!(h.frag_off, 0x4000);
    assert_eq!(h.ttl, 64);
    assert_eq!(h.protocol, IPPROTO_UDP);
    assert_eq!(h.check, 0x1122);
    assert_eq!(h.saddr, 0xc0a80001);
    assert_eq!(h.daddr, 0x0a000007);
}

#[test]
fn tcp_transport_present_iff_full_headers_fit() {
    let full = tcp_packet(5, &[0xaa; 10]);
    for l in 0..=full.len() {
        let ctx = XdpContext::new(full[..l].to_vec());
        let t = ctx.transport();
        if l >= 54 {
            match t {
                Some(Transport::TCP(h)) => {
                    assert_eq!(h.source, 8080);
                    assert_eq!(h.dest, 443);
                }
                _ => panic!("expected TCP transport at length {}", l),
            }
        } else {
            assert!(t.is_none(), "length {}", l);
        }
    }
}

#[test]
fn tcp_header_fields_parsed() {
    let ctx = XdpContext::new(tcp_packet(5, &[]));
    match ctx.transport().unwrap() {
        Transport::TCP(h) => {
            assert_eq!(h.source, 8080);
            assert_eq!(h.dest, 443);
            assert_eq!(h.seq, 0x1000);
            assert_eq!(h.ack_seq, 0x2000);
            assert_eq!(h.doff, 5);
            assert_eq!(h.flags, 0x18);
            assert_eq!(h.window, 0x0100);
            assert_eq!(h.check, 0x3344);
            assert_eq!(h.urg_ptr, 0);
        }
        Transport::UDP(_) => panic!("expected TCP"),
    }
}

#[test]
fn ip_options_shift_transport_offset() {
    // IHL 6: a 24-byte IP header, so the UDP header starts at 14 + 24 = 38
    // and the whole frame needs 46 bytes.
    let mut v = eth_header([0; 6], [0; 6], ETH_P_IP);
    v.extend_from_slice(&ipv4_header(6, IPPROTO_UDP));
    v.extend_from_slice(&udp_header());
    assert_eq!(v.len(), 46);
    let short = XdpContext::new(v[..45].to_vec());
    assert!(short.ip().is_some());
    assert!(short.transport().is_none());
    let ctx = XdpContext::new(v);
    let t = ctx.transport().unwrap();
    assert!(matches!(t, Transport::UDP(_)));
    assert_eq!(t.source(), 8080);
    assert_eq!(t.dest(), 80);
    assert_eq!(ctx.data().unwrap().offset(), 46);
}

#[test]
fn unknown_ip_protocol_has_no_transport() {
    let mut v = eth_header([0; 6], [0; 6], ETH_P_IP);
    v.extend_from_slice(&ipv4_header(5, 1)); // ICMP
    v.extend_from_slice(&[0u8; 30]);
    let ctx = XdpContext::new(v);
    assert!(ctx.ip().is_some());
    assert!(ctx.transport().is_none());
    assert!(ctx.data().is_none());
}

#[test]
fn tcp_options_advance_payload_cursor_twelve_bytes() {
    // data offset 8: 32-byte TCP header, 12 bytes of options after the
    // fixed 20.
    let ctx = XdpContext::new(tcp_packet(8, &[0xee; 7]));
    let d = ctx.data().unwrap();
    assert_eq!(d.offset(), 14 + 20 + 20 + 12);
    assert_eq!(d.len(), 7);
}

#[test]
fn tcp_without_options_advances_nothing_extra() {
    let ctx = XdpContext::new(tcp_packet(5, &[0xee; 7]));
    let d = ctx.data().unwrap();
    assert_eq!(d.offset(), 14 + 20 + 20);
    assert_eq!(d.len(), 7);
}

#[test]
fn tcp_options_past_end_leave_no_cursor() {
    // The fixed TCP header fits, but the options announced by data offset 8
    // would run past the end of the packet.
    let full = tcp_packet(8, &[]);
    let ctx = XdpContext::new(full[..56].to_vec());
    assert!(ctx.transport().is_some());
    assert!(ctx.data().is_none());
}

#[test]
fn data_offset_plus_len_is_packet_length() {
    for payload_len in [0usize, 1, 12, 100] {
        let pkt = udp_packet(&vec![0x5au8; payload_len]);
        let total = pkt.len();
        let ctx = XdpContext::new(pkt);
        assert_eq!(ctx.len() as usize, total);
        let d = ctx.data().unwrap();
        assert_eq!(d.offset() + d.len(), total);
    }
    for payload_len in [0usize, 3, 33] {
        let pkt = tcp_packet(6, &vec![0xa5u8; payload_len]);
        let total = pkt.len();
        let ctx = XdpContext::new(pkt);
        let d = ctx.data().unwrap();
        assert_eq!(d.offset() + d.len(), total);
    }
}

#[test]
fn slice_boundary_sweep() {
    let payload: Vec<u8> = (0u8..24).collect();
    let ctx = XdpContext::new(udp_packet(&payload));
    let d = ctx.data().unwrap();
    let len = d.len();
    assert_eq!(len, 24);
    for n in 0..=len + 5 {
        match d.slice(n) {
            Some(s) => {
                assert!(n <= len);
                assert_eq!(s.len(), n);
                assert_eq!(s, &payload[..n]);
            }
            None => assert!(n > len, "slice({}) absent below len {}", n, len),
        }
    }
}

#[test]
fn read_typed_values_little_endian() {
    let ctx = XdpContext::new(udp_packet(&[0x01, 0x02, 0x03, 0x04, 0x05]));
    let d = ctx.data().unwrap();
    assert_eq!(d.read::<u8>(), Some(0x01));
    assert_eq!(d.read::<u16>(), Some(0x0201));
    assert_eq!(d.read::<u32>(), Some(0x04030201));
}

#[test]
fn read_past_end_is_absent() {
    let ctx = XdpContext::new(udp_packet(&[0x01, 0x02, 0x03]));
    let d = ctx.data().unwrap();
    assert_eq!(d.read::<u16>(), Some(0x0201));
    assert_eq!(d.read::<u32>(), None);
    let empty = XdpContext::new(udp_packet(&[]));
    let d0 = empty.data().unwrap();
    assert_eq!(d0.read::<u8>(), None);
}

#[test]
fn udp_headers_only_scenario() {
    // Ethernet + IPv4 (no options) + UDP header and nothing behind them:
    // destination port read in host order, zero-length payload.
    let pkt = udp_packet(&[]);
    assert_eq!(pkt.len(), 42);
    let ctx = XdpContext::new(pkt);
    let t = ctx.transport().unwrap();
    assert!(matches!(t, Transport::UDP(_)));
    assert_eq!(t.dest(), 80); // bytes 0x00 0x50
    assert_eq!(t.source(), 8080);
    let d = ctx.data().unwrap();
    assert_eq!(d.len(), 0);
    assert_eq!(d.offset(), 42);
    assert_eq!(d.slice(0).unwrap(), &[] as &[u8]);
    assert!(d.slice(1).is_none());
}

#[test]
fn udp_truncated_header_has_no_transport() {
    // Cut into the UDP header: the transport stage must report absent.
    let full = udp_packet(&[]);
    let ctx = XdpContext::new(full[..38].to_vec());
    assert!(ctx.ip().is_some());
    assert!(ctx.transport().is_none());
    assert!(ctx.data().is_none());
}

#[test]
fn context_reports_length_and_buffer() {
    let pkt = udp_packet(&[9, 9, 9]);
    let total = pkt.len();
    let ctx = XdpContext::new(pkt.clone());
    assert_eq!(ctx.len() as usize, total);
    assert_eq!(ctx.inner(), &pkt);
}

#[test]
fn action_codes() {
    assert_eq!(XdpAction::Aborted.code(), 0);
    assert_eq!(XdpAction::Drop.code(), 1);
    assert_eq!(XdpAction::Pass.code(), 2);
    assert_eq!(XdpAction::Tx.code(), 3);
    assert_eq!(XdpAction::Redirect.code(), 4);
}
