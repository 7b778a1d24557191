use vstd::prelude::*;
use crate::addr::{IpAddr, MacAddr, broadcast_octets};
use crate::encode::{
    TcpOpt, arp_request, be16_bytes, encode_arp, encode_ethernet, encode_icmp, encode_icmpv6,
    encode_ipv4, encode_ipv6, encode_ndp, encode_tcp, encode_udp, ethernet_header, ipv4_header_ok,
    ipv6_header_ok, padded_len, tcp_options_bytes, tcp_options_len,
};
use crate::fp::FingerprintType;
use crate::frame::{Frame, ParseOption, be16, frame_agrees, ETHER_TYPE_ARP, ETHER_TYPE_IPV4, ETHER_TYPE_IPV6, IP_PROTO_ICMP, IP_PROTO_ICMPV6, IP_PROTO_TCP, IP_PROTO_UDP};
use crate::setting::{ProbeSetting, TCP_DEFAULT_DST_PORT, TCP_DEFAULT_SRC_PORT, UDP_BASE_DST_PORT, UDP_DEFAULT_SRC_PORT};

verus! {

pub const ICMP_ECHO_REQUEST: u8 = 8;
pub const ICMP_TIMESTAMP_REQUEST: u8 = 13;
pub const ICMP_INFORMATION_REQUEST: u8 = 15;
pub const ICMP_ADDRESS_MASK_REQUEST: u8 = 17;
pub const ICMPV6_ECHO_REQUEST: u8 = 128;
pub const ICMPV6_NEIGHBOR_SOLICITATION: u8 = 135;

/// Payload length of a Neighbor Solicitation with a link-layer address option.
pub const NDP_PAYLOAD_LEN: u16 = 32;
/// Window of a TCP ping SYN.
pub const TCP_PING_WINDOW: u16 = 64240;
/// Window of TCP fingerprinting and control segments.
pub const TCP_PROBE_WINDOW: u16 = 65535;
/// IPv4 total length announced by a TCP fingerprinting probe.
pub const TCP_PROBE_IPV4_TOTAL_LEN: u16 = 64;
/// IPv6 payload length announced by a TCP fingerprinting probe.
pub const TCP_PROBE_IPV6_PAYLOAD_LEN: u16 = 44;

pub const TCP_SYN: u8 = 0x02;
pub const TCP_CWR_ECE_SYN: u8 = 0xc2;

/// Source and destination are of one address family.
pub open spec fn same_family(s: ProbeSetting) -> bool {
    (s.src_ip is V4 && s.dst_ip is V4) || (s.src_ip is V6 && s.dst_ip is V6)
}

/// Length of the link layer of an outgoing frame.
pub open spec fn link_len(s: ProbeSetting) -> int {
    if s.tunnel { 0 } else { 14 }
}

/// Length of the IP header of an outgoing packet to `dst`.
pub open spec fn ip_header_len(dst: IpAddr) -> int {
    if dst is V4 { 20 } else { 40 }
}

pub open spec fn ether_type_for(dst: IpAddr) -> u16 {
    if dst is V4 { ETHER_TYPE_IPV4 } else { ETHER_TYPE_IPV6 }
}

/// The TTL of an outgoing packet: the override, else the setting's hop limit.
pub open spec fn ttl_choice(s: ProbeSetting, hop_limit: Option<u8>) -> u8 {
    match hop_limit {
        Some(h) => h,
        None => s.hop_limit,
    }
}

/// The IP header `h` runs from the setting's source to its destination.
pub open spec fn ip_header_agrees(h: Seq<u8>, s: ProbeSetting, protocol_v4: u8, protocol_v6: u8, ttl: u8) -> bool {
    match (s.src_ip, s.dst_ip) {
        (IpAddr::V4(a), IpAddr::V4(b)) => ipv4_header_ok(h, a@, b@, protocol_v4, ttl),
        (IpAddr::V6(a), IpAddr::V6(b)) => ipv6_header_ok(h, a@, b@, protocol_v6, ttl),
        _ => false,
    }
}

/// A frame of the setting: its link layer (absent in tunnel mode), an IP
/// header, and `l4_len` bytes of transport layer after it; for mismatched
/// address families only the link layer.
pub open spec fn ip_frame_ok(r: Seq<u8>, s: ProbeSetting, et: u16, protocol_v4: u8, protocol_v6: u8, ttl: u8, l4_len: int) -> bool {
    let l = link_len(s);
    let h = ip_header_len(s.dst_ip);
    &&& !s.tunnel ==> r.subrange(0, 14) == ethernet_header(s.dst_mac.octets@, s.src_mac.octets@, et)
    &&& same_family(s) ==> r.len() == l + h + l4_len && ip_header_agrees(r.subrange(l, l + h), s, protocol_v4, protocol_v6, ttl)
    &&& !same_family(s) ==> r.len() == l
}

/// The transport layer of an outgoing IP frame.
pub open spec fn l4_of(r: Seq<u8>, s: ProbeSetting) -> Seq<u8> {
    r.subrange(link_len(s) + ip_header_len(s.dst_ip), r.len() as int)
}

/// Puts the link layer in front of `body` unless the setting is in tunnel mode.
fn with_link(s: &ProbeSetting, ether_type: u16, body: Vec<u8>) -> (r: Vec<u8>)
    requires
        ether_type == ETHER_TYPE_ARP || ether_type == ETHER_TYPE_IPV4 || ether_type == ETHER_TYPE_IPV6,
    ensures
        s.tunnel ==> r@ == body@,
        !s.tunnel ==> r@ == ethernet_header(s.dst_mac.octets@, s.src_mac.octets@, ether_type) + body@,
{
    if s.tunnel {
        body
    } else {
        let mut r = encode_ethernet(&s.src_mac, &s.dst_mac, ether_type);
        let mut b = body;
        r.append(&mut b);
        r
    }
}

fn ether_type_of_dst(dst: &IpAddr) -> (r: u16)
    ensures
        r == ether_type_for(*dst),
{
    match dst {
        IpAddr::V4(_) => ETHER_TYPE_IPV4,
        IpAddr::V6(_) => ETHER_TYPE_IPV6,
    }
}

/// The IP length field of the header that starts at `l`: the total length
/// for IPv4, the payload length for IPv6.
pub open spec fn ip_length_ok(r: Seq<u8>, s: ProbeSetting, total_v4: u16, payload_v6: u16) -> bool {
    let l = link_len(s);
    same_family(s) ==> if s.dst_ip is V4 {
        r.subrange(l + 2, l + 4) == be16_bytes(total_v4)
    } else {
        r.subrange(l + 4, l + 6) == be16_bytes(payload_v6)
    }
}

/// The IP header followed by the transport layer `l4`, or nothing for
/// mismatched address families.
fn ip_packet(s: &ProbeSetting, protocol_v4: u8, protocol_v6: u8, ttl: u8, total_v4: u16, payload_v6: u16, l4: Vec<u8>) -> (r: Vec<u8>)
    requires
        protocol_v4 == IP_PROTO_ICMP || protocol_v4 == IP_PROTO_TCP || protocol_v4 == IP_PROTO_UDP,
        protocol_v6 == IP_PROTO_TCP || protocol_v6 == IP_PROTO_UDP || protocol_v6 == IP_PROTO_ICMPV6,
    ensures
        same_family(*s) ==> r@.len() == ip_header_len(s.dst_ip) + l4@.len()
            && ip_header_agrees(r@.subrange(0, ip_header_len(s.dst_ip)), *s, protocol_v4, protocol_v6, ttl)
            && r@.subrange(ip_header_len(s.dst_ip), r@.len() as int) == l4@
            && (s.dst_ip is V4 ==> r@.subrange(2, 4) == be16_bytes(total_v4))
            && (s.dst_ip is V6 ==> r@.subrange(4, 6) == be16_bytes(payload_v6)),
        !same_family(*s) ==> r@.len() == 0,
{
    let mut t = l4;
    match (&s.src_ip, &s.dst_ip) {
        (IpAddr::V4(a), IpAddr::V4(b)) => {
            let mut h = encode_ipv4(*a, *b, protocol_v4, ttl, Some(total_v4));
            let ghost hh = h@;
            let ghost tt = t@;
            h.append(&mut t);
            assert(h@.subrange(0, 20) == hh);
            assert(h@.subrange(2, 4) == hh.subrange(2, 4));
            assert(h@.subrange(20, h@.len() as int) == tt);
            h
        }
        (IpAddr::V6(a), IpAddr::V6(b)) => {
            let mut h = encode_ipv6(*a, *b, protocol_v6, ttl, Some(payload_v6));
            let ghost hh = h@;
            let ghost tt = t@;
            h.append(&mut t);
            assert(h@.subrange(0, 40) == hh);
            assert(h@.subrange(4, 6) == hh.subrange(4, 6));
            assert(h@.subrange(40, h@.len() as int) == tt);
            h
        }
        _ => Vec::new(),
    }
}

/// Frames an IP packet for the setting.
fn ip_frame(s: &ProbeSetting, protocol_v4: u8, protocol_v6: u8, ttl: u8, total_v4: u16, payload_v6: u16, l4: Vec<u8>) -> (r: Vec<u8>)
    requires
        protocol_v4 == IP_PROTO_ICMP || protocol_v4 == IP_PROTO_TCP || protocol_v4 == IP_PROTO_UDP,
        protocol_v6 == IP_PROTO_TCP || protocol_v6 == IP_PROTO_UDP || protocol_v6 == IP_PROTO_ICMPV6,
    ensures
        ip_frame_ok(r@, *s, ether_type_for(s.dst_ip), protocol_v4, protocol_v6, ttl, l4@.len() as int),
        ip_length_ok(r@, *s, total_v4, payload_v6),
        same_family(*s) ==> l4_of(r@, *s) == l4@,
{
    let et = ether_type_of_dst(&s.dst_ip);
    let body = ip_packet(s, protocol_v4, protocol_v6, ttl, total_v4, payload_v6, l4);
    let ghost bv = body@;
    let r = with_link(s, et, body);
    proof {
        let l = link_len(*s);
        let h = ip_header_len(s.dst_ip);
        if !s.tunnel {
            assert(r@.subrange(0, 14) == ethernet_header(s.dst_mac.octets@, s.src_mac.octets@, et));
            assert(r@.subrange(14, r@.len() as int) == bv);
        }
        if same_family(*s) {
            assert(r@.subrange(l, l + h) == bv.subrange(0, h));
            assert(r@.subrange(l + 2, l + 4) == bv.subrange(2, 4));
            assert(r@.subrange(l + 4, l + 6) == bv.subrange(4, 6));
            assert(l4_of(r@, *s) == bv.subrange(h, bv.len() as int));
        }
    }
    r
}

/// An ARP request frame of the setting: a broadcast Ethernet header and the
/// request for `dst_ip` from `src_mac`/`src_ip`; only the Ethernet header
/// when the addresses are not both IPv4.
pub open spec fn arp_packet_ok(r: Seq<u8>, s: ProbeSetting) -> bool {
    &&& r.subrange(0, 14) == ethernet_header(broadcast_octets(), s.src_mac.octets@, ETHER_TYPE_ARP)
    &&& ((s.src_ip is V4 && s.dst_ip is V4) ==> r.len() == 42 && r.subrange(14, 42) == arp_request(
        s.src_mac.octets@,
        crate::addr::ip_octets(s.src_ip),
        crate::addr::ip_octets(s.dst_ip),
    ))
    &&& (!(s.src_ip is V4 && s.dst_ip is V4) ==> r.len() == 14)
}

/// Builds an ARP request: an Ethernet broadcast frame carrying the request
/// for `dst_ip` from `src_mac`/`src_ip`; only the Ethernet header when the
/// addresses are not both IPv4.
pub fn build_arp_packet(setting: &ProbeSetting) -> (r: Vec<u8>)
    ensures
        arp_packet_ok(r@, *setting),
{
    let mut r = encode_ethernet(&setting.src_mac, &MacAddr::broadcast(), ETHER_TYPE_ARP);
    let ghost e = r@;
    if let (IpAddr::V4(a), IpAddr::V4(b)) = (&setting.src_ip, &setting.dst_ip) {
        let mut arp = encode_arp(&setting.src_mac, *a, *b);
        let ghost av = arp@;
        r.append(&mut arp);
        assert(r@.subrange(0, 14) == e);
        assert(r@.subrange(14, 42) == av);
    } else {
        assert(r@.subrange(0, 14) =~= e);
    }
    r
}

/// A Neighbor Solicitation frame of the setting: a broadcast Ethernet header,
/// an IPv6 header with hop limit 255 and payload length 32, and the
/// solicitation for `dst_ip` with the source link-layer address option
/// (type 1, length 1); only the Ethernet header when the addresses are not
/// both IPv6.
pub open spec fn ndp_packet_ok(r: Seq<u8>, s: ProbeSetting) -> bool {
    &&& r.subrange(0, 14) == ethernet_header(broadcast_octets(), s.src_mac.octets@, ETHER_TYPE_IPV6)
    &&& ((s.src_ip is V6 && s.dst_ip is V6) ==> {
        &&& r.len() == 86
        &&& ipv6_header_ok(r.subrange(14, 54), crate::addr::ip_octets(s.src_ip), crate::addr::ip_octets(s.dst_ip), IP_PROTO_ICMPV6, 255)
        &&& r.subrange(18, 20) == be16_bytes(NDP_PAYLOAD_LEN)
        &&& r[54] == ICMPV6_NEIGHBOR_SOLICITATION
        &&& r.subrange(62, 78) == crate::addr::ip_octets(s.dst_ip)
        &&& r[78] == 1 && r[79] == 1
        &&& r.subrange(80, 86) == s.src_mac.octets@
    })
    &&& (!(s.src_ip is V6 && s.dst_ip is V6) ==> r.len() == 14)
}

/// Builds a Neighbor Solicitation: an Ethernet broadcast frame with an IPv6
/// header (hop limit 255) and the solicitation carrying the source
/// link-layer address; only the Ethernet header when the addresses are not
/// both IPv6.
pub fn build_ndp_packet(setting: &ProbeSetting) -> (r: Vec<u8>)
    ensures
        ndp_packet_ok(r@, *setting),
{
    let mut r = encode_ethernet(&setting.src_mac, &MacAddr::broadcast(), ETHER_TYPE_IPV6);
    let ghost e = r@;
    if let (IpAddr::V6(a), IpAddr::V6(b)) = (&setting.src_ip, &setting.dst_ip) {
        let mut h = encode_ipv6(*a, *b, IP_PROTO_ICMPV6, 255, Some(NDP_PAYLOAD_LEN));
        let ghost hv = h@;
        let mut ndp = encode_ndp(&setting.src_mac, *a, *b);
        let ghost nv = ndp@;
        r.append(&mut h);
        r.append(&mut ndp);
        assert(r@.subrange(0, 14) == e);
        assert(r@.subrange(14, 54) == hv);
        assert(r@.subrange(18, 20) == hv.subrange(4, 6));
        assert(r@.subrange(54, 86) == nv);
        assert(r@.subrange(62, 78) == nv.subrange(8, 24));
        assert(r@.subrange(80, 86) == nv.subrange(26, 32));
        assert(r@[78] == nv[24] && r@[79] == nv[25]);
    } else {
        assert(r@.subrange(0, 14) =~= e);
    }
    r
}

/// The ICMP type of the stimulus of an ICMP fingerprinting probe over IPv4.
pub open spec fn icmp_stimulus(t: FingerprintType) -> u8 {
    match t {
        FingerprintType::IcmpTimestamp => ICMP_TIMESTAMP_REQUEST,
        FingerprintType::IcmpAddressMask => ICMP_ADDRESS_MASK_REQUEST,
        FingerprintType::IcmpInformation => ICMP_INFORMATION_REQUEST,
        _ => ICMP_ECHO_REQUEST,
    }
}

/// An ICMP request frame of the setting with the given TTL: the ICMP type
/// over IPv4, an echo request over IPv6; the IPv4 total length is 28 and the
/// IPv6 payload length 8.
pub open spec fn icmp_packet_ok(r: Seq<u8>, s: ProbeSetting, ttl: u8, icmp_type: u8) -> bool {
    &&& ip_frame_ok(r, s, ether_type_for(s.dst_ip), IP_PROTO_ICMP, IP_PROTO_ICMPV6, ttl, 8)
    &&& ip_length_ok(r, s, 28, 8)
    &&& same_family(s) ==> l4_of(r, s)[0] == (if s.dst_ip is V4 { icmp_type } else { ICMPV6_ECHO_REQUEST })
        && l4_of(r, s)[1] == 0
}

fn icmp_request(s: &ProbeSetting, icmp_type: u8, ttl: u8) -> (r: Vec<u8>)
    ensures
        icmp_packet_ok(r@, *s, ttl, icmp_type),
{
    let l4 = match (&s.src_ip, &s.dst_ip) {
        (IpAddr::V4(a), IpAddr::V4(b)) => encode_icmp(*a, *b, icmp_type),
        (IpAddr::V6(a), IpAddr::V6(b)) => encode_icmpv6(*a, *b, ICMPV6_ECHO_REQUEST),
        _ => Vec::new(),
    };
    ip_frame(s, IP_PROTO_ICMP, IP_PROTO_ICMPV6, ttl, 28, 8, l4)
}

/// Builds an ICMP (or ICMPv6) echo request with the given TTL, or the
/// setting's hop limit.
pub fn build_icmp_packet(setting: &ProbeSetting, hop_limit: Option<u8>) -> (r: Vec<u8>)
    ensures
        icmp_packet_ok(r@, *setting, ttl_choice(*setting, hop_limit), ICMP_ECHO_REQUEST),
{
    let ttl = match hop_limit {
        Some(h) => h,
        None => setting.hop_limit,
    };
    icmp_request(setting, ICMP_ECHO_REQUEST, ttl)
}

/// Builds the stimulus of an ICMP fingerprinting probe: an echo, timestamp,
/// address mask or information request (IPv6 knows only the echo request).
pub fn build_icmp_probe_packet(setting: &ProbeSetting, probe_type: FingerprintType) -> (r: Vec<u8>)
    ensures
        icmp_packet_ok(r@, *setting, setting.hop_limit, icmp_stimulus(probe_type)),
{
    let t = match probe_type {
        FingerprintType::IcmpTimestamp => ICMP_TIMESTAMP_REQUEST,
        FingerprintType::IcmpAddressMask => ICMP_ADDRESS_MASK_REQUEST,
        FingerprintType::IcmpInformation => ICMP_INFORMATION_REQUEST,
        _ => ICMP_ECHO_REQUEST,
    };
    icmp_request(setting, t, setting.hop_limit)
}

/// A UDP datagram header with the given ports and no payload.
pub open spec fn udp_header_ok(u: Seq<u8>, src_port: u16, dst_port: u16) -> bool {
    &&& u.len() == 8
    &&& u.subrange(0, 2) == be16_bytes(src_port)
    &&& u.subrange(2, 4) == be16_bytes(dst_port)
    &&& u.subrange(4, 6) == be16_bytes(8)
}

pub open spec fn port_or(p: Option<u16>, default: u16) -> u16 {
    match p {
        Some(v) => v,
        None => default,
    }
}

/// A UDP probe frame of the setting with the given TTL, from the source port
/// (default 53445) to the destination port (default 33435); the IPv4 total
/// length is 28 and the IPv6 payload length 8.
pub open spec fn udp_packet_ok(r: Seq<u8>, s: ProbeSetting, ttl: u8) -> bool {
    &&& ip_frame_ok(r, s, ether_type_for(s.dst_ip), IP_PROTO_UDP, IP_PROTO_UDP, ttl, 8)
    &&& ip_length_ok(r, s, 28, 8)
    &&& same_family(s) ==> udp_header_ok(l4_of(r, s), port_or(s.src_port, UDP_DEFAULT_SRC_PORT), port_or(s.dst_port, UDP_BASE_DST_PORT))
}

/// Builds a UDP probe to the setting's destination port (default 33435)
/// from its source port (default 53445), with the given TTL or the setting's
/// hop limit.
pub fn build_udp_packet(setting: &ProbeSetting, hop_limit: Option<u8>) -> (r: Vec<u8>)
    ensures
        udp_packet_ok(r@, *setting, ttl_choice(*setting, hop_limit)),
{
    let ttl = match hop_limit {
        Some(h) => h,
        None => setting.hop_limit,
    };
    let sp = match setting.src_port {
        Some(p) => p,
        None => UDP_DEFAULT_SRC_PORT,
    };
    let dp = match setting.dst_port {
        Some(p) => p,
        None => UDP_BASE_DST_PORT,
    };
    let l4 = if same_family_exec(setting) { encode_udp(&setting.src_ip, sp, &setting.dst_ip, dp) } else { Vec::new() };
    ip_frame(setting, IP_PROTO_UDP, IP_PROTO_UDP, ttl, 28, 8, l4)
}

/// Builds the UDP stimulus of a fingerprinting probe.
pub fn build_udp_probe_packet(setting: &ProbeSetting) -> (r: Vec<u8>)
    ensures
        udp_packet_ok(r@, *setting, setting.hop_limit),
{
    build_udp_packet(setting, None)
}

fn same_family_exec(s: &ProbeSetting) -> (r: bool)
    ensures
        r == same_family(*s),
{
    match (&s.src_ip, &s.dst_ip) {
        (IpAddr::V4(_), IpAddr::V4(_)) => true,
        (IpAddr::V6(_), IpAddr::V6(_)) => true,
        _ => false,
    }
}

/// A TCP header with the given ports, flags, window and options, the
/// options zero-padded to a multiple of four bytes.
pub open spec fn tcp_header_ok(t: Seq<u8>, src_port: u16, dst_port: u16, flags: u8, window: u16, opts: Seq<TcpOpt>) -> bool {
    let n = tcp_options_len(opts);
    &&& t.len() == 20 + padded_len(n)
    &&& t.subrange(0, 2) == be16_bytes(src_port)
    &&& t.subrange(2, 4) == be16_bytes(dst_port)
    &&& t[12] == (5 + padded_len(n) / 4) * 16
    &&& t[13] == flags
    &&& t.subrange(14, 16) == be16_bytes(window)
    &&& t.subrange(20, 20 + n) == tcp_options_bytes(opts)
    &&& forall|i: int| 20 + n <= i < t.len() ==> t[i] == 0
}

/// A TCP frame of the setting with the given TTL, flags, window and options,
/// from the source port (default 44322) to the destination port (default
/// 80), announcing the given IP lengths; the link layer only for mismatched
/// address families.
pub open spec fn tcp_packet_ok(r: Seq<u8>, s: ProbeSetting, ttl: u8, flags: u8, window: u16, opts: Seq<TcpOpt>, total_v4: u16, payload_v6: u16) -> bool {
    &&& same_family(s) ==> {
        &&& ip_frame_ok(r, s, ether_type_for(s.dst_ip), IP_PROTO_TCP, IP_PROTO_TCP, ttl, 20 + padded_len(tcp_options_len(opts)))
        &&& ip_length_ok(r, s, total_v4, payload_v6)
        &&& tcp_header_ok(l4_of(r, s), port_or(s.src_port, TCP_DEFAULT_SRC_PORT), port_or(s.dst_port, TCP_DEFAULT_DST_PORT), flags, window, opts)
    }
    &&& !same_family(s) ==> ip_frame_ok(r, s, ether_type_for(s.dst_ip), IP_PROTO_TCP, IP_PROTO_TCP, ttl, 0)
}

/// The options of a TCP ping SYN.
pub open spec fn syn_options() -> Seq<TcpOpt> {
    seq![TcpOpt::Mss(1460), TcpOpt::SackPerm, TcpOpt::Nop, TcpOpt::Nop, TcpOpt::WScale(7)]
}

/// The options of a TCP fingerprinting stimulus.
pub open spec fn fingerprint_options() -> Seq<TcpOpt> {
    seq![
        TcpOpt::Mss(1460),
        TcpOpt::Nop,
        TcpOpt::WScale(6),
        TcpOpt::Nop,
        TcpOpt::Nop,
        TcpOpt::Timestamp(u32::MAX, 0),
        TcpOpt::SackPerm,
    ]
}

proof fn lemma_option_lengths()
    ensures
        tcp_options_len(syn_options()) == 11,
        tcp_options_len(fingerprint_options()) == 22,
{
    reveal_with_fuel(tcp_options_bytes, 8);
    assert(syn_options().drop_last().drop_last().drop_last().drop_last().drop_last() =~= Seq::<TcpOpt>::empty());
    assert(fingerprint_options().drop_last().drop_last().drop_last().drop_last().drop_last().drop_last().drop_last()
        =~= Seq::<TcpOpt>::empty());
}

/// A TCP frame of the setting, the link layer alone for mismatched address
/// families.
fn tcp_frame(s: &ProbeSetting, ttl: u8, flags: u8, window: u16, opts: &[TcpOpt], total_v4: u16, payload_v6: u16) -> (r: Vec<u8>)
    requires
        tcp_options_len(opts@) <= 40,
    ensures
        tcp_packet_ok(r@, *s, ttl, flags, window, opts@, total_v4, payload_v6),
{
    if !same_family_exec(s) {
        return ip_frame(s, IP_PROTO_TCP, IP_PROTO_TCP, ttl, total_v4, payload_v6, Vec::new());
    }
    let sp = match s.src_port {
        Some(p) => p,
        None => TCP_DEFAULT_SRC_PORT,
    };
    let dp = match s.dst_port {
        Some(p) => p,
        None => TCP_DEFAULT_DST_PORT,
    };
    let l4 = encode_tcp(&s.src_ip, sp, &s.dst_ip, dp, flags, window, opts);
    ip_frame(s, IP_PROTO_TCP, IP_PROTO_TCP, ttl, total_v4, payload_v6, l4)
}

/// Builds a TCP SYN with options MSS 1460, SACK permitted, NOP, NOP and
/// window scale 7, from the source port (default 44322) to the destination
/// port (default 80), with the given TTL or the setting's hop limit.
pub fn build_tcp_packet(setting: &ProbeSetting, hop_limit: Option<u8>) -> (r: Vec<u8>)
    ensures
        tcp_packet_ok(r@, *setting, ttl_choice(*setting, hop_limit), TCP_SYN, TCP_PING_WINDOW, syn_options(), 52, 32),
{
    let ttl = match hop_limit {
        Some(h) => h,
        None => setting.hop_limit,
    };
    let opts = [TcpOpt::Mss(1460), TcpOpt::SackPerm, TcpOpt::Nop, TcpOpt::Nop, TcpOpt::WScale(7)];
    proof {
        lemma_option_lengths();
        assert(opts@ =~= syn_options());
    }
    tcp_frame(setting, ttl, TCP_SYN, TCP_PING_WINDOW, opts.as_slice(), 52, 32)
}

/// The flags of the stimulus of a TCP fingerprinting probe.
pub open spec fn tcp_stimulus_flags(t: FingerprintType) -> u8 {
    if t == FingerprintType::TcpEcn { TCP_CWR_ECE_SYN } else { TCP_SYN }
}

/// Builds the stimulus of a TCP fingerprinting probe: window 65535, options
/// MSS 1460, NOP, window scale 6, NOP, NOP, timestamps and SACK permitted;
/// SYN, or CWR+ECE+SYN for the ECN probe. The IP header announces a total
/// length of 64 (IPv4) or a payload length of 44 (IPv6).
pub fn build_tcp_probe_packet(setting: &ProbeSetting, probe_type: FingerprintType) -> (r: Vec<u8>)
    ensures
        tcp_packet_ok(r@, *setting, setting.hop_limit, tcp_stimulus_flags(probe_type), TCP_PROBE_WINDOW,
            fingerprint_options(), TCP_PROBE_IPV4_TOTAL_LEN, TCP_PROBE_IPV6_PAYLOAD_LEN),
{
    let flags = if probe_type == FingerprintType::TcpEcn { TCP_CWR_ECE_SYN } else { TCP_SYN };
    let opts = [
        TcpOpt::Mss(1460),
        TcpOpt::Nop,
        TcpOpt::WScale(6),
        TcpOpt::Nop,
        TcpOpt::Nop,
        TcpOpt::Timestamp(u32::MAX, 0),
        TcpOpt::SackPerm,
    ];
    proof {
        lemma_option_lengths();
        assert(opts@ =~= fingerprint_options());
    }
    tcp_frame(setting, setting.hop_limit, flags, TCP_PROBE_WINDOW, opts.as_slice(), TCP_PROBE_IPV4_TOTAL_LEN, TCP_PROBE_IPV6_PAYLOAD_LEN)
}

/// Builds a TCP segment with the given flags, window 65535 and the default
/// SYN options, with TTL 64.
pub fn build_tcp_control_packet(probe_setting: &ProbeSetting, tcp_flags: u8) -> (r: Vec<u8>)
    ensures
        tcp_packet_ok(r@, *probe_setting, 64, tcp_flags, TCP_PROBE_WINDOW, syn_options(), 52, 32),
{
    let opts = [TcpOpt::Mss(1460), TcpOpt::SackPerm, TcpOpt::Nop, TcpOpt::Nop, TcpOpt::WScale(7)];
    proof {
        lemma_option_lengths();
        assert(opts@ =~= syn_options());
    }
    tcp_frame(probe_setting, 64, tcp_flags, TCP_PROBE_WINDOW, opts.as_slice(), 52, 32)
}

/// Building then decoding an ARP request gives back what it was built from:
/// the ARP EtherType, the Request operation, the sender hardware and
/// protocol addresses and the target protocol address.
pub proof fn lemma_arp_round_trip(src_mac: MacAddr, src_ip: [u8; 4], dst_ip: [u8; 4], frame: Frame)
    requires
        frame_agrees(
            frame,
            ethernet_header(broadcast_octets(), src_mac.octets@, ETHER_TYPE_ARP) + arp_request(src_mac.octets@, src_ip@, dst_ip@),
            ParseOption { from_ip_packet: false, offset: 0 },
        ),
    ensures
        frame.ethernet.is_some(),
        frame.ethernet.unwrap().ether_type == ETHER_TYPE_ARP,
        frame.ethernet.unwrap().source.octets@ == src_mac.octets@,
        frame.arp.is_some(),
        frame.arp.unwrap().operation == 1,
        frame.arp.unwrap().sender_hw_addr.octets@ == src_mac.octets@,
        frame.arp.unwrap().sender_proto_addr@ == src_ip@,
        frame.arp.unwrap().target_proto_addr@ == dst_ip@,
        frame.ipv4.is_none() && frame.ipv6.is_none(),
{
    let e = ethernet_header(broadcast_octets(), src_mac.octets@, ETHER_TYPE_ARP);
    let a = arp_request(src_mac.octets@, src_ip@, dst_ip@);
    let b = e + a;
    assert(b.len() == 42);
    assert(b.subrange(0, 6) =~= broadcast_octets());
    assert(b.subrange(6, 12) =~= src_mac.octets@);
    assert(b[12] == 8 && b[13] == 6);
    assert(be16(b, 12) == ETHER_TYPE_ARP);
    let n = b.subrange(14, 42);
    assert(n =~= a);
    assert(n[6] == 0 && n[7] == 1);
    assert(be16(n, 6) == 1);
    assert(n.subrange(8, 14) =~= src_mac.octets@);
    assert(n.subrange(14, 18) =~= src_ip@);
    assert(n.subrange(24, 28) =~= dst_ip@);
}

/// Building then decoding an ICMP echo request to an IPv4 destination gives
/// an IPv4 layer from the source to the destination with the TTL it was
/// sent with, and the Echo Request type that an Echo Reply answers; the
/// echo-reply filter does not take the request for its own reply.
pub proof fn lemma_echo_request_round_trip(s: ProbeSetting, b: Seq<u8>, ttl: u8, frame: Frame)
    requires
        s.src_ip is V4 && s.dst_ip is V4,
        !s.tunnel,
        icmp_packet_ok(b, s, ttl, ICMP_ECHO_REQUEST),
        frame_agrees(frame, b, ParseOption { from_ip_packet: false, offset: 0 }),
    ensures
        frame.ipv4.is_some(),
        frame.ipv4.unwrap().source@ == crate::addr::ip_octets(s.src_ip),
        frame.ipv4.unwrap().destination@ == crate::addr::ip_octets(s.dst_ip),
        frame.ipv4.unwrap().ttl == ttl,
        frame.ipv4.unwrap().protocol == IP_PROTO_ICMP,
        frame.icmp_type == Some(ICMP_ECHO_REQUEST),
        !crate::filter::echo_reply_matches(s, frame),
{
    assert(b.len() == 42);
    let eh = b.subrange(0, 14);
    assert(eh[12] == b[12] && eh[13] == b[13]);
    assert(be16(b, 12) == ETHER_TYPE_IPV4);
    let n = b.subrange(14, 42);
    let h = b.subrange(14, 34);
    assert(n[0] == h[0]);
    assert(n[8] == h[8] && n[9] == h[9]);
    assert(n.subrange(12, 16) =~= h.subrange(12, 16));
    assert(n.subrange(16, 20) =~= h.subrange(16, 20));
    assert(n[0] % 16 == 5);
    assert(n.subrange(2, 4) =~= b.subrange(16, 18));
    assert(n[2] == 0 && n[3] == 28);
    let t = n.subrange(20, 28);
    assert(t =~= l4_of(b, s));
}

} // verus!
