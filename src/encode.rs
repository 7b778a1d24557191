use vstd::prelude::*;
use xenet::net::mac::MacAddr as XMacAddr;
use xenet::packet::ethernet::EtherType;
use xenet::packet::icmp::IcmpType;
use xenet::packet::icmpv6::Icmpv6Type;
use xenet::packet::ip::IpNextLevelProtocol;
use xenet::packet::tcp::TcpOption;
use xenet::util::packet_builder::arp::ArpPacketBuilder;
use xenet::util::packet_builder::ethernet::EthernetPacketBuilder;
use xenet::util::packet_builder::icmp::IcmpPacketBuilder;
use xenet::util::packet_builder::icmpv6::Icmpv6PacketBuilder;
use xenet::util::packet_builder::ipv4::Ipv4PacketBuilder;
use xenet::util::packet_builder::ipv6::Ipv6PacketBuilder;
use xenet::util::packet_builder::ndp::NdpPacketBuilder;
use xenet::util::packet_builder::tcp::TcpPacketBuilder;
use xenet::util::packet_builder::udp::UdpPacketBuilder;
use crate::addr::{IpAddr, MacAddr, broadcast_octets};
use crate::frame::{ETHER_TYPE_ARP, ETHER_TYPE_IPV4, ETHER_TYPE_IPV6, IP_PROTO_ICMP, IP_PROTO_ICMPV6, IP_PROTO_TCP, IP_PROTO_UDP};

verus! {

/// A TCP option of an outgoing segment.
#[derive(Clone, Copy, Debug)]
pub enum TcpOpt {
    Mss(u16),
    SackPerm,
    Nop,
    WScale(u8),
    Timestamp(u32, u32),
}

/// The wire form of a TCP option: kind, length (but for NOP) and data.
pub open spec fn tcp_option_bytes(o: TcpOpt) -> Seq<u8> {
    match o {
        TcpOpt::Mss(v) => seq![2u8, 4u8] + be16_bytes(v),
        TcpOpt::SackPerm => seq![4u8, 2u8],
        TcpOpt::Nop => seq![1u8],
        TcpOpt::WScale(v) => seq![3u8, 3u8, v],
        TcpOpt::Timestamp(a, b) => seq![8u8, 10u8] + be32_bytes(a) + be32_bytes(b),
    }
}

/// The options one after the other.
pub open spec fn tcp_options_bytes(opts: Seq<TcpOpt>) -> Seq<u8>
    decreases opts.len(),
{
    if opts.len() == 0 {
        Seq::empty()
    } else {
        tcp_options_bytes(opts.drop_last()) + tcp_option_bytes(opts.last())
    }
}

/// Length of the options on the wire.
pub open spec fn tcp_options_len(opts: Seq<TcpOpt>) -> int {
    tcp_options_bytes(opts).len() as int
}

/// `n` rounded up to a multiple of four.
pub open spec fn padded_len(n: int) -> int {
    if n % 4 == 0 { n } else { n - n % 4 + 4 }
}

/// The four bytes of `x`, most significant first.
pub open spec fn be32_bytes(x: u32) -> Seq<u8> {
    seq![(x / 0x100_0000) as u8, ((x / 0x1_0000) % 256) as u8, ((x / 256) % 256) as u8, (x % 256) as u8]
}

/// The two bytes of `x`, most significant first.
pub open spec fn be16_bytes(x: u16) -> Seq<u8> {
    seq![(x / 256) as u8, (x % 256) as u8]
}

/// An Ethernet header.
pub open spec fn ethernet_header(dst: Seq<u8>, src: Seq<u8>, ether_type: u16) -> Seq<u8> {
    dst + src + be16_bytes(ether_type)
}

/// An ARP request for Ethernet and IPv4 with a broadcast target hardware address.
pub open spec fn arp_request(sender_hw: Seq<u8>, sender_ip: Seq<u8>, target_ip: Seq<u8>) -> Seq<u8> {
    seq![0u8, 1u8, 8u8, 0u8, 6u8, 4u8, 0u8, 1u8] + sender_hw + sender_ip + broadcast_octets() + target_ip
}

/// The fields of an IPv4 header without options; identification and
/// checksum are left open.
pub open spec fn ipv4_header_ok(h: Seq<u8>, src: Seq<u8>, dst: Seq<u8>, protocol: u8, ttl: u8) -> bool {
    &&& h.len() == 20
    &&& h[0] == 0x45
    &&& h[8] == ttl
    &&& h[9] == protocol
    &&& h.subrange(12, 16) == src
    &&& h.subrange(16, 20) == dst
}

/// The fields of an IPv6 header with no traffic class or flow label.
pub open spec fn ipv6_header_ok(h: Seq<u8>, src: Seq<u8>, dst: Seq<u8>, next_header: u8, hop_limit: u8) -> bool {
    &&& h.len() == 40
    &&& h[0] == 0x60
    &&& h[6] == next_header
    &&& h[7] == hop_limit
    &&& h.subrange(8, 24) == src
    &&& h.subrange(24, 40) == dst
}

/// Relies on xenet's EthernetPacketBuilder::build: destination, source and
/// EtherType in 14 bytes, for the ARP, IPv4 and IPv6 EtherTypes.
#[verifier::external_body]
pub(crate) fn encode_ethernet(src: &MacAddr, dst: &MacAddr, ether_type: u16) -> (r: Vec<u8>)
    requires
        ether_type == ETHER_TYPE_ARP || ether_type == ETHER_TYPE_IPV4 || ether_type == ETHER_TYPE_IPV6,
    ensures
        r@ == ethernet_header(dst.octets@, src.octets@, ether_type),
{
    let (s, d) = (src.octets, dst.octets);
    EthernetPacketBuilder {
        src_mac: XMacAddr::new(s[0], s[1], s[2], s[3], s[4], s[5]),
        dst_mac: XMacAddr::new(d[0], d[1], d[2], d[3], d[4], d[5]),
        ether_type: EtherType::new(ether_type),
    }.build()
}

/// Relies on xenet's ArpPacketBuilder::build: an ARP request of 28 bytes.
#[verifier::external_body]
pub(crate) fn encode_arp(src_mac: &MacAddr, src_ip: [u8; 4], dst_ip: [u8; 4]) -> (r: Vec<u8>)
    ensures
        r@ == arp_request(src_mac.octets@, src_ip@, dst_ip@),
{
    let s = src_mac.octets;
    ArpPacketBuilder {
        src_mac: XMacAddr::new(s[0], s[1], s[2], s[3], s[4], s[5]),
        dst_mac: XMacAddr::broadcast(),
        src_ip: src_ip.into(),
        dst_ip: dst_ip.into(),
    }.build()
}

/// Relies on xenet's Ipv4PacketBuilder::build: a 20-byte header with the
/// Don't Fragment flag; the identification is random.
#[verifier::external_body]
pub(crate) fn encode_ipv4(src: [u8; 4], dst: [u8; 4], protocol: u8, ttl: u8, total_length: Option<u16>) -> (r: Vec<u8>)
    requires
        protocol == IP_PROTO_ICMP || protocol == IP_PROTO_TCP || protocol == IP_PROTO_UDP,
    ensures
        ipv4_header_ok(r@, src@, dst@, protocol, ttl),
        r@.subrange(2, 4) == be16_bytes(match total_length {
            Some(l) => l,
            None => if protocol == IP_PROTO_TCP { 52u16 } else { 28u16 },
        }),
{
    let mut b = Ipv4PacketBuilder::new(src.into(), dst.into(), IpNextLevelProtocol::new(protocol));
    b.ttl = Some(ttl);
    b.total_length = total_length;
    b.build()
}

/// Relies on xenet's Ipv6PacketBuilder::build: a 40-byte header for the TCP,
/// UDP and ICMPv6 next headers.
#[verifier::external_body]
pub(crate) fn encode_ipv6(src: [u8; 16], dst: [u8; 16], next_header: u8, hop_limit: u8, payload_length: Option<u16>) -> (r: Vec<u8>)
    requires
        next_header == IP_PROTO_TCP || next_header == IP_PROTO_UDP || next_header == IP_PROTO_ICMPV6,
    ensures
        ipv6_header_ok(r@, src@, dst@, next_header, hop_limit),
        r@.subrange(4, 6) == be16_bytes(match payload_length {
            Some(l) => l,
            None => if next_header == IP_PROTO_TCP { 32u16 } else { 8u16 },
        }),
{
    let mut b = Ipv6PacketBuilder::new(src.into(), dst.into(), IpNextLevelProtocol::new(next_header));
    b.hop_limit = Some(hop_limit);
    b.payload_length = payload_length;
    b.build()
}

/// Relies on xenet's IcmpPacketBuilder::build: an 8-byte ICMP echo-shaped
/// message of the given type; identifier and sequence number are random.
#[verifier::external_body]
pub(crate) fn encode_icmp(src: [u8; 4], dst: [u8; 4], icmp_type: u8) -> (r: Vec<u8>)
    ensures
        r@.len() == 8,
        r@[0] == icmp_type,
        r@[1] == 0,
{
    let mut b = IcmpPacketBuilder::new(src.into(), dst.into());
    b.icmp_type = IcmpType::new(icmp_type);
    b.build()
}

/// Relies on xenet's Icmpv6PacketBuilder::build: an 8-byte ICMPv6
/// echo-shaped message of the given type; identifier and sequence number are
/// random.
#[verifier::external_body]
pub(crate) fn encode_icmpv6(src: [u8; 16], dst: [u8; 16], icmpv6_type: u8) -> (r: Vec<u8>)
    ensures
        r@.len() == 8,
        r@[0] == icmpv6_type,
        r@[1] == 0,
{
    let mut b = Icmpv6PacketBuilder::new(src.into(), dst.into());
    b.icmpv6_type = Icmpv6Type::new(icmpv6_type);
    b.build()
}

/// Relies on xenet's NdpPacketBuilder::build: a 32-byte Neighbor Solicitation
/// for `dst_ip` carrying the source link-layer address option.
#[verifier::external_body]
pub(crate) fn encode_ndp(src_mac: &MacAddr, src_ip: [u8; 16], dst_ip: [u8; 16]) -> (r: Vec<u8>)
    ensures
        r@.len() == 32,
        r@[0] == 135,
        r@.subrange(8, 24) == dst_ip@,
        r@[24] == 1 && r@[25] == 1,
        r@.subrange(26, 32) == src_mac.octets@,
{
    let s = src_mac.octets;
    NdpPacketBuilder::new(XMacAddr::new(s[0], s[1], s[2], s[3], s[4], s[5]), src_ip.into(), dst_ip.into()).build()
}

/// Relies on xenet's UdpPacketBuilder::build: an 8-byte UDP header with no
/// payload.
#[verifier::external_body]
pub(crate) fn encode_udp(src: &IpAddr, src_port: u16, dst: &IpAddr, dst_port: u16) -> (r: Vec<u8>)
    ensures
        r@.len() == 8,
        r@.subrange(0, 2) == be16_bytes(src_port),
        r@.subrange(2, 4) == be16_bytes(dst_port),
        r@.subrange(4, 6) == be16_bytes(8),
{
    let ip = |a: &IpAddr| match *a {
        IpAddr::V4(o) => core::net::IpAddr::from(o),
        IpAddr::V6(o) => core::net::IpAddr::from(o),
    };
    UdpPacketBuilder { src_ip: ip(src), src_port, dst_ip: ip(dst), dst_port, payload: Vec::new() }.build()
}

/// Relies on xenet's TcpOption constructors and TcpPacketBuilder::build: a
/// TCP header with ports, flags and window in place, the options written one
/// after the other behind the fixed 20 bytes and zero-padded to a multiple
/// of four, and the data offset announcing that length. The options must fit
/// the 40 bytes a TCP header has room for.
#[verifier::external_body]
pub(crate) fn encode_tcp(src: &IpAddr, src_port: u16, dst: &IpAddr, dst_port: u16, flags: u8, window: u16, opts: &[TcpOpt]) -> (r: Vec<u8>)
    requires
        tcp_options_len(opts@) <= 40,
    ensures
        r@.len() == 20 + padded_len(tcp_options_len(opts@)),
        r@.subrange(0, 2) == be16_bytes(src_port),
        r@.subrange(2, 4) == be16_bytes(dst_port),
        r@[12] == (5 + padded_len(tcp_options_len(opts@)) / 4) * 16,
        r@[13] == flags,
        r@.subrange(14, 16) == be16_bytes(window),
        r@.subrange(20, 20 + tcp_options_len(opts@)) == tcp_options_bytes(opts@),
        forall|i: int| 20 + tcp_options_len(opts@) <= i < r@.len() ==> r@[i] == 0,
{
    let ip = |a: &IpAddr| match *a {
        IpAddr::V4(o) => core::net::IpAddr::from(o),
        IpAddr::V6(o) => core::net::IpAddr::from(o),
    };
    let options = opts.iter().map(|o| match *o {
        TcpOpt::Mss(v) => TcpOption::mss(v),
        TcpOpt::SackPerm => TcpOption::sack_perm(),
        TcpOpt::Nop => TcpOption::nop(),
        TcpOpt::WScale(v) => TcpOption::wscale(v),
        TcpOpt::Timestamp(a, b) => TcpOption::timestamp(a, b),
    }).collect();
    let (src_ip, dst_ip) = (ip(src), ip(dst));
    TcpPacketBuilder { src_ip, src_port, dst_ip, dst_port, window, flags, options, payload: Vec::new() }.build()
}

} // verus!
