use vstd::prelude::*;
use vstd::slice::slice_subrange;
use xenet::packet::PrimitiveValues;
use xenet::packet::arp::ArpHeader;
use xenet::packet::ethernet::EthernetHeader;
use xenet::packet::icmp::IcmpHeader;
use xenet::packet::icmpv6::Icmpv6Header;
use xenet::packet::ipv4::Ipv4Header;
use xenet::packet::ipv6::Ipv6Header;
use xenet::packet::tcp::TcpHeader;
use crate::addr::MacAddr;

verus! {

pub const ETHERNET_HEADER_LEN: usize = 14;
pub const ARP_HEADER_LEN: usize = 28;
pub const IPV4_HEADER_LEN: usize = 20;
pub const IPV6_HEADER_LEN: usize = 40;
pub const ICMP_HEADER_LEN: usize = 8;
pub const TCP_HEADER_LEN: usize = 20;

pub const ETHER_TYPE_IPV4: u16 = 0x0800;
pub const ETHER_TYPE_ARP: u16 = 0x0806;
pub const ETHER_TYPE_IPV6: u16 = 0x86dd;

pub const IP_PROTO_ICMP: u8 = 1;
pub const IP_PROTO_TCP: u8 = 6;
pub const IP_PROTO_UDP: u8 = 17;
pub const IP_PROTO_ICMPV6: u8 = 58;

/// Ethernet header fields.
#[derive(Clone, Copy, Debug)]
pub struct EthernetView {
    pub destination: MacAddr,
    pub source: MacAddr,
    pub ether_type: u16,
}

/// ARP header fields.
#[derive(Clone, Copy, Debug)]
pub struct ArpView {
    pub operation: u16,
    pub sender_hw_addr: MacAddr,
    pub sender_proto_addr: [u8; 4],
    pub target_hw_addr: MacAddr,
    pub target_proto_addr: [u8; 4],
}

/// IPv4 header fields.
#[derive(Clone, Copy, Debug)]
pub struct Ipv4View {
    pub header_length: u8,
    pub ttl: u8,
    pub protocol: u8,
    pub source: [u8; 4],
    pub destination: [u8; 4],
}

/// IPv6 header fields.
#[derive(Clone, Copy, Debug)]
pub struct Ipv6View {
    pub next_header: u8,
    pub hop_limit: u8,
    pub source: [u8; 16],
    pub destination: [u8; 16],
}

/// TCP header fields.
#[derive(Clone, Copy, Debug)]
pub struct TcpView {
    pub source: u16,
    pub destination: u16,
    pub flags: u8,
}

/// A captured frame decoded layer by layer; a layer that is absent or too
/// short to hold its header is `None`.
#[derive(Clone, Copy, Debug)]
pub struct Frame {
    pub ethernet: Option<EthernetView>,
    pub arp: Option<ArpView>,
    pub ipv4: Option<Ipv4View>,
    pub ipv6: Option<Ipv6View>,
    pub icmp_type: Option<u8>,
    pub icmpv6_type: Option<u8>,
    pub tcp: Option<TcpView>,
}

/// Where decoding starts: at the Ethernet header, or (tunnel mode) at the
/// IP header found `offset` bytes into the capture.
#[derive(Clone, Copy, Debug)]
pub struct ParseOption {
    pub from_ip_packet: bool,
    pub offset: usize,
}

/// A big-endian 16-bit integer at `i`.
pub open spec fn be16(b: Seq<u8>, i: int) -> u16 {
    (b[i] as int * 256 + b[i + 1] as int) as u16
}

pub open spec fn ethernet_fields(v: EthernetView, b: Seq<u8>) -> bool {
    &&& v.destination.octets@ == b.subrange(0, 6)
    &&& v.source.octets@ == b.subrange(6, 12)
    &&& v.ether_type == be16(b, 12)
}

pub open spec fn arp_fields(v: ArpView, b: Seq<u8>) -> bool {
    &&& v.operation == be16(b, 6)
    &&& v.sender_hw_addr.octets@ == b.subrange(8, 14)
    &&& v.sender_proto_addr@ == b.subrange(14, 18)
    &&& v.target_hw_addr.octets@ == b.subrange(18, 24)
    &&& v.target_proto_addr@ == b.subrange(24, 28)
}

/// The protocol number as xenet reads it: the unassigned numbers 143 to 252
/// become 255 (reserved), every other number stays as it is.
pub open spec fn protocol_code(x: u8) -> u8 {
    if 143 <= x && x <= 252 { 255 } else { x }
}

pub open spec fn ipv4_fields(v: Ipv4View, b: Seq<u8>) -> bool {
    &&& v.header_length == b[0] % 16
    &&& v.ttl == b[8]
    &&& v.protocol == protocol_code(b[9])
    &&& v.source@ == b.subrange(12, 16)
    &&& v.destination@ == b.subrange(16, 20)
}

pub open spec fn ipv6_fields(v: Ipv6View, b: Seq<u8>) -> bool {
    &&& v.next_header == protocol_code(b[6])
    &&& v.hop_limit == b[7]
    &&& v.source@ == b.subrange(8, 24)
    &&& v.destination@ == b.subrange(24, 40)
}

pub open spec fn tcp_fields(v: TcpView, b: Seq<u8>) -> bool {
    &&& v.source == be16(b, 0)
    &&& v.destination == be16(b, 2)
    &&& v.flags == b[13]
}

/// Relies on xenet's EthernetHeader::from_bytes, which reads destination,
/// source and EtherType from the first 14 bytes and fails on fewer.
#[verifier::external_body]
fn decode_ethernet(b: &[u8]) -> (r: Option<EthernetView>)
    ensures
        r.is_some() == (b@.len() >= ETHERNET_HEADER_LEN),
        r.is_some() ==> ethernet_fields(r.unwrap(), b@),
{
    EthernetHeader::from_bytes(b).ok().map(|h| EthernetView {
        destination: MacAddr { octets: h.destination.octets() },
        source: MacAddr { octets: h.source.octets() },
        ether_type: h.ethertype.to_primitive_values().0,
    })
}

/// Relies on xenet's ArpHeader::from_bytes, which reads the 28-byte ARP
/// header for Ethernet and IPv4 and fails on fewer bytes.
#[verifier::external_body]
fn decode_arp(b: &[u8]) -> (r: Option<ArpView>)
    ensures
        r.is_some() == (b@.len() >= ARP_HEADER_LEN),
        r.is_some() ==> arp_fields(r.unwrap(), b@),
{
    ArpHeader::from_bytes(b).ok().map(|h| ArpView {
        operation: h.operation.to_primitive_values().0,
        sender_hw_addr: MacAddr { octets: h.sender_hw_addr.octets() },
        sender_proto_addr: h.sender_proto_addr.octets(),
        target_hw_addr: MacAddr { octets: h.target_hw_addr.octets() },
        target_proto_addr: h.target_proto_addr.octets(),
    })
}

/// Relies on xenet's Ipv4Header::from_bytes, which reads the fixed 20-byte
/// IPv4 header (and the options that its header length announces) and fails
/// on fewer bytes.
#[verifier::external_body]
fn decode_ipv4(b: &[u8]) -> (r: Option<Ipv4View>)
    requires
        b@.len() >= IPV4_HEADER_LEN ==> (b@[0] % 16) * 4 <= b@.len(),
    ensures
        r.is_some() == (b@.len() >= IPV4_HEADER_LEN),
        r.is_some() ==> ipv4_fields(r.unwrap(), b@),
{
    Ipv4Header::from_bytes(b).ok().map(|h| Ipv4View {
        header_length: h.header_length,
        ttl: h.ttl,
        protocol: h.next_level_protocol.to_primitive_values().0,
        source: h.source.octets(),
        destination: h.destination.octets(),
    })
}

/// Relies on xenet's Ipv6Header::from_bytes, which reads the 40-byte IPv6
/// header and fails on fewer bytes.
#[verifier::external_body]
fn decode_ipv6(b: &[u8]) -> (r: Option<Ipv6View>)
    ensures
        r.is_some() == (b@.len() >= IPV6_HEADER_LEN),
        r.is_some() ==> ipv6_fields(r.unwrap(), b@),
{
    Ipv6Header::from_bytes(b).ok().map(|h| Ipv6View {
        next_header: h.next_header.to_primitive_values().0,
        hop_limit: h.hop_limit,
        source: h.source.octets(),
        destination: h.destination.octets(),
    })
}

/// Relies on xenet's IcmpHeader::from_bytes: the ICMP type is the first byte;
/// it fails on fewer than 8 bytes.
#[verifier::external_body]
fn decode_icmp_type(b: &[u8]) -> (r: Option<u8>)
    ensures
        r.is_some() == (b@.len() >= ICMP_HEADER_LEN),
        r.is_some() ==> r.unwrap() == b@[0],
{
    IcmpHeader::from_bytes(b).ok().map(|h| h.icmp_type.to_primitive_values().0)
}

/// Relies on xenet's Icmpv6Header::from_bytes: the ICMPv6 type is the first
/// byte; it fails on fewer than 8 bytes.
#[verifier::external_body]
fn decode_icmpv6_type(b: &[u8]) -> (r: Option<u8>)
    ensures
        r.is_some() == (b@.len() >= ICMP_HEADER_LEN),
        r.is_some() ==> r.unwrap() == b@[0],
{
    Icmpv6Header::from_bytes(b).ok().map(|h| h.icmpv6_type.to_primitive_values().0)
}

/// Relies on xenet's TcpHeader::from_bytes, which reads ports and flags from
/// the 20-byte TCP header and fails on fewer bytes.
#[verifier::external_body]
fn decode_tcp(b: &[u8]) -> (r: Option<TcpView>)
    requires
        b@.len() >= TCP_HEADER_LEN ==> (b@[12] / 16) * 4 <= b@.len(),
    ensures
        r.is_some() == (b@.len() >= TCP_HEADER_LEN),
        r.is_some() ==> tcp_fields(r.unwrap(), b@),
{
    TcpHeader::from_bytes(b).ok().map(|h| TcpView {
        source: h.source,
        destination: h.destination,
        flags: h.flags,
    })
}


/// The EtherType announced for a frame captured from its IP header on,
/// by the IP version in its first nibble.
pub open spec fn ether_type_for_version(first: u8) -> u16 {
    if first / 16 == 4 {
        ETHER_TYPE_IPV4
    } else if first / 16 == 6 {
        ETHER_TYPE_IPV6
    } else {
        0
    }
}

/// Whether the capture holds a link layer to decode, and where its network
/// layer starts.
pub open spec fn has_link_layer(b: Seq<u8>, opt: ParseOption) -> bool {
    if opt.from_ip_packet {
        opt.offset <= b.len() && b.len() - opt.offset >= IPV4_HEADER_LEN
    } else {
        b.len() >= ETHERNET_HEADER_LEN
    }
}

pub open spec fn network_start(opt: ParseOption) -> int {
    if opt.from_ip_packet { opt.offset as int } else { ETHERNET_HEADER_LEN as int }
}

/// The bytes of the network layer.
pub open spec fn network_bytes(b: Seq<u8>, opt: ParseOption) -> Seq<u8> {
    b.subrange(network_start(opt), b.len() as int)
}

/// The EtherType that selects the network layer.
pub open spec fn ether_type_of(b: Seq<u8>, opt: ParseOption) -> u16 {
    if opt.from_ip_packet {
        ether_type_for_version(b[opt.offset as int])
    } else {
        be16(b, 12)
    }
}

/// Where the transport layer starts within an IPv4 packet.
pub open spec fn ipv4_payload_start(n: Seq<u8>) -> int {
    if (n[0] % 16) * 4 < IPV4_HEADER_LEN { IPV4_HEADER_LEN as int } else { (n[0] % 16) * 4 }
}

pub open spec fn ipv4_decodable(n: Seq<u8>) -> bool {
    n.len() >= IPV4_HEADER_LEN && (n[0] % 16) * 4 <= n.len()
}

pub open spec fn tcp_decodable(t: Seq<u8>) -> bool {
    t.len() >= TCP_HEADER_LEN && (t[12] / 16) * 4 <= t.len()
}

pub open spec fn min_int(a: int, b: int) -> int {
    if a <= b { a } else { b }
}

/// Where the payload of an IPv4 packet ends: after the bytes its total
/// length announces beyond the header, or at the end of the capture.
pub open spec fn ipv4_payload_end(n: Seq<u8>) -> int {
    let total = be16(n, 2) as int;
    let ihl = (n[0] % 16) * 4;
    min_int(ipv4_payload_start(n) + if total > ihl { total - ihl } else { 0 }, n.len() as int)
}

/// Where the payload of an IPv6 packet ends: after the bytes its payload
/// length announces, or at the end of the capture.
pub open spec fn ipv6_payload_end(n: Seq<u8>) -> int {
    min_int(IPV6_HEADER_LEN + be16(n, 4) as int, n.len() as int)
}

/// The transport layer of a network packet, given its EtherType.
pub open spec fn transport_bytes(n: Seq<u8>, et: u16) -> Seq<u8> {
    if et == ETHER_TYPE_IPV4 {
        n.subrange(ipv4_payload_start(n), ipv4_payload_end(n))
    } else {
        n.subrange(IPV6_HEADER_LEN as int, ipv6_payload_end(n))
    }
}

/// The layers that the decoder finds in a network packet with EtherType `et`.
pub open spec fn network_layers_agree(f: Frame, n: Seq<u8>, et: u16) -> bool {
    let v4 = et == ETHER_TYPE_IPV4 && ipv4_decodable(n);
    let v6 = et == ETHER_TYPE_IPV6 && n.len() >= IPV6_HEADER_LEN;
    let proto: u8 = if v4 { n[9] } else if v6 { n[6] } else { 0 };
    let t = transport_bytes(n, et);
    &&& f.arp.is_some() == (et == ETHER_TYPE_ARP && n.len() >= ARP_HEADER_LEN)
    &&& f.arp.is_some() ==> arp_fields(f.arp.unwrap(), n)
    &&& f.ipv4.is_some() == v4
    &&& f.ipv4.is_some() ==> ipv4_fields(f.ipv4.unwrap(), n)
    &&& f.ipv6.is_some() == v6
    &&& f.ipv6.is_some() ==> ipv6_fields(f.ipv6.unwrap(), n)
    &&& f.icmp_type.is_some() == (v4 && proto == IP_PROTO_ICMP && t.len() >= ICMP_HEADER_LEN)
    &&& f.icmp_type.is_some() ==> f.icmp_type.unwrap() == t[0]
    &&& f.icmpv6_type.is_some() == (v6 && proto == IP_PROTO_ICMPV6 && t.len() >= ICMP_HEADER_LEN)
    &&& f.icmpv6_type.is_some() ==> f.icmpv6_type.unwrap() == t[0]
    &&& f.tcp.is_some() == ((v4 || v6) && proto == IP_PROTO_TCP && tcp_decodable(t))
    &&& f.tcp.is_some() ==> tcp_fields(f.tcp.unwrap(), t)
}

pub open spec fn is_empty_frame(f: Frame) -> bool {
    &&& f.ethernet.is_none()
    &&& f.arp.is_none()
    &&& f.ipv4.is_none()
    &&& f.ipv6.is_none()
    &&& f.icmp_type.is_none()
    &&& f.icmpv6_type.is_none()
    &&& f.tcp.is_none()
}

/// What decoding the capture `b` yields, layer by layer.
pub open spec fn frame_agrees(f: Frame, b: Seq<u8>, opt: ParseOption) -> bool {
    if !has_link_layer(b, opt) {
        is_empty_frame(f)
    } else {
        &&& f.ethernet.is_some()
        &&& !opt.from_ip_packet ==> ethernet_fields(f.ethernet.unwrap(), b)
        &&& opt.from_ip_packet ==> {
            let e = f.ethernet.unwrap();
            &&& e.source.octets@ == seq![0u8, 0u8, 0u8, 0u8, 0u8, 0u8]
            &&& e.destination.octets@ == seq![0u8, 0u8, 0u8, 0u8, 0u8, 0u8]
            &&& e.ether_type == ether_type_of(b, opt)
        }
        &&& network_layers_agree(f, network_bytes(b, opt), ether_type_of(b, opt))
    }
}

fn empty_frame() -> (f: Frame)
    ensures
        is_empty_frame(f),
{
    Frame { ethernet: None, arp: None, ipv4: None, ipv6: None, icmp_type: None, icmpv6_type: None, tcp: None }
}

/// Decodes the network and transport layers of `n`, announced by `et`.
fn decode_network(n: &[u8], et: u16, ethernet: EthernetView) -> (f: Frame)
    ensures
        f.ethernet == Some(ethernet),
        network_layers_agree(f, n@, et),
{
    let mut f = empty_frame();
    f.ethernet = Some(ethernet);
    if et == ETHER_TYPE_ARP {
        f.arp = decode_arp(n);
    } else if et == ETHER_TYPE_IPV4 {
        if n.len() >= IPV4_HEADER_LEN && (n[0] % 16) as usize * 4 <= n.len() {
            f.ipv4 = decode_ipv4(n);
            let ihl = (n[0] % 16) as usize * 4;
            let start = if ihl < IPV4_HEADER_LEN { IPV4_HEADER_LEN } else { ihl };
            let total = n[2] as usize * 256 + n[3] as usize;
            let announced = if total > ihl { total - ihl } else { 0 };
            let end = if start + announced < n.len() { start + announced } else { n.len() };
            let t = slice_subrange(n, start, end);
            let proto = n[9];
            if proto == IP_PROTO_ICMP {
                f.icmp_type = decode_icmp_type(t);
            } else if proto == IP_PROTO_TCP && t.len() >= TCP_HEADER_LEN && (t[12] / 16) as usize * 4 <= t.len() {
                f.tcp = decode_tcp(t);
            }
        }
    } else if et == ETHER_TYPE_IPV6 {
        f.ipv6 = decode_ipv6(n);
        if n.len() >= IPV6_HEADER_LEN {
            let announced = n[4] as usize * 256 + n[5] as usize;
            let end = if IPV6_HEADER_LEN + announced < n.len() { IPV6_HEADER_LEN + announced } else { n.len() };
            let t = slice_subrange(n, IPV6_HEADER_LEN, end);
            let proto = n[6];
            if proto == IP_PROTO_ICMPV6 {
                f.icmpv6_type = decode_icmpv6_type(t);
            } else if proto == IP_PROTO_TCP && t.len() >= TCP_HEADER_LEN && (t[12] / 16) as usize * 4 <= t.len() {
                f.tcp = decode_tcp(t);
            }
        }
    }
    f
}

/// Decodes a captured frame layer by layer. In tunnel mode (`from_ip_packet`)
/// the capture starts with the IP header `offset` bytes in, and a link layer
/// with zero addresses is assumed in front of it.
pub fn parse_frame(packet: &[u8], option: ParseOption) -> (f: Frame)
    ensures
        frame_agrees(f, packet@, option),
{
    if option.from_ip_packet {
        if option.offset > packet.len() || packet.len() - option.offset < IPV4_HEADER_LEN {
            return empty_frame();
        }
        let n = slice_subrange(packet, option.offset, packet.len());
        let version = n[0] / 16;
        let et: u16 = if version == 4 { ETHER_TYPE_IPV4 } else if version == 6 { ETHER_TYPE_IPV6 } else { 0 };
        let ethernet = EthernetView { destination: MacAddr::zero(), source: MacAddr::zero(), ether_type: et };
        decode_network(n, et, ethernet)
    } else {
        match decode_ethernet(packet) {
            None => empty_frame(),
            Some(ethernet) => {
                let n = slice_subrange(packet, ETHERNET_HEADER_LEN, packet.len());
                decode_network(n, ethernet.ether_type, ethernet)
            }
        }
    }
}

/// The decoding option for a session: in tunnel mode decoding starts at the
/// IP header, 14 bytes further on when the interface is a loopback.
pub fn parse_option_for(tunnel: bool, loopback: bool) -> (r: ParseOption)
    ensures
        r.from_ip_packet == tunnel,
        r.offset == if tunnel && loopback { 14usize } else { 0usize },
{
    if tunnel {
        ParseOption { from_ip_packet: true, offset: if loopback { 14 } else { 0 } }
    } else {
        ParseOption { from_ip_packet: false, offset: 0 }
    }
}

} // verus!
