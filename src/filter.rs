use vstd::prelude::*;
use crate::addr::{IpAddr, MacAddr, ip_eq, ip_octets, ip_text, ip_to_string, is_zero_mac};
use crate::fp::FingerprintType;
use crate::frame::Frame;
use crate::ip::{hop_count, initial_ttl_of};
use crate::result::{NodeType, PortStatus, ProbeResult, ProbeStatus, ProbeStatusKind};
use crate::setting::{ProbeSetting, Protocol};

verus! {

pub const ARP_OP_REPLY: u16 = 2;

pub const ICMP_ECHO_REPLY: u8 = 0;
pub const ICMP_DESTINATION_UNREACHABLE: u8 = 3;
pub const ICMP_TIME_EXCEEDED: u8 = 11;
pub const ICMP_TIMESTAMP_REPLY: u8 = 14;
pub const ICMP_INFORMATION_REPLY: u8 = 16;
pub const ICMP_ADDRESS_MASK_REPLY: u8 = 18;

pub const ICMPV6_DESTINATION_UNREACHABLE: u8 = 1;
pub const ICMPV6_TIME_EXCEEDED: u8 = 3;
pub const ICMPV6_ECHO_REPLY: u8 = 129;
pub const ICMPV6_NEIGHBOR_ADVERTISEMENT: u8 = 136;

pub const TCP_FLAG_RST: u8 = 0x04;
pub const TCP_FLAG_SYN: u8 = 0x02;
pub const TCP_FLAG_ACK: u8 = 0x10;
pub const TCP_FLAG_ECE: u8 = 0x40;
pub const TCP_FLAG_CWR: u8 = 0x80;
pub const TCP_SYN_ACK: u8 = 0x12;
pub const TCP_RST_ACK: u8 = 0x14;
pub const TCP_SYN_ACK_ECE: u8 = 0x52;

/// A received frame and what is known of the round it arrived in.
#[derive(Clone, Copy, Debug)]
pub struct Reception {
    /// Round (sequence number, or TTL in a traceroute)
    pub seq: u8,
    /// Time since the probe was sent, in microseconds
    pub rtt: u64,
    /// Size of the probe sent
    pub sent_packet_size: usize,
    /// Size of the received frame
    pub received_packet_size: usize,
}

/// Whether `ip` is the IPv4 address `a`.
pub open spec fn is_v4_addr(ip: IpAddr, a: [u8; 4]) -> bool {
    ip is V4 && ip_octets(ip) == a@
}

/// Whether `ip` is the IPv6 address `a`.
pub open spec fn is_v6_addr(ip: IpAddr, a: [u8; 16]) -> bool {
    ip is V6 && ip_octets(ip) == a@
}

fn eq_v4(ip: &IpAddr, a: [u8; 4]) -> (r: bool)
    ensures
        r == is_v4_addr(*ip, a),
{
    ip_eq(ip, &IpAddr::V4(a))
}

fn eq_v6(ip: &IpAddr, a: [u8; 16]) -> (r: bool)
    ensures
        r == is_v6_addr(*ip, a),
{
    ip_eq(ip, &IpAddr::V6(a))
}

/// The source MAC address of the frame, or zero without an Ethernet layer.
fn source_mac(f: &Frame) -> (r: MacAddr)
    ensures
        f.ethernet.is_some() ==> r == f.ethernet.unwrap().source,
        f.ethernet.is_none() ==> is_zero_mac(r),
{
    match f.ethernet {
        Some(e) => e.source,
        None => MacAddr::zero(),
    }
}

/// The fields that every matched reply reports.
pub open spec fn is_done_reply(r: ProbeResult, rc: Reception, protocol: Protocol, node_type: NodeType) -> bool {
    &&& r.seq == rc.seq
    &&& r.rtt == rc.rtt
    &&& r.probe_status.kind == ProbeStatusKind::Done
    &&& r.protocol == protocol
    &&& r.node_type == node_type
    &&& r.sent_packet_size == rc.sent_packet_size
    &&& r.received_packet_size == rc.received_packet_size
}

/// A reply from the destination with the received TTL and the hops inferred from it.
pub open spec fn is_destination_reply(r: ProbeResult, s: ProbeSetting, rc: Reception, protocol: Protocol, ttl: u8) -> bool {
    &&& is_done_reply(r, rc, protocol, NodeType::Destination)
    &&& r.ip_addr == s.dst_ip
    &&& r.host_name@ == s.dst_hostname@
    &&& r.ttl == ttl
    &&& r.hop == initial_ttl_of(ttl) - ttl
}

fn reply(s: &ProbeSetting, rc: &Reception, mac_addr: MacAddr, ip_addr: IpAddr, host_name: String, ttl: u8, protocol: Protocol, node_type: NodeType, port_number: Option<u16>, port_status: Option<PortStatus>) -> (r: ProbeResult)
    ensures
        is_done_reply(r, *rc, protocol, node_type),
        r.mac_addr == mac_addr,
        r.ip_addr == ip_addr,
        r.host_name@ == host_name@,
        r.ttl == ttl,
        r.hop == initial_ttl_of(ttl) - ttl,
        r.port_number == port_number,
        r.port_status == port_status,
{
    ProbeResult {
        seq: rc.seq,
        mac_addr,
        ip_addr,
        host_name,
        port_number,
        port_status,
        ttl,
        hop: hop_count(ttl),
        rtt: rc.rtt,
        probe_status: ProbeStatus::new(),
        protocol,
        node_type,
        sent_packet_size: rc.sent_packet_size,
        received_packet_size: rc.received_packet_size,
    }
}

/// ARP: an Ethernet frame carrying an ARP reply; when an IPv4 layer is also
/// present it must run from the destination to the source.
pub open spec fn arp_reply_matches(s: ProbeSetting, f: Frame) -> bool {
    &&& f.ethernet.is_some()
    &&& f.arp.is_some()
    &&& f.arp.unwrap().operation == ARP_OP_REPLY
    &&& f.ipv4.is_some() ==> is_v4_addr(s.dst_ip, f.ipv4.unwrap().source) && is_v4_addr(s.src_ip, f.ipv4.unwrap().destination)
}

/// Matches a frame against an outstanding ARP request.
pub fn match_arp_reply(s: &ProbeSetting, f: &Frame, rc: &Reception) -> (r: Option<ProbeResult>)
    ensures
        r.is_some() == arp_reply_matches(*s, *f),
        r.is_some() ==> {
            let p = r.unwrap();
            &&& is_done_reply(p, *rc, Protocol::ARP, NodeType::Destination)
            &&& p.mac_addr == f.arp.unwrap().sender_hw_addr
            &&& p.ip_addr == s.dst_ip
            &&& p.host_name@ == s.dst_hostname@
            &&& p.ttl == 0 && p.hop == 0
            &&& p.port_number.is_none() && p.port_status.is_none()
        },
{
    if f.ethernet.is_none() {
        return None;
    }
    if let Some(v4) = &f.ipv4 {
        if !eq_v4(&s.dst_ip, v4.source) || !eq_v4(&s.src_ip, v4.destination) {
            return None;
        }
    }
    match &f.arp {
        Some(a) => {
            if a.operation == ARP_OP_REPLY {
                let mut p = reply(s, rc, a.sender_hw_addr, s.dst_ip, s.dst_hostname.clone(), 0, Protocol::ARP, NodeType::Destination, None, None);
                p.hop = 0;
                Some(p)
            } else {
                None
            }
        }
        None => None,
    }
}

/// NDP: an Ethernet frame with an IPv6 layer from the destination carrying
/// a Neighbor Advertisement.
pub open spec fn ndp_advert_matches(s: ProbeSetting, f: Frame) -> bool {
    &&& f.ethernet.is_some()
    &&& f.ipv6.is_some()
    &&& is_v6_addr(s.dst_ip, f.ipv6.unwrap().source)
    &&& f.icmpv6_type == Some(ICMPV6_NEIGHBOR_ADVERTISEMENT)
}

/// Matches a frame against an outstanding Neighbor Solicitation. The
/// neighbor's MAC address is taken from the Ethernet header.
pub fn match_ndp_advert(s: &ProbeSetting, f: &Frame, rc: &Reception) -> (r: Option<ProbeResult>)
    ensures
        r.is_some() == ndp_advert_matches(*s, *f),
        r.is_some() ==> {
            let p = r.unwrap();
            &&& is_destination_reply(p, *s, *rc, Protocol::NDP, f.ipv6.unwrap().hop_limit)
            &&& p.mac_addr == f.ethernet.unwrap().source
            &&& p.port_number.is_none() && p.port_status.is_none()
        },
{
    match (&f.ethernet, &f.ipv6) {
        (Some(e), Some(v6)) => {
            if eq_v6(&s.dst_ip, v6.source) && f.icmpv6_type == Some(ICMPV6_NEIGHBOR_ADVERTISEMENT) {
                Some(reply(s, rc, e.source, s.dst_ip, s.dst_hostname.clone(), v6.hop_limit, Protocol::NDP, NodeType::Destination, None, None))
            } else {
                None
            }
        }
        _ => None,
    }
}

/// ICMP ping over IPv4: an echo reply from the destination.
pub open spec fn echo_match_v4(s: ProbeSetting, f: Frame) -> bool {
    f.ipv4.is_some() && is_v4_addr(s.dst_ip, f.ipv4.unwrap().source) && f.icmp_type == Some(ICMP_ECHO_REPLY)
}

/// ICMP ping: an echo reply from the destination, over IPv4 or IPv6.
pub open spec fn echo_reply_matches(s: ProbeSetting, f: Frame) -> bool {
    ||| echo_match_v4(s, f)
    ||| f.ipv6.is_some() && is_v6_addr(s.dst_ip, f.ipv6.unwrap().source) && f.icmpv6_type == Some(ICMPV6_ECHO_REPLY)
}

/// The TTL (or hop limit) of the IP layer of a frame.
pub open spec fn ip_ttl(f: Frame) -> u8 {
    if f.ipv4.is_some() { f.ipv4.unwrap().ttl } else { f.ipv6.unwrap().hop_limit }
}

/// The TTL of the IPv4 layer when `v4`, else the hop limit of the IPv6 layer.
pub open spec fn ttl_by(f: Frame, v4: bool) -> u8 {
    if v4 { f.ipv4.unwrap().ttl } else { f.ipv6.unwrap().hop_limit }
}

/// Matches a frame against an outstanding ICMP echo request.
pub fn match_echo_reply(s: &ProbeSetting, f: &Frame, rc: &Reception) -> (r: Option<ProbeResult>)
    ensures
        r.is_some() == echo_reply_matches(*s, *f),
        r.is_some() ==> {
            let p = r.unwrap();
            &&& is_destination_reply(p, *s, *rc, Protocol::ICMP, ttl_by(*f, echo_match_v4(*s, *f)))
            &&& (f.ethernet.is_some() ==> p.mac_addr == f.ethernet.unwrap().source)
            &&& (f.ethernet.is_none() ==> is_zero_mac(p.mac_addr))
            &&& p.port_number.is_none() && p.port_status.is_none()
        },
{
    let mac = source_mac(f);
    if let Some(v4) = &f.ipv4 {
        if eq_v4(&s.dst_ip, v4.source) && f.icmp_type == Some(ICMP_ECHO_REPLY) {
            return Some(reply(s, rc, mac, s.dst_ip, s.dst_hostname.clone(), v4.ttl, Protocol::ICMP, NodeType::Destination, None, None));
        }
    }
    if let Some(v6) = &f.ipv6 {
        if eq_v6(&s.dst_ip, v6.source) && f.icmpv6_type == Some(ICMPV6_ECHO_REPLY) {
            return Some(reply(s, rc, mac, s.dst_ip, s.dst_hostname.clone(), v6.hop_limit, Protocol::ICMP, NodeType::Destination, None, None));
        }
    }
    None
}

/// UDP ping over IPv4: a Destination Unreachable from the destination to the source.
pub open spec fn unreachable_match_v4(s: ProbeSetting, f: Frame) -> bool {
    f.ipv4.is_some() && is_v4_addr(s.dst_ip, f.ipv4.unwrap().source) && is_v4_addr(s.src_ip, f.ipv4.unwrap().destination)
        && f.icmp_type == Some(ICMP_DESTINATION_UNREACHABLE)
}

/// UDP ping: a Destination Unreachable from the destination to the source
/// over IPv4, or to the source over IPv6.
pub open spec fn port_unreachable_matches(s: ProbeSetting, f: Frame) -> bool {
    ||| unreachable_match_v4(s, f)
    ||| f.ipv6.is_some() && is_v6_addr(s.src_ip, f.ipv6.unwrap().destination) && f.icmpv6_type == Some(ICMPV6_DESTINATION_UNREACHABLE)
}

/// Matches a frame against an outstanding UDP probe: an unreachable reply
/// reports the port closed.
pub fn match_port_unreachable(s: &ProbeSetting, f: &Frame, rc: &Reception) -> (r: Option<ProbeResult>)
    ensures
        r.is_some() == port_unreachable_matches(*s, *f),
        r.is_some() ==> {
            let p = r.unwrap();
            &&& is_destination_reply(p, *s, *rc, Protocol::UDP, ttl_by(*f, unreachable_match_v4(*s, *f)))
            &&& (f.ethernet.is_some() ==> p.mac_addr == f.ethernet.unwrap().source)
            &&& (f.ethernet.is_none() ==> is_zero_mac(p.mac_addr))
            &&& p.port_number == s.dst_port
            &&& p.port_status == Some(PortStatus::Closed)
        },
{
    let mac = source_mac(f);
    if let Some(v4) = &f.ipv4 {
        if eq_v4(&s.dst_ip, v4.source) && eq_v4(&s.src_ip, v4.destination) && f.icmp_type == Some(ICMP_DESTINATION_UNREACHABLE) {
            return Some(reply(s, rc, mac, s.dst_ip, s.dst_hostname.clone(), v4.ttl, Protocol::UDP, NodeType::Destination, s.dst_port, Some(PortStatus::Closed)));
        }
    }
    if let Some(v6) = &f.ipv6 {
        if eq_v6(&s.src_ip, v6.destination) && f.icmpv6_type == Some(ICMPV6_DESTINATION_UNREACHABLE) {
            return Some(reply(s, rc, mac, s.dst_ip, s.dst_hostname.clone(), v6.hop_limit, Protocol::UDP, NodeType::Destination, s.dst_port, Some(PortStatus::Closed)));
        }
    }
    None
}

/// Whether the IP layer of the frame comes from the destination.
pub open spec fn from_destination(s: ProbeSetting, f: Frame) -> bool {
    if f.ipv4.is_some() {
        is_v4_addr(s.dst_ip, f.ipv4.unwrap().source)
    } else if f.ipv6.is_some() {
        is_v6_addr(s.dst_ip, f.ipv6.unwrap().source)
    } else {
        false
    }
}

/// TCP ping: a SYN+ACK or RST+ACK segment from the probed port of the destination.
pub open spec fn tcp_reply_matches(s: ProbeSetting, f: Frame) -> bool {
    &&& f.tcp.is_some()
    &&& (s.dst_port.is_some() ==> f.tcp.unwrap().source == s.dst_port.unwrap())
    &&& (f.tcp.unwrap().flags == TCP_SYN_ACK || f.tcp.unwrap().flags == TCP_RST_ACK)
    &&& from_destination(s, f)
}

fn from_dst(s: &ProbeSetting, f: &Frame) -> (r: bool)
    ensures
        r == from_destination(*s, *f),
{
    match (&f.ipv4, &f.ipv6) {
        (Some(v4), _) => eq_v4(&s.dst_ip, v4.source),
        (None, Some(v6)) => eq_v6(&s.dst_ip, v6.source),
        (None, None) => false,
    }
}

fn frame_ttl(f: &Frame) -> (r: u8)
    requires
        f.ipv4.is_some() || f.ipv6.is_some(),
    ensures
        r == ip_ttl(*f),
{
    match (&f.ipv4, &f.ipv6) {
        (Some(v4), _) => v4.ttl,
        (None, Some(v6)) => v6.hop_limit,
        (None, None) => 0,
    }
}

/// Matches a frame against an outstanding TCP SYN: SYN+ACK reports the port
/// open, RST+ACK closed.
pub fn match_tcp_reply(s: &ProbeSetting, f: &Frame, rc: &Reception) -> (r: Option<ProbeResult>)
    ensures
        r.is_some() == tcp_reply_matches(*s, *f),
        r.is_some() ==> {
            let p = r.unwrap();
            &&& is_destination_reply(p, *s, *rc, Protocol::TCP, ip_ttl(*f))
            &&& (f.ethernet.is_some() ==> p.mac_addr == f.ethernet.unwrap().source)
            &&& (f.ethernet.is_none() ==> is_zero_mac(p.mac_addr))
            &&& p.port_number == Some(f.tcp.unwrap().source)
            &&& p.port_status == Some(if f.tcp.unwrap().flags == TCP_SYN_ACK { PortStatus::Open } else { PortStatus::Closed })
        },
{
    let t = match &f.tcp {
        Some(t) => t,
        None => return None,
    };
    if let Some(port) = s.dst_port {
        if t.source != port {
            return None;
        }
    }
    let status = if t.flags == TCP_SYN_ACK {
        PortStatus::Open
    } else if t.flags == TCP_RST_ACK {
        PortStatus::Closed
    } else {
        return None;
    };
    if !from_dst(s, f) {
        return None;
    }
    let mac = source_mac(f);
    Some(reply(s, rc, mac, s.dst_ip, s.dst_hostname.clone(), frame_ttl(f), Protocol::TCP, NodeType::Destination, Some(t.source), Some(status)))
}

/// Traceroute over IPv4: a Time Exceeded or a Destination Unreachable.
pub open spec fn trace_match_v4(f: Frame) -> bool {
    f.ipv4.is_some() && (f.icmp_type == Some(ICMP_TIME_EXCEEDED) || f.icmp_type == Some(ICMP_DESTINATION_UNREACHABLE))
}

/// Traceroute over IPv6: a Time Exceeded or a Destination Unreachable.
pub open spec fn trace_match_v6(f: Frame) -> bool {
    f.ipv6.is_some() && (f.icmpv6_type == Some(ICMPV6_TIME_EXCEEDED) || f.icmpv6_type == Some(ICMPV6_DESTINATION_UNREACHABLE))
}

pub open spec fn trace_reply_matches(f: Frame) -> bool {
    trace_match_v4(f) || trace_match_v6(f)
}

/// Whether the matched traceroute reply is a Time Exceeded (else it is a
/// Destination Unreachable).
pub open spec fn is_time_exceeded(f: Frame) -> bool {
    if trace_match_v4(f) {
        f.icmp_type == Some(ICMP_TIME_EXCEEDED)
    } else {
        f.icmpv6_type == Some(ICMPV6_TIME_EXCEEDED)
    }
}

/// The source address of the matched traceroute reply.
pub open spec fn trace_source(f: Frame) -> IpAddr {
    if trace_match_v4(f) { IpAddr::V4(f.ipv4.unwrap().source) } else { IpAddr::V6(f.ipv6.unwrap().source) }
}

/// The TTL of the matched traceroute reply.
pub open spec fn trace_ttl(f: Frame) -> u8 {
    if trace_match_v4(f) { f.ipv4.unwrap().ttl } else { f.ipv6.unwrap().hop_limit }
}

/// The role of the node that answered a traceroute round.
pub open spec fn trace_node_type(f: Frame, ttl: u8) -> NodeType {
    if is_time_exceeded(f) {
        if ttl == 1 { NodeType::DefaultGateway } else { NodeType::Relay }
    } else {
        NodeType::Destination
    }
}

/// Matches a frame against an outstanding traceroute probe sent with TTL
/// `rc.seq`: Time Exceeded names the gateway (TTL 1) or a relay; Destination
/// Unreachable names the destination and reports the port closed.
pub fn match_trace_reply(s: &ProbeSetting, f: &Frame, rc: &Reception) -> (r: Option<ProbeResult>)
    ensures
        r.is_some() == trace_reply_matches(*f),
        r.is_some() ==> {
            let p = r.unwrap();
            &&& is_done_reply(p, *rc, Protocol::UDP, trace_node_type(*f, rc.seq))
            &&& p.ip_addr == trace_source(*f)
            &&& p.host_name@ == ip_text(ip_octets(trace_source(*f)))
            &&& p.ttl == trace_ttl(*f)
            &&& p.hop == initial_ttl_of(trace_ttl(*f)) - trace_ttl(*f)
            &&& (f.ethernet.is_some() ==> p.mac_addr == f.ethernet.unwrap().source)
            &&& (f.ethernet.is_none() ==> is_zero_mac(p.mac_addr))
            &&& (is_time_exceeded(*f) ==> p.port_number.is_none() && p.port_status.is_none())
            &&& (!is_time_exceeded(*f) ==> p.port_number == s.dst_port && p.port_status == Some(PortStatus::Closed))
        },
{
    let mac = source_mac(f);
    let hop_type = if rc.seq == 1 { NodeType::DefaultGateway } else { NodeType::Relay };
    if let Some(v4) = &f.ipv4 {
        let src = IpAddr::V4(v4.source);
        if f.icmp_type == Some(ICMP_TIME_EXCEEDED) {
            return Some(reply(s, rc, mac, src, ip_to_string(&src), v4.ttl, Protocol::UDP, hop_type, None, None));
        }
        if f.icmp_type == Some(ICMP_DESTINATION_UNREACHABLE) {
            return Some(reply(s, rc, mac, src, ip_to_string(&src), v4.ttl, Protocol::UDP, NodeType::Destination, s.dst_port, Some(PortStatus::Closed)));
        }
    }
    if let Some(v6) = &f.ipv6 {
        let src = IpAddr::V6(v6.source);
        if f.icmpv6_type == Some(ICMPV6_TIME_EXCEEDED) {
            return Some(reply(s, rc, mac, src, ip_to_string(&src), v6.hop_limit, Protocol::UDP, hop_type, None, None));
        }
        if f.icmpv6_type == Some(ICMPV6_DESTINATION_UNREACHABLE) {
            return Some(reply(s, rc, mac, src, ip_to_string(&src), v6.hop_limit, Protocol::UDP, NodeType::Destination, s.dst_port, Some(PortStatus::Closed)));
        }
    }
    None
}

/// The ICMP reply type that answers an ICMP fingerprinting probe.
pub open spec fn expected_icmp_reply(t: FingerprintType) -> Option<u8> {
    match t {
        FingerprintType::IcmpEcho => Some(ICMP_ECHO_REPLY),
        FingerprintType::IcmpTimestamp => Some(ICMP_TIMESTAMP_REPLY),
        FingerprintType::IcmpAddressMask => Some(ICMP_ADDRESS_MASK_REPLY),
        FingerprintType::IcmpInformation => Some(ICMP_INFORMATION_REPLY),
        FingerprintType::IcmpUnreachable => Some(ICMP_DESTINATION_UNREACHABLE),
        _ => None,
    }
}

/// Fingerprinting over ICMP: the expected reply type from the destination;
/// over IPv6 only the echo probe is answered.
pub open spec fn icmp_fingerprint_matches(s: ProbeSetting, f: Frame, t: FingerprintType) -> bool {
    ||| f.ipv4.is_some() && is_v4_addr(s.dst_ip, f.ipv4.unwrap().source) && f.icmp_type.is_some()
            && expected_icmp_reply(t) == Some(f.icmp_type.unwrap())
    ||| f.ipv6.is_some() && is_v6_addr(s.dst_ip, f.ipv6.unwrap().source) && t == FingerprintType::IcmpEcho
            && f.icmpv6_type == Some(ICMPV6_ECHO_REPLY)
}

fn expected_icmp(t: FingerprintType) -> (r: Option<u8>)
    ensures
        r == expected_icmp_reply(t),
{
    match t {
        FingerprintType::IcmpEcho => Some(ICMP_ECHO_REPLY),
        FingerprintType::IcmpTimestamp => Some(ICMP_TIMESTAMP_REPLY),
        FingerprintType::IcmpAddressMask => Some(ICMP_ADDRESS_MASK_REPLY),
        FingerprintType::IcmpInformation => Some(ICMP_INFORMATION_REPLY),
        FingerprintType::IcmpUnreachable => Some(ICMP_DESTINATION_UNREACHABLE),
        _ => None,
    }
}

/// Whether a frame answers an ICMP fingerprinting probe.
pub fn filter_icmp_packet(frame: &Frame, setting: &ProbeSetting, probe_type: &FingerprintType) -> (r: bool)
    ensures
        r == icmp_fingerprint_matches(*setting, *frame, *probe_type),
{
    if let Some(v4) = &frame.ipv4 {
        if eq_v4(&setting.dst_ip, v4.source) {
            if let Some(ty) = frame.icmp_type {
                if let Some(want) = expected_icmp(*probe_type) {
                    if ty == want {
                        return true;
                    }
                }
            }
        }
    }
    if let Some(v6) = &frame.ipv6 {
        if eq_v6(&setting.dst_ip, v6.source) {
            if *probe_type == FingerprintType::IcmpEcho && frame.icmpv6_type == Some(ICMPV6_ECHO_REPLY) {
                return true;
            }
        }
    }
    false
}

/// The TCP flags that answer a TCP fingerprinting probe: exactly SYN+ACK
/// (so not SYN+ACK+ECE), RST+ACK, or SYN+ACK+ECE for the ECN probe.
pub open spec fn expected_tcp_flags(t: FingerprintType) -> Option<u8> {
    match t {
        FingerprintType::TcpSynAck => Some(TCP_SYN_ACK),
        FingerprintType::TcpRstAck => Some(TCP_RST_ACK),
        FingerprintType::TcpEcn => Some(TCP_SYN_ACK_ECE),
        _ => None,
    }
}

/// Fingerprinting over TCP: no IP layer from another source, and a TCP
/// segment with the expected flags.
pub open spec fn tcp_fingerprint_matches(s: ProbeSetting, f: Frame, t: FingerprintType) -> bool {
    &&& f.ipv4.is_some() ==> is_v4_addr(s.dst_ip, f.ipv4.unwrap().source)
    &&& f.ipv6.is_some() ==> is_v6_addr(s.dst_ip, f.ipv6.unwrap().source)
    &&& f.tcp.is_some()
    &&& expected_tcp_flags(t) == Some(f.tcp.unwrap().flags)
}

/// Whether a frame answers a TCP fingerprinting probe.
pub fn filter_tcp_packet(frame: &Frame, setting: &ProbeSetting, probe_type: &FingerprintType) -> (r: bool)
    ensures
        r == tcp_fingerprint_matches(*setting, *frame, *probe_type),
{
    if let Some(v4) = &frame.ipv4 {
        if !eq_v4(&setting.dst_ip, v4.source) {
            return false;
        }
    }
    if let Some(v6) = &frame.ipv6 {
        if !eq_v6(&setting.dst_ip, v6.source) {
            return false;
        }
    }
    match &frame.tcp {
        Some(t) => match probe_type {
            FingerprintType::TcpSynAck => t.flags == TCP_SYN_ACK && t.flags != TCP_SYN_ACK_ECE,
            FingerprintType::TcpRstAck => t.flags == TCP_RST_ACK,
            FingerprintType::TcpEcn => t.flags == TCP_SYN_ACK_ECE,
            _ => false,
        },
        None => false,
    }
}

/// Whether a frame answers a fingerprinting probe of its kind.
pub fn filter_fingerprint(frame: &Frame, setting: &ProbeSetting, probe_type: &FingerprintType) -> (r: bool)
    ensures
        r == if crate::fp::protocol_of(*probe_type) == Protocol::TCP {
            tcp_fingerprint_matches(*setting, *frame, *probe_type)
        } else {
            icmp_fingerprint_matches(*setting, *frame, *probe_type)
        },
{
    match probe_type.protocol() {
        Protocol::TCP => filter_tcp_packet(frame, setting, probe_type),
        _ => filter_icmp_packet(frame, setting, probe_type),
    }
}

/// An echo-reply filter for destination X admits no frame whose network
/// layer comes from a source other than X.
pub proof fn lemma_echo_filter_rejects_other_sources(s: ProbeSetting, f: Frame)
    requires
        f.ipv4.is_some() ==> !is_v4_addr(s.dst_ip, f.ipv4.unwrap().source),
        f.ipv6.is_some() ==> !is_v6_addr(s.dst_ip, f.ipv6.unwrap().source),
    ensures
        !echo_reply_matches(s, f),
{
}

} // verus!
