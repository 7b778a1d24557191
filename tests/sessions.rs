use netprobe::addr::{IpAddr, MacAddr};
use netprobe::fp::{FingerprintType, Fingerprinter};
use netprobe::frame::{parse_frame, ParseOption};
use netprobe::ip::{guess_initial_ttl, hop_count};
use netprobe::result::{NodeType, PingStat, PortStatus, ProbeResult, ProbeStatusKind};
use netprobe::session::{Engine, Session};
use netprobe::setting::{ProbeSetting, Protocol};

const SRC_MAC: [u8; 6] = [0xaa, 0xbb, 0xcc, 0xdd, 0xee, 0x01];
const GW_MAC: [u8; 6] = [0x11, 0x22, 0x33, 0x44, 0x55, 0x66];

fn eth(dst: [u8; 6], src: [u8; 6], ether_type: u16) -> Vec<u8> {
    let mut v = Vec::new();
    v.extend_from_slice(&dst);
    v.extend_from_slice(&src);
    v.extend_from_slice(&ether_type.to_be_bytes());
    v
}

fn ipv4(src: [u8; 4], dst: [u8; 4], proto: u8, ttl: u8, payload_len: u16) -> Vec<u8> {
    let total = 20 + payload_len;
    let mut v = vec![0x45, 0, (total >> 8) as u8, total as u8, 0, 0, 0x40, 0, ttl, proto, 0, 0];
    v.extend_from_slice(&src);
    v.extend_from_slice(&dst);
    v
}

fn icmp_frame(src: [u8; 4], dst: [u8; 4], ttl: u8, icmp_type: u8) -> Vec<u8> {
    let mut b = eth(SRC_MAC, GW_MAC, 0x0800);
    b.extend(ipv4(src, dst, 1, ttl, 8));
    b.extend(vec![icmp_type, 0, 0, 0, 0, 0, 0, 0]);
    b
}

fn tcp_frame(src: [u8; 4], dst: [u8; 4], src_port: u16, flags: u8) -> Vec<u8> {
    let mut b = eth(SRC_MAC, GW_MAC, 0x0800);
    b.extend(ipv4(src, dst, 6, 60, 20));
    let mut t = vec![0u8; 20];
    t[0..2].copy_from_slice(&src_port.to_be_bytes());
    t[2..4].copy_from_slice(&44322u16.to_be_bytes());
    t[12] = 0x50;
    t[13] = flags;
    b.extend(t);
    b
}

fn ipv4_setting(protocol: Protocol, count: u8, receive_timeout: u64) -> ProbeSetting {
    ProbeSetting::new()
        .with_protocol(protocol)
        .with_count(count)
        .with_receive_timeout(receive_timeout)
        .with_dst_ip(IpAddr::V4([192, 0, 2, 1]), Some("192.0.2.1".to_string()))
        .with_if_index(2)
}

fn with_addrs(mut s: ProbeSetting) -> ProbeSetting {
    s.src_mac = MacAddr { octets: SRC_MAC };
    s.dst_mac = MacAddr { octets: GW_MAC };
    s.src_ip = IpAddr::V4([192, 0, 2, 10]);
    s
}

#[test]
fn hop_inference() {
    assert_eq!(guess_initial_ttl(53), 64);
    assert_eq!(hop_count(53), 11);
    assert_eq!(guess_initial_ttl(120), 128);
    assert_eq!(hop_count(120), 8);
    assert_eq!(guess_initial_ttl(250), 255);
    assert_eq!(hop_count(250), 5);
    assert_eq!(hop_count(64), 0);
    assert_eq!(hop_count(0), 64);
}

#[test]
fn arp_success_then_timeout() {
    let s = with_addrs(ipv4_setting(Protocol::ARP, 2, 500_000));
    let mut session = Session::new(s, Engine::Resolver).unwrap();
    let probe = session.next_probe().unwrap();
    assert_eq!(probe.len(), 42);
    assert_eq!(&probe[0..6], &[0xff; 6]);
    assert_eq!(&probe[6..12], &SRC_MAC);
    assert_eq!(&probe[12..14], &[0x08, 0x06]);
    assert_eq!(&probe[20..22], &[0, 1]);
    assert_eq!(&probe[28..32], &[192, 0, 2, 10]);
    assert_eq!(&probe[38..42], &[192, 0, 2, 1]);
    let mut reply = eth(SRC_MAC, [0x11, 0x22, 0x33, 0x44, 0x55, 0x66], 0x0806);
    reply.extend_from_slice(&[0, 1, 8, 0, 6, 4, 0, 2]);
    reply.extend_from_slice(&[0x11, 0x22, 0x33, 0x44, 0x55, 0x66, 192, 0, 2, 1]);
    reply.extend_from_slice(&SRC_MAC);
    reply.extend_from_slice(&[192, 0, 2, 10]);
    assert!(session.on_packet(&reply, 10_000));
    assert!(session.pause_after_round());
    assert!(session.next_probe().is_some());
    assert!(!session.on_packet(&[0u8; 10], 100_000));
    assert!(session.on_packet(&[0u8; 10], 600_000));
    assert!(!session.pause_after_round());
    assert!(session.next_probe().is_none());
    let r = &session.results;
    assert_eq!(r.len(), 2);
    assert_eq!(r[0].probe_status.kind, ProbeStatusKind::Done);
    assert_eq!(r[0].mac_addr.octets, [0x11, 0x22, 0x33, 0x44, 0x55, 0x66]);
    assert_eq!(r[0].node_type, NodeType::Destination);
    assert_eq!(r[0].rtt, 10_000);
    assert_eq!(r[0].seq, 1);
    assert_eq!(r[0].received_packet_size, 42);
    assert_eq!(r[1].probe_status.kind, ProbeStatusKind::Timeout);
    assert_eq!(r[1].probe_status.message, "Request timeout for seq 2");
    assert_eq!(r[1].seq, 2);
    let total = session.into_resolve_result("start".to_string(), "end".to_string(), 1_000_000);
    assert_eq!(total.results.len(), 2);
    assert_eq!(total.protocol, Protocol::ARP);
}

#[test]
fn icmp_ping_all_lost() {
    let s = with_addrs(ipv4_setting(Protocol::ICMP, 3, 200_000));
    let mut session = Session::new(s, Engine::Pinger).unwrap();
    while let Some(_probe) = session.next_probe() {
        session.on_receive_error();
    }
    assert_eq!(session.results.len(), 3);
    for r in session.results.iter() {
        assert_eq!(r.probe_status.kind, ProbeStatusKind::Timeout);
        assert_eq!(r.rtt, 0);
        assert_eq!(r.received_packet_size, 0);
        assert_eq!(r.mac_addr.octets, [0; 6]);
    }
    let p = session.into_ping_result(String::new(), String::new(), 600_000);
    assert_eq!(p.stat.transmitted_count, 3);
    assert_eq!(p.stat.received_count, 0);
    assert_eq!((p.stat.min, p.stat.avg, p.stat.max), (0, 0, 0));
}

#[test]
fn traceroute_two_hops_to_destination() {
    let s = with_addrs(ipv4_setting(Protocol::UDP, 1, 1_000_000));
    let mut session = Session::new(s, Engine::Tracer).unwrap();
    let first = session.next_probe().unwrap();
    assert_eq!(first[14 + 8], 1);
    assert!(!session.on_packet(&icmp_frame([10, 0, 0, 1], [192, 0, 2, 10], 254, 0), 1_000));
    assert!(session.on_packet(&icmp_frame([10, 0, 0, 1], [192, 0, 2, 10], 254, 11), 5_000));
    assert!(session.pause_after_round());
    let second = session.next_probe().unwrap();
    assert_eq!(second[14 + 8], 2);
    assert!(session.on_packet(&icmp_frame([1, 1, 1, 1], [192, 0, 2, 10], 58, 3), 7_000));
    assert!(!session.pause_after_round());
    assert!(session.is_finished());
    assert!(session.next_probe().is_none());
    let r = &session.results;
    assert_eq!(r.len(), 2);
    assert_eq!(r[0].node_type, NodeType::DefaultGateway);
    assert_eq!(r[0].ip_addr, IpAddr::V4([10, 0, 0, 1]));
    assert_eq!(r[0].host_name, "10.0.0.1");
    assert_eq!(r[0].hop, 1);
    assert_eq!(r[1].node_type, NodeType::Destination);
    assert_eq!(r[1].ip_addr, IpAddr::V4([1, 1, 1, 1]));
    assert_eq!(r[1].port_status, Some(PortStatus::Closed));
    assert_eq!(r[1].hop, 6);
    let t = session.into_trace_result(String::new(), String::new(), 20_000);
    assert_eq!(t.nodes.len(), 2);
}

#[test]
fn traceroute_timeout_is_relay() {
    let s = with_addrs(ipv4_setting(Protocol::UDP, 1, 1_000_000)).with_hop_limit(3);
    let mut session = Session::new(s, Engine::Tracer).unwrap();
    while let Some(_p) = session.next_probe() {
        session.on_receive_error();
    }
    assert_eq!(session.results.len(), 2);
    assert_eq!(session.results[0].node_type, NodeType::Relay);
    assert_eq!(session.results[1].ip_addr, IpAddr::V4([0, 0, 0, 0]));
}

#[test]
fn unsupported_engines() {
    let s = ipv4_setting(Protocol::ICMP, 1, 1);
    assert_eq!(Session::new(s.clone(), Engine::Tracer).unwrap_err(), "ICMP traceroute is not supported");
    let t = s.clone().with_protocol(Protocol::TCP);
    assert_eq!(Session::new(t, Engine::Tracer).unwrap_err(), "TCP traceroute is not supported");
    assert_eq!(Session::new(s.clone(), Engine::Resolver).unwrap_err(), "unsupported protocol");
    let a = s.with_protocol(Protocol::ARP);
    assert_eq!(Session::new(a, Engine::Pinger).unwrap_err(), "unsupported protocol");
}

#[test]
fn fingerprint_syn_ack_versus_ecn() {
    let s = with_addrs(ipv4_setting(Protocol::TCP, 1, 1_000_000)).with_dst_port(80);
    let fp = Fingerprinter::new(s, FingerprintType::TcpSynAck);
    let stimulus = fp.stimulus();
    assert_eq!(stimulus[14 + 20 + 13], 0x02);
    assert_eq!(&stimulus[14 + 2..14 + 4], &[0, 64]);
    assert!(fp.on_packet(&tcp_frame([192, 0, 2, 1], [192, 0, 2, 10], 80, 0x52), 2_000).is_none());
    let got = fp.on_packet(&tcp_frame([192, 0, 2, 1], [192, 0, 2, 10], 80, 0x12), 3_000).unwrap();
    assert_eq!(got.probe_status.kind, ProbeStatusKind::Done);
    assert!(got.rtt > 0);
    assert_eq!(got.packet_frame.unwrap().tcp.unwrap().flags, 0x12);
    let ecn = Fingerprinter::new(fp.probe_setting.clone(), FingerprintType::TcpEcn);
    assert_eq!(ecn.stimulus()[14 + 20 + 13], 0xc2);
    assert!(ecn.on_packet(&tcp_frame([192, 0, 2, 1], [192, 0, 2, 10], 80, 0x52), 2_000).is_some());
    let late = fp.on_wait(1_000_001).unwrap();
    assert_eq!(late.probe_status.kind, ProbeStatusKind::Timeout);
    assert_eq!(late.probe_status.message, "Probe timeout");
    assert!(fp.on_wait(999_999).is_none());
}

#[test]
fn fingerprint_icmp_timestamp() {
    let s = with_addrs(ipv4_setting(Protocol::ICMP, 1, 1_000_000));
    let fp = Fingerprinter::new(s, FingerprintType::IcmpTimestamp);
    assert_eq!(fp.stimulus()[34], 13);
    assert!(fp.on_packet(&icmp_frame([192, 0, 2, 1], [192, 0, 2, 10], 60, 0), 10).is_none());
    assert!(fp.on_packet(&icmp_frame([192, 0, 2, 1], [192, 0, 2, 10], 60, 14), 10).is_some());
    assert!(fp.on_packet(&icmp_frame([192, 0, 2, 9], [192, 0, 2, 10], 60, 14), 10).is_none());
}

#[test]
fn udp_ping_port_closed() {
    let s = with_addrs(ipv4_setting(Protocol::UDP, 1, 1_000_000)).with_dst_port(33435);
    let mut session = Session::new(s, Engine::Pinger).unwrap();
    let probe = session.next_probe().unwrap();
    assert_eq!(probe.len(), 14 + 20 + 8);
    assert_eq!(&probe[36..38], &[0x82, 0x9b]);
    assert!(!session.on_packet(&icmp_frame([192, 0, 2, 1], [192, 0, 2, 99], 60, 3), 1_000));
    assert!(session.on_packet(&icmp_frame([192, 0, 2, 1], [192, 0, 2, 10], 60, 3), 15_000));
    let r = &session.results;
    assert_eq!(r.len(), 1);
    assert_eq!(r[0].probe_status.kind, ProbeStatusKind::Done);
    assert_eq!(r[0].port_status, Some(PortStatus::Closed));
    assert_eq!(r[0].port_number, Some(33435));
    assert_eq!(r[0].protocol, Protocol::UDP);
    assert_eq!(r[0].rtt, 15_000);
}

#[test]
fn tcp_ping_open_and_closed() {
    let s = with_addrs(ipv4_setting(Protocol::TCP, 2, 1_000_000)).with_dst_port(80);
    let mut session = Session::new(s, Engine::Pinger).unwrap();
    session.next_probe().unwrap();
    assert!(!session.on_packet(&tcp_frame([192, 0, 2, 1], [192, 0, 2, 10], 81, 0x12), 1));
    assert!(session.on_packet(&tcp_frame([192, 0, 2, 1], [192, 0, 2, 10], 80, 0x12), 2_000));
    session.next_probe().unwrap();
    assert!(session.on_packet(&tcp_frame([192, 0, 2, 1], [192, 0, 2, 10], 80, 0x14), 4_000));
    assert_eq!(session.results[0].port_status, Some(PortStatus::Open));
    assert_eq!(session.results[1].port_status, Some(PortStatus::Closed));
    let p = session.into_ping_result(String::new(), String::new(), 1);
    assert_eq!(p.protocol, Protocol::TCP);
    assert_eq!(p.stat.received_count, 2);
    assert_eq!((p.stat.min, p.stat.avg, p.stat.max), (2_000, 3_000, 4_000));
}

#[test]
fn echo_filter_rejects_other_source() {
    let s = with_addrs(ipv4_setting(Protocol::ICMP, 1, 1_000_000));
    let mut session = Session::new(s, Engine::Pinger).unwrap();
    session.next_probe().unwrap();
    assert!(!session.on_packet(&icmp_frame([192, 0, 2, 2], [192, 0, 2, 10], 60, 0), 1_000));
    assert!(session.on_packet(&icmp_frame([192, 0, 2, 1], [192, 0, 2, 10], 60, 0), 2_000));
    assert_eq!(session.results[0].ttl, 60);
    assert_eq!(session.results[0].hop, 4);
    assert_eq!(session.results[0].mac_addr.octets, GW_MAC);
}

#[test]
fn late_reply_counts_as_timeout() {
    let s = with_addrs(ipv4_setting(Protocol::ICMP, 1, 1_000));
    let mut session = Session::new(s, Engine::Pinger).unwrap();
    session.next_probe().unwrap();
    assert!(session.on_packet(&icmp_frame([192, 0, 2, 1], [192, 0, 2, 10], 60, 0), 1_001));
    assert_eq!(session.results[0].probe_status.kind, ProbeStatusKind::Timeout);
}

fn done(rtt: u64) -> ProbeResult {
    let mut r = ProbeResult::new();
    r.rtt = rtt;
    r
}

#[test]
fn ping_stat_over_done_results_only() {
    let t = ProbeResult::timeout(2, IpAddr::V4([1, 2, 3, 4]), String::new(), Protocol::ICMP, 42);
    let stat = PingStat::from_responses(vec![done(10), t, done(40), done(25)], 99, 4);
    assert_eq!(stat.transmitted_count, 4);
    assert_eq!(stat.received_count, 3);
    assert_eq!(stat.min, 10);
    assert_eq!(stat.avg, 25);
    assert_eq!(stat.max, 40);
    assert_eq!(stat.probe_time, 99);
    let empty = PingStat::from_responses(vec![], 0, 0);
    assert_eq!((empty.min, empty.avg, empty.max, empty.received_count), (0, 0, 0, 0));
}

#[test]
fn arp_request_round_trip() {
    let s = with_addrs(ipv4_setting(Protocol::ARP, 1, 1));
    let b = netprobe::packet::build_arp_packet(&s);
    let f = parse_frame(&b, ParseOption { from_ip_packet: false, offset: 0 });
    assert_eq!(f.ethernet.unwrap().ether_type, 0x0806);
    let a = f.arp.unwrap();
    assert_eq!(a.operation, 1);
    assert_eq!(a.sender_hw_addr.octets, SRC_MAC);
    assert_eq!(a.sender_proto_addr, [192, 0, 2, 10]);
    assert_eq!(a.target_proto_addr, [192, 0, 2, 1]);
    assert_eq!(a.target_hw_addr.octets, [0xff; 6]);
}

#[test]
fn echo_request_round_trip() {
    let s = with_addrs(ipv4_setting(Protocol::ICMP, 1, 1));
    let b = netprobe::packet::build_icmp_packet(&s, Some(9));
    assert_eq!(b.len(), 42);
    let f = parse_frame(&b, ParseOption { from_ip_packet: false, offset: 0 });
    let v4 = f.ipv4.unwrap();
    assert_eq!(v4.source, [192, 0, 2, 10]);
    assert_eq!(v4.destination, [192, 0, 2, 1]);
    assert_eq!(v4.ttl, 9);
    assert_eq!(f.icmp_type, Some(8));
    let tun = s.with_use_tun(true);
    let c = netprobe::packet::build_icmp_packet(&tun, None);
    assert_eq!(c.len(), 28);
    assert_eq!(c[0], 0x45);
    assert_eq!(c[8], 64);
}

#[test]
fn ndp_solicitation_layout() {
    let mut s = ipv4_setting(Protocol::NDP, 1, 1);
    s.src_mac = MacAddr { octets: SRC_MAC };
    s.src_ip = IpAddr::V6([0xfe, 0x80, 0, 0, 0, 0, 0, 0, 0, 0, 0, 0, 0, 0, 0, 1]);
    s.dst_ip = IpAddr::V6([0xfe, 0x80, 0, 0, 0, 0, 0, 0, 0, 0, 0, 0, 0, 0, 0, 2]);
    let b = netprobe::packet::build_ndp_packet(&s);
    assert_eq!(b.len(), 86);
    assert_eq!(&b[12..14], &[0x86, 0xdd]);
    assert_eq!(b[21], 255);
    assert_eq!(b[54], 135);
    assert_eq!(b[77], 2);
    assert_eq!(&b[80..86], &SRC_MAC);
}

#[test]
fn status_names() {
    assert_eq!(PortStatus::Open.id(), "open");
    assert_eq!(PortStatus::Filtered.name(), "Filtered");
    assert_eq!(NodeType::DefaultGateway.id(), "default_gateway");
    assert_eq!(NodeType::Relay.name(), "Relay");
    assert_eq!(ProbeStatusKind::Timeout.name(), "Timeout");
    assert_eq!(FingerprintType::IcmpUnreachable.protocol(), Protocol::UDP);
    assert_eq!(FingerprintType::TcpEcn.protocol(), Protocol::TCP);
    assert_eq!(FingerprintType::IcmpInformation.protocol(), Protocol::ICMP);
}

#[test]
fn global_addresses() {
    assert!(netprobe::interface::is_global_addr(IpAddr::V4([8, 8, 8, 8])));
    assert!(!netprobe::interface::is_global_addr(IpAddr::V4([10, 0, 0, 1])));
    assert!(!netprobe::interface::is_global_addr(IpAddr::V6([0xfe, 0x80, 0, 0, 0, 0, 0, 0, 0, 0, 0, 0, 0, 0, 0, 1])));
    assert!(netprobe::interface::is_global_addr(IpAddr::V6([0x26, 0x06, 0x47, 0, 0x47, 0, 0, 0, 0, 0, 0, 0, 0, 0, 0x11, 0x11])));
}

#[test]
fn ipv6_echo_request_and_reply() {
    let mut s = ipv4_setting(Protocol::ICMP, 1, 1_000_000);
    s.src_mac = MacAddr { octets: SRC_MAC };
    s.dst_mac = MacAddr { octets: GW_MAC };
    let src = [0x20, 1, 0x0d, 0xb8, 0, 0, 0, 0, 0, 0, 0, 0, 0, 0, 0, 1];
    let dst = [0x20, 1, 0x0d, 0xb8, 0, 0, 0, 0, 0, 0, 0, 0, 0, 0, 0, 2];
    s.src_ip = IpAddr::V6(src);
    s.dst_ip = IpAddr::V6(dst);
    let b = netprobe::packet::build_icmp_packet(&s, None);
    assert_eq!(b.len(), 14 + 40 + 8);
    assert_eq!(&b[12..14], &[0x86, 0xdd]);
    assert_eq!(b[14 + 6], 58);
    assert_eq!(b[14 + 7], 64);
    assert_eq!(&b[14 + 8..14 + 24], &src);
    assert_eq!(b[54], 128);
    let mut session = Session::new(s, Engine::Pinger).unwrap();
    session.next_probe().unwrap();
    let mut reply = eth(SRC_MAC, GW_MAC, 0x86dd);
    let mut h = vec![0x60, 0, 0, 0, 0, 8, 58, 61];
    h.extend_from_slice(&dst);
    h.extend_from_slice(&src);
    reply.extend(h);
    reply.extend(vec![129, 0, 0, 0, 0, 0, 0, 0]);
    assert!(session.on_packet(&reply, 3_000));
    assert_eq!(session.results[0].ttl, 61);
    assert_eq!(session.results[0].hop, 3);
}

#[test]
fn tcp_control_and_udp_probe_layout() {
    let s = with_addrs(ipv4_setting(Protocol::TCP, 1, 1)).with_dst_port(8080);
    let b = netprobe::packet::build_tcp_control_packet(&s, 0x14);
    assert_eq!(b[14 + 8], 64);
    assert_eq!(b[14 + 9], 6);
    assert_eq!(&b[34..36], &44322u16.to_be_bytes());
    assert_eq!(&b[36..38], &8080u16.to_be_bytes());
    assert_eq!(b[34 + 13], 0x14);
    assert_eq!(&b[34 + 14..34 + 16], &[0xff, 0xff]);
    let u = netprobe::packet::build_udp_probe_packet(&with_addrs(ipv4_setting(Protocol::UDP, 1, 1)));
    assert_eq!(u.len(), 42);
    assert_eq!(&u[34..36], &53445u16.to_be_bytes());
    assert_eq!(&u[36..38], &33435u16.to_be_bytes());
    assert_eq!(&u[38..40], &[0, 8]);
}

#[test]
fn mismatched_families_give_link_layer_only() {
    let mut s = with_addrs(ipv4_setting(Protocol::UDP, 1, 1));
    s.dst_ip = IpAddr::V6([0x20, 1, 0x0d, 0xb8, 0, 0, 0, 0, 0, 0, 0, 0, 0, 0, 0, 2]);
    assert_eq!(netprobe::packet::build_udp_packet(&s, None).len(), 14);
    assert_eq!(netprobe::packet::build_udp_packet(&s.with_use_tun(true), None).len(), 0);
}

#[test]
fn non_global_ipv4_ranges() {
    for a in [[0, 1, 2, 3], [172, 20, 0, 1], [192, 168, 1, 1], [169, 254, 0, 1], [127, 0, 0, 1], [192, 0, 0, 9],
        [192, 0, 2, 1], [198, 51, 100, 1], [203, 0, 113, 1], [198, 19, 0, 1], [240, 0, 0, 1], [255, 255, 255, 255]] {
        assert!(!netprobe::interface::is_global_addr(IpAddr::V4(a)), "{:?}", a);
    }
    for a in [[172, 32, 0, 1], [198, 20, 0, 1], [1, 1, 1, 1], [192, 0, 3, 1]] {
        assert!(netprobe::interface::is_global_addr(IpAddr::V4(a)), "{:?}", a);
    }
}

#[test]
fn tcp_probe_options_and_lengths() {
    let s = with_addrs(ipv4_setting(Protocol::TCP, 1, 1)).with_dst_port(80);
    let b = netprobe::packet::build_tcp_probe_packet(&s, FingerprintType::TcpSynAck);
    assert_eq!(b.len(), 14 + 20 + 44);
    assert_eq!(&b[16..18], &[0, 64]);
    assert_eq!(b[34 + 12], 0xb0);
    assert_eq!(&b[54..78], &[2, 4, 0x05, 0xb4, 1, 3, 3, 6, 1, 1, 8, 10, 0xff, 0xff, 0xff, 0xff, 0, 0, 0, 0, 4, 2, 0, 0]);
    let p = netprobe::packet::build_tcp_packet(&s, None);
    assert_eq!(p.len(), 14 + 20 + 32);
    assert_eq!(&p[16..18], &[0, 52]);
    assert_eq!(&p[54..66], &[2, 4, 0x05, 0xb4, 4, 2, 1, 1, 3, 3, 7, 0]);
    assert_eq!(&p[34 + 14..34 + 16], &64240u16.to_be_bytes());
}

#[test]
fn ipv4_payload_is_bounded_by_total_length() {
    let mut b = icmp_frame([10, 0, 0, 1], [10, 0, 0, 2], 60, 0);
    b[14 + 2] = 0;
    b[14 + 3] = 22;
    let f = parse_frame(&b, ParseOption { from_ip_packet: false, offset: 0 });
    assert!(f.ipv4.is_some());
    assert!(f.icmp_type.is_none());
}
