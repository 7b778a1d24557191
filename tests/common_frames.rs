use netprobe::addr::{IpAddr, MacAddr};
use netprobe::frame::{parse_frame, ParseOption};
use netprobe::interface::Interface;
use netprobe::setting::{ProbeSetting, Protocol};

fn eth(dst: [u8; 6], src: [u8; 6], ether_type: u16) -> Vec<u8> {
    let mut v = Vec::new();
    v.extend_from_slice(&dst);
    v.extend_from_slice(&src);
    v.extend_from_slice(&ether_type.to_be_bytes());
    v
}

fn ipv4(src: [u8; 4], dst: [u8; 4], proto: u8, ttl: u8, payload_len: u16) -> Vec<u8> {
    let total = 20 + payload_len;
    let mut v = vec![0x45, 0, (total >> 8) as u8, total as u8, 0, 0, 0x40, 0, ttl, proto, 0, 0];
    v.extend_from_slice(&src);
    v.extend_from_slice(&dst);
    v
}

#[test]
fn decodes_ipv4_icmp_frame() {
    let mut b = eth([1; 6], [2, 3, 4, 5, 6, 7], 0x0800);
    b.extend(ipv4([10, 0, 0, 1], [10, 0, 0, 2], 1, 57, 8));
    b.extend(vec![11, 0, 0, 0, 0, 0, 0, 0]);
    let f = parse_frame(&b, ParseOption { from_ip_packet: false, offset: 0 });
    let e = f.ethernet.unwrap();
    assert_eq!(e.source.octets, [2, 3, 4, 5, 6, 7]);
    assert_eq!(e.ether_type, 0x0800);
    let v4 = f.ipv4.unwrap();
    assert_eq!(v4.source, [10, 0, 0, 1]);
    assert_eq!(v4.destination, [10, 0, 0, 2]);
    assert_eq!(v4.ttl, 57);
    assert_eq!(v4.protocol, 1);
    assert_eq!(f.icmp_type, Some(11));
    assert!(f.arp.is_none() && f.ipv6.is_none() && f.tcp.is_none());
}

#[test]
fn decodes_tunnel_capture_from_ip_header() {
    let mut b = vec![0u8; 14];
    b.extend(ipv4([10, 0, 0, 1], [10, 0, 0, 2], 1, 60, 8));
    b.extend(vec![0, 0, 0, 0, 0, 0, 0, 0]);
    let f = parse_frame(&b, ParseOption { from_ip_packet: true, offset: 14 });
    let e = f.ethernet.unwrap();
    assert_eq!(e.source.octets, [0; 6]);
    assert_eq!(e.ether_type, 0x0800);
    assert_eq!(f.ipv4.unwrap().source, [10, 0, 0, 1]);
    assert_eq!(f.icmp_type, Some(0));
}

#[test]
fn short_capture_decodes_to_nothing() {
    let f = parse_frame(&[1, 2, 3], ParseOption { from_ip_packet: false, offset: 0 });
    assert!(f.ethernet.is_none() && f.ipv4.is_none() && f.arp.is_none());
    let g = parse_frame(&[1, 2, 3], ParseOption { from_ip_packet: true, offset: 14 });
    assert!(g.ethernet.is_none());
}

#[test]
fn decodes_tcp_segment_over_ipv6() {
    let mut b = eth([1; 6], [2; 6], 0x86dd);
    let mut h = vec![0x60, 0, 0, 0, 0, 20, 6, 50];
    h.extend_from_slice(&[0x20, 1, 0x0d, 0xb8, 0, 0, 0, 0, 0, 0, 0, 0, 0, 0, 0, 1]);
    h.extend_from_slice(&[0x20, 1, 0x0d, 0xb8, 0, 0, 0, 0, 0, 0, 0, 0, 0, 0, 0, 2]);
    b.extend(h);
    let mut t = vec![0u8; 20];
    t[0] = 0;
    t[1] = 80;
    t[2] = 0xad;
    t[3] = 0x22;
    t[12] = 0x50;
    t[13] = 0x12;
    b.extend(t);
    let f = parse_frame(&b, ParseOption { from_ip_packet: false, offset: 0 });
    let v6 = f.ipv6.unwrap();
    assert_eq!(v6.hop_limit, 50);
    assert_eq!(v6.next_header, 6);
    assert_eq!(v6.source[15], 1);
    let tcp = f.tcp.unwrap();
    assert_eq!(tcp.source, 80);
    assert_eq!(tcp.destination, 44322);
    assert_eq!(tcp.flags, 0x12);
}

#[test]
fn icmp_setting_from_interface() {
    let iface = Interface {
        index: 3,
        name: "eth0".to_string(),
        mac_addr: Some(MacAddr { octets: [0xaa, 0xbb, 0xcc, 0xdd, 0xee, 0x01] }),
        ipv4: vec![[192, 0, 2, 10]],
        ipv6: vec![],
        gateway_mac_addr: Some(MacAddr { octets: [0x11, 0x22, 0x33, 0x44, 0x55, 0x66] }),
        is_tun: false,
        is_loopback: false,
    };
    let s = ProbeSetting::icmp_ping(iface.clone(), IpAddr::V4([192, 0, 2, 1]), 3).unwrap();
    assert_eq!(s.if_index, 3);
    assert_eq!(s.if_name, "eth0");
    assert_eq!(s.dst_hostname, "192.0.2.1");
    assert_eq!(s.src_mac.octets, [0xaa, 0xbb, 0xcc, 0xdd, 0xee, 0x01]);
    assert_eq!(s.dst_mac.octets, [0x11, 0x22, 0x33, 0x44, 0x55, 0x66]);
    assert_eq!(s.count, 3);
    assert_eq!(s.hop_limit, 64);
    assert_eq!(s.receive_timeout, 1_000_000);
    assert_eq!(s.probe_timeout, 30_000_000);
    assert_eq!(s.protocol, Protocol::ICMP);
    let e = ProbeSetting::icmp_ping(iface.clone(), IpAddr::V6([0x20, 1, 0x48, 0x60, 0, 0, 0, 0, 0, 0, 0, 0, 0, 0, 0x88, 0x88]), 3);
    assert_eq!(e.unwrap_err(), "Global IPv6 address not found on default interface.");
    let t = ProbeSetting::tcp_ping(iface.clone(), IpAddr::V4([192, 0, 2, 1]), 443, 2).unwrap();
    assert_eq!(t.src_port, Some(44322));
    assert_eq!(t.dst_port, Some(443));
    let u = ProbeSetting::udp_trace(iface, IpAddr::V4([192, 0, 2, 1]), 2).unwrap();
    assert_eq!(u.src_port, Some(53445));
    assert_eq!(u.dst_port, Some(33435));
    assert_eq!(u.protocol, Protocol::UDP);
}

#[test]
fn arp_setting_errors() {
    let mut iface = Interface {
        index: 1,
        name: "lo".to_string(),
        mac_addr: None,
        ipv4: vec![],
        ipv6: vec![],
        gateway_mac_addr: None,
        is_tun: false,
        is_loopback: true,
    };
    assert_eq!(
        ProbeSetting::arp(iface.clone(), [192, 0, 2, 1], 1).unwrap_err(),
        "ARP: IPv4 address not found on interface lo"
    );
    iface.ipv4 = vec![[127, 0, 0, 1]];
    assert_eq!(ProbeSetting::arp(iface.clone(), [192, 0, 2, 1], 1).unwrap_err(), "ARP: loopback interface is not supported");
    iface.is_tun = true;
    assert_eq!(ProbeSetting::arp(iface.clone(), [192, 0, 2, 1], 1).unwrap_err(), "ARP: tun interface is not supported");
    assert_eq!(
        ProbeSetting::ndp(iface, [0xfe, 0x80, 0, 0, 0, 0, 0, 0, 0, 0, 0, 0, 0, 0, 0, 1], 1).unwrap_err(),
        "NDP: IPv6 address not found on interface lo"
    );
}
