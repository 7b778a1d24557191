use vstd::prelude::*;
use vstd::string::StringExecFns;
use crate::addr::{IpAddr, MacAddr, ip_octets, ip_text, ip_to_string, is_zero_mac, broadcast_octets};
use crate::fp::{FingerprintType, protocol_of};
use crate::interface::{
    Interface, first_v6_with, global_ipv6, get_gateway_macaddr, get_interface_global_ipv6,
    get_interface_ipv4, get_interface_local_ipv6, get_interface_macaddr, is_global_ipv6,
};

verus! {

/// The protocol a probe session uses.
#[derive(Clone, Copy, Debug, PartialEq, Eq, Structural)]
pub enum Protocol {
    ARP,
    NDP,
    ICMP,
    TCP,
    UDP,
}

pub const TCP_DEFAULT_SRC_PORT: u16 = 44322;
pub const TCP_DEFAULT_DST_PORT: u16 = 80;
pub const UDP_DEFAULT_SRC_PORT: u16 = 53445;
pub const UDP_BASE_DST_PORT: u16 = 33435;

pub const DEFAULT_HOP_LIMIT: u8 = 64;
pub const DEFAULT_COUNT: u8 = 4;
/// One second, in microseconds.
pub const DEFAULT_RECEIVE_TIMEOUT: u64 = 1_000_000;
/// Thirty seconds, in microseconds.
pub const DEFAULT_PROBE_TIMEOUT: u64 = 30_000_000;
/// One second, in microseconds.
pub const DEFAULT_SEND_RATE: u64 = 1_000_000;

/// Settings of one probe session. Durations are in microseconds.
#[derive(Clone, Debug)]
pub struct ProbeSetting {
    pub if_index: u32,
    pub if_name: String,
    pub src_mac: MacAddr,
    pub dst_mac: MacAddr,
    pub src_ip: IpAddr,
    pub src_port: Option<u16>,
    pub dst_ip: IpAddr,
    pub dst_hostname: String,
    pub dst_port: Option<u16>,
    pub hop_limit: u8,
    pub count: u8,
    pub protocol: Protocol,
    pub receive_timeout: u64,
    pub probe_timeout: u64,
    pub send_rate: u64,
    pub tunnel: bool,
    pub loopback: bool,
}

/// The session defaults shared by every constructor.
pub open spec fn has_session_defaults(s: ProbeSetting) -> bool {
    &&& s.hop_limit == DEFAULT_HOP_LIMIT
    &&& s.receive_timeout == DEFAULT_RECEIVE_TIMEOUT
    &&& s.probe_timeout == DEFAULT_PROBE_TIMEOUT
    &&& s.send_rate == DEFAULT_SEND_RATE
}

/// The source address chosen on `iface` for reaching `dst`: the first IPv4
/// address for an IPv4 destination; for IPv6 the first global address when
/// the destination is global, else the first non-global one.
pub open spec fn chosen_src_ip(iface: Interface, dst: IpAddr) -> Option<IpAddr> {
    match dst {
        IpAddr::V4(_) => if iface.ipv4@.len() > 0 { Some(IpAddr::V4(iface.ipv4@[0])) } else { None },
        IpAddr::V6(d) => match first_v6_with(iface.ipv6@, global_ipv6(d@)) {
            Some(a) => Some(IpAddr::V6(a)),
            None => None,
        },
    }
}

/// The message when no source address of the destination's kind exists.
pub open spec fn missing_src_message(dst: IpAddr) -> Seq<char> {
    match dst {
        IpAddr::V4(_) => "IPv4 address not found on default interface."@,
        IpAddr::V6(d) => if global_ipv6(d@) {
            "Global IPv6 address not found on default interface."@
        } else {
            "Local IPv6 address not found on default interface."@
        },
    }
}

/// What the interface-based constructors of IP sessions produce.
pub open spec fn is_ip_session(s: ProbeSetting, iface: Interface, dst: IpAddr, count: u8, protocol: Protocol) -> bool {
    &&& has_session_defaults(s)
    &&& s.if_index == iface.index
    &&& s.if_name@ == iface.name@
    &&& s.src_ip == chosen_src_ip(iface, dst).unwrap()
    &&& s.dst_ip == dst
    &&& s.dst_hostname@ == ip_text(ip_octets(dst))
    &&& s.count == count
    &&& s.protocol == protocol
    &&& s.tunnel == iface.is_tun
    &&& s.loopback == iface.is_loopback
    &&& (iface.is_tun ==> is_zero_mac(s.src_mac) && is_zero_mac(s.dst_mac))
    &&& (!iface.is_tun && iface.mac_addr.is_some() ==> s.src_mac == iface.mac_addr.unwrap())
    &&& (!iface.is_tun && iface.mac_addr.is_none() ==> is_zero_mac(s.src_mac))
    &&& (!iface.is_tun && iface.gateway_mac_addr.is_some() ==> s.dst_mac == iface.gateway_mac_addr.unwrap())
    &&& (!iface.is_tun && iface.gateway_mac_addr.is_none() ==> is_zero_mac(s.dst_mac))
}


/// Picks the source address on `iface` for reaching `dst`.
fn select_src_ip(iface: &Interface, dst: &IpAddr) -> (r: Result<IpAddr, String>)
    ensures
        r.is_ok() == chosen_src_ip(*iface, *dst).is_some(),
        r.is_ok() ==> r.unwrap() == chosen_src_ip(*iface, *dst).unwrap(),
        r.is_err() ==> r.unwrap_err()@ == missing_src_message(*dst),
{
    match dst {
        IpAddr::V4(_) => match get_interface_ipv4(iface) {
            Some(ip) => Ok(ip),
            None => Err("IPv4 address not found on default interface.".to_owned()),
        },
        IpAddr::V6(d) => {
            if is_global_ipv6(d) {
                match get_interface_global_ipv6(iface) {
                    Some(ip) => Ok(ip),
                    None => Err("Global IPv6 address not found on default interface.".to_owned()),
                }
            } else {
                match get_interface_local_ipv6(iface) {
                    Some(ip) => Ok(ip),
                    None => Err("Local IPv6 address not found on default interface.".to_owned()),
                }
            }
        }
    }
}

/// The setting of an IP session on `iface`, with the session defaults.
fn ip_session(iface: &Interface, dst: IpAddr, count: u8, protocol: Protocol, src_port: Option<u16>, dst_port: Option<u16>) -> (r: Result<ProbeSetting, String>)
    ensures
        r.is_ok() == chosen_src_ip(*iface, dst).is_some(),
        r.is_ok() ==> is_ip_session(r.unwrap(), *iface, dst, count, protocol),
        r.is_ok() ==> r.unwrap().src_port == src_port && r.unwrap().dst_port == dst_port,
        r.is_err() ==> r.unwrap_err()@ == missing_src_message(dst),
{
    let src_ip = match select_src_ip(iface, &dst) {
        Ok(ip) => ip,
        Err(e) => return Err(e),
    };
    let tun = iface.is_tun;
    Ok(ProbeSetting {
        if_index: iface.index,
        if_name: iface.name.clone(),
        src_mac: if tun { MacAddr::zero() } else { get_interface_macaddr(iface) },
        dst_mac: if tun { MacAddr::zero() } else { get_gateway_macaddr(iface) },
        src_ip,
        src_port,
        dst_ip: dst,
        dst_hostname: ip_to_string(&dst),
        dst_port,
        hop_limit: DEFAULT_HOP_LIMIT,
        count,
        protocol,
        receive_timeout: DEFAULT_RECEIVE_TIMEOUT,
        probe_timeout: DEFAULT_PROBE_TIMEOUT,
        send_rate: DEFAULT_SEND_RATE,
        tunnel: tun,
        loopback: iface.is_loopback,
    })
}

/// What the neighbor-resolution constructors produce.
pub open spec fn is_neighbor_session(s: ProbeSetting, iface: Interface, src: IpAddr, dst: IpAddr, count: u8, protocol: Protocol) -> bool {
    &&& has_session_defaults(s)
    &&& s.if_index == iface.index
    &&& s.if_name@ == iface.name@
    &&& (iface.mac_addr.is_some() ==> s.src_mac == iface.mac_addr.unwrap())
    &&& (iface.mac_addr.is_none() ==> is_zero_mac(s.src_mac))
    &&& s.dst_mac.octets@ == broadcast_octets()
    &&& s.src_ip == src
    &&& s.dst_ip == dst
    &&& s.dst_hostname@ == ip_text(ip_octets(dst))
    &&& s.src_port.is_none()
    &&& s.dst_port.is_none()
    &&& s.count == count
    &&& s.protocol == protocol
    &&& !s.tunnel
    &&& !s.loopback
}

fn neighbor_session(iface: &Interface, src: IpAddr, dst: IpAddr, count: u8, protocol: Protocol) -> (r: ProbeSetting)
    ensures
        is_neighbor_session(r, *iface, src, dst, count, protocol),
{
    ProbeSetting {
        if_index: iface.index,
        if_name: iface.name.clone(),
        src_mac: get_interface_macaddr(iface),
        dst_mac: MacAddr::broadcast(),
        src_ip: src,
        src_port: None,
        dst_ip: dst,
        dst_hostname: ip_to_string(&dst),
        dst_port: None,
        hop_limit: DEFAULT_HOP_LIMIT,
        count,
        protocol,
        receive_timeout: DEFAULT_RECEIVE_TIMEOUT,
        probe_timeout: DEFAULT_PROBE_TIMEOUT,
        send_rate: DEFAULT_SEND_RATE,
        tunnel: false,
        loopback: false,
    }
}

impl ProbeSetting {
    /// A setting with the defaults: ICMP to 127.0.0.1, four probes, hop limit
    /// 64, receive timeout and send rate of one second, session budget of
    /// thirty seconds.
    pub fn new() -> (r: ProbeSetting)
        ensures
            has_session_defaults(r),
            r.if_index == 0,
            r.if_name@ == Seq::<char>::empty(),
            is_zero_mac(r.src_mac),
            is_zero_mac(r.dst_mac),
            r.src_ip == IpAddr::V4([127u8, 0u8, 0u8, 1u8]),
            r.dst_ip == IpAddr::V4([127u8, 0u8, 0u8, 1u8]),
            r.src_port.is_none(),
            r.dst_port.is_none(),
            r.dst_hostname@ == Seq::<char>::empty(),
            r.count == DEFAULT_COUNT,
            r.protocol == Protocol::ICMP,
            !r.tunnel,
            !r.loopback,
    {
        ProbeSetting {
            if_index: 0,
            if_name: String::new(),
            src_mac: MacAddr::zero(),
            dst_mac: MacAddr::zero(),
            src_ip: IpAddr::V4([127u8, 0u8, 0u8, 1u8]),
            src_port: None,
            dst_ip: IpAddr::V4([127u8, 0u8, 0u8, 1u8]),
            dst_hostname: String::new(),
            dst_port: None,
            hop_limit: DEFAULT_HOP_LIMIT,
            count: DEFAULT_COUNT,
            protocol: Protocol::ICMP,
            receive_timeout: DEFAULT_RECEIVE_TIMEOUT,
            probe_timeout: DEFAULT_PROBE_TIMEOUT,
            send_rate: DEFAULT_SEND_RATE,
            tunnel: false,
            loopback: false,
        }
    }

    /// Settings for an ICMP ping from `interface` to `dst_ip_addr`.
    pub fn icmp_ping(interface: Interface, dst_ip_addr: IpAddr, count: u8) -> (r: Result<ProbeSetting, String>)
        ensures
            r.is_ok() == chosen_src_ip(interface, dst_ip_addr).is_some(),
            r.is_ok() ==> is_ip_session(r.unwrap(), interface, dst_ip_addr, count, Protocol::ICMP),
            r.is_ok() ==> r.unwrap().src_port.is_none() && r.unwrap().dst_port.is_none(),
            r.is_err() ==> r.unwrap_err()@ == missing_src_message(dst_ip_addr),
    {
        ip_session(&interface, dst_ip_addr, count, Protocol::ICMP, None, None)
    }

    /// Settings for a TCP ping from `interface` to `dst_port` of `dst_ip_addr`.
    pub fn tcp_ping(interface: Interface, dst_ip_addr: IpAddr, dst_port: u16, count: u8) -> (r: Result<ProbeSetting, String>)
        ensures
            r.is_ok() == chosen_src_ip(interface, dst_ip_addr).is_some(),
            r.is_ok() ==> is_ip_session(r.unwrap(), interface, dst_ip_addr, count, Protocol::TCP),
            r.is_ok() ==> r.unwrap().src_port == Some(TCP_DEFAULT_SRC_PORT) && r.unwrap().dst_port == Some(dst_port),
            r.is_err() ==> r.unwrap_err()@ == missing_src_message(dst_ip_addr),
    {
        ip_session(&interface, dst_ip_addr, count, Protocol::TCP, Some(TCP_DEFAULT_SRC_PORT), Some(dst_port))
    }

    /// Settings for a UDP ping from `interface` to `dst_ip_addr`.
    pub fn udp_ping(interface: Interface, dst_ip_addr: IpAddr, count: u8) -> (r: Result<ProbeSetting, String>)
        ensures
            r.is_ok() == chosen_src_ip(interface, dst_ip_addr).is_some(),
            r.is_ok() ==> is_ip_session(r.unwrap(), interface, dst_ip_addr, count, Protocol::UDP),
            r.is_ok() ==> r.unwrap().src_port == Some(UDP_DEFAULT_SRC_PORT) && r.unwrap().dst_port == Some(UDP_BASE_DST_PORT),
            r.is_err() ==> r.unwrap_err()@ == missing_src_message(dst_ip_addr),
    {
        ip_session(&interface, dst_ip_addr, count, Protocol::UDP, Some(UDP_DEFAULT_SRC_PORT), Some(UDP_BASE_DST_PORT))
    }

    /// Settings for a UDP traceroute from `interface` to `dst_ip_addr`.
    pub fn udp_trace(interface: Interface, dst_ip_addr: IpAddr, count: u8) -> (r: Result<ProbeSetting, String>)
        ensures
            r.is_ok() == chosen_src_ip(interface, dst_ip_addr).is_some(),
            r.is_ok() ==> is_ip_session(r.unwrap(), interface, dst_ip_addr, count, Protocol::UDP),
            r.is_ok() ==> r.unwrap().src_port == Some(UDP_DEFAULT_SRC_PORT) && r.unwrap().dst_port == Some(UDP_BASE_DST_PORT),
            r.is_err() ==> r.unwrap_err()@ == missing_src_message(dst_ip_addr),
    {
        ip_session(&interface, dst_ip_addr, count, Protocol::UDP, Some(UDP_DEFAULT_SRC_PORT), Some(UDP_BASE_DST_PORT))
    }

    /// Settings for a single fingerprinting probe of `probe_type`.
    pub fn fingerprinting(interface: Interface, ip_addr: IpAddr, port: Option<u16>, probe_type: FingerprintType) -> (r: Result<ProbeSetting, String>)
        ensures
            r.is_ok() == chosen_src_ip(interface, ip_addr).is_some(),
            r.is_ok() ==> is_ip_session(r.unwrap(), interface, ip_addr, 1, protocol_of(probe_type)),
            r.is_ok() ==> r.unwrap().src_port == Some(TCP_DEFAULT_SRC_PORT) && r.unwrap().dst_port == port,
            r.is_err() ==> r.unwrap_err()@ == missing_src_message(ip_addr),
    {
        ip_session(&interface, ip_addr, 1, probe_type.protocol(), Some(TCP_DEFAULT_SRC_PORT), port)
    }
    /// Settings for ARP resolution of `dst_ipv4_addr` on `interface`. The
    /// interface needs an IPv4 address and may be neither a tunnel nor a
    /// loopback.
    pub fn arp(interface: Interface, dst_ipv4_addr: [u8; 4], count: u8) -> (r: Result<ProbeSetting, String>)
        ensures
            r.is_ok() == (interface.ipv4@.len() > 0 && !interface.is_tun && !interface.is_loopback),
            r.is_ok() ==> is_neighbor_session(r.unwrap(), interface, IpAddr::V4(interface.ipv4@[0]), IpAddr::V4(dst_ipv4_addr), count, Protocol::ARP),
            interface.ipv4@.len() == 0 ==> r.is_err() && r.unwrap_err()@ == "ARP: IPv4 address not found on interface "@ + interface.name@,
            interface.ipv4@.len() > 0 && interface.is_tun ==> r.is_err() && r.unwrap_err()@ == "ARP: tun interface is not supported"@,
            interface.ipv4@.len() > 0 && !interface.is_tun && interface.is_loopback ==> r.is_err() && r.unwrap_err()@ == "ARP: loopback interface is not supported"@,
    {
        if interface.ipv4.len() == 0 {
            let mut m = "ARP: IPv4 address not found on interface ".to_owned();
            m.append(interface.name.as_str());
            return Err(m);
        }
        if interface.is_tun {
            return Err("ARP: tun interface is not supported".to_owned());
        }
        if interface.is_loopback {
            return Err("ARP: loopback interface is not supported".to_owned());
        }
        let src = IpAddr::V4(interface.ipv4[0]);
        Ok(neighbor_session(&interface, src, IpAddr::V4(dst_ipv4_addr), count, Protocol::ARP))
    }

    /// Settings for NDP resolution of `dst_ipv6_addr` on `interface`. The
    /// interface needs an IPv6 address and may be neither a tunnel nor a
    /// loopback.
    pub fn ndp(interface: Interface, dst_ipv6_addr: [u8; 16], count: u8) -> (r: Result<ProbeSetting, String>)
        ensures
            r.is_ok() == (interface.ipv6@.len() > 0 && !interface.is_tun && !interface.is_loopback),
            r.is_ok() ==> is_neighbor_session(r.unwrap(), interface, IpAddr::V6(interface.ipv6@[0]), IpAddr::V6(dst_ipv6_addr), count, Protocol::NDP),
            interface.ipv6@.len() == 0 ==> r.is_err() && r.unwrap_err()@ == "NDP: IPv6 address not found on interface "@ + interface.name@,
            interface.ipv6@.len() > 0 && interface.is_tun ==> r.is_err() && r.unwrap_err()@ == "NDP: tun interface is not supported"@,
            interface.ipv6@.len() > 0 && !interface.is_tun && interface.is_loopback ==> r.is_err() && r.unwrap_err()@ == "NDP: loopback interface is not supported"@,
    {
        if interface.ipv6.len() == 0 {
            let mut m = "NDP: IPv6 address not found on interface ".to_owned();
            m.append(interface.name.as_str());
            return Err(m);
        }
        if interface.is_tun {
            return Err("NDP: tun interface is not supported".to_owned());
        }
        if interface.is_loopback {
            return Err("NDP: loopback interface is not supported".to_owned());
        }
        let src = IpAddr::V6(interface.ipv6[0]);
        Ok(neighbor_session(&interface, src, IpAddr::V6(dst_ipv6_addr), count, Protocol::NDP))
    }

    pub fn with_if_index(self, if_index: u32) -> (r: ProbeSetting)
        ensures
            r == (ProbeSetting { if_index, ..self }),
    {
        ProbeSetting { if_index, ..self }
    }

    pub fn with_if_name(self, if_name: String) -> (r: ProbeSetting)
        ensures
            r == (ProbeSetting { if_name, ..self }),
    {
        ProbeSetting { if_name, ..self }
    }

    /// Sets the destination host name and, when it was resolved, the
    /// destination address it resolved to.
    pub fn with_dst_hostname(self, dst_hostname: String, resolved: Option<IpAddr>) -> (r: ProbeSetting)
        ensures
            r == (ProbeSetting {
                dst_hostname,
                dst_ip: match resolved { Some(ip) => ip, None => self.dst_ip },
                ..self
            }),
    {
        let dst_ip = match resolved {
            Some(ip) => ip,
            None => self.dst_ip,
        };
        ProbeSetting { dst_hostname, dst_ip, ..self }
    }

    /// Sets the destination address and, when a name was found for it, the
    /// destination host name.
    pub fn with_dst_ip(self, dst_ip: IpAddr, hostname: Option<String>) -> (r: ProbeSetting)
        ensures
            r.dst_ip == dst_ip,
            r.dst_hostname@ == match hostname { Some(h) => h@, None => self.dst_hostname@ },
            r == (ProbeSetting { dst_ip, dst_hostname: r.dst_hostname, ..self }),
    {
        let dst_hostname = match hostname {
            Some(h) => h,
            None => self.dst_hostname,
        };
        ProbeSetting { dst_ip, dst_hostname, ..self }
    }

    pub fn with_dst_port(self, dst_port: u16) -> (r: ProbeSetting)
        ensures
            r == (ProbeSetting { dst_port: Some(dst_port), ..self }),
    {
        ProbeSetting { dst_port: Some(dst_port), ..self }
    }

    pub fn with_protocol(self, protocol: Protocol) -> (r: ProbeSetting)
        ensures
            r == (ProbeSetting { protocol, ..self }),
    {
        ProbeSetting { protocol, ..self }
    }

    pub fn with_count(self, count: u8) -> (r: ProbeSetting)
        ensures
            r == (ProbeSetting { count, ..self }),
    {
        ProbeSetting { count, ..self }
    }

    pub fn with_hop_limit(self, hop_limit: u8) -> (r: ProbeSetting)
        ensures
            r == (ProbeSetting { hop_limit, ..self }),
    {
        ProbeSetting { hop_limit, ..self }
    }

    /// Sets the per-round receive timeout, in microseconds.
    pub fn with_receive_timeout(self, receive_timeout: u64) -> (r: ProbeSetting)
        ensures
            r == (ProbeSetting { receive_timeout, ..self }),
    {
        ProbeSetting { receive_timeout, ..self }
    }

    /// Sets the session budget, in microseconds.
    pub fn with_probe_timeout(self, probe_timeout: u64) -> (r: ProbeSetting)
        ensures
            r == (ProbeSetting { probe_timeout, ..self }),
    {
        ProbeSetting { probe_timeout, ..self }
    }

    /// Sets the spacing between probes, in microseconds.
    pub fn with_send_rate(self, send_rate: u64) -> (r: ProbeSetting)
        ensures
            r == (ProbeSetting { send_rate, ..self }),
    {
        ProbeSetting { send_rate, ..self }
    }

    pub fn with_use_tun(self, use_tun: bool) -> (r: ProbeSetting)
        ensures
            r == (ProbeSetting { tunnel: use_tun, ..self }),
    {
        ProbeSetting { tunnel: use_tun, ..self }
    }

    pub fn with_loopback(self, loopback: bool) -> (r: ProbeSetting)
        ensures
            r == (ProbeSetting { loopback, ..self }),
    {
        ProbeSetting { loopback, ..self }
    }
}

} // verus!
