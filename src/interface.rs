use vstd::prelude::*;
use crate::addr::{IpAddr, MacAddr, is_zero_mac};

verus! {

/// What the engines need to know of a network interface.
#[derive(Clone, Debug)]
pub struct Interface {
    pub index: u32,
    pub name: String,
    pub mac_addr: Option<MacAddr>,
    pub ipv4: Vec<[u8; 4]>,
    pub ipv6: Vec<[u8; 16]>,
    pub gateway_mac_addr: Option<MacAddr>,
    pub is_tun: bool,
    pub is_loopback: bool,
}

/// Whether an IPv6 address is globally reachable, as xenet decides it.
pub uninterp spec fn global_ipv6(octets: Seq<u8>) -> bool;

/// Whether an IPv4 address is globally reachable: not in "this network"
/// (0/8), the private ranges (10/8, 172.16/12, 192.168/16), loopback
/// (127/8), link-local (169.254/16), the protocol assignments (192.0.0/24),
/// the documentation ranges (192.0.2/24, 198.51.100/24, 203.0.113/24), the
/// benchmarking range (198.18/15), or 240/4 with the broadcast address.
pub open spec fn global_ipv4(o: Seq<u8>) -> bool {
    !(o[0] == 0
        || o[0] == 10
        || (o[0] == 172 && 16 <= o[1] && o[1] <= 31)
        || (o[0] == 192 && o[1] == 168)
        || (o[0] == 169 && o[1] == 254)
        || o[0] == 127
        || (o[0] == 192 && o[1] == 0 && o[2] == 0)
        || (o[0] == 192 && o[1] == 0 && o[2] == 2)
        || (o[0] == 198 && o[1] == 51 && o[2] == 100)
        || (o[0] == 203 && o[1] == 0 && o[2] == 113)
        || (o[0] == 198 && (o[1] == 18 || o[1] == 19))
        || o[0] >= 240)
}

/// Relies on xenet's ipnet::is_global_ipv6, a function of the address alone.
#[verifier::external_body]
pub(crate) fn is_global_ipv6(a: &[u8; 16]) -> (r: bool)
    ensures
        r == global_ipv6(a@),
{
    xenet::net::ipnet::is_global_ipv6(&core::net::Ipv6Addr::from(*a))
}

/// Relies on xenet's ipnet::is_global_ipv4, which tests these ranges with
/// std's `Ipv4Addr` predicates.
#[verifier::external_body]
pub(crate) fn is_global_ipv4(a: &[u8; 4]) -> (r: bool)
    ensures
        r == global_ipv4(a@),
{
    xenet::net::ipnet::is_global_ipv4(&core::net::Ipv4Addr::from(*a))
}

/// Whether an address is globally reachable.
pub fn is_global_addr(ip_addr: IpAddr) -> (r: bool)
    ensures
        r == match ip_addr {
            IpAddr::V4(a) => global_ipv4(a@),
            IpAddr::V6(a) => global_ipv6(a@),
        },
{
    match ip_addr {
        IpAddr::V4(a) => is_global_ipv4(&a),
        IpAddr::V6(a) => is_global_ipv6(&a),
    }
}

/// The first of `s` whose global reachability is `global`.
pub open spec fn first_v6_with(s: Seq<[u8; 16]>, global: bool) -> Option<[u8; 16]>
    decreases s.len(),
{
    if s.len() == 0 {
        None
    } else if global_ipv6(s[0]@) == global {
        Some(s[0])
    } else {
        first_v6_with(s.drop_first(), global)
    }
}

/// The first IPv4 address of the interface.
pub fn get_interface_ipv4(iface: &Interface) -> (r: Option<IpAddr>)
    ensures
        r == if iface.ipv4@.len() > 0 { Some(IpAddr::V4(iface.ipv4@[0])) } else { None::<IpAddr> },
{
    if iface.ipv4.len() > 0 {
        Some(IpAddr::V4(iface.ipv4[0]))
    } else {
        None
    }
}

fn first_ipv6_with(s: &Vec<[u8; 16]>, global: bool) -> (r: Option<[u8; 16]>)
    ensures
        r == first_v6_with(s@, global),
{
    let mut i: usize = 0;
    assert(s@.subrange(0, s@.len() as int) == s@);
    while i < s.len()
        invariant
            0 <= i <= s@.len(),
            first_v6_with(s@, global) == first_v6_with(s@.subrange(i as int, s@.len() as int), global),
        decreases s@.len() - i,
    {
        let ghost rest = s@.subrange(i as int, s@.len() as int);
        assert(rest.drop_first() == s@.subrange(i + 1, s@.len() as int));
        if is_global_ipv6(&s[i]) == global {
            return Some(s[i]);
        }
        i = i + 1;
    }
    None
}

/// The first globally reachable IPv6 address of the interface.
pub fn get_interface_global_ipv6(iface: &Interface) -> (r: Option<IpAddr>)
    ensures
        r == match first_v6_with(iface.ipv6@, true) {
            Some(a) => Some(IpAddr::V6(a)),
            None => None::<IpAddr>,
        },
{
    match first_ipv6_with(&iface.ipv6, true) {
        Some(a) => Some(IpAddr::V6(a)),
        None => None,
    }
}

/// The first IPv6 address of the interface that is not globally reachable.
pub fn get_interface_local_ipv6(iface: &Interface) -> (r: Option<IpAddr>)
    ensures
        r == match first_v6_with(iface.ipv6@, false) {
            Some(a) => Some(IpAddr::V6(a)),
            None => None::<IpAddr>,
        },
{
    match first_ipv6_with(&iface.ipv6, false) {
        Some(a) => Some(IpAddr::V6(a)),
        None => None,
    }
}

/// The interface's own MAC address, or zero when it has none.
pub fn get_interface_macaddr(iface: &Interface) -> (r: MacAddr)
    ensures
        iface.mac_addr.is_some() ==> r == iface.mac_addr.unwrap(),
        iface.mac_addr.is_none() ==> is_zero_mac(r),
{
    match iface.mac_addr {
        Some(m) => m,
        None => MacAddr::zero(),
    }
}

/// The MAC address of the interface's gateway, or zero when it has none.
pub fn get_gateway_macaddr(iface: &Interface) -> (r: MacAddr)
    ensures
        iface.gateway_mac_addr.is_some() ==> r == iface.gateway_mac_addr.unwrap(),
        iface.gateway_mac_addr.is_none() ==> is_zero_mac(r),
{
    match iface.gateway_mac_addr {
        Some(m) => m,
        None => MacAddr::zero(),
    }
}

} // verus!
