use vstd::prelude::*;
use crate::text::decimal_of;

verus! {

/// A link-layer (MAC) address.
#[derive(Clone, Copy, Debug)]
pub struct MacAddr {
    pub octets: [u8; 6],
}

/// An IPv4 or IPv6 address, held as its octets in network order.
#[derive(Clone, Copy, Debug)]
pub enum IpAddr {
    V4([u8; 4]),
    V6([u8; 16]),
}

impl MacAddr {
    /// The all-zero address.
    pub fn zero() -> (r: MacAddr)
        ensures
            r.octets@ == seq![0u8, 0u8, 0u8, 0u8, 0u8, 0u8],
    {
        MacAddr { octets: [0u8; 6] }
    }

    /// The broadcast address ff:ff:ff:ff:ff:ff.
    pub fn broadcast() -> (r: MacAddr)
        ensures
            r.octets@ == broadcast_octets(),
    {
        MacAddr { octets: [0xffu8; 6] }
    }
}

pub open spec fn broadcast_octets() -> Seq<u8> {
    seq![0xffu8, 0xffu8, 0xffu8, 0xffu8, 0xffu8, 0xffu8]
}

pub open spec fn is_zero_mac(m: MacAddr) -> bool {
    forall|i: int| 0 <= i < 6 ==> m.octets@[i] == 0
}

/// The octets of an address, in network order.
pub open spec fn ip_octets(a: IpAddr) -> Seq<u8> {
    match a {
        IpAddr::V4(o) => o@,
        IpAddr::V6(o) => o@,
    }
}

pub open spec fn is_v4(a: IpAddr) -> bool {
    a is V4
}

/// Two addresses are the same when they are of one family and hold the same octets.
pub open spec fn same_ip(a: IpAddr, b: IpAddr) -> bool {
    (a is V4 <==> b is V4) && ip_octets(a) == ip_octets(b)
}

/// Compares two byte arrays element by element.
fn bytes_equal(a: &[u8], b: &[u8]) -> (r: bool)
    ensures
        r == (a@ == b@),
{
    if a.len() != b.len() {
        return false;
    }
    let mut i: usize = 0;
    while i < a.len()
        invariant
            a@.len() == b@.len(),
            0 <= i <= a@.len(),
            a@.subrange(0, i as int) == b@.subrange(0, i as int),
        decreases a@.len() - i,
    {
        if a[i] != b[i] {
            assert(a@[i as int] != b@[i as int]);
            return false;
        }
        assert(a@.subrange(0, i + 1) == a@.subrange(0, i as int).push(a@[i as int]));
        assert(b@.subrange(0, i + 1) == b@.subrange(0, i as int).push(b@[i as int]));
        i = i + 1;
    }
    assert(a@ == a@.subrange(0, a@.len() as int));
    assert(b@ == b@.subrange(0, b@.len() as int));
    true
}

/// Whether two addresses are equal.
pub fn ip_eq(a: &IpAddr, b: &IpAddr) -> (r: bool)
    ensures
        r == same_ip(*a, *b),
{
    match (a, b) {
        (IpAddr::V4(x), IpAddr::V4(y)) => bytes_equal(x.as_slice(), y.as_slice()),
        (IpAddr::V6(x), IpAddr::V6(y)) => bytes_equal(x.as_slice(), y.as_slice()),
        (IpAddr::V4(x), IpAddr::V6(y)) => false,
        (IpAddr::V6(x), IpAddr::V4(y)) => false,
    }
}

/// Whether two link-layer addresses are equal.
pub fn mac_eq(a: &MacAddr, b: &MacAddr) -> (r: bool)
    ensures
        r == (a.octets@ == b.octets@),
{
    bytes_equal(a.octets.as_slice(), b.octets.as_slice())
}


impl PartialEq for IpAddr {
    fn eq(&self, o: &IpAddr) -> (r: bool) {
        ip_eq(self, o)
    }
}

impl vstd::std_specs::cmp::PartialEqSpecImpl for IpAddr {
    open spec fn obeys_eq_spec() -> bool {
        true
    }

    open spec fn eq_spec(&self, o: &IpAddr) -> bool {
        same_ip(*self, *o)
    }
}

impl Eq for IpAddr {}

impl PartialEq for MacAddr {
    fn eq(&self, o: &MacAddr) -> (r: bool) {
        mac_eq(self, o)
    }
}

impl vstd::std_specs::cmp::PartialEqSpecImpl for MacAddr {
    open spec fn obeys_eq_spec() -> bool {
        true
    }

    open spec fn eq_spec(&self, o: &MacAddr) -> bool {
        self.octets@ == o.octets@
    }
}

impl Eq for MacAddr {}


/// The text form of an address, as the standard library writes it.
pub uninterp spec fn ip_text(octets: Seq<u8>) -> Seq<char>;

/// Dotted-decimal form of four octets.
pub open spec fn dotted_quad(o: Seq<u8>) -> Seq<char> {
    decimal_of(o[0] as nat) + "."@ + decimal_of(o[1] as nat) + "."@ + decimal_of(o[2] as nat) + "."@
        + decimal_of(o[3] as nat)
}

/// Relies on the standard library's `Display` for `IpAddr`: dotted decimal
/// for IPv4, the RFC 5952 form for IPv6.
#[verifier::external_body]
pub(crate) fn ip_to_string(a: &IpAddr) -> (r: String)
    ensures
        r@ == ip_text(ip_octets(*a)),
        a is V4 ==> r@ == dotted_quad(ip_octets(*a)),
{
    match *a {
        IpAddr::V4(o) => core::net::IpAddr::from(o).to_string(),
        IpAddr::V6(o) => core::net::IpAddr::from(o).to_string(),
    }
}

} // verus!
