use vstd::prelude::*;
use crate::addr::{IpAddr, MacAddr, is_zero_mac};
use crate::setting::Protocol;
use crate::text::{decimal_of, push_decimal};
use vstd::arithmetic::div_mod::{lemma_div_is_ordered, lemma_div_multiples_vanish};

verus! {

/// State of a probed port.
#[derive(Clone, Copy, Debug, PartialEq, Eq, Structural)]
pub enum PortStatus {
    Open,
    Closed,
    Filtered,
    Unknown,
}

impl PortStatus {
    /// Lower-case identifier of the status.
    pub fn id(&self) -> (r: String)
        ensures
            r@ == match *self {
                PortStatus::Open => "open"@,
                PortStatus::Closed => "closed"@,
                PortStatus::Filtered => "filtered"@,
                PortStatus::Unknown => "unknown"@,
            },
    {
        match *self {
            PortStatus::Open => "open".to_owned(),
            PortStatus::Closed => "closed".to_owned(),
            PortStatus::Filtered => "filtered".to_owned(),
            PortStatus::Unknown => "unknown".to_owned(),
        }
    }

    /// Display name of the status.
    pub fn name(&self) -> (r: String)
        ensures
            r@ == match *self {
                PortStatus::Open => "Open"@,
                PortStatus::Closed => "Closed"@,
                PortStatus::Filtered => "Filtered"@,
                PortStatus::Unknown => "Unknown"@,
            },
    {
        match *self {
            PortStatus::Open => "Open".to_owned(),
            PortStatus::Closed => "Closed".to_owned(),
            PortStatus::Filtered => "Filtered".to_owned(),
            PortStatus::Unknown => "Unknown".to_owned(),
        }
    }
}

/// Role of a node on the path to the destination.
#[derive(Clone, Copy, Debug, PartialEq, Eq, Structural)]
pub enum NodeType {
    DefaultGateway,
    Relay,
    Destination,
}

impl NodeType {
    /// Lower-case identifier of the node type.
    pub fn id(&self) -> (r: String)
        ensures
            r@ == match *self {
                NodeType::DefaultGateway => "default_gateway"@,
                NodeType::Relay => "relay"@,
                NodeType::Destination => "destination"@,
            },
    {
        match *self {
            NodeType::DefaultGateway => "default_gateway".to_owned(),
            NodeType::Relay => "relay".to_owned(),
            NodeType::Destination => "destination".to_owned(),
        }
    }

    /// Display name of the node type.
    pub fn name(&self) -> (r: String)
        ensures
            r@ == match *self {
                NodeType::DefaultGateway => "DefaultGateway"@,
                NodeType::Relay => "Relay"@,
                NodeType::Destination => "Destination"@,
            },
    {
        match *self {
            NodeType::DefaultGateway => "DefaultGateway".to_owned(),
            NodeType::Relay => "Relay".to_owned(),
            NodeType::Destination => "Destination".to_owned(),
        }
    }
}

/// Outcome of a probe.
#[derive(Clone, Copy, Debug, PartialEq, Eq, Structural)]
pub enum ProbeStatusKind {
    /// Successfully completed
    Done,
    /// Interrupted by error
    Error,
    /// No matching reply within the configured timeout
    Timeout,
}

impl ProbeStatusKind {
    /// Display name of the status kind.
    pub fn name(&self) -> (r: String)
        ensures
            r@ == match *self {
                ProbeStatusKind::Done => "Done"@,
                ProbeStatusKind::Error => "Error"@,
                ProbeStatusKind::Timeout => "Timeout"@,
            },
    {
        match *self {
            ProbeStatusKind::Done => "Done".to_owned(),
            ProbeStatusKind::Error => "Error".to_owned(),
            ProbeStatusKind::Timeout => "Timeout".to_owned(),
        }
    }
}

/// Outcome of a probe with its message.
#[derive(Clone, Debug)]
pub struct ProbeStatus {
    pub kind: ProbeStatusKind,
    pub message: String,
}

impl ProbeStatus {
    /// A successful status with an empty message.
    pub fn new() -> (r: ProbeStatus)
        ensures
            r.kind == ProbeStatusKind::Done,
            r.message@ == Seq::<char>::empty(),
    {
        ProbeStatus { kind: ProbeStatusKind::Done, message: String::new() }
    }

    /// An error status carrying `message`.
    pub fn with_error_message(message: String) -> (r: ProbeStatus)
        ensures
            r.kind == ProbeStatusKind::Error,
            r.message@ == message@,
    {
        ProbeStatus { kind: ProbeStatusKind::Error, message }
    }

    /// A timeout status carrying `message`.
    pub fn with_timeout_message(message: String) -> (r: ProbeStatus)
        ensures
            r.kind == ProbeStatusKind::Timeout,
            r.message@ == message@,
    {
        ProbeStatus { kind: ProbeStatusKind::Timeout, message }
    }
}

/// Result of one probe round.
#[derive(Clone, Debug)]
pub struct ProbeResult {
    /// Sequence number (the TTL in a traceroute)
    pub seq: u8,
    /// MAC address of the replying node
    pub mac_addr: MacAddr,
    /// IP address of the replying node
    pub ip_addr: IpAddr,
    /// Host name
    pub host_name: String,
    /// Port
    pub port_number: Option<u16>,
    /// Port status
    pub port_status: Option<PortStatus>,
    /// Time to live of the reply
    pub ttl: u8,
    /// Number of hops
    pub hop: u8,
    /// Round trip time, in microseconds
    pub rtt: u64,
    /// Status
    pub probe_status: ProbeStatus,
    /// Protocol
    pub protocol: Protocol,
    /// Node type
    pub node_type: NodeType,
    /// Sent packet size
    pub sent_packet_size: usize,
    /// Received packet size
    pub received_packet_size: usize,
}

/// The message of a timed-out round.
pub open spec fn timeout_message(seq: u8) -> Seq<char> {
    "Request timeout for seq "@ + decimal_of(seq as nat)
}

/// What a timed-out round reports: nothing was received from anyone.
pub open spec fn is_timeout_shaped(r: ProbeResult) -> bool {
    &&& r.probe_status.kind == ProbeStatusKind::Timeout
    &&& r.rtt == 0
    &&& r.received_packet_size == 0
    &&& is_zero_mac(r.mac_addr)
    &&& r.ttl == 0
    &&& r.hop == 0
}

fn timeout_status(seq: u8) -> (r: ProbeStatus)
    ensures
        r.kind == ProbeStatusKind::Timeout,
        r.message@ == timeout_message(seq),
{
    let mut message = "Request timeout for seq ".to_owned();
    push_decimal(&mut message, seq);
    ProbeStatus::with_timeout_message(message)
}

impl ProbeResult {
    /// An empty successful result addressed to 127.0.0.1.
    pub fn new() -> (r: ProbeResult)
        ensures
            r.seq == 0,
            is_zero_mac(r.mac_addr),
            r.ip_addr == IpAddr::V4([127u8, 0u8, 0u8, 1u8]),
            r.host_name@ == Seq::<char>::empty(),
            r.port_number.is_none(),
            r.port_status.is_none(),
            r.ttl == 0,
            r.hop == 0,
            r.rtt == 0,
            r.probe_status.kind == ProbeStatusKind::Done,
            r.protocol == Protocol::ICMP,
            r.node_type == NodeType::Destination,
            r.sent_packet_size == 0,
            r.received_packet_size == 0,
    {
        ProbeResult {
            seq: 0,
            mac_addr: MacAddr::zero(),
            ip_addr: IpAddr::V4([127u8, 0u8, 0u8, 1u8]),
            host_name: String::new(),
            port_number: None,
            port_status: None,
            ttl: 0,
            hop: 0,
            rtt: 0,
            probe_status: ProbeStatus::new(),
            protocol: Protocol::ICMP,
            node_type: NodeType::Destination,
            sent_packet_size: 0,
            received_packet_size: 0,
        }
    }

    /// The result of a round in which no matching reply came.
    pub fn timeout(seq: u8, ip_addr: IpAddr, host_name: String, protocol: Protocol, sent_packet_size: usize) -> (r: ProbeResult)
        ensures
            is_timeout_shaped(r),
            r.seq == seq,
            r.ip_addr == ip_addr,
            r.host_name@ == host_name@,
            r.port_number.is_none(),
            r.port_status.is_none(),
            r.probe_status.message@ == timeout_message(seq),
            r.protocol == protocol,
            r.node_type == NodeType::Destination,
            r.sent_packet_size == sent_packet_size,
    {
        ProbeResult {
            seq,
            mac_addr: MacAddr::zero(),
            ip_addr,
            host_name,
            port_number: None,
            port_status: None,
            ttl: 0,
            hop: 0,
            rtt: 0,
            probe_status: timeout_status(seq),
            protocol,
            node_type: NodeType::Destination,
            sent_packet_size,
            received_packet_size: 0,
        }
    }

    /// The result of a traceroute round in which no matching reply came.
    pub fn trace_timeout(seq: u8, protocol: Protocol, sent_packet_size: usize, node_type: NodeType) -> (r: ProbeResult)
        ensures
            is_timeout_shaped(r),
            r.seq == seq,
            r.ip_addr == IpAddr::V4([0u8, 0u8, 0u8, 0u8]),
            r.host_name@ == Seq::<char>::empty(),
            r.port_number.is_none(),
            r.port_status.is_none(),
            r.probe_status.message@ == timeout_message(seq),
            r.protocol == protocol,
            r.node_type == node_type,
            r.sent_packet_size == sent_packet_size,
    {
        ProbeResult {
            seq,
            mac_addr: MacAddr::zero(),
            ip_addr: IpAddr::V4([0u8, 0u8, 0u8, 0u8]),
            host_name: String::new(),
            port_number: None,
            port_status: None,
            ttl: 0,
            hop: 0,
            rtt: 0,
            probe_status: timeout_status(seq),
            protocol,
            node_type,
            sent_packet_size,
            received_packet_size: 0,
        }
    }
}


pub open spec fn is_done(r: ProbeResult) -> bool {
    r.probe_status.kind == ProbeStatusKind::Done
}

/// Number of completed rounds.
pub open spec fn done_count(s: Seq<ProbeResult>) -> nat
    decreases s.len(),
{
    if s.len() == 0 {
        0
    } else {
        done_count(s.drop_last()) + if is_done(s.last()) { 1nat } else { 0nat }
    }
}

/// Sum of the round trip times of the completed rounds.
pub open spec fn done_rtt_sum(s: Seq<ProbeResult>) -> nat
    decreases s.len(),
{
    if s.len() == 0 {
        0
    } else {
        done_rtt_sum(s.drop_last()) + if is_done(s.last()) { s.last().rtt as nat } else { 0nat }
    }
}

/// Least round trip time of the completed rounds; 0 when there are none.
pub open spec fn done_rtt_min(s: Seq<ProbeResult>) -> u64
    decreases s.len(),
{
    if s.len() == 0 {
        0
    } else {
        let m = done_rtt_min(s.drop_last());
        let r = s.last();
        if is_done(r) && (done_count(s.drop_last()) == 0 || r.rtt < m) {
            r.rtt
        } else {
            m
        }
    }
}

/// Greatest round trip time of the completed rounds; 0 when there are none.
pub open spec fn done_rtt_max(s: Seq<ProbeResult>) -> u64
    decreases s.len(),
{
    if s.len() == 0 {
        0
    } else {
        let m = done_rtt_max(s.drop_last());
        let r = s.last();
        if is_done(r) && r.rtt > m {
            r.rtt
        } else {
            m
        }
    }
}

/// Mean round trip time of the completed rounds, rounded down; 0 when there are none.
pub open spec fn done_rtt_avg(s: Seq<ProbeResult>) -> nat {
    if done_count(s) == 0 {
        0
    } else {
        done_rtt_sum(s) / done_count(s)
    }
}

/// Aggregate statistics of a ping session.
#[derive(Clone, Debug)]
pub struct PingStat {
    /// Ping responses
    pub responses: Vec<ProbeResult>,
    /// The entire ping probe time, in microseconds
    pub probe_time: u64,
    /// Transmitted packets
    pub transmitted_count: usize,
    /// Received packets
    pub received_count: usize,
    /// Minimum RTT, in microseconds
    pub min: u64,
    /// Average RTT, in microseconds
    pub avg: u64,
    /// Maximum RTT, in microseconds
    pub max: u64,
}

proof fn lemma_done_bounds(s: Seq<ProbeResult>)
    ensures
        done_count(s) <= s.len(),
        done_count(s) == 0 ==> done_rtt_sum(s) == 0 && done_rtt_max(s) == 0 && done_rtt_min(s) == 0,
        done_count(s) * (done_rtt_min(s) as nat) <= done_rtt_sum(s),
        done_rtt_sum(s) <= done_count(s) * (done_rtt_max(s) as nat),
        done_rtt_sum(s) <= s.len() * (u64::MAX as nat),
        done_rtt_min(s) <= done_rtt_max(s),
    decreases s.len(),
{
    if s.len() > 0 {
        let t = s.drop_last();
        let r = s.last();
        lemma_done_bounds(t);
        let c = done_count(t);
        let sm = done_rtt_sum(t);
        let mn = done_rtt_min(t) as nat;
        let mx = done_rtt_max(t) as nat;
        let mn2 = done_rtt_min(s) as nat;
        let mx2 = done_rtt_max(s) as nat;
        assert(sm + (u64::MAX as nat) <= s.len() * (u64::MAX as nat)) by (nonlinear_arith)
            requires sm <= t.len() * (u64::MAX as nat), s.len() == t.len() + 1;
        if is_done(r) {
            let x = r.rtt as nat;
            if c == 0 {
                assert(mn2 == x && mx2 == x);
                assert(done_count(s) == 1);
                assert(1 * x == x) by (nonlinear_arith);
            } else {
                assert(mn2 <= mn && mn2 <= x);
                assert(mx2 >= mx && mx2 >= x);
                assert((c + 1) * mn2 <= sm + x) by (nonlinear_arith)
                    requires mn2 <= mn, mn2 <= x, c * mn <= sm;
                assert(sm + x <= (c + 1) * mx2) by (nonlinear_arith)
                    requires mx <= mx2, x <= mx2, sm <= c * mx;
            }
        } else {
        }
    }
}

/// Ordering of the ping statistics: over the completed rounds the least
/// round trip time is at most the mean, and the mean at most the greatest;
/// when no round completed all three are 0.
pub proof fn lemma_min_avg_max(s: Seq<ProbeResult>)
    ensures
        done_rtt_min(s) <= done_rtt_avg(s) <= done_rtt_max(s),
        done_count(s) == 0 ==> done_rtt_min(s) == 0 && done_rtt_avg(s) == 0 && done_rtt_max(s) == 0,
{
    lemma_done_bounds(s);
    let c = done_count(s);
    if c > 0 {
        let sm = done_rtt_sum(s) as int;
        let mn = done_rtt_min(s) as int;
        let mx = done_rtt_max(s) as int;
        assert(c * mn == mn * c) by (nonlinear_arith);
        assert(c * mx == mx * c) by (nonlinear_arith);
        lemma_div_is_ordered(c * mn, sm, c as int);
        lemma_div_is_ordered(sm, c * mx, c as int);
        lemma_div_multiples_vanish(mn, c as int);
        lemma_div_multiples_vanish(mx, c as int);
    }
}

impl PingStat {
    /// Empty statistics.
    pub fn new() -> (r: PingStat)
        ensures
            r.responses@.len() == 0,
            r.probe_time == 0,
            r.transmitted_count == 0,
            r.received_count == 0,
            r.min == 0,
            r.avg == 0,
            r.max == 0,
    {
        PingStat {
            responses: Vec::new(),
            probe_time: 0,
            transmitted_count: 0,
            received_count: 0,
            min: 0,
            avg: 0,
            max: 0,
        }
    }

    /// Statistics of a finished session: the received count and the round
    /// trip times are taken over the completed rounds only.
    pub fn from_responses(responses: Vec<ProbeResult>, probe_time: u64, transmitted_count: usize) -> (r: PingStat)
        ensures
            r.responses@ == responses@,
            r.probe_time == probe_time,
            r.transmitted_count == transmitted_count,
            r.received_count == done_count(responses@),
            r.min == done_rtt_min(responses@),
            r.avg == done_rtt_avg(responses@),
            r.max == done_rtt_max(responses@),
    {
        let mut count: usize = 0;
        let mut sum: u128 = 0;
        let mut min: u64 = 0;
        let mut max: u64 = 0;
        let mut i: usize = 0;
        while i < responses.len()
            invariant
                0 <= i <= responses@.len(),
                count == done_count(responses@.take(i as int)),
                sum == done_rtt_sum(responses@.take(i as int)),
                min == done_rtt_min(responses@.take(i as int)),
                max == done_rtt_max(responses@.take(i as int)),
            decreases responses@.len() - i,
        {
            let ghost t = responses@.take(i as int);
            let ghost t2 = responses@.take(i + 1);
            proof {
                assert(t2.drop_last() == t);
                assert(t2.last() == responses@[i as int]);
                lemma_done_bounds(t);
                assert(sum + u64::MAX < 0x1_0000_0000_0000_0000_0000_0000_0000_0000) by (nonlinear_arith)
                    requires sum <= i * (u64::MAX as nat), i <= usize::MAX;
            }
            let r = &responses[i];
            if r.probe_status.kind == ProbeStatusKind::Done {
                if count == 0 || r.rtt < min {
                    min = r.rtt;
                }
                if r.rtt > max {
                    max = r.rtt;
                }
                count = count + 1;
                sum = sum + r.rtt as u128;
            }
            i = i + 1;
        }
        assert(responses@.take(responses@.len() as int) == responses@);
        proof {
            lemma_min_avg_max(responses@);
            lemma_done_bounds(responses@);
        }
        let avg: u64 = if count == 0 { 0 } else { (sum / count as u128) as u64 };
        PingStat {
            responses,
            probe_time,
            transmitted_count,
            received_count: count,
            min,
            avg,
            max,
        }
    }
}

/// Result of a ping session.
#[derive(Clone, Debug)]
pub struct PingResult {
    pub stat: PingStat,
    pub probe_status: ProbeStatus,
    /// Start time, in RFC 3339 form
    pub start_time: String,
    /// End time, in RFC 3339 form
    pub end_time: String,
    /// Elapsed time, in microseconds
    pub elapsed_time: u64,
    pub protocol: Protocol,
}

impl PingResult {
    pub fn new() -> (r: PingResult)
        ensures
            r.stat.responses@.len() == 0,
            r.stat.received_count == 0,
            r.stat.transmitted_count == 0,
            r.probe_status.kind == ProbeStatusKind::Done,
            r.start_time@ == Seq::<char>::empty(),
            r.end_time@ == Seq::<char>::empty(),
            r.elapsed_time == 0,
            r.protocol == Protocol::ICMP,
    {
        PingResult {
            stat: PingStat::new(),
            probe_status: ProbeStatus::new(),
            start_time: String::new(),
            end_time: String::new(),
            elapsed_time: 0,
            protocol: Protocol::ICMP,
        }
    }
}

/// Result of a traceroute session.
#[derive(Clone, Debug)]
pub struct TracerouteResult {
    pub nodes: Vec<ProbeResult>,
    pub probe_status: ProbeStatus,
    /// Start time, in RFC 3339 form
    pub start_time: String,
    /// End time, in RFC 3339 form
    pub end_time: String,
    /// Elapsed time, in microseconds
    pub elapsed_time: u64,
    pub protocol: Protocol,
}

impl TracerouteResult {
    pub fn new() -> (r: TracerouteResult)
        ensures
            r.nodes@.len() == 0,
            r.probe_status.kind == ProbeStatusKind::Done,
            r.start_time@ == Seq::<char>::empty(),
            r.end_time@ == Seq::<char>::empty(),
            r.elapsed_time == 0,
            r.protocol == Protocol::UDP,
    {
        TracerouteResult {
            nodes: Vec::new(),
            probe_status: ProbeStatus::new(),
            start_time: String::new(),
            end_time: String::new(),
            elapsed_time: 0,
            protocol: Protocol::UDP,
        }
    }
}

/// Result of a neighbor resolution session.
#[derive(Clone, Debug)]
pub struct DeviceResolveResult {
    pub results: Vec<ProbeResult>,
    pub probe_status: ProbeStatus,
    /// Start time, in RFC 3339 form
    pub start_time: String,
    /// End time, in RFC 3339 form
    pub end_time: String,
    /// Elapsed time, in microseconds
    pub elapsed_time: u64,
    pub protocol: Protocol,
}

impl DeviceResolveResult {
    pub fn new() -> (r: DeviceResolveResult)
        ensures
            r.results@.len() == 0,
            r.probe_status.kind == ProbeStatusKind::Done,
            r.start_time@ == Seq::<char>::empty(),
            r.end_time@ == Seq::<char>::empty(),
            r.elapsed_time == 0,
            r.protocol == Protocol::ARP,
    {
        DeviceResolveResult {
            results: Vec::new(),
            probe_status: ProbeStatus::new(),
            start_time: String::new(),
            end_time: String::new(),
            elapsed_time: 0,
            protocol: Protocol::ARP,
        }
    }
}

} // verus!
