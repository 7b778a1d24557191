use vstd::prelude::*;
use crate::filter::{
    Reception, arp_reply_matches, echo_reply_matches, match_arp_reply, match_echo_reply,
    match_ndp_advert, match_port_unreachable, match_tcp_reply, match_trace_reply, ndp_advert_matches,
    port_unreachable_matches, tcp_reply_matches, trace_node_type, trace_reply_matches, trace_source, trace_ttl,
    is_time_exceeded, TCP_SYN_ACK, ttl_by, echo_match_v4, unreachable_match_v4, ip_ttl,
};
use crate::addr::IpAddr;
use crate::frame::{Frame, ParseOption, frame_agrees, parse_frame, parse_option_for};
use crate::ip::initial_ttl_of;
use crate::packet::{
    build_arp_packet, build_icmp_packet, build_ndp_packet, build_tcp_packet, build_udp_packet, arp_packet_ok,
    icmp_packet_ok, ndp_packet_ok, syn_options, tcp_packet_ok, udp_packet_ok, ICMP_ECHO_REQUEST, TCP_PING_WINDOW,
    TCP_SYN,
};
use crate::result::{
    DeviceResolveResult, NodeType, PortStatus, PingResult, PingStat, ProbeResult, ProbeStatus, ProbeStatusKind,
    TracerouteResult, done_count, done_rtt_avg, done_rtt_max, done_rtt_min, is_timeout_shaped, timeout_message,
    lemma_min_avg_max,
};
use crate::setting::{ProbeSetting, Protocol};

verus! {

/// The engine a session runs for.
#[derive(Clone, Copy, Debug, PartialEq, Eq, Structural)]
pub enum Engine {
    /// ARP/NDP neighbor resolution: `count` rounds
    Resolver,
    /// ICMP/TCP/UDP ping: `count` rounds
    Pinger,
    /// UDP traceroute: one round per TTL from 1 to `hop_limit - 1`, ending
    /// early at the destination
    Tracer,
}

/// The decisions of a probe session, round by round. The caller sends the
/// probe that `next_probe` hands out, feeds each received frame to
/// `on_packet` (or a receive failure to `on_receive_error`) until one of
/// them ends the round, and waits `send_rate` between rounds when
/// `pause_after_round` says so.
#[derive(Debug)]
pub struct Session {
    pub setting: ProbeSetting,
    pub engine: Engine,
    pub results: Vec<ProbeResult>,
    /// The current round (sequence number, or TTL in a traceroute); 0 before the first
    pub round: u8,
    /// Whether a probe was sent and its round has not ended
    pub in_round: bool,
    /// Whether the traceroute has heard from the destination
    pub dst_reached: bool,
    /// Size of the probe of the current round
    pub sent_size: usize,
    pub parse_option: ParseOption,
}

/// The number of rounds a session runs unless it ends early.
pub open spec fn total_rounds(s: ProbeSetting, e: Engine) -> nat {
    match e {
        Engine::Tracer => if s.hop_limit >= 1 { (s.hop_limit - 1) as nat } else { 0 },
        _ => s.count as nat,
    }
}

/// The protocols each engine runs.
pub open spec fn supports(e: Engine, p: Protocol) -> bool {
    match e {
        Engine::Resolver => p == Protocol::ARP || p == Protocol::NDP,
        Engine::Pinger => p == Protocol::ICMP || p == Protocol::TCP || p == Protocol::UDP,
        Engine::Tracer => p == Protocol::UDP,
    }
}

/// The protocol the results of a session carry.
pub open spec fn result_protocol(s: ProbeSetting, e: Engine) -> Protocol {
    if e == Engine::Tracer { Protocol::UDP } else { s.protocol }
}

/// Whether a frame answers the outstanding probe of the session.
pub open spec fn reply_matches(s: ProbeSetting, e: Engine, f: Frame) -> bool {
    match e {
        Engine::Resolver => if s.protocol == Protocol::ARP { arp_reply_matches(s, f) } else { ndp_advert_matches(s, f) },
        Engine::Pinger => if s.protocol == Protocol::ICMP {
            echo_reply_matches(s, f)
        } else if s.protocol == Protocol::TCP {
            tcp_reply_matches(s, f)
        } else {
            port_unreachable_matches(s, f)
        },
        Engine::Tracer => trace_reply_matches(f),
    }
}

/// The probe of round `round`: an ARP request or a Neighbor Solicitation
/// behind a broadcast Ethernet header; an ICMP, TCP or UDP packet with the
/// setting's hop limit; for a traceroute a UDP packet whose TTL is the round.
pub open spec fn is_round_probe(b: Seq<u8>, s: ProbeSetting, e: Engine, round: u8) -> bool {
    match e {
        Engine::Resolver => if s.protocol == Protocol::ARP { arp_packet_ok(b, s) } else { ndp_packet_ok(b, s) },
        Engine::Pinger => if s.protocol == Protocol::ICMP {
            icmp_packet_ok(b, s, s.hop_limit, ICMP_ECHO_REQUEST)
        } else if s.protocol == Protocol::TCP {
            tcp_packet_ok(b, s, s.hop_limit, TCP_SYN, TCP_PING_WINDOW, syn_options(), 52, 32)
        } else {
            udp_packet_ok(b, s, s.hop_limit)
        },
        Engine::Tracer => udp_packet_ok(b, s, round),
    }
}

/// The result of a round that timed out.
pub open spec fn is_round_timeout(r: ProbeResult, s: ProbeSetting, e: Engine, seq: u8, sent: usize) -> bool {
    &&& is_timeout_shaped(r)
    &&& r.seq == seq
    &&& r.protocol == result_protocol(s, e)
    &&& r.sent_packet_size == sent
    &&& r.probe_status.message@ == timeout_message(seq)
    &&& r.port_number.is_none() && r.port_status.is_none()
    &&& (e == Engine::Tracer ==> r.node_type == NodeType::Relay && r.ip_addr == IpAddr::V4([0u8, 0u8, 0u8, 0u8])
            && r.host_name@ == Seq::<char>::empty())
    &&& (e != Engine::Tracer ==> r.node_type == NodeType::Destination && r.ip_addr == s.dst_ip
            && r.host_name@ == s.dst_hostname@)
}

/// The result of a round that a reply ended.
pub open spec fn is_round_reply(r: ProbeResult, s: ProbeSetting, e: Engine, f: Frame, seq: u8, sent: usize, received: usize, rtt: u64) -> bool {
    &&& r.probe_status.kind == ProbeStatusKind::Done
    &&& r.seq == seq
    &&& r.rtt == rtt
    &&& r.protocol == result_protocol(s, e)
    &&& r.sent_packet_size == sent
    &&& r.received_packet_size == received
    &&& (e == Engine::Tracer ==> r.node_type == trace_node_type(f, seq))
    &&& (e != Engine::Tracer ==> r.node_type == NodeType::Destination && r.ip_addr == s.dst_ip)
    &&& (e == Engine::Tracer ==> r.ip_addr == trace_source(f) && r.ttl == trace_ttl(f)
            && (is_time_exceeded(f) ==> r.port_status.is_none())
            && (!is_time_exceeded(f) ==> r.port_status == Some(PortStatus::Closed)))
    &&& (e == Engine::Resolver && s.protocol == Protocol::ARP ==> r.mac_addr == f.arp.unwrap().sender_hw_addr
            && r.ttl == 0 && r.hop == 0)
    &&& (e == Engine::Resolver && s.protocol == Protocol::NDP ==> r.mac_addr == f.ethernet.unwrap().source
            && r.ttl == f.ipv6.unwrap().hop_limit)
    &&& (e == Engine::Pinger && s.protocol == Protocol::ICMP ==> r.ttl == ttl_by(f, echo_match_v4(s, f)))
    &&& (e == Engine::Pinger && s.protocol == Protocol::UDP ==> r.ttl == ttl_by(f, unreachable_match_v4(s, f)))
    &&& (e == Engine::Pinger && s.protocol == Protocol::TCP ==> r.ttl == ip_ttl(f))
    &&& (!(e == Engine::Resolver && s.protocol == Protocol::ARP) ==> r.hop == initial_ttl_of(r.ttl) - r.ttl)
    &&& (e == Engine::Pinger && s.protocol == Protocol::UDP ==> r.port_status == Some(PortStatus::Closed) && r.port_number == s.dst_port)
    &&& (e == Engine::Pinger && s.protocol == Protocol::TCP ==> r.port_number == Some(f.tcp.unwrap().source)
            && r.port_status == Some(if f.tcp.unwrap().flags == TCP_SYN_ACK { PortStatus::Open } else { PortStatus::Closed }))
}

impl Session {
    /// The session's invariant.
    pub open spec fn wf(&self) -> bool {
        let n = self.results@.len();
        &&& supports(self.engine, self.setting.protocol)
        &&& self.round <= total_rounds(self.setting, self.engine)
        &&& n == self.round - if self.in_round { 1int } else { 0int }
        &&& self.parse_option == (ParseOption {
            from_ip_packet: self.setting.tunnel,
            offset: if self.setting.tunnel && self.setting.loopback { 14usize } else { 0usize },
        })
        &&& forall|i: int| 0 <= i < n ==> #[trigger] self.results@[i].seq == i + 1
        &&& forall|i: int| 0 <= i < n ==> #[trigger] self.results@[i].protocol == result_protocol(self.setting, self.engine)
        &&& forall|i: int| 0 <= i < n ==> {
            let r = #[trigger] self.results@[i];
            ||| r.probe_status.kind == ProbeStatusKind::Done && r.rtt <= self.setting.receive_timeout
            ||| is_timeout_shaped(r)
        }
        &&& self.dst_reached ==> self.engine == Engine::Tracer && !self.in_round && n > 0
            && self.results@[n - 1].node_type == NodeType::Destination
        &&& self.engine == Engine::Tracer ==> forall|i: int| 0 <= i < n && !(self.dst_reached && i == n - 1)
            ==> #[trigger] self.results@[i].node_type != NodeType::Destination
    }

    /// Whether every round has been run (or the traceroute reached its destination).
    pub open spec fn finished(&self) -> bool {
        !self.in_round && (self.round == total_rounds(self.setting, self.engine) || self.dst_reached)
    }

    /// Starts a session of `engine` with `setting`; the engine must support
    /// the setting's protocol.
    pub fn new(setting: ProbeSetting, engine: Engine) -> (r: Result<Session, String>)
        ensures
            r.is_ok() == supports(engine, setting.protocol),
            r.is_ok() ==> {
                let s = r.unwrap();
                &&& s.wf()
                &&& s.setting == setting
                &&& s.engine == engine
                &&& s.results@.len() == 0
                &&& s.round == 0
                &&& !s.in_round
            },
            engine == Engine::Tracer && setting.protocol == Protocol::ICMP ==> r.is_err() && r.unwrap_err()@ == "ICMP traceroute is not supported"@,
            engine == Engine::Tracer && setting.protocol == Protocol::TCP ==> r.is_err() && r.unwrap_err()@ == "TCP traceroute is not supported"@,
            r.is_err() && !(engine == Engine::Tracer && (setting.protocol == Protocol::ICMP || setting.protocol == Protocol::TCP))
                ==> r.unwrap_err()@ == "unsupported protocol"@,
    {
        let ok = match engine {
            Engine::Resolver => setting.protocol == Protocol::ARP || setting.protocol == Protocol::NDP,
            Engine::Pinger => setting.protocol == Protocol::ICMP || setting.protocol == Protocol::TCP || setting.protocol == Protocol::UDP,
            Engine::Tracer => setting.protocol == Protocol::UDP,
        };
        if !ok {
            if engine == Engine::Tracer && setting.protocol == Protocol::ICMP {
                return Err("ICMP traceroute is not supported".to_owned());
            }
            if engine == Engine::Tracer && setting.protocol == Protocol::TCP {
                return Err("TCP traceroute is not supported".to_owned());
            }
            return Err("unsupported protocol".to_owned());
        }
        let parse_option = parse_option_for(setting.tunnel, setting.loopback);
        Ok(Session {
            setting,
            engine,
            results: Vec::new(),
            round: 0,
            in_round: false,
            dst_reached: false,
            sent_size: 0,
            parse_option,
        })
    }

    /// Whether every round has been run.
    pub fn is_finished(&self) -> (r: bool)
        requires
            self.wf(),
        ensures
            r == self.finished(),
    {
        let total: u8 = match self.engine {
            Engine::Tracer => if self.setting.hop_limit >= 1 { self.setting.hop_limit - 1 } else { 0 },
            _ => self.setting.count,
        };
        !self.in_round && (self.round == total || self.dst_reached)
    }

    /// Starts the next round and hands out its probe, or `None` when the
    /// session is finished.
    pub fn next_probe(&mut self) -> (r: Option<Vec<u8>>)
        requires
            old(self).wf(),
            !old(self).in_round,
        ensures
            final(self).wf(),
            r.is_none() == old(self).finished(),
            r.is_none() ==> *final(self) == *old(self),
            r.is_some() ==> {
                &&& final(self).round == old(self).round + 1
                &&& final(self).in_round
                &&& final(self).sent_size == r.unwrap()@.len()
                &&& is_round_probe(r.unwrap()@, old(self).setting, old(self).engine, final(self).round)
                &&& final(self).results@ == old(self).results@
                &&& final(self).setting == old(self).setting
                &&& final(self).engine == old(self).engine
                &&& final(self).dst_reached == old(self).dst_reached
            },
    {
        if self.is_finished() {
            return None;
        }
        let round = self.round + 1;
        let packet = match self.engine {
            Engine::Resolver => if self.setting.protocol == Protocol::ARP {
                build_arp_packet(&self.setting)
            } else {
                build_ndp_packet(&self.setting)
            },
            Engine::Pinger => if self.setting.protocol == Protocol::ICMP {
                build_icmp_packet(&self.setting, None)
            } else if self.setting.protocol == Protocol::TCP {
                build_tcp_packet(&self.setting, None)
            } else {
                build_udp_packet(&self.setting, None)
            },
            Engine::Tracer => build_udp_packet(&self.setting, Some(round)),
        };
        self.round = round;
        self.in_round = true;
        self.sent_size = packet.len();
        Some(packet)
    }

    /// The result of a round that timed out.
    fn timeout_result(&self) -> (r: ProbeResult)
        requires
            self.wf(),
        ensures
            is_round_timeout(r, self.setting, self.engine, self.round, self.sent_size),
    {
        match self.engine {
            Engine::Tracer => ProbeResult::trace_timeout(self.round, Protocol::UDP, self.sent_size, NodeType::Relay),
            _ => ProbeResult::timeout(self.round, self.setting.dst_ip, self.setting.dst_hostname.clone(), self.setting.protocol, self.sent_size),
        }
    }

    /// Ends the current round with `r`.
    fn end_round(&mut self, r: ProbeResult)
        requires
            old(self).wf(),
            old(self).in_round,
            r.seq == old(self).round,
            r.protocol == result_protocol(old(self).setting, old(self).engine),
            (r.probe_status.kind == ProbeStatusKind::Done && r.rtt <= old(self).setting.receive_timeout) || is_timeout_shaped(r),
        ensures
            final(self).wf(),
            final(self).results@ == old(self).results@.push(r),
            !final(self).in_round,
            final(self).round == old(self).round,
            final(self).setting == old(self).setting,
            final(self).engine == old(self).engine,
            final(self).sent_size == old(self).sent_size,
            final(self).dst_reached == (old(self).engine == Engine::Tracer && r.node_type == NodeType::Destination),
    {
        let reached = self.engine == Engine::Tracer && r.node_type == NodeType::Destination;
        self.results.push(r);
        self.in_round = false;
        self.dst_reached = reached;
        proof {
            let n = self.results@.len();
            assert forall|i: int| 0 <= i < n implies #[trigger] self.results@[i].seq == i + 1 by {
                if i < n - 1 {
                    assert(self.results@[i] == old(self).results@[i]);
                }
            }
            assert forall|i: int| 0 <= i < n implies #[trigger] self.results@[i].protocol == result_protocol(self.setting, self.engine) by {
                if i < n - 1 {
                    assert(self.results@[i] == old(self).results@[i]);
                }
            }
            assert forall|i: int| 0 <= i < n implies {
                let x = #[trigger] self.results@[i];
                ||| x.probe_status.kind == ProbeStatusKind::Done && x.rtt <= self.setting.receive_timeout
                ||| is_timeout_shaped(x)
            } by {
                if i < n - 1 {
                    assert(self.results@[i] == old(self).results@[i]);
                }
            }
            if self.engine == Engine::Tracer {
                assert forall|i: int| 0 <= i < n && !(self.dst_reached && i == n - 1)
                    implies #[trigger] self.results@[i].node_type != NodeType::Destination by {
                    if i < n - 1 {
                        assert(self.results@[i] == old(self).results@[i]);
                    }
                }
            }
        }
    }

    /// Feeds a decoded frame received `elapsed` microseconds after the probe
    /// was sent. A frame past the receive timeout ends the round as timed
    /// out; a frame that answers the probe ends it with the reply; any other
    /// frame is ignored. Returns whether the round ended; its result is then
    /// the last of `results`.
    pub fn on_frame(&mut self, frame: &Frame, received_size: usize, elapsed: u64) -> (ended: bool)
        requires
            old(self).wf(),
            old(self).in_round,
        ensures
            final(self).wf(),
            final(self).setting == old(self).setting,
            final(self).engine == old(self).engine,
            final(self).round == old(self).round,
            ended == (elapsed > old(self).setting.receive_timeout || reply_matches(old(self).setting, old(self).engine, *frame)),
            !ended ==> *final(self) == *old(self),
            ended ==> !final(self).in_round && final(self).results@.len() == old(self).results@.len() + 1
                && final(self).results@.drop_last() == old(self).results@,
            elapsed > old(self).setting.receive_timeout ==> is_round_timeout(final(self).results@.last(),
                old(self).setting, old(self).engine, old(self).round, old(self).sent_size),
            elapsed <= old(self).setting.receive_timeout && ended ==> is_round_reply(final(self).results@.last(),
                old(self).setting, old(self).engine, *frame, old(self).round, old(self).sent_size, received_size, elapsed),
    {
        if elapsed > self.setting.receive_timeout {
            let t = self.timeout_result();
            self.end_round(t);
            return true;
        }
        let rc = Reception { seq: self.round, rtt: elapsed, sent_packet_size: self.sent_size, received_packet_size: received_size };
        let reply = match self.engine {
            Engine::Resolver => if self.setting.protocol == Protocol::ARP {
                match_arp_reply(&self.setting, frame, &rc)
            } else {
                match_ndp_advert(&self.setting, frame, &rc)
            },
            Engine::Pinger => if self.setting.protocol == Protocol::ICMP {
                match_echo_reply(&self.setting, frame, &rc)
            } else if self.setting.protocol == Protocol::TCP {
                match_tcp_reply(&self.setting, frame, &rc)
            } else {
                match_port_unreachable(&self.setting, frame, &rc)
            },
            Engine::Tracer => match_trace_reply(&self.setting, frame, &rc),
        };
        match reply {
            Some(p) => {
                self.end_round(p);
                true
            }
            None => false,
        }
    }

    /// Feeds a captured frame received `elapsed` microseconds after the
    /// probe was sent: it is decoded with the session's parse option and
    /// handled as `on_frame` handles the decoded frame.
    pub fn on_packet(&mut self, packet: &[u8], elapsed: u64) -> (ended: bool)
        requires
            old(self).wf(),
            old(self).in_round,
        ensures
            final(self).wf(),
            final(self).setting == old(self).setting,
            final(self).engine == old(self).engine,
            final(self).round == old(self).round,
            exists|f: Frame| {
                &&& #[trigger] frame_agrees(f, packet@, old(self).parse_option)
                &&& ended == (elapsed > old(self).setting.receive_timeout || reply_matches(old(self).setting, old(self).engine, f))
                &&& elapsed <= old(self).setting.receive_timeout && ended ==> is_round_reply(final(self).results@.last(),
                    old(self).setting, old(self).engine, f, old(self).round, old(self).sent_size, packet@.len() as usize, elapsed)
            },
            !ended ==> *final(self) == *old(self),
            ended ==> !final(self).in_round && final(self).results@.len() == old(self).results@.len() + 1
                && final(self).results@.drop_last() == old(self).results@,
            elapsed > old(self).setting.receive_timeout ==> is_round_timeout(final(self).results@.last(),
                old(self).setting, old(self).engine, old(self).round, old(self).sent_size),
    {
        let frame = parse_frame(packet, self.parse_option);
        self.on_frame(&frame, packet.len(), elapsed)
    }

    /// A failed receive ends the round as timed out.
    pub fn on_receive_error(&mut self)
        requires
            old(self).wf(),
            old(self).in_round,
        ensures
            final(self).wf(),
            final(self).setting == old(self).setting,
            final(self).engine == old(self).engine,
            final(self).round == old(self).round,
            !final(self).in_round,
            final(self).results@.len() == old(self).results@.len() + 1,
            final(self).results@.drop_last() == old(self).results@,
            is_round_timeout(final(self).results@.last(), old(self).setting, old(self).engine, old(self).round, old(self).sent_size),
    {
        let t = self.timeout_result();
        self.end_round(t);
    }

    /// Whether to wait `send_rate` before the next round: after every round
    /// but the last of a ping or resolution, and after every traceroute round
    /// that has not reached the destination.
    pub fn pause_after_round(&self) -> (r: bool)
        requires
            self.wf(),
        ensures
            r == if self.engine == Engine::Tracer {
                !self.dst_reached && self.round < self.setting.hop_limit
            } else {
                self.round < self.setting.count
            },
    {
        match self.engine {
            Engine::Tracer => !self.dst_reached && self.round < self.setting.hop_limit,
            _ => self.round < self.setting.count,
        }
    }

    /// The aggregate of a finished ping session.
    pub fn into_ping_result(self, start_time: String, end_time: String, elapsed_time: u64) -> (r: PingResult)
        requires
            self.wf(),
            self.finished(),
            self.engine == Engine::Pinger,
        ensures
            r.stat.responses@ == self.results@,
            r.stat.responses@.len() == self.setting.count,
            r.stat.transmitted_count == self.setting.count,
            forall|i: int| 0 <= i < r.stat.responses@.len() && #[trigger] r.stat.responses@[i].probe_status.kind == ProbeStatusKind::Done
                ==> r.stat.responses@[i].rtt <= self.setting.receive_timeout,
            r.stat.min <= r.stat.avg <= r.stat.max,
            r.stat.received_count == done_count(self.results@),
            r.stat.min == done_rtt_min(self.results@),
            r.stat.avg == done_rtt_avg(self.results@),
            r.stat.max == done_rtt_max(self.results@),
            r.stat.probe_time == elapsed_time,
            r.probe_status.kind == ProbeStatusKind::Done,
            r.start_time@ == start_time@,
            r.end_time@ == end_time@,
            r.elapsed_time == elapsed_time,
            r.protocol == self.setting.protocol,
    {
        proof {
            lemma_min_avg_max(self.results@);
            assert forall|i: int| 0 <= i < self.results@.len() && #[trigger] self.results@[i].probe_status.kind == ProbeStatusKind::Done
                implies self.results@[i].rtt <= self.setting.receive_timeout by {
                let x = self.results@[i];
                assert(x.probe_status.kind == ProbeStatusKind::Done && x.rtt <= self.setting.receive_timeout || is_timeout_shaped(x));
            }
        }
        let protocol = self.setting.protocol;
        let count = self.setting.count as usize;
        PingResult {
            stat: PingStat::from_responses(self.results, elapsed_time, count),
            probe_status: ProbeStatus::new(),
            start_time,
            end_time,
            elapsed_time,
            protocol,
        }
    }

    /// The aggregate of a finished traceroute session.
    pub fn into_trace_result(self, start_time: String, end_time: String, elapsed_time: u64) -> (r: TracerouteResult)
        requires
            self.wf(),
            self.finished(),
            self.engine == Engine::Tracer,
        ensures
            r.nodes@ == self.results@,
            r.probe_status.kind == ProbeStatusKind::Done,
            r.start_time@ == start_time@,
            r.end_time@ == end_time@,
            r.elapsed_time == elapsed_time,
            r.protocol == Protocol::UDP,
    {
        TracerouteResult {
            nodes: self.results,
            probe_status: ProbeStatus::new(),
            start_time,
            end_time,
            elapsed_time,
            protocol: Protocol::UDP,
        }
    }

    /// The aggregate of a finished neighbor resolution session.
    pub fn into_resolve_result(self, start_time: String, end_time: String, elapsed_time: u64) -> (r: DeviceResolveResult)
        requires
            self.wf(),
            self.finished(),
            self.engine == Engine::Resolver,
        ensures
            r.results@ == self.results@,
            r.probe_status.kind == ProbeStatusKind::Done,
            r.start_time@ == start_time@,
            r.end_time@ == end_time@,
            r.elapsed_time == elapsed_time,
            r.protocol == self.setting.protocol,
    {
        let protocol = self.setting.protocol;
        DeviceResolveResult {
            results: self.results,
            probe_status: ProbeStatus::new(),
            start_time,
            end_time,
            elapsed_time,
            protocol,
        }
    }
}

/// Number of results: a finished ping or resolution session holds one
/// result per configured probe; a finished traceroute at most one per TTL
/// below the hop limit.
pub proof fn lemma_result_count(s: Session)
    requires
        s.wf(),
        s.finished(),
    ensures
        s.engine != Engine::Tracer ==> s.results@.len() == s.setting.count,
        s.engine == Engine::Tracer && s.setting.hop_limit >= 1 ==> s.results@.len() <= s.setting.hop_limit - 1,
        s.engine == Engine::Tracer && s.setting.hop_limit == 0 ==> s.results@.len() == 0,
{
}

/// Every timed-out result of a session reports nothing received: round trip
/// time, received size, MAC address, TTL and hop count are all zero.
pub proof fn lemma_timeout_results(s: Session, i: int)
    requires
        s.wf(),
        0 <= i < s.results@.len(),
        s.results@[i].probe_status.kind == ProbeStatusKind::Timeout,
    ensures
        is_timeout_shaped(s.results@[i]),
{
}

/// Every completed result of a session came within the receive timeout.
pub proof fn lemma_done_within_timeout(s: Session, i: int)
    requires
        s.wf(),
        0 <= i < s.results@.len(),
        s.results@[i].probe_status.kind == ProbeStatusKind::Done,
    ensures
        s.results@[i].rtt <= s.setting.receive_timeout,
{
}

/// A traceroute stops at the first reply from the destination: no earlier
/// round names the destination, the last round does, and the session is
/// finished, so no further round is run.
pub proof fn lemma_trace_stops_at_destination(s: Session)
    requires
        s.wf(),
        s.engine == Engine::Tracer,
        s.results@.len() > 0,
        s.results@.last().node_type == NodeType::Destination,
        !s.in_round,
    ensures
        s.finished(),
        forall|i: int| 0 <= i < s.results@.len() - 1 ==> #[trigger] s.results@[i].node_type != NodeType::Destination,
{
}


/// An ICMP ping round takes no frame from a source other than the
/// destination for its reply: such frames leave the round running until a
/// reply from the destination comes or the deadline passes.
pub proof fn lemma_ping_ignores_other_sources(s: ProbeSetting, f: Frame)
    requires
        s.protocol == Protocol::ICMP,
        f.ipv4.is_some() ==> !crate::filter::is_v4_addr(s.dst_ip, f.ipv4.unwrap().source),
        f.ipv6.is_some() ==> !crate::filter::is_v6_addr(s.dst_ip, f.ipv6.unwrap().source),
    ensures
        !reply_matches(s, Engine::Pinger, f),
{
    crate::filter::lemma_echo_filter_rejects_other_sources(s, f);
}

} // verus!
