use vstd::prelude::*;
use crate::filter::{filter_fingerprint, icmp_fingerprint_matches, tcp_fingerprint_matches};
use crate::frame::{Frame, ParseOption, frame_agrees, parse_frame, parse_option_for};
use crate::packet::{
    build_icmp_probe_packet, build_tcp_probe_packet, build_udp_probe_packet, fingerprint_options, icmp_packet_ok,
    icmp_stimulus, tcp_packet_ok, tcp_stimulus_flags, udp_packet_ok, TCP_PROBE_IPV4_TOTAL_LEN,
    TCP_PROBE_IPV6_PAYLOAD_LEN, TCP_PROBE_WINDOW,
};
use vstd::slice::slice_to_vec;
use crate::result::{ProbeStatus, ProbeStatusKind};
use crate::setting::{ProbeSetting, Protocol};

verus! {

/// The stimulus of a fingerprinting probe.
#[derive(Clone, Copy, Debug, PartialEq, Eq, Structural)]
pub enum FingerprintType {
    IcmpEcho,
    IcmpTimestamp,
    IcmpAddressMask,
    IcmpInformation,
    IcmpUnreachable,
    TcpSynAck,
    TcpRstAck,
    TcpEcn,
}

pub open spec fn protocol_of(t: FingerprintType) -> Protocol {
    match t {
        FingerprintType::IcmpUnreachable => Protocol::UDP,
        FingerprintType::TcpSynAck | FingerprintType::TcpRstAck | FingerprintType::TcpEcn => Protocol::TCP,
        _ => Protocol::ICMP,
    }
}

impl FingerprintType {
    /// The protocol the probe is sent with: UDP for the unreachable probe,
    /// TCP for the TCP probes, ICMP for the others.
    pub fn protocol(&self) -> (r: Protocol)
        ensures
            r == protocol_of(*self),
    {
        match self {
            FingerprintType::IcmpEcho => Protocol::ICMP,
            FingerprintType::IcmpTimestamp => Protocol::ICMP,
            FingerprintType::IcmpAddressMask => Protocol::ICMP,
            FingerprintType::IcmpInformation => Protocol::ICMP,
            FingerprintType::IcmpUnreachable => Protocol::UDP,
            FingerprintType::TcpSynAck => Protocol::TCP,
            FingerprintType::TcpRstAck => Protocol::TCP,
            FingerprintType::TcpEcn => Protocol::TCP,
        }
    }
}

/// Result of fingerprinting.
#[derive(Clone, Debug)]
pub struct Fingerprint {
    pub probe_status: ProbeStatus,
    /// Round trip time, in microseconds
    pub rtt: u64,
    /// The reply, decoded
    pub packet_frame: Option<Frame>,
    /// The reply as captured; empty without a reply
    pub packet: Vec<u8>,
}

/// A single fingerprinting probe: its setting, its stimulus and the last
/// fingerprint taken.
#[derive(Clone, Debug)]
pub struct Fingerprinter {
    pub probe_setting: ProbeSetting,
    pub probe_type: FingerprintType,
    pub fingerprint: Fingerprint,
}

/// Whether a frame answers a fingerprinting probe of type `t`.
pub open spec fn fingerprint_matches(s: ProbeSetting, f: Frame, t: FingerprintType) -> bool {
    if protocol_of(t) == Protocol::TCP {
        tcp_fingerprint_matches(s, f, t)
    } else {
        icmp_fingerprint_matches(s, f, t)
    }
}

impl Fingerprinter {
    /// A fingerprinter that has not probed yet.
    pub fn new(setting: ProbeSetting, probe_type: FingerprintType) -> (r: Fingerprinter)
        ensures
            r.probe_setting == setting,
            r.probe_type == probe_type,
            r.fingerprint.probe_status.kind == ProbeStatusKind::Done,
            r.fingerprint.rtt == 0,
            r.fingerprint.packet_frame.is_none(),
            r.fingerprint.packet@.len() == 0,
    {
        Fingerprinter {
            probe_setting: setting,
            probe_type,
            fingerprint: Fingerprint { probe_status: ProbeStatus::new(), rtt: 0, packet_frame: None, packet: Vec::new() },
        }
    }

    /// The decoding option for the replies.
    pub fn parse_option(&self) -> (r: ParseOption)
        ensures
            r == fingerprint_parse_option(self.probe_setting),
    {
        parse_option_for(self.probe_setting.tunnel, self.probe_setting.loopback)
    }

    /// The stimulus to send: an ICMP request, a UDP datagram for the
    /// unreachable probe, or a TCP segment.
    pub fn stimulus(&self) -> (r: Vec<u8>)
        ensures
            protocol_of(self.probe_type) == Protocol::ICMP ==> icmp_packet_ok(r@, self.probe_setting,
                self.probe_setting.hop_limit, icmp_stimulus(self.probe_type)),
            protocol_of(self.probe_type) == Protocol::UDP ==> udp_packet_ok(r@, self.probe_setting, self.probe_setting.hop_limit),
            protocol_of(self.probe_type) == Protocol::TCP ==> tcp_packet_ok(r@, self.probe_setting, self.probe_setting.hop_limit,
                tcp_stimulus_flags(self.probe_type), TCP_PROBE_WINDOW, fingerprint_options(), TCP_PROBE_IPV4_TOTAL_LEN,
                TCP_PROBE_IPV6_PAYLOAD_LEN),
    {
        match self.probe_type {
            FingerprintType::IcmpUnreachable => build_udp_probe_packet(&self.probe_setting),
            FingerprintType::TcpSynAck | FingerprintType::TcpRstAck | FingerprintType::TcpEcn =>
                build_tcp_probe_packet(&self.probe_setting, self.probe_type),
            _ => build_icmp_probe_packet(&self.probe_setting, self.probe_type),
        }
    }

    /// Handles a frame received `elapsed` microseconds after the stimulus:
    /// past the receive timeout the probe has timed out; before it, a
    /// matching reply gives a completed fingerprint with the frame, and any
    /// other frame none yet.
    pub fn on_packet(&self, packet: &[u8], elapsed: u64) -> (r: Option<Fingerprint>)
        ensures
            elapsed > self.probe_setting.receive_timeout ==> wait_outcome(r, self.probe_setting.receive_timeout, elapsed),
            elapsed <= self.probe_setting.receive_timeout ==> exists|f: Frame| {
                &&& #[trigger] frame_agrees(f, packet@, fingerprint_parse_option(self.probe_setting))
                &&& if fingerprint_matches(self.probe_setting, f, self.probe_type) {
                    &&& r.is_some()
                    &&& r.unwrap().probe_status.kind == ProbeStatusKind::Done
                    &&& r.unwrap().rtt == elapsed
                    &&& r.unwrap().packet_frame == Some(f)
                    &&& r.unwrap().packet@ == packet@
                } else {
                    r.is_none()
                }
            },
    {
        if elapsed > self.probe_setting.receive_timeout {
            return self.on_wait(elapsed);
        }
        let frame = parse_frame(packet, self.parse_option());
        if filter_fingerprint(&frame, &self.probe_setting, &self.probe_type) {
            return Some(Fingerprint {
                probe_status: ProbeStatus::new(),
                rtt: elapsed,
                packet_frame: Some(frame),
                packet: slice_to_vec(packet),
            });
        }
        None
    }

    /// Decides after a wait without a matching reply (a foreign frame or a
    /// failed receive), `elapsed` microseconds after the stimulus: past the
    /// receive timeout the probe has timed out.
    pub fn on_wait(&self, elapsed: u64) -> (r: Option<Fingerprint>)
        ensures
            wait_outcome(r, self.probe_setting.receive_timeout, elapsed),
    {
        if elapsed > self.probe_setting.receive_timeout {
            Some(Fingerprint {
                probe_status: ProbeStatus::with_timeout_message("Probe timeout".to_owned()),
                rtt: 0,
                packet_frame: None,
                packet: Vec::new(),
            })
        } else {
            None
        }
    }

    /// The fingerprint of a probe that could not be run.
    pub fn error_fingerprint(message: String) -> (r: Fingerprint)
        ensures
            r.probe_status.kind == ProbeStatusKind::Error,
            r.probe_status.message@ == message@,
            r.rtt == 0,
            r.packet_frame.is_none(),
            r.packet@.len() == 0,
    {
        Fingerprint { probe_status: ProbeStatus::with_error_message(message), rtt: 0, packet_frame: None, packet: Vec::new() }
    }
}

/// The decoding option of a setting.
pub open spec fn fingerprint_parse_option(s: ProbeSetting) -> ParseOption {
    ParseOption { from_ip_packet: s.tunnel, offset: if s.tunnel && s.loopback { 14usize } else { 0usize } }
}

/// What a wait without a matching reply yields: a timed-out fingerprint past
/// the receive timeout, nothing before it.
pub open spec fn wait_outcome(r: Option<Fingerprint>, receive_timeout: u64, elapsed: u64) -> bool {
    &&& elapsed > receive_timeout ==> {
        &&& r.is_some()
        &&& r.unwrap().probe_status.kind == ProbeStatusKind::Timeout
        &&& r.unwrap().probe_status.message@ == "Probe timeout"@
        &&& r.unwrap().rtt == 0
        &&& r.unwrap().packet_frame.is_none()
        &&& r.unwrap().packet@.len() == 0
    }
    &&& elapsed <= receive_timeout ==> r.is_none()
}

} // verus!
