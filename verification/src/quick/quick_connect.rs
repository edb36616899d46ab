use vstd::prelude::*;

use std::collections::VecDeque;
use std::time::Instant;
use str0m::media::Mid;
use vstd::string::*;

use crate::quick::text;
use crate::quick::text::{text_before_colon, trim_leading_matches};
use crate::rtc_core::ramscore;
use crate::rtc_core::rtc as engine;
use crate::rtc_core::rtc::{mid_eq, send_recv, summarize_output, OutputSummary};
use str0m::{Candidate, Output};
use crate::rtc_core::RAMSCore;
use crate::signaling::{SignalingMessage, SignalingRole};

verus! {

/// Events emitted by the quick connection.
#[derive(Debug, Clone)]
pub enum QuickEvent {
    Connecting(String),
    Connected,
    IceState(String),
    MediaData(String, Vec<u8>),
}

impl QuickEvent {
    /// The name of the frontend event that carries this event.
    pub fn channel_name(&self) -> (r: &'static str)
        ensures
            r@ == match self {
                QuickEvent::Connecting(_) => "webrtc-connecting"@,
                QuickEvent::Connected => "webrtc-connected"@,
                QuickEvent::IceState(_) => "webrtc-ice-state"@,
                QuickEvent::MediaData(..) => "webrtc-media-data"@,
            },
    {
        match self {
            QuickEvent::Connecting(_) => "webrtc-connecting",
            QuickEvent::Connected => "webrtc-connected",
            QuickEvent::IceState(_) => "webrtc-ice-state",
            QuickEvent::MediaData(..) => "webrtc-media-data",
        }
    }
}

/// Error type for quick connection failures.
#[derive(Debug)]
pub enum QuickError {
    WebSocket(String),
    Serde(String),
    Protocol(String),
    Io(String),
}

/// Wire message enum to track room joining, and signaling messages over the WebSocket.
#[derive(Debug, Clone)]
pub enum WireMessage {
    Join { room: String },
    Joined { room: String, is_initiator: bool, stun_servers: Vec<String> },
    PeerJoined,
    Offer { sdp: String },
    Answer { sdp: String },
    Candidate { candidate: String },
}

/// The wire form of a signaling payload.
pub open spec fn wire_of(msg: SignalingMessage) -> WireMessage {
    match msg {
        SignalingMessage::Offer { sdp } => WireMessage::Offer { sdp },
        SignalingMessage::Answer { sdp } => WireMessage::Answer { sdp },
        SignalingMessage::Candidate { candidate } => WireMessage::Candidate { candidate },
    }
}

/// The signaling payload that a wire message carries, if it carries one.
pub open spec fn signaling_of(msg: WireMessage) -> Result<SignalingMessage, ()> {
    match msg {
        WireMessage::Offer { sdp } => Ok(SignalingMessage::Offer { sdp }),
        WireMessage::Answer { sdp } => Ok(SignalingMessage::Answer { sdp }),
        WireMessage::Candidate { candidate } => Ok(SignalingMessage::Candidate { candidate }),
        _ => Err(()),
    }
}

impl From<SignalingMessage> for WireMessage {
    fn from(msg: SignalingMessage) -> (r: Self) {
        match msg {
            SignalingMessage::Offer { sdp } => WireMessage::Offer { sdp },
            SignalingMessage::Answer { sdp } => WireMessage::Answer { sdp },
            SignalingMessage::Candidate { candidate } => WireMessage::Candidate { candidate },
        }
    }
}

impl vstd::std_specs::convert::FromSpecImpl<SignalingMessage> for WireMessage {
    open spec fn obeys_from_spec() -> bool {
        true
    }

    open spec fn from_spec(v: SignalingMessage) -> WireMessage {
        wire_of(v)
    }
}

impl TryFrom<WireMessage> for SignalingMessage {
    type Error = ();

    fn try_from(msg: WireMessage) -> (r: Result<Self, Self::Error>) {
        match msg {
            WireMessage::Offer { sdp } => Ok(SignalingMessage::Offer { sdp }),
            WireMessage::Answer { sdp } => Ok(SignalingMessage::Answer { sdp }),
            WireMessage::Candidate { candidate } => Ok(SignalingMessage::Candidate { candidate }),
            _ => Err(()),
        }
    }
}

impl vstd::std_specs::convert::TryFromSpecImpl<WireMessage> for SignalingMessage {
    open spec fn obeys_try_from_spec() -> bool {
        true
    }

    open spec fn try_from_spec(v: WireMessage) -> Result<SignalingMessage, ()> {
        signaling_of(v)
    }
}

/// A signaling payload survives the trip to the wire and back unchanged.
pub proof fn lemma_wire_round_trip(msg: SignalingMessage)
    ensures
        signaling_of(wire_of(msg)) == Ok::<SignalingMessage, ()>(msg),
{
}

/// A wire message that carries a signaling payload is the wire form of that payload.
pub proof fn lemma_signaling_round_trip(msg: WireMessage)
    ensures
        signaling_of(msg) matches Ok(s) ==> wire_of(s) == msg,
{
}

/// A server-reflexive transport address read from a STUN Binding Success
/// Response: an IPv4 address and a port.
#[derive(Debug, Clone, Copy, PartialEq, Eq)]
pub struct StunAddress {
    pub ip: [u8; 4],
    pub port: u16,
}

impl StunAddress {
    pub fn ip(&self) -> (r: [u8; 4])
        ensures
            r == self.ip,
    {
        self.ip
    }

    pub fn port(&self) -> (r: u16)
        ensures
            r == self.port,
    {
        self.port
    }
}

/// The outcome of walking the attributes of a STUN response.
#[derive(Debug, Clone, Copy, PartialEq, Eq)]
pub enum StunScan {
    /// An IPv4 (XOR-)MAPPED-ADDRESS attribute was found.
    Found(StunAddress),
    /// The message is no Binding Success Response, or holds no usable address.
    NotFound,
    /// The walk would read past the end of the buffer.
    OutOfBounds,
}

/// A big-endian 16-bit value read from two bytes.
pub open spec fn be16(hi: u8, lo: u8) -> u16 {
    ((hi as u16) << 8u16) | (lo as u16)
}

/// `n` rounded up to a multiple of four: the padded length of an attribute value.
pub open spec fn padded_len(n: int) -> int {
    ((n + 3) / 4) * 4
}

pub open spec fn scan_measure(pos: int, end: int) -> nat {
    if pos <= end {
        (end - pos) as nat
    } else {
        0
    }
}

/// The address that an attribute value at `v` holds: XOR-MAPPED-ADDRESS
/// (type 0x0020) is masked with the magic cookie 0x2112A442.
pub open spec fn attribute_address(d: Seq<u8>, v: int, xor: bool) -> StunAddress {
    if xor {
        StunAddress {
            ip: [d[v + 4] ^ 0x21u8, d[v + 5] ^ 0x12u8, d[v + 6] ^ 0xA4u8, d[v + 7] ^ 0x42u8],
            port: be16(d[v + 2], d[v + 3]) ^ 0x2112u16,
        }
    } else {
        StunAddress { ip: [d[v + 4], d[v + 5], d[v + 6], d[v + 7]], port: be16(d[v + 2], d[v + 3]) }
    }
}

/// Walks the attributes from offset `pos` up to `end` (20 plus the message
/// length from the header). Each attribute is a 4-byte header (type, length)
/// followed by its value padded to four bytes. The first IPv4 MAPPED-ADDRESS
/// or XOR-MAPPED-ADDRESS with a value of at least 8 bytes gives the result.
pub open spec fn scan_attributes(d: Seq<u8>, pos: int, end: int) -> StunScan
    decreases scan_measure(pos, end),
{
    if pos + 4 > end {
        StunScan::NotFound
    } else if pos + 3 >= d.len() {
        StunScan::OutOfBounds
    } else {
        let attr_type = be16(d[pos], d[pos + 1]);
        let attr_len = be16(d[pos + 2], d[pos + 3]);
        let v = pos + 4;
        if (attr_type == 0x0020u16 || attr_type == 0x0001u16) && attr_len >= 8 {
            if v + 3 >= d.len() {
                StunScan::OutOfBounds
            } else if d[v + 1] == 0x01u8 {
                if v + 7 >= d.len() {
                    StunScan::OutOfBounds
                } else {
                    StunScan::Found(attribute_address(d, v, attr_type == 0x0020u16))
                }
            } else {
                scan_attributes(d, v + padded_len(attr_len as int), end)
            }
        } else {
            scan_attributes(d, v + padded_len(attr_len as int), end)
        }
    }
}

/// The outcome of reading a STUN response: only a Binding Success Response
/// (type 0x0101) of at least the 20-byte header is walked.
pub open spec fn stun_scan(d: Seq<u8>) -> StunScan {
    if d.len() < 20 {
        StunScan::NotFound
    } else if !(d[0] == 0x01u8 && d[1] == 0x01u8) {
        StunScan::NotFound
    } else {
        scan_attributes(d, 20, 20 + be16(d[2], d[3]) as int)
    }
}

/// The address that `parse_stun_srflx` returns for `d`.
pub open spec fn stun_srflx(d: Seq<u8>) -> Option<StunAddress> {
    match stun_scan(d) {
        StunScan::Found(a) => Some(a),
        _ => None,
    }
}

fn read_be16(hi: u8, lo: u8) -> (r: u16)
    ensures
        r == be16(hi, lo),
{
    ((hi as u16) << 8u16) | (lo as u16)
}

fn pad_to_word(n: usize) -> (r: usize)
    requires
        n <= 0xffff,
    ensures
        r == padded_len(n as int),
        n <= r <= n + 3,
{
    let m: usize = n + 3;
    let r = m & !3usize;
    assert(m & !3usize == (m / 4) * 4) by (bit_vector)
        requires
            m <= 0x10002,
    ;
    r
}

/// Walks a STUN response and says whether it holds an address, holds none,
/// or is too short for the lengths that it declares.
pub fn scan_stun_response(data: &[u8]) -> (r: StunScan)
    ensures
        r == stun_scan(data@),
{
    if data.len() < 20 {
        return StunScan::NotFound;
    }
    if !(data[0] == 0x01 && data[1] == 0x01) {
        return StunScan::NotFound;
    }
    let length = read_be16(data[2], data[3]) as usize;
    let end: usize = 20 + length;
    let mut pos: usize = 20;
    while pos + 4 <= end
        invariant
            20 <= pos <= end + 0x10003,
            end == 20 + be16(data@[2], data@[3]) as int,
            data@.len() >= 20,
            data@[0] == 0x01u8 && data@[1] == 0x01u8,
            scan_attributes(data@, pos as int, end as int) == stun_scan(data@),
        decreases scan_measure(pos as int, end as int),
    {
        if pos + 3 >= data.len() {
            return StunScan::OutOfBounds;
        }
        let attr_type = read_be16(data[pos], data[pos + 1]);
        let attr_len = read_be16(data[pos + 2], data[pos + 3]) as usize;
        let v = pos + 4;
        if (attr_type == 0x0020 || attr_type == 0x0001) && attr_len >= 8 {
            if v + 3 >= data.len() {
                return StunScan::OutOfBounds;
            }
            if data[v + 1] == 0x01 {
                if v + 7 >= data.len() {
                    return StunScan::OutOfBounds;
                }
                let port = read_be16(data[v + 2], data[v + 3]);
                if attr_type == 0x0020 {
                    let ip = [data[v + 4] ^ 0x21, data[v + 5] ^ 0x12, data[v + 6] ^ 0xA4, data[v + 7] ^ 0x42];
                    return StunScan::Found(StunAddress { ip, port: port ^ 0x2112 });
                } else {
                    let ip = [data[v + 4], data[v + 5], data[v + 6], data[v + 7]];
                    return StunScan::Found(StunAddress { ip, port });
                }
            }
        }
        pos = v + pad_to_word(attr_len);
    }
    StunScan::NotFound
}

/// Reads the server-reflexive address from a STUN Binding Success Response.
/// Returns `None` for any other message, or one without an IPv4 (XOR-)MAPPED-ADDRESS.
pub fn parse_stun_srflx(data: &[u8]) -> (r: Option<StunAddress>)
    requires
        !(stun_scan(data@) is OutOfBounds),
    ensures
        r == stun_srflx(data@),
{
    match scan_stun_response(data) {
        StunScan::Found(a) => Some(a),
        _ => None,
    }
}

/// What the connection orchestrator does with a message from the signaling
/// server (`err` is the error text, `None` on success): when the peer joins,
/// the Initiator offers; offers, answers and candidates go to the core; room
/// notices change nothing.
pub open spec fn dispatches(old: ramscore::CoreState, new: ramscore::CoreState, msg: WireMessage, err: Option<Seq<char>>) -> bool {
    match msg {
        WireMessage::PeerJoined => if old.role == SignalingRole::Initiator {
            ramscore::creates_offer(old, new, err)
        } else {
            &&& err is None
            &&& new == old
        },
        WireMessage::Join { .. } | WireMessage::Joined { .. } => {
            &&& err is None
            &&& new == old
        },
        _ => ramscore::handles_signaling(old, new, signaling_of(msg)->Ok_0, err),
    }
}

/// Turns a message from the signaling server into actions on the core,
/// and returns the reply to send back to the server, if there is one.
pub fn dispatch_wire_message(core: &mut RAMSCore, msg: WireMessage) -> (r: Result<Option<WireMessage>, String>)
    ensures
        dispatches(old(core)@, final(core)@, msg, ramscore::error_text(r)),
        r matches Ok(Some(reply)) ==> (msg is PeerJoined && reply is Offer) || (msg is Offer && reply is Answer),
        r matches Ok(None) ==> !(msg is Offer) && !(msg is PeerJoined && old(core)@.role == SignalingRole::Initiator),
        (msg is PeerJoined && old(core)@.role != SignalingRole::Initiator) || msg is Join || msg is Joined
            ==> r matches Ok(None),
        r matches Ok(Some(WireMessage::Offer { sdp })) ==> engine::is_sdp_text(sdp@) && final(core)@.local_sdp
            == Some(sdp@),
        r matches Ok(Some(WireMessage::Answer { sdp })) ==> engine::is_sdp_text(sdp@) && final(core)@.local_sdp
            == Some(sdp@),
{
    match msg {
        WireMessage::PeerJoined => {
            // When a peer joins, the Initiator kicks off the negotiation by creating an offer.
            if matches!(core.signaling_handler.role, SignalingRole::Initiator) {
                match core.create_offer() {
                    Ok(offer) => Ok(Some(WireMessage::from(offer))),
                    Err(e) => Err(e),
                }
            } else {
                Ok(None)
            }
        },
        WireMessage::Join { .. } | WireMessage::Joined { .. } => Ok(None),
        _ => {
            // Pass signaling payloads directly to the core state machine.
            match SignalingMessage::try_from(msg) {
                Ok(signaling) => match core.handle_signaling(signaling) {
                    Ok(Some(response)) => Ok(Some(WireMessage::from(response))),
                    Ok(None) => Ok(None),
                    Err(e) => Err(e),
                },
                Err(()) => Ok(None),
            }
        },
    }
}

/// The role and STUN servers that a `Joined` reply assigns; `None` for any other message.
pub fn role_from_joined(msg: WireMessage) -> (r: Option<(SignalingRole, Vec<String>)>)
    ensures
        match msg {
            WireMessage::Joined { is_initiator, stun_servers, .. } => r matches Some((role, servers))
                && role == (if is_initiator { SignalingRole::Initiator } else { SignalingRole::Responder })
                && servers@ == stun_servers@,
            _ => r is None,
        },
{
    match msg {
        WireMessage::Joined { is_initiator, stun_servers, .. } => {
            let role = if is_initiator {
                SignalingRole::Initiator
            } else {
                SignalingRole::Responder
            };
            Some((role, stun_servers))
        },
        _ => None,
    }
}

/// Stages the local audio and video tracks, both send-and-receive, for the next offer.
pub fn initialize_local_media(core: &mut RAMSCore)
    ensures
        final(core)@.pending_audio_direction matches Some(d) && engine::direction_kind(d) == engine::DirectionKind::SendRecv,
        final(core)@.pending_video_direction matches Some(d) && engine::direction_kind(d) == engine::DirectionKind::SendRecv,
        final(core)@ == (ramscore::CoreState {
            pending_audio_direction: final(core)@.pending_audio_direction,
            pending_video_direction: final(core)@.pending_video_direction,
            ..old(core)@
        }),
{
    core.add_audio(send_recv());
    core.add_video(send_recv());
}

/// The host of the signaling server URL: the URL without its leading
/// `ws://` and `wss://`, up to the first `':'`.
pub open spec fn host_hint(url: Seq<char>) -> Seq<char> {
    text::before_colon(text::trim_leading(text::trim_leading(url, "ws://"@), "wss://"@))
}

/// The host to aim a probe socket at, to learn which local interface
/// reaches the signaling server.
pub fn signaling_host_hint(ws_url: &str) -> (r: &str)
    ensures
        r@ == host_hint(ws_url@),
{
    let no_ws = trim_leading_matches(ws_url, "ws://");
    let no_wss = trim_leading_matches(no_ws, "wss://");
    text_before_colon(no_wss)
}

/// The `host:port` of a STUN server given as a URI: without its leading `stun:`.
pub fn stun_server_address(stun_server: &str) -> (r: &str)
    ensures
        r@ == text::trim_leading(stun_server@, "stun:"@),
{
    trim_leading_matches(stun_server, "stun:")
}

/// The STUN Binding Request that server-reflexive discovery sends
/// (RFC 5389): type 0x0001, length 0, the magic cookie 0x2112A442, and a
/// fixed transaction id whose byte at offset `i` is `7 * i`.
pub open spec fn binding_request_bytes() -> Seq<u8> {
    Seq::new(
        20,
        |i: int|
            if i == 1 {
                0x01u8
            } else if i == 4 {
                0x21u8
            } else if i == 5 {
                0x12u8
            } else if i == 6 {
                0xA4u8
            } else if i == 7 {
                0x42u8
            } else if i >= 8 {
                (i * 7) as u8
            } else {
                0u8
            },
    )
}

/// Builds the STUN Binding Request that server-reflexive discovery sends.
pub fn stun_binding_request() -> (r: [u8; 20])
    ensures
        r@ == binding_request_bytes(),
{
    let mut request = [0u8; 20];
    request[1] = 0x01;
    request[4] = 0x21;
    request[5] = 0x12;
    request[6] = 0xA4;
    request[7] = 0x42;
    let mut i: usize = 8;
    while i < 20
        invariant
            8 <= i <= 20,
            forall|j: int| 0 <= j < i ==> request@[j] == binding_request_bytes()[j],
        decreases 20 - i,
    {
        request[i] = (i * 7) as u8;
        i = i + 1;
    }
    assert(request@ =~= binding_request_bytes());
    request
}

/// The most engine outputs that one drain of the core handles before
/// giving the other tasks a turn.
pub const MAX_EVENTS_PER_DRAIN: usize = 32;

/// The kind label of a media id: the core's video or audio track.
pub open spec fn media_label_of(s: ramscore::CoreState, mid: Mid) -> Option<Seq<char>> {
    if s.video_mid == Some(mid) {
        Some("video"@)
    } else if s.audio_mid == Some(mid) {
        Some("audio"@)
    } else {
        None
    }
}

/// Names the track that a media id belongs to: "video" or "audio", or
/// `None` when the core knows no such track.
pub fn media_label(core: &RAMSCore, mid: Mid) -> (r: Option<String>)
    ensures
        match media_label_of(core@, mid) {
            Some(l) => r matches Some(s) && s@ == l,
            None => r is None,
        },
{
    let is_video = match core.video_mid {
        Some(v) => mid_eq(v, mid),
        None => false,
    };
    if is_video {
        return Some(String::from_str("video"));
    }
    let is_audio = match core.audio_mid {
        Some(a) => mid_eq(a, mid),
        None => false,
    };
    if is_audio {
        Some(String::from_str("audio"))
    } else {
        None
    }
}

/// What the network side does with one engine output.
pub enum OutputRoute {
    /// Stop draining; wake the engine at this instant.
    Wake(Instant),
    /// Send the output's datagram.
    Send,
    /// Tell the application.
    Emit(QuickEvent),
    /// Tell the application that media arrived for the track with this label.
    EmitMedia(String),
    /// Nothing to do.
    Skip,
}

/// What the network side does with an engine output of this summary: wake
/// at a timeout, send a datagram, tell the application of a connection, an
/// ICE state or media on a known track, and skip anything else.
pub open spec fn routes(core: ramscore::CoreState, summary: OutputSummary, r: OutputRoute) -> bool {
    match summary {
        OutputSummary::Timeout(t) => r == OutputRoute::Wake(t),
        OutputSummary::Transmit => r is Send,
        OutputSummary::Connected => r matches OutputRoute::Emit(QuickEvent::Connected),
        OutputSummary::IceStateChange(s) => r matches OutputRoute::Emit(QuickEvent::IceState(t)) && t@ == s@,
        OutputSummary::MediaData(mid) => match media_label_of(core, mid) {
            Some(l) => r matches OutputRoute::EmitMedia(s) && s@ == l,
            None => r is Skip,
        },
        _ => r is Skip,
    }
}

/// Decides what the network side does with one engine output.
pub fn route_output(core: &RAMSCore, summary: OutputSummary) -> (r: OutputRoute)
    ensures
        routes(core@, summary, r),
{
    match summary {
        OutputSummary::Timeout(t) => OutputRoute::Wake(t),
        OutputSummary::Transmit => OutputRoute::Send,
        OutputSummary::Connected => OutputRoute::Emit(QuickEvent::Connected),
        OutputSummary::IceStateChange(s) => OutputRoute::Emit(QuickEvent::IceState(s)),
        OutputSummary::MediaData(mid) => match media_label(core, mid) {
            Some(label) => OutputRoute::EmitMedia(label),
            None => OutputRoute::Skip,
        },
        _ => OutputRoute::Skip,
    }
}

/// Decides what the network side does with an output that the engine handed
/// out: the output is read for what the core routes on, then routed.
pub fn route_engine_output(core: &RAMSCore, output: &Output) -> (r: OutputRoute)
    ensures
        routes(core@, crate::rtc_core::rtc::output_summary(*output), r),
{
    let summary = summarize_output(output);
    route_output(core, summary)
}

/// The address the host candidate gets: the socket's own address unless
/// that is `0.0.0.0`, then the detected one, then the loopback address.
pub open spec fn chosen_ip(bound: [u8; 4], detected: Option<[u8; 4]>) -> [u8; 4] {
    if bound@ != seq![0u8, 0u8, 0u8, 0u8] {
        bound
    } else {
        match detected {
            Some(ip) => ip,
            None => [127u8, 0u8, 0u8, 1u8],
        }
    }
}

/// The host candidate of the local UDP socket bound to `bound:port`, at the
/// address `chosen_ip` picks, with its SDP text; `None` when that address may
/// not stand in a candidate.
pub fn local_host_candidate(bound: [u8; 4], port: u16, detected: Option<[u8; 4]>) -> (r: Option<(Candidate, String)>)
    ensures
        r is Some <==> engine::usable_candidate_ip(chosen_ip(bound, detected)@),
        r matches Some((c, t)) ==> c == engine::host_candidate_of(chosen_ip(bound, detected)@, port)
            && t@ == engine::candidate_sdp(c),
{
    let ip = candidate_ip(bound, detected);
    match engine::host_candidate(ip, port) {
        Some(c) => {
            let text = engine::candidate_text(&c);
            Some((c, text))
        },
        None => None,
    }
}

/// The server-reflexive candidate that a STUN Binding response reveals for
/// the local socket `base_ip:base_port`, with its SDP text: `None` when the
/// response carries no mapped address, or one that may not stand in a candidate.
pub fn reflexive_candidate(reply: &[u8], base_ip: [u8; 4], base_port: u16) -> (r: Option<(Candidate, String)>)
    requires
        !(stun_scan(reply@) is OutOfBounds),
    ensures
        match stun_srflx(reply@) {
            Some(a) => {
                &&& (r is Some <==> engine::usable_candidate_ip(a.ip@))
                &&& (r matches Some((c, t)) ==> c == engine::reflexive_candidate_of(a.ip@, a.port, base_ip@, base_port)
                    && t@ == engine::candidate_sdp(c))
            },
            None => r is None,
        },
{
    match parse_stun_srflx(reply) {
        Some(a) => match engine::reflexive_candidate_from(a.ip, a.port, base_ip, base_port) {
            Some(c) => {
                let text = engine::candidate_text(&c);
                Some((c, text))
            },
            None => None,
        },
        None => None,
    }
}

/// The address of the host candidate: the socket's own address when it is
/// bound to a specific one; for the unspecified address `0.0.0.0`, the
/// detected local address, or the loopback address when none was detected.
pub fn candidate_ip(bound: [u8; 4], detected: Option<[u8; 4]>) -> (r: [u8; 4])
    ensures
        r == chosen_ip(bound, detected),
{
    let unspecified = bound[0] == 0 && bound[1] == 0 && bound[2] == 0 && bound[3] == 0;
    if !unspecified {
        proof {
            assert(bound@ != seq![0u8, 0u8, 0u8, 0u8]) by {
                if bound@ == seq![0u8, 0u8, 0u8, 0u8] {
                    assert(bound@[0] == 0u8 && bound@[1] == 0u8 && bound@[2] == 0u8 && bound@[3] == 0u8);
                }
            }
        }
        return bound;
    }
    assert(bound@ =~= seq![0u8, 0u8, 0u8, 0u8]);
    match detected {
        Some(ip) => ip,
        None => [127u8, 0u8, 0u8, 1u8],
    }
}

/// What draining the engine's outputs does after routing one: a wake-up
/// ends the drain; any other output counts, and the drain goes on, with the
/// new count, while fewer than `MAX_EVENTS_PER_DRAIN` outputs were handled.
pub fn drain_continues(handled: usize, route: &OutputRoute) -> (r: Option<usize>)
    requires
        handled < MAX_EVENTS_PER_DRAIN,
    ensures
        route is Wake ==> r is None,
        !(route is Wake) ==> r == (if handled + 1 < MAX_EVENTS_PER_DRAIN { Some((handled + 1) as usize) } else { None::<usize> }),
{
    match route {
        OutputRoute::Wake(_) => None,
        _ => {
            if handled + 1 < MAX_EVENTS_PER_DRAIN {
                Some(handled + 1)
            } else {
                None
            }
        },
    }
}

/// The first delay between WebSocket reconnection attempts, in milliseconds.
pub const RECONNECT_BACKOFF_START_MS: u64 = 250;

/// The longest delay between WebSocket reconnection attempts, in milliseconds.
pub const RECONNECT_BACKOFF_MAX_MS: u64 = 5000;

/// The delay that follows a failed attempt after waiting `d`: twice as
/// long, up to the ceiling.
pub open spec fn next_backoff(d: nat) -> nat {
    if 2 * d <= RECONNECT_BACKOFF_MAX_MS {
        2 * d
    } else {
        RECONNECT_BACKOFF_MAX_MS as nat
    }
}

/// The delay before the next reconnection attempt: it doubles after each
/// failed attempt, up to a ceiling, and starts over after a success.
pub struct ReconnectBackoff {
    delay_ms: u64,
}

impl View for ReconnectBackoff {
    type V = nat;

    closed spec fn view(&self) -> nat {
        self.delay_ms as nat
    }
}

impl ReconnectBackoff {
    #[verifier::type_invariant]
    spec fn within_bounds(self) -> bool {
        RECONNECT_BACKOFF_START_MS <= self.delay_ms <= RECONNECT_BACKOFF_MAX_MS
    }

    /// A schedule that waits the shortest delay first.
    pub fn new() -> (b: Self)
        ensures
            b@ == RECONNECT_BACKOFF_START_MS,
    {
        ReconnectBackoff { delay_ms: RECONNECT_BACKOFF_START_MS }
    }

    /// The delay to wait before the next attempt.
    pub fn delay_ms(&self) -> (d: u64)
        ensures
            d == self@,
            RECONNECT_BACKOFF_START_MS <= d <= RECONNECT_BACKOFF_MAX_MS,
    {
        proof {
            use_type_invariant(self);
        }
        self.delay_ms
    }

    /// Records a failed attempt: returns the delay before the next attempt,
    /// and doubles the delay after it, up to the ceiling.
    pub fn failed(&mut self) -> (d: u64)
        ensures
            d == old(self)@,
            final(self)@ == next_backoff(old(self)@),
    {
        proof {
            use_type_invariant(&*self);
        }
        let d = self.delay_ms;
        let doubled = d * 2;
        self.delay_ms = if doubled <= RECONNECT_BACKOFF_MAX_MS {
            doubled
        } else {
            RECONNECT_BACKOFF_MAX_MS
        };
        d
    }

    /// Records a successful reconnection: the next delay is the shortest again.
    pub fn succeeded(&mut self)
        ensures
            final(self)@ == RECONNECT_BACKOFF_START_MS,
    {
        self.delay_ms = RECONNECT_BACKOFF_START_MS;
    }
}

/// Signaling messages waiting for the WebSocket to come back, oldest first.
pub struct Outbox {
    queue: VecDeque<WireMessage>,
}

impl View for Outbox {
    type V = Seq<WireMessage>;

    closed spec fn view(&self) -> Seq<WireMessage> {
        self.queue@
    }
}

impl Outbox {
    /// An empty outbox.
    pub fn new() -> (o: Self)
        ensures
            o@ == Seq::<WireMessage>::empty(),
    {
        Outbox { queue: VecDeque::new() }
    }

    /// How many messages wait.
    pub fn len(&self) -> (n: usize)
        ensures
            n == self@.len(),
    {
        self.queue.len()
    }

    /// Keeps a message that could not be sent, behind those already waiting.
    pub fn push(&mut self, msg: WireMessage)
        ensures
            final(self)@ == old(self)@.push(msg),
    {
        self.queue.push_back(msg);
    }

    /// Takes the oldest waiting message, to send it.
    pub fn pop(&mut self) -> (r: Option<WireMessage>)
        ensures
            old(self)@.len() == 0 ==> r is None && final(self)@ == old(self)@,
            old(self)@.len() > 0 ==> r == Some(old(self)@[0]) && final(self)@ == old(self)@.drop_first(),
    {
        self.queue.pop_front()
    }

    /// Puts back a message whose sending failed, ahead of all others.
    pub fn put_back(&mut self, msg: WireMessage)
        ensures
            final(self)@ == seq![msg] + old(self)@,
    {
        self.queue.push_front(msg);
    }
}

/// A message that is taken out to be sent and put back after a failed send
/// leaves the outbox as it was: no message is lost and the order stands.
pub proof fn lemma_outbox_put_back_restores(waiting: Seq<WireMessage>)
    requires
        waiting.len() > 0,
    ensures
        seq![waiting[0]] + waiting.drop_first() == waiting,
{
    assert(seq![waiting[0]] + waiting.drop_first() =~= waiting);
}

/// Messages leave the outbox in the order they entered it.
pub proof fn lemma_outbox_is_first_in_first_out(waiting: Seq<WireMessage>, msg: WireMessage)
    requires
        waiting.len() > 0,
    ensures
        waiting.push(msg)[0] == waiting[0],
        waiting.push(msg).drop_first() == waiting.drop_first().push(msg),
{
    assert(waiting.push(msg).drop_first() =~= waiting.drop_first().push(msg));
}

/// After `n` failed attempts in a row from the first delay, the delay is
/// 250 * 2^n milliseconds, capped at 5000: it reaches the cap after five.
pub open spec fn backoff_after_failures(n: nat) -> nat
    decreases n,
{
    if n == 0 {
        RECONNECT_BACKOFF_START_MS as nat
    } else {
        next_backoff(backoff_after_failures((n - 1) as nat))
    }
}

/// The reconnection delay never passes the ceiling and reaches it after
/// five failed attempts, where it stays.
pub proof fn lemma_backoff_reaches_ceiling(n: nat)
    ensures
        RECONNECT_BACKOFF_START_MS <= backoff_after_failures(n) <= RECONNECT_BACKOFF_MAX_MS,
        n >= 5 ==> backoff_after_failures(n) == RECONNECT_BACKOFF_MAX_MS,
    decreases n,
{
    if n > 0 {
        lemma_backoff_reaches_ceiling((n - 1) as nat);
    }
    if n == 5 {
        reveal_with_fuel(backoff_after_failures, 6);
    }
}

/// Two to the power `n`.
pub open spec fn two_to(n: nat) -> nat
    decreases n,
{
    if n == 0 {
        1
    } else {
        2 * two_to((n - 1) as nat)
    }
}

/// The delay after `n` failed attempts in closed form: the starting delay
/// doubled `n` times, capped at the ceiling; so the `i`-th failed attempt in a
/// row waits `min(250 * 2^(i-1), 5000)` ms before the next one.
pub proof fn lemma_backoff_closed_form(n: nat)
    ensures
        backoff_after_failures(n) == if 250 * two_to(n) <= 5000 {
            250 * two_to(n)
        } else {
            RECONNECT_BACKOFF_MAX_MS as nat
        },
    decreases n,
{
    if n > 0 {
        let m = (n - 1) as nat;
        lemma_backoff_closed_form(m);
        let x = two_to(m);
        assert(two_to(n) == 2 * x);
        assert(250 * (2 * x) == 2 * (250 * x)) by (nonlinear_arith);
    }
}

/// A Binding Success Response (type 0x0101, the magic cookie, a zero
/// transaction id) whose one attribute carries `a`: as XOR-MAPPED-ADDRESS
/// (type 0x0020) when `xor`, as MAPPED-ADDRESS (type 0x0001) otherwise.
pub open spec fn binding_response(a: StunAddress, xor: bool) -> Seq<u8> {
    let port = if xor { a.port ^ 0x2112u16 } else { a.port };
    let ip = if xor {
        seq![a.ip[0] ^ 0x21u8, a.ip[1] ^ 0x12u8, a.ip[2] ^ 0xA4u8, a.ip[3] ^ 0x42u8]
    } else {
        seq![a.ip[0], a.ip[1], a.ip[2], a.ip[3]]
    };
    seq![0x01u8, 0x01u8, 0x00u8, 0x0cu8, 0x21u8, 0x12u8, 0xA4u8, 0x42u8]
        + Seq::new(12, |i: int| 0u8)
        + seq![0x00u8, if xor { 0x20u8 } else { 0x01u8 }, 0x00u8, 0x08u8, 0x00u8, 0x01u8]
        + seq![(port / 256) as u8, (port % 256) as u8]
        + ip
}

proof fn lemma_be16_split(x: u16)
    ensures
        be16((x / 256) as u8, (x % 256) as u8) == x,
{
    assert((((((x / 256) as u8) as u16) << 8u16) | (((x % 256) as u8) as u16)) == x) by (bit_vector);
}

proof fn lemma_be16_small(lo: u8)
    ensures
        be16(0u8, lo) == lo as u16,
{
    assert((((0u8 as u16) << 8u16) | (lo as u16)) == lo as u16) by (bit_vector);
}

proof fn lemma_xor_twice_u8(x: u8, k: u8)
    ensures
        (x ^ k) ^ k == x,
{
    assert((x ^ k) ^ k == x) by (bit_vector);
}

proof fn lemma_xor_twice_u16(x: u16, k: u16)
    ensures
        (x ^ k) ^ k == x,
{
    assert((x ^ k) ^ k == x) by (bit_vector);
}

/// Reading gives back what was written: the parser finds the address that a
/// Binding Success Response carries, in either attribute form.
pub proof fn lemma_parse_reads_back_address(a: StunAddress, xor: bool)
    ensures
        stun_scan(binding_response(a, xor)) == StunScan::Found(a),
        stun_srflx(binding_response(a, xor)) == Some(a),
{
    let d = binding_response(a, xor);
    let port = if xor { a.port ^ 0x2112u16 } else { a.port };
    assert(d.len() == 32);
    lemma_be16_small(0x0cu8);
    lemma_be16_small(0x08u8);
    lemma_be16_small(0x20u8);
    lemma_be16_small(0x01u8);
    lemma_be16_split(port);
    lemma_xor_twice_u16(a.port, 0x2112u16);
    lemma_xor_twice_u8(a.ip[0], 0x21u8);
    lemma_xor_twice_u8(a.ip[1], 0x12u8);
    lemma_xor_twice_u8(a.ip[2], 0xA4u8);
    lemma_xor_twice_u8(a.ip[3], 0x42u8);
    assert(d[2] == 0u8 && d[3] == 0x0cu8);
    assert(d[20] == 0u8 && d[22] == 0u8 && d[23] == 0x08u8 && d[25] == 0x01u8);
    assert(d[26] == (port / 256) as u8 && d[27] == (port % 256) as u8);
    let found = attribute_address(d, 24, xor);
    assert(found.ip =~= a.ip);
    reveal_with_fuel(scan_attributes, 2);
}

/// The state of the signaling WebSocket as the connection loop sees it:
/// whether it is up, the messages waiting for it, and the reconnection delay.
pub struct SignalingLink {
    alive: bool,
    outbox: Outbox,
    backoff: ReconnectBackoff,
}

/// What a `SignalingLink` holds: whether the socket is up, the waiting
/// messages oldest first, and the delay before the next reconnection attempt.
pub struct LinkState {
    pub alive: bool,
    pub waiting: Seq<WireMessage>,
    pub delay_ms: nat,
}

impl View for SignalingLink {
    type V = LinkState;

    closed spec fn view(&self) -> LinkState {
        LinkState { alive: self.alive, waiting: self.outbox@, delay_ms: self.backoff@ }
    }
}

impl SignalingLink {
    /// A link that is up, with nothing waiting and the shortest delay.
    pub fn new() -> (l: Self)
        ensures
            l@.alive,
            l@.waiting == Seq::<WireMessage>::empty(),
            l@.delay_ms == RECONNECT_BACKOFF_START_MS,
    {
        SignalingLink { alive: true, outbox: Outbox::new(), backoff: ReconnectBackoff::new() }
    }

    /// Whether the socket is up.
    pub fn is_alive(&self) -> (b: bool)
        ensures
            b == self@.alive,
    {
        self.alive
    }

    /// A message to send: handed back to be sent while the socket is up,
    /// kept behind the waiting ones while it is down.
    pub fn outgoing(&mut self, msg: WireMessage) -> (r: Option<WireMessage>)
        ensures
            old(self)@.alive ==> r == Some(msg) && final(self)@ == old(self)@,
            !old(self)@.alive ==> r is None && final(self)@ == (LinkState {
                waiting: old(self)@.waiting.push(msg),
                ..old(self)@
            }),
    {
        if self.alive {
            Some(msg)
        } else {
            self.outbox.push(msg);
            None
        }
    }

    /// Sending `msg` failed: the socket is down and the message waits.
    pub fn send_failed(&mut self, msg: WireMessage)
        ensures
            final(self)@ == (LinkState { alive: false, waiting: old(self)@.waiting.push(msg), ..old(self)@ }),
    {
        self.alive = false;
        self.outbox.push(msg);
    }

    /// Reading failed: the socket is down.
    pub fn read_failed(&mut self)
        ensures
            final(self)@ == (LinkState { alive: false, ..old(self)@ }),
    {
        self.alive = false;
    }

    /// A reconnection attempt failed: returns how long to wait before the
    /// next one, and doubles the delay after it.
    pub fn reconnect_failed(&mut self) -> (wait_ms: u64)
        ensures
            wait_ms == old(self)@.delay_ms,
            final(self)@ == (LinkState {
                alive: false,
                delay_ms: next_backoff(old(self)@.delay_ms),
                ..old(self)@
            }),
    {
        self.alive = false;
        self.backoff.failed()
    }

    /// The socket is back up.
    pub fn reconnected(&mut self)
        ensures
            final(self)@ == (LinkState { alive: true, ..old(self)@ }),
    {
        self.alive = true;
    }

    /// The oldest waiting message, taken out to be sent.
    pub fn next_waiting(&mut self) -> (r: Option<WireMessage>)
        ensures
            old(self)@.waiting.len() == 0 ==> r is None && final(self)@ == old(self)@,
            old(self)@.waiting.len() > 0 ==> r == Some(old(self)@.waiting[0]) && final(self)@ == (LinkState {
                waiting: old(self)@.waiting.drop_first(),
                ..old(self)@
            }),
    {
        self.outbox.pop()
    }

    /// Resending `msg` failed: it waits again ahead of all others, the socket
    /// is down, and the attempt counts as a failed reconnection; returns how
    /// long to wait before the next one.
    pub fn resend_failed(&mut self, msg: WireMessage) -> (wait_ms: u64)
        ensures
            wait_ms == old(self)@.delay_ms,
            final(self)@ == (LinkState {
                alive: false,
                waiting: seq![msg] + old(self)@.waiting,
                delay_ms: next_backoff(old(self)@.delay_ms),
            }),
    {
        self.outbox.put_back(msg);
        self.alive = false;
        self.backoff.failed()
    }

    /// Every waiting message went out: the next reconnection, if one is
    /// needed, waits the shortest delay again.
    pub fn drained(&mut self)
        ensures
            final(self)@ == (LinkState { delay_ms: RECONNECT_BACKOFF_START_MS as nat, ..old(self)@ }),
    {
        self.backoff.succeeded();
    }
}

/// One thing that happens to the signaling link in the connection loop.
pub enum LinkEvent {
    /// A message to send came in; when the socket is up it is written, and
    /// the flag says whether the write succeeded.
    Queued(WireMessage, bool),
    /// Reading from the socket failed.
    ReadFailed,
    /// A reconnection attempt failed: connecting, or sending the join frame.
    ReconnectFailed,
    /// The socket reconnected and the join frame went out; then this many
    /// waiting messages were written before the first write that failed, if
    /// one did.
    Reconnected(nat),
}

/// What one event does to the link, with the messages written to the
/// socket, as the link's methods (`outgoing`, `send_failed`, `read_failed`,
/// `reconnect_failed`, `reconnected`, `next_waiting`, `resend_failed`,
/// `drained`) state it for the way the connection loop calls them.
pub open spec fn link_step(s: LinkState, e: LinkEvent) -> (LinkState, Seq<WireMessage>) {
    match e {
        LinkEvent::Queued(m, written) => if s.alive {
            if written {
                (s, seq![m])
            } else {
                (LinkState { alive: false, waiting: s.waiting.push(m), ..s }, Seq::empty())
            }
        } else {
            (LinkState { waiting: s.waiting.push(m), ..s }, Seq::empty())
        },
        LinkEvent::ReadFailed => (LinkState { alive: false, ..s }, Seq::empty()),
        LinkEvent::ReconnectFailed => (
            LinkState { alive: false, delay_ms: next_backoff(s.delay_ms), ..s },
            Seq::empty(),
        ),
        LinkEvent::Reconnected(n) => if n >= s.waiting.len() {
            (
                LinkState { alive: true, waiting: Seq::empty(), delay_ms: RECONNECT_BACKOFF_START_MS as nat },
                s.waiting,
            )
        } else {
            (
                LinkState { alive: false, waiting: s.waiting.skip(n as int), delay_ms: next_backoff(s.delay_ms) },
                s.waiting.take(n as int),
            )
        },
    }
}

/// The link after a run of events, with every message written, in order.
pub open spec fn link_run(s: LinkState, events: Seq<LinkEvent>) -> (LinkState, Seq<WireMessage>)
    decreases events.len(),
{
    if events.len() == 0 {
        (s, Seq::empty())
    } else {
        let before = link_run(s, events.drop_last());
        let after = link_step(before.0, events.last());
        (after.0, before.1 + after.1)
    }
}

/// The messages that came in to be sent over a run of events, in order.
pub open spec fn queued_messages(events: Seq<LinkEvent>) -> Seq<WireMessage>
    decreases events.len(),
{
    if events.len() == 0 {
        Seq::empty()
    } else {
        let earlier = queued_messages(events.drop_last());
        match events.last() {
            LinkEvent::Queued(m, _) => earlier.push(m),
            _ => earlier,
        }
    }
}

/// Across any run of sends, failures and reconnections, the messages
/// written to the socket are the messages that came in, in the order they
/// came in, none lost ahead of a later one and none twice: what was written,
/// followed by what still waits, is what was waiting at the start followed
/// by what came in. While the socket is up nothing waits.
pub proof fn lemma_link_keeps_message_order(s: LinkState, events: Seq<LinkEvent>)
    requires
        s.alive ==> s.waiting.len() == 0,
    ensures
        link_run(s, events).1 + link_run(s, events).0.waiting == s.waiting + queued_messages(events),
        link_run(s, events).0.alive ==> link_run(s, events).0.waiting.len() == 0,
    decreases events.len(),
{
    if events.len() > 0 {
        let init = events.drop_last();
        lemma_link_keeps_message_order(s, init);
        let before = link_run(s, init);
        let t = before.0;
        let e = events.last();
        let after = link_step(t, e);
        match e {
            LinkEvent::Queued(m, written) => {
                if t.alive && written {
                    assert(before.1 + seq![m] + t.waiting =~= (before.1 + t.waiting).push(m));
                } else {
                    assert(before.1 + t.waiting.push(m) =~= (before.1 + t.waiting).push(m));
                }
                assert(s.waiting + queued_messages(init).push(m) =~= (s.waiting + queued_messages(init)).push(m));
            },
            LinkEvent::Reconnected(n) => {
                if n >= t.waiting.len() {
                    assert(before.1 + t.waiting + Seq::<WireMessage>::empty() =~= before.1 + t.waiting);
                } else {
                    assert(before.1 + t.waiting.take(n as int) + t.waiting.skip(n as int) =~= before.1 + t.waiting);
                }
            },
            _ => {
                assert(before.1 + Seq::<WireMessage>::empty() =~= before.1);
            },
        }
    }
}

/// A wire message that carries a signaling payload is handled by the core
/// as that payload: dispatching an offer, answer or candidate changes the
/// core, and fails, exactly as the core's own handling of it does.
pub proof fn lemma_dispatch_hands_payload_to_core(
    old: ramscore::CoreState,
    new: ramscore::CoreState,
    msg: WireMessage,
    err: Option<Seq<char>>,
)
    requires
        msg is Offer || msg is Answer || msg is Candidate,
        dispatches(old, new, msg, err),
    ensures
        signaling_of(msg) is Ok,
        ramscore::handles_signaling(old, new, signaling_of(msg)->Ok_0, err),
{
}

/// A readable candidate from the signaling server reaches the core: it is
/// appended to the buffer before the SDP handshake is done (`Idle`, or
/// `WaitingForAnswer`), and handed to the engine at once after it; nothing
/// fails. An unreadable one fails and changes nothing.
pub proof fn lemma_dispatched_candidate_reaches_core(
    old: ramscore::CoreState,
    new: ramscore::CoreState,
    candidate: String,
    err: Option<Seq<char>>,
)
    requires
        dispatches(old, new, WireMessage::Candidate { candidate }, err),
    ensures
        engine::candidate_parse_error(candidate@) is None ==> {
            let c = engine::parsed_candidate(candidate@);
            &&& err is None
            &&& new.state == old.state
            &&& (old.state is Idle || old.state is WaitingForAnswer) ==> {
                &&& new.pending_remote_candidates == old.pending_remote_candidates.push(c)
                &&& new.engine_candidates == old.engine_candidates
            }
            &&& (old.state is TricklingIce || old.state is Stable) ==> {
                &&& new.engine_candidates == old.engine_candidates.push(c)
                &&& new.pending_remote_candidates == old.pending_remote_candidates
            }
        },
        engine::candidate_parse_error(candidate@) is Some ==> err is Some && new == old,
{
}

} // verus!
