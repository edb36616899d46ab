//! The str0m WebRTC engine and the clock, as the signaling core uses them.
//!
//! Every item here is trusted: its contract is taken from the str0m 0.25
//! source and is not proved.
use std::time::Instant;
use str0m::change::{SdpAnswer, SdpApi, SdpOffer, SdpPendingOffer};
use str0m::channel::ChannelId;
use str0m::media::{Direction, MediaKind, MediaTime, Mid, Pt};
use str0m::media::Frequency;
use str0m::{Candidate, Event, Input, Output, Rtc, RtcConfig, RtcError};
use vstd::prelude::*;

verus! {

#[verifier::external_type_specification]
#[verifier::external_body]
pub struct ExInstant(Instant);

#[verifier::external_type_specification]
#[verifier::external_body]
pub struct ExRtc(Rtc);

#[verifier::external_type_specification]
#[verifier::external_body]
pub struct ExRtcConfig(RtcConfig);

#[verifier::external_type_specification]
#[verifier::external_body]
pub struct ExRtcError(RtcError);

#[verifier::external_type_specification]
#[verifier::external_body]
pub struct ExCandidate(Candidate);

#[verifier::external_type_specification]
#[verifier::external_body]
pub struct ExSdpApi<'a>(SdpApi<'a>);

#[verifier::external_type_specification]
#[verifier::external_body]
pub struct ExSdpOffer(SdpOffer);

#[verifier::external_type_specification]
#[verifier::external_body]
pub struct ExSdpAnswer(SdpAnswer);

#[verifier::external_type_specification]
#[verifier::external_body]
pub struct ExSdpPendingOffer(SdpPendingOffer);

#[verifier::external_type_specification]
#[verifier::external_body]
pub struct ExMid(Mid);

#[verifier::external_type_specification]
#[verifier::external_body]
pub struct ExDirection(Direction);

#[verifier::external_type_specification]
#[verifier::external_body]
pub struct ExChannelId(ChannelId);

#[verifier::external_type_specification]
#[verifier::external_body]
pub struct ExInput<'a>(Input<'a>);

#[verifier::external_type_specification]
#[verifier::external_body]
pub struct ExOutput(Output);

#[verifier::external_type_specification]
#[verifier::external_body]
pub struct ExPt(Pt);

/// The kind of a media track, as the library names it.
#[derive(Debug, Clone, Copy, PartialEq, Eq, Structural)]
pub enum TrackKind {
    Audio,
    Video,
}

/// One call made on an SDP change set (`SdpApi`) since it was opened.
#[derive(Debug, Clone, Copy)]
pub enum StagedCall {
    /// `add_media` of a track of this kind and direction.
    Media(TrackKind, Direction),
    /// `add_channel`.
    Channel,
}

/// The calls made on an SDP change set since `Rtc::sdp_api` opened it, in order.
pub uninterp spec fn staged_calls(api: SdpApi) -> Seq<StagedCall>;

/// The calls made on the change set that became this pending offer, in order.
pub uninterp spec fn pending_calls(pending: SdpPendingOffer) -> Seq<StagedCall>;

/// Whether the engine was configured in RTP mode (`RtcConfig::set_rtp_mode`),
/// which is fixed when the engine is built.
pub uninterp spec fn rtp_mode(rtc: Rtc) -> bool;

/// A log of the calls `Rtc::add_remote_candidate` received since the engine
/// was built: the candidates handed over, in order. It is a record of calls,
/// not the ICE agent's list of remote candidates, which also learns
/// candidates from SDP and from incoming STUN requests and may drop or
/// replace candidates that it is handed.
pub uninterp spec fn remote_candidates_handed(rtc: Rtc) -> Seq<Candidate>;

/// A log of the calls `Rtc::add_local_candidate` received since the engine
/// was built: the candidates handed over, in order. It is a record of calls,
/// not the ICE agent's list of local candidates, which may refuse some.
pub uninterp spec fn local_candidates_handed(rtc: Rtc) -> Seq<Candidate>;

/// A log of the media writes that the engine accepted since it was built
/// (`Writer::write` returning `Ok`): the media id, the media time in
/// microseconds and the bytes of each, in order. It is a record of calls.
pub uninterp spec fn media_written(rtc: Rtc) -> Seq<(Mid, u64, Seq<u8>)>;

/// A log of the calls `Rtc::handle_input` received since the engine was
/// built: the instant that each input carried, in order. It is a record of
/// calls, not the engine's clock.
pub uninterp spec fn inputs_handed(rtc: Rtc) -> Seq<Instant>;

/// The instant an engine input carries: the time of a `Timeout`, or the
/// arrival time of a `Receive`.
pub uninterp spec fn input_instant(input: Input) -> Instant;

/// The SDP text of an offer, as `SdpOffer::to_sdp_string` writes it.
pub uninterp spec fn offer_sdp(offer: SdpOffer) -> Seq<char>;

/// The SDP text of an answer, as `SdpAnswer::to_sdp_string` writes it.
pub uninterp spec fn answer_sdp(answer: SdpAnswer) -> Seq<char>;

/// Whether `t` is an SDP text: it begins with the version line `v=0`.
pub open spec fn is_sdp_text(t: Seq<char>) -> bool {
    t.len() >= 5 && t.subrange(0, 5) == "v=0\r\n"@
}

/// What the engine is still configured as, and what it was handed, after a
/// call that neither reconfigures it nor is one of the logged calls.
pub open spec fn engine_kept(before: Rtc, after: Rtc) -> bool {
    &&& rtp_mode(after) == rtp_mode(before)
    &&& remote_candidates_handed(after) == remote_candidates_handed(before)
    &&& media_written(after) == media_written(before)
}

/// Whether a change set stages at least one media track.
pub open spec fn stages_media(calls: Seq<StagedCall>) -> bool {
    exists|i: int| 0 <= i < calls.len() && calls[i] is Media
}

/// `std::time::Instant::now`. Nothing is claimed of the instant it returns.
#[verifier::external_body]
pub(crate) fn now() -> Instant {
    Instant::now()
}

/// `str0m::Rtc::new`: an engine with the default configuration, which is not
/// RTP mode, started at `start`, and handed no remote candidate yet.
#[verifier::external_body]
pub(crate) fn rtc_new(start: Instant) -> (r: Rtc)
    ensures
        !rtp_mode(r),
        remote_candidates_handed(r) == Seq::<Candidate>::empty(),
        inputs_handed(r) == Seq::<Instant>::empty(),
        media_written(r) == Seq::<(Mid, u64, Seq<u8>)>::empty(),
{
    Rtc::new(start)
}

/// `str0m::RtcConfig::new`: the default configuration.
#[verifier::external_body]
pub(crate) fn rtc_config_new() -> RtcConfig {
    RtcConfig::new()
}

/// `str0m::RtcConfig::build`: an engine with this configuration, started at `start`.
/// It is handed no remote candidate yet.
#[verifier::external_body]
pub(crate) fn rtc_config_build(config: RtcConfig, start: Instant) -> (r: Rtc)
    ensures
        remote_candidates_handed(r) == Seq::<Candidate>::empty(),
{
    config.build(start)
}

/// `str0m::Input::Timeout`: the input that tells the engine the time is `at`.
#[verifier::external_body]
pub(crate) fn timeout_input(at: Instant) -> (r: Input<'static>)
    ensures
        input_instant(r) == at,
{
    Input::Timeout(at)
}

/// `str0m::Rtc::handle_input`: hands the engine one input. Whether it
/// succeeds depends on the engine's state, and nothing is claimed of it; the
/// configuration stays as it was.
#[verifier::external_body]
pub(crate) fn rtc_handle_input(rtc: &mut Rtc, input: Input) -> (r: Result<(), RtcError>)
    ensures
        engine_kept(*old(rtc), *final(rtc)),
        inputs_handed(*final(rtc)) == inputs_handed(*old(rtc)).push(input_instant(input)),
{
    rtc.handle_input(input)
}

/// `str0m::Rtc::poll_output`. What comes out depends on the engine's state,
/// and nothing is claimed of it; it adds no remote candidate and leaves the
/// configuration as it was.
#[verifier::external_body]
pub(crate) fn rtc_poll_output(rtc: &mut Rtc) -> (r: Result<Output, RtcError>)
    ensures
        engine_kept(*old(rtc), *final(rtc)),
{
    rtc.poll_output()
}

/// `str0m::Rtc::add_remote_candidate`: hands the engine one more remote candidate.
#[verifier::external_body]
pub(crate) fn rtc_add_remote_candidate(rtc: &mut Rtc, candidate: Candidate)
    ensures
        rtp_mode(*final(rtc)) == rtp_mode(*old(rtc)),
        remote_candidates_handed(*final(rtc)) == remote_candidates_handed(*old(rtc)).push(candidate),
        media_written(*final(rtc)) == media_written(*old(rtc)),
{
    rtc.add_remote_candidate(candidate)
}

/// `str0m::Rtc::add_local_candidate`: hands the engine a local candidate;
/// returns whether the ICE agent kept it, which depends on the candidates it
/// already has.
#[verifier::external_body]
pub(crate) fn rtc_add_local_candidate(rtc: &mut Rtc, candidate: Candidate) -> (added: bool)
    ensures
        engine_kept(*old(rtc), *final(rtc)),
        local_candidates_handed(*final(rtc)) == local_candidates_handed(*old(rtc)).push(candidate),
{
    rtc.add_local_candidate(candidate).is_some()
}

/// `str0m::Rtc::sdp_api`: opens a change set, which holds no change yet.
#[verifier::external_body]
pub(crate) fn rtc_sdp_api(rtc: &mut Rtc) -> (api: SdpApi<'_>)
    ensures
        staged_calls(api) == Seq::<StagedCall>::empty(),
        engine_kept(*old(rtc), *final(rtc)),
{
    rtc.sdp_api()
}

/// `str0m::change::SdpApi::add_media`, with no stream id, track id or
/// simulcast: stages a track of `kind` and returns its new media id.
#[verifier::external_body]
pub(crate) fn sdp_add_media(api: &mut SdpApi, kind: TrackKind, dir: Direction) -> (mid: Mid)
    ensures
        staged_calls(*final(api)) == staged_calls(*old(api)).push(StagedCall::Media(kind, dir)),
{
    let kind = match kind {
        TrackKind::Audio => MediaKind::Audio,
        TrackKind::Video => MediaKind::Video,
    };
    api.add_media(kind, dir, None, None, None)
}

/// `str0m::change::SdpApi::add_channel`: stages a data channel with this label.
#[verifier::external_body]
pub(crate) fn sdp_add_channel(api: &mut SdpApi, label: String) -> (id: ChannelId)
    ensures
        staged_calls(*final(api)) == staged_calls(*old(api)).push(StagedCall::Channel),
{
    api.add_channel(label)
}

/// `str0m::change::SdpApi::apply`. With no change staged there is nothing to
/// apply and it returns `None`; a staged media track always needs a
/// negotiation, so then it returns an offer and its pending change set.
/// With channels only, whether a negotiation is needed depends on the session.
#[verifier::external_body]
pub(crate) fn sdp_apply(api: SdpApi) -> (r: Option<(SdpOffer, SdpPendingOffer)>)
    ensures
        staged_calls(api).len() == 0 ==> r is None,
        stages_media(staged_calls(api)) ==> r is Some,
        r matches Some(applied) ==> pending_calls(applied.1) == staged_calls(api),
{
    api.apply()
}

/// `str0m::change::SdpApi::accept_offer`; an error comes back as its `{:?}` text.
/// Whether the offer is accepted depends on the session, and nothing is claimed of it.
#[verifier::external_body]
pub(crate) fn sdp_accept_offer(api: SdpApi, offer: SdpOffer) -> Result<SdpAnswer, String> {
    api.accept_offer(offer).map_err(|e| format!("{:?}", e))
}

/// `str0m::change::SdpApi::accept_answer`; an error comes back as its `{:?}` text.
/// Whether the answer is accepted depends on the session, and nothing is claimed of it.
#[verifier::external_body]
pub(crate) fn sdp_accept_answer(api: SdpApi, pending: SdpPendingOffer, answer: SdpAnswer) -> Result<(), String> {
    api.accept_answer(pending, answer).map_err(|e| format!("{:?}", e))
}

/// `str0m::change::SdpOffer::to_sdp_string`: the offer's SDP, which begins
/// with the version line that the session's `Display` writes first.
#[verifier::external_body]
pub(crate) fn sdp_offer_text(offer: &SdpOffer) -> (r: String)
    ensures
        r@ == offer_sdp(*offer),
        is_sdp_text(r@),
{
    offer.to_sdp_string()
}

/// `str0m::change::SdpAnswer::to_sdp_string`: the answer's SDP, which begins
/// with the version line that the session's `Display` writes first.
#[verifier::external_body]
pub(crate) fn sdp_answer_text(answer: &SdpAnswer) -> (r: String)
    ensures
        r@ == answer_sdp(*answer),
        is_sdp_text(r@),
{
    answer.to_sdp_string()
}

/// Why `SdpOffer::from_sdp_string` refuses `sdp`, as its `{:?}` text;
/// `None` when it accepts it.
pub uninterp spec fn sdp_offer_parse_error(sdp: Seq<char>) -> Option<Seq<char>>;

/// Why `SdpAnswer::from_sdp_string` refuses `sdp`, as its `{:?}` text;
/// `None` when it accepts it.
pub uninterp spec fn sdp_answer_parse_error(sdp: Seq<char>) -> Option<Seq<char>>;

/// Why `Candidate::from_sdp_string` refuses `text`, as its `{:?}` text;
/// `None` when it accepts it.
pub uninterp spec fn candidate_parse_error(text: Seq<char>) -> Option<Seq<char>>;

/// `str0m::change::SdpOffer::from_sdp_string`: parsing depends on the text alone.
#[verifier::external_body]
pub(crate) fn parse_sdp_offer(sdp: &str) -> (r: Result<SdpOffer, String>)
    ensures
        r is Ok <==> sdp_offer_parse_error(sdp@) is None,
        r matches Err(e) ==> sdp_offer_parse_error(sdp@) == Some(e@),
{
    SdpOffer::from_sdp_string(sdp).map_err(|e| format!("{:?}", e))
}

/// `str0m::change::SdpAnswer::from_sdp_string`: parsing depends on the text alone.
#[verifier::external_body]
pub(crate) fn parse_sdp_answer(sdp: &str) -> (r: Result<SdpAnswer, String>)
    ensures
        r is Ok <==> sdp_answer_parse_error(sdp@) is None,
        r matches Err(e) ==> sdp_answer_parse_error(sdp@) == Some(e@),
{
    SdpAnswer::from_sdp_string(sdp).map_err(|e| format!("{:?}", e))
}

/// The candidate that `Candidate::from_sdp_string` reads from `text`, where it reads one.
pub uninterp spec fn parsed_candidate(text: Seq<char>) -> Candidate;

/// `str0m::Candidate::from_sdp_string`: parsing depends on the text alone.
#[verifier::external_body]
pub(crate) fn parse_candidate(text: &str) -> (r: Result<Candidate, String>)
    ensures
        r matches Ok(c) ==> c == parsed_candidate(text@),
        r is Ok <==> candidate_parse_error(text@) is None,
        r matches Err(e) ==> candidate_parse_error(text@) == Some(e@),
{
    Candidate::from_sdp_string(text).map_err(|e| format!("{:?}", e))
}

/// The four directions of a media track, as `str0m::media::Direction` has them.
#[derive(Debug, Clone, Copy, PartialEq, Eq, Structural)]
pub enum DirectionKind {
    SendOnly,
    RecvOnly,
    SendRecv,
    Inactive,
}

/// Which of its four variants a `Direction` is.
pub uninterp spec fn direction_kind(d: Direction) -> DirectionKind;

/// Whether the IPv4 address `ip` may stand in an ICE candidate, as the ICE
/// agent's address check has it: not link-local (169.254.0.0/16), not the
/// broadcast address, not multicast (224.0.0.0/4) and not unspecified.
pub open spec fn usable_candidate_ip(ip: Seq<u8>) -> bool {
    &&& !(ip[0] == 169 && ip[1] == 254)
    &&& !(ip[0] == 255 && ip[1] == 255 && ip[2] == 255 && ip[3] == 255)
    &&& !(224 <= ip[0] && ip[0] <= 239)
    &&& !(ip[0] == 0 && ip[1] == 0 && ip[2] == 0 && ip[3] == 0)
}

/// The host candidate that `Candidate::host` makes for the UDP socket
/// address `ip:port`.
pub uninterp spec fn host_candidate_of(ip: Seq<u8>, port: u16) -> Candidate;

/// The server-reflexive candidate that `Candidate::server_reflexive` makes
/// for the UDP address `ip:port`, discovered from the local base address
/// `base_ip:base_port`.
pub uninterp spec fn reflexive_candidate_of(ip: Seq<u8>, port: u16, base_ip: Seq<u8>, base_port: u16) -> Candidate;

/// The SDP text of a candidate, as `Candidate::to_sdp_string` writes it.
pub uninterp spec fn candidate_sdp(c: Candidate) -> Seq<char>;

/// `str0m::Candidate::host` for the UDP socket address `ip:port`: it refuses
/// exactly the addresses that may not stand in a candidate.
#[verifier::external_body]
pub(crate) fn host_candidate(ip: [u8; 4], port: u16) -> (r: Option<Candidate>)
    ensures
        r is Some <==> usable_candidate_ip(ip@),
        r matches Some(c) ==> c == host_candidate_of(ip@, port),
{
    Candidate::host((ip, port).into(), "udp").ok()
}

/// `str0m::Candidate::server_reflexive` for the UDP address `ip:port` and the
/// base `base_ip:base_port`, both IPv4: it refuses exactly the addresses
/// `ip` that may not stand in a candidate.
#[verifier::external_body]
pub(crate) fn reflexive_candidate_from(ip: [u8; 4], port: u16, base_ip: [u8; 4], base_port: u16) -> (r: Option<
    Candidate,
>)
    ensures
        r is Some <==> usable_candidate_ip(ip@),
        r matches Some(c) ==> c == reflexive_candidate_of(ip@, port, base_ip@, base_port),
{
    Candidate::server_reflexive((ip, port).into(), (base_ip, base_port).into(), "udp").ok()
}

/// `str0m::Candidate::to_sdp_string`: the candidate's SDP text.
#[verifier::external_body]
pub(crate) fn candidate_text(c: &Candidate) -> (r: String)
    ensures
        r@ == candidate_sdp(*c),
{
    c.to_sdp_string()
}

/// `str0m::media::Direction::SendRecv`.
#[verifier::external_body]
pub(crate) fn send_recv() -> (r: Direction)
    ensures
        direction_kind(r) == DirectionKind::SendRecv,
{
    Direction::SendRecv
}

/// `str0m::media::Direction::SendOnly`.
#[verifier::external_body]
pub(crate) fn send_only() -> (r: Direction)
    ensures
        direction_kind(r) == DirectionKind::SendOnly,
{
    Direction::SendOnly
}

/// Whether two media ids are the same: `Mid` compares its bytes.
#[verifier::external_body]
pub(crate) fn mid_eq(a: Mid, b: Mid) -> (r: bool)
    ensures
        r == (a == b),
{
    a == b
}

/// What the signaling core reads of an engine output.
pub enum OutputSummary {
    /// `Output::Timeout`: the engine wants to be woken at this instant.
    Timeout(Instant),
    /// `Output::Transmit`: a datagram to send.
    Transmit,
    /// `Event::Connected`: ICE and DTLS are up.
    Connected,
    /// `Event::IceConnectionStateChange`, with the new state's `{:?}` text.
    IceStateChange(String),
    /// `Event::MediaAdded`: a track of this kind got this media id.
    MediaAdded(TrackKind, Mid),
    /// `Event::MediaData`: media arrived for this media id.
    MediaData(Mid),
    /// `Event::ChannelOpen`: the data channel with this id is open.
    ChannelOpen(ChannelId),
    /// `Event::ChannelClose`: the data channel with this id closed.
    ChannelClose(ChannelId),
    /// Any other event.
    Other,
}

/// What `summarize_output` reads of an engine output.
pub uninterp spec fn output_summary(output: Output) -> OutputSummary;

/// Tells the variants of `str0m::Output` apart, one arm each, and moves out
/// the fields that the signaling core reads; the summary depends on the
/// output alone.
#[verifier::external_body]
pub(crate) fn summarize_output(output: &Output) -> (r: OutputSummary)
    ensures
        r == output_summary(*output),
{
    match output {
        Output::Timeout(t) => OutputSummary::Timeout(*t),
        Output::Transmit(_) => OutputSummary::Transmit,
        Output::Event(Event::Connected) => OutputSummary::Connected,
        Output::Event(Event::IceConnectionStateChange(s)) => OutputSummary::IceStateChange(format!("{:?}", s)),
        Output::Event(Event::MediaAdded(m)) => OutputSummary::MediaAdded(match m.kind {
            MediaKind::Audio => TrackKind::Audio,
            MediaKind::Video => TrackKind::Video,
        }, m.mid),
        Output::Event(Event::MediaData(d)) => OutputSummary::MediaData(d.mid),
        Output::Event(Event::ChannelOpen(id, _)) => OutputSummary::ChannelOpen(*id),
        Output::Event(Event::ChannelClose(id)) => OutputSummary::ChannelClose(*id),
        _ => OutputSummary::Other,
    }
}

/// `str0m::Rtc::writer`, then `Writer::payload_params` and
/// `PayloadParams::pt`: `None` when the engine has no writer for `mid`, else
/// the payload type of the first negotiated codec of its media, if there is
/// one. It panics in RTP mode, which its `requires` rules out; the writer is
/// only looked at, so the engine is kept.
#[verifier::external_body]
pub(crate) fn rtc_payload_type(rtc: &mut Rtc, mid: Mid) -> (r: Option<Option<Pt>>)
    requires
        !rtp_mode(*old(rtc)),
    ensures
        engine_kept(*old(rtc), *final(rtc)),
        inputs_handed(*final(rtc)) == inputs_handed(*old(rtc)),
{
    rtc.writer(mid).map(|w| w.payload_params().next().map(|p| p.pt()))
}

/// `str0m::Rtc::writer`, then `Writer::write` with the payload type `pt`,
/// the wallclock `wallclock`, the media time `timestamp_us` in microseconds
/// (`MediaTime::new` with `Frequency::MICROS`) and the bytes `data`: `None`
/// when the engine has no writer for `mid`, else what the write returned,
/// which depends on the session. A write that the engine accepts is entered
/// in the log of written media; the engine is otherwise kept. It panics in
/// RTP mode, which its `requires` rules out.
#[verifier::external_body]
pub(crate) fn rtc_write_media(
    rtc: &mut Rtc,
    mid: Mid,
    pt: Pt,
    wallclock: Instant,
    timestamp_us: u64,
    data: Vec<u8>,
) -> (r: Option<Result<(), RtcError>>)
    requires
        !rtp_mode(*old(rtc)),
    ensures
        rtp_mode(*final(rtc)) == rtp_mode(*old(rtc)),
        remote_candidates_handed(*final(rtc)) == remote_candidates_handed(*old(rtc)),
        inputs_handed(*final(rtc)) == inputs_handed(*old(rtc)),
        r matches Some(Ok(())) ==> media_written(*final(rtc)) == media_written(*old(rtc)).push(
            (mid, timestamp_us, data@),
        ),
        !(r matches Some(Ok(()))) ==> media_written(*final(rtc)) == media_written(*old(rtc)),
{
    rtc.writer(mid).map(|w| w.write(pt, wallclock, MediaTime::new(timestamp_us, Frequency::MICROS), data))
}

/// `<RtcError as Display>`: the error's message. Nothing is claimed of the text.
#[verifier::external_body]
pub(crate) fn rtc_error_message(e: &RtcError) -> String {
    e.to_string()
}

/// `<RtcError as Debug>`: the error's `{:?}` text. Nothing is claimed of the text.
#[verifier::external_body]
pub(crate) fn rtc_error_debug(e: &RtcError) -> String {
    format!("{:?}", e)
}

} // verus!
