use str0m::change::{SdpAnswer, SdpPendingOffer};
use str0m::channel::ChannelId;
use str0m::{Candidate, Output, Rtc, RtcError};
use vstd::prelude::*;
use vstd::string::*;

use crate::rtc_core::ramscore;
use crate::rtc_core::rtc as engine;
use crate::rtc_core::rtc::{
    parse_candidate, parse_sdp_answer, parse_sdp_offer, rtc_add_local_candidate, rtc_add_remote_candidate,
    rtc_sdp_api, sdp_add_channel, sdp_accept_answer, sdp_accept_offer, sdp_add_media,
    sdp_answer_text, sdp_apply, sdp_offer_text, send_recv, summarize_output, OutputSummary, StagedCall, TrackKind,
};
use crate::rtc_core::state_machine::StateMachine;
use crate::signaling::protocol::SignalingMessage;

verus! {

/// HybridSession acts as an intermediate state manager.
/// It owns a core StateMachine and knows how to turn SignalingMessage objects
/// into str0m state changes without requiring a specific IO event loop.
pub struct HybridSession {
    pub state_machine: StateMachine,
    pub pending_offer: Option<SdpPendingOffer>,
    /// Whether an audio track is advertised in the next offer.
    pub staged_audio: bool,
    /// Whether a video track is advertised in the next offer.
    pub staged_video: bool,
    /// The SDP text of the last offer or answer this session sent out.
    pub local_sdp: Ghost<Option<Seq<char>>>,
}

/// Whether `c` stages a send-and-receive track of this kind.
pub open spec fn send_recv_track(c: StagedCall, kind: TrackKind) -> bool {
    c matches StagedCall::Media(k, d) && k == kind && engine::direction_kind(d) == engine::DirectionKind::SendRecv
}

/// Whether `calls` is what a session offer stages: the advertised audio
/// track, then the advertised video track, both send-and-receive, then the
/// "media" data channel.
pub open spec fn session_offer_calls(calls: Seq<StagedCall>, audio: bool, video: bool) -> bool {
    let n: int = (if audio { 1int } else { 0int }) + (if video { 1int } else { 0int });
    &&& calls.len() == n + 1
    &&& (audio ==> send_recv_track(calls[0], TrackKind::Audio))
    &&& (video ==> send_recv_track(calls[n - 1], TrackKind::Video))
    &&& calls[n] is Channel
}

/// What `HybridSession::handle_signaling` does with a message (`err` is the
/// error text, `None` on success; `answered` whether an answer came back).
/// Offers, answers and candidates are parsed and handed to the engine, an
/// answer using up the pending offer and a candidate being handed over by
/// `Rtc::add_remote_candidate`; every other message leaves the session untouched.
pub open spec fn session_handles(
    msg: SignalingMessage,
    old_pending: Option<SdpPendingOffer>,
    new_pending: Option<SdpPendingOffer>,
    old_engine: Rtc,
    new_engine: Rtc,
    err: Option<Seq<char>>,
    answered: bool,
) -> bool {
    match msg {
        SignalingMessage::Offer { sdp } => {
            &&& new_pending == old_pending
            &&& engine::engine_kept(old_engine, new_engine)
            &&& match engine::sdp_offer_parse_error(sdp@) {
                Some(t) => err == Some(ramscore::with_detail("Failed to parse SDP offer: "@, t)),
                None => match err {
                    Some(e) => ramscore::has_prefix(e, "Rejecting offer: "@),
                    None => answered,
                },
            }
        },
        SignalingMessage::Answer { sdp } => engine::engine_kept(old_engine, new_engine) && match engine::sdp_answer_parse_error(sdp@) {
            Some(t) => {
                &&& err == Some(ramscore::with_detail("Failed to parse SDP answer: "@, t))
                &&& new_pending == old_pending
            },
            None => if old_pending is None {
                &&& err == Some("Received Answer but no pending offer exists"@)
                &&& new_pending is None
            } else {
                &&& new_pending is None
                &&& !answered
                &&& (err matches Some(e) ==> ramscore::has_prefix(e, "Rejecting answer: "@))
            },
        },
        SignalingMessage::IceCandidate { candidate, .. } => {
            &&& new_pending == old_pending
            &&& !answered
            &&& match engine::candidate_parse_error(candidate@) {
                Some(t) => {
                    &&& err == Some(ramscore::with_detail("Failed to parse ICE Candidate: "@, t))
                    &&& new_engine == old_engine
                },
                None => {
                    &&& err is None
                    &&& engine::rtp_mode(new_engine) == engine::rtp_mode(old_engine)
                    &&& engine::remote_candidates_handed(new_engine)
                        == engine::remote_candidates_handed(old_engine).push(engine::parsed_candidate(candidate@))
                },
            }
        },
        _ => {
            &&& new_pending == old_pending
            &&& new_engine == old_engine
            &&& err is None
            &&& !answered
        },
    }
}

fn prefixed(prefix: &str, detail: String) -> (msg: String)
    ensures
        msg@ == prefix@ + detail@,
{
    let mut msg = String::from_str(prefix);
    msg.append(detail.as_str());
    msg
}

impl HybridSession {
    /// Creates a new HybridSession initializing the StateMachine
    pub fn new() -> (r: Result<Self, RtcError>)
        ensures
            r matches Ok(s) && s.pending_offer is None && s.local_sdp@ is None && !s.staged_audio && !s.staged_video,
    {
        match StateMachine::new() {
            Ok(state_machine) => Ok(
                Self { state_machine, pending_offer: None, staged_audio: false, staged_video: false, local_sdp: Ghost(None) },
            ),
            Err(e) => Err(e),
        }
    }

    /// Advertises media tracks for the upcoming SDP offer; the offer itself
    /// is made by `stage_offer`.
    pub fn add_media_tracks(&mut self, audio: bool, video: bool)
        ensures
            final(self).pending_offer == old(self).pending_offer,
            final(self).state_machine.rtc == old(self).state_machine.rtc,
            final(self).staged_audio == (old(self).staged_audio || audio),
            final(self).staged_video == (old(self).staged_video || video),
    {
        if audio {
            self.staged_audio = true;
        }
        if video {
            self.staged_video = true;
        }
    }

    /// Makes an SDP offer with the advertised tracks and a "media" data
    /// channel for media transport, keeping its pending change set; returns
    /// the offer's SDP text, or `None` when the engine finds nothing to
    /// negotiate, which it always does when a track is advertised.
    pub fn stage_offer(&mut self) -> (r: Option<String>)
        ensures
            engine::engine_kept(old(self).state_machine.rtc, final(self).state_machine.rtc),
            old(self).staged_audio || old(self).staged_video ==> r is Some,
            match r {
                Some(t) => engine::is_sdp_text(t@) && final(self).local_sdp@ == Some(t@) && (final(self).pending_offer matches Some(p)
                    && session_offer_calls(engine::pending_calls(p), old(self).staged_audio, old(self).staged_video))
                    && !final(self).staged_audio && !final(self).staged_video,
                None => final(self).pending_offer == old(self).pending_offer
                    && final(self).staged_audio == old(self).staged_audio
                    && final(self).staged_video == old(self).staged_video,
            },
    {
        let mut change = rtc_sdp_api(&mut self.state_machine.rtc);
        if self.staged_audio {
            let _ = sdp_add_media(&mut change, TrackKind::Audio, send_recv());
        }
        if self.staged_video {
            let _ = sdp_add_media(&mut change, TrackKind::Video, send_recv());
        }
        // The channel is staged on the change set so that the offer carries it.
        let _ = sdp_add_channel(&mut change, String::from_str("media"));
        proof {
            let calls = engine::staged_calls(change);
            assert(session_offer_calls(calls, self.staged_audio, self.staged_video));
            if self.staged_audio || self.staged_video {
                assert(calls[0] is Media);
            }
        }
        match sdp_apply(change) {
            Some((offer, pending)) => {
                self.staged_audio = false;
                self.staged_video = false;
                self.pending_offer = Some(pending);
                let sdp = sdp_offer_text(&offer);
                self.local_sdp = Ghost(Some(sdp@));
                Some(sdp)
            },
            None => None,
        }
    }

    /// Hands the engine a local ICE candidate; returns whether the engine
    /// kept it.
    pub fn add_local_candidate(&mut self, cand: Candidate) -> (added: bool)
        ensures
            final(self).pending_offer == old(self).pending_offer,
            engine::engine_kept(old(self).state_machine.rtc, final(self).state_machine.rtc),
            engine::local_candidates_handed(final(self).state_machine.rtc)
                == engine::local_candidates_handed(old(self).state_machine.rtc).push(cand),
    {
        rtc_add_local_candidate(&mut self.state_machine.rtc, cand)
    }

    /// Feeds incoming signaling messages into the WebRTC state machine.
    /// Returns `Ok(Some(SdpAnswer))` when we received an Offer and produced an Answer.
    /// Returns `Ok(None)` for Answer/ICE messages that don't need a reply.
    pub fn handle_signaling(&mut self, msg: SignalingMessage) -> (r: Result<Option<SdpAnswer>, String>)
        ensures
            session_handles(
                msg,
                old(self).pending_offer,
                final(self).pending_offer,
                old(self).state_machine.rtc,
                final(self).state_machine.rtc,
                ramscore::error_text(r),
                r matches Ok(Some(_)),
            ),
    {
        match msg {
            SignalingMessage::Offer { sdp } => {
                let sdp_offer = match parse_sdp_offer(sdp.as_str()) {
                    Ok(o) => o,
                    Err(e) => return Err(prefixed("Failed to parse SDP offer: ", e)),
                };
                match sdp_accept_offer(rtc_sdp_api(&mut self.state_machine.rtc), sdp_offer) {
                    Ok(answer) => Ok(Some(answer)),
                    Err(e) => Err(prefixed("Rejecting offer: ", e)),
                }
            },
            SignalingMessage::Answer { sdp } => {
                let sdp_answer = match parse_sdp_answer(sdp.as_str()) {
                    Ok(a) => a,
                    Err(e) => return Err(prefixed("Failed to parse SDP answer: ", e)),
                };
                let pending = match self.pending_offer.take() {
                    Some(p) => p,
                    None => return Err(String::from_str("Received Answer but no pending offer exists")),
                };
                match sdp_accept_answer(rtc_sdp_api(&mut self.state_machine.rtc), pending, sdp_answer) {
                    Ok(()) => Ok(None),
                    Err(e) => Err(prefixed("Rejecting answer: ", e)),
                }
            },
            SignalingMessage::IceCandidate { candidate, .. } => {
                let ice_candidate = match parse_candidate(candidate.as_str()) {
                    Ok(c) => c,
                    Err(e) => return Err(prefixed("Failed to parse ICE Candidate: ", e)),
                };
                rtc_add_remote_candidate(&mut self.state_machine.rtc, ice_candidate);
                Ok(None)
            },
            _ => {
                // Room and peer notifications are not handled at this level
                Ok(None)
            },
        }
    }
}

/// What the event loop does with a message from the signaling server (`err`
/// is the error text, `None` on success): when the remote peer joins, an
/// Initiator makes its offer, and a Responder waits; every other message
/// goes to the session, and an answer that it makes is sent back.
pub open spec fn on_signaling_spec(
    is_initiator: bool,
    msg: SignalingMessage,
    old: HybridSession,
    new: HybridSession,
    err: Option<Seq<char>>,
    reply: Option<SignalingMessage>,
) -> bool {
    if msg is PeerJoined {
        &&& err is None
        &&& engine::engine_kept(old.state_machine.rtc, new.state_machine.rtc)
        &&& if is_initiator {
            &&& (old.staged_audio || old.staged_video ==> reply is Some)
            &&& match reply {
                Some(m) => (m matches SignalingMessage::Offer { sdp } && engine::is_sdp_text(sdp@) && new.local_sdp@ == Some(
                    sdp@,
                )) && (new.pending_offer matches Some(p)
                    && session_offer_calls(engine::pending_calls(p), old.staged_audio, old.staged_video)),
                None => new.pending_offer == old.pending_offer,
            }
        } else {
            &&& reply is None
            &&& new.pending_offer == old.pending_offer
            &&& new.state_machine.rtc == old.state_machine.rtc
        }
    } else {
        &&& session_handles(
            msg,
            old.pending_offer,
            new.pending_offer,
            old.state_machine.rtc,
            new.state_machine.rtc,
            err,
            reply is Some,
        )
        &&& (reply matches Some(m) ==> (m matches SignalingMessage::Answer { sdp } && engine::is_sdp_text(sdp@)
            && new.local_sdp@ == Some(sdp@)))
    }
}

/// Handles one message from the signaling server and returns the message to
/// send back, if any.
pub fn on_signaling(session: &mut HybridSession, is_initiator: bool, msg: SignalingMessage) -> (r: Result<
    Option<SignalingMessage>,
    String,
>)
    ensures
        on_signaling_spec(
            is_initiator,
            msg,
            *old(session),
            *final(session),
            ramscore::error_text(r),
            match r {
                Ok(reply) => reply,
                Err(_) => None,
            },
        ),
{
    match msg {
        SignalingMessage::PeerJoined => {
            if is_initiator {
                match session.stage_offer() {
                    Some(sdp) => Ok(Some(SignalingMessage::Offer { sdp })),
                    None => Ok(None),
                }
            } else {
                Ok(None)
            }
        },
        other => match session.handle_signaling(other) {
            Ok(Some(answer)) => {
                let sdp = sdp_answer_text(&answer);
                session.local_sdp = Ghost(Some(sdp@));
                Ok(Some(SignalingMessage::Answer { sdp }))
            },
            Ok(None) => Ok(None),
            Err(e) => Err(e),
        },
    }
}

/// The open data channel after an engine output: an opened channel is the
/// one media goes to, a closed one leaves none, and any other output keeps
/// `current`.
pub fn track_channel(current: Option<ChannelId>, output: &Output) -> (r: Option<ChannelId>)
    ensures
        match engine::output_summary(*output) {
            OutputSummary::ChannelOpen(id) => r == Some(id),
            OutputSummary::ChannelClose(_) => r is None,
            _ => r == current,
        },
{
    match summarize_output(output) {
        OutputSummary::ChannelOpen(id) => Some(id),
        OutputSummary::ChannelClose(_) => None,
        _ => current,
    }
}

} // verus!
