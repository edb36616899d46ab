use std::time::Instant;
use str0m::change::SdpPendingOffer;
use str0m::media::{Direction, Mid};
use str0m::{Candidate, Input, Output, Rtc, RtcError};
use vstd::prelude::*;
use vstd::string::*;

use crate::rtc_core::rtc::{
    now, rtc_error_debug, rtc_error_message, rtc_payload_type, rtc_write_media, parse_candidate, parse_sdp_answer, parse_sdp_offer, sdp_accept_answer,
    sdp_accept_offer, sdp_answer_text, send_recv, rtc_add_local_candidate, rtc_add_remote_candidate, rtc_handle_input, rtc_new,
    rtc_poll_output, rtc_sdp_api, sdp_add_channel, sdp_add_media, sdp_apply, sdp_offer_text,
    summarize_output, timeout_input, OutputSummary, StagedCall, TrackKind,
};
use crate::rtc_core::rtc as engine;
use crate::signaling::signaling_handler as handler;
use crate::signaling::signaling_handler::{SignalingHandler, SignalingRole, SignalingState};
use crate::signaling::SignalingMessage;

verus! {

/// A superset of str0m that implements a signaling state machine.
pub struct RAMSCore {
    /// A new str0m Rtc object
    pub rtc: Rtc,
    /// A handle for the signaling state machine
    pub signaling_handler: SignalingHandler,
    /// A queue of remote candidates that have been received but not yet applied
    pub pending_remote_candidates: Vec<Candidate>,
    /// A pending offer that has not yet been applied
    pub pending_offer: Option<SdpPendingOffer>,
    /// The time when the RAMSCore was created
    pub start_time: Instant,
    /// The Media Information Descriptor (MID) of the video track.
    pub video_mid: Option<Mid>,
    /// The Media Information Descriptor (MID) of the audio track.
    pub audio_mid: Option<Mid>,
    /// Pending local audio direction to stage in the next local offer.
    pub pending_audio_direction: Option<Direction>,
    /// Pending local video direction to stage in the next local offer.
    pub pending_video_direction: Option<Direction>,
    /// Labels of the data channels to stage in the next local offer.
    pub pending_channels: Vec<String>,
    /// The SDP text of the last offer or answer this core made.
    pub local_sdp: Ghost<Option<Seq<char>>>,
}

/// Everything a core holds, and of its engine whether it is in RTP mode and
/// which remote candidates the core handed it.
pub struct CoreState {
    pub role: SignalingRole,
    pub state: SignalingState,
    pub pending_remote_candidates: Seq<Candidate>,
    pub pending_offer: Option<SdpPendingOffer>,
    pub start_time: Instant,
    pub video_mid: Option<Mid>,
    pub audio_mid: Option<Mid>,
    pub pending_audio_direction: Option<Direction>,
    pub pending_video_direction: Option<Direction>,
    pub pending_channels: Seq<String>,
    pub rtp_mode: bool,
    pub engine_candidates: Seq<Candidate>,
    pub media_written: Seq<(Mid, u64, Seq<u8>)>,
    pub local_sdp: Option<Seq<char>>,
}

impl View for RAMSCore {
    type V = CoreState;

    open spec fn view(&self) -> CoreState {
        CoreState {
            role: self.signaling_handler.role,
            state: self.signaling_handler.state,
            pending_remote_candidates: self.pending_remote_candidates@,
            pending_offer: self.pending_offer,
            start_time: self.start_time,
            video_mid: self.video_mid,
            audio_mid: self.audio_mid,
            pending_audio_direction: self.pending_audio_direction,
            pending_video_direction: self.pending_video_direction,
            pending_channels: self.pending_channels@,
            rtp_mode: engine::rtp_mode(self.rtc),
            engine_candidates: engine::remote_candidates_handed(self.rtc),
            media_written: engine::media_written(self.rtc),
            local_sdp: self.local_sdp@,
        }
    }
}

/// What the core records of one engine output: the connection coming up
/// ends the handshake, and a new track's media id is kept by its kind.
pub open spec fn observe(s: CoreState, obs: OutputSummary) -> CoreState {
    match obs {
        OutputSummary::Connected => if s.state is TricklingIce {
            CoreState { state: SignalingState::Stable, ..s }
        } else {
            s
        },
        OutputSummary::MediaAdded(TrackKind::Video, mid) => CoreState { video_mid: Some(mid), ..s },
        OutputSummary::MediaAdded(TrackKind::Audio, mid) => CoreState { audio_mid: Some(mid), ..s },
        _ => s,
    }
}

/// What writing `data` for `mid` at `timestamp` microseconds does to the
/// core: when the engine accepted the write (`written`) it is entered in the
/// log of written media, and nothing else changes.
pub open spec fn writes_media(
    old: CoreState,
    new: CoreState,
    mid: Mid,
    timestamp: u64,
    data: Seq<u8>,
    written: bool,
) -> bool {
    new == (CoreState {
        media_written: if written {
            old.media_written.push((mid, timestamp, data))
        } else {
            old.media_written
        },
        ..old
    })
}

/// Whether a remote candidate that arrives in this state waits for the SDP
/// handshake: before the offer or answer is applied it cannot be used.
pub open spec fn buffers_candidates(state: SignalingState) -> bool {
    state is Idle || state is WaitingForAnswer
}

/// What buffering or applying a parsed remote candidate does to the core.
pub open spec fn after_candidate(s: CoreState, c: Candidate) -> CoreState {
    if buffers_candidates(s.state) {
        CoreState { pending_remote_candidates: s.pending_remote_candidates.push(c), ..s }
    } else {
        CoreState { engine_candidates: s.engine_candidates.push(c), ..s }
    }
}

/// The core after receiving the parsed remote candidates `cs`, in order.
pub open spec fn after_candidates(s: CoreState, cs: Seq<Candidate>) -> CoreState
    decreases cs.len(),
{
    if cs.len() == 0 {
        s
    } else {
        after_candidate(after_candidates(s, cs.drop_last()), cs.last())
    }
}

/// The core with its buffered candidates handed to the engine, in the order
/// they arrived.
pub open spec fn flushed(s: CoreState) -> CoreState {
    CoreState {
        pending_remote_candidates: Seq::empty(),
        engine_candidates: s.engine_candidates + s.pending_remote_candidates,
        ..s
    }
}

/// The text of an error that a prefix and a detail make up.
pub open spec fn with_detail(prefix: Seq<char>, detail: Seq<char>) -> Seq<char> {
    prefix + detail
}


/// The error text of a result, `None` when it succeeded.
pub open spec fn error_text<T>(r: Result<T, String>) -> Option<Seq<char>> {
    match r {
        Ok(_) => None,
        Err(e) => Some(e@),
    }
}

/// Whether `e` is `prefix` followed by some detail.
pub open spec fn has_prefix(e: Seq<char>, prefix: Seq<char>) -> bool {
    exists|t: Seq<char>| e == prefix + t
}

/// What receiving a remote candidate does (`err` is the error text, `None` on
/// success): an unreadable candidate fails and changes nothing; a readable one
/// is buffered or applied.
pub open spec fn accepts_candidate(old: CoreState, new: CoreState, text: Seq<char>, err: Option<Seq<char>>) -> bool {
    match engine::candidate_parse_error(text) {
        Some(t) => err == Some(with_detail("Invalid SDP ICE Candidate: "@, t)) && new == old,
        None => err is None && new == after_candidate(old, engine::parsed_candidate(text)),
    }
}

/// What handling a remote signaling message does (`err` is the error text,
/// `None` on success): only a Responder accepts offers, only an Initiator
/// accepts answers, and either role accepts candidates.
pub open spec fn handles_signaling(old: CoreState, new: CoreState, msg: SignalingMessage, err: Option<Seq<char>>) -> bool {
    match msg {
        SignalingMessage::Offer { sdp } => if old.role != SignalingRole::Responder {
            &&& err == Some("Initiator cannot accept an Offer"@)
            &&& new == old
        } else {
            accepts_offer(old, new, sdp@, err)
        },
        SignalingMessage::Answer { sdp } => if old.role != SignalingRole::Initiator {
            &&& err == Some("Responder cannot accept an Answer"@)
            &&& new == old
        } else {
            accepts_answer(old, new, sdp@, err)
        },
        SignalingMessage::Candidate { candidate } => accepts_candidate(old, new, candidate@, err),
    }
}

/// The error of `create_offer` when no track is staged.
pub open spec fn no_changes_text() -> Seq<char> {
    "No local changes to negotiate (staged_changes=0, pending_audio=None, pending_video=None)"@
}

/// What `create_offer` stages: the audio track, then the video track, each
/// with the direction it was added with, then one data channel per label.
pub open spec fn staged_tracks(s: CoreState) -> Seq<StagedCall> {
    let audio = match s.pending_audio_direction {
        Some(d) => seq![StagedCall::Media(TrackKind::Audio, d)],
        None => Seq::<StagedCall>::empty(),
    };
    let video = match s.pending_video_direction {
        Some(d) => seq![StagedCall::Media(TrackKind::Video, d)],
        None => Seq::<StagedCall>::empty(),
    };
    let channels = Seq::new(s.pending_channels.len(), |i: int| StagedCall::Channel);
    audio + video + channels
}

/// Whether the core stages any media track for the next offer.
pub open spec fn stages_tracks(s: CoreState) -> bool {
    s.pending_audio_direction is Some || s.pending_video_direction is Some
}

/// The core after the staged tracks and channels became a pending offer: the
/// staged directions and channels are used up, each staged track has a media
/// id, and the pending offer, which holds exactly what was staged, waits for
/// its answer.
pub open spec fn staged_into_offer(old: CoreState, new: CoreState) -> bool {
    &&& new.role == old.role
    &&& new.pending_remote_candidates == old.pending_remote_candidates
    &&& new.rtp_mode == old.rtp_mode
    &&& new.engine_candidates == old.engine_candidates
    &&& new.start_time == old.start_time
    &&& new.pending_audio_direction is None
    &&& new.pending_video_direction is None
    &&& new.pending_channels.len() == 0
    &&& new.media_written == old.media_written
    &&& (old.pending_audio_direction is Some ==> new.audio_mid is Some)
    &&& (old.pending_audio_direction is None ==> new.audio_mid == old.audio_mid)
    &&& (old.pending_video_direction is Some ==> new.video_mid is Some)
    &&& (old.pending_video_direction is None ==> new.video_mid == old.video_mid)
    &&& new.pending_offer matches Some(p) && engine::pending_calls(p) == staged_tracks(old)
}

/// Data channels alone, when the engine needs no negotiation for them: they
/// are used up, and the core is otherwise as it was.
pub open spec fn channels_applied_without_offer(old: CoreState, new: CoreState, err: Option<Seq<char>>) -> bool {
    &&& !stages_tracks(old)
    &&& err == Some(no_changes_text())
    &&& new == (CoreState { pending_channels: Seq::empty(), ..old })
}

/// What `create_offer` does: only the Initiator offers; staged tracks and
/// channels make an offer (channels alone only when the engine needs to
/// negotiate them), and the offer moves the handshake from `Idle` to
/// `WaitingForAnswer`.
pub open spec fn creates_offer(old: CoreState, new: CoreState, err: Option<Seq<char>>) -> bool {
    if old.role != SignalingRole::Initiator {
        &&& err == Some("Only the Initiator can create an offer"@)
        &&& new == old
    } else if !stages_tracks(old) && old.pending_channels.len() == 0 {
        &&& err == Some(no_changes_text())
        &&& new == old
    } else if old.state is Idle {
        ||| {
            &&& staged_into_offer(old, new)
            &&& new.state == SignalingState::WaitingForAnswer
            &&& err is None
        }
        ||| channels_applied_without_offer(old, new, err)
    } else {
        ||| {
            &&& staged_into_offer(old, new)
            &&& new.state == old.state
            &&& err == Some(
                handler::transition_error_text(SignalingRole::Initiator, old.state, SignalingState::WaitingForAnswer),
            )
        }
        ||| channels_applied_without_offer(old, new, err)
    }
}

/// What accepting a remote offer does (`err` is the error text, `None` on
/// success): it is refused once the handshake has passed that point, or when
/// the role may not move to `TricklingIce`; otherwise an unreadable SDP
/// fails and changes nothing, and a
/// readable one gets both tracks a media id and is accepted or refused by the
/// engine; only once the engine accepts it, and so an answer exists, does the
/// handshake move to `TricklingIce` and the buffered candidates go to the engine.
pub open spec fn accepts_offer(old: CoreState, new: CoreState, sdp: Seq<char>, err: Option<Seq<char>>) -> bool {
    if old.state is TricklingIce || old.state is Stable {
        &&& err == Some("Offer already accepted or in invalid state for offer"@)
        &&& new == old
    } else if !handler::is_valid_transition(old.role, old.state, SignalingState::TricklingIce) {
        &&& err == Some(handler::transition_error_text(old.role, old.state, SignalingState::TricklingIce))
        &&& new == old
    } else {
        let moved = CoreState { state: SignalingState::TricklingIce, ..old };
        match engine::sdp_offer_parse_error(sdp) {
            Some(t) => {
                &&& err == Some(with_detail("Invalid SDP Offer: "@, t))
                &&& new == old
            },
            None => {
                &&& new.audio_mid is Some
                &&& new.video_mid is Some
                &&& match err {
                    Some(e) => {
                        &&& has_prefix(e, "Failed to accept offer: "@)
                        &&& new == (CoreState { audio_mid: new.audio_mid, video_mid: new.video_mid, ..old })
                    },
                    None => new == (CoreState {
                        audio_mid: new.audio_mid,
                        video_mid: new.video_mid,
                        local_sdp: new.local_sdp,
                        ..flushed(moved)
                    }),
                }
            },
        }
    }
}

/// What applying a remote answer does (`err` is the error text, `None` on
/// success): it needs the pending offer, which it uses up; the handshake
/// moves to `TricklingIce` unless it is there or further already, and the
/// buffered candidates go to the engine before the SDP is read; an
/// unreadable SDP fails, and a readable one is accepted or refused by the engine.
pub open spec fn accepts_answer(old: CoreState, new: CoreState, sdp: Seq<char>, err: Option<Seq<char>>) -> bool {
    if old.pending_offer is None {
        &&& err == Some("No pending offer to apply answer to"@)
        &&& new == old
    } else {
        let taken = CoreState { pending_offer: None, ..old };
        if !(old.state is TricklingIce || old.state is Stable) && !handler::is_valid_transition(
            old.role,
            old.state,
            SignalingState::TricklingIce,
        ) {
            &&& err == Some(handler::transition_error_text(old.role, old.state, SignalingState::TricklingIce))
            &&& new == taken
        } else {
            let ready = if old.state is TricklingIce || old.state is Stable {
                flushed(taken)
            } else {
                flushed(CoreState { state: SignalingState::TricklingIce, ..taken })
            };
            &&& new == ready
            &&& match engine::sdp_answer_parse_error(sdp) {
                Some(t) => err == Some(with_detail("Invalid SDP Answer: "@, t)),
                None => match err {
                    Some(e) => has_prefix(e, "Failed to accept answer: "@),
                    None => true,
                },
            }
        }
    }
}

impl RAMSCore {
    /// Creates a new low-level RAMSCore object
    pub fn new(role: SignalingRole) -> (core: Self)
        ensures
            core@.role == role,
            core@.state == SignalingState::Idle,
            core@.pending_remote_candidates.len() == 0,
            core@.pending_offer is None,
            core@.video_mid is None,
            core@.audio_mid is None,
            core@.pending_audio_direction is None,
            core@.pending_video_direction is None,
            core@.pending_channels.len() == 0,
            !core@.rtp_mode,
            core@.engine_candidates == Seq::<Candidate>::empty(),
            core@.media_written == Seq::<(Mid, u64, Seq<u8>)>::empty(),
            core@.local_sdp is None,
    {
        let now = now();
        RAMSCore {
            rtc: rtc_new(now),
            signaling_handler: SignalingHandler::new(role),
            pending_remote_candidates: Vec::new(),
            pending_offer: None,
            start_time: now,
            video_mid: None,
            audio_mid: None,
            pending_audio_direction: None,
            pending_video_direction: None,
            pending_channels: Vec::new(),
            local_sdp: Ghost(None),
        }
    }

    /// Transparently passes input to str0m: the input is handed to the
    /// engine as it is. Whether the engine accepts it depends on the
    /// engine's session, which the core does not model; the core's own state
    /// is left as it was either way.
    pub fn handle_input(&mut self, input: Input) -> (r: Result<(), RtcError>)
        ensures
            final(self)@ == old(self)@,
            engine::inputs_handed(final(self).rtc) == engine::inputs_handed(old(self).rtc).push(
                engine::input_instant(input),
            ),
    {
        rtc_handle_input(&mut self.rtc, input)
    }

    /// Records what the core keeps of one engine output.
    pub fn observe_output(&mut self, obs: OutputSummary)
        ensures
            final(self)@ == observe(old(self)@, obs),
    {
        match obs {
            OutputSummary::Connected => {
                if matches!(self.signaling_handler.state, SignalingState::TricklingIce) {
                    // Signaling is complete once the DTLS/ICE stack is up.
                    let _ = self.signaling_handler.advance(SignalingState::Stable);
                }
            },
            OutputSummary::MediaAdded(TrackKind::Video, mid) => {
                self.video_mid = Some(mid);
            },
            OutputSummary::MediaAdded(TrackKind::Audio, mid) => {
                self.audio_mid = Some(mid);
            },
            _ => {},
        }
    }

    /// Polls output from str0m and updates the signaling state from it.
    pub fn poll_output(&mut self) -> (r: Result<Output, RtcError>)
        ensures
            r is Err ==> final(self)@ == old(self)@,
            r matches Ok(o) ==> final(self)@ == observe(old(self)@, engine::output_summary(o)),
    {
        match rtc_poll_output(&mut self.rtc) {
            Ok(output) => {
                let obs = summarize_output(&output);
                self.observe_output(obs);
                Ok(output)
            },
            Err(e) => Err(e),
        }
    }


    /// Negotiates any pending local tracks and channels and creates an SDP Offer.
    pub fn create_offer(&mut self) -> (r: Result<SignalingMessage, String>)
        ensures
            creates_offer(old(self)@, final(self)@, error_text(r)),
            r matches Ok(offer) ==> offer is Offer,
            r matches Ok(SignalingMessage::Offer { sdp }) ==> engine::is_sdp_text(sdp@) && final(self)@.local_sdp
                == Some(sdp@),
    {
        if !matches!(self.signaling_handler.role, SignalingRole::Initiator) {
            return Err(String::from_str("Only the Initiator can create an offer"));
        }
        // Sync clock to prevent DTLS timeouts due to time jumps since initialization
        let _ = rtc_handle_input(&mut self.rtc, timeout_input(now()));

        let mut sdp_api = rtc_sdp_api(&mut self.rtc);
        if let Some(direction) = self.pending_audio_direction {
            let mid = sdp_add_media(&mut sdp_api, TrackKind::Audio, direction);
            self.audio_mid = Some(mid);
        }
        if let Some(direction) = self.pending_video_direction {
            let mid = sdp_add_media(&mut sdp_api, TrackKind::Video, direction);
            self.video_mid = Some(mid);
        }
        let ghost tracks = engine::staged_calls(sdp_api);
        let mut channels: Vec<String> = Vec::new();
        std::mem::swap(&mut channels, &mut self.pending_channels);
        let total: usize = channels.len();
        let mut staged: usize = 0;
        while channels.len() > 0
            invariant
                staged + channels@.len() == total,
                self.pending_channels@ == Seq::<String>::empty(),
                engine::staged_calls(sdp_api) == tracks + Seq::new(staged as nat, |i: int| StagedCall::Channel),
            decreases channels.len(),
        {
            let label = channels.remove(0);
            let _ = sdp_add_channel(&mut sdp_api, label);
            proof {
                assert(tracks + Seq::new((staged + 1) as nat, |i: int| StagedCall::Channel) =~= (tracks + Seq::new(
                    staged as nat,
                    |i: int| StagedCall::Channel,
                )).push(StagedCall::Channel));
            }
            staged = staged + 1;
        }
        proof {
            // Each staged track and channel is a call on the change set, so
            // applying it makes an offer that holds exactly those.
            assert(engine::staged_calls(sdp_api) =~= staged_tracks(old(self)@));
            if self.pending_audio_direction is Some || self.pending_video_direction is Some {
                assert(engine::staged_calls(sdp_api)[0] is Media);
            }
        }
        let applied = sdp_apply(sdp_api);
        match applied {
            None => {
                proof {
                    if old(self)@.pending_channels.len() == 0 {
                        assert(self@.pending_channels =~= old(self)@.pending_channels);
                    }
                }
                Err(String::from_str(
                    "No local changes to negotiate (staged_changes=0, pending_audio=None, pending_video=None)",
                ))
            },
            Some((offer, pending)) => {
                // The staged directions are now part of the pending offer
                self.pending_audio_direction = None;
                self.pending_video_direction = None;
                self.pending_offer = Some(pending);
                match self.signaling_handler.advance(SignalingState::WaitingForAnswer) {
                    Ok(()) => {
                        let sdp = sdp_offer_text(&offer);
                        self.local_sdp = Ghost(Some(sdp@));
                        Ok(SignalingMessage::Offer { sdp })
                    },
                    Err(e) => Err(e),
                }
            },
        }
    }


    /// Handles incoming signaling messages and updates the signaling state machine.
    /// This is the entry point for all SDP and ICE negotiations from the remote peer.
    pub fn handle_signaling(&mut self, msg: SignalingMessage) -> (r: Result<Option<SignalingMessage>, String>)
        ensures
            handles_signaling(old(self)@, final(self)@, msg, error_text(r)),
            r matches Ok(reply) ==> (reply is Some <==> msg is Offer),
            r matches Ok(Some(reply)) ==> reply is Answer,
            r matches Ok(Some(SignalingMessage::Answer { sdp })) ==> engine::is_sdp_text(sdp@) && final(self)@.local_sdp
                == Some(sdp@),
    {
        // Sync clock to prevent DTLS timeouts due to time jumps during signaling wait
        let _ = rtc_handle_input(&mut self.rtc, timeout_input(now()));
        match msg {
            SignalingMessage::Offer { sdp } => {
                if !matches!(self.signaling_handler.role, SignalingRole::Responder) {
                    return Err(String::from_str("Initiator cannot accept an Offer"));
                }
                match self.handle_offer(sdp) {
                    Ok(answer) => Ok(Some(answer)),
                    Err(e) => Err(e),
                }
            },
            SignalingMessage::Answer { sdp } => {
                if !matches!(self.signaling_handler.role, SignalingRole::Initiator) {
                    return Err(String::from_str("Responder cannot accept an Answer"));
                }
                match self.handle_answer(sdp) {
                    Ok(()) => Ok(None),
                    Err(e) => Err(e),
                }
            },
            SignalingMessage::Candidate { candidate } => {
                match self.handle_candidate(candidate) {
                    Ok(()) => Ok(None),
                    Err(e) => Err(e),
                }
            },
        }
    }

    fn handle_offer(&mut self, sdp: String) -> (r: Result<SignalingMessage, String>)
        ensures
            accepts_offer(old(self)@, final(self)@, sdp@, error_text(r)),
            r is Ok ==> r matches Ok(SignalingMessage::Answer { .. }),
            r matches Ok(SignalingMessage::Answer { sdp }) ==> engine::is_sdp_text(sdp@) && final(self)@.local_sdp
                == Some(sdp@),
    {
        // Only accept an offer if the handshake has not passed that point
        if matches!(self.signaling_handler.state, SignalingState::TricklingIce | SignalingState::Stable) {
            return Err(String::from_str("Offer already accepted or in invalid state for offer"));
        }
        // The handshake moves on only once the offer is answered.
        if !self.signaling_handler.can_advance(&SignalingState::TricklingIce) {
            return Err(self.signaling_handler.transition_error(&SignalingState::TricklingIce));
        }
        let offer = match parse_sdp_offer(sdp.as_str()) {
            Ok(o) => o,
            Err(detail) => {
                let mut msg = String::from_str("Invalid SDP Offer: ");
                msg.append(detail.as_str());
                return Err(msg);
            },
        };
        let mut sdp_api = rtc_sdp_api(&mut self.rtc);
        // The Responder declares its local tracks to match against the offer.
        let am = sdp_add_media(&mut sdp_api, TrackKind::Audio, send_recv());
        self.audio_mid = Some(am);
        let vm = sdp_add_media(&mut sdp_api, TrackKind::Video, send_recv());
        self.video_mid = Some(vm);
        let answer = match sdp_accept_offer(sdp_api, offer) {
            Ok(a) => a,
            Err(detail) => {
                let mut msg = String::from_str("Failed to accept offer: ");
                msg.append(detail.as_str());
                assert(msg@ == "Failed to accept offer: "@ + detail@);
                return Err(msg);
            },
        };
        match self.signaling_handler.advance(SignalingState::TricklingIce) {
            Ok(()) => {},
            Err(e) => return Err(e),
        }
        self.flush_pending_candidates();
        let sdp = sdp_answer_text(&answer);
        self.local_sdp = Ghost(Some(sdp@));
        Ok(SignalingMessage::Answer { sdp })
    }

    fn handle_answer(&mut self, sdp: String) -> (r: Result<(), String>)
        ensures
            accepts_answer(old(self)@, final(self)@, sdp@, error_text(r)),
    {
        // Only accept an answer if there is a pending offer
        let pending = match self.pending_offer.take() {
            Some(p) => p,
            None => return Err(String::from_str("No pending offer to apply answer to")),
        };
        if !matches!(self.signaling_handler.state, SignalingState::TricklingIce | SignalingState::Stable) {
            match self.signaling_handler.advance(SignalingState::TricklingIce) {
                Ok(()) => {},
                Err(e) => return Err(e),
            }
        }
        self.flush_pending_candidates();
        let answer = match parse_sdp_answer(sdp.as_str()) {
            Ok(a) => a,
            Err(detail) => {
                let mut msg = String::from_str("Invalid SDP Answer: ");
                msg.append(detail.as_str());
                return Err(msg);
            },
        };
        match sdp_accept_answer(rtc_sdp_api(&mut self.rtc), pending, answer) {
            Ok(()) => Ok(()),
            Err(detail) => {
                let mut msg = String::from_str("Failed to accept answer: ");
                msg.append(detail.as_str());
                assert(msg@ == "Failed to accept answer: "@ + detail@);
                Err(msg)
            },
        }
    }


    /// Writes raw media bytes (e.g., an Opus frame) to the Audio RTP stream.
    /// Expects the timestamp in microseconds. It fails with "No audio writer"
    /// or "No PT for MID" when the engine has no writer or no payload type for
    /// `mid`, or with the engine's own message when the write fails; which of
    /// these happens depends on the engine's session. On success the engine
    /// was handed exactly these bytes for `mid` at this time.
    pub fn write_audio_media(&mut self, mid: Mid, data: Vec<u8>, timestamp: u64) -> (r: Result<(), String>)
        requires
            !old(self)@.rtp_mode,
        ensures
            writes_media(old(self)@, final(self)@, mid, timestamp, data@, r is Ok),
    {
        let now = now();
        let pt = match rtc_payload_type(&mut self.rtc, mid) {
            None => return Err(String::from_str("No audio writer")),
            Some(None) => return Err(String::from_str("No PT for MID")),
            Some(Some(pt)) => pt,
        };
        match rtc_write_media(&mut self.rtc, mid, pt, now, timestamp, data) {
            None => Err(String::from_str("No audio writer")),
            Some(Ok(())) => Ok(()),
            Some(Err(e)) => Err(rtc_error_message(&e)),
        }
    }

    /// Writes a media chunk (e.g., H.264/VP8/WebM) to the specified MID.
    /// Expects the timestamp in microseconds for high-precision RTP timing.
    /// Whether the engine has a writer and a payload type for `mid`, and
    /// whether the write succeeds, depends on the engine's negotiated session;
    /// on success the engine was handed exactly these bytes for `mid` at this time.
    pub fn write_media(&mut self, mid: Mid, data: Vec<u8>, timestamp: u64) -> (r: Result<(), String>)
        requires
            !old(self)@.rtp_mode,
        ensures
            writes_media(old(self)@, final(self)@, mid, timestamp, data@, r is Ok),
            r matches Err(e) ==> e@ == "No writer for MID"@ || e@ == "No PT for MID"@
                || has_prefix(e@, "Failed to write media: "@),
    {
        // Resolve the payload type from the media writer's parameters
        let pt = match rtc_payload_type(&mut self.rtc, mid) {
            None => return Err(String::from_str("No writer for MID")),
            Some(None) => return Err(String::from_str("No PT for MID")),
            Some(Some(pt)) => pt,
        };
        let now = now();
        match rtc_write_media(&mut self.rtc, mid, pt, now, timestamp, data) {
            None => Err(String::from_str("No writer for MID")),
            Some(Ok(())) => Ok(()),
            Some(Err(e)) => {
                let detail = rtc_error_debug(&e);
                let mut msg = String::from_str("Failed to write media: ");
                msg.append(detail.as_str());
                assert(msg@ == "Failed to write media: "@ + detail@);
                Err(msg)
            },
        }
    }

    /// Routes a video chunk to the video track, if the core has one.
    pub fn write_video_chunk(&mut self, data: Vec<u8>, timestamp: u64) -> (r: Result<(), String>)
        requires
            !old(self)@.rtp_mode,
        ensures
            match old(self)@.video_mid {
                Some(mid) => writes_media(old(self)@, final(self)@, mid, timestamp, data@, r is Ok),
                None => r is Ok && final(self)@ == old(self)@,
            },
            r matches Err(e) ==> e@ == "No writer for MID"@ || e@ == "No PT for MID"@
                || has_prefix(e@, "Failed to write media: "@),
    {
        match self.video_mid {
            Some(mid) => self.write_media(mid, data, timestamp),
            None => Ok(()),
        }
    }

    /// Routes an audio chunk to the audio track, if the core has one.
    pub fn write_audio_chunk(&mut self, data: Vec<u8>, timestamp: u64) -> (r: Result<(), String>)
        requires
            !old(self)@.rtp_mode,
        ensures
            match old(self)@.audio_mid {
                Some(mid) => writes_media(old(self)@, final(self)@, mid, timestamp, data@, r is Ok),
                None => r is Ok && final(self)@ == old(self)@,
            },
    {
        match self.audio_mid {
            Some(mid) => self.write_audio_media(mid, data, timestamp),
            None => Ok(()),
        }
    }

    /// Adds an audio track with the specified direction to the next offer.
    pub fn add_audio(&mut self, direction: Direction)
        ensures
            final(self)@ == (CoreState { pending_audio_direction: Some(direction), ..old(self)@ }),
    {
        self.pending_audio_direction = Some(direction);
    }

    /// Adds a video track with the specified direction to the next offer.
    pub fn add_video(&mut self, direction: Direction)
        ensures
            final(self)@ == (CoreState { pending_video_direction: Some(direction), ..old(self)@ }),
    {
        self.pending_video_direction = Some(direction);
    }

    /// Adds a data channel with the given label to the next offer.
    pub fn add_data_channel(&mut self, label: String)
        ensures
            final(self)@ == (CoreState { pending_channels: old(self)@.pending_channels.push(label), ..old(self)@ }),
    {
        self.pending_channels.push(label);
    }

    /// Hands the engine a local ICE candidate; returns whether the engine
    /// kept it.
    pub fn add_local_candidate(&mut self, cand: Candidate) -> (added: bool)
        ensures
            final(self)@ == old(self)@,
            engine::local_candidates_handed(final(self).rtc) == engine::local_candidates_handed(old(self).rtc).push(
                cand,
            ),
    {
        rtc_add_local_candidate(&mut self.rtc, cand)
    }

    /// Decides whether to buffer an ICE candidate or apply it immediately.
    /// Candidates received before the SDP handshake (Offer/Answer) must be buffered.
    pub fn buffer_or_apply_candidate(&mut self, cand: Candidate)
        ensures
            final(self)@ == after_candidate(old(self)@, cand),
    {
        let should_buffer = matches!(
            self.signaling_handler.state,
            SignalingState::Idle | SignalingState::WaitingForAnswer
        );
        if should_buffer {
            self.pending_remote_candidates.push(cand);
        } else {
            rtc_add_remote_candidate(&mut self.rtc, cand);
        }
    }

    /// Flushes all buffered ICE candidates into the str0m RTC stack.
    fn flush_pending_candidates(&mut self)
        ensures
            final(self)@ == flushed(old(self)@),
    {
        let ghost start = old(self)@;
        let mut pending = Vec::new();
        std::mem::swap(&mut pending, &mut self.pending_remote_candidates);
        // Hand the candidates to the engine in the order they arrived.
        while pending.len() > 0
            invariant
                self@ == (CoreState {
                    pending_remote_candidates: Seq::empty(),
                    engine_candidates: self@.engine_candidates,
                    ..start
                }),
                self@.engine_candidates + pending@ == start.engine_candidates + start.pending_remote_candidates,
            decreases pending.len(),
        {
            let ghost before = pending@;
            let c = pending.remove(0);
            rtc_add_remote_candidate(&mut self.rtc, c);
            proof {
                assert(before =~= seq![c] + pending@);
                assert(self@.engine_candidates + pending@ =~= start.engine_candidates + start.pending_remote_candidates);
            }
        }
        assert(pending@ =~= Seq::<Candidate>::empty());
        assert(self@.engine_candidates =~= start.engine_candidates + start.pending_remote_candidates);
    }

    /// Parses a remote ICE candidate and buffers or applies it.
    pub fn handle_candidate(&mut self, candidate: String) -> (r: Result<(), String>)
        ensures
            accepts_candidate(old(self)@, final(self)@, candidate@, error_text(r)),
    {
        match parse_candidate(candidate.as_str()) {
            Ok(cand) => {
                self.buffer_or_apply_candidate(cand);
                Ok(())
            },
            Err(detail) => {
                let mut msg = String::from_str("Invalid SDP ICE Candidate: ");
                msg.append(detail.as_str());
                Err(msg)
            },
        }
    }
}

/// An Initiator's handshake: from `Idle` with a staged track, a created offer
/// moves it to `WaitingForAnswer` holding a pending offer; a readable answer
/// that the engine accepts uses the offer up, moves it to `TricklingIce` and
/// hands every buffered candidate to the engine; the connection coming up
/// then makes it `Stable`.
pub proof fn lemma_initiator_handshake(
    s0: CoreState,
    s1: CoreState,
    s2: CoreState,
    answer_sdp: Seq<char>,
)
    requires
        s0.role == SignalingRole::Initiator,
        s0.state is Idle,
        s0.pending_audio_direction is Some || s0.pending_video_direction is Some,
        creates_offer(s0, s1, None),
        accepts_answer(s1, s2, answer_sdp, None),
    ensures
        s1.state == SignalingState::WaitingForAnswer,
        s1.pending_offer is Some,
        s2.state == SignalingState::TricklingIce,
        s2.pending_offer is None,
        s2.pending_remote_candidates.len() == 0,
        observe(s2, OutputSummary::Connected).state == SignalingState::Stable,
{
}

/// A Responder's handshake: from `Idle`, an offer that the engine accepts
/// moves it to `TricklingIce`, gives both local tracks a media id and hands
/// every buffered candidate to the engine; the connection coming up then
/// makes it `Stable`.
pub proof fn lemma_responder_handshake(s0: CoreState, s1: CoreState, offer_sdp: Seq<char>)
    requires
        s0.role == SignalingRole::Responder,
        s0.state is Idle,
        accepts_offer(s0, s1, offer_sdp, None),
    ensures
        s1.state == SignalingState::TricklingIce,
        s1.audio_mid is Some,
        s1.video_mid is Some,
        s1.pending_remote_candidates.len() == 0,
        observe(s1, OutputSummary::Connected).state == SignalingState::Stable,
{
}

/// Remote candidates are handed to the engine (`Rtc::add_remote_candidate`)
/// in the order they arrived, none lost and none twice: those received
/// before the handshake wait behind the ones already buffered and are handed
/// over when the buffer is flushed; those received once it is under way are
/// handed over at once.
pub proof fn lemma_candidates_reach_engine_in_order(s: CoreState, cs: Seq<Candidate>)
    ensures
        after_candidates(s, cs).state == s.state,
        buffers_candidates(s.state) ==> flushed(after_candidates(s, cs)).engine_candidates
            == s.engine_candidates + s.pending_remote_candidates + cs,
        !buffers_candidates(s.state) ==> after_candidates(s, cs).engine_candidates
            == s.engine_candidates + cs,
        !buffers_candidates(s.state) ==> after_candidates(s, cs).pending_remote_candidates
            == s.pending_remote_candidates,
    decreases cs.len(),
{
    if cs.len() > 0 {
        let init = cs.drop_last();
        lemma_candidates_reach_engine_in_order(s, init);
        let t = after_candidates(s, init);
        assert(init.push(cs.last()) =~= cs);
        if buffers_candidates(s.state) {
            lemma_pending_after_candidates(s, cs);
            assert(s.engine_candidates + (s.pending_remote_candidates + cs) =~= s.engine_candidates + s.pending_remote_candidates + cs);
        } else {
            assert(t.engine_candidates.push(cs.last()) =~= s.engine_candidates + cs);
        }
    }
}

/// Before the handshake, receiving candidates appends them to the buffer and
/// hands the engine nothing.
proof fn lemma_pending_after_candidates(s: CoreState, cs: Seq<Candidate>)
    requires
        buffers_candidates(s.state),
    ensures
        after_candidates(s, cs).pending_remote_candidates == s.pending_remote_candidates + cs,
        after_candidates(s, cs).engine_candidates == s.engine_candidates,
        after_candidates(s, cs).state == s.state,
    decreases cs.len(),
{
    if cs.len() == 0 {
        assert(s.pending_remote_candidates + cs =~= s.pending_remote_candidates);
    } else {
        lemma_pending_after_candidates(s, cs.drop_last());
        assert(cs.drop_last().push(cs.last()) =~= cs);
        assert((s.pending_remote_candidates + cs.drop_last()).push(cs.last()) =~= s.pending_remote_candidates + cs);
    }
}

/// No operation of the core changes its role.
pub proof fn lemma_role_is_fixed(
    s: CoreState,
    t: CoreState,
    msg: SignalingMessage,
    obs: OutputSummary,
    err: Option<Seq<char>>,
)
    ensures
        creates_offer(s, t, err) ==> t.role == s.role,
        handles_signaling(s, t, msg, err) ==> t.role == s.role,
        observe(s, obs).role == s.role,
{
}

/// A new track's media id replaces the one the core held for that kind,
/// whatever it was: the id the engine reports in `MediaAdded` is the one
/// media is written to and recognised by, and nothing else changes.
pub proof fn lemma_media_added_sets_the_track(s: CoreState, kind: TrackKind, mid: Mid)
    ensures
        kind == TrackKind::Video ==> {
            let t = observe(s, OutputSummary::MediaAdded(kind, mid));
            &&& t.video_mid == Some(mid)
            &&& t.audio_mid == s.audio_mid
            &&& t.state == s.state
            &&& t.pending_remote_candidates == s.pending_remote_candidates
        },
        kind == TrackKind::Audio ==> {
            let t = observe(s, OutputSummary::MediaAdded(kind, mid));
            &&& t.audio_mid == Some(mid)
            &&& t.video_mid == s.video_mid
            &&& t.state == s.state
            &&& t.pending_remote_candidates == s.pending_remote_candidates
        },
{
}

/// Before the SDP handshake is done, that is while `Idle` or while the
/// Initiator waits for its answer, a remote candidate is appended to the
/// buffer and the engine is handed nothing; in `TricklingIce` or `Stable` it
/// is handed to the engine at once and the buffer stays as it was.
pub proof fn lemma_candidate_waits_until_handshake(s: CoreState, c: Candidate)
    ensures
        s.state is Idle || s.state is WaitingForAnswer ==> {
            let t = after_candidate(s, c);
            &&& t.pending_remote_candidates == s.pending_remote_candidates.push(c)
            &&& t.engine_candidates == s.engine_candidates
            &&& t.state == s.state
        },
        s.state is TricklingIce || s.state is Stable ==> {
            let t = after_candidate(s, c);
            &&& t.engine_candidates == s.engine_candidates.push(c)
            &&& t.pending_remote_candidates == s.pending_remote_candidates
            &&& t.state == s.state
        },
{
}

} // verus!
