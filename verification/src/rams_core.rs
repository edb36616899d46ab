use str0m::Rtc;
use vstd::prelude::*;

use crate::rtc_core::rtc::{now, rtc_new, rtc_sdp_api, sdp_add_media, sdp_apply, send_only, TrackKind};

verus! {

/// A minimal client that offers to send audio and video.
pub struct Rams {
    pub rtc_client: Rtc,
    pub state: RamsConnection,
}

/// Why a quick connection failed.
pub enum RamsError {
    IceFailure,
    PortFailure(String),
}

/// The stages of a quick connection.
#[derive(Debug, Clone, Copy, PartialEq, Eq, Structural)]
pub enum RamsConnection {
    New,
    LocalOfferCreated,
    WaitingForAnswer,
    Connecting,
    Connected,
    Failed,
}

impl Rams {
    /// A client with a fresh engine, not yet connecting.
    pub fn new() -> (r: Self)
        ensures
            r.state == RamsConnection::New,
    {
        let client = rtc_new(now());
        Self { rtc_client: client, state: RamsConnection::New }
    }

    /// Stages a send-only audio and video track, creates the offer for them
    /// and waits for the answer; `listener` is the outcome of reserving a
    /// local port, whose failure fails the connection.
    pub fn quick_connect(&mut self, listener: Result<(), String>) -> (r: Result<&mut Self, RamsError>)
        ensures
            match listener {
                Ok(()) => r matches Ok(client) && client.state == RamsConnection::WaitingForAnswer,
                Err(e) => {
                    &&& r matches Err(RamsError::PortFailure(m)) && m@ == e@
                    &&& final(self).state == RamsConnection::WaitingForAnswer
                },
            },
    {
        let mut changes = rtc_sdp_api(&mut self.rtc_client);
        let _mid_audio = sdp_add_media(&mut changes, TrackKind::Audio, send_only());
        let _mid_video = sdp_add_media(&mut changes, TrackKind::Video, send_only());
        // Staged media always needs a negotiation, so an offer comes back.
        assert(crate::rtc_core::rtc::staged_calls(changes)[0] is Media);
        let applied = sdp_apply(changes);
        let (_offer, _pending) = applied.unwrap();
        self.state = RamsConnection::WaitingForAnswer;
        match listener {
            Ok(()) => Ok(self),
            Err(e) => Err(RamsError::PortFailure(e)),
        }
    }
}

} // verus!
