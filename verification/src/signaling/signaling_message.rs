use vstd::prelude::*;

verus! {

/// Wire-compatible representation of WebRTC signaling payloads.
#[derive(Debug, Clone)]
pub enum SignalingMessage {
    /// Session Description Protocol (SDP) Offer.
    Offer { sdp: String },
    /// Session Description Protocol (SDP) Answer.
    Answer { sdp: String },
    /// Interactive Connectivity Establishment (ICE) candidate data.
    Candidate { candidate: String },
}

} // verus!
