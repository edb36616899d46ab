use vstd::prelude::*;

verus! {

/// Represents messages sent between peers via signaling server
#[derive(Debug, Clone)]
pub enum SignalingMessage {
    /// Request to join a specific room
    Join { room: String },
    /// Notification that the room was successfully joined
    Joined { room: String, is_initiator: bool },
    /// Notification that another peer has joined the room
    PeerJoined,
    /// SDP Offer
    Offer { sdp: String },
    /// SDP Answer
    Answer { sdp: String },
    /// Trickle ICE Candidate
    IceCandidate { candidate: String, sdp_mid: Option<String>, sdp_m_line_index: Option<u16> },
    /// An error received from the signaling server
    Error { message: String },
}

} // verus!
