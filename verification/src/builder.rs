use vstd::prelude::*;
use vstd::string::*;

use crate::signaling::protocol::SignalingMessage;

verus! {

/// A builder for establishing WebRTC connections.
/// This acts as the primary configuration struct for the framework's 'quick' tier.
#[derive(Debug, Default, Clone)]
pub struct RamsBuilder {
    pub audio: bool,
    pub video: bool,
    signaling_url: Option<String>,
}

/// What the room-joining handshake does with one reply from the signaling server.
#[derive(Debug, Clone)]
pub enum JoinStep {
    /// The server confirmed this room; the flag says whether we initiate.
    Joined(bool),
    /// Joining failed with this message.
    Failed(String),
    /// The reply concerns something else: wait for the next one.
    Continue,
}

/// Whether `step` is what the joining handshake does with `reply` while
/// joining `room_key`: a `Joined` reply for this room ends it, an `Error`
/// reply or a closed connection fails it, and anything else is skipped.
pub open spec fn is_join_step(room_key: Seq<char>, reply: Option<SignalingMessage>, step: JoinStep) -> bool {
    match reply {
        Some(SignalingMessage::Joined { room, is_initiator }) => {
            if room@ == room_key {
                step == JoinStep::Joined(is_initiator)
            } else {
                step is Continue
            }
        },
        Some(SignalingMessage::Error { message }) => step matches JoinStep::Failed(m) && m@
            == "Signaling error: "@ + message@,
        None => step matches JoinStep::Failed(m) && m@
            == "Signaling server disconnected while joining."@,
        _ => step is Continue,
    }
}

/// Whether two strings hold the same text.
pub fn same_text(a: &String, b: &str) -> (r: bool)
    ensures
        r == (a@ == b@),
{
    let owned = String::from_str(b);
    a.eq(&owned)
}

/// Decides what the room-joining handshake does with one reply from the
/// signaling server (`None` when the connection closed).
pub fn join_step(room_key: &str, reply: Option<SignalingMessage>) -> (step: JoinStep)
    ensures
        is_join_step(room_key@, reply, step),
{
    match reply {
        Some(SignalingMessage::Joined { room, is_initiator }) => {
            if same_text(&room, room_key) {
                JoinStep::Joined(is_initiator)
            } else {
                JoinStep::Continue
            }
        },
        Some(SignalingMessage::Error { message }) => {
            let mut text = String::from_str("Signaling error: ");
            text.append(message.as_str());
            JoinStep::Failed(text)
        },
        None => JoinStep::Failed(String::from_str("Signaling server disconnected while joining.")),
        _ => JoinStep::Continue,
    }
}

/// The text of an optional string.
pub open spec fn optional_text(s: Option<String>) -> Option<Seq<char>> {
    match s {
        Some(u) => Some(u@),
        None => None,
    }
}

/// The configuration that a `RamsBuilder` holds.
pub struct BuilderConfig {
    pub audio: bool,
    pub video: bool,
    pub signaling_url: Option<Seq<char>>,
}

impl View for RamsBuilder {
    type V = BuilderConfig;

    closed spec fn view(&self) -> BuilderConfig {
        BuilderConfig {
            audio: self.audio,
            video: self.video,
            signaling_url: optional_text(self.signaling_url),
        }
    }
}

impl RamsBuilder {
    /// A builder with video on, audio off and no signaling server.
    pub fn new() -> (b: Self)
        ensures
            !b@.audio,
            b@.video,
            b@.signaling_url is None,
    {
        // Default to video enabled since that's the primary use case
        Self { audio: false, video: true, signaling_url: None }
    }

    /// Enable or disable audio track processing
    pub fn with_audio(self, enabled: bool) -> (b: Self)
        ensures
            b@.audio == enabled,
            b@.video == self@.video,
            b@.signaling_url == self@.signaling_url,
    {
        let mut b = self;
        b.audio = enabled;
        b
    }

    /// Enable or disable video track processing
    pub fn with_video(self, enabled: bool) -> (b: Self)
        ensures
            b@.video == enabled,
            b@.audio == self@.audio,
            b@.signaling_url == self@.signaling_url,
    {
        let mut b = self;
        b.video = enabled;
        b
    }

    /// Sets the URL of the signaling server (e.g. "ws://localhost:8090")
    pub fn with_signaling(self, url: String) -> (b: Self)
        ensures
            b@.signaling_url == Some(url@),
            b@.audio == self@.audio,
            b@.video == self@.video,
    {
        let mut b = self;
        b.signaling_url = Some(url);
        b
    }

    /// The signaling server to join a room through: joining needs one.
    pub fn join_target(&self) -> (r: Result<String, String>)
        ensures
            self@.signaling_url matches Some(u) ==> (r matches Ok(s) && s@ == u),
            self@.signaling_url is None ==> (r matches Err(e) && e@
                == "Signaling URL is required to join a room."@),
    {
        match &self.signaling_url {
            Some(u) => Ok(u.clone()),
            None => Err(String::from_str("Signaling URL is required to join a room.")),
        }
    }
}

} // verus!
