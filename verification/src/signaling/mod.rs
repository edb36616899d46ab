pub mod protocol;
pub mod signaling_handler;
pub mod signaling_message;

pub use signaling_handler::{SignalingHandler, SignalingRole, SignalingState};
pub use signaling_message::SignalingMessage;
