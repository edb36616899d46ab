//! RAMS: a sans-IO WebRTC signaling core.
//!
//! The library holds the signaling state machine, the wire message types,
//! the STUN response parser and the decision steps of the connection
//! orchestrator. Sockets, WebSockets and the UI live with the caller.
pub mod signaling;
pub mod quick;
pub mod builder;
pub mod rtc_core;
pub mod hybrid;
pub mod media;
pub mod rams_core;
