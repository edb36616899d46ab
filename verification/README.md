# RAMS

A sans-IO WebRTC signaling core, verified with Verus, over the str0m engine.

- `src/signaling`: the JSEP signaling state machine (`SignalingHandler`)
  and the signaling message types, with the laws of the handshake.
- `src/rtc_core`: `RAMSCore`, which drives a str0m `Rtc` through the
  offer/answer exchange, buffers early ICE candidates and tracks media ids;
  `rtc.rs` holds the trusted interface to str0m.
- `src/hybrid`: `HybridSession`, the builder tier's session over str0m.
- `src/quick`: the quick tier's wire messages, STUN response parsing and
  binding requests, and the decisions of the connection loop (message
  dispatch, output routing, the WebSocket outbox and reconnection backoff).
- `src/builder.rs`, `src/media`, `src/rams_core.rs`: the connection
  builder, the chunk reader of the demuxer, and the minimal client.
- `app/`: the program around the library: WebSocket and UDP I/O, JSON,
  the async loops, and the commands of the desktop front end.
