use rams::quick::quick_connect::{
    candidate_ip, drain_continues,
    dispatch_wire_message, initialize_local_media, media_label, role_from_joined, route_engine_output, route_output,
    signaling_host_hint, stun_binding_request, stun_server_address, Outbox, OutputRoute,
    QuickEvent, ReconnectBackoff, SignalingLink, WireMessage, MAX_EVENTS_PER_DRAIN,
};
use rams::rtc_core::rtc::{OutputSummary, TrackKind};
use rams::rtc_core::ramscore::RAMSCore;
use rams::signaling::signaling_handler::{SignalingRole, SignalingState};
use rams::signaling::SignalingMessage;

#[test]
fn wire_messages_carry_signaling_payloads_both_ways() {
    let wire = WireMessage::from(SignalingMessage::Offer { sdp: "v=0".to_string() });
    assert!(matches!(&wire, WireMessage::Offer { sdp } if sdp == "v=0"));
    let back = SignalingMessage::try_from(wire).unwrap();
    assert!(matches!(back, SignalingMessage::Offer { sdp } if sdp == "v=0"));

    let wire = WireMessage::from(SignalingMessage::Candidate { candidate: "c".to_string() });
    assert!(matches!(SignalingMessage::try_from(wire), Ok(SignalingMessage::Candidate { .. })));
    assert!(SignalingMessage::try_from(WireMessage::PeerJoined).is_err());
    assert!(SignalingMessage::try_from(WireMessage::Join { room: "r".to_string() }).is_err());
}

#[test]
fn joined_reply_assigns_role_and_stun_servers() {
    let joined = WireMessage::Joined {
        room: "r".to_string(),
        is_initiator: false,
        stun_servers: vec!["stun:stun.example.org:3478".to_string()],
    };
    let (role, servers) = role_from_joined(joined).unwrap();
    assert_eq!(role, SignalingRole::Responder);
    assert_eq!(servers, vec!["stun:stun.example.org:3478".to_string()]);
    assert!(role_from_joined(WireMessage::PeerJoined).is_none());
}

#[test]
fn host_hint_strips_scheme_and_port() {
    assert_eq!(signaling_host_hint("ws://127.0.0.1:8090"), "127.0.0.1");
    assert_eq!(signaling_host_hint("wss://signal.example.org:443/path"), "signal.example.org");
    assert_eq!(signaling_host_hint("ws://ws://host"), "host");
    assert_eq!(signaling_host_hint("plainhost"), "plainhost");
    assert_eq!(stun_server_address("stun:stun.l.google.com:19302"), "stun.l.google.com:19302");
    assert_eq!(stun_server_address("turn:x"), "turn:x");
}

#[test]
fn binding_request_layout() {
    let req = stun_binding_request();
    assert_eq!(&req[0..8], &[0x00, 0x01, 0x00, 0x00, 0x21, 0x12, 0xA4, 0x42]);
    for i in 8..20 {
        assert_eq!(req[i] as usize, i * 7);
    }
}

#[test]
fn backoff_doubles_to_ceiling_and_resets() {
    let mut b = ReconnectBackoff::new();
    let waits: Vec<u64> = (0..7).map(|_| b.failed()).collect();
    assert_eq!(waits, vec![250, 500, 1000, 2000, 4000, 5000, 5000]);
    b.succeeded();
    assert_eq!(b.delay_ms(), 250);
}

#[test]
fn outbox_keeps_order_and_put_back_goes_first() {
    let mut o = Outbox::new();
    o.push(WireMessage::Offer { sdp: "1".to_string() });
    o.push(WireMessage::Candidate { candidate: "2".to_string() });
    let first = o.pop().unwrap();
    assert!(matches!(&first, WireMessage::Offer { sdp } if sdp == "1"));
    o.put_back(first);
    assert_eq!(o.len(), 2);
    assert!(matches!(o.pop(), Some(WireMessage::Offer { .. })));
    assert!(matches!(o.pop(), Some(WireMessage::Candidate { .. })));
    assert!(o.pop().is_none());
}

#[test]
fn peer_joined_makes_only_the_initiator_offer() {
    let mut bob = RAMSCore::new(SignalingRole::Responder);
    assert!(dispatch_wire_message(&mut bob, WireMessage::PeerJoined).unwrap().is_none());
    assert_eq!(bob.signaling_handler.state, SignalingState::Idle);

    let mut alice = RAMSCore::new(SignalingRole::Initiator);
    initialize_local_media(&mut alice);
    let reply = dispatch_wire_message(&mut alice, WireMessage::PeerJoined).unwrap();
    assert!(matches!(reply, Some(WireMessage::Offer { .. })));
    assert_eq!(alice.signaling_handler.state, SignalingState::WaitingForAnswer);

    let join = WireMessage::Join { room: "r".to_string() };
    assert!(dispatch_wire_message(&mut alice, join).unwrap().is_none());
}

#[test]
fn offer_over_the_wire_gets_an_answer() {
    let mut alice = RAMSCore::new(SignalingRole::Initiator);
    let mut bob = RAMSCore::new(SignalingRole::Responder);
    initialize_local_media(&mut alice);
    let offer = dispatch_wire_message(&mut alice, WireMessage::PeerJoined).unwrap().unwrap();
    let answer = dispatch_wire_message(&mut bob, offer).unwrap().unwrap();
    assert!(matches!(answer, WireMessage::Answer { .. }));
    assert!(dispatch_wire_message(&mut alice, answer).unwrap().is_none());
    assert_eq!(alice.signaling_handler.state, SignalingState::TricklingIce);
}

#[test]
fn quick_event_channel_names() {
    assert_eq!(QuickEvent::Connected.channel_name(), "webrtc-connected");
    assert_eq!(QuickEvent::Connecting("x".to_string()).channel_name(), "webrtc-connecting");
    assert_eq!(QuickEvent::IceState("x".to_string()).channel_name(), "webrtc-ice-state");
    assert_eq!(QuickEvent::MediaData("video".to_string(), vec![]).channel_name(), "webrtc-media-data");
    assert_eq!(MAX_EVENTS_PER_DRAIN, 32);
}

#[test]
fn media_is_labelled_by_the_track_it_belongs_to() {

    let mut alice = RAMSCore::new(SignalingRole::Initiator);
    initialize_local_media(&mut alice);
    alice.create_offer().unwrap();
    let video = alice.video_mid.unwrap();
    let audio = alice.audio_mid.unwrap();
    assert_ne!(video, audio);
    assert_eq!(media_label(&alice, video).as_deref(), Some("video"));
    assert_eq!(media_label(&alice, audio).as_deref(), Some("audio"));

    let fresh = RAMSCore::new(SignalingRole::Initiator);
    assert!(media_label(&fresh, video).is_none());
    assert!(matches!(route_output(&fresh, OutputSummary::MediaData(video)), OutputRoute::Skip));
    match route_output(&alice, OutputSummary::MediaData(video)) {
        OutputRoute::EmitMedia(label) => assert_eq!(label, "video"),
        _ => panic!("expected media for the video track"),
    }
}

#[test]
fn outputs_are_routed_by_kind() {

    let core = RAMSCore::new(SignalingRole::Responder);
    let at = std::time::Instant::now();
    assert!(matches!(route_output(&core, OutputSummary::Timeout(at)), OutputRoute::Wake(t) if t == at));
    assert!(matches!(route_output(&core, OutputSummary::Transmit), OutputRoute::Send));
    assert!(matches!(
        route_output(&core, OutputSummary::Connected),
        OutputRoute::Emit(QuickEvent::Connected)
    ));
    match route_output(&core, OutputSummary::IceStateChange("Checking".to_string())) {
        OutputRoute::Emit(QuickEvent::IceState(s)) => assert_eq!(s, "Checking"),
        _ => panic!("expected an ICE state event"),
    }
    assert!(matches!(route_output(&core, OutputSummary::Other), OutputRoute::Skip));
}

#[test]
fn engine_timeouts_are_routed_to_a_wake_up() {
    let core = RAMSCore::new(SignalingRole::Initiator);
    let at = std::time::Instant::now();
    let output = str0m::Output::Timeout(at);
    assert!(matches!(route_engine_output(&core, &output), OutputRoute::Wake(t) if t == at));
}

#[test]
fn connection_coming_up_ends_the_handshake() {

    let mut core = RAMSCore::new(SignalingRole::Responder);
    core.observe_output(OutputSummary::Connected);
    assert_eq!(core.signaling_handler.state, SignalingState::Idle);
    core.signaling_handler.advance(SignalingState::TricklingIce).unwrap();
    core.observe_output(OutputSummary::Connected);
    assert_eq!(core.signaling_handler.state, SignalingState::Stable);

    let mut alice = RAMSCore::new(SignalingRole::Initiator);
    initialize_local_media(&mut alice);
    alice.create_offer().unwrap();
    let mid = alice.video_mid.unwrap();
    core.observe_output(OutputSummary::MediaAdded(TrackKind::Audio, mid));
    assert_eq!(core.audio_mid, Some(mid));
    assert!(core.video_mid.is_none());
}

#[test]
fn link_buffers_while_down_and_resends_in_order() {
    let mut link = SignalingLink::new();
    assert!(link.is_alive());
    let sent = link.outgoing(WireMessage::Offer { sdp: "a".to_string() });
    assert!(matches!(sent, Some(WireMessage::Offer { .. })));

    link.send_failed(WireMessage::Candidate { candidate: "1".to_string() });
    assert!(!link.is_alive());
    assert!(link.outgoing(WireMessage::Candidate { candidate: "2".to_string() }).is_none());

    assert_eq!(link.reconnect_failed(), 250);
    assert_eq!(link.reconnect_failed(), 500);
    link.reconnected();
    assert!(link.is_alive());

    let first = link.next_waiting().unwrap();
    assert!(matches!(&first, WireMessage::Candidate { candidate } if candidate == "1"));
    assert_eq!(link.resend_failed(first), 1000);
    assert!(!link.is_alive());

    link.reconnected();
    let again = link.next_waiting().unwrap();
    assert!(matches!(&again, WireMessage::Candidate { candidate } if candidate == "1"));
    let second = link.next_waiting().unwrap();
    assert!(matches!(&second, WireMessage::Candidate { candidate } if candidate == "2"));
    assert!(link.next_waiting().is_none());
    link.drained();
    assert_eq!(link.reconnect_failed(), 250);
}

#[test]
fn host_candidate_address_falls_back_to_detected_then_loopback() {
    assert_eq!(candidate_ip([192, 168, 1, 7], Some([10, 0, 0, 2])), [192, 168, 1, 7]);
    assert_eq!(candidate_ip([0, 0, 0, 0], Some([10, 0, 0, 2])), [10, 0, 0, 2]);
    assert_eq!(candidate_ip([0, 0, 0, 0], None), [127, 0, 0, 1]);
}

#[test]
fn draining_stops_at_a_wake_up_or_the_cap() {
    let at = std::time::Instant::now();
    assert_eq!(drain_continues(0, &OutputRoute::Send), Some(1));
    assert_eq!(drain_continues(5, &OutputRoute::Wake(at)), None);
    assert_eq!(drain_continues(MAX_EVENTS_PER_DRAIN - 1, &OutputRoute::Skip), None);
}
