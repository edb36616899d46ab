use rams::builder::{join_step, JoinStep, RamsBuilder};
use rams::hybrid::session::{on_signaling, track_channel, HybridSession};
use rams::media::demuxer::{ChannelReader, Vp8Packet};
use rams::rams_core::{Rams, RamsConnection, RamsError};
use rams::signaling::protocol::SignalingMessage;

#[test]
fn builder_defaults_and_setters() {
    let b = RamsBuilder::new();
    assert!(!b.audio);
    assert!(b.video);
    assert_eq!(b.join_target().unwrap_err(), "Signaling URL is required to join a room.");

    let b = b.with_audio(true).with_video(false).with_signaling("ws://localhost:8090".to_string());
    assert!(b.audio);
    assert!(!b.video);
    assert_eq!(b.join_target().unwrap(), "ws://localhost:8090");
}

#[test]
fn joining_waits_for_this_room() {
    let other = SignalingMessage::Joined { room: "other".to_string(), is_initiator: true };
    assert!(matches!(join_step("mine", Some(other)), JoinStep::Continue));
    assert!(matches!(join_step("mine", Some(SignalingMessage::PeerJoined)), JoinStep::Continue));

    let mine = SignalingMessage::Joined { room: "mine".to_string(), is_initiator: true };
    assert!(matches!(join_step("mine", Some(mine)), JoinStep::Joined(true)));

    let err = SignalingMessage::Error { message: "full".to_string() };
    match join_step("mine", Some(err)) {
        JoinStep::Failed(m) => assert_eq!(m, "Signaling error: full"),
        _ => panic!("expected a failure"),
    }
    match join_step("mine", None) {
        JoinStep::Failed(m) => assert_eq!(m, "Signaling server disconnected while joining."),
        _ => panic!("expected a failure"),
    }
}

#[test]
fn hybrid_session_ignores_room_notices_and_reports_parse_errors() {
    let mut s = HybridSession::new().unwrap();
    s.add_media_tracks(true, true);
    assert!(s.handle_signaling(SignalingMessage::PeerJoined).unwrap().is_none());
    let err = s.handle_signaling(SignalingMessage::Offer { sdp: "garbage".to_string() }).unwrap_err();
    assert!(err.starts_with("Failed to parse SDP offer: "));
    let err = s
        .handle_signaling(SignalingMessage::IceCandidate {
            candidate: "nope".to_string(),
            sdp_mid: None,
            sdp_m_line_index: None,
        })
        .unwrap_err();
    assert!(err.starts_with("Failed to parse ICE Candidate: "));
    assert!(s.pending_offer.is_none());
}

#[test]
fn staged_offer_carries_the_media_channel() {
    let mut s = HybridSession::new().unwrap();
    let sdp = s.stage_offer().expect("an offer with a data channel");
    assert!(sdp.starts_with("v=0\r\n"));
    assert!(sdp.contains("m=application"));
    assert!(s.pending_offer.is_some());
}

#[test]
fn peer_joining_makes_only_the_initiator_offer() {
    let mut alice = HybridSession::new().unwrap();
    match on_signaling(&mut alice, true, SignalingMessage::PeerJoined) {
        Ok(Some(SignalingMessage::Offer { sdp })) => assert!(sdp.contains("m=application")),
        _ => panic!("expected an offer"),
    }
    assert!(alice.pending_offer.is_some());

    let mut bob = HybridSession::new().unwrap();
    assert!(matches!(on_signaling(&mut bob, false, SignalingMessage::PeerJoined), Ok(None)));
    assert!(bob.pending_offer.is_none());
}

#[test]
fn offer_through_the_loop_step_is_answered() {
    let mut alice = HybridSession::new().unwrap();
    let offer = on_signaling(&mut alice, true, SignalingMessage::PeerJoined).unwrap().unwrap();
    let mut bob = HybridSession::new().unwrap();
    match on_signaling(&mut bob, false, offer) {
        Ok(Some(SignalingMessage::Answer { sdp })) => {
            let r = on_signaling(&mut alice, true, SignalingMessage::Answer { sdp });
            assert!(matches!(r, Ok(None)));
            assert!(alice.pending_offer.is_none());
        }
        _ => panic!("expected an answer"),
    }
    let err = on_signaling(&mut bob, false, SignalingMessage::Answer { sdp: "v=0".to_string() });
    assert!(err.is_err());
}

#[test]
fn channel_is_tracked_across_outputs() {
    let at = std::time::Instant::now();
    let kept = track_channel(None, &str0m::Output::Timeout(at));
    assert!(kept.is_none());
}

#[test]
fn rams_quick_connect_waits_for_answer() {
    let mut r = Rams::new();
    assert_eq!(r.state, RamsConnection::New);
    assert!(r.quick_connect(Ok(())).is_ok());
    assert_eq!(r.state, RamsConnection::WaitingForAnswer);

    let mut r = Rams::new();
    match r.quick_connect(Err("in use".to_string())) {
        Err(RamsError::PortFailure(m)) => assert_eq!(m, "in use"),
        _ => panic!("expected a port failure"),
    }
    assert_eq!(r.state, RamsConnection::WaitingForAnswer);
}

#[test]
fn vp8_packet_takes_the_bytes_read() {
    let buf = [9u8, 8, 7, 6];
    let p = Vp8Packet::from_read(&buf, 3);
    assert_eq!(p.data, vec![9, 8, 7]);
    assert_eq!(p.timestamp_ms, 0);
}

#[test]
fn channel_reader_hands_out_chunks_in_order() {
    let (tx, rx) = std::sync::mpsc::channel();
    tx.send(vec![1u8, 2, 3, 4, 5]).unwrap();
    drop(tx);
    let mut reader = ChannelReader { rx, buffer: Vec::new() };
    let mut buf = [0u8; 2];
    assert_eq!(reader.read(&mut buf).unwrap(), 2);
    assert_eq!(buf, [1, 2]);
    assert_eq!(reader.read(&mut buf).unwrap(), 2);
    assert_eq!(buf, [3, 4]);
    let mut big = [0u8; 4];
    assert_eq!(reader.read(&mut big).unwrap(), 1);
    assert_eq!(big, [5, 0, 0, 0]);
    assert_eq!(reader.read(&mut big).unwrap(), 0);
}

#[test]
fn advertised_tracks_go_into_the_staged_offer() {
    let mut s = HybridSession::new().unwrap();
    s.add_media_tracks(true, true);
    assert!(s.staged_audio && s.staged_video);
    let sdp = s.stage_offer().expect("an offer with tracks");
    assert!(sdp.contains("m=audio"));
    assert!(sdp.contains("m=video"));
    assert!(sdp.contains("m=application"));
    assert!(!s.staged_audio && !s.staged_video);
}
