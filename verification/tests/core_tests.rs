use rams::rtc_core::ramscore::RAMSCore;
use rams::signaling::signaling_handler::{SignalingRole, SignalingState};
use rams::signaling::SignalingMessage;
use str0m::media::Direction;

#[test]
fn test_core_initialization() {
    let core = RAMSCore::new(SignalingRole::Initiator);
    assert_eq!(core.signaling_handler.role, SignalingRole::Initiator);
    assert_eq!(core.signaling_handler.state, SignalingState::Idle);
    assert!(core.video_mid.is_none());
    assert!(core.audio_mid.is_none());
}

#[test]
fn test_media_staging() {
    let mut core = RAMSCore::new(SignalingRole::Initiator);

    core.add_video(Direction::SendRecv);
    assert_eq!(core.pending_video_direction, Some(Direction::SendRecv));

    core.add_audio(Direction::SendRecv);
    assert_eq!(core.pending_audio_direction, Some(Direction::SendRecv));
}

#[test]
fn test_offer_creation_fails_for_responder() {
    let mut core = RAMSCore::new(SignalingRole::Responder);
    core.add_video(Direction::SendRecv);
    let result = core.create_offer();
    assert!(result.is_err());
    assert_eq!(result.err().unwrap(), "Only the Initiator can create an offer");
}

#[test]
fn test_ice_candidate_buffering() {
    let mut core = RAMSCore::new(SignalingRole::Initiator);

    // In Idle state, candidates should be buffered
    let cand = str0m::Candidate::host("127.0.0.1:1234".parse().unwrap(), "udp").unwrap();
    core.buffer_or_apply_candidate(cand.clone());

    assert_eq!(core.pending_remote_candidates.len(), 1);
    assert_eq!(core.pending_remote_candidates[0], cand);
}

#[test]
fn test_handle_candidate_invalid_format() {
    let mut core = RAMSCore::new(SignalingRole::Initiator);
    // Malformed SDP candidate string
    let result = core.handle_candidate("not a candidate".to_string());
    assert!(result.is_err());
}

#[test]
fn invalid_candidate_error_names_the_cause_and_changes_nothing() {
    let mut core = RAMSCore::new(SignalingRole::Initiator);
    let err = core.handle_candidate("not a candidate".to_string()).unwrap_err();
    assert!(err.starts_with("Invalid SDP ICE Candidate: "));
    assert!(core.pending_remote_candidates.is_empty());
}

#[test]
fn offer_without_staged_tracks_is_refused() {
    let mut core = RAMSCore::new(SignalingRole::Initiator);
    let err = core.create_offer().unwrap_err();
    assert_eq!(
        err,
        "No local changes to negotiate (staged_changes=0, pending_audio=None, pending_video=None)"
    );
    assert_eq!(core.signaling_handler.state, SignalingState::Idle);
    assert!(core.pending_offer.is_none());
}

#[test]
fn full_handshake_between_two_cores() {
    let mut alice = RAMSCore::new(SignalingRole::Initiator);
    let mut bob = RAMSCore::new(SignalingRole::Responder);

    // A candidate that reaches Bob before the offer waits for the handshake.
    let early = str0m::Candidate::host("127.0.0.1:40000".parse().unwrap(), "udp").unwrap();
    bob.handle_candidate(early.to_sdp_string()).unwrap();
    assert_eq!(bob.pending_remote_candidates.len(), 1);

    alice.add_audio(Direction::SendRecv);
    alice.add_video(Direction::SendRecv);
    let offer = alice.create_offer().unwrap();
    assert!(matches!(offer, SignalingMessage::Offer { .. }));
    assert_eq!(alice.signaling_handler.state, SignalingState::WaitingForAnswer);
    assert!(alice.pending_offer.is_some());
    assert!(alice.pending_audio_direction.is_none());
    assert!(alice.pending_video_direction.is_none());
    assert!(alice.audio_mid.is_some());
    assert!(alice.video_mid.is_some());

    let answer = bob.handle_signaling(offer).unwrap().unwrap();
    assert!(matches!(answer, SignalingMessage::Answer { .. }));
    assert_eq!(bob.signaling_handler.state, SignalingState::TricklingIce);
    assert!(bob.pending_remote_candidates.is_empty());

    assert!(alice.handle_signaling(answer).unwrap().is_none());
    assert_eq!(alice.signaling_handler.state, SignalingState::TricklingIce);
    assert!(alice.pending_offer.is_none());

    // Once the handshake is under way, candidates are applied directly.
    let late = str0m::Candidate::host("127.0.0.1:40001".parse().unwrap(), "udp").unwrap();
    alice.buffer_or_apply_candidate(late);
    assert!(alice.pending_remote_candidates.is_empty());
}

#[test]
fn roles_guard_offers_and_answers() {
    let mut alice = RAMSCore::new(SignalingRole::Initiator);
    let err = alice.handle_signaling(SignalingMessage::Offer { sdp: "v=0".to_string() }).unwrap_err();
    assert_eq!(err, "Initiator cannot accept an Offer");

    let mut bob = RAMSCore::new(SignalingRole::Responder);
    let err = bob.handle_signaling(SignalingMessage::Answer { sdp: "v=0".to_string() }).unwrap_err();
    assert_eq!(err, "Responder cannot accept an Answer");
    assert_eq!(bob.signaling_handler.state, SignalingState::Idle);
}

#[test]
fn answer_without_pending_offer_is_refused() {
    let mut alice = RAMSCore::new(SignalingRole::Initiator);
    let err = alice.handle_signaling(SignalingMessage::Answer { sdp: "v=0".to_string() }).unwrap_err();
    assert_eq!(err, "No pending offer to apply answer to");
    assert_eq!(alice.signaling_handler.state, SignalingState::Idle);
}

#[test]
fn unreadable_offer_leaves_responder_idle() {
    let mut bob = RAMSCore::new(SignalingRole::Responder);
    let err = bob.handle_signaling(SignalingMessage::Offer { sdp: "garbage".to_string() }).unwrap_err();
    assert!(err.starts_with("Invalid SDP Offer: "));
    assert_eq!(bob.signaling_handler.state, SignalingState::Idle);

    // No answer was made, so a later offer is still read.
    let err = bob.handle_signaling(SignalingMessage::Offer { sdp: "garbage".to_string() }).unwrap_err();
    assert!(err.starts_with("Invalid SDP Offer: "));
    assert_eq!(bob.signaling_handler.state, SignalingState::Idle);
}

#[test]
fn chunks_without_tracks_are_dropped() {
    let mut core = RAMSCore::new(SignalingRole::Initiator);
    assert!(core.write_video_chunk(vec![1, 2, 3], 0).is_ok());
    assert!(core.write_audio_chunk(vec![1, 2, 3], 0).is_ok());
}

#[test]
fn local_candidates_go_to_the_engine() {
    let mut core = RAMSCore::new(SignalingRole::Initiator);
    let cand = str0m::Candidate::from_sdp_string("candidate:1 1 udp 2130706431 127.0.0.1 5000 typ host").unwrap();
    assert!(core.add_local_candidate(cand));
    assert_eq!(core.signaling_handler.state, SignalingState::Idle);
}

#[test]
fn created_offer_is_sdp_text() {
    let mut core = RAMSCore::new(SignalingRole::Initiator);
    core.add_video(Direction::SendRecv);
    match core.create_offer() {
        Ok(SignalingMessage::Offer { sdp }) => assert!(sdp.starts_with("v=0\r\n")),
        _ => panic!("expected an offer"),
    }
}

#[test]
fn data_channel_goes_into_the_offer() {
    let mut core = RAMSCore::new(SignalingRole::Initiator);
    core.add_data_channel("chat".to_string());
    assert_eq!(core.pending_channels.len(), 1);
    match core.create_offer() {
        Ok(SignalingMessage::Offer { sdp }) => assert!(sdp.contains("m=application")),
        other => panic!("expected an offer, got {:?}", other.map(|_| ())),
    }
    assert!(core.pending_channels.is_empty());
    assert_eq!(core.signaling_handler.state, SignalingState::WaitingForAnswer);
}
