use rams::signaling::signaling_handler::{SignalingHandler, SignalingRole, SignalingState};

#[test]
fn test_initiator_flow() {
    let mut handler = SignalingHandler::new(SignalingRole::Initiator);
    assert_eq!(handler.state, SignalingState::Idle);

    // Idle -> WaitingForAnswer
    handler.advance(SignalingState::WaitingForAnswer).unwrap();
    assert_eq!(handler.state, SignalingState::WaitingForAnswer);

    // WaitingForAnswer -> TricklingIce
    handler.advance(SignalingState::TricklingIce).unwrap();
    assert_eq!(handler.state, SignalingState::TricklingIce);

    // TricklingIce -> Stable
    handler.advance(SignalingState::Stable).unwrap();
    assert!(handler.is_stable());
}

#[test]
fn test_responder_flow() {
    let mut handler = SignalingHandler::new(SignalingRole::Responder);
    assert_eq!(handler.state, SignalingState::Idle);

    // Idle -> TricklingIce (Responder skips WaitingForAnswer)
    handler.advance(SignalingState::TricklingIce).unwrap();
    assert_eq!(handler.state, SignalingState::TricklingIce);

    // TricklingIce -> Stable
    handler.advance(SignalingState::Stable).unwrap();
    assert!(handler.is_stable());
}

#[test]
fn test_invalid_transitions() {
    let mut handler = SignalingHandler::new(SignalingRole::Initiator);

    // Initiator cannot skip WaitingForAnswer
    assert!(handler.advance(SignalingState::TricklingIce).is_err());

    let mut handler = SignalingHandler::new(SignalingRole::Responder);
    // Responder cannot go to WaitingForAnswer
    assert!(handler.advance(SignalingState::WaitingForAnswer).is_err());
}

#[test]
fn test_error_state() {
    let mut handler = SignalingHandler::new(SignalingRole::Initiator);
    handler.set_error("test failure".to_string());
    assert!(handler.is_error());

    if let SignalingState::Error(msg) = handler.state {
        assert_eq!(msg, "test failure");
    } else {
        panic!("Not in error state");
    }
}

#[test]
fn refused_transition_keeps_state_and_explains() {
    let mut handler = SignalingHandler::new(SignalingRole::Initiator);
    let err = handler.advance(SignalingState::Stable).unwrap_err();
    assert_eq!(err, "Invalid transition Idle -> Stable for role Initiator");
    assert_eq!(handler.state, SignalingState::Idle);

    let mut handler = SignalingHandler::new(SignalingRole::Responder);
    handler.set_error("boom \"x\"".to_string());
    let err = handler.advance(SignalingState::Idle).unwrap_err();
    assert_eq!(err, "Invalid transition Error(\"boom \\\"x\\\"\") -> Idle for role Responder");
}

#[test]
fn error_is_reachable_from_every_state() {
    for role in [SignalingRole::Initiator, SignalingRole::Responder] {
        for start in [
            SignalingState::Idle,
            SignalingState::WaitingForAnswer,
            SignalingState::TricklingIce,
            SignalingState::Stable,
            SignalingState::Error("old".to_string()),
        ] {
            let mut handler = SignalingHandler { role, state: start };
            handler.advance(SignalingState::Error("new".to_string())).unwrap();
            assert_eq!(handler.state, SignalingState::Error("new".to_string()));
            assert_eq!(handler.role, role);
        }
    }
}

#[test]
fn stable_is_entered_only_from_trickling_ice() {
    for start in [SignalingState::Idle, SignalingState::WaitingForAnswer, SignalingState::Stable] {
        let mut handler = SignalingHandler { role: SignalingRole::Initiator, state: start.clone() };
        assert!(handler.advance(SignalingState::Stable).is_err());
        assert_eq!(handler.state, start);
    }
}

#[test]
fn error_state_is_left_only_by_reset() {
    let mut handler = SignalingHandler::new(SignalingRole::Initiator);
    handler.set_error("x".to_string());
    assert!(handler.advance(SignalingState::Idle).is_err());
    assert!(handler.advance(SignalingState::WaitingForAnswer).is_err());
    assert!(handler.is_error());
    handler.reset();
    assert_eq!(handler.state, SignalingState::Idle);
    assert!(!handler.is_error());
    assert!(!handler.is_stable());
}
