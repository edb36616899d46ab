use rams::signaling::SignalingRole;

#[test]
fn test_main_logic_entry() {
    // The library links and its items are usable.
    let _role = SignalingRole::Initiator;
    assert!(true);
}
