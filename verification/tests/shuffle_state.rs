use rspotify_cli_lib::shuffle_state::ShuffleState;

#[test]
fn shuffle_from_bool() {
    assert_eq!(ShuffleState::from(true), ShuffleState::Enabled);
    assert_eq!(ShuffleState::from(false), ShuffleState::Disabled);
}

#[test]
fn shuffle_to_bool() {
    assert!(bool::from(ShuffleState::Enabled));
    assert!(!bool::from(ShuffleState::Disabled));
}

#[test]
fn shuffle_round_trip() {
    for state in [ShuffleState::Enabled, ShuffleState::Disabled] {
        assert_eq!(ShuffleState::from(bool::from(state)), state);
    }
    for flag in [true, false] {
        assert_eq!(bool::from(ShuffleState::from(flag)), flag);
    }
}
