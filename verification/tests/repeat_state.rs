use rspotify_cli_lib::error::Error;
use rspotify_cli_lib::repeat_state::{ExternalRepeatState, RepeatState};

#[test]
fn cycle() {
    let mut state = RepeatState::Off;
    assert_eq!(state, RepeatState::Off);

    state = state.cycle();
    assert_eq!(state, RepeatState::Context);

    state = state.cycle();
    assert_eq!(state, RepeatState::Track);

    state = state.cycle();
    assert_eq!(state, RepeatState::Off);
}

#[test]
fn convert() {
    let mut state = ExternalRepeatState::Off;
    let converted_state = RepeatState::from(state);
    assert_eq!(converted_state, RepeatState::Off);

    state = ExternalRepeatState::Context;
    let converted_state = RepeatState::from(state);
    assert_eq!(converted_state, RepeatState::Context);

    state = ExternalRepeatState::Track;
    let converted_state = RepeatState::from(state);
    assert_eq!(converted_state, RepeatState::Track);
}

#[test]
fn convert_back() {
    assert_eq!(
        ExternalRepeatState::from(RepeatState::Off),
        ExternalRepeatState::Off
    );
    assert_eq!(
        ExternalRepeatState::from(RepeatState::Context),
        ExternalRepeatState::Context
    );
    assert_eq!(
        ExternalRepeatState::from(RepeatState::Track),
        ExternalRepeatState::Track
    );
}

#[test]
fn round_trip_through_external() {
    for state in [RepeatState::Off, RepeatState::Context, RepeatState::Track] {
        assert_eq!(RepeatState::from(ExternalRepeatState::from(state)), state);
    }
}

#[test]
fn token_forms_of_off() {
    assert_eq!(RepeatState::from_token("  OFF "), Ok(RepeatState::Off));
    assert_eq!(RepeatState::from_token("off"), Ok(RepeatState::Off));
    assert_eq!(RepeatState::from_token("o"), Ok(RepeatState::Off));
}

#[test]
fn token_forms_of_context() {
    assert_eq!(RepeatState::from_token("c"), Ok(RepeatState::Context));
    assert_eq!(RepeatState::from_token("Context"), Ok(RepeatState::Context));
    assert_eq!(
        RepeatState::from_token("\tCONTEXT\n"),
        Ok(RepeatState::Context)
    );
}

#[test]
fn token_forms_of_track() {
    assert_eq!(RepeatState::from_token("t"), Ok(RepeatState::Track));
    assert_eq!(RepeatState::from_token("track"), Ok(RepeatState::Track));
    assert_eq!(RepeatState::from_token(" T "), Ok(RepeatState::Track));
}

#[test]
fn unknown_token_is_rejected() {
    assert_eq!(
        RepeatState::from_token("xyz"),
        Err(Error::InvalidRepeatStateToken)
    );
    assert_eq!(
        RepeatState::from_token(""),
        Err(Error::InvalidRepeatStateToken)
    );
    assert_eq!(
        RepeatState::from_token("   "),
        Err(Error::InvalidRepeatStateToken)
    );
    assert_eq!(
        RepeatState::from_token("of f"),
        Err(Error::InvalidRepeatStateToken)
    );
}
