//! The shuffle state of a playback session and its boolean form.

use vstd::prelude::*;

verus! {

/// Whether playback order is shuffled.
#[derive(Clone, Copy, Debug, PartialEq, Eq, Structural)]
pub enum ShuffleState {
    /// Playback order is shuffled.
    Enabled,
    /// Playback order is sequential.
    Disabled,
}

/// The shuffle state a flag stands for.
pub open spec fn spec_shuffle_from_bool(val: bool) -> ShuffleState {
    if val {
        ShuffleState::Enabled
    } else {
        ShuffleState::Disabled
    }
}

/// The flag a shuffle state stands for.
pub open spec fn spec_shuffle_to_bool(s: ShuffleState) -> bool {
    match s {
        ShuffleState::Enabled => true,
        ShuffleState::Disabled => false,
    }
}

impl From<bool> for ShuffleState {
    fn from(val: bool) -> (r: Self) {
        if val {
            ShuffleState::Enabled
        } else {
            ShuffleState::Disabled
        }
    }
}

impl vstd::std_specs::convert::FromSpecImpl<bool> for ShuffleState {
    open spec fn obeys_from_spec() -> bool {
        true
    }

    open spec fn from_spec(v: bool) -> ShuffleState {
        spec_shuffle_from_bool(v)
    }
}

impl From<ShuffleState> for bool {
    fn from(val: ShuffleState) -> (r: Self) {
        match val {
            ShuffleState::Enabled => true,
            ShuffleState::Disabled => false,
        }
    }
}

impl vstd::std_specs::convert::FromSpecImpl<ShuffleState> for bool {
    open spec fn obeys_from_spec() -> bool {
        true
    }

    open spec fn from_spec(v: ShuffleState) -> bool {
        spec_shuffle_to_bool(v)
    }
}

/// The two maps between shuffle states and flags invert one another.
pub proof fn lemma_shuffle_round_trip(s: ShuffleState, val: bool)
    ensures
        spec_shuffle_from_bool(spec_shuffle_to_bool(s)) == s,
        spec_shuffle_to_bool(spec_shuffle_from_bool(val)) == val,
{
}

} // verus!
