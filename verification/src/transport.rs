//! The transport target of a session: play or stop.

use vstd::prelude::*;

verus! {

/// The transport state: [`Play`](Self::Play) or [`Stop`](Self::Stop).
///
/// A transport state is a *target*. Paired with the instant from
/// [`SessionState::transport_state_time`](crate::SessionState::transport_state_time)
/// it is either already active (instant in the past) or scheduled (instant in
/// the future).
#[derive(Clone, Copy, Debug, Hash, PartialEq, Eq, Structural)]
pub enum TransportState {
    /// Transport is playing or scheduled to play.
    Play,
    /// Transport is stopped or scheduled to stop.
    Stop,
}

/// The transport state that a playing flag denotes.
pub open spec fn state_of_playing(playing: bool) -> TransportState {
    if playing {
        TransportState::Play
    } else {
        TransportState::Stop
    }
}

impl From<bool> for TransportState {
    /// `true` denotes [`Play`](Self::Play), `false` denotes
    /// [`Stop`](Self::Stop).
    fn from(playing: bool) -> (r: Self) {
        if playing {
            TransportState::Play
        } else {
            TransportState::Stop
        }
    }
}

impl vstd::std_specs::convert::FromSpecImpl<bool> for TransportState {
    open spec fn obeys_from_spec() -> bool {
        true
    }

    open spec fn from_spec(playing: bool) -> TransportState {
        state_of_playing(playing)
    }
}

impl From<TransportState> for bool {
    /// [`Play`](TransportState::Play) denotes `true`,
    /// [`Stop`](TransportState::Stop) denotes `false`.
    fn from(state: TransportState) -> (r: bool) {
        match state {
            TransportState::Play => true,
            TransportState::Stop => false,
        }
    }
}

impl vstd::std_specs::convert::FromSpecImpl<TransportState> for bool {
    open spec fn obeys_from_spec() -> bool {
        true
    }

    open spec fn from_spec(state: TransportState) -> bool {
        state is Play
    }
}

} // verus!
