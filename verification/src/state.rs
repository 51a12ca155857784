//! The five controller states and the rule that says which requests are legal.

use vstd::prelude::*;

verus! {

/// What the looper is doing right now.
#[derive(Debug, Clone, Copy, PartialEq, Eq, Structural)]
pub enum LooperState {
    Record,
    Play,
    Undo,
    Stop,
    Clear,
}

/// Why a request to change state was turned down.
#[derive(Debug, Clone, Copy, PartialEq, Eq, Structural)]
pub enum LooperError {
    InvalidStateTransition,
}

/// Whether a looper in state `from` accepts a request for state `to`.
///
/// Recording can start from anywhere but Record itself, playback only
/// follows recording, and Undo, Stop and Clear are always accepted.
pub open spec fn transition_allowed(from: LooperState, to: LooperState) -> bool {
    match to {
        LooperState::Record => from != LooperState::Record,
        LooperState::Play => from == LooperState::Record,
        LooperState::Undo | LooperState::Stop | LooperState::Clear => true,
    }
}

/// Whether the cursor moves on every frame processed in `state`.
pub open spec fn cursor_runs(state: LooperState) -> bool {
    state == LooperState::Record || state == LooperState::Play || state == LooperState::Undo
}

/// Decides whether a looper in state `from` accepts a request for state `to`.
pub fn is_transition_allowed(from: LooperState, to: LooperState) -> (allowed: bool)
    ensures
        allowed == transition_allowed(from, to),
{
    match to {
        LooperState::Record => from != LooperState::Record,
        LooperState::Play => from == LooperState::Record,
        LooperState::Undo | LooperState::Stop | LooperState::Clear => true,
    }
}

} // verus!
