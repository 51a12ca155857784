use daisy_looper::state::is_transition_allowed;
use daisy_looper::{LooperError, LooperState};

const EVERY_STATE: [LooperState; 5] = [
    LooperState::Record,
    LooperState::Play,
    LooperState::Undo,
    LooperState::Stop,
    LooperState::Clear,
];

#[test]
fn record_is_allowed_from_everywhere_but_record() {
    assert!(!is_transition_allowed(LooperState::Record, LooperState::Record));
    assert!(is_transition_allowed(LooperState::Play, LooperState::Record));
    assert!(is_transition_allowed(LooperState::Undo, LooperState::Record));
    assert!(is_transition_allowed(LooperState::Stop, LooperState::Record));
    assert!(is_transition_allowed(LooperState::Clear, LooperState::Record));
}

#[test]
fn play_is_allowed_from_record_only() {
    assert!(is_transition_allowed(LooperState::Record, LooperState::Play));
    assert!(!is_transition_allowed(LooperState::Play, LooperState::Play));
    assert!(!is_transition_allowed(LooperState::Undo, LooperState::Play));
    assert!(!is_transition_allowed(LooperState::Stop, LooperState::Play));
    assert!(!is_transition_allowed(LooperState::Clear, LooperState::Play));
}

#[test]
fn undo_stop_and_clear_are_always_allowed() {
    for from in EVERY_STATE {
        assert!(is_transition_allowed(from, LooperState::Undo));
        assert!(is_transition_allowed(from, LooperState::Stop));
        assert!(is_transition_allowed(from, LooperState::Clear));
    }
}

#[test]
fn states_and_errors_compare_and_print() {
    assert_eq!(LooperState::Play, LooperState::Play);
    assert_ne!(LooperState::Play, LooperState::Undo);
    assert_eq!(format!("{:?}", LooperState::Clear), "Clear");
    assert_eq!(
        format!("{:?}", LooperError::InvalidStateTransition),
        "InvalidStateTransition"
    );
}
