use daisy_looper::control::{classify, light_for, request_for, ButtonEvent, Indicator};
use daisy_looper::{Looper, LooperState};

const STATES: [LooperState; 5] = [
    LooperState::Record,
    LooperState::Play,
    LooperState::Undo,
    LooperState::Stop,
    LooperState::Clear,
];

const EVENTS: [ButtonEvent; 3] = [ButtonEvent::Tap, ButtonEvent::DoublePress, ButtonEvent::Hold];

fn add(a: f32, b: f32) -> f32 {
    a + b
}

fn pedal() -> Looper<f32, fn(f32, f32) -> f32, 4> {
    let primary: &'static mut [f32; 4] = Box::leak(Box::new([0.0; 4]));
    let shadow: &'static mut [f32; 4] = Box::leak(Box::new([0.0; 4]));
    Looper::new(primary, Some(shadow), add)
}

#[test]
fn hold_wins_over_double_press_and_release() {
    assert_eq!(classify(true, true, true), Some(ButtonEvent::Hold));
    assert_eq!(classify(true, false, true), Some(ButtonEvent::Hold));
    assert_eq!(classify(true, true, false), Some(ButtonEvent::Hold));
    assert_eq!(classify(true, false, false), Some(ButtonEvent::Hold));
    assert_eq!(classify(false, true, true), Some(ButtonEvent::DoublePress));
    assert_eq!(classify(false, true, false), Some(ButtonEvent::DoublePress));
    assert_eq!(classify(false, false, true), Some(ButtonEvent::Tap));
    assert_eq!(classify(false, false, false), None);
}

#[test]
fn hold_clears_when_stopped_and_undoes_when_playing() {
    assert_eq!(request_for(LooperState::Stop, ButtonEvent::Hold), Some(LooperState::Clear));
    assert_eq!(request_for(LooperState::Play, ButtonEvent::Hold), Some(LooperState::Undo));
    assert_eq!(request_for(LooperState::Record, ButtonEvent::Hold), None);
    assert_eq!(request_for(LooperState::Undo, ButtonEvent::Hold), None);
    assert_eq!(request_for(LooperState::Clear, ButtonEvent::Hold), None);
}

#[test]
fn double_press_always_stops() {
    for state in STATES {
        assert_eq!(request_for(state, ButtonEvent::DoublePress), Some(LooperState::Stop));
    }
}

#[test]
fn tap_toggles_between_recording_and_playing() {
    assert_eq!(request_for(LooperState::Record, ButtonEvent::Tap), Some(LooperState::Play));
    for state in [LooperState::Play, LooperState::Stop, LooperState::Clear, LooperState::Undo] {
        assert_eq!(request_for(state, ButtonEvent::Tap), Some(LooperState::Record));
    }
}

#[test]
fn light_follows_the_gesture() {
    for state in STATES {
        assert_eq!(light_for(state, ButtonEvent::Hold), None);
        assert_eq!(light_for(state, ButtonEvent::DoublePress), Some(Indicator::Off));
    }
    assert_eq!(light_for(LooperState::Record, ButtonEvent::Tap), Some(Indicator::On));
    for state in [LooperState::Play, LooperState::Stop, LooperState::Clear, LooperState::Undo] {
        assert_eq!(light_for(state, ButtonEvent::Tap), Some(Indicator::Blinking));
    }
}

#[test]
fn policy_never_makes_a_request_that_is_rejected() {
    for state in STATES {
        for event in EVENTS {
            let mut looper = pedal();
            match state {
                LooperState::Clear => {}
                LooperState::Stop => looper.update(LooperState::Stop).unwrap(),
                LooperState::Record => looper.update(LooperState::Record).unwrap(),
                LooperState::Play => {
                    looper.update(LooperState::Record).unwrap();
                    looper.update(LooperState::Play).unwrap();
                }
                LooperState::Undo => {
                    looper.update(LooperState::Record).unwrap();
                    looper.update(LooperState::Play).unwrap();
                    looper.update(LooperState::Undo).unwrap();
                }
            }
            assert_eq!(looper.get_state(), state);
            if let Some(requested) = request_for(state, event) {
                assert_eq!(looper.update(requested), Ok(()), "{:?} on {:?}", event, state);
            }
        }
    }
}

#[test]
fn one_button_session() {
    let mut looper = pedal();
    assert_eq!(looper.on_button(ButtonEvent::Hold), None);
    assert_eq!(looper.get_state(), LooperState::Clear);

    assert_eq!(looper.on_button(ButtonEvent::Tap), Some(Indicator::Blinking));
    assert_eq!(looper.get_state(), LooperState::Record);
    for input in [1.0, 2.0, 3.0, 4.0] {
        assert_eq!(looper.process(input), input);
    }
    assert_eq!(looper.on_button(ButtonEvent::Hold), None);
    assert_eq!(looper.get_state(), LooperState::Record);

    assert_eq!(looper.on_button(ButtonEvent::Tap), Some(Indicator::On));
    assert_eq!(looper.get_state(), LooperState::Play);
    assert!(looper.is_latched());
    assert_eq!(looper.tail(), 4);
    assert_eq!(looper.process(0.0), 1.0);

    assert_eq!(looper.on_button(ButtonEvent::Tap), Some(Indicator::Blinking));
    assert_eq!(looper.get_state(), LooperState::Record);
    assert_eq!(looper.process(1.0), 4.0);
    assert_eq!(looper.primary(), &[1.0, 3.0, 3.0, 4.0]);

    assert_eq!(looper.on_button(ButtonEvent::Tap), Some(Indicator::On));
    assert_eq!(looper.get_state(), LooperState::Play);
    assert_eq!(looper.process(0.0), 3.0);

    assert_eq!(looper.on_button(ButtonEvent::Hold), None);
    assert_eq!(looper.get_state(), LooperState::Undo);
    assert_eq!(looper.primary(), &[1.0, 2.0, 3.0, 4.0]);
    assert_eq!(looper.process(0.0), 4.0);
    assert_eq!(looper.on_button(ButtonEvent::Hold), None);
    assert_eq!(looper.get_state(), LooperState::Undo);
    assert_eq!(looper.primary(), &[1.0, 2.0, 3.0, 4.0]);

    assert_eq!(looper.on_button(ButtonEvent::DoublePress), Some(Indicator::Off));
    assert_eq!(looper.get_state(), LooperState::Stop);
    assert_eq!(looper.process(0.5), 0.5);
    assert_eq!(looper.index(), 0);

    assert_eq!(looper.on_button(ButtonEvent::Hold), None);
    assert_eq!(looper.get_state(), LooperState::Clear);
    assert_eq!((looper.index(), looper.tail(), looper.is_latched()), (0, 4, false));
}
