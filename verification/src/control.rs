//! The one-button policy: what each gesture on the switch asks of the
//! looper, and what the status light should show afterwards.

use vstd::prelude::*;
use crate::engine::Looper;
use crate::state::{LooperState, transition_allowed};

verus! {

/// A gesture on the switch, as a debouncing input driver tells them apart.
#[derive(Debug, Clone, Copy, PartialEq, Eq, Structural)]
pub enum ButtonEvent {
    /// A short press, counted when the switch is released.
    Tap,
    /// Two presses in quick succession.
    DoublePress,
    /// A press held down.
    Hold,
}

/// What the status light shows.
#[derive(Debug, Clone, Copy, PartialEq, Eq, Structural)]
pub enum Indicator {
    /// Dark: the looper is stopped.
    Off,
    /// Blinking: the looper is recording.
    Blinking,
    /// Lit: the looper is playing.
    On,
}

/// The gesture that the three flags of the switch stand for. A hold wins
/// over a double press, and a double press over a release.
pub open spec fn gesture(held: bool, double: bool, released: bool) -> Option<ButtonEvent> {
    if held {
        Some(ButtonEvent::Hold)
    } else if double {
        Some(ButtonEvent::DoublePress)
    } else if released {
        Some(ButtonEvent::Tap)
    } else {
        None
    }
}

/// The state a gesture asks for, if any, when the looper is in `current`.
///
/// A hold clears a stopped looper and undoes on a playing one; a double
/// press stops; a tap ends a recording with playback and starts a
/// recording from everywhere else.
pub open spec fn requested_state(current: LooperState, event: ButtonEvent) -> Option<LooperState> {
    match event {
        ButtonEvent::Hold => match current {
            LooperState::Stop => Some(LooperState::Clear),
            LooperState::Play => Some(LooperState::Undo),
            _ => None,
        },
        ButtonEvent::DoublePress => Some(LooperState::Stop),
        ButtonEvent::Tap => match current {
            LooperState::Record => Some(LooperState::Play),
            _ => Some(LooperState::Record),
        },
    }
}

/// What the light changes to, if it changes, on a gesture made while the
/// looper is in `current`.
pub open spec fn indicator_for(current: LooperState, event: ButtonEvent) -> Option<Indicator> {
    match event {
        ButtonEvent::Hold => None,
        ButtonEvent::DoublePress => Some(Indicator::Off),
        ButtonEvent::Tap => match current {
            LooperState::Record => Some(Indicator::On),
            _ => Some(Indicator::Blinking),
        },
    }
}

/// The policy never asks for a transition that the controller turns down.
pub proof fn law_policy_requests_are_accepted(current: LooperState, event: ButtonEvent)
    ensures
        requested_state(current, event) matches Some(to) ==> transition_allowed(current, to),
{
}

/// Tells the gesture from the three flags of the switch.
pub fn classify(held: bool, double: bool, released: bool) -> (event: Option<ButtonEvent>)
    ensures
        event == gesture(held, double, released),
{
    if held {
        Some(ButtonEvent::Hold)
    } else if double {
        Some(ButtonEvent::DoublePress)
    } else if released {
        Some(ButtonEvent::Tap)
    } else {
        None
    }
}

/// The state that `event` asks for when the looper is in `current`.
pub fn request_for(current: LooperState, event: ButtonEvent) -> (requested: Option<LooperState>)
    ensures
        requested == requested_state(current, event),
{
    match event {
        ButtonEvent::Hold => match current {
            LooperState::Stop => Some(LooperState::Clear),
            LooperState::Play => Some(LooperState::Undo),
            _ => None,
        },
        ButtonEvent::DoublePress => Some(LooperState::Stop),
        ButtonEvent::Tap => match current {
            LooperState::Record => Some(LooperState::Play),
            _ => Some(LooperState::Record),
        },
    }
}

/// What the light changes to on `event` when the looper is in `current`.
pub fn light_for(current: LooperState, event: ButtonEvent) -> (light: Option<Indicator>)
    ensures
        light == indicator_for(current, event),
{
    match event {
        ButtonEvent::Hold => None,
        ButtonEvent::DoublePress => Some(Indicator::Off),
        ButtonEvent::Tap => match current {
            LooperState::Record => Some(Indicator::On),
            _ => Some(Indicator::Blinking),
        },
    }
}

impl<S: Copy + 'static, M: Fn(S, S) -> S, const N: usize> Looper<S, M, N> {
    /// Applies the one-button policy to the engine and says what the light
    /// changes to. The request the policy makes is always accepted.
    pub fn on_button(&mut self, event: ButtonEvent) -> (light: Option<Indicator>)
        requires
            old(self).wf(),
        ensures
            final(self).wf(),
            final(self).mixer() == old(self).mixer(),
            final(self)@ == (match requested_state(old(self)@.state, event) {
                Some(to) => old(self)@.after_update(to),
                None => old(self)@,
            }),
            light == indicator_for(old(self)@.state, event),
    {
        let current = self.get_state();
        match request_for(current, event) {
            Some(to) => {
                let _ = self.update(to);
            },
            None => {},
        }
        light_for(current, event)
    }
}

} // verus!
