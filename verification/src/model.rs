//! The mathematical model of the looper: what an engine is, seen from
//! outside, and what each of its two operations does to it.
//!
//! Samples are an arbitrary type `S`. The one thing the engine ever computes
//! with them is the sum of two samples, which it leaves to a mixer supplied
//! by the caller; the model speaks of the mixer only through `call_ensures`,
//! so nothing here assumes that summing is exact, or even deterministic.

use vstd::prelude::*;
use crate::state::{LooperState, cursor_runs};

verus! {

/// An engine as contracts see it: the two buffers by role, the controller
/// state, the cursor, the loop length in force and whether it has been fixed.
pub struct LooperView<S> {
    /// The buffer that is read and written.
    pub primary: Seq<S>,
    /// The buffer that keeps the loop as it was before the last overdub.
    pub shadow: Option<Seq<S>>,
    pub state: LooperState,
    /// The cursor: the position the next frame reads or writes.
    pub index: nat,
    /// The loop length in force.
    pub tail: nat,
    /// Whether the loop length has been fixed since the last clear.
    pub latched: bool,
}

impl<S> LooperView<S> {
    /// The physical length of the buffers, fixed at construction.
    pub open spec fn capacity(self) -> nat {
        self.primary.len()
    }

    /// What holds of every engine between two calls.
    ///
    /// The loop never outgrows the buffers, the cursor stays inside them,
    /// an unlatched loop spans the whole buffer, playback and undo only
    /// happen on a latched loop, and a cleared engine is at rest.
    pub open spec fn wf(self) -> bool {
        &&& self.shadow matches Some(s) ==> s.len() == self.capacity()
        &&& self.tail <= self.capacity()
        &&& (self.index == 0 || self.index < self.capacity())
        &&& (!self.latched ==> self.tail == self.capacity())
        &&& (self.state == LooperState::Play || self.state == LooperState::Undo ==> self.latched)
        &&& (self.state == LooperState::Clear ==> self.index == 0 && !self.latched)
    }

    /// A frame can be processed: where the cursor runs, the loop is not empty.
    ///
    /// A loop is empty when the buffers are, or when it was latched with the
    /// cursor at position 1; such an engine can still be stopped and cleared.
    pub open spec fn ready(self) -> bool {
        cursor_runs(self.state) ==> self.tail >= 1
    }

    /// The engine a constructor hands out for the given buffers.
    pub open spec fn initial(primary: Seq<S>, shadow: Option<Seq<S>>) -> Self {
        LooperView {
            primary,
            shadow,
            state: LooperState::Clear,
            index: 0,
            tail: primary.len(),
            latched: false,
        }
    }

    /// The two buffers with their roles exchanged; unchanged without a shadow.
    pub open spec fn swapped(self) -> Self {
        match self.shadow {
            Some(s) => LooperView { primary: s, shadow: Some(self.primary), ..self },
            None => self,
        }
    }

    /// The loop length that a first Record to Play transition fixes: one less
    /// than the cursor, or the length in force when the cursor is at 0, which
    /// is where it stands when nothing was recorded or the recording ran to
    /// the end of the buffer. With the cursor at 1 the loop is left empty.
    pub open spec fn latch_length(self) -> nat {
        if self.index > 0 {
            (self.index - 1) as nat
        } else {
            self.tail
        }
    }

    /// The engine after an accepted request for `requested`.
    ///
    /// - Record exchanges the buffers and starts recording; coming out of
    ///   Undo it leaves the buffers, which Undo has exchanged already.
    /// - Play starts playback; on a loop that is not latched yet it latches
    ///   the loop at `latch_length`.
    /// - Undo always exchanges the buffers; the state becomes Undo only
    ///   when the engine was playing, and stays as it is otherwise.
    /// - Stop changes nothing but the state.
    /// - Clear puts the cursor at 0, drops the latch and lets the loop span
    ///   the whole buffer again; the samples stay.
    pub open spec fn after_update(self, requested: LooperState) -> Self {
        match requested {
            LooperState::Record => {
                let slot = if self.state != LooperState::Undo {
                    self.swapped()
                } else {
                    self
                };
                LooperView { state: LooperState::Record, ..slot }
            },
            LooperState::Play => {
                if self.latched {
                    LooperView { state: LooperState::Play, ..self }
                } else {
                    LooperView {
                        state: LooperState::Play,
                        latched: true,
                        tail: self.latch_length(),
                        ..self
                    }
                }
            },
            LooperState::Undo => {
                let state = if self.state == LooperState::Play {
                    LooperState::Undo
                } else {
                    self.state
                };
                LooperView { state, ..self.swapped() }
            },
            LooperState::Stop => LooperView { state: LooperState::Stop, ..self },
            LooperState::Clear => LooperView {
                state: LooperState::Clear,
                index: 0,
                tail: self.capacity(),
                latched: false,
                ..self
            },
        }
    }

    /// The frame is part of the first pass: it is stored as it comes.
    pub open spec fn records_fresh(self) -> bool {
        self.state == LooperState::Record && !self.latched
    }

    /// The frame is layered onto the loop that is already there.
    pub open spec fn overdubs(self) -> bool {
        self.state == LooperState::Record && self.latched
    }

    /// The loop sample under the cursor is mixed into the output.
    pub open spec fn plays_back(self) -> bool {
        cursor_runs(self.state) && self.latched
    }

    /// Where the cursor stands after one frame.
    pub open spec fn next_index(self) -> nat {
        if cursor_runs(self.state) {
            (self.index + 1) % self.tail
        } else {
            self.index
        }
    }

    /// The shadow buffer after a frame with input `input`: it mirrors the
    /// first pass and is left alone otherwise.
    pub open spec fn shadow_after(self, input: S) -> Option<Seq<S>> {
        match self.shadow {
            Some(s) if self.records_fresh() => Some(s.update(self.index as int, input)),
            _ => self.shadow,
        }
    }

    /// One frame: the engine `self` takes `input`, becomes `next` and gives
    /// `output`, where `mix` is the mixer that sums two samples.
    ///
    /// The controller state, the loop length and the latch never change.
    /// The first pass stores the input under the cursor in both buffers; an
    /// overdub replaces the primary sample under the cursor by its sum with
    /// the input; every other frame leaves the buffers as they are. On a
    /// latched loop in a running state the output is the sum of the input
    /// and the primary sample under the cursor, as the frame left it;
    /// everywhere else the output is the input.
    pub open spec fn frame<M: Fn(S, S) -> S>(self, mix: M, input: S, next: Self, output: S) -> bool {
        let at = self.index as int;
        &&& next.state == self.state
        &&& next.tail == self.tail
        &&& next.latched == self.latched
        &&& next.index == self.next_index()
        &&& next.shadow == self.shadow_after(input)
        &&& if self.records_fresh() {
            next.primary == self.primary.update(at, input)
        } else if self.overdubs() {
            &&& next.primary == self.primary.update(at, next.primary[at])
            &&& call_ensures(mix, (self.primary[at], input), next.primary[at])
        } else {
            next.primary == self.primary
        }
        &&& if self.plays_back() {
            call_ensures(mix, (input, next.primary[at]), output)
        } else {
            output == input
        }
    }

    /// Several frames in a row: the engine `self` takes the samples of
    /// `inputs`, oldest first, becomes `next` and gives `outputs`, one for
    /// each input.
    pub open spec fn frames<M: Fn(S, S) -> S>(
        self,
        mix: M,
        inputs: Seq<S>,
        next: Self,
        outputs: Seq<S>,
    ) -> bool
        decreases inputs.len(),
    {
        if inputs.len() == 0 {
            next == self && outputs.len() == 0
        } else {
            &&& outputs.len() == inputs.len()
            &&& exists|mid: Self|
                {
                    &&& self.frames(mix, inputs.drop_last(), mid, outputs.drop_last())
                    &&& #[trigger] mid.frame(mix, inputs.last(), next, outputs.last())
                }
        }
    }

    /// Where the cursor stands `k` frames from now in a running state. From
    /// the first move on it is inside the loop.
    pub open spec fn cursor_after(self, k: nat) -> nat {
        if k == 0 {
            self.index
        } else {
            (self.index + k) % self.tail
        }
    }
}

} // verus!
