//! The looper engine: two sample buffers, a five-state controller, a cursor
//! and a loop length, driven one frame at a time.

use vstd::prelude::*;
use crate::model::LooperView;
use crate::state::{LooperError, LooperState, is_transition_allowed, transition_allowed};

verus! {

/// A sample buffer of `N` samples.
pub type Buffer<S, const N: usize> = [S; N];

/// The samples of an optional buffer.
pub open spec fn buffer_view<S, const N: usize>(buffer: Option<&mut Buffer<S, N>>) -> Option<
    Seq<S>,
> {
    match buffer {
        Some(b) => Some((*b)@),
        None => None,
    }
}

/// The mixer `mix` can be called on any two samples.
pub open spec fn mixes_all<S, M: Fn(S, S) -> S>(mix: M) -> bool {
    forall|a: S, b: S| call_requires(mix, (a, b))
}

/// A looper over samples of type `S` in buffers of `N` samples, which sums
/// two samples with a mixer of type `M`.
///
/// The engine has its buffers to itself for good and never copies one. With
/// a shadow buffer the last overdub can be undone; without one everything
/// else still works.
pub struct Looper<S: 'static, M, const N: usize> {
    primary: &'static mut Buffer<S, N>,
    shadow: Option<&'static mut Buffer<S, N>>,
    mix: M,
    state: LooperState,
    index: usize,
    tail: usize,
    latched: bool,
}

impl<S: Copy + 'static, M: Fn(S, S) -> S, const N: usize> View for Looper<S, M, N> {
    type V = LooperView<S>;

    closed spec fn view(&self) -> LooperView<S> {
        LooperView {
            primary: (*self.primary)@,
            shadow: buffer_view(self.shadow),
            state: self.state,
            index: self.index as nat,
            tail: self.tail as nat,
            latched: self.latched,
        }
    }
}

impl<S: Copy + 'static, M: Fn(S, S) -> S, const N: usize> Looper<S, M, N> {
    /// The mixer the engine was built with.
    pub closed spec fn mixer(&self) -> M {
        self.mix
    }

    /// The engine is in order: its model is, the buffers hold `N` samples,
    /// and the mixer takes any two samples.
    pub open spec fn wf(&self) -> bool {
        &&& self@.wf()
        &&& self@.capacity() == N
        &&& mixes_all(self.mixer())
    }

    /// Builds a cleared engine around `primary` and, for undo, `shadow`.
    ///
    /// Both buffers have the type's length `N`: a shadow buffer of another
    /// length than the primary is a wiring mistake that does not compile.
    pub fn new(
        primary: &'static mut Buffer<S, N>,
        shadow: Option<&'static mut Buffer<S, N>>,
        mix: M,
    ) -> (looper: Self)
        requires
            mixes_all(mix),
        ensures
            looper.wf(),
            looper.mixer() == mix,
            looper@ == LooperView::initial(old(primary)@, buffer_view(shadow)),
    {
        Looper {
            primary,
            shadow,
            mix,
            state: LooperState::Clear,
            index: 0,
            tail: N,
            latched: false,
        }
    }

    /// The controller state.
    pub fn get_state(&self) -> (state: LooperState)
        ensures
            state == self@.state,
    {
        self.state
    }

    /// The cursor.
    pub fn index(&self) -> (index: usize)
        ensures
            index == self@.index,
    {
        self.index
    }

    /// The loop length in force.
    pub fn tail(&self) -> (tail: usize)
        ensures
            tail == self@.tail,
    {
        self.tail
    }

    /// Whether the loop length has been fixed since the last clear.
    pub fn is_latched(&self) -> (latched: bool)
        ensures
            latched == self@.latched,
    {
        self.latched
    }

    /// The buffer that is read and written.
    pub fn primary(&self) -> (buffer: &Buffer<S, N>)
        ensures
            buffer@ == self@.primary,
    {
        &*self.primary
    }

    /// The buffer that keeps the loop as it was before the last overdub.
    pub fn shadow(&self) -> (buffer: Option<&Buffer<S, N>>)
        ensures
            (match buffer {
                Some(b) => self@.shadow == Some(b@),
                None => self@.shadow is None,
            }),
    {
        match &self.shadow {
            Some(shadow) => Some(&**shadow),
            None => None,
        }
    }

    /// Whether a frame can be processed now: always in Stop and Clear, and
    /// in the other states unless the loop is empty.
    pub fn is_ready(&self) -> (ready: bool)
        ensures
            ready == self@.ready(),
    {
        match self.state {
            LooperState::Record | LooperState::Play | LooperState::Undo => self.tail >= 1,
            LooperState::Stop | LooperState::Clear => true,
        }
    }

    /// Takes one input sample and gives the output sample for this frame.
    ///
    /// While recording, the input goes into the loop; on a latched loop the
    /// sample under the cursor is mixed into the output; in Stop and Clear
    /// the input passes through. An engine whose loop is empty cannot run a
    /// frame in Record, Play or Undo: see `is_ready`.
    pub fn process(&mut self, input: S) -> (output: S)
        requires
            old(self).wf(),
            old(self)@.ready(),
        ensures
            final(self).wf(),
            final(self).mixer() == old(self).mixer(),
            old(self)@.frame(old(self).mixer(), input, final(self)@, output),
    {
        let mut output = input;
        if self.state == LooperState::Record {
            if !self.latched {
                self.primary[self.index] = input;
                match &mut self.shadow {
                    Some(shadow) => {
                        shadow[self.index] = input;
                    },
                    None => {},
                }
            } else {
                let sum = (self.mix)(self.primary[self.index], input);
                self.primary[self.index] = sum;
            }
        }
        if self.state == LooperState::Play || self.state == LooperState::Record || self.state
            == LooperState::Undo {
            if self.latched {
                output = (self.mix)(output, self.primary[self.index]);
            }
            self.index = (self.index + 1) % self.tail;
        }
        output
    }

    /// Asks the controller to enter `requested`.
    ///
    /// Record is turned down while recording and Play unless recording;
    /// every other request is accepted. A request that is turned down
    /// changes nothing.
    pub fn update(&mut self, requested: LooperState) -> (result: Result<(), LooperError>)
        requires
            old(self).wf(),
        ensures
            final(self).wf(),
            final(self).mixer() == old(self).mixer(),
            result is Ok <==> transition_allowed(old(self)@.state, requested),
            result is Ok ==> final(self)@ == old(self)@.after_update(requested),
            result matches Err(error) ==> error == LooperError::InvalidStateTransition
                && final(self)@ == old(self)@,
    {
        if !is_transition_allowed(self.state, requested) {
            return Err(LooperError::InvalidStateTransition);
        }
        match requested {
            LooperState::Record => {
                if self.state != LooperState::Undo {
                    self.swap_buf();
                }
                self.state = LooperState::Record;
            },
            LooperState::Play => {
                self.state = LooperState::Play;
                if !self.latched {
                    self.latched = true;
                    if self.index > 0 {
                        self.tail = self.index - 1;
                    }
                }
            },
            LooperState::Undo => {
                if self.state == LooperState::Play {
                    self.state = LooperState::Undo;
                }
                self.swap_buf();
            },
            LooperState::Stop => {
                self.state = LooperState::Stop;
            },
            LooperState::Clear => {
                self.index = 0;
                self.tail = N;
                self.latched = false;
                self.state = LooperState::Clear;
            },
        }
        Ok(())
    }

    /// Exchanges the roles of the two buffers, without touching a sample.
    fn swap_buf(&mut self)
        ensures
            final(self)@ == old(self)@.swapped(),
            final(self).mixer() == old(self).mixer(),
    {
        match &mut self.shadow {
            Some(shadow) => {
                core::mem::swap(&mut self.primary, shadow);
            },
            None => {},
        }
    }
}

} // verus!
