//! What holds of the looper whatever it is fed: laws about one request and
//! about one frame, each proved from the definitions in `model` and `state`.
//! Laws about several frames in a row are in `runs`.

use vstd::prelude::*;
use crate::model::LooperView;
use crate::state::{LooperState, cursor_runs, transition_allowed};

verus! {

/// Exactly two kinds of request are turned down: Record while recording,
/// and Play while not recording.
pub proof fn law_rejected_requests(from: LooperState, to: LooperState)
    ensures
        !transition_allowed(from, to) <==> (to == LooperState::Record && from
            == LooperState::Record) || (to == LooperState::Play && from != LooperState::Record),
{
}

/// Every accepted request leaves a well-formed engine well-formed, and
/// never changes the length of the buffers.
pub proof fn law_update_keeps_wf<S>(v: LooperView<S>, requested: LooperState)
    requires
        v.wf(),
    ensures
        v.after_update(requested).wf(),
        v.after_update(requested).capacity() == v.capacity(),
{
}

/// Clear is accepted in every state; it puts the cursor at 0, sets the loop
/// length to the buffer length, drops the latch and keeps both buffers.
pub proof fn law_clear_resets<S>(v: LooperView<S>)
    ensures
        transition_allowed(v.state, LooperState::Clear),
        v.after_update(LooperState::Clear).state == LooperState::Clear,
        v.after_update(LooperState::Clear).index == 0,
        v.after_update(LooperState::Clear).tail == v.capacity(),
        !v.after_update(LooperState::Clear).latched,
        v.after_update(LooperState::Clear).primary == v.primary,
        v.after_update(LooperState::Clear).shadow == v.shadow,
{
}

/// Stop is accepted in every state and changes nothing but the state.
pub proof fn law_stop_only_stops<S>(v: LooperView<S>)
    ensures
        transition_allowed(v.state, LooperState::Stop),
        v.after_update(LooperState::Stop) == (LooperView { state: LooperState::Stop, ..v }),
{
}

/// The first playback after a clear latches the loop: its length becomes
/// one less than the cursor, or stays the buffer length when the cursor is
/// at 0. The cursor and the buffers are left as they are.
pub proof fn law_first_playback_latches<S>(v: LooperView<S>)
    requires
        v.wf(),
        v.state == LooperState::Record,
        !v.latched,
    ensures
        transition_allowed(v.state, LooperState::Play),
        v.after_update(LooperState::Play).state == LooperState::Play,
        v.after_update(LooperState::Play).latched,
        v.index == 0 ==> v.after_update(LooperState::Play).tail == v.capacity(),
        v.index > 0 ==> v.after_update(LooperState::Play).tail == v.index - 1,
        v.after_update(LooperState::Play).index == v.index,
        v.after_update(LooperState::Play).primary == v.primary,
        v.after_update(LooperState::Play).shadow == v.shadow,
{
}

/// Once the loop is latched, no request but Clear changes its length or
/// drops the latch.
pub proof fn law_latched_length_is_fixed<S>(v: LooperView<S>, requested: LooperState)
    requires
        v.latched,
        requested != LooperState::Clear,
    ensures
        v.after_update(requested).latched,
        v.after_update(requested).tail == v.tail,
{
}

/// A frame leaves a well-formed engine well-formed, keeps the length of the
/// buffers, and where the cursor runs it ends inside the loop.
pub proof fn law_frame_keeps_wf<S, M: Fn(S, S) -> S>(
    pre: LooperView<S>,
    mix: M,
    input: S,
    post: LooperView<S>,
    output: S,
)
    requires
        pre.wf(),
        pre.ready(),
        pre.frame(mix, input, post, output),
    ensures
        post.wf(),
        post.ready(),
        post.capacity() == pre.capacity(),
        cursor_runs(pre.state) ==> post.index < post.tail,
{
    if cursor_runs(pre.state) {
        assert(post.index < pre.tail) by (nonlinear_arith)
            requires
                post.index == (pre.index + 1) % pre.tail,
                pre.tail >= 1,
        ;
    }
}

/// A mixer that gives one sum for each pair of samples.
pub open spec fn mixes_exactly<S, M: Fn(S, S) -> S>(mix: M) -> bool {
    forall|a: S, b: S, x: S, y: S|
        call_ensures(mix, (a, b), x) && call_ensures(mix, (a, b), y) ==> x == y
}

/// With a mixer that gives one sum for each pair of samples, a frame has
/// one outcome: the engine and the input determine the engine afterwards
/// and the output.
pub proof fn law_frame_has_one_outcome<S, M: Fn(S, S) -> S>(
    pre: LooperView<S>,
    mix: M,
    input: S,
    post1: LooperView<S>,
    output1: S,
    post2: LooperView<S>,
    output2: S,
)
    requires
        pre.wf(),
        pre.ready(),
        mixes_exactly(mix),
        pre.frame(mix, input, post1, output1),
        pre.frame(mix, input, post2, output2),
    ensures
        post1 == post2,
        output1 == output2,
{
    assert(post1.primary =~= post2.primary);
}

/// On the first pass a frame overwrites the primary sample under the
/// cursor with the input, whatever was there, mirrors it into the shadow
/// buffer if there is one, touches no other sample and passes the input
/// through.
pub proof fn law_first_pass_overwrites<S, M: Fn(S, S) -> S>(
    pre: LooperView<S>,
    mix: M,
    input: S,
    post: LooperView<S>,
    output: S,
)
    requires
        pre.wf(),
        pre.ready(),
        pre.frame(mix, input, post, output),
        pre.state == LooperState::Record,
        !pre.latched,
    ensures
        pre.index < pre.capacity(),
        post.primary[pre.index as int] == input,
        forall|i: int| 0 <= i < pre.capacity() && i != pre.index ==> post.primary[i] == pre.primary[i],
        pre.shadow is None ==> post.shadow is None,
        pre.shadow matches Some(before) ==> ({
            &&& post.shadow matches Some(after)
            &&& after[pre.index as int] == input
            &&& forall|i: int| 0 <= i < pre.capacity() && i != pre.index ==> after[i] == before[i]
        }),
        output == input,
{
}

/// During an overdub a frame replaces the primary sample under the cursor
/// by its sum with the input, touches no other primary sample and leaves
/// the shadow buffer alone; the output is the sum of the input and the new
/// primary sample.
pub proof fn law_overdub_accumulates<S, M: Fn(S, S) -> S>(
    pre: LooperView<S>,
    mix: M,
    input: S,
    post: LooperView<S>,
    output: S,
)
    requires
        pre.wf(),
        pre.ready(),
        pre.frame(mix, input, post, output),
        pre.state == LooperState::Record,
        pre.latched,
    ensures
        pre.index < pre.capacity(),
        call_ensures(mix, (pre.primary[pre.index as int], input), post.primary[pre.index as int]),
        forall|i: int| 0 <= i < pre.capacity() && i != pre.index ==> post.primary[i] == pre.primary[i],
        post.shadow == pre.shadow,
        call_ensures(mix, (input, post.primary[pre.index as int]), output),
{
}

/// In Play and in Undo a frame writes to neither buffer: it reads the
/// primary sample under the cursor into the output and moves the cursor.
pub proof fn law_playback_never_writes<S, M: Fn(S, S) -> S>(
    pre: LooperView<S>,
    mix: M,
    input: S,
    post: LooperView<S>,
    output: S,
)
    requires
        pre.wf(),
        pre.ready(),
        pre.frame(mix, input, post, output),
        pre.state == LooperState::Play || pre.state == LooperState::Undo,
    ensures
        post.primary == pre.primary,
        post.shadow == pre.shadow,
        call_ensures(mix, (input, pre.primary[pre.index as int]), output),
        post.index == (pre.index + 1) % pre.tail,
{
}

/// In Stop and in Clear a frame is a pass-through: the output is the input
/// and nothing in the engine changes.
pub proof fn law_idle_passes_through<S, M: Fn(S, S) -> S>(
    pre: LooperView<S>,
    mix: M,
    input: S,
    post: LooperView<S>,
    output: S,
)
    requires
        pre.frame(mix, input, post, output),
        pre.state == LooperState::Stop || pre.state == LooperState::Clear,
    ensures
        output == input,
        post == pre,
{
}

/// In Record, Play and Undo every frame moves the cursor by exactly one
/// position modulo the loop length; in Stop and Clear the cursor stands
/// still. No frame changes the state, the loop length or the latch.
pub proof fn law_cursor_advance<S, M: Fn(S, S) -> S>(
    pre: LooperView<S>,
    mix: M,
    input: S,
    post: LooperView<S>,
    output: S,
)
    requires
        pre.frame(mix, input, post, output),
    ensures
        cursor_runs(pre.state) ==> post.index == (pre.index + 1) % pre.tail,
        !cursor_runs(pre.state) ==> post.index == pre.index,
        post.state == pre.state,
        post.tail == pre.tail,
        post.latched == pre.latched,
{
}

/// Exchanging the roles of the buffers twice gives back the engine as it
/// was.
pub proof fn law_swap_twice_restores<S>(v: LooperView<S>)
    ensures
        v.swapped().swapped() == v,
{
}

/// Starting a recording, playing it, undoing and recording again exchanges
/// the buffers twice: each buffer is back in the role it had at the start.
pub proof fn law_record_play_undo_record_restores_roles<S>(v: LooperView<S>)
    requires
        v.state == LooperState::Stop || v.state == LooperState::Clear || v.state
            == LooperState::Play,
    ensures
        ({
            let recording = v.after_update(LooperState::Record);
            let playing = recording.after_update(LooperState::Play);
            let undone = playing.after_update(LooperState::Undo);
            let again = undone.after_update(LooperState::Record);
            &&& transition_allowed(v.state, LooperState::Record)
            &&& transition_allowed(recording.state, LooperState::Play)
            &&& transition_allowed(playing.state, LooperState::Undo)
            &&& transition_allowed(undone.state, LooperState::Record)
            &&& recording.primary == v.swapped().primary
            &&& undone.primary == v.primary
            &&& again.primary == v.primary
            &&& again.shadow == v.shadow
            &&& again.state == LooperState::Record
        }),
{
}

/// Undo is accepted in every state and always exchanges the buffers; it
/// changes the state only when it leaves Play. Asked twice in a row it
/// puts the buffers back, and the second request changes no state.
pub proof fn law_undo_twice_restores_buffers<S>(v: LooperView<S>)
    ensures
        ({
            let once = v.after_update(LooperState::Undo);
            let twice = once.after_update(LooperState::Undo);
            &&& transition_allowed(v.state, LooperState::Undo)
            &&& transition_allowed(once.state, LooperState::Undo)
            &&& once.primary == v.swapped().primary
            &&& once.shadow == v.swapped().shadow
            &&& once.state == if v.state == LooperState::Play {
                LooperState::Undo
            } else {
                v.state
            }
            &&& twice.state == once.state
            &&& twice.primary == v.primary
            &&& twice.shadow == v.shadow
            &&& twice.index == v.index
            &&& twice.tail == v.tail
            &&& twice.latched == v.latched
        }),
{
}

/// Without a shadow buffer a request for Undo is still accepted, and it
/// changes no sample, no cursor and no loop length.
pub proof fn law_undo_without_shadow_keeps_audio<S>(v: LooperView<S>)
    requires
        v.shadow is None,
    ensures
        transition_allowed(v.state, LooperState::Undo),
        v.swapped() == v,
        v.after_update(LooperState::Undo).primary == v.primary,
        v.after_update(LooperState::Undo).shadow is None,
        v.after_update(LooperState::Undo).index == v.index,
        v.after_update(LooperState::Undo).tail == v.tail,
        v.after_update(LooperState::Undo).latched == v.latched,
{
}

} // verus!
