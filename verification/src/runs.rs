//! Laws about runs of frames: what any number of calls in a row does to the
//! cursor, to the buffers and to the output, and what undo gives back after
//! an overdub of any length.

use vstd::prelude::*;
use vstd::arithmetic::div_mod::{lemma_add_mod_noop_right, lemma_small_mod};
use crate::laws::law_frame_keeps_wf;
use crate::model::LooperView;
use crate::state::{LooperState, cursor_runs, transition_allowed};

verus! {

/// The engine as it stood before the last frame of a run that is not empty.
pub open spec fn before_last<S, M: Fn(S, S) -> S>(
    pre: LooperView<S>,
    mix: M,
    inputs: Seq<S>,
    post: LooperView<S>,
    outputs: Seq<S>,
) -> LooperView<S> {
    choose|mid: LooperView<S>|
        {
            &&& pre.frames(mix, inputs.drop_last(), mid, outputs.drop_last())
            &&& #[trigger] mid.frame(mix, inputs.last(), post, outputs.last())
        }
}

/// A run that is not empty is a shorter run followed by one frame.
pub proof fn law_frames_split<S, M: Fn(S, S) -> S>(
    pre: LooperView<S>,
    mix: M,
    inputs: Seq<S>,
    post: LooperView<S>,
    outputs: Seq<S>,
)
    requires
        inputs.len() > 0,
        pre.frames(mix, inputs, post, outputs),
    ensures
        outputs.len() == inputs.len(),
        pre.frames(
            mix,
            inputs.drop_last(),
            before_last(pre, mix, inputs, post, outputs),
            outputs.drop_last(),
        ),
        before_last(pre, mix, inputs, post, outputs).frame(
            mix,
            inputs.last(),
            post,
            outputs.last(),
        ),
{
}

/// A run of frames followed by one more frame is a run of frames.
pub proof fn law_frames_extend<S, M: Fn(S, S) -> S>(
    pre: LooperView<S>,
    mix: M,
    inputs: Seq<S>,
    mid: LooperView<S>,
    outputs: Seq<S>,
    input: S,
    post: LooperView<S>,
    output: S,
)
    requires
        pre.frames(mix, inputs, mid, outputs),
        mid.frame(mix, input, post, output),
    ensures
        pre.frames(mix, inputs.push(input), post, outputs.push(output)),
{
    law_frames_keep_the_controller(pre, mix, inputs, mid, outputs);
    let longer = inputs.push(input);
    let given = outputs.push(output);
    assert(longer.drop_last() =~= inputs);
    assert(given.drop_last() =~= outputs);
    assert(mid.frame(mix, longer.last(), post, given.last()));
}

/// However many frames are processed, the controller state, the loop
/// length and the latch stay as they are, and each input gets one output.
pub proof fn law_frames_keep_the_controller<S, M: Fn(S, S) -> S>(
    pre: LooperView<S>,
    mix: M,
    inputs: Seq<S>,
    post: LooperView<S>,
    outputs: Seq<S>,
)
    requires
        pre.frames(mix, inputs, post, outputs),
    ensures
        outputs.len() == inputs.len(),
        post.state == pre.state,
        post.tail == pre.tail,
        post.latched == pre.latched,
    decreases inputs.len(),
{
    if inputs.len() > 0 {
        let mid = before_last(pre, mix, inputs, post, outputs);
        law_frames_split(pre, mix, inputs, post, outputs);
        law_frames_keep_the_controller(pre, mix, inputs.drop_last(), mid, outputs.drop_last());
    }
}

/// Any number of frames leaves a well-formed engine well-formed and ready
/// for the next, and in a running state puts the cursor as many positions
/// further round the loop.
pub proof fn law_frames_keep_wf<S, M: Fn(S, S) -> S>(
    pre: LooperView<S>,
    mix: M,
    inputs: Seq<S>,
    post: LooperView<S>,
    outputs: Seq<S>,
)
    requires
        pre.wf(),
        pre.ready(),
        pre.frames(mix, inputs, post, outputs),
    ensures
        post.wf(),
        post.ready(),
        post.capacity() == pre.capacity(),
        cursor_runs(pre.state) ==> post.index == pre.cursor_after(inputs.len()),
        !cursor_runs(pre.state) ==> post.index == pre.index,
    decreases inputs.len(),
{
    if inputs.len() > 0 {
        let mid = before_last(pre, mix, inputs, post, outputs);
        law_frames_split(pre, mix, inputs, post, outputs);
        law_frames_keep_wf(pre, mix, inputs.drop_last(), mid, outputs.drop_last());
        law_frames_keep_the_controller(pre, mix, inputs.drop_last(), mid, outputs.drop_last());
        law_frame_keeps_wf(mid, mix, inputs.last(), post, outputs.last());
        if cursor_runs(pre.state) && inputs.len() > 1 {
            lemma_add_mod_noop_right(1, pre.index + inputs.len() - 1, pre.tail as int);
        }
    }
}

/// In Stop and in Clear any number of frames passes through: the outputs
/// are the inputs and the engine stays as it is.
pub proof fn law_idle_frames_pass_through<S, M: Fn(S, S) -> S>(
    pre: LooperView<S>,
    mix: M,
    inputs: Seq<S>,
    post: LooperView<S>,
    outputs: Seq<S>,
)
    requires
        pre.state == LooperState::Stop || pre.state == LooperState::Clear,
        pre.frames(mix, inputs, post, outputs),
    ensures
        outputs == inputs,
        post == pre,
    decreases inputs.len(),
{
    if inputs.len() > 0 {
        let mid = before_last(pre, mix, inputs, post, outputs);
        law_frames_split(pre, mix, inputs, post, outputs);
        law_idle_frames_pass_through(pre, mix, inputs.drop_last(), mid, outputs.drop_last());
        assert(outputs =~= outputs.drop_last().push(outputs.last()));
        assert(inputs =~= inputs.drop_last().push(inputs.last()));
    } else {
        assert(outputs =~= inputs);
    }
}

/// Playback repeats the loop: in Play and in Undo no number of frames
/// changes a buffer, and each output is the sum of its input and the
/// primary sample at the place the cursor has reached by then.
pub proof fn law_playback_repeats_the_loop<S, M: Fn(S, S) -> S>(
    pre: LooperView<S>,
    mix: M,
    inputs: Seq<S>,
    post: LooperView<S>,
    outputs: Seq<S>,
)
    requires
        pre.wf(),
        pre.ready(),
        pre.state == LooperState::Play || pre.state == LooperState::Undo,
        pre.frames(mix, inputs, post, outputs),
    ensures
        outputs.len() == inputs.len(),
        post.primary == pre.primary,
        post.shadow == pre.shadow,
        post.index == pre.cursor_after(inputs.len()),
        forall|k: int|
            0 <= k < inputs.len() ==> call_ensures(
                mix,
                (inputs[k], pre.primary[pre.cursor_after(k as nat) as int]),
                #[trigger] outputs[k],
            ),
    decreases inputs.len(),
{
    law_frames_keep_wf(pre, mix, inputs, post, outputs);
    law_frames_keep_the_controller(pre, mix, inputs, post, outputs);
    if inputs.len() > 0 {
        let mid = before_last(pre, mix, inputs, post, outputs);
        law_frames_split(pre, mix, inputs, post, outputs);
        law_playback_repeats_the_loop(pre, mix, inputs.drop_last(), mid, outputs.drop_last());
        law_frames_keep_the_controller(pre, mix, inputs.drop_last(), mid, outputs.drop_last());
        assert forall|k: int| 0 <= k < inputs.len() implies call_ensures(
            mix,
            (inputs[k], pre.primary[pre.cursor_after(k as nat) as int]),
            #[trigger] outputs[k],
        ) by {
            if k < inputs.len() - 1 {
                assert(outputs.drop_last()[k] == outputs[k]);
                assert(inputs.drop_last()[k] == inputs[k]);
            }
        }
    }
}

/// An overdub of any length leaves the shadow buffer as it is.
pub proof fn law_overdub_keeps_the_shadow<S, M: Fn(S, S) -> S>(
    pre: LooperView<S>,
    mix: M,
    inputs: Seq<S>,
    post: LooperView<S>,
    outputs: Seq<S>,
)
    requires
        pre.state == LooperState::Record,
        pre.latched,
        pre.frames(mix, inputs, post, outputs),
    ensures
        post.shadow == pre.shadow,
    decreases inputs.len(),
{
    if inputs.len() > 0 {
        let mid = before_last(pre, mix, inputs, post, outputs);
        law_frames_split(pre, mix, inputs, post, outputs);
        law_overdub_keeps_the_shadow(pre, mix, inputs.drop_last(), mid, outputs.drop_last());
        law_frames_keep_the_controller(pre, mix, inputs.drop_last(), mid, outputs.drop_last());
    }
}

/// Undo takes back an overdub of any length. When a latched loop with a
/// shadow buffer goes from playing or from a stop into Record, is
/// overdubbed, and Undo is then asked for, at once or after going back to
/// Play, the primary buffer is again what it was before the overdub.
pub proof fn law_undo_restores_the_loop<S, M: Fn(S, S) -> S>(
    before: LooperView<S>,
    mix: M,
    inputs: Seq<S>,
    overdubbed: LooperView<S>,
    outputs: Seq<S>,
)
    requires
        before.state == LooperState::Play || before.state == LooperState::Stop,
        before.latched,
        before.shadow is Some,
        before.after_update(LooperState::Record).frames(mix, inputs, overdubbed, outputs),
    ensures
        transition_allowed(before.state, LooperState::Record),
        overdubbed.state == LooperState::Record,
        overdubbed.shadow == Some(before.primary),
        overdubbed.after_update(LooperState::Undo).primary == before.primary,
        overdubbed.after_update(LooperState::Play).after_update(LooperState::Undo).primary
            == before.primary,
        overdubbed.after_update(LooperState::Play).after_update(LooperState::Undo).state
            == LooperState::Undo,
{
    let recording = before.after_update(LooperState::Record);
    law_frames_keep_the_controller(recording, mix, inputs, overdubbed, outputs);
    law_overdub_keeps_the_shadow(recording, mix, inputs, overdubbed, outputs);
}

/// The first pass stores the stream it is fed. While the recording does
/// not run past the end of the buffers, the inputs stand in the primary
/// buffer from the cursor on, in order, and in the shadow buffer if there
/// is one; every other sample is untouched and the outputs are the inputs.
pub proof fn law_first_pass_stores_the_stream<S, M: Fn(S, S) -> S>(
    pre: LooperView<S>,
    mix: M,
    inputs: Seq<S>,
    post: LooperView<S>,
    outputs: Seq<S>,
)
    requires
        pre.wf(),
        pre.state == LooperState::Record,
        !pre.latched,
        pre.index + inputs.len() <= pre.capacity(),
        pre.frames(mix, inputs, post, outputs),
    ensures
        outputs == inputs,
        post.capacity() == pre.capacity(),
        inputs.len() > 0 ==> post.index == (pre.index + inputs.len()) % pre.capacity(),
        forall|i: int|
            0 <= i < pre.capacity() ==> #[trigger] post.primary[i] == (if pre.index <= i < pre.index
                + inputs.len() {
                inputs[i - pre.index]
            } else {
                pre.primary[i]
            }),
        pre.shadow is None ==> post.shadow is None,
        pre.shadow matches Some(before) ==> ({
            &&& post.shadow matches Some(after)
            &&& after.len() == before.len()
            &&& forall|i: int|
                0 <= i < pre.capacity() ==> #[trigger] after[i] == (if pre.index <= i < pre.index
                    + inputs.len() {
                    inputs[i - pre.index]
                } else {
                    before[i]
                })
        }),
    decreases inputs.len(),
{
    if inputs.len() > 0 {
        let mid = before_last(pre, mix, inputs, post, outputs);
        law_frames_split(pre, mix, inputs, post, outputs);
        let earlier = inputs.drop_last();
        law_first_pass_stores_the_stream(pre, mix, earlier, mid, outputs.drop_last());
        law_frames_keep_the_controller(pre, mix, earlier, mid, outputs.drop_last());
        law_frames_keep_wf(pre, mix, earlier, mid, outputs.drop_last());
        assert(mid.index == pre.index + earlier.len()) by {
            if earlier.len() > 0 {
                lemma_small_mod(pre.index + earlier.len(), pre.capacity());
            }
        }
        assert(outputs =~= outputs.drop_last().push(outputs.last()));
        assert(inputs =~= earlier.push(inputs.last()));
    } else {
        assert(outputs =~= inputs);
    }
}

} // verus!
