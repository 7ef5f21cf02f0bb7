//! The pacing laws of the frame graph, proved over the step relations.

use vstd::arithmetic::div_mod::{lemma_add_mod_noop, lemma_small_mod};
use vstd::prelude::*;

use crate::record::DrawCmd;
use crate::renderer::{
    FrameModel, FramePhase, RecreateParams, TeardownStep, inv, spec_acquire_ok,
    spec_acquire_out_of_date, spec_begin_frame, spec_present_ok, spec_recreate, spec_submit,
    spec_wait_fence, teardown_steps, teardown_tail,
};

verus! {

/// One fully successful frame: advance the slot, acquire that slot's
/// image (the design keeps the acquired index in lockstep with the
/// slot), wait the slot fence, submit, present.
pub open spec fn spec_frame_success(m: FrameModel) -> FrameModel {
    spec_present_ok(
        spec_submit(
            spec_wait_fence(spec_acquire_ok(spec_begin_frame(m), spec_begin_frame(m).current_image)),
        ),
    )
}

/// The state after `k` successful frames.
pub open spec fn run_success_frames(m: FrameModel, k: nat) -> FrameModel
    decreases k,
{
    if k == 0 {
        m
    } else {
        spec_frame_success(run_success_frames(m, (k - 1) as nat))
    }
}

/// One successful frame keeps the invariant, returns to idle, counts
/// one more frame, and leaves the swapchain shape, the recorded
/// commands and the resize request alone.
pub proof fn lemma_frame_success_step(m: FrameModel)
    requires
        inv(m),
        m.phase is Idle,
    ensures
        inv(spec_frame_success(m)),
        spec_frame_success(m).phase is Idle,
        spec_frame_success(m).frame_count == m.frame_count + 1,
        spec_frame_success(m).image_count == m.image_count,
        spec_frame_success(m).current_image == (m.frame_count + 1) % m.image_count,
        spec_frame_success(m).commands == m.commands,
        spec_frame_success(m).resize_requested == m.resize_requested,
        spec_frame_success(m).extent_width == m.extent_width,
        spec_frame_success(m).extent_height == m.extent_height,
{
    let fc = m.frame_count as int;
    let n = m.image_count as int;
    lemma_add_mod_noop(fc, 1int, n);
    lemma_small_mod(1nat, m.image_count);
    assert(((fc % n) + 1) % n == (fc + 1) % n);
}

/// Slot cycling: starting idle, after `k` successful frames the
/// renderer is idle again, has counted `k` more frames, and
/// `current_image` is the frame counter modulo the image count — for a
/// freshly created swapchain (frame counter zero), `k % N` exactly.
pub proof fn lemma_slot_cycling(m: FrameModel, k: nat)
    requires
        inv(m),
        m.phase is Idle,
    ensures
        inv(run_success_frames(m, k)),
        run_success_frames(m, k).phase is Idle,
        run_success_frames(m, k).frame_count == m.frame_count + k,
        run_success_frames(m, k).image_count == m.image_count,
        run_success_frames(m, k).current_image == (m.frame_count + k) % m.image_count,
    decreases k,
{
    if k > 0 {
        lemma_slot_cycling(m, (k - 1) as nat);
        lemma_frame_success_step(run_success_frames(m, (k - 1) as nat));
    }
}

/// Fence discipline: during one frame on slot `s`, the slot's fence is
/// untouched until the fence wait, signaled when the wait returns,
/// reset exactly at the submit step — strictly between the wait and
/// the handover to the queue — and untouched afterwards; the fences of
/// every other slot are untouched for the whole frame.
pub proof fn lemma_fence_discipline(m: FrameModel)
    requires
        inv(m),
        m.phase is Idle,
    ensures
        ({
            let m1 = spec_begin_frame(m);
            let s = m1.current_image as int;
            let m2 = spec_acquire_ok(m1, m1.current_image);
            let m3 = spec_wait_fence(m2);
            let m4 = spec_submit(m3);
            let m5 = spec_present_ok(m4);
            &&& m1.may_begin_drawing == m.may_begin_drawing
            &&& m2.may_begin_drawing == m.may_begin_drawing
            &&& m3.may_begin_drawing[s]
            &&& !m4.may_begin_drawing[s]
            &&& m5.may_begin_drawing == m4.may_begin_drawing
            &&& forall|j: int|
                0 <= j < m.may_begin_drawing.len() && j != s
                    ==> #[trigger] m5.may_begin_drawing[j] == m.may_begin_drawing[j]
        }),
{
}

/// A dropped frame: when the acquire reports the swapchain out of
/// date, the frame is abandoned with no fence touched, no semaphore
/// signal pending and no frame counted — recreation is simply owed.
pub proof fn lemma_dropped_frame(m: FrameModel)
    requires
        inv(m),
        m.phase is Idle,
    ensures
        ({
            let m2 = spec_acquire_out_of_date(spec_begin_frame(m));
            &&& inv(m2)
            &&& m2.phase is NeedsRecreate
            &&& m2.may_begin_drawing == m.may_begin_drawing
            &&& m2.frame_count == m.frame_count
            &&& m2.commands == m.commands
        }),
{
}

/// Recreation idempotence: recreating twice in a row with the same
/// surface parameters and the same objects leaves exactly the state
/// one recreation leaves.
pub proof fn lemma_recreate_idempotent(m: FrameModel, p: RecreateParams, cmds: Seq<DrawCmd>)
    ensures
        spec_recreate(spec_recreate(m, p, cmds), p, cmds) == spec_recreate(m, p, cmds),
{
}

/// Teardown order: the device-idle wait is the first step and never
/// recurs, so every destroy comes after it; the sequence has one wait,
/// one object destruction per object, and the ten owner destructions.
pub proof fn lemma_teardown_wait_idle_first(n_objects: nat)
    ensures
        teardown_steps(n_objects).len() == n_objects + 11,
        teardown_steps(n_objects)[0] == TeardownStep::WaitIdle,
        forall|i: int|
            1 <= i < teardown_steps(n_objects).len() ==> #[trigger] teardown_steps(n_objects)[i]
                != TeardownStep::WaitIdle,
{
    let s = teardown_steps(n_objects);
    assert forall|i: int| 1 <= i < s.len() implies #[trigger] s[i] != TeardownStep::WaitIdle by {
        if i <= n_objects {
            assert(s[i] == TeardownStep::DestroyObject);
        } else {
            assert(s[i] == teardown_tail()[i - n_objects - 1]);
        }
    }
}

} // verus!
