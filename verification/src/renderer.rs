//! The per-frame synchronization state machine.
//!
//! `VulkanRenderer` is the host-side model of the frame graph: the slot
//! counter, the three parallel arrays of per-slot synchronization
//! objects, the recorded command buffers and the drawable objects.  The
//! surrounding program performs each graphics API call and immediately
//! mirrors its outcome here through one of the step functions, whose
//! contracts pin the transition as a function of the previous state
//! (`FrameModel`).  The invariant `inv` and the lemmas at the end prove
//! the pacing discipline: slots cycle modulo the image count, a slot's
//! fence is reset exactly once per frame between the fence wait and the
//! submit, recreation is idempotent, and teardown waits for the device
//! before destroying anything and returns every allocator block.

use vstd::arithmetic::div_mod::{lemma_add_mod_noop, lemma_small_mod};
use vstd::prelude::*;

use crate::allocator::Allocator;
use crate::object::Object;
use crate::record::{DrawCmd, record_object_commands, recorded_for};

verus! {

/// Where the current frame stands between the step functions.
#[derive(Clone, Copy, Debug, PartialEq, Eq, Structural)]
pub enum FramePhase {
    /// No frame is in progress.
    Idle,
    /// The slot was advanced; the acquire call is in flight.
    Acquiring,
    /// An image was acquired; its slot fence has not been waited yet.
    Acquired,
    /// The slot fence wait returned; recording and submit may proceed.
    Waited,
    /// Work was submitted; the present call is outstanding.
    Submitted,
    /// The surface was invalidated; recreation must run next.
    NeedsRecreate,
}

/// The parameters a (re)created swapchain comes back with: how many
/// images the surface granted and the chosen extent.
#[derive(Clone, Copy, Debug, PartialEq, Eq, Structural)]
pub struct RecreateParams {
    /// Number of swapchain images; at least 2.
    pub image_count: usize,
    /// Extent width in pixels.
    pub width: u32,
    /// Extent height in pixels.
    pub height: u32,
}

/// The result the acquire call came back with.  `Suboptimal` is
/// treated as success at acquire time.
#[derive(Clone, Copy, Debug, PartialEq, Eq, Structural)]
pub enum AcquireResult {
    /// The image at `image_index` was acquired.
    Success { image_index: usize },
    /// Acquired, but the surface no longer matches exactly.
    Suboptimal { image_index: usize },
    /// The swapchain is out of date; the frame is dropped.
    OutOfDate,
}

/// The result the present call came back with.
#[derive(Clone, Copy, Debug, PartialEq, Eq, Structural)]
pub enum PresentResult {
    /// The image was queued for presentation.
    Success,
    /// Presented, but the surface no longer matches exactly.
    Suboptimal,
    /// The swapchain is out of date.
    OutOfDate,
}

/// The abstract state of the frame graph.
#[verifier::ext_equal]
pub struct FrameModel {
    /// Number of swapchain images `N`.
    pub image_count: nat,
    /// Frame index modulo `N`: the slot the current frame uses.
    pub current_image: nat,
    /// Successful frames since the swapchain was (re)created.
    pub frame_count: nat,
    /// Where the current frame stands.
    pub phase: FramePhase,
    /// The image index the last acquire returned.
    pub acquired_index: nat,
    /// Per-slot fence: signaled when the slot may be reused.
    pub may_begin_drawing: Seq<bool>,
    /// Per-slot semaphore: an acquire signal is pending for the slot.
    pub image_available: Seq<bool>,
    /// Per-slot semaphore: a render-finished signal is pending.
    pub rendering_finished: Seq<bool>,
    /// The host asked for recreation after a window resize.
    pub resize_requested: bool,
    /// Swapchain extent width.
    pub extent_width: nat,
    /// Swapchain extent height.
    pub extent_height: nat,
    /// The draws each per-image command buffer holds.
    pub commands: Seq<Seq<DrawCmd>>,
}

/// No entry of `s` is set.
pub open spec fn sems_all_clear(s: Seq<bool>) -> bool {
    forall|k: int| 0 <= k < s.len() ==> !(#[trigger] s[k])
}

/// No entry of `s` other than `except` is set.
pub open spec fn sems_clear_except(s: Seq<bool>, except: int) -> bool {
    forall|k: int| 0 <= k < s.len() && k != except ==> !(#[trigger] s[k])
}

/// The frame-graph invariant: sizes agree, the slot is in range and
/// tracks the frame counter, and the pending semaphore signals are
/// exactly the ones the current phase owes.
pub open spec fn inv(m: FrameModel) -> bool {
    let cur = m.current_image as int;
    &&& m.image_count >= 2
    &&& m.current_image < m.image_count
    &&& m.acquired_index < m.image_count
    &&& m.may_begin_drawing.len() == m.image_count
    &&& m.image_available.len() == m.image_count
    &&& m.rendering_finished.len() == m.image_count
    &&& m.commands.len() == m.image_count
    &&& match m.phase {
        FramePhase::Idle => {
            &&& m.current_image == m.frame_count % m.image_count
            &&& sems_all_clear(m.image_available)
            &&& sems_all_clear(m.rendering_finished)
        },
        FramePhase::Acquiring => {
            &&& m.current_image == (m.frame_count + 1) % m.image_count
            &&& sems_all_clear(m.image_available)
            &&& sems_all_clear(m.rendering_finished)
        },
        FramePhase::Acquired => {
            &&& m.current_image == (m.frame_count + 1) % m.image_count
            &&& m.image_available[cur]
            &&& sems_clear_except(m.image_available, cur)
            &&& sems_all_clear(m.rendering_finished)
        },
        FramePhase::Waited => {
            &&& m.current_image == (m.frame_count + 1) % m.image_count
            &&& m.image_available[cur]
            &&& sems_clear_except(m.image_available, cur)
            &&& sems_all_clear(m.rendering_finished)
            &&& m.may_begin_drawing[cur]
        },
        FramePhase::Submitted => {
            &&& m.current_image == (m.frame_count + 1) % m.image_count
            &&& sems_all_clear(m.image_available)
            &&& m.rendering_finished[cur]
            &&& sems_clear_except(m.rendering_finished, cur)
            &&& !m.may_begin_drawing[cur]
        },
        FramePhase::NeedsRecreate => {
            &&& sems_all_clear(m.image_available)
            &&& sems_all_clear(m.rendering_finished)
        },
    }
}

/// Step 1, advance the slot: `current_image := (current_image + 1) % N`.
pub open spec fn spec_begin_frame(m: FrameModel) -> FrameModel {
    FrameModel {
        current_image: ((m.current_image + 1) % m.image_count) as nat,
        phase: FramePhase::Acquiring,
        ..m
    }
}

/// Step 2 on success: the acquire returned `idx` and will signal the
/// slot's image-available semaphore.
pub open spec fn spec_acquire_ok(m: FrameModel, idx: nat) -> FrameModel {
    FrameModel {
        phase: FramePhase::Acquired,
        acquired_index: idx,
        image_available: m.image_available.update(m.current_image as int, true),
        ..m
    }
}

/// Step 2 when the swapchain is out of date: the frame is dropped and
/// recreation is owed; no semaphore was signaled.
pub open spec fn spec_acquire_out_of_date(m: FrameModel) -> FrameModel {
    FrameModel { phase: FramePhase::NeedsRecreate, ..m }
}

/// Step 3: the wait on the slot's fence returned, so the fence is
/// signaled and the slot is safe to reuse.
pub open spec fn spec_wait_fence(m: FrameModel) -> FrameModel {
    FrameModel {
        phase: FramePhase::Waited,
        may_begin_drawing: m.may_begin_drawing.update(m.current_image as int, true),
        ..m
    }
}

/// Step 4+5: the slot's fence is reset and the submission consumes the
/// image-available signal and will produce the rendering-finished one.
pub open spec fn spec_submit(m: FrameModel) -> FrameModel {
    FrameModel {
        phase: FramePhase::Submitted,
        may_begin_drawing: m.may_begin_drawing.update(m.current_image as int, false),
        image_available: m.image_available.update(m.current_image as int, false),
        rendering_finished: m.rendering_finished.update(m.current_image as int, true),
        ..m
    }
}

/// Step 6 on success with no resize pending: the frame completes.
pub open spec fn spec_present_ok(m: FrameModel) -> FrameModel {
    FrameModel {
        phase: FramePhase::Idle,
        frame_count: m.frame_count + 1,
        rendering_finished: m.rendering_finished.update(m.current_image as int, false),
        ..m
    }
}

/// Step 6 when the surface was invalidated or a resize is pending:
/// the frame completes but recreation is owed.
pub open spec fn spec_present_invalid(m: FrameModel) -> FrameModel {
    FrameModel {
        phase: FramePhase::NeedsRecreate,
        frame_count: m.frame_count + 1,
        rendering_finished: m.rendering_finished.update(m.current_image as int, false),
        ..m
    }
}

/// The state a freshly (re)created swapchain starts in: slot 0, frame
/// counter 0, fences pre-signaled, no pending semaphore signals, no
/// resize request, and every command buffer holding `cmds`.
pub open spec fn spec_fresh(p: RecreateParams, cmds: Seq<DrawCmd>) -> FrameModel {
    FrameModel {
        image_count: p.image_count as nat,
        current_image: 0,
        frame_count: 0,
        phase: FramePhase::Idle,
        acquired_index: 0,
        may_begin_drawing: Seq::new(p.image_count as nat, |i: int| true),
        image_available: Seq::new(p.image_count as nat, |i: int| false),
        rendering_finished: Seq::new(p.image_count as nat, |i: int| false),
        resize_requested: false,
        extent_width: p.width as nat,
        extent_height: p.height as nat,
        commands: Seq::new(p.image_count as nat, |i: int| cmds),
    }
}

/// Recreation: whatever the previous state, the result is the fresh
/// state for `p` with every command buffer re-recorded to `cmds`.
pub open spec fn spec_recreate(m: FrameModel, p: RecreateParams, cmds: Seq<DrawCmd>) -> FrameModel {
    spec_fresh(p, cmds)
}

/// Re-recording: every per-image command buffer now holds `cmds`;
/// nothing else moves.
pub open spec fn spec_fill(m: FrameModel, cmds: Seq<DrawCmd>) -> FrameModel {
    FrameModel { commands: Seq::new(m.image_count, |i: int| cmds), ..m }
}

/// One step of teardown, in the order the destructor performs them.
#[derive(Clone, Copy, Debug, PartialEq, Eq, Structural)]
pub enum TeardownStep {
    /// Wait for the device to go idle; always first.
    WaitIdle,
    /// Destroy one drawable object's buffers.
    DestroyObject,
    /// Free the per-image command buffers.
    FreeCommandBuffers,
    /// Destroy the command pools.
    DestroyCommandPools,
    /// Destroy the graphics pipeline.
    DestroyPipeline,
    /// Destroy the render pass.
    DestroyRenderPass,
    /// Destroy the swapchain and its views, sync objects and
    /// framebuffers.
    DestroySwapchain,
    /// Drop the device-memory allocator.
    DestroyAllocator,
    /// Destroy the logical device.
    DestroyDevice,
    /// Destroy the surface.
    DestroySurface,
    /// Destroy the debug messenger.
    DestroyDebug,
    /// Destroy the instance; always last.
    DestroyInstance,
}

/// The destroy calls that follow the per-object destructions, in
/// strict reverse order of creation.
pub open spec fn teardown_tail() -> Seq<TeardownStep> {
    seq![
        TeardownStep::FreeCommandBuffers,
        TeardownStep::DestroyCommandPools,
        TeardownStep::DestroyPipeline,
        TeardownStep::DestroyRenderPass,
        TeardownStep::DestroySwapchain,
        TeardownStep::DestroyAllocator,
        TeardownStep::DestroyDevice,
        TeardownStep::DestroySurface,
        TeardownStep::DestroyDebug,
        TeardownStep::DestroyInstance,
    ]
}

/// The full teardown sequence for `n_objects` drawable objects: wait
/// for the device, destroy the objects, then every owner in reverse
/// creation order.
pub open spec fn teardown_steps(n_objects: nat) -> Seq<TeardownStep> {
    seq![TeardownStep::WaitIdle] + Seq::new(n_objects, |i: int| TeardownStep::DestroyObject)
        + teardown_tail()
}

/// Allocator blocks held by a list of objects.
pub open spec fn total_blocks(objs: Seq<Object>) -> nat
    decreases objs.len(),
{
    if objs.len() == 0 {
        0nat
    } else {
        total_blocks(objs.drop_last()) + objs.last().blocks()
    }
}

/// The host-side renderer state.
pub struct VulkanRenderer {
    /// Number of swapchain images `N`.
    pub image_count: usize,
    /// Frame index modulo `N`.
    pub current_image: usize,
    /// Successful frames since the swapchain was (re)created.
    pub frame_count: u64,
    /// Where the current frame stands.
    pub phase: FramePhase,
    /// The image index the last acquire returned.
    pub acquired_index: usize,
    /// Per-slot fences, `true` when signaled.
    pub may_begin_drawing: Vec<bool>,
    /// Per-slot image-available semaphores: a signal is pending.
    pub image_available: Vec<bool>,
    /// Per-slot rendering-finished semaphores: a signal is pending.
    pub rendering_finished: Vec<bool>,
    /// The host asked for recreation after a window resize.
    pub is_framebuffer_resized: bool,
    /// Swapchain extent width in pixels.
    pub extent_width: u32,
    /// Swapchain extent height in pixels.
    pub extent_height: u32,
    /// The draws each per-image command buffer holds.
    pub command_buffers: Vec<Vec<DrawCmd>>,
    /// The drawable objects, in draw order.
    pub game_objects: Vec<Object>,
}

impl View for VulkanRenderer {
    type V = FrameModel;

    open spec fn view(&self) -> FrameModel {
        FrameModel {
            image_count: self.image_count as nat,
            current_image: self.current_image as nat,
            frame_count: self.frame_count as nat,
            phase: self.phase,
            acquired_index: self.acquired_index as nat,
            may_begin_drawing: self.may_begin_drawing@,
            image_available: self.image_available@,
            rendering_finished: self.rendering_finished@,
            resize_requested: self.is_framebuffer_resized,
            extent_width: self.extent_width as nat,
            extent_height: self.extent_height as nat,
            commands: Seq::new(self.command_buffers@.len(), |i: int| self.command_buffers@[i]@),
        }
    }
}

/// A vector of `n` copies of `val`.
fn filled_bools(n: usize, val: bool) -> (r: Vec<bool>)
    ensures
        r@ == Seq::new(n as nat, |i: int| val),
{
    let mut r: Vec<bool> = Vec::new();
    let mut i: usize = 0;
    while i < n
        invariant
            i <= n,
            r@ == Seq::new(i as nat, |k: int| val),
        decreases n - i,
    {
        r.push(val);
        proof {
            assert(r@ =~= Seq::new((i + 1) as nat, |k: int| val));
        }
        i = i + 1;
    }
    r
}

impl VulkanRenderer {
    /// Allocates `amount` primary command buffers, one per swapchain
    /// image, all empty until they are filled.
    pub fn create_commandbuffers(amount: usize) -> (r: Vec<Vec<DrawCmd>>)
        ensures
            r@.len() == amount,
            forall|i: int| 0 <= i < amount ==> (#[trigger] r@[i])@ == Seq::<DrawCmd>::empty(),
    {
        let mut r: Vec<Vec<DrawCmd>> = Vec::new();
        let mut i: usize = 0;
        while i < amount
            invariant
                i <= amount,
                r@.len() == i,
                forall|k: int| 0 <= k < i ==> (#[trigger] r@[k])@ == Seq::<DrawCmd>::empty(),
            decreases amount - i,
        {
            let cb: Vec<DrawCmd> = Vec::new();
            r.push(cb);
            i = i + 1;
        }
        r
    }

    /// A renderer whose swapchain was just created with `params`: no
    /// objects, empty command buffers, fences pre-signaled.
    pub fn new(params: RecreateParams) -> (r: VulkanRenderer)
        requires
            params.image_count >= 2,
        ensures
            r@ == spec_fresh(params, Seq::<DrawCmd>::empty()),
            inv(r@),
            r.game_objects@.len() == 0,
    {
        let r = VulkanRenderer {
            image_count: params.image_count,
            current_image: 0,
            frame_count: 0,
            phase: FramePhase::Idle,
            acquired_index: 0,
            may_begin_drawing: filled_bools(params.image_count, true),
            image_available: filled_bools(params.image_count, false),
            rendering_finished: filled_bools(params.image_count, false),
            is_framebuffer_resized: false,
            extent_width: params.width,
            extent_height: params.height,
            command_buffers: Self::create_commandbuffers(params.image_count),
            game_objects: Vec::new(),
        };
        proof {
            assert(r@ =~= spec_fresh(params, Seq::<DrawCmd>::empty()));
            lemma_small_mod(0nat, r@.image_count);
        }
        r
    }

    /// Marks that the window's framebuffer was resized, so the next
    /// present triggers recreation.
    pub fn note_framebuffer_resized(&mut self)
        ensures
            final(self)@ == (FrameModel { resize_requested: true, ..old(self)@ }),
            final(self).game_objects == old(self).game_objects,
    {
        self.is_framebuffer_resized = true;
        assert(self@ =~= FrameModel { resize_requested: true, ..old(self)@ });
    }

    /// Step 1 of a frame: advance the slot.  Returns the slot whose
    /// image-available semaphore the acquire call must use.
    pub fn begin_frame(&mut self) -> (slot: usize)
        requires
            inv(old(self)@),
            old(self)@.phase is Idle,
        ensures
            final(self)@ == spec_begin_frame(old(self)@),
            inv(final(self)@),
            final(self).game_objects == old(self).game_objects,
            slot == final(self)@.current_image,
    {
        self.current_image = (self.current_image + 1) % self.image_count;
        self.phase = FramePhase::Acquiring;
        proof {
            assert(self@ =~= spec_begin_frame(old(self)@));
            let fc = old(self)@.frame_count as int;
            let n = old(self)@.image_count as int;
            lemma_add_mod_noop(fc, 1int, n);
            lemma_small_mod(1nat, old(self)@.image_count);
            assert(((fc % n) + 1) % n == (fc + 1) % n);
        }
        self.current_image
    }

    /// Step 2: fold the acquire call's result in.  On success the
    /// acquired image index is recorded; when the swapchain is out of
    /// date the frame is dropped and the caller must recreate — the
    /// return value says so.  Any other failure is fatal and never
    /// reaches this model.
    pub fn handle_acquire(&mut self, result: AcquireResult) -> (recreate_needed: bool)
        requires
            inv(old(self)@),
            old(self)@.phase is Acquiring,
            match result {
                AcquireResult::Success { image_index } => image_index < old(self)@.image_count,
                AcquireResult::Suboptimal { image_index } => image_index < old(self)@.image_count,
                AcquireResult::OutOfDate => true,
            },
        ensures
            match result {
                AcquireResult::Success { image_index } => !recreate_needed && final(self)@
                    == spec_acquire_ok(old(self)@, image_index as nat),
                AcquireResult::Suboptimal { image_index } => !recreate_needed && final(self)@
                    == spec_acquire_ok(old(self)@, image_index as nat),
                AcquireResult::OutOfDate => recreate_needed && final(self)@
                    == spec_acquire_out_of_date(old(self)@),
            },
            inv(final(self)@),
            final(self).game_objects == old(self).game_objects,
    {
        match result {
            AcquireResult::Success { image_index } | AcquireResult::Suboptimal { image_index } => {
                self.acquired_index = image_index;
                self.image_available[self.current_image] = true;
                self.phase = FramePhase::Acquired;
                proof {
                    assert(self@ =~= spec_acquire_ok(old(self)@, image_index as nat));
                }
                false
            },
            AcquireResult::OutOfDate => {
                self.phase = FramePhase::NeedsRecreate;
                proof {
                    assert(self@ =~= spec_acquire_out_of_date(old(self)@));
                }
                true
            },
        }
    }

    /// Step 3: the blocking wait on `may_begin_drawing[current_image]`
    /// returned, so the slot's previous frame has fully drained and
    /// its buffers and command buffer are safe to reuse.
    pub fn wait_for_fence(&mut self)
        requires
            inv(old(self)@),
            old(self)@.phase is Acquired,
        ensures
            final(self)@ == spec_wait_fence(old(self)@),
            inv(final(self)@),
            final(self).game_objects == old(self).game_objects,
    {
        self.may_begin_drawing[self.current_image] = true;
        self.phase = FramePhase::Waited;
        proof {
            assert(self@ =~= spec_wait_fence(old(self)@));
        }
    }

    /// Step 4: re-record every per-image command buffer against the
    /// current object list.  Runs between the fence wait and the
    /// submit within a frame, and while idle during recreation.
    pub fn fill_commandbuffers(&mut self)
        requires
            inv(old(self)@),
            old(self)@.phase is Waited || old(self)@.phase is Idle,
        ensures
            final(self)@ == spec_fill(old(self)@, recorded_for(old(self).game_objects@)),
            inv(final(self)@),
            final(self).game_objects == old(self).game_objects,
            final(self)@.phase == old(self)@.phase,
    {
        let mut cbs: Vec<Vec<DrawCmd>> = Vec::new();
        let mut i: usize = 0;
        while i < self.image_count
            invariant
                i <= self.image_count,
                cbs@.len() == i,
                forall|k: int|
                    0 <= k < i ==> (#[trigger] cbs@[k])@ == recorded_for(self.game_objects@),
            decreases self.image_count - i,
        {
            let cb = record_object_commands(&self.game_objects);
            cbs.push(cb);
            i = i + 1;
        }
        self.command_buffers = cbs;
        proof {
            assert(self@.commands =~= Seq::new(
                old(self)@.image_count,
                |k: int| recorded_for(old(self).game_objects@),
            ));
            assert(self@ =~= spec_fill(old(self)@, recorded_for(old(self).game_objects@)));
        }
    }

    /// Step 5: reset the slot's fence — the only reset in the frame,
    /// after the wait and before the work is handed to the queue —
    /// then submit the command buffer of the acquired image, waiting
    /// on image-available and signaling rendering-finished and the
    /// fence.  The submitted buffer must reflect the current object
    /// list.
    pub fn submit_frame(&mut self)
        requires
            inv(old(self)@),
            old(self)@.phase is Waited,
            old(self)@.commands[old(self)@.acquired_index as int] == recorded_for(
                old(self).game_objects@,
            ),
        ensures
            final(self)@ == spec_submit(old(self)@),
            inv(final(self)@),
            final(self).game_objects == old(self).game_objects,
    {
        self.may_begin_drawing[self.current_image] = false;
        self.image_available[self.current_image] = false;
        self.rendering_finished[self.current_image] = true;
        self.phase = FramePhase::Submitted;
        proof {
            assert(self@ =~= spec_submit(old(self)@));
        }
    }

    /// Step 6: fold the present call's result in.  The frame counts as
    /// complete either way; when the surface was reported out of date
    /// or suboptimal, or a resize was requested, the caller must
    /// recreate — the return value says so.
    pub fn handle_present(&mut self, result: PresentResult) -> (recreate_needed: bool)
        requires
            inv(old(self)@),
            old(self)@.phase is Submitted,
            old(self).frame_count < u64::MAX,
        ensures
            recreate_needed == (result is OutOfDate || result is Suboptimal || old(
                self,
            )@.resize_requested),
            recreate_needed ==> final(self)@ == spec_present_invalid(old(self)@),
            !recreate_needed ==> final(self)@ == spec_present_ok(old(self)@),
            inv(final(self)@),
            final(self).game_objects == old(self).game_objects,
    {
        let invalid = match result {
            PresentResult::OutOfDate => true,
            PresentResult::Suboptimal => true,
            PresentResult::Success => self.is_framebuffer_resized,
        };
        self.rendering_finished[self.current_image] = false;
        self.frame_count = self.frame_count + 1;
        if invalid {
            self.phase = FramePhase::NeedsRecreate;
            proof {
                assert(self@ =~= spec_present_invalid(old(self)@));
            }
            true
        } else {
            self.phase = FramePhase::Idle;
            proof {
                assert(self@ =~= spec_present_ok(old(self)@));
            }
            false
        }
    }

    /// Recreation: after the device went idle and the swapchain,
    /// renderpass, framebuffers, pipeline, pools and command buffers
    /// were rebuilt with `params`, the state is the fresh one — slot
    /// and frame counter zeroed, fences pre-signaled, resize request
    /// cleared — with every command buffer re-recorded against the
    /// unchanged object list.
    pub fn recreate_swapchain(&mut self, params: RecreateParams)
        requires
            inv(old(self)@),
            old(self)@.phase is Idle || old(self)@.phase is NeedsRecreate,
            params.image_count >= 2,
        ensures
            final(self)@ == spec_recreate(
                old(self)@,
                params,
                recorded_for(old(self).game_objects@),
            ),
            inv(final(self)@),
            final(self).game_objects == old(self).game_objects,
    {
        self.image_count = params.image_count;
        self.current_image = 0;
        self.frame_count = 0;
        self.phase = FramePhase::Idle;
        self.acquired_index = 0;
        self.may_begin_drawing = filled_bools(params.image_count, true);
        self.image_available = filled_bools(params.image_count, false);
        self.rendering_finished = filled_bools(params.image_count, false);
        self.is_framebuffer_resized = false;
        self.extent_width = params.width;
        self.extent_height = params.height;
        let mut cbs: Vec<Vec<DrawCmd>> = Vec::new();
        let mut i: usize = 0;
        while i < params.image_count
            invariant
                i <= params.image_count,
                cbs@.len() == i,
                forall|k: int|
                    0 <= k < i ==> (#[trigger] cbs@[k])@ == recorded_for(self.game_objects@),
                self.game_objects == old(self).game_objects,
            decreases params.image_count - i,
        {
            let cb = record_object_commands(&self.game_objects);
            cbs.push(cb);
            i = i + 1;
        }
        self.command_buffers = cbs;
        proof {
            assert(self@ =~= spec_recreate(
                old(self)@,
                params,
                recorded_for(old(self).game_objects@),
            ));
            lemma_small_mod(0nat, self@.image_count);
        }
    }

    /// Teardown: wait for the device to go idle, destroy every
    /// object's buffers, then every owner in strict reverse order of
    /// creation.  Returns the performed steps; every allocator block
    /// the objects held is released, so an allocator that held nothing
    /// else reports zero leaks.
    pub fn destroy(self, gpu_allocator: &mut Allocator) -> (steps: Vec<TeardownStep>)
        requires
            old(gpu_allocator).live() >= total_blocks(self.game_objects@),
        ensures
            final(gpu_allocator).live() == old(gpu_allocator).live() - total_blocks(
                self.game_objects@,
            ),
            old(gpu_allocator).live() == total_blocks(self.game_objects@)
                ==> final(gpu_allocator).live() == 0,
            steps@ == teardown_steps(self.game_objects@.len()),
    {
        let ghost all = self.game_objects@;
        let mut steps: Vec<TeardownStep> = Vec::new();
        steps.push(TeardownStep::WaitIdle);
        let VulkanRenderer { game_objects, .. } = self;
        let mut remaining = game_objects;
        proof {
            assert(all.take(all.len() as int) =~= all);
            assert(steps@ =~= seq![TeardownStep::WaitIdle] + Seq::new(
                0nat,
                |i: int| TeardownStep::DestroyObject,
            ));
        }
        while remaining.len() > 0
            invariant
                remaining@.len() <= all.len(),
                remaining@ == all.take(remaining@.len() as int),
                gpu_allocator.live() + total_blocks(all) == old(gpu_allocator).live()
                    + total_blocks(remaining@),
                gpu_allocator.live() >= total_blocks(remaining@),
                steps@ == seq![TeardownStep::WaitIdle] + Seq::new(
                    (all.len() - remaining@.len()) as nat,
                    |i: int| TeardownStep::DestroyObject,
                ),
            decreases remaining@.len(),
        {
            proof {
                assert(total_blocks(remaining@) == total_blocks(remaining@.drop_last())
                    + remaining@.last().blocks());
            }
            let o = remaining.pop().unwrap();
            proof {
                assert(remaining@ =~= all.take(remaining@.len() as int));
            }
            o.destroy(gpu_allocator);
            steps.push(TeardownStep::DestroyObject);
            proof {
                assert(steps@ =~= seq![TeardownStep::WaitIdle] + Seq::new(
                    (all.len() - remaining@.len()) as nat,
                    |i: int| TeardownStep::DestroyObject,
                ));
            }
        }
        proof {
            assert(total_blocks(remaining@) == 0);
        }
        steps.push(TeardownStep::FreeCommandBuffers);
        steps.push(TeardownStep::DestroyCommandPools);
        steps.push(TeardownStep::DestroyPipeline);
        steps.push(TeardownStep::DestroyRenderPass);
        steps.push(TeardownStep::DestroySwapchain);
        steps.push(TeardownStep::DestroyAllocator);
        steps.push(TeardownStep::DestroyDevice);
        steps.push(TeardownStep::DestroySurface);
        steps.push(TeardownStep::DestroyDebug);
        steps.push(TeardownStep::DestroyInstance);
        proof {
            assert(steps@ =~= teardown_steps(all.len()));
        }
        steps
    }
}

} // verus!
