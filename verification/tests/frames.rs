use reverie::allocator::Allocator;
use reverie::object::Object;
use reverie::record::DrawCmd;
use reverie::renderer::{
    AcquireResult, FramePhase, PresentResult, RecreateParams, TeardownStep, VulkanRenderer,
};

fn params(n: usize) -> RecreateParams {
    RecreateParams {
        image_count: n,
        width: 800,
        height: 600,
    }
}

fn run_success_frame(r: &mut VulkanRenderer) {
    let slot = r.begin_frame();
    let recreate = r.handle_acquire(AcquireResult::Success { image_index: slot });
    assert!(!recreate);
    r.wait_for_fence();
    assert!(r.may_begin_drawing[slot]);
    r.fill_commandbuffers();
    // the fence is reset by the submit, after the wait
    r.submit_frame();
    assert!(!r.may_begin_drawing[slot]);
    let recreate = r.handle_present(PresentResult::Success);
    assert!(!recreate);
}

#[test]
fn sixty_clear_frames_cycle_slots_modulo_image_count() {
    let mut r = VulkanRenderer::new(params(3));
    assert_eq!(r.current_image, 0);
    for k in 1..=60u64 {
        run_success_frame(&mut r);
        assert_eq!(r.frame_count, k);
        assert_eq!(r.current_image as u64, k % 3);
        assert!(matches!(r.phase, FramePhase::Idle));
    }
}

#[test]
fn fences_of_other_slots_are_untouched_during_a_frame() {
    let mut r = VulkanRenderer::new(params(3));
    run_success_frame(&mut r); // uses slot 1
    let before = r.may_begin_drawing.clone();
    run_success_frame(&mut r); // uses slot 2
    assert!(!r.may_begin_drawing[2]);
    assert_eq!(r.may_begin_drawing[0], before[0]);
    assert_eq!(r.may_begin_drawing[1], before[1]);
}

#[test]
fn acquire_out_of_date_drops_the_frame_and_recreates() {
    let mut r = VulkanRenderer::new(params(2));
    run_success_frame(&mut r);
    assert_eq!(r.frame_count, 1);
    let slot = r.begin_frame();
    assert_eq!(slot, 0);
    let recreate = r.handle_acquire(AcquireResult::OutOfDate);
    assert!(recreate);
    // the dropped frame was not counted and no fence was touched
    assert_eq!(r.frame_count, 1);
    assert_eq!(r.may_begin_drawing, vec![true, false]);
    r.recreate_swapchain(params(3));
    // the dropped frame was not counted; the renderer starts fresh
    assert_eq!(r.frame_count, 0);
    assert_eq!(r.current_image, 0);
    assert_eq!(r.image_count, 3);
    assert!(matches!(r.phase, FramePhase::Idle));
    run_success_frame(&mut r);
    assert_eq!(r.frame_count, 1);
}

#[test]
fn suboptimal_acquire_is_treated_as_success() {
    let mut r = VulkanRenderer::new(params(2));
    let slot = r.begin_frame();
    let recreate = r.handle_acquire(AcquireResult::Suboptimal { image_index: slot });
    assert!(!recreate);
    r.wait_for_fence();
    r.fill_commandbuffers();
    r.submit_frame();
    let recreate = r.handle_present(PresentResult::Success);
    assert!(!recreate);
    assert_eq!(r.frame_count, 1);
}

#[test]
fn suboptimal_present_recreates_and_rendering_continues() {
    let mut r = VulkanRenderer::new(params(2));
    let slot = r.begin_frame();
    assert!(!r.handle_acquire(AcquireResult::Success { image_index: slot }));
    r.wait_for_fence();
    r.fill_commandbuffers();
    r.submit_frame();
    let recreate = r.handle_present(PresentResult::Suboptimal);
    assert!(recreate);
    r.recreate_swapchain(params(2));
    run_success_frame(&mut r);
    assert_eq!(r.frame_count, 1);
}

#[test]
fn resize_request_recreates_after_a_successful_present() {
    let mut r = VulkanRenderer::new(params(2));
    r.note_framebuffer_resized();
    assert!(r.is_framebuffer_resized);
    let slot = r.begin_frame();
    assert!(!r.handle_acquire(AcquireResult::Success { image_index: slot }));
    r.wait_for_fence();
    r.fill_commandbuffers();
    r.submit_frame();
    let recreate = r.handle_present(PresentResult::Success);
    assert!(recreate);
    r.recreate_swapchain(RecreateParams {
        image_count: 2,
        width: 1024,
        height: 768,
    });
    assert!(!r.is_framebuffer_resized);
    assert_eq!((r.extent_width, r.extent_height), (1024, 768));
}

fn renderer_with_quad(alloc: &mut Allocator) -> VulkanRenderer {
    let mut r = VulkanRenderer::new(params(2));
    let mut o = Object::new(alloc, 4, 6);
    o.update_indices_buffer(&[0, 1, 2, 2, 3, 0]);
    r.game_objects.push(o);
    r
}

fn observable(r: &VulkanRenderer) -> (usize, usize, u64, Vec<bool>, Vec<bool>, Vec<bool>, bool, u32, u32, Vec<Vec<DrawCmd>>) {
    (
        r.image_count,
        r.current_image,
        r.frame_count,
        r.may_begin_drawing.clone(),
        r.image_available.clone(),
        r.rendering_finished.clone(),
        r.is_framebuffer_resized,
        r.extent_width,
        r.extent_height,
        r.command_buffers.clone(),
    )
}

#[test]
fn recreating_twice_in_a_row_equals_recreating_once() {
    let mut alloc = Allocator::new();
    let p = RecreateParams {
        image_count: 3,
        width: 640,
        height: 480,
    };

    let mut once = renderer_with_quad(&mut alloc);
    run_success_frame(&mut once);
    once.recreate_swapchain(p);

    let mut twice = renderer_with_quad(&mut alloc);
    run_success_frame(&mut twice);
    twice.recreate_swapchain(p);
    twice.recreate_swapchain(p);

    assert_eq!(observable(&once), observable(&twice));
    assert!(matches!(once.phase, FramePhase::Idle));
    assert!(matches!(twice.phase, FramePhase::Idle));
}

#[test]
fn command_buffers_reflect_the_object_list() {
    let mut alloc = Allocator::new();
    let mut r = renderer_with_quad(&mut alloc);
    r.fill_commandbuffers();
    assert_eq!(r.command_buffers.len(), 2);
    for cb in &r.command_buffers {
        assert_eq!(cb, &vec![DrawCmd::DrawIndexed { index_count: 6 }]);
    }

    let mut o = Object::new(&mut alloc, 3, 0);
    let vtx = reverie::vertex::Vertex {
        pos: [0, 0, 0, 0],
        color: [0, 0, 0, 0],
    };
    o.update_vertices_buffer(&[vtx, vtx, vtx]);
    r.game_objects.push(o);
    r.fill_commandbuffers();
    for cb in &r.command_buffers {
        assert_eq!(
            cb,
            &vec![
                DrawCmd::DrawIndexed { index_count: 6 },
                DrawCmd::Draw { vertex_count: 3 },
            ]
        );
    }
}

#[test]
fn teardown_waits_for_the_device_then_destroys_everything() {
    let mut alloc = Allocator::new();
    let mut r = renderer_with_quad(&mut alloc);
    let plain = Object::new(&mut alloc, 3, 0);
    r.game_objects.push(plain);
    assert_eq!(alloc.leak_count(), 3);
    for _ in 0..5 {
        run_success_frame(&mut r);
    }

    let steps = r.destroy(&mut alloc);
    assert_eq!(alloc.leak_count(), 0);
    assert_eq!(steps.len(), 2 + 11);
    assert_eq!(steps[0], TeardownStep::WaitIdle);
    assert_eq!(
        steps.iter().filter(|s| **s == TeardownStep::WaitIdle).count(),
        1
    );
    assert_eq!(steps[1], TeardownStep::DestroyObject);
    assert_eq!(steps[2], TeardownStep::DestroyObject);
    assert_eq!(steps[steps.len() - 1], TeardownStep::DestroyInstance);
    assert_eq!(steps[steps.len() - 2], TeardownStep::DestroyDebug);
}

#[test]
fn empty_object_list_records_clear_only_frames() {
    let mut r = VulkanRenderer::new(params(3));
    r.fill_commandbuffers();
    for cb in &r.command_buffers {
        assert!(cb.is_empty());
    }
    run_success_frame(&mut r);
}
