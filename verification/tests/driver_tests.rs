use render_core::driver::{
    AcquireOutcome, FrameOutcome, PresentOutcome, RenderError, Renderer, RendererState,
};
use render_core::recorder::RenderCommand;
use render_core::swap_config::{
    Extent2d, SurfaceCaps, SurfaceFormat, COLOR_SPACE_SRGB_NONLINEAR, EXTENT_UNSET,
    FORMAT_B8G8R8A8_SRGB, PRESENT_MODE_FIFO, PRESENT_MODE_MAILBOX,
};

fn caps_fixed(extent: (u32, u32)) -> SurfaceCaps {
    SurfaceCaps {
        min_image_count: 2,
        max_image_count: 4,
        current_extent: Extent2d { width: extent.0, height: extent.1 },
        min_image_extent: Extent2d { width: 1, height: 1 },
        max_image_extent: Extent2d { width: 4096, height: 4096 },
    }
}

fn formats() -> Vec<SurfaceFormat> {
    vec![SurfaceFormat { format: FORMAT_B8G8R8A8_SRGB, color_space: COLOR_SPACE_SRGB_NONLINEAR }]
}

fn modes() -> Vec<u32> {
    vec![PRESENT_MODE_FIFO, PRESENT_MODE_MAILBOX]
}

fn new_renderer() -> Renderer {
    Renderer::initialize(
        &caps_fixed((800, 600)),
        &formats(),
        &modes(),
        Extent2d { width: 800, height: 600 },
        2,
        6,
    )
}

#[test]
fn initialize_builds_one_live_chain() {
    let r = new_renderer();
    assert_eq!(r.state(), RendererState::Ready);
    assert_eq!(r.generation(), 1);
    assert_eq!(r.live_chains(), 1);
    assert!(!r.resize_pending());
    let cfg = r.config();
    assert_eq!(cfg.extent, Extent2d { width: 800, height: 600 });
    assert_eq!(cfg.image_count, 3);
    assert_eq!(cfg.present_mode, PRESENT_MODE_MAILBOX);
    assert_eq!(r.frame_sync().frames_in_flight(), 2);
}

#[test]
fn slot_sequence_for_three_frames() {
    // F = 2, three renderFrame calls with no GPU delay: slots 0, 1, 0 and
    // the first two fence waits return immediately.
    let mut r = new_renderer();
    let data: Vec<u8> = vec![1, 2, 3, 4];
    let r1 = r.render_frame(AcquireOutcome::Image(0), PresentOutcome::Presented, 0, &data);
    let r2 = r.render_frame(AcquireOutcome::Image(1), PresentOutcome::Presented, 0, &data);
    let r3 = r.render_frame(AcquireOutcome::Image(2), PresentOutcome::Presented, 0, &data);
    assert_eq!(r1, Ok(FrameOutcome::Rendered { waited: false }));
    assert_eq!(r2, Ok(FrameOutcome::Rendered { waited: false }));
    assert!(matches!(r3, Ok(FrameOutcome::Rendered { .. })));
    let sync = r.frame_sync();
    assert_eq!(sync.frames_submitted(), 3);
    assert_eq!(sync.history_at(0).slot, 0);
    assert_eq!(sync.history_at(1).slot, 1);
    assert_eq!(sync.history_at(2).slot, 0);
}

#[test]
fn uniform_update_touches_only_the_acquired_image() {
    let mut r = new_renderer();
    let first: Vec<u8> = vec![7, 7, 7];
    let second: Vec<u8> = vec![9];
    r.render_frame(AcquireOutcome::Image(0), PresentOutcome::Presented, 0, &first).unwrap();
    r.render_frame(AcquireOutcome::Image(2), PresentOutcome::Presented, 0, &second).unwrap();
    assert_eq!(r.uniform_bytes(0), first);
    assert_eq!(r.uniform_bytes(1), Vec::<u8>::new());
    assert_eq!(r.uniform_bytes(2), second);
}

#[test]
fn out_of_date_acquire_skips_and_demands_rebuild() {
    let mut r = new_renderer();
    let data: Vec<u8> = vec![];
    let out = r.render_frame(AcquireOutcome::OutOfDate, PresentOutcome::Presented, 0, &data);
    assert_eq!(out, Ok(FrameOutcome::SkippedNeedsRebuild));
    assert_eq!(r.state(), RendererState::NeedsRebuild);
    // The abandoned frame submitted nothing.
    assert_eq!(r.frame_sync().frames_submitted(), 0);
}

#[test]
fn suboptimal_present_still_renders_then_demands_rebuild() {
    let mut r = new_renderer();
    let data: Vec<u8> = vec![5];
    let out = r.render_frame(AcquireOutcome::Image(0), PresentOutcome::Suboptimal, 0, &data);
    assert_eq!(out, Ok(FrameOutcome::RenderedNeedsRebuild { waited: false }));
    assert_eq!(r.state(), RendererState::NeedsRebuild);
    // The frame was submitted before presentation reported out-of-date.
    assert_eq!(r.frame_sync().frames_submitted(), 1);
}

#[test]
fn resize_flag_is_consumed_at_start_of_next_frame() {
    let mut r = new_renderer();
    r.notify_resize();
    assert!(r.resize_pending());
    let data: Vec<u8> = vec![1];
    let out = r.render_frame(AcquireOutcome::Image(0), PresentOutcome::Presented, 0, &data);
    assert_eq!(out, Ok(FrameOutcome::SkippedNeedsRebuild));
    assert_eq!(r.state(), RendererState::NeedsRebuild);
    assert_eq!(r.frame_sync().frames_submitted(), 0);
    r.rebuild(&caps_fixed((1024, 768)), &formats(), &modes());
    assert!(!r.resize_pending());
    assert_eq!(r.state(), RendererState::Ready);
}

#[test]
fn rebuild_repeated_keeps_one_live_chain() {
    // N consecutive rebuilds with no frames between leave the renderer
    // ready, with exactly one live chain and nothing leaked.
    let mut r = new_renderer();
    let caps = caps_fixed((640, 480));
    let mut last_config = None;
    for _ in 0..5 {
        r.rebuild(&caps, &formats(), &modes());
        assert_eq!(r.state(), RendererState::Ready);
        assert_eq!(r.live_chains(), 1);
        let cfg = r.config();
        if let Some(prev) = last_config {
            assert_eq!(cfg, prev);
        }
        last_config = Some(cfg);
    }
    assert_eq!(r.generation(), 6);
    assert_eq!(r.config().extent, Extent2d { width: 640, height: 480 });
}

#[test]
fn rebuild_rerecords_against_new_generation() {
    let mut r = new_renderer();
    r.rebuild(&caps_fixed((320, 200)), &formats(), &modes());
    assert_eq!(r.generation(), 2);
    let cmd = r.command_at(1);
    assert_eq!(cmd.generation, 2);
    assert_eq!(cmd.image_index, 1);
    assert_eq!(cmd.commands[0], RenderCommand::BeginRenderPass { width: 320, height: 200 });
    assert_eq!(cmd.commands[6], RenderCommand::BindDescriptorSet { image_index: 1 });
    assert_eq!(cmd.commands[7], RenderCommand::DrawIndexed { index_count: 6 });
    assert_eq!(cmd.commands[8], RenderCommand::EndRenderPass);
}

#[test]
fn rebuild_waits_for_device_idle_first() {
    let mut r = new_renderer();
    let data: Vec<u8> = vec![1];
    r.render_frame(AcquireOutcome::Image(0), PresentOutcome::Presented, 120, &data).unwrap();
    r.rebuild(&caps_fixed((800, 600)), &formats(), &modes());
    // The device-idle wait ran: simulated time reached the submitted
    // frame's completion.
    assert_eq!(r.frame_sync().now(), 120);
}

#[test]
fn stale_image_index_is_a_contract_violation() {
    let mut r = new_renderer();
    let data: Vec<u8> = vec![1];
    let out = r.render_frame(AcquireOutcome::Image(3), PresentOutcome::Presented, 0, &data);
    assert_eq!(out, Err(RenderError::StaleImageIndex));
    assert_eq!(r.state(), RendererState::Ready);
    assert_eq!(r.frame_sync().frames_submitted(), 0);
}

#[test]
fn fatal_acquire_is_fatal() {
    let mut r = new_renderer();
    let data: Vec<u8> = vec![];
    let out = r.render_frame(AcquireOutcome::Fatal, PresentOutcome::Presented, 0, &data);
    assert_eq!(out, Err(RenderError::AcquireFailed));
    assert_eq!(r.state(), RendererState::Ready);
}

#[test]
fn fatal_present_is_fatal_after_submission() {
    let mut r = new_renderer();
    let data: Vec<u8> = vec![];
    let out = r.render_frame(AcquireOutcome::Image(0), PresentOutcome::Fatal, 0, &data);
    assert_eq!(out, Err(RenderError::PresentFailed));
    assert_eq!(r.frame_sync().frames_submitted(), 1);
}

#[test]
fn shutdown_destroys_everything_after_idle() {
    let mut r = new_renderer();
    let data: Vec<u8> = vec![2];
    r.render_frame(AcquireOutcome::Image(0), PresentOutcome::Presented, 30, &data).unwrap();
    r.shutdown();
    assert_eq!(r.state(), RendererState::Destroyed);
    assert_eq!(r.live_chains(), 0);
    assert_eq!(r.frame_sync().now(), 30);
}

#[test]
fn extent_rechosen_from_desired_on_rebuild() {
    // The surface leaves the extent unset: the stored desired extent is
    // clamped into the new bounds.
    let mut r = new_renderer();
    let unset = SurfaceCaps {
        min_image_count: 2,
        max_image_count: 0,
        current_extent: Extent2d { width: EXTENT_UNSET, height: 0 },
        min_image_extent: Extent2d { width: 1000, height: 1000 },
        max_image_extent: Extent2d { width: 2000, height: 2000 },
    };
    r.rebuild(&unset, &formats(), &modes());
    assert_eq!(r.config().extent, Extent2d { width: 1000, height: 1000 });
    assert_eq!(r.config().image_count, 3);
}
