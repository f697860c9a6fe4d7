use quest_renderer::commands::{Extent2D, GpuCommand};
use quest_renderer::frame_slots::EyeCommandBuffer;
use quest_renderer::handles::{
    CommandBufferHandle, FenceHandle, FramebufferHandle, ImageHandle, ImageViewHandle,
    PipelineHandle, RenderPassHandle, SamplerHandle, SwapChainHandle,
};
use quest_renderer::layout::ImageLayout;
use quest_renderer::render_targets::{EyeFrameBuffer, Texture};
use quest_renderer::renderer::{
    FrameContent, FrameDescriptor, RenderAction, RenderError, RenderEvent, RendererError,
    TickPhase, VulkanRenderer,
};
use quest_renderer::swap_chain::EyeTextureSwapChain;

const WIDTH: i32 = 64;
const HEIGHT: i32 = 32;

fn eye_parts(eye: u64, slots: usize) -> (EyeCommandBuffer, EyeFrameBuffer) {
    let base = (eye + 1) * 1000;
    let images: Vec<ImageHandle> = (0..slots as u64).map(|i| ImageHandle(base + i)).collect();
    let chain =
        EyeTextureSwapChain::new(SwapChainHandle(base), slots as i32, slots as i32, images.clone())
            .unwrap();
    let textures: Vec<Texture> = images
        .iter()
        .enumerate()
        .map(|(i, img)| {
            Texture::new(
                WIDTH,
                HEIGHT,
                *img,
                ImageViewHandle(base + 100 + i as u64),
                SamplerHandle(base + 200 + i as u64),
            )
        })
        .collect();
    let fbs: Vec<FramebufferHandle> =
        (0..slots as u64).map(|i| FramebufferHandle(base + 300 + i)).collect();
    let targets = EyeFrameBuffer::new(&chain, WIDTH, HEIGHT, textures, fbs).unwrap();
    let cbs: Vec<CommandBufferHandle> =
        (0..slots as u64).map(|i| CommandBufferHandle(base + 400 + i)).collect();
    let fences: Vec<FenceHandle> = (0..slots as u64).map(|i| FenceHandle(base + 500 + i)).collect();
    (EyeCommandBuffer::new(cbs, fences), targets)
}

fn make_renderer(slots: usize) -> VulkanRenderer {
    let (p0, t0) = eye_parts(0, slots);
    let (p1, t1) = eye_parts(1, slots);
    VulkanRenderer::new(
        RenderPassHandle(7),
        PipelineHandle(8),
        Extent2D { width: WIDTH as u32, height: HEIGHT as u32 },
        vec![p0, p1],
        vec![t0, t1],
    )
    .unwrap()
}

/// What one simulated tick did.
struct TickLog {
    frames: Vec<FrameDescriptor>,
    recorded: Vec<(u64, u64)>,
    fence_polls: usize,
}

/// Runs one tick against a simulated GPU whose fences report "not
/// signalled" `not_signalled` times before they signal.
fn run_tick(r: &mut VulkanRenderer, not_signalled: usize) -> TickLog {
    let mut log = TickLog { frames: Vec::new(), recorded: Vec::new(), fence_polls: 0 };
    let mut pending = not_signalled;
    let mut action = r.render(RenderEvent::Tick).unwrap();
    loop {
        let event = match action {
            RenderAction::SubmitFrame(d) => {
                log.frames.push(d);
                RenderEvent::FrameSubmitted { status: 0 }
            }
            RenderAction::WaitForFence { .. } => {
                log.fence_polls += 1;
                if pending > 0 {
                    pending -= 1;
                    RenderEvent::FenceStatus { signaled: false }
                } else {
                    RenderEvent::FenceStatus { signaled: true }
                }
            }
            RenderAction::ResetFence { .. } => RenderEvent::Done,
            RenderAction::Record { command_buffer, commands } => {
                assert!(!commands.is_empty());
                log.recorded.push((command_buffer.0 / 1000 - 1, command_buffer.0 % 1000 - 400));
                RenderEvent::Done
            }
            RenderAction::QueueSubmit { .. } => RenderEvent::Done,
            RenderAction::EndTick { .. } => break,
        };
        action = r.render(event).unwrap();
    }
    log
}

fn slot_of(d: &FrameDescriptor) -> (usize, usize) {
    match d.content {
        FrameContent::Projection { left, right } => (left.slot_index, right.slot_index),
        FrameContent::Loading => panic!("loading frame has no slots"),
    }
}

#[test]
fn first_tick_shows_loading_frame() {
    let mut r = make_renderer(3);
    let log = run_tick(&mut r, 0);
    assert_eq!(log.frames.len(), 1);
    assert_eq!(log.frames[0].frame_index, 0);
    assert!(log.frames[0].flush);
    assert_eq!(log.frames[0].swap_interval, 1);
    assert_eq!(log.frames[0].content, FrameContent::Loading);
    assert!(log.recorded.is_empty());
    assert_eq!(r.phase, TickPhase::Idle);
}

fn check_cursor_cycle(slots: usize) {
    let mut r = make_renderer(slots);
    run_tick(&mut r, 0);
    for t in 0..(3 * slots + 2) {
        let log = run_tick(&mut r, 0);
        let expected = t % slots;
        assert_eq!(log.recorded, vec![(0, expected as u64), (1, expected as u64)]);
        assert_eq!(slot_of(&log.frames[0]), (expected, expected));
        assert_eq!(r.eye_frame_buffers[0].current_buffer_index, (t + 1) % slots);
        assert_eq!(r.eye_frame_buffers[1].current_buffer_index, (t + 1) % slots);
    }
}

#[test]
fn cursor_cycles_with_one_slot() {
    check_cursor_cycle(1);
}

#[test]
fn cursor_cycles_with_two_slots() {
    check_cursor_cycle(2);
}

#[test]
fn cursor_cycles_with_three_slots() {
    check_cursor_cycle(3);
}

#[test]
fn cursor_cycles_with_eight_slots() {
    check_cursor_cycle(8);
}

#[test]
fn fence_wait_does_not_proceed_early() {
    let mut r = make_renderer(2);
    run_tick(&mut r, 0);
    run_tick(&mut r, 0);
    run_tick(&mut r, 0);
    // Both slots of each eye are now in flight: the next tick reuses slot 0.
    let mut action = r.render(RenderEvent::Tick).unwrap();
    let fence = match action {
        RenderAction::WaitForFence { fence } => fence,
        _ => panic!("expected a fence wait"),
    };
    assert_eq!(fence, FenceHandle(1500));
    for _ in 0..5 {
        action = r.render(RenderEvent::FenceStatus { signaled: false }).unwrap();
        assert!(matches!(action, RenderAction::WaitForFence { fence: f } if f == fence));
        assert_eq!(r.phase, TickPhase::Reclaim { eye: 0 });
        assert!(r.eye_command_buffers[0].fences[0].submitted);
    }
    action = r.render(RenderEvent::FenceStatus { signaled: true }).unwrap();
    assert!(matches!(action, RenderAction::ResetFence { fence: f } if f == fence));
    assert!(!r.eye_command_buffers[0].fences[0].submitted);
    action = r.render(RenderEvent::Done).unwrap();
    assert!(matches!(action, RenderAction::Record { command_buffer, .. } if command_buffer == CommandBufferHandle(1400)));
}

#[test]
fn fence_polls_counted_in_a_tick() {
    let mut r = make_renderer(1);
    run_tick(&mut r, 0);
    let first = run_tick(&mut r, 0);
    assert_eq!(first.fence_polls, 0);
    let second = run_tick(&mut r, 3);
    // Eye 0 is polled four times, eye 1 once.
    assert_eq!(second.fence_polls, 5);
    assert_eq!(second.recorded, vec![(0, 0), (1, 0)]);
}

#[test]
fn single_slot_serialises_without_deadlock() {
    let mut r = make_renderer(1);
    run_tick(&mut r, 0);
    for t in 0..20 {
        let log = run_tick(&mut r, t % 3);
        assert_eq!(log.recorded, vec![(0, 0), (1, 0)]);
        assert_eq!(slot_of(&log.frames[0]), (0, 0));
        assert_eq!(log.frames[0].frame_index, t as u64 + 1);
        assert_eq!(r.phase, TickPhase::Idle);
    }
}

#[test]
fn ten_ticks_end_to_end() {
    let mut r = make_renderer(3);
    let mut frames = Vec::new();
    let mut left = Vec::new();
    let mut right = Vec::new();
    for _ in 0..10 {
        let log = run_tick(&mut r, 1);
        assert_eq!(log.frames.len(), 1);
        let d = log.frames[0];
        if let FrameContent::Projection { left: l, right: rr } = d.content {
            assert_eq!(l.swap_chain, SwapChainHandle(1000));
            assert_eq!(rr.swap_chain, SwapChainHandle(2000));
            left.push(l.slot_index);
            right.push(rr.slot_index);
        }
        frames.push(d);
    }
    assert_eq!(frames.len(), 10);
    assert_eq!(frames[0].content, FrameContent::Loading);
    for w in frames.windows(2) {
        assert!(w[0].frame_index < w[1].frame_index);
    }
    assert_eq!(left, vec![0, 1, 2, 0, 1, 2, 0, 1, 2]);
    assert_eq!(right, left);
}

#[test]
fn ten_real_frames_cycle_slots() {
    let mut r = make_renderer(3);
    run_tick(&mut r, 0);
    let mut left = Vec::new();
    for _ in 0..10 {
        let log = run_tick(&mut r, 0);
        left.push(slot_of(&log.frames[0]).0);
    }
    assert_eq!(left, vec![0, 1, 2, 0, 1, 2, 0, 1, 2, 0]);
}

#[test]
fn recorded_commands_keep_layout_bracket() {
    let mut r = make_renderer(3);
    run_tick(&mut r, 0);
    let action = r.render(RenderEvent::Tick).unwrap();
    let commands = match action {
        RenderAction::Record { commands, .. } => commands,
        _ => panic!("expected a recording"),
    };
    assert_eq!(commands.len(), 11);
    assert_eq!(commands[0], GpuCommand::ResetCommandBuffer);
    assert_eq!(commands[1], GpuCommand::BeginCommandBuffer);
    match (commands[2], commands[9]) {
        (GpuCommand::PipelineBarrier(to), GpuCommand::PipelineBarrier(back)) => {
            assert_eq!(to.image, ImageHandle(1000));
            assert_eq!(to.old_layout, ImageLayout::ShaderReadOnlyOptimal);
            assert_eq!(to.new_layout, ImageLayout::ColorAttachmentOptimal);
            assert_eq!(back.old_layout, ImageLayout::ColorAttachmentOptimal);
            assert_eq!(back.new_layout, ImageLayout::ShaderReadOnlyOptimal);
            assert_eq!(to.src_stage_mask, back.dst_stage_mask);
            assert_eq!(to.dst_stage_mask, back.src_stage_mask);
        }
        _ => panic!("expected barriers"),
    }
    assert_eq!(
        commands[3],
        GpuCommand::BeginRenderPass {
            render_pass: RenderPassHandle(7),
            framebuffer: FramebufferHandle(1300),
            render_area: Extent2D { width: 64, height: 32 },
        }
    );
    assert_eq!(commands[10], GpuCommand::EndCommandBuffer);
}

#[test]
fn unexpected_event_leaves_state() {
    let mut r = make_renderer(3);
    assert_eq!(r.render(RenderEvent::Done).err(), Some(RenderError::UnexpectedEvent));
    assert_eq!(r.phase, TickPhase::Idle);
    assert!(!r.loading_shown);
    r.render(RenderEvent::Tick).unwrap();
    assert_eq!(r.render(RenderEvent::Tick).err(), Some(RenderError::UnexpectedEvent));
    assert_eq!(r.phase, TickPhase::AwaitLoadingSubmit);
}

#[test]
fn refused_frame_is_dropped_not_fatal() {
    let mut r = make_renderer(2);
    r.render(RenderEvent::Tick).unwrap();
    let a = r.render(RenderEvent::FrameSubmitted { status: -1 }).unwrap();
    assert!(matches!(a, RenderAction::EndTick { displayed: false }));
    assert_eq!(r.phase, TickPhase::Idle);
    let log = run_tick(&mut r, 0);
    assert_eq!(log.frames[0].frame_index, 1);
}

#[test]
fn frame_index_exhausted() {
    let mut r = make_renderer(2);
    run_tick(&mut r, 0);
    r.current_frame = u64::MAX;
    assert_eq!(r.render(RenderEvent::Tick).err(), Some(RenderError::FrameIndexExhausted));
    assert_eq!(r.phase, TickPhase::Idle);
}

#[test]
fn renderer_needs_two_aligned_eyes() {
    let (p0, t0) = eye_parts(0, 3);
    let extent = Extent2D { width: 64, height: 32 };
    let r = VulkanRenderer::new(RenderPassHandle(1), PipelineHandle(2), extent, vec![p0], vec![t0]);
    assert_eq!(r.err(), Some(RendererError::EyeCountMismatch));
    let (p0, t0) = eye_parts(0, 3);
    let (p1, _) = eye_parts(1, 2);
    let (_, t1) = eye_parts(1, 3);
    let r = VulkanRenderer::new(RenderPassHandle(1), PipelineHandle(2), extent, vec![p0, p1], vec![t0, t1]);
    assert_eq!(r.err(), Some(RendererError::SlotCountMismatch { eye: 1 }));
}

#[test]
fn compose_names_just_submitted_slots() {
    let mut r = make_renderer(3);
    run_tick(&mut r, 0);
    run_tick(&mut r, 0);
    let d = r.compose_frame();
    assert_eq!(d.frame_index, 1);
    assert!(!d.flush);
    assert_eq!(slot_of(&d), (0, 0));
    assert_eq!(r.eye_frame_buffers[0].current_buffer_index, 1);
    assert_eq!(r.wait_for_fence(0), None);
    run_tick(&mut r, 0);
    run_tick(&mut r, 0);
    assert_eq!(r.wait_for_fence(0), Some(FenceHandle(1500)));
}
