use crate::commands::{frame_commands, write_command_buffer, Extent2D, GpuCommand};
use crate::frame_slots::{EyeCommandBuffer, FrameFence};
use crate::handles::{
    CommandBufferHandle, FenceHandle, PipelineHandle, RenderPassHandle, SwapChainHandle,
};
use crate::render_targets::EyeFrameBuffer;
use vstd::prelude::*;

verus! {

/// Number of eyes, each with its own swap chain, render targets and slots.
pub const EYE_COUNT: usize = 2;

/// The swap-chain image one eye hands to the compositor.
#[derive(Clone, Copy, PartialEq, Eq, Structural, Debug)]
pub struct EyeImage {
    pub swap_chain: SwapChainHandle,
    pub slot_index: usize,
}

/// What a frame shows.
#[derive(Clone, Copy, PartialEq, Eq, Structural, Debug)]
pub enum FrameContent {
    /// The placeholder shown while the renderer warms up: a black layer
    /// under the compositor's loading icon.
    Loading,
    /// Each eye's just-rendered swap-chain image, projected with the
    /// predicted head pose.
    Projection { left: EyeImage, right: EyeImage },
}

/// The per-tick hand-off to the compositor. Display time, head pose and the
/// eyes' texture transforms are queried from the compositor where the
/// frame is submitted.
#[derive(Clone, Copy, PartialEq, Eq, Structural, Debug)]
pub struct FrameDescriptor {
    pub frame_index: u64,
    pub swap_interval: u32,
    pub flush: bool,
    pub content: FrameContent,
}

/// Where the renderer stands within a display tick.
#[derive(Clone, Copy, PartialEq, Eq, Structural, Debug)]
pub enum TickPhase {
    /// Between ticks.
    Idle,
    /// The loading frame was handed out; its submission is awaited.
    AwaitLoadingSubmit,
    /// The eye's current slot is in flight; its fence is awaited.
    Reclaim { eye: usize },
    /// The eye's fence signalled and is being reset.
    ResetFence { eye: usize },
    /// The eye's commands are being recorded.
    Record { eye: usize },
    /// The eye's command buffer is being submitted to the queue.
    Submit { eye: usize },
    /// Both eyes are submitted; the frame's submission to the compositor is awaited.
    AwaitFrameSubmit,
}

/// What the embedding loop reports back.
#[derive(Clone, Copy, PartialEq, Eq, Structural, Debug)]
pub enum RenderEvent {
    /// A new display tick starts.
    Tick,
    /// The awaited fence was checked; `signaled` tells whether it has signalled.
    FenceStatus { signaled: bool },
    /// The last GPU action asked for completed.
    Done,
    /// The compositor answered a frame submission with `status` (0 is success).
    FrameSubmitted { status: i32 },
}

/// What the embedding loop is asked to do next.
pub enum RenderAction {
    /// Hand the frame to the compositor, then report `FrameSubmitted`.
    SubmitFrame(FrameDescriptor),
    /// Check or wait for the fence, then report `FenceStatus`.
    WaitForFence { fence: FenceHandle },
    /// Reset the signalled fence, then report `Done`.
    ResetFence { fence: FenceHandle },
    /// Record `commands` into the command buffer, then report `Done`.
    Record { command_buffer: CommandBufferHandle, commands: Vec<GpuCommand> },
    /// Submit the command buffer to the graphics queue so that it signals
    /// the fence, then report `Done`.
    QueueSubmit { command_buffer: CommandBufferHandle, fence: FenceHandle },
    /// The tick is over; `displayed` tells whether the compositor took the frame.
    EndTick { displayed: bool },
}

/// Why an event was refused; the renderer's state is left as it was.
#[derive(Clone, Copy, PartialEq, Eq, Structural, Debug)]
pub enum RenderError {
    /// The event does not answer the action last asked for.
    UnexpectedEvent,
    /// No frame index is left to number another frame.
    FrameIndexExhausted,
}

/// Why a renderer cannot be put together from its parts.
#[derive(Clone, Copy, PartialEq, Eq, Structural, Debug)]
pub enum RendererError {
    /// Other than one slot pool and one set of render targets per eye.
    EyeCountMismatch,
    /// An eye's slot count differs from its swap-chain length.
    SlotCountMismatch { eye: usize },
}

/// The loading frame: shown once, flushing whatever the compositor held.
pub open spec fn loading_descriptor(frame_index: u64) -> FrameDescriptor {
    FrameDescriptor { frame_index, swap_interval: 1, flush: true, content: FrameContent::Loading }
}

/// The slot an eye renders its `k`-th frame into, counting from 0.
pub open spec fn slot_for_frame(k: int, slot_count: int) -> int {
    k % slot_count
}

/// Drives the display ticks of both eyes. Each eye's slots are used in turn,
/// one per frame, and a slot is recorded again only after the fence of its
/// last submission has signalled.
pub struct VulkanRenderer {
    pub current_frame: u64,
    pub loading_shown: bool,
    pub render_pass: RenderPassHandle,
    pub graphics_pipeline: PipelineHandle,
    pub extent: Extent2D,
    pub eye_command_buffers: Vec<EyeCommandBuffer>,
    pub eye_frame_buffers: Vec<EyeFrameBuffer>,
    pub phase: TickPhase,
}

impl VulkanRenderer {
    pub open spec fn slot_count(&self, e: int) -> int {
        self.eye_command_buffers@[e].num_buffers as int
    }

    pub open spec fn cursor(&self, e: int) -> int {
        self.eye_frame_buffers@[e].current_buffer_index as int
    }

    pub open spec fn in_flight(&self, e: int, slot: int) -> bool {
        self.eye_command_buffers@[e].in_flight(slot)
    }

    pub open spec fn fence_at(&self, e: int, slot: int) -> FenceHandle {
        self.eye_command_buffers@[e].fences@[slot].fence
    }

    pub open spec fn command_buffer_at(&self, e: int, slot: int) -> CommandBufferHandle {
        self.eye_command_buffers@[e].command_buffers@[slot]
    }

    /// The eye whose frame is under way, if any.
    pub open spec fn active_eye(phase: TickPhase) -> Option<int> {
        match phase {
            TickPhase::Reclaim { eye } => Some(eye as int),
            TickPhase::ResetFence { eye } => Some(eye as int),
            TickPhase::Record { eye } => Some(eye as int),
            TickPhase::Submit { eye } => Some(eye as int),
            _ => None,
        }
    }

    /// How many frames eye `e` has submitted so far.
    pub open spec fn frames_submitted(&self, e: int) -> int {
        match Self::active_eye(self.phase) {
            Some(a) => if e < a {
                self.current_frame as int
            } else {
                self.current_frame - 1
            },
            None => self.current_frame as int,
        }
    }

    pub open spec fn eye_wf(&self, e: int) -> bool {
        self.cursor(e) == slot_for_frame(self.frames_submitted(e), self.slot_count(e))
    }

    /// The eyes' parts are each well formed, with one slot per swap-chain image.
    pub open spec fn shape_wf(&self) -> bool {
        &&& self.eye_command_buffers@.len() == EYE_COUNT
        &&& self.eye_frame_buffers@.len() == EYE_COUNT
        &&& forall|e: int| 0 <= e < EYE_COUNT ==> {
            let pool = #[trigger] self.eye_command_buffers@[e];
            let targets = self.eye_frame_buffers@[e];
            &&& pool.wf()
            &&& targets.wf()
            &&& pool.num_buffers == targets.swap_chain_length
        }
    }

    pub open spec fn wf(&self) -> bool {
        &&& self.shape_wf()
        &&& self.eye_wf(0)
        &&& self.eye_wf(1)
        &&& !self.loading_shown ==> self.current_frame == 0
        &&& self.phase == TickPhase::AwaitLoadingSubmit ==> self.current_frame == 0
        &&& match Self::active_eye(self.phase) {
            Some(e) => {
                &&& 0 <= e < EYE_COUNT
                &&& self.current_frame >= 1
                &&& self.loading_shown
                &&& match self.phase {
                    TickPhase::Reclaim { .. } => self.in_flight(e, self.cursor(e)),
                    _ => !self.in_flight(e, self.cursor(e)),
                }
            },
            None => true,
        }
    }

    /// The parts of eye `e` that no tick changes.
    pub open spec fn eye_config_eq(a: &Self, b: &Self, e: int) -> bool {
        let pa = a.eye_command_buffers@[e];
        let pb = b.eye_command_buffers@[e];
        let ta = a.eye_frame_buffers@[e];
        let tb = b.eye_frame_buffers@[e];
        &&& pa.num_buffers == pb.num_buffers
        &&& pa.command_buffers@ == pb.command_buffers@
        &&& pa.fences@.len() == pb.fences@.len()
        &&& forall|s: int| 0 <= s < pa.fences@.len() ==> (#[trigger] pa.fences@[s]).fence == pb.fences@[s].fence
        &&& ta.width == tb.width
        &&& ta.height == tb.height
        &&& ta.swapchain_handle == tb.swapchain_handle
        &&& ta.swap_chain_length == tb.swap_chain_length
        &&& ta.display_textures@ == tb.display_textures@
        &&& ta.frame_buffers@ == tb.frame_buffers@
    }

    /// The parts of the renderer that no tick changes.
    pub open spec fn config_eq(a: &Self, b: &Self) -> bool {
        &&& a.render_pass == b.render_pass
        &&& a.graphics_pipeline == b.graphics_pipeline
        &&& a.extent == b.extent
        &&& a.eye_command_buffers@.len() == b.eye_command_buffers@.len()
        &&& a.eye_frame_buffers@.len() == b.eye_frame_buffers@.len()
        &&& Self::eye_config_eq(a, b, 0)
        &&& Self::eye_config_eq(a, b, 1)
    }

    /// Eye `e`'s cursor and in-flight flags agree in `a` and `b`.
    pub open spec fn eye_slots_eq(a: &Self, b: &Self, e: int) -> bool {
        &&& a.cursor(e) == b.cursor(e)
        &&& a.eye_command_buffers@[e].fences@ == b.eye_command_buffers@[e].fences@
    }

    /// Everything but the phase and the frame counters agrees.
    pub open spec fn slots_eq(a: &Self, b: &Self) -> bool {
        &&& Self::config_eq(a, b)
        &&& Self::eye_slots_eq(a, b, 0)
        &&& Self::eye_slots_eq(a, b, 1)
    }

    pub open spec fn unchanged(a: &Self, b: &Self) -> bool {
        &&& Self::slots_eq(a, b)
        &&& a.phase == b.phase
        &&& a.current_frame == b.current_frame
        &&& a.loading_shown == b.loading_shown
    }

    /// The commands for eye `e`'s current slot.
    pub open spec fn eye_commands(&self, e: int) -> Seq<GpuCommand> {
        let slot = self.cursor(e);
        let targets = self.eye_frame_buffers@[e];
        frame_commands(
            targets.display_textures@[slot].image,
            targets.frame_buffers@[slot],
            self.render_pass,
            self.extent,
            self.graphics_pipeline,
        )
    }

    /// `a` asks to record eye `e`'s current slot of `self`.
    pub open spec fn is_record_action(&self, e: int, a: RenderAction) -> bool {
        a matches RenderAction::Record { command_buffer, commands } && command_buffer
            == self.command_buffer_at(e, self.cursor(e)) && commands@ == self.eye_commands(e)
    }

    /// Eye `e` of `new` starts its frame as `old` stood: the renderer waits
    /// for the current slot's fence if it is in flight, and records it
    /// otherwise.
    pub open spec fn begins_eye(new: &Self, e: int, r: Result<RenderAction, RenderError>) -> bool {
        if new.in_flight(e, new.cursor(e)) {
            &&& new.phase == (TickPhase::Reclaim { eye: e as usize })
            &&& r matches Ok(RenderAction::WaitForFence { fence }) && fence == new.fence_at(
                e,
                new.cursor(e),
            )
        } else {
            &&& new.phase == (TickPhase::Record { eye: e as usize })
            &&& r matches Ok(a) && new.is_record_action(e, a)
        }
    }

    /// The frame that hands both eyes' images of frame `self.current_frame`
    /// to the compositor.
    pub open spec fn projection_descriptor(&self) -> FrameDescriptor {
        FrameDescriptor {
            frame_index: self.current_frame,
            swap_interval: 1,
            flush: false,
            content: FrameContent::Projection {
                left: EyeImage {
                    swap_chain: self.eye_frame_buffers@[0].swapchain_handle,
                    slot_index: slot_for_frame(self.current_frame - 1, self.slot_count(0)) as usize,
                },
                right: EyeImage {
                    swap_chain: self.eye_frame_buffers@[1].swapchain_handle,
                    slot_index: slot_for_frame(self.current_frame - 1, self.slot_count(1)) as usize,
                },
            },
        }
    }

    /// Whether `ev` answers what was asked for in `phase`.
    pub open spec fn expects(phase: TickPhase, ev: RenderEvent) -> bool {
        match phase {
            TickPhase::Idle => ev == RenderEvent::Tick,
            TickPhase::AwaitLoadingSubmit => ev is FrameSubmitted,
            TickPhase::Reclaim { .. } => ev is FenceStatus,
            TickPhase::ResetFence { .. } => ev == RenderEvent::Done,
            TickPhase::Record { .. } => ev == RenderEvent::Done,
            TickPhase::Submit { .. } => ev == RenderEvent::Done,
            TickPhase::AwaitFrameSubmit => ev is FrameSubmitted,
        }
    }

    /// One step of a display tick: what follows `ev` from the state `old`.
    pub open spec fn step(old: &Self, new: &Self, ev: RenderEvent, r: Result<RenderAction, RenderError>) -> bool {
        if !Self::expects(old.phase, ev) {
            r == Err::<RenderAction, RenderError>(RenderError::UnexpectedEvent) && Self::unchanged(old, new)
        } else {
            match old.phase {
                TickPhase::Idle => if !old.loading_shown {
                    &&& Self::slots_eq(old, new)
                    &&& new.loading_shown
                    &&& new.current_frame == old.current_frame
                    &&& new.phase == TickPhase::AwaitLoadingSubmit
                    &&& r matches Ok(RenderAction::SubmitFrame(d)) && d == loading_descriptor(old.current_frame)
                } else if old.current_frame == u64::MAX {
                    r == Err::<RenderAction, RenderError>(RenderError::FrameIndexExhausted) && Self::unchanged(old, new)
                } else {
                    &&& Self::slots_eq(old, new)
                    &&& new.loading_shown
                    &&& new.current_frame == old.current_frame + 1
                    &&& Self::begins_eye(new, 0, r)
                },
                TickPhase::Reclaim { eye } => {
                    let e = eye as int;
                    let slot = old.cursor(e);
                    if ev == (RenderEvent::FenceStatus { signaled: false }) {
                        &&& Self::unchanged(old, new)
                        &&& r matches Ok(RenderAction::WaitForFence { fence }) && fence == old.fence_at(e, slot)
                    } else {
                        &&& Self::config_eq(old, new)
                        &&& Self::eye_slots_eq(old, new, 1 - e)
                        &&& new.cursor(e) == slot
                        &&& new.eye_command_buffers@[e].fences@ == old.eye_command_buffers@[e].fences@.update(
                            slot,
                            FrameFence { fence: old.fence_at(e, slot), submitted: false },
                        )
                        &&& new.current_frame == old.current_frame
                        &&& new.loading_shown == old.loading_shown
                        &&& new.phase == (TickPhase::ResetFence { eye })
                        &&& r matches Ok(RenderAction::ResetFence { fence }) && fence == old.fence_at(e, slot)
                    }
                },
                TickPhase::ResetFence { eye } => {
                    &&& Self::slots_eq(old, new)
                    &&& new.current_frame == old.current_frame
                    &&& new.loading_shown == old.loading_shown
                    &&& new.phase == (TickPhase::Record { eye })
                    &&& r matches Ok(a) && old.is_record_action(eye as int, a)
                },
                TickPhase::Record { eye } => {
                    let e = eye as int;
                    &&& Self::slots_eq(old, new)
                    &&& new.current_frame == old.current_frame
                    &&& new.loading_shown == old.loading_shown
                    &&& new.phase == (TickPhase::Submit { eye })
                    &&& r matches Ok(RenderAction::QueueSubmit { command_buffer, fence })
                        && command_buffer == old.command_buffer_at(e, old.cursor(e))
                        && fence == old.fence_at(e, old.cursor(e))
                },
                TickPhase::Submit { eye } => {
                    let e = eye as int;
                    let slot = old.cursor(e);
                    &&& Self::config_eq(old, new)
                    &&& Self::eye_slots_eq(old, new, 1 - e)
                    &&& new.cursor(e) == (slot + 1) % old.slot_count(e)
                    &&& new.eye_command_buffers@[e].fences@ == old.eye_command_buffers@[e].fences@.update(
                        slot,
                        FrameFence { fence: old.fence_at(e, slot), submitted: true },
                    )
                    &&& new.current_frame == old.current_frame
                    &&& new.loading_shown == old.loading_shown
                    &&& if e == 0 {
                        Self::begins_eye(new, 1, r)
                    } else {
                        &&& new.phase == TickPhase::AwaitFrameSubmit
                        &&& r matches Ok(RenderAction::SubmitFrame(d)) && d == old.projection_descriptor()
                    }
                },
                _ => {
                    &&& Self::slots_eq(old, new)
                    &&& new.current_frame == old.current_frame
                    &&& new.loading_shown == old.loading_shown
                    &&& new.phase == TickPhase::Idle
                    &&& r matches Ok(RenderAction::EndTick { displayed }) && (ev matches RenderEvent::FrameSubmitted { status } && displayed == (status == 0))
                },
            }
        }
    }
}

proof fn lemma_next_slot(f: int, n: int)
    requires
        n >= 1,
        f >= 0,
    ensures
        ((f % n) + 1) % n == (f + 1) % n,
{
    vstd::arithmetic::div_mod::lemma_add_mod_noop(f, 1, n);
    if n == 1 {
        assert((f + 1) % 1 == 0);
        assert((f % 1 + 1) % 1 == 0);
    } else {
        vstd::arithmetic::div_mod::lemma_small_mod(1, n as nat);
    }
}

impl VulkanRenderer {
    /// Puts the renderer together from one slot pool and one set of render
    /// targets per eye, fresh from their constructors. Each eye needs as many
    /// slots as its swap chain has images.
    pub fn new(
        render_pass: RenderPassHandle,
        graphics_pipeline: PipelineHandle,
        extent: Extent2D,
        eye_command_buffers: Vec<EyeCommandBuffer>,
        eye_frame_buffers: Vec<EyeFrameBuffer>,
    ) -> (r: Result<Self, RendererError>)
        requires
            forall|e: int|
                0 <= e < eye_command_buffers@.len() ==> (#[trigger] eye_command_buffers@[e]).wf(),
            forall|e: int, s: int|
                0 <= e < eye_command_buffers@.len() && 0 <= s
                    < eye_command_buffers@[e].num_buffers ==> !(
                #[trigger] eye_command_buffers@[e].in_flight(s)),
            forall|e: int|
                0 <= e < eye_frame_buffers@.len() ==> (#[trigger] eye_frame_buffers@[e]).wf()
                    && eye_frame_buffers@[e].current_buffer_index == 0,
        ensures
            (eye_command_buffers@.len() != EYE_COUNT || eye_frame_buffers@.len() != EYE_COUNT)
                ==> r == Err::<Self, RendererError>(RendererError::EyeCountMismatch),
            (eye_command_buffers@.len() == EYE_COUNT && eye_frame_buffers@.len() == EYE_COUNT) ==> {
                let aligned = |e: int|
                    eye_command_buffers@[e].num_buffers == eye_frame_buffers@[e].swap_chain_length;
                &&& !aligned(0) ==> r == Err::<Self, RendererError>(
                    RendererError::SlotCountMismatch { eye: 0 },
                )
                &&& aligned(0) && !aligned(1) ==> r == Err::<Self, RendererError>(
                    RendererError::SlotCountMismatch { eye: 1 },
                )
                &&& aligned(0) && aligned(1) ==> r is Ok
            },
            r matches Ok(s) ==> {
                &&& s.wf()
                &&& s.current_frame == 0
                &&& !s.loading_shown
                &&& s.phase == TickPhase::Idle
                &&& s.render_pass == render_pass
                &&& s.graphics_pipeline == graphics_pipeline
                &&& s.extent == extent
                &&& s.eye_command_buffers@ == eye_command_buffers@
                &&& s.eye_frame_buffers@ == eye_frame_buffers@
            },
    {
        if eye_command_buffers.len() != EYE_COUNT || eye_frame_buffers.len() != EYE_COUNT {
            return Err(RendererError::EyeCountMismatch);
        }
        let mut eye: usize = 0;
        while eye < EYE_COUNT
            invariant
                eye <= EYE_COUNT,
                eye_command_buffers@.len() == EYE_COUNT,
                eye_frame_buffers@.len() == EYE_COUNT,
                forall|e: int|
                    0 <= e < EYE_COUNT ==> (#[trigger] eye_frame_buffers@[e]).wf(),
                forall|e: int|
                    0 <= e < eye ==> (#[trigger] eye_command_buffers@[e]).num_buffers
                        == eye_frame_buffers@[e].swap_chain_length,
            decreases EYE_COUNT - eye,
        {
            if eye_command_buffers[eye].num_buffers != eye_frame_buffers[eye].swap_chain_length as usize {
                return Err(RendererError::SlotCountMismatch { eye });
            }
            eye = eye + 1;
        }
        let r = VulkanRenderer {
            current_frame: 0,
            loading_shown: false,
            render_pass,
            graphics_pipeline,
            extent,
            eye_command_buffers,
            eye_frame_buffers,
            phase: TickPhase::Idle,
        };
        proof {
            assert(r.eye_command_buffers@[0].wf());
            assert(r.eye_command_buffers@[1].wf());
            assert(r.eye_frame_buffers@[0].wf());
            assert(r.eye_frame_buffers@[1].wf());
            vstd::arithmetic::div_mod::lemma_small_mod(0, r.slot_count(0) as nat);
            vstd::arithmetic::div_mod::lemma_small_mod(0, r.slot_count(1) as nat);
        }
        Ok(r)
    }

    /// The loading frame shown on the first tick, flagged to flush what the
    /// compositor held before.
    pub fn render_loading_scene(&self) -> (r: FrameDescriptor)
        ensures
            r == loading_descriptor(self.current_frame),
    {
        FrameDescriptor {
            frame_index: self.current_frame,
            swap_interval: 1,
            flush: true,
            content: FrameContent::Loading,
        }
    }

    /// The fence to wait for before eye `eye`'s current slot is recorded
    /// again, if work submitted from it may still be running.
    pub fn wait_for_fence(&self, eye: usize) -> (r: Option<FenceHandle>)
        requires
            self.shape_wf(),
            eye < EYE_COUNT,
        ensures
            r == (if self.in_flight(eye as int, self.cursor(eye as int)) {
                Some(self.fence_at(eye as int, self.cursor(eye as int)))
            } else {
                None::<FenceHandle>
            }),
    {
        let slot = self.eye_frame_buffers[eye].current_buffer_index;
        let pool = &self.eye_command_buffers[eye];
        if pool.needs_wait(slot) {
            Some(pool.fence(slot))
        } else {
            None
        }
    }

    /// The recording of eye `eye`'s frame into its current slot. The slot
    /// must not be in flight.
    pub fn draw_frame(&self, eye: usize) -> (r: RenderAction)
        requires
            self.shape_wf(),
            eye < EYE_COUNT,
            !self.in_flight(eye as int, self.cursor(eye as int)),
        ensures
            self.is_record_action(eye as int, r),
    {
        let targets = &self.eye_frame_buffers[eye];
        let slot = targets.current_buffer_index;
        let texture = &targets.display_textures[slot];
        let commands = write_command_buffer(
            texture.image,
            targets.frame_buffers[slot],
            self.render_pass,
            self.extent,
            self.graphics_pipeline,
        );
        RenderAction::Record {
            command_buffer: self.eye_command_buffers[eye].command_buffer(slot),
            commands,
        }
    }

    /// The frame that hands both eyes' just-submitted images to the compositor.
    pub fn compose_frame(&self) -> (r: FrameDescriptor)
        requires
            self.shape_wf(),
            self.current_frame >= 1,
        ensures
            r == self.projection_descriptor(),
    {
        let index = self.current_frame - 1;
        let left_slots = self.eye_command_buffers[0].num_buffers;
        let right_slots = self.eye_command_buffers[1].num_buffers;
        let left = EyeImage {
            swap_chain: self.eye_frame_buffers[0].swapchain_handle,
            slot_index: (index % (left_slots as u64)) as usize,
        };
        let right = EyeImage {
            swap_chain: self.eye_frame_buffers[1].swapchain_handle,
            slot_index: (index % (right_slots as u64)) as usize,
        };
        FrameDescriptor {
            frame_index: self.current_frame,
            swap_interval: 1,
            flush: false,
            content: FrameContent::Projection { left, right },
        }
    }

    /// How eye `eye` starts its frame: by waiting for its current slot's
    /// fence if that slot is in flight, else by recording it.
    fn eye_start(&self, eye: usize) -> (r: (TickPhase, RenderAction))
        requires
            self.shape_wf(),
            eye < EYE_COUNT,
        ensures
            if self.in_flight(eye as int, self.cursor(eye as int)) {
                &&& r.0 == (TickPhase::Reclaim { eye })
                &&& r.1 matches RenderAction::WaitForFence { fence } && fence == self.fence_at(
                    eye as int,
                    self.cursor(eye as int),
                )
            } else {
                &&& r.0 == (TickPhase::Record { eye })
                &&& self.is_record_action(eye as int, r.1)
            },
    {
        match self.wait_for_fence(eye) {
            Some(fence) => (TickPhase::Reclaim { eye }, RenderAction::WaitForFence { fence }),
            None => (TickPhase::Record { eye }, self.draw_frame(eye)),
        }
    }

    /// Advances the display tick by one step: takes what the embedding loop
    /// reports and returns what it must do next.
    ///
    /// The first tick shows the loading frame. Every later tick numbers a new
    /// frame and takes each eye in turn through its current slot: wait for
    /// the slot's fence while work from it is in flight, reset the fence,
    /// record, submit, and move the eye's cursor to the next slot. Once both
    /// eyes are submitted, the frame naming the slots just submitted goes to
    /// the compositor; a frame it refuses is dropped and the next tick goes on.
    pub fn render(&mut self, event: RenderEvent) -> (r: Result<RenderAction, RenderError>)
        requires
            old(self).wf(),
        ensures
            final(self).wf(),
            Self::step(old(self), final(self), event, r),
    {
        match self.phase {
            TickPhase::Idle => {
                if event != RenderEvent::Tick {
                    return Err(RenderError::UnexpectedEvent);
                }
                if !self.loading_shown {
                    let descriptor = self.render_loading_scene();
                    self.loading_shown = true;
                    self.phase = TickPhase::AwaitLoadingSubmit;
                    return Ok(RenderAction::SubmitFrame(descriptor));
                }
                if self.current_frame == u64::MAX {
                    return Err(RenderError::FrameIndexExhausted);
                }
                self.current_frame = self.current_frame + 1;
                let (phase, action) = self.eye_start(0);
                self.phase = phase;
                Ok(action)
            },
            TickPhase::AwaitLoadingSubmit | TickPhase::AwaitFrameSubmit => {
                match event {
                    RenderEvent::FrameSubmitted { status } => {
                        self.phase = TickPhase::Idle;
                        Ok(RenderAction::EndTick { displayed: status == 0 })
                    },
                    _ => Err(RenderError::UnexpectedEvent),
                }
            },
            TickPhase::Reclaim { eye } => {
                match event {
                    RenderEvent::FenceStatus { signaled } => {
                        let slot = self.eye_frame_buffers[eye].current_buffer_index;
                        let fence = self.eye_command_buffers[eye].fence(slot);
                        if !signaled {
                            return Ok(RenderAction::WaitForFence { fence });
                        }
                        self.eye_command_buffers[eye].mark_reclaimed(slot);
                        self.phase = TickPhase::ResetFence { eye };
                        Ok(RenderAction::ResetFence { fence })
                    },
                    _ => Err(RenderError::UnexpectedEvent),
                }
            },
            TickPhase::ResetFence { eye } => {
                if event != RenderEvent::Done {
                    return Err(RenderError::UnexpectedEvent);
                }
                let action = self.draw_frame(eye);
                self.phase = TickPhase::Record { eye };
                Ok(action)
            },
            TickPhase::Record { eye } => {
                if event != RenderEvent::Done {
                    return Err(RenderError::UnexpectedEvent);
                }
                let slot = self.eye_frame_buffers[eye].current_buffer_index;
                let command_buffer = self.eye_command_buffers[eye].command_buffer(slot);
                let fence = self.eye_command_buffers[eye].fence(slot);
                self.phase = TickPhase::Submit { eye };
                Ok(RenderAction::QueueSubmit { command_buffer, fence })
            },
            TickPhase::Submit { eye } => {
                if event != RenderEvent::Done {
                    return Err(RenderError::UnexpectedEvent);
                }
                let slot = self.eye_frame_buffers[eye].current_buffer_index;
                let slot_count = self.eye_command_buffers[eye].num_buffers;
                self.eye_command_buffers[eye].mark_submitted(slot);
                self.eye_frame_buffers[eye].current_buffer_index = (slot + 1) % slot_count;
                proof {
                    lemma_next_slot(self.current_frame - 1, slot_count as int);
                }
                if eye == 0 {
                    let (phase, action) = self.eye_start(1);
                    self.phase = phase;
                    Ok(action)
                } else {
                    let descriptor = self.compose_frame();
                    self.phase = TickPhase::AwaitFrameSubmit;
                    Ok(RenderAction::SubmitFrame(descriptor))
                }
            },
        }
    }
}

/// Cursor schedule: counting an eye's rendered frames from 0, its `k`-th
/// frame goes to slot `k mod slot count`. Between ticks each eye's cursor
/// stands at the slot of the next frame; during a tick, the eye being worked
/// on is at the slot of frame `current_frame`, its ordinal `current_frame - 1`.
pub proof fn lemma_cursor_schedule(s: &VulkanRenderer, e: int)
    requires
        s.wf(),
        0 <= e < EYE_COUNT,
    ensures
        VulkanRenderer::active_eye(s.phase) == Some(e) ==> s.cursor(e) == slot_for_frame(
            s.current_frame - 1,
            s.slot_count(e),
        ),
        VulkanRenderer::active_eye(s.phase) is None ==> s.cursor(e) == slot_for_frame(
            s.current_frame as int,
            s.slot_count(e),
        ),
        0 <= s.cursor(e) < s.slot_count(e),
{
}

/// A step that asks to record always names the current slot of an eye
/// whose frame is under way, and that slot is not in flight: no command
/// buffer is recorded while work submitted from it may still run.
pub proof fn lemma_record_only_when_reclaimed(
    old: &VulkanRenderer,
    new: &VulkanRenderer,
    ev: RenderEvent,
    r: Result<RenderAction, RenderError>,
)
    requires
        old.wf(),
        new.wf(),
        VulkanRenderer::step(old, new, ev, r),
        r matches Ok(RenderAction::Record { .. }),
    ensures
        exists|e: int|
            #![trigger new.in_flight(e, new.cursor(e))]
            0 <= e < EYE_COUNT && new.phase == (TickPhase::Record { eye: e as usize })
                && !new.in_flight(e, new.cursor(e)) && (r matches Ok(
                RenderAction::Record { command_buffer, .. },
            ) && command_buffer == new.command_buffer_at(e, new.cursor(e))),
{
    match new.phase {
        TickPhase::Record { eye } => {
            let e = eye as int;
            assert(0 <= e < EYE_COUNT && !new.in_flight(e, new.cursor(e)));
            match old.phase {
                TickPhase::ResetFence { eye: oe } => {
                    assert(oe == eye);
                    assert(VulkanRenderer::slots_eq(old, new));
                    assert(VulkanRenderer::eye_config_eq(old, new, e));
                },
                _ => {},
            }
        },
        _ => {},
    }
}

/// A slot stops being in flight only when the fence it waits for has been
/// reported signalled: a report that the fence has not signalled yet leaves
/// the renderer as it was, however often it comes.
pub proof fn lemma_reclaim_needs_signal(
    old: &VulkanRenderer,
    new: &VulkanRenderer,
    ev: RenderEvent,
    r: Result<RenderAction, RenderError>,
    e: int,
    slot: int,
)
    requires
        old.wf(),
        VulkanRenderer::step(old, new, ev, r),
        0 <= e < EYE_COUNT,
        0 <= slot < old.slot_count(e),
        old.in_flight(e, slot),
        !new.in_flight(e, slot),
    ensures
        old.phase == (TickPhase::Reclaim { eye: e as usize }),
        slot == old.cursor(e),
        ev == (RenderEvent::FenceStatus { signaled: true }),
{
    assert(old.eye_command_buffers@[e].wf());
    match old.phase {
        TickPhase::Reclaim { eye } => {
            if eye as int != e {
                assert(VulkanRenderer::eye_slots_eq(old, new, 1 - eye as int));
            } else if ev == (RenderEvent::FenceStatus { signaled: false }) {
                assert(VulkanRenderer::unchanged(old, new));
            } else if VulkanRenderer::expects(old.phase, ev) && slot != old.cursor(e) {
                assert(new.eye_command_buffers@[e].fences@[slot] == old.eye_command_buffers@[e].fences@[slot]);
            }
        },
        TickPhase::Submit { eye } => {
            if VulkanRenderer::expects(old.phase, ev) {
                if eye as int != e {
                    assert(VulkanRenderer::eye_slots_eq(old, new, 1 - eye as int));
                } else {
                    assert(new.eye_command_buffers@[e].fences@[slot].submitted);
                }
            }
        },
        _ => {},
    }
}

/// Frame numbering: the current frame number never goes down, a frame handed
/// to the compositor carries the current number, and each tick after the
/// loading frame starts by raising it by one. So the frames handed out carry
/// strictly increasing numbers, the loading frame first with number 0.
pub proof fn lemma_frame_numbers(
    old: &VulkanRenderer,
    new: &VulkanRenderer,
    ev: RenderEvent,
    r: Result<RenderAction, RenderError>,
)
    requires
        old.wf(),
        VulkanRenderer::step(old, new, ev, r),
    ensures
        new.current_frame >= old.current_frame,
        r matches Ok(RenderAction::SubmitFrame(d)) ==> d.frame_index == new.current_frame && (
        d.content == FrameContent::Loading ==> d.frame_index == 0 && !old.loading_shown),
        old.phase == TickPhase::Idle && old.loading_shown && r is Ok ==> new.current_frame
            == old.current_frame + 1,
{
}

/// Progress, for every slot count including one: the renderer accepts every
/// event that answers what it last asked for, short of running out of frame
/// numbers, so a tick that waits for a fence goes on once the fence signals.
pub proof fn lemma_accepts_expected_events(
    old: &VulkanRenderer,
    new: &VulkanRenderer,
    ev: RenderEvent,
    r: Result<RenderAction, RenderError>,
)
    requires
        old.wf(),
        VulkanRenderer::step(old, new, ev, r),
        VulkanRenderer::expects(old.phase, ev),
        !(old.phase == TickPhase::Idle && old.loading_shown && old.current_frame == u64::MAX),
    ensures
        r is Ok,
        old.phase is Reclaim && ev == (RenderEvent::FenceStatus { signaled: true }) ==> new.phase
            is ResetFence,
{
}

} // verus!
