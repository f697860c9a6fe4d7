use crate::handles::{CommandBufferHandle, FenceHandle};
use vstd::prelude::*;

verus! {

/// A fence together with whether work that signals it is still in flight.
#[derive(Clone, Copy, PartialEq, Eq, Structural, Debug)]
pub struct FrameFence {
    pub fence: FenceHandle,
    pub submitted: bool,
}

/// One eye's ring of frame slots: a primary command buffer and a fence per
/// slot. A slot's command buffer may be recorded again only once the work
/// last submitted from it has signalled its fence.
pub struct EyeCommandBuffer {
    pub num_buffers: usize,
    pub command_buffers: Vec<CommandBufferHandle>,
    pub fences: Vec<FrameFence>,
}

impl EyeCommandBuffer {
    pub open spec fn wf(&self) -> bool {
        &&& self.num_buffers >= 1
        &&& self.command_buffers@.len() == self.num_buffers
        &&& self.fences@.len() == self.num_buffers
    }

    /// Whether work submitted from `slot` may still be running on the GPU.
    pub open spec fn in_flight(&self, slot: int) -> bool {
        self.fences@[slot].submitted
    }

    /// Takes one command buffer and one fence per slot; no slot is in flight.
    pub fn new(command_buffers: Vec<CommandBufferHandle>, fences: Vec<FenceHandle>) -> (r: Self)
        requires
            command_buffers@.len() >= 1,
            fences@.len() == command_buffers@.len(),
        ensures
            r.wf(),
            r.num_buffers == command_buffers@.len(),
            r.command_buffers@ == command_buffers@,
            forall|i: int|
                0 <= i < fences@.len() ==> #[trigger] r.fences@[i] == (FrameFence {
                    fence: fences@[i],
                    submitted: false,
                }),
    {
        let num_buffers = command_buffers.len();
        let mut frame_fences: Vec<FrameFence> = Vec::new();
        let mut i: usize = 0;
        while i < fences.len()
            invariant
                i <= fences@.len(),
                frame_fences@.len() == i,
                forall|j: int|
                    0 <= j < i ==> #[trigger] frame_fences@[j] == (FrameFence {
                        fence: fences@[j],
                        submitted: false,
                    }),
            decreases fences@.len() - i,
        {
            frame_fences.push(FrameFence { fence: fences[i], submitted: false });
            i = i + 1;
        }
        EyeCommandBuffer { num_buffers, command_buffers, fences: frame_fences }
    }

    /// Whether `slot` must be waited on before it is recorded again.
    pub fn needs_wait(&self, slot: usize) -> (r: bool)
        requires
            self.wf(),
            slot < self.num_buffers,
        ensures
            r == self.in_flight(slot as int),
    {
        self.fences[slot].submitted
    }

    /// The fence of `slot`.
    pub fn fence(&self, slot: usize) -> (r: FenceHandle)
        requires
            self.wf(),
            slot < self.num_buffers,
        ensures
            r == self.fences@[slot as int].fence,
    {
        self.fences[slot].fence
    }

    /// The command buffer of `slot`.
    pub fn command_buffer(&self, slot: usize) -> (r: CommandBufferHandle)
        requires
            self.wf(),
            slot < self.num_buffers,
        ensures
            r == self.command_buffers@[slot as int],
    {
        self.command_buffers[slot]
    }

    /// Records that the fence of `slot` has signalled and has been reset:
    /// the slot may be recorded again.
    pub fn mark_reclaimed(&mut self, slot: usize)
        requires
            old(self).wf(),
            slot < old(self).num_buffers,
        ensures
            final(self).wf(),
            final(self).num_buffers == old(self).num_buffers,
            final(self).command_buffers@ == old(self).command_buffers@,
            final(self).fences@ == old(self).fences@.update(
                slot as int,
                FrameFence { fence: old(self).fences@[slot as int].fence, submitted: false },
            ),
    {
        let fence = self.fences[slot].fence;
        self.fences.set(slot, FrameFence { fence, submitted: false });
    }

    /// Records that work signalling the fence of `slot` was submitted.
    pub fn mark_submitted(&mut self, slot: usize)
        requires
            old(self).wf(),
            slot < old(self).num_buffers,
        ensures
            final(self).wf(),
            final(self).num_buffers == old(self).num_buffers,
            final(self).command_buffers@ == old(self).command_buffers@,
            final(self).fences@ == old(self).fences@.update(
                slot as int,
                FrameFence { fence: old(self).fences@[slot as int].fence, submitted: true },
            ),
    {
        let fence = self.fences[slot].fence;
        self.fences.set(slot, FrameFence { fence, submitted: true });
    }
}

} // verus!
