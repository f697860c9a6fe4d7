use vstd::prelude::*;

verus! {

/// Opaque handle of a GPU image; only handed back to the API that issued it.
#[derive(Clone, Copy, PartialEq, Eq, Structural, Debug)]
pub struct ImageHandle(pub u64);

/// Opaque handle of a view on a GPU image.
#[derive(Clone, Copy, PartialEq, Eq, Structural, Debug)]
pub struct ImageViewHandle(pub u64);

/// Opaque handle of a framebuffer object.
#[derive(Clone, Copy, PartialEq, Eq, Structural, Debug)]
pub struct FramebufferHandle(pub u64);

/// Opaque handle of an image sampler.
#[derive(Clone, Copy, PartialEq, Eq, Structural, Debug)]
pub struct SamplerHandle(pub u64);

/// Opaque handle of a primary command buffer.
#[derive(Clone, Copy, PartialEq, Eq, Structural, Debug)]
pub struct CommandBufferHandle(pub u64);

/// Opaque handle of a fence signalled by the GPU when a submission completes.
#[derive(Clone, Copy, PartialEq, Eq, Structural, Debug)]
pub struct FenceHandle(pub u64);

/// Opaque handle of a render pass description.
#[derive(Clone, Copy, PartialEq, Eq, Structural, Debug)]
pub struct RenderPassHandle(pub u64);

/// Opaque handle of a graphics pipeline.
#[derive(Clone, Copy, PartialEq, Eq, Structural, Debug)]
pub struct PipelineHandle(pub u64);

/// Opaque handle of a compositor-owned texture swap chain.
#[derive(Clone, Copy, PartialEq, Eq, Structural, Debug)]
pub struct SwapChainHandle(pub u64);

} // verus!
