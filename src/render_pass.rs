use crate::commands::{to_attachment_barrier, to_shader_read_barrier};
use crate::handles::{ImageHandle, RenderPassHandle};
use crate::layout::ImageLayout;
use crate::swap_chain::{Format, COLOUR_FORMAT, DEPTH_FORMAT};
use vstd::prelude::*;

verus! {

/// What happens to an attachment's contents when the render pass starts.
#[derive(Clone, Copy, PartialEq, Eq, Structural, Debug)]
pub enum LoadOp {
    Clear,
    DontCare,
}

/// What happens to an attachment's contents when the render pass ends.
#[derive(Clone, Copy, PartialEq, Eq, Structural, Debug)]
pub enum StoreOp {
    Store,
    DontCare,
}

/// One attachment of the render pass, single-sampled.
#[derive(Clone, Copy, PartialEq, Eq, Structural, Debug)]
pub struct AttachmentDescription {
    pub format: Format,
    pub load_op: LoadOp,
    pub store_op: StoreOp,
    pub stencil_load_op: LoadOp,
    pub stencil_store_op: StoreOp,
    pub initial_layout: ImageLayout,
    pub final_layout: ImageLayout,
    pub subpass_layout: ImageLayout,
}

/// The render pass: one graphics subpass writing attachment 0 as colour and
/// attachment 1 as depth/stencil.
#[derive(Clone, Copy, PartialEq, Eq, Structural, Debug)]
pub struct RenderPassDescription {
    pub colour: AttachmentDescription,
    pub depth_stencil: AttachmentDescription,
}

pub open spec fn render_pass_spec(colour_format: Format, depth_format: Format) -> RenderPassDescription {
    RenderPassDescription {
        colour: AttachmentDescription {
            format: colour_format,
            load_op: LoadOp::Clear,
            store_op: StoreOp::Store,
            stencil_load_op: LoadOp::DontCare,
            stencil_store_op: StoreOp::DontCare,
            initial_layout: ImageLayout::ColorAttachmentOptimal,
            final_layout: ImageLayout::ColorAttachmentOptimal,
            subpass_layout: ImageLayout::ColorAttachmentOptimal,
        },
        depth_stencil: AttachmentDescription {
            format: depth_format,
            load_op: LoadOp::Clear,
            store_op: StoreOp::DontCare,
            stencil_load_op: LoadOp::DontCare,
            stencil_store_op: StoreOp::DontCare,
            initial_layout: ImageLayout::DepthStencilAttachmentOptimal,
            final_layout: ImageLayout::DepthStencilAttachmentOptimal,
            subpass_layout: ImageLayout::DepthStencilAttachmentOptimal,
        },
    }
}

/// The render pass the eye images are drawn with: the colour target is
/// cleared and kept, the depth buffer is cleared and dropped, and both stay
/// in their attachment layouts from start to end.
pub fn create_render_pass(colour_format: Format, depth_format: Format) -> (r: RenderPassDescription)
    ensures
        r == render_pass_spec(colour_format, depth_format),
{
    RenderPassDescription {
        colour: AttachmentDescription {
            format: colour_format,
            load_op: LoadOp::Clear,
            store_op: StoreOp::Store,
            stencil_load_op: LoadOp::DontCare,
            stencil_store_op: StoreOp::DontCare,
            initial_layout: ImageLayout::ColorAttachmentOptimal,
            final_layout: ImageLayout::ColorAttachmentOptimal,
            subpass_layout: ImageLayout::ColorAttachmentOptimal,
        },
        depth_stencil: AttachmentDescription {
            format: depth_format,
            load_op: LoadOp::Clear,
            store_op: StoreOp::DontCare,
            stencil_load_op: LoadOp::DontCare,
            stencil_store_op: StoreOp::DontCare,
            initial_layout: ImageLayout::DepthStencilAttachmentOptimal,
            final_layout: ImageLayout::DepthStencilAttachmentOptimal,
            subpass_layout: ImageLayout::DepthStencilAttachmentOptimal,
        },
    }
}

/// The created render pass with the formats it was made for.
#[derive(Clone, Copy, PartialEq, Eq, Structural, Debug)]
pub struct RenderPass {
    pub render_pass: RenderPassHandle,
    pub colour_format: Format,
    pub depth_format: Format,
}

impl RenderPass {
    /// The description to create the render pass from.
    pub fn description() -> (r: RenderPassDescription)
        ensures
            r == render_pass_spec(COLOUR_FORMAT, DEPTH_FORMAT),
    {
        create_render_pass(COLOUR_FORMAT, DEPTH_FORMAT)
    }

    /// The render pass once created from `description()`.
    pub fn new(render_pass: RenderPassHandle) -> (r: Self)
        ensures
            r == (RenderPass { render_pass, colour_format: COLOUR_FORMAT, depth_format: DEPTH_FORMAT }),
    {
        RenderPass { render_pass, colour_format: COLOUR_FORMAT, depth_format: DEPTH_FORMAT }
    }
}

/// The recording bracket and the render pass agree: the transition before
/// the render pass leaves the image in the layout the colour attachment
/// starts in, and the transition after it starts from the layout the
/// attachment ends in.
pub proof fn lemma_render_pass_fits_bracket(image: ImageHandle, colour_format: Format, depth_format: Format)
    ensures
        to_attachment_barrier(image).new_layout == render_pass_spec(
            colour_format,
            depth_format,
        ).colour.initial_layout,
        to_shader_read_barrier(image).old_layout == render_pass_spec(
            colour_format,
            depth_format,
        ).colour.final_layout,
{
}

} // verus!
