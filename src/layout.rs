use crate::handles::ImageHandle;
use vstd::prelude::*;

verus! {

/// Read access by shaders.
pub const ACCESS_SHADER_READ: u32 = 0x20;

/// Read access to a colour attachment.
pub const ACCESS_COLOR_ATTACHMENT_READ: u32 = 0x80;

/// Write access to a colour attachment.
pub const ACCESS_COLOR_ATTACHMENT_WRITE: u32 = 0x100;

/// Write access to a depth/stencil attachment.
pub const ACCESS_DEPTH_STENCIL_ATTACHMENT_WRITE: u32 = 0x400;

/// Start of the pipeline.
pub const STAGE_TOP_OF_PIPE: u32 = 0x1;

/// Vertex shader stage.
pub const STAGE_VERTEX_SHADER: u32 = 0x8;

/// Fragment shader stage.
pub const STAGE_FRAGMENT_SHADER: u32 = 0x80;

/// Stage that writes the colour attachments.
pub const STAGE_COLOR_ATTACHMENT_OUTPUT: u32 = 0x400;

/// Every graphics stage.
pub const STAGE_ALL_GRAPHICS: u32 = 0x8000;

/// Colour aspect of an image.
pub const ASPECT_COLOR: u32 = 0x1;

/// Depth aspect of an image.
pub const ASPECT_DEPTH: u32 = 0x2;

/// Stencil aspect of an image.
pub const ASPECT_STENCIL: u32 = 0x4;

/// How an image may currently be accessed.
#[derive(Clone, Copy, PartialEq, Eq, Structural, Debug)]
pub enum ImageLayout {
    Undefined,
    ColorAttachmentOptimal,
    DepthStencilAttachmentOptimal,
    ShaderReadOnlyOptimal,
}

impl ImageLayout {
    pub open spec fn raw_spec(self) -> i32 {
        match self {
            ImageLayout::Undefined => 0,
            ImageLayout::ColorAttachmentOptimal => 2,
            ImageLayout::DepthStencilAttachmentOptimal => 3,
            ImageLayout::ShaderReadOnlyOptimal => 5,
        }
    }

    /// The graphics API's numeric value of this layout.
    pub fn as_raw(&self) -> (r: i32)
        ensures
            r == self.raw_spec(),
    {
        match self {
            ImageLayout::Undefined => 0,
            ImageLayout::ColorAttachmentOptimal => 2,
            ImageLayout::DepthStencilAttachmentOptimal => 3,
            ImageLayout::ShaderReadOnlyOptimal => 5,
        }
    }
}

/// The part of an image that a barrier or a view covers.
#[derive(Clone, Copy, PartialEq, Eq, Structural, Debug)]
pub struct SubresourceRange {
    pub aspect_mask: u32,
    pub base_mip_level: u32,
    pub level_count: u32,
    pub base_array_layer: u32,
    pub layer_count: u32,
}

/// The aspects a transition touches: depth and stencil for a depth/stencil
/// target, colour otherwise.
pub open spec fn aspect_for_layout(new_layout: ImageLayout) -> u32 {
    if new_layout == ImageLayout::DepthStencilAttachmentOptimal {
        ASPECT_DEPTH | ASPECT_STENCIL
    } else {
        ASPECT_COLOR
    }
}

/// The single mip level and array layer of a plain 2D image.
pub open spec fn single_level_range(aspect_mask: u32) -> SubresourceRange {
    SubresourceRange {
        aspect_mask,
        base_mip_level: 0,
        level_count: 1,
        base_array_layer: 0,
        layer_count: 1,
    }
}

/// An image memory barrier that moves an image from one layout to another.
#[derive(Clone, Copy, PartialEq, Eq, Structural, Debug)]
pub struct ImageBarrier {
    pub image: ImageHandle,
    pub src_access_mask: u32,
    pub dst_access_mask: u32,
    pub old_layout: ImageLayout,
    pub new_layout: ImageLayout,
    pub src_stage_mask: u32,
    pub dst_stage_mask: u32,
    pub subresource_range: SubresourceRange,
}

/// The barrier that transitions `image` from `old_layout` to `new_layout`.
pub open spec fn layout_barrier(
    image: ImageHandle,
    src_access_mask: u32,
    dst_access_mask: u32,
    old_layout: ImageLayout,
    new_layout: ImageLayout,
    src_stage_mask: u32,
    dst_stage_mask: u32,
) -> ImageBarrier {
    ImageBarrier {
        image,
        src_access_mask,
        dst_access_mask,
        old_layout,
        new_layout,
        src_stage_mask,
        dst_stage_mask,
        subresource_range: single_level_range(aspect_for_layout(new_layout)),
    }
}

/// Builds the image memory barrier for a layout transition of `image`.
pub fn change_image_layout(
    image: ImageHandle,
    src_access_mask: u32,
    dst_access_mask: u32,
    old_layout: ImageLayout,
    new_layout: ImageLayout,
    src_stage_mask: u32,
    dst_stage_mask: u32,
) -> (r: ImageBarrier)
    ensures
        r == layout_barrier(
            image,
            src_access_mask,
            dst_access_mask,
            old_layout,
            new_layout,
            src_stage_mask,
            dst_stage_mask,
        ),
{
    let aspect_mask = match new_layout {
        ImageLayout::DepthStencilAttachmentOptimal => ASPECT_DEPTH | ASPECT_STENCIL,
        _ => ASPECT_COLOR,
    };
    let subresource_range = SubresourceRange {
        aspect_mask,
        base_mip_level: 0,
        level_count: 1,
        base_array_layer: 0,
        layer_count: 1,
    };
    ImageBarrier {
        image,
        src_access_mask,
        dst_access_mask,
        old_layout,
        new_layout,
        src_stage_mask,
        dst_stage_mask,
        subresource_range,
    }
}

} // verus!
