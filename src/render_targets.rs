use crate::handles::{
    FramebufferHandle, ImageHandle, ImageViewHandle, RenderPassHandle, SamplerHandle,
    SwapChainHandle,
};
use crate::layout::{
    change_image_layout, layout_barrier, ImageBarrier, ImageLayout,
    ACCESS_DEPTH_STENCIL_ATTACHMENT_WRITE, ACCESS_SHADER_READ, ASPECT_COLOR, ASPECT_DEPTH,
    ASPECT_STENCIL, STAGE_ALL_GRAPHICS, STAGE_TOP_OF_PIPE,
};
use crate::swap_chain::{EyeTextureSwapChain, Format, COLOUR_FORMAT, DEPTH_FORMAT};
use vstd::prelude::*;

verus! {

/// What a view on an image covers: one mip level and one layer of a 2D image.
#[derive(Clone, Copy, PartialEq, Eq, Structural, Debug)]
pub struct ImageViewRequest {
    pub image: ImageHandle,
    pub format: Format,
    pub aspect_mask: u32,
    pub level_count: u32,
    pub layer_count: u32,
}

/// The view to create on `image`, with the identity swizzle.
pub fn create_image_view(image: ImageHandle, format: Format, aspect_mask: u32) -> (r:
    ImageViewRequest)
    ensures
        r == (ImageViewRequest { image, format, aspect_mask, level_count: 1, layer_count: 1 }),
{
    ImageViewRequest { image, format, aspect_mask, level_count: 1, layer_count: 1 }
}

/// A single-sampled, optimally tiled 2D image of one level and one layer,
/// owned by one queue family and created in the undefined layout.
#[derive(Clone, Copy, PartialEq, Eq, Structural, Debug)]
pub struct ImageCreateRequest {
    pub width: u32,
    pub height: u32,
    pub depth: u32,
    pub format: Format,
    pub usage: u32,
    pub mip_levels: u32,
    pub array_layers: u32,
    pub initial_layout: ImageLayout,
}

/// The image to create for a render-side buffer of the given size.
pub fn create_image(width: i32, height: i32, format: Format, usage: u32) -> (r: ImageCreateRequest)
    requires
        width >= 0,
        height >= 0,
    ensures
        r == (ImageCreateRequest {
            width: width as u32,
            height: height as u32,
            depth: 1,
            format,
            usage,
            mip_levels: 1,
            array_layers: 1,
            initial_layout: ImageLayout::Undefined,
        }),
{
    ImageCreateRequest {
        width: width as u32,
        height: height as u32,
        depth: 1,
        format,
        usage,
        mip_levels: 1,
        array_layers: 1,
        initial_layout: ImageLayout::Undefined,
    }
}

/// Image usage: transient attachment.
pub const IMAGE_USAGE_TRANSIENT_ATTACHMENT: u32 = 0x40;

/// Image usage: depth/stencil attachment.
pub const IMAGE_USAGE_DEPTH_STENCIL_ATTACHMENT: u32 = 0x20;

/// A swap-chain image prepared as a render target: its view and sampler,
/// and the layout it was left in.
#[derive(Clone, Copy, PartialEq, Eq, Structural, Debug)]
pub struct Texture {
    pub width: i32,
    pub height: i32,
    pub depth: i32,
    pub image_layout: ImageLayout,
    pub image: ImageHandle,
    pub view: ImageViewHandle,
    pub sampler: SamplerHandle,
}

impl Texture {
    /// The one-time transition of a fresh swap-chain image into the layout
    /// the compositor samples from.
    pub fn initial_barrier(image: ImageHandle) -> (r: ImageBarrier)
        ensures
            r == layout_barrier(
                image,
                0,
                ACCESS_SHADER_READ,
                ImageLayout::Undefined,
                ImageLayout::ShaderReadOnlyOptimal,
                STAGE_TOP_OF_PIPE,
                STAGE_ALL_GRAPHICS,
            ),
    {
        change_image_layout(
            image,
            0,
            ACCESS_SHADER_READ,
            ImageLayout::Undefined,
            ImageLayout::ShaderReadOnlyOptimal,
            STAGE_TOP_OF_PIPE,
            STAGE_ALL_GRAPHICS,
        )
    }

    /// The colour view to create on a swap-chain image.
    pub fn view_request(image: ImageHandle) -> (r: ImageViewRequest)
        ensures
            r == (ImageViewRequest {
                image,
                format: COLOUR_FORMAT,
                aspect_mask: ASPECT_COLOR,
                level_count: 1,
                layer_count: 1,
            }),
    {
        create_image_view(image, COLOUR_FORMAT, ASPECT_COLOR)
    }

    /// A texture over `image` once its initial barrier has run and its
    /// view and sampler exist.
    pub fn new(
        width: i32,
        height: i32,
        image: ImageHandle,
        view: ImageViewHandle,
        sampler: SamplerHandle,
    ) -> (r: Self)
        ensures
            r == (Texture {
                width,
                height,
                depth: 1,
                image_layout: ImageLayout::ShaderReadOnlyOptimal,
                image,
                view,
                sampler,
            }),
    {
        Texture {
            width,
            height,
            depth: 1,
            image_layout: ImageLayout::ShaderReadOnlyOptimal,
            image,
            view,
            sampler,
        }
    }
}

/// The depth/stencil buffer shared by the render targets of one eye.
#[derive(Clone, Copy, PartialEq, Eq, Structural, Debug)]
pub struct DepthBuffer {
    pub layout: ImageLayout,
    pub image: ImageHandle,
    pub view: ImageViewHandle,
}

impl DepthBuffer {
    /// The one-time transition of the fresh depth image into the layout
    /// the render pass uses it in.
    pub fn initial_barrier(image: ImageHandle) -> (r: ImageBarrier)
        ensures
            r == layout_barrier(
                image,
                0,
                ACCESS_DEPTH_STENCIL_ATTACHMENT_WRITE,
                ImageLayout::Undefined,
                ImageLayout::DepthStencilAttachmentOptimal,
                STAGE_TOP_OF_PIPE,
                STAGE_ALL_GRAPHICS,
            ),
            r.subresource_range.aspect_mask == ASPECT_DEPTH | ASPECT_STENCIL,
    {
        change_image_layout(
            image,
            0,
            ACCESS_DEPTH_STENCIL_ATTACHMENT_WRITE,
            ImageLayout::Undefined,
            ImageLayout::DepthStencilAttachmentOptimal,
            STAGE_TOP_OF_PIPE,
            STAGE_ALL_GRAPHICS,
        )
    }

    /// The depth and stencil view to create on the depth image.
    pub fn view_request(image: ImageHandle) -> (r: ImageViewRequest)
        ensures
            r == (ImageViewRequest {
                image,
                format: DEPTH_FORMAT,
                aspect_mask: ASPECT_DEPTH | ASPECT_STENCIL,
                level_count: 1,
                layer_count: 1,
            }),
    {
        create_image_view(image, DEPTH_FORMAT, ASPECT_DEPTH | ASPECT_STENCIL)
    }

    /// The depth image to create for render targets of the given size.
    pub fn image_request(width: i32, height: i32) -> (r: ImageCreateRequest)
        requires
            width >= 0,
            height >= 0,
        ensures
            r == (ImageCreateRequest {
                width: width as u32,
                height: height as u32,
                depth: 1,
                format: DEPTH_FORMAT,
                usage: IMAGE_USAGE_TRANSIENT_ATTACHMENT | IMAGE_USAGE_DEPTH_STENCIL_ATTACHMENT,
                mip_levels: 1,
                array_layers: 1,
                initial_layout: ImageLayout::Undefined,
            }),
    {
        create_image(
            width,
            height,
            DEPTH_FORMAT,
            IMAGE_USAGE_TRANSIENT_ATTACHMENT | IMAGE_USAGE_DEPTH_STENCIL_ATTACHMENT,
        )
    }

    /// A depth buffer over `image` once its initial barrier has run.
    pub fn new(image: ImageHandle, view: ImageViewHandle) -> (r: Self)
        ensures
            r == (DepthBuffer { layout: ImageLayout::DepthStencilAttachmentOptimal, image, view }),
    {
        DepthBuffer { layout: ImageLayout::DepthStencilAttachmentOptimal, image, view }
    }
}

/// What a framebuffer binds: a colour view and the depth view, at a size.
#[derive(Clone, Copy, PartialEq, Eq, Structural, Debug)]
pub struct FramebufferRequest {
    pub render_pass: RenderPassHandle,
    pub colour_view: ImageViewHandle,
    pub depth_view: ImageViewHandle,
    pub width: u32,
    pub height: u32,
    pub layers: u32,
}

/// The framebuffer that attaches `texture` and the depth view to the
/// render pass, at the texture's size.
pub fn create_frame_buffer(
    texture: &Texture,
    depth_view: ImageViewHandle,
    render_pass: RenderPassHandle,
) -> (r: FramebufferRequest)
    requires
        texture.width >= 0,
        texture.height >= 0,
    ensures
        r == (FramebufferRequest {
            render_pass,
            colour_view: texture.view,
            depth_view,
            width: texture.width as u32,
            height: texture.height as u32,
            layers: 1,
        }),
{
    FramebufferRequest {
        render_pass,
        colour_view: texture.view,
        depth_view,
        width: texture.width as u32,
        height: texture.height as u32,
        layers: 1,
    }
}

/// Why one eye's render targets cannot be assembled.
#[derive(Clone, Copy, PartialEq, Eq, Structural, Debug)]
pub enum RenderTargetError {
    /// Width or height is not positive.
    InvalidExtent,
    /// The number of textures or framebuffers differs from the swap chain's length.
    CountMismatch,
    /// A texture is not over the swap-chain image of its slot, or not at the target size.
    TextureMismatch { slot: usize },
}

/// One eye's render targets: a texture and a framebuffer for each image of
/// its swap chain, slot by slot, and the slot the next frame renders into.
pub struct EyeFrameBuffer {
    pub width: i32,
    pub height: i32,
    pub swapchain_handle: SwapChainHandle,
    pub swap_chain_length: i32,
    pub display_textures: Vec<Texture>,
    pub frame_buffers: Vec<FramebufferHandle>,
    pub current_buffer_index: usize,
}

/// Whether `t` is the texture for the swap-chain image `image` at the given size.
pub open spec fn texture_fits(t: Texture, image: ImageHandle, width: i32, height: i32) -> bool {
    t.image == image && t.width == width && t.height == height
}

impl EyeFrameBuffer {
    pub open spec fn wf(&self) -> bool {
        &&& self.width > 0
        &&& self.height > 0
        &&& self.swap_chain_length >= 1
        &&& self.display_textures@.len() == self.swap_chain_length
        &&& self.frame_buffers@.len() == self.swap_chain_length
        &&& self.current_buffer_index < self.swap_chain_length
    }

    /// Whether the textures and framebuffers fit the swap chain at the size.
    pub open spec fn accepts(
        swap_chain: &EyeTextureSwapChain,
        width: i32,
        height: i32,
        textures: Seq<Texture>,
        frame_buffers: Seq<FramebufferHandle>,
    ) -> bool {
        &&& width > 0
        &&& height > 0
        &&& textures.len() == swap_chain.display_images@.len()
        &&& frame_buffers.len() == swap_chain.display_images@.len()
        &&& forall|i: int|
            0 <= i < textures.len() ==> texture_fits(
                #[trigger] textures[i],
                swap_chain.display_images@[i],
                width,
                height,
            )
    }

    /// Assembles the render targets of one eye from the texture and the
    /// framebuffer made for each swap-chain image, in slot order. The first
    /// frame renders into slot 0.
    pub fn new(
        swap_chain: &EyeTextureSwapChain,
        width: i32,
        height: i32,
        display_textures: Vec<Texture>,
        frame_buffers: Vec<FramebufferHandle>,
    ) -> (r: Result<Self, RenderTargetError>)
        requires
            swap_chain.wf(),
        ensures
            r is Ok <==> Self::accepts(
                swap_chain,
                width,
                height,
                display_textures@,
                frame_buffers@,
            ),
            (width <= 0 || height <= 0) ==> r matches Err(RenderTargetError::InvalidExtent),
            (width > 0 && height > 0 && (display_textures@.len()
                != swap_chain.display_images@.len() || frame_buffers@.len()
                != swap_chain.display_images@.len())) ==> r matches Err(
                RenderTargetError::CountMismatch,
            ),
            r matches Err(RenderTargetError::TextureMismatch { slot }) ==> {
                &&& slot < display_textures@.len()
                &&& !texture_fits(
                    display_textures@[slot as int],
                    swap_chain.display_images@[slot as int],
                    width,
                    height,
                )
                &&& forall|j: int|
                    0 <= j < slot ==> texture_fits(
                        #[trigger] display_textures@[j],
                        swap_chain.display_images@[j],
                        width,
                        height,
                    )
            },
            r matches Ok(s) ==> {
                &&& s.wf()
                &&& s.width == width
                &&& s.height == height
                &&& s.swapchain_handle == swap_chain.handle
                &&& s.swap_chain_length == swap_chain.length
                &&& s.display_textures@ == display_textures@
                &&& s.frame_buffers@ == frame_buffers@
                &&& s.current_buffer_index == 0
            },
    {
        if width <= 0 || height <= 0 {
            return Err(RenderTargetError::InvalidExtent);
        }
        let n = swap_chain.display_images.len();
        if display_textures.len() != n || frame_buffers.len() != n {
            return Err(RenderTargetError::CountMismatch);
        }
        let mut i: usize = 0;
        while i < n
            invariant
                width > 0,
                height > 0,
                n == swap_chain.display_images@.len(),
                display_textures@.len() == n,
                frame_buffers@.len() == n,
                i <= n,
                forall|j: int|
                    0 <= j < i ==> texture_fits(
                        #[trigger] display_textures@[j],
                        swap_chain.display_images@[j],
                        width,
                        height,
                    ),
            decreases n - i,
        {
            let t = display_textures[i];
            if t.image != swap_chain.display_images[i] || t.width != width || t.height != height {
                return Err(RenderTargetError::TextureMismatch { slot: i });
            }
            i = i + 1;
        }
        Ok(
            EyeFrameBuffer {
                width,
                height,
                swapchain_handle: swap_chain.handle,
                swap_chain_length: swap_chain.length,
                display_textures,
                frame_buffers,
                current_buffer_index: 0,
            },
        )
    }
}

/// Building one eye's render targets does not accumulate: any two sets of
/// targets accepted for the same swap chain and size hold the same number
/// of targets, one per swap-chain image, each at that size.
pub proof fn lemma_render_targets_same_shape(
    swap_chain: &EyeTextureSwapChain,
    width: i32,
    height: i32,
    textures_a: Seq<Texture>,
    frame_buffers_a: Seq<FramebufferHandle>,
    textures_b: Seq<Texture>,
    frame_buffers_b: Seq<FramebufferHandle>,
)
    requires
        swap_chain.wf(),
        EyeFrameBuffer::accepts(swap_chain, width, height, textures_a, frame_buffers_a),
        EyeFrameBuffer::accepts(swap_chain, width, height, textures_b, frame_buffers_b),
    ensures
        textures_a.len() == textures_b.len(),
        frame_buffers_a.len() == frame_buffers_b.len(),
        textures_a.len() == swap_chain.length,
        frame_buffers_a.len() == swap_chain.length,
        forall|i: int|
            0 <= i < textures_a.len() ==> {
                &&& (#[trigger] textures_a[i]).width == textures_b[i].width
                &&& textures_a[i].height == textures_b[i].height
                &&& textures_a[i].image == textures_b[i].image
                &&& textures_a[i].width == width
                &&& textures_a[i].height == height
            },
{
    assert forall|i: int| 0 <= i < textures_a.len() implies {
        &&& (#[trigger] textures_a[i]).width == textures_b[i].width
        &&& textures_a[i].height == textures_b[i].height
        &&& textures_a[i].image == textures_b[i].image
        &&& textures_a[i].width == width
        &&& textures_a[i].height == height
    } by {
        assert(texture_fits(textures_a[i], swap_chain.display_images@[i], width, height));
        assert(texture_fits(textures_b[i], swap_chain.display_images@[i], width, height));
    }
}

} // verus!
