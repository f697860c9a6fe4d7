use crate::handles::{ImageHandle, SwapChainHandle};
use vstd::prelude::*;

verus! {

/// Pixel formats of the images this renderer creates or renders into.
#[derive(Clone, Copy, PartialEq, Eq, Structural, Debug)]
pub enum Format {
    R8G8B8A8Unorm,
    D24UnormS8Uint,
}

impl Format {
    pub open spec fn raw_spec(self) -> i32 {
        match self {
            Format::R8G8B8A8Unorm => 37,
            Format::D24UnormS8Uint => 129,
        }
    }

    /// The graphics API's numeric value of this format.
    pub fn as_raw(&self) -> (r: i32)
        ensures
            r == self.raw_spec(),
    {
        match self {
            Format::R8G8B8A8Unorm => 37,
            Format::D24UnormS8Uint => 129,
        }
    }
}

/// Format of the eye images.
pub const COLOUR_FORMAT: Format = Format::R8G8B8A8Unorm;

/// Format of the depth buffer.
pub const DEPTH_FORMAT: Format = Format::D24UnormS8Uint;

/// Number of images requested for each eye's swap chain.
pub const SWAP_CHAIN_BUFFER_COUNT: i32 = 3;

/// Usage flag: the images are rendered into as colour attachments.
pub const SWAP_CHAIN_USAGE_COLOR_ATTACHMENT: u32 = 0x1;

/// What is asked of the compositor when an eye's swap chain is created.
#[derive(Clone, Copy, PartialEq, Eq, Structural, Debug)]
pub struct SwapChainCreateInfo {
    pub format: Format,
    pub width: i32,
    pub height: i32,
    pub levels: i32,
    pub face_count: i32,
    pub array_size: i32,
    pub buffer_count: i32,
    pub create_flags: u64,
    pub usage_flags: u32,
}

/// The request for one eye's swap chain: single-level 2D colour images.
pub fn swap_chain_create_info(width: i32, height: i32) -> (r: SwapChainCreateInfo)
    ensures
        r == (SwapChainCreateInfo {
            format: COLOUR_FORMAT,
            width,
            height,
            levels: 1,
            face_count: 1,
            array_size: 1,
            buffer_count: SWAP_CHAIN_BUFFER_COUNT,
            create_flags: 0,
            usage_flags: SWAP_CHAIN_USAGE_COLOR_ATTACHMENT,
        }),
{
    SwapChainCreateInfo {
        format: COLOUR_FORMAT,
        width,
        height,
        levels: 1,
        face_count: 1,
        array_size: 1,
        buffer_count: SWAP_CHAIN_BUFFER_COUNT,
        create_flags: 0,
        usage_flags: SWAP_CHAIN_USAGE_COLOR_ATTACHMENT,
    }
}

/// Why a swap chain handed back by the compositor cannot be used.
#[derive(Clone, Copy, PartialEq, Eq, Structural, Debug)]
pub enum SwapChainError {
    /// The compositor gave no swap chain.
    NullHandle,
    /// The compositor reports another length than the one requested.
    LengthMismatch { requested: i32, reported: i32 },
    /// Another number of images came back than the length requested.
    ImageCountMismatch { requested: i32, returned: usize },
}

/// One eye's compositor-owned ring of images. The images are borrowed: this
/// renderer neither allocates nor frees them.
pub struct EyeTextureSwapChain {
    pub handle: SwapChainHandle,
    pub length: i32,
    pub display_images: Vec<ImageHandle>,
}

impl EyeTextureSwapChain {
    pub open spec fn wf(&self) -> bool {
        &&& self.length >= 1
        &&& self.display_images@.len() == self.length
    }

    /// The outcome of accepting a swap chain of `buffer_count` images from
    /// the compositor.
    pub open spec fn accept_spec(
        handle: SwapChainHandle,
        buffer_count: i32,
        reported_length: i32,
        images: Seq<ImageHandle>,
    ) -> Result<(), SwapChainError> {
        if handle.0 == 0 {
            Err(SwapChainError::NullHandle)
        } else if reported_length != buffer_count {
            Err(SwapChainError::LengthMismatch { requested: buffer_count, reported: reported_length })
        } else if images.len() != buffer_count {
            Err(
                SwapChainError::ImageCountMismatch {
                    requested: buffer_count,
                    returned: images.len() as usize,
                },
            )
        } else {
            Ok(())
        }
    }

    /// Takes over the swap chain `handle` that the compositor created for a
    /// request of `buffer_count` images, with the length it reports and the
    /// images it handed out. A mismatch in either count is a broken contract
    /// of the compositor, and no swap chain results.
    pub fn new(
        handle: SwapChainHandle,
        buffer_count: i32,
        reported_length: i32,
        display_images: Vec<ImageHandle>,
    ) -> (r: Result<Self, SwapChainError>)
        requires
            buffer_count >= 1,
        ensures
            match Self::accept_spec(handle, buffer_count, reported_length, display_images@) {
                Ok(()) => r matches Ok(s) && s.wf() && s.handle == handle && s.length
                    == buffer_count && s.display_images@ == display_images@,
                Err(e) => r == Err::<Self, SwapChainError>(e),
            },
    {
        if handle.0 == 0 {
            return Err(SwapChainError::NullHandle);
        }
        if reported_length != buffer_count {
            return Err(
                SwapChainError::LengthMismatch { requested: buffer_count, reported: reported_length },
            );
        }
        if display_images.len() != buffer_count as usize {
            return Err(
                SwapChainError::ImageCountMismatch {
                    requested: buffer_count,
                    returned: display_images.len(),
                },
            );
        }
        Ok(EyeTextureSwapChain { handle, length: buffer_count, display_images })
    }
}

} // verus!
