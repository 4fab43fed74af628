//! Swapchain negotiation: which image count, format, composite-alpha mode and
//! sharing mode a new swapchain is built with.
use vstd::prelude::*;

verus! {

/// Dimensions of a drawable surface, in pixels.
#[derive(Clone, Copy, Debug, PartialEq, Eq, Structural)]
pub struct Extent {
    pub width: u32,
    pub height: u32,
}

impl Extent {
    /// A surface with no pixels (a minimized window) cannot back a swapchain.
    pub open spec fn zero_area(self) -> bool {
        self.width == 0 || self.height == 0
    }

    pub fn is_zero_area(&self) -> (r: bool)
        ensures
            r == self.zero_area(),
    {
        self.width == 0 || self.height == 0
    }
}

/// Identity of a device queue: its family and its index within the family.
#[derive(Clone, Copy, Debug, PartialEq, Eq, Structural)]
pub struct QueueId {
    pub family: u32,
    pub index: u32,
}

/// How a surface may blend its images with what lies behind the window.
#[derive(Clone, Copy, Debug, PartialEq, Eq, Structural)]
pub enum CompositeAlpha {
    Opaque,
    PreMultiplied,
    PostMultiplied,
    Inherit,
}

/// What the device reports a surface can do, as far as the negotiation reads it.
pub struct SurfaceCaps {
    /// The smallest number of images a swapchain on this surface may have.
    pub min_image_count: u32,
    /// How many pixel formats the surface supports, in the device's order.
    pub format_count: usize,
    /// The supported composite-alpha modes, in the device's order.
    pub supported_alpha: Vec<CompositeAlpha>,
}

/// Whether swapchain images are owned by one queue family or shared by two.
#[derive(Clone, Copy, Debug, PartialEq, Eq, Structural)]
pub enum SharingMode {
    Exclusive { queue: QueueId },
    Concurrent { graphics: QueueId, present: QueueId },
}

/// The parameters a swapchain is created with.
#[derive(Clone, Copy, Debug, PartialEq, Eq, Structural)]
pub struct SwapchainConfig {
    pub image_count: u32,
    /// Index into the surface's supported formats.
    pub format: usize,
    pub alpha: CompositeAlpha,
    pub extent: Extent,
    pub sharing: SharingMode,
}

/// Why no swapchain can be negotiated for a surface.
#[derive(Clone, Copy, Debug, PartialEq, Eq, Structural)]
pub enum SwapchainError {
    NoSupportedFormat,
    NoCompositeAlpha,
}

/// The sharing mode for images used by a graphics queue and a present queue.
pub open spec fn sharing_for(graphics: QueueId, present: QueueId) -> SharingMode {
    if graphics == present {
        SharingMode::Exclusive { queue: graphics }
    } else {
        SharingMode::Concurrent { graphics, present }
    }
}

/// The configuration negotiated from the surface's capabilities: the minimum
/// image count, the first format, the first composite-alpha mode, the window's
/// extent, and a sharing mode that follows the two queues.
pub open spec fn config_for(
    caps_min_images: u32,
    alpha: Seq<CompositeAlpha>,
    graphics: QueueId,
    present: QueueId,
    window: Extent,
) -> SwapchainConfig
    recommends
        alpha.len() > 0,
{
    SwapchainConfig {
        image_count: caps_min_images,
        format: 0,
        alpha: alpha[0],
        extent: window,
        sharing: sharing_for(graphics, present),
    }
}

/// Negotiates the parameters of a new swapchain on a surface.
pub fn get_swapchain(caps: &SurfaceCaps, graphics: QueueId, present: QueueId, window: Extent) -> (r:
    Result<SwapchainConfig, SwapchainError>)
    ensures
        caps.format_count == 0 ==> r == Err::<SwapchainConfig, SwapchainError>(
            SwapchainError::NoSupportedFormat,
        ),
        caps.format_count > 0 && caps.supported_alpha@.len() == 0 ==> r == Err::<
            SwapchainConfig,
            SwapchainError,
        >(SwapchainError::NoCompositeAlpha),
        caps.format_count > 0 && caps.supported_alpha@.len() > 0 ==> r == Ok::<
            SwapchainConfig,
            SwapchainError,
        >(config_for(caps.min_image_count, caps.supported_alpha@, graphics, present, window)),
{
    if caps.format_count == 0 {
        return Err(SwapchainError::NoSupportedFormat);
    }
    if caps.supported_alpha.len() == 0 {
        return Err(SwapchainError::NoCompositeAlpha);
    }
    let sharing = if graphics == present {
        SharingMode::Exclusive { queue: graphics }
    } else {
        SharingMode::Concurrent { graphics, present }
    };
    Ok(
        SwapchainConfig {
            image_count: caps.min_image_count,
            format: 0,
            alpha: caps.supported_alpha[0],
            extent: window,
            sharing,
        },
    )
}

} // verus!
