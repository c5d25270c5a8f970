//! Swapchain configuration and the per-image framebuffer build.
//!
//! The host reads the surface's capabilities into plain values; choosing
//! the swapchain parameters from them, and sizing the framebuffers to the
//! image chain, happens here.

use crate::pipeline::ViewportState;
use vstd::prelude::*;

verus! {

/// What the surface reports about itself, reduced to what configuration
/// reads.  Format and composite-alpha ids are the driver's, in the
/// driver's order.
#[derive(Debug)]
pub struct SurfaceCaps {
    /// The fewest presentable images the surface supports.
    pub min_image_count: u32,
    /// Ids of the supported pixel formats, first preferred.
    pub supported_formats: Vec<u32>,
    /// Ids of the supported composite-alpha modes, first preferred.
    pub supported_composite_alpha: Vec<u32>,
}

/// The parameters a swapchain is built with.
#[derive(Clone, Copy, Debug, PartialEq, Eq, Structural)]
pub struct SwapchainConfig {
    /// Number of images in the chain.
    pub image_count: u32,
    /// Pixel format id of the images.
    pub format: u32,
    /// Composite-alpha mode id.
    pub composite_alpha: u32,
    /// Image width in pixels.
    pub width: u32,
    /// Image height in pixels.
    pub height: u32,
    /// Images are usable as color attachments and nothing else.
    pub color_attachment_only: bool,
    /// Images are owned exclusively by the one work queue.
    pub exclusive_sharing: bool,
}

/// Chooses the swapchain parameters for the given surface capabilities
/// and window dimensions: the surface's minimum image count, its first
/// reported format and composite-alpha mode, color-attachment usage only,
/// exclusive sharing.  The surface must report at least one format and
/// one composite-alpha mode; a surface reporting none is a driver fault
/// the caller treats as fatal.
pub fn choose_swapchain_config(caps: &SurfaceCaps, width: u32, height: u32) -> (r:
    SwapchainConfig)
    requires
        caps.supported_formats@.len() > 0,
        caps.supported_composite_alpha@.len() > 0,
    ensures
        r.image_count == caps.min_image_count,
        r.format == caps.supported_formats@[0],
        r.composite_alpha == caps.supported_composite_alpha@[0],
        r.width == width,
        r.height == height,
        r.color_attachment_only,
        r.exclusive_sharing,
{
    SwapchainConfig {
        image_count: caps.min_image_count,
        format: caps.supported_formats[0],
        composite_alpha: caps.supported_composite_alpha[0],
        width,
        height,
        color_attachment_only: true,
        exclusive_sharing: true,
    }
}

/// One framebuffer, bound to one swapchain image of these dimensions.
#[derive(Clone, Copy, Debug, PartialEq, Eq, Structural)]
pub struct FramebufferInfo {
    /// Framebuffer width in pixels.
    pub width: u32,
    /// Framebuffer height in pixels.
    pub height: u32,
}

/// The framebuffer set built for an image chain: one framebuffer per
/// image, each with the chain's dimensions.
pub open spec fn spec_framebuffers(image_count: int, width: u32, height: u32) -> Seq<
    FramebufferInfo,
> {
    Seq::new(image_count as nat, |i: int| FramebufferInfo { width, height })
}

/// Rebuilds everything that depends on the window size: the viewport is
/// set to the image chain's dimensions, and one framebuffer is laid out
/// per image, each with those same dimensions.
pub fn window_size_dependent_setup(image_count: usize, width: u32, height: u32) -> (r: (
    ViewportState,
    Vec<FramebufferInfo>,
))
    ensures
        r.0.width == width,
        r.0.height == height,
        r.1@ == spec_framebuffers(image_count as int, width, height),
        r.1@.len() == image_count,
{
    let viewport = ViewportState { width, height };
    let mut framebuffers: Vec<FramebufferInfo> = Vec::new();
    let mut i: usize = 0;
    while i < image_count
        invariant
            i <= image_count,
            framebuffers@.len() == i,
            forall|j: int|
                0 <= j < i ==> (#[trigger] framebuffers@[j]).width == width
                    && framebuffers@[j].height == height,
        decreases image_count - i,
    {
        framebuffers.push(FramebufferInfo { width, height });
        i = i + 1;
    }
    proof {
        assert(framebuffers@ =~= spec_framebuffers(image_count as int, width, height));
    }
    (viewport, framebuffers)
}

} // verus!
