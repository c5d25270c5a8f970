//! Fixed-function configuration: render pass, graphics pipeline, viewport.
//!
//! The pipeline is built once and never changes; these functions state the
//! exact configuration the host hands to the driver.

use vstd::prelude::*;

verus! {

/// The single-subpass render pass: one color attachment, cleared on load,
/// stored on completion, one sample, in the swapchain's pixel format.
#[derive(Clone, Copy, Debug, PartialEq, Eq, Structural)]
pub struct RenderPassConfig {
    /// Pixel format id of the color attachment.
    pub color_format: u32,
    /// Sample count of the attachment.
    pub samples: u32,
    /// Whether the attachment is cleared when the pass begins.
    pub load_clear: bool,
    /// Whether the attachment's contents are kept when the pass ends.
    pub store_keep: bool,
}

/// The render pass bound to the given swapchain format: clear on load,
/// store on completion, a single sample.
pub fn render_pass_config(color_format: u32) -> (r: RenderPassConfig)
    ensures
        r.color_format == color_format,
        r.samples == 1,
        r.load_clear,
        r.store_keep,
{
    RenderPassConfig { color_format, samples: 1, load_clear: true, store_keep: true }
}

/// The immutable graphics-pipeline configuration.
#[derive(Clone, Copy, Debug, PartialEq, Eq, Structural)]
pub struct PipelineConfig {
    /// Vertices are assembled as a triangle list.
    pub topology_triangle_list: bool,
    /// Number of vertex buffers bound: a single buffer of `Vertex`.
    pub vertex_buffer_count: u32,
    /// Number of dynamic viewports.
    pub dynamic_viewport_count: u32,
    /// The scissor test is left disabled.
    pub scissor_disabled: bool,
    /// Index of the subpass the pipeline renders in.
    pub subpass_index: u32,
}

/// The one pipeline the renderer builds: triangle-list topology, a single
/// vertex buffer, one dynamic viewport, scissor disabled, subpass 0.
pub fn pipeline_config() -> (r: PipelineConfig)
    ensures
        r.topology_triangle_list,
        r.vertex_buffer_count == 1,
        r.dynamic_viewport_count == 1,
        r.scissor_disabled,
        r.subpass_index == 0,
{
    PipelineConfig {
        topology_triangle_list: true,
        vertex_buffer_count: 1,
        dynamic_viewport_count: 1,
        scissor_disabled: true,
        subpass_index: 0,
    }
}

/// The dynamic viewport's varying part.  Its origin is fixed at (0, 0) and
/// its depth range at [0, 1]; only the dimensions change, tracking the
/// swapchain.
#[derive(Clone, Copy, Debug, PartialEq, Eq, Structural)]
pub struct ViewportState {
    /// Viewport width in pixels.
    pub width: u32,
    /// Viewport height in pixels.
    pub height: u32,
}

/// The placeholder viewport made before the first framebuffer build; its
/// dimensions are overwritten as soon as the image chain is measured.
pub fn initial_viewport() -> (r: ViewportState)
    ensures
        r.width == 0,
        r.height == 0,
{
    ViewportState { width: 0, height: 0 }
}

} // verus!
