//! The frame loop's state machine.
//!
//! Each tick runs cleanup, an optional swapchain recreation, an image
//! acquire, command recording, a submit and a present.  The driver calls
//! can end several ways; every decision about what those outcomes do to
//! the loop's state is a verified step function here.  The host performs
//! the calls, feeds the outcome in, and obeys the returned state.
//!
//! The model of a state is `StateModel`; every step function's contract
//! says exactly which model the new state has, so the loop's behaviour is
//! a function of the event and outcome sequence alone.

use crate::geometry::{spec_triangle, triangle_vertices, Vertex};
use crate::pipeline::ViewportState;
use crate::swapchain::{
    spec_framebuffers, window_size_dependent_setup, FramebufferInfo, SwapchainConfig,
};
use vstd::prelude::*;

verus! {

/// The in-flight work handle: either trivially complete (nothing pending,
/// or the tracker was reset), or one frame's submitted work not yet known
/// finished.  Exactly one such handle is live at a time.
#[derive(Clone, Copy, Debug, PartialEq, Eq, Structural)]
pub enum FrameFuture {
    /// No work pending: an already-completed placeholder.
    Idle,
    /// One frame's submitted work, consumed by the next tick's cleanup.
    Pending,
}

/// How a swapchain recreation attempt ended.  Any other driver error is
/// fatal and never reaches the state machine.
#[derive(Clone, Copy, Debug, PartialEq, Eq, Structural)]
pub enum RecreateOutcome {
    /// The driver built the new chain with this many images.
    Created {
        /// Number of images in the new chain.
        image_count: u32,
    },
    /// The requested dimensions are unsupported: skip recreation this
    /// tick and retry on a later one.
    UnsupportedDimensions,
}

/// How an image acquire ended.  Any other driver error is fatal and never
/// reaches the state machine.
#[derive(Clone, Copy, Debug, PartialEq, Eq, Structural)]
pub enum AcquireOutcome {
    /// An image was acquired; `suboptimal` means it is usable but the
    /// chain should be recreated before a later frame.
    Acquired {
        /// Position of the acquired image in the chain.
        image_index: usize,
        /// The chain still works but no longer matches the surface well.
        suboptimal: bool,
    },
    /// The chain no longer matches the surface: recreate before the next
    /// frame and skip the rest of this tick.
    OutOfDate,
}

/// How the submit-and-present flush ended.
#[derive(Clone, Copy, Debug, PartialEq, Eq, Structural)]
pub enum FlushOutcome {
    /// The frame was submitted; its handle is now the in-flight work.
    Completed,
    /// The chain went out of date at present time.
    OutOfDate,
    /// Some other flush error; logged by the host and treated as
    /// recoverable.
    OtherError,
}

/// Red clear-color component in thousandths.
pub const CLEAR_RED_MILLI: u32 = 100;

/// Green clear-color component in thousandths.
pub const CLEAR_GREEN_MILLI: u32 = 100;

/// Blue clear-color component in thousandths.
pub const CLEAR_BLUE_MILLI: u32 = 100;

/// Alpha clear-color component in thousandths.
pub const CLEAR_ALPHA_MILLI: u32 = 1000;

/// Everything one frame's command buffer does, as plain values: which
/// framebuffer it targets, the clear color, the viewport it sets, and the
/// one draw call it issues.
#[derive(Clone, Copy, Debug, PartialEq, Eq, Structural)]
pub struct FrameCommands {
    /// Position of the target framebuffer in the set.
    pub framebuffer_index: usize,
    /// Red clear component in thousandths.
    pub clear_red_milli: u32,
    /// Green clear component in thousandths.
    pub clear_green_milli: u32,
    /// Blue clear component in thousandths.
    pub clear_blue_milli: u32,
    /// Alpha clear component in thousandths.
    pub clear_alpha_milli: u32,
    /// The viewport set before the draw.
    pub viewport: ViewportState,
    /// Number of vertices the draw call issues.
    pub vertex_count: u32,
    /// Number of instances the draw call issues.
    pub instance_count: u32,
    /// First vertex of the draw call.
    pub first_vertex: u32,
    /// First instance of the draw call.
    pub first_instance: u32,
}

/// The loop's live state: the current swapchain parameters with their
/// framebuffers and viewport, the uploaded vertex data, the pending
/// window dimensions, the recreate flag, the in-flight handle, and
/// whether the loop is still running.
pub struct RenderState {
    /// Parameters the current swapchain was built with.
    pub swapchain_config: SwapchainConfig,
    /// One framebuffer per swapchain image.
    pub framebuffers: Vec<FramebufferInfo>,
    /// The dynamic viewport, matching the swapchain dimensions.
    pub viewport: ViewportState,
    /// The uploaded vertex data: the triangle, never mutated.
    pub vertices: Vec<Vertex>,
    /// Whether the swapchain must be recreated before the next acquire.
    pub needs_recreate: bool,
    /// Width the window last reported.
    pub window_width: u32,
    /// Height the window last reported.
    pub window_height: u32,
    /// The one in-flight work handle.
    pub in_flight: FrameFuture,
    /// False once a close was requested; no further frames are recorded.
    pub running: bool,
}

/// The mathematical model of a `RenderState`.
#[verifier::ext_equal]
pub struct StateModel {
    /// Parameters the current swapchain was built with.
    pub swapchain_config: SwapchainConfig,
    /// One framebuffer per swapchain image.
    pub framebuffers: Seq<FramebufferInfo>,
    /// The dynamic viewport.
    pub viewport: ViewportState,
    /// The uploaded vertex data.
    pub vertices: Seq<Vertex>,
    /// Whether the swapchain must be recreated before the next acquire.
    pub needs_recreate: bool,
    /// Width the window last reported.
    pub window_width: u32,
    /// Height the window last reported.
    pub window_height: u32,
    /// The one in-flight work handle.
    pub in_flight: FrameFuture,
    /// False once a close was requested.
    pub running: bool,
}

impl View for RenderState {
    type V = StateModel;

    open spec fn view(&self) -> StateModel {
        StateModel {
            swapchain_config: self.swapchain_config,
            framebuffers: self.framebuffers@,
            viewport: self.viewport,
            vertices: self.vertices@,
            needs_recreate: self.needs_recreate,
            window_width: self.window_width,
            window_height: self.window_height,
            in_flight: self.in_flight,
            running: self.running,
        }
    }
}

/// Well-formedness of a state: the framebuffer count equals the image
/// count, every framebuffer and the viewport carry the swapchain's
/// dimensions, and the vertex data is the triangle.
pub open spec fn model_wf(m: StateModel) -> bool {
    &&& m.framebuffers.len() == m.swapchain_config.image_count
    &&& forall|i: int|
        0 <= i < m.framebuffers.len() ==> (#[trigger] m.framebuffers[i]).width
            == m.swapchain_config.width && m.framebuffers[i].height == m.swapchain_config.height
    &&& m.viewport.width == m.swapchain_config.width
    &&& m.viewport.height == m.swapchain_config.height
    &&& m.vertices == spec_triangle()
}

/// What a close request does: stop the loop; everything else is kept.
pub open spec fn spec_handle_close(m: StateModel) -> StateModel {
    StateModel { running: false, ..m }
}

/// What a resize event does: record the new dimensions and flag the
/// swapchain for recreation at the next tick; the chain itself is kept
/// until then.
pub open spec fn spec_handle_resize(m: StateModel, width: u32, height: u32) -> StateModel {
    StateModel { needs_recreate: true, window_width: width, window_height: height, ..m }
}

/// What a recreation outcome does: on success, the whole size-dependent
/// state is replaced — the chain takes the recorded window dimensions,
/// one framebuffer per new image, the viewport follows, and the flag is
/// cleared; on unsupported dimensions, nothing changes at all.
pub open spec fn spec_apply_recreate(m: StateModel, outcome: RecreateOutcome) -> StateModel {
    match outcome {
        RecreateOutcome::Created { image_count } => StateModel {
            swapchain_config: SwapchainConfig {
                image_count,
                width: m.window_width,
                height: m.window_height,
                ..m.swapchain_config
            },
            framebuffers: spec_framebuffers(
                image_count as int,
                m.window_width,
                m.window_height,
            ),
            viewport: ViewportState { width: m.window_width, height: m.window_height },
            needs_recreate: false,
            ..m
        },
        RecreateOutcome::UnsupportedDimensions => m,
    }
}

/// What an acquire outcome does: out-of-date flags recreation and the
/// tick is abandoned; a suboptimal acquire flags recreation but the tick
/// goes on; a clean acquire changes nothing.
pub open spec fn spec_apply_acquire(m: StateModel, outcome: AcquireOutcome) -> StateModel {
    match outcome {
        AcquireOutcome::Acquired { image_index: _, suboptimal } => StateModel {
            needs_recreate: m.needs_recreate || suboptimal,
            ..m
        },
        AcquireOutcome::OutOfDate => StateModel { needs_recreate: true, ..m },
    }
}

/// What a flush outcome does: on success the frame's handle becomes the
/// in-flight work; on out-of-date the tracker is reset and recreation is
/// flagged; on any other error the tracker is reset and the loop goes on.
pub open spec fn spec_apply_flush(m: StateModel, outcome: FlushOutcome) -> StateModel {
    match outcome {
        FlushOutcome::Completed => StateModel { in_flight: FrameFuture::Pending, ..m },
        FlushOutcome::OutOfDate => StateModel {
            needs_recreate: true,
            in_flight: FrameFuture::Idle,
            ..m
        },
        FlushOutcome::OtherError => StateModel { in_flight: FrameFuture::Idle, ..m },
    }
}

/// The command buffer recorded for a frame: it targets the acquired
/// image's framebuffer, clears to the fixed color, sets the viewport to
/// the current one, and draws every uploaded vertex once.
pub open spec fn spec_frame_commands(m: StateModel, image_index: usize) -> FrameCommands {
    FrameCommands {
        framebuffer_index: image_index,
        clear_red_milli: CLEAR_RED_MILLI,
        clear_green_milli: CLEAR_GREEN_MILLI,
        clear_blue_milli: CLEAR_BLUE_MILLI,
        clear_alpha_milli: CLEAR_ALPHA_MILLI,
        viewport: m.viewport,
        vertex_count: m.vertices.len() as u32,
        instance_count: 1,
        first_vertex: 0,
        first_instance: 0,
    }
}

impl RenderState {
    /// The state right after setup: the given swapchain, freshly built
    /// framebuffers and viewport, the triangle uploaded, no recreation
    /// pending, the in-flight tracker trivially complete, loop running.
    pub fn init(config: SwapchainConfig) -> (s: RenderState)
        ensures
            s@.swapchain_config == config,
            s@.framebuffers == spec_framebuffers(
                config.image_count as int,
                config.width,
                config.height,
            ),
            s@.needs_recreate == false,
            s@.window_width == config.width,
            s@.window_height == config.height,
            s@.in_flight == FrameFuture::Idle,
            s@.running == true,
            model_wf(s@),
    {
        let (viewport, framebuffers) = window_size_dependent_setup(
            config.image_count as usize,
            config.width,
            config.height,
        );
        RenderState {
            swapchain_config: config,
            framebuffers,
            viewport,
            vertices: triangle_vertices(),
            needs_recreate: false,
            window_width: config.width,
            window_height: config.height,
            in_flight: FrameFuture::Idle,
            running: true,
        }
    }

    /// Handles a close request: the loop stops; nothing else changes.
    pub fn handle_close(&mut self)
        ensures
            final(self)@ == spec_handle_close(old(self)@),
    {
        self.running = false;
    }

    /// Handles a resize event: the new dimensions are recorded and the
    /// swapchain is flagged for recreation at the next tick.
    pub fn handle_resize(&mut self, width: u32, height: u32)
        ensures
            final(self)@ == spec_handle_resize(old(self)@, width, height),
    {
        self.needs_recreate = true;
        self.window_width = width;
        self.window_height = height;
    }

    /// Whether the loop is still running.
    pub fn is_running(&self) -> (r: bool)
        ensures
            r == self@.running,
    {
        self.running
    }

    /// Whether the swapchain must be recreated before the next acquire.
    pub fn needs_recreation(&self) -> (r: bool)
        ensures
            r == self@.needs_recreate,
    {
        self.needs_recreate
    }

    /// Applies a recreation attempt's outcome.  On success the whole
    /// size-dependent state is replaced by one sized to the recorded
    /// window dimensions; on unsupported dimensions the previous
    /// swapchain state is left untouched and the loop goes on, with the
    /// flag still set so a later tick retries.
    pub fn apply_recreate_outcome(&mut self, outcome: RecreateOutcome)
        ensures
            final(self)@ == spec_apply_recreate(old(self)@, outcome),
            outcome == RecreateOutcome::UnsupportedDimensions ==> *final(self) == *old(self),
    {
        match outcome {
            RecreateOutcome::Created { image_count } => {
                let (viewport, framebuffers) = window_size_dependent_setup(
                    image_count as usize,
                    self.window_width,
                    self.window_height,
                );
                self.swapchain_config = SwapchainConfig {
                    image_count,
                    width: self.window_width,
                    height: self.window_height,
                    ..self.swapchain_config
                };
                self.framebuffers = framebuffers;
                self.viewport = viewport;
                self.needs_recreate = false;
            },
            RecreateOutcome::UnsupportedDimensions => {},
        }
    }

    /// Applies an acquire outcome and says whether the tick goes on: it
    /// does exactly when an image was acquired.  Out-of-date abandons the
    /// tick with recreation flagged; suboptimal flags recreation but
    /// still renders.
    pub fn apply_acquire_outcome(&mut self, outcome: AcquireOutcome) -> (proceed: bool)
        ensures
            final(self)@ == spec_apply_acquire(old(self)@, outcome),
            proceed == (outcome is Acquired),
    {
        match outcome {
            AcquireOutcome::Acquired { image_index: _, suboptimal } => {
                if suboptimal {
                    self.needs_recreate = true;
                }
                true
            },
            AcquireOutcome::OutOfDate => {
                self.needs_recreate = true;
                false
            },
        }
    }

    /// Records one frame's command buffer: clear to the fixed color, set
    /// the viewport to the current swapchain dimensions, and draw every
    /// uploaded vertex — always exactly 3 vertices, 1 instance — into the
    /// acquired image's framebuffer.
    pub fn record_frame_commands(&self, image_index: usize) -> (cmd: FrameCommands)
        requires
            model_wf(self@),
            image_index < self@.framebuffers.len(),
        ensures
            cmd == spec_frame_commands(self@, image_index),
            cmd.vertex_count == 3,
            cmd.instance_count == 1,
            cmd.viewport == self@.viewport,
    {
        FrameCommands {
            framebuffer_index: image_index,
            clear_red_milli: CLEAR_RED_MILLI,
            clear_green_milli: CLEAR_GREEN_MILLI,
            clear_blue_milli: CLEAR_BLUE_MILLI,
            clear_alpha_milli: CLEAR_ALPHA_MILLI,
            viewport: self.viewport,
            vertex_count: self.vertices.len() as u32,
            instance_count: 1,
            first_vertex: 0,
            first_instance: 0,
        }
    }

    /// Applies the submit-and-present flush outcome: success leaves the
    /// frame's handle in flight; out-of-date flags recreation and resets
    /// the tracker; any other error resets the tracker and the loop goes
    /// on.
    pub fn apply_flush_outcome(&mut self, outcome: FlushOutcome)
        ensures
            final(self)@ == spec_apply_flush(old(self)@, outcome),
    {
        match outcome {
            FlushOutcome::Completed => {
                self.in_flight = FrameFuture::Pending;
            },
            FlushOutcome::OutOfDate => {
                self.needs_recreate = true;
                self.in_flight = FrameFuture::Idle;
            },
            FlushOutcome::OtherError => {
                self.in_flight = FrameFuture::Idle;
            },
        }
    }
}

/// After a resize, a completed recreation leaves no stale dimensions: the
/// swapchain, the viewport and every framebuffer carry exactly the resized
/// window's dimensions, the framebuffer count equals the new image count,
/// and the recreate flag is cleared.
pub proof fn lemma_resize_then_recreate(
    m: StateModel,
    width: u32,
    height: u32,
    image_count: u32,
)
    ensures
        ({
            let m2 = spec_apply_recreate(
                spec_handle_resize(m, width, height),
                (RecreateOutcome::Created { image_count }),
            );
            &&& m2.swapchain_config.width == width
            &&& m2.swapchain_config.height == height
            &&& m2.swapchain_config.image_count == image_count
            &&& m2.viewport.width == width
            &&& m2.viewport.height == height
            &&& m2.framebuffers.len() == image_count
            &&& forall|i: int|
                0 <= i < m2.framebuffers.len() ==> (#[trigger] m2.framebuffers[i]).width
                    == width && m2.framebuffers[i].height == height
            &&& !m2.needs_recreate
        }),
{
}

/// Of several resize events in a row, only the last one's dimensions are
/// pending at the next recreation check.
pub proof fn lemma_resize_last_wins(m: StateModel, w1: u32, h1: u32, w2: u32, h2: u32)
    ensures
        spec_handle_resize(spec_handle_resize(m, w1, h1), w2, h2) == spec_handle_resize(
            m,
            w2,
            h2,
        ),
{
    assert(spec_handle_resize(spec_handle_resize(m, w1, h1), w2, h2) =~= spec_handle_resize(
        m,
        w2,
        h2,
    ));
}

/// A recreation attempt that hits unsupported dimensions changes nothing:
/// the prior swapchain, framebuffers and viewport stay untouched, the flag
/// stays set for a later retry, and the loop keeps running.
pub proof fn lemma_unsupported_dimensions_is_noop(m: StateModel)
    ensures
        spec_apply_recreate(m, RecreateOutcome::UnsupportedDimensions) == m,
{
}

/// Every step of the loop preserves well-formedness and leaves the vertex
/// data untouched; with the recorded commands drawing every uploaded
/// vertex, the draw call is always exactly 3 vertices and 1 instance, no
/// matter how many steps have run.
pub proof fn lemma_steps_preserve_wf(
    m: StateModel,
    width: u32,
    height: u32,
    ro: RecreateOutcome,
    ao: AcquireOutcome,
    fo: FlushOutcome,
)
    requires
        model_wf(m),
    ensures
        model_wf(spec_handle_close(m)),
        model_wf(spec_handle_resize(m, width, height)),
        model_wf(spec_apply_recreate(m, ro)),
        model_wf(spec_apply_acquire(m, ao)),
        model_wf(spec_apply_flush(m, fo)),
        spec_handle_close(m).vertices == m.vertices,
        spec_handle_resize(m, width, height).vertices == m.vertices,
        spec_apply_recreate(m, ro).vertices == m.vertices,
        spec_apply_acquire(m, ao).vertices == m.vertices,
        spec_apply_flush(m, fo).vertices == m.vertices,
{
}

/// The draw call of any well-formed state issues exactly 3 vertices and 1
/// instance, whichever image was acquired and however many frames have
/// run.
pub proof fn lemma_draw_always_three_vertices(m: StateModel, image_index: usize)
    requires
        model_wf(m),
    ensures
        spec_frame_commands(m, image_index).vertex_count == 3,
        spec_frame_commands(m, image_index).instance_count == 1,
{
}

} // verus!
