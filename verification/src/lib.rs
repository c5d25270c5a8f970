//! Core logic of a single-triangle renderer.
//!
//! The renderer selects a physical device, configures a swapchain and a
//! fixed graphics pipeline, and runs a per-frame present loop that redraws
//! one static triangle, recreating the swapchain on window resizes.  This
//! crate holds every decision that loop makes, as verified functions over
//! plain values; the host program performs the driver and window calls and
//! feeds their outcomes back in.

pub mod device;
pub mod frame;
pub mod geometry;
pub mod pipeline;
pub mod swapchain;

use vstd::prelude::*;

verus! {

} // verus!
