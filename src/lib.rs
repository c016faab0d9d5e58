//! Decisions of a minimal GPU renderer: which device renders, how the
//! swapchain, render pass, framebuffers and pipeline are configured, in what
//! order the objects are built and destroyed, how one frame moves from image
//! acquisition to presentation, and when the window's loop stops.
//!
//! The driver calls themselves are made by the caller, which hands these
//! functions plain values and performs the actions they return.
use vstd::prelude::*;

pub mod control;
pub mod error;
pub mod frame;
pub mod lifecycle;
pub mod pipeline;
pub mod presentation;
pub mod selector;

verus! {

} // verus!
