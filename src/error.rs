//! Failures of setup and of a frame. None of them is retried.
use vstd::prelude::*;

verus! {

/// A failure while building the rendering objects.
#[derive(Clone, Copy, Debug, PartialEq, Eq, Structural)]
pub enum SetupError {
    /// No enumerated device has the required extensions and a queue family
    /// that does graphics and presents to the surface.
    NoSuitableDevice,
    DeviceCreation,
    SwapchainCreation,
    FramebufferCreation,
    PipelineCreation,
}

/// A failure while producing one frame.
#[derive(Clone, Copy, Debug, PartialEq, Eq, Structural)]
pub enum FrameError {
    /// The surface was lost or the swapchain no longer matches it.
    Acquire,
    /// Recording, submission or presentation failed.
    Render,
}

} // verus!
