use vstd::prelude::*;

verus! {

/// Failures reported by the platform or the GPU; the caller decides how to
/// recover (recreate the swapchain, or shut down in order).
#[derive(Clone, Copy, Debug, PartialEq, Eq, Structural, Hash)]
pub enum DeviceError {
    OutOfDeviceMemory,
    DeviceLost,
    SwapchainOutOfDate,
    SwapchainSuboptimal,
}

/// Requests that can never succeed as described; they point at a bug in the
/// caller.
#[derive(Clone, Copy, Debug, PartialEq, Eq, Structural, Hash)]
pub enum ConfigurationError {
    /// A swapchain needs at least one frame in flight.
    NoFramesInFlight,
    /// A swapchain cannot have more frames in flight than images.
    FramesInFlightExceedImageCount,
    /// The platform offers no surface format or no present mode.
    SurfaceUnsupported,
    /// The buffer has no host-visible mapping.
    NotHostVisible,
    /// The write would run past the end of the buffer.
    WriteOutOfBounds,
    /// A submission needs at least one command buffer.
    EmptySubmission,
    /// All command buffers of one submission must target one queue.
    MixedQueueTypes,
    /// A pool has no identity left to hand out.
    PoolExhausted,
}

} // verus!
