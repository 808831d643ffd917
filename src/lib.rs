//! Resource identities, bindless descriptor slots and frame pacing for a
//! low-level graphics layer.
//!
//! - `pool`: generational slot pools that give every GPU object a stable id.
//! - `descriptors`: the fixed-capacity bindless table.
//! - `device`: the one owner of all resources and of the table.
//! - `swapchain`: the acquire/present protocol over frames in flight.
//! - `adapter`: choice of physical device, queue families and extensions.
//! - `commands`, `descriptions`, `texture`: the values commands are built from.
//!
//! Native objects are named by their raw handles; the caller creates and
//! destroys them as the library directs.
pub mod adapter;
pub mod commands;
pub mod descriptions;
pub mod descriptors;
pub mod device;
pub mod error;
pub mod ids;
pub mod pool;
pub mod swapchain;
pub mod texture;

pub use commands::{
    submission_queue, AccessType, Barrier, BlitInfo, BlitRegion, BufferBarrier, BufferCopyInfo,
    BufferFillInfo, BufferImageCopyInfo, BufferImageCopyRegion, BufferUpdateInfo, Command,
    CommandBufferUsage, CommandRecorder, CopyRegion, DispatchIndirectInfo, DispatchInfo,
    DrawIndexedIndirectCountInfo, DrawIndexedIndirectInfo, DrawIndirectCommand,
    DrawIndirectCountInfo, DrawIndirectInfo, DrawMeshTasksIndirect, ExecutableCommandBuffer, Fence,
    ImageBarrier, ImageCopyInfo, ImageCopyRegion, IndexType, LoadOp, MemoryBarrier, PipelineStage,
    QueueSubmitInfo, QueueType, RenderArea, RenderingFlags, ResolveMode, Semaphore, SemaphoreInfo,
    StoreOp, WHOLE_SIZE,
};
pub use descriptions::{
    BufferDescription, BufferUsage, DeviceDescription, Extent2D, Extent3D, Filter, Format,
    ImageAspect, ImageDescription, ImageLayout, ImageSubresources, ImageType, ImageUsage,
    ImageViewDescription, ImageViewType, MemoryType, Offset2D, Offset3D, SwapchainDescription,
};
pub use descriptors::{BindlessTable, DescriptorCategory, DescriptorWrite, ImageDescriptorType};
pub use error::{ConfigurationError, DeviceError};
pub use ids::{BufferId, ImageId, ImageViewId, Pipeline, SamplerId};
pub use pool::{PoolId, SlotPool};
pub use device::{
    BufferSlot, BufferWriteInfo, Device, ImageSlot, ImageViewSlot, ImageWriteInfo, NativeBuffer,
    NativeImage, PipelineSlot, Release, SamplerSlot, SamplerWriteInfo, Texture,
};
pub use texture::{TextureDescription, TextureWriteInfo};
pub use swapchain::{
    AcquirePlan, AcquiredImage, FrameSync, PresentMode, PresentRequest, SurfaceCapabilities,
    SurfaceFormat, Swapchain, SwapchainConfig, SwapchainSupport, SwapchainTeardown,
};
