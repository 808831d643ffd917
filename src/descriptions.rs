use vstd::prelude::*;

verus! {

/// Size of a 3D region, in texels.
#[derive(Clone, Copy, Debug, PartialEq, Eq, Structural, Hash)]
pub struct Extent3D {
    pub width: u32,
    pub height: u32,
    pub depth: u32,
}

/// Size of a 2D region, in pixels.
#[derive(Clone, Copy, Debug, PartialEq, Eq, Structural, Hash)]
pub struct Extent2D {
    pub width: u32,
    pub height: u32,
}

#[derive(Clone, Copy, Debug, PartialEq, Eq, Structural, Hash)]
pub struct Offset3D {
    pub x: i32,
    pub y: i32,
    pub z: i32,
}

#[derive(Clone, Copy, Debug, PartialEq, Eq, Structural, Hash)]
pub struct Offset2D {
    pub x: i32,
    pub y: i32,
}

/// Optional device capabilities to switch on.
#[derive(Clone, Copy, Debug, PartialEq, Eq, Structural, Hash)]
pub struct DeviceDescription {
    pub use_compute_queue: bool,
    pub use_transfer_queue: bool,
    pub mesh_shaders: bool,
    pub atomic_float_operations: bool,
    pub ray_tracing: bool,
}

impl Default for DeviceDescription {
    /// Separate compute and transfer queues, no optional shader features.
    fn default() -> (r: Self)
        ensures
            r == (DeviceDescription {
                use_compute_queue: true,
                use_transfer_queue: true,
                mesh_shaders: false,
                atomic_float_operations: false,
                ray_tracing: false,
            }),
    {
        DeviceDescription {
            use_compute_queue: true,
            use_transfer_queue: true,
            mesh_shaders: false,
            atomic_float_operations: false,
            ray_tracing: false,
        }
    }
}

/// Requested shape of a swapchain.
#[derive(Clone, Copy, Debug, PartialEq, Eq, Structural, Hash)]
pub struct SwapchainDescription {
    pub image_count: u32,
    pub frames_in_flight: usize,
    pub width: u32,
    pub height: u32,
}

/// Where the memory of a resource lives.
#[derive(Clone, Copy, Debug, PartialEq, Eq, Structural, Hash)]
pub enum MemoryType {
    /// Device-local, not visible to the host.
    GpuOnly,
    /// Host-visible, preferred for uploads.
    CpuToGpu,
    /// Host-visible, preferred for readback.
    GpuToCpu,
}

impl MemoryType {
    pub open spec fn host_visible_spec(self) -> bool {
        self != MemoryType::GpuOnly
    }

    /// Whether memory of this type is mapped for the host.
    pub fn is_host_visible(&self) -> (r: bool)
        ensures
            r == self.host_visible_spec(),
    {
        match self {
            MemoryType::GpuOnly => false,
            _ => true,
        }
    }
}

/// How a buffer will be used.
#[derive(Clone, Copy, Debug, PartialEq, Eq, Structural, Hash)]
pub struct BufferUsage {
    pub vertex: bool,
    pub index: bool,
    pub uniform: bool,
    pub storage: bool,
    pub indirect: bool,
    pub transfer_src: bool,
    pub transfer_dst: bool,
}

#[derive(Clone, Copy, Debug, PartialEq, Eq, Structural, Hash)]
pub struct BufferDescription {
    pub size: u64,
    pub usage: BufferUsage,
    pub memory_type: MemoryType,
}

/// Pixel formats.
#[derive(Clone, Copy, Debug, PartialEq, Eq, Structural, Hash)]
pub enum Format {
    Rgba8Unorm,
    Rgba8Srgb,
    Bgra8Unorm,
    Bgra8Srgb,
    Rgba16Float,
    Rgba32Float,
    D32Float,
}

#[derive(Clone, Copy, Debug, PartialEq, Eq, Structural, Hash)]
pub enum ImageType {
    Type1D,
    Type2D,
    Type3D,
}

/// How an image will be used.
#[derive(Clone, Copy, Debug, PartialEq, Eq, Structural, Hash)]
pub struct ImageUsage {
    pub sampled: bool,
    pub storage: bool,
    pub color_attachment: bool,
    pub depth_stencil_attachment: bool,
    pub transfer_src: bool,
    pub transfer_dst: bool,
}

#[derive(Clone, Copy, Debug, PartialEq, Eq, Structural, Hash)]
pub struct ImageDescription {
    pub extent: Extent3D,
    pub format: Format,
    pub usage: ImageUsage,
    pub image_type: ImageType,
    pub array_layers: u32,
    pub mip_levels: u32,
    pub samples: u32,
    pub memory_type: MemoryType,
}

#[derive(Clone, Copy, Debug, PartialEq, Eq, Structural, Hash)]
pub enum ImageViewType {
    Type1D,
    Type2D,
    Type3D,
    Cube,
    Type2DArray,
}

#[derive(Clone, Copy, Debug, PartialEq, Eq, Structural, Hash)]
pub enum ImageAspect {
    Color,
    Depth,
    Stencil,
}

/// A range of mip levels and array layers of one aspect.
#[derive(Clone, Copy, Debug, PartialEq, Eq, Structural, Hash)]
pub struct ImageSubresources {
    pub aspect: ImageAspect,
    pub mip_level: u32,
    pub level_count: u32,
    pub base_array_layer: u32,
    pub layer_count: u32,
}

impl Default for ImageSubresources {
    /// The first mip level and array layer of the color aspect.
    fn default() -> (r: Self)
        ensures
            r == (ImageSubresources {
                aspect: ImageAspect::Color,
                mip_level: 0,
                level_count: 1,
                base_array_layer: 0,
                layer_count: 1,
            }),
    {
        ImageSubresources {
            aspect: ImageAspect::Color,
            mip_level: 0,
            level_count: 1,
            base_array_layer: 0,
            layer_count: 1,
        }
    }
}

#[derive(Clone, Copy, Debug, PartialEq, Eq, Structural, Hash)]
pub struct ImageViewDescription {
    pub view_type: ImageViewType,
    pub subresources: ImageSubresources,
}

impl Default for ImageViewDescription {
    /// A 2D view of the first mip level and layer of the color aspect.
    fn default() -> (r: Self)
        ensures
            r == (ImageViewDescription {
                view_type: ImageViewType::Type2D,
                subresources: ImageSubresources {
                    aspect: ImageAspect::Color,
                    mip_level: 0,
                    level_count: 1,
                    base_array_layer: 0,
                    layer_count: 1,
                },
            }),
    {
        ImageViewDescription { view_type: ImageViewType::Type2D, subresources: ImageSubresources::default() }
    }
}

#[derive(Clone, Copy, Debug, PartialEq, Eq, Structural, Hash)]
pub enum ImageLayout {
    Undefined,
    General,
    ColorAttachment,
    DepthStencilAttachment,
    ShaderReadOnly,
    TransferSrc,
    TransferDst,
    PresentSrc,
}

#[derive(Clone, Copy, Debug, PartialEq, Eq, Structural, Hash)]
pub enum Filter {
    Nearest,
    Linear,
}

} // verus!
