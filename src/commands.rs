use vstd::prelude::*;

use crate::descriptions::{Extent2D, Extent3D, Filter, ImageLayout, ImageSubresources, Offset2D, Offset3D};
use crate::error::ConfigurationError;
use crate::ids::{BufferId, ImageId};

verus! {

/// The queue a command buffer is recorded for and submitted to.
#[derive(Clone, Copy, Debug, PartialEq, Eq, Structural, Hash)]
pub enum QueueType {
    Graphics,
    Transfer,
    Compute,
}

#[derive(Clone, Copy, Debug, PartialEq, Eq, Structural, Hash)]
pub enum CommandBufferUsage {
    OneTimeSubmit,
    RenderPassContinue,
    SimultaneousUse,
}

#[derive(Clone, Copy, Debug, PartialEq, Eq, Structural, Hash)]
pub enum IndexType {
    Uint32,
    Uint16,
}

#[derive(Clone, Copy, Debug, PartialEq, Eq, Structural, Hash)]
pub struct RenderArea {
    pub offset: Offset2D,
    pub extent: Extent2D,
}

#[derive(Clone, Copy, Debug, PartialEq, Eq, Structural, Hash)]
pub enum LoadOp {
    Load,
    Clear,
    DontCare,
}

#[derive(Clone, Copy, Debug, PartialEq, Eq, Structural, Hash)]
pub enum StoreOp {
    Store,
    DontCare,
    Discard,
}

#[derive(Clone, Copy, Debug, PartialEq, Eq, Structural, Hash)]
pub enum ResolveMode {
    Disabled,
    SampleZero,
    Average,
    Min,
    Max,
}

#[derive(Clone, Copy, Debug, PartialEq, Eq, Structural, Hash)]
pub enum RenderingFlags {
    Empty,
    ContentsSecondaryCommandBuffers,
    Suspending,
    Resuming,
}

/// Layout of one record of an indirect draw buffer.
#[derive(Clone, Copy, Debug, PartialEq, Eq, Structural, Hash)]
pub struct DrawIndirectCommand {
    pub vertex_count: u32,
    pub instance_count: u32,
    pub first_vertex: u32,
    pub first_instance: u32,
}

#[derive(Clone, Copy, Debug, PartialEq, Eq, Structural, Hash)]
pub struct DrawIndirectInfo {
    pub buffer: BufferId,
    pub offset: u64,
    pub draw_count: u32,
    pub stride: u32,
}

#[derive(Clone, Copy, Debug, PartialEq, Eq, Structural, Hash)]
pub struct DrawIndexedIndirectInfo {
    pub buffer: BufferId,
    pub offset: u64,
    pub draw_count: u32,
    pub stride: u32,
}

#[derive(Clone, Copy, Debug, PartialEq, Eq, Structural, Hash)]
pub struct DrawIndirectCountInfo {
    pub buffer: BufferId,
    pub offset: u64,
    pub count_buffer: BufferId,
    pub count_offset: u64,
    pub max_draw_count: u32,
    pub stride: u32,
}

#[derive(Clone, Copy, Debug, PartialEq, Eq, Structural, Hash)]
pub struct DrawIndexedIndirectCountInfo {
    pub buffer: BufferId,
    pub offset: u64,
    pub count_buffer: BufferId,
    pub count_offset: u64,
    pub max_draw_count: u32,
    pub stride: u32,
}

#[derive(Clone, Copy, Debug, PartialEq, Eq, Structural, Hash)]
pub struct DispatchInfo {
    pub group_count_x: u32,
    pub group_count_y: u32,
    pub group_count_z: u32,
}

#[derive(Clone, Copy, Debug, PartialEq, Eq, Structural, Hash)]
pub struct DispatchIndirectInfo {
    pub buffer: BufferId,
    pub offset: u64,
}

#[derive(Clone, Copy, Debug, PartialEq, Eq, Structural, Hash)]
pub struct CopyRegion {
    pub src_offset: u64,
    pub dst_offset: u64,
    pub size: u64,
}

#[derive(Clone, Debug, PartialEq, Eq)]
pub struct BufferCopyInfo<'a> {
    pub src_buffer: BufferId,
    pub dst_buffer: BufferId,
    pub regions: &'a [CopyRegion],
}

#[derive(Clone, Copy, Debug, PartialEq, Eq, Structural, Hash)]
pub struct BufferFillInfo {
    pub buffer: BufferId,
    pub offset: u64,
    pub size: u64,
    pub data: u32,
}

pub struct BufferUpdateInfo<'a, T: Copy> {
    pub buffer: BufferId,
    pub offset: u64,
    pub data: &'a [T],
}

#[derive(Clone, Copy, Debug, PartialEq, Eq, Structural, Hash)]
pub struct BufferImageCopyInfo {
    pub buffer: BufferId,
    pub image: ImageId,
    pub dst_image_layout: ImageLayout,
    pub region: BufferImageCopyRegion,
}

#[derive(Clone, Copy, Debug, PartialEq, Eq, Structural, Hash)]
pub struct BufferImageCopyRegion {
    pub buffer_offset: u64,
    pub buffer_row_length: u32,
    pub buffer_image_height: u32,
    pub image_subresource: ImageSubresources,
    pub image_offset: Offset3D,
    pub image_extent: Extent3D,
}

#[derive(Clone, Copy, Debug, PartialEq, Eq, Structural, Hash)]
pub struct ImageCopyInfo {
    pub src_image: ImageId,
    pub src_image_layout: ImageLayout,
    pub dst_image: ImageId,
    pub dst_image_layout: ImageLayout,
    pub region: ImageCopyRegion,
}

#[derive(Clone, Copy, Debug, PartialEq, Eq, Structural, Hash)]
pub struct ImageCopyRegion {
    pub src_subresource: ImageSubresources,
    pub src_offset: Offset3D,
    pub dst_subresource: ImageSubresources,
    pub dst_offset: Offset3D,
    pub extent: Extent3D,
}

#[derive(Clone, Copy, Debug, PartialEq, Eq)]
pub struct BlitInfo<'a> {
    pub src_image: ImageId,
    pub src_layout: ImageLayout,
    pub dst_image: ImageId,
    pub dst_layout: ImageLayout,
    pub regions: &'a [BlitRegion],
    pub filter: Filter,
}

#[derive(Clone, Copy, Debug, PartialEq, Eq, Hash)]
pub struct BlitRegion {
    pub src_subresource: ImageSubresources,
    pub src_offsets: [Offset3D; 2],
    pub dst_subresource: ImageSubresources,
    pub dst_offsets: [Offset3D; 2],
}

#[derive(Clone, Copy, Debug, PartialEq, Eq, Structural, Hash)]
pub enum PipelineStage {
    NoStage,
    TopOfPipe,
    BottomOfPipe,
    DrawIndirect,
    VertexInput,
    VertexShader,
    TessellationControlShader,
    TessellationEvaluationShader,
    GeometryShader,
    FragmentShader,
    EarlyFragmentTests,
    LateFragmentTests,
    ColorAttachmentOutput,
    ComputeShader,
    AllTransfer,
    Transfer,
    Copy,
    Resolve,
    Blit,
    Clear,
    RayTracingShader,
    AccelerationStructureBuild,
    AccelerationStructureCopy,
    Host,
    AllGraphics,
    AllCommands,
}

#[derive(Clone, Copy, Debug, PartialEq, Eq, Structural, Hash)]
pub enum AccessType {
    NoAccess,
    Indirect,
    IndexRead,
    VertexRead,
    UniformRead,
    ShaderRead,
    ShaderWrite,
    ColorAttachmentRead,
    ColorAttachmentWrite,
    DepthStencilRead,
    DepthStencilWrite,
    TransferRead,
    TransferWrite,
}

impl AccessType {
    pub open spec fn is_write_spec(self) -> bool {
        self == AccessType::ShaderWrite || self == AccessType::ColorAttachmentWrite || self
            == AccessType::DepthStencilWrite || self == AccessType::TransferWrite
    }

    /// Whether the access writes memory.
    pub fn is_write(&self) -> (r: bool)
        ensures
            r == self.is_write_spec(),
    {
        match self {
            AccessType::ShaderWrite => true,
            AccessType::ColorAttachmentWrite => true,
            AccessType::DepthStencilWrite => true,
            AccessType::TransferWrite => true,
            _ => false,
        }
    }

    /// Whether the access only reads memory (every access that does not write).
    pub fn is_read(&self) -> (r: bool)
        ensures
            r == !self.is_write_spec(),
    {
        !self.is_write()
    }
}

#[derive(Clone, Copy, Debug, PartialEq, Eq, Structural, Hash)]
pub struct MemoryBarrier {
    pub src_stage: PipelineStage,
    pub dst_stage: PipelineStage,
    pub src_access: AccessType,
    pub dst_access: AccessType,
}

impl Default for MemoryBarrier {
    fn default() -> (r: Self)
        ensures
            r == (MemoryBarrier {
                src_stage: PipelineStage::TopOfPipe,
                dst_stage: PipelineStage::BottomOfPipe,
                src_access: AccessType::ColorAttachmentRead,
                dst_access: AccessType::ColorAttachmentRead,
            }),
    {
        MemoryBarrier {
            src_stage: PipelineStage::TopOfPipe,
            dst_stage: PipelineStage::BottomOfPipe,
            src_access: AccessType::ColorAttachmentRead,
            dst_access: AccessType::ColorAttachmentRead,
        }
    }
}

/// Layout transition and ordering for an image; the queues are set only for
/// a transfer of ownership between queue families.
#[derive(Clone, Copy, Debug, PartialEq, Eq, Structural, Hash)]
pub struct ImageBarrier {
    pub image: ImageId,
    pub old_layout: ImageLayout,
    pub new_layout: ImageLayout,
    pub src_stage: PipelineStage,
    pub dst_stage: PipelineStage,
    pub src_access: AccessType,
    pub dst_access: AccessType,
    pub src_queue: Option<QueueType>,
    pub dst_queue: Option<QueueType>,
    pub subresources: ImageSubresources,
}

impl Default for ImageBarrier {
    /// A barrier on the null image that changes nothing but ordering.
    fn default() -> (r: Self)
        ensures
            r.image.raw().is_null(),
            r.old_layout == ImageLayout::Undefined,
            r.new_layout == ImageLayout::Undefined,
            r.src_stage == PipelineStage::TopOfPipe,
            r.dst_stage == PipelineStage::BottomOfPipe,
            r.src_access == AccessType::ColorAttachmentRead,
            r.dst_access == AccessType::ColorAttachmentRead,
            r.src_queue == None::<QueueType>,
            r.dst_queue == None::<QueueType>,
            r.subresources == (ImageSubresources {
                aspect: crate::descriptions::ImageAspect::Color,
                mip_level: 0,
                level_count: 1,
                base_array_layer: 0,
                layer_count: 1,
            }),
    {
        ImageBarrier {
            image: ImageId::null(),
            old_layout: ImageLayout::Undefined,
            new_layout: ImageLayout::Undefined,
            src_stage: PipelineStage::TopOfPipe,
            dst_stage: PipelineStage::BottomOfPipe,
            src_access: AccessType::ColorAttachmentRead,
            dst_access: AccessType::ColorAttachmentRead,
            src_queue: None,
            dst_queue: None,
            subresources: ImageSubresources::default(),
        }
    }
}

/// Size that stands for "to the end of the buffer".
pub const WHOLE_SIZE: u64 = 0xFFFF_FFFF_FFFF_FFFF;

#[derive(Clone, Copy, Debug, PartialEq, Eq, Structural, Hash)]
pub struct BufferBarrier {
    pub buffer: BufferId,
    pub src_stage: PipelineStage,
    pub dst_stage: PipelineStage,
    pub src_access: AccessType,
    pub dst_access: AccessType,
    pub src_queue: Option<QueueType>,
    pub dst_queue: Option<QueueType>,
    pub offset: u64,
    pub size: u64,
}

impl Default for BufferBarrier {
    /// A barrier over the whole of the null buffer.
    fn default() -> (r: Self)
        ensures
            r.buffer.raw().is_null(),
            r.src_stage == PipelineStage::TopOfPipe,
            r.dst_stage == PipelineStage::BottomOfPipe,
            r.src_access == AccessType::ColorAttachmentRead,
            r.dst_access == AccessType::ColorAttachmentRead,
            r.src_queue == None::<QueueType>,
            r.dst_queue == None::<QueueType>,
            r.offset == 0,
            r.size == WHOLE_SIZE,
    {
        BufferBarrier {
            buffer: BufferId::null(),
            src_stage: PipelineStage::TopOfPipe,
            dst_stage: PipelineStage::BottomOfPipe,
            src_access: AccessType::ColorAttachmentRead,
            dst_access: AccessType::ColorAttachmentRead,
            src_queue: None,
            dst_queue: None,
            offset: 0,
            size: WHOLE_SIZE,
        }
    }
}

#[derive(Clone, Copy, Debug, PartialEq, Eq, Structural, Hash)]
pub enum Barrier {
    Memory(MemoryBarrier),
    Image(ImageBarrier),
    Buffer(BufferBarrier),
}

pub struct DrawMeshTasksIndirect {}

/// A CPU-observable completion signal, by native handle.
#[derive(Clone, Copy, Debug, PartialEq, Eq, Structural, Hash)]
pub struct Fence {
    pub handle: u64,
}

/// A GPU-side ordering primitive, by native handle.
#[derive(Clone, Copy, Debug, PartialEq, Eq, Structural, Hash)]
pub enum Semaphore {
    Binary(u64),
    Timeline(u64),
}

impl Semaphore {
    pub open spec fn handle_spec(self) -> u64 {
        match self {
            Semaphore::Binary(h) => h,
            Semaphore::Timeline(h) => h,
        }
    }

    pub fn handle(&self) -> (r: u64)
        ensures
            r == self.handle_spec(),
    {
        match self {
            Semaphore::Binary(h) => *h,
            Semaphore::Timeline(h) => *h,
        }
    }
}

/// A recorded command buffer, ready for submission to its queue.
#[derive(Clone, Copy, Debug, PartialEq, Eq, Structural, Hash)]
pub struct ExecutableCommandBuffer {
    pub handle: u64,
    pub queue_type: QueueType,
}

pub struct SemaphoreInfo {
    pub semaphore: Semaphore,
    pub pipeline_stage: PipelineStage,
    pub value: Option<u64>,
}

pub struct QueueSubmitInfo<'a> {
    pub fence: Option<Fence>,
    pub command_buffers: &'a [ExecutableCommandBuffer],
    pub wait_semaphores: &'a [SemaphoreInfo],
    pub signal_semaphores: &'a [SemaphoreInfo],
}

/// The queue that receives a submission: the one every command buffer was
/// recorded for.
pub fn submission_queue(command_buffers: &[ExecutableCommandBuffer]) -> (r: Result<
    QueueType,
    ConfigurationError,
>)
    ensures
        command_buffers@.len() == 0 ==> r == Err::<QueueType, _>(ConfigurationError::EmptySubmission),
        command_buffers@.len() > 0 && (forall|i: int|
            0 <= i < command_buffers@.len() ==> #[trigger] command_buffers@[i].queue_type
                == command_buffers@[0].queue_type) ==> r == Ok::<_, ConfigurationError>(
            command_buffers@[0].queue_type,
        ),
        command_buffers@.len() > 0 && !(forall|i: int|
            0 <= i < command_buffers@.len() ==> #[trigger] command_buffers@[i].queue_type
                == command_buffers@[0].queue_type) ==> r == Err::<QueueType, _>(
            ConfigurationError::MixedQueueTypes,
        ),
{
    if command_buffers.len() == 0 {
        return Err(ConfigurationError::EmptySubmission);
    }
    let q = command_buffers[0].queue_type;
    let mut i: usize = 1;
    while i < command_buffers.len()
        invariant
            1 <= i <= command_buffers@.len(),
            q == command_buffers@[0].queue_type,
            forall|j: int| 0 <= j < i ==> #[trigger] command_buffers@[j].queue_type == q,
        decreases command_buffers@.len() - i,
    {
        if command_buffers[i].queue_type != q {
            return Err(ConfigurationError::MixedQueueTypes);
        }
        i = i + 1;
    }
    Ok(q)
}

/// A command as recorded, before it reaches a native command buffer.
#[derive(Clone, Debug, PartialEq, Eq)]
pub enum Command {
    PipelineBarrier(Vec<Barrier>),
    CopyBufferToImage(BufferImageCopyInfo),
}

/// Records commands for one queue, in order.
pub struct CommandRecorder {
    queue_type: QueueType,
    commands: Vec<Command>,
}

impl CommandRecorder {
    pub closed spec fn queue(&self) -> QueueType {
        self.queue_type
    }

    /// The commands recorded so far, oldest first.
    pub closed spec fn recorded(&self) -> Seq<Command> {
        self.commands@
    }

    pub fn new(queue_type: QueueType) -> (r: Self)
        ensures
            r.queue() == queue_type,
            r.recorded() == Seq::<Command>::empty(),
    {
        CommandRecorder { queue_type, commands: Vec::new() }
    }

    pub fn queue_type(&self) -> (r: QueueType)
        ensures
            r == self.queue(),
    {
        self.queue_type
    }

    pub fn commands(&self) -> (r: &Vec<Command>)
        ensures
            r@ == self.recorded(),
    {
        &self.commands
    }

    pub fn pipeline_barrier(&mut self, barriers: &[Barrier])
        ensures
            final(self).queue() == old(self).queue(),
            final(self).recorded().len() == old(self).recorded().len() + 1,
            final(self).recorded().drop_last() == old(self).recorded(),
            final(self).recorded().last() is PipelineBarrier,
            final(self).recorded().last()->PipelineBarrier_0@ == barriers@,
    {
        let v = vstd::slice::slice_to_vec(barriers);
        self.commands.push(Command::PipelineBarrier(v));
        assert(self.commands@.drop_last() =~= old(self).commands@);
    }

    pub fn copy_buffer_to_image(&mut self, info: &BufferImageCopyInfo)
        ensures
            final(self).queue() == old(self).queue(),
            final(self).recorded() == old(self).recorded().push(Command::CopyBufferToImage(*info)),
    {
        self.commands.push(Command::CopyBufferToImage(*info));
    }
}

} // verus!
