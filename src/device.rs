use vstd::prelude::*;

use crate::descriptions::{BufferDescription, Format, ImageDescription, ImageViewDescription};
use crate::descriptors::{BindlessTable, DescriptorCategory, DescriptorWrite, ImageDescriptorType};
use crate::error::ConfigurationError;
use crate::ids::{BufferId, ImageId, ImageViewId, Pipeline, SamplerId};
use crate::pool::{added_and_kept, PoolEvent, PoolId, SlotPool};

verus! {

/// A buffer as the device keeps it. `A` is the memory allocation handed out
/// by the allocator the caller uses.
#[derive(Debug, PartialEq, Eq)]
pub struct BufferSlot<A> {
    pub handle: u64,
    pub address: u64,
    pub size: u64,
    pub host_visible: bool,
    pub allocation: A,
}

/// An image as the device keeps it; presentable images have no allocation of
/// their own.
#[derive(Debug, PartialEq, Eq)]
pub struct ImageSlot<A> {
    pub handle: u64,
    pub format: Format,
    pub allocation: Option<A>,
}

#[derive(Clone, Copy, Debug, PartialEq, Eq, Structural, Hash)]
pub struct ImageViewSlot {
    pub handle: u64,
    pub image: ImageId,
}

#[derive(Clone, Copy, Debug, PartialEq, Eq, Structural, Hash)]
pub struct SamplerSlot {
    pub handle: u64,
}

#[derive(Clone, Copy, Debug, PartialEq, Eq, Structural, Hash)]
pub struct PipelineSlot {
    pub pipeline: u64,
    pub layout: u64,
}

/// A native buffer with its memory bound and its device address queried.
#[derive(Debug, PartialEq, Eq)]
pub struct NativeBuffer<A> {
    pub handle: u64,
    pub address: u64,
    pub allocation: A,
}

/// A native image with its memory bound.
#[derive(Debug, PartialEq, Eq)]
pub struct NativeImage<A> {
    pub handle: u64,
    pub allocation: A,
}

/// One step of tearing a resource down, to be carried out in the order given.
#[derive(Debug, PartialEq, Eq)]
pub enum Release<A> {
    FreeMemory(A),
    DestroyBuffer(u64),
    DestroyImage(u64),
    DestroyImageView(u64),
    DestroySampler(u64),
    DestroyPipeline(u64),
    DestroyPipelineLayout(u64),
}

#[derive(Clone, Copy, Debug, PartialEq, Eq, Structural, Hash)]
pub struct BufferWriteInfo {
    pub buffer: BufferId,
    pub index: u32,
}

#[derive(Clone, Copy, Debug, PartialEq, Eq, Structural, Hash)]
pub struct ImageWriteInfo {
    pub view: ImageViewId,
    pub image_descriptor_type: ImageDescriptorType,
    pub index: u32,
}

#[derive(Clone, Copy, Debug, PartialEq, Eq, Structural, Hash)]
pub struct SamplerWriteInfo {
    pub sampler: SamplerId,
    pub index: u32,
}

/// An image together with the view that shaders sample it through.
#[derive(Clone, Copy, Debug, PartialEq, Eq, Structural, Hash)]
pub struct Texture {
    pub image: ImageId,
    pub image_view: ImageViewId,
}

/// The one owner of all GPU objects: a pool per kind of resource and the
/// bindless table. Every change goes through `&mut self`.
pub struct Device<A> {
    buffers: SlotPool<BufferSlot<A>>,
    images: SlotPool<ImageSlot<A>>,
    image_views: SlotPool<ImageViewSlot>,
    samplers: SlotPool<SamplerSlot>,
    pipelines: SlotPool<PipelineSlot>,
    descriptors: BindlessTable,
}

impl<A> Device<A> {
    pub closed spec fn buffer_pool(&self) -> SlotPool<BufferSlot<A>> {
        self.buffers
    }

    pub closed spec fn image_pool(&self) -> SlotPool<ImageSlot<A>> {
        self.images
    }

    pub closed spec fn image_view_pool(&self) -> SlotPool<ImageViewSlot> {
        self.image_views
    }

    pub closed spec fn sampler_pool(&self) -> SlotPool<SamplerSlot> {
        self.samplers
    }

    pub closed spec fn pipeline_pool(&self) -> SlotPool<PipelineSlot> {
        self.pipelines
    }

    pub closed spec fn table(&self) -> BindlessTable {
        self.descriptors
    }

    pub open spec fn buffers(&self) -> Map<PoolId, BufferSlot<A>> {
        self.buffer_pool()@
    }

    pub open spec fn images(&self) -> Map<PoolId, ImageSlot<A>> {
        self.image_pool()@
    }

    pub open spec fn image_views(&self) -> Map<PoolId, ImageViewSlot> {
        self.image_view_pool()@
    }

    pub open spec fn samplers(&self) -> Map<PoolId, SamplerSlot> {
        self.sampler_pool()@
    }

    pub open spec fn pipelines(&self) -> Map<PoolId, PipelineSlot> {
        self.pipeline_pool()@
    }

    pub open spec fn wf(&self) -> bool {
        &&& self.buffer_pool().wf()
        &&& self.image_pool().wf()
        &&& self.image_view_pool().wf()
        &&& self.sampler_pool().wf()
        &&& self.pipeline_pool().wf()
    }

    /// Every pool can hand out one more id.
    pub open spec fn has_room_spec(&self) -> bool {
        &&& self.buffer_pool().has_room_spec()
        &&& self.image_pool().has_room_spec()
        &&& self.image_view_pool().has_room_spec()
        &&& self.sampler_pool().has_room_spec()
        &&& self.pipeline_pool().has_room_spec()
    }

    /// An empty device with a bindless table of the given capacities.
    pub fn new(buffer_capacity: u32, image_capacity: u32, sampler_capacity: u32) -> (r: Self)
        ensures
            r.wf(),
            r.has_room_spec(),
            r.buffers() == Map::<PoolId, BufferSlot<A>>::empty(),
            r.images() == Map::<PoolId, ImageSlot<A>>::empty(),
            r.image_views() == Map::<PoolId, ImageViewSlot>::empty(),
            r.samplers() == Map::<PoolId, SamplerSlot>::empty(),
            r.pipelines() == Map::<PoolId, PipelineSlot>::empty(),
            r.table().capacity(DescriptorCategory::BufferAddress) == buffer_capacity,
            r.table().capacity(DescriptorCategory::SampledImage) == image_capacity,
            r.table().capacity(DescriptorCategory::StorageImage) == image_capacity,
            r.table().capacity(DescriptorCategory::Sampler) == sampler_capacity,
            forall|c: DescriptorCategory, i: int|
                0 <= i < r.table().capacity(c) ==> #[trigger] r.table().slots(c)[i] == None::<u64>,
            r.table().pending() == Seq::<DescriptorWrite>::empty(),
    {
        Device {
            buffers: SlotPool::new(),
            images: SlotPool::new(),
            image_views: SlotPool::new(),
            samplers: SlotPool::new(),
            pipelines: SlotPool::new(),
            descriptors: BindlessTable::new(buffer_capacity, image_capacity, sampler_capacity),
        }
    }

    /// Whether every pool can hand out one more id.
    pub fn has_room(&self) -> (r: bool)
        requires
            self.wf(),
        ensures
            r == self.has_room_spec(),
    {
        self.buffers.has_room() && self.images.has_room() && self.image_views.has_room()
            && self.samplers.has_room() && self.pipelines.has_room()
    }

    /// Whether `n` presentable images and a view of each can be registered.
    pub fn has_room_for_presentable_images(&self, n: usize) -> (r: bool)
        requires
            self.wf(),
        ensures
            r == (self.image_pool().room() >= n && self.image_view_pool().room() >= n),
    {
        self.images.has_room_for(n) && self.image_views.has_room_for(n)
    }

    /// The bindless table.
    pub fn descriptor_table(&self) -> (r: &BindlessTable)
        ensures
            *r == self.table(),
    {
        &self.descriptors
    }

    // Buffers
    /// Takes ownership of a native buffer and its memory and returns its id.
    pub fn create_buffer(&mut self, desc: &BufferDescription, native: NativeBuffer<A>) -> (id:
        BufferId)
        requires
            old(self).wf(),
            old(self).buffer_pool().has_room_spec(),
        ensures
            !id.id.is_null(),
            SlotPool::steps_to(
                old(self).buffer_pool(),
                PoolEvent::Added(
                    id.id,
                    BufferSlot {
                        handle: native.handle,
                        address: native.address,
                        size: desc.size,
                        host_visible: desc.memory_type.host_visible_spec(),
                        allocation: native.allocation,
                    },
                ),
                final(self).buffer_pool(),
            ),
            final(self).wf(),
            !old(self).buffers().contains_key(id.id),
            !old(self).buffer_pool().retired().contains(id.id),
            final(self).buffers() == old(self).buffers().insert(
                id.id,
                BufferSlot {
                    handle: native.handle,
                    address: native.address,
                    size: desc.size,
                    host_visible: desc.memory_type.host_visible_spec(),
                    allocation: native.allocation,
                },
            ),
            final(self).buffer_pool().retired() == old(self).buffer_pool().retired(),
            final(self).image_pool() == old(self).image_pool(),
            final(self).image_view_pool() == old(self).image_view_pool(),
            final(self).sampler_pool() == old(self).sampler_pool(),
            final(self).pipeline_pool() == old(self).pipeline_pool(),
            final(self).table() == old(self).table(),
    {
        let host_visible = desc.memory_type.is_host_visible();
        let id = self.buffers.add(
            BufferSlot {
                handle: native.handle,
                address: native.address,
                size: desc.size,
                host_visible,
                allocation: native.allocation,
            },
        );
        BufferId { id }
    }

    /// Whether `id` names a live buffer.
    pub fn contains_buffer(&self, id: BufferId) -> (r: bool)
        ensures
            r == self.buffers().contains_key(id.id),
    {
        self.buffers.contains(id.id)
    }

    pub fn get_buffer(&self, id: BufferId) -> (r: &BufferSlot<A>)
        requires
            self.buffers().contains_key(id.id),
        ensures
            *r == self.buffers()[id.id],
    {
        self.buffers.get_ref(id.id)
    }

    /// The device address of a live buffer.
    pub fn get_buffer_address(&self, id: BufferId) -> (r: u64)
        requires
            self.buffers().contains_key(id.id),
        ensures
            r == self.buffers()[id.id].address,
    {
        self.buffers.get_ref(id.id).address
    }

    /// Frees the buffer's slot and gives back what is left to release: its
    /// memory first, then the native buffer.
    pub fn destroy_buffer(&mut self, id: BufferId) -> (r: Vec<Release<A>>)
        requires
            old(self).wf(),
            old(self).buffers().contains_key(id.id),
        ensures
            SlotPool::steps_to(old(self).buffer_pool(), PoolEvent::Deleted(id.id), final(self).buffer_pool()),
            final(self).wf(),
            final(self).buffers() == old(self).buffers().remove(id.id),
            final(self).buffer_pool().retired() == old(self).buffer_pool().retired().insert(id.id),
            r@ == seq![
                Release::FreeMemory(old(self).buffers()[id.id].allocation),
                Release::DestroyBuffer(old(self).buffers()[id.id].handle),
            ],
            final(self).image_pool() == old(self).image_pool(),
            final(self).image_view_pool() == old(self).image_view_pool(),
            final(self).sampler_pool() == old(self).sampler_pool(),
            final(self).pipeline_pool() == old(self).pipeline_pool(),
            final(self).table() == old(self).table(),
    {
        let slot = self.buffers.delete(id.id);
        let mut r: Vec<Release<A>> = Vec::new();
        r.push(Release::FreeMemory(slot.allocation));
        r.push(Release::DestroyBuffer(slot.handle));
        r
    }

    /// Checks that `byte_len` bytes can be written at the start of the
    /// buffer's mapped memory.
    pub fn check_host_write(&self, id: BufferId, byte_len: u64) -> (r: Result<(), ConfigurationError>)
        requires
            self.buffers().contains_key(id.id),
        ensures
            !self.buffers()[id.id].host_visible ==> r == Err::<(), _>(
                ConfigurationError::NotHostVisible,
            ),
            self.buffers()[id.id].host_visible && byte_len > self.buffers()[id.id].size ==> r
                == Err::<(), _>(ConfigurationError::WriteOutOfBounds),
            self.buffers()[id.id].host_visible && byte_len <= self.buffers()[id.id].size ==> r
                == Ok::<(), ConfigurationError>(()),
    {
        let slot = self.buffers.get_ref(id.id);
        if !slot.host_visible {
            Err(ConfigurationError::NotHostVisible)
        } else if byte_len > slot.size {
            Err(ConfigurationError::WriteOutOfBounds)
        } else {
            Ok(())
        }
    }

    /// The memory of a live buffer, for the host to write through its mapping.
    pub fn buffer_memory_mut(&mut self, id: BufferId) -> (r: &mut A)
        requires
            old(self).wf(),
            old(self).buffers().contains_key(id.id),
        ensures
            *r == old(self).buffers()[id.id].allocation,
            final(self).wf(),
            final(self).buffers() == old(self).buffers().insert(
                id.id,
                BufferSlot { allocation: *final(r), ..old(self).buffers()[id.id] },
            ),
            final(self).buffer_pool().retired() == old(self).buffer_pool().retired(),
            final(self).image_pool() == old(self).image_pool(),
            final(self).image_view_pool() == old(self).image_view_pool(),
            final(self).sampler_pool() == old(self).sampler_pool(),
            final(self).pipeline_pool() == old(self).pipeline_pool(),
            final(self).table() == old(self).table(),
    {
        let slot = self.buffers.get_mut(id.id);
        &mut slot.allocation
    }

    // Images
    /// Takes ownership of a native image and its memory and returns its id.
    pub fn create_image(&mut self, desc: &ImageDescription, native: NativeImage<A>) -> (id: ImageId)
        requires
            old(self).wf(),
            old(self).image_pool().has_room_spec(),
        ensures
            !id.id.is_null(),
            final(self).wf(),
            !old(self).images().contains_key(id.id),
            !old(self).image_pool().retired().contains(id.id),
            final(self).images() == old(self).images().insert(
                id.id,
                ImageSlot {
                    handle: native.handle,
                    format: desc.format,
                    allocation: Some(native.allocation),
                },
            ),
            final(self).image_pool().retired() == old(self).image_pool().retired(),
            final(self).buffer_pool() == old(self).buffer_pool(),
            final(self).image_view_pool() == old(self).image_view_pool(),
            final(self).sampler_pool() == old(self).sampler_pool(),
            final(self).pipeline_pool() == old(self).pipeline_pool(),
            final(self).table() == old(self).table(),
    {
        let id = self.images.add(
            ImageSlot { handle: native.handle, format: desc.format, allocation: Some(native.allocation) },
        );
        ImageId { id }
    }

    /// Registers an image that belongs to a swapchain: it has no memory of its
    /// own and is destroyed with the swapchain.
    pub fn register_presentable_image(&mut self, handle: u64, format: Format) -> (id: ImageId)
        requires
            old(self).wf(),
            old(self).image_pool().has_room_spec(),
        ensures
            !id.id.is_null(),
            final(self).image_pool().room() + 1 == old(self).image_pool().room(),
            final(self).wf(),
            !old(self).images().contains_key(id.id),
            !old(self).image_pool().retired().contains(id.id),
            final(self).images() == old(self).images().insert(
                id.id,
                ImageSlot { handle, format, allocation: None },
            ),
            final(self).image_pool().retired() == old(self).image_pool().retired(),
            final(self).buffer_pool() == old(self).buffer_pool(),
            final(self).image_view_pool() == old(self).image_view_pool(),
            final(self).sampler_pool() == old(self).sampler_pool(),
            final(self).pipeline_pool() == old(self).pipeline_pool(),
            final(self).table() == old(self).table(),
    {
        let id = self.images.add(ImageSlot { handle, format, allocation: None });
        ImageId { id }
    }

    /// Whether `id` names a live image.
    pub fn contains_image(&self, id: ImageId) -> (r: bool)
        ensures
            r == self.images().contains_key(id.id),
    {
        self.images.contains(id.id)
    }

    pub fn get_image(&self, id: ImageId) -> (r: &ImageSlot<A>)
        requires
            self.images().contains_key(id.id),
        ensures
            *r == self.images()[id.id],
    {
        self.images.get_ref(id.id)
    }

    /// Frees the image's slot and gives back what is left to release: its
    /// memory first, then the native image. A presentable image leaves
    /// nothing: its swapchain owns it.
    pub fn destroy_image(&mut self, id: ImageId) -> (r: Vec<Release<A>>)
        requires
            old(self).wf(),
            old(self).images().contains_key(id.id),
        ensures
            final(self).wf(),
            final(self).images() == old(self).images().remove(id.id),
            final(self).image_pool().retired() == old(self).image_pool().retired().insert(id.id),
            r@ == match old(self).images()[id.id].allocation {
                Some(a) => seq![
                    Release::FreeMemory(a),
                    Release::DestroyImage(old(self).images()[id.id].handle),
                ],
                None => Seq::<Release<A>>::empty(),
            },
            final(self).buffer_pool() == old(self).buffer_pool(),
            final(self).image_view_pool() == old(self).image_view_pool(),
            final(self).sampler_pool() == old(self).sampler_pool(),
            final(self).pipeline_pool() == old(self).pipeline_pool(),
            final(self).table() == old(self).table(),
    {
        let slot = self.images.delete(id.id);
        let mut r: Vec<Release<A>> = Vec::new();
        match slot.allocation {
            Some(a) => {
                r.push(Release::FreeMemory(a));
                r.push(Release::DestroyImage(slot.handle));
            },
            None => {},
        }
        r
    }

    // Image views
    /// Registers a native view of a live image.
    pub fn create_image_view(&mut self, image: ImageId, desc: &ImageViewDescription, handle: u64) -> (id:
        ImageViewId)
        requires
            old(self).wf(),
            old(self).image_view_pool().has_room_spec(),
            old(self).images().contains_key(image.id),
        ensures
            !id.id.is_null(),
            final(self).image_view_pool().room() + 1 == old(self).image_view_pool().room(),
            final(self).wf(),
            !old(self).image_views().contains_key(id.id),
            !old(self).image_view_pool().retired().contains(id.id),
            final(self).image_views() == old(self).image_views().insert(
                id.id,
                ImageViewSlot { handle, image },
            ),
            final(self).image_view_pool().retired() == old(self).image_view_pool().retired(),
            final(self).buffer_pool() == old(self).buffer_pool(),
            final(self).image_pool() == old(self).image_pool(),
            final(self).sampler_pool() == old(self).sampler_pool(),
            final(self).pipeline_pool() == old(self).pipeline_pool(),
            final(self).table() == old(self).table(),
    {
        let id = self.image_views.add(ImageViewSlot { handle, image });
        ImageViewId { id }
    }

    /// Whether `id` names a live image view.
    pub fn contains_image_view(&self, id: ImageViewId) -> (r: bool)
        ensures
            r == self.image_views().contains_key(id.id),
    {
        self.image_views.contains(id.id)
    }

    pub fn get_image_view(&self, id: ImageViewId) -> (r: ImageViewSlot)
        requires
            self.image_views().contains_key(id.id),
        ensures
            r == self.image_views()[id.id],
    {
        *self.image_views.get_ref(id.id)
    }

    /// Frees the view's slot; the native view is left to destroy.
    pub fn destroy_image_view(&mut self, id: ImageViewId) -> (r: Vec<Release<A>>)
        requires
            old(self).wf(),
            old(self).image_views().contains_key(id.id),
        ensures
            final(self).wf(),
            final(self).image_views() == old(self).image_views().remove(id.id),
            final(self).image_view_pool().retired() == old(self).image_view_pool().retired().insert(
                id.id,
            ),
            r@ == seq![Release::<A>::DestroyImageView(old(self).image_views()[id.id].handle)],
            final(self).buffer_pool() == old(self).buffer_pool(),
            final(self).image_pool() == old(self).image_pool(),
            final(self).sampler_pool() == old(self).sampler_pool(),
            final(self).pipeline_pool() == old(self).pipeline_pool(),
            final(self).table() == old(self).table(),
    {
        let slot = self.image_views.delete(id.id);
        let mut r: Vec<Release<A>> = Vec::new();
        r.push(Release::DestroyImageView(slot.handle));
        r
    }

    // Samplers
    /// Registers a native sampler.
    pub fn create_sampler(&mut self, handle: u64) -> (id: SamplerId)
        requires
            old(self).wf(),
            old(self).sampler_pool().has_room_spec(),
        ensures
            !id.id.is_null(),
            final(self).wf(),
            !old(self).samplers().contains_key(id.id),
            !old(self).sampler_pool().retired().contains(id.id),
            final(self).samplers() == old(self).samplers().insert(id.id, SamplerSlot { handle }),
            final(self).sampler_pool().retired() == old(self).sampler_pool().retired(),
            final(self).buffer_pool() == old(self).buffer_pool(),
            final(self).image_pool() == old(self).image_pool(),
            final(self).image_view_pool() == old(self).image_view_pool(),
            final(self).pipeline_pool() == old(self).pipeline_pool(),
            final(self).table() == old(self).table(),
    {
        let id = self.samplers.add(SamplerSlot { handle });
        SamplerId { id }
    }

    /// Whether `id` names a live sampler.
    pub fn contains_sampler(&self, id: SamplerId) -> (r: bool)
        ensures
            r == self.samplers().contains_key(id.id),
    {
        self.samplers.contains(id.id)
    }

    /// Frees the sampler's slot; the native sampler is left to destroy.
    pub fn destroy_sampler(&mut self, id: SamplerId) -> (r: Vec<Release<A>>)
        requires
            old(self).wf(),
            old(self).samplers().contains_key(id.id),
        ensures
            final(self).wf(),
            final(self).samplers() == old(self).samplers().remove(id.id),
            final(self).sampler_pool().retired() == old(self).sampler_pool().retired().insert(id.id),
            r@ == seq![Release::<A>::DestroySampler(old(self).samplers()[id.id].handle)],
            final(self).buffer_pool() == old(self).buffer_pool(),
            final(self).image_pool() == old(self).image_pool(),
            final(self).image_view_pool() == old(self).image_view_pool(),
            final(self).pipeline_pool() == old(self).pipeline_pool(),
            final(self).table() == old(self).table(),
    {
        let slot = self.samplers.delete(id.id);
        let mut r: Vec<Release<A>> = Vec::new();
        r.push(Release::DestroySampler(slot.handle));
        r
    }

    // Pipelines
    fn add_pipeline(&mut self, native: PipelineSlot) -> (id: PoolId)
        requires
            old(self).wf(),
            old(self).pipeline_pool().has_room_spec(),
        ensures
            !id.is_null(),
            final(self).wf(),
            !old(self).pipelines().contains_key(id),
            !old(self).pipeline_pool().retired().contains(id),
            final(self).pipelines() == old(self).pipelines().insert(id, native),
            final(self).pipeline_pool().retired() == old(self).pipeline_pool().retired(),
            final(self).buffer_pool() == old(self).buffer_pool(),
            final(self).image_pool() == old(self).image_pool(),
            final(self).image_view_pool() == old(self).image_view_pool(),
            final(self).sampler_pool() == old(self).sampler_pool(),
            final(self).table() == old(self).table(),
    {
        self.pipelines.add(native)
    }

    /// Registers a native graphics pipeline and its layout.
    pub fn create_rasterization_pipeline(&mut self, native: PipelineSlot) -> (p: Pipeline)
        requires
            old(self).wf(),
            old(self).pipeline_pool().has_room_spec(),
        ensures
            !p.raw().is_null(),
            p == Pipeline::Rasterization(p.raw()),
            final(self).wf(),
            !old(self).pipelines().contains_key(p.raw()),
            !old(self).pipeline_pool().retired().contains(p.raw()),
            final(self).pipelines() == old(self).pipelines().insert(p.raw(), native),
            final(self).pipeline_pool().retired() == old(self).pipeline_pool().retired(),
            final(self).buffer_pool() == old(self).buffer_pool(),
            final(self).image_pool() == old(self).image_pool(),
            final(self).image_view_pool() == old(self).image_view_pool(),
            final(self).sampler_pool() == old(self).sampler_pool(),
            final(self).table() == old(self).table(),
    {
        Pipeline::Rasterization(self.add_pipeline(native))
    }

    /// Registers a native compute pipeline and its layout.
    pub fn create_compute_pipeline(&mut self, native: PipelineSlot) -> (p: Pipeline)
        requires
            old(self).wf(),
            old(self).pipeline_pool().has_room_spec(),
        ensures
            !p.raw().is_null(),
            p == Pipeline::Compute(p.raw()),
            final(self).wf(),
            !old(self).pipelines().contains_key(p.raw()),
            !old(self).pipeline_pool().retired().contains(p.raw()),
            final(self).pipelines() == old(self).pipelines().insert(p.raw(), native),
            final(self).pipeline_pool().retired() == old(self).pipeline_pool().retired(),
            final(self).buffer_pool() == old(self).buffer_pool(),
            final(self).image_pool() == old(self).image_pool(),
            final(self).image_view_pool() == old(self).image_view_pool(),
            final(self).sampler_pool() == old(self).sampler_pool(),
            final(self).table() == old(self).table(),
    {
        Pipeline::Compute(self.add_pipeline(native))
    }

    /// Whether `p` names a live pipeline.
    pub fn contains_pipeline(&self, p: Pipeline) -> (r: bool)
        ensures
            r == self.pipelines().contains_key(p.raw()),
    {
        self.pipelines.contains(p.get_raw())
    }

    /// Frees the pipeline's slot; the native pipeline, then its layout, are
    /// left to destroy.
    pub fn destroy_pipeline(&mut self, p: Pipeline) -> (r: Vec<Release<A>>)
        requires
            old(self).wf(),
            old(self).pipelines().contains_key(p.raw()),
        ensures
            final(self).wf(),
            final(self).pipelines() == old(self).pipelines().remove(p.raw()),
            final(self).pipeline_pool().retired() == old(self).pipeline_pool().retired().insert(
                p.raw(),
            ),
            r@ == seq![
                Release::<A>::DestroyPipeline(old(self).pipelines()[p.raw()].pipeline),
                Release::<A>::DestroyPipelineLayout(old(self).pipelines()[p.raw()].layout),
            ],
            final(self).buffer_pool() == old(self).buffer_pool(),
            final(self).image_pool() == old(self).image_pool(),
            final(self).image_view_pool() == old(self).image_view_pool(),
            final(self).sampler_pool() == old(self).sampler_pool(),
            final(self).table() == old(self).table(),
    {
        let slot = self.pipelines.delete(p.get_raw());
        let mut r: Vec<Release<A>> = Vec::new();
        r.push(Release::DestroyPipeline(slot.pipeline));
        r.push(Release::DestroyPipelineLayout(slot.layout));
        r
    }

    // Descriptors
    /// Exposes a live buffer's device address in slot `info.index`.
    pub fn write_buffer(&mut self, info: &BufferWriteInfo)
        requires
            old(self).buffers().contains_key(info.buffer.id),
            info.index < old(self).table().capacity(DescriptorCategory::BufferAddress),
        ensures
            BindlessTable::written(
                &old(self).table(),
                &final(self).table(),
                DescriptorCategory::BufferAddress,
                info.index,
                old(self).buffers()[info.buffer.id].address,
            ),
            final(self).table().pending() == old(self).table().pending().push(
                DescriptorWrite {
                    category: DescriptorCategory::BufferAddress,
                    index: info.index,
                    value: old(self).buffers()[info.buffer.id].address,
                },
            ),
            final(self).buffer_pool() == old(self).buffer_pool(),
            final(self).image_pool() == old(self).image_pool(),
            final(self).image_view_pool() == old(self).image_view_pool(),
            final(self).sampler_pool() == old(self).sampler_pool(),
            final(self).pipeline_pool() == old(self).pipeline_pool(),
    {
        let address = self.buffers.get_ref(info.buffer.id).address;
        self.descriptors.write_buffer(address, info.index);
    }

    /// Exposes a live image view in slot `info.index` of the sampled or the
    /// storage image array.
    pub fn write_image(&mut self, info: &ImageWriteInfo)
        requires
            old(self).image_views().contains_key(info.view.id),
            info.index < old(self).table().capacity(info.image_descriptor_type.category_spec()),
        ensures
            BindlessTable::written(
                &old(self).table(),
                &final(self).table(),
                info.image_descriptor_type.category_spec(),
                info.index,
                old(self).image_views()[info.view.id].handle,
            ),
            final(self).table().pending() == old(self).table().pending().push(
                DescriptorWrite {
                    category: info.image_descriptor_type.category_spec(),
                    index: info.index,
                    value: old(self).image_views()[info.view.id].handle,
                },
            ),
            final(self).buffer_pool() == old(self).buffer_pool(),
            final(self).image_pool() == old(self).image_pool(),
            final(self).image_view_pool() == old(self).image_view_pool(),
            final(self).sampler_pool() == old(self).sampler_pool(),
            final(self).pipeline_pool() == old(self).pipeline_pool(),
    {
        let handle = self.image_views.get_ref(info.view.id).handle;
        match info.image_descriptor_type {
            ImageDescriptorType::SampledImage => self.descriptors.write_sampled_image(handle, info.index),
            ImageDescriptorType::StorageImage => self.descriptors.write_storage_image(handle, info.index),
        }
    }

    /// Exposes a live sampler in slot `info.index`.
    pub fn write_sampler(&mut self, info: &SamplerWriteInfo)
        requires
            old(self).samplers().contains_key(info.sampler.id),
            info.index < old(self).table().capacity(DescriptorCategory::Sampler),
        ensures
            BindlessTable::written(
                &old(self).table(),
                &final(self).table(),
                DescriptorCategory::Sampler,
                info.index,
                old(self).samplers()[info.sampler.id].handle,
            ),
            final(self).table().pending() == old(self).table().pending().push(
                DescriptorWrite {
                    category: DescriptorCategory::Sampler,
                    index: info.index,
                    value: old(self).samplers()[info.sampler.id].handle,
                },
            ),
            final(self).buffer_pool() == old(self).buffer_pool(),
            final(self).image_pool() == old(self).image_pool(),
            final(self).image_view_pool() == old(self).image_view_pool(),
            final(self).sampler_pool() == old(self).sampler_pool(),
            final(self).pipeline_pool() == old(self).pipeline_pool(),
    {
        let handle = self.samplers.get_ref(info.sampler.id).handle;
        self.descriptors.write_sampler(handle, info.index);
    }

    /// The descriptor writes to upload before any work that reads them is
    /// submitted, oldest first.
    pub fn upload_descriptors(&mut self) -> (r: Vec<DescriptorWrite>)
        ensures
            r@ == old(self).table().pending(),
            final(self).table().pending() == Seq::<DescriptorWrite>::empty(),
            forall|c: DescriptorCategory| #[trigger]
                final(self).table().slots(c) == old(self).table().slots(c),
            final(self).buffer_pool() == old(self).buffer_pool(),
            final(self).image_pool() == old(self).image_pool(),
            final(self).image_view_pool() == old(self).image_view_pool(),
            final(self).sampler_pool() == old(self).sampler_pool(),
            final(self).pipeline_pool() == old(self).pipeline_pool(),
    {
        self.descriptors.take_pending()
    }

    // Textures
    /// Registers a sampled texture: the image, a view of it, and the view in
    /// slot `index` of the sampled-image array.
    pub fn create_texture(
        &mut self,
        image_desc: &ImageDescription,
        image_view_desc: &ImageViewDescription,
        index: u32,
        image: NativeImage<A>,
        view_handle: u64,
    ) -> (t: Texture)
        requires
            old(self).wf(),
            old(self).image_pool().has_room_spec(),
            old(self).image_view_pool().has_room_spec(),
            index < old(self).table().capacity(DescriptorCategory::SampledImage),
        ensures
            !t.image.id.is_null(),
            !t.image_view.id.is_null(),
            final(self).wf(),
            !old(self).images().contains_key(t.image.id),
            !old(self).image_views().contains_key(t.image_view.id),
            final(self).images() == old(self).images().insert(
                t.image.id,
                ImageSlot {
                    handle: image.handle,
                    format: image_desc.format,
                    allocation: Some(image.allocation),
                },
            ),
            final(self).image_views() == old(self).image_views().insert(
                t.image_view.id,
                ImageViewSlot { handle: view_handle, image: t.image },
            ),
            BindlessTable::written(
                &old(self).table(),
                &final(self).table(),
                DescriptorCategory::SampledImage,
                index,
                view_handle,
            ),
            final(self).table().pending() == old(self).table().pending().push(
                DescriptorWrite {
                    category: DescriptorCategory::SampledImage,
                    index,
                    value: view_handle,
                },
            ),
            final(self).buffer_pool() == old(self).buffer_pool(),
            final(self).sampler_pool() == old(self).sampler_pool(),
            final(self).pipeline_pool() == old(self).pipeline_pool(),
    {
        let img = self.create_image(image_desc, image);
        let view = self.create_image_view(img, image_view_desc, view_handle);
        self.write_image(
            &ImageWriteInfo {
                view,
                image_descriptor_type: ImageDescriptorType::SampledImage,
                index,
            },
        );
        Texture { image: img, image_view: view }
    }

    /// Destroys a texture's image, then its view; what is left to release
    /// comes in that order.
    pub fn destory_texture(&mut self, texture: Texture) -> (r: Vec<Release<A>>)
        requires
            old(self).wf(),
            old(self).images().contains_key(texture.image.id),
            old(self).image_views().contains_key(texture.image_view.id),
        ensures
            final(self).wf(),
            final(self).images() == old(self).images().remove(texture.image.id),
            final(self).image_views() == old(self).image_views().remove(texture.image_view.id),
            r@ == match old(self).images()[texture.image.id].allocation {
                Some(a) => seq![
                    Release::FreeMemory(a),
                    Release::DestroyImage(old(self).images()[texture.image.id].handle),
                ],
                None => Seq::<Release<A>>::empty(),
            }.push(Release::DestroyImageView(old(self).image_views()[texture.image_view.id].handle)),
            final(self).buffer_pool() == old(self).buffer_pool(),
            final(self).sampler_pool() == old(self).sampler_pool(),
            final(self).pipeline_pool() == old(self).pipeline_pool(),
            final(self).table() == old(self).table(),
    {
        let mut r = self.destroy_image(texture.image);
        let mut v = self.destroy_image_view(texture.image_view);
        let ghost r0 = r@;
        let ghost v0 = v@;
        r.append(&mut v);
        assert(r@ =~= r0 + v0);
        r
    }

    /// The buffer pools along a run of devices.
    pub open spec fn buffer_states(devices: Seq<Self>) -> Seq<SlotPool<BufferSlot<A>>> {
        devices.map_values(|d: Self| d.buffer_pool())
    }

    /// Over any run of buffer creations and destructions from a new device, a
    /// buffer id is live at the end exactly when a creation returned it and
    /// no later destruction took it, and it still holds what that creation
    /// stored, whatever happened to other buffers in between.
    pub proof fn lemma_buffer_history(
        devices: Seq<Self>,
        events: Seq<PoolEvent<BufferSlot<A>>>,
        id: BufferId,
    )
        requires
            SlotPool::is_run(Self::buffer_states(devices), events),
        ensures
            devices.last().buffers().contains_key(id.id) <==> exists|k: int|
                0 <= k < events.len() && #[trigger] added_and_kept(events, id.id, k),
            forall|k: int|
                0 <= k < events.len() && #[trigger] added_and_kept(events, id.id, k)
                    ==> devices.last().buffers()[id.id] == events[k]->Added_1,
    {
        let states = Self::buffer_states(devices);
        SlotPool::lemma_history(states, events, id.id);
        assert(states.last() == devices.last().buffer_pool());
    }

    /// Once a buffer is destroyed, its id is never live again and no later
    /// creation returns it, even where the creation reuses its pool index.
    pub proof fn lemma_destroyed_buffer_stays_dead(
        devices: Seq<Self>,
        events: Seq<PoolEvent<BufferSlot<A>>>,
        k: int,
        id: BufferId,
    )
        requires
            SlotPool::is_run(Self::buffer_states(devices), events),
            0 <= k < events.len(),
            events[k] == PoolEvent::<BufferSlot<A>>::Deleted(id.id),
        ensures
            forall|j: int| k < j < devices.len() ==> !(#[trigger] devices[j]).buffers().contains_key(id.id),
            forall|j: int|
                k < j < events.len() ==> !((#[trigger] events[j]) is Added && events[j]->Added_0 == id.id),
    {
        let states = Self::buffer_states(devices);
        SlotPool::lemma_deleted_id_stays_dead(states, events, k, id.id);
        assert forall|j: int| k < j < devices.len() implies !(#[trigger] devices[j]).buffers().contains_key(
            id.id,
        ) by {
            assert(states[j] == devices[j].buffer_pool());
        }
    }
}

} // verus!
