use vstd::prelude::*;

use crate::commands::{
    AccessType, Barrier, BufferImageCopyInfo, BufferImageCopyRegion, Command, CommandRecorder,
    ImageBarrier, PipelineStage, QueueType,
};
use crate::descriptions::{Extent3D, ImageAspect, ImageLayout, ImageSubresources, Offset3D};
use crate::device::Texture;
use crate::ids::BufferId;

verus! {

/// Where the texels of a texture upload come from, and which queues hand the
/// image over.
#[derive(Clone, Copy, Debug, PartialEq, Eq, Structural, Hash)]
pub struct TextureWriteInfo {
    pub stg_buffer: BufferId,
    pub buffer_offset: u64,
    pub width: u32,
    pub height: u32,
    pub src_queue: QueueType,
    pub dst_queue: QueueType,
}

pub struct TextureDescription {}

pub open spec fn first_color_subresource() -> ImageSubresources {
    ImageSubresources {
        aspect: ImageAspect::Color,
        mip_level: 0,
        level_count: 1,
        base_array_layer: 0,
        layer_count: 1,
    }
}

impl Texture {
    /// Moves the image into the layout that copies write to.
    pub open spec fn to_transfer_dst_barrier(self) -> ImageBarrier {
        ImageBarrier {
            image: self.image,
            old_layout: ImageLayout::Undefined,
            new_layout: ImageLayout::TransferDst,
            src_stage: PipelineStage::TopOfPipe,
            dst_stage: PipelineStage::Transfer,
            src_access: AccessType::NoAccess,
            dst_access: AccessType::TransferWrite,
            src_queue: None,
            dst_queue: None,
            subresources: first_color_subresource(),
        }
    }

    /// Copies the staging buffer into the whole first mip level.
    pub open spec fn upload_copy(self, info: TextureWriteInfo) -> BufferImageCopyInfo {
        BufferImageCopyInfo {
            buffer: info.stg_buffer,
            image: self.image,
            dst_image_layout: ImageLayout::TransferDst,
            region: BufferImageCopyRegion {
                buffer_offset: info.buffer_offset,
                buffer_row_length: 0,
                buffer_image_height: 0,
                image_subresource: first_color_subresource(),
                image_offset: Offset3D { x: 0, y: 0, z: 0 },
                image_extent: Extent3D { width: info.width, height: info.height, depth: 1 },
            },
        }
    }

    /// Moves the image into the layout shaders read, handing it from
    /// `info.src_queue` to `info.dst_queue`.
    pub open spec fn to_shader_read_barrier(self, info: TextureWriteInfo) -> ImageBarrier {
        ImageBarrier {
            image: self.image,
            old_layout: ImageLayout::TransferDst,
            new_layout: ImageLayout::ShaderReadOnly,
            src_stage: PipelineStage::Transfer,
            dst_stage: PipelineStage::NoStage,
            src_access: AccessType::TransferWrite,
            dst_access: AccessType::NoAccess,
            src_queue: Some(info.src_queue),
            dst_queue: Some(info.dst_queue),
            subresources: first_color_subresource(),
        }
    }

    /// Records the upload of the staging buffer into the texture: a
    /// transition for the copy, the copy, and a transition for shader reads.
    pub fn write(&self, recorder: &mut CommandRecorder, texture_write_info: &TextureWriteInfo)
        ensures
            final(recorder).queue() == old(recorder).queue(),
            final(recorder).recorded().len() == old(recorder).recorded().len() + 3,
            final(recorder).recorded().subrange(0, old(recorder).recorded().len() as int)
                == old(recorder).recorded(),
            final(recorder).recorded()[old(recorder).recorded().len() as int] is PipelineBarrier,
            final(recorder).recorded()[old(recorder).recorded().len() as int]->PipelineBarrier_0@
                == seq![Barrier::Image(self.to_transfer_dst_barrier())],
            final(recorder).recorded()[old(recorder).recorded().len() + 1int] == Command::CopyBufferToImage(
                self.upload_copy(*texture_write_info),
            ),
            final(recorder).recorded()[old(recorder).recorded().len() + 2int] is PipelineBarrier,
            final(recorder).recorded()[old(recorder).recorded().len() + 2int]->PipelineBarrier_0@
                == seq![Barrier::Image(self.to_shader_read_barrier(*texture_write_info))],
    {
        let subresources = ImageSubresources {
            aspect: ImageAspect::Color,
            mip_level: 0,
            level_count: 1,
            base_array_layer: 0,
            layer_count: 1,
        };
        let acquire = ImageBarrier {
            image: self.image,
            old_layout: ImageLayout::Undefined,
            new_layout: ImageLayout::TransferDst,
            src_stage: PipelineStage::TopOfPipe,
            dst_stage: PipelineStage::Transfer,
            src_access: AccessType::NoAccess,
            dst_access: AccessType::TransferWrite,
            src_queue: None,
            dst_queue: None,
            subresources,
        };
        let ghost r0 = old(recorder).recorded();
        recorder.pipeline_barrier(&[Barrier::Image(acquire)]);
        let ghost r1 = recorder.recorded();
        recorder.copy_buffer_to_image(
            &BufferImageCopyInfo {
                buffer: texture_write_info.stg_buffer,
                image: self.image,
                dst_image_layout: ImageLayout::TransferDst,
                region: BufferImageCopyRegion {
                    buffer_offset: texture_write_info.buffer_offset,
                    buffer_row_length: 0,
                    buffer_image_height: 0,
                    image_subresource: subresources,
                    image_offset: Offset3D { x: 0, y: 0, z: 0 },
                    image_extent: Extent3D {
                        width: texture_write_info.width,
                        height: texture_write_info.height,
                        depth: 1,
                    },
                },
            },
        );
        let ghost r2 = recorder.recorded();
        let release = ImageBarrier {
            image: self.image,
            old_layout: ImageLayout::TransferDst,
            new_layout: ImageLayout::ShaderReadOnly,
            src_stage: PipelineStage::Transfer,
            dst_stage: PipelineStage::NoStage,
            src_access: AccessType::TransferWrite,
            dst_access: AccessType::NoAccess,
            src_queue: Some(texture_write_info.src_queue),
            dst_queue: Some(texture_write_info.dst_queue),
            subresources,
        };
        recorder.pipeline_barrier(&[Barrier::Image(release)]);
        proof {
            let n = r0.len() as int;
            let r3 = recorder.recorded();
            assert(r1 == r0.push(r1.last()));
            assert(r2 == r1.push(r2.last()));
            assert(r3 == r2.push(r3.last()));
            assert(r3.subrange(0, n) =~= r0);
            assert(r3[n] == r1.last());
            assert(r3[n + 1] == r2.last());
        }
    }
}

} // verus!
