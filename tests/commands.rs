use nexion::{
    submission_queue, AccessType, Barrier, BufferBarrier, BufferId, Command, CommandRecorder,
    ConfigurationError, ExecutableCommandBuffer, Extent3D, ImageBarrier, ImageId, ImageLayout,
    ImageSubresources, ImageViewId, MemoryBarrier, PipelineStage, QueueType, SamplerId, Semaphore,
    Texture, TextureWriteInfo, WHOLE_SIZE,
};

#[test]
fn access_kinds() {
    for a in [AccessType::ShaderWrite, AccessType::ColorAttachmentWrite, AccessType::DepthStencilWrite, AccessType::TransferWrite] {
        assert!(a.is_write());
        assert!(!a.is_read());
    }
    for a in [AccessType::NoAccess, AccessType::ShaderRead, AccessType::TransferRead, AccessType::Indirect] {
        assert!(!a.is_write());
        assert!(a.is_read());
    }
}

#[test]
fn barrier_defaults() {
    let m = MemoryBarrier::default();
    assert_eq!(m.src_stage, PipelineStage::TopOfPipe);
    assert_eq!(m.dst_stage, PipelineStage::BottomOfPipe);
    let i = ImageBarrier::default();
    assert_eq!(i.image, ImageId::null());
    assert_eq!(i.src_queue, None);
    assert_eq!(i.subresources, ImageSubresources::default());
    let b = BufferBarrier::default();
    assert_eq!(b.size, WHOLE_SIZE);
    assert_eq!(b.buffer, BufferId::null());
    assert_eq!(ImageViewId::null().id.index, u32::MAX);
    assert_eq!(SamplerId::null().id.index, u32::MAX);
}

#[test]
fn submission_needs_one_queue() {
    let g = ExecutableCommandBuffer { handle: 1, queue_type: QueueType::Graphics };
    let t = ExecutableCommandBuffer { handle: 2, queue_type: QueueType::Transfer };
    assert_eq!(submission_queue(&[g, g]), Ok(QueueType::Graphics));
    assert_eq!(submission_queue(&[t]), Ok(QueueType::Transfer));
    assert_eq!(submission_queue(&[g, t]), Err(ConfigurationError::MixedQueueTypes));
    assert_eq!(submission_queue(&[]), Err(ConfigurationError::EmptySubmission));
}

#[test]
fn semaphore_handle() {
    assert_eq!(Semaphore::Binary(3).handle(), 3);
    assert_eq!(Semaphore::Timeline(4).handle(), 4);
}

#[test]
fn texture_upload_records_three_commands() {
    let mut dev: nexion::Device<u32> = nexion::Device::new(2, 2, 2);
    let tex = dev.create_texture(
        &nexion::ImageDescription {
            extent: Extent3D { width: 8, height: 4, depth: 1 },
            format: nexion::Format::Rgba8Srgb,
            usage: nexion::ImageUsage {
                sampled: true,
                storage: false,
                color_attachment: false,
                depth_stencil_attachment: false,
                transfer_src: false,
                transfer_dst: true,
            },
            image_type: nexion::ImageType::Type2D,
            array_layers: 1,
            mip_levels: 1,
            samples: 1,
            memory_type: nexion::MemoryType::GpuOnly,
        },
        &nexion::ImageViewDescription::default(),
        0,
        nexion::NativeImage { handle: 10, allocation: 1 },
        11,
    );
    let staging = BufferId::null();
    let info = TextureWriteInfo {
        stg_buffer: staging,
        buffer_offset: 16,
        width: 8,
        height: 4,
        src_queue: QueueType::Transfer,
        dst_queue: QueueType::Graphics,
    };
    let mut rec = CommandRecorder::new(QueueType::Transfer);
    tex.write(&mut rec, &info);
    let cmds = rec.commands();
    assert_eq!(cmds.len(), 3);
    match &cmds[0] {
        Command::PipelineBarrier(b) => match b.as_slice() {
            [Barrier::Image(ib)] => {
                assert_eq!(ib.image, tex.image);
                assert_eq!(ib.old_layout, ImageLayout::Undefined);
                assert_eq!(ib.new_layout, ImageLayout::TransferDst);
                assert_eq!(ib.dst_access, AccessType::TransferWrite);
                assert_eq!(ib.dst_stage, PipelineStage::Transfer);
            }
            _ => panic!("expected one image barrier"),
        },
        _ => panic!("expected a barrier first"),
    }
    match &cmds[1] {
        Command::CopyBufferToImage(c) => {
            assert_eq!(c.image, tex.image);
            assert_eq!(c.region.buffer_offset, 16);
            assert_eq!(c.region.image_extent, Extent3D { width: 8, height: 4, depth: 1 });
        }
        _ => panic!("expected the copy second"),
    }
    match &cmds[2] {
        Command::PipelineBarrier(b) => match b.as_slice() {
            [Barrier::Image(ib)] => {
                assert_eq!(ib.old_layout, ImageLayout::TransferDst);
                assert_eq!(ib.new_layout, ImageLayout::ShaderReadOnly);
                assert_eq!(ib.src_queue, Some(QueueType::Transfer));
                assert_eq!(ib.dst_queue, Some(QueueType::Graphics));
            }
            _ => panic!("expected one image barrier"),
        },
        _ => panic!("expected a barrier last"),
    }
    assert_eq!(rec.queue_type(), QueueType::Transfer);
    let _ = Texture { image: tex.image, image_view: tex.image_view };
}
