use nexion::{
    BufferDescription, BufferId, BufferUsage, BufferWriteInfo, ConfigurationError,
    DescriptorCategory, DescriptorWrite, Device, Extent3D, Format, ImageDescription,
    ImageDescriptorType, ImageId, ImageType, ImageUsage, ImageViewDescription, ImageWriteInfo,
    MemoryType, NativeBuffer, NativeImage, Pipeline, PipelineSlot, Release, SamplerId,
    SamplerWriteInfo,
};

fn usage() -> BufferUsage {
    BufferUsage {
        vertex: false,
        index: false,
        uniform: false,
        storage: true,
        indirect: false,
        transfer_src: true,
        transfer_dst: true,
    }
}

fn buffer_desc(size: u64, memory_type: MemoryType) -> BufferDescription {
    BufferDescription { size, usage: usage(), memory_type }
}

fn image_desc() -> ImageDescription {
    ImageDescription {
        extent: Extent3D { width: 64, height: 64, depth: 1 },
        format: Format::Rgba8Unorm,
        usage: ImageUsage {
            sampled: true,
            storage: false,
            color_attachment: false,
            depth_stencil_attachment: false,
            transfer_src: false,
            transfer_dst: true,
        },
        image_type: ImageType::Type2D,
        array_layers: 1,
        mip_levels: 1,
        samples: 1,
        memory_type: MemoryType::GpuOnly,
    }
}

#[test]
fn host_visible_buffer_end_to_end() {
    let mut dev: Device<Vec<u8>> = Device::new(100, 100, 100);
    let a = dev.create_buffer(
        &buffer_desc(256, MemoryType::CpuToGpu),
        NativeBuffer { handle: 7, address: 0x1000, allocation: vec![0u8; 256] },
    );
    let pattern: Vec<u8> = (0..256u32).map(|i| (i * 7 % 251) as u8).collect();
    assert_eq!(dev.check_host_write(a, 256), Ok(()));
    dev.buffer_memory_mut(a)[..256].copy_from_slice(&pattern);
    assert_eq!(&dev.get_buffer(a).allocation[..256], &pattern[..]);
    assert_eq!(dev.get_buffer_address(a), 0x1000);
    let released = dev.destroy_buffer(a);
    assert_eq!(released, vec![Release::FreeMemory(pattern.clone()), Release::DestroyBuffer(7)]);
    assert!(!dev.contains_buffer(a));
}

#[test]
fn host_write_checks() {
    let mut dev: Device<u32> = Device::new(4, 4, 4);
    let gpu = dev.create_buffer(
        &buffer_desc(64, MemoryType::GpuOnly),
        NativeBuffer { handle: 1, address: 0x10, allocation: 0 },
    );
    let host = dev.create_buffer(
        &buffer_desc(64, MemoryType::GpuToCpu),
        NativeBuffer { handle: 2, address: 0x20, allocation: 0 },
    );
    assert_eq!(dev.check_host_write(gpu, 1), Err(ConfigurationError::NotHostVisible));
    assert_eq!(dev.check_host_write(host, 65), Err(ConfigurationError::WriteOutOfBounds));
    assert_eq!(dev.check_host_write(host, 64), Ok(()));
    assert!(!dev.get_buffer(gpu).host_visible);
    assert!(dev.get_buffer(host).host_visible);
}

#[test]
fn stale_buffer_id_is_rejected_after_reuse() {
    let mut dev: Device<u32> = Device::new(4, 4, 4);
    let a = dev.create_buffer(
        &buffer_desc(16, MemoryType::GpuOnly),
        NativeBuffer { handle: 1, address: 0x10, allocation: 1 },
    );
    dev.destroy_buffer(a);
    let b = dev.create_buffer(
        &buffer_desc(16, MemoryType::GpuOnly),
        NativeBuffer { handle: 2, address: 0x20, allocation: 2 },
    );
    assert_eq!(a.id.index, b.id.index);
    assert!(!dev.contains_buffer(a));
    assert!(dev.contains_buffer(b));
    assert!(!dev.contains_buffer(BufferId::null()));
    assert_eq!(BufferId::null().id.generation, 0);
    assert_ne!(b, a);
}

#[test]
fn image_view_and_descriptor_writes() {
    let mut dev: Device<u32> = Device::new(4, 4, 4);
    let img = dev.create_image(&image_desc(), NativeImage { handle: 30, allocation: 3 });
    let view = dev.create_image_view(img, &ImageViewDescription::default(), 31);
    assert_eq!(dev.get_image_view(view).image, img);
    assert_eq!(dev.get_image(img).format, Format::Rgba8Unorm);
    dev.write_image(&ImageWriteInfo {
        view,
        image_descriptor_type: ImageDescriptorType::StorageImage,
        index: 2,
    });
    let buf = dev.create_buffer(
        &buffer_desc(16, MemoryType::GpuOnly),
        NativeBuffer { handle: 1, address: 0xabc0, allocation: 1 },
    );
    dev.write_buffer(&BufferWriteInfo { buffer: buf, index: 0 });
    let sampler = dev.create_sampler(40);
    dev.write_sampler(&SamplerWriteInfo { sampler, index: 3 });
    let table = dev.descriptor_table();
    assert_eq!(table.read(DescriptorCategory::StorageImage, 2), Some(31));
    assert_eq!(table.read(DescriptorCategory::SampledImage, 2), None);
    assert_eq!(table.read(DescriptorCategory::BufferAddress, 0), Some(0xabc0));
    assert_eq!(table.read(DescriptorCategory::Sampler, 3), Some(40));
    let uploads = dev.upload_descriptors();
    assert_eq!(
        uploads,
        vec![
            DescriptorWrite { category: DescriptorCategory::StorageImage, index: 2, value: 31 },
            DescriptorWrite { category: DescriptorCategory::BufferAddress, index: 0, value: 0xabc0 },
            DescriptorWrite { category: DescriptorCategory::Sampler, index: 3, value: 40 },
        ]
    );
    assert!(dev.upload_descriptors().is_empty());
    assert_eq!(dev.destroy_image_view(view), vec![Release::DestroyImageView(31)]);
    assert_eq!(dev.destroy_image(img), vec![Release::FreeMemory(3), Release::DestroyImage(30)]);
    assert_eq!(dev.destroy_sampler(sampler), vec![Release::DestroySampler(40)]);
    assert!(!dev.contains_sampler(sampler));
    assert!(!dev.contains_sampler(SamplerId::null()));
}

#[test]
fn presentable_image_leaves_nothing_to_release() {
    let mut dev: Device<u32> = Device::new(4, 4, 4);
    let img = dev.register_presentable_image(99, Format::Bgra8Srgb);
    assert_eq!(dev.get_image(img).allocation, None);
    assert_eq!(dev.destroy_image(img), vec![]);
    assert!(!dev.contains_image(img));
    assert!(!dev.contains_image(ImageId::null()));
}

#[test]
fn texture_lifecycle() {
    let mut dev: Device<u32> = Device::new(4, 4, 4);
    let tex = dev.create_texture(
        &image_desc(),
        &ImageViewDescription::default(),
        1,
        NativeImage { handle: 50, allocation: 5 },
        51,
    );
    assert!(dev.contains_image(tex.image));
    assert!(dev.contains_image_view(tex.image_view));
    assert_eq!(dev.descriptor_table().read(DescriptorCategory::SampledImage, 1), Some(51));
    let released = dev.destory_texture(tex);
    assert_eq!(
        released,
        vec![Release::FreeMemory(5), Release::DestroyImage(50), Release::DestroyImageView(51)]
    );
    assert!(!dev.contains_image(tex.image));
    assert!(!dev.contains_image_view(tex.image_view));
}

#[test]
fn pipelines_keep_their_kind() {
    let mut dev: Device<u32> = Device::new(1, 1, 1);
    let r = dev.create_rasterization_pipeline(PipelineSlot { pipeline: 60, layout: 61 });
    let c = dev.create_compute_pipeline(PipelineSlot { pipeline: 70, layout: 71 });
    assert!(matches!(r, Pipeline::Rasterization(_)));
    assert!(matches!(c, Pipeline::Compute(_)));
    assert_ne!(r.get_raw(), c.get_raw());
    assert_eq!(
        dev.destroy_pipeline(c),
        vec![Release::DestroyPipeline(70), Release::DestroyPipelineLayout(71)]
    );
    assert!(!dev.contains_pipeline(c));
    assert!(dev.contains_pipeline(r));
    assert!(!dev.contains_pipeline(Pipeline::null()));
    assert!(matches!(Pipeline::null(), Pipeline::Rasterization(_)));
    assert_eq!(Pipeline::null().get_raw().index, u32::MAX);
}

#[test]
fn fresh_device_has_room() {
    let dev: Device<u32> = Device::new(1, 1, 1);
    assert!(dev.has_room());
}
