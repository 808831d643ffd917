use nexion::{BindlessTable, DescriptorCategory, DescriptorWrite, ImageDescriptorType};

#[test]
fn new_table_is_unwritten() {
    let t = BindlessTable::new(4, 3, 2);
    assert_eq!(t.capacity_of(DescriptorCategory::BufferAddress), 4);
    assert_eq!(t.capacity_of(DescriptorCategory::SampledImage), 3);
    assert_eq!(t.capacity_of(DescriptorCategory::StorageImage), 3);
    assert_eq!(t.capacity_of(DescriptorCategory::Sampler), 2);
    for i in 0..3 {
        assert_eq!(t.read(DescriptorCategory::SampledImage, i), None);
    }
}

#[test]
fn writing_twice_reads_like_once() {
    let mut once = BindlessTable::new(4, 4, 4);
    once.write(DescriptorCategory::StorageImage, 2, 77);
    let mut twice = BindlessTable::new(4, 4, 4);
    twice.write(DescriptorCategory::StorageImage, 2, 77);
    twice.write(DescriptorCategory::StorageImage, 2, 77);
    for c in [
        DescriptorCategory::BufferAddress,
        DescriptorCategory::SampledImage,
        DescriptorCategory::StorageImage,
        DescriptorCategory::Sampler,
    ] {
        for i in 0..4 {
            assert_eq!(once.read(c, i), twice.read(c, i));
        }
    }
    assert_eq!(twice.read(DescriptorCategory::StorageImage, 2), Some(77));
}

#[test]
fn write_overwrites_only_its_slot() {
    let mut t = BindlessTable::new(4, 4, 4);
    t.write_buffer(0xdead_0000, 1);
    t.write_buffer(0xbeef_0000, 1);
    t.write_sampler(5, 1);
    assert_eq!(t.read(DescriptorCategory::BufferAddress, 1), Some(0xbeef_0000));
    assert_eq!(t.read(DescriptorCategory::BufferAddress, 0), None);
    assert_eq!(t.read(DescriptorCategory::Sampler, 1), Some(5));
    assert_eq!(t.read(DescriptorCategory::SampledImage, 1), None);
}

#[test]
fn pending_writes_come_out_in_order_once() {
    let mut t = BindlessTable::new(2, 2, 2);
    t.write_sampled_image(11, 0);
    t.write_storage_image(12, 1);
    let w = t.take_pending();
    assert_eq!(
        w,
        vec![
            DescriptorWrite { category: DescriptorCategory::SampledImage, index: 0, value: 11 },
            DescriptorWrite { category: DescriptorCategory::StorageImage, index: 1, value: 12 },
        ]
    );
    assert!(t.take_pending().is_empty());
    assert_eq!(t.read(DescriptorCategory::SampledImage, 0), Some(11));
}

#[test]
fn image_descriptor_type_maps_to_category() {
    assert_eq!(ImageDescriptorType::SampledImage.category(), DescriptorCategory::SampledImage);
    assert_eq!(ImageDescriptorType::StorageImage.category(), DescriptorCategory::StorageImage);
}
