use nexion::adapter::{
    device_score, extensions_supported, find_queue_families, required_device_extensions,
    required_instance_extensions, same_name, select_physical_device, AdapterInfo,
    DeviceExtension, DeviceType, InstanceExtension, QueueFamilyIndices, QueueFlags,
    WindowPlatform,
};
use nexion::{DeviceDescription, QueueType};

fn flags(graphics: bool, compute: bool, transfer: bool) -> QueueFlags {
    QueueFlags { graphics, compute, transfer }
}

#[test]
fn queue_families_prefer_dedicated() {
    let fams = [flags(true, true, true), flags(false, true, true), flags(false, false, true)];
    let q = find_queue_families(&fams).unwrap();
    assert_eq!(q.graphics_family, Some(0));
    assert_eq!(q.compute_family, Some(1));
    assert_eq!(q.transfer_family, Some(2));
    assert!(q.is_complete());
    assert_eq!(q.family(QueueType::Compute), 1);
    assert_eq!(q.unique_families(), vec![0, 2, 1]);
}

#[test]
fn queue_families_missing_role() {
    let fams = [flags(true, true, true), flags(false, true, true)];
    assert_eq!(find_queue_families(&fams), None);
    assert_eq!(find_queue_families(&[]), None);
}

#[test]
fn unique_families_drop_repeats() {
    let q = QueueFamilyIndices { graphics_family: Some(0), transfer_family: Some(0), compute_family: Some(0) };
    assert_eq!(q.unique_families(), vec![0]);
    let q = QueueFamilyIndices { graphics_family: Some(3), transfer_family: Some(1), compute_family: Some(3) };
    assert_eq!(q.unique_families(), vec![3, 1]);
}

#[test]
fn scores() {
    assert_eq!(device_score(DeviceType::DiscreteGpu, 16384), 17384);
    assert_eq!(device_score(DeviceType::IntegratedGpu, 8192), 8292);
    assert_eq!(device_score(DeviceType::Cpu, 0), 10);
    assert_eq!(device_score(DeviceType::Other, u32::MAX), 10 + u32::MAX as i64);
}

#[test]
fn best_eligible_device_wins() {
    let q = QueueFamilyIndices { graphics_family: Some(0), transfer_family: Some(1), compute_family: Some(2) };
    let adapters = [
        AdapterInfo { device_type: DeviceType::IntegratedGpu, max_image_dimension_2d: 16384, queue_families: Some(q), extensions_supported: true },
        AdapterInfo { device_type: DeviceType::DiscreteGpu, max_image_dimension_2d: 32768, queue_families: None, extensions_supported: true },
        AdapterInfo { device_type: DeviceType::DiscreteGpu, max_image_dimension_2d: 16384, queue_families: Some(q), extensions_supported: true },
        AdapterInfo { device_type: DeviceType::DiscreteGpu, max_image_dimension_2d: 16384, queue_families: Some(q), extensions_supported: true },
        AdapterInfo { device_type: DeviceType::DiscreteGpu, max_image_dimension_2d: 65536, queue_families: Some(q), extensions_supported: false },
    ];
    assert_eq!(select_physical_device(&adapters), Some(2));
    assert_eq!(select_physical_device(&adapters[..2]), Some(0));
    assert_eq!(select_physical_device(&adapters[1..2]), None);
}

#[test]
fn extension_names() {
    let avail = vec![b"VK_KHR_swapchain".to_vec(), b"VK_KHR_synchronization2".to_vec()];
    assert!(extensions_supported(&[b"VK_KHR_swapchain".to_vec()], &avail));
    assert!(extensions_supported(&[], &avail));
    assert!(!extensions_supported(&[b"VK_EXT_mesh_shader".to_vec()], &avail));
    assert!(same_name(b"abc", b"abc"));
    assert!(!same_name(b"abc", b"abd"));
    assert!(!same_name(b"abc", b"ab"));
}

#[test]
fn device_extensions_follow_features() {
    let base = DeviceDescription::default();
    assert_eq!(required_device_extensions(&base), vec![DeviceExtension::Swapchain, DeviceExtension::Synchronization2]);
    let all = DeviceDescription { ray_tracing: true, mesh_shaders: true, atomic_float_operations: true, ..base };
    let ext = required_device_extensions(&all);
    assert_eq!(ext.iter().filter(|e| **e == DeviceExtension::Spirv14).count(), 1);
    assert_eq!(ext.len(), 9);
    let mesh = DeviceDescription { mesh_shaders: true, ..base };
    assert_eq!(
        required_device_extensions(&mesh),
        vec![
            DeviceExtension::Swapchain,
            DeviceExtension::Synchronization2,
            DeviceExtension::MeshShader,
            DeviceExtension::ShaderFloatControls,
            DeviceExtension::Spirv14,
        ]
    );
}

#[test]
fn default_device_description() {
    let d = DeviceDescription::default();
    assert!(d.use_compute_queue && d.use_transfer_queue);
    assert!(!d.mesh_shaders && !d.atomic_float_operations && !d.ray_tracing);
}

#[test]
fn instance_extensions_follow_platform() {
    assert_eq!(
        required_instance_extensions(WindowPlatform::Wayland, true),
        vec![InstanceExtension::Surface, InstanceExtension::WaylandSurface, InstanceExtension::DebugUtils]
    );
    assert_eq!(required_instance_extensions(WindowPlatform::Xlib, false), vec![InstanceExtension::Surface]);
    assert_eq!(
        required_instance_extensions(WindowPlatform::Win32, false),
        vec![InstanceExtension::Surface, InstanceExtension::Win32Surface]
    );
}
