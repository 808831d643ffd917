use vstd::prelude::*;

use crate::commands::QueueType;
use crate::descriptions::DeviceDescription;

verus! {

/// What the queues of one queue family can do.
#[derive(Clone, Copy, Debug, PartialEq, Eq, Structural, Hash)]
pub struct QueueFlags {
    pub graphics: bool,
    pub compute: bool,
    pub transfer: bool,
}

/// The three kinds of queue the device drives.
#[derive(Clone, Copy, Debug, PartialEq, Eq, Structural, Hash)]
pub enum QueueRole {
    /// Any family with graphics.
    Graphics,
    /// A compute family without graphics.
    Compute,
    /// A transfer family with neither graphics nor compute.
    Transfer,
}

pub open spec fn suits(f: QueueFlags, role: QueueRole) -> bool {
    match role {
        QueueRole::Graphics => f.graphics,
        QueueRole::Compute => f.compute && !f.graphics,
        QueueRole::Transfer => f.transfer && !f.graphics && !f.compute,
    }
}

/// `r` is the first family of `families` that suits `role`, if any does.
pub open spec fn first_suitable(families: Seq<QueueFlags>, role: QueueRole, r: Option<u32>) -> bool {
    match r {
        Some(i) => (i as int) < families.len() && suits(families[i as int], role) && forall|j: int|
            0 <= j < i ==> !#[trigger] suits(families[j], role),
        None => forall|j: int| 0 <= j < families.len() ==> !#[trigger] suits(families[j], role),
    }
}

#[derive(Clone, Copy, Debug, PartialEq, Eq, Structural, Hash)]
pub struct QueueFamilyIndices {
    pub graphics_family: Option<u32>,
    pub transfer_family: Option<u32>,
    pub compute_family: Option<u32>,
}

impl QueueFamilyIndices {
    pub open spec fn is_complete_spec(self) -> bool {
        self.graphics_family is Some && self.compute_family is Some && self.transfer_family is Some
    }

    /// Whether a family was found for every role.
    pub fn is_complete(&self) -> (r: bool)
        ensures
            r == self.is_complete_spec(),
    {
        self.graphics_family.is_some() && self.compute_family.is_some()
            && self.transfer_family.is_some()
    }

    pub open spec fn family_spec(self, queue_type: QueueType) -> u32
        recommends
            self.is_complete_spec(),
    {
        match queue_type {
            QueueType::Graphics => self.graphics_family->Some_0,
            QueueType::Compute => self.compute_family->Some_0,
            QueueType::Transfer => self.transfer_family->Some_0,
        }
    }

    /// The family that command pools for `queue_type` are made in.
    pub fn family(&self, queue_type: QueueType) -> (r: u32)
        requires
            self.is_complete_spec(),
        ensures
            r == self.family_spec(queue_type),
    {
        match queue_type {
            QueueType::Graphics => self.graphics_family.unwrap(),
            QueueType::Compute => self.compute_family.unwrap(),
            QueueType::Transfer => self.transfer_family.unwrap(),
        }
    }

    /// The distinct families among the three, graphics first, then
    /// transfer, then compute; one queue is made in each.
    pub fn unique_families(&self) -> (r: Vec<u32>)
        requires
            self.is_complete_spec(),
        ensures
            r@.no_duplicates(),
            r@.to_set() == set![
                self.graphics_family->Some_0,
                self.transfer_family->Some_0,
                self.compute_family->Some_0,
            ],
            r@[0] == self.graphics_family->Some_0,
    {
        let g = self.graphics_family.unwrap();
        let t = self.transfer_family.unwrap();
        let c = self.compute_family.unwrap();
        let mut r: Vec<u32> = Vec::new();
        r.push(g);
        if t != g {
            r.push(t);
        }
        if c != g && c != t {
            r.push(c);
        }
        assert(r@.to_set() =~= set![g, t, c]) by {
            assert forall|x: u32| r@.to_set().contains(x) <==> set![g, t, c].contains(x) by {
                if x == g {
                    assert(r@[0] == g);
                }
                if x == t && t != g {
                    assert(r@[1] == t);
                }
                if x == c && c != g && c != t {
                    assert(r@[r@.len() - 1] == c);
                }
            }
        }
        r
    }
}

/// Picks, for each role, the first family that suits it. `None` unless every
/// role is covered.
pub fn find_queue_families(families: &[QueueFlags]) -> (r: Option<QueueFamilyIndices>)
    requires
        families@.len() <= u32::MAX,
    ensures
        r is Some ==> r->Some_0.is_complete_spec(),
        r is Some ==> first_suitable(families@, QueueRole::Graphics, r->Some_0.graphics_family),
        r is Some ==> first_suitable(families@, QueueRole::Compute, r->Some_0.compute_family),
        r is Some ==> first_suitable(families@, QueueRole::Transfer, r->Some_0.transfer_family),
        r is None ==> first_suitable(families@, QueueRole::Graphics, None)
            || first_suitable(families@, QueueRole::Compute, None) || first_suitable(
            families@,
            QueueRole::Transfer,
            None,
        ),
{
    let mut indices = QueueFamilyIndices {
        graphics_family: None,
        transfer_family: None,
        compute_family: None,
    };
    let mut i: usize = 0;
    while i < families.len()
        invariant
            i <= families@.len() <= u32::MAX,
            first_suitable(families@.subrange(0, i as int), QueueRole::Graphics, indices.graphics_family),
            first_suitable(families@.subrange(0, i as int), QueueRole::Compute, indices.compute_family),
            first_suitable(families@.subrange(0, i as int), QueueRole::Transfer, indices.transfer_family),
        decreases families@.len() - i,
    {
        let f = families[i];
        if f.graphics && indices.graphics_family.is_none() {
            indices.graphics_family = Some(i as u32);
        }
        if f.compute && !f.graphics && indices.compute_family.is_none() {
            indices.compute_family = Some(i as u32);
        }
        if f.transfer && !f.graphics && !f.compute && indices.transfer_family.is_none() {
            indices.transfer_family = Some(i as u32);
        }
        i = i + 1;
        assert forall|role: QueueRole, j: int| 0 <= j < i implies #[trigger] suits(
            families@.subrange(0, i as int)[j],
            role,
        ) == suits(families@[j], role) by {}
    }
    assert(families@.subrange(0, i as int) =~= families@);
    if indices.is_complete() {
        Some(indices)
    } else {
        None
    }
}

/// Kinds of physical device, best first.
#[derive(Clone, Copy, Debug, PartialEq, Eq, Structural, Hash)]
pub enum DeviceType {
    DiscreteGpu,
    IntegratedGpu,
    VirtualGpu,
    Cpu,
    Other,
}

pub open spec fn score_spec(device_type: DeviceType, max_image_dimension_2d: u32) -> int {
    (match device_type {
        DeviceType::DiscreteGpu => 1000int,
        DeviceType::IntegratedGpu => 100int,
        _ => 10int,
    }) + max_image_dimension_2d
}

/// Discrete GPUs score 1000, integrated ones 100, the rest 10; the largest
/// 2D image size is added as a tiebreaker.
pub fn device_score(device_type: DeviceType, max_image_dimension_2d: u32) -> (r: i64)
    ensures
        r == score_spec(device_type, max_image_dimension_2d),
{
    let base: i64 = match device_type {
        DeviceType::DiscreteGpu => 1000,
        DeviceType::IntegratedGpu => 100,
        _ => 10,
    };
    base + max_image_dimension_2d as i64
}

/// A physical device as found on the system.
#[derive(Clone, Copy, Debug, PartialEq, Eq, Structural, Hash)]
pub struct AdapterInfo {
    pub device_type: DeviceType,
    pub max_image_dimension_2d: u32,
    pub queue_families: Option<QueueFamilyIndices>,
    pub extensions_supported: bool,
}

pub open spec fn eligible(a: AdapterInfo) -> bool {
    a.queue_families is Some && a.extensions_supported
}

pub open spec fn adapter_score(a: AdapterInfo) -> int {
    score_spec(a.device_type, a.max_image_dimension_2d)
}

/// The eligible device with the highest score, the first one among equals;
/// `None` when no device has every queue role and extension.
pub fn select_physical_device(adapters: &[AdapterInfo]) -> (r: Option<usize>)
    ensures
        r is None <==> forall|j: int| 0 <= j < adapters@.len() ==> !#[trigger] eligible(adapters@[j]),
        r is Some ==> ({
            let i = r->Some_0 as int;
            &&& 0 <= i < adapters@.len()
            &&& eligible(adapters@[i])
            &&& forall|j: int|
                0 <= j < adapters@.len() && #[trigger] eligible(adapters@[j]) ==> adapter_score(
                    adapters@[j],
                ) <= adapter_score(adapters@[i])
            &&& forall|j: int|
                0 <= j < i && #[trigger] eligible(adapters@[j]) ==> adapter_score(adapters@[j])
                    < adapter_score(adapters@[i])
        }),
{
    let mut best: Option<usize> = None;
    let mut best_score: i64 = 0;
    let mut k: usize = 0;
    while k < adapters.len()
        invariant
            k <= adapters@.len(),
            best is None <==> forall|j: int| 0 <= j < k ==> !#[trigger] eligible(adapters@[j]),
            best is Some ==> ({
                let i = best->Some_0 as int;
                &&& 0 <= i < k
                &&& eligible(adapters@[i])
                &&& best_score == adapter_score(adapters@[i])
                &&& forall|j: int|
                    0 <= j < k && #[trigger] eligible(adapters@[j]) ==> adapter_score(adapters@[j])
                        <= adapter_score(adapters@[i])
                &&& forall|j: int|
                    0 <= j < i && #[trigger] eligible(adapters@[j]) ==> adapter_score(adapters@[j])
                        < adapter_score(adapters@[i])
            }),
        decreases adapters@.len() - k,
    {
        let a = adapters[k];
        if a.queue_families.is_some() && a.extensions_supported {
            let score = device_score(a.device_type, a.max_image_dimension_2d);
            match best {
                Some(_) => {
                    if score > best_score {
                        best = Some(k);
                        best_score = score;
                    }
                },
                None => {
                    best = Some(k);
                    best_score = score;
                },
            }
        }
        assert(eligible(adapters@[k as int]) == (a.queue_families.is_some() && a.extensions_supported));
        k = k + 1;
    }
    best
}

/// Whether `a` and `b` hold the same bytes.
pub fn same_name(a: &[u8], b: &[u8]) -> (r: bool)
    ensures
        r == (a@ == b@),
{
    if a.len() != b.len() {
        return false;
    }
    let mut i: usize = 0;
    while i < a.len()
        invariant
            i <= a@.len() == b@.len(),
            forall|j: int| 0 <= j < i ==> a@[j] == b@[j],
        decreases a@.len() - i,
    {
        if a[i] != b[i] {
            return false;
        }
        i = i + 1;
    }
    assert(a@ =~= b@);
    true
}

/// Whether `name` is one of `names`.
pub open spec fn has_name(names: Seq<Vec<u8>>, name: Seq<u8>) -> bool {
    exists|j: int| 0 <= j < names.len() && #[trigger] names[j]@ == name
}

/// Whether every required extension name is among the available ones.
pub fn extensions_supported(required: &[Vec<u8>], available: &[Vec<u8>]) -> (r: bool)
    ensures
        r == forall|i: int| 0 <= i < required@.len() ==> has_name(available@, #[trigger] required@[i]@),
{
    let mut i: usize = 0;
    while i < required.len()
        invariant
            i <= required@.len(),
            forall|k: int| 0 <= k < i ==> has_name(available@, #[trigger] required@[k]@),
        decreases required@.len() - i,
    {
        let mut found = false;
        let mut j: usize = 0;
        while j < available.len()
            invariant
                j <= available@.len(),
                i < required@.len(),
                found ==> has_name(available@, required@[i as int]@),
                !found ==> forall|m: int| 0 <= m < j ==> #[trigger] available@[m]@ != required@[i as int]@,
            decreases available@.len() - j,
        {
            if same_name(available[j].as_slice(), required[i].as_slice()) {
                found = true;
            }
            j = j + 1;
        }
        if !found {
            assert(!has_name(available@, required@[i as int]@));
            return false;
        }
        i = i + 1;
    }
    true
}

/// Device extensions the library can ask for.
#[derive(Clone, Copy, Debug, PartialEq, Eq, Structural, Hash)]
pub enum DeviceExtension {
    Swapchain,
    Synchronization2,
    AccelerationStructure,
    RayTracingPipeline,
    DeferredHostOperations,
    Spirv14,
    ShaderAtomicFloat,
    MeshShader,
    ShaderFloatControls,
}

pub open spec fn device_extensions_spec(desc: DeviceDescription) -> Seq<DeviceExtension> {
    seq![DeviceExtension::Swapchain, DeviceExtension::Synchronization2] + (if desc.ray_tracing {
        seq![
            DeviceExtension::AccelerationStructure,
            DeviceExtension::RayTracingPipeline,
            DeviceExtension::DeferredHostOperations,
            DeviceExtension::Spirv14,
        ]
    } else {
        Seq::empty()
    }) + (if desc.atomic_float_operations {
        seq![DeviceExtension::ShaderAtomicFloat]
    } else {
        Seq::empty()
    }) + (if desc.mesh_shaders {
        seq![DeviceExtension::MeshShader, DeviceExtension::ShaderFloatControls] + (if desc.ray_tracing {
            Seq::empty()
        } else {
            seq![DeviceExtension::Spirv14]
        })
    } else {
        Seq::empty()
    })
}

/// The extensions a device needs for the requested features, in order:
/// presentation and synchronization first; SPIR-V 1.4 once, when ray tracing
/// or mesh shaders need it.
pub fn required_device_extensions(desc: &DeviceDescription) -> (r: Vec<DeviceExtension>)
    ensures
        r@ == device_extensions_spec(*desc),
{
    let mut r: Vec<DeviceExtension> = Vec::new();
    r.push(DeviceExtension::Swapchain);
    r.push(DeviceExtension::Synchronization2);
    let ghost s0 = r@;
    if desc.ray_tracing {
        r.push(DeviceExtension::AccelerationStructure);
        r.push(DeviceExtension::RayTracingPipeline);
        r.push(DeviceExtension::DeferredHostOperations);
        r.push(DeviceExtension::Spirv14);
    }
    let ghost s1 = r@;
    if desc.atomic_float_operations {
        r.push(DeviceExtension::ShaderAtomicFloat);
    }
    let ghost s2 = r@;
    if desc.mesh_shaders {
        r.push(DeviceExtension::MeshShader);
        r.push(DeviceExtension::ShaderFloatControls);
        if !desc.ray_tracing {
            r.push(DeviceExtension::Spirv14);
        }
    }
    assert(r@ =~= device_extensions_spec(*desc));
    r
}

/// The windowing systems a surface can be made for.
#[derive(Clone, Copy, Debug, PartialEq, Eq, Structural, Hash)]
pub enum WindowPlatform {
    Win32,
    Wayland,
    Xcb,
    Xlib,
    AppKit,
    Other,
}

/// Instance extensions the library can ask for.
#[derive(Clone, Copy, Debug, PartialEq, Eq, Structural, Hash)]
pub enum InstanceExtension {
    Surface,
    Win32Surface,
    WaylandSurface,
    XcbSurface,
    MetalSurface,
    DebugUtils,
}

pub open spec fn instance_extensions_spec(platform: WindowPlatform, validation: bool) -> Seq<
    InstanceExtension,
> {
    seq![InstanceExtension::Surface] + match platform {
        WindowPlatform::Win32 => seq![InstanceExtension::Win32Surface],
        WindowPlatform::Wayland => seq![InstanceExtension::WaylandSurface],
        WindowPlatform::Xcb => seq![InstanceExtension::XcbSurface],
        WindowPlatform::AppKit => seq![InstanceExtension::MetalSurface],
        _ => Seq::empty(),
    } + if validation {
        seq![InstanceExtension::DebugUtils]
    } else {
        Seq::empty()
    }
}

/// The extensions an instance needs: surfaces, the window system's own
/// surface, and debug messages where validation is on.
pub fn required_instance_extensions(platform: WindowPlatform, validation: bool) -> (r: Vec<
    InstanceExtension,
>)
    ensures
        r@ == instance_extensions_spec(platform, validation),
{
    let mut r: Vec<InstanceExtension> = Vec::new();
    r.push(InstanceExtension::Surface);
    match platform {
        WindowPlatform::Win32 => r.push(InstanceExtension::Win32Surface),
        WindowPlatform::Wayland => r.push(InstanceExtension::WaylandSurface),
        WindowPlatform::Xcb => r.push(InstanceExtension::XcbSurface),
        WindowPlatform::AppKit => r.push(InstanceExtension::MetalSurface),
        _ => {},
    }
    if validation {
        r.push(InstanceExtension::DebugUtils);
    }
    assert(r@ =~= instance_extensions_spec(platform, validation));
    r
}

} // verus!
