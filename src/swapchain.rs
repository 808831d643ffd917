use vstd::prelude::*;

use crate::commands::{Fence, Semaphore};
use crate::descriptions::{Extent2D, Format, SwapchainDescription};
use crate::device::{Device, ImageSlot, ImageViewSlot};
use crate::error::ConfigurationError;
use crate::descriptions::ImageViewDescription;
use crate::ids::{ImageId, ImageViewId};
use crate::pool::PoolId;

verus! {

/// How presented images are queued by the display engine.
#[derive(Clone, Copy, Debug, PartialEq, Eq, Structural, Hash)]
pub enum PresentMode {
    Immediate,
    Mailbox,
    Fifo,
    FifoRelaxed,
}

/// A pixel format and color space pair offered by a surface, as the native
/// API numbers them.
#[derive(Clone, Copy, Debug, PartialEq, Eq, Structural, Hash)]
pub struct SurfaceFormat {
    pub format: i32,
    pub color_space: i32,
}

/// Native number of the 16-bit float RGBA format.
pub const FORMAT_R16G16B16A16_SFLOAT: i32 = 97;

/// Native number of the sRGB non-linear color space.
pub const COLOR_SPACE_SRGB_NONLINEAR: i32 = 0;

/// The extents a surface allows for its swapchain images.
#[derive(Clone, Copy, Debug, PartialEq, Eq, Structural, Hash)]
pub struct SurfaceCapabilities {
    pub min_image_extent: Extent2D,
    pub max_image_extent: Extent2D,
}

/// What a surface supports, as queried once from the platform.
pub struct SwapchainSupport {
    pub capabilities: SurfaceCapabilities,
    pub formats: Vec<SurfaceFormat>,
    pub present_modes: Vec<PresentMode>,
}

/// The choices a swapchain is built with.
#[derive(Clone, Copy, Debug, PartialEq, Eq, Structural, Hash)]
pub struct SwapchainConfig {
    pub extent: Extent2D,
    pub surface_format: SurfaceFormat,
    pub present_mode: PresentMode,
    pub image_count: u32,
    pub frames_in_flight: usize,
}

pub open spec fn clamp_spec(x: u32, lo: u32, hi: u32) -> u32 {
    if x < lo {
        lo
    } else if x > hi {
        hi
    } else {
        x
    }
}

/// `x` brought into `lo..=hi`; `lo` wins where the two bounds cross.
pub fn clamp(x: u32, lo: u32, hi: u32) -> (r: u32)
    ensures
        r == clamp_spec(x, lo, hi),
{
    if x < lo {
        lo
    } else if x > hi {
        hi
    } else {
        x
    }
}

pub open spec fn extent_spec(caps: SurfaceCapabilities, width: u32, height: u32) -> Extent2D {
    Extent2D {
        width: clamp_spec(width, caps.min_image_extent.width, caps.max_image_extent.width),
        height: clamp_spec(height, caps.min_image_extent.height, caps.max_image_extent.height),
    }
}

/// The extent of the swapchain images: the requested size clamped to the
/// smallest and largest extent the surface allows.
pub fn choose_extent(caps: &SurfaceCapabilities, width: u32, height: u32) -> (r: Extent2D)
    ensures
        r == extent_spec(*caps, width, height),
{
    Extent2D {
        width: clamp(width, caps.min_image_extent.width, caps.max_image_extent.width),
        height: clamp(height, caps.min_image_extent.height, caps.max_image_extent.height),
    }
}

/// Mailbox where the surface offers it, else FIFO, which every surface offers.
pub fn choose_present_mode(modes: &[PresentMode]) -> (r: PresentMode)
    ensures
        modes@.contains(PresentMode::Mailbox) ==> r == PresentMode::Mailbox,
        !modes@.contains(PresentMode::Mailbox) ==> r == PresentMode::Fifo,
{
    let mut i: usize = 0;
    while i < modes.len()
        invariant
            i <= modes@.len(),
            forall|j: int| 0 <= j < i ==> modes@[j] != PresentMode::Mailbox,
        decreases modes@.len() - i,
    {
        if modes[i] == PresentMode::Mailbox {
            return PresentMode::Mailbox;
        }
        i = i + 1;
    }
    PresentMode::Fifo
}

pub open spec fn preferred_format() -> SurfaceFormat {
    SurfaceFormat { format: FORMAT_R16G16B16A16_SFLOAT, color_space: COLOR_SPACE_SRGB_NONLINEAR }
}

/// 16-bit float RGBA in sRGB non-linear space where the surface offers it,
/// else the first format it lists.
pub fn choose_surface_format(formats: &[SurfaceFormat]) -> (r: SurfaceFormat)
    requires
        formats@.len() > 0,
    ensures
        formats@.contains(preferred_format()) ==> r == preferred_format(),
        !formats@.contains(preferred_format()) ==> r == formats@[0],
{
    let mut i: usize = 0;
    while i < formats.len()
        invariant
            i <= formats@.len(),
            forall|j: int| 0 <= j < i ==> formats@[j] != preferred_format(),
        decreases formats@.len() - i,
    {
        let f = formats[i];
        if f.format == FORMAT_R16G16B16A16_SFLOAT && f.color_space == COLOR_SPACE_SRGB_NONLINEAR {
            return f;
        }
        i = i + 1;
    }
    formats[0]
}

pub open spec fn plan_error(desc: SwapchainDescription, support: &SwapchainSupport) -> Option<
    ConfigurationError,
> {
    if desc.frames_in_flight == 0 {
        Some(ConfigurationError::NoFramesInFlight)
    } else if desc.frames_in_flight > desc.image_count {
        Some(ConfigurationError::FramesInFlightExceedImageCount)
    } else if support.formats@.len() == 0 || support.present_modes@.len() == 0 {
        Some(ConfigurationError::SurfaceUnsupported)
    } else {
        None
    }
}

/// Checks a swapchain request against the surface and picks its extent,
/// format and present mode.
pub fn plan_swapchain(desc: &SwapchainDescription, support: &SwapchainSupport) -> (r: Result<
    SwapchainConfig,
    ConfigurationError,
>)
    ensures
        plan_error(*desc, support) is Some ==> r == Err::<SwapchainConfig, _>(
            plan_error(*desc, support)->Some_0,
        ),
        plan_error(*desc, support) is None ==> r is Ok,
        r is Ok ==> r->Ok_0.extent == extent_spec(support.capabilities, desc.width, desc.height),
        r is Ok ==> r->Ok_0.image_count == desc.image_count,
        r is Ok ==> r->Ok_0.frames_in_flight == desc.frames_in_flight,
        r is Ok && support.present_modes@.contains(PresentMode::Mailbox) ==> r->Ok_0.present_mode
            == PresentMode::Mailbox,
        r is Ok && !support.present_modes@.contains(PresentMode::Mailbox) ==> r->Ok_0.present_mode
            == PresentMode::Fifo,
        r is Ok && support.formats@.contains(preferred_format()) ==> r->Ok_0.surface_format
            == preferred_format(),
        r is Ok && !support.formats@.contains(preferred_format()) ==> r->Ok_0.surface_format
            == support.formats@[0],
{
    if desc.frames_in_flight == 0 {
        return Err(ConfigurationError::NoFramesInFlight);
    }
    if desc.frames_in_flight > desc.image_count as usize {
        return Err(ConfigurationError::FramesInFlightExceedImageCount);
    }
    if support.formats.len() == 0 || support.present_modes.len() == 0 {
        return Err(ConfigurationError::SurfaceUnsupported);
    }
    Ok(
        SwapchainConfig {
            extent: choose_extent(&support.capabilities, desc.width, desc.height),
            surface_format: choose_surface_format(support.formats.as_slice()),
            present_mode: choose_present_mode(support.present_modes.as_slice()),
            image_count: desc.image_count,
            frames_in_flight: desc.frames_in_flight,
        },
    )
}

/// Synchronization owned by one frame-in-flight slot.
#[derive(Clone, Copy, Debug, PartialEq, Eq, Structural, Hash)]
pub struct FrameSync {
    /// Signaled by the display engine once the acquired image is available.
    pub image_semaphore: Semaphore,
    /// Signaled by the GPU once the work submitted for this slot completes.
    pub fence: Fence,
}

/// What the caller does before asking the display engine for an image: wait
/// on `fence` (this blocks only while `may_block`), reset it, and acquire with
/// `image_semaphore`.
#[derive(Clone, Copy, Debug, PartialEq, Eq, Structural, Hash)]
pub struct AcquirePlan {
    pub frame: usize,
    pub fence: Fence,
    pub image_semaphore: Semaphore,
    /// Work submitted with this fence may still be running.
    pub may_block: bool,
}

/// An image ready to render to, with what its work must wait on and signal.
#[derive(Clone, Copy, Debug, PartialEq, Eq, Structural, Hash)]
pub struct AcquiredImage {
    pub image: ImageId,
    pub view: ImageViewId,
    /// The GPU waits on this before writing color output.
    pub image_semaphore: Semaphore,
    /// The GPU signals this when the frame's work completes.
    pub present_semaphore: Semaphore,
    /// Passed to the submission, so the next acquire on this slot can wait.
    pub fence: Fence,
    /// Selects the per-frame command resources to reuse.
    pub curr_frame: usize,
}

/// A request to the display engine to show an image once its semaphore is
/// signaled.
#[derive(Clone, Copy, Debug, PartialEq, Eq, Structural, Hash)]
pub struct PresentRequest {
    pub swapchain: u64,
    pub image_index: u32,
    pub wait_semaphore: Semaphore,
}

/// One step of tearing a swapchain down, in the order given.
#[derive(Clone, Copy, Debug, PartialEq, Eq, Structural, Hash)]
pub enum SwapchainTeardown {
    /// Wait until the device has no work in flight.
    WaitIdle,
    ReleaseImageView(ImageViewId),
    ReleaseImage(ImageId),
    DestroySemaphore(Semaphore),
    DestroyFence(Fence),
    DestroySwapchain(u64),
}

/// Frame pacing over the presentable images of one native swapchain.
///
/// Two counters rotate independently: the image counter over the images and
/// the frame counter over the frame-in-flight slots. Acquired image indices
/// wait on a stack until they are presented.
pub struct Swapchain {
    handle: u64,
    config: SwapchainConfig,
    images: Vec<ImageId>,
    image_views: Vec<ImageViewId>,
    present_semaphores: Vec<Semaphore>,
    frames: Vec<FrameSync>,
    in_flight: Vec<bool>,
    pending: Vec<u32>,
    image_timeline: usize,
    frame_timeline: usize,
}

impl Swapchain {
    pub closed spec fn handle_spec(&self) -> u64 {
        self.handle
    }

    pub closed spec fn config_spec(&self) -> SwapchainConfig {
        self.config
    }

    pub closed spec fn images_spec(&self) -> Seq<ImageId> {
        self.images@
    }

    pub closed spec fn views_spec(&self) -> Seq<ImageViewId> {
        self.image_views@
    }

    pub closed spec fn present_semaphores_spec(&self) -> Seq<Semaphore> {
        self.present_semaphores@
    }

    pub closed spec fn frames_spec(&self) -> Seq<FrameSync> {
        self.frames@
    }

    /// Per frame slot: whether work submitted with its fence may be running.
    pub closed spec fn in_flight_spec(&self) -> Seq<bool> {
        self.in_flight@
    }

    /// Acquired image indices not yet presented, oldest first.
    pub closed spec fn pending_spec(&self) -> Seq<u32> {
        self.pending@
    }

    pub closed spec fn image_timeline_spec(&self) -> nat {
        self.image_timeline as nat
    }

    pub closed spec fn frame_timeline_spec(&self) -> nat {
        self.frame_timeline as nat
    }

    pub open spec fn image_count_spec(&self) -> nat {
        self.images_spec().len()
    }

    pub open spec fn frames_in_flight_spec(&self) -> nat {
        self.frames_spec().len()
    }

    pub closed spec fn wf(&self) -> bool {
        &&& 1 <= self.images@.len() <= u32::MAX
        &&& self.image_views@.len() == self.images@.len()
        &&& self.present_semaphores@.len() == self.images@.len()
        &&& 1 <= self.frames@.len() <= self.images@.len()
        &&& self.in_flight@.len() == self.frames@.len()
        &&& self.config.frames_in_flight == self.frames@.len()
        &&& self.config.frames_in_flight <= self.config.image_count
        &&& self.image_timeline < self.images@.len()
        &&& self.frame_timeline < self.frames@.len()
        &&& forall|k: int| 0 <= k < self.pending@.len() ==> self.pending@[k] < self.images@.len()
    }

    /// A swapchain over `images`, with one view and one present semaphore per
    /// image and one `FrameSync` per frame in flight. Every slot starts idle:
    /// its fence was made signaled.
    pub fn new(
        config: SwapchainConfig,
        handle: u64,
        images: Vec<ImageId>,
        image_views: Vec<ImageViewId>,
        present_semaphores: Vec<Semaphore>,
        frames: Vec<FrameSync>,
    ) -> (r: Self)
        requires
            1 <= images@.len() <= u32::MAX,
            image_views@.len() == images@.len(),
            present_semaphores@.len() == images@.len(),
            frames@.len() == config.frames_in_flight,
            config.frames_in_flight <= config.image_count,
            1 <= frames@.len() <= images@.len(),
        ensures
            r.wf(),
            r.handle_spec() == handle,
            r.config_spec() == config,
            r.images_spec() == images@,
            r.views_spec() == image_views@,
            r.present_semaphores_spec() == present_semaphores@,
            r.frames_spec() == frames@,
            r.in_flight_spec() == Seq::new(frames@.len(), |k: int| false),
            r.pending_spec() == Seq::<u32>::empty(),
            r.image_timeline_spec() == 0,
            r.frame_timeline_spec() == 0,
    {
        let mut in_flight: Vec<bool> = Vec::new();
        let mut k: usize = 0;
        while k < frames.len()
            invariant
                k <= frames@.len(),
                in_flight@ == Seq::new(k as nat, |j: int| false),
            decreases frames@.len() - k,
        {
            in_flight.push(false);
            k = k + 1;
            assert(in_flight@ =~= Seq::new(k as nat, |j: int| false));
        }
        Swapchain {
            handle,
            config,
            images,
            image_views,
            present_semaphores,
            frames,
            in_flight,
            pending: Vec::new(),
            image_timeline: 0,
            frame_timeline: 0,
        }
    }

    /// Registers the native swapchain's images, and a view of each, in the
    /// device's pools and builds the swapchain over them. Image `k` keeps
    /// `native_images[k]` as its handle and is seen through `native_views[k]`.
    pub fn create<A>(
        device: &mut Device<A>,
        config: SwapchainConfig,
        handle: u64,
        native_images: Vec<u64>,
        native_views: Vec<u64>,
        format: Format,
        present_semaphores: Vec<Semaphore>,
        frames: Vec<FrameSync>,
    ) -> (r: Self)
        requires
            old(device).wf(),
            1 <= native_images@.len() <= u32::MAX,
            native_views@.len() == native_images@.len(),
            present_semaphores@.len() == native_images@.len(),
            frames@.len() == config.frames_in_flight,
            config.frames_in_flight <= config.image_count,
            1 <= frames@.len() <= native_images@.len(),
            old(device).image_pool().room() >= native_images@.len(),
            old(device).image_view_pool().room() >= native_images@.len(),
        ensures
            final(device).wf(),
            r.wf(),
            r.handle_spec() == handle,
            r.config_spec() == config,
            r.present_semaphores_spec() == present_semaphores@,
            r.frames_spec() == frames@,
            r.in_flight_spec() == Seq::new(frames@.len(), |k: int| false),
            r.pending_spec() == Seq::<u32>::empty(),
            r.image_timeline_spec() == 0,
            r.frame_timeline_spec() == 0,
            r.images_spec().len() == native_images@.len(),
            forall|k: int|
                0 <= k < native_images@.len() ==> !old(device).images().contains_key(
                    #[trigger] r.images_spec()[k].id,
                ) && final(device).images().contains_key(r.images_spec()[k].id) && final(device).images()[r.images_spec()[k].id] == (ImageSlot::<A> {
                    handle: native_images@[k],
                    format,
                    allocation: None,
                }),
            forall|k: int|
                0 <= k < native_images@.len() ==> !old(device).image_views().contains_key(
                    #[trigger] r.views_spec()[k].id,
                ) && final(device).image_views().contains_key(r.views_spec()[k].id) && final(device).image_views()[r.views_spec()[k].id] == (ImageViewSlot {
                    handle: native_views@[k],
                    image: r.images_spec()[k],
                }),
            forall|id: PoolId|
                #[trigger] old(device).images().contains_key(id) ==> final(device).images().contains_key(
                    id,
                ) && final(device).images()[id] == old(device).images()[id],
            forall|id: PoolId|
                #[trigger] old(device).image_views().contains_key(id) ==> final(device).image_views().contains_key(id) && final(device).image_views()[id] == old(device).image_views()[id],
            final(device).buffer_pool() == old(device).buffer_pool(),
            final(device).sampler_pool() == old(device).sampler_pool(),
            final(device).pipeline_pool() == old(device).pipeline_pool(),
            final(device).table() == old(device).table(),
    {
        let ghost d0 = *device;
        let n = native_images.len();
        let mut images: Vec<ImageId> = Vec::new();
        let mut views: Vec<ImageViewId> = Vec::new();
        let mut k: usize = 0;
        while k < n
            invariant
                n == native_images@.len(),
                native_views@.len() == n,
                k <= n,
                images@.len() == k,
                views@.len() == k,
                device.wf(),
                device.image_pool().room() >= n - k,
                device.image_view_pool().room() >= n - k,
                forall|j: int|
                    0 <= j < k ==> !d0.images().contains_key(#[trigger] images@[j].id)
                        && device.images().contains_key(images@[j].id) && device.images()[images@[j].id]
                        == (ImageSlot::<A> { handle: native_images@[j], format, allocation: None }),
                forall|j: int|
                    0 <= j < k ==> !d0.image_views().contains_key(#[trigger] views@[j].id)
                        && device.image_views().contains_key(views@[j].id)
                        && device.image_views()[views@[j].id] == (ImageViewSlot {
                        handle: native_views@[j],
                        image: images@[j],
                    }),
                forall|id: PoolId|
                    #[trigger] d0.images().contains_key(id) ==> device.images().contains_key(id)
                        && device.images()[id] == d0.images()[id],
                forall|id: PoolId|
                    #[trigger] d0.image_views().contains_key(id) ==> device.image_views().contains_key(
                        id,
                    ) && device.image_views()[id] == d0.image_views()[id],
                device.buffer_pool() == d0.buffer_pool(),
                device.sampler_pool() == d0.sampler_pool(),
                device.pipeline_pool() == d0.pipeline_pool(),
                device.table() == d0.table(),
            decreases n - k,
        {
            proof {
                device.image_pool().lemma_room();
                device.image_view_pool().lemma_room();
            }
            let ghost before = *device;
            let image = device.register_presentable_image(native_images[k], format);
            proof {
                device.image_view_pool().lemma_room();
            }
            let ghost mid = *device;
            let view = device.create_image_view(image, &ImageViewDescription::default(), native_views[k]);
            assert forall|j: int| 0 <= j < k implies images@[j].id != image.id by {
                assert(before.images().contains_key(images@[j].id));
            }
            assert forall|j: int| 0 <= j < k implies views@[j].id != view.id by {
                assert(mid.image_views().contains_key(views@[j].id));
            }
            images.push(image);
            views.push(view);
            k = k + 1;
        }
        Self::new(config, handle, images, views, present_semaphores, frames)
    }

    pub fn handle(&self) -> (r: u64)
        ensures
            r == self.handle_spec(),
    {
        self.handle
    }

    pub fn config(&self) -> (r: SwapchainConfig)
        ensures
            r == self.config_spec(),
    {
        self.config
    }

    /// The size the swapchain images were made with.
    pub fn extent(&self) -> (r: Extent2D)
        ensures
            r == self.config_spec().extent,
    {
        self.config.extent
    }

    pub fn image_count(&self) -> (r: usize)
        requires
            self.wf(),
        ensures
            r == self.image_count_spec(),
    {
        self.images.len()
    }

    pub fn frames_in_flight(&self) -> (r: usize)
        requires
            self.wf(),
        ensures
            r == self.frames_in_flight_spec(),
    {
        self.frames.len()
    }

    /// The frame slot the next acquire uses.
    pub fn current_frame(&self) -> (r: usize)
        ensures
            r == self.frame_timeline_spec(),
    {
        self.frame_timeline
    }

    /// The next position of the image rotation counter.
    pub fn current_image_timeline(&self) -> (r: usize)
        ensures
            r == self.image_timeline_spec(),
    {
        self.image_timeline
    }

    /// Acquired image indices not yet presented, oldest first.
    pub fn pending_images(&self) -> (r: &Vec<u32>)
        ensures
            r@ == self.pending_spec(),
    {
        &self.pending
    }

    /// The first half of an acquire: the slot's fence to wait on and reset,
    /// and the semaphore for the display engine to signal.
    pub fn begin_acquire(&self) -> (r: AcquirePlan)
        requires
            self.wf(),
        ensures
            r.frame == self.frame_timeline_spec(),
            r.fence == self.frames_spec()[r.frame as int].fence,
            r.image_semaphore == self.frames_spec()[r.frame as int].image_semaphore,
            r.may_block == self.in_flight_spec()[r.frame as int],
    {
        let f = self.frame_timeline;
        let sync = self.frames[f];
        AcquirePlan {
            frame: f,
            fence: sync.fence,
            image_semaphore: sync.image_semaphore,
            may_block: self.in_flight[f],
        }
    }

    /// Records that the fence of `frame` was seen signaled: no work of that
    /// slot is running any more, and the next wait on it does not block.
    pub fn mark_idle(&mut self, frame: usize)
        requires
            old(self).wf(),
            frame < old(self).frames_in_flight_spec(),
        ensures
            final(self).wf(),
            final(self).in_flight_spec() == old(self).in_flight_spec().update(frame as int, false),
            final(self).handle_spec() == old(self).handle_spec(),
            final(self).config_spec() == old(self).config_spec(),
            final(self).images_spec() == old(self).images_spec(),
            final(self).views_spec() == old(self).views_spec(),
            final(self).present_semaphores_spec() == old(self).present_semaphores_spec(),
            final(self).frames_spec() == old(self).frames_spec(),
            final(self).pending_spec() == old(self).pending_spec(),
            final(self).image_timeline_spec() == old(self).image_timeline_spec(),
            final(self).frame_timeline_spec() == old(self).frame_timeline_spec(),
    {
        self.in_flight.set(frame, false);
    }

    /// The second half of an acquire, once the fence was waited on and reset
    /// and the display engine returned `image_index`: both counters advance,
    /// the index is queued for presentation, and the slot is in flight.
    pub fn acquire_image(&mut self, image_index: u32) -> (r: AcquiredImage)
        requires
            old(self).wf(),
            image_index < old(self).image_count_spec(),
        ensures
            final(self).wf(),
            r.curr_frame == old(self).frame_timeline_spec(),
            r.fence == old(self).frames_spec()[r.curr_frame as int].fence,
            r.image_semaphore == old(self).frames_spec()[r.curr_frame as int].image_semaphore,
            r.image == old(self).images_spec()[image_index as int],
            r.view == old(self).views_spec()[image_index as int],
            r.present_semaphore == old(self).present_semaphores_spec()[image_index as int],
            final(self).frame_timeline_spec() == (old(self).frame_timeline_spec() + 1)
                % old(self).frames_in_flight_spec(),
            final(self).image_timeline_spec() == (old(self).image_timeline_spec() + 1)
                % old(self).image_count_spec(),
            final(self).pending_spec() == old(self).pending_spec().push(image_index),
            final(self).in_flight_spec() == old(self).in_flight_spec().update(
                r.curr_frame as int,
                true,
            ),
            final(self).handle_spec() == old(self).handle_spec(),
            final(self).config_spec() == old(self).config_spec(),
            final(self).images_spec() == old(self).images_spec(),
            final(self).views_spec() == old(self).views_spec(),
            final(self).present_semaphores_spec() == old(self).present_semaphores_spec(),
            final(self).frames_spec() == old(self).frames_spec(),
    {
        let f = self.frame_timeline;
        let sync = self.frames[f];
        let i = image_index as usize;
        self.pending.push(image_index);
        self.in_flight.set(f, true);
        self.image_timeline = (self.image_timeline + 1) % self.images.len();
        self.frame_timeline = (f + 1) % self.frames.len();
        AcquiredImage {
            image: self.images[i],
            view: self.image_views[i],
            image_semaphore: sync.image_semaphore,
            present_semaphore: self.present_semaphores[i],
            fence: sync.fence,
            curr_frame: f,
        }
    }

    /// Takes the most recently acquired image off the queue and asks for it
    /// to be shown once its present semaphore is signaled; with no acquired
    /// image, nothing happens.
    pub fn present(&mut self) -> (r: Option<PresentRequest>)
        requires
            old(self).wf(),
        ensures
            final(self).wf(),
            old(self).pending_spec().len() == 0 ==> r == None::<PresentRequest>
                && final(self).pending_spec() == old(self).pending_spec(),
            old(self).pending_spec().len() > 0 ==> r == Some(
                PresentRequest {
                    swapchain: old(self).handle_spec(),
                    image_index: old(self).pending_spec().last(),
                    wait_semaphore: old(self).present_semaphores_spec()[old(
                        self,
                    ).pending_spec().last() as int],
                },
            ) && final(self).pending_spec() == old(self).pending_spec().drop_last(),
            final(self).handle_spec() == old(self).handle_spec(),
            final(self).config_spec() == old(self).config_spec(),
            final(self).images_spec() == old(self).images_spec(),
            final(self).views_spec() == old(self).views_spec(),
            final(self).present_semaphores_spec() == old(self).present_semaphores_spec(),
            final(self).frames_spec() == old(self).frames_spec(),
            final(self).in_flight_spec() == old(self).in_flight_spec(),
            final(self).image_timeline_spec() == old(self).image_timeline_spec(),
            final(self).frame_timeline_spec() == old(self).frame_timeline_spec(),
    {
        match self.pending.pop() {
            Some(index) => {
                Some(
                    PresentRequest {
                        swapchain: self.handle,
                        image_index: index,
                        wait_semaphore: self.present_semaphores[index as usize],
                    },
                )
            },
            None => None,
        }
    }

    /// The request for the swapchain that replaces this one at a new size:
    /// the same image count and frames in flight.
    pub fn recreate_description(&self, width: u32, height: u32) -> (r: SwapchainDescription)
        ensures
            r == (SwapchainDescription {
                image_count: self.config_spec().image_count,
                frames_in_flight: self.config_spec().frames_in_flight,
                width,
                height,
            }),
    {
        SwapchainDescription {
            image_count: self.config.image_count,
            frames_in_flight: self.config.frames_in_flight,
            width,
            height,
        }
    }

    pub open spec fn teardown_spec(&self) -> Seq<SwapchainTeardown> {
        seq![SwapchainTeardown::WaitIdle] + self.views_spec().map_values(
            |v: ImageViewId| SwapchainTeardown::ReleaseImageView(v),
        ) + self.images_spec().map_values(|i: ImageId| SwapchainTeardown::ReleaseImage(i))
            + self.present_semaphores_spec().map_values(
            |s: Semaphore| SwapchainTeardown::DestroySemaphore(s),
        ) + self.frames_spec().map_values(
            |f: FrameSync| SwapchainTeardown::DestroySemaphore(f.image_semaphore),
        ) + self.frames_spec().map_values(|f: FrameSync| SwapchainTeardown::DestroyFence(f.fence))
            + seq![SwapchainTeardown::DestroySwapchain(self.handle_spec())]
    }

    /// Everything to release when this swapchain goes away, in order: first
    /// a wait for the device to go idle, then the views, the images, the
    /// present semaphores, the frame semaphores and fences, and last the
    /// native swapchain.
    pub fn teardown(&self) -> (r: Vec<SwapchainTeardown>)
        ensures
            r@ == self.teardown_spec(),
    {
        let mut r: Vec<SwapchainTeardown> = Vec::new();
        r.push(SwapchainTeardown::WaitIdle);
        let ghost s0 = r@;
        let mut k: usize = 0;
        while k < self.image_views.len()
            invariant
                k <= self.image_views@.len(),
                r@ == s0 + self.image_views@.subrange(0, k as int).map_values(
                    |v: ImageViewId| SwapchainTeardown::ReleaseImageView(v),
                ),
            decreases self.image_views@.len() - k,
        {
            r.push(SwapchainTeardown::ReleaseImageView(self.image_views[k]));
            k = k + 1;
            assert(self.image_views@.subrange(0, k as int) =~= self.image_views@.subrange(
                0,
                k - 1,
            ).push(self.image_views@[k - 1]));
            assert(r@ =~= s0 + self.image_views@.subrange(0, k as int).map_values(
                |v: ImageViewId| SwapchainTeardown::ReleaseImageView(v),
            ));
        }
        assert(self.image_views@.subrange(0, k as int) =~= self.image_views@);
        let ghost s1 = r@;
        let mut k: usize = 0;
        while k < self.images.len()
            invariant
                k <= self.images@.len(),
                r@ == s1 + self.images@.subrange(0, k as int).map_values(
                    |i: ImageId| SwapchainTeardown::ReleaseImage(i),
                ),
            decreases self.images@.len() - k,
        {
            r.push(SwapchainTeardown::ReleaseImage(self.images[k]));
            k = k + 1;
            assert(self.images@.subrange(0, k as int) =~= self.images@.subrange(0, k - 1).push(
                self.images@[k - 1],
            ));
            assert(r@ =~= s1 + self.images@.subrange(0, k as int).map_values(
                |i: ImageId| SwapchainTeardown::ReleaseImage(i),
            ));
        }
        assert(self.images@.subrange(0, k as int) =~= self.images@);
        let ghost s2 = r@;
        let mut k: usize = 0;
        while k < self.present_semaphores.len()
            invariant
                k <= self.present_semaphores@.len(),
                r@ == s2 + self.present_semaphores@.subrange(0, k as int).map_values(
                    |s: Semaphore| SwapchainTeardown::DestroySemaphore(s),
                ),
            decreases self.present_semaphores@.len() - k,
        {
            r.push(SwapchainTeardown::DestroySemaphore(self.present_semaphores[k]));
            k = k + 1;
            assert(self.present_semaphores@.subrange(0, k as int) =~= self.present_semaphores@.subrange(
                0,
                k - 1,
            ).push(self.present_semaphores@[k - 1]));
            assert(r@ =~= s2 + self.present_semaphores@.subrange(0, k as int).map_values(
                |s: Semaphore| SwapchainTeardown::DestroySemaphore(s),
            ));
        }
        assert(self.present_semaphores@.subrange(0, k as int) =~= self.present_semaphores@);
        let ghost s3 = r@;
        let mut k: usize = 0;
        while k < self.frames.len()
            invariant
                k <= self.frames@.len(),
                r@ == s3 + self.frames@.subrange(0, k as int).map_values(
                    |f: FrameSync| SwapchainTeardown::DestroySemaphore(f.image_semaphore),
                ),
            decreases self.frames@.len() - k,
        {
            r.push(SwapchainTeardown::DestroySemaphore(self.frames[k].image_semaphore));
            k = k + 1;
            assert(self.frames@.subrange(0, k as int) =~= self.frames@.subrange(0, k - 1).push(
                self.frames@[k - 1],
            ));
            assert(r@ =~= s3 + self.frames@.subrange(0, k as int).map_values(
                |f: FrameSync| SwapchainTeardown::DestroySemaphore(f.image_semaphore),
            ));
        }
        assert(self.frames@.subrange(0, k as int) =~= self.frames@);
        let ghost s4 = r@;
        let mut k: usize = 0;
        while k < self.frames.len()
            invariant
                k <= self.frames@.len(),
                r@ == s4 + self.frames@.subrange(0, k as int).map_values(
                    |f: FrameSync| SwapchainTeardown::DestroyFence(f.fence),
                ),
            decreases self.frames@.len() - k,
        {
            r.push(SwapchainTeardown::DestroyFence(self.frames[k].fence));
            k = k + 1;
            assert(self.frames@.subrange(0, k as int) =~= self.frames@.subrange(0, k - 1).push(
                self.frames@[k - 1],
            ));
            assert(r@ =~= s4 + self.frames@.subrange(0, k as int).map_values(
                |f: FrameSync| SwapchainTeardown::DestroyFence(f.fence),
            ));
        }
        assert(self.frames@.subrange(0, k as int) =~= self.frames@);
        r.push(SwapchainTeardown::DestroySwapchain(self.handle));
        assert(r@ =~= self.teardown_spec());
        r
    }

    /// The teardown waits for the device to go idle before it releases
    /// anything, and waits nowhere else.
    pub proof fn lemma_idle_before_release(&self)
        ensures
            self.teardown_spec()[0] == SwapchainTeardown::WaitIdle,
            forall|k: int|
                1 <= k < self.teardown_spec().len() ==> #[trigger] self.teardown_spec()[k]
                    != SwapchainTeardown::WaitIdle,
    {
        let t = self.teardown_spec();
        assert forall|k: int| 1 <= k < t.len() implies #[trigger] t[k] != SwapchainTeardown::WaitIdle by {
            let a = self.views_spec().map_values(|v: ImageViewId| SwapchainTeardown::ReleaseImageView(v));
            let b = self.images_spec().map_values(|i: ImageId| SwapchainTeardown::ReleaseImage(i));
            let c = self.present_semaphores_spec().map_values(
                |s: Semaphore| SwapchainTeardown::DestroySemaphore(s),
            );
            let d = self.frames_spec().map_values(
                |f: FrameSync| SwapchainTeardown::DestroySemaphore(f.image_semaphore),
            );
            let e = self.frames_spec().map_values(|f: FrameSync| SwapchainTeardown::DestroyFence(f.fence));
            let i = k - 1;
            let n1 = a.len() as int;
            let n2 = n1 + b.len();
            let n3 = n2 + c.len();
            let n4 = n3 + d.len();
            if i < n1 {
                assert(t[k] == a[i]);
            } else if i < n2 {
                assert(t[k] == b[i - n1]);
            } else if i < n3 {
                assert(t[k] == c[i - n2]);
            } else if i < n4 {
                assert(t[k] == d[i - n3]);
            } else if i < n4 + e.len() {
                assert(t[k] == e[i - n4]);
            }
        }
    }

    /// Recreating at any size asks for the image count and frames in flight
    /// this swapchain was built with, so the plan succeeds on any surface
    /// that offers a format and a present mode.
    pub proof fn lemma_recreate_plan_succeeds(
        &self,
        support: &SwapchainSupport,
        width: u32,
        height: u32,
    )
        requires
            self.wf(),
            support.formats@.len() > 0,
            support.present_modes@.len() > 0,
        ensures
            plan_error(
                SwapchainDescription {
                    image_count: self.config_spec().image_count,
                    frames_in_flight: self.config_spec().frames_in_flight,
                    width,
                    height,
                },
                support,
            ) is None,
    {
    }
}

} // verus!
