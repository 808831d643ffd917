use nexion::swapchain::{
    choose_extent, choose_present_mode, choose_surface_format, clamp, plan_swapchain,
    FrameSync, PresentMode, PresentRequest, SurfaceCapabilities, SurfaceFormat, Swapchain,
    SwapchainConfig, SwapchainSupport, SwapchainTeardown, COLOR_SPACE_SRGB_NONLINEAR,
    FORMAT_R16G16B16A16_SFLOAT,
};
use nexion::{ConfigurationError, Device, Extent2D, Fence, Format, Semaphore, SwapchainDescription};

fn support(max: Extent2D) -> SwapchainSupport {
    SwapchainSupport {
        capabilities: SurfaceCapabilities {
            min_image_extent: Extent2D { width: 1, height: 1 },
            max_image_extent: max,
        },
        formats: vec![
            SurfaceFormat { format: 44, color_space: COLOR_SPACE_SRGB_NONLINEAR },
            SurfaceFormat { format: FORMAT_R16G16B16A16_SFLOAT, color_space: COLOR_SPACE_SRGB_NONLINEAR },
        ],
        present_modes: vec![PresentMode::Fifo, PresentMode::Mailbox],
    }
}

fn build(device: &mut Device<u32>, config: SwapchainConfig, image_count: u32, handle: u64) -> Swapchain {
    let native_images: Vec<u64> = (0..image_count as u64).map(|i| 100 + i).collect();
    let native_views: Vec<u64> = (0..image_count as u64).map(|i| 200 + i).collect();
    let present: Vec<Semaphore> = (0..image_count as u64).map(|i| Semaphore::Binary(300 + i)).collect();
    let frames: Vec<FrameSync> = (0..config.frames_in_flight as u64)
        .map(|f| FrameSync { image_semaphore: Semaphore::Binary(400 + f), fence: Fence { handle: 500 + f } })
        .collect();
    assert!(device.has_room_for_presentable_images(image_count as usize));
    Swapchain::create(device, config, handle, native_images, native_views, Format::Bgra8Srgb, present, frames)
}

fn desc(width: u32, height: u32) -> SwapchainDescription {
    SwapchainDescription { image_count: 3, frames_in_flight: 2, width, height }
}

#[test]
fn acquire_rotates_frame_slots() {
    let mut device: Device<u32> = Device::new(8, 8, 8);
    let config = plan_swapchain(&desc(800, 600), &support(Extent2D { width: 4096, height: 4096 })).unwrap();
    let mut sc = build(&mut device, config, 3, 1);
    let mut slots = Vec::new();
    let mut blocks = Vec::new();
    for k in 0..5u32 {
        let plan = sc.begin_acquire();
        blocks.push(plan.may_block);
        let acquired = sc.acquire_image(k % 3);
        assert_eq!(acquired.curr_frame, plan.frame);
        assert_eq!(acquired.fence, plan.fence);
        assert_eq!(acquired.image_semaphore, plan.image_semaphore);
        slots.push(acquired.curr_frame);
        sc.present();
    }
    assert_eq!(slots, vec![0, 1, 0, 1, 0]);
    assert_eq!(blocks, vec![false, false, true, true, true]);
    assert_eq!(sc.current_image_timeline(), 5 % 3);
}

#[test]
fn acquired_image_carries_its_objects() {
    let mut device: Device<u32> = Device::new(8, 8, 8);
    let config = plan_swapchain(&desc(800, 600), &support(Extent2D { width: 4096, height: 4096 })).unwrap();
    let mut sc = build(&mut device, config, 3, 1);
    let acquired = sc.acquire_image(2);
    assert_eq!(device.get_image(acquired.image).handle, 102);
    assert_eq!(device.get_image_view(acquired.view).handle, 202);
    assert_eq!(acquired.present_semaphore, Semaphore::Binary(302));
    assert_eq!(acquired.image_semaphore, Semaphore::Binary(400));
    assert_eq!(acquired.fence, Fence { handle: 500 });
    assert_eq!(sc.pending_images(), &vec![2]);
    assert_eq!(
        sc.present(),
        Some(PresentRequest { swapchain: 1, image_index: 2, wait_semaphore: Semaphore::Binary(302) })
    );
    assert!(sc.pending_images().is_empty());
}

#[test]
fn present_without_acquire_is_a_no_op() {
    let mut device: Device<u32> = Device::new(8, 8, 8);
    let config = plan_swapchain(&desc(800, 600), &support(Extent2D { width: 4096, height: 4096 })).unwrap();
    let mut sc = build(&mut device, config, 3, 1);
    assert_eq!(sc.present(), None);
    assert_eq!(sc.current_frame(), 0);
    assert_eq!(sc.current_image_timeline(), 0);
    assert!(sc.pending_images().is_empty());
}

#[test]
fn present_takes_latest_acquired_first() {
    let mut device: Device<u32> = Device::new(8, 8, 8);
    let config = plan_swapchain(&desc(800, 600), &support(Extent2D { width: 4096, height: 4096 })).unwrap();
    let mut sc = build(&mut device, config, 3, 9);
    sc.acquire_image(0);
    sc.acquire_image(1);
    assert_eq!(sc.present().unwrap().image_index, 1);
    assert_eq!(sc.present().unwrap().image_index, 0);
    assert_eq!(sc.present(), None);
}

#[test]
fn recreate_at_new_size() {
    let mut device: Device<u32> = Device::new(16, 16, 16);
    let platform = support(Extent2D { width: 1600, height: 900 });
    let config = plan_swapchain(&desc(800, 600), &platform).unwrap();
    assert_eq!(config.extent, Extent2D { width: 800, height: 600 });
    let old = build(&mut device, config, 3, 1);

    let steps = old.teardown();
    assert_eq!(steps[0], SwapchainTeardown::WaitIdle);
    assert!(steps[1..].iter().all(|s| *s != SwapchainTeardown::WaitIdle));
    assert_eq!(steps.len(), 1 + 3 + 3 + 3 + 2 + 2 + 1);
    assert_eq!(*steps.last().unwrap(), SwapchainTeardown::DestroySwapchain(1));
    assert_eq!(steps[10], SwapchainTeardown::DestroySemaphore(Semaphore::Binary(400)));
    assert_eq!(steps[12], SwapchainTeardown::DestroyFence(Fence { handle: 500 }));

    let new_desc = old.recreate_description(1920, 1080);
    assert_eq!(new_desc, SwapchainDescription { image_count: 3, frames_in_flight: 2, width: 1920, height: 1080 });
    let new_config = plan_swapchain(&new_desc, &platform).unwrap();
    assert_eq!(new_config.extent, Extent2D { width: 1600, height: 900 });
    let roomy = plan_swapchain(&new_desc, &support(Extent2D { width: 4096, height: 4096 })).unwrap();
    assert_eq!(roomy.extent, Extent2D { width: 1920, height: 1080 });
    let sc = build(&mut device, roomy, 3, 2);
    assert_eq!(sc.extent(), Extent2D { width: 1920, height: 1080 });
    assert_eq!(sc.frames_in_flight(), 2);
    assert_eq!(sc.image_count(), 3);
}

#[test]
fn plan_rejects_bad_requests() {
    let platform = support(Extent2D { width: 100, height: 100 });
    let zero = SwapchainDescription { image_count: 3, frames_in_flight: 0, width: 1, height: 1 };
    assert_eq!(plan_swapchain(&zero, &platform), Err(ConfigurationError::NoFramesInFlight));
    let many = SwapchainDescription { image_count: 2, frames_in_flight: 3, width: 1, height: 1 };
    assert_eq!(plan_swapchain(&many, &platform), Err(ConfigurationError::FramesInFlightExceedImageCount));
    let bare = SwapchainSupport {
        capabilities: platform.capabilities,
        formats: vec![],
        present_modes: vec![PresentMode::Fifo],
    };
    assert_eq!(plan_swapchain(&desc(1, 1), &bare), Err(ConfigurationError::SurfaceUnsupported));
}

#[test]
fn plan_picks_preferred_format_and_mailbox() {
    let config = plan_swapchain(&desc(10, 10), &support(Extent2D { width: 100, height: 100 })).unwrap();
    assert_eq!(config.present_mode, PresentMode::Mailbox);
    assert_eq!(config.surface_format.format, FORMAT_R16G16B16A16_SFLOAT);
    assert_eq!(config.image_count, 3);
    assert_eq!(config.frames_in_flight, 2);
}

#[test]
fn extent_is_the_requested_size_within_bounds() {
    let caps = SurfaceCapabilities {
        min_image_extent: Extent2D { width: 1, height: 1 },
        max_image_extent: Extent2D { width: 4096, height: 4096 },
    };
    assert_eq!(choose_extent(&caps, 1920, 1080), Extent2D { width: 1920, height: 1080 });
    let fixed = SurfaceCapabilities {
        min_image_extent: Extent2D { width: 800, height: 600 },
        max_image_extent: Extent2D { width: 800, height: 600 },
    };
    assert_eq!(choose_extent(&fixed, 1920, 1080), Extent2D { width: 800, height: 600 });
}

#[test]
fn extent_is_clamped_both_ways() {
    let caps = SurfaceCapabilities {
        min_image_extent: Extent2D { width: 200, height: 100 },
        max_image_extent: Extent2D { width: 1000, height: 800 },
    };
    assert_eq!(choose_extent(&caps, 50, 5000), Extent2D { width: 200, height: 800 });
    assert_eq!(clamp(5, 10, 20), 10);
    assert_eq!(clamp(25, 10, 20), 20);
    assert_eq!(clamp(15, 10, 20), 15);
}

#[test]
fn present_mode_falls_back_to_fifo() {
    assert_eq!(choose_present_mode(&[PresentMode::Immediate, PresentMode::Fifo]), PresentMode::Fifo);
    assert_eq!(choose_present_mode(&[PresentMode::Immediate, PresentMode::Mailbox]), PresentMode::Mailbox);
    assert_eq!(choose_present_mode(&[]), PresentMode::Fifo);
}

#[test]
fn surface_format_falls_back_to_first() {
    let a = SurfaceFormat { format: 50, color_space: 0 };
    let b = SurfaceFormat { format: FORMAT_R16G16B16A16_SFLOAT, color_space: 1 };
    assert_eq!(choose_surface_format(&[a, b]), a);
    let c = SurfaceFormat { format: FORMAT_R16G16B16A16_SFLOAT, color_space: COLOR_SPACE_SRGB_NONLINEAR };
    assert_eq!(choose_surface_format(&[a, b, c]), c);
}

#[test]
fn swapchain_images_are_registered_in_the_device() {
    let mut device: Device<u32> = Device::new(8, 8, 8);
    let config = plan_swapchain(&desc(800, 600), &support(Extent2D { width: 4096, height: 4096 })).unwrap();
    let sc = build(&mut device, config, 3, 1);
    assert_eq!(sc.image_count(), 3);
    let steps = sc.teardown();
    for step in steps {
        match step {
            SwapchainTeardown::ReleaseImage(i) => {
                assert!(device.contains_image(i));
                assert_eq!(device.get_image(i).allocation, None);
            }
            SwapchainTeardown::ReleaseImageView(v) => {
                assert!(device.contains_image_view(v));
                let image = device.get_image_view(v).image;
                assert!(device.contains_image(image));
                assert_eq!(device.get_image_view(v).handle, device.get_image(image).handle + 100);
            }
            _ => {}
        }
    }
}

#[test]
fn waited_slot_no_longer_blocks() {
    let mut device: Device<u32> = Device::new(8, 8, 8);
    let config = plan_swapchain(&desc(800, 600), &support(Extent2D { width: 4096, height: 4096 })).unwrap();
    let mut sc = build(&mut device, config, 3, 1);
    sc.acquire_image(0);
    sc.acquire_image(1);
    assert!(sc.begin_acquire().may_block);
    sc.mark_idle(0);
    let plan = sc.begin_acquire();
    assert_eq!(plan.frame, 0);
    assert!(!plan.may_block);
    sc.acquire_image(2);
    assert!(sc.begin_acquire().may_block);
}
