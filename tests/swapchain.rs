use ash::vk;
use lpps::{
    is_srgb8, select_present_mode, select_surface_format, swapchain_description, Extent2D, Extent3D,
    GPUTaskError, PresentMode, SurfaceCapabilities, SurfaceFormat, Swapchain,
    SwapchainCreateError, SwapchainImage, A8B8G8R8_SRGB_PACK32, B8G8R8A8_SRGB, B8G8R8_SRGB,
    COMPOSITE_ALPHA_OPAQUE, IMAGE_USAGE_COLOR_ATTACHMENT, R8G8B8A8_SRGB, R8G8B8_SRGB, R8G8_SRGB,
    R8_SRGB, SHARING_MODE_EXCLUSIVE, SRGB_NONLINEAR,
};

fn caps() -> SurfaceCapabilities {
    SurfaceCapabilities {
        min_image_count: 2,
        max_image_count: 8,
        min_image_extent: Extent2D { width: 64, height: 48 },
        max_image_extent: Extent2D { width: 4096, height: 2160 },
        current_transform: 1,
    }
}

fn srgb() -> SurfaceFormat {
    SurfaceFormat { format: B8G8R8A8_SRGB, color_space: SRGB_NONLINEAR }
}

fn unorm() -> SurfaceFormat {
    SurfaceFormat { format: vk::Format::B8G8R8A8_UNORM.as_raw(), color_space: SRGB_NONLINEAR }
}

fn modes() -> Vec<PresentMode> {
    vec![PresentMode::Fifo, PresentMode::Mailbox]
}

#[test]
fn raw_values_match_vulkan() {
    assert_eq!(B8G8R8A8_SRGB, vk::Format::B8G8R8A8_SRGB.as_raw());
    assert_eq!(SRGB_NONLINEAR, vk::ColorSpaceKHR::SRGB_NONLINEAR.as_raw());
    assert_eq!(SHARING_MODE_EXCLUSIVE, vk::SharingMode::EXCLUSIVE.as_raw());
    assert_eq!(IMAGE_USAGE_COLOR_ATTACHMENT, vk::ImageUsageFlags::COLOR_ATTACHMENT.as_raw());
    assert_eq!(COMPOSITE_ALPHA_OPAQUE, vk::CompositeAlphaFlagsKHR::OPAQUE.as_raw());
    for (mode, raw) in [
        (PresentMode::Immediate, vk::PresentModeKHR::IMMEDIATE),
        (PresentMode::Mailbox, vk::PresentModeKHR::MAILBOX),
        (PresentMode::Fifo, vk::PresentModeKHR::FIFO),
        (PresentMode::FifoRelaxed, vk::PresentModeKHR::FIFO_RELAXED),
    ] {
        assert_eq!(mode.as_raw(), raw.as_raw());
        assert_eq!(PresentMode::from_raw(raw.as_raw()), mode);
    }
    assert_eq!(PresentMode::from_raw(1000111000), PresentMode::Other(1000111000));
    assert_eq!(PresentMode::Other(1000111000).as_raw(), 1000111000);
}

#[test]
fn description_for_a_window() {
    let d = swapchain_description(&caps(), &vec![unorm(), srgb()], &modes(), Extent2D { width: 800, height: 600 }, None)
        .unwrap();
    assert_eq!(d.min_image_count, 3);
    assert_eq!(d.image_description.format, B8G8R8A8_SRGB);
    assert_eq!(d.image_description.color_space, SRGB_NONLINEAR);
    assert_eq!(d.image_description.extent, Extent2D { width: 800, height: 600 });
    assert_eq!(d.image_description.array_layers, 1);
    assert_eq!(d.image_description.sharing_mode, SHARING_MODE_EXCLUSIVE);
    assert_eq!(d.image_description.image_usage, IMAGE_USAGE_COLOR_ATTACHMENT);
    assert_eq!(d.pre_transform, 1);
    assert_eq!(d.composite_alpha, COMPOSITE_ALPHA_OPAQUE);
    assert_eq!(d.present_mode, PresentMode::Mailbox);
    assert_eq!(d.old_swapchain, None);
}

#[test]
fn swapchain_keeps_the_planned_extent() {
    let d = swapchain_description(&caps(), &vec![srgb()], &modes(), Extent2D { width: 1280, height: 720 }, None)
        .unwrap();
    let image = SwapchainImage::new(11, 12, B8G8R8A8_SRGB, d.image_description.extent.into_extent3d());
    let images = vec![
        image,
        SwapchainImage::new(13, 14, B8G8R8A8_SRGB, image.extent),
        SwapchainImage::new(15, 16, B8G8R8A8_SRGB, image.extent),
    ];
    assert!(images.len() >= d.min_image_count as usize);
    let chain = Swapchain::new(&d, 7, images);
    assert_eq!(chain.extent(), Extent2D { width: 1280, height: 720 });
    assert_eq!(chain.handle(), 7);
    assert_eq!(chain.image_format(), B8G8R8A8_SRGB);
    assert_eq!(chain.present_mode(), PresentMode::Mailbox);
    assert_eq!(chain.images().len(), 3);
}

#[test]
fn extent_below_the_minimum_is_raised() {
    let d = swapchain_description(&caps(), &vec![srgb()], &modes(), Extent2D { width: 10, height: 20 }, None)
        .unwrap();
    assert_eq!(d.image_description.extent, Extent2D { width: 64, height: 48 });
}

#[test]
fn extent_above_the_maximum_is_lowered() {
    let d = swapchain_description(&caps(), &vec![srgb()], &modes(), Extent2D { width: 8000, height: 3000 }, None)
        .unwrap();
    assert_eq!(d.image_description.extent, Extent2D { width: 4096, height: 2160 });
}

#[test]
fn extent_at_the_limits_is_kept() {
    for e in [Extent2D { width: 64, height: 48 }, Extent2D { width: 4096, height: 2160 }] {
        let d = swapchain_description(&caps(), &vec![srgb()], &modes(), e, None).unwrap();
        assert_eq!(d.image_description.extent, e);
    }
}

#[test]
fn minimized_window_is_refused() {
    let mut minimized = caps();
    minimized.min_image_extent = Extent2D { width: 0, height: 0 };
    minimized.max_image_extent = Extent2D { width: 0, height: 0 };
    let r = swapchain_description(&minimized, &vec![srgb()], &modes(), Extent2D { width: 0, height: 0 }, Some(5));
    assert_eq!(r, Err(SwapchainCreateError::EmptyExtent));
}

#[test]
fn zero_size_is_clamped_when_the_surface_has_a_minimum() {
    let mut small = caps();
    small.min_image_extent = Extent2D { width: 1, height: 1 };
    let d = swapchain_description(&small, &vec![srgb()], &modes(), Extent2D { width: 0, height: 0 }, None)
        .unwrap();
    assert_eq!(d.image_description.extent, Extent2D { width: 1, height: 1 });
}

#[test]
fn surface_without_formats_is_refused() {
    let r = swapchain_description(&caps(), &vec![], &modes(), Extent2D { width: 800, height: 600 }, None);
    assert_eq!(r, Err(SwapchainCreateError::NoSurfaceFormat));
}

#[test]
fn resizing_twice_to_one_size_asks_for_the_same_swapchain() {
    let size = Extent2D { width: 1024, height: 768 };
    let first = swapchain_description(&caps(), &vec![unorm(), srgb()], &modes(), size, Some(3)).unwrap();
    let second = swapchain_description(&caps(), &vec![unorm(), srgb()], &modes(), size, Some(9)).unwrap();
    assert_eq!(first.min_image_count, second.min_image_count);
    assert_eq!(first.image_description, second.image_description);
    assert_eq!(first.present_mode, second.present_mode);
    assert_eq!(second.old_swapchain, Some(9));
}

#[test]
fn image_count_is_one_more_than_the_minimum_within_the_maximum() {
    let size = Extent2D { width: 800, height: 600 };
    let mut c = caps();
    c.min_image_count = 3;
    c.max_image_count = 3;
    let d = swapchain_description(&c, &vec![srgb()], &modes(), size, None).unwrap();
    assert_eq!(d.min_image_count, 3);
    c.max_image_count = 0;
    let d = swapchain_description(&c, &vec![srgb()], &modes(), size, None).unwrap();
    assert_eq!(d.min_image_count, 4);
    c.min_image_count = u32::MAX;
    let d = swapchain_description(&c, &vec![srgb()], &modes(), size, None).unwrap();
    assert_eq!(d.min_image_count, u32::MAX);
}

#[test]
fn preferred_format_else_first_reported() {
    assert_eq!(select_surface_format(&vec![unorm(), srgb()]), Some(srgb()));
    assert_eq!(select_surface_format(&vec![unorm()]), Some(unorm()));
    let linear_srgb = SurfaceFormat { format: B8G8R8A8_SRGB, color_space: 1000104002 };
    assert_eq!(select_surface_format(&vec![linear_srgb, unorm()]), Some(linear_srgb));
    assert_eq!(select_surface_format(&vec![]), None);
}

#[test]
fn srgb_formats_match_vulkan() {
    let pairs = [
        (R8_SRGB, vk::Format::R8_SRGB),
        (R8G8_SRGB, vk::Format::R8G8_SRGB),
        (R8G8B8_SRGB, vk::Format::R8G8B8_SRGB),
        (B8G8R8_SRGB, vk::Format::B8G8R8_SRGB),
        (R8G8B8A8_SRGB, vk::Format::R8G8B8A8_SRGB),
        (B8G8R8A8_SRGB, vk::Format::B8G8R8A8_SRGB),
        (A8B8G8R8_SRGB_PACK32, vk::Format::A8B8G8R8_SRGB_PACK32),
    ];
    for (ours, theirs) in pairs {
        assert_eq!(ours, theirs.as_raw());
        assert!(is_srgb8(ours));
    }
    assert!(!is_srgb8(vk::Format::R8G8B8A8_UNORM.as_raw()));
    assert!(!is_srgb8(vk::Format::ETC2_R8G8B8A8_SRGB_BLOCK.as_raw()));
    assert!(!is_srgb8(vk::Format::R16G16B16A16_SFLOAT.as_raw()));
}

#[test]
fn any_eight_bit_srgb_format_is_preferred() {
    let rgba_unorm = SurfaceFormat { format: vk::Format::R8G8B8A8_UNORM.as_raw(), color_space: SRGB_NONLINEAR };
    let rgba_srgb = SurfaceFormat { format: R8G8B8A8_SRGB, color_space: SRGB_NONLINEAR };
    assert_eq!(select_surface_format(&vec![rgba_unorm, rgba_srgb]), Some(rgba_srgb));
    let packed = SurfaceFormat { format: A8B8G8R8_SRGB_PACK32, color_space: SRGB_NONLINEAR };
    assert_eq!(select_surface_format(&vec![unorm(), packed, srgb()]), Some(packed));
    let d = swapchain_description(&caps(), &vec![rgba_unorm, rgba_srgb], &modes(), Extent2D { width: 800, height: 600 }, None)
        .unwrap();
    assert_eq!(d.image_description.format, R8G8B8A8_SRGB);
    assert_eq!(d.image_description.color_space, SRGB_NONLINEAR);
}

#[test]
fn mailbox_or_immediate_else_fifo() {
    assert_eq!(select_present_mode(&vec![PresentMode::Fifo, PresentMode::Immediate, PresentMode::Mailbox]), PresentMode::Immediate);
    assert_eq!(select_present_mode(&vec![PresentMode::Mailbox, PresentMode::Immediate]), PresentMode::Mailbox);
    assert_eq!(select_present_mode(&vec![PresentMode::FifoRelaxed, PresentMode::Fifo]), PresentMode::Fifo);
    assert_eq!(select_present_mode(&vec![]), PresentMode::Fifo);
}

#[test]
fn current_image_comes_from_the_acquired_index() {
    let d = swapchain_description(&caps(), &vec![srgb()], &modes(), Extent2D { width: 800, height: 600 }, None)
        .unwrap();
    let extent = Extent3D { width: 800, height: 600, depth: 0 };
    let images = vec![
        SwapchainImage::new(21, 22, B8G8R8A8_SRGB, extent),
        SwapchainImage::new(23, 24, B8G8R8A8_SRGB, extent),
        SwapchainImage::new(25, 26, B8G8R8A8_SRGB, extent),
    ];
    assert!(images.len() >= d.min_image_count as usize);
    let chain = Swapchain::new(&d, 1, images.clone());
    assert_eq!(chain.get_current_image(Ok((1, true))), Ok((images[1], 1, true)));
    assert_eq!(chain.get_current_image(Ok((0, false))), Ok((images[0], 0, false)));
    assert_eq!(chain.get_current_image(Ok((2, false))), Ok((images[2], 2, false)));
    assert_eq!(chain.get_current_image(Ok((3, false))), Err(GPUTaskError::AcquireError));
    assert_eq!(chain.get_current_image(Err(GPUTaskError::WaitError)), Err(GPUTaskError::WaitError));
}

#[test]
fn extent_gets_a_zero_depth() {
    assert_eq!(Extent2D { width: 3, height: 4 }.into_extent3d(), Extent3D { width: 3, height: 4, depth: 0 });
}
