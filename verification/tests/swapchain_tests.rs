use bloom_engine::device::{Device, Event, QueueFamilyProps};
use bloom_engine::flags::{
    ALLOC_FAST_DEVICE_ACCESS, FORMAT_D32_SFLOAT, FORMAT_FEATURE_DEPTH_STENCIL_ATTACHMENT,
    FORMAT_R16G16B16A16_SFLOAT, IMAGE_USAGE_COLOR_ATTACHMENT, IMAGE_USAGE_STORAGE,
    QUEUE_COMPUTE, QUEUE_GRAPHICS, QUEUE_TRANSFER,
};
use bloom_engine::engine::create_depth_image;
use bloom_engine::geometry::Extent2d;
use bloom_engine::renderpass::RenderPass;
use bloom_engine::surface::{
    desired_image_count_from, pre_transform_from, surface_resolution_from, Surface,
    SurfaceCapabilities, SurfaceFormat, SURFACE_EXTENT_UNDEFINED, SURFACE_TRANSFORM_IDENTITY,
};
use bloom_engine::swapchain::{
    choose_present_mode, Swapchain, PRESENT_MODE_FIFO, PRESENT_MODE_IMMEDIATE,
    PRESENT_MODE_MAILBOX,
};

fn test_device() -> Device {
    Device::new(&vec![vec![QueueFamilyProps {
        queue_count: 4,
        queue_flags: QUEUE_GRAPHICS | QUEUE_COMPUTE | QUEUE_TRANSFER,
    }]])
}

fn test_surface(width: u32, height: u32) -> Surface {
    Surface::new(
        11,
        SurfaceFormat { format: FORMAT_R16G16B16A16_SFLOAT, color_space: 0 },
        SurfaceCapabilities {
            current_extent: Extent2d { width, height },
            min_image_count: 2,
            max_image_count: 8,
            supported_transforms: SURFACE_TRANSFORM_IDENTITY,
            current_transform: SURFACE_TRANSFORM_IDENTITY,
        },
        Extent2d { width, height },
    )
}

#[test]
fn present_mode_choice_requires_the_surface_to_offer_it() {
    let modes = vec![PRESENT_MODE_IMMEDIATE, PRESENT_MODE_FIFO];
    assert_eq!(choose_present_mode(&modes, Some(PRESENT_MODE_FIFO)), Some(PRESENT_MODE_FIFO));
    // Mailbox is the default request, and this surface does not offer it.
    assert_eq!(choose_present_mode(&modes, None), None);
    let with_mailbox = vec![PRESENT_MODE_MAILBOX, PRESENT_MODE_FIFO];
    assert_eq!(choose_present_mode(&with_mailbox, None), Some(PRESENT_MODE_MAILBOX));
}

#[test]
fn surface_resolution_falls_back_to_the_window_size() {
    let current = Extent2d { width: SURFACE_EXTENT_UNDEFINED, height: 7 };
    let window = Extent2d { width: 1080, height: 720 };
    let r = surface_resolution_from(current, window);
    assert_eq!(r.width, 1080);
    assert_eq!(r.height, 1080);
    let fixed = Extent2d { width: 640, height: 480 };
    assert_eq!(surface_resolution_from(fixed, window), fixed);
}

#[test]
fn desired_image_count_is_min_plus_one_clamped() {
    assert_eq!(desired_image_count_from(2, 8), 3);
    assert_eq!(desired_image_count_from(3, 3), 3);
    assert_eq!(desired_image_count_from(2, 0), 3);
}

#[test]
fn pre_transform_prefers_identity() {
    assert_eq!(pre_transform_from(SURFACE_TRANSFORM_IDENTITY | 0x4, 0x4), 1);
    assert_eq!(pre_transform_from(0x4, 0x4), 0x4);
}

#[test]
fn swapchain_creates_a_view_and_two_framebuffers_per_image() {
    let mut device = test_device();
    let surface = test_surface(1080, 720);
    let renderpass = RenderPass::builder().build(&mut device);
    let ui_renderpass = RenderPass::builder().build(&mut device);
    let swapchain = Swapchain::new(
        &mut device,
        &surface,
        Some(PRESENT_MODE_FIFO),
        Some(IMAGE_USAGE_COLOR_ATTACHMENT | IMAGE_USAGE_STORAGE),
        None,
        &renderpass,
        &ui_renderpass,
        &vec![PRESENT_MODE_FIFO, PRESENT_MODE_MAILBOX],
        vec![101, 102, 103],
    );
    assert_eq!(swapchain.swapchain_images, vec![101, 102, 103]);
    assert_eq!(swapchain.swapchain_image_views.len(), 3);
    assert_eq!(swapchain.swapchain_framebuffers.len(), 3);
    assert_eq!(swapchain.swapchain_ui_framebuffers.len(), 3);
    assert_eq!(swapchain.max_image_in_flight, 3);
    assert_eq!(swapchain.swapchain_extent, Extent2d { width: 1080, height: 720 });
    assert_eq!(swapchain.swapchain_create_info.present_mode, PRESENT_MODE_FIFO);
    assert_eq!(swapchain.swapchain_create_info.image_format, FORMAT_R16G16B16A16_SFLOAT);
    assert_eq!(swapchain.swapchain_create_info.min_image_count, 3);
}

#[test]
fn swapchain_recreate_reuses_the_creation_parameters_at_the_new_extent() {
    let mut device = test_device();
    let surface = test_surface(1080, 720);
    let renderpass = RenderPass::builder().build(&mut device);
    let ui_renderpass = RenderPass::builder().build(&mut device);
    let depth_candidates = vec![(FORMAT_D32_SFLOAT, FORMAT_FEATURE_DEPTH_STENCIL_ATTACHMENT)];
    let depth = create_depth_image(&mut device, &surface, &depth_candidates);
    let old_depth_image = depth.image;
    let mut swapchain = Swapchain::new(
        &mut device,
        &surface,
        Some(PRESENT_MODE_FIFO),
        None,
        Some(depth),
        &renderpass,
        &ui_renderpass,
        &vec![PRESENT_MODE_FIFO],
        vec![101, 102],
    );
    let info_before = swapchain.swapchain_create_info;
    let old_swapchain = swapchain.swapchain;
    let old_sampler = swapchain.swapchain_image_sampler;

    let resized_surface = test_surface(640, 480);
    let new_depth = create_depth_image(&mut device, &resized_surface, &depth_candidates);
    let before = device.events.len();
    swapchain.recreate(
        &mut device,
        &resized_surface,
        &renderpass,
        &ui_renderpass,
        Some(new_depth),
        vec![201, 202],
    );

    // Only the extent of the retained creation parameters changed.
    assert_eq!(swapchain.swapchain_extent, Extent2d { width: 640, height: 480 });
    assert_eq!(swapchain.swapchain_create_info.image_extent, Extent2d { width: 640, height: 480 });
    assert_eq!(swapchain.swapchain_create_info.image_format, info_before.image_format);
    assert_eq!(swapchain.swapchain_create_info.image_usage, info_before.image_usage);
    assert_eq!(swapchain.swapchain_create_info.present_mode, info_before.present_mode);
    assert_eq!(swapchain.swapchain_create_info.min_image_count, info_before.min_image_count);
    assert_eq!(swapchain.swapchain_images, vec![201, 202]);
    assert_eq!(swapchain.swapchain_image_views.len(), 2);

    // Full teardown before recreation: the old sampler, the per-image
    // objects and the old swapchain all go, and the old depth image
    // returns its block before its handle is destroyed.
    let appended = &device.events[before..];
    assert_eq!(appended[0], Event::DestroySampler { handle: old_sampler });
    let destroy_swapchain_at = appended
        .iter()
        .position(|e| *e == Event::DestroySwapchain { handle: old_swapchain })
        .unwrap();
    let create_swapchain_at = appended
        .iter()
        .position(|e| matches!(e, Event::CreateSwapchain { .. }))
        .unwrap();
    assert!(destroy_swapchain_at < create_swapchain_at);
    let dealloc_at = appended
        .iter()
        .position(|e| matches!(e, Event::Dealloc { .. }))
        .unwrap();
    let destroy_old_depth_at = appended
        .iter()
        .position(|e| *e == Event::DestroyImage { handle: old_depth_image })
        .unwrap();
    assert!(dealloc_at < destroy_old_depth_at);
}

#[test]
fn swapchain_destroy_tears_down_in_order() {
    let mut device = test_device();
    let surface = test_surface(320, 240);
    let renderpass = RenderPass::builder().build(&mut device);
    let ui_renderpass = RenderPass::builder().build(&mut device);
    let swapchain = Swapchain::new(
        &mut device,
        &surface,
        Some(PRESENT_MODE_FIFO),
        None,
        None,
        &renderpass,
        &ui_renderpass,
        &vec![PRESENT_MODE_FIFO],
        vec![300],
    );
    let sampler = swapchain.swapchain_image_sampler;
    let handle = swapchain.swapchain;
    let view = swapchain.swapchain_image_views[0];
    let framebuffer = swapchain.swapchain_framebuffers[0];
    let ui_framebuffer = swapchain.swapchain_ui_framebuffers[0];
    let before = device.events.len();
    swapchain.destroy(&mut device);
    assert_eq!(
        &device.events[before..],
        &[
            Event::DestroySampler { handle: sampler },
            Event::DestroyImageView { handle: view },
            Event::DestroyFramebuffer { handle: framebuffer },
            Event::DestroyFramebuffer { handle: ui_framebuffer },
            Event::DestroySwapchain { handle },
        ],
    );
}
