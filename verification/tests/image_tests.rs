use bloom_engine::bloom::BLOOM_MIP_COUNT;
use bloom_engine::command_buffer::{CommandBufferBuilder, CommandBufferUsage};
use bloom_engine::device::{Device, Event, QueueFamilyProps};
use bloom_engine::flags::{
    ImageLayout, ALLOC_FAST_DEVICE_ACCESS, ALLOC_UPLOAD, ASPECT_COLOR,
    FORMAT_R16G16B16A16_SFLOAT, IMAGE_USAGE_SAMPLED, IMAGE_USAGE_STORAGE, QUEUE_COMPUTE,
    QUEUE_GRAPHICS, QUEUE_TRANSFER,
};
use bloom_engine::geometry::Extent3d;
use bloom_engine::image::Image;

fn test_device() -> Device {
    Device::new(&vec![vec![QueueFamilyProps {
        queue_count: 4,
        queue_flags: QUEUE_GRAPHICS | QUEUE_COMPUTE | QUEUE_TRANSFER,
    }]])
}

fn bloom_chain_image(device: &mut Device, allocation_type: u8) -> Image {
    let queue_family_index = device.queue_family_index;
    Image::new(
        device,
        0,
        1,
        FORMAT_R16G16B16A16_SFLOAT,
        Extent3d { width: 256, height: 256, depth: 1 },
        BLOOM_MIP_COUNT as u32,
        1,
        0,
        IMAGE_USAGE_STORAGE | IMAGE_USAGE_SAMPLED,
        queue_family_index,
        ImageLayout::Undefined,
        ImageLayout::General,
        1,
        ASPECT_COLOR,
        allocation_type,
    )
}

#[test]
fn image_has_one_view_per_mip_with_decreasing_level_counts() {
    let mut device = test_device();
    let image = bloom_chain_image(&mut device, ALLOC_FAST_DEVICE_ACCESS);
    assert_eq!(image.mip_image_views.len(), 7);
    let counts: Vec<u32> = image.mip_image_views.iter().map(|v| v.level_count).collect();
    assert_eq!(counts, vec![7, 6, 5, 4, 3, 2, 1]);
    for (i, view) in image.mip_image_views.iter().enumerate() {
        assert_eq!(view.base_mip_level, i as u32);
    }
    assert_eq!(image.current_layout, ImageLayout::Undefined);
    assert_eq!(image.subresource_range.level_count, 7);
}

#[test]
fn image_destruction_deallocates_once_before_the_handle_goes() {
    let mut device = test_device();
    let mut image = bloom_chain_image(&mut device, ALLOC_FAST_DEVICE_ACCESS);
    image.set_sampler(&mut device, 0, 0, 0, 0, 0, 0, false, false, 0, 0);
    let image_handle = image.image;
    let block = image.block.unwrap().id;
    let sampler = image.image_sampler.unwrap();
    let default_view = image.image_view.handle;
    let before = device.events.len();
    image.destroy(&mut device);
    let appended = &device.events[before..];

    let deallocs: Vec<usize> = appended
        .iter()
        .enumerate()
        .filter_map(|(k, e)| if matches!(e, Event::Dealloc { .. }) { Some(k) } else { None })
        .collect();
    assert_eq!(deallocs.len(), 1);
    assert_eq!(appended[deallocs[0]], Event::Dealloc { block });

    let destroy_at = appended
        .iter()
        .position(|e| *e == Event::DestroyImage { handle: image_handle })
        .unwrap();
    assert!(deallocs[0] < destroy_at);
    // The image handle goes last of all.
    assert_eq!(destroy_at, appended.len() - 1);
    // Sampler and every view are destroyed before the block is returned.
    assert_eq!(appended[0], Event::DestroySampler { handle: sampler });
    for (k, e) in appended.iter().enumerate() {
        if matches!(e, Event::DestroyImageView { .. } | Event::DestroySampler { .. }) {
            assert!(k < deallocs[0]);
        }
    }
    assert!(appended.contains(&Event::DestroyImageView { handle: default_view }));
    // Sampler + 7 mip views + default view + dealloc + image handle.
    assert_eq!(appended.len(), 11);
}

#[test]
fn change_layout_tracks_the_transition_and_blocks_on_the_transfer_queue() {
    let mut device = test_device();
    let builder = CommandBufferBuilder::primary(&mut device, CommandBufferUsage::OneTimeSubmit);
    let mut image = bloom_chain_image(&mut device, ALLOC_FAST_DEVICE_ACCESS);
    let before = device.events.len();
    image.change_layout(&mut device, &builder, ImageLayout::Undefined, ImageLayout::General);
    assert_eq!(image.current_layout, ImageLayout::General);
    let appended = &device.events[before..];
    let transfer_queue = device.transfer_queue;
    assert_eq!(
        appended[1],
        Event::LayoutBarrier {
            image: image.image,
            old_layout: ImageLayout::Undefined,
            new_layout: ImageLayout::General,
        },
    );
    assert_eq!(appended[2], Event::Submit { queue: transfer_queue });
    assert_eq!(appended[3], Event::WaitQueueIdle { queue: transfer_queue });
}

#[test]
fn staged_image_upload_ends_at_the_final_layout() {
    let mut device = test_device();
    let builder = CommandBufferBuilder::primary(&mut device, CommandBufferUsage::OneTimeSubmit);
    let queue_family_index = device.queue_family_index;
    let mut image = Image::new(
        &mut device,
        0,
        1,
        FORMAT_R16G16B16A16_SFLOAT,
        Extent3d { width: 2, height: 2, depth: 1 },
        1,
        1,
        0,
        IMAGE_USAGE_SAMPLED,
        queue_family_index,
        ImageLayout::Undefined,
        ImageLayout::General,
        1,
        ASPECT_COLOR,
        ALLOC_FAST_DEVICE_ACCESS,
    );
    let payload = vec![5, 6, 7, 8];
    image.write_to_vram(&mut device, &builder, payload.clone());
    assert_eq!(image.current_layout, ImageLayout::General);
    let mut read_back = image.read_from_vram(&mut device, &builder, 4);
    assert_eq!(read_back, payload);
    // The rest of the image memory is the staging buffer's zeroed remainder.
    read_back = image.read_from_vram(&mut device, &builder, 6);
    assert_eq!(read_back, vec![5, 6, 7, 8, 0, 0]);
}

#[test]
fn host_image_write_then_read_round_trips() {
    let mut device = test_device();
    let queue_family_index = device.queue_family_index;
    let mut image = Image::new(
        &mut device,
        0,
        1,
        FORMAT_R16G16B16A16_SFLOAT,
        Extent3d { width: 2, height: 1, depth: 1 },
        1,
        1,
        0,
        IMAGE_USAGE_SAMPLED,
        queue_family_index,
        ImageLayout::Undefined,
        ImageLayout::General,
        1,
        ASPECT_COLOR,
        ALLOC_UPLOAD,
    );
    image.write(vec![1, 2, 3]);
    assert_eq!(image.read(4), vec![1, 2, 3, 0]);
}

#[test]
fn image_to_image_copy_restores_every_layout_it_touches() {
    let mut device = test_device();
    let builder = CommandBufferBuilder::primary(&mut device, CommandBufferUsage::OneTimeSubmit);
    let mut image = bloom_chain_image(&mut device, ALLOC_FAST_DEVICE_ACCESS);
    image.change_layout(&mut device, &builder, ImageLayout::Undefined, ImageLayout::General);
    let foreign_image = 777;
    let before = device.events.len();
    image.write_from_image(
        &mut device,
        Some(&builder),
        None,
        foreign_image,
        ASPECT_COLOR,
        ImageLayout::PresentSrc,
    );
    // The tracked layout deliberately ends at its pre-call value.
    assert_eq!(image.current_layout, ImageLayout::General);
    let appended = &device.events[before..];
    assert_eq!(
        appended[1..],
        [
            Event::LayoutBarrier {
                image: foreign_image,
                old_layout: ImageLayout::PresentSrc,
                new_layout: ImageLayout::TransferSrcOptimal,
            },
            Event::LayoutBarrier {
                image: image.image,
                old_layout: ImageLayout::General,
                new_layout: ImageLayout::TransferDstOptimal,
            },
            Event::CopyImage { src: foreign_image, dst: image.image },
            Event::LayoutBarrier {
                image: foreign_image,
                old_layout: ImageLayout::TransferSrcOptimal,
                new_layout: ImageLayout::PresentSrc,
            },
            Event::LayoutBarrier {
                image: image.image,
                old_layout: ImageLayout::TransferDstOptimal,
                new_layout: ImageLayout::General,
            },
        ],
    );
}

#[test]
fn end_to_end_bloom_chain_image_lifecycle() {
    // A 256 by 256 image with the full bloom mip count in fast device
    // memory: seven views with level counts 7 down to 1, and on teardown
    // exactly one block return, strictly before the image handle goes.
    let mut device = test_device();
    let image = bloom_chain_image(&mut device, ALLOC_FAST_DEVICE_ACCESS);
    assert_eq!(image.extent, Extent3d { width: 256, height: 256, depth: 1 });
    let counts: Vec<u32> = image.mip_image_views.iter().map(|v| v.level_count).collect();
    assert_eq!(counts, vec![7, 6, 5, 4, 3, 2, 1]);
    let image_handle = image.image;
    let before = device.events.len();
    image.destroy(&mut device);
    let appended = &device.events[before..];
    let deallocs = appended.iter().filter(|e| matches!(e, Event::Dealloc { .. })).count();
    assert_eq!(deallocs, 1);
    let dealloc_at = appended
        .iter()
        .position(|e| matches!(e, Event::Dealloc { .. }))
        .unwrap();
    let destroy_at = appended
        .iter()
        .position(|e| *e == Event::DestroyImage { handle: image_handle })
        .unwrap();
    assert!(dealloc_at < destroy_at);
}
