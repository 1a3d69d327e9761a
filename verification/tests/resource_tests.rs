use bloom_engine::align::{aligne_offset, realized_buffer_size};
use bloom_engine::buffer::{Buffer, BufferOffsetRange};
use bloom_engine::command_buffer::{CommandBufferBuilder, CommandBufferUsage};
use bloom_engine::device::{
    device_queue_indices, find_queue_family, pick_physical_device, Device, Event,
    QueueFamilyIndices, QueueFamilyProps,
};
use bloom_engine::flags::{
    host_visible, SharingMode, ALLOC_DOWNLOAD, ALLOC_FAST_DEVICE_ACCESS, ALLOC_HOST_ACCESS,
    ALLOC_UPLOAD, BUFFER_USAGE_TRANSFER_DST, BUFFER_USAGE_UNIFORM_BUFFER,
    BUFFER_USAGE_VERTEX_BUFFER, QUEUE_COMPUTE, QUEUE_GRAPHICS, QUEUE_TRANSFER,
};

fn all_capabilities() -> u32 {
    QUEUE_GRAPHICS | QUEUE_COMPUTE | QUEUE_TRANSFER
}

fn test_device() -> Device {
    Device::new(&vec![vec![QueueFamilyProps { queue_count: 4, queue_flags: all_capabilities() }]])
}

#[test]
fn aligne_offset_moves_to_the_next_multiple_of_64() {
    assert_eq!(aligne_offset(0), 64);
    assert_eq!(aligne_offset(1), 64);
    assert_eq!(aligne_offset(63), 64);
    assert_eq!(aligne_offset(64), 128);
    assert_eq!(aligne_offset(100), 128);
}

#[test]
fn realized_size_is_smallest_multiple_of_64_at_or_above() {
    assert_eq!(realized_buffer_size(1, true), 64);
    assert_eq!(realized_buffer_size(64, true), 64);
    assert_eq!(realized_buffer_size(65, true), 128);
    assert_eq!(realized_buffer_size(100, true), 128);
    assert_eq!(realized_buffer_size(100, false), 100);
}

#[test]
fn host_visibility_follows_the_allocation_intent() {
    assert!(host_visible(ALLOC_UPLOAD));
    assert!(host_visible(ALLOC_DOWNLOAD));
    assert!(host_visible(ALLOC_HOST_ACCESS));
    assert!(!host_visible(ALLOC_FAST_DEVICE_ACCESS));
}

#[test]
fn queue_family_search_takes_the_first_complete_family() {
    let families = vec![
        QueueFamilyProps { queue_count: 1, queue_flags: QUEUE_GRAPHICS },
        QueueFamilyProps { queue_count: 0, queue_flags: all_capabilities() },
        QueueFamilyProps { queue_count: 2, queue_flags: all_capabilities() },
        QueueFamilyProps { queue_count: 8, queue_flags: all_capabilities() },
    ];
    let indices = find_queue_family(&families);
    assert!(indices.is_complete());
    assert_eq!(indices.family_index, Some(2));
}

#[test]
fn queue_family_search_fails_without_a_combined_family() {
    let families = vec![
        QueueFamilyProps { queue_count: 1, queue_flags: QUEUE_GRAPHICS | QUEUE_TRANSFER },
        QueueFamilyProps { queue_count: 1, queue_flags: QUEUE_COMPUTE },
    ];
    let indices = find_queue_family(&families);
    assert!(!indices.is_complete());
    assert_eq!(indices, QueueFamilyIndices { family_index: None });
}

#[test]
fn physical_device_pick_takes_the_first_suitable() {
    let devices = vec![
        vec![QueueFamilyProps { queue_count: 1, queue_flags: QUEUE_GRAPHICS }],
        vec![QueueFamilyProps { queue_count: 1, queue_flags: all_capabilities() }],
    ];
    assert_eq!(pick_physical_device(&devices), Some(1));
    assert_eq!(pick_physical_device(&vec![]), None);
}

#[test]
fn queue_roles_clamp_to_the_family_queue_count() {
    assert_eq!(device_queue_indices(4), (0, 1, 2, 3));
    assert_eq!(device_queue_indices(1), (0, 1, 1, 1));
    assert_eq!(device_queue_indices(2), (0, 1, 2, 2));
}

#[test]
fn uniform_buffer_realized_size_rounds_up() {
    let mut device = test_device();
    let buffer = Buffer::new(
        &mut device,
        0,
        100,
        BUFFER_USAGE_UNIFORM_BUFFER,
        SharingMode::Exclusive,
        ALLOC_UPLOAD,
    );
    assert_eq!(buffer.data_size, 128);
    assert_eq!(buffer.allocated_size, 128);

    let plain = Buffer::new(
        &mut device,
        0,
        100,
        BUFFER_USAGE_VERTEX_BUFFER,
        SharingMode::Exclusive,
        ALLOC_FAST_DEVICE_ACCESS,
    );
    assert_eq!(plain.data_size, 100);
    assert!(plain.allocated_size >= plain.data_size);
}

#[test]
fn uniform_buffer_size_already_aligned_is_kept() {
    let mut device = test_device();
    let buffer = Buffer::new(
        &mut device,
        0,
        192,
        BUFFER_USAGE_UNIFORM_BUFFER,
        SharingMode::Exclusive,
        ALLOC_UPLOAD,
    );
    assert_eq!(buffer.data_size, 192);
}

#[test]
fn host_write_then_read_returns_the_bytes() {
    let mut device = test_device();
    let mut buffer = Buffer::new(
        &mut device,
        0,
        32,
        BUFFER_USAGE_TRANSFER_DST,
        SharingMode::Exclusive,
        ALLOC_HOST_ACCESS,
    );
    buffer.write(4, vec![9, 8, 7]);
    assert_eq!(buffer.read(4, 3), vec![9, 8, 7]);
    assert_eq!(buffer.read(0, 4), vec![0, 0, 0, 0]);
    assert_eq!(buffer.read(7, 2), vec![0, 0]);
}

#[test]
fn staged_vram_round_trip_is_byte_identical() {
    let mut device = test_device();
    let builder = CommandBufferBuilder::primary(&mut device, CommandBufferUsage::OneTimeSubmit);
    let mut buffer = Buffer::new(
        &mut device,
        0,
        8,
        BUFFER_USAGE_TRANSFER_DST,
        SharingMode::Exclusive,
        ALLOC_FAST_DEVICE_ACCESS,
    );
    let payload = vec![1, 2, 3, 4, 5, 6, 7, 8];
    buffer.write_to_vram(&mut device, &builder, 0, payload.clone());
    let downloaded = buffer.read_from_vram(&mut device, &builder, 0);
    assert_eq!(downloaded, payload);
}

#[test]
fn staged_upload_submits_and_waits_on_the_transfer_queue() {
    let mut device = test_device();
    let builder = CommandBufferBuilder::primary(&mut device, CommandBufferUsage::OneTimeSubmit);
    let mut buffer = Buffer::new(
        &mut device,
        0,
        4,
        BUFFER_USAGE_TRANSFER_DST,
        SharingMode::Exclusive,
        ALLOC_FAST_DEVICE_ACCESS,
    );
    let before = device.events.len();
    buffer.write_to_vram(&mut device, &builder, 0, vec![1, 2, 3, 4]);
    let appended = &device.events[before..];
    let transfer_queue = device.transfer_queue;
    let submit_at = appended
        .iter()
        .position(|e| *e == Event::Submit { queue: transfer_queue })
        .unwrap();
    // The wait comes right after the submission: the transfer is synchronous.
    assert_eq!(appended[submit_at + 1], Event::WaitQueueIdle { queue: transfer_queue });
    // The staging buffer's block goes back to the pool before its handle goes.
    let dealloc_at = appended
        .iter()
        .position(|e| matches!(e, Event::Dealloc { .. }))
        .unwrap();
    let destroy_at = appended
        .iter()
        .position(|e| matches!(e, Event::DestroyBuffer { .. }))
        .unwrap();
    assert!(submit_at < dealloc_at);
    assert!(dealloc_at < destroy_at);
}

#[test]
fn buffer_destruction_returns_the_block_before_the_handle() {
    let mut device = test_device();
    let buffer = Buffer::new(
        &mut device,
        0,
        16,
        BUFFER_USAGE_VERTEX_BUFFER,
        SharingMode::Exclusive,
        ALLOC_FAST_DEVICE_ACCESS,
    );
    let handle = buffer.buffer;
    let block = buffer.block.unwrap().id;
    let before = device.events.len();
    buffer.destroy(&mut device);
    let appended = &device.events[before..];
    assert_eq!(
        appended,
        &[Event::Dealloc { block }, Event::DestroyBuffer { handle }],
    );
}

#[test]
fn buffer_offset_range_keeps_its_fields() {
    let mut device = test_device();
    let buffer = Buffer::new(
        &mut device,
        0,
        16,
        BUFFER_USAGE_VERTEX_BUFFER,
        SharingMode::Exclusive,
        ALLOC_FAST_DEVICE_ACCESS,
    );
    let range = BufferOffsetRange::new(&buffer, 64, 128);
    assert_eq!(range.buffer_ref, buffer.buffer);
    assert_eq!(range.offset, 64);
    assert_eq!(range.range, 128);
}

#[test]
fn device_teardown_cleans_the_pool_before_the_handle() {
    let mut device = test_device();
    device.wait_idle();
    let events_before = device.events.clone();
    let log = device.destroy();
    assert_eq!(log[log.len() - 2], Event::AllocatorCleanup);
    assert_eq!(log[log.len() - 1], Event::DestroyDevice);
    assert_eq!(&log[..log.len() - 2], &events_before[..]);
    assert_eq!(events_before.last(), Some(&Event::WaitDeviceIdle));
}
