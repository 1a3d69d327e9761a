use bloom_engine::device::{Device, Event, QueueFamilyProps};
use bloom_engine::flags::{QUEUE_COMPUTE, QUEUE_GRAPHICS, QUEUE_TRANSFER};
use bloom_engine::shader_module::{read_spv, ShaderModule, SpvError, SPV_MAGIC_NUMBER};

fn test_device() -> Device {
    Device::new(&vec![vec![QueueFamilyProps {
        queue_count: 4,
        queue_flags: QUEUE_GRAPHICS | QUEUE_COMPUTE | QUEUE_TRANSFER,
    }]])
}

#[test]
fn read_spv_accepts_a_native_order_binary() {
    let bytes = vec![0x03, 0x02, 0x23, 0x07, 0x04, 0x03, 0x02, 0x01];
    let words = read_spv(&bytes).unwrap();
    assert_eq!(words, vec![SPV_MAGIC_NUMBER, 0x0102_0304]);
}

#[test]
fn read_spv_swaps_an_opposite_order_binary() {
    // The same two words stored with their bytes reversed.
    let bytes = vec![0x07, 0x23, 0x02, 0x03, 0x01, 0x02, 0x03, 0x04];
    let words = read_spv(&bytes).unwrap();
    assert_eq!(words, vec![SPV_MAGIC_NUMBER, 0x0102_0304]);
}

#[test]
fn read_spv_rejects_unaligned_input() {
    let bytes = vec![0x03, 0x02, 0x23];
    assert_eq!(read_spv(&bytes), Err(SpvError::NotWordAligned));
}

#[test]
fn read_spv_rejects_empty_input() {
    assert_eq!(read_spv(&vec![]), Err(SpvError::MissingMagicNumber));
}

#[test]
fn read_spv_rejects_a_wrong_magic_number() {
    let bytes = vec![0xde, 0xad, 0xbe, 0xef];
    assert_eq!(read_spv(&bytes), Err(SpvError::MissingMagicNumber));
}

#[test]
fn shader_module_creation_validates_the_binary() {
    let mut device = test_device();
    let before = device.events.len();
    let module =
        ShaderModule::new(&mut device, &vec![0x03, 0x02, 0x23, 0x07], &b"main".to_vec()).unwrap();
    assert_eq!(module.entry_point, b"main".to_vec());
    assert_eq!(
        &device.events[before..],
        &[Event::CreateShaderModule { handle: module.shader_module }],
    );

    let before = device.events.len();
    let bad = ShaderModule::new(&mut device, &vec![1, 2, 3], &b"main".to_vec());
    assert_eq!(bad.unwrap_err(), SpvError::NotWordAligned);
    // A rejected binary creates nothing.
    assert_eq!(device.events.len(), before);
}
