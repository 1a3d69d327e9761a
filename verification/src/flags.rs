//! Plain-value forms of the driver-level flag words, layouts and enums the
//! engine's decisions read. The numeric values are the wire values of the
//! graphics API and of the memory allocator; the shader- and driver-facing
//! side decodes them bit-for-bit, so they are protocol, not convenience.

use vstd::prelude::*;

verus! {

// Buffer usage bits.
pub const BUFFER_USAGE_TRANSFER_SRC: u32 = 0x1;
pub const BUFFER_USAGE_TRANSFER_DST: u32 = 0x2;
pub const BUFFER_USAGE_UNIFORM_BUFFER: u32 = 0x10;
pub const BUFFER_USAGE_STORAGE_BUFFER: u32 = 0x20;
pub const BUFFER_USAGE_INDEX_BUFFER: u32 = 0x40;
pub const BUFFER_USAGE_VERTEX_BUFFER: u32 = 0x80;

// Image usage bits.
pub const IMAGE_USAGE_TRANSFER_SRC: u32 = 0x1;
pub const IMAGE_USAGE_TRANSFER_DST: u32 = 0x2;
pub const IMAGE_USAGE_SAMPLED: u32 = 0x4;
pub const IMAGE_USAGE_STORAGE: u32 = 0x8;
pub const IMAGE_USAGE_COLOR_ATTACHMENT: u32 = 0x10;
pub const IMAGE_USAGE_DEPTH_STENCIL_ATTACHMENT: u32 = 0x20;

// Queue capability bits of a queue family.
pub const QUEUE_GRAPHICS: u32 = 0x1;
pub const QUEUE_COMPUTE: u32 = 0x2;
pub const QUEUE_TRANSFER: u32 = 0x4;
pub const QUEUE_SPARSE_BINDING: u32 = 0x8;

// Allocation-intent bits of the memory pool.
pub const ALLOC_FAST_DEVICE_ACCESS: u8 = 0x01;
pub const ALLOC_HOST_ACCESS: u8 = 0x02;
pub const ALLOC_DOWNLOAD: u8 = 0x04;
pub const ALLOC_UPLOAD: u8 = 0x08;
pub const ALLOC_TRANSIENT: u8 = 0x10;

// Image aspect bits.
pub const ASPECT_COLOR: u32 = 0x1;
pub const ASPECT_DEPTH: u32 = 0x2;
pub const ASPECT_STENCIL: u32 = 0x4;

// Descriptor types.
pub const DESCRIPTOR_TYPE_COMBINED_IMAGE_SAMPLER: u32 = 1;
pub const DESCRIPTOR_TYPE_STORAGE_IMAGE: u32 = 3;
pub const DESCRIPTOR_TYPE_UNIFORM_BUFFER: u32 = 6;

// Shader stage bits.
pub const SHADER_STAGE_VERTEX: u32 = 0x1;
pub const SHADER_STAGE_FRAGMENT: u32 = 0x10;
pub const SHADER_STAGE_COMPUTE: u32 = 0x20;

// Image format wire values the engine selects between.
pub const FORMAT_UNDEFINED: u32 = 0;
pub const FORMAT_R16G16B16A16_SFLOAT: u32 = 97;
pub const FORMAT_D32_SFLOAT: u32 = 126;
pub const FORMAT_D16_UNORM_S8_UINT: u32 = 128;
pub const FORMAT_D24_UNORM_S8_UINT: u32 = 129;
pub const FORMAT_D32_SFLOAT_S8_UINT: u32 = 130;

// Format feature bits of a physical device, per format.
pub const FORMAT_FEATURE_DEPTH_STENCIL_ATTACHMENT: u32 = 0x200;

// Command pool creation bits and command buffer usage bits.
pub const COMMAND_POOL_TRANSIENT: u32 = 0x1;
pub const COMMAND_POOL_RESET_COMMAND_BUFFER: u32 = 0x2;
pub const COMMAND_BUFFER_USAGE_ONE_TIME_SUBMIT: u32 = 0x1;
pub const COMMAND_BUFFER_USAGE_SIMULTANEOUS_USE: u32 = 0x4;

/// How a resource is shared between queue families.
#[derive(Clone, Copy, Debug, PartialEq, Eq, Structural)]
pub enum SharingMode {
    Exclusive,
    Concurrent,
}

/// The layouts an image moves through in this engine. The GPU-side layout
/// must always match this field; every transition goes through an explicit
/// barrier-recording operation that updates it.
#[derive(Clone, Copy, Debug, PartialEq, Eq, Structural)]
pub enum ImageLayout {
    Undefined,
    General,
    ColorAttachmentOptimal,
    DepthStencilAttachmentOptimal,
    DepthAttachmentOptimal,
    TransferSrcOptimal,
    TransferDstOptimal,
    PresentSrc,
}

/// True when an allocation made with `alloc_flags` is host-accessible, so
/// direct host reads and writes of the block are allowed.
pub open spec fn spec_host_visible(alloc_flags: u8) -> bool {
    alloc_flags & (ALLOC_HOST_ACCESS | ALLOC_DOWNLOAD | ALLOC_UPLOAD) != 0
}

/// Whether the allocation-intent bits ask for host access: the allocator
/// guarantees host memory operations exactly for these requests.
pub fn host_visible(alloc_flags: u8) -> (r: bool)
    ensures
        r == spec_host_visible(alloc_flags),
{
    alloc_flags & (ALLOC_HOST_ACCESS | ALLOC_DOWNLOAD | ALLOC_UPLOAD) != 0
}

/// The allocator's host-visibility guarantee per intent: upload, download
/// and host-access requests are host-accessible; a pure fast-device-access
/// request is not.
pub proof fn lemma_alloc_intent_visibility()
    ensures
        spec_host_visible(ALLOC_UPLOAD),
        spec_host_visible(ALLOC_DOWNLOAD),
        spec_host_visible(ALLOC_HOST_ACCESS),
        !spec_host_visible(ALLOC_FAST_DEVICE_ACCESS),
{
    assert(ALLOC_UPLOAD & (ALLOC_HOST_ACCESS | ALLOC_DOWNLOAD | ALLOC_UPLOAD) != 0)
        by (bit_vector);
    assert(ALLOC_DOWNLOAD & (ALLOC_HOST_ACCESS | ALLOC_DOWNLOAD | ALLOC_UPLOAD) != 0)
        by (bit_vector);
    assert(ALLOC_HOST_ACCESS & (ALLOC_HOST_ACCESS | ALLOC_DOWNLOAD | ALLOC_UPLOAD) != 0)
        by (bit_vector);
    assert(ALLOC_FAST_DEVICE_ACCESS & (ALLOC_HOST_ACCESS | ALLOC_DOWNLOAD | ALLOC_UPLOAD)
        == 0) by (bit_vector);
}

} // verus!
