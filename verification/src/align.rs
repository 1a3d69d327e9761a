//! The 64-byte alignment rules of the uniform-buffer path.

use vstd::prelude::*;

verus! {

/// The allocator's uniform-buffer alignment, in bytes.
pub const UNIFORM_ALIGNMENT: u64 = 64;

/// The smallest multiple of 64 that is greater than or equal to `size`.
pub open spec fn round_up_to_64(size: int) -> int {
    if size % 64 == 0 {
        size
    } else {
        size - size % 64 + 64
    }
}

/// `round_up_to_64` is the smallest multiple of 64 at or above its argument.
pub proof fn lemma_round_up_to_64_minimal(size: int)
    requires
        0 <= size,
    ensures
        round_up_to_64(size) % 64 == 0,
        size <= round_up_to_64(size),
        round_up_to_64(size) < size + 64,
        forall|m: int| #[trigger] (m % 64) == 0 && size <= m ==> round_up_to_64(size) <= m,
{
    assert forall|m: int| #[trigger] (m % 64) == 0 && size <= m implies round_up_to_64(size) <= m by {
        if size % 64 != 0 {
            assert(m % 64 == 0 && m > size - size % 64 ==> m >= size - size % 64 + 64)
                by (nonlinear_arith);
        }
    }
}

/// The next multiple of 64 strictly above `offset`: the uniform-range
/// placement rule for packing several uniform blocks into one buffer.
pub fn aligne_offset(offset: u64) -> (r: u64)
    requires
        offset + 64 <= u64::MAX,
    ensures
        r == offset - offset % 64 + 64,
        r % 64 == 0,
        offset < r <= offset + 64,
{
    (offset - offset % UNIFORM_ALIGNMENT) + UNIFORM_ALIGNMENT
}

/// Rounds a uniform buffer's requested size up to the allocator's 64-byte
/// alignment; any other usage keeps the requested size.
pub fn realized_buffer_size(size: u64, uniform: bool) -> (r: u64)
    requires
        size + 64 <= u64::MAX,
    ensures
        uniform ==> r == round_up_to_64(size as int),
        !uniform ==> r == size,
{
    if uniform && size % UNIFORM_ALIGNMENT != 0 {
        (size - size % UNIFORM_ALIGNMENT) + UNIFORM_ALIGNMENT
    } else {
        size
    }
}

} // verus!
