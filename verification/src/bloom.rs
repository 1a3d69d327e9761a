//! The bloom compute scheduler: a fixed linear sequence of compute
//! dispatches over a mip chain — prefilter, ping-pong downsample, upsample,
//! apply — each addressed by a single packed 32-bit constant word and
//! separated from the next by a compute-to-compute memory barrier.

use vstd::prelude::*;

use crate::descriptor::{DescriptorImageInfo, DescriptorSet};
use crate::device::{Device, Event, device_identity};
use crate::flags::ImageLayout;
use crate::geometry::{mip_dim, dispatch_groups, get_mip_size, Extent2d, Extent3d};
use crate::image::Image;

verus! {

/// Number of mip levels in the bloom chain.
pub const BLOOM_MIP_COUNT: usize = 7;

/// Dispatch mode: read the frame image, keep only bright texels.
pub const MODE_PREFILTER: u32 = 0;

/// Dispatch mode: blur one mip level down into the next.
pub const MODE_DOWNSAMPLE: u32 = 1;

/// Dispatch mode: first step of the upward pass, from the coarsest level.
pub const MODE_UPSAMPLE_FIRST: u32 = 2;

/// Dispatch mode: accumulate one level into the next finer one.
pub const MODE_UPSAMPLE: u32 = 3;

/// Dispatch mode: composite the bloom result over the frame image.
pub const MODE_APPLY: u32 = 4;

/// The push-constant payload of every bloom dispatch: one packed word.
#[derive(Clone, Copy, Debug, PartialEq, Eq, Structural)]
pub struct BloomConstant {
    pub mode_lod_in_out_bloom: u32,
}

impl Default for BloomConstant {
    /// An all-zero word, as the payload starts out before the first pass.
    fn default() -> (r: BloomConstant)
        ensures
            r.mode_lod_in_out_bloom == 0,
    {
        BloomConstant { mode_lod_in_out_bloom: 0 }
    }
}

/// The addressing word, MSB to LSB: mode (4 bits) | source mip (7 bits) |
/// source image index (7 bits) | destination image index (7 bits) |
/// destination-is-bloom-buffer flag (7 bits). The compute shader decodes
/// this word bit-for-bit, so the layout is a protocol, not a convenience.
pub open spec fn packed_word(
    mode: u32,
    lod: u32,
    input_index: u32,
    output_index: u32,
    bloom_flag: u32,
) -> u32 {
    (mode << 28) | (lod << 21) | (input_index << 14) | (output_index << 7) | bloom_flag
}

/// As long as every field is within its declared width, each field of a
/// packed word can be read back unchanged: the encoding loses nothing.
pub proof fn lemma_packed_word_fields(
    mode: u32,
    lod: u32,
    input_index: u32,
    output_index: u32,
    bloom_flag: u32,
)
    requires
        mode < 16,
        lod < 128,
        input_index < 128,
        output_index < 128,
        bloom_flag < 128,
    ensures
        packed_word(mode, lod, input_index, output_index, bloom_flag) >> 28 == mode,
        (packed_word(mode, lod, input_index, output_index, bloom_flag) >> 21) & 0x7f == lod,
        (packed_word(mode, lod, input_index, output_index, bloom_flag) >> 14) & 0x7f
            == input_index,
        (packed_word(mode, lod, input_index, output_index, bloom_flag) >> 7) & 0x7f
            == output_index,
        packed_word(mode, lod, input_index, output_index, bloom_flag) & 0x7f == bloom_flag,
{
    let w = packed_word(mode, lod, input_index, output_index, bloom_flag);
    assert({
        &&& w >> 28 == mode
        &&& (w >> 21) & 0x7f == lod
        &&& (w >> 14) & 0x7f == input_index
        &&& (w >> 7) & 0x7f == output_index
        &&& w & 0x7f == bloom_flag
    }) by (bit_vector)
        requires
            w == (mode << 28) | (lod << 21) | (input_index << 14) | (output_index << 7)
                | bloom_flag,
            mode < 16,
            lod < 128,
            input_index < 128,
            output_index < 128,
            bloom_flag < 128,
    ;
}

/// Packs the five addressing fields into the dispatch word.
pub fn pack_bloom_word(
    mode: u32,
    lod: u32,
    input_index: u32,
    output_index: u32,
    bloom_flag: u32,
) -> (r: u32)
    ensures
        r == packed_word(mode, lod, input_index, output_index, bloom_flag),
{
    (mode << 28u32) | (lod << 21u32) | (input_index << 14u32) | (output_index << 7u32)
        | bloom_flag
}

/// One recorded action of the bloom sequence, in the order the command
/// buffer receives them.
#[derive(Clone, Copy, Debug, PartialEq, Eq, Structural)]
pub enum BloomStep {
    /// Image barrier on the frame image, presentation layout to general,
    /// synchronizing color-attachment output against compute work.
    AcquireFrameImage,
    /// One compute dispatch: the packed addressing word delivered as the
    /// push constant, and the grid that covers the target region.
    Dispatch { word: u32, group_count_x: u32, group_count_y: u32 },
    /// The memory barrier after every dispatch, ordering this pass's
    /// compute writes before the next pass's compute reads.
    DispatchBarrier,
    /// Image barrier on the frame image, general back to presentation
    /// layout, synchronized against the bottom of the pipe.
    ReleaseFrameImage,
}

/// One dispatch covering a `width` by `height` texel region, and the
/// barrier that always follows it.
pub open spec fn dispatch_at(word: u32, width: int, height: int) -> Seq<BloomStep> {
    seq![
        BloomStep::Dispatch {
            word,
            group_count_x: ((width + 7) / 8) as u32,
            group_count_y: ((height + 3) / 4) as u32,
        },
        BloomStep::DispatchBarrier,
    ]
}

/// The downsample steps for mip levels 1 through `level`: at each level a
/// ping dispatch writing intermediate image one, then a pong dispatch
/// writing intermediate image zero — the roles swap so that no dispatch
/// reads the region it is writing.
pub open spec fn downsample_steps(base: Extent3d, level: int) -> Seq<BloomStep>
    decreases level,
{
    if level < 1 {
        Seq::empty()
    } else {
        let n = BLOOM_MIP_COUNT as u32;
        let w = mip_dim(base.width as int, level as nat);
        let h = mip_dim(base.height as int, level as nat);
        downsample_steps(base, level - 1)
            + dispatch_at(
                packed_word(MODE_DOWNSAMPLE, (level - 1) as u32, 0, (1 * n + level) as u32, 0),
                w,
                h,
            )
            + dispatch_at(
                packed_word(MODE_DOWNSAMPLE, level as u32, 1, (0 * n + level) as u32, 0),
                w,
                h,
            )
    }
}

/// The upsample steps for mip levels `hi` down through `lo`, descending:
/// each accumulates into destination slot `2 * BLOOM_MIP_COUNT + level`
/// with the bloom-buffer flag set.
pub open spec fn upsample_steps(base: Extent3d, hi: int, lo: int) -> Seq<BloomStep>
    decreases hi + 1 - lo,
{
    if hi < lo {
        Seq::empty()
    } else {
        let n = BLOOM_MIP_COUNT as u32;
        upsample_steps(base, hi, lo + 1)
            + dispatch_at(
                packed_word(MODE_UPSAMPLE, lo as u32, 0, (2 * n + lo) as u32, 2),
                mip_dim(base.width as int, lo as nat),
                mip_dim(base.height as int, lo as nat),
            )
    }
}

/// The whole per-frame bloom sequence over a bloom chain with base extent
/// `bloom_extent` and a frame image of `surface_extent`: acquire the frame
/// image, prefilter at mip 0, downsample levels 1 through N-1 (ping and
/// pong each), one first upsample at the coarsest level, upsample levels
/// N-2 down through 0, apply at full resolution, release the frame image.
pub open spec fn bloom_schedule_spec(bloom_extent: Extent3d, surface_extent: Extent2d) -> Seq<
    BloomStep,
> {
    let n = BLOOM_MIP_COUNT as u32;
    seq![BloomStep::AcquireFrameImage]
        + dispatch_at(
            packed_word(MODE_PREFILTER, 0, 3, 0, 0),
            bloom_extent.width as int,
            bloom_extent.height as int,
        )
        + downsample_steps(bloom_extent, BLOOM_MIP_COUNT - 1)
        + dispatch_at(
            packed_word(MODE_UPSAMPLE_FIRST, (BLOOM_MIP_COUNT - 2) as u32, 0, (3 * n - 1) as u32, 0),
            mip_dim(bloom_extent.width as int, (BLOOM_MIP_COUNT - 1) as nat),
            mip_dim(bloom_extent.height as int, (BLOOM_MIP_COUNT - 1) as nat),
        )
        + upsample_steps(bloom_extent, BLOOM_MIP_COUNT - 2, 0)
        + dispatch_at(
            packed_word(MODE_APPLY, 0, 3, (3 * n) as u32, 2),
            surface_extent.width as int,
            surface_extent.height as int,
        )
        + seq![BloomStep::ReleaseFrameImage]
}

/// Records one dispatch with its trailing barrier, sized for `size`.
fn record_dispatch(steps: &mut Vec<BloomStep>, word: u32, size: Extent2d)
    ensures
        final(steps)@ == old(steps)@ + dispatch_at(word, size.width as int, size.height as int),
{
    let (group_count_x, group_count_y) = dispatch_groups(size);
    steps.push(BloomStep::Dispatch { word, group_count_x, group_count_y });
    steps.push(BloomStep::DispatchBarrier);
    assert(steps@ =~= old(steps)@ + dispatch_at(word, size.width as int, size.height as int));
}

/// Builds the per-frame bloom sequence. The caller records the returned
/// steps, in order, into a command buffer that is already mid-recording.
#[verifier::loop_isolation(false)]
pub fn bloom_schedule(bloom_extent: &Extent3d, surface_extent: Extent2d) -> (steps: Vec<
    BloomStep,
>)
    ensures
        steps@ == bloom_schedule_spec(*bloom_extent, surface_extent),
{
    let n = BLOOM_MIP_COUNT as u32;
    let mut steps: Vec<BloomStep> = Vec::new();

    // Graphics-to-compute handover: frame image to general layout.
    steps.push(BloomStep::AcquireFrameImage);

    // Prefilter reads the frame image (slot 3) into bloom slot 0 at mip 0.
    let ghost prefix_prefilter = steps@;
    record_dispatch(
        &mut steps,
        pack_bloom_word(MODE_PREFILTER, 0, 3, 0, 0),
        Extent2d { width: bloom_extent.width, height: bloom_extent.height },
    );

    // Downsample each level, ping then pong.
    let ghost prefix_down = steps@;
    let mut level: usize = 1;
    while level < BLOOM_MIP_COUNT
        invariant
            1 <= level <= BLOOM_MIP_COUNT,
            steps@ == prefix_down + downsample_steps(*bloom_extent, level - 1),
        decreases BLOOM_MIP_COUNT - level,
    {
        let mip_size = get_mip_size(level, bloom_extent);
        record_dispatch(
            &mut steps,
            pack_bloom_word(MODE_DOWNSAMPLE, (level - 1) as u32, 0, 1 * n + level as u32, 0),
            mip_size,
        );
        record_dispatch(
            &mut steps,
            pack_bloom_word(MODE_DOWNSAMPLE, level as u32, 1, 0 * n + level as u32, 0),
            mip_size,
        );
        assert(steps@ =~= prefix_down + downsample_steps(*bloom_extent, level as int));
        level = level + 1;
    }

    // First upsample, sized for the coarsest mip.
    let first_up_size = get_mip_size(BLOOM_MIP_COUNT - 1, bloom_extent);
    record_dispatch(
        &mut steps,
        pack_bloom_word(MODE_UPSAMPLE_FIRST, (BLOOM_MIP_COUNT - 2) as u32, 0, 3 * n - 1, 0),
        first_up_size,
    );

    // Upsample the remaining levels, descending to mip 0.
    let ghost prefix_up = steps@;
    proof {
        assert(steps@ =~= prefix_up + upsample_steps(
            *bloom_extent,
            BLOOM_MIP_COUNT - 2,
            BLOOM_MIP_COUNT - 1,
        ));
    }
    let mut remaining: usize = BLOOM_MIP_COUNT - 1;
    while remaining > 0
        invariant
            remaining <= BLOOM_MIP_COUNT - 1,
            steps@ == prefix_up + upsample_steps(
                *bloom_extent,
                BLOOM_MIP_COUNT - 2,
                remaining as int,
            ),
        decreases remaining,
    {
        let level = remaining - 1;
        let mip_size = get_mip_size(level, bloom_extent);
        record_dispatch(
            &mut steps,
            pack_bloom_word(MODE_UPSAMPLE, level as u32, 0, 2 * n + level as u32, 2),
            mip_size,
        );
        assert(steps@ =~= prefix_up + upsample_steps(
            *bloom_extent,
            BLOOM_MIP_COUNT - 2,
            level as int,
        ));
        remaining = level;
    }

    // Apply the accumulated bloom over the full-resolution frame image.
    record_dispatch(
        &mut steps,
        pack_bloom_word(MODE_APPLY, 0, 3, 3 * n, 2),
        surface_extent,
    );

    // Compute-to-presentation handover: frame image back to present layout.
    steps.push(BloomStep::ReleaseFrameImage);

    proof {
        assert(steps@ =~= bloom_schedule_spec(*bloom_extent, surface_extent));
    }
    steps
}

/// True of a step that is a dispatch whose packed word carries `mode` in
/// its four most significant bits.
pub open spec fn is_dispatch_with_mode(step: BloomStep, mode: u32) -> bool {
    step matches BloomStep::Dispatch { word, .. } && word >> 28 == mode
}

/// The number of dispatches in `s` whose mode field is `mode`.
pub open spec fn count_mode(s: Seq<BloomStep>, mode: u32) -> int
    decreases s.len(),
{
    if s.len() == 0 {
        0
    } else {
        count_mode(s.drop_last(), mode) + if is_dispatch_with_mode(s.last(), mode) {
            1int
        } else {
            0
        }
    }
}

proof fn lemma_count_mode_concat(a: Seq<BloomStep>, b: Seq<BloomStep>, mode: u32)
    ensures
        count_mode(a + b, mode) == count_mode(a, mode) + count_mode(b, mode),
    decreases b.len(),
{
    if b.len() == 0 {
        assert(a + b =~= a);
    } else {
        lemma_count_mode_concat(a, b.drop_last(), mode);
        assert((a + b).drop_last() =~= a + b.drop_last());
    }
}

proof fn lemma_count_mode_dispatch_at(word: u32, width: int, height: int, mode: u32)
    ensures
        count_mode(dispatch_at(word, width, height), mode) == if word >> 28 == mode {
            1int
        } else {
            0
        },
{
    let s = dispatch_at(word, width, height);
    assert(count_mode(Seq::<BloomStep>::empty(), mode) == 0);
    assert(s.drop_last().drop_last() =~= Seq::<BloomStep>::empty());
    assert(count_mode(s.drop_last(), mode) == if is_dispatch_with_mode(
        s.drop_last().last(),
        mode,
    ) {
        1int
    } else {
        0
    });
    assert(s.drop_last().last() == s[0]);
    assert(s.last() == BloomStep::DispatchBarrier);
}

proof fn lemma_count_mode_single(step: BloomStep, mode: u32)
    ensures
        count_mode(seq![step], mode) == if is_dispatch_with_mode(step, mode) {
            1int
        } else {
            0
        },
{
    assert(count_mode(Seq::<BloomStep>::empty(), mode) == 0);
    assert(seq![step].drop_last() =~= Seq::<BloomStep>::empty());
}

proof fn lemma_count_mode_downsample(base: Extent3d, level: int, mode: u32)
    requires
        level <= 120,
    ensures
        count_mode(downsample_steps(base, level), mode) == if mode == MODE_DOWNSAMPLE && level
            >= 1 {
            2 * level
        } else {
            0
        },
    decreases level,
{
    if level < 1 {
    } else {
        let n = BLOOM_MIP_COUNT as u32;
        let w = mip_dim(base.width as int, level as nat);
        let h = mip_dim(base.height as int, level as nat);
        let ping = packed_word(MODE_DOWNSAMPLE, (level - 1) as u32, 0, (1 * n + level) as u32, 0);
        let pong = packed_word(MODE_DOWNSAMPLE, level as u32, 1, (0 * n + level) as u32, 0);
        lemma_count_mode_downsample(base, level - 1, mode);
        lemma_packed_word_fields(
            MODE_DOWNSAMPLE,
            (level - 1) as u32,
            0,
            (1 * n + level) as u32,
            0,
        );
        lemma_packed_word_fields(MODE_DOWNSAMPLE, level as u32, 1, (0 * n + level) as u32, 0);
        lemma_count_mode_concat(
            downsample_steps(base, level - 1),
            dispatch_at(ping, w, h),
            mode,
        );
        lemma_count_mode_concat(
            downsample_steps(base, level - 1) + dispatch_at(ping, w, h),
            dispatch_at(pong, w, h),
            mode,
        );
        lemma_count_mode_dispatch_at(ping, w, h, mode);
        lemma_count_mode_dispatch_at(pong, w, h, mode);
    }
}

proof fn lemma_count_mode_upsample(base: Extent3d, hi: int, lo: int, mode: u32)
    requires
        0 <= lo,
        hi <= 113,
    ensures
        count_mode(upsample_steps(base, hi, lo), mode) == if mode == MODE_UPSAMPLE && lo <= hi {
            hi + 1 - lo
        } else {
            0
        },
    decreases hi + 1 - lo,
{
    if hi < lo {
    } else {
        let n = BLOOM_MIP_COUNT as u32;
        let w = mip_dim(base.width as int, lo as nat);
        let h = mip_dim(base.height as int, lo as nat);
        let word = packed_word(MODE_UPSAMPLE, lo as u32, 0, (2 * n + lo) as u32, 2);
        lemma_count_mode_upsample(base, hi, lo + 1, mode);
        lemma_packed_word_fields(MODE_UPSAMPLE, lo as u32, 0, (2 * n + lo) as u32, 2);
        lemma_count_mode_concat(upsample_steps(base, hi, lo + 1), dispatch_at(word, w, h), mode);
        lemma_count_mode_dispatch_at(word, w, h, mode);
    }
}

proof fn lemma_count_mode_schedule(bloom_extent: Extent3d, surface_extent: Extent2d, mode: u32)
    ensures
        count_mode(bloom_schedule_spec(bloom_extent, surface_extent), mode) == (if mode
            == MODE_PREFILTER {
            1int
        } else {
            0
        }) + (if mode == MODE_DOWNSAMPLE {
            2 * (BLOOM_MIP_COUNT - 1)
        } else {
            0
        }) + (if mode == MODE_UPSAMPLE_FIRST {
            1int
        } else {
            0
        }) + (if mode == MODE_UPSAMPLE {
            BLOOM_MIP_COUNT - 1
        } else {
            0
        }) + (if mode == MODE_APPLY {
            1int
        } else {
            0
        }),
{
    let n = BLOOM_MIP_COUNT as u32;
    let bw = bloom_extent.width as int;
    let bh = bloom_extent.height as int;
    let pre = packed_word(MODE_PREFILTER, 0, 3, 0, 0);
    let first = packed_word(MODE_UPSAMPLE_FIRST, (BLOOM_MIP_COUNT - 2) as u32, 0, (3 * n
        - 1) as u32, 0);
    let apply = packed_word(MODE_APPLY, 0, 3, (3 * n) as u32, 2);
    let fw = mip_dim(bw, (BLOOM_MIP_COUNT - 1) as nat);
    let fh = mip_dim(bh, (BLOOM_MIP_COUNT - 1) as nat);
    let s1 = seq![BloomStep::AcquireFrameImage];
    let s2 = dispatch_at(pre, bw, bh);
    let s3 = downsample_steps(bloom_extent, BLOOM_MIP_COUNT - 1);
    let s4 = dispatch_at(first, fw, fh);
    let s5 = upsample_steps(bloom_extent, BLOOM_MIP_COUNT - 2, 0);
    let s6 = dispatch_at(apply, surface_extent.width as int, surface_extent.height as int);
    let s7 = seq![BloomStep::ReleaseFrameImage];
    lemma_packed_word_fields(MODE_PREFILTER, 0, 3, 0, 0);
    lemma_packed_word_fields(MODE_UPSAMPLE_FIRST, (BLOOM_MIP_COUNT - 2) as u32, 0, (3 * n
        - 1) as u32, 0);
    lemma_packed_word_fields(MODE_APPLY, 0, 3, (3 * n) as u32, 2);
    lemma_count_mode_single(BloomStep::AcquireFrameImage, mode);
    lemma_count_mode_dispatch_at(pre, bw, bh, mode);
    lemma_count_mode_downsample(bloom_extent, BLOOM_MIP_COUNT - 1, mode);
    lemma_count_mode_dispatch_at(first, fw, fh, mode);
    lemma_count_mode_upsample(bloom_extent, BLOOM_MIP_COUNT - 2, 0, mode);
    lemma_count_mode_dispatch_at(
        apply,
        surface_extent.width as int,
        surface_extent.height as int,
        mode,
    );
    lemma_count_mode_single(BloomStep::ReleaseFrameImage, mode);
    lemma_count_mode_concat(s1, s2, mode);
    lemma_count_mode_concat(s1 + s2, s3, mode);
    lemma_count_mode_concat(s1 + s2 + s3, s4, mode);
    lemma_count_mode_concat(s1 + s2 + s3 + s4, s5, mode);
    lemma_count_mode_concat(s1 + s2 + s3 + s4 + s5, s6, mode);
    lemma_count_mode_concat(s1 + s2 + s3 + s4 + s5 + s6, s7, mode);
}

/// Per-frame pass ordering counts: the downsample stage issues exactly
/// 2 * (BLOOM_MIP_COUNT - 1) dispatches (a ping and a pong per level from
/// 1 through N-1), the descending upsample stage issues exactly
/// BLOOM_MIP_COUNT - 1 dispatches after the single first-upsample, and
/// exactly one prefilter and one apply dispatch occur.
pub proof fn lemma_bloom_pass_counts(bloom_extent: Extent3d, surface_extent: Extent2d)
    ensures
        count_mode(bloom_schedule_spec(bloom_extent, surface_extent), MODE_PREFILTER) == 1,
        count_mode(bloom_schedule_spec(bloom_extent, surface_extent), MODE_DOWNSAMPLE) == 2 * (
        BLOOM_MIP_COUNT - 1),
        count_mode(bloom_schedule_spec(bloom_extent, surface_extent), MODE_UPSAMPLE_FIRST) == 1,
        count_mode(bloom_schedule_spec(bloom_extent, surface_extent), MODE_UPSAMPLE)
            == BLOOM_MIP_COUNT - 1,
        count_mode(bloom_schedule_spec(bloom_extent, surface_extent), MODE_APPLY) == 1,
{
    lemma_count_mode_schedule(bloom_extent, surface_extent, MODE_PREFILTER);
    lemma_count_mode_schedule(bloom_extent, surface_extent, MODE_DOWNSAMPLE);
    lemma_count_mode_schedule(bloom_extent, surface_extent, MODE_UPSAMPLE_FIRST);
    lemma_count_mode_schedule(bloom_extent, surface_extent, MODE_UPSAMPLE);
    lemma_count_mode_schedule(bloom_extent, surface_extent, MODE_APPLY);
}

/// True when every dispatch in `s` is immediately followed by the
/// compute-to-compute memory barrier of the next step.
pub open spec fn each_dispatch_barriered(s: Seq<BloomStep>) -> bool {
    forall|k: int|
        0 <= k < s.len() && (#[trigger] s[k]) is Dispatch ==> k + 1 < s.len() && s[k
            + 1] is DispatchBarrier
}

proof fn lemma_edb_concat(a: Seq<BloomStep>, b: Seq<BloomStep>)
    requires
        each_dispatch_barriered(a),
        each_dispatch_barriered(b),
    ensures
        each_dispatch_barriered(a + b),
{
    let s = a + b;
    assert forall|k: int| 0 <= k < s.len() && (#[trigger] s[k]) is Dispatch implies k + 1
        < s.len() && s[k + 1] is DispatchBarrier by {
        if k < a.len() {
            assert(a[k] is Dispatch);
        } else {
            assert(b[k - a.len()] is Dispatch);
        }
    }
}

proof fn lemma_edb_downsample(base: Extent3d, level: int)
    ensures
        each_dispatch_barriered(downsample_steps(base, level)),
    decreases level,
{
    if level < 1 {
    } else {
        let n = BLOOM_MIP_COUNT as u32;
        let w = mip_dim(base.width as int, level as nat);
        let h = mip_dim(base.height as int, level as nat);
        let ping = packed_word(MODE_DOWNSAMPLE, (level - 1) as u32, 0, (1 * n + level) as u32, 0);
        let pong = packed_word(MODE_DOWNSAMPLE, level as u32, 1, (0 * n + level) as u32, 0);
        lemma_edb_downsample(base, level - 1);
        lemma_edb_concat(downsample_steps(base, level - 1), dispatch_at(ping, w, h));
        lemma_edb_concat(
            downsample_steps(base, level - 1) + dispatch_at(ping, w, h),
            dispatch_at(pong, w, h),
        );
    }
}

proof fn lemma_edb_upsample(base: Extent3d, hi: int, lo: int)
    ensures
        each_dispatch_barriered(upsample_steps(base, hi, lo)),
    decreases hi + 1 - lo,
{
    if hi < lo {
    } else {
        let n = BLOOM_MIP_COUNT as u32;
        let word = packed_word(MODE_UPSAMPLE, lo as u32, 0, (2 * n + lo) as u32, 2);
        lemma_edb_upsample(base, hi, lo + 1);
        lemma_edb_concat(
            upsample_steps(base, hi, lo + 1),
            dispatch_at(word, mip_dim(base.width as int, lo as nat), mip_dim(
                base.height as int,
                lo as nat,
            )),
        );
    }
}

/// Barrier discipline: the schedule opens by taking the frame image into
/// compute hands, closes by handing it back to presentation, and no
/// dispatch is ever recorded without a memory barrier right after it.
pub proof fn lemma_bloom_barrier_discipline(bloom_extent: Extent3d, surface_extent: Extent2d)
    ensures
        each_dispatch_barriered(bloom_schedule_spec(bloom_extent, surface_extent)),
        bloom_schedule_spec(bloom_extent, surface_extent).first()
            == BloomStep::AcquireFrameImage,
        bloom_schedule_spec(bloom_extent, surface_extent).last()
            == BloomStep::ReleaseFrameImage,
{
    let n = BLOOM_MIP_COUNT as u32;
    let bw = bloom_extent.width as int;
    let bh = bloom_extent.height as int;
    let pre = packed_word(MODE_PREFILTER, 0, 3, 0, 0);
    let first = packed_word(MODE_UPSAMPLE_FIRST, (BLOOM_MIP_COUNT - 2) as u32, 0, (3 * n
        - 1) as u32, 0);
    let apply = packed_word(MODE_APPLY, 0, 3, (3 * n) as u32, 2);
    let fw = mip_dim(bw, (BLOOM_MIP_COUNT - 1) as nat);
    let fh = mip_dim(bh, (BLOOM_MIP_COUNT - 1) as nat);
    let s1 = seq![BloomStep::AcquireFrameImage];
    let s2 = dispatch_at(pre, bw, bh);
    let s3 = downsample_steps(bloom_extent, BLOOM_MIP_COUNT - 1);
    let s4 = dispatch_at(first, fw, fh);
    let s5 = upsample_steps(bloom_extent, BLOOM_MIP_COUNT - 2, 0);
    let s6 = dispatch_at(apply, surface_extent.width as int, surface_extent.height as int);
    let s7 = seq![BloomStep::ReleaseFrameImage];
    lemma_edb_downsample(bloom_extent, BLOOM_MIP_COUNT - 1);
    lemma_edb_upsample(bloom_extent, BLOOM_MIP_COUNT - 2, 0);
    lemma_edb_concat(s1, s2);
    lemma_edb_concat(s1 + s2, s3);
    lemma_edb_concat(s1 + s2 + s3, s4);
    lemma_edb_concat(s1 + s2 + s3 + s4, s5);
    lemma_edb_concat(s1 + s2 + s3 + s4 + s5, s6);
    lemma_edb_concat(s1 + s2 + s3 + s4 + s5 + s6, s7);
    let sched = bloom_schedule_spec(bloom_extent, surface_extent);
    assert(sched[0] == BloomStep::AcquireFrameImage);
    assert(sched.last() == BloomStep::ReleaseFrameImage);
}

/// The storage-image slot table the bloom shader indexes into: slot
/// `k < 3 * BLOOM_MIP_COUNT` holds mip `k % BLOOM_MIP_COUNT` of
/// intermediate image `k / BLOOM_MIP_COUNT`, and the one slot after them
/// holds the frame image itself.
pub fn bloom_output_image_infos(bloom_images: &Vec<Image>, swapchain_image_view: u64) -> (r:
    Vec<DescriptorImageInfo>)
    requires
        bloom_images@.len() == 3,
        forall|i: int|
            0 <= i < 3 ==> (#[trigger] bloom_images@[i]).mip_image_views@.len()
                == BLOOM_MIP_COUNT,
    ensures
        r@.len() == 3 * BLOOM_MIP_COUNT + 1,
        forall|k: int|
            0 <= k < 3 * BLOOM_MIP_COUNT ==> (#[trigger] r@[k]) == (DescriptorImageInfo {
                image_view: bloom_images@[k / BLOOM_MIP_COUNT as int].mip_image_views@[k
                    % BLOOM_MIP_COUNT as int].handle,
                sampler: None,
                image_layout: ImageLayout::General,
            }),
        r@[3 * BLOOM_MIP_COUNT as int] == (DescriptorImageInfo {
            image_view: swapchain_image_view,
            sampler: None,
            image_layout: ImageLayout::General,
        }),
{
    let mut infos: Vec<DescriptorImageInfo> = Vec::new();
    let mut i: usize = 0;
    while i < 3
        invariant
            i <= 3,
            bloom_images@.len() == 3,
            forall|n: int|
                0 <= n < 3 ==> (#[trigger] bloom_images@[n]).mip_image_views@.len()
                    == BLOOM_MIP_COUNT,
            infos@.len() == i * BLOOM_MIP_COUNT,
            forall|k: int|
                0 <= k < infos@.len() ==> (#[trigger] infos@[k]) == (DescriptorImageInfo {
                    image_view: bloom_images@[k / BLOOM_MIP_COUNT as int].mip_image_views@[k
                        % BLOOM_MIP_COUNT as int].handle,
                    sampler: None,
                    image_layout: ImageLayout::General,
                }),
        decreases 3 - i,
    {
        let mut j: usize = 0;
        while j < BLOOM_MIP_COUNT
            invariant
                i < 3,
                j <= BLOOM_MIP_COUNT,
                bloom_images@.len() == 3,
                forall|n: int|
                    0 <= n < 3 ==> (#[trigger] bloom_images@[n]).mip_image_views@.len()
                        == BLOOM_MIP_COUNT,
                infos@.len() == i * BLOOM_MIP_COUNT + j,
                forall|k: int|
                    0 <= k < infos@.len() ==> (#[trigger] infos@[k]) == (DescriptorImageInfo {
                        image_view: bloom_images@[k / BLOOM_MIP_COUNT as int].mip_image_views@[
                            k % BLOOM_MIP_COUNT as int].handle,
                        sampler: None,
                        image_layout: ImageLayout::General,
                    }),
            decreases BLOOM_MIP_COUNT - j,
        {
            let view = bloom_images[i].mip_image_views[j].handle;
            infos.push(
                DescriptorImageInfo {
                    image_view: view,
                    sampler: None,
                    image_layout: ImageLayout::General,
                },
            );
            proof {
                let k = (i * BLOOM_MIP_COUNT + j) as int;
                assert(k / BLOOM_MIP_COUNT as int == i && k % BLOOM_MIP_COUNT as int == j)
                    by (nonlinear_arith)
                    requires
                        0 <= i < 3,
                        0 <= j < BLOOM_MIP_COUNT,
                        k == i * BLOOM_MIP_COUNT + j,
                        BLOOM_MIP_COUNT == 7,
                ;
            }
            j = j + 1;
        }
        i = i + 1;
    }
    infos.push(
        DescriptorImageInfo {
            image_view: swapchain_image_view,
            sampler: None,
            image_layout: ImageLayout::General,
        },
    );
    infos
}

/// The sampled-input slot table: one combined-image-sampler slot per
/// intermediate image, over its full mip chain, and a final slot for the
/// frame image with the swapchain's shared sampler.
pub fn bloom_input_image_infos(
    bloom_images: &Vec<Image>,
    swapchain_image_view: u64,
    swapchain_image_sampler: u64,
) -> (r: Vec<DescriptorImageInfo>)
    requires
        bloom_images@.len() == 3,
        forall|i: int| 0 <= i < 3 ==> (#[trigger] bloom_images@[i]).image_sampler is Some,
    ensures
        r@.len() == 4,
        forall|i: int|
            0 <= i < 3 ==> (#[trigger] r@[i]) == (DescriptorImageInfo {
                image_view: bloom_images@[i].image_view.handle,
                sampler: bloom_images@[i].image_sampler,
                image_layout: ImageLayout::General,
            }),
        r@[3] == (DescriptorImageInfo {
            image_view: swapchain_image_view,
            sampler: Some(swapchain_image_sampler),
            image_layout: ImageLayout::General,
        }),
{
    let mut infos: Vec<DescriptorImageInfo> = Vec::new();
    let mut i: usize = 0;
    while i < 3
        invariant
            i <= 3,
            bloom_images@.len() == 3,
            forall|n: int| 0 <= n < 3 ==> (#[trigger] bloom_images@[n]).image_sampler is Some,
            infos@.len() == i,
            forall|k: int|
                0 <= k < i ==> (#[trigger] infos@[k]) == (DescriptorImageInfo {
                    image_view: bloom_images@[k].image_view.handle,
                    sampler: bloom_images@[k].image_sampler,
                    image_layout: ImageLayout::General,
                }),
        decreases 3 - i,
    {
        let view = bloom_images[i].image_view.handle;
        let sampler = *bloom_images[i].image_sampler.as_ref().unwrap();
        infos.push(
            DescriptorImageInfo {
                image_view: view,
                sampler: Some(sampler),
                image_layout: ImageLayout::General,
            },
        );
        i = i + 1;
    }
    infos.push(
        DescriptorImageInfo {
            image_view: swapchain_image_view,
            sampler: Some(swapchain_image_sampler),
            image_layout: ImageLayout::General,
        },
    );
    infos
}

/// Refreshes the bloom descriptor set for the current frame: one write of
/// the storage-image slot table to binding zero, and one write of the
/// sampled-input table to each of bindings one and two, all into the
/// first set.
pub fn update_descriptor(
    device: &mut Device,
    descriptors: &DescriptorSet,
    bloom_images: &Vec<Image>,
    swapchain_image_view: u64,
    swapchain_image_sampler: u64,
)
    requires
        bloom_images@.len() == 3,
        forall|i: int|
            0 <= i < 3 ==> (#[trigger] bloom_images@[i]).mip_image_views@.len()
                == BLOOM_MIP_COUNT,
        forall|i: int| 0 <= i < 3 ==> (#[trigger] bloom_images@[i]).image_sampler is Some,
        descriptors.descriptor_set@.len() >= 1,
        descriptors.bindings_info@.len() >= 3,
    ensures
        final(device).next_id == old(device).next_id,
        final(device).events@ == old(device).events@ + seq![
            Event::UpdateDescriptorSet {
                set: descriptors.descriptor_set@[0],
                binding: 0,
                descriptor_type: descriptors.bindings_info@[0].descriptor_type,
            },
            Event::UpdateDescriptorSet {
                set: descriptors.descriptor_set@[0],
                binding: 1,
                descriptor_type: descriptors.bindings_info@[1].descriptor_type,
            },
            Event::UpdateDescriptorSet {
                set: descriptors.descriptor_set@[0],
                binding: 2,
                descriptor_type: descriptors.bindings_info@[2].descriptor_type,
            },
        ],
        device_identity(*old(device), *final(device)),
{
    let output_image_descr_info = bloom_output_image_infos(bloom_images, swapchain_image_view);
    let input_image_descr_info = bloom_input_image_infos(
        bloom_images,
        swapchain_image_view,
        swapchain_image_sampler,
    );
    let input_again = bloom_input_image_infos(
        bloom_images,
        swapchain_image_view,
        swapchain_image_sampler,
    );
    descriptors.update_descriptor_set(device, 0, 0, None, Some(output_image_descr_info));
    descriptors.update_descriptor_set(device, 0, 1, None, Some(input_image_descr_info));
    descriptors.update_descriptor_set(device, 0, 2, None, Some(input_again));
    proof {
        assert(final(device).events@ =~= old(device).events@ + seq![
            Event::UpdateDescriptorSet {
                set: descriptors.descriptor_set@[0],
                binding: 0,
                descriptor_type: descriptors.bindings_info@[0].descriptor_type,
            },
            Event::UpdateDescriptorSet {
                set: descriptors.descriptor_set@[0],
                binding: 1,
                descriptor_type: descriptors.bindings_info@[1].descriptor_type,
            },
            Event::UpdateDescriptorSet {
                set: descriptors.descriptor_set@[0],
                binding: 2,
                descriptor_type: descriptors.bindings_info@[2].descriptor_type,
            },
        ]);
    }
}

} // verus!
