use bloom_engine::bloom::{
    bloom_schedule, pack_bloom_word, BloomConstant, BloomStep, BLOOM_MIP_COUNT, MODE_APPLY,
    MODE_DOWNSAMPLE, MODE_PREFILTER, MODE_UPSAMPLE, MODE_UPSAMPLE_FIRST,
};
use bloom_engine::geometry::{dispatch_groups, get_mip_size, Extent2d, Extent3d};

fn count_dispatches_with_mode(steps: &[BloomStep], mode: u32) -> usize {
    steps
        .iter()
        .filter(|step| match step {
            BloomStep::Dispatch { word, .. } => word >> 28 == mode,
            _ => false,
        })
        .count()
}

#[test]
fn packed_word_layout_is_4_7_7_7_7() {
    let word = pack_bloom_word(1, 2, 0, 8, 0);
    assert_eq!(word, (1 << 28) | (2 << 21) | (8 << 7));
    assert_eq!(word >> 28, 1);
    assert_eq!((word >> 21) & 0x7f, 2);
    assert_eq!((word >> 14) & 0x7f, 0);
    assert_eq!((word >> 7) & 0x7f, 8);
    assert_eq!(word & 0x7f, 0);
}

#[test]
fn packed_word_prefilter_value() {
    // Mode 0, mip 0, source slot 3 (the frame image), destination 0.
    assert_eq!(pack_bloom_word(MODE_PREFILTER, 0, 3, 0, 0), 3 << 14);
}

#[test]
fn bloom_constant_default_is_zero() {
    let constant = BloomConstant::default();
    assert_eq!(constant.mode_lod_in_out_bloom, 0);
}

#[test]
fn dispatch_groups_exact_multiples_have_no_remainder() {
    assert_eq!(dispatch_groups(Extent2d { width: 256, height: 256 }), (32, 64));
    assert_eq!(dispatch_groups(Extent2d { width: 8, height: 4 }), (1, 1));
    assert_eq!(dispatch_groups(Extent2d { width: 0, height: 0 }), (0, 0));
}

#[test]
fn dispatch_groups_remainders_round_up() {
    assert_eq!(dispatch_groups(Extent2d { width: 9, height: 5 }), (2, 2));
    assert_eq!(dispatch_groups(Extent2d { width: 257, height: 255 }), (33, 64));
    assert_eq!(dispatch_groups(Extent2d { width: 1, height: 1 }), (1, 1));
}

#[test]
fn mip_size_halves_per_level() {
    let base = Extent3d { width: 256, height: 128, depth: 1 };
    assert_eq!(get_mip_size(0, &base), Extent2d { width: 256, height: 128 });
    assert_eq!(get_mip_size(1, &base), Extent2d { width: 128, height: 64 });
    assert_eq!(get_mip_size(3, &base), Extent2d { width: 32, height: 16 });
    assert_eq!(get_mip_size(6, &base), Extent2d { width: 4, height: 2 });
}

#[test]
fn mip_size_uses_integer_division() {
    let base = Extent3d { width: 257, height: 255, depth: 1 };
    assert_eq!(get_mip_size(1, &base), Extent2d { width: 128, height: 127 });
    assert_eq!(get_mip_size(2, &base), Extent2d { width: 64, height: 63 });
}

#[test]
fn mip_chain_end_equals_right_shift() {
    let base = Extent3d { width: 256, height: 256, depth: 1 };
    let last = get_mip_size(BLOOM_MIP_COUNT - 1, &base);
    assert_eq!(last.width, 256 >> (BLOOM_MIP_COUNT - 1));
    assert_eq!(last.height, 256 >> (BLOOM_MIP_COUNT - 1));
}

#[test]
fn bloom_pass_counts_per_frame() {
    let steps = bloom_schedule(
        &Extent3d { width: 256, height: 256, depth: 1 },
        Extent2d { width: 512, height: 512 },
    );
    let n = BLOOM_MIP_COUNT;
    assert_eq!(count_dispatches_with_mode(&steps, MODE_PREFILTER), 1);
    assert_eq!(count_dispatches_with_mode(&steps, MODE_DOWNSAMPLE), 2 * (n - 1));
    assert_eq!(count_dispatches_with_mode(&steps, MODE_UPSAMPLE_FIRST), 1);
    assert_eq!(count_dispatches_with_mode(&steps, MODE_UPSAMPLE), n - 1);
    assert_eq!(count_dispatches_with_mode(&steps, MODE_APPLY), 1);
}

#[test]
fn bloom_schedule_opens_and_closes_with_frame_barriers() {
    let steps = bloom_schedule(
        &Extent3d { width: 256, height: 256, depth: 1 },
        Extent2d { width: 512, height: 512 },
    );
    assert_eq!(steps.first(), Some(&BloomStep::AcquireFrameImage));
    assert_eq!(steps.last(), Some(&BloomStep::ReleaseFrameImage));
    // 21 dispatches, each with its barrier, plus the two frame barriers.
    assert_eq!(steps.len(), 2 + 2 * (3 * BLOOM_MIP_COUNT));
}

#[test]
fn every_dispatch_is_followed_by_a_barrier() {
    let steps = bloom_schedule(
        &Extent3d { width: 123, height: 77, depth: 1 },
        Extent2d { width: 999, height: 1 },
    );
    for (k, step) in steps.iter().enumerate() {
        if matches!(step, BloomStep::Dispatch { .. }) {
            assert!(k + 1 < steps.len());
            assert_eq!(steps[k + 1], BloomStep::DispatchBarrier);
        }
    }
}

#[test]
fn downsample_ping_pong_alternates_destination_images() {
    let steps = bloom_schedule(
        &Extent3d { width: 256, height: 256, depth: 1 },
        Extent2d { width: 512, height: 512 },
    );
    let n = BLOOM_MIP_COUNT as u32;
    let words: Vec<u32> = steps
        .iter()
        .filter_map(|step| match step {
            BloomStep::Dispatch { word, .. } if word >> 28 == MODE_DOWNSAMPLE => Some(*word),
            _ => None,
        })
        .collect();
    assert_eq!(words.len(), 12);
    for level in 1..BLOOM_MIP_COUNT as u32 {
        let ping = words[2 * (level as usize - 1)];
        let pong = words[2 * (level as usize - 1) + 1];
        // Ping reads image 0 at the previous level and writes slot N + level.
        assert_eq!(ping, pack_bloom_word(MODE_DOWNSAMPLE, level - 1, 0, 1 * n + level, 0));
        // Pong reads image 1 at this level and writes slot 0 * N + level.
        assert_eq!(pong, pack_bloom_word(MODE_DOWNSAMPLE, level, 1, 0 * n + level, 0));
    }
}

#[test]
fn bloom_schedule_words_and_grids_match_the_protocol() {
    let steps = bloom_schedule(
        &Extent3d { width: 256, height: 256, depth: 1 },
        Extent2d { width: 512, height: 512 },
    );
    let n = BLOOM_MIP_COUNT as u32;
    // The first dispatch is the prefilter over the full bloom extent.
    match steps[1] {
        BloomStep::Dispatch { word, group_count_x, group_count_y } => {
            assert_eq!(word, pack_bloom_word(MODE_PREFILTER, 0, 3, 0, 0));
            assert_eq!((group_count_x, group_count_y), (32, 64));
        }
        _ => panic!("expected the prefilter dispatch after the acquire barrier"),
    }
    // The last dispatch applies the bloom over the surface resolution.
    match steps[steps.len() - 3] {
        BloomStep::Dispatch { word, group_count_x, group_count_y } => {
            assert_eq!(word, pack_bloom_word(MODE_APPLY, 0, 3, 3 * n, 2));
            assert_eq!((group_count_x, group_count_y), (64, 128));
        }
        _ => panic!("expected the apply dispatch before the release barrier"),
    }
    // The first upsample works on the coarsest mip of the chain.
    let first_up = steps
        .iter()
        .find_map(|step| match step {
            BloomStep::Dispatch { word, group_count_x, group_count_y }
                if word >> 28 == MODE_UPSAMPLE_FIRST =>
            {
                Some((*word, *group_count_x, *group_count_y))
            }
            _ => None,
        })
        .unwrap();
    assert_eq!(first_up.0, pack_bloom_word(MODE_UPSAMPLE_FIRST, n - 2, 0, 3 * n - 1, 0));
    // Mip 6 of 256 is 4 texels: one group in each direction.
    assert_eq!((first_up.1, first_up.2), (1, 1));
}
