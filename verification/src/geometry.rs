//! Extents and dispatch-grid arithmetic.

use vstd::prelude::*;

verus! {

/// A two-dimensional texel region (one mip level, a surface, a window).
#[derive(Clone, Copy, Debug, PartialEq, Eq, Structural)]
pub struct Extent2d {
    pub width: u32,
    pub height: u32,
}

/// A three-dimensional image extent.
#[derive(Clone, Copy, Debug, PartialEq, Eq, Structural)]
pub struct Extent3d {
    pub width: u32,
    pub height: u32,
    pub depth: u32,
}

impl Extent2d {
    pub fn new(width: u32, height: u32) -> (r: Extent2d)
        ensures
            r == (Extent2d { width, height }),
    {
        Extent2d { width, height }
    }
}

impl Extent3d {
    pub fn new(width: u32, height: u32, depth: u32) -> (r: Extent3d)
        ensures
            r == (Extent3d { width, height, depth }),
    {
        Extent3d { width, height, depth }
    }
}

/// One dimension of a mip extent: the base dimension halved `level` times,
/// with integer division at every step.
pub open spec fn mip_dim(base: int, level: nat) -> int
    decreases level,
{
    if level == 0 {
        base
    } else {
        mip_dim(base, (level - 1) as nat) / 2
    }
}

/// Halving a `u32` dimension never leaves `u32` range and never goes negative.
pub proof fn lemma_mip_dim_bounds(base: u32, level: nat)
    ensures
        0 <= mip_dim(base as int, level) <= base,
    decreases level,
{
    if level > 0 {
        lemma_mip_dim_bounds(base, (level - 1) as nat);
    }
}

/// Halving `level` times is the same as shifting right by `level`.
pub proof fn lemma_mip_dim_is_shift(base: u32, level: nat)
    requires
        level < 32,
    ensures
        mip_dim(base as int, level) == base >> (level as u32),
    decreases level,
{
    if level == 0 {
        assert(base >> 0u32 == base) by (bit_vector);
    } else {
        let prev = (level - 1) as nat;
        lemma_mip_dim_is_shift(base, prev);
        lemma_mip_dim_bounds(base, prev);
        let p32 = prev as u32;
        let l32 = level as u32;
        assert((base >> p32) / 2 == base >> l32) by (bit_vector)
            requires
                p32 < 31 && l32 == p32 + 1,
        ;
    }
}

/// The extent of mip level `current_mip` of an image with base extent
/// `extent`: width and height are halved once per level, as the bloom
/// scheduler sizes its per-mip dispatches.
pub fn get_mip_size(current_mip: usize, extent: &Extent3d) -> (r: Extent2d)
    ensures
        r.width == mip_dim(extent.width as int, current_mip as nat),
        r.height == mip_dim(extent.height as int, current_mip as nat),
{
    let mut width = extent.width;
    let mut height = extent.height;
    let mut level: usize = 0;
    while level < current_mip
        invariant
            level <= current_mip,
            width == mip_dim(extent.width as int, level as nat),
            height == mip_dim(extent.height as int, level as nat),
        decreases current_mip - level,
    {
        proof {
            lemma_mip_dim_bounds(extent.width, level as nat);
            lemma_mip_dim_bounds(extent.height, level as nat);
        }
        width = width / 2;
        height = height / 2;
        level = level + 1;
    }
    Extent2d { width, height }
}

/// The compute grid that covers `image_size` with the fixed 8x4 workgroup
/// footprint: the width in groups of 8 and the height in groups of 4, each
/// rounded up so that remainder texels are still covered.
pub fn dispatch_groups(image_size: Extent2d) -> (r: (u32, u32))
    ensures
        r.0 == (image_size.width + 7) / 8,
        r.1 == (image_size.height + 3) / 4,
{
    let mut group_x = image_size.width / 8;
    let mut group_y = image_size.height / 4;
    if image_size.width % 8 != 0 {
        group_x = group_x + 1;
    }
    if image_size.height % 4 != 0 {
        group_y = group_y + 1;
    }
    proof {
        let w = image_size.width as int;
        let h = image_size.height as int;
        assert(w % 8 != 0 ==> w / 8 + 1 == (w + 7) / 8) by (nonlinear_arith);
        assert(w % 8 == 0 ==> w / 8 == (w + 7) / 8) by (nonlinear_arith);
        assert(h % 4 != 0 ==> h / 4 + 1 == (h + 3) / 4) by (nonlinear_arith);
        assert(h % 4 == 0 ==> h / 4 == (h + 3) / 4) by (nonlinear_arith);
    }
    (group_x, group_y)
}

} // verus!
