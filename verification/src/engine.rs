//! Engine-level decisions: picking the depth format a device supports,
//! building the depth image for the current surface, and the resize path
//! that rebuilds every graphics pipeline at the new extent while keeping
//! their order.

use vstd::prelude::*;

use crate::device::{Device, Event, device_identity};
use crate::flags::{
    ALLOC_FAST_DEVICE_ACCESS, ASPECT_DEPTH, FORMAT_FEATURE_DEPTH_STENCIL_ATTACHMENT,
    FORMAT_UNDEFINED, IMAGE_USAGE_DEPTH_STENCIL_ATTACHMENT, ImageLayout,
};
use crate::geometry::{Extent2d, Extent3d};
use crate::image::{spec_image_memory_size, Image};
use crate::pipeline::{rebuilt_for_extent, GraphicsPipeline};
use crate::surface::Surface;

verus! {

/// True when a format's optimal-tiling features allow it as a
/// depth-stencil attachment.
pub open spec fn depth_capable(features: u32) -> bool {
    features & FORMAT_FEATURE_DEPTH_STENCIL_ATTACHMENT
        == FORMAT_FEATURE_DEPTH_STENCIL_ATTACHMENT
}

/// Walks the candidate (format, optimal-tiling features) pairs in order
/// and returns the first depth-capable format, or the undefined format
/// when no candidate qualifies.
pub fn select_depth_format(candidates: &Vec<(u32, u32)>) -> (r: u32)
    ensures
        (exists|i: int|
            0 <= i < candidates@.len() && depth_capable((#[trigger] candidates@[i]).1)) ==> ({
            exists|i: int|
                {
                    &&& 0 <= i < candidates@.len()
                    &&& r == (#[trigger] candidates@[i]).0
                    &&& depth_capable(candidates@[i].1)
                    &&& forall|j: int| 0 <= j < i ==> !depth_capable((#[trigger] candidates@[j]).1)
                }
        }),
        (forall|i: int|
            0 <= i < candidates@.len() ==> !depth_capable((#[trigger] candidates@[i]).1)) ==> r
            == FORMAT_UNDEFINED,
{
    let mut selected_format = FORMAT_UNDEFINED;
    let mut k: usize = 0;
    while k < candidates.len()
        invariant
            k <= candidates@.len(),
            selected_format == FORMAT_UNDEFINED,
            forall|j: int| 0 <= j < k ==> !depth_capable((#[trigger] candidates@[j]).1),
        decreases candidates@.len() - k,
    {
        let (format, features) = candidates[k];
        if features & FORMAT_FEATURE_DEPTH_STENCIL_ATTACHMENT
            == FORMAT_FEATURE_DEPTH_STENCIL_ATTACHMENT {
            return format;
        } else {
            selected_format = FORMAT_UNDEFINED;
        }
        k = k + 1;
    }
    selected_format
}

/// Creates the depth image for the surface's current resolution: a
/// single-mip 2D depth attachment in fast device memory, in the first
/// candidate format the device supports, ending its transitions at the
/// depth-attachment layout.
pub fn create_depth_image(
    device: &mut Device,
    surface: &Surface,
    depth_format_candidates: &Vec<(u32, u32)>,
) -> (r: Image)
    requires
        surface.surface_resolution.width * surface.surface_resolution.height * 4 <= u64::MAX,
        surface.surface_resolution.width * surface.surface_resolution.height * 4 <= usize::MAX,
        old(device).next_id + 4 <= u64::MAX,
    ensures
        r.wf(),
        r.extent == (Extent3d {
            width: surface.surface_resolution.width,
            height: surface.surface_resolution.height,
            depth: 1,
        }),
        r.subresource_range.level_count == 1,
        r.mip_image_views@.len() == 1,
        r.initial_layout == ImageLayout::Undefined,
        r.final_layout == ImageLayout::DepthAttachmentOptimal,
        r.current_layout == ImageLayout::Undefined,
        r.alloc_flags == ALLOC_FAST_DEVICE_ACCESS,
        (exists|i: int|
            0 <= i < depth_format_candidates@.len() && depth_capable(
                (#[trigger] depth_format_candidates@[i]).1,
            )) ==> ({
            exists|i: int|
                {
                    &&& 0 <= i < depth_format_candidates@.len()
                    &&& r.format == (#[trigger] depth_format_candidates@[i]).0
                    &&& depth_capable(depth_format_candidates@[i].1)
                    &&& forall|j: int|
                        0 <= j < i ==> !depth_capable((#[trigger] depth_format_candidates@[j]).1)
                }
        }),
        final(device).next_id == old(device).next_id + 4,
        final(device).events@ == old(device).events@ + seq![
            Event::CreateImage { handle: old(device).next_id },
            Event::Alloc { block: (old(device).next_id + 1) as u64 },
            Event::CreateImageView { handle: (old(device).next_id + 2) as u64 },
            Event::CreateImageView { handle: (old(device).next_id + 3) as u64 },
        ],
        device_identity(*old(device), *final(device)),
{
    let selected_format = select_depth_format(depth_format_candidates);
    let extent = Extent3d {
        width: surface.surface_resolution.width,
        height: surface.surface_resolution.height,
        depth: 1,
    };
    proof {
        assert(spec_image_memory_size(extent) == surface.surface_resolution.width
            * surface.surface_resolution.height * 4) by (nonlinear_arith)
            requires
                extent == (Extent3d {
                    width: surface.surface_resolution.width,
                    height: surface.surface_resolution.height,
                    depth: 1,
                }),
        ;
    }
    let queue_family_index = device.queue_family_index;
    let image = Image::new(
        device,
        0,
        1,
        selected_format,
        extent,
        1,
        1,
        0,
        IMAGE_USAGE_DEPTH_STENCIL_ATTACHMENT,
        queue_family_index,
        ImageLayout::Undefined,
        ImageLayout::DepthAttachmentOptimal,
        1,
        ASPECT_DEPTH,
        ALLOC_FAST_DEVICE_ACCESS,
    );
    proof {
        assert(final(device).events@ =~= old(device).events@ + seq![
            Event::CreateImage { handle: old(device).next_id },
            Event::Alloc { block: (old(device).next_id + 1) as u64 },
            Event::CreateImageView { handle: (old(device).next_id + 2) as u64 },
            Event::CreateImageView { handle: (old(device).next_id + 3) as u64 },
        ]);
    }
    image
}

/// The driver actions of rebuilding the pipelines of `ps` back to front:
/// for each, the new layout and pipeline are created, then the old
/// pipeline and layout are destroyed, before the next pipeline is taken.
pub open spec fn recreate_all_events(ps: Seq<GraphicsPipeline>, base_id: u64) -> Seq<Event>
    decreases ps.len(),
{
    if ps.len() == 0 {
        Seq::empty()
    } else {
        recreate_all_events(ps.drop_first(), base_id) + seq![
            Event::CreatePipelineLayout { handle: (base_id + 2 * (ps.len() - 1)) as u64 },
            Event::CreatePipeline { handle: (base_id + 2 * (ps.len() - 1) + 1) as u64 },
            Event::DestroyPipeline { handle: ps.first().pipeline },
            Event::DestroyPipelineLayout { handle: ps.first().pipeline_layout },
        ]
    }
}

/// The resize path over the pipeline list: every graphics pipeline is
/// rebuilt at the new extent from its retained builder, and the list
/// keeps its order — the pipeline at each index is the rebuilt form of
/// the pipeline that was there before.
pub fn recreate_pipelines(
    device: &mut Device,
    graphics_pipelines: Vec<GraphicsPipeline>,
    new_extent: Extent2d,
) -> (r: Vec<GraphicsPipeline>)
    requires
        forall|i: int|
            0 <= i < graphics_pipelines@.len() ==> {
                &&& (#[trigger] graphics_pipelines@[i]).builder is Some
                &&& graphics_pipelines@[i].builder->0.viewports@.len() >= 1
                &&& graphics_pipelines@[i].builder->0.scissors@.len() >= 1
            },
        old(device).next_id + 2 * graphics_pipelines@.len() <= u64::MAX,
    ensures
        r@.len() == graphics_pipelines@.len(),
        forall|i: int|
            0 <= i < r@.len() ==> {
                &&& (#[trigger] r@[i]).builder is Some
                &&& rebuilt_for_extent(
                    graphics_pipelines@[i].builder->0,
                    r@[i].builder->0,
                    new_extent,
                )
            },
        final(device).next_id == old(device).next_id + 2 * graphics_pipelines@.len(),
        final(device).events@ == old(device).events@ + recreate_all_events(
            graphics_pipelines@,
            old(device).next_id,
        ),
        device_identity(*old(device), *final(device)),
{
    let ghost all = graphics_pipelines@;
    let ghost base_id = old(device).next_id;
    let len = graphics_pipelines.len();
    let mut remaining = graphics_pipelines;
    let mut pipeline_vec: Vec<GraphicsPipeline> = Vec::new();
    while remaining.len() > 0
        invariant
            remaining@.len() <= len,
            len == all.len(),
            base_id + 2 * len <= u64::MAX,
            remaining@ == all.subrange(0, remaining@.len() as int),
            forall|i: int|
                0 <= i < all.len() ==> {
                    &&& (#[trigger] all[i]).builder is Some
                    &&& all[i].builder->0.viewports@.len() >= 1
                    &&& all[i].builder->0.scissors@.len() >= 1
                },
            pipeline_vec@.len() == len - remaining@.len(),
            forall|j: int|
                0 <= j < pipeline_vec@.len() ==> {
                    &&& (#[trigger] pipeline_vec@[j]).builder is Some
                    &&& rebuilt_for_extent(
                        all[len - 1 - j].builder->0,
                        pipeline_vec@[j].builder->0,
                        new_extent,
                    )
                },
            device.next_id == base_id + 2 * (len - remaining@.len()),
            device.events@ == old(device).events@ + recreate_all_events(
                all.subrange(remaining@.len() as int, len as int),
                base_id,
            ),
            device_identity(*old(device), *device),
        decreases remaining@.len(),
    {
        let ghost m = remaining@.len() as int;
        let pipeline = remaining.pop().unwrap();
        let rebuilt = pipeline.recreate(device, new_extent);
        pipeline_vec.push(rebuilt);
        proof {
            assert(remaining@ =~= all.subrange(0, m - 1));
            let suffix = all.subrange(m - 1, len as int);
            assert(suffix.drop_first() =~= all.subrange(m, len as int));
            assert(suffix.first() == all[m - 1]);
            assert(device.events@ =~= old(device).events@ + recreate_all_events(
                suffix,
                base_id,
            ));
        }
    }

    proof {
        assert(all.subrange(0, len as int) =~= all);
    }
    let ghost dev_after_rebuild = *device;
    let mut result: Vec<GraphicsPipeline> = Vec::new();
    let ghost reversed = pipeline_vec@;
    while pipeline_vec.len() > 0
        invariant
            pipeline_vec@.len() <= len,
            len == all.len(),
            reversed.len() == len,
            pipeline_vec@ == reversed.subrange(0, pipeline_vec@.len() as int),
            forall|j: int|
                0 <= j < reversed.len() ==> {
                    &&& (#[trigger] reversed[j]).builder is Some
                    &&& rebuilt_for_extent(
                        all[len - 1 - j].builder->0,
                        reversed[j].builder->0,
                        new_extent,
                    )
                },
            result@.len() == len - pipeline_vec@.len(),
            forall|i: int|
                0 <= i < result@.len() ==> #[trigger] result@[i]
                    == reversed[len - 1 - i],
            *device == dev_after_rebuild,
            device.next_id == base_id + 2 * len,
            device.events@ == old(device).events@ + recreate_all_events(all, base_id),
            device_identity(*old(device), *device),
        decreases pipeline_vec@.len(),
    {
        let ghost m = pipeline_vec@.len() as int;
        let pipeline = pipeline_vec.pop().unwrap();
        result.push(pipeline);
        proof {
            assert(pipeline_vec@ =~= reversed.subrange(0, m - 1));
        }
    }
    result
}

/// The frame index the render loop hands to the next frame: one past the
/// current presentable image, wrapping at the in-flight limit.
pub fn next_frame_index(current_image: usize, max_image_in_flight: usize) -> (r: usize)
    requires
        max_image_in_flight > 0,
        current_image + 1 <= usize::MAX,
    ensures
        r == (current_image + 1) % (max_image_in_flight as int),
{
    (current_image + 1) % max_image_in_flight
}

} // verus!
