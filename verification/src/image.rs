//! The image: a device-memory-backed 2D resource with one view per mip
//! level (each view covering that level and all coarser ones), an optional
//! sampler, an explicit layout state machine, staged transfers, and a
//! teardown that destroys sampler and views, returns the memory block, and
//! only then destroys the image handle.

use vstd::prelude::*;

use crate::buffer::{write_bytes_spec, Buffer};
use crate::command_buffer::CommandBufferBuilder;
use crate::device::{Device, Event, MemoryBlock, device_identity};
use crate::flags::{
    spec_host_visible, ALLOC_DOWNLOAD, ALLOC_UPLOAD, BUFFER_USAGE_TRANSFER_DST,
    BUFFER_USAGE_TRANSFER_SRC, ImageLayout, SharingMode,
};
use crate::geometry::Extent3d;

verus! {

/// Which mips and layers of an image an operation or a view covers.
#[derive(Clone, Copy, Debug, PartialEq, Eq, Structural)]
pub struct SubresourceRange {
    pub aspect_mask: u32,
    pub base_mip_level: u32,
    pub level_count: u32,
    pub base_array_layer: u32,
    pub layer_count: u32,
}

/// One view into an image: it starts at `base_mip_level` and covers that
/// level and all coarser ones.
#[derive(Clone, Copy, Debug, PartialEq, Eq, Structural)]
pub struct ImageView {
    pub handle: u64,
    pub base_mip_level: u32,
    pub level_count: u32,
}

/// The model's memory footprint of an image: four bytes per texel.
pub open spec fn spec_image_memory_size(extent: Extent3d) -> int {
    extent.width * extent.height * extent.depth * 4
}

/// The bytes of device memory behind an image of the given extent.
pub fn image_memory_size(extent: &Extent3d) -> (r: u64)
    requires
        spec_image_memory_size(*extent) <= u64::MAX,
    ensures
        r == spec_image_memory_size(*extent),
{
    if extent.width == 0 || extent.height == 0 || extent.depth == 0 {
        proof {
            assert(extent.width * extent.height * extent.depth * 4 == 0) by (nonlinear_arith)
                requires
                    extent.width == 0 || extent.height == 0 || extent.depth == 0,
            ;
        }
        0
    } else {
        let w = extent.width as u64;
        let h = extent.height as u64;
        let d = extent.depth as u64;
        proof {
            assert(w * h <= w * h * d * 4 && w * h * d <= w * h * d * 4) by (nonlinear_arith)
                requires
                    w >= 1 && h >= 1 && d >= 1,
            ;
        }
        let a = w * h;
        proof {
            assert(w * h * d == a * d && w * h * d * 4 == a * d * 4) by (nonlinear_arith)
                requires
                    a == w * h,
            ;
        }
        let b = a * d;
        proof {
            assert(a * d * 4 == b * 4) by (nonlinear_arith)
                requires
                    b == a * d,
            ;
        }
        b * 4
    }
}

/// A device-memory-backed image with its views, sampler, block, extent,
/// layout state and held bytes.
#[derive(Debug)]
pub struct Image {
    pub image: u64,
    pub image_view: ImageView,
    pub mip_image_views: Vec<ImageView>,
    pub image_sampler: Option<u64>,
    pub block: Option<MemoryBlock>,
    pub extent: Extent3d,
    pub initial_layout: ImageLayout,
    pub final_layout: ImageLayout,
    pub current_layout: ImageLayout,
    pub format: u32,
    pub subresource_range: SubresourceRange,
    pub alloc_flags: u8,
    pub contents: Vec<u8>,
}

/// True when `a` and `b` are the same image resource: everything but the
/// mutable layout field and the held bytes agrees.
pub open spec fn same_image_resource(a: Image, b: Image) -> bool {
    a.image == b.image && a.image_view == b.image_view && a.mip_image_views@
        == b.mip_image_views@ && a.image_sampler == b.image_sampler && a.block == b.block
        && a.extent == b.extent && a.initial_layout == b.initial_layout && a.final_layout
        == b.final_layout && a.format == b.format && a.subresource_range == b.subresource_range
        && a.alloc_flags == b.alloc_flags
}

/// The teardown actions of an image, in the only order the driver allows:
/// the sampler (when present), every mip view, the default view, the
/// memory block back to the pool, and only then the image handle.
pub open spec fn image_destroy_events(image: Image) -> Seq<Event> {
    (if image.image_sampler is Some {
        seq![Event::DestroySampler { handle: image.image_sampler->0 }]
    } else {
        Seq::empty()
    }) + Seq::new(
        image.subresource_range.level_count as nat,
        |i: int| Event::DestroyImageView { handle: image.mip_image_views@[i].handle },
    ) + seq![
        Event::DestroyImageView { handle: image.image_view.handle },
        Event::Dealloc { block: image.block->Some_0.id },
        Event::DestroyImage { handle: image.image },
    ]
}

impl Image {
    /// An image that still owns its block, whose held bytes span it, and
    /// whose view chain has one view per level, the view at level `i`
    /// starting there and covering the `level_count - i` coarser levels.
    pub open spec fn wf(&self) -> bool {
        &&& self.block is Some
        &&& self.contents@.len() == self.block->Some_0.size
        &&& self.subresource_range.base_mip_level == 0
        &&& self.mip_image_views@.len() == self.subresource_range.level_count
        &&& forall|i: int|
            0 <= i < self.mip_image_views@.len() ==> (#[trigger] self.mip_image_views@[i]).base_mip_level
                == i && self.mip_image_views@[i].level_count == self.subresource_range.level_count
                - i
    }

    /// Creates an image with `mip_levels` levels: the native handle, its
    /// memory block, the default full-chain view, and one view per level,
    /// where the view at level `i` covers levels `i` through the coarsest,
    /// so their level counts decrease one by one.
    pub fn new(
        device: &mut Device,
        flags: u32,
        image_type: u32,
        format: u32,
        extent: Extent3d,
        mip_levels: u32,
        array_layers: u32,
        tiling: u32,
        usage: u32,
        queue_family_index: u32,
        initial_layout: ImageLayout,
        final_layout: ImageLayout,
        view_type: u32,
        image_aspect: u32,
        allocation_type: u8,
    ) -> (r: Image)
        requires
            spec_image_memory_size(extent) <= u64::MAX,
            spec_image_memory_size(extent) <= usize::MAX,
            old(device).next_id + 3 + mip_levels <= u64::MAX,
        ensures
            r.wf(),
            r.image == old(device).next_id,
            r.block->Some_0.id == old(device).next_id + 1,
            r.block->Some_0.size == spec_image_memory_size(extent),
            r.image_view == (ImageView {
                handle: (old(device).next_id + 2) as u64,
                base_mip_level: 0,
                level_count: mip_levels,
            }),
            r.mip_image_views@.len() == mip_levels,
            forall|i: int|
                0 <= i < mip_levels ==> r.mip_image_views@[i] == (ImageView {
                    handle: (old(device).next_id + 3 + i) as u64,
                    base_mip_level: i as u32,
                    level_count: (mip_levels - i) as u32,
                }),
            r.image_sampler is None,
            r.extent == extent,
            r.initial_layout == initial_layout,
            r.final_layout == final_layout,
            r.current_layout == initial_layout,
            r.format == format,
            r.subresource_range == (SubresourceRange {
                aspect_mask: image_aspect,
                base_mip_level: 0,
                level_count: mip_levels,
                base_array_layer: 0,
                layer_count: array_layers,
            }),
            r.alloc_flags == allocation_type,
            r.contents@ == Seq::new(spec_image_memory_size(extent) as nat, |i: int| 0u8),
            final(device).next_id == old(device).next_id + 3 + mip_levels,
            final(device).events@ == old(device).events@ + seq![
                Event::CreateImage { handle: old(device).next_id },
                Event::Alloc { block: (old(device).next_id + 1) as u64 },
                Event::CreateImageView { handle: (old(device).next_id + 2) as u64 },
            ] + Seq::new(
                mip_levels as nat,
                |i: int| Event::CreateImageView { handle: (old(device).next_id + 3 + i) as u64 },
            ),
            device_identity(*old(device), *final(device)),
    {
        let memory_size = image_memory_size(&extent);
        let image = device.fresh_id();
        device.record(Event::CreateImage { handle: image });
        let block = device.alloc_block(memory_size);

        let view_handle = device.fresh_id();
        device.record(Event::CreateImageView { handle: view_handle });
        let image_view = ImageView {
            handle: view_handle,
            base_mip_level: 0,
            level_count: mip_levels,
        };

        let ghost mid_events = device.events@;
        let ghost mid_id = device.next_id;
        let mut mip_image_views: Vec<ImageView> = Vec::new();
        let mut i: u32 = 0;
        while i < mip_levels
            invariant
                i <= mip_levels,
                mid_id + mip_levels <= u64::MAX,
                device.next_id == mid_id + i,
                mip_image_views@.len() == i,
                forall|j: int|
                    0 <= j < i ==> mip_image_views@[j] == (ImageView {
                        handle: (mid_id + j) as u64,
                        base_mip_level: j as u32,
                        level_count: (mip_levels - j) as u32,
                    }),
                device.events@ == mid_events + Seq::new(
                    i as nat,
                    |j: int| Event::CreateImageView { handle: (mid_id + j) as u64 },
                ),
                device_identity(*old(device), *device),
            decreases mip_levels - i,
        {
            let handle = device.fresh_id();
            device.record(Event::CreateImageView { handle });
            mip_image_views.push(
                ImageView { handle, base_mip_level: i, level_count: mip_levels - i },
            );
            proof {
                assert(device.events@ =~= mid_events + Seq::new(
                    (i + 1) as nat,
                    |j: int| Event::CreateImageView { handle: (mid_id + j) as u64 },
                ));
            }
            i = i + 1;
        }

        let mut contents: Vec<u8> = Vec::new();
        let len = memory_size as usize;
        while contents.len() < len
            invariant
                contents@.len() <= len,
                contents@ =~= Seq::new(contents@.len(), |i: int| 0u8),
            decreases len - contents@.len(),
        {
            contents.push(0);
        }

        proof {
            assert(final(device).events@ =~= old(device).events@ + seq![
                Event::CreateImage { handle: old(device).next_id },
                Event::Alloc { block: (old(device).next_id + 1) as u64 },
                Event::CreateImageView { handle: (old(device).next_id + 2) as u64 },
            ] + Seq::new(
                mip_levels as nat,
                |j: int| Event::CreateImageView { handle: (old(device).next_id + 3 + j) as u64 },
            ));
        }
        let _ = flags;
        let _ = image_type;
        let _ = tiling;
        let _ = usage;
        let _ = queue_family_index;
        let _ = view_type;
        Image {
            image,
            image_view,
            mip_image_views,
            image_sampler: None,
            block: Some(block),
            extent,
            initial_layout,
            final_layout,
            current_layout: initial_layout,
            format,
            subresource_range: SubresourceRange {
                aspect_mask: image_aspect,
                base_mip_level: 0,
                level_count: mip_levels,
                base_array_layer: 0,
                layer_count: array_layers,
            },
            alloc_flags: allocation_type,
            contents,
        }
    }

    /// Creates a sampler for the image with the given filtering and
    /// addressing configuration, replacing any previous one.
    pub fn set_sampler(
        &mut self,
        device: &mut Device,
        min_filter: u32,
        mag_filter: u32,
        mipmap_mode: u32,
        address_mode_u: u32,
        address_mode_v: u32,
        address_mode_w: u32,
        anisotropy_enable: bool,
        compare_enable: bool,
        compare_op: u32,
        border_color: u32,
    )
        requires
            old(device).next_id < u64::MAX,
        ensures
            final(self).image_sampler == Some(old(device).next_id),
            final(self).image == old(self).image,
            final(self).image_view == old(self).image_view,
            final(self).mip_image_views@ == old(self).mip_image_views@,
            final(self).block == old(self).block,
            final(self).extent == old(self).extent,
            final(self).initial_layout == old(self).initial_layout,
            final(self).final_layout == old(self).final_layout,
            final(self).current_layout == old(self).current_layout,
            final(self).format == old(self).format,
            final(self).subresource_range == old(self).subresource_range,
            final(self).alloc_flags == old(self).alloc_flags,
            final(self).contents@ == old(self).contents@,
            final(device).next_id == old(device).next_id + 1,
            final(device).events@ == old(device).events@.push(
                Event::CreateSampler { handle: old(device).next_id },
            ),
            device_identity(*old(device), *final(device)),
    {
        let _ = min_filter;
        let _ = mag_filter;
        let _ = mipmap_mode;
        let _ = address_mode_u;
        let _ = address_mode_v;
        let _ = address_mode_w;
        let _ = anisotropy_enable;
        let _ = compare_enable;
        let _ = compare_op;
        let _ = border_color;
        let handle = device.fresh_id();
        device.record(Event::CreateSampler { handle });
        self.image_sampler = Some(handle);
    }

    /// Records a layout-transition barrier for this image into an already
    /// recording command buffer, and moves the tracked layout with it.
    pub fn change_image_layout(
        device: &mut Device,
        image: &mut Image,
        command_buffer: u64,
        old_layout: ImageLayout,
        new_layout: ImageLayout,
    )
        ensures
            same_image_resource(*old(image), *final(image)),
            final(image).contents@ == old(image).contents@,
            final(image).current_layout == new_layout,
            final(device).next_id == old(device).next_id,
            final(device).events@ == old(device).events@.push(
                Event::LayoutBarrier { image: old(image).image, old_layout, new_layout },
            ),
            device_identity(*old(device), *final(device)),
    {
        let _ = command_buffer;
        let handle = image.image;
        device.record(Event::LayoutBarrier { image: handle, old_layout, new_layout });
        image.current_layout = new_layout;
    }

    /// Records a layout-transition barrier for a foreign image handle that
    /// this layer does not own, such as a presentation image.
    pub fn change_vk_image_layout(
        device: &mut Device,
        image: u64,
        subresource_range: SubresourceRange,
        command_buffer: u64,
        old_layout: ImageLayout,
        new_layout: ImageLayout,
    )
        ensures
            final(device).next_id == old(device).next_id,
            final(device).events@ == old(device).events@.push(
                Event::LayoutBarrier { image, old_layout, new_layout },
            ),
            device_identity(*old(device), *final(device)),
    {
        let _ = subresource_range;
        let _ = command_buffer;
        device.record(Event::LayoutBarrier { image, old_layout, new_layout });
    }

    /// A stand-alone layout transition: records the barrier into a fresh
    /// transient command buffer, submits it on the transfer queue, blocks
    /// until that queue drains, and frees the command buffer.
    pub fn change_layout(
        &mut self,
        device: &mut Device,
        command_builder: &CommandBufferBuilder,
        old_layout: ImageLayout,
        new_layout: ImageLayout,
    )
        requires
            old(device).next_id < u64::MAX,
        ensures
            same_image_resource(*old(self), *final(self)),
            final(self).contents@ == old(self).contents@,
            final(self).current_layout == new_layout,
            final(device).next_id == old(device).next_id + 1,
            final(device).events@ == old(device).events@ + seq![
                Event::AllocateCommandBuffer { handle: old(device).next_id },
                Event::LayoutBarrier { image: old(self).image, old_layout, new_layout },
                Event::Submit { queue: old(device).transfer_queue },
                Event::WaitQueueIdle { queue: old(device).transfer_queue },
                Event::FreeCommandBuffer { handle: old(device).next_id },
            ],
            device_identity(*old(device), *final(device)),
    {
        let command_buffer = command_builder.build(device);
        Image::change_image_layout(device, self, command_buffer, old_layout, new_layout);
        let transfer_queue = device.transfer_queue;
        device.record(Event::Submit { queue: transfer_queue });
        device.record(Event::WaitQueueIdle { queue: transfer_queue });
        device.record(Event::FreeCommandBuffer { handle: command_buffer });
        proof {
            assert(final(device).events@ =~= old(device).events@ + seq![
                Event::AllocateCommandBuffer { handle: old(device).next_id },
                Event::LayoutBarrier { image: old(self).image, old_layout, new_layout },
                Event::Submit { queue: old(device).transfer_queue },
                Event::WaitQueueIdle { queue: old(device).transfer_queue },
                Event::FreeCommandBuffer { handle: old(device).next_id },
            ]);
        }
    }

    /// Direct host write of the image memory, starting at its first byte;
    /// the allocation must be host-accessible.
    pub fn write(&mut self, data: Vec<u8>)
        requires
            old(self).wf(),
            spec_host_visible(old(self).alloc_flags),
            data@.len() <= old(self).contents@.len(),
        ensures
            final(self).wf(),
            same_image_resource(*old(self), *final(self)),
            final(self).current_layout == old(self).current_layout,
            final(self).contents@ == write_bytes_spec(old(self).contents@, 0, data@),
    {
        let mut k: usize = 0;
        let len = data.len();
        while k < len
            invariant
                old(self).wf(),
                same_image_resource(*old(self), *self),
                self.current_layout == old(self).current_layout,
                k <= len,
                len == data@.len(),
                len <= old(self).contents@.len(),
                self.contents@.len() == old(self).contents@.len(),
                forall|i: int|
                    0 <= i < self.contents@.len() ==> self.contents@[i] == if 0 <= i < k {
                        data@[i]
                    } else {
                        old(self).contents@[i]
                    },
            decreases len - k,
        {
            self.contents.set(k, data[k]);
            k = k + 1;
        }
        proof {
            assert(self.contents@ =~= write_bytes_spec(old(self).contents@, 0, data@));
        }
    }

    /// Staged upload: fills a transient host-visible staging buffer, then
    /// in one transient command buffer transitions the image from its
    /// initial layout to the transfer-destination layout, copies the
    /// staging buffer over the whole image extent (the payload, then the
    /// staging buffer's zeroed remainder), transitions on to the image's
    /// final layout, submits on the transfer queue and blocks until it
    /// drains, then frees the transients.
    pub fn write_to_vram(
        &mut self,
        device: &mut Device,
        command_builder: &CommandBufferBuilder,
        data: Vec<u8>,
    )
        requires
            old(self).wf(),
            data@.len() <= old(self).block->Some_0.size,
            old(self).block->Some_0.size + 64 <= usize::MAX,
            old(device).next_id + 3 <= u64::MAX,
        ensures
            final(self).wf(),
            same_image_resource(*old(self), *final(self)),
            final(self).current_layout == old(self).final_layout,
            final(self).contents@ == Seq::new(
                old(self).contents@.len(),
                |i: int|
                    if i < data@.len() {
                        data@[i]
                    } else {
                        0u8
                    },
            ),
            final(device).next_id == old(device).next_id + 3,
            final(device).events@ == old(device).events@ + seq![
                Event::CreateBuffer { handle: old(device).next_id },
                Event::Alloc { block: (old(device).next_id + 1) as u64 },
                Event::AllocateCommandBuffer { handle: (old(device).next_id + 2) as u64 },
                Event::LayoutBarrier {
                    image: old(self).image,
                    old_layout: old(self).initial_layout,
                    new_layout: ImageLayout::TransferDstOptimal,
                },
                Event::CopyBufferToImage { src: old(device).next_id, dst: old(self).image },
                Event::LayoutBarrier {
                    image: old(self).image,
                    old_layout: ImageLayout::TransferDstOptimal,
                    new_layout: old(self).final_layout,
                },
                Event::Submit { queue: old(device).transfer_queue },
                Event::WaitQueueIdle { queue: old(device).transfer_queue },
                Event::FreeCommandBuffer { handle: (old(device).next_id + 2) as u64 },
                Event::Dealloc { block: (old(device).next_id + 1) as u64 },
                Event::DestroyBuffer { handle: old(device).next_id },
            ],
            device_identity(*old(device), *final(device)),
    {
        let block_size = self.block.as_ref().unwrap().size;
        let mut staging_buffer = Buffer::new(
            device,
            0,
            block_size,
            BUFFER_USAGE_TRANSFER_SRC,
            SharingMode::Exclusive,
            ALLOC_UPLOAD,
        );
        proof {
            crate::flags::lemma_alloc_intent_visibility();
        }
        staging_buffer.write(0, data);

        let command_buffer = command_builder.build(device);

        let initial_layout = self.initial_layout;
        Image::change_image_layout(
            device,
            self,
            command_buffer,
            initial_layout,
            ImageLayout::TransferDstOptimal,
        );

        device.record(
            Event::CopyBufferToImage { src: staging_buffer.buffer, dst: self.image },
        );
        // The recorded copy, replayed on the model's bytes.
        let clen = self.contents.len();
        let len = staging_buffer.contents.len();
        let mut k: usize = 0;
        while k < clen
            invariant
                old(self).wf(),
                same_image_resource(*old(self), *self),
                self.current_layout == ImageLayout::TransferDstOptimal,
                k <= clen,
                clen == old(self).contents@.len(),
                clen <= len,
                staging_buffer.wf(),
                len == staging_buffer.contents@.len(),
                self.contents@.len() == clen,
                forall|i: int|
                    0 <= i < len ==> staging_buffer.contents@[i] == if i < data@.len() {
                        data@[i]
                    } else {
                        0u8
                    },
                data@.len() <= clen,
                forall|i: int|
                    0 <= i < clen ==> self.contents@[i] == if 0 <= i < k {
                        staging_buffer.contents@[i]
                    } else {
                        old(self).contents@[i]
                    },
            decreases clen - k,
        {
            let byte = staging_buffer.contents[k];
            self.contents.set(k, byte);
            k = k + 1;
        }
        proof {
            assert(self.contents@ =~= Seq::new(
                old(self).contents@.len(),
                |i: int|
                    if i < data@.len() {
                        data@[i]
                    } else {
                        0u8
                    },
            ));
        }

        let final_layout = self.final_layout;
        Image::change_image_layout(
            device,
            self,
            command_buffer,
            ImageLayout::TransferDstOptimal,
            final_layout,
        );

        let transfer_queue = device.transfer_queue;
        device.record(Event::Submit { queue: transfer_queue });
        device.record(Event::WaitQueueIdle { queue: transfer_queue });
        device.record(Event::FreeCommandBuffer { handle: command_buffer });

        staging_buffer.destroy(device);

        proof {
            assert(final(device).events@ =~= old(device).events@ + seq![
                Event::CreateBuffer { handle: old(device).next_id },
                Event::Alloc { block: (old(device).next_id + 1) as u64 },
                Event::AllocateCommandBuffer { handle: (old(device).next_id + 2) as u64 },
                Event::LayoutBarrier {
                    image: old(self).image,
                    old_layout: old(self).initial_layout,
                    new_layout: ImageLayout::TransferDstOptimal,
                },
                Event::CopyBufferToImage { src: old(device).next_id, dst: old(self).image },
                Event::LayoutBarrier {
                    image: old(self).image,
                    old_layout: ImageLayout::TransferDstOptimal,
                    new_layout: old(self).final_layout,
                },
                Event::Submit { queue: old(device).transfer_queue },
                Event::WaitQueueIdle { queue: old(device).transfer_queue },
                Event::FreeCommandBuffer { handle: (old(device).next_id + 2) as u64 },
                Event::Dealloc { block: (old(device).next_id + 1) as u64 },
                Event::DestroyBuffer { handle: old(device).next_id },
            ]);
        }
    }

    /// Device-side image-to-image copy into this image from a foreign
    /// image handle: both are transitioned to transfer-compatible layouts,
    /// the copy is recorded, then both transitions are undone — whatever
    /// layout this call changes, it restores, and the tracked layout field
    /// deliberately ends at its pre-call value.
    pub fn write_from_image(
        &mut self,
        device: &mut Device,
        command_builder: Option<&CommandBufferBuilder>,
        command_buffer: Option<u64>,
        src_image: u64,
        src_image_aspect_mask: u32,
        src_image_layout: ImageLayout,
    )
        requires
            command_buffer is Some || command_builder is Some,
            old(device).next_id < u64::MAX,
        ensures
            same_image_resource(*old(self), *final(self)),
            final(self).contents@ == old(self).contents@,
            final(self).current_layout == old(self).current_layout,
            final(device).next_id == old(device).next_id + if command_buffer is Some {
                0int
            } else {
                1int
            },
            final(device).events@ == old(device).events@ + (if command_buffer is Some {
                Seq::empty()
            } else {
                seq![Event::AllocateCommandBuffer { handle: old(device).next_id }]
            }) + seq![
                Event::LayoutBarrier {
                    image: src_image,
                    old_layout: src_image_layout,
                    new_layout: ImageLayout::TransferSrcOptimal,
                },
                Event::LayoutBarrier {
                    image: old(self).image,
                    old_layout: old(self).current_layout,
                    new_layout: ImageLayout::TransferDstOptimal,
                },
                Event::CopyImage { src: src_image, dst: old(self).image },
                Event::LayoutBarrier {
                    image: src_image,
                    old_layout: ImageLayout::TransferSrcOptimal,
                    new_layout: src_image_layout,
                },
                Event::LayoutBarrier {
                    image: old(self).image,
                    old_layout: ImageLayout::TransferDstOptimal,
                    new_layout: old(self).current_layout,
                },
            ],
            device_identity(*old(device), *final(device)),
    {
        let subresource_range = SubresourceRange {
            aspect_mask: src_image_aspect_mask,
            base_mip_level: 0,
            level_count: 1,
            base_array_layer: 0,
            layer_count: 1,
        };

        let cmd = if command_buffer.is_some() {
            *command_buffer.as_ref().unwrap()
        } else {
            command_builder.unwrap().build(device)
        };

        Image::change_vk_image_layout(
            device,
            src_image,
            subresource_range,
            cmd,
            src_image_layout,
            ImageLayout::TransferSrcOptimal,
        );
        let old_layout = self.current_layout;
        Image::change_image_layout(
            device,
            self,
            cmd,
            old_layout,
            ImageLayout::TransferDstOptimal,
        );
        device.record(Event::CopyImage { src: src_image, dst: self.image });
        Image::change_vk_image_layout(
            device,
            src_image,
            subresource_range,
            cmd,
            ImageLayout::TransferSrcOptimal,
            src_image_layout,
        );
        Image::change_image_layout(
            device,
            self,
            cmd,
            ImageLayout::TransferDstOptimal,
            old_layout,
        );
        proof {
            assert(final(device).events@ =~= old(device).events@ + (if command_buffer
                is Some {
                Seq::<Event>::empty()
            } else {
                seq![Event::AllocateCommandBuffer { handle: old(device).next_id }]
            }) + seq![
                Event::LayoutBarrier {
                    image: src_image,
                    old_layout: src_image_layout,
                    new_layout: ImageLayout::TransferSrcOptimal,
                },
                Event::LayoutBarrier {
                    image: old(self).image,
                    old_layout: old(self).current_layout,
                    new_layout: ImageLayout::TransferDstOptimal,
                },
                Event::CopyImage { src: src_image, dst: old(self).image },
                Event::LayoutBarrier {
                    image: src_image,
                    old_layout: ImageLayout::TransferSrcOptimal,
                    new_layout: src_image_layout,
                },
                Event::LayoutBarrier {
                    image: old(self).image,
                    old_layout: ImageLayout::TransferDstOptimal,
                    new_layout: old(self).current_layout,
                },
            ]);
        }
    }

    /// Direct host read of the first `len` bytes of the image memory; the
    /// allocation must be host-accessible.
    pub fn read(&self, len: usize) -> (r: Vec<u8>)
        requires
            self.wf(),
            spec_host_visible(self.alloc_flags),
            len <= self.contents@.len(),
        ensures
            r@ == self.contents@.subrange(0, len as int),
    {
        let mut r: Vec<u8> = Vec::new();
        let mut k: usize = 0;
        while k < len
            invariant
                self.wf(),
                k <= len,
                len <= self.contents@.len(),
                r@ =~= self.contents@.subrange(0, k as int),
            decreases len - k,
        {
            r.push(self.contents[k]);
            proof {
                assert(r@ =~= self.contents@.subrange(0, k + 1));
            }
            k = k + 1;
        }
        r
    }

    /// Staged download of the first `len` bytes: in one transient command
    /// buffer the image is transitioned from its initial layout to the
    /// transfer-destination layout, copied into a transient staging
    /// buffer, transitioned on to its final layout; the work is submitted
    /// on the transfer queue, the call blocks until it drains, the
    /// transients are freed, and the staged bytes are read back.
    pub fn read_from_vram(
        &mut self,
        device: &mut Device,
        command_builder: &CommandBufferBuilder,
        len: usize,
    ) -> (r: Vec<u8>)
        requires
            old(self).wf(),
            len <= old(self).contents@.len(),
            len + 64 <= usize::MAX,
            old(device).next_id + 3 <= u64::MAX,
        ensures
            final(self).wf(),
            same_image_resource(*old(self), *final(self)),
            final(self).contents@ == old(self).contents@,
            final(self).current_layout == old(self).final_layout,
            r@ == old(self).contents@.subrange(0, len as int),
            final(device).next_id == old(device).next_id + 3,
            final(device).events@ == old(device).events@ + seq![
                Event::CreateBuffer { handle: old(device).next_id },
                Event::Alloc { block: (old(device).next_id + 1) as u64 },
                Event::AllocateCommandBuffer { handle: (old(device).next_id + 2) as u64 },
                Event::LayoutBarrier {
                    image: old(self).image,
                    old_layout: old(self).initial_layout,
                    new_layout: ImageLayout::TransferDstOptimal,
                },
                Event::CopyImageToBuffer { src: old(self).image, dst: old(device).next_id },
                Event::LayoutBarrier {
                    image: old(self).image,
                    old_layout: ImageLayout::TransferDstOptimal,
                    new_layout: old(self).final_layout,
                },
                Event::Submit { queue: old(device).transfer_queue },
                Event::WaitQueueIdle { queue: old(device).transfer_queue },
                Event::FreeCommandBuffer { handle: (old(device).next_id + 2) as u64 },
                Event::Dealloc { block: (old(device).next_id + 1) as u64 },
                Event::DestroyBuffer { handle: old(device).next_id },
            ],
            device_identity(*old(device), *final(device)),
    {
        let mut staging_buffer = Buffer::new(
            device,
            0,
            len as u64,
            BUFFER_USAGE_TRANSFER_DST,
            SharingMode::Exclusive,
            ALLOC_DOWNLOAD,
        );
        proof {
            crate::flags::lemma_alloc_intent_visibility();
        }

        let command_buffer = command_builder.build(device);

        let initial_layout = self.initial_layout;
        Image::change_image_layout(
            device,
            self,
            command_buffer,
            initial_layout,
            ImageLayout::TransferDstOptimal,
        );

        device.record(
            Event::CopyImageToBuffer { src: self.image, dst: staging_buffer.buffer },
        );
        // The recorded copy, replayed on the model's bytes.
        let mut copied: Vec<u8> = Vec::new();
        let mut k: usize = 0;
        while k < len
            invariant
                old(self).wf(),
                same_image_resource(*old(self), *self),
                self.contents@ == old(self).contents@,
                k <= len,
                len <= self.contents@.len(),
                copied@ =~= self.contents@.subrange(0, k as int),
            decreases len - k,
        {
            copied.push(self.contents[k]);
            proof {
                assert(copied@ =~= self.contents@.subrange(0, k + 1));
            }
            k = k + 1;
        }
        staging_buffer.write(0, copied);

        let final_layout = self.final_layout;
        Image::change_image_layout(
            device,
            self,
            command_buffer,
            ImageLayout::TransferDstOptimal,
            final_layout,
        );

        let transfer_queue = device.transfer_queue;
        device.record(Event::Submit { queue: transfer_queue });
        device.record(Event::WaitQueueIdle { queue: transfer_queue });
        device.record(Event::FreeCommandBuffer { handle: command_buffer });

        let r = staging_buffer.read(0, len);
        staging_buffer.destroy(device);

        proof {
            assert(r@ =~= old(self).contents@.subrange(0, len as int));
            assert(final(device).events@ =~= old(device).events@ + seq![
                Event::CreateBuffer { handle: old(device).next_id },
                Event::Alloc { block: (old(device).next_id + 1) as u64 },
                Event::AllocateCommandBuffer { handle: (old(device).next_id + 2) as u64 },
                Event::LayoutBarrier {
                    image: old(self).image,
                    old_layout: old(self).initial_layout,
                    new_layout: ImageLayout::TransferDstOptimal,
                },
                Event::CopyImageToBuffer { src: old(self).image, dst: old(device).next_id },
                Event::LayoutBarrier {
                    image: old(self).image,
                    old_layout: ImageLayout::TransferDstOptimal,
                    new_layout: old(self).final_layout,
                },
                Event::Submit { queue: old(device).transfer_queue },
                Event::WaitQueueIdle { queue: old(device).transfer_queue },
                Event::FreeCommandBuffer { handle: (old(device).next_id + 2) as u64 },
                Event::Dealloc { block: (old(device).next_id + 1) as u64 },
                Event::DestroyBuffer { handle: old(device).next_id },
            ]);
        }
        r
    }

    /// Teardown, in the mandatory order: the sampler when present, the
    /// per-mip views, the default view, the memory block back to the pool,
    /// and only at the very end the image handle.
    pub fn destroy(self, device: &mut Device)
        requires
            self.wf(),
        ensures
            final(device).next_id == old(device).next_id,
            final(device).events@ == old(device).events@ + image_destroy_events(self),
            device_identity(*old(device), *final(device)),
    {
        let ghost snapshot = self;
        let Image { image, image_view, mip_image_views, image_sampler, block, .. } = self;
        if let Some(sampler) = image_sampler {
            device.record(Event::DestroySampler { handle: sampler });
        }
        let ghost mid_events = device.events@;
        let level_count = mip_image_views.len();
        let mut i: usize = 0;
        while i < level_count
            invariant
                i <= level_count,
                level_count == mip_image_views@.len(),
                device.next_id == old(device).next_id,
                device.events@ == mid_events + Seq::new(
                    i as nat,
                    |j: int| Event::DestroyImageView { handle: mip_image_views@[j].handle },
                ),
                device_identity(*old(device), *device),
            decreases level_count - i,
        {
            let handle = mip_image_views[i].handle;
            device.record(Event::DestroyImageView { handle });
            proof {
                assert(device.events@ =~= mid_events + Seq::new(
                    (i + 1) as nat,
                    |j: int| Event::DestroyImageView { handle: mip_image_views@[j].handle },
                ));
            }
            i = i + 1;
        }
        device.record(Event::DestroyImageView { handle: image_view.handle });
        let block = block.unwrap();
        device.dealloc_block(block);
        device.record(Event::DestroyImage { handle: image });
        proof {
            assert(final(device).events@ =~= old(device).events@ + image_destroy_events(
                snapshot,
            ));
        }
    }
}

/// Destruction order of an image: its teardown returns exactly one memory
/// block to the pool, destroys the image handle exactly once and last of
/// all, and destroys every view and the sampler strictly before the block
/// is returned, which in turn is strictly before the handle goes.
pub proof fn lemma_image_destroy_order(image: Image)
    requires
        image.wf(),
    ensures
        ({
            let s = image_destroy_events(image);
            let sampler_count: int = if image.image_sampler is Some {
                1
            } else {
                0
            };
            let dealloc_at = sampler_count + image.subresource_range.level_count + 1;
            &&& s.len() == dealloc_at + 2
            &&& forall|i: int| 0 <= i < s.len() ==> ((#[trigger] s[i]) is Dealloc <==> i == dealloc_at)
            &&& forall|i: int|
                0 <= i < s.len() ==> ((#[trigger] s[i]) is DestroyImage <==> i == dealloc_at + 1)
            &&& forall|i: int, j: int|
                0 <= i < s.len() && 0 <= j < s.len() && (#[trigger] s[i]) is Dealloc && (
                #[trigger] s[j]) is DestroyImage ==> i < j
            &&& forall|i: int|
                0 <= i < s.len() && ((#[trigger] s[i]) is DestroyImageView || s[i]
                    is DestroySampler) ==> i < dealloc_at
        }),
{
    let s = image_destroy_events(image);
    let sampler_count: int = if image.image_sampler is Some {
        1
    } else {
        0
    };
    let n = image.subresource_range.level_count as int;
    assert forall|i: int| 0 <= i < s.len() implies ((#[trigger] s[i]) is Dealloc <==> i
        == sampler_count + n + 1) by {
        if i < sampler_count {
            assert(s[i] is DestroySampler);
        } else if i < sampler_count + n {
            assert(s[i] is DestroyImageView);
        } else if i == sampler_count + n {
            assert(s[i] is DestroyImageView);
        } else if i == sampler_count + n + 1 {
            assert(s[i] is Dealloc);
        } else {
            assert(s[i] is DestroyImage);
        }
    }
    assert forall|i: int| 0 <= i < s.len() implies ((#[trigger] s[i]) is DestroyImage <==> i
        == sampler_count + n + 2) by {
        if i < sampler_count {
            assert(s[i] is DestroySampler);
        } else if i < sampler_count + n {
            assert(s[i] is DestroyImageView);
        } else if i == sampler_count + n {
            assert(s[i] is DestroyImageView);
        } else if i == sampler_count + n + 1 {
            assert(s[i] is Dealloc);
        } else {
            assert(s[i] is DestroyImage);
        }
    }
}

} // verus!
