//! The swapchain: per-presentable-image views and framebuffers plus one
//! shared sampler and an optional depth image. A resize is stop-the-world:
//! full teardown of the per-image objects and the swapchain, then a
//! recreation at the new extent that reuses the immutable creation
//! parameters.

use vstd::prelude::*;

use crate::device::{Device, Event, device_identity};
use crate::flags::IMAGE_USAGE_COLOR_ATTACHMENT;
use crate::geometry::Extent2d;
use crate::image::{image_destroy_events, Image};
use crate::renderpass::RenderPass;
use crate::surface::Surface;

verus! {

pub const PRESENT_MODE_IMMEDIATE: u32 = 0;
pub const PRESENT_MODE_MAILBOX: u32 = 1;
pub const PRESENT_MODE_FIFO: u32 = 2;
pub const PRESENT_MODE_FIFO_RELAXED: u32 = 3;

/// The present mode a request resolves to: the requested one, or mailbox
/// when nothing specific was asked for.
pub open spec fn requested_present_mode(present_mode: Option<u32>) -> u32 {
    if present_mode is Some {
        present_mode->0
    } else {
        PRESENT_MODE_MAILBOX
    }
}

/// Picks the requested present mode (mailbox by default) out of the modes
/// the surface offers; `None` when the surface does not offer it, which
/// is fatal upstream.
pub fn choose_present_mode(present_modes: &Vec<u32>, present_mode: Option<u32>) -> (r: Option<
    u32,
>)
    ensures
        r is Some <==> present_modes@.contains(requested_present_mode(present_mode)),
        r matches Some(m) ==> m == requested_present_mode(present_mode),
{
    let want: u32 = match present_mode {
        Some(m) => m,
        None => PRESENT_MODE_MAILBOX,
    };
    let mut k: usize = 0;
    while k < present_modes.len()
        invariant
            k <= present_modes@.len(),
            want == requested_present_mode(present_mode),
            forall|j: int| 0 <= j < k ==> present_modes@[j] != want,
        decreases present_modes@.len() - k,
    {
        if present_modes[k] == want {
            return Some(want);
        }
        k = k + 1;
    }
    None
}

/// The immutable creation parameters a resize reuses.
#[derive(Clone, Copy, Debug, PartialEq, Eq, Structural)]
pub struct SwapchainCreateInfo {
    pub min_image_count: u32,
    pub image_format: u32,
    pub image_color_space: u32,
    pub image_extent: Extent2d,
    pub image_usage: u32,
    pub pre_transform: u32,
    pub present_mode: u32,
}

/// The per-image create actions: for each presentable image, its view,
/// its scene framebuffer, and its overlay framebuffer, with consecutive
/// handles starting at `base_id`.
pub open spec fn per_image_create_events(base_id: u64, count: int) -> Seq<Event> {
    Seq::new(
        (3 * count) as nat,
        |j: int|
            if j % 3 == 0 {
                Event::CreateImageView { handle: (base_id + j) as u64 }
            } else {
                Event::CreateFramebuffer { handle: (base_id + j) as u64 }
            },
    )
}

/// The per-image teardown actions: for each presentable image, its view,
/// its scene framebuffer, and its overlay framebuffer.
pub open spec fn per_image_destroy_events(s: Swapchain, count: int) -> Seq<Event> {
    Seq::new(
        (3 * count) as nat,
        |j: int|
            if j % 3 == 0 {
                Event::DestroyImageView { handle: s.swapchain_image_views@[j / 3] }
            } else if j % 3 == 1 {
                Event::DestroyFramebuffer { handle: s.swapchain_framebuffers@[j / 3] }
            } else {
                Event::DestroyFramebuffer { handle: s.swapchain_ui_framebuffers@[j / 3] }
            },
    )
}

/// The presentable-image set: the swapchain handle, the driver-owned
/// image handles, a view and two framebuffers per image, one shared
/// sampler, the optional depth image, and the retained creation
/// parameters.
#[derive(Debug)]
pub struct Swapchain {
    pub swapchain: u64,
    pub swapchain_extent: Extent2d,
    pub swapchain_images: Vec<u64>,
    pub swapchain_image_views: Vec<u64>,
    pub swapchain_image_sampler: u64,
    pub depth_stencil_image: Option<Image>,
    pub swapchain_framebuffers: Vec<u64>,
    pub swapchain_ui_framebuffers: Vec<u64>,
    pub max_image_in_flight: usize,
    pub swapchain_create_info: SwapchainCreateInfo,
}

impl Swapchain {
    /// One view and two framebuffers per presentable image.
    pub open spec fn wf(&self) -> bool {
        &&& self.swapchain_image_views@.len() == self.swapchain_images@.len()
        &&& self.swapchain_framebuffers@.len() == self.swapchain_images@.len()
        &&& self.swapchain_ui_framebuffers@.len() == self.swapchain_images@.len()
    }

    /// Creates the swapchain over the given presentable images: the
    /// swapchain object, the shared sampler, and a view plus a scene and
    /// an overlay framebuffer for each image. The creation parameters are
    /// retained so a resize can reuse them. The requested present mode
    /// (mailbox when none is named) must be one the surface offers.
    pub fn new(
        device: &mut Device,
        surface: &Surface,
        present_mode: Option<u32>,
        image_usage: Option<u32>,
        depth_stencil_image: Option<Image>,
        renderpass: &RenderPass,
        ui_renderpass: &RenderPass,
        present_modes: &Vec<u32>,
        swapchain_images: Vec<u64>,
    ) -> (r: Swapchain)
        requires
            present_modes@.contains(requested_present_mode(present_mode)),
            old(device).next_id + 2 + 3 * swapchain_images@.len() <= u64::MAX,
        ensures
            r.wf(),
            r.swapchain == old(device).next_id,
            r.swapchain_image_sampler == old(device).next_id + 1,
            r.swapchain_images@ == swapchain_images@,
            r.swapchain_extent == surface.surface_resolution,
            r.max_image_in_flight == swapchain_images@.len(),
            r.depth_stencil_image == depth_stencil_image,
            forall|i: int|
                0 <= i < swapchain_images@.len() ==> (#[trigger] r.swapchain_image_views@[i])
                    == old(device).next_id + 2 + 3 * i,
            forall|i: int|
                0 <= i < swapchain_images@.len() ==> (#[trigger] r.swapchain_framebuffers@[i])
                    == old(device).next_id + 3 + 3 * i,
            forall|i: int|
                0 <= i < swapchain_images@.len() ==> (
                #[trigger] r.swapchain_ui_framebuffers@[i]) == old(device).next_id + 4 + 3 * i,
            r.swapchain_create_info == (SwapchainCreateInfo {
                min_image_count: surface.desired_image_count,
                image_format: surface.desired_format,
                image_color_space: surface.surface_format.color_space,
                image_extent: surface.surface_resolution,
                image_usage: if image_usage is Some {
                    image_usage->0
                } else {
                    IMAGE_USAGE_COLOR_ATTACHMENT
                },
                pre_transform: surface.pre_transform,
                present_mode: requested_present_mode(present_mode),
            }),
            final(device).next_id == old(device).next_id + 2 + 3 * swapchain_images@.len(),
            final(device).events@ == old(device).events@ + seq![
                Event::CreateSwapchain { handle: old(device).next_id },
                Event::CreateSampler { handle: (old(device).next_id + 1) as u64 },
            ] + per_image_create_events(
                (old(device).next_id + 2) as u64,
                swapchain_images@.len() as int,
            ),
            device_identity(*old(device), *final(device)),
    {
        let _ = renderpass;
        let _ = ui_renderpass;
        let chosen_present_mode = choose_present_mode(present_modes, present_mode).unwrap();
        let usage = match image_usage {
            Some(u) => u,
            None => IMAGE_USAGE_COLOR_ATTACHMENT,
        };
        let swapchain_create_info = SwapchainCreateInfo {
            min_image_count: surface.desired_image_count,
            image_format: surface.desired_format,
            image_color_space: surface.surface_format.color_space,
            image_extent: surface.surface_resolution,
            image_usage: usage,
            pre_transform: surface.pre_transform,
            present_mode: chosen_present_mode,
        };

        let swapchain = device.fresh_id();
        device.record(Event::CreateSwapchain { handle: swapchain });
        let swapchain_image_sampler = device.fresh_id();
        device.record(Event::CreateSampler { handle: swapchain_image_sampler });

        let ghost base_events = device.events@;
        let ghost base_id = device.next_id;
        let count = swapchain_images.len();
        let mut swapchain_image_views: Vec<u64> = Vec::new();
        let mut swapchain_framebuffers: Vec<u64> = Vec::new();
        let mut swapchain_ui_framebuffers: Vec<u64> = Vec::new();
        let mut i: usize = 0;
        while i < count
            invariant
                i <= count,
                count == swapchain_images@.len(),
                base_id + 3 * count <= u64::MAX,
                device.next_id == base_id + 3 * i,
                swapchain_image_views@.len() == i,
                swapchain_framebuffers@.len() == i,
                swapchain_ui_framebuffers@.len() == i,
                forall|j: int|
                    0 <= j < i ==> (#[trigger] swapchain_image_views@[j]) == base_id + 3 * j,
                forall|j: int|
                    0 <= j < i ==> (#[trigger] swapchain_framebuffers@[j]) == base_id + 1 + 3
                        * j,
                forall|j: int|
                    0 <= j < i ==> (#[trigger] swapchain_ui_framebuffers@[j]) == base_id + 2
                        + 3 * j,
                device.events@ == base_events + per_image_create_events(base_id, i as int),
                device_identity(*old(device), *device),
            decreases count - i,
        {
            let view = device.fresh_id();
            device.record(Event::CreateImageView { handle: view });
            let framebuffer = device.fresh_id();
            device.record(Event::CreateFramebuffer { handle: framebuffer });
            let ui_framebuffer = device.fresh_id();
            device.record(Event::CreateFramebuffer { handle: ui_framebuffer });
            swapchain_image_views.push(view);
            swapchain_framebuffers.push(framebuffer);
            swapchain_ui_framebuffers.push(ui_framebuffer);
            proof {
                assert(device.events@ =~= base_events + per_image_create_events(
                    base_id,
                    i + 1,
                ));
            }
            i = i + 1;
        }

        let max_image_in_flight = swapchain_framebuffers.len();
        Swapchain {
            swapchain,
            swapchain_extent: surface.surface_resolution,
            swapchain_images,
            swapchain_image_views,
            swapchain_image_sampler,
            depth_stencil_image,
            swapchain_framebuffers,
            swapchain_ui_framebuffers,
            max_image_in_flight,
            swapchain_create_info,
        }
    }

    /// Stop-the-world recreation at the surface's current resolution: the
    /// sampler, every per-image view and framebuffer, and the swapchain
    /// object are destroyed; the swapchain is recreated reusing the
    /// retained creation parameters with only the extent updated; the old
    /// depth image (when there is one) is torn down and replaced; and the
    /// per-image objects are rebuilt over the new presentable images.
    pub fn recreate(
        &mut self,
        device: &mut Device,
        surface: &Surface,
        renderpass: &RenderPass,
        ui_renderpass: &RenderPass,
        depth_image: Option<Image>,
        swapchain_images: Vec<u64>,
    )
        requires
            old(self).wf(),
            old(self).depth_stencil_image is Some ==> old(self).depth_stencil_image->0.wf(),
            (old(self).depth_stencil_image is Some) == (depth_image is Some),
            old(device).next_id + 2 + 3 * swapchain_images@.len() <= u64::MAX,
        ensures
            final(self).wf(),
            final(self).swapchain == old(device).next_id,
            final(self).swapchain_image_sampler == old(device).next_id + 1,
            final(self).swapchain_images@ == swapchain_images@,
            final(self).swapchain_extent == surface.surface_resolution,
            final(self).max_image_in_flight == old(self).max_image_in_flight,
            final(self).depth_stencil_image == depth_image,
            forall|i: int|
                0 <= i < swapchain_images@.len() ==> (
                #[trigger] final(self).swapchain_image_views@[i]) == old(device).next_id + 2
                    + 3 * i,
            forall|i: int|
                0 <= i < swapchain_images@.len() ==> (
                #[trigger] final(self).swapchain_framebuffers@[i]) == old(device).next_id + 3
                    + 3 * i,
            forall|i: int|
                0 <= i < swapchain_images@.len() ==> (
                #[trigger] final(self).swapchain_ui_framebuffers@[i]) == old(device).next_id
                    + 4 + 3 * i,
            final(self).swapchain_create_info == (SwapchainCreateInfo {
                image_extent: surface.surface_resolution,
                ..old(self).swapchain_create_info
            }),
            final(device).next_id == old(device).next_id + 2 + 3 * swapchain_images@.len(),
            final(device).events@ == old(device).events@ + seq![
                Event::DestroySampler { handle: old(self).swapchain_image_sampler },
            ] + per_image_destroy_events(*old(self), old(self).swapchain_images@.len() as int)
                + seq![
                Event::DestroySwapchain { handle: old(self).swapchain },
                Event::CreateSwapchain { handle: old(device).next_id },
                Event::CreateSampler { handle: (old(device).next_id + 1) as u64 },
            ] + (if old(self).depth_stencil_image is Some {
                image_destroy_events(old(self).depth_stencil_image->0)
            } else {
                Seq::empty()
            }) + per_image_create_events(
                (old(device).next_id + 2) as u64,
                swapchain_images@.len() as int,
            ),
            device_identity(*old(device), *final(device)),
    {
        let _ = renderpass;
        let _ = ui_renderpass;
        let ghost old_self = *self;

        let sampler = self.swapchain_image_sampler;
        device.record(Event::DestroySampler { handle: sampler });

        let ghost teardown_base = device.events@;
        let count = self.swapchain_image_views.len();
        let mut i: usize = 0;
        while i < count
            invariant
                i <= count,
                *self == old_self,
                old_self.wf(),
                count == old_self.swapchain_image_views@.len(),
                count == old_self.swapchain_images@.len(),
                device.next_id == old(device).next_id,
                device.events@ == teardown_base + per_image_destroy_events(
                    old_self,
                    i as int,
                ),
                device_identity(*old(device), *device),
            decreases count - i,
        {
            let view = self.swapchain_image_views[i];
            device.record(Event::DestroyImageView { handle: view });
            let framebuffer = self.swapchain_framebuffers[i];
            device.record(Event::DestroyFramebuffer { handle: framebuffer });
            let ui_framebuffer = self.swapchain_ui_framebuffers[i];
            device.record(Event::DestroyFramebuffer { handle: ui_framebuffer });
            proof {
                assert(device.events@ =~= teardown_base + per_image_destroy_events(
                    old_self,
                    i + 1,
                ));
            }
            i = i + 1;
        }
        let swapchain = self.swapchain;
        device.record(Event::DestroySwapchain { handle: swapchain });
        self.swapchain_framebuffers.clear();
        self.swapchain_ui_framebuffers.clear();
        self.swapchain_image_views.clear();

        self.swapchain_create_info.image_extent = surface.surface_resolution;
        let new_swapchain = device.fresh_id();
        device.record(Event::CreateSwapchain { handle: new_swapchain });
        self.swapchain = new_swapchain;
        self.swapchain_images = swapchain_images;

        let new_sampler = device.fresh_id();
        device.record(Event::CreateSampler { handle: new_sampler });
        self.swapchain_image_sampler = new_sampler;

        if self.depth_stencil_image.is_some() {
            let old_depth = self.depth_stencil_image.take().unwrap();
            old_depth.destroy(device);
            self.depth_stencil_image = depth_image;
        }

        let ghost base_events = device.events@;
        let ghost base_id = device.next_id;
        let count = self.swapchain_images.len();
        let mut i: usize = 0;
        while i < count
            invariant
                i <= count,
                count == self.swapchain_images@.len(),
                base_id + 3 * count <= u64::MAX,
                device.next_id == base_id + 3 * i,
                self.swapchain_image_views@.len() == i,
                self.swapchain_framebuffers@.len() == i,
                self.swapchain_ui_framebuffers@.len() == i,
                self.swapchain == new_swapchain,
                self.swapchain_image_sampler == new_sampler,
                self.swapchain_images@ == swapchain_images@,
                forall|j: int|
                    0 <= j < i ==> (#[trigger] self.swapchain_image_views@[j]) == base_id + 3
                        * j,
                forall|j: int|
                    0 <= j < i ==> (#[trigger] self.swapchain_framebuffers@[j]) == base_id + 1
                        + 3 * j,
                forall|j: int|
                    0 <= j < i ==> (#[trigger] self.swapchain_ui_framebuffers@[j]) == base_id
                        + 2 + 3 * j,
                device.events@ == base_events + per_image_create_events(base_id, i as int),
                self.max_image_in_flight == old_self.max_image_in_flight,
                self.swapchain_create_info == (SwapchainCreateInfo {
                    image_extent: surface.surface_resolution,
                    ..old_self.swapchain_create_info
                }),
                self.depth_stencil_image == if old_self.depth_stencil_image is Some {
                    depth_image
                } else {
                    old_self.depth_stencil_image
                },
                device_identity(*old(device), *device),
            decreases count - i,
        {
            let view = device.fresh_id();
            device.record(Event::CreateImageView { handle: view });
            let framebuffer = device.fresh_id();
            device.record(Event::CreateFramebuffer { handle: framebuffer });
            let ui_framebuffer = device.fresh_id();
            device.record(Event::CreateFramebuffer { handle: ui_framebuffer });
            self.swapchain_image_views.push(view);
            self.swapchain_framebuffers.push(framebuffer);
            self.swapchain_ui_framebuffers.push(ui_framebuffer);
            proof {
                assert(device.events@ =~= base_events + per_image_create_events(
                    base_id,
                    i + 1,
                ));
            }
            i = i + 1;
        }
        self.swapchain_extent = surface.surface_resolution;
    }

    /// Teardown of the per-image objects, the sampler, the swapchain, and
    /// the depth image when one is owned.
    pub fn destroy(self, device: &mut Device)
        requires
            self.wf(),
            self.depth_stencil_image is Some ==> self.depth_stencil_image->0.wf(),
        ensures
            final(device).next_id == old(device).next_id,
            final(device).events@ == old(device).events@ + seq![
                Event::DestroySampler { handle: self.swapchain_image_sampler },
            ] + per_image_destroy_events(self, self.swapchain_images@.len() as int) + seq![
                Event::DestroySwapchain { handle: self.swapchain },
            ] + (if self.depth_stencil_image is Some {
                image_destroy_events(self.depth_stencil_image->0)
            } else {
                Seq::empty()
            }),
            device_identity(*old(device), *final(device)),
    {
        let ghost snapshot = self;
        let Swapchain {
            swapchain,
            swapchain_image_views,
            swapchain_image_sampler,
            depth_stencil_image,
            swapchain_framebuffers,
            swapchain_ui_framebuffers,
            ..
        } = self;
        device.record(Event::DestroySampler { handle: swapchain_image_sampler });
        let ghost teardown_base = device.events@;
        let count = swapchain_image_views.len();
        let mut i: usize = 0;
        while i < count
            invariant
                i <= count,
                snapshot.wf(),
                count == snapshot.swapchain_images@.len(),
                swapchain_image_views@ == snapshot.swapchain_image_views@,
                swapchain_framebuffers@ == snapshot.swapchain_framebuffers@,
                swapchain_ui_framebuffers@ == snapshot.swapchain_ui_framebuffers@,
                device.next_id == old(device).next_id,
                device.events@ == teardown_base + per_image_destroy_events(snapshot, i as int),
                device_identity(*old(device), *device),
            decreases count - i,
        {
            let view = swapchain_image_views[i];
            device.record(Event::DestroyImageView { handle: view });
            let framebuffer = swapchain_framebuffers[i];
            device.record(Event::DestroyFramebuffer { handle: framebuffer });
            let ui_framebuffer = swapchain_ui_framebuffers[i];
            device.record(Event::DestroyFramebuffer { handle: ui_framebuffer });
            proof {
                assert(device.events@ =~= teardown_base + per_image_destroy_events(
                    snapshot,
                    i + 1,
                ));
            }
            i = i + 1;
        }
        device.record(Event::DestroySwapchain { handle: swapchain });
        if let Some(depth) = depth_stencil_image {
            depth.destroy(device);
        }
        proof {
            assert(final(device).events@ =~= old(device).events@ + seq![
                Event::DestroySampler { handle: snapshot.swapchain_image_sampler },
            ] + per_image_destroy_events(snapshot, snapshot.swapchain_images@.len() as int)
                + seq![Event::DestroySwapchain { handle: snapshot.swapchain }] + (
            if snapshot.depth_stencil_image is Some {
                image_destroy_events(snapshot.depth_stencil_image->0)
            } else {
                Seq::<Event>::empty()
            }));
        }
    }
}

} // verus!
