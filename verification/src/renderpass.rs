//! Render passes: attachments, subpasses and dependencies accumulate in a
//! builder, and one build call turns them into the pass object.

use vstd::prelude::*;

use crate::device::{Device, Event, device_identity};
use crate::flags::ImageLayout;

verus! {

/// One attachment of a render pass.
#[derive(Clone, Copy, Debug, PartialEq, Eq, Structural)]
pub struct AttachmentDescription {
    pub format: u32,
    pub samples: u32,
    pub load_op: u32,
    pub store_op: u32,
    pub stencil_load_op: u32,
    pub stencil_store_op: u32,
    pub initial_layout: ImageLayout,
    pub final_layout: ImageLayout,
}

/// A reference to an attachment, with the layout it is used in.
#[derive(Clone, Copy, Debug, PartialEq, Eq, Structural)]
pub struct AttachmentReference {
    pub attachment: u32,
    pub layout: ImageLayout,
}

/// One subpass dependency edge.
#[derive(Clone, Copy, Debug, PartialEq, Eq, Structural)]
pub struct SubpassDependency {
    pub src_subpass: u32,
    pub dst_subpass: u32,
    pub src_stage_mask: u32,
    pub dst_stage_mask: u32,
    pub src_access_mask: u32,
    pub dst_access_mask: u32,
    pub dependency_flags: u32,
}

/// The subpass index that stands for "outside the render pass".
pub const SUBPASS_EXTERNAL: u32 = 0xffff_ffff;

/// A built render pass.
#[derive(Clone, Copy, Debug, PartialEq, Eq, Structural)]
pub struct RenderPass {
    pub renderpass: u64,
}

impl RenderPass {
    /// An empty builder to accumulate state into.
    pub fn builder() -> (r: RenderPassBuilder)
        ensures
            r.attachments@ =~= Seq::<AttachmentDescription>::empty(),
            r.subpass_bind_points@ =~= Seq::<u32>::empty(),
            r.dependencies@ =~= Seq::<SubpassDependency>::empty(),
            r.input_attachments@ =~= Seq::<AttachmentReference>::empty(),
            r.color_attachments@ =~= Seq::<AttachmentReference>::empty(),
            r.depth_stencil_attachment is None,
            r.resolve_attachments@ =~= Seq::<AttachmentReference>::empty(),
            r.preserve_attachments@ =~= Seq::<u32>::empty(),
    {
        RenderPassBuilder {
            attachments: Vec::new(),
            subpass_bind_points: Vec::new(),
            dependencies: Vec::new(),
            input_attachments: Vec::new(),
            color_attachments: Vec::new(),
            depth_stencil_attachment: None,
            resolve_attachments: Vec::new(),
            preserve_attachments: Vec::new(),
        }
    }

    /// Destroys the render pass.
    pub fn destroy(self, device: &mut Device)
        ensures
            final(device).next_id == old(device).next_id,
            final(device).events@ == old(device).events@.push(
                Event::DestroyRenderPass { handle: self.renderpass },
            ),
            device_identity(*old(device), *final(device)),
    {
        device.record(Event::DestroyRenderPass { handle: self.renderpass });
    }
}

/// Accumulates attachments, subpasses and dependencies. The attachment
/// reference lists live on the builder and serve the subpasses as a whole.
#[derive(Debug)]
pub struct RenderPassBuilder {
    pub attachments: Vec<AttachmentDescription>,
    pub subpass_bind_points: Vec<u32>,
    pub dependencies: Vec<SubpassDependency>,
    pub input_attachments: Vec<AttachmentReference>,
    pub color_attachments: Vec<AttachmentReference>,
    pub depth_stencil_attachment: Option<AttachmentReference>,
    pub resolve_attachments: Vec<AttachmentReference>,
    pub preserve_attachments: Vec<u32>,
}

impl RenderPassBuilder {
    /// Adds one attachment description.
    pub fn add_attachment(
        self,
        format: u32,
        samples: u32,
        load_op: u32,
        store_op: u32,
        stencil_load_op: u32,
        stencil_store_op: u32,
        initial_layout: ImageLayout,
        final_layout: ImageLayout,
    ) -> (r: Self)
        ensures
            r.attachments@ == self.attachments@.push(
                AttachmentDescription {
                    format,
                    samples,
                    load_op,
                    store_op,
                    stencil_load_op,
                    stencil_store_op,
                    initial_layout,
                    final_layout,
                },
            ),
            r == (RenderPassBuilder { attachments: r.attachments, ..self }),
    {
        let mut s = self;
        s.attachments.push(
            AttachmentDescription {
                format,
                samples,
                load_op,
                store_op,
                stencil_load_op,
                stencil_store_op,
                initial_layout,
                final_layout,
            },
        );
        s
    }

    /// Adds one subpass: the input references are numbered from zero in
    /// the order their layouts are given, the color references cover
    /// attachments zero through `number_of_color_attachment - 1` in the
    /// color-attachment layout, the resolve references are numbered from
    /// zero likewise, the preserve list is replaced, and a depth-stencil
    /// reference replaces the previous one when given.
    pub fn add_subpasses(
        self,
        pipeline_bind_point: u32,
        input_attachments_layout: Vec<ImageLayout>,
        number_of_color_attachment: u32,
        depth_stencil_attachment: Option<AttachmentReference>,
        resolve_attachments_layout: Vec<ImageLayout>,
        preserve_attachments: Vec<u32>,
    ) -> (r: Self)
        requires
            input_attachments_layout@.len() <= u32::MAX,
            resolve_attachments_layout@.len() <= u32::MAX,
        ensures
            r.input_attachments@ == self.input_attachments@ + Seq::new(
                input_attachments_layout@.len(),
                |k: int| AttachmentReference {
                    attachment: k as u32,
                    layout: input_attachments_layout@[k],
                },
            ),
            r.color_attachments@ == self.color_attachments@ + Seq::new(
                number_of_color_attachment as nat,
                |k: int| AttachmentReference {
                    attachment: k as u32,
                    layout: ImageLayout::ColorAttachmentOptimal,
                },
            ),
            r.resolve_attachments@ == self.resolve_attachments@ + Seq::new(
                resolve_attachments_layout@.len(),
                |k: int| AttachmentReference {
                    attachment: k as u32,
                    layout: resolve_attachments_layout@[k],
                },
            ),
            r.preserve_attachments@ == preserve_attachments@,
            r.depth_stencil_attachment == if depth_stencil_attachment is Some {
                depth_stencil_attachment
            } else {
                self.depth_stencil_attachment
            },
            r.subpass_bind_points@ == self.subpass_bind_points@.push(pipeline_bind_point),
            r.attachments@ == self.attachments@,
            r.dependencies@ == self.dependencies@,
    {
        let mut s = self;
        let ghost base_inputs = s.input_attachments@;
        let mut attachment: u32 = 0;
        let input_count = input_attachments_layout.len();
        let mut k: usize = 0;
        while k < input_count
            invariant
                k <= input_count,
                input_count == input_attachments_layout@.len(),
                input_count <= u32::MAX,
                attachment == k,
                s.input_attachments@ == base_inputs + Seq::new(
                    k as nat,
                    |j: int| AttachmentReference {
                        attachment: j as u32,
                        layout: input_attachments_layout@[j],
                    },
                ),
                s.color_attachments@ == self.color_attachments@,
                s.resolve_attachments@ == self.resolve_attachments@,
                s.preserve_attachments@ == self.preserve_attachments@,
                s.depth_stencil_attachment == self.depth_stencil_attachment,
                s.subpass_bind_points@ == self.subpass_bind_points@,
                s.attachments@ == self.attachments@,
                s.dependencies@ == self.dependencies@,
            decreases input_count - k,
        {
            s.input_attachments.push(
                AttachmentReference { attachment, layout: input_attachments_layout[k] },
            );
            proof {
                assert(s.input_attachments@ =~= base_inputs + Seq::new(
                    (k + 1) as nat,
                    |j: int| AttachmentReference {
                        attachment: j as u32,
                        layout: input_attachments_layout@[j],
                    },
                ));
            }
            attachment = attachment + 1;
            k = k + 1;
        }

        let ghost base_colors = s.color_attachments@;
        let mut i: u32 = 0;
        while i < number_of_color_attachment
            invariant
                i <= number_of_color_attachment,
                s.color_attachments@ == base_colors + Seq::new(
                    i as nat,
                    |j: int| AttachmentReference {
                        attachment: j as u32,
                        layout: ImageLayout::ColorAttachmentOptimal,
                    },
                ),
                s.input_attachments@ == base_inputs + Seq::new(
                    input_attachments_layout@.len(),
                    |j: int| AttachmentReference {
                        attachment: j as u32,
                        layout: input_attachments_layout@[j],
                    },
                ),
                s.resolve_attachments@ == self.resolve_attachments@,
                s.preserve_attachments@ == self.preserve_attachments@,
                s.depth_stencil_attachment == self.depth_stencil_attachment,
                s.subpass_bind_points@ == self.subpass_bind_points@,
                s.attachments@ == self.attachments@,
                s.dependencies@ == self.dependencies@,
            decreases number_of_color_attachment - i,
        {
            s.color_attachments.push(
                AttachmentReference {
                    attachment: i,
                    layout: ImageLayout::ColorAttachmentOptimal,
                },
            );
            proof {
                assert(s.color_attachments@ =~= base_colors + Seq::new(
                    (i + 1) as nat,
                    |j: int| AttachmentReference {
                        attachment: j as u32,
                        layout: ImageLayout::ColorAttachmentOptimal,
                    },
                ));
            }
            i = i + 1;
        }

        let ghost base_resolves = s.resolve_attachments@;
        let resolve_count = resolve_attachments_layout.len();
        let mut attachment: u32 = 0;
        let mut k: usize = 0;
        while k < resolve_count
            invariant
                k <= resolve_count,
                resolve_count == resolve_attachments_layout@.len(),
                resolve_count <= u32::MAX,
                attachment == k,
                s.resolve_attachments@ == base_resolves + Seq::new(
                    k as nat,
                    |j: int| AttachmentReference {
                        attachment: j as u32,
                        layout: resolve_attachments_layout@[j],
                    },
                ),
                s.input_attachments@ == base_inputs + Seq::new(
                    input_attachments_layout@.len(),
                    |j: int| AttachmentReference {
                        attachment: j as u32,
                        layout: input_attachments_layout@[j],
                    },
                ),
                s.color_attachments@ == base_colors + Seq::new(
                    number_of_color_attachment as nat,
                    |j: int| AttachmentReference {
                        attachment: j as u32,
                        layout: ImageLayout::ColorAttachmentOptimal,
                    },
                ),
                s.preserve_attachments@ == self.preserve_attachments@,
                s.depth_stencil_attachment == self.depth_stencil_attachment,
                s.subpass_bind_points@ == self.subpass_bind_points@,
                s.attachments@ == self.attachments@,
                s.dependencies@ == self.dependencies@,
            decreases resolve_count - k,
        {
            s.resolve_attachments.push(
                AttachmentReference { attachment, layout: resolve_attachments_layout[k] },
            );
            proof {
                assert(s.resolve_attachments@ =~= base_resolves + Seq::new(
                    (k + 1) as nat,
                    |j: int| AttachmentReference {
                        attachment: j as u32,
                        layout: resolve_attachments_layout@[j],
                    },
                ));
            }
            attachment = attachment + 1;
            k = k + 1;
        }

        s.preserve_attachments = preserve_attachments;
        if depth_stencil_attachment.is_some() {
            s.depth_stencil_attachment = depth_stencil_attachment;
        }
        s.subpass_bind_points.push(pipeline_bind_point);
        s
    }

    /// Adds one dependency edge between subpasses.
    pub fn add_dependencies(
        self,
        src_subpass: u32,
        dst_subpass: u32,
        src_stage_mask: u32,
        dst_stage_mask: u32,
        src_access_mask: u32,
        dst_access_mask: u32,
        dependency_flags: u32,
    ) -> (r: Self)
        ensures
            r.dependencies@ == self.dependencies@.push(
                SubpassDependency {
                    src_subpass,
                    dst_subpass,
                    src_stage_mask,
                    dst_stage_mask,
                    src_access_mask,
                    dst_access_mask,
                    dependency_flags,
                },
            ),
            r == (RenderPassBuilder { dependencies: r.dependencies, ..self }),
    {
        let mut s = self;
        s.dependencies.push(
            SubpassDependency {
                src_subpass,
                dst_subpass,
                src_stage_mask,
                dst_stage_mask,
                src_access_mask,
                dst_access_mask,
                dependency_flags,
            },
        );
        s
    }

    /// Builds the render pass from the accumulated state.
    pub fn build(self, device: &mut Device) -> (r: RenderPass)
        requires
            old(device).next_id < u64::MAX,
        ensures
            r.renderpass == old(device).next_id,
            final(device).next_id == old(device).next_id + 1,
            final(device).events@ == old(device).events@.push(
                Event::CreateRenderPass { handle: r.renderpass },
            ),
            device_identity(*old(device), *final(device)),
    {
        let handle = device.fresh_id();
        device.record(Event::CreateRenderPass { handle });
        RenderPass { renderpass: handle }
    }
}

} // verus!
