//! Pipelines: an accumulating builder fixes the shader stages, vertex
//! layout, fixed-function state, resource bindings and target pass before
//! one atomic build. A graphics pipeline keeps its consumed builder so a
//! resize can patch only the viewport and scissor and rebuild, leaving
//! every other piece of state untouched.

use vstd::prelude::*;

use crate::descriptor::DescriptorSet;
use crate::device::{Device, Event, device_identity};
use crate::geometry::Extent2d;
use crate::push_constant::{PushConstant, PushConstantRange};
use crate::shader_module::ShaderModule;

verus! {

/// One vertex buffer binding slot.
#[derive(Clone, Copy, Debug, PartialEq, Eq, Structural)]
pub struct VertexInputBinding {
    pub binding: u32,
    pub stride: u32,
    pub input_rate: u32,
}

/// One vertex attribute within a binding.
#[derive(Clone, Copy, Debug, PartialEq, Eq, Structural)]
pub struct VertexInputAttribute {
    pub location: u32,
    pub binding: u32,
    pub format: u32,
    pub offset: u32,
}

/// The rasterizer's fixed-function switches.
#[derive(Clone, Copy, Debug, PartialEq, Eq, Structural)]
pub struct RasterizationState {
    pub depth_clamp_enable: bool,
    pub rasterizer_discard_enable: bool,
    pub polygon_mode: u32,
    pub cull_mode: u32,
    pub front_face: u32,
    pub depth_bias_enable: bool,
}

/// The multisampling switches.
#[derive(Clone, Copy, Debug, PartialEq, Eq, Structural)]
pub struct MultisampleState {
    pub rasterization_samples: u32,
    pub sample_shading_enable: bool,
    pub alpha_to_coverage_enable: bool,
    pub alpha_to_one_enable: bool,
}

/// The depth and stencil test switches.
#[derive(Clone, Copy, Debug, PartialEq, Eq, Structural)]
pub struct DepthStencilState {
    pub depth_test_enable: bool,
    pub depth_write_enable: bool,
    pub depth_compare_op: u32,
    pub depth_bounds_test_enable: bool,
    pub stencil_test_enable: bool,
}

/// One color attachment's blending configuration.
#[derive(Clone, Copy, Debug, PartialEq, Eq, Structural)]
pub struct ColorBlendAttachment {
    pub blend_enable: bool,
    pub color_write_mask: u32,
    pub src_color_blend_factor: u32,
    pub dst_color_blend_factor: u32,
    pub color_blend_op: u32,
    pub src_alpha_blend_factor: u32,
    pub dst_alpha_blend_factor: u32,
    pub alpha_blend_op: u32,
}

/// Everything a graphics pipeline is built from; retained after the build
/// so that a resize can rebuild from it.
#[derive(Debug)]
pub struct GraphicsPipelineBuilder {
    pub flags: u32,
    pub vertex_module: Option<u64>,
    pub fragment_module: Option<u64>,
    pub vertex_bindings: Vec<VertexInputBinding>,
    pub vertex_attributes: Vec<VertexInputAttribute>,
    pub assembly_topology: u32,
    pub assembly_primitive_restart: bool,
    pub tessellation_patch_control_points: u32,
    pub viewports: Vec<Extent2d>,
    pub scissors: Vec<Extent2d>,
    pub rasterization: RasterizationState,
    pub multisample: MultisampleState,
    pub depth_stencil: DepthStencilState,
    pub color_blend_attachments: Vec<ColorBlendAttachment>,
    pub color_blend_logic_op_enable: bool,
    pub color_blend_logic_op: u32,
    pub dynamic_states: Vec<u32>,
    pub renderpass: u64,
    pub subpass_index: u32,
    pub descriptor_sets: Vec<u64>,
    pub push_constants: Vec<PushConstantRange>,
    pub base_pipeline: u64,
    pub base_pipeline_index: i32,
}

/// True when `b1` is `b0` rebuilt for `extent`: the first viewport and
/// scissor are replaced by the new extent and every other piece of state
/// is carried over unchanged.
pub open spec fn rebuilt_for_extent(
    b0: GraphicsPipelineBuilder,
    b1: GraphicsPipelineBuilder,
    extent: Extent2d,
) -> bool {
    &&& b1.viewports@ == b0.viewports@.update(0, extent)
    &&& b1.scissors@ == b0.scissors@.update(0, extent)
    &&& b1.flags == b0.flags
    &&& b1.vertex_module == b0.vertex_module
    &&& b1.fragment_module == b0.fragment_module
    &&& b1.vertex_bindings@ == b0.vertex_bindings@
    &&& b1.vertex_attributes@ == b0.vertex_attributes@
    &&& b1.assembly_topology == b0.assembly_topology
    &&& b1.assembly_primitive_restart == b0.assembly_primitive_restart
    &&& b1.tessellation_patch_control_points == b0.tessellation_patch_control_points
    &&& b1.rasterization == b0.rasterization
    &&& b1.multisample == b0.multisample
    &&& b1.depth_stencil == b0.depth_stencil
    &&& b1.color_blend_attachments@ == b0.color_blend_attachments@
    &&& b1.color_blend_logic_op_enable == b0.color_blend_logic_op_enable
    &&& b1.color_blend_logic_op == b0.color_blend_logic_op
    &&& b1.dynamic_states@ == b0.dynamic_states@
    &&& b1.renderpass == b0.renderpass
    &&& b1.subpass_index == b0.subpass_index
    &&& b1.descriptor_sets@ == b0.descriptor_sets@
    &&& b1.push_constants@ == b0.push_constants@
    &&& b1.base_pipeline == b0.base_pipeline
    &&& b1.base_pipeline_index == b0.base_pipeline_index
}

/// A built graphics pipeline: its handle, its layout handle, and the
/// builder state it was made from, kept for resize-triggered rebuilds.
#[derive(Debug)]
pub struct GraphicsPipeline {
    pub pipeline: u64,
    pub pipeline_layout: u64,
    pub builder: Option<GraphicsPipelineBuilder>,
}

impl GraphicsPipeline {
    /// An empty builder to accumulate state into.
    pub fn builder() -> (r: GraphicsPipelineBuilder)
        ensures
            r.flags == 0,
            r.vertex_module is None,
            r.fragment_module is None,
            r.vertex_bindings@ =~= Seq::<VertexInputBinding>::empty(),
            r.vertex_attributes@ =~= Seq::<VertexInputAttribute>::empty(),
            r.viewports@ =~= Seq::<Extent2d>::empty(),
            r.scissors@ =~= Seq::<Extent2d>::empty(),
            r.color_blend_attachments@ =~= Seq::<ColorBlendAttachment>::empty(),
            r.dynamic_states@ =~= Seq::<u32>::empty(),
            r.descriptor_sets@ =~= Seq::<u64>::empty(),
            r.push_constants@ =~= Seq::<PushConstantRange>::empty(),
            r.assembly_topology == 0,
            !r.assembly_primitive_restart,
            r.tessellation_patch_control_points == 0,
            r.rasterization == (RasterizationState {
                depth_clamp_enable: false,
                rasterizer_discard_enable: false,
                polygon_mode: 0,
                cull_mode: 0,
                front_face: 0,
                depth_bias_enable: false,
            }),
            r.multisample == (MultisampleState {
                rasterization_samples: 0,
                sample_shading_enable: false,
                alpha_to_coverage_enable: false,
                alpha_to_one_enable: false,
            }),
            r.depth_stencil == (DepthStencilState {
                depth_test_enable: false,
                depth_write_enable: false,
                depth_compare_op: 0,
                depth_bounds_test_enable: false,
                stencil_test_enable: false,
            }),
            !r.color_blend_logic_op_enable,
            r.color_blend_logic_op == 0,
            r.renderpass == 0,
            r.subpass_index == 0,
            r.base_pipeline == 0,
            r.base_pipeline_index == 0,
    {
        GraphicsPipelineBuilder {
            flags: 0,
            vertex_module: None,
            fragment_module: None,
            vertex_bindings: Vec::new(),
            vertex_attributes: Vec::new(),
            assembly_topology: 0,
            assembly_primitive_restart: false,
            tessellation_patch_control_points: 0,
            viewports: Vec::new(),
            scissors: Vec::new(),
            rasterization: RasterizationState {
                depth_clamp_enable: false,
                rasterizer_discard_enable: false,
                polygon_mode: 0,
                cull_mode: 0,
                front_face: 0,
                depth_bias_enable: false,
            },
            multisample: MultisampleState {
                rasterization_samples: 0,
                sample_shading_enable: false,
                alpha_to_coverage_enable: false,
                alpha_to_one_enable: false,
            },
            depth_stencil: DepthStencilState {
                depth_test_enable: false,
                depth_write_enable: false,
                depth_compare_op: 0,
                depth_bounds_test_enable: false,
                stencil_test_enable: false,
            },
            color_blend_attachments: Vec::new(),
            color_blend_logic_op_enable: false,
            color_blend_logic_op: 0,
            dynamic_states: Vec::new(),
            renderpass: 0,
            subpass_index: 0,
            descriptor_sets: Vec::new(),
            push_constants: Vec::new(),
            base_pipeline: 0,
            base_pipeline_index: 0,
        }
    }

    /// Rebuilds the pipeline for a new extent: only the first viewport and
    /// scissor are patched in the retained builder, every other piece of
    /// state is reused unchanged; the new pipeline is built before the old
    /// handles are destroyed.
    pub fn recreate(self, device: &mut Device, extent: Extent2d) -> (r: GraphicsPipeline)
        requires
            self.builder is Some,
            self.builder->0.viewports@.len() >= 1,
            self.builder->0.scissors@.len() >= 1,
            old(device).next_id + 2 <= u64::MAX,
        ensures
            r.pipeline_layout == old(device).next_id,
            r.pipeline == old(device).next_id + 1,
            r.builder is Some,
            rebuilt_for_extent(self.builder->0, r.builder->0, extent),
            final(device).next_id == old(device).next_id + 2,
            final(device).events@ == old(device).events@ + seq![
                Event::CreatePipelineLayout { handle: old(device).next_id },
                Event::CreatePipeline { handle: (old(device).next_id + 1) as u64 },
                Event::DestroyPipeline { handle: self.pipeline },
                Event::DestroyPipelineLayout { handle: self.pipeline_layout },
            ],
            device_identity(*old(device), *final(device)),
    {
        let GraphicsPipeline { pipeline, pipeline_layout, builder } = self;
        let mut builder = builder.unwrap();
        builder.viewports.set(0, extent);
        builder.scissors.set(0, extent);
        let rebuilt = builder.build(device);
        device.record(Event::DestroyPipeline { handle: pipeline });
        device.record(Event::DestroyPipelineLayout { handle: pipeline_layout });
        proof {
            assert(final(device).events@ =~= old(device).events@ + seq![
                Event::CreatePipelineLayout { handle: old(device).next_id },
                Event::CreatePipeline { handle: (old(device).next_id + 1) as u64 },
                Event::DestroyPipeline { handle: self.pipeline },
                Event::DestroyPipelineLayout { handle: self.pipeline_layout },
            ]);
        }
        rebuilt
    }

    /// Destroys the pipeline, then its layout.
    pub fn destroy(self, device: &mut Device)
        ensures
            final(device).next_id == old(device).next_id,
            final(device).events@ == old(device).events@ + seq![
                Event::DestroyPipeline { handle: self.pipeline },
                Event::DestroyPipelineLayout { handle: self.pipeline_layout },
            ],
            device_identity(*old(device), *final(device)),
    {
        device.record(Event::DestroyPipeline { handle: self.pipeline });
        device.record(Event::DestroyPipelineLayout { handle: self.pipeline_layout });
        proof {
            assert(final(device).events@ =~= old(device).events@ + seq![
                Event::DestroyPipeline { handle: self.pipeline },
                Event::DestroyPipelineLayout { handle: self.pipeline_layout },
            ]);
        }
    }
}

impl GraphicsPipelineBuilder {
    /// Sets the vertex-stage shader module.
    pub fn vertex_module_1(self, vertex_module: &ShaderModule) -> (r: Self)
        ensures
            r == (GraphicsPipelineBuilder {
                vertex_module: Some(vertex_module.shader_module),
                ..self
            }),
    {
        GraphicsPipelineBuilder { vertex_module: Some(vertex_module.shader_module), ..self }
    }

    /// Sets the fragment-stage shader module.
    pub fn fragment_module_2(self, fragment_module: &ShaderModule) -> (r: Self)
        ensures
            r == (GraphicsPipelineBuilder {
                fragment_module: Some(fragment_module.shader_module),
                ..self
            }),
    {
        GraphicsPipelineBuilder { fragment_module: Some(fragment_module.shader_module), ..self }
    }

    /// Adds one vertex buffer binding.
    pub fn add_vertex_binding_3(self, binding: u32, stride: u32, input_rate: u32) -> (r: Self)
        ensures
            r.vertex_bindings@ == self.vertex_bindings@.push(
                VertexInputBinding { binding, stride, input_rate },
            ),
            r == (GraphicsPipelineBuilder { vertex_bindings: r.vertex_bindings, ..self }),
    {
        let mut s = self;
        s.vertex_bindings.push(VertexInputBinding { binding, stride, input_rate });
        s
    }

    /// Adds one vertex attribute.
    pub fn add_vertex_attribute_4(
        self,
        location: u32,
        binding: u32,
        format: u32,
        offset: u32,
    ) -> (r: Self)
        ensures
            r.vertex_attributes@ == self.vertex_attributes@.push(
                VertexInputAttribute { location, binding, format, offset },
            ),
            r == (GraphicsPipelineBuilder { vertex_attributes: r.vertex_attributes, ..self }),
    {
        let mut s = self;
        s.vertex_attributes.push(VertexInputAttribute { location, binding, format, offset });
        s
    }

    /// Sets the input-assembly state.
    pub fn assembly_state_5(self, topology: u32, primitive_restart_enable: bool) -> (r: Self)
        ensures
            r == (GraphicsPipelineBuilder {
                assembly_topology: topology,
                assembly_primitive_restart: primitive_restart_enable,
                ..self
            }),
    {
        GraphicsPipelineBuilder {
            assembly_topology: topology,
            assembly_primitive_restart: primitive_restart_enable,
            ..self
        }
    }

    /// Sets the tessellation patch size.
    pub fn tessellation_state_6(self, patch_control_points: u32) -> (r: Self)
        ensures
            r == (GraphicsPipelineBuilder {
                tessellation_patch_control_points: patch_control_points,
                ..self
            }),
    {
        GraphicsPipelineBuilder { tessellation_patch_control_points: patch_control_points, ..self }
    }

    /// Adds one viewport.
    pub fn add_viewport_7(self, viewport: Extent2d) -> (r: Self)
        ensures
            r.viewports@ == self.viewports@.push(viewport),
            r == (GraphicsPipelineBuilder { viewports: r.viewports, ..self }),
    {
        let mut s = self;
        s.viewports.push(viewport);
        s
    }

    /// Adds one scissor rectangle.
    pub fn add_scissor_8(self, scissor: Extent2d) -> (r: Self)
        ensures
            r.scissors@ == self.scissors@.push(scissor),
            r == (GraphicsPipelineBuilder { scissors: r.scissors, ..self }),
    {
        let mut s = self;
        s.scissors.push(scissor);
        s
    }

    /// Sets the rasterization state.
    pub fn rasterization_state_9(
        self,
        depth_clamp_enable: bool,
        rasterizer_discard_enable: bool,
        polygon_mode: u32,
        cull_mode: u32,
        front_face: u32,
        depth_bias_enable: bool,
    ) -> (r: Self)
        ensures
            r == (GraphicsPipelineBuilder {
                rasterization: RasterizationState {
                    depth_clamp_enable,
                    rasterizer_discard_enable,
                    polygon_mode,
                    cull_mode,
                    front_face,
                    depth_bias_enable,
                },
                ..self
            }),
    {
        GraphicsPipelineBuilder {
            rasterization: RasterizationState {
                depth_clamp_enable,
                rasterizer_discard_enable,
                polygon_mode,
                cull_mode,
                front_face,
                depth_bias_enable,
            },
            ..self
        }
    }

    /// Sets the multisample state.
    pub fn multisample_state_10(
        self,
        rasterization_samples: u32,
        sample_shading_enable: bool,
        alpha_to_coverage_enable: bool,
        alpha_to_one_enable: bool,
    ) -> (r: Self)
        ensures
            r == (GraphicsPipelineBuilder {
                multisample: MultisampleState {
                    rasterization_samples,
                    sample_shading_enable,
                    alpha_to_coverage_enable,
                    alpha_to_one_enable,
                },
                ..self
            }),
    {
        GraphicsPipelineBuilder {
            multisample: MultisampleState {
                rasterization_samples,
                sample_shading_enable,
                alpha_to_coverage_enable,
                alpha_to_one_enable,
            },
            ..self
        }
    }

    /// Sets the depth and stencil state.
    pub fn depth_stencil_state_11(
        self,
        depth_test_enable: bool,
        depth_write_enable: bool,
        depth_compare_op: u32,
        depth_bounds_test_enable: bool,
        stencil_test_enable: bool,
    ) -> (r: Self)
        ensures
            r == (GraphicsPipelineBuilder {
                depth_stencil: DepthStencilState {
                    depth_test_enable,
                    depth_write_enable,
                    depth_compare_op,
                    depth_bounds_test_enable,
                    stencil_test_enable,
                },
                ..self
            }),
    {
        GraphicsPipelineBuilder {
            depth_stencil: DepthStencilState {
                depth_test_enable,
                depth_write_enable,
                depth_compare_op,
                depth_bounds_test_enable,
                stencil_test_enable,
            },
            ..self
        }
    }

    /// Adds one color-blend attachment.
    pub fn add_color_blend_attachments_12(
        self,
        blend_enable: bool,
        color_write_mask: u32,
        src_color_blend_factor: u32,
        dst_color_blend_factor: u32,
        color_blend_op: u32,
        src_alpha_blend_factor: u32,
        dst_alpha_blend_factor: u32,
        alpha_blend_op: u32,
    ) -> (r: Self)
        ensures
            r.color_blend_attachments@ == self.color_blend_attachments@.push(
                ColorBlendAttachment {
                    blend_enable,
                    color_write_mask,
                    src_color_blend_factor,
                    dst_color_blend_factor,
                    color_blend_op,
                    src_alpha_blend_factor,
                    dst_alpha_blend_factor,
                    alpha_blend_op,
                },
            ),
            r == (GraphicsPipelineBuilder {
                color_blend_attachments: r.color_blend_attachments,
                ..self
            }),
    {
        let mut s = self;
        s.color_blend_attachments.push(
            ColorBlendAttachment {
                blend_enable,
                color_write_mask,
                src_color_blend_factor,
                dst_color_blend_factor,
                color_blend_op,
                src_alpha_blend_factor,
                dst_alpha_blend_factor,
                alpha_blend_op,
            },
        );
        s
    }

    /// Sets the whole-pipeline blend state.
    pub fn color_blend_state_13(self, logic_op_enable: bool, logic_op: u32) -> (r: Self)
        ensures
            r == (GraphicsPipelineBuilder {
                color_blend_logic_op_enable: logic_op_enable,
                color_blend_logic_op: logic_op,
                ..self
            }),
    {
        GraphicsPipelineBuilder {
            color_blend_logic_op_enable: logic_op_enable,
            color_blend_logic_op: logic_op,
            ..self
        }
    }

    /// Adds one dynamic state.
    pub fn add_dynamic_state_14(self, dynamic_state: u32) -> (r: Self)
        ensures
            r.dynamic_states@ == self.dynamic_states@.push(dynamic_state),
            r == (GraphicsPipelineBuilder { dynamic_states: r.dynamic_states, ..self }),
    {
        let mut s = self;
        s.dynamic_states.push(dynamic_state);
        s
    }

    /// Adds the layout of one descriptor set of the given set object.
    pub fn add_descriptor_set_15(self, descriptor_set: &DescriptorSet, set_index: usize) -> (r:
        Self)
        requires
            set_index < descriptor_set.descriptor_set_layout@.len(),
        ensures
            r.descriptor_sets@ == self.descriptor_sets@.push(
                descriptor_set.descriptor_set_layout@[set_index as int],
            ),
            r == (GraphicsPipelineBuilder { descriptor_sets: r.descriptor_sets, ..self }),
    {
        let mut s = self;
        s.descriptor_sets.push(descriptor_set.descriptor_set_layout[set_index]);
        s
    }

    /// Adds one push-constant range.
    pub fn add_push_constant_16(self, push_constant: &PushConstant) -> (r: Self)
        ensures
            r.push_constants@ == self.push_constants@.push(push_constant.range),
            r == (GraphicsPipelineBuilder { push_constants: r.push_constants, ..self }),
    {
        let mut s = self;
        s.push_constants.push(push_constant.range);
        s
    }

    /// Sets the target render pass and subpass.
    pub fn renderpass_17(self, renderpass: u64, subpass_index: u32) -> (r: Self)
        ensures
            r == (GraphicsPipelineBuilder { renderpass, subpass_index, ..self }),
    {
        GraphicsPipelineBuilder { renderpass, subpass_index, ..self }
    }

    /// Sets the pipeline-derivation base.
    pub fn base_pipeline_18(self, base_pipeline: u64, base_pipeline_index: i32) -> (r: Self)
        ensures
            r == (GraphicsPipelineBuilder { base_pipeline, base_pipeline_index, ..self }),
    {
        GraphicsPipelineBuilder { base_pipeline, base_pipeline_index, ..self }
    }

    /// Sets the pipeline creation flags.
    pub fn flags_19(self, flags: u32) -> (r: Self)
        ensures
            r == (GraphicsPipelineBuilder { flags, ..self }),
    {
        GraphicsPipelineBuilder { flags, ..self }
    }

    /// The one atomic build: creates the pipeline layout from the
    /// accumulated descriptor layouts and push-constant ranges, then the
    /// pipeline itself, and hands back the builder inside the result so a
    /// resize can rebuild from it.
    pub fn build(self, device: &mut Device) -> (r: GraphicsPipeline)
        requires
            old(device).next_id + 2 <= u64::MAX,
        ensures
            r.pipeline_layout == old(device).next_id,
            r.pipeline == old(device).next_id + 1,
            r.builder == Some(self),
            final(device).next_id == old(device).next_id + 2,
            final(device).events@ == old(device).events@ + seq![
                Event::CreatePipelineLayout { handle: r.pipeline_layout },
                Event::CreatePipeline { handle: r.pipeline },
            ],
            device_identity(*old(device), *final(device)),
    {
        let pipeline_layout = device.fresh_id();
        device.record(Event::CreatePipelineLayout { handle: pipeline_layout });
        let pipeline = device.fresh_id();
        device.record(Event::CreatePipeline { handle: pipeline });
        proof {
            assert(final(device).events@ =~= old(device).events@ + seq![
                Event::CreatePipelineLayout { handle: pipeline_layout },
                Event::CreatePipeline { handle: pipeline },
            ]);
        }
        GraphicsPipeline { pipeline, pipeline_layout, builder: Some(self) }
    }
}

/// A built compute pipeline: its handle and its layout handle.
#[derive(Clone, Copy, Debug, PartialEq, Eq, Structural)]
pub struct ComputePipeline {
    pub pipeline: u64,
    pub pipeline_layout: u64,
}

impl ComputePipeline {
    /// An empty builder to accumulate state into.
    pub fn builder() -> (r: ComputePipelineBuilder)
        ensures
            r.pipeline_create_flags == 0,
            r.compute_module is None,
            r.shader_stage_flags == 0,
            r.descriptor_sets@ =~= Seq::<u64>::empty(),
            r.push_constants@ =~= Seq::<PushConstantRange>::empty(),
            r.base_pipeline == 0,
            r.base_pipeline_index == 0,
    {
        ComputePipelineBuilder {
            pipeline_create_flags: 0,
            compute_module: None,
            shader_stage_flags: 0,
            descriptor_sets: Vec::new(),
            push_constants: Vec::new(),
            base_pipeline: 0,
            base_pipeline_index: 0,
        }
    }

    /// Destroys the pipeline, then its layout.
    pub fn destroy(self, device: &mut Device)
        ensures
            final(device).next_id == old(device).next_id,
            final(device).events@ == old(device).events@ + seq![
                Event::DestroyPipeline { handle: self.pipeline },
                Event::DestroyPipelineLayout { handle: self.pipeline_layout },
            ],
            device_identity(*old(device), *final(device)),
    {
        device.record(Event::DestroyPipeline { handle: self.pipeline });
        device.record(Event::DestroyPipelineLayout { handle: self.pipeline_layout });
        proof {
            assert(final(device).events@ =~= old(device).events@ + seq![
                Event::DestroyPipeline { handle: self.pipeline },
                Event::DestroyPipelineLayout { handle: self.pipeline_layout },
            ]);
        }
    }
}

/// Everything a compute pipeline is built from: the same pattern as the
/// graphics builder minus the rasterization-related state.
#[derive(Debug)]
pub struct ComputePipelineBuilder {
    pub pipeline_create_flags: u32,
    pub compute_module: Option<u64>,
    pub shader_stage_flags: u32,
    pub descriptor_sets: Vec<u64>,
    pub push_constants: Vec<PushConstantRange>,
    pub base_pipeline: u64,
    pub base_pipeline_index: i32,
}

impl ComputePipelineBuilder {
    /// Sets the pipeline creation flags.
    pub fn flags(self, pipeline_create_flags: u32) -> (r: Self)
        ensures
            r == (ComputePipelineBuilder { pipeline_create_flags, ..self }),
    {
        ComputePipelineBuilder { pipeline_create_flags, ..self }
    }

    /// Sets the compute-stage shader module and its stage flags.
    pub fn compute_module(self, compute_module: &ShaderModule, flags: u32) -> (r: Self)
        ensures
            r == (ComputePipelineBuilder {
                compute_module: Some(compute_module.shader_module),
                shader_stage_flags: flags,
                ..self
            }),
    {
        ComputePipelineBuilder {
            compute_module: Some(compute_module.shader_module),
            shader_stage_flags: flags,
            ..self
        }
    }

    /// Adds the layout of one descriptor set of the given set object.
    pub fn add_descriptor_set(self, descriptor_set: &DescriptorSet, set_index: usize) -> (r: Self)
        requires
            set_index < descriptor_set.descriptor_set_layout@.len(),
        ensures
            r.descriptor_sets@ == self.descriptor_sets@.push(
                descriptor_set.descriptor_set_layout@[set_index as int],
            ),
            r == (ComputePipelineBuilder { descriptor_sets: r.descriptor_sets, ..self }),
    {
        let mut s = self;
        s.descriptor_sets.push(descriptor_set.descriptor_set_layout[set_index]);
        s
    }

    /// Adds one push-constant range.
    pub fn add_push_constant(self, push_constant: &PushConstant) -> (r: Self)
        ensures
            r.push_constants@ == self.push_constants@.push(push_constant.range),
            r == (ComputePipelineBuilder { push_constants: r.push_constants, ..self }),
    {
        let mut s = self;
        s.push_constants.push(push_constant.range);
        s
    }

    /// Sets the pipeline-derivation base.
    pub fn base_pipeline(self, base_pipeline: u64, base_pipeline_index: i32) -> (r: Self)
        ensures
            r == (ComputePipelineBuilder { base_pipeline, base_pipeline_index, ..self }),
    {
        ComputePipelineBuilder { base_pipeline, base_pipeline_index, ..self }
    }

    /// The one atomic build: the pipeline layout from the accumulated
    /// descriptor layouts and push-constant ranges, then the pipeline.
    pub fn build(self, device: &mut Device) -> (r: ComputePipeline)
        requires
            old(device).next_id + 2 <= u64::MAX,
        ensures
            r.pipeline_layout == old(device).next_id,
            r.pipeline == old(device).next_id + 1,
            final(device).next_id == old(device).next_id + 2,
            final(device).events@ == old(device).events@ + seq![
                Event::CreatePipelineLayout { handle: r.pipeline_layout },
                Event::CreatePipeline { handle: r.pipeline },
            ],
            device_identity(*old(device), *final(device)),
    {
        let pipeline_layout = device.fresh_id();
        device.record(Event::CreatePipelineLayout { handle: pipeline_layout });
        let pipeline = device.fresh_id();
        device.record(Event::CreatePipeline { handle: pipeline });
        proof {
            assert(final(device).events@ =~= old(device).events@ + seq![
                Event::CreatePipelineLayout { handle: pipeline_layout },
                Event::CreatePipeline { handle: pipeline },
            ]);
        }
        ComputePipeline { pipeline, pipeline_layout }
    }
}

} // verus!
