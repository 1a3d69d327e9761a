use bloom_engine::bloom::update_descriptor;
use bloom_engine::descriptor::{DescriptorSet, LayoutBinding};
use bloom_engine::device::{Device, Event, QueueFamilyProps};
use bloom_engine::flags::{
    ImageLayout, ALLOC_FAST_DEVICE_ACCESS, ASPECT_COLOR, DESCRIPTOR_TYPE_COMBINED_IMAGE_SAMPLER,
    DESCRIPTOR_TYPE_STORAGE_IMAGE, DESCRIPTOR_TYPE_UNIFORM_BUFFER, FORMAT_D24_UNORM_S8_UINT,
    FORMAT_D32_SFLOAT, FORMAT_R16G16B16A16_SFLOAT, FORMAT_UNDEFINED,
    FORMAT_FEATURE_DEPTH_STENCIL_ATTACHMENT, IMAGE_USAGE_SAMPLED, IMAGE_USAGE_STORAGE,
    QUEUE_COMPUTE, QUEUE_GRAPHICS, QUEUE_TRANSFER, SHADER_STAGE_COMPUTE,
};
use bloom_engine::engine::{next_frame_index, recreate_pipelines, select_depth_format};
use bloom_engine::geometry::{Extent2d, Extent3d};
use bloom_engine::image::Image;
use bloom_engine::pipeline::{ComputePipeline, GraphicsPipeline};
use bloom_engine::push_constant::PushConstant;
use bloom_engine::renderpass::RenderPass;
use bloom_engine::shader_module::ShaderModule;

fn test_device() -> Device {
    Device::new(&vec![vec![QueueFamilyProps {
        queue_count: 4,
        queue_flags: QUEUE_GRAPHICS | QUEUE_COMPUTE | QUEUE_TRANSFER,
    }]])
}

fn spv_magic_bytes() -> Vec<u8> {
    vec![0x03, 0x02, 0x23, 0x07]
}

#[test]
fn push_constant_payload_is_replaced_wholesale() {
    let mut push = PushConstant::new(0, 4, SHADER_STAGE_COMPUTE, vec![1, 2, 3, 4]);
    assert_eq!(push.range.size, 4);
    assert_eq!(push.range.stage_flags, SHADER_STAGE_COMPUTE);
    push.set_data(vec![9, 9, 9, 9]);
    assert_eq!(push.data, vec![9, 9, 9, 9]);
    assert_eq!(push.range.size, 4);
}

#[test]
fn compute_pipeline_build_accumulates_layouts_and_ranges() {
    let mut device = test_device();
    let module = ShaderModule::new(&mut device, &spv_magic_bytes(), &b"main".to_vec()).unwrap();
    let descriptors = DescriptorSet::new(
        &mut device,
        vec![(DESCRIPTOR_TYPE_UNIFORM_BUFFER, 1)],
        1,
        vec![LayoutBinding {
            binding: 0,
            descriptor_type: DESCRIPTOR_TYPE_UNIFORM_BUFFER,
            descriptor_count: 1,
            stage_flags: SHADER_STAGE_COMPUTE,
        }],
    );
    let push = PushConstant::new(0, 4, SHADER_STAGE_COMPUTE, vec![0, 0, 0, 0]);
    let builder = ComputePipeline::builder()
        .add_push_constant(&push)
        .add_descriptor_set(&descriptors, 0)
        .compute_module(&module, 0);
    assert_eq!(builder.descriptor_sets, vec![descriptors.descriptor_set_layout[0]]);
    assert_eq!(builder.push_constants.len(), 1);
    let before = device.events.len();
    let pipeline = builder.build(&mut device);
    let appended = &device.events[before..];
    assert_eq!(
        appended,
        &[
            Event::CreatePipelineLayout { handle: pipeline.pipeline_layout },
            Event::CreatePipeline { handle: pipeline.pipeline },
        ],
    );
    let before = device.events.len();
    pipeline.destroy(&mut device);
    let appended = &device.events[before..];
    assert!(matches!(appended[0], Event::DestroyPipeline { .. }));
    assert!(matches!(appended[1], Event::DestroyPipelineLayout { .. }));
}

#[test]
fn graphics_pipeline_recreate_patches_only_viewport_and_scissor() {
    let mut device = test_device();
    let builder = GraphicsPipeline::builder()
        .add_vertex_binding_3(0, 32, 0)
        .add_vertex_attribute_4(0, 0, 106, 0)
        .assembly_state_5(3, false)
        .add_viewport_7(Extent2d { width: 1080, height: 720 })
        .add_scissor_8(Extent2d { width: 1080, height: 720 })
        .renderpass_17(42, 0);
    let pipeline = builder.build(&mut device);
    let old_handles = (pipeline.pipeline, pipeline.pipeline_layout);
    let before = device.events.len();
    let rebuilt = pipeline.recreate(&mut device, Extent2d { width: 640, height: 480 });
    let b = rebuilt.builder.as_ref().unwrap();
    assert_eq!(b.viewports, vec![Extent2d { width: 640, height: 480 }]);
    assert_eq!(b.scissors, vec![Extent2d { width: 640, height: 480 }]);
    assert_eq!(b.vertex_bindings.len(), 1);
    assert_eq!(b.vertex_attributes.len(), 1);
    assert_eq!(b.assembly_topology, 3);
    assert_eq!(b.renderpass, 42);
    // The new pipeline is built before the old handles are destroyed.
    let appended = &device.events[before..];
    assert_eq!(
        appended,
        &[
            Event::CreatePipelineLayout { handle: rebuilt.pipeline_layout },
            Event::CreatePipeline { handle: rebuilt.pipeline },
            Event::DestroyPipeline { handle: old_handles.0 },
            Event::DestroyPipelineLayout { handle: old_handles.1 },
        ],
    );
}

#[test]
fn resize_rebuilds_every_pipeline_and_keeps_their_order() {
    let mut device = test_device();
    let mut pipelines = Vec::new();
    for subpass in 0..3 {
        let builder = GraphicsPipeline::builder()
            .add_viewport_7(Extent2d { width: 1080, height: 720 })
            .add_scissor_8(Extent2d { width: 1080, height: 720 })
            .renderpass_17(7, subpass);
        pipelines.push(builder.build(&mut device));
    }
    let rebuilt = recreate_pipelines(&mut device, pipelines, Extent2d { width: 300, height: 200 });
    assert_eq!(rebuilt.len(), 3);
    for (i, pipeline) in rebuilt.iter().enumerate() {
        let b = pipeline.builder.as_ref().unwrap();
        // Order is preserved: the pipeline at each index still targets the
        // subpass it targeted before the resize.
        assert_eq!(b.subpass_index, i as u32);
        assert_eq!(b.viewports, vec![Extent2d { width: 300, height: 200 }]);
        assert_eq!(b.scissors, vec![Extent2d { width: 300, height: 200 }]);
    }
}

#[test]
fn depth_format_selection_takes_the_first_capable_candidate() {
    let candidates = vec![
        (FORMAT_D32_SFLOAT, 0),
        (FORMAT_D24_UNORM_S8_UINT, FORMAT_FEATURE_DEPTH_STENCIL_ATTACHMENT),
        (FORMAT_D32_SFLOAT, FORMAT_FEATURE_DEPTH_STENCIL_ATTACHMENT),
    ];
    assert_eq!(select_depth_format(&candidates), FORMAT_D24_UNORM_S8_UINT);
    assert_eq!(select_depth_format(&vec![(FORMAT_D32_SFLOAT, 0)]), FORMAT_UNDEFINED);
    assert_eq!(select_depth_format(&vec![]), FORMAT_UNDEFINED);
}

#[test]
fn frame_index_wraps_at_the_in_flight_limit() {
    assert_eq!(next_frame_index(0, 3), 1);
    assert_eq!(next_frame_index(2, 3), 0);
    assert_eq!(next_frame_index(0, 1), 0);
}

#[test]
fn descriptor_set_appends_pairs_from_the_same_pool() {
    let mut device = test_device();
    let mut descriptors = DescriptorSet::new(
        &mut device,
        vec![(DESCRIPTOR_TYPE_UNIFORM_BUFFER, 2)],
        2,
        vec![
            LayoutBinding {
                binding: 0,
                descriptor_type: DESCRIPTOR_TYPE_UNIFORM_BUFFER,
                descriptor_count: 1,
                stage_flags: SHADER_STAGE_COMPUTE,
            },
            LayoutBinding {
                binding: 1,
                descriptor_type: DESCRIPTOR_TYPE_STORAGE_IMAGE,
                descriptor_count: 1,
                stage_flags: SHADER_STAGE_COMPUTE,
            },
        ],
    );
    assert_eq!(descriptors.descriptor_set.len(), 1);
    assert_eq!(descriptors.descriptor_set_layout.len(), 1);
    let pool = descriptors.descriptor_pool.descriptor_pool;
    descriptors.create_another_set(
        &mut device,
        vec![LayoutBinding {
            binding: 0,
            descriptor_type: DESCRIPTOR_TYPE_UNIFORM_BUFFER,
            descriptor_count: 1,
            stage_flags: SHADER_STAGE_COMPUTE,
        }],
    );
    assert_eq!(descriptors.descriptor_set.len(), 2);
    assert_eq!(descriptors.descriptor_set_layout.len(), 2);
    // Still the same pool: appended sets draw from the original histogram.
    assert_eq!(descriptors.descriptor_pool.descriptor_pool, pool);

    let before = device.events.len();
    descriptors.update_descriptor_set(&mut device, 1, 1, None, None);
    let appended = &device.events[before..];
    assert_eq!(
        appended,
        &[Event::UpdateDescriptorSet {
            set: descriptors.descriptor_set[1],
            binding: 1,
            descriptor_type: DESCRIPTOR_TYPE_STORAGE_IMAGE,
        }],
    );
}

#[test]
fn bloom_descriptor_refresh_writes_exactly_three_bindings() {
    let mut device = test_device();
    let mut bloom_images = Vec::new();
    for _ in 0..3 {
        let queue_family_index = device.queue_family_index;
        let mut image = Image::new(
            &mut device,
            0,
            1,
            FORMAT_R16G16B16A16_SFLOAT,
            Extent3d { width: 128, height: 128, depth: 1 },
            7,
            1,
            0,
            IMAGE_USAGE_STORAGE | IMAGE_USAGE_SAMPLED,
            queue_family_index,
            ImageLayout::Undefined,
            ImageLayout::General,
            1,
            ASPECT_COLOR,
            ALLOC_FAST_DEVICE_ACCESS,
        );
        image.set_sampler(&mut device, 0, 0, 0, 0, 0, 0, false, false, 0, 0);
        bloom_images.push(image);
    }
    let descriptors = DescriptorSet::new(
        &mut device,
        vec![(DESCRIPTOR_TYPE_UNIFORM_BUFFER, 1)],
        1,
        vec![
            LayoutBinding {
                binding: 0,
                descriptor_type: DESCRIPTOR_TYPE_STORAGE_IMAGE,
                descriptor_count: 22,
                stage_flags: SHADER_STAGE_COMPUTE,
            },
            LayoutBinding {
                binding: 1,
                descriptor_type: DESCRIPTOR_TYPE_COMBINED_IMAGE_SAMPLER,
                descriptor_count: 4,
                stage_flags: SHADER_STAGE_COMPUTE,
            },
            LayoutBinding {
                binding: 2,
                descriptor_type: DESCRIPTOR_TYPE_COMBINED_IMAGE_SAMPLER,
                descriptor_count: 4,
                stage_flags: SHADER_STAGE_COMPUTE,
            },
        ],
    );
    let before = device.events.len();
    update_descriptor(&mut device, &descriptors, &bloom_images, 500, 501);
    let appended = &device.events[before..];
    let set = descriptors.descriptor_set[0];
    assert_eq!(
        appended,
        &[
            Event::UpdateDescriptorSet {
                set,
                binding: 0,
                descriptor_type: DESCRIPTOR_TYPE_STORAGE_IMAGE,
            },
            Event::UpdateDescriptorSet {
                set,
                binding: 1,
                descriptor_type: DESCRIPTOR_TYPE_COMBINED_IMAGE_SAMPLER,
            },
            Event::UpdateDescriptorSet {
                set,
                binding: 2,
                descriptor_type: DESCRIPTOR_TYPE_COMBINED_IMAGE_SAMPLER,
            },
        ],
    );
}

#[test]
fn bloom_output_slot_table_maps_slot_to_image_and_mip() {
    let mut device = test_device();
    let mut bloom_images = Vec::new();
    for _ in 0..3 {
        let queue_family_index = device.queue_family_index;
        bloom_images.push(Image::new(
            &mut device,
            0,
            1,
            FORMAT_R16G16B16A16_SFLOAT,
            Extent3d { width: 128, height: 128, depth: 1 },
            7,
            1,
            0,
            IMAGE_USAGE_STORAGE,
            queue_family_index,
            ImageLayout::Undefined,
            ImageLayout::General,
            1,
            ASPECT_COLOR,
            ALLOC_FAST_DEVICE_ACCESS,
        ));
    }
    let infos = bloom_engine::bloom::bloom_output_image_infos(&bloom_images, 900);
    assert_eq!(infos.len(), 22);
    for (k, info) in infos.iter().take(21).enumerate() {
        let expected = bloom_images[k / 7].mip_image_views[k % 7].handle;
        assert_eq!(info.image_view, expected);
        assert_eq!(info.sampler, None);
        assert_eq!(info.image_layout, ImageLayout::General);
    }
    assert_eq!(infos[21].image_view, 900);
}

#[test]
fn render_pass_builder_numbers_color_references() {
    let mut device = test_device();
    let builder = RenderPass::builder()
        .add_attachment(
            FORMAT_R16G16B16A16_SFLOAT,
            1,
            0,
            0,
            0,
            0,
            ImageLayout::Undefined,
            ImageLayout::PresentSrc,
        )
        .add_subpasses(
            0,
            vec![ImageLayout::General],
            2,
            None,
            vec![],
            vec![5],
        );
    assert_eq!(builder.input_attachments.len(), 1);
    assert_eq!(builder.input_attachments[0].attachment, 0);
    assert_eq!(builder.input_attachments[0].layout, ImageLayout::General);
    assert_eq!(builder.color_attachments.len(), 2);
    assert_eq!(builder.color_attachments[0].attachment, 0);
    assert_eq!(builder.color_attachments[1].attachment, 1);
    assert_eq!(builder.color_attachments[1].layout, ImageLayout::ColorAttachmentOptimal);
    assert_eq!(builder.preserve_attachments, vec![5]);
    assert!(builder.depth_stencil_attachment.is_none());
    let before = device.events.len();
    let pass = builder.build(&mut device);
    assert_eq!(
        &device.events[before..],
        &[Event::CreateRenderPass { handle: pass.renderpass }],
    );
}
