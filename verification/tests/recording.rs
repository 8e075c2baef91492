use std::rc::Rc;

use caldeira::vulkan::flags;
use caldeira::vulkan::structs::{
    BufferCopy, BufferImageCopy, BufferMemoryBarrier, ClearAttachment, ClearRect, ClearValue,
    Extent2D, Extent3D, ImageBlit, ImageCopy, ImageMemoryBarrier, ImageResolve,
    ImageSubresourceLayers, ImageSubresourceRange, MemoryBarrier, Offset2D, Offset3D, Rect2D,
};
use caldeira::vulkan::{
    Buffer, ClearError, Command, CommandBufferRecorder, CommandBufferState, CommandPool,
    ComputePipeline, CopyError, DispatchError, DrawError, GraphicsPipeline, Image, QueueFamily,
    QueueFamilyProperties, UnsupportedOperation,
};

fn recorder_on(queue_flags: u32) -> CommandBufferRecorder<'static> {
    let family = QueueFamily::new(
        QueueFamilyProperties {
            queue_flags,
            queue_count: 1,
            timestamp_valid_bits: 0,
            min_image_transfer_granularity: Extent3D { width: 1, height: 1, depth: 1 },
        },
        2,
        1,
    );
    let pool = Rc::new(CommandPool::new(&family, 30));
    let mut buffers = pool.allocate_command_buffers(flags::COMMAND_BUFFER_LEVEL_PRIMARY, vec![40]);
    buffers.remove(0).begin(0)
}

fn layers() -> ImageSubresourceLayers {
    ImageSubresourceLayers { aspect_mask: 1, mip_level: 0, base_array_layer: 0, layer_count: 1 }
}

fn origin() -> Offset3D {
    Offset3D { x: 0, y: 0, z: 0 }
}

fn image_in(handle: u64, layout: i32) -> Image {
    let mut image = Image::new(handle, handle + 1, handle + 2, 8, 8);
    image.layout = layout;
    image
}

#[test]
fn begin_opens_a_session_with_the_begin_call() {
    let recorder = recorder_on(flags::QUEUE_COMPUTE);
    assert_eq!(recorder.commands(), &vec![Command::Begin { usage: 0 }]);
    assert_eq!(recorder.state(), CommandBufferState::Recording);
    assert!(!recorder.is_render_pass_open());
    assert!(recorder.can_end());
}

#[test]
fn compute_family_refuses_the_graphics_view_and_records_a_dispatch() {
    let mut recorder = recorder_on(flags::QUEUE_COMPUTE);
    assert!(matches!(recorder.as_graphics_command_buffer(), Err(UnsupportedOperation)));
    assert_eq!(recorder.commands().len(), 1);
    {
        let mut compute = recorder.as_compute_command_buffer().unwrap();
        assert!(compute.dispatch(100, 100, 1).is_ok());
    }
    assert_eq!(
        recorder.commands(),
        &vec![
            Command::Begin { usage: 0 },
            Command::Dispatch { group_count_x: 100, group_count_y: 100, group_count_z: 1 },
        ]
    );
}

#[test]
fn each_view_is_gated_by_its_capability() {
    let mut graphics = recorder_on(flags::QUEUE_GRAPHICS);
    assert!(graphics.as_graphics_command_buffer().is_ok());
    assert!(graphics.as_compute_command_buffer().is_err());
    assert!(graphics.as_transfer_command_buffer().is_ok());
    assert!(graphics.as_generic().as_generic_graphics().is_ok());
    assert!(graphics.as_generic().as_generic_compute().is_err());

    let mut compute = recorder_on(flags::QUEUE_COMPUTE);
    assert!(compute.as_graphics_command_buffer().is_err());
    assert!(compute.as_compute_command_buffer().is_ok());
    assert!(compute.as_transfer_command_buffer().is_ok());
    assert!(compute.as_generic().as_generic_graphics().is_err());
    assert!(compute.as_generic().as_generic_compute().is_ok());

    let mut transfer = recorder_on(flags::QUEUE_TRANSFER);
    assert!(transfer.as_graphics_command_buffer().is_err());
    assert!(transfer.as_compute_command_buffer().is_err());
    assert!(transfer.as_transfer_command_buffer().is_ok());

    let mut sparse = recorder_on(flags::QUEUE_SPARSE_BINDING);
    assert!(sparse.as_graphics_command_buffer().is_err());
    assert!(sparse.as_compute_command_buffer().is_err());
    assert!(sparse.as_transfer_command_buffer().is_err());
    let _ = sparse.as_generic();
    assert_eq!(sparse.commands().len(), 1);
}

#[test]
fn a_refused_view_leaves_the_session_as_it_was() {
    let mut recorder = recorder_on(flags::QUEUE_TRANSFER);
    assert!(recorder.as_compute_command_buffer().is_err());
    assert!(recorder.as_graphics_command_buffer().is_err());
    assert_eq!(recorder.commands(), &vec![Command::Begin { usage: 0 }]);
    assert_eq!(recorder.state(), CommandBufferState::Recording);
}

#[test]
fn generic_pipeline_barrier_carries_all_three_lists() {
    let memory = [MemoryBarrier { src_access_mask: 1, dst_access_mask: 2 }];
    let buffers = [BufferMemoryBarrier {
        src_access_mask: 3,
        dst_access_mask: 4,
        src_queue_family_index: 5,
        dst_queue_family_index: 6,
        buffer: 7,
        offset: 8,
        size: 9,
    }];
    let images = [ImageMemoryBarrier {
        src_access_mask: 10,
        dst_access_mask: 11,
        old_layout: 0,
        new_layout: 1,
        src_queue_family_index: 12,
        dst_queue_family_index: 13,
        image: 14,
        subresource_range: ImageSubresourceRange {
            aspect_mask: 1,
            base_mip_level: 0,
            level_count: 1,
            base_array_layer: 0,
            layer_count: 1,
        },
    }];
    let mut recorder = recorder_on(flags::QUEUE_SPARSE_BINDING);
    recorder.as_generic().pipeline_barrier(0x1, 0x1000, 1, &memory, &buffers, &images);
    assert_eq!(
        recorder.commands()[1],
        Command::PipelineBarrier {
            src_stage_mask: 0x1,
            dst_stage_mask: 0x1000,
            dependency_flags: 1,
            memory_barriers: memory.to_vec(),
            buffer_memory_barriers: buffers.to_vec(),
            image_memory_barriers: images.to_vec(),
        }
    );
}

#[test]
fn compute_bindings_need_a_pipeline_before_descriptor_sets() {
    let pipeline = ComputePipeline::new(50, 51);
    let sets = [60u64, 61];
    let offsets = [7u32];
    let mut recorder = recorder_on(flags::QUEUE_COMPUTE);
    {
        let mut generic = recorder.as_generic();
        let mut bindings = generic.as_generic_compute().unwrap();
        assert!(matches!(bindings.bind_descriptor_sets(&sets, None), Err(UnsupportedOperation)));
    }
    assert_eq!(recorder.commands().len(), 1);
    {
        let mut generic = recorder.as_generic();
        let mut bindings = generic.as_generic_compute().unwrap();
        bindings
            .bind_pipeline(&pipeline)
            .bind_descriptor_sets(&sets, None)
            .unwrap()
            .bind_descriptor_sets(&sets, Some(&offsets))
            .unwrap();
    }
    assert_eq!(
        recorder.commands()[1..],
        [
            Command::BindPipeline { bind_point: flags::PIPELINE_BIND_POINT_COMPUTE, pipeline: 50 },
            Command::BindDescriptorSets {
                bind_point: flags::PIPELINE_BIND_POINT_COMPUTE,
                layout: 51,
                first_set: 0,
                descriptor_sets: vec![60, 61],
                dynamic_offsets: vec![],
            },
            Command::BindDescriptorSets {
                bind_point: flags::PIPELINE_BIND_POINT_COMPUTE,
                layout: 51,
                first_set: 0,
                descriptor_sets: vec![60, 61],
                dynamic_offsets: vec![7],
            },
        ]
    );
}

#[test]
fn graphics_bindings_need_a_pipeline_before_descriptor_sets() {
    let pipeline = GraphicsPipeline { layout: 71, pipeline: 70 };
    let sets = [60u64];
    let mut recorder = recorder_on(flags::QUEUE_GRAPHICS);
    {
        let mut generic = recorder.as_generic();
        let mut bindings = generic.as_generic_graphics().unwrap();
        assert!(bindings.bind_descriptor_sets(&sets, None).is_err());
        bindings.bind_pipeline(&pipeline).bind_descriptor_sets(&sets, None).unwrap();
    }
    assert_eq!(
        recorder.commands()[1..],
        [
            Command::BindPipeline { bind_point: flags::PIPELINE_BIND_POINT_GRAPHICS, pipeline: 70 },
            Command::BindDescriptorSets {
                bind_point: flags::PIPELINE_BIND_POINT_GRAPHICS,
                layout: 71,
                first_set: 0,
                descriptor_sets: vec![60],
                dynamic_offsets: vec![],
            },
        ]
    );
}

#[test]
fn vertex_buffers_must_carry_the_vertex_usage() {
    let vertex = Buffer::new(16, flags::BUFFER_USAGE_VERTEX_BUFFER, 0, 80, 81);
    let storage = Buffer::new(16, flags::BUFFER_USAGE_STORAGE_BUFFER, 0, 82, 83);
    let good = [(vertex, 0u64), (vertex, 8)];
    let bad = [(vertex, 0u64), (storage, 8)];
    let mut recorder = recorder_on(flags::QUEUE_GRAPHICS);
    {
        let mut generic = recorder.as_generic();
        let mut bindings = generic.as_generic_graphics().unwrap();
        assert!(matches!(bindings.bind_vertex_buffers(3, &bad), Err(DrawError::Draw)));
    }
    assert_eq!(recorder.commands().len(), 1);
    {
        let mut generic = recorder.as_generic();
        let mut bindings = generic.as_generic_graphics().unwrap();
        assert!(bindings.bind_vertex_buffers(3, &good).is_ok());
    }
    assert_eq!(
        recorder.commands()[1],
        Command::BindVertexBuffers { first_binding: 3, buffers: vec![80, 80], offsets: vec![0, 8] }
    );
}

#[test]
fn index_buffer_must_carry_the_index_usage() {
    let index = Buffer::new(16, flags::BUFFER_USAGE_INDEX_BUFFER, 0, 90, 91);
    let vertex = Buffer::new(16, flags::BUFFER_USAGE_VERTEX_BUFFER, 0, 92, 93);
    let mut recorder = recorder_on(flags::QUEUE_GRAPHICS);
    {
        let mut generic = recorder.as_generic();
        let mut bindings = generic.as_generic_graphics().unwrap();
        assert!(matches!(bindings.bind_index_buffer(&vertex, 0, 1), Err(DrawError::Indexed)));
        assert!(bindings.bind_index_buffer(&index, 4, 1).is_ok());
    }
    assert_eq!(
        recorder.commands()[1..],
        [Command::BindIndexBuffer { buffer: 90, offset: 4, index_type: 1 }]
    );
}

#[test]
fn dispatch_indirect_names_the_buffer_and_offset() {
    let buffer = Buffer::new(16, flags::BUFFER_USAGE_INDIRECT_BUFFER, 0, 100, 101);
    let storage = Buffer::new(16, flags::BUFFER_USAGE_STORAGE_BUFFER, 0, 102, 103);
    let mut recorder = recorder_on(flags::QUEUE_COMPUTE);
    {
        let mut compute = recorder.as_compute_command_buffer().unwrap();
        assert!(matches!(compute.dispatch_indirect(&storage, 0), Err(DispatchError::Indirect)));
        let outcome: Result<_, DispatchError> = compute.dispatch_indirect(&buffer, 12);
        assert!(outcome.is_ok());
        compute.as_generic().pipeline_barrier(1, 2, 0, &[], &[], &[]);
    }
    assert_eq!(recorder.commands()[1], Command::DispatchIndirect { buffer: 100, offset: 12 });
    assert!(matches!(recorder.commands()[2], Command::PipelineBarrier { .. }));
}

#[test]
fn copies_name_handles_layouts_and_regions() {
    let src_buffer = Buffer::new(64, flags::BUFFER_USAGE_TRANSFER_SRC, 0, 110, 111);
    let mut dst_buffer = Buffer::new(64, flags::BUFFER_USAGE_TRANSFER_DST, 0, 112, 113);
    let both_buffer = Buffer::new(
        64,
        flags::BUFFER_USAGE_TRANSFER_SRC | flags::BUFFER_USAGE_TRANSFER_DST,
        0,
        114,
        115,
    );
    let src_image = image_in(120, flags::IMAGE_LAYOUT_TRANSFER_SRC_OPTIMAL);
    let mut dst_image = image_in(130, flags::IMAGE_LAYOUT_TRANSFER_DST_OPTIMAL);
    let other_image = image_in(140, flags::IMAGE_LAYOUT_GENERAL);
    let buffer_regions = [BufferCopy { src_offset: 1, dst_offset: 2, size: 3 }];
    let image_regions = [ImageCopy {
        src_subresource: layers(),
        src_offset: origin(),
        dst_subresource: layers(),
        dst_offset: Offset3D { x: 1, y: 2, z: 0 },
        extent: Extent3D { width: 4, height: 4, depth: 1 },
    }];
    let mixed_regions = [BufferImageCopy {
        buffer_offset: 0,
        buffer_row_length: 0,
        buffer_image_height: 0,
        image_subresource: layers(),
        image_offset: origin(),
        image_extent: Extent3D { width: 8, height: 8, depth: 1 },
    }];
    let mut recorder = recorder_on(flags::QUEUE_TRANSFER);
    {
        let mut transfer = recorder.as_transfer_command_buffer().unwrap();
        let mut copy = transfer.as_copy();
        let outcome: Result<_, CopyError> =
            copy.copy_buffer(&src_buffer, &both_buffer, &buffer_regions);
        outcome
            .unwrap()
            .copy_image(&src_image, &other_image, &image_regions)
            .unwrap()
            .copy_buffer_to_image(&src_buffer, &mut dst_image, &mixed_regions)
            .unwrap()
            .copy_image_to_buffer(&src_image, &mut dst_buffer, &mixed_regions)
            .unwrap();
    }
    assert_eq!(
        recorder.commands()[1..],
        [
            Command::CopyBuffer {
                src_buffer: 110,
                dst_buffer: 114,
                regions: buffer_regions.to_vec(),
            },
            Command::CopyImage {
                src_image: 120,
                src_image_layout: flags::IMAGE_LAYOUT_TRANSFER_SRC_OPTIMAL,
                dst_image: 140,
                dst_image_layout: flags::IMAGE_LAYOUT_GENERAL,
                regions: image_regions.to_vec(),
            },
            Command::CopyBufferToImage {
                src_buffer: 110,
                dst_image: 130,
                dst_image_layout: flags::IMAGE_LAYOUT_TRANSFER_DST_OPTIMAL,
                regions: mixed_regions.to_vec(),
            },
            Command::CopyImageToBuffer {
                src_image: 120,
                src_image_layout: flags::IMAGE_LAYOUT_TRANSFER_SRC_OPTIMAL,
                dst_buffer: 112,
                regions: mixed_regions.to_vec(),
            },
        ]
    );
    assert_eq!(dst_image.layout, flags::IMAGE_LAYOUT_TRANSFER_DST_OPTIMAL);
    assert_eq!(dst_buffer.handle, 112);
}

#[test]
fn graphics_copies_blit_and_resolve() {
    let src_image = image_in(120, flags::IMAGE_LAYOUT_TRANSFER_SRC_OPTIMAL);
    let mut dst_image = image_in(130, flags::IMAGE_LAYOUT_TRANSFER_DST_OPTIMAL);
    let mut resolved_image = image_in(135, flags::IMAGE_LAYOUT_GENERAL);
    let blits = [ImageBlit {
        src_subresource: layers(),
        src_offsets: (origin(), Offset3D { x: 8, y: 8, z: 1 }),
        dst_subresource: layers(),
        dst_offsets: (origin(), Offset3D { x: 4, y: 4, z: 1 }),
    }];
    let resolves = [ImageResolve {
        src_subresource: layers(),
        src_offset: origin(),
        dst_subresource: layers(),
        dst_offset: origin(),
        extent: Extent3D { width: 8, height: 8, depth: 1 },
    }];
    let mut recorder = recorder_on(flags::QUEUE_GRAPHICS);
    {
        let mut transfer = recorder.as_transfer_command_buffer().unwrap();
        let mut copy = transfer.as_copy();
        let mut graphics_copy = copy.as_graphics_copy();
        graphics_copy.blit_image(&src_image, &mut dst_image, &blits, 1).unwrap();
    }
    {
        let mut transfer = recorder.as_transfer_command_buffer().unwrap();
        let mut copy = transfer.as_copy();
        let mut graphics_copy = copy.as_graphics_copy();
        graphics_copy.resolve_image(&src_image, &mut resolved_image, &resolves).unwrap();
    }
    assert_eq!(
        recorder.commands()[1..],
        [
            Command::BlitImage {
                src_image: 120,
                src_image_layout: flags::IMAGE_LAYOUT_TRANSFER_SRC_OPTIMAL,
                dst_image: 130,
                dst_image_layout: flags::IMAGE_LAYOUT_TRANSFER_DST_OPTIMAL,
                regions: blits.to_vec(),
                filter: 1,
            },
            Command::ResolveImage {
                src_image: 120,
                src_image_layout: flags::IMAGE_LAYOUT_TRANSFER_SRC_OPTIMAL,
                dst_image: 135,
                dst_image_layout: flags::IMAGE_LAYOUT_GENERAL,
                regions: resolves.to_vec(),
            },
        ]
    );
}

#[test]
fn clears_outside_a_render_pass() {
    let mut image = image_in(150, flags::IMAGE_LAYOUT_GENERAL);
    let mut buffer = Buffer::new(64, flags::BUFFER_USAGE_TRANSFER_DST, 0, 160, 161);
    let color = ClearValue { words: (1, 2, 3, 4) };
    let ranges = [ImageSubresourceRange {
        aspect_mask: 1,
        base_mip_level: 0,
        level_count: 1,
        base_array_layer: 0,
        layer_count: 1,
    }];
    let attachments =
        [ClearAttachment { aspect_mask: 1, color_attachment: 0, clear_value: color }];
    let rects = [ClearRect {
        rect: Rect2D { offset: Offset2D { x: 0, y: 0 }, extent: Extent2D { width: 2, height: 2 } },
        base_array_layer: 0,
        layer_count: 1,
    }];
    let mut recorder = recorder_on(flags::QUEUE_COMPUTE);
    {
        let mut transfer = recorder.as_transfer_command_buffer().unwrap();
        let mut clear = transfer.as_clear();
        clear
            .clear_color_image(&mut image, &color, &ranges)
            .unwrap()
            .fill_buffer(&mut buffer, 4, 8, 0xdead_beef)
            .unwrap()
            .update_buffer(&mut buffer, 16, &0x0403_0201u32)
            .unwrap();
        assert!(matches!(
            clear.clear_attachments(&attachments, &rects),
            Err(ClearError::OutsideRenderPass)
        ));
    }
    assert_eq!(
        recorder.commands()[1..],
        [
            Command::ClearColorImage {
                image: 150,
                image_layout: flags::IMAGE_LAYOUT_GENERAL,
                color,
                ranges: ranges.to_vec(),
            },
            Command::FillBuffer { dst_buffer: 160, dst_offset: 4, size: 8, data: 0xdead_beef },
            Command::UpdateBuffer { dst_buffer: 160, dst_offset: 16, data: vec![1, 2, 3, 4] },
        ]
    );
}

#[test]
fn end_appends_the_end_call_and_makes_the_buffer_executable() {
    let mut recorder = recorder_on(flags::QUEUE_COMPUTE);
    recorder.as_compute_command_buffer().unwrap().dispatch(1, 2, 3).unwrap();
    let executable = recorder.end();
    assert_eq!(executable.state(), CommandBufferState::Executable);
    assert_eq!(executable.handle(), 40);
    assert_eq!(executable.command_pool().command_pool, 30);
    assert_eq!(
        executable.commands(),
        &vec![
            Command::Begin { usage: 0 },
            Command::Dispatch { group_count_x: 1, group_count_y: 2, group_count_z: 3 },
            Command::End,
        ]
    );
}

#[test]
fn recording_again_starts_a_fresh_session() {
    let family = QueueFamily::new(
        QueueFamilyProperties {
            queue_flags: flags::QUEUE_GRAPHICS,
            queue_count: 1,
            timestamp_valid_bits: 0,
            min_image_transfer_granularity: Extent3D { width: 1, height: 1, depth: 1 },
        },
        0,
        1,
    );
    let pool = Rc::new(CommandPool::new(&family, 30));
    let buffer = pool.allocate_command_buffers(0, vec![40]).remove(0);
    let vertex = Buffer::new(16, flags::BUFFER_USAGE_VERTEX_BUFFER, 0, 80, 81);
    let list = [(vertex, 0u64)];
    let mut recorder = buffer.begin(flags_one_time_submit());
    recorder.as_generic().as_generic_graphics().unwrap().bind_vertex_buffers(0, &list).unwrap();
    assert_eq!(recorder.commands()[0], Command::Begin { usage: 1 });
    let executable = recorder.end().as_executable();
    assert_eq!(executable.commands().len(), 3);
    let again = executable.as_record();
    assert_eq!(again.commands(), &vec![Command::Begin { usage: 0 }]);
    assert_eq!(again.state(), CommandBufferState::Recording);
}

fn vk_color_attachment_optimal() -> i32 {
    ash::vk::ImageLayout::COLOR_ATTACHMENT_OPTIMAL.as_raw()
}

fn flags_one_time_submit() -> u32 {
    ash::vk::CommandBufferUsageFlags::ONE_TIME_SUBMIT.as_raw()
}

#[test]
fn error_messages_name_the_failure() {
    assert_eq!(UnsupportedOperation.to_string(), "An unsupported operation occured!");
    assert_eq!(DrawError::Draw.to_string(), "A draw command failed to be registered: Draw!");
    assert_eq!(DrawError::Indexed.to_string(), "A draw command failed to be registered: Indexed!");
    assert_eq!(
        DrawError::Indirect.to_string(),
        "A draw command failed to be registered: Indirect!"
    );
    assert_eq!(
        DispatchError::Dispatch.to_string(),
        "A dispatch command failed to be registered: Dispatch!"
    );
    assert_eq!(
        DispatchError::Indirect.to_string(),
        "A dispatch command failed to be registered: Indirect!"
    );
    assert_eq!(
        CopyError::RegionsOverlapped.to_string(),
        "A copy command failed to be registered: RegionsOverlapped!"
    );
    assert_eq!(
        CopyError::SourceUsage.to_string(),
        "A copy command failed to be registered: SourceUsage!"
    );
    assert_eq!(
        CopyError::DestinationUsage.to_string(),
        "A copy command failed to be registered: DestinationUsage!"
    );
    assert_eq!(
        CopyError::SourceLayout.to_string(),
        "A copy command failed to be registered: SourceLayout!"
    );
    assert_eq!(
        CopyError::DestinationLayout.to_string(),
        "A copy command failed to be registered: DestinationLayout!"
    );
    assert_eq!(ClearError::Usage.to_string(), "A clear command failed to be registered: Usage!");
    assert_eq!(ClearError::Layout.to_string(), "A clear command failed to be registered: Layout!");
    assert_eq!(
        ClearError::InsideRenderPass.to_string(),
        "A clear command failed to be registered: InsideRenderPass!"
    );
    assert_eq!(
        ClearError::OutsideRenderPass.to_string(),
        "A clear command failed to be registered: OutsideRenderPass!"
    );
}

#[test]
fn copies_refuse_buffers_without_the_usage_for_their_side() {
    let source = Buffer::new(64, flags::BUFFER_USAGE_TRANSFER_SRC, 0, 110, 111);
    let destination = Buffer::new(64, flags::BUFFER_USAGE_TRANSFER_DST, 0, 112, 113);
    let storage = Buffer::new(64, flags::BUFFER_USAGE_STORAGE_BUFFER, 0, 114, 115);
    let mut written = destination;
    let mut stored = storage;
    let readable = image_in(120, flags::IMAGE_LAYOUT_TRANSFER_SRC_OPTIMAL);
    let mut writable = image_in(130, flags::IMAGE_LAYOUT_TRANSFER_DST_OPTIMAL);
    let mut recorder = recorder_on(flags::QUEUE_TRANSFER);
    {
        let mut transfer = recorder.as_transfer_command_buffer().unwrap();
        let mut copy = transfer.as_copy();
        assert!(matches!(
            copy.copy_buffer(&destination, &destination, &[]),
            Err(CopyError::SourceUsage)
        ));
        assert!(matches!(copy.copy_buffer(&storage, &source, &[]), Err(CopyError::SourceUsage)));
        assert!(matches!(
            copy.copy_buffer(&source, &source, &[]),
            Err(CopyError::DestinationUsage)
        ));
        assert!(matches!(
            copy.copy_buffer_to_image(&destination, &mut writable, &[]),
            Err(CopyError::SourceUsage)
        ));
        assert!(matches!(
            copy.copy_image_to_buffer(&readable, &mut stored, &[]),
            Err(CopyError::DestinationUsage)
        ));
        assert!(copy.copy_image_to_buffer(&readable, &mut written, &[]).is_ok());
    }
    assert_eq!(recorder.commands().len(), 2);
}

#[test]
fn copies_refuse_images_in_a_layout_they_cannot_use() {
    let source = Buffer::new(64, flags::BUFFER_USAGE_TRANSFER_SRC, 0, 110, 111);
    let mut destination = Buffer::new(64, flags::BUFFER_USAGE_TRANSFER_DST, 0, 112, 113);
    let readable = image_in(120, flags::IMAGE_LAYOUT_TRANSFER_SRC_OPTIMAL);
    let writable = image_in(130, flags::IMAGE_LAYOUT_TRANSFER_DST_OPTIMAL);
    let general = image_in(140, flags::IMAGE_LAYOUT_GENERAL);
    let mut fresh = image_in(150, flags::IMAGE_LAYOUT_UNDEFINED);
    let mut sampled = image_in(160, flags::IMAGE_LAYOUT_SHADER_READ_ONLY_OPTIMAL);
    let mut attached = image_in(170, vk_color_attachment_optimal());
    let mut recorder = recorder_on(flags::QUEUE_GRAPHICS);
    {
        let mut transfer = recorder.as_transfer_command_buffer().unwrap();
        let mut copy = transfer.as_copy();
        assert!(matches!(copy.copy_image(&writable, &writable, &[]), Err(CopyError::SourceLayout)));
        assert!(matches!(
            copy.copy_image(&readable, &readable, &[]),
            Err(CopyError::DestinationLayout)
        ));
        assert!(copy.copy_image(&general, &general, &[]).is_ok());
        assert!(matches!(
            copy.copy_buffer_to_image(&source, &mut fresh, &[]),
            Err(CopyError::DestinationLayout)
        ));
        assert!(matches!(
            copy.copy_image_to_buffer(&writable, &mut destination, &[]),
            Err(CopyError::SourceLayout)
        ));
        let mut graphics_copy = copy.as_graphics_copy();
        assert!(matches!(
            graphics_copy.blit_image(&writable, &mut sampled, &[], 0),
            Err(CopyError::SourceLayout)
        ));
        assert!(matches!(
            graphics_copy.resolve_image(&readable, &mut attached, &[]),
            Err(CopyError::DestinationLayout)
        ));
    }
    assert_eq!(recorder.commands().len(), 2);
}

#[test]
fn clears_and_fills_check_layout_and_usage() {
    let mut fresh = image_in(150, flags::IMAGE_LAYOUT_UNDEFINED);
    let mut writable = image_in(151, flags::IMAGE_LAYOUT_TRANSFER_DST_OPTIMAL);
    let mut storage = Buffer::new(64, flags::BUFFER_USAGE_STORAGE_BUFFER, 0, 114, 115);
    let color = ClearValue { words: (0, 0, 0, 0) };
    let mut recorder = recorder_on(flags::QUEUE_COMPUTE);
    {
        let mut transfer = recorder.as_transfer_command_buffer().unwrap();
        let mut clear = transfer.as_clear();
        assert!(matches!(
            clear.clear_color_image(&mut fresh, &color, &[]),
            Err(ClearError::Layout)
        ));
        assert!(clear.clear_color_image(&mut writable, &color, &[]).is_ok());
        assert!(matches!(clear.fill_buffer(&mut storage, 0, 4, 0), Err(ClearError::Usage)));
        assert!(matches!(clear.update_buffer(&mut storage, 0, &1u8), Err(ClearError::Usage)));
    }
    assert_eq!(recorder.commands().len(), 2);
}
