use std::rc::Rc;

use caldeira::vulkan::flags;
use caldeira::vulkan::structs::Extent3D;
use caldeira::vulkan::{
    Buffer, Command, CommandPool, ComputePipeline, HostWrite, Image, MappedRange, Queue,
    QueueFamily, QueueFamilyProperties, QueueSubmission,
};

#[test]
fn a_counter_is_zeroed_dispatched_over_and_read_back() {
    let family = QueueFamily::new(
        QueueFamilyProperties {
            queue_flags: flags::QUEUE_COMPUTE | flags::QUEUE_TRANSFER,
            queue_count: 1,
            timestamp_valid_bits: 64,
            min_image_transfer_granularity: Extent3D { width: 1, height: 1, depth: 1 },
        },
        0,
        1,
    );
    let pool = Rc::new(CommandPool::new(&family, 30));
    let mut queue = Queue::new(20, 0, family);
    let pipeline = ComputePipeline::new(50, 51);
    let descriptor_sets = [60u64];

    let mut buffer = Buffer::new(
        4,
        flags::BUFFER_USAGE_STORAGE_BUFFER
            | flags::BUFFER_USAGE_TRANSFER_SRC
            | flags::BUFFER_USAGE_TRANSFER_DST,
        flags::MEMORY_PROPERTY_HOST_COHERENT | flags::MEMORY_PROPERTY_HOST_VISIBLE,
        10,
        11,
    );
    assert!(buffer.host_visible());
    assert_eq!(
        buffer.copy_data(&0u32, 0),
        HostWrite { range: MappedRange { memory: 11, offset: 0, size: 4 }, bytes: vec![0; 4] }
    );

    let mut output_image = Image::new(70, 71, 72, 100, 100);
    let (src_stage_mask, dst_stage_mask, dependency_flags, barrier) =
        output_image.transition_layout(flags::IMAGE_LAYOUT_GENERAL);
    let image_memory_barriers = [barrier];

    let mut recorder = pool
        .allocate_command_buffers(flags::COMMAND_BUFFER_LEVEL_PRIMARY, vec![40])
        .remove(0)
        .begin(0);
    recorder.as_generic().pipeline_barrier(
        src_stage_mask,
        dst_stage_mask,
        dependency_flags,
        &[],
        &[],
        &image_memory_barriers,
    );
    assert!(recorder.as_graphics_command_buffer().is_err());
    recorder
        .as_generic()
        .as_generic_compute()
        .unwrap()
        .bind_pipeline(&pipeline)
        .bind_descriptor_sets(&descriptor_sets, None)
        .unwrap();
    recorder.as_compute_command_buffer().unwrap().dispatch(100, 100, 1).unwrap();
    let executable = recorder.end();

    assert_eq!(executable.commands().len(), 6);
    assert_eq!(
        executable.commands()[4],
        Command::Dispatch { group_count_x: 100, group_count_y: 100, group_count_z: 1 }
    );
    assert_eq!(executable.commands()[5], Command::End);

    let submits = [QueueSubmission::builder().with_command_buffer(&executable).build()];
    assert!(queue.accepts(&submits));
    let call = queue.submit(&submits, None);
    assert_eq!(call.submits[0].command_buffers, vec![40]);

    let mut output = 0u32;
    assert_eq!(buffer.read_range(&output, 0), MappedRange { memory: 11, offset: 0, size: 4 });
    assert!(buffer.get_data(&mut output, &(100u32 * 100).to_le_bytes()));
    assert_eq!(output, 10_000);
    assert_eq!(output, output_image.extent.width * output_image.extent.height);
}
