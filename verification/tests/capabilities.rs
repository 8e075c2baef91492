use std::rc::Rc;

use ash::vk;
use caldeira::vulkan::flags;
use caldeira::vulkan::structs::Extent3D;
use caldeira::vulkan::{CommandPool, QueueFamily, QueueFamilyProperties};

fn family(queue_flags: u32) -> QueueFamily {
    QueueFamily::new(
        QueueFamilyProperties {
            queue_flags,
            queue_count: 3,
            timestamp_valid_bits: 64,
            min_image_transfer_granularity: Extent3D { width: 1, height: 2, depth: 3 },
        },
        5,
        77,
    )
}

#[test]
fn queue_bits_are_those_of_ash() {
    assert_eq!(flags::QUEUE_GRAPHICS, vk::QueueFlags::GRAPHICS.as_raw());
    assert_eq!(flags::QUEUE_COMPUTE, vk::QueueFlags::COMPUTE.as_raw());
    assert_eq!(flags::QUEUE_TRANSFER, vk::QueueFlags::TRANSFER.as_raw());
    assert_eq!(flags::QUEUE_SPARSE_BINDING, vk::QueueFlags::SPARSE_BINDING.as_raw());
    assert_eq!(flags::QUEUE_PROTECTED, vk::QueueFlags::PROTECTED.as_raw());
}

#[test]
fn buffer_and_memory_bits_are_those_of_ash() {
    assert_eq!(flags::BUFFER_USAGE_TRANSFER_SRC, vk::BufferUsageFlags::TRANSFER_SRC.as_raw());
    assert_eq!(flags::BUFFER_USAGE_TRANSFER_DST, vk::BufferUsageFlags::TRANSFER_DST.as_raw());
    assert_eq!(flags::BUFFER_USAGE_STORAGE_BUFFER, vk::BufferUsageFlags::STORAGE_BUFFER.as_raw());
    assert_eq!(flags::BUFFER_USAGE_INDEX_BUFFER, vk::BufferUsageFlags::INDEX_BUFFER.as_raw());
    assert_eq!(flags::BUFFER_USAGE_VERTEX_BUFFER, vk::BufferUsageFlags::VERTEX_BUFFER.as_raw());
    assert_eq!(flags::BUFFER_USAGE_INDIRECT_BUFFER, vk::BufferUsageFlags::INDIRECT_BUFFER.as_raw());
    assert_eq!(flags::MEMORY_PROPERTY_DEVICE_LOCAL, vk::MemoryPropertyFlags::DEVICE_LOCAL.as_raw());
    assert_eq!(flags::MEMORY_PROPERTY_HOST_VISIBLE, vk::MemoryPropertyFlags::HOST_VISIBLE.as_raw());
    assert_eq!(
        flags::MEMORY_PROPERTY_HOST_COHERENT,
        vk::MemoryPropertyFlags::HOST_COHERENT.as_raw()
    );
}

#[test]
fn access_and_stage_bits_are_those_of_ash() {
    assert_eq!(flags::ACCESS_SHADER_READ, vk::AccessFlags::SHADER_READ.as_raw());
    assert_eq!(flags::ACCESS_TRANSFER_READ, vk::AccessFlags::TRANSFER_READ.as_raw());
    assert_eq!(flags::ACCESS_TRANSFER_WRITE, vk::AccessFlags::TRANSFER_WRITE.as_raw());
    assert_eq!(flags::ACCESS_ALL, vk::AccessFlags::all().as_raw());
    assert_eq!(flags::PIPELINE_STAGE_TOP_OF_PIPE, vk::PipelineStageFlags::TOP_OF_PIPE.as_raw());
    assert_eq!(
        flags::PIPELINE_STAGE_FRAGMENT_SHADER,
        vk::PipelineStageFlags::FRAGMENT_SHADER.as_raw()
    );
    assert_eq!(flags::PIPELINE_STAGE_TRANSFER, vk::PipelineStageFlags::TRANSFER.as_raw());
    assert_eq!(flags::PIPELINE_STAGE_ALL_COMMANDS, vk::PipelineStageFlags::ALL_COMMANDS.as_raw());
    assert_eq!(flags::IMAGE_ASPECT_COLOR, vk::ImageAspectFlags::COLOR.as_raw());
}

#[test]
fn enumerants_are_those_of_ash() {
    assert_eq!(flags::IMAGE_LAYOUT_UNDEFINED, vk::ImageLayout::UNDEFINED.as_raw());
    assert_eq!(flags::IMAGE_LAYOUT_GENERAL, vk::ImageLayout::GENERAL.as_raw());
    assert_eq!(
        flags::IMAGE_LAYOUT_SHADER_READ_ONLY_OPTIMAL,
        vk::ImageLayout::SHADER_READ_ONLY_OPTIMAL.as_raw()
    );
    assert_eq!(
        flags::IMAGE_LAYOUT_TRANSFER_SRC_OPTIMAL,
        vk::ImageLayout::TRANSFER_SRC_OPTIMAL.as_raw()
    );
    assert_eq!(
        flags::IMAGE_LAYOUT_TRANSFER_DST_OPTIMAL,
        vk::ImageLayout::TRANSFER_DST_OPTIMAL.as_raw()
    );
    assert_eq!(flags::QUEUE_FAMILY_IGNORED, vk::QUEUE_FAMILY_IGNORED);
    assert_eq!(flags::PIPELINE_BIND_POINT_GRAPHICS, vk::PipelineBindPoint::GRAPHICS.as_raw());
    assert_eq!(flags::PIPELINE_BIND_POINT_COMPUTE, vk::PipelineBindPoint::COMPUTE.as_raw());
    assert_eq!(flags::SUBPASS_CONTENTS_INLINE, vk::SubpassContents::INLINE.as_raw());
    assert_eq!(flags::COMMAND_BUFFER_LEVEL_PRIMARY, vk::CommandBufferLevel::PRIMARY.as_raw());
    assert_eq!(flags::COMMAND_BUFFER_LEVEL_SECONDARY, vk::CommandBufferLevel::SECONDARY.as_raw());
    assert_eq!(
        flags::PHYSICAL_DEVICE_TYPE_DISCRETE_GPU,
        vk::PhysicalDeviceType::DISCRETE_GPU.as_raw()
    );
    assert_eq!(flags::NULL_HANDLE, vk::Handle::as_raw(vk::Fence::null()));
}

#[test]
fn each_probe_reads_its_own_bit() {
    let graphics = family(flags::QUEUE_GRAPHICS);
    assert!(graphics.support_graphics());
    assert!(!graphics.support_compute());
    assert!(!graphics.support_sparse_binding());
    assert!(!graphics.support_protected());

    let compute = family(flags::QUEUE_COMPUTE);
    assert!(!compute.support_graphics());
    assert!(compute.support_compute());

    let sparse = family(flags::QUEUE_SPARSE_BINDING);
    assert!(sparse.support_sparse_binding());
    assert!(!sparse.support_protected());

    let protected = family(flags::QUEUE_PROTECTED);
    assert!(protected.support_protected());
    assert!(!protected.support_sparse_binding());

    let nothing = family(0);
    assert!(!nothing.support_graphics());
    assert!(!nothing.support_compute());
    assert!(!nothing.support_transfer_only());
    assert!(!nothing.support_sparse_binding());
    assert!(!nothing.support_protected());

    let everything = family(0x1f);
    assert!(everything.support_graphics());
    assert!(everything.support_compute());
    assert!(everything.support_sparse_binding());
    assert!(everything.support_protected());
}

#[test]
fn transfer_only_excludes_general_purpose_families() {
    assert!(family(flags::QUEUE_TRANSFER).support_transfer_only());
    assert!(family(flags::QUEUE_TRANSFER | flags::QUEUE_SPARSE_BINDING).support_transfer_only());
    assert!(!family(flags::QUEUE_TRANSFER | flags::QUEUE_GRAPHICS).support_transfer_only());
    assert!(!family(flags::QUEUE_TRANSFER | flags::QUEUE_COMPUTE).support_transfer_only());
    assert!(!family(flags::QUEUE_GRAPHICS).support_transfer_only());
    assert!(!family(flags::QUEUE_COMPUTE).support_transfer_only());
    assert!(!family(flags::QUEUE_SPARSE_BINDING).support_transfer_only());
}

#[test]
fn family_getters_hand_back_what_the_device_reported() {
    let family = family(flags::QUEUE_COMPUTE);
    assert_eq!(family.queue_count(), 3);
    assert_eq!(family.timestamp_valid_bits(), 64);
    assert_eq!(
        family.min_image_transfer_granularity(),
        Extent3D { width: 1, height: 2, depth: 3 }
    );
    assert_eq!(family.index(), 5);
    assert_eq!(family.physical_device, 77);
}

#[test]
fn pool_probes_answer_for_the_bound_family() {
    let pool = CommandPool::new(&family(flags::QUEUE_COMPUTE | flags::QUEUE_TRANSFER), 9);
    assert_eq!(pool.command_pool, 9);
    assert_eq!(pool.queue_family.index(), 5);
    assert!(!pool.support_graphics());
    assert!(pool.support_compute());
    assert!(!pool.support_transfer_only());
    assert!(!pool.support_sparse_binding());
    assert!(!pool.support_protected());

    let transfer = CommandPool::new(&family(flags::QUEUE_TRANSFER | flags::QUEUE_PROTECTED), 10);
    assert!(transfer.support_transfer_only());
    assert!(transfer.support_protected());
    assert!(!transfer.support_compute());
}

#[test]
fn allocated_buffers_start_out_initial_and_share_the_pool() {
    let pool = Rc::new(CommandPool::new(&family(flags::QUEUE_COMPUTE), 9));
    let buffers = pool.allocate_command_buffers(flags::COMMAND_BUFFER_LEVEL_PRIMARY, vec![4, 5, 6]);
    assert_eq!(buffers.len(), 3);
    for (buffer, handle) in buffers.iter().zip([4u64, 5, 6]) {
        assert_eq!(buffer.handle(), handle);
        assert_eq!(buffer.level(), flags::COMMAND_BUFFER_LEVEL_PRIMARY);
        assert_eq!(buffer.state(), caldeira::vulkan::CommandBufferState::Initial);
        assert_eq!(buffer.usage(), 0);
        assert!(buffer.commands().is_empty());
        assert!(Rc::ptr_eq(buffer.command_pool(), &pool));
    }
    assert_eq!(Rc::strong_count(&pool), 4);
    assert!(pool
        .allocate_command_buffers(flags::COMMAND_BUFFER_LEVEL_SECONDARY, vec![])
        .is_empty());
}
