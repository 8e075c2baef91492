use ash::vk;
use caldeira::vulkan::flags;
use caldeira::vulkan::structs::{Extent3D, ImageMemoryBarrier, ImageSubresourceRange};
use caldeira::vulkan::Image;

fn empty_barrier() -> ImageMemoryBarrier {
    ImageMemoryBarrier {
        src_access_mask: 0,
        dst_access_mask: 0,
        old_layout: 0,
        new_layout: 0,
        src_queue_family_index: 0,
        dst_queue_family_index: 0,
        image: 0,
        subresource_range: ImageSubresourceRange {
            aspect_mask: 0,
            base_mip_level: 0,
            level_count: 0,
            base_array_layer: 0,
            layer_count: 0,
        },
    }
}

fn color_range() -> ImageSubresourceRange {
    ImageSubresourceRange {
        aspect_mask: vk::ImageAspectFlags::COLOR.as_raw(),
        base_mip_level: 0,
        level_count: 1,
        base_array_layer: 0,
        layer_count: 1,
    }
}

#[test]
fn a_new_image_is_in_the_undefined_layout() {
    let image = Image::new(1, 2, 3, 1000, 500);
    assert_eq!(image.handle, 1);
    assert_eq!(image.memory, 2);
    assert_eq!(image.view, 3);
    assert_eq!(image.extent, Extent3D { width: 1000, height: 500, depth: 1 });
    assert_eq!(image.layout, vk::ImageLayout::UNDEFINED.as_raw());
}

#[test]
fn a_transition_sets_the_layout_and_repeating_it_is_empty() {
    let mut image = Image::new(1, 2, 3, 8, 8);
    let first = image.transition_layout(flags::IMAGE_LAYOUT_GENERAL);
    assert_eq!(image.layout, flags::IMAGE_LAYOUT_GENERAL);
    assert_ne!(first.3, empty_barrier());
    let second = image.transition_layout(flags::IMAGE_LAYOUT_GENERAL);
    assert_eq!(second, (0, 0, 0, empty_barrier()));
    assert_eq!(image.layout, flags::IMAGE_LAYOUT_GENERAL);
    assert_eq!(image.handle, 1);
}

#[test]
fn the_empty_barrier_is_what_ash_builds_by_default() {
    let built = vk::ImageMemoryBarrier::builder().build();
    let empty = empty_barrier();
    assert_eq!(empty.src_access_mask, built.src_access_mask.as_raw());
    assert_eq!(empty.dst_access_mask, built.dst_access_mask.as_raw());
    assert_eq!(empty.old_layout, built.old_layout.as_raw());
    assert_eq!(empty.new_layout, built.new_layout.as_raw());
    assert_eq!(empty.src_queue_family_index, built.src_queue_family_index);
    assert_eq!(empty.dst_queue_family_index, built.dst_queue_family_index);
    assert_eq!(empty.image, vk::Handle::as_raw(built.image));
    assert_eq!(empty.subresource_range.aspect_mask, built.subresource_range.aspect_mask.as_raw());
    assert_eq!(empty.subresource_range.level_count, built.subresource_range.level_count);
    assert_eq!(empty.subresource_range.layer_count, built.subresource_range.layer_count);
}

#[test]
fn undefined_to_general_waits_at_the_top_and_blocks_all_commands() {
    let mut image = Image::new(7, 2, 3, 8, 8);
    let (src_stage, dst_stage, dependency, barrier) =
        image.transition_layout(vk::ImageLayout::GENERAL.as_raw());
    assert_eq!(src_stage, vk::PipelineStageFlags::TOP_OF_PIPE.as_raw());
    assert_eq!(dst_stage, vk::PipelineStageFlags::ALL_COMMANDS.as_raw());
    assert_eq!(dependency, vk::DependencyFlags::empty().as_raw());
    assert_eq!(
        barrier,
        ImageMemoryBarrier {
            src_access_mask: vk::AccessFlags::empty().as_raw(),
            dst_access_mask: vk::AccessFlags::all().as_raw(),
            old_layout: vk::ImageLayout::UNDEFINED.as_raw(),
            new_layout: vk::ImageLayout::GENERAL.as_raw(),
            src_queue_family_index: vk::QUEUE_FAMILY_IGNORED,
            dst_queue_family_index: vk::QUEUE_FAMILY_IGNORED,
            image: 7,
            subresource_range: color_range(),
        }
    );
    assert_eq!(barrier.dst_access_mask, 0x1_ffff);
}

#[test]
fn general_to_transfer_source_reads_in_the_transfer_stage() {
    let mut image = Image::new(7, 2, 3, 8, 8);
    image.layout = vk::ImageLayout::GENERAL.as_raw();
    let (src_stage, dst_stage, dependency, barrier) =
        image.transition_layout(vk::ImageLayout::TRANSFER_SRC_OPTIMAL.as_raw());
    assert_eq!(src_stage, vk::PipelineStageFlags::ALL_COMMANDS.as_raw());
    assert_eq!(dst_stage, vk::PipelineStageFlags::TRANSFER.as_raw());
    assert_eq!(dependency, 0);
    assert_eq!(barrier.src_access_mask, vk::AccessFlags::all().as_raw());
    assert_eq!(barrier.dst_access_mask, vk::AccessFlags::TRANSFER_READ.as_raw());
    assert_eq!(barrier.old_layout, vk::ImageLayout::GENERAL.as_raw());
    assert_eq!(barrier.new_layout, vk::ImageLayout::TRANSFER_SRC_OPTIMAL.as_raw());
    assert_eq!(image.layout, vk::ImageLayout::TRANSFER_SRC_OPTIMAL.as_raw());
}

#[test]
fn transfer_destination_to_shader_read_serves_the_fragment_shader() {
    let mut image = Image::new(7, 2, 3, 8, 8);
    let (src_stage, dst_stage, _, barrier) =
        image.transition_layout(vk::ImageLayout::TRANSFER_DST_OPTIMAL.as_raw());
    assert_eq!(src_stage, vk::PipelineStageFlags::TOP_OF_PIPE.as_raw());
    assert_eq!(dst_stage, vk::PipelineStageFlags::TRANSFER.as_raw());
    assert_eq!(barrier.src_access_mask, 0);
    assert_eq!(barrier.dst_access_mask, vk::AccessFlags::TRANSFER_WRITE.as_raw());
    let (src_stage, dst_stage, _, barrier) =
        image.transition_layout(vk::ImageLayout::SHADER_READ_ONLY_OPTIMAL.as_raw());
    assert_eq!(src_stage, vk::PipelineStageFlags::TRANSFER.as_raw());
    assert_eq!(dst_stage, vk::PipelineStageFlags::FRAGMENT_SHADER.as_raw());
    assert_eq!(barrier.src_access_mask, vk::AccessFlags::TRANSFER_WRITE.as_raw());
    assert_eq!(barrier.dst_access_mask, vk::AccessFlags::SHADER_READ.as_raw());
    assert_eq!(barrier.subresource_range, color_range());
}

#[test]
fn only_the_layouts_of_the_table_can_be_left_or_entered() {
    let mut image = Image::new(7, 2, 3, 8, 8);
    assert!(image.can_transition(vk::ImageLayout::UNDEFINED.as_raw()));
    assert!(image.can_transition(vk::ImageLayout::GENERAL.as_raw()));
    assert!(image.can_transition(vk::ImageLayout::TRANSFER_DST_OPTIMAL.as_raw()));
    assert!(image.can_transition(vk::ImageLayout::TRANSFER_SRC_OPTIMAL.as_raw()));
    assert!(image.can_transition(vk::ImageLayout::SHADER_READ_ONLY_OPTIMAL.as_raw()));
    assert!(!image.can_transition(vk::ImageLayout::COLOR_ATTACHMENT_OPTIMAL.as_raw()));
    assert!(!image.can_transition(vk::ImageLayout::PREINITIALIZED.as_raw()));

    image.layout = vk::ImageLayout::SHADER_READ_ONLY_OPTIMAL.as_raw();
    assert!(!image.can_transition(vk::ImageLayout::GENERAL.as_raw()));
    assert!(image.can_transition(vk::ImageLayout::SHADER_READ_ONLY_OPTIMAL.as_raw()));
    image.layout = vk::ImageLayout::TRANSFER_SRC_OPTIMAL.as_raw();
    assert!(!image.can_transition(vk::ImageLayout::TRANSFER_DST_OPTIMAL.as_raw()));
    image.layout = vk::ImageLayout::TRANSFER_DST_OPTIMAL.as_raw();
    assert!(image.can_transition(vk::ImageLayout::GENERAL.as_raw()));
    assert!(!image.can_transition(vk::ImageLayout::UNDEFINED.as_raw()));
}

#[test]
fn copies_read_and_write_only_some_layouts() {
    let mut image = Image::new(7, 2, 3, 8, 8);
    assert!(!image.can_be_copied_from());
    assert!(!image.can_be_copied_to());
    image.layout = vk::ImageLayout::GENERAL.as_raw();
    assert!(image.can_be_copied_from());
    assert!(image.can_be_copied_to());
    image.layout = vk::ImageLayout::TRANSFER_SRC_OPTIMAL.as_raw();
    assert!(image.can_be_copied_from());
    assert!(!image.can_be_copied_to());
    image.layout = vk::ImageLayout::TRANSFER_DST_OPTIMAL.as_raw();
    assert!(!image.can_be_copied_from());
    assert!(image.can_be_copied_to());
    image.layout = vk::ImageLayout::SHADER_READ_ONLY_OPTIMAL.as_raw();
    assert!(!image.can_be_copied_from());
    assert!(!image.can_be_copied_to());
}
