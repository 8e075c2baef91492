//! The plain structures that commands carry, field for field as the Vulkan
//! API lays them out. Handles are raw 64-bit values, masks and enumerants raw
//! integers.

use vstd::prelude::*;

verus! {

#[derive(Clone, Copy, Debug, PartialEq, Eq)]
pub struct Extent2D {
    pub width: u32,
    pub height: u32,
}

#[derive(Clone, Copy, Debug, PartialEq, Eq)]
pub struct Extent3D {
    pub width: u32,
    pub height: u32,
    pub depth: u32,
}

#[derive(Clone, Copy, Debug, PartialEq, Eq)]
pub struct Offset2D {
    pub x: i32,
    pub y: i32,
}

#[derive(Clone, Copy, Debug, PartialEq, Eq)]
pub struct Offset3D {
    pub x: i32,
    pub y: i32,
    pub z: i32,
}

#[derive(Clone, Copy, Debug, PartialEq, Eq)]
pub struct Rect2D {
    pub offset: Offset2D,
    pub extent: Extent2D,
}

#[derive(Clone, Copy, Debug, PartialEq, Eq)]
pub struct ImageSubresourceRange {
    pub aspect_mask: u32,
    pub base_mip_level: u32,
    pub level_count: u32,
    pub base_array_layer: u32,
    pub layer_count: u32,
}

#[derive(Clone, Copy, Debug, PartialEq, Eq)]
pub struct ImageSubresourceLayers {
    pub aspect_mask: u32,
    pub mip_level: u32,
    pub base_array_layer: u32,
    pub layer_count: u32,
}

#[derive(Clone, Copy, Debug, PartialEq, Eq)]
pub struct MemoryBarrier {
    pub src_access_mask: u32,
    pub dst_access_mask: u32,
}

#[derive(Clone, Copy, Debug, PartialEq, Eq)]
pub struct BufferMemoryBarrier {
    pub src_access_mask: u32,
    pub dst_access_mask: u32,
    pub src_queue_family_index: u32,
    pub dst_queue_family_index: u32,
    pub buffer: u64,
    pub offset: u64,
    pub size: u64,
}

#[derive(Clone, Copy, Debug, PartialEq, Eq)]
pub struct ImageMemoryBarrier {
    pub src_access_mask: u32,
    pub dst_access_mask: u32,
    pub old_layout: i32,
    pub new_layout: i32,
    pub src_queue_family_index: u32,
    pub dst_queue_family_index: u32,
    pub image: u64,
    pub subresource_range: ImageSubresourceRange,
}

#[derive(Clone, Copy, Debug, PartialEq, Eq)]
pub struct BufferCopy {
    pub src_offset: u64,
    pub dst_offset: u64,
    pub size: u64,
}

#[derive(Clone, Copy, Debug, PartialEq, Eq)]
pub struct ImageCopy {
    pub src_subresource: ImageSubresourceLayers,
    pub src_offset: Offset3D,
    pub dst_subresource: ImageSubresourceLayers,
    pub dst_offset: Offset3D,
    pub extent: Extent3D,
}

#[derive(Clone, Copy, Debug, PartialEq, Eq)]
pub struct BufferImageCopy {
    pub buffer_offset: u64,
    pub buffer_row_length: u32,
    pub buffer_image_height: u32,
    pub image_subresource: ImageSubresourceLayers,
    pub image_offset: Offset3D,
    pub image_extent: Extent3D,
}

/// A blit region. Each pair of offsets names two opposite corners.
#[derive(Clone, Copy, Debug, PartialEq, Eq)]
pub struct ImageBlit {
    pub src_subresource: ImageSubresourceLayers,
    pub src_offsets: (Offset3D, Offset3D),
    pub dst_subresource: ImageSubresourceLayers,
    pub dst_offsets: (Offset3D, Offset3D),
}

#[derive(Clone, Copy, Debug, PartialEq, Eq)]
pub struct ImageResolve {
    pub src_subresource: ImageSubresourceLayers,
    pub src_offset: Offset3D,
    pub dst_subresource: ImageSubresourceLayers,
    pub dst_offset: Offset3D,
    pub extent: Extent3D,
}

/// A clear value as the four 32-bit words that the API's union overlays: a
/// colour in any of its three encodings, or a depth in the first word and a
/// stencil in the second.
#[derive(Clone, Copy, Debug, PartialEq, Eq)]
pub struct ClearValue {
    pub words: (u32, u32, u32, u32),
}

#[derive(Clone, Copy, Debug, PartialEq, Eq)]
pub struct ClearAttachment {
    pub aspect_mask: u32,
    pub color_attachment: u32,
    pub clear_value: ClearValue,
}

#[derive(Clone, Copy, Debug, PartialEq, Eq)]
pub struct ClearRect {
    pub rect: Rect2D,
    pub base_array_layer: u32,
    pub layer_count: u32,
}

/// What a render pass begins with.
#[derive(Clone, Debug, PartialEq, Eq)]
pub struct RenderPassBeginInfo {
    pub render_pass: u64,
    pub framebuffer: u64,
    pub render_area: Rect2D,
    pub clear_values: Vec<ClearValue>,
}

/// The value of a [`RenderPassBeginInfo`].
pub struct RenderPassBeginInfoView {
    pub render_pass: u64,
    pub framebuffer: u64,
    pub render_area: Rect2D,
    pub clear_values: Seq<ClearValue>,
}

impl View for RenderPassBeginInfo {
    type V = RenderPassBeginInfoView;

    open spec fn view(&self) -> RenderPassBeginInfoView {
        RenderPassBeginInfoView {
            render_pass: self.render_pass,
            framebuffer: self.framebuffer,
            render_area: self.render_area,
            clear_values: self.clear_values@,
        }
    }
}

impl RenderPassBeginInfo {
    /// A copy with the same value.
    pub fn duplicate(&self) -> (copy: Self)
        ensures
            copy@ == self@,
    {
        RenderPassBeginInfo {
            render_pass: self.render_pass,
            framebuffer: self.framebuffer,
            render_area: self.render_area,
            clear_values: vstd::slice::slice_to_vec(self.clear_values.as_slice()),
        }
    }
}

/// A graphics pipeline and the layout its descriptor sets are bound against.
#[derive(Clone, Copy, Debug, PartialEq, Eq)]
pub struct GraphicsPipeline {
    pub layout: u64,
    pub pipeline: u64,
}

/// One binding slot of a descriptor set layout: its number, the kind and
/// count of the resources bound there, the shader stages that see it and its
/// immutable samplers, if it has any.
#[derive(Clone, Debug, PartialEq, Eq)]
pub struct DescriptorSetLayoutBinding {
    pub binding: u32,
    pub descriptor_type: i32,
    pub descriptor_count: u32,
    pub stage_flags: u32,
    pub immutable_samplers: Vec<u64>,
}

/// The value of a [`DescriptorSetLayoutBinding`].
pub struct DescriptorSetLayoutBindingView {
    pub binding: u32,
    pub descriptor_type: i32,
    pub descriptor_count: u32,
    pub stage_flags: u32,
    pub immutable_samplers: Seq<u64>,
}

impl View for DescriptorSetLayoutBinding {
    type V = DescriptorSetLayoutBindingView;

    open spec fn view(&self) -> DescriptorSetLayoutBindingView {
        DescriptorSetLayoutBindingView {
            binding: self.binding,
            descriptor_type: self.descriptor_type,
            descriptor_count: self.descriptor_count,
            stage_flags: self.stage_flags,
            immutable_samplers: self.immutable_samplers@,
        }
    }
}

/// How many descriptors of one kind a descriptor pool holds.
#[derive(Clone, Copy, Debug, PartialEq, Eq)]
pub struct DescriptorPoolSize {
    pub ty: i32,
    pub descriptor_count: u32,
}

/// What a descriptor pool is created with.
#[derive(Clone, Debug, PartialEq, Eq)]
pub struct DescriptorPoolCreateInfo {
    pub pool_sizes: Vec<DescriptorPoolSize>,
    pub max_sets: u32,
}

/// What descriptor sets are allocated with: the pool and one layout for each
/// set.
#[derive(Clone, Debug, PartialEq, Eq)]
pub struct DescriptorSetAllocateInfo {
    pub descriptor_pool: u64,
    pub set_layouts: Vec<u64>,
}

/// What the device asks of the memory behind a buffer or an image.
#[derive(Clone, Copy, Debug, PartialEq, Eq)]
pub struct MemoryRequirements {
    pub size: u64,
    pub alignment: u64,
    pub memory_type_bits: u32,
}

/// What device memory is allocated with.
#[derive(Clone, Copy, Debug, PartialEq, Eq)]
pub struct MemoryAllocateInfo {
    pub allocation_size: u64,
    pub memory_type_index: u32,
}

/// What a buffer is created with.
#[derive(Clone, Copy, Debug, PartialEq, Eq)]
pub struct BufferCreateInfo {
    pub size: u64,
    pub usage: u32,
    pub sharing_mode: i32,
}

/// What an image is created with.
#[derive(Clone, Copy, Debug, PartialEq, Eq)]
pub struct ImageCreateInfo {
    pub image_type: i32,
    pub extent: Extent3D,
    pub mip_levels: u32,
    pub array_layers: u32,
    pub format: i32,
    pub tiling: i32,
    pub initial_layout: i32,
    pub usage: u32,
    pub samples: u32,
    pub sharing_mode: i32,
}

/// What an image view is created with.
#[derive(Clone, Copy, Debug, PartialEq, Eq)]
pub struct ImageViewCreateInfo {
    pub image: u64,
    pub view_type: i32,
    pub format: i32,
    pub subresource_range: ImageSubresourceRange,
}

/// What command buffers are allocated with.
#[derive(Clone, Copy, Debug, PartialEq, Eq)]
pub struct CommandBufferAllocateInfo {
    pub command_pool: u64,
    pub level: i32,
    pub command_buffer_count: u32,
}

} // verus!
