//! Bit masks and enumerants of the Vulkan API, as the raw integers that the
//! driver exchanges, and the flag tests that the layer takes from `ash`.

use vstd::prelude::*;

verus! {

/// `VK_QUEUE_GRAPHICS_BIT`.
pub const QUEUE_GRAPHICS: u32 = 0x1;

/// `VK_QUEUE_COMPUTE_BIT`.
pub const QUEUE_COMPUTE: u32 = 0x2;

/// `VK_QUEUE_TRANSFER_BIT`.
pub const QUEUE_TRANSFER: u32 = 0x4;

/// `VK_QUEUE_SPARSE_BINDING_BIT`.
pub const QUEUE_SPARSE_BINDING: u32 = 0x8;

/// `VK_QUEUE_PROTECTED_BIT`.
pub const QUEUE_PROTECTED: u32 = 0x10;

/// `VK_BUFFER_USAGE_TRANSFER_SRC_BIT`.
pub const BUFFER_USAGE_TRANSFER_SRC: u32 = 0x1;

/// `VK_BUFFER_USAGE_TRANSFER_DST_BIT`.
pub const BUFFER_USAGE_TRANSFER_DST: u32 = 0x2;

/// `VK_BUFFER_USAGE_STORAGE_BUFFER_BIT`.
pub const BUFFER_USAGE_STORAGE_BUFFER: u32 = 0x20;

/// `VK_BUFFER_USAGE_INDEX_BUFFER_BIT`.
pub const BUFFER_USAGE_INDEX_BUFFER: u32 = 0x40;

/// `VK_BUFFER_USAGE_VERTEX_BUFFER_BIT`.
pub const BUFFER_USAGE_VERTEX_BUFFER: u32 = 0x80;

/// `VK_BUFFER_USAGE_INDIRECT_BUFFER_BIT`.
pub const BUFFER_USAGE_INDIRECT_BUFFER: u32 = 0x100;

/// `VK_MEMORY_PROPERTY_DEVICE_LOCAL_BIT`.
pub const MEMORY_PROPERTY_DEVICE_LOCAL: u32 = 0x1;

/// `VK_MEMORY_PROPERTY_HOST_VISIBLE_BIT`.
pub const MEMORY_PROPERTY_HOST_VISIBLE: u32 = 0x2;

/// `VK_MEMORY_PROPERTY_HOST_COHERENT_BIT`.
pub const MEMORY_PROPERTY_HOST_COHERENT: u32 = 0x4;

/// `VK_ACCESS_SHADER_READ_BIT`.
pub const ACCESS_SHADER_READ: u32 = 0x20;

/// `VK_ACCESS_TRANSFER_READ_BIT`.
pub const ACCESS_TRANSFER_READ: u32 = 0x800;

/// `VK_ACCESS_TRANSFER_WRITE_BIT`.
pub const ACCESS_TRANSFER_WRITE: u32 = 0x1000;

/// Every access bit that `ash` knows: what `AccessFlags::all()` holds.
pub const ACCESS_ALL: u32 = 0x1_FFFF;

/// `VK_PIPELINE_STAGE_TOP_OF_PIPE_BIT`.
pub const PIPELINE_STAGE_TOP_OF_PIPE: u32 = 0x1;

/// `VK_PIPELINE_STAGE_FRAGMENT_SHADER_BIT`.
pub const PIPELINE_STAGE_FRAGMENT_SHADER: u32 = 0x80;

/// `VK_PIPELINE_STAGE_TRANSFER_BIT`.
pub const PIPELINE_STAGE_TRANSFER: u32 = 0x1000;

/// `VK_PIPELINE_STAGE_ALL_COMMANDS_BIT`.
pub const PIPELINE_STAGE_ALL_COMMANDS: u32 = 0x1_0000;

/// `VK_IMAGE_ASPECT_COLOR_BIT`.
pub const IMAGE_ASPECT_COLOR: u32 = 0x1;

/// `VK_IMAGE_LAYOUT_UNDEFINED`.
pub const IMAGE_LAYOUT_UNDEFINED: i32 = 0;

/// `VK_IMAGE_LAYOUT_GENERAL`.
pub const IMAGE_LAYOUT_GENERAL: i32 = 1;

/// `VK_IMAGE_LAYOUT_SHADER_READ_ONLY_OPTIMAL`.
pub const IMAGE_LAYOUT_SHADER_READ_ONLY_OPTIMAL: i32 = 5;

/// `VK_IMAGE_LAYOUT_TRANSFER_SRC_OPTIMAL`.
pub const IMAGE_LAYOUT_TRANSFER_SRC_OPTIMAL: i32 = 6;

/// `VK_IMAGE_LAYOUT_TRANSFER_DST_OPTIMAL`.
pub const IMAGE_LAYOUT_TRANSFER_DST_OPTIMAL: i32 = 7;

/// `VK_QUEUE_FAMILY_IGNORED`.
pub const QUEUE_FAMILY_IGNORED: u32 = 0xFFFF_FFFF;

/// `VK_PIPELINE_BIND_POINT_GRAPHICS`.
pub const PIPELINE_BIND_POINT_GRAPHICS: i32 = 0;

/// `VK_PIPELINE_BIND_POINT_COMPUTE`.
pub const PIPELINE_BIND_POINT_COMPUTE: i32 = 1;

/// `VK_SUBPASS_CONTENTS_INLINE`.
pub const SUBPASS_CONTENTS_INLINE: i32 = 0;

/// `VK_COMMAND_BUFFER_LEVEL_PRIMARY`.
pub const COMMAND_BUFFER_LEVEL_PRIMARY: i32 = 0;

/// `VK_COMMAND_BUFFER_LEVEL_SECONDARY`.
pub const COMMAND_BUFFER_LEVEL_SECONDARY: i32 = 1;

/// `VK_PHYSICAL_DEVICE_TYPE_DISCRETE_GPU`.
pub const PHYSICAL_DEVICE_TYPE_DISCRETE_GPU: i32 = 2;

/// The null handle.
pub const NULL_HANDLE: u64 = 0;

/// `VK_COMMAND_BUFFER_USAGE_ONE_TIME_SUBMIT_BIT`.
pub const COMMAND_BUFFER_USAGE_ONE_TIME_SUBMIT: u32 = 0x1;

/// `VK_IMAGE_USAGE_TRANSFER_SRC_BIT`.
pub const IMAGE_USAGE_TRANSFER_SRC: u32 = 0x1;

/// `VK_IMAGE_USAGE_TRANSFER_DST_BIT`.
pub const IMAGE_USAGE_TRANSFER_DST: u32 = 0x2;

/// `VK_IMAGE_USAGE_SAMPLED_BIT`.
pub const IMAGE_USAGE_SAMPLED: u32 = 0x4;

/// `VK_IMAGE_USAGE_STORAGE_BIT`.
pub const IMAGE_USAGE_STORAGE: u32 = 0x8;

/// `VK_IMAGE_TYPE_2D`.
pub const IMAGE_TYPE_2D: i32 = 1;

/// `VK_IMAGE_VIEW_TYPE_2D`.
pub const IMAGE_VIEW_TYPE_2D: i32 = 1;

/// `VK_IMAGE_TILING_OPTIMAL`.
pub const IMAGE_TILING_OPTIMAL: i32 = 0;

/// `VK_IMAGE_TILING_LINEAR`.
pub const IMAGE_TILING_LINEAR: i32 = 1;

/// `VK_FORMAT_R8G8B8A8_UINT`.
pub const FORMAT_R8G8B8A8_UINT: i32 = 41;

/// `VK_FORMAT_R8G8B8A8_SRGB`.
pub const FORMAT_R8G8B8A8_SRGB: i32 = 43;

/// `VK_SAMPLE_COUNT_1_BIT`.
pub const SAMPLE_COUNT_1: u32 = 0x1;

/// `VK_SHARING_MODE_EXCLUSIVE`.
pub const SHARING_MODE_EXCLUSIVE: i32 = 0;

/// `VK_DEBUG_UTILS_MESSAGE_SEVERITY_VERBOSE_BIT_EXT`.
pub const DEBUG_SEVERITY_VERBOSE: u32 = 0x1;

/// `VK_DEBUG_UTILS_MESSAGE_SEVERITY_INFO_BIT_EXT`.
pub const DEBUG_SEVERITY_INFO: u32 = 0x10;

/// `VK_DEBUG_UTILS_MESSAGE_SEVERITY_WARNING_BIT_EXT`.
pub const DEBUG_SEVERITY_WARNING: u32 = 0x100;

/// `VK_DEBUG_UTILS_MESSAGE_SEVERITY_ERROR_BIT_EXT`.
pub const DEBUG_SEVERITY_ERROR: u32 = 0x1000;

/// `VK_DEBUG_UTILS_MESSAGE_TYPE_GENERAL_BIT_EXT`.
pub const DEBUG_TYPE_GENERAL: u32 = 0x1;

/// `VK_DEBUG_UTILS_MESSAGE_TYPE_VALIDATION_BIT_EXT`.
pub const DEBUG_TYPE_VALIDATION: u32 = 0x2;

/// `VK_DEBUG_UTILS_MESSAGE_TYPE_PERFORMANCE_BIT_EXT`.
pub const DEBUG_TYPE_PERFORMANCE: u32 = 0x4;

/// `VK_TRUE`.
pub const TRUE: u32 = 1;

/// `VK_FALSE`.
pub const FALSE: u32 = 0;

/// Whether every bit of `wanted` is set in `flags`.
pub open spec fn contains(flags: u32, wanted: u32) -> bool {
    flags & wanted == wanted
}

/// Whether `flags` and `other` share a bit.
pub open spec fn intersects(flags: u32, other: u32) -> bool {
    flags & other != 0
}

/// Calls `ash::vk::QueueFlags::contains` on the two masks. `ash` computes
/// `self & other == other` on the raw bits, and so does the contract.
#[verifier::external_body]
pub(crate) fn queue_flags_contains(flags: u32, wanted: u32) -> (found: bool)
    ensures
        found == contains(flags, wanted),
{
    ash::vk::QueueFlags::from_raw(flags).contains(ash::vk::QueueFlags::from_raw(wanted))
}

/// Calls `ash::vk::QueueFlags::intersects` on the two masks. `ash` computes
/// `self & other != empty()` on the raw bits, and so does the contract.
#[verifier::external_body]
pub(crate) fn queue_flags_intersects(flags: u32, other: u32) -> (shared: bool)
    ensures
        shared == intersects(flags, other),
{
    ash::vk::QueueFlags::from_raw(flags).intersects(ash::vk::QueueFlags::from_raw(other))
}

/// Calls `ash::vk::BufferUsageFlags::contains` on the two masks. `ash`
/// computes `self & other == other` on the raw bits, and so does the contract.
#[verifier::external_body]
pub(crate) fn buffer_usage_contains(usage: u32, wanted: u32) -> (found: bool)
    ensures
        found == contains(usage, wanted),
{
    ash::vk::BufferUsageFlags::from_raw(usage).contains(ash::vk::BufferUsageFlags::from_raw(wanted))
}

/// Calls `ash::vk::MemoryPropertyFlags::contains` on the two masks. `ash`
/// computes `self & other == other` on the raw bits, and so does the contract.
#[verifier::external_body]
pub(crate) fn memory_property_contains(flags: u32, wanted: u32) -> (found: bool)
    ensures
        found == contains(flags, wanted),
{
    ash::vk::MemoryPropertyFlags::from_raw(flags).contains(
        ash::vk::MemoryPropertyFlags::from_raw(wanted),
    )
}

/// Calls `ash::vk::AccessFlags::all` and hands back its raw bits: the mask of
/// the seventeen access bits of Vulkan 1.0, which is what this version of
/// `ash` builds the value from.
#[verifier::external_body]
pub(crate) fn access_flags_all() -> (bits: u32)
    ensures
        bits == ACCESS_ALL,
{
    ash::vk::AccessFlags::all().as_raw()
}

} // verus!
