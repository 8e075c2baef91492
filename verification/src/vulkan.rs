//! The Vulkan objects of the layer.

pub mod buffer;
pub mod byte_copiable;
pub mod command;
pub mod command_pool;
pub mod compute_pipeline;
pub mod debug;
pub mod descriptor;
pub mod descriptor_pool;
pub mod descriptors;
pub mod device;
pub mod flags;
pub mod image;
pub mod instance;
pub mod queue;
pub mod structs;

pub use self::buffer::{Buffer, HostWrite, MappedRange};
pub use self::byte_copiable::ByteCopiable;
pub use self::command::{Capability, Command};
pub use self::command_pool::{
    BarrierViolation, ClearCommands, ClearError, CommandBuffer, CommandBufferRecorder,
    CommandBufferState, CommandPool, ComputeBindings, ComputeGenericCommands, CopyCommands,
    CopyError, DispatchCommands, DispatchError, DrawCommands, DrawError, ExecutableCommandBuffer,
    GenericBindings, GenericCommands, GraphicsBindings, GraphicsCommandBuffer,
    GraphicsCopyCommands, GraphicsGenericCommands, IndexedDrawCommands, InsideOfRenderpassScope,
    OneTimeCopyError, QueueSubmission, QueueSubmissionBuilder, Subpass, TransferCommandBuffer,
    UnsupportedOperation,
};
pub use self::compute_pipeline::ComputePipeline;
pub use self::descriptors::{
    DescriptorPool, DescriptorPoolBuilder, DescriptorSetLayout, DescriptorSetLayoutBuilder,
};
pub use self::device::{Device, PhysicalDeviceTraits, QueueSlot};
pub use self::image::{Image, ImageRequest, TextureRequest};
pub use self::queue::{Queue, QueueFamily, QueueFamilyProperties, QueueSubmit, SubmitInfo};
pub use self::structs::GraphicsPipeline;
