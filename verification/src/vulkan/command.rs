//! The device calls that a recording session makes, as values.

use vstd::prelude::*;

use super::flags::PIPELINE_BIND_POINT_COMPUTE;
use super::queue::QueueFamily;
use super::structs::{
    BufferCopy, BufferImageCopy, BufferMemoryBarrier, ClearAttachment, ClearRect, ClearValue,
    ImageBlit, ImageCopy, ImageMemoryBarrier, ImageResolve, ImageSubresourceRange, MemoryBarrier,
    RenderPassBeginInfo, RenderPassBeginInfoView,
};

verus! {

/// What a queue family must be able to do for a command to be recorded
/// against it.
#[derive(Clone, Copy, Debug, PartialEq, Eq)]
pub enum Capability {
    /// Any family will do.
    Any,
    Graphics,
    Compute,
    /// Graphics, compute or dedicated transfer.
    Transfer,
}

/// On which side of a render pass a command belongs.
#[derive(Clone, Copy, Debug, PartialEq, Eq)]
pub enum Placement {
    /// Inside a render pass or outside.
    Anywhere,
    /// Only while a render pass is open.
    Inside,
    /// Only while no render pass is open.
    Outside,
}

/// One device call on a command buffer. A replay makes these calls on the
/// buffer's handle in the order of the list.
#[allow(inconsistent_fields)]
#[derive(Clone, Debug, PartialEq, Eq)]
pub enum Command {
    Begin { usage: u32 },
    End,
    PipelineBarrier {
        src_stage_mask: u32,
        dst_stage_mask: u32,
        dependency_flags: u32,
        memory_barriers: Vec<MemoryBarrier>,
        buffer_memory_barriers: Vec<BufferMemoryBarrier>,
        image_memory_barriers: Vec<ImageMemoryBarrier>,
    },
    BeginRenderPass { begin_info: RenderPassBeginInfo, contents: i32 },
    NextSubpass { contents: i32 },
    EndRenderPass,
    BindPipeline { bind_point: i32, pipeline: u64 },
    BindDescriptorSets {
        bind_point: i32,
        layout: u64,
        first_set: u32,
        descriptor_sets: Vec<u64>,
        dynamic_offsets: Vec<u32>,
    },
    BindVertexBuffers { first_binding: u32, buffers: Vec<u64>, offsets: Vec<u64> },
    BindIndexBuffer { buffer: u64, offset: u64, index_type: i32 },
    Draw { vertex_count: u32, instance_count: u32, first_vertex: u32, first_instance: u32 },
    DrawIndirect { buffer: u64, offset: u64, draw_count: u32, stride: u32 },
    DrawIndexed {
        index_count: u32,
        instance_count: u32,
        first_index: u32,
        vertex_offset: i32,
        first_instance: u32,
    },
    DrawIndexedIndirect { buffer: u64, offset: u64, draw_count: u32, stride: u32 },
    Dispatch { group_count_x: u32, group_count_y: u32, group_count_z: u32 },
    DispatchIndirect { buffer: u64, offset: u64 },
    ClearColorImage {
        image: u64,
        image_layout: i32,
        color: ClearValue,
        ranges: Vec<ImageSubresourceRange>,
    },
    ClearAttachments { attachments: Vec<ClearAttachment>, rects: Vec<ClearRect> },
    FillBuffer { dst_buffer: u64, dst_offset: u64, size: u64, data: u32 },
    UpdateBuffer { dst_buffer: u64, dst_offset: u64, data: Vec<u8> },
    CopyBuffer { src_buffer: u64, dst_buffer: u64, regions: Vec<BufferCopy> },
    CopyImage {
        src_image: u64,
        src_image_layout: i32,
        dst_image: u64,
        dst_image_layout: i32,
        regions: Vec<ImageCopy>,
    },
    CopyBufferToImage {
        src_buffer: u64,
        dst_image: u64,
        dst_image_layout: i32,
        regions: Vec<BufferImageCopy>,
    },
    CopyImageToBuffer {
        src_image: u64,
        src_image_layout: i32,
        dst_buffer: u64,
        regions: Vec<BufferImageCopy>,
    },
    BlitImage {
        src_image: u64,
        src_image_layout: i32,
        dst_image: u64,
        dst_image_layout: i32,
        regions: Vec<ImageBlit>,
        filter: i32,
    },
    ResolveImage {
        src_image: u64,
        src_image_layout: i32,
        dst_image: u64,
        dst_image_layout: i32,
        regions: Vec<ImageResolve>,
    },
}

/// The value of a [`Command`]: the same call with its lists as sequences.
#[allow(inconsistent_fields)]
pub enum CommandView {
    Begin { usage: u32 },
    End,
    PipelineBarrier {
        src_stage_mask: u32,
        dst_stage_mask: u32,
        dependency_flags: u32,
        memory_barriers: Seq<MemoryBarrier>,
        buffer_memory_barriers: Seq<BufferMemoryBarrier>,
        image_memory_barriers: Seq<ImageMemoryBarrier>,
    },
    BeginRenderPass { begin_info: RenderPassBeginInfoView, contents: i32 },
    NextSubpass { contents: i32 },
    EndRenderPass,
    BindPipeline { bind_point: i32, pipeline: u64 },
    BindDescriptorSets {
        bind_point: i32,
        layout: u64,
        first_set: u32,
        descriptor_sets: Seq<u64>,
        dynamic_offsets: Seq<u32>,
    },
    BindVertexBuffers { first_binding: u32, buffers: Seq<u64>, offsets: Seq<u64> },
    BindIndexBuffer { buffer: u64, offset: u64, index_type: i32 },
    Draw { vertex_count: u32, instance_count: u32, first_vertex: u32, first_instance: u32 },
    DrawIndirect { buffer: u64, offset: u64, draw_count: u32, stride: u32 },
    DrawIndexed {
        index_count: u32,
        instance_count: u32,
        first_index: u32,
        vertex_offset: i32,
        first_instance: u32,
    },
    DrawIndexedIndirect { buffer: u64, offset: u64, draw_count: u32, stride: u32 },
    Dispatch { group_count_x: u32, group_count_y: u32, group_count_z: u32 },
    DispatchIndirect { buffer: u64, offset: u64 },
    ClearColorImage {
        image: u64,
        image_layout: i32,
        color: ClearValue,
        ranges: Seq<ImageSubresourceRange>,
    },
    ClearAttachments { attachments: Seq<ClearAttachment>, rects: Seq<ClearRect> },
    FillBuffer { dst_buffer: u64, dst_offset: u64, size: u64, data: u32 },
    UpdateBuffer { dst_buffer: u64, dst_offset: u64, data: Seq<u8> },
    CopyBuffer { src_buffer: u64, dst_buffer: u64, regions: Seq<BufferCopy> },
    CopyImage {
        src_image: u64,
        src_image_layout: i32,
        dst_image: u64,
        dst_image_layout: i32,
        regions: Seq<ImageCopy>,
    },
    CopyBufferToImage {
        src_buffer: u64,
        dst_image: u64,
        dst_image_layout: i32,
        regions: Seq<BufferImageCopy>,
    },
    CopyImageToBuffer {
        src_image: u64,
        src_image_layout: i32,
        dst_buffer: u64,
        regions: Seq<BufferImageCopy>,
    },
    BlitImage {
        src_image: u64,
        src_image_layout: i32,
        dst_image: u64,
        dst_image_layout: i32,
        regions: Seq<ImageBlit>,
        filter: i32,
    },
    ResolveImage {
        src_image: u64,
        src_image_layout: i32,
        dst_image: u64,
        dst_image_layout: i32,
        regions: Seq<ImageResolve>,
    },
}

impl View for Command {
    type V = CommandView;

    open spec fn view(&self) -> CommandView {
        match *self {
            Command::Begin { usage } => CommandView::Begin { usage },
            Command::End => CommandView::End,
            Command::PipelineBarrier {
                src_stage_mask,
                dst_stage_mask,
                dependency_flags,
                memory_barriers,
                buffer_memory_barriers,
                image_memory_barriers,
            } => CommandView::PipelineBarrier {
                src_stage_mask,
                dst_stage_mask,
                dependency_flags,
                memory_barriers: memory_barriers@,
                buffer_memory_barriers: buffer_memory_barriers@,
                image_memory_barriers: image_memory_barriers@,
            },
            Command::BeginRenderPass { begin_info, contents } => CommandView::BeginRenderPass {
                begin_info: begin_info@,
                contents,
            },
            Command::NextSubpass { contents } => CommandView::NextSubpass { contents },
            Command::EndRenderPass => CommandView::EndRenderPass,
            Command::BindPipeline { bind_point, pipeline } => CommandView::BindPipeline {
                bind_point,
                pipeline,
            },
            Command::BindDescriptorSets {
                bind_point,
                layout,
                first_set,
                descriptor_sets,
                dynamic_offsets,
            } => CommandView::BindDescriptorSets {
                bind_point,
                layout,
                first_set,
                descriptor_sets: descriptor_sets@,
                dynamic_offsets: dynamic_offsets@,
            },
            Command::BindVertexBuffers { first_binding, buffers, offsets } => {
                CommandView::BindVertexBuffers {
                    first_binding,
                    buffers: buffers@,
                    offsets: offsets@,
                }
            },
            Command::BindIndexBuffer { buffer, offset, index_type } => {
                CommandView::BindIndexBuffer { buffer, offset, index_type }
            },
            Command::Draw { vertex_count, instance_count, first_vertex, first_instance } => {
                CommandView::Draw { vertex_count, instance_count, first_vertex, first_instance }
            },
            Command::DrawIndirect { buffer, offset, draw_count, stride } => {
                CommandView::DrawIndirect { buffer, offset, draw_count, stride }
            },
            Command::DrawIndexed {
                index_count,
                instance_count,
                first_index,
                vertex_offset,
                first_instance,
            } => CommandView::DrawIndexed {
                index_count,
                instance_count,
                first_index,
                vertex_offset,
                first_instance,
            },
            Command::DrawIndexedIndirect { buffer, offset, draw_count, stride } => {
                CommandView::DrawIndexedIndirect { buffer, offset, draw_count, stride }
            },
            Command::Dispatch { group_count_x, group_count_y, group_count_z } => {
                CommandView::Dispatch { group_count_x, group_count_y, group_count_z }
            },
            Command::DispatchIndirect { buffer, offset } => CommandView::DispatchIndirect {
                buffer,
                offset,
            },
            Command::ClearColorImage { image, image_layout, color, ranges } => {
                CommandView::ClearColorImage { image, image_layout, color, ranges: ranges@ }
            },
            Command::ClearAttachments { attachments, rects } => CommandView::ClearAttachments {
                attachments: attachments@,
                rects: rects@,
            },
            Command::FillBuffer { dst_buffer, dst_offset, size, data } => {
                CommandView::FillBuffer { dst_buffer, dst_offset, size, data }
            },
            Command::UpdateBuffer { dst_buffer, dst_offset, data } => CommandView::UpdateBuffer {
                dst_buffer,
                dst_offset,
                data: data@,
            },
            Command::CopyBuffer { src_buffer, dst_buffer, regions } => CommandView::CopyBuffer {
                src_buffer,
                dst_buffer,
                regions: regions@,
            },
            Command::CopyImage {
                src_image,
                src_image_layout,
                dst_image,
                dst_image_layout,
                regions,
            } => CommandView::CopyImage {
                src_image,
                src_image_layout,
                dst_image,
                dst_image_layout,
                regions: regions@,
            },
            Command::CopyBufferToImage { src_buffer, dst_image, dst_image_layout, regions } => {
                CommandView::CopyBufferToImage {
                    src_buffer,
                    dst_image,
                    dst_image_layout,
                    regions: regions@,
                }
            },
            Command::CopyImageToBuffer { src_image, src_image_layout, dst_buffer, regions } => {
                CommandView::CopyImageToBuffer {
                    src_image,
                    src_image_layout,
                    dst_buffer,
                    regions: regions@,
                }
            },
            Command::BlitImage {
                src_image,
                src_image_layout,
                dst_image,
                dst_image_layout,
                regions,
                filter,
            } => CommandView::BlitImage {
                src_image,
                src_image_layout,
                dst_image,
                dst_image_layout,
                regions: regions@,
                filter,
            },
            Command::ResolveImage {
                src_image,
                src_image_layout,
                dst_image,
                dst_image_layout,
                regions,
            } => CommandView::ResolveImage {
                src_image,
                src_image_layout,
                dst_image,
                dst_image_layout,
                regions: regions@,
            },
        }
    }
}

impl CommandView {
    /// What a family must be able to do to carry this command.
    pub open spec fn capability(self) -> Capability {
        match self {
            CommandView::Begin { .. } | CommandView::End | CommandView::PipelineBarrier { .. } => {
                Capability::Any
            },
            CommandView::BeginRenderPass { .. }
            | CommandView::NextSubpass { .. }
            | CommandView::EndRenderPass
            | CommandView::BindVertexBuffers { .. }
            | CommandView::BindIndexBuffer { .. }
            | CommandView::Draw { .. }
            | CommandView::DrawIndirect { .. }
            | CommandView::DrawIndexed { .. }
            | CommandView::DrawIndexedIndirect { .. }
            | CommandView::ClearAttachments { .. }
            | CommandView::BlitImage { .. }
            | CommandView::ResolveImage { .. } => Capability::Graphics,
            CommandView::BindPipeline { bind_point, .. }
            | CommandView::BindDescriptorSets { bind_point, .. } => {
                if bind_point == PIPELINE_BIND_POINT_COMPUTE {
                    Capability::Compute
                } else {
                    Capability::Graphics
                }
            },
            CommandView::Dispatch { .. } | CommandView::DispatchIndirect { .. } => {
                Capability::Compute
            },
            CommandView::ClearColorImage { .. }
            | CommandView::FillBuffer { .. }
            | CommandView::UpdateBuffer { .. }
            | CommandView::CopyBuffer { .. }
            | CommandView::CopyImage { .. }
            | CommandView::CopyBufferToImage { .. }
            | CommandView::CopyImageToBuffer { .. } => Capability::Transfer,
        }
    }

    /// On which side of a render pass the command belongs: draws, clears of
    /// attachments, and the step and the end of a pass belong inside one;
    /// copies, clears of images, fills and updates of buffers, dispatches,
    /// the begin of a pass and the end of the recording belong outside;
    /// barriers and bindings belong anywhere.
    pub open spec fn placement(self) -> Placement {
        match self {
            CommandView::Begin { .. }
            | CommandView::PipelineBarrier { .. }
            | CommandView::BindPipeline { .. }
            | CommandView::BindDescriptorSets { .. }
            | CommandView::BindVertexBuffers { .. }
            | CommandView::BindIndexBuffer { .. } => Placement::Anywhere,
            CommandView::NextSubpass { .. }
            | CommandView::EndRenderPass
            | CommandView::Draw { .. }
            | CommandView::DrawIndirect { .. }
            | CommandView::DrawIndexed { .. }
            | CommandView::DrawIndexedIndirect { .. }
            | CommandView::ClearAttachments { .. } => Placement::Inside,
            CommandView::End
            | CommandView::BeginRenderPass { .. }
            | CommandView::Dispatch { .. }
            | CommandView::DispatchIndirect { .. }
            | CommandView::ClearColorImage { .. }
            | CommandView::FillBuffer { .. }
            | CommandView::UpdateBuffer { .. }
            | CommandView::CopyBuffer { .. }
            | CommandView::CopyImage { .. }
            | CommandView::CopyBufferToImage { .. }
            | CommandView::CopyImageToBuffer { .. }
            | CommandView::BlitImage { .. }
            | CommandView::ResolveImage { .. } => Placement::Outside,
        }
    }

    /// The command may be recorded while a render pass is open, if `open`,
    /// or while none is, if not.
    pub open spec fn fits(self, open: bool) -> bool {
        match self.placement() {
            Placement::Anywhere => true,
            Placement::Inside => open,
            Placement::Outside => !open,
        }
    }

    /// The command opens, steps or closes a render pass.
    pub open spec fn is_render_pass_marker(self) -> bool {
        self is BeginRenderPass || self is NextSubpass || self is EndRenderPass
    }

    /// The command belongs to the capability set of `family`.
    pub open spec fn allowed_on(self, family: QueueFamily) -> bool {
        family.provides(self.capability())
    }
}

impl QueueFamily {
    /// The family can do what `capability` asks.
    pub open spec fn provides(&self, capability: Capability) -> bool {
        match capability {
            Capability::Any => true,
            Capability::Graphics => self.has_graphics(),
            Capability::Compute => self.has_compute(),
            Capability::Transfer => self.can_transfer(),
        }
    }
}

/// The values of a list of commands, in order.
pub open spec fn command_views(commands: Seq<Command>) -> Seq<CommandView> {
    commands.map_values(|c: Command| c@)
}

/// Whether a render pass is open after the commands of the list: the last
/// begin of a pass among them has no end of a pass after it.
pub open spec fn open_after(commands: Seq<CommandView>) -> bool
    decreases commands.len(),
{
    if commands.len() == 0 {
        false
    } else if commands.last() is BeginRenderPass {
        true
    } else if commands.last() is EndRenderPass {
        false
    } else {
        open_after(commands.drop_last())
    }
}

/// Every command of the list stands on its side of the render passes that
/// the commands before it have begun and ended.
#[verifier::opaque]
pub open spec fn well_placed(commands: Seq<CommandView>) -> bool {
    forall|i: int|
        0 <= i < commands.len() ==> (#[trigger] commands[i]).fits(open_after(commands.take(i)))
}

/// One more command that stands on its side of a render pass keeps a list
/// well placed, and only the begin and the end of a pass change whether one
/// is open.
pub proof fn placed_after_push(commands: Seq<CommandView>, command: CommandView)
    requires
        well_placed(commands),
        command.fits(open_after(commands)),
    ensures
        well_placed(commands.push(command)),
        open_after(commands.push(command)) == if command is BeginRenderPass {
            true
        } else if command is EndRenderPass {
            false
        } else {
            open_after(commands)
        },
{
    reveal(well_placed);
    let longer = commands.push(command);
    assert(longer.drop_last() =~= commands);
    assert forall|i: int| 0 <= i < longer.len() implies (#[trigger] longer[i]).fits(
        open_after(longer.take(i)),
    ) by {
        if i < commands.len() {
            assert(longer.take(i) =~= commands.take(i));
        }
    }
}

/// A recording that holds its begin and nothing else is well placed, and no
/// render pass is open after it.
pub proof fn placed_at_begin(usage: u32)
    ensures
        well_placed(seq![CommandView::Begin { usage }]),
        !open_after(seq![CommandView::Begin { usage }]),
{
    reveal(well_placed);
    let commands = seq![CommandView::Begin { usage }];
    assert(commands.drop_last() =~= Seq::<CommandView>::empty());
}

} // verus!
