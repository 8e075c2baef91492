//! Command pools, the life of a command buffer, and the capability-gated
//! views through which commands are recorded.

use std::marker::PhantomData;
use std::ops::Range;
use std::rc::Rc;

use vstd::prelude::*;

use super::buffer::Buffer;
use super::byte_copiable::ByteCopiable;
use super::command::{
    command_views, open_after, placed_after_push, placed_at_begin, well_placed, Capability,
    Command, CommandView, Placement,
};
use super::compute_pipeline::ComputePipeline;
use super::flags::{
    COMMAND_BUFFER_USAGE_ONE_TIME_SUBMIT, PIPELINE_BIND_POINT_COMPUTE,
    PIPELINE_BIND_POINT_GRAPHICS, SUBPASS_CONTENTS_INLINE,
};
use super::image::Image;
use super::queue::QueueFamily;
use super::structs::{
    BufferCopy, BufferImageCopy, BufferMemoryBarrier, ClearAttachment, ClearRect, ClearValue,
    GraphicsPipeline, ImageBlit, ImageCopy, ImageMemoryBarrier, ImageResolve,
    CommandBufferAllocateInfo, ImageSubresourceRange, MemoryBarrier, RenderPassBeginInfo,
    RenderPassBeginInfoView,
};

verus! {

/// Storage for command buffers, bound to one queue family. Every buffer that
/// it allocates shares its ownership, so the pool outlives them all.
#[derive(Clone, Copy, Debug, PartialEq, Eq)]
pub struct CommandPool {
    pub command_pool: u64,
    pub queue_family: QueueFamily,
}

#[derive(Clone, Copy, Debug, PartialEq, Eq, Hash, PartialOrd, Ord, Structural)]
pub enum CommandBufferState {
    Initial,
    Recording,
    Executable,
    Pending,
    Invalid,
}

/// The queue family lacks the capability that was asked for.
#[derive(Clone, Copy, Debug, PartialEq, Eq, Hash, PartialOrd, Ord, Structural)]
pub struct UnsupportedOperation;

#[derive(Clone, Copy, Debug, PartialEq, Eq, Hash, PartialOrd, Ord, Structural)]
pub enum DrawError {
    /// No vertex buffer is bound, or a buffer offered as one may not be used
    /// so.
    Draw,
    /// No index buffer is bound, or the buffer offered as one may not be used
    /// so.
    Indexed,
    /// The buffer offered as the source of an indirect draw may not be used
    /// so.
    Indirect,
}

#[derive(Clone, Copy, Debug, PartialEq, Eq, Hash, PartialOrd, Ord, Structural)]
pub enum DispatchError {
    Dispatch,
    Indirect,
}

#[derive(Clone, Copy, Debug, PartialEq, Eq, Hash, PartialOrd, Ord, Structural)]
pub enum CopyError {
    RegionsOverlapped,
    /// The source buffer may not be used as the source of a transfer.
    SourceUsage,
    /// The destination buffer may not be used as the destination of a
    /// transfer.
    DestinationUsage,
    /// The source image is in a layout that a copy cannot read.
    SourceLayout,
    /// The destination image is in a layout that a copy cannot write.
    DestinationLayout,
}

/// Why a copy made as a unit of work of its own was not recorded.
#[derive(Clone, Copy, Debug, PartialEq, Eq, Hash, PartialOrd, Ord, Structural)]
pub enum OneTimeCopyError {
    /// The queue family of the scratch buffer's pool carries no transfers.
    Unsupported,
    /// The copy itself was refused.
    Copy(CopyError),
}

#[derive(Clone, Copy, Debug, PartialEq, Eq, Hash, PartialOrd, Ord, Structural)]
pub enum ClearError {
    /// The command belongs outside a render pass, and one is open.
    InsideRenderPass,
    /// The command belongs inside a render pass, and none is open.
    OutsideRenderPass,
    /// The buffer may not be used as the destination of a transfer.
    Usage,
    /// The image is in a layout that a clear cannot write.
    Layout,
}

impl UnsupportedOperation {
    pub fn to_string(&self) -> (message: String)
        ensures
            message@ == "An unsupported operation occured!"@,
    {
        "An unsupported operation occured!".to_owned()
    }
}

impl DrawError {
    pub fn to_string(&self) -> (message: String)
        ensures
            message@ == match *self {
                DrawError::Draw => "A draw command failed to be registered: Draw!"@,
                DrawError::Indexed => "A draw command failed to be registered: Indexed!"@,
                DrawError::Indirect => "A draw command failed to be registered: Indirect!"@,
            },
    {
        match self {
            DrawError::Draw => "A draw command failed to be registered: Draw!".to_owned(),
            DrawError::Indexed => "A draw command failed to be registered: Indexed!".to_owned(),
            DrawError::Indirect => "A draw command failed to be registered: Indirect!".to_owned(),
        }
    }
}

impl DispatchError {
    pub fn to_string(&self) -> (message: String)
        ensures
            message@ == match *self {
                DispatchError::Dispatch => "A dispatch command failed to be registered: Dispatch!"@,
                DispatchError::Indirect => "A dispatch command failed to be registered: Indirect!"@,
            },
    {
        match self {
            DispatchError::Dispatch => {
                "A dispatch command failed to be registered: Dispatch!".to_owned()
            },
            DispatchError::Indirect => {
                "A dispatch command failed to be registered: Indirect!".to_owned()
            },
        }
    }
}

impl ClearError {
    pub fn to_string(&self) -> (message: String)
        ensures
            message@ == match *self {
                ClearError::InsideRenderPass => {
                    "A clear command failed to be registered: InsideRenderPass!"@
                },
                ClearError::OutsideRenderPass => {
                    "A clear command failed to be registered: OutsideRenderPass!"@
                },
                ClearError::Usage => "A clear command failed to be registered: Usage!"@,
                ClearError::Layout => "A clear command failed to be registered: Layout!"@,
            },
    {
        match self {
            ClearError::InsideRenderPass => {
                "A clear command failed to be registered: InsideRenderPass!".to_owned()
            },
            ClearError::OutsideRenderPass => {
                "A clear command failed to be registered: OutsideRenderPass!".to_owned()
            },
            ClearError::Usage => "A clear command failed to be registered: Usage!".to_owned(),
            ClearError::Layout => "A clear command failed to be registered: Layout!".to_owned(),
        }
    }
}

impl CopyError {
    pub fn to_string(&self) -> (message: String)
        ensures
            message@ == match *self {
                CopyError::RegionsOverlapped => {
                    "A copy command failed to be registered: RegionsOverlapped!"@
                },
                CopyError::SourceUsage => "A copy command failed to be registered: SourceUsage!"@,
                CopyError::DestinationUsage => {
                    "A copy command failed to be registered: DestinationUsage!"@
                },
                CopyError::SourceLayout => "A copy command failed to be registered: SourceLayout!"@,
                CopyError::DestinationLayout => {
                    "A copy command failed to be registered: DestinationLayout!"@
                },
            },
    {
        match self {
            CopyError::RegionsOverlapped => {
                "A copy command failed to be registered: RegionsOverlapped!".to_owned()
            },
            CopyError::SourceUsage => {
                "A copy command failed to be registered: SourceUsage!".to_owned()
            },
            CopyError::DestinationUsage => {
                "A copy command failed to be registered: DestinationUsage!".to_owned()
            },
            CopyError::SourceLayout => {
                "A copy command failed to be registered: SourceLayout!".to_owned()
            },
            CopyError::DestinationLayout => {
                "A copy command failed to be registered: DestinationLayout!".to_owned()
            },
        }
    }
}

/// The value of a [`CommandBuffer`].
pub struct CommandBufferView {
    pub handle: u64,
    pub level: i32,
    pub state: CommandBufferState,
    pub usage: u32,
    pub pool: CommandPool,
    /// Every device call of the current recording session, oldest first.
    pub commands: Seq<CommandView>,
    /// A render pass was begun in this session and not ended.
    pub render_pass_open: bool,
}

/// A command buffer outside a recording session: freshly allocated, or
/// recorded and ended.
pub struct CommandBuffer {
    handle: u64,
    level: i32,
    state: CommandBufferState,
    usage: u32,
    command_pool: Rc<CommandPool>,
    commands: Vec<Command>,
    render_pass_open: bool,
}

impl View for CommandBuffer {
    type V = CommandBufferView;

    closed spec fn view(&self) -> CommandBufferView {
        CommandBufferView {
            handle: self.handle,
            level: self.level,
            state: self.state,
            usage: self.usage,
            pool: *self.command_pool,
            commands: command_views(self.commands@),
            render_pass_open: self.render_pass_open,
        }
    }
}

impl CommandBufferView {
    /// Every recorded command belongs to the capability set of the family
    /// that the buffer's pool is bound to.
    pub open spec fn within_capabilities(self) -> bool {
        forall|i: int|
            0 <= i < self.commands.len() ==> (#[trigger] self.commands[i]).allowed_on(
                self.pool.queue_family,
            )
    }
}

impl CommandPool {
    /// The pool that the device created under the handle `command_pool` for
    /// the family `queue_family`.
    pub fn new(queue_family: &QueueFamily, command_pool: u64) -> (pool: Self)
        ensures
            pool.command_pool == command_pool,
            pool.queue_family == *queue_family,
    {
        CommandPool { command_pool, queue_family: *queue_family }
    }

    /// The index of the queue family that a pool for `queue_family` is
    /// created with: the family's index, cut to 32 bits.
    pub fn queue_family_index(queue_family: &QueueFamily) -> (index: u32)
        ensures
            index == queue_family.index as u32,
    {
        #[verifier::truncate]
        (queue_family.index() as u32)
    }

    /// What `count` command buffers of `level` are allocated with from this
    /// pool. The count is cut to 32 bits.
    pub fn allocation(&self, level: i32, count: usize) -> (request: CommandBufferAllocateInfo)
        ensures
            request == (CommandBufferAllocateInfo {
                command_pool: self.command_pool,
                level,
                command_buffer_count: count as u32,
            }),
    {
        CommandBufferAllocateInfo {
            command_pool: self.command_pool,
            level,
            command_buffer_count: #[verifier::truncate] (count as u32),
        }
    }

    /// One buffer in the initial state for each handle that the device
    /// allocated from this pool, in the order of `handles`. Each shares the
    /// pool and with it the pool's queue family.
    pub fn allocate_command_buffers(self: &Rc<Self>, level: i32, handles: Vec<u64>) -> (buffers:
        Vec<CommandBuffer>)
        ensures
            buffers.len() == handles.len(),
            forall|i: int|
                0 <= i < handles.len() ==> (#[trigger] buffers[i])@ == (CommandBufferView {
                    handle: handles[i],
                    level,
                    state: CommandBufferState::Initial,
                    usage: 0,
                    pool: **self,
                    commands: Seq::empty(),
                    render_pass_open: false,
                }),
    {
        let mut buffers: Vec<CommandBuffer> = Vec::new();
        let mut i: usize = 0;
        while i < handles.len()
            invariant
                i <= handles.len(),
                buffers.len() == i,
                forall|j: int|
                    0 <= j < i ==> (#[trigger] buffers[j])@ == (CommandBufferView {
                        handle: handles[j],
                        level,
                        state: CommandBufferState::Initial,
                        usage: 0,
                        pool: **self,
                        commands: Seq::empty(),
                        render_pass_open: false,
                    }),
            decreases handles.len() - i,
        {
            let buffer = CommandBuffer {
                handle: handles[i],
                level,
                state: CommandBufferState::Initial,
                usage: 0,
                command_pool: Rc::clone(self),
                commands: Vec::new(),
                render_pass_open: false,
            };
            assert(buffer@.commands =~= Seq::empty());
            buffers.push(buffer);
            i += 1;
        }
        buffers
    }

    pub fn support_graphics(&self) -> (supported: bool)
        ensures
            supported == self.queue_family.has_graphics(),
    {
        self.queue_family.support_graphics()
    }

    pub fn support_compute(&self) -> (supported: bool)
        ensures
            supported == self.queue_family.has_compute(),
    {
        self.queue_family.support_compute()
    }

    /// Whether the pool's family supports transfers apart from graphics and
    /// compute work: it answers `false` for a graphics or compute family,
    /// though such a family carries transfers implicitly.
    pub fn support_transfer_only(&self) -> (supported: bool)
        ensures
            supported == self.queue_family.is_transfer_only(),
    {
        self.queue_family.support_transfer_only()
    }

    pub fn support_sparse_binding(&self) -> (supported: bool)
        ensures
            supported == self.queue_family.has_sparse_binding(),
    {
        self.queue_family.support_sparse_binding()
    }

    pub fn support_protected(&self) -> (supported: bool)
        ensures
            supported == self.queue_family.has_protected(),
    {
        self.queue_family.support_protected()
    }
}

#[derive(Debug)]
pub struct GenericBindings {}

/// What a recording session has bound for graphics work.
#[derive(Debug)]
pub struct GraphicsBindings<'a> {
    graphics_pipeline: Option<&'a GraphicsPipeline>,
    index_buffer: bool,
    vertex_buffers: bool,
    descriptors: bool,
}

/// What a recording session has bound for compute work.
#[derive(Debug)]
pub struct ComputeBindings<'a> {
    compute_pipeline: Option<&'a ComputePipeline>,
    descriptors: bool,
}

impl Default for GenericBindings {
    fn default() -> (bindings: Self) {
        GenericBindings {  }
    }
}

impl<'a> GraphicsBindings<'a> {
    /// Nothing is bound.
    pub closed spec fn unbound(&self) -> bool {
        &&& self.graphics_pipeline is None
        &&& !self.index_buffer
        &&& !self.vertex_buffers
        &&& !self.descriptors
    }
}

impl<'a> ComputeBindings<'a> {
    /// Nothing is bound.
    pub closed spec fn unbound(&self) -> bool {
        self.compute_pipeline is None && !self.descriptors
    }
}

impl<'a> Default for GraphicsBindings<'a> {
    fn default() -> (bindings: Self)
        ensures
            bindings.unbound(),
    {
        GraphicsBindings {
            graphics_pipeline: None,
            index_buffer: false,
            vertex_buffers: false,
            descriptors: false,
        }
    }
}

impl<'a> Default for ComputeBindings<'a> {
    fn default() -> (bindings: Self)
        ensures
            bindings.unbound(),
    {
        ComputeBindings { compute_pipeline: None, descriptors: false }
    }
}

/// Every buffer of the list may be bound as a vertex buffer.
pub open spec fn all_vertex_buffers(buffers_and_offsets: Seq<(Buffer, u64)>) -> bool {
    forall|i: int|
        0 <= i < buffers_and_offsets.len() ==> (
        #[trigger] buffers_and_offsets[i]).0.is_vertex_buffer()
}

/// The handles of the buffers of the list, in order.
pub open spec fn buffer_handles(buffers_and_offsets: Seq<(Buffer, u64)>) -> Seq<u64> {
    buffers_and_offsets.map_values(|pair: (Buffer, u64)| pair.0.handle)
}

/// The offsets of the list, in order.
pub open spec fn buffer_offsets(buffers_and_offsets: Seq<(Buffer, u64)>) -> Seq<u64> {
    buffers_and_offsets.map_values(|pair: (Buffer, u64)| pair.1)
}

/// The number of items in `range`: none where its end is not past its start.
pub open spec fn range_len(range: Range<u32>) -> u32 {
    if range.start < range.end {
        (range.end - range.start) as u32
    } else {
        0
    }
}

/// The value of a recording session: the buffer being recorded and what the
/// session has bound so far.
pub struct RecorderView {
    pub buffer: CommandBufferView,
    pub graphics_pipeline: Option<GraphicsPipeline>,
    pub index_buffer: bool,
    pub vertex_buffers: bool,
    pub graphics_descriptors: bool,
    pub compute_pipeline: Option<ComputePipeline>,
    pub compute_descriptors: bool,
}

impl RecorderView {
    /// The queue family that the buffer's pool is bound to.
    pub open spec fn family(self) -> QueueFamily {
        self.buffer.pool.queue_family
    }

    /// Every device call of the session, oldest first.
    pub open spec fn commands(self) -> Seq<CommandView> {
        self.buffer.commands
    }

    /// The session that `begin` opens on `buffer`: recording, with the begin
    /// call as its only command and nothing bound.
    pub open spec fn begun(buffer: CommandBufferView, usage: u32) -> RecorderView {
        RecorderView {
            buffer: CommandBufferView {
                state: CommandBufferState::Recording,
                commands: seq![CommandView::Begin { usage }],
                render_pass_open: false,
                ..buffer
            },
            graphics_pipeline: None,
            index_buffer: false,
            vertex_buffers: false,
            graphics_descriptors: false,
            compute_pipeline: None,
            compute_descriptors: false,
        }
    }

    /// The session that a unit of work of its own opens on `scratch`: begun
    /// for one submission.
    pub open spec fn one_time(scratch: CommandBufferView) -> RecorderView {
        Self::begun(scratch, COMMAND_BUFFER_USAGE_ONE_TIME_SUBMIT)
    }

    /// The session after one more device call.
    pub open spec fn record(self, command: CommandView) -> RecorderView {
        RecorderView {
            buffer: CommandBufferView {
                commands: self.buffer.commands.push(command),
                ..self.buffer
            },
            ..self
        }
    }

    /// What binding the buffers of the list as vertex buffers from
    /// `first_binding` on comes to: the session with the binding recorded and
    /// vertex buffers noted as bound, or `DrawError::Draw` if one of the
    /// buffers may not be used as a vertex buffer.
    pub open spec fn bind_vertex_buffers(
        self,
        first_binding: u32,
        buffers_and_offsets: Seq<(Buffer, u64)>,
    ) -> Result<RecorderView, DrawError> {
        if all_vertex_buffers(buffers_and_offsets) {
            Ok(
                RecorderView {
                    vertex_buffers: true,
                    ..self.record(
                        CommandView::BindVertexBuffers {
                            first_binding,
                            buffers: buffer_handles(buffers_and_offsets),
                            offsets: buffer_offsets(buffers_and_offsets),
                        },
                    )
                },
            )
        } else {
            Err(DrawError::Draw)
        }
    }

    /// What a draw of the vertices `vertexes` for the instances `instances`
    /// comes to: the session with the draw recorded, or `DrawError::Draw` if
    /// no vertex buffers are bound.
    pub open spec fn draw(self, vertexes: Range<u32>, instances: Range<u32>) -> Result<
        RecorderView,
        DrawError,
    > {
        if self.vertex_buffers {
            Ok(
                self.record(
                    CommandView::Draw {
                        vertex_count: range_len(vertexes),
                        instance_count: range_len(instances),
                        first_vertex: vertexes.start,
                        first_instance: instances.start,
                    },
                ),
            )
        } else {
            Err(DrawError::Draw)
        }
    }

    /// The session after a render pass was begun with `begin_info` and a
    /// first subpass of `contents`.
    pub open spec fn opened(
        self,
        begin_info: RenderPassBeginInfoView,
        contents: i32,
    ) -> RecorderView {
        let recorded = self.record(CommandView::BeginRenderPass { begin_info, contents });
        RecorderView {
            buffer: CommandBufferView { render_pass_open: true, ..recorded.buffer },
            ..recorded
        }
    }

    /// The session after the render pass moved on to a subpass of `contents`.
    pub open spec fn stepped(self, contents: i32) -> RecorderView {
        self.record(CommandView::NextSubpass { contents })
    }

    /// The session after the render pass was ended.
    pub open spec fn closed(self) -> RecorderView {
        let recorded = self.record(CommandView::EndRenderPass);
        RecorderView {
            buffer: CommandBufferView { render_pass_open: false, ..recorded.buffer },
            ..recorded
        }
    }

    /// The session after a subpass failed: the buffer is invalid.
    pub open spec fn invalidated(self) -> RecorderView {
        RecorderView {
            buffer: CommandBufferView { state: CommandBufferState::Invalid, ..self.buffer },
            ..self
        }
    }

    /// `after` is this session with more commands recorded, none of which
    /// opens, steps or closes a render pass. What is bound may differ.
    pub open spec fn continued_by(self, after: RecorderView) -> bool {
        &&& after.buffer == (CommandBufferView { commands: after.buffer.commands, ..self.buffer })
        &&& self.commands().len() <= after.commands().len()
        &&& after.commands().take(self.commands().len() as int) == self.commands()
        &&& forall|i: int|
            self.commands().len() <= i < after.commands().len() ==> !(
            #[trigger] after.commands()[i]).is_render_pass_marker()
    }

    /// The buffer that `end` leaves: executable, with the end call as the last
    /// command.
    pub open spec fn ended(self) -> CommandBufferView {
        CommandBufferView {
            state: CommandBufferState::Executable,
            commands: self.buffer.commands.push(CommandView::End),
            ..self.buffer
        }
    }

    /// The session can be recorded into: the buffer is recording; every
    /// recorded command belongs to the capability set of its queue family
    /// and stands on its side of the render passes recorded before it; and a
    /// render pass is open exactly if one was begun and not ended, which
    /// happens only on a family that supports graphics. A session whose
    /// buffer a failed render pass has made invalid is not well formed:
    /// nothing more is recorded into it.
    pub open spec fn wf(self) -> bool {
        &&& self.buffer.state == CommandBufferState::Recording
        &&& self.buffer.within_capabilities()
        &&& self.buffer.render_pass_open ==> self.family().has_graphics()
        &&& self.buffer.render_pass_open == open_after(self.commands())
        &&& well_placed(self.commands())
    }
}

/// The commands of the list that open, step or close a render pass, in
/// order.
pub open spec fn render_pass_markers(commands: Seq<CommandView>) -> Seq<CommandView>
    decreases commands.len(),
{
    if commands.len() == 0 {
        Seq::empty()
    } else {
        let earlier = render_pass_markers(commands.drop_last());
        if commands.last().is_render_pass_marker() {
            earlier.push(commands.last())
        } else {
            earlier
        }
    }
}

/// What a render pass of inline subpasses has recorded of its own once it has
/// moved on `steps` times: its begin with `begin_info`, then that many steps.
pub open spec fn begun_markers(
    begin_info: RenderPassBeginInfoView,
    steps: nat,
) -> Seq<CommandView> {
    seq![CommandView::BeginRenderPass { begin_info, contents: SUBPASS_CONTENTS_INLINE }] + Seq::new(
        steps,
        |i: int| CommandView::NextSubpass { contents: SUBPASS_CONTENTS_INLINE },
    )
}

impl RecorderView {
    /// `self` is the session `before` with a render pass begun with
    /// `begin_info` that has moved on `steps` times and is still open: the
    /// commands of `before` come first, the begin of the pass follows them,
    /// and of the calls that open, step or close a render pass exactly the
    /// begin and that many steps have been added.
    pub open spec fn inside_render_pass(
        self,
        before: RecorderView,
        begin_info: RenderPassBeginInfoView,
        steps: nat,
    ) -> bool {
        &&& self.buffer == (CommandBufferView {
            commands: self.buffer.commands,
            render_pass_open: true,
            ..before.buffer
        })
        &&& before.commands().len() < self.commands().len()
        &&& self.commands().take(before.commands().len() as int) == before.commands()
        &&& self.commands()[before.commands().len() as int] == (CommandView::BeginRenderPass {
            begin_info,
            contents: SUBPASS_CONTENTS_INLINE,
        })
        &&& render_pass_markers(self.commands()) == render_pass_markers(before.commands())
            + begun_markers(begin_info, steps)
    }

    /// `self` is the session `before` with a whole render pass of `subpasses`
    /// inline subpasses recorded: begun with `begin_info`, stepped between
    /// the subpasses and ended once after the last.
    pub open spec fn render_pass_recorded(
        self,
        before: RecorderView,
        begin_info: RenderPassBeginInfoView,
        subpasses: nat,
    ) -> bool
        recommends
            subpasses > 0,
    {
        &&& self.buffer == (CommandBufferView {
            commands: self.buffer.commands,
            render_pass_open: false,
            ..before.buffer
        })
        &&& before.commands().len() + 1 < self.commands().len()
        &&& self.commands().take(before.commands().len() as int) == before.commands()
        &&& self.commands()[before.commands().len() as int] == (CommandView::BeginRenderPass {
            begin_info,
            contents: SUBPASS_CONTENTS_INLINE,
        })
        &&& self.commands().last() == CommandView::EndRenderPass
        &&& render_pass_markers(self.commands()) == render_pass_markers(before.commands())
            + begun_markers(begin_info, (subpasses - 1) as nat).push(CommandView::EndRenderPass)
    }

    /// `self` is the session `before` with a render pass of `subpasses`
    /// inline subpasses that one of them failed: begun with `begin_info`,
    /// stepped fewer times than it has subpasses, never ended, and the
    /// buffer invalid.
    pub open spec fn render_pass_abandoned(
        self,
        before: RecorderView,
        begin_info: RenderPassBeginInfoView,
        subpasses: nat,
    ) -> bool {
        exists|steps: nat|
            steps < subpasses && #[trigger] self.inside_render_pass(
                before.invalidated(),
                begin_info,
                steps,
            )
    }

    /// Recording one command adds it to the render pass calls of the session
    /// if it is one, and nothing otherwise.
    pub proof fn markers_after_record(self, command: CommandView)
        ensures
            render_pass_markers(self.record(command).commands())
                == if command.is_render_pass_marker() {
                render_pass_markers(self.commands()).push(command)
            } else {
                render_pass_markers(self.commands())
            },
    {
        assert(self.commands().push(command).drop_last() =~= self.commands());
    }

    /// Commands that do not open, step or close a render pass leave the
    /// render pass calls of the session as they were.
    pub proof fn markers_after_continuation(self, after: RecorderView)
        requires
            self.continued_by(after),
        ensures
            render_pass_markers(after.commands()) == render_pass_markers(self.commands()),
        decreases after.commands().len(),
    {
        if after.commands().len() == self.commands().len() {
            assert(after.commands() =~= after.commands().take(self.commands().len() as int));
        } else {
            let shorter = RecorderView {
                buffer: CommandBufferView {
                    commands: after.commands().drop_last(),
                    ..after.buffer
                },
                ..after
            };
            assert(shorter.commands().take(self.commands().len() as int)
                =~= after.commands().take(self.commands().len() as int));
            self.markers_after_continuation(shorter);
        }
    }

    proof fn inside_render_pass_continues(
        self,
        after: RecorderView,
        before: RecorderView,
        begin_info: RenderPassBeginInfoView,
        steps: nat,
    )
        requires
            self.inside_render_pass(before, begin_info, steps),
            self.continued_by(after),
        ensures
            after.inside_render_pass(before, begin_info, steps),
    {
        let n = before.commands().len() as int;
        let m = self.commands().len() as int;
        self.markers_after_continuation(after);
        assert(after.commands().take(n) =~= after.commands().take(m).take(n));
    }

    proof fn inside_render_pass_steps(
        self,
        before: RecorderView,
        begin_info: RenderPassBeginInfoView,
        steps: nat,
    )
        requires
            self.inside_render_pass(before, begin_info, steps),
        ensures
            self.stepped(SUBPASS_CONTENTS_INLINE).inside_render_pass(before, begin_info, steps + 1),
    {
        let n = before.commands().len() as int;
        let step = CommandView::NextSubpass { contents: SUBPASS_CONTENTS_INLINE };
        let after = self.stepped(SUBPASS_CONTENTS_INLINE);
        self.markers_after_record(step);
        assert(after.commands().take(n) =~= self.commands().take(n));
        assert(begun_markers(begin_info, steps + 1) =~= begun_markers(begin_info, steps).push(
            step,
        ));
        assert((render_pass_markers(before.commands()) + begun_markers(begin_info, steps)).push(
            step,
        ) =~= render_pass_markers(before.commands()) + begun_markers(begin_info, steps + 1));
    }

    proof fn inside_render_pass_closes(
        self,
        before: RecorderView,
        begin_info: RenderPassBeginInfoView,
        steps: nat,
    )
        requires
            self.inside_render_pass(before, begin_info, steps),
        ensures
            self.closed().render_pass_recorded(before, begin_info, steps + 1),
    {
        let n = before.commands().len() as int;
        let after = self.closed();
        self.markers_after_record(CommandView::EndRenderPass);
        assert(after.commands().take(n) =~= self.commands().take(n));
        assert((render_pass_markers(before.commands()) + begun_markers(begin_info, steps)).push(
            CommandView::EndRenderPass,
        ) =~= render_pass_markers(before.commands()) + begun_markers(begin_info, steps).push(
            CommandView::EndRenderPass,
        ));
    }

    proof fn inside_render_pass_opens(self, begin_info: RenderPassBeginInfoView)
        ensures
            self.opened(begin_info, SUBPASS_CONTENTS_INLINE).inside_render_pass(
                self,
                begin_info,
                0,
            ),
    {
        let begin = CommandView::BeginRenderPass { begin_info, contents: SUBPASS_CONTENTS_INLINE };
        let after = self.opened(begin_info, SUBPASS_CONTENTS_INLINE);
        self.markers_after_record(begin);
        assert(after.commands().take(self.commands().len() as int) =~= self.commands());
        assert(render_pass_markers(self.commands()).push(begin) =~= render_pass_markers(
            self.commands(),
        ) + begun_markers(begin_info, 0));
    }

    /// Continuing a session twice is continuing it once.
    pub proof fn continuation_is_transitive(self, middle: RecorderView, after: RecorderView)
        requires
            self.continued_by(middle),
            middle.continued_by(after),
        ensures
            self.continued_by(after),
    {
        let n = self.commands().len() as int;
        let m = middle.commands().len() as int;
        assert(after.commands().take(n) =~= after.commands().take(m).take(n));
        assert forall|i: int| n <= i < after.commands().len() implies !(
        #[trigger] after.commands()[i]).is_render_pass_marker() by {
            if i < m {
                assert(after.commands()[i] == after.commands().take(m)[i]);
            }
        }
    }

    /// Recording a command that does not open, step or close a render pass
    /// continues the session, whatever is bound afterwards.
    pub proof fn record_continues(self, command: CommandView, after: RecorderView)
        requires
            !command.is_render_pass_marker(),
            after.buffer == self.record(command).buffer,
        ensures
            self.continued_by(after),
    {
        assert(after.commands().take(self.commands().len() as int) =~= self.commands());
    }

    /// A session continues itself, whatever is bound afterwards.
    pub proof fn continues_itself(self, after: RecorderView)
        requires
            after.buffer == self.buffer,
        ensures
            self.continued_by(after),
    {
        assert(after.commands().take(self.commands().len() as int) =~= self.commands());
    }
}

impl RecorderView {
    /// Every command that a session holds belongs to the capability set of
    /// the queue family that the buffer's pool is bound to: a graphics
    /// command is held only where the family supports graphics work, a
    /// compute command only where it supports compute work, a transfer
    /// command only where it carries transfers.
    pub proof fn commands_within_capabilities(self, i: int)
        requires
            self.wf(),
            0 <= i < self.commands().len(),
        ensures
            self.commands()[i].allowed_on(self.family()),
            self.commands()[i].capability() == Capability::Graphics
                ==> self.family().has_graphics(),
            self.commands()[i].capability() == Capability::Compute ==> self.family().has_compute(),
            self.commands()[i].capability() == Capability::Transfer
                ==> self.family().can_transfer(),
    {
    }

    /// Every command that a session holds stands on its side of the render
    /// passes recorded before it: a draw, a clear of attachments, a step or
    /// an end of a pass only after a begin of a pass that no end has
    /// followed; a copy, a clear of an image, a fill or an update of a
    /// buffer, a dispatch or a begin of a pass only where no pass is open.
    pub proof fn commands_on_their_side_of_render_passes(self, i: int)
        requires
            self.wf(),
            0 <= i < self.commands().len(),
        ensures
            self.commands()[i].fits(open_after(self.commands().take(i))),
            self.commands()[i].placement() == Placement::Inside ==> open_after(
                self.commands().take(i),
            ),
            self.commands()[i].placement() == Placement::Outside ==> !open_after(
                self.commands().take(i),
            ),
    {
        reveal(well_placed);
    }

    /// Recording a command of the family's capability set that stands on its
    /// side of a render pass, and neither begins nor ends one, keeps a session
    /// well formed, whatever is bound afterwards.
    pub proof fn recording_keeps_well_formed(self, command: CommandView, after: RecorderView)
        requires
            self.wf(),
            command.allowed_on(self.family()),
            command.fits(self.buffer.render_pass_open),
            !(command is BeginRenderPass),
            !(command is EndRenderPass),
            after.buffer == self.record(command).buffer,
        ensures
            after.wf(),
    {
        placed_after_push(self.commands(), command);
    }

    /// A draw in a session in which no vertex buffers were bound is refused
    /// with `DrawError::Draw`, as it is right after `begin`; once a list of
    /// buffers that may all be used as vertex buffers is bound, the same draw
    /// is recorded.
    pub proof fn draw_needs_vertex_buffers(
        self,
        buffer: CommandBufferView,
        usage: u32,
        first_binding: u32,
        buffers_and_offsets: Seq<(Buffer, u64)>,
        vertexes: Range<u32>,
        instances: Range<u32>,
    )
        requires
            all_vertex_buffers(buffers_and_offsets),
        ensures
            !self.vertex_buffers ==> self.draw(vertexes, instances) == Err::<
                RecorderView,
                DrawError,
            >(DrawError::Draw),
            RecorderView::begun(buffer, usage).draw(vertexes, instances) == Err::<
                RecorderView,
                DrawError,
            >(DrawError::Draw),
            self.bind_vertex_buffers(first_binding, buffers_and_offsets) is Ok,
            self.bind_vertex_buffers(first_binding, buffers_and_offsets).unwrap().draw(
                vertexes,
                instances,
            ) is Ok,
    {
    }
}

/// A command buffer in the recording state. The capability-gated views are
/// obtained from it, and each borrows it for as long as it lives.
pub struct CommandBufferRecorder<'a> {
    inner: CommandBuffer,
    generic_bindings: GenericBindings,
    graphics_bindings: GraphicsBindings<'a>,
    compute_bindings: ComputeBindings<'a>,
}

impl<'a> View for CommandBufferRecorder<'a> {
    type V = RecorderView;

    closed spec fn view(&self) -> RecorderView {
        RecorderView {
            buffer: self.inner@,
            graphics_pipeline: match self.graphics_bindings.graphics_pipeline {
                Some(pipeline) => Some(*pipeline),
                None => None,
            },
            index_buffer: self.graphics_bindings.index_buffer,
            vertex_buffers: self.graphics_bindings.vertex_buffers,
            graphics_descriptors: self.graphics_bindings.descriptors,
            compute_pipeline: match self.compute_bindings.compute_pipeline {
                Some(pipeline) => Some(*pipeline),
                None => None,
            },
            compute_descriptors: self.compute_bindings.descriptors,
        }
    }
}

impl CommandBuffer {
    pub fn handle(&self) -> (handle: u64)
        ensures
            handle == self@.handle,
    {
        self.handle
    }

    pub fn level(&self) -> (level: i32)
        ensures
            level == self@.level,
    {
        self.level
    }

    pub fn state(&self) -> (state: CommandBufferState)
        ensures
            state == self@.state,
    {
        self.state
    }

    pub fn usage(&self) -> (usage: u32)
        ensures
            usage == self@.usage,
    {
        self.usage
    }

    pub fn command_pool(&self) -> (pool: &Rc<CommandPool>)
        ensures
            **pool == self@.pool,
    {
        &self.command_pool
    }

    /// The device calls of the last recording session, oldest first.
    pub fn commands(&self) -> (commands: &Vec<Command>)
        ensures
            command_views(commands@) == self@.commands,
    {
        &self.commands
    }

    /// Opens a recording session: the buffer moves to the recording state,
    /// the session starts with the begin call and with nothing bound.
    /// Whatever an earlier session recorded is gone. The usage that the
    /// buffer was allocated with stays as it was.
    pub fn begin(self, usage: u32) -> (recorder: CommandBufferRecorder<'static>)
        ensures
            recorder@ == RecorderView::begun(self@, usage),
            recorder@.wf(),
    {
        let mut commands: Vec<Command> = Vec::new();
        commands.push(Command::Begin { usage });
        assert(command_views(commands@) =~= seq![CommandView::Begin { usage }]);
        proof {
            placed_at_begin(usage);
        }
        let mut inner = self;
        inner.state = CommandBufferState::Recording;
        inner.commands = commands;
        inner.render_pass_open = false;
        CommandBufferRecorder {
            inner,
            generic_bindings: GenericBindings {  },
            graphics_bindings: GraphicsBindings {
                graphics_pipeline: None,
                index_buffer: false,
                vertex_buffers: false,
                descriptors: false,
            },
            compute_bindings: ComputeBindings { compute_pipeline: None, descriptors: false },
        }
    }
}

impl<'a> CommandBufferRecorder<'a> {
    /// Appends one device call to the session. The begin and the end of a
    /// render pass go through `begin_render_pass` and `end_render_pass`.
    fn push(&mut self, command: Command)
        requires
            old(self)@.wf(),
            command@.allowed_on(old(self)@.family()),
            command@.fits(old(self)@.buffer.render_pass_open),
            !(command@ is BeginRenderPass),
            !(command@ is EndRenderPass),
        ensures
            final(self)@ == old(self)@.record(command@),
            final(self)@.wf(),
    {
        proof {
            placed_after_push(self@.commands(), command@);
        }
        self.inner.commands.push(command);
        assert(command_views(self.inner.commands@) =~= old(self)@.commands().push(command@));
    }

    /// Begins a render pass.
    fn begin_render_pass(&mut self, begin_info: &RenderPassBeginInfo, contents: i32)
        requires
            old(self)@.wf(),
            old(self)@.family().has_graphics(),
            !old(self)@.buffer.render_pass_open,
        ensures
            final(self)@ == old(self)@.opened(begin_info@, contents),
            final(self)@.wf(),
    {
        let command = Command::BeginRenderPass { begin_info: begin_info.duplicate(), contents };
        proof {
            placed_after_push(self@.commands(), command@);
        }
        self.inner.commands.push(command);
        self.inner.render_pass_open = true;
        assert(command_views(self.inner.commands@) =~= old(self)@.commands().push(command@));
    }

    /// Moves the render pass on to its next subpass.
    fn next_subpass(&mut self, contents: i32)
        requires
            old(self)@.wf(),
            old(self)@.family().has_graphics(),
            old(self)@.buffer.render_pass_open,
        ensures
            final(self)@ == old(self)@.stepped(contents),
            final(self)@.wf(),
    {
        self.push(Command::NextSubpass { contents });
    }

    /// Ends the render pass.
    fn end_render_pass(&mut self)
        requires
            old(self)@.wf(),
            old(self)@.family().has_graphics(),
            old(self)@.buffer.render_pass_open,
        ensures
            final(self)@ == old(self)@.closed(),
            final(self)@.wf(),
    {
        proof {
            placed_after_push(self@.commands(), CommandView::EndRenderPass);
        }
        self.inner.commands.push(Command::EndRenderPass);
        self.inner.render_pass_open = false;
        assert(command_views(self.inner.commands@) =~= old(self)@.commands().push(
            CommandView::EndRenderPass,
        ));
    }

    /// Marks the buffer invalid.
    fn invalidate(&mut self)
        ensures
            final(self)@ == old(self)@.invalidated(),
    {
        self.inner.state = CommandBufferState::Invalid;
    }

    /// The device calls of the session so far, oldest first.
    pub fn commands(&self) -> (commands: &Vec<Command>)
        ensures
            command_views(commands@) == self@.commands(),
    {
        &self.inner.commands
    }

    pub fn handle(&self) -> (handle: u64)
        ensures
            handle == self@.buffer.handle,
    {
        self.inner.handle
    }

    pub fn command_pool(&self) -> (pool: &Rc<CommandPool>)
        ensures
            **pool == self@.buffer.pool,
    {
        &self.inner.command_pool
    }

    pub fn state(&self) -> (state: CommandBufferState)
        ensures
            state == self@.buffer.state,
    {
        self.inner.state
    }

    /// Whether a render pass was begun in this session and not ended.
    pub fn is_render_pass_open(&self) -> (open: bool)
        ensures
            open == self@.buffer.render_pass_open,
    {
        self.inner.render_pass_open
    }

    /// Whether commands can be recorded into the session: its buffer is
    /// recording, and no failed render pass has made it invalid.
    pub fn is_recording(&self) -> (recording: bool)
        ensures
            recording == (self@.buffer.state == CommandBufferState::Recording),
    {
        self.inner.state == CommandBufferState::Recording
    }

    /// Whether the session can be ended: the buffer is recording and no
    /// render pass is open.
    pub fn can_end(&self) -> (ready: bool)
        ensures
            ready == (self@.buffer.state == CommandBufferState::Recording
                && !self@.buffer.render_pass_open),
    {
        self.inner.state == CommandBufferState::Recording && !self.inner.render_pass_open
    }

    /// The compute view, if the queue family supports compute work.
    pub fn as_compute_command_buffer(&mut self) -> (view: Result<
        DispatchCommands<'_, 'a>,
        UnsupportedOperation,
    >)
        requires
            old(self)@.wf(),
            !old(self)@.buffer.render_pass_open,
        ensures
            match view {
                Ok(commands) => {
                    &&& old(self)@.family().has_compute()
                    &&& commands@ == old(self)@
                    &&& commands.wf()
                    &&& *final(commands.target()) == *final(self)
                },
                Err(_) => !old(self)@.family().has_compute() && *final(self) == *old(self),
            },
    {
        if self.inner.command_pool.support_compute() {
            Ok(DispatchCommands(self))
        } else {
            Err(UnsupportedOperation)
        }
    }

    /// The graphics view, if the queue family supports graphics work.
    pub fn as_graphics_command_buffer(&mut self) -> (view: Result<
        GraphicsCommandBuffer<'_, 'a>,
        UnsupportedOperation,
    >)
        requires
            old(self)@.wf(),
            !old(self)@.buffer.render_pass_open,
        ensures
            match view {
                Ok(commands) => {
                    &&& old(self)@.family().has_graphics()
                    &&& commands@ == old(self)@
                    &&& commands.wf()
                    &&& *final(commands.target()) == *final(self)
                },
                Err(_) => !old(self)@.family().has_graphics() && *final(self) == *old(self),
            },
    {
        if self.inner.command_pool.support_graphics() {
            Ok(GraphicsCommandBuffer(self))
        } else {
            Err(UnsupportedOperation)
        }
    }

    /// The transfer view, if the queue family supports compute work, graphics
    /// work or dedicated transfers: each of the three carries transfers.
    pub fn as_transfer_command_buffer(&mut self) -> (view: Result<
        TransferCommandBuffer<'_, 'a>,
        UnsupportedOperation,
    >)
        requires
            old(self)@.wf(),
            !old(self)@.buffer.render_pass_open,
        ensures
            match view {
                Ok(commands) => {
                    &&& old(self)@.family().can_transfer()
                    &&& commands@ == old(self)@
                    &&& commands.wf()
                    &&& *final(commands.target()) == *final(self)
                },
                Err(_) => !old(self)@.family().can_transfer() && *final(self) == *old(self),
            },
    {
        if self.inner.command_pool.support_compute() || self.inner.command_pool.support_graphics()
            || self.inner.command_pool.support_transfer_only() {
            Ok(TransferCommandBuffer(self))
        } else {
            Err(UnsupportedOperation)
        }
    }

    /// The view of the commands that any family carries.
    pub fn as_generic(&mut self) -> (commands: GenericCommands<'_, 'a>)
        requires
            old(self)@.wf(),
        ensures
            commands@ == old(self)@,
            commands.wf(),
            *final(commands.target()) == *final(self),
    {
        GenericCommands(self)
    }

    /// Ends the session: the buffer becomes executable, with the end call as
    /// its last command. What it holds is within the capabilities of its
    /// queue family, every command on its side of the render passes, and
    /// every render pass ended.
    pub fn end(self) -> (buffer: ExecutableCommandBuffer)
        requires
            self@.wf(),
            self@.buffer.state == CommandBufferState::Recording,
            !self@.buffer.render_pass_open,
        ensures
            buffer@ == self@.ended(),
            buffer@.within_capabilities(),
            well_placed(buffer@.commands),
            !open_after(buffer@.commands),
    {
        let mut recorder = self;
        recorder.push(Command::End);
        let mut inner = recorder.inner;
        inner.state = CommandBufferState::Executable;
        ExecutableCommandBuffer(inner)
    }
}

/// Commands that can be recorded either outside or inside a render pass.
pub struct GenericCommands<'a, 'b: 'a>(pub(crate) &'a mut CommandBufferRecorder<'b>);

impl<'a, 'b: 'a> View for GenericCommands<'a, 'b> {
    type V = RecorderView;

    open(crate) spec fn view(&self) -> RecorderView {
        (*self.0)@
    }
}

impl<'a, 'b: 'a> GenericCommands<'a, 'b> {
    /// The borrow of the recorder that the view holds.
    pub open(crate) spec fn target(&self) -> &mut CommandBufferRecorder<'b> {
        self.0
    }

    /// The session is well formed.
    pub open spec fn wf(&self) -> bool {
        self@.wf()
    }

    /// Records a pipeline barrier with the given masks and barriers.
    pub fn pipeline_barrier(
        &mut self,
        src_stage_mask: u32,
        dst_stage_mask: u32,
        dependency_flags: u32,
        memory_barriers: &'b [MemoryBarrier],
        buffer_memory_barriers: &'b [BufferMemoryBarrier],
        image_memory_barriers: &'b [ImageMemoryBarrier],
    ) -> (commands: &mut Self)
        requires
            old(self).wf(),
        ensures
            commands@ == old(self)@.record(
                CommandView::PipelineBarrier {
                    src_stage_mask,
                    dst_stage_mask,
                    dependency_flags,
                    memory_barriers: memory_barriers@,
                    buffer_memory_barriers: buffer_memory_barriers@,
                    image_memory_barriers: image_memory_barriers@,
                },
            ),
            commands.wf(),
            *final(commands.target()) == *final(old(self).target()),
            *final(commands) == *final(self),
    {
        self.0.push(
            Command::PipelineBarrier {
                src_stage_mask,
                dst_stage_mask,
                dependency_flags,
                memory_barriers: vstd::slice::slice_to_vec(memory_barriers),
                buffer_memory_barriers: vstd::slice::slice_to_vec(buffer_memory_barriers),
                image_memory_barriers: vstd::slice::slice_to_vec(image_memory_barriers),
            },
        );
        self
    }

    /// The graphics bindings, if the queue family supports graphics work.
    pub fn as_generic_graphics(
        &mut self,
    ) -> (view: Result<GraphicsGenericCommands<'_, 'b>, UnsupportedOperation>)
        requires
            old(self).wf(),
        ensures
            match view {
                Ok(commands) => {
                    &&& old(self)@.family().has_graphics()
                    &&& commands@ == old(self)@
                    &&& commands.wf()
                    &&& *final(commands.target()) == *final(self).target()
                    &&& *final(final(self).target()) == *final(old(self).target())
                },
                Err(_) => !old(self)@.family().has_graphics() && *final(self) == *old(self),
            },
    {
        if self.0.inner.command_pool.support_graphics() {
            Ok(GraphicsGenericCommands(self.0))
        } else {
            Err(UnsupportedOperation)
        }
    }

    /// The compute bindings, if the queue family supports compute work.
    pub fn as_generic_compute(
        &mut self,
    ) -> (view: Result<ComputeGenericCommands<'_, 'b>, UnsupportedOperation>)
        requires
            old(self).wf(),
        ensures
            match view {
                Ok(commands) => {
                    &&& old(self)@.family().has_compute()
                    &&& commands@ == old(self)@
                    &&& commands.wf()
                    &&& *final(commands.target()) == *final(self).target()
                    &&& *final(final(self).target()) == *final(old(self).target())
                },
                Err(_) => !old(self)@.family().has_compute() && *final(self) == *old(self),
            },
    {
        if self.0.inner.command_pool.support_compute() {
            Ok(ComputeGenericCommands(self.0))
        } else {
            Err(UnsupportedOperation)
        }
    }
}

/// The compute view: dispatches.
pub struct DispatchCommands<'a, 'b: 'a>(pub(crate) &'a mut CommandBufferRecorder<'b>);

impl<'a, 'b: 'a> View for DispatchCommands<'a, 'b> {
    type V = RecorderView;

    open(crate) spec fn view(&self) -> RecorderView {
        (*self.0)@
    }
}

impl<'a, 'b: 'a> DispatchCommands<'a, 'b> {
    /// The borrow of the recorder that the view holds.
    pub open(crate) spec fn target(&self) -> &mut CommandBufferRecorder<'b> {
        self.0
    }

    /// The session is well formed, its queue family supports compute work
    /// and no render pass is open.
    pub open spec fn wf(&self) -> bool {
        self@.wf() && self@.family().has_compute() && !self@.buffer.render_pass_open
    }

    /// Records a dispatch of the given numbers of work groups.
    pub fn dispatch(&mut self, group_count_x: u32, group_count_y: u32, group_count_z: u32) -> (done:
        Result<&mut Self, DispatchError>)
        requires
            old(self).wf(),
        ensures
            match done {
                Ok(commands) => {
                    &&& commands@ == old(self)@.record(
                        CommandView::Dispatch { group_count_x, group_count_y, group_count_z },
                    )
                    &&& commands.wf()
                    &&& *final(commands.target()) == *final(old(self).target())
                    &&& *final(commands) == *final(self)
                },
                Err(_) => false,
            },
    {
        self.0.push(Command::Dispatch { group_count_x, group_count_y, group_count_z });
        Ok(self)
    }

    /// Records a dispatch whose numbers of work groups the device reads from
    /// `buffer` at `offset`. Refused with `DispatchError::Indirect`, and
    /// nothing recorded, if the buffer may not be the source of an indirect
    /// dispatch.
    pub fn dispatch_indirect(&mut self, buffer: &'b Buffer, offset: u64) -> (done: Result<
        &mut Self,
        DispatchError,
    >)
        requires
            old(self).wf(),
        ensures
            match done {
                Ok(commands) => {
                    &&& buffer.is_indirect_buffer()
                    &&& commands@ == old(self)@.record(
                        CommandView::DispatchIndirect { buffer: buffer.handle, offset },
                    )
                    &&& commands.wf()
                    &&& *final(commands.target()) == *final(old(self).target())
                    &&& *final(commands) == *final(self)
                },
                Err(error) => {
                    &&& !buffer.is_indirect_buffer()
                    &&& error == DispatchError::Indirect
                    &&& *final(self) == *old(self)
                },
            },
    {
        if !buffer.indirect_usage() {
            return Err(DispatchError::Indirect);
        }
        self.0.push(Command::DispatchIndirect { buffer: buffer.handle, offset });
        Ok(self)
    }

    /// The commands that any family carries.
    pub fn as_generic(&mut self) -> (commands: GenericCommands<'_, 'b>)
        requires
            old(self).wf(),
        ensures
            commands@ == old(self)@,
            commands.wf(),
            *final(commands.target()) == *final(self).target(),
            *final(final(self).target()) == *final(old(self).target()),
    {
        GenericCommands(self.0)
    }
}

/// The transfer view of a recording session: copies, clears and fills.
pub struct TransferCommandBuffer<'a, 'b: 'a>(pub(crate) &'a mut CommandBufferRecorder<'b>);

impl<'a, 'b: 'a> View for TransferCommandBuffer<'a, 'b> {
    type V = RecorderView;

    open(crate) spec fn view(&self) -> RecorderView {
        (*self.0)@
    }
}

impl<'a, 'b: 'a> TransferCommandBuffer<'a, 'b> {
    /// The borrow of the recorder that the view holds.
    pub open(crate) spec fn target(&self) -> &mut CommandBufferRecorder<'b> {
        self.0
    }

    /// The session is well formed, its queue family carries transfers and no
    /// render pass is open.
    pub open spec fn wf(&self) -> bool {
        self@.wf() && self@.family().can_transfer() && !self@.buffer.render_pass_open
    }

    /// The copy commands.
    pub fn as_copy(&mut self) -> (commands: CopyCommands<'_, 'b>)
        requires
            old(self).wf(),
        ensures
            commands@ == old(self)@,
            commands.wf(),
            *final(commands.target()) == *final(self).target(),
            *final(final(self).target()) == *final(old(self).target()),
    {
        CopyCommands(self.0)
    }

    /// The clear, fill and update commands.
    pub fn as_clear(&mut self) -> (commands: ClearCommands<'_, 'b>)
        requires
            old(self).wf(),
        ensures
            commands@ == old(self)@,
            commands.wf(),
            *final(commands.target()) == *final(self).target(),
            *final(final(self).target()) == *final(old(self).target()),
    {
        ClearCommands(self.0)
    }
}

impl RecorderView {
    /// What a copy of `regions` from `src_buffer` to `dst_buffer` comes to: the
    /// session with the copy recorded, or the first of these refusals that
    /// applies: the source may not be a transfer source, the destination may
    /// not be a transfer destination.
    pub open spec fn copy_buffer(
        self,
        src_buffer: Buffer,
        dst_buffer: Buffer,
        regions: Seq<BufferCopy>,
    ) -> Result<RecorderView, CopyError> {
        if !src_buffer.is_transfer_source() {
            Err(CopyError::SourceUsage)
        } else if !dst_buffer.is_transfer_destination() {
            Err(CopyError::DestinationUsage)
        } else {
            Ok(self.record(
                CommandView::CopyBuffer {
                    src_buffer: src_buffer.handle,
                    dst_buffer: dst_buffer.handle,
                    regions,
                },
            ))
        }
    }

    /// What a copy of `regions` from `src_image` to `dst_image` comes to: the
    /// session with the copy recorded, each image in the layout that the
    /// layer tracks for it, or the first of these refusals that applies: the
    /// source is in a layout that a copy cannot read, the destination in one
    /// that a copy cannot write.
    pub open spec fn copy_image(
        self,
        src_image: Image,
        dst_image: Image,
        regions: Seq<ImageCopy>,
    ) -> Result<RecorderView, CopyError> {
        if !Image::is_copy_source(src_image.layout) {
            Err(CopyError::SourceLayout)
        } else if !Image::is_copy_destination(dst_image.layout) {
            Err(CopyError::DestinationLayout)
        } else {
            Ok(self.record(
                CommandView::CopyImage {
                    src_image: src_image.handle,
                    src_image_layout: src_image.layout,
                    dst_image: dst_image.handle,
                    dst_image_layout: dst_image.layout,
                    regions,
                },
            ))
        }
    }

    /// What a copy of `regions` from `src_buffer` to `dst_image` comes to: the
    /// session with the copy recorded, the image in the layout that the layer
    /// tracks for it, or the first of these refusals that applies: the source
    /// may not be a transfer source, the destination is in a layout that a
    /// copy cannot write.
    pub open spec fn copy_buffer_to_image(
        self,
        src_buffer: Buffer,
        dst_image: Image,
        regions: Seq<BufferImageCopy>,
    ) -> Result<RecorderView, CopyError> {
        if !src_buffer.is_transfer_source() {
            Err(CopyError::SourceUsage)
        } else if !Image::is_copy_destination(dst_image.layout) {
            Err(CopyError::DestinationLayout)
        } else {
            Ok(self.record(
                CommandView::CopyBufferToImage {
                    src_buffer: src_buffer.handle,
                    dst_image: dst_image.handle,
                    dst_image_layout: dst_image.layout,
                    regions,
                },
            ))
        }
    }

    /// What a copy of `regions` from `src_image` to `dst_buffer` comes to: the
    /// session with the copy recorded, the image in the layout that the layer
    /// tracks for it, or the first of these refusals that applies: the source
    /// is in a layout that a copy cannot read, the destination may not be a
    /// transfer destination.
    pub open spec fn copy_image_to_buffer(
        self,
        src_image: Image,
        dst_buffer: Buffer,
        regions: Seq<BufferImageCopy>,
    ) -> Result<RecorderView, CopyError> {
        if !Image::is_copy_source(src_image.layout) {
            Err(CopyError::SourceLayout)
        } else if !dst_buffer.is_transfer_destination() {
            Err(CopyError::DestinationUsage)
        } else {
            Ok(self.record(
                CommandView::CopyImageToBuffer {
                    src_image: src_image.handle,
                    src_image_layout: src_image.layout,
                    dst_buffer: dst_buffer.handle,
                    regions,
                },
            ))
        }
    }

    /// What a blit of `regions` from `src_image` to `dst_image` through
    /// `filter` comes to: the session with the blit recorded, each image in
    /// the layout that the layer tracks for it, or the first of these
    /// refusals that applies: the source is in a layout that a copy cannot
    /// read, the destination in one that a copy cannot write.
    pub open spec fn blit_image(
        self,
        src_image: Image,
        dst_image: Image,
        regions: Seq<ImageBlit>,
        filter: i32,
    ) -> Result<RecorderView, CopyError> {
        if !Image::is_copy_source(src_image.layout) {
            Err(CopyError::SourceLayout)
        } else if !Image::is_copy_destination(dst_image.layout) {
            Err(CopyError::DestinationLayout)
        } else {
            Ok(self.record(
                CommandView::BlitImage {
                    src_image: src_image.handle,
                    src_image_layout: src_image.layout,
                    dst_image: dst_image.handle,
                    dst_image_layout: dst_image.layout,
                    regions,
                    filter,
                },
            ))
        }
    }

    /// What a resolve of the multisampled `regions` of `src_image` into
    /// `dst_image` comes to: the session with the resolve recorded, each
    /// image in the layout that the layer tracks for it, or the first of
    /// these refusals that applies: the source is in a layout that a copy
    /// cannot read, the destination in one that a copy cannot write.
    pub open spec fn resolve_image(
        self,
        src_image: Image,
        dst_image: Image,
        regions: Seq<ImageResolve>,
    ) -> Result<RecorderView, CopyError> {
        if !Image::is_copy_source(src_image.layout) {
            Err(CopyError::SourceLayout)
        } else if !Image::is_copy_destination(dst_image.layout) {
            Err(CopyError::DestinationLayout)
        } else {
            Ok(self.record(
                CommandView::ResolveImage {
                    src_image: src_image.handle,
                    src_image_layout: src_image.layout,
                    dst_image: dst_image.handle,
                    dst_image_layout: dst_image.layout,
                    regions,
                },
            ))
        }
    }

    /// What a clear of `ranges` of `image` to `color` comes to: the session
    /// with the clear recorded, the image in the layout that the layer tracks
    /// for it, or the first of these refusals that applies: a render pass is
    /// open, the image is in a layout that a clear cannot write.
    pub open spec fn clear_color_image(
        self,
        image: Image,
        color: ClearValue,
        ranges: Seq<ImageSubresourceRange>,
    ) -> Result<RecorderView, ClearError> {
        if self.buffer.render_pass_open {
            Err(ClearError::InsideRenderPass)
        } else if !Image::is_copy_destination(image.layout) {
            Err(ClearError::Layout)
        } else {
            Ok(self.record(
                CommandView::ClearColorImage {
                    image: image.handle,
                    image_layout: image.layout,
                    color,
                    ranges,
                },
            ))
        }
    }

    /// What a clear of `rects` of `attachments` of the current subpass comes
    /// to: the session with the clear recorded, or a refusal if no render
    /// pass is open.
    pub open spec fn clear_attachments(
        self,
        attachments: Seq<ClearAttachment>,
        rects: Seq<ClearRect>,
    ) -> Result<RecorderView, ClearError> {
        if !self.buffer.render_pass_open {
            Err(ClearError::OutsideRenderPass)
        } else {
            Ok(self.record(CommandView::ClearAttachments { attachments, rects }))
        }
    }

    /// What a fill of `size` bytes of `dst_buffer` from `dst_offset` on with
    /// the word `data` comes to: the session with the fill recorded, or the
    /// first of these refusals that applies: a render pass is open, the
    /// buffer may not be a transfer destination.
    pub open spec fn fill_buffer(
        self,
        dst_buffer: Buffer,
        dst_offset: u64,
        size: u64,
        data: u32,
    ) -> Result<RecorderView, ClearError> {
        if self.buffer.render_pass_open {
            Err(ClearError::InsideRenderPass)
        } else if !dst_buffer.is_transfer_destination() {
            Err(ClearError::Usage)
        } else {
            Ok(self.record(
                CommandView::FillBuffer { dst_buffer: dst_buffer.handle, dst_offset, size, data },
            ))
        }
    }

    /// What an update of `dst_buffer` from `dst_offset` on with the bytes
    /// `data` comes to: the session with the update recorded, or the first of
    /// these refusals that applies: a render pass is open, the buffer may not
    /// be a transfer destination.
    pub open spec fn update_buffer(
        self,
        dst_buffer: Buffer,
        dst_offset: u64,
        data: Seq<u8>,
    ) -> Result<RecorderView, ClearError> {
        if self.buffer.render_pass_open {
            Err(ClearError::InsideRenderPass)
        } else if !dst_buffer.is_transfer_destination() {
            Err(ClearError::Usage)
        } else {
            Ok(self.record(
                CommandView::UpdateBuffer { dst_buffer: dst_buffer.handle, dst_offset, data },
            ))
        }
    }
}

/// Copies between buffers and images. A buffer takes part in a copy only with
/// the usage for its side of it, an image only in a layout that the copy can
/// read or write.
pub struct CopyCommands<'a, 'b: 'a>(pub(crate) &'a mut CommandBufferRecorder<'b>);

impl<'a, 'b: 'a> View for CopyCommands<'a, 'b> {
    type V = RecorderView;

    open(crate) spec fn view(&self) -> RecorderView {
        (*self.0)@
    }
}

impl<'a, 'b: 'a> CopyCommands<'a, 'b> {
    /// The borrow of the recorder that the view holds.
    pub open(crate) spec fn target(&self) -> &mut CommandBufferRecorder<'b> {
        self.0
    }

    /// The session is well formed, its queue family carries transfers and no
    /// render pass is open.
    pub open spec fn wf(&self) -> bool {
        self@.wf() && self@.family().can_transfer() && !self@.buffer.render_pass_open
    }

    /// Records a copy of `regions` from `src_buffer` to `dst_buffer`. Refused,
    /// and nothing recorded, with `CopyError::SourceUsage` if the source may
    /// not be used as a transfer source, else with
    /// `CopyError::DestinationUsage` if the destination may not be used as a
    /// transfer destination.
    pub fn copy_buffer(
        &mut self,
        src_buffer: &'b Buffer,
        dst_buffer: &'b Buffer,
        regions: &[BufferCopy],
    ) -> (done: Result<&mut Self, CopyError>)
        requires
            old(self).wf(),
        ensures
            match done {
                Ok(commands) => {
                    &&& old(self)@.copy_buffer(*src_buffer, *dst_buffer, regions@)
                        == Ok::<RecorderView, CopyError>(commands@)
                    &&& commands.wf()
                    &&& *final(commands.target()) == *final(old(self).target())
                    &&& *final(commands) == *final(self)
                },
                Err(error) => {
                    &&& old(self)@.copy_buffer(*src_buffer, *dst_buffer, regions@)
                        == Err::<RecorderView, CopyError>(error)
                    &&& *final(self) == *old(self)
                },
            },
    {
        if !src_buffer.transfer_source_usage() {
            return Err(CopyError::SourceUsage);
        }
        if !dst_buffer.transfer_destination_usage() {
            return Err(CopyError::DestinationUsage);
        }
        self.0.push(
            Command::CopyBuffer {
                src_buffer: src_buffer.handle,
                dst_buffer: dst_buffer.handle,
                regions: vstd::slice::slice_to_vec(regions),
            },
        );
        Ok(self)
    }

    /// Records a copy of `regions` from `src_image` to `dst_image`, each in the
    /// layout that the layer tracks for it. Refused, and nothing recorded,
    /// with `CopyError::SourceLayout` if the source is in a layout that a
    /// copy cannot read, else with `CopyError::DestinationLayout` if the
    /// destination is in one that a copy cannot write.
    pub fn copy_image(
        &mut self,
        src_image: &'b Image,
        dst_image: &'b Image,
        regions: &'b [ImageCopy],
    ) -> (done: Result<&mut Self, CopyError>)
        requires
            old(self).wf(),
        ensures
            match done {
                Ok(commands) => {
                    &&& old(self)@.copy_image(*src_image, *dst_image, regions@)
                        == Ok::<RecorderView, CopyError>(commands@)
                    &&& commands.wf()
                    &&& *final(commands.target()) == *final(old(self).target())
                    &&& *final(commands) == *final(self)
                },
                Err(error) => {
                    &&& old(self)@.copy_image(*src_image, *dst_image, regions@)
                        == Err::<RecorderView, CopyError>(error)
                    &&& *final(self) == *old(self)
                },
            },
    {
        if !src_image.can_be_copied_from() {
            return Err(CopyError::SourceLayout);
        }
        if !dst_image.can_be_copied_to() {
            return Err(CopyError::DestinationLayout);
        }
        self.0.push(
            Command::CopyImage {
                src_image: src_image.handle,
                src_image_layout: src_image.layout,
                dst_image: dst_image.handle,
                dst_image_layout: dst_image.layout,
                regions: vstd::slice::slice_to_vec(regions),
            },
        );
        Ok(self)
    }

    /// Records a copy of `regions` from `src_buffer` to `dst_image`, in the
    /// layout that the layer tracks for the image. Refused, and nothing
    /// recorded, with `CopyError::SourceUsage` if the source may not be used
    /// as a transfer source, else with `CopyError::DestinationLayout` if the
    /// image is in a layout that a copy cannot write.
    pub fn copy_buffer_to_image(
        &mut self,
        src_buffer: &'b Buffer,
        dst_image: &'b mut Image,
        regions: &'b [BufferImageCopy],
    ) -> (done: Result<&mut Self, CopyError>)
        requires
            old(self).wf(),
        ensures
            *final(dst_image) == *old(dst_image),
            match done {
                Ok(commands) => {
                    &&& old(self)@.copy_buffer_to_image(*src_buffer, *old(dst_image), regions@)
                        == Ok::<RecorderView, CopyError>(commands@)
                    &&& commands.wf()
                    &&& *final(commands.target()) == *final(old(self).target())
                    &&& *final(commands) == *final(self)
                },
                Err(error) => {
                    &&& old(self)@.copy_buffer_to_image(*src_buffer, *old(dst_image), regions@)
                        == Err::<RecorderView, CopyError>(error)
                    &&& *final(self) == *old(self)
                },
            },
    {
        if !src_buffer.transfer_source_usage() {
            return Err(CopyError::SourceUsage);
        }
        if !dst_image.can_be_copied_to() {
            return Err(CopyError::DestinationLayout);
        }
        self.0.push(
            Command::CopyBufferToImage {
                src_buffer: src_buffer.handle,
                dst_image: dst_image.handle,
                dst_image_layout: dst_image.layout,
                regions: vstd::slice::slice_to_vec(regions),
            },
        );
        Ok(self)
    }

    /// Records a copy of `regions` from `src_image`, in the layout that the
    /// layer tracks for it, to `dst_buffer`. Refused, and nothing recorded,
    /// with `CopyError::SourceLayout` if the image is in a layout that a copy
    /// cannot read, else with `CopyError::DestinationUsage` if the buffer may
    /// not be used as a transfer destination.
    pub fn copy_image_to_buffer(
        &mut self,
        src_image: &'b Image,
        dst_buffer: &'b mut Buffer,
        regions: &'b [BufferImageCopy],
    ) -> (done: Result<&mut Self, CopyError>)
        requires
            old(self).wf(),
        ensures
            *final(dst_buffer) == *old(dst_buffer),
            match done {
                Ok(commands) => {
                    &&& old(self)@.copy_image_to_buffer(*src_image, *old(dst_buffer), regions@)
                        == Ok::<RecorderView, CopyError>(commands@)
                    &&& commands.wf()
                    &&& *final(commands.target()) == *final(old(self).target())
                    &&& *final(commands) == *final(self)
                },
                Err(error) => {
                    &&& old(self)@.copy_image_to_buffer(*src_image, *old(dst_buffer), regions@)
                        == Err::<RecorderView, CopyError>(error)
                    &&& *final(self) == *old(self)
                },
            },
    {
        if !src_image.can_be_copied_from() {
            return Err(CopyError::SourceLayout);
        }
        if !dst_buffer.transfer_destination_usage() {
            return Err(CopyError::DestinationUsage);
        }
        self.0.push(
            Command::CopyImageToBuffer {
                src_image: src_image.handle,
                src_image_layout: src_image.layout,
                dst_buffer: dst_buffer.handle,
                regions: vstd::slice::slice_to_vec(regions),
            },
        );
        Ok(self)
    }

    /// The copies that only a graphics family carries. The queue family has
    /// to support graphics work.
    pub fn as_graphics_copy(&mut self) -> (commands: GraphicsCopyCommands<'_, 'b>)
        requires
            old(self).wf(),
            old(self)@.family().has_graphics(),
        ensures
            commands@ == old(self)@,
            commands.wf(),
            *final(commands.target()) == *final(self).target(),
            *final(final(self).target()) == *final(old(self).target()),
    {
        GraphicsCopyCommands(self.0)
    }
}

/// The copies that only a graphics family carries: blits and resolves.
pub struct GraphicsCopyCommands<'a, 'b: 'a>(pub(crate) &'a mut CommandBufferRecorder<'b>);

impl<'a, 'b: 'a> View for GraphicsCopyCommands<'a, 'b> {
    type V = RecorderView;

    open(crate) spec fn view(&self) -> RecorderView {
        (*self.0)@
    }
}

impl<'a, 'b: 'a> GraphicsCopyCommands<'a, 'b> {
    /// The borrow of the recorder that the view holds.
    pub open(crate) spec fn target(&self) -> &mut CommandBufferRecorder<'b> {
        self.0
    }

    /// The session is well formed, its queue family supports graphics work
    /// and no render pass is open.
    pub open spec fn wf(&self) -> bool {
        self@.wf() && self@.family().has_graphics() && !self@.buffer.render_pass_open
    }

    /// Records a blit of `regions` from `src_image` to `dst_image` through
    /// `filter`, each image in the layout that the layer tracks for it.
    /// Refused, and nothing recorded, with `CopyError::SourceLayout` if the
    /// source is in a layout that a copy cannot read, else with
    /// `CopyError::DestinationLayout` if the destination is in one that a
    /// copy cannot write.
    pub fn blit_image(
        &mut self,
        src_image: &'b Image,
        dst_image: &'b mut Image,
        regions: &'b [ImageBlit],
        filter: i32,
    ) -> (done: Result<&mut Self, CopyError>)
        requires
            old(self).wf(),
        ensures
            *final(dst_image) == *old(dst_image),
            match done {
                Ok(commands) => {
                    &&& old(self)@.blit_image(*src_image, *old(dst_image), regions@, filter)
                        == Ok::<RecorderView, CopyError>(commands@)
                    &&& commands.wf()
                    &&& *final(commands.target()) == *final(old(self).target())
                    &&& *final(commands) == *final(self)
                },
                Err(error) => {
                    &&& old(self)@.blit_image(*src_image, *old(dst_image), regions@, filter)
                        == Err::<RecorderView, CopyError>(error)
                    &&& *final(self) == *old(self)
                },
            },
    {
        if !src_image.can_be_copied_from() {
            return Err(CopyError::SourceLayout);
        }
        if !dst_image.can_be_copied_to() {
            return Err(CopyError::DestinationLayout);
        }
        self.0.push(
            Command::BlitImage {
                src_image: src_image.handle,
                src_image_layout: src_image.layout,
                dst_image: dst_image.handle,
                dst_image_layout: dst_image.layout,
                regions: vstd::slice::slice_to_vec(regions),
                filter,
            },
        );
        Ok(self)
    }

    /// Records a resolve of the multisampled `regions` of `src_image` into
    /// `dst_image`, each image in the layout that the layer tracks for it.
    /// Refused, and nothing recorded, with `CopyError::SourceLayout` if the
    /// source is in a layout that a copy cannot read, else with
    /// `CopyError::DestinationLayout` if the destination is in one that a
    /// copy cannot write.
    pub fn resolve_image(
        &mut self,
        src_image: &'b Image,
        dst_image: &'b mut Image,
        regions: &'b [ImageResolve],
    ) -> (done: Result<&mut Self, CopyError>)
        requires
            old(self).wf(),
        ensures
            *final(dst_image) == *old(dst_image),
            match done {
                Ok(commands) => {
                    &&& old(self)@.resolve_image(*src_image, *old(dst_image), regions@)
                        == Ok::<RecorderView, CopyError>(commands@)
                    &&& commands.wf()
                    &&& *final(commands.target()) == *final(old(self).target())
                    &&& *final(commands) == *final(self)
                },
                Err(error) => {
                    &&& old(self)@.resolve_image(*src_image, *old(dst_image), regions@)
                        == Err::<RecorderView, CopyError>(error)
                    &&& *final(self) == *old(self)
                },
            },
    {
        if !src_image.can_be_copied_from() {
            return Err(CopyError::SourceLayout);
        }
        if !dst_image.can_be_copied_to() {
            return Err(CopyError::DestinationLayout);
        }
        self.0.push(
            Command::ResolveImage {
                src_image: src_image.handle,
                src_image_layout: src_image.layout,
                dst_image: dst_image.handle,
                dst_image_layout: dst_image.layout,
                regions: vstd::slice::slice_to_vec(regions),
            },
        );
        Ok(self)
    }
}

/// Clears, fills and updates. Clearing attachments belongs inside a render
/// pass, the others outside; each command is refused on the wrong side.
pub struct ClearCommands<'a, 'b: 'a>(pub(crate) &'a mut CommandBufferRecorder<'b>);

impl<'a, 'b: 'a> View for ClearCommands<'a, 'b> {
    type V = RecorderView;

    open(crate) spec fn view(&self) -> RecorderView {
        (*self.0)@
    }
}

impl<'a, 'b: 'a> ClearCommands<'a, 'b> {
    /// The borrow of the recorder that the view holds.
    pub open(crate) spec fn target(&self) -> &mut CommandBufferRecorder<'b> {
        self.0
    }

    /// The session is well formed and its queue family carries transfers.
    pub open spec fn wf(&self) -> bool {
        self@.wf() && self@.family().can_transfer()
    }

    /// Records a clear of `ranges` of `image`, in the layout that the layer
    /// tracks for it, to `color`. Refused, and nothing recorded, with
    /// `ClearError::InsideRenderPass` while a render pass is open, else with
    /// `ClearError::Layout` if the image is in a layout that a clear cannot
    /// write.
    pub fn clear_color_image(
        &mut self,
        image: &mut Image,
        color: &ClearValue,
        ranges: &[ImageSubresourceRange],
    ) -> (done: Result<&mut Self, ClearError>)
        requires
            old(self).wf(),
        ensures
            *final(image) == *old(image),
            match done {
                Ok(commands) => {
                    &&& old(self)@.clear_color_image(*old(image), *color, ranges@)
                        == Ok::<RecorderView, ClearError>(commands@)
                    &&& commands.wf()
                    &&& *final(commands.target()) == *final(old(self).target())
                    &&& *final(commands) == *final(self)
                },
                Err(error) => {
                    &&& old(self)@.clear_color_image(*old(image), *color, ranges@)
                        == Err::<RecorderView, ClearError>(error)
                    &&& *final(self) == *old(self)
                },
            },
    {
        if self.0.inner.render_pass_open {
            return Err(ClearError::InsideRenderPass);
        }
        if !image.can_be_copied_to() {
            return Err(ClearError::Layout);
        }
        self.0.push(
            Command::ClearColorImage {
                image: image.handle,
                image_layout: image.layout,
                color: *color,
                ranges: vstd::slice::slice_to_vec(ranges),
            },
        );
        Ok(self)
    }

    /// Records a clear of `rects` of `attachments` of the current subpass.
    /// Refused with `ClearError::OutsideRenderPass`, and nothing recorded,
    /// unless a render pass is open.
    pub fn clear_attachments(
        &mut self,
        attachments: &[ClearAttachment],
        rects: &[ClearRect],
    ) -> (done: Result<&mut Self, ClearError>)
        requires
            old(self).wf(),
        ensures
            match done {
                Ok(commands) => {
                    &&& old(self)@.clear_attachments(attachments@, rects@)
                        == Ok::<RecorderView, ClearError>(commands@)
                    &&& commands.wf()
                    &&& *final(commands.target()) == *final(old(self).target())
                    &&& *final(commands) == *final(self)
                },
                Err(error) => {
                    &&& old(self)@.clear_attachments(attachments@, rects@)
                        == Err::<RecorderView, ClearError>(error)
                    &&& *final(self) == *old(self)
                },
            },
    {
        if !self.0.inner.render_pass_open {
            return Err(ClearError::OutsideRenderPass);
        }
        self.0.push(
            Command::ClearAttachments {
                attachments: vstd::slice::slice_to_vec(attachments),
                rects: vstd::slice::slice_to_vec(rects),
            },
        );
        Ok(self)
    }

    /// Records a fill of `size` bytes of `dst_buffer` from `dst_offset` on
    /// with the word `data`. Refused, and nothing recorded, with
    /// `ClearError::InsideRenderPass` while a render pass is open, else with
    /// `ClearError::Usage` if the buffer may not be used as a transfer
    /// destination.
    pub fn fill_buffer(
        &mut self,
        dst_buffer: &mut Buffer,
        dst_offset: u64,
        size: u64,
        data: u32,
    ) -> (done: Result<&mut Self, ClearError>)
        requires
            old(self).wf(),
        ensures
            *final(dst_buffer) == *old(dst_buffer),
            match done {
                Ok(commands) => {
                    &&& old(self)@.fill_buffer(*old(dst_buffer), dst_offset, size, data)
                        == Ok::<RecorderView, ClearError>(commands@)
                    &&& commands.wf()
                    &&& *final(commands.target()) == *final(old(self).target())
                    &&& *final(commands) == *final(self)
                },
                Err(error) => {
                    &&& old(self)@.fill_buffer(*old(dst_buffer), dst_offset, size, data)
                        == Err::<RecorderView, ClearError>(error)
                    &&& *final(self) == *old(self)
                },
            },
    {
        if self.0.inner.render_pass_open {
            return Err(ClearError::InsideRenderPass);
        }
        if !dst_buffer.transfer_destination_usage() {
            return Err(ClearError::Usage);
        }
        self.0.push(Command::FillBuffer { dst_buffer: dst_buffer.handle, dst_offset, size, data });
        Ok(self)
    }

    /// Records an update of `dst_buffer` from `dst_offset` on with the bytes
    /// of `data`. Refused, and nothing recorded, with
    /// `ClearError::InsideRenderPass` while a render pass is open, else with
    /// `ClearError::Usage` if the buffer may not be used as a transfer
    /// destination.
    pub fn update_buffer<T: ByteCopiable>(
        &mut self,
        dst_buffer: &mut Buffer,
        dst_offset: u64,
        data: &T,
    ) -> (done: Result<&mut Self, ClearError>)
        requires
            old(self).wf(),
        ensures
            *final(dst_buffer) == *old(dst_buffer),
            match done {
                Ok(commands) => {
                    &&& old(self)@.update_buffer(*old(dst_buffer), dst_offset, data.bytes())
                        == Ok::<
                        RecorderView,
                        ClearError,
                    >(commands@)
                    &&& commands.wf()
                    &&& *final(commands.target()) == *final(old(self).target())
                    &&& *final(commands) == *final(self)
                },
                Err(error) => {
                    &&& old(self)@.update_buffer(*old(dst_buffer), dst_offset, data.bytes())
                        == Err::<RecorderView, ClearError>(error)
                    &&& *final(self) == *old(self)
                },
            },
    {
        if self.0.inner.render_pass_open {
            return Err(ClearError::InsideRenderPass);
        }
        if !dst_buffer.transfer_destination_usage() {
            return Err(ClearError::Usage);
        }
        self.0.push(
            Command::UpdateBuffer {
                dst_buffer: dst_buffer.handle,
                dst_offset,
                data: data.to_bytes(),
            },
        );
        Ok(self)
    }
}

fn range_count(range: &Range<u32>) -> (count: u32)
    ensures
        count == range_len(*range),
{
    if range.start < range.end {
        range.end - range.start
    } else {
        0
    }
}

/// The handles and the offsets of the list, side by side, if every buffer of
/// it may be bound as a vertex buffer.
fn split_vertex_buffers(buffers_and_offsets: &[(Buffer, u64)]) -> (split: Option<
    (Vec<u64>, Vec<u64>),
>)
    ensures
        split is Some == all_vertex_buffers(buffers_and_offsets@),
        split matches Some((handles, offsets)) ==> handles@ == buffer_handles(
            buffers_and_offsets@,
        ) && offsets@ == buffer_offsets(buffers_and_offsets@),
{
    let mut handles: Vec<u64> = Vec::new();
    let mut offsets: Vec<u64> = Vec::new();
    let mut i: usize = 0;
    while i < buffers_and_offsets.len()
        invariant
            i <= buffers_and_offsets.len(),
            handles@ == buffer_handles(buffers_and_offsets@.take(i as int)),
            offsets@ == buffer_offsets(buffers_and_offsets@.take(i as int)),
            all_vertex_buffers(buffers_and_offsets@.take(i as int)),
        decreases buffers_and_offsets.len() - i,
    {
        let pair = &buffers_and_offsets[i];
        if !pair.0.vertex_usage() {
            return None;
        }
        handles.push(pair.0.handle);
        offsets.push(pair.1);
        i += 1;
    }
    assert(buffers_and_offsets@.take(i as int) =~= buffers_and_offsets@);
    Some((handles, offsets))
}

/// The bindings of graphics work: vertex and index buffers, descriptor sets
/// and the pipeline.
pub struct GraphicsGenericCommands<'a, 'b: 'a>(pub(crate) &'a mut CommandBufferRecorder<'b>);

impl<'a, 'b: 'a> View for GraphicsGenericCommands<'a, 'b> {
    type V = RecorderView;

    open(crate) spec fn view(&self) -> RecorderView {
        (*self.0)@
    }
}

impl<'a, 'b: 'a> GraphicsGenericCommands<'a, 'b> {
    /// The borrow of the recorder that the view holds.
    pub open(crate) spec fn target(&self) -> &mut CommandBufferRecorder<'b> {
        self.0
    }

    /// The session is well formed and its queue family supports graphics
    /// work.
    pub open spec fn wf(&self) -> bool {
        self@.wf() && self@.family().has_graphics()
    }

    fn vertex_buffer_check(vertex_buffer: &Buffer) -> (valid: bool)
        ensures
            valid == vertex_buffer.is_vertex_buffer(),
    {
        vertex_buffer.vertex_usage()
    }

    fn index_buffer_check(index_buffer: &Buffer) -> (valid: bool)
        ensures
            valid == index_buffer.is_index_buffer(),
    {
        index_buffer.index_usage()
    }

    /// Binds the buffers of the list as vertex buffers from `first_binding`
    /// on, each at its offset, and notes that vertex buffers are bound.
    /// Refused with `DrawError::Draw`, and nothing recorded, if one of them
    /// may not be used as a vertex buffer.
    pub fn bind_vertex_buffers(
        &mut self,
        first_binding: u32,
        buffers_and_offsets: &'b [(Buffer, u64)],
    ) -> (done: Result<&mut Self, DrawError>)
        requires
            old(self).wf(),
        ensures
            match done {
                Ok(commands) => {
                    &&& old(self)@.bind_vertex_buffers(first_binding, buffers_and_offsets@) == Ok::<
                        RecorderView,
                        DrawError,
                    >(commands@)
                    &&& commands.wf()
                    &&& *final(commands.target()) == *final(old(self).target())
                    &&& *final(commands) == *final(self)
                },
                Err(error) => {
                    &&& old(self)@.bind_vertex_buffers(first_binding, buffers_and_offsets@)
                        == Err::<
                        RecorderView,
                        DrawError,
                    >(error)
                    &&& *final(self) == *old(self)
                },
            },
    {
        match split_vertex_buffers(buffers_and_offsets) {
            None => Err(DrawError::Draw),
            Some((buffers, offsets)) => {
                self.0.push(Command::BindVertexBuffers { first_binding, buffers, offsets });
                self.0.graphics_bindings.vertex_buffers = true;
                Ok(self)
            },
        }
    }

    /// Binds `index_buffer` at `offset` as the index buffer, with indices of
    /// `index_type`, and notes that an index buffer is bound. Refused with
    /// `DrawError::Indexed`, and nothing recorded, if the buffer may not be
    /// used as an index buffer.
    pub fn bind_index_buffer(
        &mut self,
        index_buffer: &'b Buffer,
        offset: u64,
        index_type: i32,
    ) -> (done:
        Result<&mut Self, DrawError>)
        requires
            old(self).wf(),
        ensures
            match done {
                Ok(commands) => {
                    &&& index_buffer.is_index_buffer()
                    &&& commands@ == (RecorderView {
                        index_buffer: true,
                        ..old(self)@.record(
                            CommandView::BindIndexBuffer {
                                buffer: index_buffer.handle,
                                offset,
                                index_type,
                            },
                        )
                    })
                    &&& commands.wf()
                    &&& *final(commands.target()) == *final(old(self).target())
                    &&& *final(commands) == *final(self)
                },
                Err(error) => {
                    &&& !index_buffer.is_index_buffer()
                    &&& error == DrawError::Indexed
                    &&& *final(self) == *old(self)
                },
            },
    {
        if !Self::index_buffer_check(index_buffer) {
            return Err(DrawError::Indexed);
        }
        self.0.push(Command::BindIndexBuffer { buffer: index_buffer.handle, offset, index_type });
        self.0.graphics_bindings.index_buffer = true;
        Ok(self)
    }

    /// Binds `descriptor_sets` from set 0 on against the layout of the bound
    /// graphics pipeline, with `dynamic_offsets` or none, and notes that
    /// descriptor sets are bound. Refused, and nothing recorded, if no
    /// graphics pipeline is bound.
    pub fn bind_descriptor_sets(
        &mut self,
        descriptor_sets: &'b [u64],
        dynamic_offsets: Option<&'b [u32]>,
    ) -> (done: Result<&mut Self, UnsupportedOperation>)
        requires
            old(self).wf(),
        ensures
            match done {
                Ok(commands) => {
                    &&& old(self)@.graphics_pipeline is Some
                    &&& commands@ == (RecorderView {
                        graphics_descriptors: true,
                        ..old(self)@.record(
                            CommandView::BindDescriptorSets {
                                bind_point: PIPELINE_BIND_POINT_GRAPHICS,
                                layout: old(self)@.graphics_pipeline->0.layout,
                                first_set: 0,
                                descriptor_sets: descriptor_sets@,
                                dynamic_offsets: match dynamic_offsets {
                                    Some(offsets) => offsets@,
                                    None => Seq::empty(),
                                },
                            },
                        )
                    })
                    &&& commands.wf()
                    &&& *final(commands.target()) == *final(old(self).target())
                    &&& *final(commands) == *final(self)
                },
                Err(_) => old(self)@.graphics_pipeline is None && *final(self) == *old(self),
            },
    {
        let layout = match self.0.graphics_bindings.graphics_pipeline {
            Some(pipeline) => pipeline.layout,
            None => {
                return Err(UnsupportedOperation);
            },
        };
        let dynamic_offsets = match dynamic_offsets {
            Some(offsets) => vstd::slice::slice_to_vec(offsets),
            None => Vec::new(),
        };
        self.0.push(
            Command::BindDescriptorSets {
                bind_point: PIPELINE_BIND_POINT_GRAPHICS,
                layout,
                first_set: 0,
                descriptor_sets: vstd::slice::slice_to_vec(descriptor_sets),
                dynamic_offsets,
            },
        );
        self.0.graphics_bindings.descriptors = true;
        Ok(self)
    }

    /// Binds `pipeline` as the graphics pipeline of the session.
    pub fn bind_pipeline(&mut self, pipeline: &'b GraphicsPipeline) -> (commands: &mut Self)
        requires
            old(self).wf(),
        ensures
            commands@ == (RecorderView {
                graphics_pipeline: Some(*pipeline),
                ..old(self)@.record(
                    CommandView::BindPipeline {
                        bind_point: PIPELINE_BIND_POINT_GRAPHICS,
                        pipeline: pipeline.pipeline,
                    },
                )
            }),
            commands.wf(),
            *final(commands.target()) == *final(old(self).target()),
            *final(commands) == *final(self),
    {
        self.0.push(
            Command::BindPipeline {
                bind_point: PIPELINE_BIND_POINT_GRAPHICS,
                pipeline: pipeline.pipeline,
            },
        );
        self.0.graphics_bindings.graphics_pipeline = Some(pipeline);
        self
    }
}

/// The bindings of compute work: descriptor sets and the pipeline.
pub struct ComputeGenericCommands<'a, 'b: 'a>(pub(crate) &'a mut CommandBufferRecorder<'b>);

impl<'a, 'b: 'a> View for ComputeGenericCommands<'a, 'b> {
    type V = RecorderView;

    open(crate) spec fn view(&self) -> RecorderView {
        (*self.0)@
    }
}

impl<'a, 'b: 'a> ComputeGenericCommands<'a, 'b> {
    /// The borrow of the recorder that the view holds.
    pub open(crate) spec fn target(&self) -> &mut CommandBufferRecorder<'b> {
        self.0
    }

    /// The session is well formed and its queue family supports compute
    /// work.
    pub open spec fn wf(&self) -> bool {
        self@.wf() && self@.family().has_compute()
    }

    /// Binds `descriptor_sets` from set 0 on against the layout of the bound
    /// compute pipeline, with `dynamic_offsets` or none, and notes that
    /// descriptor sets are bound. Refused, and nothing recorded, if no
    /// compute pipeline is bound.
    pub fn bind_descriptor_sets(
        &mut self,
        descriptor_sets: &'b [u64],
        dynamic_offsets: Option<&'b [u32]>,
    ) -> (done: Result<&mut Self, UnsupportedOperation>)
        requires
            old(self).wf(),
        ensures
            match done {
                Ok(commands) => {
                    &&& old(self)@.compute_pipeline is Some
                    &&& commands@ == (RecorderView {
                        compute_descriptors: true,
                        ..old(self)@.record(
                            CommandView::BindDescriptorSets {
                                bind_point: PIPELINE_BIND_POINT_COMPUTE,
                                layout: old(self)@.compute_pipeline->0.layout,
                                first_set: 0,
                                descriptor_sets: descriptor_sets@,
                                dynamic_offsets: match dynamic_offsets {
                                    Some(offsets) => offsets@,
                                    None => Seq::empty(),
                                },
                            },
                        )
                    })
                    &&& commands.wf()
                    &&& *final(commands.target()) == *final(old(self).target())
                    &&& *final(commands) == *final(self)
                },
                Err(_) => old(self)@.compute_pipeline is None && *final(self) == *old(self),
            },
    {
        let layout = match self.0.compute_bindings.compute_pipeline {
            Some(pipeline) => pipeline.layout,
            None => {
                return Err(UnsupportedOperation);
            },
        };
        let dynamic_offsets = match dynamic_offsets {
            Some(offsets) => vstd::slice::slice_to_vec(offsets),
            None => Vec::new(),
        };
        self.0.push(
            Command::BindDescriptorSets {
                bind_point: PIPELINE_BIND_POINT_COMPUTE,
                layout,
                first_set: 0,
                descriptor_sets: vstd::slice::slice_to_vec(descriptor_sets),
                dynamic_offsets,
            },
        );
        self.0.compute_bindings.descriptors = true;
        Ok(self)
    }

    /// Binds `pipeline` as the compute pipeline of the session.
    pub fn bind_pipeline(&mut self, pipeline: &'b ComputePipeline) -> (commands: &mut Self)
        requires
            old(self).wf(),
        ensures
            commands@ == (RecorderView {
                compute_pipeline: Some(*pipeline),
                ..old(self)@.record(
                    CommandView::BindPipeline {
                        bind_point: PIPELINE_BIND_POINT_COMPUTE,
                        pipeline: pipeline.pipeline,
                    },
                )
            }),
            commands.wf(),
            *final(commands.target()) == *final(old(self).target()),
            *final(commands) == *final(self),
    {
        self.0.push(
            Command::BindPipeline {
                bind_point: PIPELINE_BIND_POINT_COMPUTE,
                pipeline: pipeline.pipeline,
            },
        );
        self.0.compute_bindings.compute_pipeline = Some(pipeline);
        self
    }
}


/// What an image memory barrier inside a render pass may not do.
#[derive(Clone, Copy, Debug, PartialEq, Eq, Structural)]
pub enum BarrierViolation {
    /// Its old and its new layout differ.
    LayoutChanged,
    /// Its source and its destination queue family differ.
    QueueFamilyChanged,
}

/// The barrier may stand inside a render pass: it changes neither the layout
/// nor the queue family that owns the image.
pub open spec fn keeps_layout_and_family(barrier: ImageMemoryBarrier) -> bool {
    barrier.old_layout == barrier.new_layout && barrier.src_queue_family_index
        == barrier.dst_queue_family_index
}

/// Every barrier of the list may stand inside a render pass.
pub open spec fn all_keep_layout_and_family(barriers: Seq<ImageMemoryBarrier>) -> bool {
    forall|i: int| 0 <= i < barriers.len() ==> keeps_layout_and_family(#[trigger] barriers[i])
}

/// One subpass of a render pass and where its commands come from.
pub enum Subpass<F> {
    /// The callback records the commands of the subpass into the command
    /// buffer itself.
    Inline { callback: F },
}

impl<F> Subpass<F> {
    fn contents(&self) -> (contents: i32)
        ensures
            contents == SUBPASS_CONTENTS_INLINE,
    {
        match self {
            Subpass::Inline { .. } => SUBPASS_CONTENTS_INLINE,
        }
    }
}

/// The graphics view of a recording session: render passes.
pub struct GraphicsCommandBuffer<'a, 'b: 'a>(pub(crate) &'a mut CommandBufferRecorder<'b>);

impl<'a, 'b: 'a> View for GraphicsCommandBuffer<'a, 'b> {
    type V = RecorderView;

    open(crate) spec fn view(&self) -> RecorderView {
        (*self.0)@
    }
}

impl<'a, 'b: 'a> GraphicsCommandBuffer<'a, 'b> {
    /// The borrow of the recorder that the view holds.
    pub open(crate) spec fn target(&self) -> &mut CommandBufferRecorder<'b> {
        self.0
    }

    /// The session is well formed, its queue family supports graphics work
    /// and no render pass is open.
    pub open spec fn wf(&self) -> bool {
        self@.wf() && self@.family().has_graphics() && !self@.buffer.render_pass_open
    }

    /// `error` is what the callback of one of the subpasses handed back for
    /// some well-formed scope.
    pub open spec fn failed_with<E, F>(subpasses: Seq<Subpass<F>>, error: E) -> bool where
        F: FnOnce(&mut InsideOfRenderpassScope<'_, 'b>) -> Result<(), E>,
     {
        exists|i: int, scope: &mut InsideOfRenderpassScope<'_, 'b>|
            0 <= i < subpasses.len() && scope.wf() && #[trigger] call_ensures(
                subpasses[i]->callback,
                (scope,),
                Err::<(), E>(error),
            )
    }

    /// The callback of subpass `i` handed back success for some well-formed
    /// scope.
    pub open spec fn succeeded<E, F>(subpasses: Seq<Subpass<F>>, i: int) -> bool where
        F: FnOnce(&mut InsideOfRenderpassScope<'_, 'b>) -> Result<(), E>,
     {
        exists|scope: &mut InsideOfRenderpassScope<'_, 'b>, outcome: Result<(), E>|
            scope.wf() && outcome is Ok && #[trigger] call_ensures(
                subpasses[i]->callback,
                (scope,),
                outcome,
            )
    }

    /// Records a render pass of the given subpasses: the begin of the pass
    /// with `begin_info` and the contents of the first subpass, then for each
    /// subpass what its callback records, with a step to the next subpass
    /// between two of them, and the end of the pass after the last.
    ///
    /// With no subpass nothing is recorded and the call succeeds. If a
    /// callback fails, its error is handed back at once: the pass is left
    /// open and the buffer is invalid, so that nothing more can be recorded
    /// into it and it cannot be ended.
    ///
    /// A callback records through the scope it is given, and through nothing
    /// else: it takes any well-formed scope, and leaves it as a continuation
    /// of what it was given.
    pub fn renderpass<E, F>(
        &mut self,
        begin_info: &RenderPassBeginInfo,
        subpasses: Vec<Subpass<F>>,
    ) -> (done: Result<&mut Self, E>) where
        F: FnOnce(&mut InsideOfRenderpassScope<'_, 'b>) -> Result<(), E>,

        requires
            old(self).wf(),
            forall|i: int, scope: &mut InsideOfRenderpassScope<'_, 'b>|
                0 <= i < subpasses.len() && scope.wf() ==> call_requires(
                    #[trigger] subpasses[i]->callback,
                    (scope,),
                ),
            forall|i: int, scope: &mut InsideOfRenderpassScope<'_, 'b>, outcome: Result<(), E>|
                0 <= i < subpasses.len() && scope.wf() && call_ensures(
                    #[trigger] subpasses[i]->callback,
                    (scope,),
                    outcome,
                ) ==> {
                    &&& final(scope).wf()
                    &&& scope@.continued_by(final(scope)@)
                    &&& *final(final(scope).target()) == *final(scope.target())
                },
        ensures
            match done {
                Ok(commands) => {
                    &&& if subpasses.len() == 0 {
                        commands@ == old(self)@
                    } else {
                        commands@.render_pass_recorded(
                            old(self)@,
                            begin_info@,
                            subpasses.len() as nat,
                        )
                    }
                    &&& commands.wf()
                    &&& *final(commands.target()) == *final(old(self).target())
                    &&& *final(commands) == *final(self)
                },
                Err(_) => {
                    &&& subpasses.len() > 0
                    &&& final(self)@.render_pass_abandoned(
                        old(self)@,
                        begin_info@,
                        subpasses.len() as nat,
                    )
                    &&& final(self)@.buffer.within_capabilities()
                    &&& *final(final(self).target()) == *final(old(self).target())
                },
            },
            done matches Err(error) ==> Self::failed_with(subpasses@, error),
            done is Ok ==> forall|i: int|
                0 <= i < subpasses.len() ==> #[trigger] Self::succeeded::<E, F>(subpasses@, i),
    {
        if subpasses.len() == 0 {
            return Ok(self);
        }
        let ghost before = self@;
        let ghost count = subpasses.len() as nat;
        let mut remaining = subpasses;
        let first = remaining.remove(0);
        self.0.begin_render_pass(begin_info, first.contents());
        proof {
            before.inside_render_pass_opens(begin_info@);
        }
        let mut callback = match first {
            Subpass::Inline { callback } => callback,
        };
        let mut steps: usize = 0;
        loop
            invariant
                self@.wf(),
                self@.family().has_graphics(),
                self@.inside_render_pass(before, begin_info@, steps as nat),
                before == old(self)@,
                before.wf(),
                count <= usize::MAX,
                callback == subpasses[steps as int]->callback,
                remaining@ == subpasses@.skip(steps + 1),
                forall|i: int| 0 <= i < steps ==> #[trigger] Self::succeeded::<E, F>(subpasses@, i),
                steps + 1 + remaining.len() == count,
                count == subpasses.len(),
                *final(self.target()) == *final(old(self).target()),
                forall|i: int, scope: &mut InsideOfRenderpassScope<'_, 'b>|
                    0 <= i < subpasses.len() && scope.wf() ==> call_requires(
                        #[trigger] subpasses[i]->callback,
                        (scope,),
                    ),
                forall|i: int, scope: &mut InsideOfRenderpassScope<'_, 'b>, outcome: Result<(), E>|
                    0 <= i < subpasses.len() && scope.wf() && call_ensures(
                        #[trigger] subpasses[i]->callback,
                        (scope,),
                        outcome,
                    ) ==> {
                        &&& final(scope).wf()
                        &&& scope@.continued_by(final(scope)@)
                        &&& *final(final(scope).target()) == *final(scope.target())
                    },
            ensures
                remaining.len() == 0,
                Self::succeeded::<E, F>(subpasses@, steps as int),
            decreases remaining.len(),
        {
            let ghost entered = self@;
            let mut inside = InsideOfRenderpassScope(self.0);
            let outcome = callback(&mut inside);
            proof {
                entered.inside_render_pass_continues(inside@, before, begin_info@, steps as nat);
            }
            match outcome {
                Ok(()) => {},
                Err(error) => {
                    inside.0.invalidate();
                    assert(inside@.inside_render_pass(
                        before.invalidated(),
                        begin_info@,
                        steps as nat,
                    ));
                    return Err(error);
                },
            }
            if remaining.len() == 0 {
                break ;
            }
            let subpass = remaining.remove(0);
            proof {
                self@.inside_render_pass_steps(before, begin_info@, steps as nat);
            }
            self.0.next_subpass(subpass.contents());
            callback = match subpass {
                Subpass::Inline { callback } => callback,
            };
            steps += 1;
        }
        proof {
            self@.inside_render_pass_closes(before, begin_info@, steps as nat);
        }
        self.0.end_render_pass();
        Ok(self)
    }

    /// The commands that any family carries.
    pub fn as_generic(&mut self) -> (commands: GenericCommands<'_, 'b>)
        requires
            old(self).wf(),
        ensures
            commands@ == old(self)@,
            commands.wf(),
            *final(commands.target()) == *final(self).target(),
            *final(final(self).target()) == *final(old(self).target()),
    {
        GenericCommands(self.0)
    }
}

/// The inside of a render pass: what a subpass callback records through.
pub struct InsideOfRenderpassScope<'a, 'b: 'a>(pub(crate) &'a mut CommandBufferRecorder<'b>);

impl<'a, 'b: 'a> View for InsideOfRenderpassScope<'a, 'b> {
    type V = RecorderView;

    open(crate) spec fn view(&self) -> RecorderView {
        (*self.0)@
    }
}

impl<'a, 'b: 'a> InsideOfRenderpassScope<'a, 'b> {
    /// The borrow of the recorder that the view holds.
    pub open(crate) spec fn target(&self) -> &mut CommandBufferRecorder<'b> {
        self.0
    }

    /// The session is well formed, its queue family supports graphics work
    /// and a render pass is open.
    pub open spec fn wf(&self) -> bool {
        self@.wf() && self@.family().has_graphics() && self@.buffer.render_pass_open
    }

    /// The draw commands.
    pub fn as_draw(&mut self) -> (commands: DrawCommands<'_, 'b>)
        requires
            old(self).wf(),
        ensures
            commands@ == old(self)@,
            commands.wf(),
            *final(commands.target()) == *final(self).target(),
            *final(final(self).target()) == *final(old(self).target()),
    {
        DrawCommands(self.0)
    }

    /// The bindings of graphics work.
    pub fn as_graphics_generic(&mut self) -> (commands: GraphicsGenericCommands<'_, 'b>)
        requires
            old(self).wf(),
        ensures
            commands@ == old(self)@,
            commands.wf(),
            *final(commands.target()) == *final(self).target(),
            *final(final(self).target()) == *final(old(self).target()),
    {
        GraphicsGenericCommands(self.0)
    }

    /// The clear commands.
    pub fn as_clear(&mut self) -> (commands: ClearCommands<'_, 'b>)
        requires
            old(self).wf(),
        ensures
            commands@ == old(self)@,
            commands.wf(),
            *final(commands.target()) == *final(self).target(),
            *final(final(self).target()) == *final(old(self).target()),
    {
        ClearCommands(self.0)
    }

    /// The first barrier of the list that may not stand inside a render
    /// pass, and what it does wrong: a change of layout is named before a
    /// change of queue family. `None` if every barrier may stand there.
    pub fn first_barrier_violation(image_memory_barriers: &[ImageMemoryBarrier]) -> (found: Option<
        (usize, BarrierViolation),
    >)
        ensures
            found is None == all_keep_layout_and_family(image_memory_barriers@),
            found matches Some((index, violation)) ==> {
                &&& index < image_memory_barriers.len()
                &&& all_keep_layout_and_family(image_memory_barriers@.take(index as int))
                &&& !keeps_layout_and_family(image_memory_barriers[index as int])
                &&& violation == if image_memory_barriers[index as int].old_layout
                    != image_memory_barriers[index as int].new_layout {
                    BarrierViolation::LayoutChanged
                } else {
                    BarrierViolation::QueueFamilyChanged
                }
            },
    {
        let mut index: usize = 0;
        while index < image_memory_barriers.len()
            invariant
                index <= image_memory_barriers.len(),
                all_keep_layout_and_family(image_memory_barriers@.take(index as int)),
            decreases image_memory_barriers.len() - index,
        {
            let barrier = &image_memory_barriers[index];
            if barrier.old_layout != barrier.new_layout {
                return Some((index, BarrierViolation::LayoutChanged));
            }
            if barrier.src_queue_family_index != barrier.dst_queue_family_index {
                return Some((index, BarrierViolation::QueueFamilyChanged));
            }
            assert forall|i: int| 0 <= i < index + 1 implies keeps_layout_and_family(
                #[trigger] image_memory_barriers@.take(index + 1)[i],
            ) by {
                if i < index {
                    assert(image_memory_barriers@.take(index + 1)[i]
                        == image_memory_barriers@.take(index as int)[i]);
                }
            }
            index += 1;
        }
        assert(image_memory_barriers@.take(index as int) =~= image_memory_barriers@);
        None
    }

    /// Records a pipeline barrier inside the render pass, with the given
    /// masks, memory barriers and image memory barriers and without buffer
    /// memory barriers. Every image memory barrier has to keep its layout and
    /// its queue family: the device leaves undefined what one that changes
    /// either does inside a render pass.
    pub fn pipeline_barrier(
        &mut self,
        src_stage_mask: u32,
        dst_stage_mask: u32,
        dependency_flags: u32,
        memory_barriers: &'b [MemoryBarrier],
        image_memory_barriers: &'b [ImageMemoryBarrier],
    ) -> (commands: &mut Self)
        requires
            old(self).wf(),
            all_keep_layout_and_family(image_memory_barriers@),
        ensures
            commands@ == old(self)@.record(
                CommandView::PipelineBarrier {
                    src_stage_mask,
                    dst_stage_mask,
                    dependency_flags,
                    memory_barriers: memory_barriers@,
                    buffer_memory_barriers: Seq::empty(),
                    image_memory_barriers: image_memory_barriers@,
                },
            ),
            commands.wf(),
            *final(commands.target()) == *final(old(self).target()),
            *final(commands) == *final(self),
    {
        self.0.push(
            Command::PipelineBarrier {
                src_stage_mask,
                dst_stage_mask,
                dependency_flags,
                memory_barriers: vstd::slice::slice_to_vec(memory_barriers),
                buffer_memory_barriers: Vec::new(),
                image_memory_barriers: vstd::slice::slice_to_vec(image_memory_barriers),
            },
        );
        self
    }
}

/// The draw commands. They need vertex buffers bound in the same session.
pub struct DrawCommands<'a, 'b: 'a>(pub(crate) &'a mut CommandBufferRecorder<'b>);

impl<'a, 'b: 'a> View for DrawCommands<'a, 'b> {
    type V = RecorderView;

    open(crate) spec fn view(&self) -> RecorderView {
        (*self.0)@
    }
}

impl<'a, 'b: 'a> DrawCommands<'a, 'b> {
    /// The borrow of the recorder that the view holds.
    pub open(crate) spec fn target(&self) -> &mut CommandBufferRecorder<'b> {
        self.0
    }

    /// The session is well formed, its queue family supports graphics work
    /// and a render pass is open.
    pub open spec fn wf(&self) -> bool {
        self@.wf() && self@.family().has_graphics() && self@.buffer.render_pass_open
    }

    /// Binds the buffers of the list as vertex buffers from `first_binding`
    /// on and hands back the draw commands of the scope. Refused with
    /// `DrawError::Draw`, and nothing recorded, if one of the buffers may not
    /// be used as a vertex buffer.
    pub fn new(
        command_buffer: InsideOfRenderpassScope<'a, 'b>,
        first_binding: u32,
        buffers_and_offsets: &'b [(Buffer, u64)],
    ) -> (done: Result<Self, DrawError>)
        requires
            command_buffer.wf(),
        ensures
            match done {
                Ok(commands) => {
                    &&& command_buffer@.bind_vertex_buffers(first_binding, buffers_and_offsets@)
                        == Ok::<RecorderView, DrawError>(commands@)
                    &&& commands.wf()
                    &&& *final(commands.target()) == *final(command_buffer.target())
                },
                Err(error) => {
                    &&& command_buffer@.bind_vertex_buffers(first_binding, buffers_and_offsets@)
                        == Err::<RecorderView, DrawError>(error)
                    &&& *final(command_buffer.target()) == *command_buffer.target()
                },
            },
    {
        match split_vertex_buffers(buffers_and_offsets) {
            None => Err(DrawError::Draw),
            Some((buffers, offsets)) => {
                let commands = DrawCommands(command_buffer.0);
                commands.0.push(Command::BindVertexBuffers { first_binding, buffers, offsets });
                commands.0.graphics_bindings.vertex_buffers = true;
                Ok(commands)
            },
        }
    }

    /// Whether what a draw needs is bound: vertex buffers.
    fn can_draw(&self) -> (ready: bool)
        ensures
            ready == self@.vertex_buffers,
    {
        self.0.graphics_bindings.vertex_buffers
    }

    /// Whether what an indexed draw needs beyond that is bound: an index
    /// buffer.
    fn can_draw_indexed(&self) -> (ready: bool)
        ensures
            ready == self@.index_buffer,
    {
        self.0.graphics_bindings.index_buffer
    }

    /// Whether `indirect_buffer` may be the source of an indirect draw.
    fn indirect_buffer_check(&self, indirect_buffer: &Buffer) -> (valid: bool)
        ensures
            valid == indirect_buffer.is_indirect_buffer(),
    {
        indirect_buffer.indirect_usage()
    }

    /// The indexed draw commands, if an index buffer is bound.
    pub fn as_indexed(&mut self) -> (view: Result<IndexedDrawCommands<'_, 'b>, DrawError>)
        requires
            old(self).wf(),
        ensures
            match view {
                Ok(commands) => {
                    &&& old(self)@.index_buffer
                    &&& commands@ == old(self)@
                    &&& commands.wf()
                    &&& *final(commands.target()) == *final(self).target()
                    &&& *final(final(self).target()) == *final(old(self).target())
                },
                Err(error) => {
                    &&& !old(self)@.index_buffer
                    &&& error == DrawError::Indexed
                    &&& *final(self) == *old(self)
                },
            },
    {
        if self.can_draw_indexed() {
            Ok(IndexedDrawCommands(self.0))
        } else {
            Err(DrawError::Indexed)
        }
    }

    /// Records a draw of the vertices `vertexes` for the instances
    /// `instances`. Refused with `DrawError::Draw`, and nothing recorded,
    /// unless vertex buffers are bound.
    pub fn draw(&mut self, vertexes: Range<u32>, instances: Range<u32>) -> (done: Result<
        &mut Self,
        DrawError,
    >)
        requires
            old(self).wf(),
        ensures
            match done {
                Ok(commands) => {
                    &&& old(self)@.draw(vertexes, instances) == Ok::<RecorderView, DrawError>(
                        commands@,
                    )
                    &&& commands.wf()
                    &&& *final(commands.target()) == *final(old(self).target())
                    &&& *final(commands) == *final(self)
                },
                Err(error) => {
                    &&& old(self)@.draw(vertexes, instances) == Err::<RecorderView, DrawError>(
                        error,
                    )
                    &&& *final(self) == *old(self)
                },
            },
    {
        if !self.can_draw() {
            return Err(DrawError::Draw);
        }
        self.0.push(
            Command::Draw {
                vertex_count: range_count(&vertexes),
                instance_count: range_count(&instances),
                first_vertex: vertexes.start,
                first_instance: instances.start,
            },
        );
        Ok(self)
    }

    /// Records `draw_count` draws whose parameters the device reads from
    /// `indirect_buffer` at `offset`, `stride` bytes apart. Refused, and
    /// nothing recorded, with `DrawError::Draw` unless vertex buffers are
    /// bound, else with `DrawError::Indirect` if the buffer may not be the
    /// source of an indirect draw.
    pub fn draw_indirect(
        &mut self,
        indirect_buffer: &'b Buffer,
        offset: u64,
        draw_count: u32,
        stride: u32,
    ) -> (done: Result<&mut Self, DrawError>)
        requires
            old(self).wf(),
        ensures
            match done {
                Ok(commands) => {
                    &&& old(self)@.vertex_buffers
                    &&& indirect_buffer.is_indirect_buffer()
                    &&& commands@ == old(self)@.record(
                        CommandView::DrawIndirect {
                            buffer: indirect_buffer.handle,
                            offset,
                            draw_count,
                            stride,
                        },
                    )
                    &&& commands.wf()
                    &&& *final(commands.target()) == *final(old(self).target())
                    &&& *final(commands) == *final(self)
                },
                Err(error) => {
                    &&& error == if !old(self)@.vertex_buffers {
                        DrawError::Draw
                    } else {
                        DrawError::Indirect
                    }
                    &&& !old(self)@.vertex_buffers || !indirect_buffer.is_indirect_buffer()
                    &&& *final(self) == *old(self)
                },
            },
    {
        if !self.can_draw() {
            return Err(DrawError::Draw);
        }
        if !self.indirect_buffer_check(indirect_buffer) {
            return Err(DrawError::Indirect);
        }
        self.0.push(
            Command::DrawIndirect { buffer: indirect_buffer.handle, offset, draw_count, stride },
        );
        Ok(self)
    }
}

/// The indexed draw commands. They exist only once an index buffer is bound.
pub struct IndexedDrawCommands<'a, 'b: 'a>(pub(crate) &'a mut CommandBufferRecorder<'b>);

impl<'a, 'b: 'a> View for IndexedDrawCommands<'a, 'b> {
    type V = RecorderView;

    open(crate) spec fn view(&self) -> RecorderView {
        (*self.0)@
    }
}

impl<'a, 'b: 'a> IndexedDrawCommands<'a, 'b> {
    /// The borrow of the recorder that the view holds.
    pub open(crate) spec fn target(&self) -> &mut CommandBufferRecorder<'b> {
        self.0
    }

    /// The session is well formed, its queue family supports graphics work
    /// and a render pass is open.
    pub open spec fn wf(&self) -> bool {
        self@.wf() && self@.family().has_graphics() && self@.buffer.render_pass_open
    }

    /// Binds `index_buffer` at `offset` as the index buffer, with indices of
    /// `index_type`, and hands back the indexed draw commands. Refused with
    /// `DrawError::Indexed`, and nothing recorded, if the buffer may not be
    /// used as an index buffer.
    pub fn new(
        draw_commands: &'a mut DrawCommands<'_, 'b>,
        index_buffer: &'b Buffer,
        offset: u64,
        index_type: i32,
    ) -> (done: Result<Self, DrawError>)
        requires
            old(draw_commands).wf(),
        ensures
            match done {
                Ok(commands) => {
                    &&& index_buffer.is_index_buffer()
                    &&& commands@ == (RecorderView {
                        index_buffer: true,
                        ..old(draw_commands)@.record(
                            CommandView::BindIndexBuffer {
                                buffer: index_buffer.handle,
                                offset,
                                index_type,
                            },
                        )
                    })
                    &&& commands.wf()
                    &&& *final(commands.target()) == *final(draw_commands).target()
                    &&& *final(final(draw_commands).target())
                        == *final(old(draw_commands).target())
                },
                Err(error) => {
                    &&& !index_buffer.is_index_buffer()
                    &&& error == DrawError::Indexed
                    &&& *final(draw_commands) == *old(draw_commands)
                },
            },
    {
        if !GraphicsGenericCommands::index_buffer_check(index_buffer) {
            return Err(DrawError::Indexed);
        }
        let commands = IndexedDrawCommands(draw_commands.0);
        commands.0.push(
            Command::BindIndexBuffer { buffer: index_buffer.handle, offset, index_type },
        );
        commands.0.graphics_bindings.index_buffer = true;
        Ok(commands)
    }

    /// The draw commands.
    pub fn as_draw(&mut self) -> (commands: DrawCommands<'_, 'b>)
        requires
            old(self).wf(),
        ensures
            commands@ == old(self)@,
            commands.wf(),
            *final(commands.target()) == *final(self).target(),
            *final(final(self).target()) == *final(old(self).target()),
    {
        DrawCommands(self.0)
    }

    /// Records a draw of the indices `index`, each offset by `vertex_offset`,
    /// for the instances `instances`. Refused with `DrawError::Draw`, and
    /// nothing recorded, unless vertex buffers are bound.
    pub fn draw_indexed(
        &mut self,
        index: Range<u32>,
        vertex_offset: i32,
        instances: Range<u32>,
    ) -> (done:
        Result<&mut Self, DrawError>)
        requires
            old(self).wf(),
        ensures
            match done {
                Ok(commands) => {
                    &&& old(self)@.vertex_buffers
                    &&& commands@ == old(self)@.record(
                        CommandView::DrawIndexed {
                            index_count: range_len(index),
                            instance_count: range_len(instances),
                            first_index: index.start,
                            vertex_offset,
                            first_instance: instances.start,
                        },
                    )
                    &&& commands.wf()
                    &&& *final(commands.target()) == *final(old(self).target())
                    &&& *final(commands) == *final(self)
                },
                Err(error) => {
                    &&& !old(self)@.vertex_buffers
                    &&& error == DrawError::Draw
                    &&& *final(self) == *old(self)
                },
            },
    {
        if !self.0.graphics_bindings.vertex_buffers {
            return Err(DrawError::Draw);
        }
        self.0.push(
            Command::DrawIndexed {
                index_count: range_count(&index),
                instance_count: range_count(&instances),
                first_index: index.start,
                vertex_offset,
                first_instance: instances.start,
            },
        );
        Ok(self)
    }

    /// Records `draw_count` indexed draws whose parameters the device reads
    /// from `indirect_buffer` at `offset`, `stride` bytes apart. Refused, and
    /// nothing recorded, with `DrawError::Draw` unless vertex buffers are
    /// bound, else with `DrawError::Indirect` if the buffer may not be the
    /// source of an indirect draw.
    pub fn draw_indexed_indirect(
        &mut self,
        indirect_buffer: &'b Buffer,
        offset: u64,
        draw_count: u32,
        stride: u32,
    ) -> (done: Result<&mut Self, DrawError>)
        requires
            old(self).wf(),
        ensures
            match done {
                Ok(commands) => {
                    &&& old(self)@.vertex_buffers
                    &&& indirect_buffer.is_indirect_buffer()
                    &&& commands@ == old(self)@.record(
                        CommandView::DrawIndexedIndirect {
                            buffer: indirect_buffer.handle,
                            offset,
                            draw_count,
                            stride,
                        },
                    )
                    &&& commands.wf()
                    &&& *final(commands.target()) == *final(old(self).target())
                    &&& *final(commands) == *final(self)
                },
                Err(error) => {
                    &&& error == if !old(self)@.vertex_buffers {
                        DrawError::Draw
                    } else {
                        DrawError::Indirect
                    }
                    &&& !old(self)@.vertex_buffers || !indirect_buffer.is_indirect_buffer()
                    &&& *final(self) == *old(self)
                },
            },
    {
        if !self.0.graphics_bindings.vertex_buffers {
            return Err(DrawError::Draw);
        }
        if !indirect_buffer.indirect_usage() {
            return Err(DrawError::Indirect);
        }
        self.0.push(
            Command::DrawIndexedIndirect {
                buffer: indirect_buffer.handle,
                offset,
                draw_count,
                stride,
            },
        );
        Ok(self)
    }
}

/// A command buffer whose recording has ended and that can be submitted.
pub struct ExecutableCommandBuffer(pub(crate) CommandBuffer);

impl View for ExecutableCommandBuffer {
    type V = CommandBufferView;

    closed spec fn view(&self) -> CommandBufferView {
        self.0@
    }
}

impl ExecutableCommandBuffer {
    pub fn handle(&self) -> (handle: u64)
        ensures
            handle == self@.handle,
    {
        self.0.handle
    }

    pub fn state(&self) -> (state: CommandBufferState)
        ensures
            state == self@.state,
    {
        self.0.state
    }

    pub fn command_pool(&self) -> (pool: &Rc<CommandPool>)
        ensures
            **pool == self@.pool,
    {
        &self.0.command_pool
    }

    /// The device calls of the recording, oldest first.
    pub fn commands(&self) -> (commands: &Vec<Command>)
        ensures
            command_views(commands@) == self@.commands,
    {
        &self.0.commands
    }

    /// Opens a new recording session on the buffer, with the usage that it
    /// was allocated with. What the buffer held is gone. The buffer must not
    /// be pending on a queue: the layer does not know when the device is done
    /// with it.
    pub fn as_record(self) -> (recorder: CommandBufferRecorder<'static>)
        ensures
            recorder@ == RecorderView::begun(self@, self@.usage),
            recorder@.wf(),
    {
        let usage = self.0.usage;
        self.0.begin(usage)
    }

    pub fn as_executable(self) -> (buffer: Self)
        ensures
            buffer == self,
    {
        self
    }
}

/// The value of a [`QueueSubmission`].
pub struct QueueSubmissionView {
    /// The semaphores to wait for before the batch runs.
    pub wait_semaphores: Seq<u64>,
    /// For each of them, in the same place, the pipeline stages that wait.
    pub wait_dst_stage_masks: Seq<u32>,
    /// The command buffers of the batch.
    pub command_buffers: Seq<u64>,
    /// For each of them, in the same place, the index of the queue family
    /// that its pool is bound to.
    pub queue_family_indices: Seq<usize>,
    /// The semaphores to signal once the batch has run.
    pub signal_semaphores: Seq<u64>,
}

impl QueueSubmissionView {
    /// The batch with nothing in it.
    pub open spec fn empty() -> QueueSubmissionView {
        QueueSubmissionView {
            wait_semaphores: Seq::empty(),
            wait_dst_stage_masks: Seq::empty(),
            command_buffers: Seq::empty(),
            queue_family_indices: Seq::empty(),
            signal_semaphores: Seq::empty(),
        }
    }

    /// Each wait semaphore has its stage mask and each command buffer its
    /// queue family.
    pub open spec fn wf(self) -> bool {
        &&& self.wait_semaphores.len() == self.wait_dst_stage_masks.len()
        &&& self.command_buffers.len() == self.queue_family_indices.len()
    }

    /// The batch with one more semaphore to wait for at `pipeline_stage`.
    pub open spec fn wait_for(self, semaphore: u64, pipeline_stage: u32) -> QueueSubmissionView {
        QueueSubmissionView {
            wait_semaphores: self.wait_semaphores.push(semaphore),
            wait_dst_stage_masks: self.wait_dst_stage_masks.push(pipeline_stage),
            ..self
        }
    }

    /// The batch with one more command buffer.
    pub open spec fn execute(self, command_buffer: CommandBufferView) -> QueueSubmissionView {
        QueueSubmissionView {
            command_buffers: self.command_buffers.push(command_buffer.handle),
            queue_family_indices: self.queue_family_indices.push(
                command_buffer.pool.queue_family.index,
            ),
            ..self
        }
    }

    /// The batch with one more semaphore to signal.
    pub open spec fn signal(self, semaphore: u64) -> QueueSubmissionView {
        QueueSubmissionView { signal_semaphores: self.signal_semaphores.push(semaphore), ..self }
    }

    /// The batch after waiting for each pair of the list, in order.
    pub open spec fn wait_for_all(self, pairs: Seq<(u64, u32)>) -> QueueSubmissionView
        decreases pairs.len(),
    {
        if pairs.len() == 0 {
            self
        } else {
            self.wait_for_all(pairs.drop_last()).wait_for(pairs.last().0, pairs.last().1)
        }
    }

    /// The batch after adding each command buffer of the list, in order.
    pub open spec fn execute_all(
        self,
        command_buffers: Seq<CommandBufferView>,
    ) -> QueueSubmissionView
        decreases command_buffers.len(),
    {
        if command_buffers.len() == 0 {
            self
        } else {
            self.execute_all(command_buffers.drop_last()).execute(command_buffers.last())
        }
    }

    /// Every command buffer of the batch comes from a pool bound to the
    /// queue family `index`.
    pub open spec fn all_of_family(self, index: usize) -> bool {
        forall|i: int|
            0 <= i < self.queue_family_indices.len() ==> #[trigger] self.queue_family_indices[i]
                == index
    }
}

/// The lists of a batch that go in pairs.
struct PairedLists {
    wait_semaphores: Vec<u64>,
    wait_dst_stage_masks: Vec<u32>,
    command_buffers: Vec<u64>,
    queue_family_indices: Vec<usize>,
}

impl PairedLists {
    /// Each wait semaphore has its stage mask and each command buffer its
    /// queue family.
    #[verifier::type_invariant]
    spec fn paired(self) -> bool {
        &&& self.wait_semaphores.len() == self.wait_dst_stage_masks.len()
        &&& self.command_buffers.len() == self.queue_family_indices.len()
    }
}

/// One batch of a queue submission: semaphores to wait for, each with the
/// pipeline stages that wait, the command buffers to execute, and
/// semaphores to signal. It borrows its command buffers for as long as it
/// lives.
pub struct QueueSubmission<'a> {
    lists: PairedLists,
    signal_semaphores: Vec<u64>,
    phantom_data: PhantomData<&'a ()>,
}

impl<'a> View for QueueSubmission<'a> {
    type V = QueueSubmissionView;

    closed spec fn view(&self) -> QueueSubmissionView {
        QueueSubmissionView {
            wait_semaphores: self.lists.wait_semaphores@,
            wait_dst_stage_masks: self.lists.wait_dst_stage_masks@,
            command_buffers: self.lists.command_buffers@,
            queue_family_indices: self.lists.queue_family_indices@,
            signal_semaphores: self.signal_semaphores@,
        }
    }
}

impl QueueSubmission<'static> {
    pub fn builder() -> (builder: QueueSubmissionBuilder<'static>)
        ensures
            builder@ == QueueSubmissionView::empty(),
    {
        QueueSubmissionBuilder::new()
    }
}

impl<'a> QueueSubmission<'a> {
    pub fn wait_semaphores(&self) -> (semaphores: &[u64])
        ensures
            semaphores@ == self@.wait_semaphores,
            self@.wf(),
    {
        proof {
            use_type_invariant(&self.lists);
        }
        self.lists.wait_semaphores.as_slice()
    }

    pub fn wait_dst_stage_masks(&self) -> (masks: &[u32])
        ensures
            masks@ == self@.wait_dst_stage_masks,
    {
        self.lists.wait_dst_stage_masks.as_slice()
    }

    pub fn command_buffers(&self) -> (command_buffers: &[u64])
        ensures
            command_buffers@ == self@.command_buffers,
    {
        self.lists.command_buffers.as_slice()
    }

    /// For each command buffer of the batch, in the same place, the index of
    /// the queue family that its pool is bound to.
    pub fn queue_family_indices(&self) -> (indices: &[usize])
        ensures
            indices@ == self@.queue_family_indices,
    {
        self.lists.queue_family_indices.as_slice()
    }

    pub fn signal_semaphores(&self) -> (semaphores: &[u64])
        ensures
            semaphores@ == self@.signal_semaphores,
    {
        self.signal_semaphores.as_slice()
    }
}

/// Builds a [`QueueSubmission`] piece by piece. A wait semaphore goes in
/// together with its stage mask, so the two lists stay paired.
pub struct QueueSubmissionBuilder<'a>(QueueSubmission<'a>);

impl<'a> View for QueueSubmissionBuilder<'a> {
    type V = QueueSubmissionView;

    closed spec fn view(&self) -> QueueSubmissionView {
        self.0@
    }
}

impl<'a> QueueSubmissionBuilder<'a> {
    pub fn new() -> (builder: Self)
        ensures
            builder@ == QueueSubmissionView::empty(),
    {
        QueueSubmissionBuilder(
            QueueSubmission {
                lists: PairedLists {
                    wait_semaphores: Vec::new(),
                    wait_dst_stage_masks: Vec::new(),
                    command_buffers: Vec::new(),
                    queue_family_indices: Vec::new(),
                },
                signal_semaphores: Vec::new(),
                phantom_data: PhantomData,
            },
        )
    }

    pub fn with_wait_semaphore(self, semaphore: u64, pipeline_stage: u32) -> (builder: Self)
        ensures
            builder@ == self@.wait_for(semaphore, pipeline_stage),
    {
        proof {
            use_type_invariant(&self.0.lists);
        }
        let QueueSubmission { lists, signal_semaphores, phantom_data } = self.0;
        let PairedLists {
            wait_semaphores,
            wait_dst_stage_masks,
            command_buffers,
            queue_family_indices,
        } = lists;
        let mut wait_semaphores = wait_semaphores;
        let mut wait_dst_stage_masks = wait_dst_stage_masks;
        wait_semaphores.push(semaphore);
        wait_dst_stage_masks.push(pipeline_stage);
        QueueSubmissionBuilder(
            QueueSubmission {
                lists: PairedLists {
                    wait_semaphores,
                    wait_dst_stage_masks,
                    command_buffers,
                    queue_family_indices,
                },
                signal_semaphores,
                phantom_data,
            },
        )
    }

    pub fn with_command_buffer(self, command_buffer: &'a ExecutableCommandBuffer) -> (builder: Self)
        ensures
            builder@ == self@.execute(command_buffer@),
    {
        proof {
            use_type_invariant(&self.0.lists);
        }
        let QueueSubmission { lists, signal_semaphores, phantom_data } = self.0;
        let PairedLists {
            wait_semaphores,
            wait_dst_stage_masks,
            command_buffers,
            queue_family_indices,
        } = lists;
        let mut command_buffers = command_buffers;
        let mut queue_family_indices = queue_family_indices;
        command_buffers.push(command_buffer.0.handle);
        queue_family_indices.push(command_buffer.0.command_pool.queue_family.index);
        QueueSubmissionBuilder(
            QueueSubmission {
                lists: PairedLists {
                    wait_semaphores,
                    wait_dst_stage_masks,
                    command_buffers,
                    queue_family_indices,
                },
                signal_semaphores,
                phantom_data,
            },
        )
    }

    pub fn with_signal_semaphore(&mut self, signal_semaphore: u64) -> (builder: &mut Self)
        ensures
            builder@ == old(self)@.signal(signal_semaphore),
            *final(builder) == *final(self),
    {
        self.0.signal_semaphores.push(signal_semaphore);
        self
    }

    pub fn with_wait_semaphores(self, pairs: Vec<(u64, u32)>) -> (builder: Self)
        ensures
            builder@ == self@.wait_for_all(pairs@),
    {
        let mut builder = self;
        let mut i: usize = 0;
        while i < pairs.len()
            invariant
                i <= pairs.len(),
                builder@ == self@.wait_for_all(pairs@.take(i as int)),
            decreases pairs.len() - i,
        {
            let (semaphore, pipeline_stage) = pairs[i];
            assert(pairs@.take(i + 1).drop_last() =~= pairs@.take(i as int));
            builder = builder.with_wait_semaphore(semaphore, pipeline_stage);
            i += 1;
        }
        assert(pairs@.take(i as int) =~= pairs@);
        builder
    }

    pub fn with_command_buffers(
        self,
        command_buffers: Vec<&'a ExecutableCommandBuffer>,
    ) -> (builder:
        Self)
        ensures
            builder@ == self@.execute_all(
                command_buffers@.map_values(|buffer: &ExecutableCommandBuffer| buffer@),
            ),
    {
        let ghost views = command_buffers@.map_values(|buffer: &ExecutableCommandBuffer| buffer@);
        let mut builder = self;
        let mut i: usize = 0;
        while i < command_buffers.len()
            invariant
                i <= command_buffers.len(),
                views == command_buffers@.map_values(|buffer: &ExecutableCommandBuffer| buffer@),
                builder@ == self@.execute_all(views.take(i as int)),
            decreases command_buffers.len() - i,
        {
            assert(views.take(i + 1).drop_last() =~= views.take(i as int));
            builder = builder.with_command_buffer(command_buffers[i]);
            i += 1;
        }
        assert(views.take(i as int) =~= views);
        builder
    }

    pub fn with_signal_semaphores(self, semaphores: Vec<u64>) -> (builder: Self)
        ensures
            builder@ == (QueueSubmissionView {
                signal_semaphores: self@.signal_semaphores + semaphores@,
                ..self@
            }),
    {
        let mut builder = self;
        let mut i: usize = 0;
        while i < semaphores.len()
            invariant
                i <= semaphores.len(),
                builder@ == (QueueSubmissionView {
                    signal_semaphores: self@.signal_semaphores + semaphores@.take(i as int),
                    ..self@
                }),
            decreases semaphores.len() - i,
        {
            builder.0.signal_semaphores.push(semaphores[i]);
            assert(self@.signal_semaphores + semaphores@.take(i + 1) =~= (self@.signal_semaphores
                + semaphores@.take(i as int)).push(semaphores[i as int]));
            i += 1;
        }
        assert(semaphores@.take(i as int) =~= semaphores@);
        builder
    }

    pub fn build(self) -> (submission: QueueSubmission<'a>)
        ensures
            submission@ == self@,
            submission@.wf(),
    {
        proof {
            use_type_invariant(&self.0.lists);
        }
        self.0
    }
}

} // verus!
