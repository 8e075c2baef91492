//! Queue families and what each can do.

use vstd::prelude::*;

use super::command_pool::{QueueSubmission, QueueSubmissionView};
use super::flags::{
    contains, intersects, queue_flags_contains, queue_flags_intersects, NULL_HANDLE,
    QUEUE_COMPUTE, QUEUE_GRAPHICS, QUEUE_PROTECTED, QUEUE_SPARSE_BINDING, QUEUE_TRANSFER,
};
use super::structs::Extent3D;

verus! {

/// What the device reports of one queue family.
#[derive(Clone, Copy, Debug, PartialEq, Eq)]
pub struct QueueFamilyProperties {
    pub queue_flags: u32,
    pub queue_count: u32,
    pub timestamp_valid_bits: u32,
    pub min_image_transfer_granularity: Extent3D,
}

/// One queue family of a physical device: its place in the device's list and
/// what the device reports of it. It never changes once discovered.
#[derive(Clone, Copy, Debug, PartialEq, Eq)]
pub struct QueueFamily {
    pub property: QueueFamilyProperties,
    pub index: usize,
    pub physical_device: u64,
}

impl QueueFamily {
    /// The family advertises graphics work.
    pub open spec fn has_graphics(&self) -> bool {
        contains(self.property.queue_flags, QUEUE_GRAPHICS)
    }

    /// The family advertises compute work.
    pub open spec fn has_compute(&self) -> bool {
        contains(self.property.queue_flags, QUEUE_COMPUTE)
    }

    /// The family advertises transfers and neither graphics nor compute: a
    /// dedicated transfer family.
    pub open spec fn is_transfer_only(&self) -> bool {
        contains(self.property.queue_flags, QUEUE_TRANSFER) && !intersects(
            self.property.queue_flags,
            QUEUE_GRAPHICS | QUEUE_COMPUTE,
        )
    }

    /// The family advertises sparse binding.
    pub open spec fn has_sparse_binding(&self) -> bool {
        contains(self.property.queue_flags, QUEUE_SPARSE_BINDING)
    }

    /// The family advertises protected memory.
    pub open spec fn has_protected(&self) -> bool {
        contains(self.property.queue_flags, QUEUE_PROTECTED)
    }

    /// The family can carry transfer commands: graphics and compute families
    /// do so implicitly, a dedicated transfer family by what it advertises.
    pub open spec fn can_transfer(&self) -> bool {
        self.has_compute() || self.has_graphics() || self.is_transfer_only()
    }

    pub fn new(property: QueueFamilyProperties, index: usize, physical_device: u64) -> (family:
        Self)
        ensures
            family.property == property,
            family.index == index,
            family.physical_device == physical_device,
    {
        QueueFamily { property, index, physical_device }
    }

    pub fn support_graphics(&self) -> (supported: bool)
        ensures
            supported == self.has_graphics(),
    {
        queue_flags_contains(self.property.queue_flags, QUEUE_GRAPHICS)
    }

    pub fn support_compute(&self) -> (supported: bool)
        ensures
            supported == self.has_compute(),
    {
        queue_flags_contains(self.property.queue_flags, QUEUE_COMPUTE)
    }

    /// Whether this family supports transfers apart from graphics and compute
    /// work. Queues that support graphics or compute support transfers
    /// implicitly, so this answers `false` for them: it singles out the
    /// dedicated transfer families.
    pub fn support_transfer_only(&self) -> (supported: bool)
        ensures
            supported == self.is_transfer_only(),
    {
        queue_flags_contains(self.property.queue_flags, QUEUE_TRANSFER) && !queue_flags_intersects(
            self.property.queue_flags,
            QUEUE_GRAPHICS | QUEUE_COMPUTE,
        )
    }

    pub fn support_sparse_binding(&self) -> (supported: bool)
        ensures
            supported == self.has_sparse_binding(),
    {
        queue_flags_contains(self.property.queue_flags, QUEUE_SPARSE_BINDING)
    }

    pub fn support_protected(&self) -> (supported: bool)
        ensures
            supported == self.has_protected(),
    {
        queue_flags_contains(self.property.queue_flags, QUEUE_PROTECTED)
    }

    pub fn queue_count(&self) -> (count: usize)
        ensures
            count == self.property.queue_count,
    {
        self.property.queue_count as usize
    }

    pub fn timestamp_valid_bits(&self) -> (bits: u32)
        ensures
            bits == self.property.timestamp_valid_bits,
    {
        self.property.timestamp_valid_bits
    }

    pub fn min_image_transfer_granularity(&self) -> (granularity: Extent3D)
        ensures
            granularity == self.property.min_image_transfer_granularity,
    {
        self.property.min_image_transfer_granularity
    }

    pub fn index(&self) -> (index: usize)
        ensures
            index == self.index,
    {
        self.index
    }

    /// A dedicated transfer family is one that advertises transfers and
    /// advertises neither graphics nor compute.
    pub proof fn transfer_only_excludes_graphics_and_compute(self)
        ensures
            self.is_transfer_only() <==> contains(self.property.queue_flags, QUEUE_TRANSFER)
                && !self.has_graphics() && !self.has_compute(),
    {
        let f = self.property.queue_flags;
        assert((f & (0x1u32 | 0x2u32) != 0) <==> (f & 0x1u32 == 0x1u32 || f & 0x2u32 == 0x2u32))
            by (bit_vector);
    }

    /// A family can carry transfer commands exactly when it advertises
    /// graphics, compute or transfers.
    pub proof fn can_transfer_by_flags(self)
        ensures
            self.can_transfer() <==> intersects(
                self.property.queue_flags,
                QUEUE_GRAPHICS | QUEUE_COMPUTE | QUEUE_TRANSFER,
            ),
    {
        let f = self.property.queue_flags;
        assert((f & (0x1u32 | 0x2u32) != 0) <==> (f & 0x1u32 == 0x1u32 || f & 0x2u32 == 0x2u32))
            by (bit_vector);
        assert((f & (0x1u32 | 0x2u32 | 0x4u32) != 0) <==> (f & 0x1u32 == 0x1u32 || f & 0x2u32
            == 0x2u32 || f & 0x4u32 == 0x4u32)) by (bit_vector);
    }
}

/// One batch as the device takes it: the semaphores to wait for, for each of
/// them in the same place the pipeline stages that wait, the command buffers
/// and the semaphores to signal.
#[derive(Clone, Debug, PartialEq, Eq)]
pub struct SubmitInfo {
    pub wait_semaphores: Vec<u64>,
    pub wait_dst_stage_mask: Vec<u32>,
    pub command_buffers: Vec<u64>,
    pub signal_semaphores: Vec<u64>,
}

/// The value of a [`SubmitInfo`].
pub struct SubmitInfoView {
    pub wait_semaphores: Seq<u64>,
    pub wait_dst_stage_mask: Seq<u32>,
    pub command_buffers: Seq<u64>,
    pub signal_semaphores: Seq<u64>,
}

impl View for SubmitInfo {
    type V = SubmitInfoView;

    open spec fn view(&self) -> SubmitInfoView {
        SubmitInfoView {
            wait_semaphores: self.wait_semaphores@,
            wait_dst_stage_mask: self.wait_dst_stage_mask@,
            command_buffers: self.command_buffers@,
            signal_semaphores: self.signal_semaphores@,
        }
    }
}

impl SubmitInfoView {
    /// What the device is handed for `batch`.
    pub open spec fn of(batch: QueueSubmissionView) -> SubmitInfoView {
        SubmitInfoView {
            wait_semaphores: batch.wait_semaphores,
            wait_dst_stage_mask: batch.wait_dst_stage_masks,
            command_buffers: batch.command_buffers,
            signal_semaphores: batch.signal_semaphores,
        }
    }
}

/// One submission call: the queue, its batches in order, and the fence to
/// signal when all of them have run (the null handle for none).
#[derive(Clone, Debug, PartialEq, Eq)]
pub struct QueueSubmit {
    pub queue: u64,
    pub submits: Vec<SubmitInfo>,
    pub fence: u64,
}

/// A queue of a logical device and the family it belongs to.
#[derive(Clone, Copy, Debug, PartialEq, Eq)]
pub struct Queue {
    pub handle: u64,
    pub queue_index: usize,
    pub family: QueueFamily,
}

/// Every command buffer of every batch comes from a pool bound to the queue
/// family `index`.
pub open spec fn all_batches_of_family(batches: Seq<QueueSubmissionView>, index: usize) -> bool {
    forall|i: int| 0 <= i < batches.len() ==> (#[trigger] batches[i]).all_of_family(index)
}

/// The values of the batches of a list, in order.
pub open spec fn batch_views(submits: Seq<QueueSubmission<'_>>) -> Seq<QueueSubmissionView> {
    submits.map_values(|batch: QueueSubmission<'_>| batch@)
}

impl Queue {
    /// The queue that the device handed out under `handle` as number
    /// `queue_index` of `family`.
    pub fn new(handle: u64, queue_index: usize, family: QueueFamily) -> (queue: Self)
        ensures
            queue == (Queue { handle, queue_index, family }),
    {
        Queue { handle, queue_index, family }
    }

    pub fn queue_family_index(&self) -> (index: usize)
        ensures
            index == self.family.index,
    {
        self.family.index
    }

    pub fn family(&self) -> (family: &QueueFamily)
        ensures
            *family == self.family,
    {
        &self.family
    }

    /// Whether every command buffer of `batch` comes from a pool bound to the
    /// family of this queue.
    fn accepts_batch(&self, batch: &QueueSubmission<'_>) -> (accepted: bool)
        ensures
            accepted == batch@.all_of_family(self.family.index),
    {
        let indices = batch.queue_family_indices();
        let mut i: usize = 0;
        while i < indices.len()
            invariant
                i <= indices.len(),
                indices@ == batch@.queue_family_indices,
                forall|j: int| 0 <= j < i ==> indices[j] == self.family.index,
            decreases indices.len() - i,
        {
            if indices[i] != self.family.index {
                return false;
            }
            i += 1;
        }
        true
    }

    /// Whether the queue can take the batches: every command buffer of every
    /// batch comes from a pool bound to the family of this queue.
    pub fn accepts(&self, submits: &[QueueSubmission<'_>]) -> (accepted: bool)
        ensures
            accepted == all_batches_of_family(batch_views(submits@), self.family.index),
    {
        let mut i: usize = 0;
        while i < submits.len()
            invariant
                i <= submits.len(),
                forall|j: int|
                    0 <= j < i ==> (#[trigger] batch_views(submits@)[j]).all_of_family(
                        self.family.index,
                    ),
            decreases submits.len() - i,
        {
            if !self.accepts_batch(&submits[i]) {
                assert(!batch_views(submits@)[i as int].all_of_family(self.family.index));
                return false;
            }
            i += 1;
        }
        true
    }

    /// The submission call for the batches: one submit info for each batch,
    /// in order, holding its wait semaphores with their stage masks, its
    /// command buffers and its signal semaphores, and `fence` or the null
    /// handle. A command buffer is never submitted to a queue of another
    /// family than that of its pool: every command buffer of the batches has
    /// to come from a pool bound to the family of this queue.
    pub fn submit(&mut self, submits: &[QueueSubmission<'_>], fence: Option<u64>) -> (call:
        QueueSubmit)
        requires
            all_batches_of_family(batch_views(submits@), old(self).family.index),
        ensures
            *final(self) == *old(self),
            call.queue == old(self).handle,
            call.fence == match fence {
                Some(fence) => fence,
                None => NULL_HANDLE,
            },
            call.submits.len() == submits.len(),
            forall|i: int|
                0 <= i < submits.len() ==> (#[trigger] call.submits[i])@ == SubmitInfoView::of(
                    submits[i]@,
                ),
            forall|i: int| 0 <= i < submits.len() ==> (#[trigger] submits[i])@.wf(),
    {
        let mut submit_infos: Vec<SubmitInfo> = Vec::new();
        let fence = match fence {
            Some(fence) => fence,
            None => NULL_HANDLE,
        };
        let mut i: usize = 0;
        while i < submits.len()
            invariant
                i <= submits.len(),
                submit_infos.len() == i,
                forall|j: int|
                    0 <= j < i ==> (#[trigger] submit_infos[j])@ == SubmitInfoView::of(
                        submits[j]@,
                    ),
                forall|j: int| 0 <= j < i ==> (#[trigger] submits[j])@.wf(),
            decreases submits.len() - i,
        {
            let submit = &submits[i];
            let submit_info = SubmitInfo {
                wait_semaphores: vstd::slice::slice_to_vec(submit.wait_semaphores()),
                wait_dst_stage_mask: vstd::slice::slice_to_vec(submit.wait_dst_stage_masks()),
                command_buffers: vstd::slice::slice_to_vec(submit.command_buffers()),
                signal_semaphores: vstd::slice::slice_to_vec(submit.signal_semaphores()),
            };
            submit_infos.push(submit_info);
            i += 1;
        }
        QueueSubmit { queue: self.handle, submits: submit_infos, fence }
    }
}

} // verus!
