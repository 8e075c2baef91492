//! Buffers in device memory.

use vstd::prelude::*;

use super::byte_copiable::{read_back_is_what_was_written, ByteCopiable};
use super::command_pool::{
    CommandBuffer, CopyError, ExecutableCommandBuffer, OneTimeCopyError, RecorderView,
};
use super::flags::{
    buffer_usage_contains, contains, memory_property_contains, BUFFER_USAGE_INDEX_BUFFER,
    BUFFER_USAGE_INDIRECT_BUFFER, BUFFER_USAGE_TRANSFER_DST, BUFFER_USAGE_TRANSFER_SRC,
    BUFFER_USAGE_VERTEX_BUFFER, COMMAND_BUFFER_USAGE_ONE_TIME_SUBMIT,
    MEMORY_PROPERTY_HOST_VISIBLE, SHARING_MODE_EXCLUSIVE,
};
use super::image::Image;
use super::structs::{BufferCopy, BufferCreateInfo, BufferImageCopy};

verus! {

/// A region of device memory of a fixed size, what it may be used for and
/// what kind of memory holds it.
#[derive(Clone, Copy, Debug, PartialEq, Eq)]
pub struct Buffer {
    pub handle: u64,
    pub usage: u32,
    pub memory: u64,
    pub size: u64,
    pub properties: u32,
}

/// A range of a buffer's memory that the host maps to write or read it: the
/// memory, where the range starts and how many bytes it spans.
#[derive(Clone, Copy, Debug, PartialEq, Eq)]
pub struct MappedRange {
    pub memory: u64,
    pub offset: u64,
    pub size: u64,
}

/// What the host writes into a buffer: the bytes, and the range of the
/// buffer's memory to map for them.
#[derive(Clone, Debug, PartialEq, Eq)]
pub struct HostWrite {
    pub range: MappedRange,
    pub bytes: Vec<u8>,
}

impl Buffer {
    /// The buffer may be bound as a vertex buffer.
    pub open spec fn is_vertex_buffer(&self) -> bool {
        contains(self.usage, BUFFER_USAGE_VERTEX_BUFFER)
    }

    /// The buffer may be bound as an index buffer.
    pub open spec fn is_index_buffer(&self) -> bool {
        contains(self.usage, BUFFER_USAGE_INDEX_BUFFER)
    }

    /// The buffer may be the source of an indirect draw or dispatch.
    pub open spec fn is_indirect_buffer(&self) -> bool {
        contains(self.usage, BUFFER_USAGE_INDIRECT_BUFFER)
    }

    /// The buffer may be the source of a device-side copy.
    pub open spec fn is_transfer_source(&self) -> bool {
        contains(self.usage, BUFFER_USAGE_TRANSFER_SRC)
    }

    /// The buffer may be the destination of a device-side copy, fill or
    /// update.
    pub open spec fn is_transfer_destination(&self) -> bool {
        contains(self.usage, BUFFER_USAGE_TRANSFER_DST)
    }

    /// The host can map the buffer's memory.
    pub open spec fn is_host_visible(&self) -> bool {
        contains(self.properties, MEMORY_PROPERTY_HOST_VISIBLE)
    }

    /// The buffer of `size` bytes that the device created under `handle` for
    /// `usage` and bound to `memory`, which has the given `properties`.
    pub fn new(size: u64, usage: u32, properties: u32, handle: u64, memory: u64) -> (buffer: Self)
        ensures
            buffer == (Buffer { handle, usage, memory, size, properties }),
    {
        Buffer { handle, usage, memory, size, properties }
    }

    /// What a buffer of `size` bytes for `usage` is created with: it belongs to
    /// one queue family at a time.
    pub fn create_buffer(size: u64, usage: u32) -> (create_info: BufferCreateInfo)
        ensures
            create_info == (BufferCreateInfo { size, usage, sharing_mode: SHARING_MODE_EXCLUSIVE }),
    {
        BufferCreateInfo { size, usage, sharing_mode: SHARING_MODE_EXCLUSIVE }
    }

    pub(crate) fn vertex_usage(&self) -> (allowed: bool)
        ensures
            allowed == self.is_vertex_buffer(),
    {
        buffer_usage_contains(self.usage, BUFFER_USAGE_VERTEX_BUFFER)
    }

    pub(crate) fn index_usage(&self) -> (allowed: bool)
        ensures
            allowed == self.is_index_buffer(),
    {
        buffer_usage_contains(self.usage, BUFFER_USAGE_INDEX_BUFFER)
    }

    pub(crate) fn indirect_usage(&self) -> (allowed: bool)
        ensures
            allowed == self.is_indirect_buffer(),
    {
        buffer_usage_contains(self.usage, BUFFER_USAGE_INDIRECT_BUFFER)
    }

    pub(crate) fn transfer_source_usage(&self) -> (allowed: bool)
        ensures
            allowed == self.is_transfer_source(),
    {
        buffer_usage_contains(self.usage, BUFFER_USAGE_TRANSFER_SRC)
    }

    pub(crate) fn transfer_destination_usage(&self) -> (allowed: bool)
        ensures
            allowed == self.is_transfer_destination(),
    {
        buffer_usage_contains(self.usage, BUFFER_USAGE_TRANSFER_DST)
    }

    /// Whether the host can map the buffer's memory, and so write and read
    /// the buffer.
    pub fn host_visible(&self) -> (visible: bool)
        ensures
            visible == self.is_host_visible(),
    {
        memory_property_contains(self.properties, MEMORY_PROPERTY_HOST_VISIBLE)
    }

    /// The range that the host maps to write or read `size` bytes of the
    /// buffer from `offset` on. The buffer's memory has to be host-visible.
    pub fn mapped_range(&self, size: usize, offset: usize) -> (range: MappedRange)
        requires
            self.is_host_visible(),
        ensures
            range == (MappedRange {
                memory: self.memory,
                offset: offset as u64,
                size: size as u64,
            }),
    {
        MappedRange { memory: self.memory, offset: offset as u64, size: size as u64 }
    }

    /// What the host writes to put `data` into the buffer at `offset`: the
    /// bytes of the value, and the range to map for them. The buffer's memory
    /// has to be host-visible.
    pub fn copy_data<T: ByteCopiable>(&mut self, data: &T, offset: usize) -> (write: HostWrite)
        requires
            old(self).is_host_visible(),
        ensures
            *final(self) == *old(self),
            write.bytes@ == data.bytes(),
            write.range == (MappedRange {
                memory: old(self).memory,
                offset: offset as u64,
                size: T::size() as u64,
            }),
    {
        proof {
            data.bytes_are_faithful(data);
        }
        let bytes = data.to_bytes();
        HostWrite { range: self.mapped_range(bytes.len(), offset), bytes }
    }

    /// The range that the host maps to read a value like `data` out of the
    /// buffer at `offset`. The buffer's memory has to be host-visible.
    pub fn read_range<T: ByteCopiable>(&self, data: &T, offset: usize) -> (range: MappedRange)
        requires
            self.is_host_visible(),
        ensures
            range == (MappedRange {
                memory: self.memory,
                offset: offset as u64,
                size: T::size() as u64,
            }),
    {
        proof {
            data.bytes_are_faithful(data);
        }
        self.mapped_range(data.to_bytes().len(), offset)
    }

    /// Reads `data` out of `mapped`, the bytes that the host found in the
    /// range mapped for it. Where they are not the bytes of a value of the
    /// type, `data` stays as it is and the answer is `false`. The buffer's
    /// memory has to be host-visible.
    pub fn get_data<T: ByteCopiable>(&self, data: &mut T, mapped: &[u8]) -> (read: bool)
        requires
            self.is_host_visible(),
        ensures
            read == T::represents(mapped@),
            read ==> final(data).bytes() == mapped@,
            !read ==> *final(data) == *old(data),
    {
        match T::from_bytes(mapped) {
            Some(value) => {
                *data = value;
                true
            },
            None => false,
        }
    }

    /// Writing a value and reading back the bytes that were written yields
    /// the value: the bytes that `copy_data` hands to the host are bytes that
    /// `get_data` reads, and what it reads from them is what was written.
    pub proof fn round_trip<T: ByteCopiable>(written: T, read: T)
        requires
            read.bytes() == written.bytes(),
        ensures
            T::represents(written.bytes()),
            read == written,
    {
        read_back_is_what_was_written(written, read);
    }

    /// Records the copy of `regions` from this buffer to `dst_buffer` as a unit of work
    /// of its own into `scratch`: the begin of a recording that is submitted
    /// once, the copy, the end. What comes back is ready to be submitted and
    /// waited for. Refused with `OneTimeCopyError::Unsupported` if the queue
    /// family of the scratch buffer's pool carries no transfers, else with
    /// the refusal of the copy itself.
    pub fn copy_to_buffer(
        &self,
        dst_buffer: &Buffer,
        regions: &[BufferCopy],
        scratch: CommandBuffer,
    ) -> (done: Result<ExecutableCommandBuffer, OneTimeCopyError>)
        ensures
            match done {
                Ok(buffer) => {
                    &&& scratch@.pool.queue_family.can_transfer()
                    &&& RecorderView::one_time(scratch@).copy_buffer(*self, *dst_buffer, regions@)
                        matches Ok(recorded) && buffer@ == recorded.ended()
                    &&& buffer@.within_capabilities()
                },
                Err(OneTimeCopyError::Unsupported) => !scratch@.pool.queue_family.can_transfer(),
                Err(OneTimeCopyError::Copy(error)) => {
                    &&& scratch@.pool.queue_family.can_transfer()
                    &&& RecorderView::one_time(scratch@).copy_buffer(*self, *dst_buffer, regions@)
                        == Err::<RecorderView, CopyError>(error)
                },
            },
    {
        let mut recorder = scratch.begin(COMMAND_BUFFER_USAGE_ONE_TIME_SUBMIT);
        let refusal = match recorder.as_transfer_command_buffer() {
            Err(_) => Some(OneTimeCopyError::Unsupported),
            Ok(mut transfer) => {
                let mut copy = transfer.as_copy();
                match copy.copy_buffer(self, dst_buffer, regions) {
                    Ok(_) => None,
                    Err(error) => Some(OneTimeCopyError::Copy(error)),
                }
            },
        };
        match refusal {
            Some(error) => Err(error),
            None => Ok(recorder.end()),
        }
    }

    /// Records the copy of `regions` from this buffer to `dst_image` as a unit of work
    /// of its own into `scratch`: the begin of a recording that is submitted
    /// once, the copy, the end. What comes back is ready to be submitted and
    /// waited for. Refused with `OneTimeCopyError::Unsupported` if the queue
    /// family of the scratch buffer's pool carries no transfers, else with
    /// the refusal of the copy itself.
    pub fn copy_to_image(
        &self,
        dst_image: &mut Image,
        regions: &[BufferImageCopy],
        scratch: CommandBuffer,
    ) -> (done: Result<ExecutableCommandBuffer, OneTimeCopyError>)
        ensures
            *final(dst_image) == *old(dst_image),
            match done {
                Ok(buffer) => {
                    &&& scratch@.pool.queue_family.can_transfer()
                    &&& RecorderView::one_time(scratch@).copy_buffer_to_image(
                        *self,
                        *old(dst_image),
                        regions@,
                    )
                        matches Ok(recorded) && buffer@ == recorded.ended()
                    &&& buffer@.within_capabilities()
                },
                Err(OneTimeCopyError::Unsupported) => !scratch@.pool.queue_family.can_transfer(),
                Err(OneTimeCopyError::Copy(error)) => {
                    &&& scratch@.pool.queue_family.can_transfer()
                    &&& RecorderView::one_time(scratch@).copy_buffer_to_image(
                        *self,
                        *old(dst_image),
                        regions@,
                    )
                        == Err::<RecorderView, CopyError>(error)
                },
            },
    {
        let mut recorder = scratch.begin(COMMAND_BUFFER_USAGE_ONE_TIME_SUBMIT);
        let refusal = match recorder.as_transfer_command_buffer() {
            Err(_) => Some(OneTimeCopyError::Unsupported),
            Ok(mut transfer) => {
                let mut copy = transfer.as_copy();
                match copy.copy_buffer_to_image(self, dst_image, regions) {
                    Ok(_) => None,
                    Err(error) => Some(OneTimeCopyError::Copy(error)),
                }
            },
        };
        match refusal {
            Some(error) => Err(error),
            None => Ok(recorder.end()),
        }
    }
}

} // verus!
