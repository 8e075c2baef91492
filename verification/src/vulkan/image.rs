//! Images and the layout that the layer tracks for each.

use vstd::prelude::*;

use super::buffer::Buffer;
use super::command_pool::{
    CommandBuffer, CopyError, ExecutableCommandBuffer, OneTimeCopyError, RecorderView,
};
use super::flags::{
    access_flags_all, ACCESS_ALL, ACCESS_SHADER_READ, ACCESS_TRANSFER_READ, ACCESS_TRANSFER_WRITE,
    BUFFER_USAGE_TRANSFER_SRC, COMMAND_BUFFER_USAGE_ONE_TIME_SUBMIT, FORMAT_R8G8B8A8_SRGB,
    FORMAT_R8G8B8A8_UINT, IMAGE_ASPECT_COLOR, IMAGE_LAYOUT_GENERAL,
    IMAGE_LAYOUT_SHADER_READ_ONLY_OPTIMAL, IMAGE_LAYOUT_TRANSFER_DST_OPTIMAL,
    IMAGE_LAYOUT_TRANSFER_SRC_OPTIMAL, IMAGE_LAYOUT_UNDEFINED, IMAGE_TILING_LINEAR,
    IMAGE_TILING_OPTIMAL, IMAGE_TYPE_2D, IMAGE_USAGE_SAMPLED, IMAGE_USAGE_STORAGE,
    IMAGE_USAGE_TRANSFER_DST, IMAGE_USAGE_TRANSFER_SRC, IMAGE_VIEW_TYPE_2D,
    MEMORY_PROPERTY_DEVICE_LOCAL, MEMORY_PROPERTY_HOST_COHERENT, MEMORY_PROPERTY_HOST_VISIBLE,
    NULL_HANDLE, PIPELINE_STAGE_ALL_COMMANDS, PIPELINE_STAGE_FRAGMENT_SHADER,
    PIPELINE_STAGE_TOP_OF_PIPE, PIPELINE_STAGE_TRANSFER, QUEUE_FAMILY_IGNORED, SAMPLE_COUNT_1,
    SHARING_MODE_EXCLUSIVE,
};
use super::structs::{
    BufferCreateInfo, BufferImageCopy, Extent3D, ImageCopy, ImageCreateInfo, ImageMemoryBarrier,
    ImageSubresourceRange, ImageViewCreateInfo,
};

verus! {

/// A two-dimensional image in device memory, its view if it has one, and the
/// layout that the layer last decided for it.
#[derive(Clone, Copy, Debug, PartialEq, Eq)]
pub struct Image {
    pub handle: u64,
    pub memory: u64,
    pub extent: Extent3D,
    pub layout: i32,
    pub view: u64,
}

/// What an image of one of the layer's kinds is made with: how the image is
/// created, which properties its memory has, and the aspects that its view
/// shows, or `None` for an image without a view.
#[derive(Clone, Copy, Debug, PartialEq, Eq)]
pub struct ImageRequest {
    pub create_info: ImageCreateInfo,
    pub properties: u32,
    pub view_aspect: Option<u32>,
}

/// What a texture is made with: the image, and the buffer that stages its
/// texels for the copy into it, with the properties of that buffer's memory.
#[derive(Clone, Copy, Debug, PartialEq, Eq)]
pub struct TextureRequest {
    pub image: ImageRequest,
    pub staging_buffer: BufferCreateInfo,
    pub staging_properties: u32,
}

/// What a layout transition hands to a pipeline barrier: the source stage
/// mask, the destination stage mask, the dependency flags and the image
/// memory barrier.
pub type LayoutTransition = (u32, u32, u32, ImageMemoryBarrier);

impl Image {
    /// An image in `layout` can be read by a device-side copy.
    pub open spec fn is_copy_source(layout: i32) -> bool {
        layout == IMAGE_LAYOUT_TRANSFER_SRC_OPTIMAL || layout == IMAGE_LAYOUT_GENERAL
    }

    /// An image in `layout` can be written by a device-side copy or clear.
    pub open spec fn is_copy_destination(layout: i32) -> bool {
        layout == IMAGE_LAYOUT_TRANSFER_DST_OPTIMAL || layout == IMAGE_LAYOUT_GENERAL
    }

    /// Whether the image is in a layout that a device-side copy can read.
    pub fn can_be_copied_from(&self) -> (ready: bool)
        ensures
            ready == Self::is_copy_source(self.layout),
    {
        self.layout == IMAGE_LAYOUT_TRANSFER_SRC_OPTIMAL || self.layout == IMAGE_LAYOUT_GENERAL
    }

    /// Whether the image is in a layout that a device-side copy or clear can
    /// write.
    pub fn can_be_copied_to(&self) -> (ready: bool)
        ensures
            ready == Self::is_copy_destination(self.layout),
    {
        self.layout == IMAGE_LAYOUT_TRANSFER_DST_OPTIMAL || self.layout == IMAGE_LAYOUT_GENERAL
    }

    /// The access mask and the pipeline stage that work on an image in
    /// `layout` has to be waited for with, where the layer can leave that
    /// layout.
    pub open spec fn source_scope(layout: i32) -> Option<(u32, u32)> {
        if layout == IMAGE_LAYOUT_UNDEFINED {
            Some((0u32, PIPELINE_STAGE_TOP_OF_PIPE))
        } else if layout == IMAGE_LAYOUT_TRANSFER_DST_OPTIMAL {
            Some((ACCESS_TRANSFER_WRITE, PIPELINE_STAGE_TRANSFER))
        } else if layout == IMAGE_LAYOUT_GENERAL {
            Some((ACCESS_ALL, PIPELINE_STAGE_ALL_COMMANDS))
        } else {
            None
        }
    }

    /// The access mask and the pipeline stage that work on an image in
    /// `layout` is made to wait with, where the layer can enter that layout.
    pub open spec fn destination_scope(layout: i32) -> Option<(u32, u32)> {
        if layout == IMAGE_LAYOUT_TRANSFER_DST_OPTIMAL {
            Some((ACCESS_TRANSFER_WRITE, PIPELINE_STAGE_TRANSFER))
        } else if layout == IMAGE_LAYOUT_SHADER_READ_ONLY_OPTIMAL {
            Some((ACCESS_SHADER_READ, PIPELINE_STAGE_FRAGMENT_SHADER))
        } else if layout == IMAGE_LAYOUT_GENERAL {
            Some((ACCESS_ALL, PIPELINE_STAGE_ALL_COMMANDS))
        } else if layout == IMAGE_LAYOUT_TRANSFER_SRC_OPTIMAL {
            Some((ACCESS_TRANSFER_READ, PIPELINE_STAGE_TRANSFER))
        } else {
            None
        }
    }

    /// The layer knows how to take an image from `old_layout` to
    /// `new_layout`: they are the same, or the table holds both.
    pub open spec fn supports_transition(old_layout: i32, new_layout: i32) -> bool {
        old_layout == new_layout || (Self::source_scope(old_layout) is Some
            && Self::destination_scope(new_layout) is Some)
    }

    /// The barrier that changes nothing: no access, layout undefined on both
    /// sides, family index zero, no image.
    pub open spec fn empty_barrier() -> ImageMemoryBarrier {
        ImageMemoryBarrier {
            src_access_mask: 0,
            dst_access_mask: 0,
            old_layout: IMAGE_LAYOUT_UNDEFINED,
            new_layout: IMAGE_LAYOUT_UNDEFINED,
            src_queue_family_index: 0,
            dst_queue_family_index: 0,
            image: NULL_HANDLE,
            subresource_range: ImageSubresourceRange {
                aspect_mask: 0,
                base_mip_level: 0,
                level_count: 0,
                base_array_layer: 0,
                layer_count: 0,
            },
        }
    }

    /// What a transition of the image `handle` from `old_layout` to
    /// `new_layout` hands to a pipeline barrier. Between equal layouts it is
    /// empty. Otherwise the barrier covers the first mip level and array
    /// layer of the colour aspect and moves no queue family ownership.
    pub open spec fn transition(handle: u64, old_layout: i32, new_layout: i32) -> LayoutTransition
        recommends
            Self::supports_transition(old_layout, new_layout),
    {
        if old_layout == new_layout {
            (0u32, 0u32, 0u32, Self::empty_barrier())
        } else {
            let (src_access_mask, src_stage_mask) = Self::source_scope(old_layout).unwrap();
            let (dst_access_mask, dst_stage_mask) = Self::destination_scope(new_layout).unwrap();
            (
                src_stage_mask,
                dst_stage_mask,
                0u32,
                ImageMemoryBarrier {
                    src_access_mask,
                    dst_access_mask,
                    old_layout,
                    new_layout,
                    src_queue_family_index: QUEUE_FAMILY_IGNORED,
                    dst_queue_family_index: QUEUE_FAMILY_IGNORED,
                    image: handle,
                    subresource_range: ImageSubresourceRange {
                        aspect_mask: IMAGE_ASPECT_COLOR,
                        base_mip_level: 0,
                        level_count: 1,
                        base_array_layer: 0,
                        layer_count: 1,
                    },
                },
            )
        }
    }

    /// How a two-dimensional image of `width` by `height` texels is created:
    /// one deep, with one mip level, one array layer and one sample, in the
    /// undefined layout, owned by one queue family at a time.
    pub open spec fn creation(
        width: u32,
        height: u32,
        format: i32,
        tiling: i32,
        usage: u32,
    ) -> ImageCreateInfo {
        ImageCreateInfo {
            image_type: IMAGE_TYPE_2D,
            extent: Extent3D { width, height, depth: 1 },
            mip_levels: 1,
            array_layers: 1,
            format,
            tiling,
            initial_layout: IMAGE_LAYOUT_UNDEFINED,
            usage,
            samples: SAMPLE_COUNT_1,
            sharing_mode: SHARING_MODE_EXCLUSIVE,
        }
    }

    /// How a two-dimensional image of `width` by `height` texels is created.
    pub fn create_image(
        width: u32,
        height: u32,
        format: i32,
        tiling: i32,
        usage: u32,
    ) -> (create_info:
        ImageCreateInfo)
        ensures
            create_info == Self::creation(width, height, format, tiling, usage),
    {
        ImageCreateInfo {
            image_type: IMAGE_TYPE_2D,
            extent: Extent3D { width, height, depth: 1 },
            mip_levels: 1,
            array_layers: 1,
            format,
            tiling,
            initial_layout: IMAGE_LAYOUT_UNDEFINED,
            usage,
            samples: SAMPLE_COUNT_1,
            sharing_mode: SHARING_MODE_EXCLUSIVE,
        }
    }

    /// How the two-dimensional view of `image` is created: it shows the
    /// first mip level and array layer of the aspects `aspect_flags`.
    pub fn create_image_view(image: u64, format: i32, aspect_flags: u32) -> (create_info:
        ImageViewCreateInfo)
        ensures
            create_info == (ImageViewCreateInfo {
                image,
                view_type: IMAGE_VIEW_TYPE_2D,
                format,
                subresource_range: ImageSubresourceRange {
                    aspect_mask: aspect_flags,
                    base_mip_level: 0,
                    level_count: 1,
                    base_array_layer: 0,
                    layer_count: 1,
                },
            }),
    {
        ImageViewCreateInfo {
            image,
            view_type: IMAGE_VIEW_TYPE_2D,
            format,
            subresource_range: ImageSubresourceRange {
                aspect_mask: aspect_flags,
                base_mip_level: 0,
                level_count: 1,
                base_array_layer: 0,
                layer_count: 1,
            },
        }
    }

    /// What a storage image is made with: four 8-bit unsigned channels,
    /// optimal tiling, for storage and as a transfer source, in device-local
    /// memory, with a colour view.
    pub fn new_storage(width: u32, height: u32) -> (request: ImageRequest)
        ensures
            request == (ImageRequest {
                create_info: Self::creation(
                    width,
                    height,
                    FORMAT_R8G8B8A8_UINT,
                    IMAGE_TILING_OPTIMAL,
                    IMAGE_USAGE_STORAGE | IMAGE_USAGE_TRANSFER_SRC,
                ),
                properties: MEMORY_PROPERTY_DEVICE_LOCAL,
                view_aspect: Some(IMAGE_ASPECT_COLOR),
            }),
    {
        ImageRequest {
            create_info: Self::create_image(
                width,
                height,
                FORMAT_R8G8B8A8_UINT,
                IMAGE_TILING_OPTIMAL,
                IMAGE_USAGE_STORAGE | IMAGE_USAGE_TRANSFER_SRC,
            ),
            properties: MEMORY_PROPERTY_DEVICE_LOCAL,
            view_aspect: Some(IMAGE_ASPECT_COLOR),
        }
    }

    /// What a staging image of `format` is made with: linear tiling, as a
    /// transfer source and destination, in memory that the host sees
    /// coherently, without a view.
    pub fn new_staging(width: u32, height: u32, format: i32) -> (request: ImageRequest)
        ensures
            request == (ImageRequest {
                create_info: Self::creation(
                    width,
                    height,
                    format,
                    IMAGE_TILING_LINEAR,
                    IMAGE_USAGE_TRANSFER_SRC | IMAGE_USAGE_TRANSFER_DST,
                ),
                properties: MEMORY_PROPERTY_HOST_VISIBLE | MEMORY_PROPERTY_HOST_COHERENT,
                view_aspect: None,
            }),
    {
        ImageRequest {
            create_info: Self::create_image(
                width,
                height,
                format,
                IMAGE_TILING_LINEAR,
                IMAGE_USAGE_TRANSFER_SRC | IMAGE_USAGE_TRANSFER_DST,
            ),
            properties: MEMORY_PROPERTY_HOST_VISIBLE | MEMORY_PROPERTY_HOST_COHERENT,
            view_aspect: None,
        }
    }

    /// What a texture of `width` by `height` texels of four bytes is made
    /// with: an sRGB image with optimal tiling, sampled and a transfer
    /// destination, in device-local memory, with a colour view; and a staging
    /// buffer of four bytes for each texel, a transfer source in memory that
    /// the host sees coherently. The size of the texels has to fit in 32
    /// bits.
    pub fn new_texture(width: u32, height: u32) -> (request: TextureRequest)
        requires
            width * height * 4 <= u32::MAX,
        ensures
            request == (TextureRequest {
                image: ImageRequest {
                    create_info: Self::creation(
                        width,
                        height,
                        FORMAT_R8G8B8A8_SRGB,
                        IMAGE_TILING_OPTIMAL,
                        IMAGE_USAGE_TRANSFER_DST | IMAGE_USAGE_SAMPLED,
                    ),
                    properties: MEMORY_PROPERTY_DEVICE_LOCAL,
                    view_aspect: Some(IMAGE_ASPECT_COLOR),
                },
                staging_buffer: BufferCreateInfo {
                    size: (width * height * 4) as u64,
                    usage: BUFFER_USAGE_TRANSFER_SRC,
                    sharing_mode: SHARING_MODE_EXCLUSIVE,
                },
                staging_properties: MEMORY_PROPERTY_HOST_VISIBLE | MEMORY_PROPERTY_HOST_COHERENT,
            }),
    {
        assert(width * height <= u32::MAX) by (nonlinear_arith)
            requires
                width * height * 4 <= u32::MAX,
        ;
        let size = width * height * 4;
        TextureRequest {
            image: ImageRequest {
                create_info: Self::create_image(
                    width,
                    height,
                    FORMAT_R8G8B8A8_SRGB,
                    IMAGE_TILING_OPTIMAL,
                    IMAGE_USAGE_TRANSFER_DST | IMAGE_USAGE_SAMPLED,
                ),
                properties: MEMORY_PROPERTY_DEVICE_LOCAL,
                view_aspect: Some(IMAGE_ASPECT_COLOR),
            },
            staging_buffer: BufferCreateInfo {
                size: size as u64,
                usage: BUFFER_USAGE_TRANSFER_SRC,
                sharing_mode: SHARING_MODE_EXCLUSIVE,
            },
            staging_properties: MEMORY_PROPERTY_HOST_VISIBLE | MEMORY_PROPERTY_HOST_COHERENT,
        }
    }

    /// The image that the device created under `handle`, bound to `memory`,
    /// `width` by `height` texels and one deep, with `view` as its view (the
    /// null handle where it has none). Its layout is undefined.
    pub fn new(handle: u64, memory: u64, view: u64, width: u32, height: u32) -> (image: Self)
        ensures
            image == (Image {
                handle,
                memory,
                extent: Extent3D { width, height, depth: 1 },
                layout: IMAGE_LAYOUT_UNDEFINED,
                view,
            }),
    {
        Image {
            handle,
            memory,
            extent: Extent3D { width, height, depth: 1 },
            layout: IMAGE_LAYOUT_UNDEFINED,
            view,
        }
    }

    /// The access mask and pipeline stage for leaving `layout`, if the table
    /// holds it.
    fn leave(layout: i32) -> (scope: Option<(u32, u32)>)
        ensures
            scope == Self::source_scope(layout),
    {
        if layout == IMAGE_LAYOUT_UNDEFINED {
            Some((0, PIPELINE_STAGE_TOP_OF_PIPE))
        } else if layout == IMAGE_LAYOUT_TRANSFER_DST_OPTIMAL {
            Some((ACCESS_TRANSFER_WRITE, PIPELINE_STAGE_TRANSFER))
        } else if layout == IMAGE_LAYOUT_GENERAL {
            Some((access_flags_all(), PIPELINE_STAGE_ALL_COMMANDS))
        } else {
            None
        }
    }

    /// The access mask and pipeline stage for entering `layout`, if the table
    /// holds it.
    fn enter(layout: i32) -> (scope: Option<(u32, u32)>)
        ensures
            scope == Self::destination_scope(layout),
    {
        if layout == IMAGE_LAYOUT_TRANSFER_DST_OPTIMAL {
            Some((ACCESS_TRANSFER_WRITE, PIPELINE_STAGE_TRANSFER))
        } else if layout == IMAGE_LAYOUT_SHADER_READ_ONLY_OPTIMAL {
            Some((ACCESS_SHADER_READ, PIPELINE_STAGE_FRAGMENT_SHADER))
        } else if layout == IMAGE_LAYOUT_GENERAL {
            Some((access_flags_all(), PIPELINE_STAGE_ALL_COMMANDS))
        } else if layout == IMAGE_LAYOUT_TRANSFER_SRC_OPTIMAL {
            Some((ACCESS_TRANSFER_READ, PIPELINE_STAGE_TRANSFER))
        } else {
            None
        }
    }

    /// Whether `transition_layout` can take the image to `new_layout`.
    pub fn can_transition(&self, new_layout: i32) -> (supported: bool)
        ensures
            supported == Self::supports_transition(self.layout, new_layout),
    {
        self.layout == new_layout || (Self::leave(self.layout).is_some() && Self::enter(
            new_layout,
        ).is_some())
    }

    /// Decides the transition of the image to `new_layout` and hands back
    /// what a pipeline barrier needs to carry it out: source stage mask,
    /// destination stage mask, dependency flags and image memory barrier.
    /// The tracked layout is `new_layout` from this call on, whether or not
    /// the barrier has been submitted. Where the image is in `new_layout`
    /// already, nothing changes and what comes back is empty.
    pub fn transition_layout(&mut self, new_layout: i32) -> (barrier: LayoutTransition)
        requires
            Self::supports_transition(old(self).layout, new_layout),
        ensures
            *final(self) == (Image { layout: new_layout, ..*old(self) }),
            barrier == Self::transition(old(self).handle, old(self).layout, new_layout),
    {
        if self.layout == new_layout {
            return (
                0,
                0,
                0,
                ImageMemoryBarrier {
                    src_access_mask: 0,
                    dst_access_mask: 0,
                    old_layout: IMAGE_LAYOUT_UNDEFINED,
                    new_layout: IMAGE_LAYOUT_UNDEFINED,
                    src_queue_family_index: 0,
                    dst_queue_family_index: 0,
                    image: NULL_HANDLE,
                    subresource_range: ImageSubresourceRange {
                        aspect_mask: 0,
                        base_mip_level: 0,
                        level_count: 0,
                        base_array_layer: 0,
                        layer_count: 0,
                    },
                },
            );
        }
        let subresource_range = ImageSubresourceRange {
            aspect_mask: IMAGE_ASPECT_COLOR,
            base_mip_level: 0,
            level_count: 1,
            base_array_layer: 0,
            layer_count: 1,
        };
        let (src_access_mask, src_stage_mask) = Self::leave(self.layout).unwrap();
        let (dst_access_mask, dst_stage_mask) = Self::enter(new_layout).unwrap();
        let barrier = ImageMemoryBarrier {
            src_access_mask,
            dst_access_mask,
            old_layout: self.layout,
            new_layout,
            src_queue_family_index: QUEUE_FAMILY_IGNORED,
            dst_queue_family_index: QUEUE_FAMILY_IGNORED,
            image: self.handle,
            subresource_range,
        };
        self.layout = new_layout;
        (src_stage_mask, dst_stage_mask, 0, barrier)
    }

    /// Records the copy of `regions` from this image to `dst_buffer` as a unit of work
    /// of its own into `scratch`: the begin of a recording that is submitted
    /// once, the copy, the end. What comes back is ready to be submitted and
    /// waited for. Refused with `OneTimeCopyError::Unsupported` if the queue
    /// family of the scratch buffer's pool carries no transfers, else with
    /// the refusal of the copy itself.
    pub fn copy_to_buffer(
        &self,
        dst_buffer: &mut Buffer,
        regions: &[BufferImageCopy],
        scratch: CommandBuffer,
    ) -> (done: Result<ExecutableCommandBuffer, OneTimeCopyError>)
        ensures
            *final(dst_buffer) == *old(dst_buffer),
            match done {
                Ok(buffer) => {
                    &&& scratch@.pool.queue_family.can_transfer()
                    &&& RecorderView::one_time(scratch@).copy_image_to_buffer(
                        *self,
                        *old(dst_buffer),
                        regions@,
                    )
                        matches Ok(recorded) && buffer@ == recorded.ended()
                    &&& buffer@.within_capabilities()
                },
                Err(OneTimeCopyError::Unsupported) => !scratch@.pool.queue_family.can_transfer(),
                Err(OneTimeCopyError::Copy(error)) => {
                    &&& scratch@.pool.queue_family.can_transfer()
                    &&& RecorderView::one_time(scratch@).copy_image_to_buffer(
                        *self,
                        *old(dst_buffer),
                        regions@,
                    )
                        == Err::<RecorderView, CopyError>(error)
                },
            },
    {
        let mut recorder = scratch.begin(COMMAND_BUFFER_USAGE_ONE_TIME_SUBMIT);
        let refusal = match recorder.as_transfer_command_buffer() {
            Err(_) => Some(OneTimeCopyError::Unsupported),
            Ok(mut transfer) => {
                let mut copy = transfer.as_copy();
                match copy.copy_image_to_buffer(self, dst_buffer, regions) {
                    Ok(_) => None,
                    Err(error) => Some(OneTimeCopyError::Copy(error)),
                }
            },
        };
        match refusal {
            Some(error) => Err(error),
            None => Ok(recorder.end()),
        }
    }

    /// Records the copy of `regions` from this image to `dst_image` as a unit of work
    /// of its own into `scratch`: the begin of a recording that is submitted
    /// once, the copy, the end. What comes back is ready to be submitted and
    /// waited for. Refused with `OneTimeCopyError::Unsupported` if the queue
    /// family of the scratch buffer's pool carries no transfers, else with
    /// the refusal of the copy itself.
    pub fn copy_to_image(
        &self,
        dst_image: &Image,
        regions: &[ImageCopy],
        scratch: CommandBuffer,
    ) -> (done: Result<ExecutableCommandBuffer, OneTimeCopyError>)
        ensures
            match done {
                Ok(buffer) => {
                    &&& scratch@.pool.queue_family.can_transfer()
                    &&& RecorderView::one_time(scratch@).copy_image(*self, *dst_image, regions@)
                        matches Ok(recorded) && buffer@ == recorded.ended()
                    &&& buffer@.within_capabilities()
                },
                Err(OneTimeCopyError::Unsupported) => !scratch@.pool.queue_family.can_transfer(),
                Err(OneTimeCopyError::Copy(error)) => {
                    &&& scratch@.pool.queue_family.can_transfer()
                    &&& RecorderView::one_time(scratch@).copy_image(*self, *dst_image, regions@)
                        == Err::<RecorderView, CopyError>(error)
                },
            },
    {
        let mut recorder = scratch.begin(COMMAND_BUFFER_USAGE_ONE_TIME_SUBMIT);
        let refusal = match recorder.as_transfer_command_buffer() {
            Err(_) => Some(OneTimeCopyError::Unsupported),
            Ok(mut transfer) => {
                let mut copy = transfer.as_copy();
                match copy.copy_image(self, dst_image, regions) {
                    Ok(_) => None,
                    Err(error) => Some(OneTimeCopyError::Copy(error)),
                }
            },
        };
        match refusal {
            Some(error) => Err(error),
            None => Ok(recorder.end()),
        }
    }

    /// Right after a transition to a layout the image is in that layout, and
    /// asking for the same layout again changes nothing and yields the empty
    /// barrier.
    pub proof fn transition_reaches_layout_and_repeats_empty(self, new_layout: i32)
        requires
            Self::supports_transition(self.layout, new_layout),
        ensures
            ({
                let after = Image { layout: new_layout, ..self };
                &&& after.layout == new_layout
                &&& Self::supports_transition(after.layout, new_layout)
                &&& Self::transition(after.handle, after.layout, new_layout) == (
                    0u32,
                    0u32,
                    0u32,
                    Self::empty_barrier(),
                )
                &&& (Image { layout: new_layout, ..after }) == after
            }),
    {
    }
}

} // verus!
