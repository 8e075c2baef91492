//! The queue families of a device, and how a physical device is chosen.

use vstd::prelude::*;

use super::flags::PHYSICAL_DEVICE_TYPE_DISCRETE_GPU;
use super::queue::{QueueFamily, QueueFamilyProperties};
use crate::utils::QueueFamilyIndices;

verus! {

/// What the choice of a physical device looks at.
#[derive(Clone, Copy, Debug, PartialEq, Eq)]
pub struct PhysicalDeviceTraits {
    pub device_type: i32,
    pub max_image_dimension_2d: u32,
    /// Whether the device has geometry shaders, as the API's 32-bit boolean.
    pub geometry_shader: u32,
    /// Whether shaders can write storage images without a format, as the
    /// API's 32-bit boolean.
    pub shader_storage_image_write_without_format: u32,
}

/// A place among the queues that a device hands out: a queue family and the
/// number of the queue in it.
#[derive(Clone, Copy, Debug, PartialEq, Eq)]
pub struct QueueSlot {
    pub queue_family_index: usize,
    pub queue_index: usize,
}

/// A logical device: the physical device behind it and its queue families,
/// each at the place of its index.
pub struct Device {
    physical_device: u64,
    queue_families: Vec<QueueFamily>,
}

/// The value of a [`Device`].
pub struct DeviceView {
    pub physical_device: u64,
    pub queue_families: Seq<QueueFamily>,
}

impl View for Device {
    type V = DeviceView;

    closed spec fn view(&self) -> DeviceView {
        DeviceView {
            physical_device: self.physical_device,
            queue_families: self.queue_families@,
        }
    }
}

/// The score of a device: 0 if the compute family is missing or the device
/// lacks geometry shaders or storage image writes without format; otherwise
/// its largest two-dimensional image size, and 1000 more for a discrete GPU.
pub open spec fn suitability(indices: QueueFamilyIndices, traits: PhysicalDeviceTraits) -> int {
    if indices.compute_family is None || traits.geometry_shader == 0
        || traits.shader_storage_image_write_without_format == 0 {
        0
    } else if traits.device_type == PHYSICAL_DEVICE_TYPE_DISCRETE_GPU {
        1000 + traits.max_image_dimension_2d
    } else {
        traits.max_image_dimension_2d as int
    }
}

/// The device at `index` is the one to pick: its score is above 0, no score
/// is higher, and no device after it has the same score.
pub open spec fn is_best(scores: Seq<u32>, index: int) -> bool {
    &&& 0 <= index < scores.len()
    &&& scores[index] > 0
    &&& forall|j: int| 0 <= j < scores.len() ==> scores[j] <= scores[index]
    &&& forall|j: int| index < j < scores.len() ==> scores[j] < scores[index]
}

impl Device {
    /// The device on `physical_device` whose queue families the physical
    /// device reports as `properties`, in that order.
    pub fn new(physical_device: u64, properties: &[QueueFamilyProperties]) -> (device: Self)
        ensures
            device@.physical_device == physical_device,
            device@.queue_families.len() == properties.len(),
            forall|i: int|
                0 <= i < properties.len() ==> #[trigger] device@.queue_families[i] == (QueueFamily {
                    property: properties[i],
                    index: i as usize,
                    physical_device,
                }),
    {
        let mut queue_families: Vec<QueueFamily> = Vec::new();
        let mut index: usize = 0;
        while index < properties.len()
            invariant
                index <= properties.len(),
                queue_families.len() == index,
                forall|i: int|
                    0 <= i < index ==> #[trigger] queue_families[i] == (QueueFamily {
                        property: properties[i],
                        index: i as usize,
                        physical_device,
                    }),
            decreases properties.len() - index,
        {
            queue_families.push(
                QueueFamily { property: properties[index], index, physical_device },
            );
            index += 1;
        }
        Device { physical_device, queue_families }
    }

    pub fn physical_device(&self) -> (physical_device: u64)
        ensures
            physical_device == self@.physical_device,
    {
        self.physical_device
    }

    pub fn queue_family_count(&self) -> (count: usize)
        ensures
            count == self@.queue_families.len(),
    {
        self.queue_families.len()
    }

    /// The queue family at `index`, which has to be one of the device's.
    pub fn get_queue_families(&self, index: usize) -> (family: &QueueFamily)
        requires
            index < self@.queue_families.len(),
        ensures
            *family == self@.queue_families[index as int],
    {
        &self.queue_families[index]
    }

    /// The place of the physical device to pick, given the score of each: the
    /// one with the highest score above 0, and of several with that score
    /// the last. `None` if no score is above 0.
    pub fn pick_physical_device(scores: &[u32]) -> (picked: Option<usize>)
        ensures
            match picked {
                Some(index) => is_best(scores@, index as int),
                None => forall|j: int| 0 <= j < scores.len() ==> scores[j] == 0,
            },
    {
        let mut picked: Option<usize> = None;
        let mut best: u32 = 0;
        let mut i: usize = 0;
        while i < scores.len()
            invariant
                i <= scores.len(),
                match picked {
                    Some(index) => is_best(scores@.take(i as int), index as int) && best
                        == scores[index as int],
                    None => best == 0 && forall|j: int| 0 <= j < i ==> scores[j] == 0,
                },
            decreases scores.len() - i,
        {
            let score = scores[i];
            if score > 0 && score >= best {
                picked = Some(i);
                best = score;
            }
            i += 1;
        }
        assert(scores@.take(i as int) =~= scores@);
        picked
    }

    /// Whether the score of a device with these traits fits in 32 bits, so
    /// that the device can be rated.
    pub fn can_rate(indices: &QueueFamilyIndices, traits: &PhysicalDeviceTraits) -> (fits: bool)
        ensures
            fits == (indices.compute_family is Some && traits.device_type
                == PHYSICAL_DEVICE_TYPE_DISCRETE_GPU ==> traits.max_image_dimension_2d <= u32::MAX
                - 1000),
    {
        !(indices.is_complete() && traits.device_type == PHYSICAL_DEVICE_TYPE_DISCRETE_GPU)
            || traits.max_image_dimension_2d <= u32::MAX - 1000
    }

    /// Rates a physical device by the queue families found on it and by its
    /// traits. The sum has to fit in 32 bits.
    pub fn rate_device_suitability(
        indices: &QueueFamilyIndices,
        traits: &PhysicalDeviceTraits,
    ) -> (score:
        u32)
        requires
            indices.compute_family is Some && traits.device_type
                == PHYSICAL_DEVICE_TYPE_DISCRETE_GPU ==> traits.max_image_dimension_2d <= u32::MAX
                - 1000,
        ensures
            score == suitability(*indices, *traits),
    {
        if !indices.is_complete() {
            return 0;
        }
        let mut score: u32 = 0;
        if traits.device_type == PHYSICAL_DEVICE_TYPE_DISCRETE_GPU {
            score += 1000;
        }
        score += traits.max_image_dimension_2d;
        if traits.geometry_shader == 0 {
            return 0;
        }
        if traits.shader_storage_image_write_without_format == 0 {
            return 0;
        }
        score
    }

    /// The queues to fetch from the device, one group for each entry of
    /// `queue_counts` in order: an entry names a queue family and how many
    /// queues were created in it, and its group holds the slots of those
    /// queues from number 0 on.
    pub fn queue_slots(queue_counts: &[(usize, usize)]) -> (groups: Vec<Vec<QueueSlot>>)
        ensures
            groups.len() == queue_counts.len(),
            forall|g: int|
                0 <= g < queue_counts.len() ==> (#[trigger] groups[g]).len() == queue_counts[g].1,
            forall|g: int, q: int|
                0 <= g < queue_counts.len() && 0 <= q < queue_counts[g].1
                    ==> #[trigger] groups[g][q]
                    == (QueueSlot {
                    queue_family_index: queue_counts[g].0,
                    queue_index: q as usize,
                }),
    {
        let mut groups: Vec<Vec<QueueSlot>> = Vec::new();
        let mut g: usize = 0;
        while g < queue_counts.len()
            invariant
                g <= queue_counts.len(),
                groups.len() == g,
                forall|h: int| 0 <= h < g ==> (#[trigger] groups[h]).len() == queue_counts[h].1,
                forall|h: int, q: int|
                    0 <= h < g && 0 <= q < queue_counts[h].1 ==> #[trigger] groups[h][q]
                        == (QueueSlot {
                        queue_family_index: queue_counts[h].0,
                        queue_index: q as usize,
                    }),
            decreases queue_counts.len() - g,
        {
            let (queue_family_index, len) = queue_counts[g];
            let mut queues: Vec<QueueSlot> = Vec::new();
            let mut queue_index: usize = 0;
            while queue_index < len
                invariant
                    queue_index <= len,
                    queues.len() == queue_index,
                    forall|q: int|
                        0 <= q < queue_index ==> #[trigger] queues[q] == (QueueSlot {
                            queue_family_index,
                            queue_index: q as usize,
                        }),
                decreases len - queue_index,
            {
                queues.push(QueueSlot { queue_family_index, queue_index });
                queue_index += 1;
            }
            groups.push(queues);
            g += 1;
        }
        groups
    }
}

} // verus!
