//! Searches over what a physical device reports.

use vstd::prelude::*;

use crate::vulkan::flags::{contains, memory_property_contains, queue_flags_contains, QUEUE_COMPUTE};
use crate::vulkan::queue::{QueueFamily, QueueFamilyProperties};
use crate::vulkan::structs::{MemoryAllocateInfo, MemoryRequirements};

verus! {

/// The queue family chosen for each kind of work, where one was found.
#[derive(Clone, Copy, Debug, PartialEq, Eq)]
pub struct QueueFamilyIndices {
    pub graphics_family: Option<u32>,
    pub compute_family: Option<u32>,
    pub present_family: Option<u32>,
}

impl Default for QueueFamilyIndices {
    fn default() -> (indices: Self)
        ensures
            indices.graphics_family is None,
            indices.compute_family is None,
            indices.present_family is None,
    {
        QueueFamilyIndices { graphics_family: None, compute_family: None, present_family: None }
    }
}

impl QueueFamilyIndices {
    /// Whether every family that the layer cannot do without was found: the
    /// compute family.
    pub fn is_complete(&self) -> (complete: bool)
        ensures
            complete == self.compute_family.is_some(),
    {
        self.compute_family.is_some()
    }
}

/// The family advertises compute work.
pub open spec fn advertises_compute(family: QueueFamilyProperties) -> bool {
    contains(family.queue_flags, QUEUE_COMPUTE)
}

/// The place of the first family of the list that advertises compute work,
/// if there is one.
pub open spec fn first_compute_family(queue_families: Seq<QueueFamilyProperties>) -> Option<int>
    decreases queue_families.len(),
{
    if queue_families.len() == 0 {
        None
    } else {
        match first_compute_family(queue_families.drop_last()) {
            Some(i) => Some(i),
            None => if advertises_compute(queue_families.last()) {
                Some(queue_families.len() - 1)
            } else {
                None
            },
        }
    }
}

/// Where `first_compute_family` finds a family, it advertises compute work
/// and no family before it does; where it finds none, none does.
pub proof fn first_compute_family_is_first(queue_families: Seq<QueueFamilyProperties>)
    ensures
        match first_compute_family(queue_families) {
            Some(i) => {
                &&& 0 <= i < queue_families.len()
                &&& advertises_compute(queue_families[i])
                &&& forall|j: int| 0 <= j < i ==> !advertises_compute(#[trigger] queue_families[j])
            },
            None => forall|j: int|
                0 <= j < queue_families.len() ==> !advertises_compute(#[trigger] queue_families[j]),
        },
    decreases queue_families.len(),
{
    if queue_families.len() > 0 {
        let earlier = queue_families.drop_last();
        first_compute_family_is_first(earlier);
        assert forall|j: int| 0 <= j < earlier.len() implies earlier[j] == queue_families[j] by {}
    }
}

/// Picks the queue families that the layer works with out of those that a
/// physical device reports: the first that advertises compute work becomes
/// the compute family, its place cut to 32 bits. No graphics or present
/// family is picked.
pub fn find_queue_families(queue_families: &[QueueFamilyProperties]) -> (indices:
    QueueFamilyIndices)
    ensures
        indices.graphics_family is None,
        indices.present_family is None,
        indices.compute_family == match first_compute_family(queue_families@) {
            Some(i) => Some(i as u32),
            None => None,
        },
{
    let mut queue_family_indices = QueueFamilyIndices {
        graphics_family: None,
        compute_family: None,
        present_family: None,
    };
    let mut i: usize = 0;
    while i < queue_families.len()
        invariant
            i <= queue_families.len(),
            queue_family_indices.graphics_family is None,
            queue_family_indices.present_family is None,
            queue_family_indices.compute_family == match first_compute_family(
                queue_families@.take(i as int),
            ) {
                Some(i) => Some(i as u32),
                None => None,
            },
            queue_family_indices.compute_family is None ==> first_compute_family(
                queue_families@.take(i as int),
            ) is None,
        decreases queue_families.len() - i,
    {
        proof {
            assert(queue_families@.take(i + 1).drop_last() =~= queue_families@.take(i as int));
            first_compute_family_is_first(queue_families@.take(i as int));
        }
        if queue_flags_contains(queue_families[i].queue_flags, QUEUE_COMPUTE)
            && queue_family_indices.compute_family.is_none() {
            queue_family_indices.compute_family = Some(#[verifier::truncate] (i as u32));
        }
        i += 1;
    }
    assert(queue_families@.take(i as int) =~= queue_families@);
    queue_family_indices
}

/// The places `picked` name entries of `queue_families` in rising order, and
/// `chosen` holds the index of each of those families, in that order.
pub open spec fn chosen_in_order<T>(
    chosen: Seq<(usize, T)>,
    queue_families: Seq<QueueFamily>,
    picked: Seq<int>,
) -> bool {
    &&& picked.len() == chosen.len()
    &&& forall|k: int|
        0 <= k < picked.len() ==> 0 <= #[trigger] picked[k] < queue_families.len() && chosen[k].0
            == queue_families[picked[k]].index
    &&& forall|k: int, l: int| 0 <= k < l < picked.len() ==> picked[k] < picked[l]
}

/// `queue_finder` gave `answer` for `family` when shown `shown`.
pub open spec fn answer_for<T, F: FnMut(QueueFamily, &[(usize, T)]) -> Option<T>>(
    queue_finder: F,
    family: QueueFamily,
    shown: Seq<(usize, T)>,
    answer: Option<T>,
) -> bool {
    exists|so_far: &[(usize, T)]|
        so_far@ == shown && #[trigger] call_ensures(queue_finder, (family, so_far), answer)
}

/// `queue_finder` answered `None` for `family`, whatever it was shown.
pub open spec fn refused<T, F: FnMut(QueueFamily, &[(usize, T)]) -> Option<T>>(
    queue_finder: F,
    family: QueueFamily,
) -> bool {
    exists|so_far: &[(usize, T)]| #[trigger]
        call_ensures(queue_finder, (family, so_far), None::<T>)
}

/// Every entry of `chosen` holds what `queue_finder` answered for its family
/// when shown the entries before it, and for every family before `upto` that
/// was not chosen the finder answered `None` for something it was shown.
pub open spec fn answered_by<T, F: FnMut(QueueFamily, &[(usize, T)]) -> Option<T>>(
    queue_finder: F,
    chosen: Seq<(usize, T)>,
    queue_families: Seq<QueueFamily>,
    picked: Seq<int>,
    upto: int,
) -> bool {
    &&& forall|k: int|
        0 <= k < picked.len() ==> answer_for(
            queue_finder,
            queue_families[#[trigger] picked[k]],
            chosen.take(k),
            Some(chosen[k].1),
        )
    &&& forall|j: int|
        0 <= j < upto && !picked.contains(j) ==> refused(queue_finder, #[trigger] queue_families[j])
}

/// Asks `queue_finder` about each queue family in order, showing it what was
/// chosen so far, and keeps for each family that it answers for the family's
/// index with the answer. The families that were chosen come out in the
/// order of the list, each at most once.
pub fn find_queue_families2<T, F: FnMut(QueueFamily, &[(usize, T)]) -> Option<T>>(
    queue_finder: F,
    queue_families: &[QueueFamily],
) -> (chosen: Vec<(usize, T)>)
    requires
        forall|family: QueueFamily, so_far: &[(usize, T)]|
            call_requires(queue_finder, (family, so_far)),
    ensures
        chosen.len() <= queue_families.len(),
        exists|picked: Seq<int>|
            chosen_in_order(chosen@, queue_families@, picked) && answered_by(
                queue_finder,
                chosen@,
                queue_families@,
                picked,
                queue_families.len() as int,
            ),
{
    let ghost finder = queue_finder;
    let mut queue_finder = queue_finder;
    let mut queue_family_infos: Vec<(usize, T)> = Vec::new();
    let ghost mut picked: Seq<int> = Seq::empty();
    let mut i: usize = 0;
    while i < queue_families.len()
        invariant
            i <= queue_families.len(),
            queue_family_infos.len() <= i,
            queue_finder == finder,
            chosen_in_order(queue_family_infos@, queue_families@, picked),
            answered_by(finder, queue_family_infos@, queue_families@, picked, i as int),
            forall|k: int| 0 <= k < picked.len() ==> picked[k] < i,
            forall|family: QueueFamily, so_far: &[(usize, T)]|
                call_requires(queue_finder, (family, so_far)),
        decreases queue_families.len() - i,
    {
        let queue_family = queue_families[i];
        let index = queue_family.index();
        let ghost shown = queue_family_infos@;
        let ghost earlier = picked;
        let answer = queue_finder(queue_family, queue_family_infos.as_slice());
        if let Some(queue_create_info) = answer {
            queue_family_infos.push((index, queue_create_info));
            proof {
                picked = picked.push(i as int);
                assert forall|k: int| 0 <= k < picked.len() implies answer_for(
                    finder,
                    queue_families@[#[trigger] picked[k]],
                    queue_family_infos@.take(k),
                    Some(queue_family_infos@[k].1),
                ) by {
                    if k < earlier.len() {
                        assert(queue_family_infos@.take(k) =~= shown.take(k));
                    } else {
                        assert(queue_family_infos@.take(k) =~= shown);
                    }
                }
                assert forall|j: int| 0 <= j < i + 1 && !picked.contains(j) implies refused(
                    finder,
                    #[trigger] queue_families@[j],
                ) by {
                    assert(picked[picked.len() - 1] == i);
                    if earlier.contains(j) {
                        let k = choose|k: int| 0 <= k < earlier.len() && earlier[k] == j;
                        assert(picked[k] == j);
                    }
                }
            }
        }
        i += 1;
    }
    queue_family_infos
}

/// The memory type `index` passes `type_filter` and has every property of
/// `properties`.
pub open spec fn suits(
    memory_types: Seq<u32>,
    type_filter: u32,
    properties: u32,
    index: int,
) -> bool
    recommends
        0 <= index < memory_types.len() <= 32,
{
    type_filter & (1u32 << (index as u32)) != 0 && contains(memory_types[index], properties)
}

/// The first memory type that passes `type_filter` and has every property of
/// `properties`, where `memory_types` holds the property flags of each
/// memory type of the device; `None` if no type will do. A device has at
/// most 32 memory types.
pub fn find_memory_type(type_filter: u32, properties: u32, memory_types: &[u32]) -> (found: Option<
    u32,
>)
    requires
        memory_types.len() <= 32,
    ensures
        match found {
            Some(index) => {
                &&& index < memory_types.len()
                &&& suits(memory_types@, type_filter, properties, index as int)
                &&& forall|j: int|
                    0 <= j < index ==> !suits(memory_types@, type_filter, properties, j)
            },
            None => forall|j: int|
                0 <= j < memory_types.len() ==> !suits(memory_types@, type_filter, properties, j),
        },
{
    let mut i: u32 = 0;
    while (i as usize) < memory_types.len()
        invariant
            i <= memory_types.len() <= 32,
            forall|j: int| 0 <= j < i ==> !suits(memory_types@, type_filter, properties, j),
        decreases memory_types.len() - i,
    {
        if (type_filter & (1u32 << i) != 0) && memory_property_contains(
            memory_types[i as usize],
            properties,
        ) {
            return Some(i);
        }
        i += 1;
    }
    None
}

/// What the memory behind a buffer or an image is allocated with: as many
/// bytes as the device requires, from the first memory type that the device
/// allows for it and that has every property of `properties`. `None` if no
/// memory type will do.
pub fn memory_allocation(
    requirements: &MemoryRequirements,
    properties: u32,
    memory_types: &[u32],
) -> (allocation: Option<MemoryAllocateInfo>)
    requires
        memory_types.len() <= 32,
    ensures
        match allocation {
            Some(info) => {
                &&& info.allocation_size == requirements.size
                &&& info.memory_type_index < memory_types.len()
                &&& suits(
                    memory_types@,
                    requirements.memory_type_bits,
                    properties,
                    info.memory_type_index as int,
                )
                &&& forall|j: int|
                    0 <= j < info.memory_type_index ==> !suits(
                        memory_types@,
                        requirements.memory_type_bits,
                        properties,
                        j,
                    )
            },
            None => forall|j: int|
                0 <= j < memory_types.len() ==> !suits(
                    memory_types@,
                    requirements.memory_type_bits,
                    properties,
                    j,
                ),
        },
{
    match find_memory_type(requirements.memory_type_bits, properties, memory_types) {
        Some(memory_type_index) => Some(
            MemoryAllocateInfo { allocation_size: requirements.size, memory_type_index },
        ),
        None => None,
    }
}

} // verus!
