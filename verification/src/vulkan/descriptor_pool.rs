//! A descriptor pool that holds the one set of a descriptor.

use vstd::prelude::*;

use super::descriptor::Descriptor;
use super::structs::{DescriptorPoolCreateInfo, DescriptorSetAllocateInfo};

verus! {

/// The layouts of the descriptors of a list, in order.
pub open spec fn layouts_of(descriptors: Seq<Descriptor>) -> Seq<u64> {
    descriptors.map_values(|descriptor: Descriptor| descriptor.descriptor_set_layout)
}

/// A descriptor pool that the device created and the sets allocated from it.
#[derive(Clone, Debug, PartialEq, Eq)]
pub struct DescriptorPool {
    pub descriptor_pool: u64,
    pub descriptor_sets: Vec<u64>,
}

impl DescriptorPool {
    /// The pool that the device created under `descriptor_pool`, with the
    /// sets that were allocated from it.
    pub fn new(descriptor_pool: u64, descriptor_sets: Vec<u64>) -> (pool: Self)
        ensures
            pool.descriptor_pool == descriptor_pool,
            pool.descriptor_sets == descriptor_sets,
    {
        DescriptorPool { descriptor_pool, descriptor_sets }
    }

    /// What a pool for one set of `descriptor` is created with: the sizes of
    /// the descriptor and room for one set.
    pub fn create_descriptor_pool(
        descriptor: &Descriptor,
    ) -> (create_info: DescriptorPoolCreateInfo)
        ensures
            create_info.pool_sizes@ == descriptor.descriptor_sizes@,
            create_info.max_sets == 1,
    {
        DescriptorPoolCreateInfo {
            pool_sizes: vstd::slice::slice_to_vec(descriptor.descriptor_sizes.as_slice()),
            max_sets: 1,
        }
    }

    /// What one set for each descriptor of `layouts` is allocated with from
    /// `descriptor_pool`: the pool and the layout of each, in order.
    pub fn create_descriptor_sets(descriptor_pool: u64, layouts: &[Descriptor]) -> (request:
        DescriptorSetAllocateInfo)
        ensures
            request.descriptor_pool == descriptor_pool,
            request.set_layouts@ == layouts_of(layouts@),
    {
        let mut set_layouts: Vec<u64> = Vec::new();
        let mut i: usize = 0;
        while i < layouts.len()
            invariant
                i <= layouts.len(),
                set_layouts@ == layouts_of(layouts@.take(i as int)),
            decreases layouts.len() - i,
        {
            set_layouts.push(layouts[i].descriptor_set_layout);
            i += 1;
        }
        DescriptorSetAllocateInfo { descriptor_pool, set_layouts }
    }
}

} // verus!
