//! Descriptor set layouts and descriptor pools, each built piece by piece.

use std::marker::PhantomData;

use vstd::prelude::*;

use super::structs::{
    DescriptorPoolCreateInfo, DescriptorPoolSize, DescriptorSetAllocateInfo,
    DescriptorSetLayoutBinding, DescriptorSetLayoutBindingView,
};

verus! {

/// The values of a list of bindings, in order.
pub open spec fn binding_views(bindings: Seq<DescriptorSetLayoutBinding>) -> Seq<
    DescriptorSetLayoutBindingView,
> {
    bindings.map_values(|binding: DescriptorSetLayoutBinding| binding@)
}

/// The samplers of a binding: those given, or none.
pub open spec fn samplers_of(immutable_samplers: Option<&[u64]>) -> Seq<u64> {
    match immutable_samplers {
        Some(samplers) => samplers@,
        None => Seq::empty(),
    }
}

/// Collects the bindings of a descriptor set layout. Each binding gets the
/// number of bindings before it as its binding number. It borrows the
/// immutable samplers it is given for as long as it lives.
pub struct DescriptorSetLayoutBuilder<'a> {
    layout_bindings: Vec<DescriptorSetLayoutBinding>,
    phantom: PhantomData<&'a ()>,
}

impl<'a> View for DescriptorSetLayoutBuilder<'a> {
    type V = Seq<DescriptorSetLayoutBindingView>;

    closed spec fn view(&self) -> Seq<DescriptorSetLayoutBindingView> {
        binding_views(self.layout_bindings@)
    }
}

impl<'a> DescriptorSetLayoutBuilder<'a> {
    pub fn new() -> (builder: Self)
        ensures
            builder@ == Seq::<DescriptorSetLayoutBindingView>::empty(),
    {
        let builder = DescriptorSetLayoutBuilder {
            layout_bindings: Vec::new(),
            phantom: PhantomData,
        };
        builder
    }

    /// Adds a binding for `descriptor_count` resources of `descriptor_type`,
    /// seen by the stages `stage_flags`. Its binding number is the number of
    /// bindings added before it, cut to 32 bits. A binding holds at least one
    /// descriptor.
    pub fn with_binding(
        self,
        descriptor_type: i32,
        descriptor_count: u32,
        stage_flags: u32,
        immutable_samplers: Option<&'a [u64]>,
    ) -> (builder: Self)
        requires
            descriptor_count != 0,
        ensures
            builder@ == self@.push(
                DescriptorSetLayoutBindingView {
                    binding: self@.len() as u32,
                    descriptor_type,
                    descriptor_count,
                    stage_flags,
                    immutable_samplers: samplers_of(immutable_samplers),
                },
            ),
    {
        let mut builder = self;
        let layout_binding = DescriptorSetLayoutBinding {
            binding: #[verifier::truncate] (builder.layout_bindings.len() as u32),
            descriptor_type,
            descriptor_count,
            stage_flags,
            immutable_samplers: match immutable_samplers {
                Some(samplers) => vstd::slice::slice_to_vec(samplers),
                None => Vec::new(),
            },
        };
        builder.layout_bindings.push(layout_binding);
        builder
    }

    /// The bindings to create the layout with, in the order they were added.
    pub fn build(self) -> (bindings: Vec<DescriptorSetLayoutBinding>)
        ensures
            binding_views(bindings@) == self@,
    {
        self.layout_bindings
    }
}

impl<'a> Default for DescriptorSetLayoutBuilder<'a> {
    fn default() -> (builder: Self)
        ensures
            builder@ == Seq::<DescriptorSetLayoutBindingView>::empty(),
    {
        Self::new()
    }
}

/// A descriptor set layout that the device created.
#[derive(Clone, Copy, Debug, PartialEq, Eq)]
pub struct DescriptorSetLayout {
    pub descriptor_set_layout: u64,
}

impl DescriptorSetLayout {
    /// The layout that the device created under `descriptor_set_layout`.
    pub fn new(descriptor_set_layout: u64) -> (layout: Self)
        ensures
            layout.descriptor_set_layout == descriptor_set_layout,
    {
        DescriptorSetLayout { descriptor_set_layout }
    }

    /// What `descriptor_set_count` sets of this layout are allocated with
    /// from `descriptor_pool`: the pool and the layout once for each set.
    pub fn allocate_descriptor_sets(
        &self,
        descriptor_set_count: u32,
        descriptor_pool: &DescriptorPool,
    ) -> (request: DescriptorSetAllocateInfo)
        ensures
            request.descriptor_pool == descriptor_pool.descriptor_pool,
            request.set_layouts@ == Seq::new(
                descriptor_set_count as nat,
                |i: int| self.descriptor_set_layout,
            ),
    {
        let mut layouts: Vec<u64> = Vec::new();
        let mut i: u32 = 0;
        while i < descriptor_set_count
            invariant
                i <= descriptor_set_count,
                layouts@ == Seq::new(i as nat, |j: int| self.descriptor_set_layout),
            decreases descriptor_set_count - i,
        {
            layouts.push(self.descriptor_set_layout);
            i += 1;
        }
        DescriptorSetAllocateInfo {
            descriptor_pool: descriptor_pool.descriptor_pool,
            set_layouts: layouts,
        }
    }
}

/// Collects the sizes of a descriptor pool.
pub struct DescriptorPoolBuilder {
    pool_sizes: Vec<DescriptorPoolSize>,
}

impl View for DescriptorPoolBuilder {
    type V = Seq<DescriptorPoolSize>;

    closed spec fn view(&self) -> Seq<DescriptorPoolSize> {
        self.pool_sizes@
    }
}

impl DescriptorPoolBuilder {
    pub fn new() -> (builder: Self)
        ensures
            builder@ == Seq::<DescriptorPoolSize>::empty(),
    {
        DescriptorPoolBuilder { pool_sizes: Vec::new() }
    }

    /// Adds room for `descriptor_count` descriptors of `descriptor_type`.
    pub fn with(self, descriptor_type: i32, descriptor_count: u32) -> (builder: Self)
        ensures
            builder@ == self@.push(DescriptorPoolSize { ty: descriptor_type, descriptor_count }),
    {
        let mut builder = self;
        builder.pool_sizes.push(DescriptorPoolSize { ty: descriptor_type, descriptor_count });
        builder
    }

    /// What the pool is created with: the sizes in the order they were added
    /// and room for `max_sets` sets.
    pub fn build(self, max_sets: u32) -> (create_info: DescriptorPoolCreateInfo)
        ensures
            create_info.pool_sizes@ == self@,
            create_info.max_sets == max_sets,
    {
        DescriptorPoolCreateInfo { pool_sizes: self.pool_sizes, max_sets }
    }
}

impl Default for DescriptorPoolBuilder {
    fn default() -> (builder: Self)
        ensures
            builder@ == Seq::<DescriptorPoolSize>::empty(),
    {
        Self::new()
    }
}

/// A descriptor pool that the device created.
#[derive(Clone, Copy, Debug, PartialEq, Eq)]
pub struct DescriptorPool {
    pub descriptor_pool: u64,
}

impl DescriptorPool {
    /// The pool that the device created under `descriptor_pool`.
    pub fn new(descriptor_pool: u64) -> (pool: Self)
        ensures
            pool.descriptor_pool == descriptor_pool,
    {
        DescriptorPool { descriptor_pool }
    }
}

} // verus!
