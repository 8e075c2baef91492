//! A descriptor set layout together with the pool sizes that one set of it
//! needs.

use std::marker::PhantomData;

use vstd::prelude::*;

use super::descriptors::{binding_views, samplers_of};
use super::structs::{
    DescriptorPoolSize, DescriptorSetLayoutBinding, DescriptorSetLayoutBindingView,
};

verus! {

/// The pool sizes that one set of a layout with these bindings needs: for
/// each binding, in order, one descriptor of its type.
pub open spec fn sizes_for(
    bindings: Seq<DescriptorSetLayoutBindingView>,
) -> Seq<DescriptorPoolSize> {
    bindings.map_values(
        |binding: DescriptorSetLayoutBindingView|
            DescriptorPoolSize { ty: binding.descriptor_type, descriptor_count: 1 },
    )
}

/// A descriptor set layout that the device created, and the pool sizes that
/// one set of it needs.
#[derive(Clone, Debug, PartialEq, Eq)]
pub struct Descriptor {
    pub descriptor_set_layout: u64,
    pub descriptor_sizes: Vec<DescriptorPoolSize>,
}

impl Descriptor {
    /// The layout that the device created under `descriptor_set_layout` from
    /// `bindings`, with one descriptor of each binding's type as its sizes.
    pub fn new(bindings: &[DescriptorSetLayoutBinding], descriptor_set_layout: u64) -> (descriptor:
        Self)
        ensures
            descriptor.descriptor_set_layout == descriptor_set_layout,
            descriptor.descriptor_sizes@ == sizes_for(binding_views(bindings@)),
    {
        let mut descriptor_sizes: Vec<DescriptorPoolSize> = Vec::new();
        let mut i: usize = 0;
        while i < bindings.len()
            invariant
                i <= bindings.len(),
                descriptor_sizes@ == sizes_for(binding_views(bindings@.take(i as int))),
            decreases bindings.len() - i,
        {
            descriptor_sizes.push(
                DescriptorPoolSize { ty: bindings[i].descriptor_type, descriptor_count: 1 },
            );
            i += 1;
        }
        Descriptor { descriptor_set_layout, descriptor_sizes }
    }
}

/// Collects the bindings of a descriptor, numbering them from 0 on. It
/// borrows the immutable samplers it is given for as long as it lives.
pub struct DescriptorBuilder<'a> {
    current_binding: u32,
    bindings: Vec<DescriptorSetLayoutBinding>,
    phantom: PhantomData<&'a ()>,
}

impl<'a> View for DescriptorBuilder<'a> {
    type V = Seq<DescriptorSetLayoutBindingView>;

    closed spec fn view(&self) -> Seq<DescriptorSetLayoutBindingView> {
        binding_views(self.bindings@)
    }
}

impl<'a> DescriptorBuilder<'a> {
    /// The binding number that the next binding gets.
    pub closed spec fn next_binding(&self) -> u32 {
        self.current_binding
    }

    pub fn new() -> (builder: Self)
        ensures
            builder@ == Seq::<DescriptorSetLayoutBindingView>::empty(),
            builder.next_binding() == 0,
    {
        let builder = DescriptorBuilder {
            current_binding: 0,
            bindings: Vec::new(),
            phantom: PhantomData,
        };
        builder
    }

    /// Adds a binding for `count` resources of `descriptor_type`, seen by the
    /// stages `stage_flags`, under the next binding number. The binding
    /// numbers have to fit in 32 bits.
    pub fn with_binding(
        self,
        descriptor_type: i32,
        count: u32,
        stage_flags: u32,
        immutable_samplers: Option<&'a [u64]>,
    ) -> (builder: Self)
        requires
            self.next_binding() < u32::MAX,
        ensures
            builder@ == self@.push(
                DescriptorSetLayoutBindingView {
                    binding: self.next_binding(),
                    descriptor_type,
                    descriptor_count: count,
                    stage_flags,
                    immutable_samplers: samplers_of(immutable_samplers),
                },
            ),
            builder.next_binding() == self.next_binding() + 1,
    {
        let mut builder = self;
        let layout_binding = DescriptorSetLayoutBinding {
            binding: builder.current_binding,
            descriptor_type,
            descriptor_count: count,
            stage_flags,
            immutable_samplers: match immutable_samplers {
                Some(samplers) => vstd::slice::slice_to_vec(samplers),
                None => Vec::new(),
            },
        };
        builder.bindings.push(layout_binding);
        builder.current_binding += 1;
        builder
    }

    /// The bindings to create the layout with, in the order they were added.
    pub fn build(self) -> (bindings: Vec<DescriptorSetLayoutBinding>)
        ensures
            binding_views(bindings@) == self@,
    {
        self.bindings
    }
}

} // verus!
