//! Compute pipelines.

use vstd::prelude::*;

verus! {

/// A compiled compute pipeline and the layout its descriptor sets are bound
/// against. It does not change once built.
#[derive(Clone, Copy, Debug, PartialEq, Eq)]
pub struct ComputePipeline {
    pub pipeline: u64,
    pub layout: u64,
}

impl ComputePipeline {
    /// The pipeline that the device built under `pipeline`, with `layout`.
    pub fn new(pipeline: u64, layout: u64) -> (built: Self)
        ensures
            built.pipeline == pipeline,
            built.layout == layout,
    {
        ComputePipeline { pipeline, layout }
    }
}

} // verus!
