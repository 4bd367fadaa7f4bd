//! The experimental typed recording interface: `u32` views only, with the
//! compactor, sorter and reducer always available.

mod sealed;

use vstd::prelude::*;

pub use crate::pipeline::{
    ConsumerExtent, CountPlanCache, Extent, GpuCount, GpuSlice, GpuSliceMut, Primitives,
};

verus! {

/// Element types the experimental views accept.
pub trait GpuElement: sealed::Sealed {
    spec fn size_spec() -> u64;

    /// Bytes of one element.
    fn size_bytes() -> (r: u64)
        ensures
            r == Self::size_spec();
}

impl GpuElement for u32 {
    open spec fn size_spec() -> u64 {
        4
    }

    fn size_bytes() -> (r: u64) {
        4
    }
}

/// Radix-sort options: the number of significant low key bits.
#[derive(Clone, Copy, Debug, PartialEq, Eq, Structural)]
pub struct SortOptions {
    pub key_bits: u32,
}

impl SortOptions {
    /// Sorts the full 32-bit key width.
    pub fn full_width() -> (r: SortOptions)
        ensures
            r.key_bits == 32,
    {
        SortOptions { key_bits: 32 }
    }

    /// Declares the number of significant low key bits.
    pub fn key_bits(self, key_bits: u32) -> (r: SortOptions)
        ensures
            r.key_bits == key_bits,
    {
        SortOptions { key_bits }
    }
}

impl Default for SortOptions {
    fn default() -> (r: SortOptions)
        ensures
            r.key_bits == 32,
    {
        SortOptions::full_width()
    }
}

/// The capacity-dependent workspaces to reserve before recording.
#[derive(Clone, Copy, Debug, PartialEq, Eq, Structural)]
pub struct WorkspaceRequirements {
    pub capacity: u32,
    pub compact: bool,
    pub fixed_sort: bool,
    pub counted_sort: bool,
    pub fixed_reduce: bool,
    pub counted_reduce: bool,
}

impl WorkspaceRequirements {
    /// A request for at most `capacity` elements with nothing selected.
    pub fn new(capacity: u32) -> (r: WorkspaceRequirements)
        ensures
            r == (WorkspaceRequirements {
                capacity,
                compact: false,
                fixed_sort: false,
                counted_sort: false,
                fixed_reduce: false,
                counted_reduce: false,
            }),
    {
        WorkspaceRequirements {
            capacity,
            compact: false,
            fixed_sort: false,
            counted_sort: false,
            fixed_reduce: false,
            counted_reduce: false,
        }
    }

    /// Also reserves stream compaction.
    pub fn compact(self) -> (r: WorkspaceRequirements)
        ensures
            r == (WorkspaceRequirements { compact: true, ..self }),
    {
        WorkspaceRequirements { compact: true, ..self }
    }

    /// Also reserves the fixed-length sort.
    pub fn fixed_sort(self) -> (r: WorkspaceRequirements)
        ensures
            r == (WorkspaceRequirements { fixed_sort: true, ..self }),
    {
        WorkspaceRequirements { fixed_sort: true, ..self }
    }

    /// Also reserves the GPU-counted sort.
    pub fn counted_sort(self) -> (r: WorkspaceRequirements)
        ensures
            r == (WorkspaceRequirements { counted_sort: true, ..self }),
    {
        WorkspaceRequirements { counted_sort: true, ..self }
    }

    /// Also reserves the fixed-length reduction.
    pub fn fixed_reduce(self) -> (r: WorkspaceRequirements)
        ensures
            r == (WorkspaceRequirements { fixed_reduce: true, ..self }),
    {
        WorkspaceRequirements { fixed_reduce: true, ..self }
    }

    /// Also reserves the GPU-counted reduction.
    pub fn counted_reduce(self) -> (r: WorkspaceRequirements)
        ensures
            r == (WorkspaceRequirements { counted_reduce: true, ..self }),
    {
        WorkspaceRequirements { counted_reduce: true, ..self }
    }

    /// The same selection in the full recording interface's terms.
    pub fn to_pipeline(self) -> (r: crate::pipeline::WorkspaceRequirements)
        ensures
            r == (crate::pipeline::WorkspaceRequirements {
                capacity: self.capacity,
                predicate: false,
                compact: self.compact,
                compact_key_values: false,
                fixed_sort: self.fixed_sort,
                counted_sort: self.counted_sort,
                fixed_key_value_sort: false,
                counted_key_value_sort: false,
                fixed_reduce: self.fixed_reduce,
                counted_reduce: self.counted_reduce,
                run_length_encode: false,
            }),
    {
        crate::pipeline::WorkspaceRequirements {
            capacity: self.capacity,
            predicate: false,
            compact: self.compact,
            compact_key_values: false,
            fixed_sort: self.fixed_sort,
            counted_sort: self.counted_sort,
            fixed_key_value_sort: false,
            counted_key_value_sort: false,
            fixed_reduce: self.fixed_reduce,
            counted_reduce: self.counted_reduce,
            run_length_encode: false,
        }
    }
}

} // verus!
