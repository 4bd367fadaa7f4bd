use vstd::prelude::*;

use crate::common::buffers::{DeviceLimits, GpuBuffer};
use crate::error::Error;
use crate::scan::pipeline::{scratch_size_spec, ScanConfig};

use super::core_plan::{compact_error, compact_plan_spec, CompactCommands, CompactCore};
use super::pipeline::CompactItemKind;

verus! {

/// Stable compaction of `u32` values selected by a `0`/`1` mask.
pub struct Compactor {
    pub core: CompactCore,
}

/// Stable compaction of key-value records selected by a `0`/`1` mask.
pub struct KeyValueCompactor {
    pub core: CompactCore,
}

impl Compactor {
    pub open spec fn wf(&self) -> bool {
        self.core.wf() && self.core.item_size_bytes == 4
    }

    pub fn new(limits: DeviceLimits, scan: ScanConfig) -> (r: Compactor)
        requires
            scan.wf(),
            limits.max_compute_workgroups_per_dimension > 0,
        ensures
            r.wf(),
            r.core.limits == limits,
    {
        Compactor { core: CompactCore::new(CompactItemKind::Value, limits, scan) }
    }

    /// Validates and plans a compaction; see [`CompactCore::record_compact`].
    pub fn record_compact(
        &mut self,
        input: GpuBuffer,
        mask: GpuBuffer,
        output: GpuBuffer,
        output_count: GpuBuffer,
        num_items: u32,
    ) -> (r: Result<CompactCommands, Error>)
        requires
            old(self).wf(),
        ensures
            final(self).wf(),
            match compact_error(input, mask, output, output_count, num_items, 4, old(self).core.limits) {
                Some(e) => r == Err::<CompactCommands, Error>(e),
                None => r is Ok,
            },
            compact_plan_spec(r, num_items, old(self).core, final(self).core),
    {
        self.core.record_compact(input, mask, output, output_count, num_items)
    }

    pub fn reserve(&mut self, capacity: u32) -> (r: Result<(), Error>)
        requires
            old(self).wf(),
        ensures
            final(self).wf(),
            final(self).core.limits == old(self).core.limits,
            capacity == 0 ==> r is Ok && *final(self) == *old(self),
            capacity > 0 && capacity * 4 > old(self).core.limits.max_buffer_size ==> r == Err::<(), Error>(
                Error::BufferLimitExceeded { requested: (capacity * 4) as u64, limit: old(self).core.limits.max_buffer_size },
            ) && *final(self) == *old(self),
            capacity > 0 && capacity * 4 <= old(self).core.limits.max_buffer_size ==> r is Ok
                && final(self).core.offsets.capacity_bytes >= capacity * 4
                && final(self).core.scanner.scratch_size_bytes >= scratch_size_spec(capacity as nat, old(self).core.scanner.per()),
    {
        self.core.reserve(capacity)
    }
}

impl KeyValueCompactor {
    pub open spec fn wf(&self) -> bool {
        self.core.wf() && self.core.item_size_bytes == 8
    }

    pub fn new(limits: DeviceLimits, scan: ScanConfig) -> (r: KeyValueCompactor)
        requires
            scan.wf(),
            limits.max_compute_workgroups_per_dimension > 0,
        ensures
            r.wf(),
            r.core.limits == limits,
    {
        KeyValueCompactor { core: CompactCore::new(CompactItemKind::KeyValue, limits, scan) }
    }

    /// Validates and plans a compaction; see [`CompactCore::record_compact`].
    pub fn record_compact(
        &mut self,
        input: GpuBuffer,
        mask: GpuBuffer,
        output: GpuBuffer,
        output_count: GpuBuffer,
        num_items: u32,
    ) -> (r: Result<CompactCommands, Error>)
        requires
            old(self).wf(),
        ensures
            final(self).wf(),
            match compact_error(input, mask, output, output_count, num_items, 8, old(self).core.limits) {
                Some(e) => r == Err::<CompactCommands, Error>(e),
                None => r is Ok,
            },
            compact_plan_spec(r, num_items, old(self).core, final(self).core),
    {
        self.core.record_compact(input, mask, output, output_count, num_items)
    }

    pub fn reserve(&mut self, capacity: u32) -> (r: Result<(), Error>)
        requires
            old(self).wf(),
        ensures
            final(self).wf(),
            final(self).core.limits == old(self).core.limits,
            capacity == 0 ==> r is Ok && *final(self) == *old(self),
            capacity > 0 && capacity * 4 > old(self).core.limits.max_buffer_size ==> r == Err::<(), Error>(
                Error::BufferLimitExceeded { requested: (capacity * 4) as u64, limit: old(self).core.limits.max_buffer_size },
            ) && *final(self) == *old(self),
            capacity > 0 && capacity * 4 <= old(self).core.limits.max_buffer_size ==> r is Ok
                && final(self).core.offsets.capacity_bytes >= capacity * 4
                && final(self).core.scanner.scratch_size_bytes >= scratch_size_spec(capacity as nat, old(self).core.scanner.per()),
    {
        self.core.reserve(capacity)
    }
}

} // verus!
