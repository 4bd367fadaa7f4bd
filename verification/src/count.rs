use vstd::prelude::*;

use crate::common::buffers::{
    limits_binding_spec, offset_spec, validate_spec, validate_storage_binding_size, BufferRange,
    DeviceLimits, GpuBuffer, USAGE_STORAGE,
};
use crate::common::dispatch::hierarchy_passes;
use crate::error::Error;
use crate::reduce::counted::{
    lemma_reduction_passes_at_most_three, plan_stride, plan_stride_spec, ITEMS_PER_BLOCK,
};
use crate::reduce::pipeline::reduction_pass_count;
use crate::sort::counted::{items_per_block, items_per_block_spec};

verus! {

pub const VALUE_SIZE_BYTES: u64 = 4;
pub const DISPATCH_WORDS: u64 = 3;
pub const PLAN_WORDS: u64 = 2;
pub const CONFIG_WORDS: u64 = 8;
pub const MAX_WORKGROUPS_X: u32 = 65_535;

/// How a GPU count plan schedules counted radix-sort workgroups.
#[derive(Clone, Copy, Debug, Default, PartialEq, Eq, Structural)]
pub enum CountedSortDispatch {
    /// Reads dispatch dimensions from the GPU count: the portable choice for
    /// unknown or sparse counts, whose reduce and scatter launches cover only
    /// the selected values.
    #[default]
    Indirect,
    /// Dispatches for the full capacity; inactive workgroups return early.
    Capacity,
}

/// Metadata shared by the primitives that consume one GPU-resident count: the
/// count word, the capacity, the counted-sort and reduction shapes, and the
/// sizes of the buffers the preparation dispatch fills.
pub struct GpuCountPlan {
    /// The count word.
    pub count: BufferRange,
    pub capacity: u32,
    pub sort_dispatch: CountedSortDispatch,
    pub sort_items_per_block: u32,
    pub reduction_pass_count: u32,
    pub plan_stride: u64,
    /// The preparation kernel's configuration words.
    pub config: Vec<u32>,
    /// Bytes of the per-level reduction plan records.
    pub plan_bytes: u64,
    /// Bytes of the reduction's indirect dispatch arguments.
    pub reduction_args_bytes: u64,
}

/// Reduction levels a plan prepares records for: at least one.
pub open spec fn plan_levels(capacity: u32) -> nat {
    let p = hierarchy_passes(capacity as nat, ITEMS_PER_BLOCK as nat);
    if p >= 1 {
        p
    } else {
        1
    }
}

/// The error, if any, of building a count plan.
pub open spec fn count_plan_error(count: BufferRange, capacity: u32, limits: DeviceLimits) -> Option<Error> {
    let stride = plan_stride_spec(limits)->Ok_0;
    let plan_bytes = (plan_levels(capacity) * stride) as u64;
    let args_bytes = (plan_levels(capacity) * DISPATCH_WORDS * VALUE_SIZE_BYTES) as u64;
    let align = limits.min_storage_buffer_offset_alignment as u64;
    if validate_spec(count, "GPU item count", VALUE_SIZE_BYTES, USAGE_STORAGE) is Err {
        Some(validate_spec(count, "GPU item count", VALUE_SIZE_BYTES, USAGE_STORAGE)->Err_0)
    } else if offset_spec(count, align, "GPU item count") is Err {
        Some(offset_spec(count, align, "GPU item count")->Err_0)
    } else if limits_binding_spec(limits, plan_bytes) is Err {
        Some(limits_binding_spec(limits, plan_bytes)->Err_0)
    } else if limits_binding_spec(limits, args_bytes) is Err {
        Some(limits_binding_spec(limits, args_bytes)->Err_0)
    } else {
        None
    }
}

impl GpuCountPlan {
    /// A plan for the count word at the start of `count`, dispatching counted
    /// sorts indirectly.
    pub fn new(count: GpuBuffer, capacity: u32, limits: &DeviceLimits) -> (r: Result<GpuCountPlan, Error>)
        ensures
            match count_plan_error(BufferRange::whole_spec(count), capacity, *limits) {
                Some(e) => r == Err::<GpuCountPlan, Error>(e),
                None => r matches Ok(plan) && plan.wf(BufferRange::whole_spec(count), capacity, CountedSortDispatch::Indirect, *limits),
            },
    {
        GpuCountPlan::new_with_sort_dispatch(count, capacity, CountedSortDispatch::Indirect, limits)
    }

    /// A plan for the count word at the start of `count` with an explicit
    /// counted-sort dispatch strategy.
    pub fn new_with_sort_dispatch(
        count: GpuBuffer,
        capacity: u32,
        sort_dispatch: CountedSortDispatch,
        limits: &DeviceLimits,
    ) -> (r: Result<GpuCountPlan, Error>)
        ensures
            match count_plan_error(BufferRange::whole_spec(count), capacity, *limits) {
                Some(e) => r == Err::<GpuCountPlan, Error>(e),
                None => r matches Ok(plan) && plan.wf(BufferRange::whole_spec(count), capacity, sort_dispatch, *limits),
            },
    {
        GpuCountPlan::new_with_count_range(BufferRange::whole(count), capacity, sort_dispatch, limits)
    }

    /// Everything a plan built from these inputs holds.
    pub open spec fn wf(
        &self,
        count: BufferRange,
        capacity: u32,
        sort_dispatch: CountedSortDispatch,
        limits: DeviceLimits,
    ) -> bool {
        let stride = plan_stride_spec(limits)->Ok_0;
        let passes = hierarchy_passes(capacity as nat, ITEMS_PER_BLOCK as nat);
        &&& self.count == (BufferRange { size: VALUE_SIZE_BYTES, ..count })
        &&& self.capacity == capacity
        &&& self.sort_dispatch == sort_dispatch
        &&& self.sort_items_per_block == items_per_block_spec(limits)
        &&& self.reduction_pass_count == passes
        &&& self.plan_stride == stride
        &&& self.config@ == seq![
            capacity,
            items_per_block_spec(limits),
            passes as u32,
            ITEMS_PER_BLOCK,
            (stride / VALUE_SIZE_BYTES) as u32,
            MAX_WORKGROUPS_X,
            0u32,
            0u32,
        ]
        &&& self.plan_bytes == plan_levels(capacity) * stride
        &&& self.reduction_args_bytes == plan_levels(capacity) * DISPATCH_WORDS * VALUE_SIZE_BYTES
    }

    /// Validates the count word and sizes the plan's buffers.
    pub fn new_with_count_range(
        count: BufferRange,
        capacity: u32,
        sort_dispatch: CountedSortDispatch,
        limits: &DeviceLimits,
    ) -> (r: Result<GpuCountPlan, Error>)
        ensures
            match count_plan_error(count, capacity, *limits) {
                Some(e) => r == Err::<GpuCountPlan, Error>(e),
                None => r matches Ok(plan) && plan.wf(count, capacity, sort_dispatch, *limits),
            },
    {
        if let Err(e) = count.validate("GPU item count", VALUE_SIZE_BYTES, USAGE_STORAGE) {
            return Err(e);
        }
        if let Err(e) = count.validate_storage_offset(limits, "GPU item count") {
            return Err(e);
        }
        let sort_ipb = items_per_block(limits);
        let passes = reduction_pass_count(capacity);
        proof {
            lemma_reduction_passes_at_most_three(capacity);
            crate::reduce::counted::lemma_stride_fits(*limits);
        }
        let stride = match plan_stride(limits) {
            Ok(s) => s,
            Err(e) => return Err(e),
        };
        let levels: u64 = if passes >= 1 {
            passes as u64
        } else {
            1
        };
        assert(levels * stride <= 3 * 0x1_0000_0008) by (nonlinear_arith)
            requires
                levels <= 3,
                stride <= 0x1_0000_0008,
        ;
        let plan_bytes = levels * stride;
        let args_bytes = levels * DISPATCH_WORDS * VALUE_SIZE_BYTES;
        if let Err(e) = validate_storage_binding_size(limits, plan_bytes) {
            return Err(e);
        }
        if let Err(e) = validate_storage_binding_size(limits, args_bytes) {
            return Err(e);
        }
        let config = vec![
            capacity,
            sort_ipb,
            passes,
            ITEMS_PER_BLOCK,
            (stride / VALUE_SIZE_BYTES) as u32,
            MAX_WORKGROUPS_X,
            0,
            0,
        ];
        assert(config@ =~= seq![
            capacity,
            items_per_block_spec(*limits),
            passes as u32,
            ITEMS_PER_BLOCK,
            (stride / VALUE_SIZE_BYTES) as u32,
            MAX_WORKGROUPS_X,
            0u32,
            0u32,
        ]);
        Ok(
            GpuCountPlan {
                count: count.with_size(VALUE_SIZE_BYTES),
                capacity,
                sort_dispatch,
                sort_items_per_block: sort_ipb,
                reduction_pass_count: passes,
                plan_stride: stride,
                config,
                plan_bytes,
                reduction_args_bytes: args_bytes,
            },
        )
    }

    /// Whether recording the preparation dispatches anything: nothing is
    /// prepared for a zero capacity.
    pub fn record_prepare(&self) -> (r: bool)
        ensures
            r == (self.capacity != 0),
    {
        self.capacity != 0
    }

    /// The most items the plan covers.
    pub fn capacity(&self) -> (r: u32)
        ensures
            r == self.capacity,
    {
        self.capacity
    }

    /// The count word.
    pub fn count(&self) -> (r: BufferRange)
        ensures
            r == self.count,
    {
        self.count
    }

    pub fn sort_dispatch(&self) -> (r: CountedSortDispatch)
        ensures
            r == self.sort_dispatch,
    {
        self.sort_dispatch
    }

    pub fn sort_items_per_block(&self) -> (r: u32)
        ensures
            r == self.sort_items_per_block,
    {
        self.sort_items_per_block
    }

    pub fn reduction_pass_count(&self) -> (r: u32)
        ensures
            r == self.reduction_pass_count,
    {
        self.reduction_pass_count
    }

    pub fn plan_stride(&self) -> (r: u64)
        ensures
            r == self.plan_stride,
    {
        self.plan_stride
    }
}

} // verus!
