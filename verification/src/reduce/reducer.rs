use vstd::prelude::*;

use crate::common::buffers::{
    effective_storage_binding_limit, limits_binding_spec, validate_spec, validate_storage_binding_size,
    BufferRange, DeviceLimits, GpuBuffer, USAGE_COPY_DST, USAGE_STORAGE,
};
use crate::common::dispatch::{hierarchy_spec, items_after, HierarchyLevel};
use crate::common::math::{checked_u32, div_ceil_u32};
use crate::common::workspace::ReusableBuffer;
use crate::error::Error;

use super::pipeline::{reduction_levels, ITEMS_PER_BLOCK};
use super::{identity_spec, U32Reduction};

verus! {

pub const VALUE_SIZE_BYTES: u64 = 4;

/// The commands of one fixed-length reduction.
///
/// An empty `levels` means the input is empty and only the operation's
/// identity is written to the output.
pub struct ReducePlan {
    pub levels: Vec<HierarchyLevel>,
    /// Bytes of the first scratch buffer, or zero when unused.
    pub scratch_a_bytes: u64,
    /// Bytes of the second scratch buffer, or zero when unused.
    pub scratch_b_bytes: u64,
}

/// The required size of the caller-owned reduction output.
pub fn output_buffer_size() -> (r: u64)
    ensures
        r == VALUE_SIZE_BYTES,
{
    VALUE_SIZE_BYTES
}

/// The first-level and second-level scratch sizes in items (zero when unused).
pub open spec fn scratch_items(n: nat) -> (nat, nat) {
    let a = items_after(n, ITEMS_PER_BLOCK as nat, 1);
    let b = items_after(n, ITEMS_PER_BLOCK as nat, 2);
    (if a > 1 {
        a
    } else {
        0
    }, if a > 1 && b > 1 {
        b
    } else {
        0
    })
}

/// The error, if any, that planning a reduction of `n` values reports.
pub open spec fn reduce_error(input: GpuBuffer, output: GpuBuffer, n: u32, limits: DeviceLimits) -> Option<Error> {
    let out = validate_spec(
        BufferRange::whole_spec(output),
        "reduction output",
        VALUE_SIZE_BYTES,
        USAGE_STORAGE | USAGE_COPY_DST,
    );
    let bytes = (n * VALUE_SIZE_BYTES) as u64;
    let binding = limits_binding_spec(limits, bytes);
    let inp = validate_spec(BufferRange::whole_spec(input), "reduction input", bytes, USAGE_STORAGE);
    let (a, b) = scratch_items(n as nat);
    let bind_a = limits_binding_spec(limits, (a * VALUE_SIZE_BYTES) as u64);
    let bind_b = limits_binding_spec(limits, (b * VALUE_SIZE_BYTES) as u64);
    if input.id == output.id {
        Some(Error::BufferAlias { first: "reduction input", second: "reduction output" })
    } else if out is Err {
        Some(out->Err_0)
    } else if n == 0 {
        None
    } else if binding is Err {
        Some(binding->Err_0)
    } else if inp is Err {
        Some(inp->Err_0)
    } else if a > 0 && bind_a is Err {
        Some(bind_a->Err_0)
    } else if b > 0 && bind_b is Err {
        Some(bind_b->Err_0)
    } else {
        None
    }
}

/// Validates a fixed-length reduction and plans its levels and scratch.
pub fn plan_reduce(input: GpuBuffer, output: GpuBuffer, num_items: u32, limits: &DeviceLimits) -> (r:
    Result<ReducePlan, Error>)
    ensures
        match reduce_error(input, output, num_items, *limits) {
            Some(e) => r == Err::<ReducePlan, Error>(e),
            None => r is Ok,
        },
        r matches Ok(plan) ==> {
            &&& plan.levels@ == hierarchy_spec(num_items as nat, ITEMS_PER_BLOCK as nat)
            &&& plan.scratch_a_bytes == scratch_items(num_items as nat).0 * VALUE_SIZE_BYTES
            &&& plan.scratch_b_bytes == scratch_items(num_items as nat).1 * VALUE_SIZE_BYTES
        },
{
    if input.id == output.id {
        return Err(Error::BufferAlias { first: "reduction input", second: "reduction output" });
    }
    if let Err(e) = BufferRange::whole(output).validate(
        "reduction output",
        VALUE_SIZE_BYTES,
        USAGE_STORAGE | USAGE_COPY_DST,
    ) {
        return Err(e);
    }
    if num_items == 0 {
        assert(items_after(0, ITEMS_PER_BLOCK as nat, 0) == 0);
        assert(items_after(0, ITEMS_PER_BLOCK as nat, 1) == 0);
        assert(items_after(0, ITEMS_PER_BLOCK as nat, 2) == 0);
        let levels = reduction_levels(0);
        return Ok(ReducePlan { levels, scratch_a_bytes: 0, scratch_b_bytes: 0 });
    }
    let bytes = num_items as u64 * VALUE_SIZE_BYTES;
    if let Err(e) = validate_storage_binding_size(limits, bytes) {
        return Err(e);
    }
    if let Err(e) = BufferRange::whole(input).validate("reduction input", bytes, USAGE_STORAGE) {
        return Err(e);
    }
    let (a, b) = crate::common::dispatch::hierarchy_scratch(num_items, ITEMS_PER_BLOCK);
    let a_bytes = a as u64 * VALUE_SIZE_BYTES;
    let b_bytes = b as u64 * VALUE_SIZE_BYTES;
    if a > 0 {
        if let Err(e) = validate_storage_binding_size(limits, a_bytes) {
            return Err(e);
        }
    }
    if b > 0 {
        if let Err(e) = validate_storage_binding_size(limits, b_bytes) {
            return Err(e);
        }
    }
    let levels = reduction_levels(num_items);
    Ok(ReducePlan { levels, scratch_a_bytes: a_bytes, scratch_b_bytes: b_bytes })
}


/// Reduction state: the device limits and the two scratch buffers that the
/// levels of a reduction alternate between.
pub struct Reducer {
    pub limits: DeviceLimits,
    pub scratch_a: ReusableBuffer,
    pub scratch_b: ReusableBuffer,
}

/// What a reduction of a host slice needs: nothing on the GPU for an empty
/// slice, whose answer is the operation's identity, else an upload of its
/// values.
#[derive(Clone, Copy, Debug, PartialEq, Eq, Structural)]
pub enum HostReduction {
    Identity(u32),
    Upload { num_items: u32 },
}

impl Reducer {
    /// Checks a host slice of `len` values before it is uploaded.
    pub fn plan_host_reduce(&self, len: usize, operation: U32Reduction) -> (r: Result<HostReduction, Error>)
        ensures
            len == 0 ==> r == Ok::<HostReduction, Error>(HostReduction::Identity(identity_spec(operation))),
            len > u32::MAX ==> r == Err::<HostReduction, Error>(Error::ElementCountTooLarge { count: len as u64 }),
            0 < len <= u32::MAX ==> r == match limits_binding_spec(self.limits, (len * VALUE_SIZE_BYTES) as u64) {
                Ok(_) => Ok::<HostReduction, Error>(HostReduction::Upload { num_items: len as u32 }),
                Err(e) => Err(e),
            },
    {
        if len == 0 {
            return Ok(HostReduction::Identity(operation.identity()));
        }
        let n = match checked_u32(len as u64) {
            Ok(n) => n,
            Err(e) => return Err(e),
        };
        match validate_storage_binding_size(&self.limits, n as u64 * VALUE_SIZE_BYTES) {
            Ok(()) => Ok(HostReduction::Upload { num_items: n }),
            Err(e) => Err(e),
        }
    }

    /// A reducer with no scratch yet.
    pub fn new(limits: DeviceLimits) -> (r: Reducer)
        ensures
            r.limits == limits,
            !r.scratch_a.allocated,
            !r.scratch_b.allocated,
    {
        Reducer { limits, scratch_a: ReusableBuffer::new(), scratch_b: ReusableBuffer::new() }
    }

    /// The required size of the caller-owned output.
    pub fn output_buffer_size() -> (r: u64)
        ensures
            r == VALUE_SIZE_BYTES,
    {
        VALUE_SIZE_BYTES
    }

    /// Validates and plans a reduction of the first `num_items` values,
    /// growing the scratch buffers its levels write.
    pub fn record_reduce(&mut self, input: GpuBuffer, output: GpuBuffer, num_items: u32) -> (r: Result<ReducePlan, Error>)
        ensures
            final(self).limits == old(self).limits,
            match reduce_error(input, output, num_items, old(self).limits) {
                Some(e) => r == Err::<ReducePlan, Error>(e) && final(self).scratch_a == old(self).scratch_a
                    && final(self).scratch_b == old(self).scratch_b,
                None => r is Ok,
            },
            r matches Ok(plan) ==> {
                &&& plan.levels@ == hierarchy_spec(num_items as nat, ITEMS_PER_BLOCK as nat)
                &&& plan.scratch_a_bytes == scratch_items(num_items as nat).0 * VALUE_SIZE_BYTES
                &&& plan.scratch_b_bytes == scratch_items(num_items as nat).1 * VALUE_SIZE_BYTES
                &&& (plan.scratch_a_bytes > 0 ==> final(self).scratch_a.allocated
                    && final(self).scratch_a.capacity_bytes >= plan.scratch_a_bytes)
                &&& (plan.scratch_b_bytes > 0 ==> final(self).scratch_b.allocated
                    && final(self).scratch_b.capacity_bytes >= plan.scratch_b_bytes)
                &&& (plan.scratch_a_bytes == 0 ==> final(self).scratch_a == old(self).scratch_a)
                &&& (plan.scratch_b_bytes == 0 ==> final(self).scratch_b == old(self).scratch_b)
            },
    {
        let plan = match plan_reduce(input, output, num_items, &self.limits) {
            Ok(p) => p,
            Err(e) => return Err(e),
        };
        if plan.scratch_a_bytes > 0 {
            self.scratch_a.ensure(plan.scratch_a_bytes);
        }
        if plan.scratch_b_bytes > 0 {
            self.scratch_b.ensure(plan.scratch_b_bytes);
        }
        Ok(plan)
    }
}

} // verus!
