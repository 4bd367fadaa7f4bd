pub use super::pipeline::{reduction_output_items, reduction_pass_count, ITEMS_PER_BLOCK};

use vstd::prelude::*;

use crate::common::buffers::{
    alias_pair, alias_spec, limits_binding_spec, offset_spec, validate_distinct, validate_spec,
    validate_storage_binding_size, AliasPair, BufferRange, DeviceLimits, USAGE_COPY_DST,
    USAGE_STORAGE,
};
use crate::common::dispatch::{hierarchy_passes, hierarchy_spec, items_after, HierarchyLevel};
use crate::common::math::{checked_align_to, div_ceil, lemma_div_ceil};
use crate::common::workspace::ReusableBuffer;
use crate::count::GpuCountPlan;
use crate::error::Error;

use super::reducer::scratch_items;

verus! {

pub const VALUE_SIZE_BYTES: u64 = 4;
pub const PLAN_WORDS: u64 = 2;
pub const DISPATCH_WORDS: u64 = 3;
pub const MAX_WORKGROUPS_X: u32 = 65_535;

/// `n <= k * p` implies `div_ceil(n, p) <= k`.
pub proof fn lemma_div_ceil_le(n: int, p: int, k: int)
    requires
        n >= 0,
        p > 0,
        k >= 0,
        n <= k * p,
    ensures
        div_ceil(n, p) <= k,
{
    lemma_div_ceil(n, p);
    let q = n / p;
    assert(n == p * q + n % p) by (nonlinear_arith)
        requires
            p > 0,
            q == n / p,
    ;
    assert(q <= k) by (nonlinear_arith)
        requires
            n == p * q + n % p,
            0 <= n % p < p,
            n <= k * p,
            p > 0,
    ;
    if n % p != 0 {
        assert(q < k) by (nonlinear_arith)
            requires
                n == p * q + n % p,
                0 < n % p < p,
                n <= k * p,
                p > 0,
        ;
    }
}

/// A reduction of at most `u32::MAX` values takes at most three levels.
pub proof fn lemma_reduction_passes_at_most_three(n: u32)
    ensures
        hierarchy_passes(n as nat, ITEMS_PER_BLOCK as nat) <= 3,
{
    let p = ITEMS_PER_BLOCK as nat;
    if n as nat > p {
        crate::common::dispatch::lemma_div_ceil_shrinks(n as int, p as int);
        lemma_div_ceil_le(n as int, p as int, 1048576int);
        let n1 = div_ceil(n as int, p as int) as nat;
        assert(hierarchy_passes(n as nat, p) == 1 + hierarchy_passes(n1, p));
        if n1 > p {
            crate::common::dispatch::lemma_div_ceil_shrinks(n1 as int, p as int);
            lemma_div_ceil_le(n1 as int, p as int, 256int);
            let n2 = div_ceil(n1 as int, p as int) as nat;
            assert(hierarchy_passes(n1, p) == 1 + hierarchy_passes(n2, p));
            assert(n2 <= p);
            assert(hierarchy_passes(n2, p) == 1);
        } else {
            assert(hierarchy_passes(n1, p) == 1);
        }
    }
}

proof fn lemma_stride_bound(a: u64)
    by (bit_vector)
    requires
        4 <= a <= 0xffff_ffff,
    ensures
        ((8 + a - 1) as u64) & !((a - 1) as u64) <= 0x1_0000_0008,
{
}

/// Plan records are at most a little over four gigabytes apart.
pub proof fn lemma_stride_fits(limits: DeviceLimits)
    ensures
        plan_stride_spec(limits) matches Ok(s) && 8 <= s <= 0x1_0000_0008,
{
    lemma_stride_bound(stride_alignment(limits));
    let a = stride_alignment(limits);
    assert(((8 + a - 1) as u64) & !((a - 1) as u64) >= 8) by (bit_vector)
        requires
            4 <= a <= 0xffff_ffff,
    ;
}

/// The byte stride between per-level plan records: two words rounded up to
/// the storage-offset alignment (at least four bytes).
pub fn plan_stride(limits: &DeviceLimits) -> (r: Result<u64, Error>)
    ensures
        r == plan_stride_spec(*limits),
{
    let alignment = limits.min_storage_buffer_offset_alignment as u64;
    let alignment = if alignment >= VALUE_SIZE_BYTES {
        alignment
    } else {
        VALUE_SIZE_BYTES
    };
    checked_align_to(PLAN_WORDS * VALUE_SIZE_BYTES, alignment)
}

pub open spec fn stride_alignment(limits: DeviceLimits) -> u64 {
    if limits.min_storage_buffer_offset_alignment >= 4 {
        limits.min_storage_buffer_offset_alignment as u64
    } else {
        4
    }
}

pub open spec fn plan_stride_spec(limits: DeviceLimits) -> Result<u64, Error> {
    let a = stride_alignment(limits);
    Ok(((8 + a - 1) as u64) & !((a - 1) as u64))
}

/// The commands of one GPU-counted reduction over at most `capacity` values.
pub struct CountedReducePlan {
    pub pass_count: u32,
    pub plan_stride: u64,
    /// Levels over capacities; each reads its item count from the plan records.
    pub levels: Vec<HierarchyLevel>,
    pub scratch_a_bytes: u64,
    pub scratch_b_bytes: u64,
    /// Bytes of the per-level plan records.
    pub plan_bytes: u64,
    /// Bytes of the per-level indirect dispatch arguments.
    pub args_bytes: u64,
}

/// The alias pairs a counted reduction rejects.
pub open spec fn counted_alias_pairs(input: BufferRange, output: BufferRange, count: BufferRange) -> Seq<
    AliasPair,
> {
    seq![
        AliasPair {
            first: input.buffer,
            first_name: "reduction input",
            second: output.buffer,
            second_name: "reduction output",
        },
        AliasPair {
            first: input.buffer,
            first_name: "reduction input",
            second: count.buffer,
            second_name: "reduction item count",
        },
        AliasPair {
            first: output.buffer,
            first_name: "reduction output",
            second: count.buffer,
            second_name: "reduction item count",
        },
    ]
}

fn counted_alias_vec(input: BufferRange, output: BufferRange, count: BufferRange) -> (r: Vec<
    AliasPair,
>)
    ensures
        r@ == counted_alias_pairs(input, output, count),
{
    let v = vec![
        alias_pair(input.buffer, "reduction input", output.buffer, "reduction output"),
        alias_pair(input.buffer, "reduction input", count.buffer, "reduction item count"),
        alias_pair(output.buffer, "reduction output", count.buffer, "reduction item count"),
    ];
    assert(v@ =~= counted_alias_pairs(input, output, count));
    v
}

/// Rejects a counted reduction whose input, output and count share a buffer.
pub fn validate_counted_distinct(input: BufferRange, output: BufferRange, count: BufferRange) -> (r:
    Result<(), Error>)
    ensures
        r == alias_spec(counted_alias_pairs(input, output, count)),
{
    validate_distinct(&counted_alias_vec(input, output, count))
}

/// The error, if any, that planning a counted reduction reports.
pub open spec fn counted_reduce_error(
    input: BufferRange,
    output: BufferRange,
    count: Option<BufferRange>,
    capacity: u32,
    limits: DeviceLimits,
) -> Option<Error> {
    let align = limits.min_storage_buffer_offset_alignment as u64;
    let out = validate_spec(output, "reduction output", 4, USAGE_STORAGE | USAGE_COPY_DST);
    let out_off = offset_spec(output, align, "reduction output");
    let bytes = (capacity * 4) as u64;
    let binding = limits_binding_spec(limits, bytes);
    let inp = validate_spec(input, "reduction input", bytes, USAGE_STORAGE);
    let inp_off = offset_spec(input, align, "reduction input");
    let passes = hierarchy_passes(capacity as nat, ITEMS_PER_BLOCK as nat);
    let (a, b) = scratch_items(capacity as nat);
    let stride = plan_stride_spec(limits)->Ok_0;
    let bind_a = limits_binding_spec(limits, (a * 4) as u64);
    let bind_b = limits_binding_spec(limits, (b * 4) as u64);
    let bind_plan = limits_binding_spec(limits, (passes * stride) as u64);
    let bind_args = limits_binding_spec(limits, (passes * 12) as u64);
    if input.buffer.id == output.buffer.id {
        Some(Error::BufferAlias { first: "reduction input", second: "reduction output" })
    } else if out is Err {
        Some(out->Err_0)
    } else if out_off is Err {
        Some(out_off->Err_0)
    } else if count is Some && alias_spec(
        counted_alias_pairs(input, output, count->Some_0),
    ) is Err {
        Some(alias_spec(counted_alias_pairs(input, output, count->Some_0))->Err_0)
    } else if count is Some && validate_spec(
        count->Some_0,
        "reduction item count",
        4,
        USAGE_STORAGE,
    ) is Err {
        Some(validate_spec(count->Some_0, "reduction item count", 4, USAGE_STORAGE)->Err_0)
    } else if count is Some && offset_spec(count->Some_0, align, "reduction item count") is Err {
        Some(offset_spec(count->Some_0, align, "reduction item count")->Err_0)
    } else if binding is Err {
        Some(binding->Err_0)
    } else if inp is Err {
        Some(inp->Err_0)
    } else if inp_off is Err {
        Some(inp_off->Err_0)
    } else if passes > 0 && a > 0 && bind_a is Err {
        Some(bind_a->Err_0)
    } else if passes > 0 && b > 0 && bind_b is Err {
        Some(bind_b->Err_0)
    } else if passes > 0 && bind_plan is Err {
        Some(bind_plan->Err_0)
    } else if passes > 0 && bind_args is Err {
        Some(bind_args->Err_0)
    } else {
        None
    }
}

/// A plan of a counted reduction over at most `capacity` values: the
/// reduction hierarchy, its scratch, plan-record and dispatch-argument sizes.
pub open spec fn counted_plan_spec(plan: CountedReducePlan, capacity: u32, limits: DeviceLimits) -> bool {
    let passes = hierarchy_passes(capacity as nat, ITEMS_PER_BLOCK as nat);
    &&& plan.pass_count == passes
    &&& plan.pass_count <= 3
    &&& Ok::<u64, Error>(plan.plan_stride) == plan_stride_spec(limits)
    &&& plan.levels@ == hierarchy_spec(capacity as nat, ITEMS_PER_BLOCK as nat)
    &&& plan.scratch_a_bytes == scratch_items(capacity as nat).0 * 4
    &&& plan.scratch_b_bytes == scratch_items(capacity as nat).1 * 4
    &&& plan.plan_bytes == passes * plan.plan_stride
    &&& plan.args_bytes == passes * 12
}

/// Validates a GPU-counted reduction and plans its levels and workspace.
///
/// With `count` the plan prepares its own dispatch arguments from that
/// count; without it the caller supplies a prepared count plan, whose
/// count buffer must first pass [`validate_counted_distinct`].
pub fn plan_counted_reduce(
    input: BufferRange,
    output: BufferRange,
    count: Option<BufferRange>,
    capacity: u32,
    limits: &DeviceLimits,
) -> (r: Result<CountedReducePlan, Error>)
    ensures
        match counted_reduce_error(input, output, count, capacity, *limits) {
            Some(e) => r == Err::<CountedReducePlan, Error>(e),
            None => r is Ok,
        },
        r matches Ok(plan) ==> counted_plan_spec(plan, capacity, *limits),
{
    let alignment = limits.min_storage_buffer_offset_alignment as u64;
    if input.buffer.id == output.buffer.id {
        return Err(Error::BufferAlias { first: "reduction input", second: "reduction output" });
    }
    if let Err(e) = output.validate("reduction output", 4, USAGE_STORAGE | USAGE_COPY_DST) {
        return Err(e);
    }
    if let Err(e) = output.validate_storage_offset(limits, "reduction output") {
        return Err(e);
    }
    if let Some(count) = count {
        if let Err(e) = validate_counted_distinct(input, output, count) {
            return Err(e);
        }
        if let Err(e) = count.validate("reduction item count", 4, USAGE_STORAGE) {
            return Err(e);
        }
        if let Err(e) = count.validate_storage_offset(limits, "reduction item count") {
            return Err(e);
        }
    }
    let bytes = capacity as u64 * VALUE_SIZE_BYTES;
    if let Err(e) = validate_storage_binding_size(limits, bytes) {
        return Err(e);
    }
    if let Err(e) = input.validate("reduction input", bytes, USAGE_STORAGE) {
        return Err(e);
    }
    if let Err(e) = input.validate_storage_offset(limits, "reduction input") {
        return Err(e);
    }
    let pass_count = reduction_pass_count(capacity);
    proof {
        lemma_reduction_passes_at_most_three(capacity);
    }
    let stride = match plan_stride(limits) {
        Ok(s) => s,
        Err(e) => return Err(e),
    };
    proof {
        lemma_stride_bound(stride_alignment(*limits));
    }
    let (a, b) = crate::common::dispatch::hierarchy_scratch(capacity, ITEMS_PER_BLOCK);
    let a_bytes = a as u64 * VALUE_SIZE_BYTES;
    let b_bytes = b as u64 * VALUE_SIZE_BYTES;
    assert(pass_count as u64 * stride <= 3 * 0x1_0000_0008) by (nonlinear_arith)
        requires
            pass_count <= 3,
            stride <= 0x1_0000_0008,
    ;
    let plan_bytes = pass_count as u64 * stride;
    let args_bytes = pass_count as u64 * DISPATCH_WORDS * VALUE_SIZE_BYTES;
    if pass_count > 0 {
        if a > 0 {
            if let Err(e) = validate_storage_binding_size(limits, a_bytes) {
                return Err(e);
            }
        }
        if b > 0 {
            if let Err(e) = validate_storage_binding_size(limits, b_bytes) {
                return Err(e);
            }
        }
        if let Err(e) = validate_storage_binding_size(limits, plan_bytes) {
            return Err(e);
        }
        if let Err(e) = validate_storage_binding_size(limits, args_bytes) {
            return Err(e);
        }
    }
    let levels = crate::common::dispatch::hierarchy_levels(capacity, ITEMS_PER_BLOCK);
    Ok(
        CountedReducePlan {
            pass_count,
            plan_stride: stride,
            levels,
            scratch_a_bytes: a_bytes,
            scratch_b_bytes: b_bytes,
            plan_bytes,
            args_bytes,
        },
    )
}

/// The uniform words of the counted reduction's dispatch preparation:
/// capacity, level count, items per block, plan stride in words and the
/// x-dimension limit.
pub fn preparation_config(capacity: u32, pass_count: u32, plan_stride: u64) -> (r: Vec<u32>)
    requires
        plan_stride / 4 <= u32::MAX,
    ensures
        r@ == seq![
            capacity,
            pass_count,
            ITEMS_PER_BLOCK,
            (plan_stride / 4) as u32,
            MAX_WORKGROUPS_X,
            0u32,
            0u32,
            0u32,
        ],
{
    let v = vec![
        capacity,
        pass_count,
        ITEMS_PER_BLOCK,
        (plan_stride / VALUE_SIZE_BYTES) as u32,
        MAX_WORKGROUPS_X,
        0,
        0,
        0,
    ];
    assert(v@ =~= seq![
        capacity,
        pass_count,
        ITEMS_PER_BLOCK,
        (plan_stride / 4) as u32,
        MAX_WORKGROUPS_X,
        0u32,
        0u32,
        0u32,
    ]);
    v
}

/// The plan-record and dispatch-argument byte offsets of level `level`.
pub fn level_offsets(level: u32, plan_stride: u64) -> (r: (u64, u64))
    requires
        level < 3,
        plan_stride <= 0x1_0000_0008,
    ensures
        r.0 == level * plan_stride,
        r.1 == level * 12,
{
    assert(level as u64 * plan_stride <= 3 * 0x1_0000_0008) by (nonlinear_arith)
        requires
            level < 3,
            plan_stride <= 0x1_0000_0008,
    ;
    (level as u64 * plan_stride, level as u64 * DISPATCH_WORDS * VALUE_SIZE_BYTES)
}


/// Counted-reduction state: the device limits, the two scratch buffers the
/// levels alternate between, and the buffers of per-level plan records and
/// indirect dispatch arguments.
pub struct CountedReducer {
    pub limits: DeviceLimits,
    pub scratch_a: ReusableBuffer,
    pub scratch_b: ReusableBuffer,
    pub plans: ReusableBuffer,
    pub dispatch_args: ReusableBuffer,
}

impl CountedReducer {
    /// The state after growing the buffers a plan needs.
    pub open spec fn after_plan(self, plan: CountedReducePlan) -> CountedReducer {
        CountedReducer {
            limits: self.limits,
            scratch_a: if plan.scratch_a_bytes > 0 {
                self.scratch_a.after_ensure(plan.scratch_a_bytes)
            } else {
                self.scratch_a
            },
            scratch_b: if plan.scratch_b_bytes > 0 {
                self.scratch_b.after_ensure(plan.scratch_b_bytes)
            } else {
                self.scratch_b
            },
            plans: if plan.pass_count > 0 {
                self.plans.after_ensure(plan.plan_bytes)
            } else {
                self.plans
            },
            dispatch_args: if plan.pass_count > 0 {
                self.dispatch_args.after_ensure(plan.args_bytes)
            } else {
                self.dispatch_args
            },
        }
    }

    /// The error, if any, of reserving the workspace of reductions over up
    /// to `capacity` values.
    pub open spec fn reserve_error(self, capacity: u32) -> Option<Error> {
        let passes = hierarchy_passes(capacity as nat, ITEMS_PER_BLOCK as nat);
        let (a, b) = scratch_items(capacity as nat);
        let stride = plan_stride_spec(self.limits)->Ok_0;
        let bind_a = limits_binding_spec(self.limits, (a * 4) as u64);
        let bind_b = limits_binding_spec(self.limits, (b * 4) as u64);
        let bind_plan = limits_binding_spec(self.limits, (passes * stride) as u64);
        let bind_args = limits_binding_spec(self.limits, (passes * 12) as u64);
        if passes == 0 {
            None
        } else if a > 0 && bind_a is Err {
            Some(bind_a->Err_0)
        } else if b > 0 && bind_b is Err {
            Some(bind_b->Err_0)
        } else if bind_plan is Err {
            Some(bind_plan->Err_0)
        } else if bind_args is Err {
            Some(bind_args->Err_0)
        } else {
            None
        }
    }

    /// The state after reserving for `capacity` values: each buffer grows
    /// only once every check before it has passed, as the checks run in
    /// the order of [`Self::reserve_error`].
    pub open spec fn reserved(self, capacity: u32) -> CountedReducer {
        let passes = hierarchy_passes(capacity as nat, ITEMS_PER_BLOCK as nat);
        let (a, b) = scratch_items(capacity as nat);
        let stride = plan_stride_spec(self.limits)->Ok_0;
        let ok_a = a == 0 || limits_binding_spec(self.limits, (a * 4) as u64) is Ok;
        let ok_b = ok_a && (b == 0 || limits_binding_spec(self.limits, (b * 4) as u64) is Ok);
        let ok_rest = ok_b && limits_binding_spec(self.limits, (passes * stride) as u64) is Ok
            && limits_binding_spec(self.limits, (passes * 12) as u64) is Ok;
        if passes == 0 {
            self
        } else {
            CountedReducer {
                limits: self.limits,
                scratch_a: if a > 0 && ok_a {
                    self.scratch_a.after_ensure((a * 4) as u64)
                } else {
                    self.scratch_a
                },
                scratch_b: if b > 0 && ok_b {
                    self.scratch_b.after_ensure((b * 4) as u64)
                } else {
                    self.scratch_b
                },
                plans: if ok_rest {
                    self.plans.after_ensure((passes * stride) as u64)
                } else {
                    self.plans
                },
                dispatch_args: if ok_rest {
                    self.dispatch_args.after_ensure((passes * 12) as u64)
                } else {
                    self.dispatch_args
                },
            }
        }
    }

    /// A reducer with no workspace yet.
    pub fn new(limits: DeviceLimits) -> (r: CountedReducer)
        ensures
            r.limits == limits,
            !r.scratch_a.allocated,
            !r.scratch_b.allocated,
            !r.plans.allocated,
            !r.dispatch_args.allocated,
    {
        CountedReducer {
            limits,
            scratch_a: ReusableBuffer::new(),
            scratch_b: ReusableBuffer::new(),
            plans: ReusableBuffer::new(),
            dispatch_args: ReusableBuffer::new(),
        }
    }

    fn grow(&mut self, plan: &CountedReducePlan)
        ensures
            *final(self) == old(self).after_plan(*plan),
    {
        if plan.scratch_a_bytes > 0 {
            self.scratch_a.ensure(plan.scratch_a_bytes);
        }
        if plan.scratch_b_bytes > 0 {
            self.scratch_b.ensure(plan.scratch_b_bytes);
        }
        if plan.pass_count > 0 {
            self.plans.ensure(plan.plan_bytes);
            self.dispatch_args.ensure(plan.args_bytes);
        }
    }

    /// Grows the workspace for reductions over up to `capacity` values.
    pub fn reserve(&mut self, capacity: u32) -> (r: Result<(), Error>)
        ensures
            *final(self) == old(self).reserved(capacity),
            match old(self).reserve_error(capacity) {
                Some(e) => r == Err::<(), Error>(e),
                None => r is Ok,
            },
    {
        let pass_count = reduction_pass_count(capacity);
        if pass_count == 0 {
            return Ok(());
        }
        proof {
            lemma_reduction_passes_at_most_three(capacity);
        }
        let stride = match plan_stride(&self.limits) {
            Ok(s) => s,
            Err(e) => return Err(e),
        };
        proof {
            lemma_stride_bound(stride_alignment(self.limits));
        }
        let (a, b) = crate::common::dispatch::hierarchy_scratch(capacity, ITEMS_PER_BLOCK);
        if a > 0 {
            let bytes = a as u64 * VALUE_SIZE_BYTES;
            if let Err(e) = validate_storage_binding_size(&self.limits, bytes) {
                return Err(e);
            }
            self.scratch_a.ensure(bytes);
        }
        if b > 0 {
            let bytes = b as u64 * VALUE_SIZE_BYTES;
            if let Err(e) = validate_storage_binding_size(&self.limits, bytes) {
                return Err(e);
            }
            self.scratch_b.ensure(bytes);
        }
        assert(pass_count as u64 * stride <= 3 * 0x1_0000_0008) by (nonlinear_arith)
            requires
                pass_count <= 3,
                stride <= 0x1_0000_0008,
        ;
        let plan_bytes = pass_count as u64 * stride;
        let args_bytes = pass_count as u64 * DISPATCH_WORDS * VALUE_SIZE_BYTES;
        if let Err(e) = validate_storage_binding_size(&self.limits, plan_bytes) {
            return Err(e);
        }
        if let Err(e) = validate_storage_binding_size(&self.limits, args_bytes) {
            return Err(e);
        }
        self.plans.ensure(plan_bytes);
        self.dispatch_args.ensure(args_bytes);
        Ok(())
    }

    /// Validates and plans a reduction of the prefix of `input` whose
    /// length is the GPU count in `count`, clamped to `capacity`, and grows
    /// the workspace the plan needs.
    pub fn record_reduce(&mut self, input: BufferRange, output: BufferRange, count: BufferRange, capacity: u32) -> (r:
        Result<CountedReducePlan, Error>)
        ensures
            match counted_reduce_error(input, output, Some(count), capacity, old(self).limits) {
                Some(e) => r == Err::<CountedReducePlan, Error>(e) && *final(self) == *old(self),
                None => r matches Ok(plan) && counted_plan_spec(plan, capacity, old(self).limits)
                    && *final(self) == old(self).after_plan(plan),
            },
    {
        match plan_counted_reduce(input, output, Some(count), capacity, &self.limits) {
            Ok(plan) => {
                self.grow(&plan);
                Ok(plan)
            },
            Err(e) => Err(e),
        }
    }

    /// Validates and plans a reduction whose dispatch arguments a shared
    /// count plan prepares, and grows the workspace the plan needs.
    pub fn record_reduce_with_plan(&mut self, input: BufferRange, output: BufferRange, plan: &GpuCountPlan) -> (r:
        Result<CountedReducePlan, Error>)
        ensures
            alias_spec(counted_alias_pairs(input, output, plan.count)) matches Err(e) ==> r == Err::<
                CountedReducePlan,
                Error,
            >(e) && *final(self) == *old(self),
            alias_spec(counted_alias_pairs(input, output, plan.count)) is Ok ==> match counted_reduce_error(
                input,
                output,
                None,
                plan.capacity,
                old(self).limits,
            ) {
                Some(e) => r == Err::<CountedReducePlan, Error>(e) && *final(self) == *old(self),
                None => r matches Ok(p) && counted_plan_spec(p, plan.capacity, old(self).limits)
                    && *final(self) == old(self).after_plan(p),
            },
    {
        if let Err(e) = validate_counted_distinct(input, output, plan.count()) {
            return Err(e);
        }
        match plan_counted_reduce(input, output, None, plan.capacity(), &self.limits) {
            Ok(p) => {
                self.grow(&p);
                Ok(p)
            },
            Err(e) => Err(e),
        }
    }
}

} // verus!
