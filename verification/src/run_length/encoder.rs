use vstd::prelude::*;

use crate::common::buffers::{
    lemma_alias_spec_ok, usage_contains,
    alias_pair, alias_spec, limits_binding_spec, offset_spec, validate_distinct, validate_spec,
    validate_storage_binding_size, AliasPair, BufferRange, DeviceLimits, GpuBuffer, USAGE_COPY_DST,
    USAGE_STORAGE,
};
use crate::common::math::div_ceil;
use crate::common::workspace::ReusableBuffer;
use crate::error::Error;
use crate::scan::pipeline::{scan_levels, ScanConfig};
use crate::scan::scanner::{scan_plan_spec, step_count, ScanCommands, ScanMode, Scanner};

use super::pipeline::{dispatch_dimensions, params, BLOCK_SIZE};

verus! {

pub const ITEM_SIZE_BYTES: u64 = 4;
pub const COUNT_SIZE_BYTES: u64 = 4;

/// Caller-owned buffers written by run-length encoding: one value and one
/// length per run, and one word receiving the number of runs.
#[derive(Clone, Copy, Debug, PartialEq, Eq, Structural)]
pub struct RunLengthOutputBuffers {
    pub unique_values: GpuBuffer,
    pub run_lengths: GpuBuffer,
    pub run_count: GpuBuffer,
}

/// The output ranges of one encoding.
#[derive(Clone, Copy, Debug, PartialEq, Eq, Structural)]
pub struct RunLengthOutputRanges {
    pub unique_values: BufferRange,
    pub run_lengths: BufferRange,
    pub run_count: BufferRange,
}

impl RunLengthOutputBuffers {
    /// Groups the three output buffers.
    pub fn new(unique_values: GpuBuffer, run_lengths: GpuBuffer, run_count: GpuBuffer) -> (r:
        RunLengthOutputBuffers)
        ensures
            r == (RunLengthOutputBuffers { unique_values, run_lengths, run_count }),
    {
        RunLengthOutputBuffers { unique_values, run_lengths, run_count }
    }

    /// The whole of each output buffer.
    pub fn ranges(self) -> (r: RunLengthOutputRanges)
        ensures
            r == (RunLengthOutputRanges {
                unique_values: BufferRange::whole_spec(self.unique_values),
                run_lengths: BufferRange::whole_spec(self.run_lengths),
                run_count: BufferRange::whole_spec(self.run_count),
            }),
    {
        RunLengthOutputRanges {
            unique_values: BufferRange::whole(self.unique_values),
            run_lengths: BufferRange::whole(self.run_lengths),
            run_count: BufferRange::whole(self.run_count),
        }
    }
}

/// How many input items an encoding reads: a host-known number, or a
/// GPU-resident count clamped to a capacity.
#[derive(Clone, Copy, Debug, PartialEq, Eq, Structural)]
pub enum InputExtent {
    Fixed(u32),
    Counted { count: BufferRange, capacity: u32 },
}

impl InputExtent {
    pub open spec fn capacity_spec(self) -> u32 {
        match self {
            InputExtent::Fixed(items) => items,
            InputExtent::Counted { capacity, .. } => capacity,
        }
    }

    pub open spec fn count_spec(self) -> Option<BufferRange> {
        match self {
            InputExtent::Fixed(_) => None,
            InputExtent::Counted { count, .. } => Some(count),
        }
    }

    /// The items the kernels may read.
    pub fn capacity(self) -> (r: u32)
        ensures
            r == self.capacity_spec(),
    {
        match self {
            InputExtent::Fixed(items) => items,
            InputExtent::Counted { capacity, .. } => capacity,
        }
    }

    /// The host-known item count; zero for a GPU-resident count.
    pub fn fixed_items(self) -> (r: u32)
        ensures
            r == (match self {
                InputExtent::Fixed(items) => items,
                InputExtent::Counted { .. } => 0,
            }),
    {
        match self {
            InputExtent::Fixed(items) => items,
            InputExtent::Counted { .. } => 0,
        }
    }

    /// The GPU-resident count, if any.
    pub fn count(self) -> (r: Option<BufferRange>)
        ensures
            r == self.count_spec(),
    {
        match self {
            InputExtent::Fixed(_) => None,
            InputExtent::Counted { count, .. } => Some(count),
        }
    }
}

/// The pairs of buffers one encoding must not bind to the same handle.
pub open spec fn run_length_alias_pairs(
    input: BufferRange,
    input_count: Option<BufferRange>,
    unique_values: BufferRange,
    run_lengths: BufferRange,
    run_count: BufferRange,
) -> Seq<AliasPair> {
    let base = seq![
        AliasPair { first: input.buffer, first_name: "run-length input", second: unique_values.buffer, second_name: "run-length unique values" },
        AliasPair { first: input.buffer, first_name: "run-length input", second: run_lengths.buffer, second_name: "run-length lengths" },
        AliasPair { first: input.buffer, first_name: "run-length input", second: run_count.buffer, second_name: "run-length output count" },
        AliasPair { first: unique_values.buffer, first_name: "run-length unique values", second: run_lengths.buffer, second_name: "run-length lengths" },
        AliasPair { first: unique_values.buffer, first_name: "run-length unique values", second: run_count.buffer, second_name: "run-length output count" },
        AliasPair { first: run_lengths.buffer, first_name: "run-length lengths", second: run_count.buffer, second_name: "run-length output count" },
    ];
    match input_count {
        None => base,
        Some(c) => base + seq![
            AliasPair { first: c.buffer, first_name: "run-length input count", second: unique_values.buffer, second_name: "run-length unique values" },
            AliasPair { first: c.buffer, first_name: "run-length input count", second: run_lengths.buffer, second_name: "run-length lengths" },
            AliasPair { first: c.buffer, first_name: "run-length input count", second: run_count.buffer, second_name: "run-length output count" },
        ],
    }
}

/// Rejects an encoding that binds one buffer in two roles.
pub fn validate_distinct_buffers(
    input: BufferRange,
    input_count: Option<BufferRange>,
    unique_values: BufferRange,
    run_lengths: BufferRange,
    run_count: BufferRange,
) -> (r: Result<(), Error>)
    ensures
        r == alias_spec(run_length_alias_pairs(input, input_count, unique_values, run_lengths, run_count)),
{
    let mut pairs = vec![
        alias_pair(input.buffer, "run-length input", unique_values.buffer, "run-length unique values"),
        alias_pair(input.buffer, "run-length input", run_lengths.buffer, "run-length lengths"),
        alias_pair(input.buffer, "run-length input", run_count.buffer, "run-length output count"),
        alias_pair(unique_values.buffer, "run-length unique values", run_lengths.buffer, "run-length lengths"),
        alias_pair(unique_values.buffer, "run-length unique values", run_count.buffer, "run-length output count"),
        alias_pair(run_lengths.buffer, "run-length lengths", run_count.buffer, "run-length output count"),
    ];
    if let Some(c) = input_count {
        pairs.push(alias_pair(c.buffer, "run-length input count", unique_values.buffer, "run-length unique values"));
        pairs.push(alias_pair(c.buffer, "run-length input count", run_lengths.buffer, "run-length lengths"));
        pairs.push(alias_pair(c.buffer, "run-length input count", run_count.buffer, "run-length output count"));
    }
    assert(pairs@ =~= run_length_alias_pairs(input, input_count, unique_values, run_lengths, run_count));
    validate_distinct(&pairs)
}

/// A GPU-counted encoding checks its count word like every other binding:
/// a count buffer smaller than one word, not usable as storage, or shared
/// with one of the outputs makes the encoding invalid.
pub proof fn lemma_counted_extent_checks_count(
    input: BufferRange,
    outputs: RunLengthOutputRanges,
    count: BufferRange,
    capacity: u32,
    limits: DeviceLimits,
)
    requires
        count.size < COUNT_SIZE_BYTES || !usage_contains(count.buffer.usage, USAGE_STORAGE) || count.buffer.id
            == outputs.unique_values.buffer.id || count.buffer.id == outputs.run_lengths.buffer.id
            || count.buffer.id == outputs.run_count.buffer.id,
    ensures
        encode_error(input, outputs, InputExtent::Counted { count, capacity }, limits) is Some,
{
    let extent = InputExtent::Counted { count, capacity };
    let pairs = run_length_alias_pairs(
        input,
        extent.count_spec(),
        outputs.unique_values,
        outputs.run_lengths,
        outputs.run_count,
    );
    lemma_alias_spec_ok(pairs);
    assert(pairs.len() == 9);
    if count.buffer.id == outputs.unique_values.buffer.id {
        assert(pairs[6].first.id == pairs[6].second.id);
    }
    if count.buffer.id == outputs.run_lengths.buffer.id {
        assert(pairs[7].first.id == pairs[7].second.id);
    }
    if count.buffer.id == outputs.run_count.buffer.id {
        assert(pairs[8].first.id == pairs[8].second.id);
    }
    if count.size < COUNT_SIZE_BYTES || !usage_contains(count.buffer.usage, USAGE_STORAGE) {
        assert(validate_spec(count, "run-length input count", COUNT_SIZE_BYTES, USAGE_STORAGE) is Err);
    }
}

/// The validation error, if any, of an encoding of `extent` items.
pub open spec fn encode_error(
    input: BufferRange,
    outputs: RunLengthOutputRanges,
    extent: InputExtent,
    limits: DeviceLimits,
) -> Option<Error> {
    let align = limits.min_storage_buffer_offset_alignment as u64;
    let alias = alias_spec(run_length_alias_pairs(input, extent.count_spec(), outputs.unique_values, outputs.run_lengths, outputs.run_count));
    let rc = validate_spec(outputs.run_count, "run-length output count", COUNT_SIZE_BYTES, USAGE_STORAGE | USAGE_COPY_DST);
    let rc_off = offset_spec(outputs.run_count, align, "run-length output count");
    let capacity = extent.capacity_spec();
    let bytes = (capacity * ITEM_SIZE_BYTES) as u64;
    if alias is Err {
        Some(alias->Err_0)
    } else if rc is Err {
        Some(rc->Err_0)
    } else if rc_off is Err {
        Some(rc_off->Err_0)
    } else if extent.count_spec() is Some && validate_spec(extent.count_spec()->Some_0, "run-length input count", COUNT_SIZE_BYTES, USAGE_STORAGE) is Err {
        Some(validate_spec(extent.count_spec()->Some_0, "run-length input count", COUNT_SIZE_BYTES, USAGE_STORAGE)->Err_0)
    } else if extent.count_spec() is Some && offset_spec(extent.count_spec()->Some_0, align, "run-length input count") is Err {
        Some(offset_spec(extent.count_spec()->Some_0, align, "run-length input count")->Err_0)
    } else if capacity == 0 {
        None
    } else if limits_binding_spec(limits, bytes) is Err {
        Some(limits_binding_spec(limits, bytes)->Err_0)
    } else if validate_spec(input, "run-length input", bytes, USAGE_STORAGE) is Err {
        Some(validate_spec(input, "run-length input", bytes, USAGE_STORAGE)->Err_0)
    } else if validate_spec(outputs.unique_values, "run-length unique values", bytes, USAGE_STORAGE) is Err {
        Some(validate_spec(outputs.unique_values, "run-length unique values", bytes, USAGE_STORAGE)->Err_0)
    } else if validate_spec(outputs.run_lengths, "run-length lengths", bytes, USAGE_STORAGE) is Err {
        Some(validate_spec(outputs.run_lengths, "run-length lengths", bytes, USAGE_STORAGE)->Err_0)
    } else if offset_spec(input, align, "run-length input") is Err {
        Some(offset_spec(input, align, "run-length input")->Err_0)
    } else if offset_spec(outputs.unique_values, align, "run-length unique values") is Err {
        Some(offset_spec(outputs.unique_values, align, "run-length unique values")->Err_0)
    } else if offset_spec(outputs.run_lengths, align, "run-length lengths") is Err {
        Some(offset_spec(outputs.run_lengths, align, "run-length lengths")->Err_0)
    } else {
        None
    }
}

/// The commands of one run-length encoding.
pub enum RunLengthCommands {
    /// Nothing to encode: only the run count is cleared to zero.
    ClearCount { run_count: BufferRange },
    /// Clear the run count, mark run heads, scan them exclusively into run
    /// offsets, then scatter values and lengths and write the run count.
    Encode {
        input: BufferRange,
        unique_values: BufferRange,
        run_lengths: BufferRange,
        run_count: BufferRange,
        input_count: Option<BufferRange>,
        capacity: u32,
        fixed_items: u32,
        groups: (u32, u32),
        params: Vec<u32>,
        scan: ScanCommands,
    },
}

/// Run-length encoding state: the head-flag and run-offset buffers, the
/// scanner and the device limits.
pub struct RunLengthEncoder {
    pub limits: DeviceLimits,
    pub scanner: Scanner,
    pub heads: ReusableBuffer,
    pub offsets: ReusableBuffer,
}

impl RunLengthEncoder {
    pub open spec fn wf(&self) -> bool {
        &&& self.scanner.config.wf()
        &&& self.limits.max_compute_workgroups_per_dimension > 0
    }

    /// An encoder with nothing allocated.
    pub fn new(limits: DeviceLimits, scan: ScanConfig) -> (r: RunLengthEncoder)
        requires
            scan.wf(),
            limits.max_compute_workgroups_per_dimension > 0,
        ensures
            r.wf(),
            r.limits == limits,
            !r.heads.allocated && !r.offsets.allocated,
    {
        RunLengthEncoder {
            limits,
            scanner: Scanner::new(scan),
            heads: ReusableBuffer::new(),
            offsets: ReusableBuffer::new(),
        }
    }

    /// Grows the head and offset buffers to `item_bytes` and the scanner's
    /// scratch to `capacity` items.
    pub fn ensure_workspace(&mut self, item_bytes: u64, capacity: u32) -> (r: Result<(), Error>)
        requires
            old(self).wf(),
        ensures
            final(self).wf(),
            final(self).limits == old(self).limits,
            final(self).scanner.config == old(self).scanner.config,
            match limits_binding_spec(old(self).limits, item_bytes) {
                Err(e) => r == Err::<(), Error>(e) && *final(self) == *old(self),
                Ok(_) => r is Ok && final(self).heads.allocated && final(self).heads.capacity_bytes
                    >= item_bytes && final(self).offsets.allocated
                    && final(self).offsets.capacity_bytes >= item_bytes
                    && final(self).scanner.scratch_allocated,
            },
    {
        if let Err(e) = validate_storage_binding_size(&self.limits, item_bytes) {
            return Err(e);
        }
        self.heads.ensure(item_bytes);
        self.offsets.ensure(item_bytes);
        self.scanner.prepare_scratch(capacity);
        Ok(())
    }

    /// Prepares the workspace for encodings of up to `capacity` items.
    pub fn reserve(&mut self, capacity: u32) -> (r: Result<(), Error>)
        requires
            old(self).wf(),
        ensures
            final(self).wf(),
            final(self).limits == old(self).limits,
            capacity == 0 ==> r is Ok && *final(self) == *old(self),
            capacity > 0 ==> match limits_binding_spec(old(self).limits, (capacity * 4) as u64) {
                Err(e) => r == Err::<(), Error>(e),
                Ok(_) => r is Ok && final(self).heads.capacity_bytes >= capacity * 4,
            },
    {
        if capacity > 0 {
            let bytes = capacity as u64 * ITEM_SIZE_BYTES;
            return self.ensure_workspace(bytes, capacity);
        }
        Ok(())
    }

    /// Validates and plans the encoding of `extent` items of `input`.
    pub fn record_commands(
        &mut self,
        input: BufferRange,
        outputs: RunLengthOutputRanges,
        extent: InputExtent,
    ) -> (r: Result<RunLengthCommands, Error>)
        requires
            old(self).wf(),
        ensures
            final(self).wf(),
            final(self).limits == old(self).limits,
            match encode_error(input, outputs, extent, old(self).limits) {
                Some(e) => r == Err::<RunLengthCommands, Error>(e),
                None => r is Ok,
            },
            r matches Ok(RunLengthCommands::ClearCount { run_count }) ==> extent.capacity_spec() == 0
                && run_count == outputs.run_count,
            r matches Ok(RunLengthCommands::Encode { input: i, unique_values, run_lengths, run_count, input_count, capacity, fixed_items, groups, params, scan }) ==> {
                let cap = extent.capacity_spec();
                let bytes = (cap * ITEM_SIZE_BYTES) as u64;
                let w = div_ceil(cap as int, BLOCK_SIZE as int);
                let m = old(self).limits.max_compute_workgroups_per_dimension;
                &&& cap > 0
                &&& capacity == cap
                &&& i == (BufferRange { size: bytes, ..input })
                &&& unique_values == (BufferRange { size: bytes, ..outputs.unique_values })
                &&& run_lengths == (BufferRange { size: bytes, ..outputs.run_lengths })
                &&& run_count == (BufferRange { size: COUNT_SIZE_BYTES, ..outputs.run_count })
                &&& input_count == (match extent.count_spec() {
                    Some(c) => Some(BufferRange { size: COUNT_SIZE_BYTES, ..c }),
                    None => None,
                })
                &&& fixed_items == (match extent {
                    InputExtent::Fixed(n) => n,
                    InputExtent::Counted { .. } => 0,
                })
                &&& groups.0 == (if w <= m { w } else { m as int })
                &&& groups.1 == div_ceil(w, m as int)
                &&& params@ == seq![cap, fixed_items, groups.0, if extent.count_spec() is Some { 1u32 } else { 0u32 }]
                &&& final(self).heads.capacity_bytes >= bytes
                &&& final(self).offsets.capacity_bytes >= bytes
                &&& (cap >= 2 ==> scan_plan_spec(scan, cap as nat, final(self).scanner.per(), ScanMode::Exclusive, true))
                &&& (cap == 1 ==> scan == ScanCommands::Clear { bytes: 4 })
            },
            r matches Ok(RunLengthCommands::Encode { input_count, fixed_items, params, .. }) ==> match extent {
                InputExtent::Counted { count, .. } => input_count == Some(BufferRange { size: COUNT_SIZE_BYTES, ..count })
                    && fixed_items == 0 && params@[3] == 1,
                InputExtent::Fixed(n) => input_count is None && fixed_items == n && params@[3] == 0,
            },
            (extent matches InputExtent::Counted { count, .. } && (count.size < COUNT_SIZE_BYTES || !usage_contains(
                count.buffer.usage,
                USAGE_STORAGE,
            ) || count.buffer.id == outputs.unique_values.buffer.id || count.buffer.id
                == outputs.run_lengths.buffer.id || count.buffer.id == outputs.run_count.buffer.id)) ==> r is Err,
    {
        proof {
            if let InputExtent::Counted { count, capacity } = extent {
                if count.size < COUNT_SIZE_BYTES || !usage_contains(count.buffer.usage, USAGE_STORAGE)
                    || count.buffer.id == outputs.unique_values.buffer.id || count.buffer.id
                    == outputs.run_lengths.buffer.id || count.buffer.id == outputs.run_count.buffer.id {
                    lemma_counted_extent_checks_count(input, outputs, count, capacity, self.limits);
                }
            }
        }
        let outputs_uv = outputs.unique_values;
        let outputs_rl = outputs.run_lengths;
        let outputs_rc = outputs.run_count;
        if let Err(e) = validate_distinct_buffers(input, extent.count(), outputs_uv, outputs_rl, outputs_rc) {
            return Err(e);
        }
        if let Err(e) = outputs_rc.validate("run-length output count", COUNT_SIZE_BYTES, USAGE_STORAGE | USAGE_COPY_DST) {
            return Err(e);
        }
        if let Err(e) = outputs_rc.validate_storage_offset(&self.limits, "run-length output count") {
            return Err(e);
        }
        if let Some(c) = extent.count() {
            if let Err(e) = c.validate("run-length input count", COUNT_SIZE_BYTES, USAGE_STORAGE) {
                return Err(e);
            }
            if let Err(e) = c.validate_storage_offset(&self.limits, "run-length input count") {
                return Err(e);
            }
        }
        let capacity = extent.capacity();
        if capacity == 0 {
            return Ok(RunLengthCommands::ClearCount { run_count: outputs_rc });
        }
        let item_bytes = capacity as u64 * ITEM_SIZE_BYTES;
        if let Err(e) = validate_storage_binding_size(&self.limits, item_bytes) {
            return Err(e);
        }
        if let Err(e) = input.validate("run-length input", item_bytes, USAGE_STORAGE) {
            return Err(e);
        }
        if let Err(e) = outputs_uv.validate("run-length unique values", item_bytes, USAGE_STORAGE) {
            return Err(e);
        }
        if let Err(e) = outputs_rl.validate("run-length lengths", item_bytes, USAGE_STORAGE) {
            return Err(e);
        }
        if let Err(e) = input.validate_storage_offset(&self.limits, "run-length input") {
            return Err(e);
        }
        if let Err(e) = outputs_uv.validate_storage_offset(&self.limits, "run-length unique values") {
            return Err(e);
        }
        if let Err(e) = outputs_rl.validate_storage_offset(&self.limits, "run-length lengths") {
            return Err(e);
        }
        if let Err(e) = self.ensure_workspace(item_bytes, capacity) {
            return Err(e);
        }
        let input_count = match extent.count() {
            Some(c) => Some(c.with_size(COUNT_SIZE_BYTES)),
            None => None,
        };
        let fixed_items = extent.fixed_items();
        let groups = dispatch_dimensions(capacity, self.limits.max_compute_workgroups_per_dimension);
        let p = params(capacity, fixed_items, groups.0, input_count.is_some());
        let scan = self.scanner.plan_scan(capacity, ScanMode::Exclusive, true);
        Ok(
            RunLengthCommands::Encode {
                input: input.with_size(item_bytes),
                unique_values: outputs_uv.with_size(item_bytes),
                run_lengths: outputs_rl.with_size(item_bytes),
                run_count: outputs_rc.with_size(COUNT_SIZE_BYTES),
                input_count,
                capacity,
                fixed_items,
                groups,
                params: p,
                scan,
            },
        )
    }

    /// Timestamp spans a profiled encoding of up to `capacity` items records:
    /// the head marks, the scan's dispatches, the scatter and the finalize.
    pub fn profile_span_count(&self, capacity: u32) -> (r: u32)
        requires
            self.wf(),
        ensures
            r == (if capacity == 0 {
                0
            } else {
                step_count(capacity as nat, self.scanner.per(), true) + 3
            }),
    {
        if capacity == 0 {
            0
        } else {
            self.scanner.compute_pass_count(capacity) + 3
        }
    }
}

/// The number of runs in `s`: one per item that starts a run.
pub open spec fn run_count_spec(s: Seq<u32>) -> nat
    decreases s.len(),
{
    if s.len() == 0 {
        0
    } else if s.len() == 1 {
        1
    } else {
        run_count_spec(s.drop_last()) + if s[s.len() - 1] != s[s.len() - 2] {
            1nat
        } else {
            0nat
        }
    }
}

/// The number of adjacent runs in a host slice: one plus the number of
/// neighbouring pairs that differ.
pub fn run_count(input: &[u32]) -> (r: usize)
    ensures
        r == run_count_spec(input@),
{
    if input.len() == 0 {
        return 0;
    }
    let mut count: usize = 1;
    let mut i: usize = 1;
    while i < input.len()
        invariant
            1 <= i <= input@.len(),
            count == run_count_spec(input@.take(i as int)),
            count <= i,
        decreases input.len() - i,
    {
        assert(input@.take(i + 1).drop_last() =~= input@.take(i as int));
        if input[i] != input[i - 1] {
            count = count + 1;
        }
        i = i + 1;
    }
    assert(input@.take(i as int) =~= input@);
    count
}

} // verus!
