use vstd::prelude::*;

use crate::common::buffers::{
    limits_binding_spec, offset_spec, validate_spec, validate_storage_binding_size, BufferRange,
    DeviceLimits, USAGE_COPY_DST, USAGE_STORAGE,
};
use crate::common::dispatch::{
    hierarchy_levels, hierarchy_passes, hierarchy_spec, items_after, lemma_hierarchy_passes_bound,
    lemma_hierarchy_reaches_one, lemma_items_after_monotone, HierarchyLevel,
};
use crate::common::math::{checked_u32, div_ceil, lemma_div_ceil};
use crate::common::workspace::ReusableBuffer;
use crate::error::Error;
use crate::sort::KeyValue;

use super::pipeline::{dispatch_dimensions, output_items, BLOCK_SIZE, MAX_WORKGROUPS_X};

verus! {

/// Bytes of one `(key, value)` record.
pub const PAIR_SIZE_BYTES: u64 = 8;

/// Bytes of the GPU-resident item count.
pub const COUNT_SIZE_BYTES: u64 = 4;

/// The record written for an empty input: the largest key and value.
pub fn identity() -> (r: KeyValue)
    ensures
        r == (KeyValue { key: u32::MAX, value: u32::MAX }),
{
    KeyValue::new(u32::MAX, u32::MAX)
}

/// What a cached set of fixed-length bind groups was built for.
#[derive(Clone, Copy, Debug, PartialEq, Eq, Structural)]
pub struct FixedBindingKey {
    pub input: u64,
    pub input_offset: u64,
    pub output: u64,
    pub output_offset: u64,
    pub num_items: u32,
}

/// What a cached set of counted bind groups was built for.
#[derive(Clone, Copy, Debug, PartialEq, Eq, Structural)]
pub struct CountedBindingKey {
    pub input: u64,
    pub input_offset: u64,
    pub output: u64,
    pub output_offset: u64,
    pub count: u64,
    pub count_offset: u64,
    pub capacity: u32,
}

/// A buffer that a level of the selection reads or writes: the caller's
/// input or output range, or one of the two scratch buffers from offset zero.
#[derive(Clone, Copy, Debug, PartialEq, Eq, Structural)]
pub enum ArgminSlot {
    Input,
    ScratchA,
    ScratchB,
    Output,
}

/// One level of the selection: the records it folds, the buffer it reads
/// and the one it writes, its four parameter words and its workgroup grid.
#[derive(Clone, Copy, Debug)]
pub struct ArgminPass {
    pub level: HierarchyLevel,
    pub source: ArgminSlot,
    pub destination: ArgminSlot,
    pub params: (u32, u32, u32, u32),
    pub groups: (u32, u32),
}

/// The scratch buffer that level `index` writes unless it is the last:
/// the levels alternate, starting with the first scratch buffer.
pub open spec fn scratch_slot(index: int) -> ArgminSlot {
    if index % 2 == 0 {
        ArgminSlot::ScratchA
    } else {
        ArgminSlot::ScratchB
    }
}

/// Where level `index` writes: the output once it folds to one record, else
/// its scratch buffer.
pub open spec fn destination_slot(level: HierarchyLevel, index: int) -> ArgminSlot {
    if level.output_items == 1 {
        ArgminSlot::Output
    } else {
        scratch_slot(index)
    }
}

/// Where level `index` reads: the input first, then what the level before wrote.
pub open spec fn source_slot(index: int) -> ArgminSlot {
    if index == 0 {
        ArgminSlot::Input
    } else {
        scratch_slot(index - 1)
    }
}

/// The commands of one selection.
#[derive(Clone, Debug)]
pub enum ArgminCommands {
    /// The input is empty: copy [`identity`] into the output.
    Identity,
    /// Run `passes` in order; `rebuilt` says whether their bind groups were
    /// created anew rather than taken from the cache.
    Passes { passes: Vec<ArgminPass>, rebuilt: bool },
}

/// Level `index` of a selection over `capacity` records. A fixed-length
/// level's parameters are `[input_items, 0, 0, 0]`; a counted level's are
/// `[capacity, index, output_items, 0]`.
pub open spec fn pass_spec(level: HierarchyLevel, index: int, capacity: u32, counted: bool) -> ArgminPass {
    ArgminPass {
        level,
        source: source_slot(index),
        destination: destination_slot(level, index),
        params: if counted {
            (capacity, index as u32, level.output_items, 0)
        } else {
            (level.input_items, 0, 0, 0)
        },
        groups: (
            if level.output_items <= MAX_WORKGROUPS_X {
                level.output_items
            } else {
                MAX_WORKGROUPS_X
            },
            div_ceil(level.output_items as int, MAX_WORKGROUPS_X as int) as u32,
        ),
    }
}

/// The passes that fold `capacity` records into one.
pub open spec fn passes_spec(passes: Seq<ArgminPass>, capacity: u32, counted: bool) -> bool {
    let levels = hierarchy_spec(capacity as nat, BLOCK_SIZE as nat);
    &&& passes.len() == levels.len()
    &&& forall|i: int|
        0 <= i < passes.len() ==> #[trigger] passes[i] == pass_spec(levels[i], i, capacity, counted)
}

/// Scratch sizes in records: the first level's output when more than one
/// level runs, and the second level's output when more than two run;
/// zero when that buffer is unused.
pub open spec fn scratch_items(n: nat) -> (nat, nat) {
    let a = items_after(n, BLOCK_SIZE as nat, 1);
    let b = items_after(n, BLOCK_SIZE as nat, 2);
    (if a > 1 {
        a
    } else {
        0
    }, if a > 1 && b > 1 {
        b
    } else {
        0
    })
}

/// The error, if any, of the caller's output range.
pub open spec fn output_error(output: BufferRange, limits: DeviceLimits) -> Option<Error> {
    let bind = limits_binding_spec(limits, PAIR_SIZE_BYTES);
    let v = validate_spec(output, "argmin output", PAIR_SIZE_BYTES, USAGE_STORAGE | USAGE_COPY_DST);
    let o = offset_spec(output, limits.min_storage_buffer_offset_alignment as u64, "argmin output");
    if bind is Err {
        Some(bind->Err_0)
    } else if v is Err {
        Some(v->Err_0)
    } else if o is Err {
        Some(o->Err_0)
    } else {
        None
    }
}

/// The error, if any, of an input range that must hold `items` records.
pub open spec fn input_error(input: BufferRange, items: u32, limits: DeviceLimits) -> Option<Error> {
    let bytes = (items * PAIR_SIZE_BYTES) as u64;
    let bind = limits_binding_spec(limits, bytes);
    let v = validate_spec(input, "argmin input", bytes, USAGE_STORAGE);
    let o = offset_spec(input, limits.min_storage_buffer_offset_alignment as u64, "argmin input");
    if bind is Err {
        Some(bind->Err_0)
    } else if v is Err {
        Some(v->Err_0)
    } else if o is Err {
        Some(o->Err_0)
    } else {
        None
    }
}

/// The validation error, if any, of a fixed-length selection.
pub open spec fn fixed_error(input: BufferRange, output: BufferRange, n: u32, limits: DeviceLimits) -> Option<Error> {
    if input.buffer.id == output.buffer.id {
        Some(Error::BufferAlias { first: "argmin input", second: "argmin output" })
    } else if output_error(output, limits) is Some {
        output_error(output, limits)
    } else if n == 0 {
        None
    } else {
        input_error(input, n, limits)
    }
}

/// The validation error, if any, of a counted selection.
pub open spec fn counted_error(
    input: BufferRange,
    output: BufferRange,
    count: BufferRange,
    capacity: u32,
    limits: DeviceLimits,
) -> Option<Error> {
    let cv = validate_spec(count, "argmin item count", COUNT_SIZE_BYTES, USAGE_STORAGE);
    let co = offset_spec(count, limits.min_storage_buffer_offset_alignment as u64, "argmin item count");
    if input.buffer.id == output.buffer.id {
        Some(Error::BufferAlias { first: "argmin input", second: "argmin output" })
    } else if input.buffer.id == count.buffer.id {
        Some(Error::BufferAlias { first: "argmin input", second: "argmin item count" })
    } else if output.buffer.id == count.buffer.id {
        Some(Error::BufferAlias { first: "argmin output", second: "argmin item count" })
    } else if output_error(output, limits) is Some {
        output_error(output, limits)
    } else if cv is Err {
        Some(cv->Err_0)
    } else if co is Err {
        Some(co->Err_0)
    } else if capacity == 0 {
        None
    } else {
        input_error(input, capacity, limits)
    }
}

/// The error, if any, of preparing scratch for `n` records.
pub open spec fn scratch_error(n: u32, limits: DeviceLimits) -> Option<Error> {
    let (a, b) = scratch_items(n as nat);
    let bind_a = limits_binding_spec(limits, (a * PAIR_SIZE_BYTES) as u64);
    let bind_b = limits_binding_spec(limits, (b * PAIR_SIZE_BYTES) as u64);
    if a > 0 && bind_a is Err {
        Some(bind_a->Err_0)
    } else if b > 0 && bind_b is Err {
        Some(bind_b->Err_0)
    } else {
        None
    }
}

fn validate_output(output: BufferRange, limits: &DeviceLimits) -> (r: Result<(), Error>)
    ensures
        match output_error(output, *limits) {
            Some(e) => r == Err::<(), Error>(e),
            None => r == Ok::<(), Error>(()),
        },
{
    if let Err(e) = validate_storage_binding_size(limits, PAIR_SIZE_BYTES) {
        return Err(e);
    }
    if let Err(e) = output.validate("argmin output", PAIR_SIZE_BYTES, USAGE_STORAGE | USAGE_COPY_DST) {
        return Err(e);
    }
    output.validate_storage_offset(limits, "argmin output")
}

fn validate_input(input: BufferRange, items: u32, limits: &DeviceLimits) -> (r: Result<(), Error>)
    ensures
        match input_error(input, items, *limits) {
            Some(e) => r == Err::<(), Error>(e),
            None => r == Ok::<(), Error>(()),
        },
{
    let bytes = items as u64 * PAIR_SIZE_BYTES;
    if let Err(e) = validate_storage_binding_size(limits, bytes) {
        return Err(e);
    }
    if let Err(e) = input.validate("argmin input", bytes, USAGE_STORAGE) {
        return Err(e);
    }
    input.validate_storage_offset(limits, "argmin input")
}

/// The passes of a selection over `capacity > 0` records.
fn build_passes(capacity: u32, counted: bool) -> (r: Vec<ArgminPass>)
    ensures
        passes_spec(r@, capacity, counted),
        forall|i: int|
            0 <= i < r@.len() ==> (#[trigger] r@[i]).groups.0 <= MAX_WORKGROUPS_X && r@[i].groups.0 * r@[i].groups.1
                >= r@[i].level.output_items,
{
    let levels = hierarchy_levels(capacity, BLOCK_SIZE);
    let ghost spec = hierarchy_spec(capacity as nat, BLOCK_SIZE as nat);
    proof {
        lemma_hierarchy_passes_bound(capacity as nat, BLOCK_SIZE as nat);
    }
    let mut passes: Vec<ArgminPass> = Vec::new();
    let mut i: usize = 0;
    while i < levels.len()
        invariant
            levels@ == spec,
            spec == hierarchy_spec(capacity as nat, BLOCK_SIZE as nat),
            levels.len() <= capacity,
            i <= levels.len(),
            passes@.len() == i,
            forall|j: int| 0 <= j < i ==> #[trigger] passes@[j] == pass_spec(spec[j], j, capacity, counted),
        decreases levels.len() - i,
    {
        let level = levels[i];
        let groups = dispatch_dimensions(level.output_items);
        let params = if counted {
            (capacity, i as u32, level.output_items, 0u32)
        } else {
            (level.input_items, 0u32, 0u32, 0u32)
        };
        let source = if i == 0 {
            ArgminSlot::Input
        } else if (i - 1) % 2 == 0 {
            ArgminSlot::ScratchA
        } else {
            ArgminSlot::ScratchB
        };
        let destination = if level.output_items == 1 {
            ArgminSlot::Output
        } else if i % 2 == 0 {
            ArgminSlot::ScratchA
        } else {
            ArgminSlot::ScratchB
        };
        passes.push(ArgminPass { level, source, destination, params, groups });
        i = i + 1;
    }
    proof {
        lemma_argmin_grids_cover(passes@, capacity, counted);
    }
    passes
}

/// A selection's levels form one chain: the first reads the input, each
/// later level reads what the level before it wrote, and only the last
/// writes the output, so the scratch buffers alone carry partial results.
pub proof fn lemma_argmin_routing(passes: Seq<ArgminPass>, capacity: u32, counted: bool)
    requires
        capacity > 0,
        passes_spec(passes, capacity, counted),
    ensures
        passes.len() >= 1,
        passes[0].source == ArgminSlot::Input,
        passes[passes.len() - 1].destination == ArgminSlot::Output,
        forall|i: int|
            0 <= i < passes.len() - 1 ==> passes[i].destination != ArgminSlot::Output && #[trigger] passes[i
                + 1].source == passes[i].destination,
        forall|i: int|
            0 <= i < passes.len() ==> #[trigger] passes[i].source != ArgminSlot::Output && passes[i].destination
                != ArgminSlot::Input,
        forall|i: int|
            0 <= i < passes.len() && #[trigger] passes[i].destination == ArgminSlot::ScratchA ==> passes[i].level.output_items
                <= scratch_items(capacity as nat).0,
        forall|i: int|
            0 <= i < passes.len() && #[trigger] passes[i].destination == ArgminSlot::ScratchB ==> passes[i].level.output_items
                <= scratch_items(capacity as nat).1,
{
    let n = capacity as nat;
    let per = BLOCK_SIZE as nat;
    let len = hierarchy_passes(n, per);
    lemma_hierarchy_reaches_one(n, per, len);
    assert forall|i: int| 0 <= i < passes.len() - 1 implies passes[i].destination != ArgminSlot::Output
        && #[trigger] passes[i + 1].source == passes[i].destination by {
        lemma_hierarchy_reaches_one(n, per, (i + 1) as nat);
        lemma_items_after_monotone(n, per, 0, (i + 1) as nat);
        assert(items_after(n, per, 0) == n);
    }
    assert forall|i: int| 0 <= i < passes.len() && #[trigger] passes[i].destination == ArgminSlot::ScratchA
        implies passes[i].level.output_items <= scratch_items(capacity as nat).0 by {
        lemma_hierarchy_reaches_one(n, per, (i + 1) as nat);
        lemma_items_after_monotone(n, per, 1, (i + 1) as nat);
        lemma_items_after_monotone(n, per, 0, (i + 1) as nat);
        assert(items_after(n, per, 0) == n);
    }
    assert forall|i: int| 0 <= i < passes.len() && #[trigger] passes[i].destination == ArgminSlot::ScratchB
        implies passes[i].level.output_items <= scratch_items(capacity as nat).1 by {
        lemma_hierarchy_reaches_one(n, per, (i + 1) as nat);
        lemma_items_after_monotone(n, per, 2, (i + 1) as nat);
        lemma_items_after_monotone(n, per, 1, 2);
        lemma_items_after_monotone(n, per, 0, (i + 1) as nat);
        assert(items_after(n, per, 0) == n);
    }
}

/// Every level's workgroup grid covers the level: at most
/// [`MAX_WORKGROUPS_X`] workgroups across, and at least one workgroup for
/// each partial result the level writes, so every input record is compared.
pub proof fn lemma_argmin_grids_cover(passes: Seq<ArgminPass>, capacity: u32, counted: bool)
    requires
        passes_spec(passes, capacity, counted),
    ensures
        forall|i: int|
            0 <= i < passes.len() ==> (#[trigger] passes[i]).groups.0 <= MAX_WORKGROUPS_X && passes[i].groups.0
                * passes[i].groups.1 >= passes[i].level.output_items,
{
    assert forall|i: int| 0 <= i < passes.len() implies (#[trigger] passes[i]).groups.0 <= MAX_WORKGROUPS_X
        && passes[i].groups.0 * passes[i].groups.1 >= passes[i].level.output_items by {
        let out = passes[i].level.output_items as int;
        let m = MAX_WORKGROUPS_X as int;
        lemma_div_ceil(out, m);
        let g1 = div_ceil(out, m);
        assert(passes[i].groups.1 == g1);
        if out <= m {
            if out > 0 {
                assert(g1 >= 1);
                assert(out * g1 >= out) by (nonlinear_arith)
                    requires
                        g1 >= 1,
                        out > 0,
                ;
            }
        } else {
            assert(m * g1 >= out);
        }
    }
}

/// Selection state: the device limits, the two scratch buffers that the
/// levels alternate between, and what the cached bind groups were built for.
///
/// The selector picks the lexicographically smallest `(key, value)` record:
/// a smaller key wins, and equal keys are resolved by the smaller value.
pub struct ArgminByKey {
    pub limits: DeviceLimits,
    pub scratch_a: ReusableBuffer,
    pub scratch_b: ReusableBuffer,
    pub fixed_bindings: Option<FixedBindingKey>,
    pub counted_bindings: Option<CountedBindingKey>,
}

impl ArgminByKey {
    /// The state after preparing scratch for `n` records. A scratch buffer
    /// grows only once its binding size passed the device limits, and any
    /// growth drops both binding caches.
    pub open spec fn prepared(self, n: u32) -> ArgminByKey {
        let (a, b) = scratch_items(n as nat);
        let a_bytes = (a * PAIR_SIZE_BYTES) as u64;
        let b_bytes = (b * PAIR_SIZE_BYTES) as u64;
        let do_a = a > 0 && limits_binding_spec(self.limits, a_bytes) is Ok;
        let do_b = do_a && b > 0 && limits_binding_spec(self.limits, b_bytes) is Ok;
        let grew = (do_a && self.scratch_a.needs_growth(a_bytes)) || (do_b && self.scratch_b.needs_growth(b_bytes));
        ArgminByKey {
            limits: self.limits,
            scratch_a: if do_a {
                self.scratch_a.after_ensure(a_bytes)
            } else {
                self.scratch_a
            },
            scratch_b: if do_b {
                self.scratch_b.after_ensure(b_bytes)
            } else {
                self.scratch_b
            },
            fixed_bindings: if grew {
                None
            } else {
                self.fixed_bindings
            },
            counted_bindings: if grew {
                None
            } else {
                self.counted_bindings
            },
        }
    }

    /// A selector with no scratch and no cached bind groups.
    pub fn new(limits: DeviceLimits) -> (r: ArgminByKey)
        ensures
            r.limits == limits,
            !r.scratch_a.allocated,
            !r.scratch_b.allocated,
            r.fixed_bindings is None,
            r.counted_bindings is None,
    {
        ArgminByKey {
            limits,
            scratch_a: ReusableBuffer::new(),
            scratch_b: ReusableBuffer::new(),
            fixed_bindings: None,
            counted_bindings: None,
        }
    }

    /// The required size of the caller-owned output.
    pub fn output_buffer_size() -> (r: u64)
        ensures
            r == PAIR_SIZE_BYTES,
    {
        PAIR_SIZE_BYTES
    }

    /// Checks a host slice of `len` records before it is uploaded: `None`
    /// when it is empty (the answer is [`identity`]), else its item count.
    pub fn plan_host_argmin(&self, len: usize) -> (r: Result<Option<u32>, Error>)
        ensures
            len == 0 ==> r == Ok::<Option<u32>, Error>(None),
            len > u32::MAX ==> r == Err::<Option<u32>, Error>(
                Error::ElementCountTooLarge { count: len as u64 },
            ),
            0 < len <= u32::MAX ==> r == match limits_binding_spec(
                self.limits,
                (len * PAIR_SIZE_BYTES) as u64,
            ) {
                Ok(_) => Ok::<Option<u32>, Error>(Some(len as u32)),
                Err(e) => Err(e),
            },
    {
        if len == 0 {
            return Ok(None);
        }
        let n = match checked_u32(len as u64) {
            Ok(n) => n,
            Err(e) => return Err(e),
        };
        match validate_storage_binding_size(&self.limits, n as u64 * PAIR_SIZE_BYTES) {
            Ok(()) => Ok(Some(n)),
            Err(e) => Err(e),
        }
    }

    /// Grows the scratch for a selection over `capacity` records.
    fn prepare_scratch(&mut self, capacity: u32) -> (r: Result<(), Error>)
        ensures
            *final(self) == old(self).prepared(capacity),
            match scratch_error(capacity, old(self).limits) {
                Some(e) => r == Err::<(), Error>(e),
                None => r == Ok::<(), Error>(()),
            },
    {
        proof {
            lemma_items_after_monotone(capacity as nat, BLOCK_SIZE as nat, 0, 1);
            lemma_items_after_monotone(capacity as nat, BLOCK_SIZE as nat, 1, 2);
            assert(items_after(capacity as nat, BLOCK_SIZE as nat, 1) == div_ceil(
                items_after(capacity as nat, BLOCK_SIZE as nat, 0) as int,
                BLOCK_SIZE as int,
            ));
            assert(items_after(capacity as nat, BLOCK_SIZE as nat, 2) == div_ceil(
                items_after(capacity as nat, BLOCK_SIZE as nat, 1) as int,
                BLOCK_SIZE as int,
            ));
        }
        let first = output_items(capacity);
        if first <= 1 {
            return Ok(());
        }
        let first_bytes = first as u64 * PAIR_SIZE_BYTES;
        if let Err(e) = validate_storage_binding_size(&self.limits, first_bytes) {
            return Err(e);
        }
        if self.scratch_a.ensure(first_bytes) {
            self.fixed_bindings = None;
            self.counted_bindings = None;
        }
        let second = output_items(first);
        if second > 1 {
            let second_bytes = second as u64 * PAIR_SIZE_BYTES;
            if let Err(e) = validate_storage_binding_size(&self.limits, second_bytes) {
                return Err(e);
            }
            if self.scratch_b.ensure(second_bytes) {
                self.fixed_bindings = None;
                self.counted_bindings = None;
            }
        }
        Ok(())
    }

    /// Prepares scratch ahead of a selection over up to `capacity` records.
    pub fn reserve(&mut self, capacity: u32) -> (r: Result<(), Error>)
        ensures
            capacity == 0 ==> *final(self) == *old(self) && r is Ok,
            capacity > 0 ==> *final(self) == old(self).prepared(capacity) && match scratch_error(
                capacity,
                old(self).limits,
            ) {
                Some(e) => r == Err::<(), Error>(e),
                None => r is Ok,
            },
    {
        if capacity > 0 {
            self.prepare_scratch(capacity)
        } else {
            Ok(())
        }
    }

    /// Validates and plans a selection over the first `num_items` records of
    /// `input`, writing one record to `output`.
    ///
    /// An empty input copies [`identity`] into the output. Otherwise the
    /// levels of [`hierarchy_spec`] run in order, the last one writing the
    /// output and the others alternating between the two scratch buffers.
    pub fn record_argmin(&mut self, input: BufferRange, output: BufferRange, num_items: u32) -> (r: Result<
        ArgminCommands,
        Error,
    >)
        ensures
            match fixed_error(input, output, num_items, old(self).limits) {
                Some(e) => r == Err::<ArgminCommands, Error>(e) && *final(self) == *old(self),
                None => if num_items == 0 {
                    r matches Ok(ArgminCommands::Identity) && *final(self) == *old(self)
                } else {
                    let prepared = old(self).prepared(num_items);
                    let key = FixedBindingKey {
                        input: input.buffer.id,
                        input_offset: input.offset,
                        output: output.buffer.id,
                        output_offset: output.offset,
                        num_items,
                    };
                    match scratch_error(num_items, old(self).limits) {
                        Some(e) => r == Err::<ArgminCommands, Error>(e) && *final(self) == prepared,
                        None => {
                            &&& r matches Ok(ArgminCommands::Passes { passes, rebuilt }) && passes_spec(
                                passes@,
                                num_items,
                                false,
                            ) && rebuilt == (prepared.fixed_bindings != Some(key))
                            &&& *final(self) == (ArgminByKey {
                                fixed_bindings: Some(key),
                                ..prepared
                            })
                        },
                    }
                },
            },
    {
        if input.buffer.id == output.buffer.id {
            return Err(Error::BufferAlias { first: "argmin input", second: "argmin output" });
        }
        if let Err(e) = validate_output(output, &self.limits) {
            return Err(e);
        }
        if num_items == 0 {
            return Ok(ArgminCommands::Identity);
        }
        if let Err(e) = validate_input(input, num_items, &self.limits) {
            return Err(e);
        }
        if let Err(e) = self.prepare_scratch(num_items) {
            return Err(e);
        }
        let key = FixedBindingKey {
            input: input.buffer.id,
            input_offset: input.offset,
            output: output.buffer.id,
            output_offset: output.offset,
            num_items,
        };
        let rebuilt = match self.fixed_bindings {
            Some(cached) => cached != key,
            None => true,
        };
        self.fixed_bindings = Some(key);
        let passes = build_passes(num_items, false);
        Ok(ArgminCommands::Passes { passes, rebuilt })
    }

    /// Validates and plans a selection over a prefix of `input` whose length
    /// stays on the GPU in `count`, clamped to `capacity`.
    ///
    /// The three buffers must be distinct. A zero capacity copies
    /// [`identity`] into the output.
    pub fn record_argmin_counted(
        &mut self,
        input: BufferRange,
        output: BufferRange,
        count: BufferRange,
        capacity: u32,
    ) -> (r: Result<ArgminCommands, Error>)
        ensures
            match counted_error(input, output, count, capacity, old(self).limits) {
                Some(e) => r == Err::<ArgminCommands, Error>(e) && *final(self) == *old(self),
                None => if capacity == 0 {
                    r matches Ok(ArgminCommands::Identity) && *final(self) == *old(self)
                } else {
                    let prepared = old(self).prepared(capacity);
                    let key = CountedBindingKey {
                        input: input.buffer.id,
                        input_offset: input.offset,
                        output: output.buffer.id,
                        output_offset: output.offset,
                        count: count.buffer.id,
                        count_offset: count.offset,
                        capacity,
                    };
                    match scratch_error(capacity, old(self).limits) {
                        Some(e) => r == Err::<ArgminCommands, Error>(e) && *final(self) == prepared,
                        None => {
                            &&& r matches Ok(ArgminCommands::Passes { passes, rebuilt }) && passes_spec(
                                passes@,
                                capacity,
                                true,
                            ) && rebuilt == (prepared.counted_bindings != Some(key))
                            &&& *final(self) == (ArgminByKey {
                                counted_bindings: Some(key),
                                ..prepared
                            })
                        },
                    }
                },
            },
    {
        if input.buffer.id == output.buffer.id {
            return Err(Error::BufferAlias { first: "argmin input", second: "argmin output" });
        }
        if input.buffer.id == count.buffer.id {
            return Err(Error::BufferAlias { first: "argmin input", second: "argmin item count" });
        }
        if output.buffer.id == count.buffer.id {
            return Err(Error::BufferAlias { first: "argmin output", second: "argmin item count" });
        }
        if let Err(e) = validate_output(output, &self.limits) {
            return Err(e);
        }
        if let Err(e) = count.validate("argmin item count", COUNT_SIZE_BYTES, USAGE_STORAGE) {
            return Err(e);
        }
        if let Err(e) = count.validate_storage_offset(&self.limits, "argmin item count") {
            return Err(e);
        }
        if capacity == 0 {
            return Ok(ArgminCommands::Identity);
        }
        if let Err(e) = validate_input(input, capacity, &self.limits) {
            return Err(e);
        }
        if let Err(e) = self.prepare_scratch(capacity) {
            return Err(e);
        }
        let key = CountedBindingKey {
            input: input.buffer.id,
            input_offset: input.offset,
            output: output.buffer.id,
            output_offset: output.offset,
            count: count.buffer.id,
            count_offset: count.offset,
            capacity,
        };
        let rebuilt = match self.counted_bindings {
            Some(cached) => cached != key,
            None => true,
        };
        self.counted_bindings = Some(key);
        let passes = build_passes(capacity, true);
        Ok(ArgminCommands::Passes { passes, rebuilt })
    }
}

} // verus!
