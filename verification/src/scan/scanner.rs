use vstd::prelude::*;

use crate::common::buffers::{validate_buffer, validate_spec, BufferRange, GpuBuffer, USAGE_COPY_DST, USAGE_COPY_SRC, USAGE_STORAGE};
use crate::common::dispatch::{
    hierarchy_passes, items_after, lemma_hierarchy_passes_bound, lemma_hierarchy_reaches_one,
};
use crate::common::math::{align_to, div_ceil, div_ceil_u32, lemma_div_ceil};
use crate::error::Error;

use super::pipeline::{
    compute_pass_count as pipeline_pass_count, get_scratch_size, lemma_level_bytes_bounds,
    lemma_levels_at_most_four, lemma_power_of_two_256, lemma_scratch_prefix_bounds, level_bytes,
    scan_levels, scratch_prefix, scratch_size_spec, ScanConfig,
};

verus! {

/// Whether each output includes its own input.
#[derive(Clone, Copy, Debug, PartialEq, Eq, Structural)]
pub enum ScanMode {
    Inclusive,
    Exclusive,
}

/// The buffer one scan level lives in.
#[derive(Clone, Copy, Debug, PartialEq, Eq, Structural)]
pub enum LevelBuffer {
    /// The caller's output: the first level.
    Output,
    /// The scanner's scratch buffer: the block totals of the level below.
    Scratch,
}

/// One level of a scan: `count` words at byte `offset` of `buffer`.
#[derive(Clone, Copy, Debug, PartialEq, Eq, Structural)]
pub struct ScanLevel {
    pub buffer: LevelBuffer,
    pub offset: u64,
    pub count: u32,
}

/// The kernel one scan dispatch runs.
#[derive(Clone, Copy, Debug, PartialEq, Eq, Structural)]
pub enum ScanKernel {
    /// Scans the caller's input into the output, inclusively.
    InclusiveInput,
    /// Scans the caller's input into the output, exclusively.
    ExclusiveInput,
    /// Scans a level of block totals in place.
    Inclusive,
    /// Adds the scanned totals of the level above back into a level.
    Add,
}

/// One dispatch: `kernel` over level `data`, with level `auxiliary` holding
/// one total per workgroup.
#[derive(Clone, Copy, Debug, PartialEq, Eq, Structural)]
pub struct ScanStep {
    pub kernel: ScanKernel,
    pub data: u32,
    pub auxiliary: u32,
}

/// The commands of one scan.
pub enum ScanCommands {
    /// No items.
    Nothing,
    /// One item, inclusive: copy it.
    Copy { bytes: u64 },
    /// One item, exclusive: its prefix is zero.
    Clear { bytes: u64 },
    /// The level layout and dispatches, in order.
    Levels { levels: Vec<ScanLevel>, steps: Vec<ScanStep> },
}

/// Level `k` of a scan of `n` items.
pub open spec fn level_spec(n: nat, per: nat, k: nat) -> ScanLevel {
    if k == 0 {
        ScanLevel { buffer: LevelBuffer::Output, offset: 0, count: n as u32 }
    } else {
        ScanLevel {
            buffer: LevelBuffer::Scratch,
            offset: scratch_prefix(n, per, (k - 1) as nat) as u64,
            count: items_after(n, per, k) as u32,
        }
    }
}

/// Dispatches a scan records: one scan per level, then adds from the top
/// level down to level `first`.
pub open spec fn step_count(n: nat, per: nat, propagate_output: bool) -> nat {
    let l = scan_levels(n, per);
    if propagate_output {
        2 * l
    } else {
        (2 * l - 1) as nat
    }
}

/// Dispatch `i` of a scan of `n` items.
pub open spec fn step_spec(n: nat, per: nat, mode: ScanMode, i: nat) -> ScanStep {
    let l = scan_levels(n, per);
    if i < l {
        ScanStep {
            kernel: if i == 0 {
                match mode {
                    ScanMode::Inclusive => ScanKernel::InclusiveInput,
                    ScanMode::Exclusive => ScanKernel::ExclusiveInput,
                }
            } else {
                ScanKernel::Inclusive
            },
            data: i as u32,
            auxiliary: (i + 1) as u32,
        }
    } else {
        let data = l - 1 - (i - l);
        ScanStep { kernel: ScanKernel::Add, data: data as u32, auxiliary: (data + 1) as u32 }
    }
}

/// The scan's buffer-validation error, if any, for `n > 0` items.
pub open spec fn scan_error(input: GpuBuffer, output: GpuBuffer, n: u32) -> Option<Error> {
    let bytes = (n * 4) as u64;
    let i = validate_spec(BufferRange::whole_spec(input), "scan input", bytes, USAGE_COPY_SRC);
    let o = validate_spec(
        BufferRange::whole_spec(output),
        "scan output",
        bytes,
        USAGE_COPY_DST | USAGE_STORAGE,
    );
    if i is Err {
        Some(i->Err_0)
    } else if o is Err {
        Some(o->Err_0)
    } else {
        None
    }
}

/// The multi-level plan of a scan of `n >= 2` items, `per` to a block: the
/// level layout of [`level_spec`] and the steps of [`step_spec`] in `mode`.
pub open spec fn scan_plan_spec(scan: ScanCommands, n: nat, per: nat, mode: ScanMode, propagate_output: bool) -> bool {
    match scan {
        ScanCommands::Levels { levels, steps } => {
            &&& levels@.len() == scan_levels(n, per) + 1
            &&& forall|k: int| 0 <= k < levels@.len() ==> #[trigger] levels@[k] == level_spec(n, per, k as nat)
            &&& steps@.len() == step_count(n, per, propagate_output)
            &&& forall|i: int| 0 <= i < steps@.len() ==> #[trigger] steps@[i] == step_spec(n, per, mode, i as nat)
        },
        _ => false,
    }
}

/// The outcome of a scan of `num_items` items from `input` into `output` by a
/// scanner that was `before` and is `after`: nothing for no items, the
/// buffers' error, one copied or cleared word for one item, and otherwise the
/// levels and steps of the scan, with scratch for them.
pub open spec fn scan_outcome(
    r: Result<ScanCommands, Error>,
    input: GpuBuffer,
    output: GpuBuffer,
    num_items: u32,
    mode: ScanMode,
    propagate_output: bool,
    before: Scanner,
    after: Scanner,
) -> bool {
    &&& num_items == 0 ==> (r matches Ok(ScanCommands::Nothing)) && after == before
    &&& num_items > 0 ==> match scan_error(input, output, num_items) {
        Some(e) => r == Err::<ScanCommands, Error>(e) && after == before,
        None => if num_items == 1 {
            after == before && r == Ok::<ScanCommands, Error>(
                match mode {
                    ScanMode::Inclusive => ScanCommands::Copy { bytes: 4 },
                    ScanMode::Exclusive => ScanCommands::Clear { bytes: 4 },
                },
            )
        } else {
            r matches Ok(ScanCommands::Levels { .. })
        },
    }
    &&& r matches Ok(ScanCommands::Levels { levels, steps }) ==> {
        let n = num_items as nat;
        let per = before.per();
        &&& num_items >= 2
        &&& after.scratch_allocated
        &&& after.scratch_size_bytes >= scratch_size_spec(n, per)
        &&& levels@.len() == scan_levels(n, per) + 1
        &&& forall|k: int| 0 <= k < levels@.len() ==> #[trigger] levels@[k] == level_spec(n, per, k as nat)
        &&& steps@.len() == step_count(n, per, propagate_output)
        &&& forall|i: int| 0 <= i < steps@.len() ==> #[trigger] steps@[i] == step_spec(n, per, mode, i as nat)
    }
}

/// Scanning state: the kernels' shape and the scratch buffer allocated so far.
pub struct Scanner {
    pub config: ScanConfig,
    pub scratch_allocated: bool,
    pub scratch_size_bytes: u64,
}

impl Scanner {
    pub open spec fn per(&self) -> nat {
        self.config.items_per_block()
    }

    /// A scanner with no scratch yet.
    pub fn new(config: ScanConfig) -> (r: Scanner)
        requires
            config.wf(),
        ensures
            r.config == config,
            !r.scratch_allocated,
    {
        Scanner { config, scratch_allocated: false, scratch_size_bytes: 0 }
    }

    /// Dispatches an inclusive or exclusive scan of `num_items` items records.
    pub fn compute_pass_count(&self, num_items: u32) -> (r: u32)
        requires
            self.config.wf(),
        ensures
            r == step_count(num_items as nat, self.per(), true),
            r <= 64,
    {
        pipeline_pass_count(self.config, num_items)
    }

    /// Dispatches a block-local scan records: it skips the add into the output.
    pub fn compute_block_local_pass_count(&self, num_items: u32) -> (r: u32)
        requires
            self.config.wf(),
        ensures
            r == (if num_items > 1 {
                step_count(num_items as nat, self.per(), false)
            } else {
                0
            }),
            r <= 64,
    {
        let passes = pipeline_pass_count(self.config, num_items);
        proof {
            if num_items > 1 {
                lemma_hierarchy_reaches_one(num_items as nat, self.per(), 0);
            }
        }
        let skipped: u32 = if num_items > 1 {
            1
        } else {
            0
        };
        if passes >= skipped {
            passes - skipped
        } else {
            0
        }
    }

    /// Makes the scratch buffer large enough for a scan of `num_items` items;
    /// it is recreated at exactly the needed size when it is missing or too small.
    pub fn prepare_scratch(&mut self, num_items: u32) -> (reallocated: bool)
        requires
            old(self).config.wf(),
        ensures
            final(self).config == old(self).config,
            final(self).scratch_allocated,
            reallocated == (!old(self).scratch_allocated || scratch_size_spec(
                num_items as nat,
                old(self).per(),
            ) > old(self).scratch_size_bytes),
            reallocated ==> final(self).scratch_size_bytes == scratch_size_spec(
                num_items as nat,
                old(self).per(),
            ),
            !reallocated ==> final(self).scratch_size_bytes == old(self).scratch_size_bytes,
            final(self).scratch_size_bytes >= scratch_size_spec(num_items as nat, old(self).per()),
    {
        let needed = get_scratch_size(self.config, num_items);
        if !self.scratch_allocated || needed > self.scratch_size_bytes {
            self.scratch_allocated = true;
            self.scratch_size_bytes = needed;
            true
        } else {
            false
        }
    }

    /// Validates and plans a scan of the first `num_items` items of `input`
    /// into `output`.
    ///
    /// With `propagate_output` false the final add into the output is skipped,
    /// leaving block-local prefixes there and the scanned block totals in the
    /// scratch buffer.
    pub fn record_scan_with_mode(
        &mut self,
        input: GpuBuffer,
        output: GpuBuffer,
        num_items: u32,
        mode: ScanMode,
        propagate_output: bool,
    ) -> (r: Result<ScanCommands, Error>)
        requires
            old(self).config.wf(),
        ensures
            final(self).config == old(self).config,
            scan_outcome(r, input, output, num_items, mode, propagate_output, *old(self), *final(self)),
    {
        if num_items == 0 {
            return Ok(ScanCommands::Nothing);
        }
        let size_bytes = num_items as u64 * 4;
        if let Err(e) = validate_buffer(input, "scan input", size_bytes, USAGE_COPY_SRC) {
            return Err(e);
        }
        if let Err(e) = validate_buffer(
            output,
            "scan output",
            size_bytes,
            USAGE_COPY_DST | USAGE_STORAGE,
        ) {
            return Err(e);
        }
        Ok(self.plan_scan(num_items, mode, propagate_output))
    }

    /// Plans a scan of `num_items > 0` items whose buffers were validated.
    pub fn plan_scan(&mut self, num_items: u32, mode: ScanMode, propagate_output: bool) -> (r:
        ScanCommands)
        requires
            old(self).config.wf(),
            num_items > 0,
        ensures
            final(self).config == old(self).config,
            num_items == 1 ==> *final(self) == *old(self) && match mode {
                ScanMode::Inclusive => r == ScanCommands::Copy { bytes: 4 },
                ScanMode::Exclusive => r == ScanCommands::Clear { bytes: 4 },
            },
            num_items >= 2 ==> (r matches ScanCommands::Levels { levels, steps } && {
                let n = num_items as nat;
                let per = old(self).per();
                &&& final(self).scratch_allocated
                &&& final(self).scratch_size_bytes >= scratch_size_spec(n, per)
                &&& levels@.len() == scan_levels(n, per) + 1
                &&& forall|k: int|
                    0 <= k < levels@.len() ==> #[trigger] levels@[k] == level_spec(n, per, k as nat)
                &&& steps@.len() == step_count(n, per, propagate_output)
                &&& forall|i: int|
                    0 <= i < steps@.len() ==> #[trigger] steps@[i] == step_spec(n, per, mode, i as nat)
            }),
    {
        if num_items == 1 {
            return match mode {
                ScanMode::Inclusive => ScanCommands::Copy { bytes: 4 },
                ScanMode::Exclusive => ScanCommands::Clear { bytes: 4 },
            };
        }
        self.prepare_scratch(num_items);
        let levels = scan_level_layout(self.config, num_items);
        let steps = scan_steps(self.config, num_items, mode, propagate_output);
        ScanCommands::Levels { levels, steps }
    }

    /// Plans an inclusive scan.
    pub fn record_scan(&mut self, input: GpuBuffer, output: GpuBuffer, num_items: u32) -> (r:
        Result<ScanCommands, Error>)
        requires
            old(self).config.wf(),
        ensures
            final(self).config == old(self).config,
            scan_outcome(
                r,
                input,
                output,
                num_items,
                ScanMode::Inclusive,
                true,
                *old(self),
                *final(self),
            ),
    {
        self.record_scan_with_mode(input, output, num_items, ScanMode::Inclusive, true)
    }

    /// Plans an exclusive scan.
    pub fn record_exclusive_scan(&mut self, input: GpuBuffer, output: GpuBuffer, num_items: u32) -> (r:
        Result<ScanCommands, Error>)
        requires
            old(self).config.wf(),
        ensures
            final(self).config == old(self).config,
            scan_outcome(
                r,
                input,
                output,
                num_items,
                ScanMode::Exclusive,
                true,
                *old(self),
                *final(self),
            ),
    {
        self.record_scan_with_mode(input, output, num_items, ScanMode::Exclusive, true)
    }

    /// Plans an exclusive scan that leaves block-local prefixes in the output
    /// and the scanned block totals in scratch; also returns the items each
    /// block covers.
    pub fn record_block_local_exclusive_scan(
        &mut self,
        input: GpuBuffer,
        output: GpuBuffer,
        num_items: u32,
    ) -> (r: Result<(ScanCommands, u32), Error>)
        requires
            old(self).config.wf(),
        ensures
            final(self).config == old(self).config,
            r matches Ok(v) ==> v.1 == old(self).per(),
            scan_outcome(
                (match r {
                Ok(v) => Ok::<ScanCommands, Error>(v.0),
                Err(e) => Err::<ScanCommands, Error>(e),
            }),
                input,
                output,
                num_items,
                ScanMode::Exclusive,
                false,
                *old(self),
                *final(self),
            ),
    {
        match self.record_scan_with_mode(input, output, num_items, ScanMode::Exclusive, false) {
            Ok(c) => Ok((c, self.config.vt * self.config.block_size)),
            Err(e) => Err(e),
        }
    }
}

/// The levels of a scan of `num_items >= 2` items.
pub fn scan_level_layout(config: ScanConfig, num_items: u32) -> (r: Vec<ScanLevel>)
    requires
        config.wf(),
        num_items >= 2,
    ensures
        r@.len() == scan_levels(num_items as nat, config.items_per_block()) + 1,
        forall|k: int|
            0 <= k < r@.len() ==> #[trigger] r@[k] == level_spec(
                num_items as nat,
                config.items_per_block(),
                k as nat,
            ),
{
    let per = config.vt * config.block_size;
    let ghost n = num_items as nat;
    let ghost p = per as nat;
    let mut levels: Vec<ScanLevel> = Vec::new();
    levels.push(ScanLevel { buffer: LevelBuffer::Output, offset: 0, count: num_items });
    let mut current = num_items;
    let mut scratch_offset: u64 = 0;
    let ghost mut k: nat = 0;
    proof {
        lemma_hierarchy_passes_bound(n, p);
        lemma_hierarchy_reaches_one(n, p, 0);
        lemma_levels_at_most_four(n, p);
        lemma_power_of_two_256();
        assert(levels@[0] == level_spec(n, p, 0));
    }
    while current > 1
        invariant
            p == per,
            per >= 256,
            n == num_items,
            n >= 2,
            k <= hierarchy_passes(n, p) <= 4,
            current == items_after(n, p, k),
            scratch_offset == scratch_prefix(n, p, k),
            current > 1 <==> k < hierarchy_passes(n, p),
            levels@.len() == k + 1,
            forall|j: int| 0 <= j < levels@.len() ==> #[trigger] levels@[j] == level_spec(n, p, j as nat),
            crate::common::math::is_power_of_two(256u64),
        decreases hierarchy_passes(n, p) - k,
    {
        proof {
            lemma_hierarchy_reaches_one(n, p, k + 1);
            lemma_level_bytes_bounds(n, p, k + 1);
            lemma_scratch_prefix_bounds(n, p, k);
            lemma_div_ceil(current as int, per as int);
        }
        let aux_count = div_ceil_u32(current, per);
        let aux_offset = align_to(scratch_offset, 256);
        proof {
            crate::common::math::lemma_round_up_bounds(scratch_offset as int, 256);
        }
        levels.push(ScanLevel { buffer: LevelBuffer::Scratch, offset: aux_offset, count: aux_count });
        scratch_offset = aux_offset + align_to(aux_count as u64 * 4, 256);
        current = aux_count;
        proof {
            k = k + 1;
            if k < hierarchy_passes(n, p) {
                lemma_hierarchy_reaches_one(n, p, k);
            }
            assert(levels@[k as int] == level_spec(n, p, k));
        }
    }
    levels
}

/// The dispatches of a scan of `num_items >= 2` items.
pub fn scan_steps(config: ScanConfig, num_items: u32, mode: ScanMode, propagate_output: bool) -> (r:
    Vec<ScanStep>)
    requires
        config.wf(),
        num_items >= 2,
    ensures
        r@.len() == step_count(num_items as nat, config.items_per_block(), propagate_output),
        forall|i: int|
            0 <= i < r@.len() ==> #[trigger] r@[i] == step_spec(
                num_items as nat,
                config.items_per_block(),
                mode,
                i as nat,
            ),
        ({
            let l = scan_levels(num_items as nat, config.items_per_block());
            &&& forall|k: int| 0 <= k < l ==> (#[trigger] r@[k]).data == k && r@[k].kernel != ScanKernel::Add
            &&& forall|k: int|
                0 <= k < r@.len() - l ==> (#[trigger] r@[l + k]).kernel == ScanKernel::Add && r@[l + k].data
                    == l - 1 - k && r@[l + k].auxiliary == l - k
        }),
{
    let ghost n = num_items as nat;
    let ghost p = config.items_per_block();
    let total = pipeline_pass_count(config, num_items);
    let levels = total / 2;
    proof {
        lemma_hierarchy_reaches_one(n, p, 0);
    }
    let mut steps: Vec<ScanStep> = Vec::new();
    let mut i: u32 = 0;
    while i < levels
        invariant
            levels == scan_levels(n, p),
            1 <= levels <= 32,
            i <= levels,
            steps@.len() == i,
            forall|j: int| 0 <= j < steps@.len() ==> #[trigger] steps@[j] == step_spec(n, p, mode, j as nat),
        decreases levels - i,
    {
        let kernel = if i == 0 {
            match mode {
                ScanMode::Inclusive => ScanKernel::InclusiveInput,
                ScanMode::Exclusive => ScanKernel::ExclusiveInput,
            }
        } else {
            ScanKernel::Inclusive
        };
        steps.push(ScanStep { kernel, data: i, auxiliary: i + 1 });
        i = i + 1;
    }
    let first: u32 = if propagate_output {
        0
    } else {
        1
    };
    let mut data = levels;
    while data > first
        invariant
            levels == scan_levels(n, p),
            1 <= levels <= 32,
            first <= 1,
            first <= data <= levels,
            steps@.len() == levels + (levels - data),
            forall|j: int| 0 <= j < steps@.len() ==> #[trigger] steps@[j] == step_spec(n, p, mode, j as nat),
        decreases data,
    {
        data = data - 1;
        steps.push(ScanStep { kernel: ScanKernel::Add, data, auxiliary: data + 1 });
    }
    proof {
        lemma_scan_dispatch_order(n, p, mode, propagate_output);
    }
    steps
}

/// The dispatches of a scan of `n >= 2` items: each level is scanned in turn
/// from the input up, level `k` at step `k`, and then the block prefixes are
/// added back from the top level down, so a level receives its add only
/// after every level above it has received its own.
pub proof fn lemma_scan_dispatch_order(n: nat, per: nat, mode: ScanMode, propagate_output: bool)
    requires
        2 <= n <= u32::MAX,
        per >= 2,
    ensures
        ({
            let l = scan_levels(n, per);
            let c = step_count(n, per, propagate_output);
            &&& forall|k: int|
                0 <= k < l ==> (#[trigger] step_spec(n, per, mode, k as nat)).data == k && step_spec(
                    n,
                    per,
                    mode,
                    k as nat,
                ).auxiliary == k + 1 && step_spec(n, per, mode, k as nat).kernel != ScanKernel::Add
            &&& forall|k: int|
                0 <= k < c - l ==> (#[trigger] step_spec(n, per, mode, (l + k) as nat)).kernel == ScanKernel::Add
                    && step_spec(n, per, mode, (l + k) as nat).data == l - 1 - k && step_spec(
                    n,
                    per,
                    mode,
                    (l + k) as nat,
                ).auxiliary == l - k
            &&& forall|i: int, j: int|
                l <= i < j < c ==> (#[trigger] step_spec(n, per, mode, i as nat)).data > (#[trigger] step_spec(
                    n,
                    per,
                    mode,
                    j as nat,
                )).data
        }),
{
    lemma_hierarchy_passes_bound(n, per);
    lemma_hierarchy_reaches_one(n, per, 0);
    let l = scan_levels(n, per);
    let c = step_count(n, per, propagate_output);
    assert(l <= n);
    assert(c <= 2 * l);
    assert forall|k: int| 0 <= k < c - l implies (#[trigger] step_spec(n, per, mode, (l + k) as nat)).kernel
        == ScanKernel::Add && step_spec(n, per, mode, (l + k) as nat).data == l - 1 - k && step_spec(
        n,
        per,
        mode,
        (l + k) as nat,
    ).auxiliary == l - k by {
        assert(((l + k) as nat) >= l);
        assert(0 <= l - 1 - k < u32::MAX);
    }
    assert forall|i: int, j: int| l <= i < j < c implies (#[trigger] step_spec(n, per, mode, i as nat)).data
        > (#[trigger] step_spec(n, per, mode, j as nat)).data by {
        assert(0 <= l - 1 - (j - l) < l - 1 - (i - l) < u32::MAX);
    }
}

/// Scan layout law: for at least two items, the levels shrink by one block
/// total per workgroup down to a single item; every scratch level starts on a
/// 256-byte boundary, follows the previous one without overlap and ends
/// within the scratch size [`get_scratch_size`] reserves; each dispatch's
/// auxiliary level holds exactly one word per workgroup of its data level;
/// and a full scan records exactly [`Scanner::compute_pass_count`] dispatches.
pub proof fn lemma_scan_layout(config: ScanConfig, n: u32)
    requires
        config.wf(),
        n >= 2,
    ensures
        ({
            let per = config.items_per_block();
            let l = scan_levels(n as nat, per);
            &&& l >= 1
            &&& level_spec(n as nat, per, l).count == 1
            &&& forall|k: nat|
                1 <= k <= l ==> (#[trigger] level_spec(n as nat, per, k)).offset % 256 == 0
                    && level_spec(n as nat, per, k).offset + level_spec(n as nat, per, k).count * 4
                    <= scratch_size_spec(n as nat, per)
            &&& forall|k: nat|
                1 <= k < l ==> (#[trigger] level_spec(n as nat, per, k)).offset + level_spec(
                    n as nat,
                    per,
                    k,
                ).count * 4 <= level_spec(n as nat, per, k + 1).offset
            &&& forall|k: nat|
                k < l ==> (#[trigger] level_spec(n as nat, per, k + 1)).count == div_ceil(
                    level_spec(n as nat, per, k).count as int,
                    per as int,
                )
            &&& forall|i: nat|
                i < step_count(n as nat, per, true) ==> {
                    let s = #[trigger] step_spec(n as nat, per, ScanMode::Inclusive, i);
                    &&& s.data < l
                    &&& s.auxiliary == s.data + 1
                }
            &&& step_count(n as nat, per, true) == 2 * l
        }),
{
    let per = config.items_per_block();
    let nn = n as nat;
    let l = scan_levels(nn, per);
    lemma_hierarchy_passes_bound(nn, per);
    lemma_hierarchy_reaches_one(nn, per, 0);
    lemma_hierarchy_reaches_one(nn, per, l);
    lemma_levels_at_most_four(nn, per);
    assert forall|k: nat|
        1 <= k <= l implies (#[trigger] level_spec(nn, per, k)).offset % 256 == 0
            && level_spec(nn, per, k).offset + level_spec(nn, per, k).count * 4
            <= scratch_size_spec(nn, per) by {
        lemma_level_fits(nn, per, k);
    }
    assert forall|k: nat|
        1 <= k < l implies (#[trigger] level_spec(nn, per, k)).offset + level_spec(nn, per, k).count
            * 4 <= level_spec(nn, per, k + 1).offset by {
        lemma_levels_ordered(nn, per, k);
    }
    assert forall|k: nat| k < l implies (#[trigger] level_spec(nn, per, k + 1)).count == div_ceil(
        level_spec(nn, per, k).count as int,
        per as int,
    ) by {
        lemma_levels_shrink(nn, per, k);
    }
}

proof fn lemma_level_fits(n: nat, per: nat, k: nat)
    requires
        2 <= n <= u32::MAX,
        per >= 256,
        1 <= k <= scan_levels(n, per),
    ensures
        level_spec(n, per, k).offset % 256 == 0,
        level_spec(n, per, k).offset + level_spec(n, per, k).count * 4 <= scratch_size_spec(n, per),
{
    let l = scan_levels(n, per);
    lemma_hierarchy_passes_bound(n, per);
    lemma_levels_at_most_four(n, per);
    lemma_scratch_prefix_bounds(n, per, (k - 1) as nat);
    lemma_scratch_prefix_bounds(n, per, l);
    lemma_level_bytes_bounds(n, per, k);
    lemma_scratch_prefix_mono(n, per, k, l);
    lemma_items_fit(n, per, k);
    assert(scratch_prefix(n, per, k) == scratch_prefix(n, per, (k - 1) as nat) + level_bytes(n, per, k));
}

proof fn lemma_levels_ordered(n: nat, per: nat, k: nat)
    requires
        2 <= n <= u32::MAX,
        per >= 256,
        1 <= k < scan_levels(n, per),
    ensures
        level_spec(n, per, k).offset + level_spec(n, per, k).count * 4 <= level_spec(
            n,
            per,
            k + 1,
        ).offset,
{
    let l = scan_levels(n, per);
    lemma_hierarchy_passes_bound(n, per);
    lemma_levels_at_most_four(n, per);
    lemma_scratch_prefix_bounds(n, per, (k - 1) as nat);
    lemma_scratch_prefix_bounds(n, per, k);
    lemma_level_bytes_bounds(n, per, k);
    lemma_items_fit(n, per, k);
    assert(scratch_prefix(n, per, k) == scratch_prefix(n, per, (k - 1) as nat) + level_bytes(n, per, k));
}

proof fn lemma_levels_shrink(n: nat, per: nat, k: nat)
    requires
        2 <= n <= u32::MAX,
        per >= 256,
        k < scan_levels(n, per),
    ensures
        level_spec(n, per, k + 1).count == div_ceil(level_spec(n, per, k).count as int, per as int),
{
    lemma_items_fit(n, per, k);
    lemma_items_fit(n, per, k + 1);
    assert(items_after(n, per, k + 1) == div_ceil(items_after(n, per, k) as int, per as int) as nat);
}

/// Every level's count fits the first level's `u32` count.
pub proof fn lemma_items_fit(n: nat, per: nat, k: nat)
    requires
        n <= u32::MAX,
        per >= 1,
    ensures
        items_after(n, per, k) <= n,
{
    crate::common::dispatch::lemma_items_after_monotone(n, per, 0, k);
}

/// Scratch prefixes grow with the level.
pub proof fn lemma_scratch_prefix_mono(n: nat, per: nat, j: nat, k: nat)
    requires
        n <= u32::MAX,
        per >= 256,
        1 <= j <= k,
    ensures
        scratch_prefix(n, per, j) <= scratch_prefix(n, per, k),
    decreases k - j,
{
    if j < k {
        lemma_scratch_prefix_mono(n, per, j, (k - 1) as nat);
        lemma_level_bytes_bounds(n, per, k);
    }
}

} // verus!
