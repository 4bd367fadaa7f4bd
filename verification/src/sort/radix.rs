use vstd::prelude::*;

use crate::common::buffers::{
    validate_buffer, validate_spec, BufferRange, DeviceLimits, GpuBuffer, USAGE_STORAGE,
};
use crate::common::capabilities::AdapterCapabilities;
use crate::common::dispatch::split_dispatch;
use crate::common::math::{align_to, div_ceil, div_ceil_u32, div_ceil_u64, lemma_div_ceil, round_up};
use crate::common::workspace::{workspace_capacity, workspace_capacity_spec};
use crate::error::Error;
use crate::sort::KeyValue;
use vstd::arithmetic::power2::{lemma2_to64, pow2};
use crate::scan::pipeline::{scan_config, scan_levels, ScanConfig};
use crate::scan::scanner::{scan_plan_spec, step_count, ScanCommands, ScanMode, Scanner};

use super::eight_bit::{pass_count_spec, prepare_sort_error, EightBitSortPlan, EightBitSorter};
use super::pipeline::{
    radix_variant_spec, radix_workgroup_config_spec, sort_pipeline_config, RadixVariant,
    SortItemKind, SortPipelineConfig,
};
use super::routing::{slot_destination, slot_source, BufferSlot};
use super::uniforms::{radix_uniform_word, radix_uniforms};

verus! {

pub const UNIFORM_SIZE_BYTES: u64 = 16;
pub const MAX_WORKGROUPS_X: u32 = 65_535;

/// The source of reduce-then-scan pass `radix_pass`: the input first, then
/// the output on even passes and scratch on odd ones.
pub open spec fn core_source(radix_pass: nat) -> BufferSlot {
    if radix_pass == 0 {
        BufferSlot::Input
    } else if radix_pass % 2 == 0 {
        BufferSlot::Output
    } else {
        BufferSlot::Scratch
    }
}

/// The destination of reduce-then-scan pass `radix_pass`: scratch on even
/// passes, the output on odd ones.
pub open spec fn core_destination(radix_pass: nat) -> BufferSlot {
    if radix_pass % 2 == 0 {
        BufferSlot::Scratch
    } else {
        BufferSlot::Output
    }
}

/// The `(source, destination)` of reduce-then-scan pass `radix_pass`.
pub fn pass_buffers(radix_pass: u32) -> (r: (BufferSlot, BufferSlot))
    ensures
        r == (core_source(radix_pass as nat), core_destination(radix_pass as nat)),
{
    if radix_pass == 0 {
        (BufferSlot::Input, BufferSlot::Scratch)
    } else if radix_pass % 2 == 0 {
        (BufferSlot::Output, BufferSlot::Scratch)
    } else {
        (BufferSlot::Scratch, BufferSlot::Output)
    }
}

/// For an even pass count the reduce-then-scan routing is the general
/// ping-pong routing, so the sorted keys land in the caller's output.
pub proof fn lemma_core_routing(pass_count: nat)
    requires
        pass_count >= 2,
        pass_count % 2 == 0,
    ensures
        forall|p: nat|
            p < pass_count ==> #[trigger] core_source(p) == slot_source(p, pass_count)
                && core_destination(p) == slot_destination(p, pass_count),
        core_destination((pass_count - 1) as nat) == BufferSlot::Output,
{
}

/// The allocation size of a sort workspace for `requested_size` bytes.
pub fn core_workspace_capacity(requested_size: u64) -> (r: Result<u64, Error>)
    ensures
        r == workspace_capacity_spec(requested_size, 4),
        r matches Ok(c) ==> c >= requested_size,
{
    workspace_capacity(requested_size, 4)
}

/// The buffer sizes of a reduce-then-scan workspace.
#[derive(Clone, Copy, Debug, PartialEq, Eq, Structural)]
pub struct SortWorkspace {
    /// Bytes of the scratch buffer.
    pub capacity_bytes: u64,
    /// Bytes of each of the histogram and scanned-histogram buffers.
    pub histogram_capacity: u64,
}

/// What one sort needs: its items, radix blocks and byte size.
#[derive(Clone, Copy, Debug, PartialEq, Eq, Structural)]
pub struct PreparedSort {
    pub num_items: u32,
    pub num_blocks: u32,
    pub size_bytes: u64,
}

/// Histogram bytes for a workspace of `capacity` bytes: one counter per
/// bucket and block of the items it holds, rounded up to 256 bytes.
pub open spec fn histogram_capacity_spec(capacity: u64, item_size: u64, per_block: nat, buckets: nat) -> int {
    let blocks = div_ceil((capacity / item_size) as int, per_block as int);
    round_up(blocks * buckets * 4, 256)
}

/// The workspace for `requested` bytes, or the limit it would exceed.
pub open spec fn allocate_spec(requested: u64, item_size: u64, config: SortPipelineConfig, limits: DeviceLimits) -> Result<
    SortWorkspace,
    Error,
> {
    let limit = if limits.max_buffer_size <= limits.max_storage_buffer_binding_size {
        limits.max_buffer_size
    } else {
        limits.max_storage_buffer_binding_size
    };
    match workspace_capacity_spec(requested, 4) {
        Err(e) => Err(e),
        Ok(c) => if c > limit {
            Err(Error::BufferLimitExceeded { requested: c, limit })
        } else {
            Ok(
                SortWorkspace {
                    capacity_bytes: c,
                    histogram_capacity: histogram_capacity_spec(
                        c,
                        item_size,
                        (config.vt * config.block_size) as nat,
                        config.bucket_count as nat,
                    ) as u64,
                },
            )
        },
    }
}

/// The commands of one reduce-then-scan sort.
pub struct RadixPassPlan {
    /// The reduce and scatter grid.
    pub x_groups: u32,
    pub y_groups: u32,
    /// Counters in the histogram each pass scans.
    pub histogram_items: u32,
    pub uniform_stride: u64,
    /// Per-pass uniform records, `uniform_stride / 4` words each.
    pub uniforms: Vec<u32>,
    /// Per-pass `(source, destination)` buffers.
    pub passes: Vec<(BufferSlot, BufferSlot)>,
    /// The histogram scan each pass records.
    pub scan: ScanCommands,
}

/// Sorting state of the reduce-then-scan radix sort: item size, kernel shape,
/// device limits, histogram scanner and the workspace allocated so far.
pub struct ReduceScanSorter {
    pub item_size: u64,
    pub config: SortPipelineConfig,
    pub limits: DeviceLimits,
    pub scanner: Scanner,
    pub workspace: Option<SortWorkspace>,
}

impl ReduceScanSorter {
    pub open spec fn wf(&self) -> bool {
        &&& self.item_size == 4 || self.item_size == 8
        &&& (self.config.vt, self.config.block_size) == radix_workgroup_config_spec(
            self.limits.max_compute_workgroup_storage_size,
        )
        &&& (self.config.bucket_count == 4 && self.config.bits_per_pass == 2
            || self.config.bucket_count == 16 && self.config.bits_per_pass == 4)
        &&& self.config.pass_count == 32u32 / self.config.bits_per_pass
        &&& self.scanner.config.wf()
        &&& (self.workspace matches Some(ws) ==> ws.histogram_capacity as int
            == histogram_capacity_spec(
            ws.capacity_bytes,
            self.item_size,
            self.per_block(),
            self.config.bucket_count as nat,
        ))
    }

    pub open spec fn per_block(&self) -> nat {
        (self.config.vt * self.config.block_size) as nat
    }

    pub proof fn lemma_shape(&self)
        requires
            self.wf(),
        ensures
            self.per_block() == 512 || self.per_block() == 2048,
            self.config.vt * self.config.block_size == self.per_block(),
            self.config.pass_count <= 16,
            self.config.pass_count * self.config.bits_per_pass == 32,
            4 <= self.config.bucket_count <= 16,
    {
        if self.config.bits_per_pass == 2 {
            assert(self.config.pass_count == 16);
        } else {
            assert(self.config.pass_count == 8);
        }
    }

    pub open spec fn fits(&self, requested: u64) -> bool {
        self.workspace is Some && self.workspace->Some_0.capacity_bytes >= requested
    }

    /// A sorter for `item_kind` items using `variant`'s kernels.
    pub fn new(
        item_kind: SortItemKind,
        variant: RadixVariant,
        limits: DeviceLimits,
        device_subgroups: bool,
    ) -> (r: ReduceScanSorter)
        requires
            variant != RadixVariant::NvidiaVulkanSubgroup,
        ensures
            r.wf(),
            r.item_size == item_kind.size_bytes_spec(),
            r.limits == limits,
            r.workspace is None,
            r.config.bits_per_pass == (if variant == RadixVariant::Portable {
                2u32
            } else {
                4u32
            }),
    {
        let config = sort_pipeline_config(variant, limits.max_compute_workgroup_storage_size);
        let scan = scan_config(true, device_subgroups, limits.max_compute_workgroup_storage_size);
        ReduceScanSorter {
            item_size: item_kind.size_bytes(),
            config,
            limits,
            scanner: Scanner::new(scan),
            workspace: None,
        }
    }

    /// The items, blocks and bytes of a sort of `num_items` items.
    pub fn describe_sort(&self, num_items: u32) -> (r: Result<PreparedSort, Error>)
        requires
            self.wf(),
        ensures
            r == Ok::<PreparedSort, Error>(
                PreparedSort {
                    num_items,
                    num_blocks: div_ceil(num_items as int, self.per_block() as int) as u32,
                    size_bytes: (num_items * self.item_size) as u64,
                },
            ),
    {
        proof {
            self.lemma_shape();
            lemma_div_ceil(num_items as int, self.per_block() as int);
        }
        let items_per_block = self.config.vt * self.config.block_size;
        Ok(
            PreparedSort {
                num_items,
                num_blocks: div_ceil_u32(num_items, items_per_block),
                size_bytes: num_items as u64 * self.item_size,
            },
        )
    }

    /// Computes the workspace for `requested_size` bytes.
    pub fn allocate_workspace(&self, requested_size: u64) -> (r: Result<SortWorkspace, Error>)
        requires
            self.wf(),
        ensures
            r == allocate_spec(requested_size, self.item_size, self.config, self.limits),
            r matches Ok(ws) ==> ws.capacity_bytes >= requested_size && ws.histogram_capacity as int
                == histogram_capacity_spec(
                ws.capacity_bytes,
                self.item_size,
                self.per_block(),
                self.config.bucket_count as nat,
            ),
    {
        proof {
            self.lemma_shape();
        }
        let capacity = match core_workspace_capacity(requested_size) {
            Ok(c) => c,
            Err(e) => return Err(e),
        };
        let limit = if self.limits.max_buffer_size <= self.limits.max_storage_buffer_binding_size {
            self.limits.max_buffer_size
        } else {
            self.limits.max_storage_buffer_binding_size
        };
        if capacity > limit {
            return Err(Error::BufferLimitExceeded { requested: capacity, limit });
        }
        let items_per_block = (self.config.vt * self.config.block_size) as u64;
        let max_items = capacity / self.item_size;
        let max_blocks = div_ceil_u64(max_items, items_per_block);
        proof {
            let per = self.per_block() as int;
            lemma_div_ceil(max_items as int, per);
            assert(max_items <= 0x4000_0000_0000_0000) by (nonlinear_arith)
                requires
                    self.item_size >= 4,
                    max_items == capacity / self.item_size,
            ;
            assert(max_blocks <= 0x0080_0000_0000_0001) by (nonlinear_arith)
                requires
                    max_blocks * per < max_items + per,
                    per >= 512,
                    max_items <= 0x4000_0000_0000_0000,
            ;
            crate::common::math::lemma_round_up_bounds(
                max_blocks * self.config.bucket_count * 4,
                256,
            );
            crate::scan::pipeline::lemma_power_of_two_256();
        }
        assert(max_blocks * self.config.bucket_count * 4 <= 0x2000_0000_0000_0040) by (nonlinear_arith)
            requires
                max_blocks <= 0x0080_0000_0000_0001,
                self.config.bucket_count <= 16,
        ;
        let histogram_bytes = max_blocks * self.config.bucket_count as u64 * 4;
        let histogram_capacity = align_to(histogram_bytes, 256);
        Ok(SortWorkspace { capacity_bytes: capacity, histogram_capacity })
    }

    /// Grows the workspace to hold `size_bytes`.
    pub fn ensure_workspace(&mut self, size_bytes: u64) -> (r: Result<(), Error>)
        requires
            old(self).wf(),
        ensures
            final(self).wf(),
            final(self).item_size == old(self).item_size,
            final(self).config == old(self).config,
            final(self).limits == old(self).limits,
            final(self).scanner == old(self).scanner,
            r is Ok ==> final(self).fits(size_bytes),
            old(self).fits(size_bytes) ==> r is Ok && *final(self) == *old(self),
            !old(self).fits(size_bytes) ==> match allocate_spec(
                size_bytes,
                old(self).item_size,
                old(self).config,
                old(self).limits,
            ) {
                Ok(ws) => r is Ok && final(self).workspace == Some(ws),
                Err(e) => r == Err::<(), Error>(e) && *final(self) == *old(self),
            },
    {
        if let Some(ws) = &self.workspace {
            if ws.capacity_bytes >= size_bytes {
                return Ok(());
            }
        }
        match self.allocate_workspace(size_bytes) {
            Ok(ws) => {
                self.workspace = Some(ws);
                Ok(())
            },
            Err(e) => Err(e),
        }
    }

    /// Validates a sort of `num_items` items of `input` into `output` and
    /// prepares its workspace; `None` means there is nothing to sort.
    pub fn prepare_sort(&mut self, input: GpuBuffer, output: GpuBuffer, num_items: u32) -> (r:
        Result<Option<PreparedSort>, Error>)
        requires
            old(self).wf(),
        ensures
            final(self).wf(),
            final(self).item_size == old(self).item_size,
            final(self).config == old(self).config,
            final(self).limits == old(self).limits,
            final(self).scanner == old(self).scanner,
            num_items == 0 ==> r == Ok::<Option<PreparedSort>, Error>(None) && *final(self)
                == *old(self),
            num_items > 0 ==> {
                let bytes = (num_items * old(self).item_size) as u64;
                let i = validate_spec(BufferRange::whole_spec(input), "sort input", bytes, USAGE_STORAGE);
                let o = validate_spec(BufferRange::whole_spec(output), "sort output", bytes, USAGE_STORAGE);
                if i is Err {
                    r == Err::<Option<PreparedSort>, Error>(i->Err_0) && *final(self) == *old(self)
                } else if o is Err {
                    r == Err::<Option<PreparedSort>, Error>(o->Err_0) && *final(self) == *old(self)
                } else if old(self).fits(bytes) {
                    r == Ok::<Option<PreparedSort>, Error>(
                        Some(
                            PreparedSort {
                                num_items,
                                num_blocks: div_ceil(num_items as int, old(self).per_block() as int) as u32,
                                size_bytes: bytes,
                            },
                        ),
                    ) && *final(self) == *old(self)
                } else {
                    match allocate_spec(bytes, old(self).item_size, old(self).config, old(self).limits) {
                        Ok(ws) => final(self).workspace == Some(ws) && r == Ok::<
                            Option<PreparedSort>,
                            Error,
                        >(
                            Some(
                                PreparedSort {
                                    num_items,
                                    num_blocks: div_ceil(
                                        num_items as int,
                                        old(self).per_block() as int,
                                    ) as u32,
                                    size_bytes: bytes,
                                },
                            ),
                        ),
                        Err(e) => r == Err::<Option<PreparedSort>, Error>(e) && *final(self)
                            == *old(self),
                    }
                }
            },
            r matches Ok(Some(p)) ==> final(self).fits(p.size_bytes),
    {
        if num_items == 0 {
            return Ok(None);
        }
        let problem = match self.describe_sort(num_items) {
            Ok(p) => p,
            Err(e) => return Err(e),
        };
        if let Err(e) = validate_buffer(input, "sort input", problem.size_bytes, USAGE_STORAGE) {
            return Err(e);
        }
        if let Err(e) = validate_buffer(output, "sort output", problem.size_bytes, USAGE_STORAGE) {
            return Err(e);
        }
        if let Err(e) = self.ensure_workspace(problem.size_bytes) {
            return Err(e);
        }
        Ok(Some(problem))
    }
}


impl ReduceScanSorter {
    /// The commands of a prepared sort: the reduce and scatter grid, the
    /// histogram and its scan, per-pass uniforms and buffer routing.
    pub fn record_radix_passes(&mut self, problem: PreparedSort) -> (r: Result<RadixPassPlan, Error>)
        requires
            old(self).wf(),
            problem.num_items > 0,
            problem.num_blocks == div_ceil(problem.num_items as int, old(self).per_block() as int),
            problem.size_bytes == problem.num_items * old(self).item_size,
            old(self).fits(problem.size_bytes),
        ensures
            final(self).wf(),
            final(self).workspace == old(self).workspace,
            final(self).config == old(self).config,
            final(self).limits == old(self).limits,
            final(self).item_size == old(self).item_size,
            r matches Ok(plan) && {
                let n = old(self).config.pass_count;
                let w = plan.uniform_stride / 4;
                let per = final(self).scanner.config.items_per_block();
                &&& plan.x_groups == (if problem.num_blocks <= MAX_WORKGROUPS_X {
                    problem.num_blocks
                } else {
                    MAX_WORKGROUPS_X
                })
                &&& plan.y_groups == div_ceil(problem.num_blocks as int, MAX_WORKGROUPS_X as int)
                &&& plan.histogram_items == problem.num_blocks * old(self).config.bucket_count
                &&& plan.histogram_items * 4 <= old(self).workspace->Some_0.histogram_capacity
                &&& plan.uniform_stride == (if old(self).limits.min_uniform_buffer_offset_alignment
                    >= UNIFORM_SIZE_BYTES {
                    old(self).limits.min_uniform_buffer_offset_alignment as u64
                } else {
                    UNIFORM_SIZE_BYTES
                })
                &&& plan.uniforms@.len() == n * w
                &&& forall|i: int|
                    0 <= i < plan.uniforms@.len() ==> #[trigger] plan.uniforms@[i]
                        == radix_uniform_word(
                        i / w as int,
                        i % w as int,
                        old(self).config.bits_per_pass,
                        problem.num_items,
                        problem.num_blocks,
                    )
                &&& n * old(self).config.bits_per_pass == 32
                &&& forall|p: int| 0 <= p < n ==> #[trigger] plan.uniforms@[p * w] == p * old(self).config.bits_per_pass
                &&& plan.passes@.len() == n
                &&& forall|p: int|
                    0 <= p < n ==> #[trigger] plan.passes@[p] == (
                        core_source(p as nat),
                        core_destination(p as nat),
                    )
                &&& plan.histogram_items >= 4
                &&& scan_plan_spec(plan.scan, plan.histogram_items as nat, per, ScanMode::Inclusive, true)
            },
    {
        let blocks = problem.num_blocks;
        proof {
            self.lemma_shape();
        }
        let per = self.config.vt * self.config.block_size;
        proof {
            lemma_div_ceil(problem.num_items as int, per as int);
            assert(blocks <= 0x80_0001) by (nonlinear_arith)
                requires
                    blocks * per < problem.num_items + per,
                    per >= 512,
                    problem.num_items <= u32::MAX,
            ;
            let ws = self.workspace->Some_0;
            crate::common::math::lemma_items_in_capacity(
                problem.num_items as int,
                self.item_size as int,
                ws.capacity_bytes as int,
            );
            crate::common::math::lemma_div_ceil_monotone(
                problem.num_items as int,
                (ws.capacity_bytes / self.item_size) as int,
                per as int,
            );
            let max_blocks = div_ceil((ws.capacity_bytes / self.item_size) as int, per as int);
            assert(blocks * self.config.bucket_count * 4 <= max_blocks * self.config.bucket_count * 4) by (nonlinear_arith)
                requires
                    blocks <= max_blocks,
                    self.config.bucket_count >= 0,
            ;
            lemma_div_ceil(max_blocks * self.config.bucket_count * 4, 256);
        }
        let (x_groups, y_groups) = split_dispatch(blocks, MAX_WORKGROUPS_X);
        assert(4 <= blocks * self.config.bucket_count <= 0x80_0001 * 16) by (nonlinear_arith)
            requires
                1 <= blocks <= 0x80_0001,
                4 <= self.config.bucket_count <= 16,
        ;
        let histogram_items = blocks * self.config.bucket_count;
        let a = self.limits.min_uniform_buffer_offset_alignment as u64;
        let stride = if a >= UNIFORM_SIZE_BYTES {
            a
        } else {
            UNIFORM_SIZE_BYTES
        };
        let words = (stride / 4) as u32;
        proof {
            if self.config.bits_per_pass == 2 {
                assert(self.config.pass_count == 16);
            } else {
                assert(self.config.pass_count == 8);
            }
        }
        let uniforms = radix_uniforms(
            self.config.pass_count,
            words,
            self.config.bits_per_pass,
            problem.num_items,
            blocks,
        );
        let mut passes: Vec<(BufferSlot, BufferSlot)> = Vec::new();
        let mut p: u32 = 0;
        while p < self.config.pass_count
            invariant
                p <= self.config.pass_count,
                passes@.len() == p,
                forall|q: int| 0 <= q < p ==> #[trigger] passes@[q] == (
                    core_source(q as nat),
                    core_destination(q as nat),
                ),
            decreases self.config.pass_count - p,
        {
            passes.push(pass_buffers(p));
            p = p + 1;
        }
        let scan = self.scanner.plan_scan(histogram_items, ScanMode::Inclusive, true);
        assert(histogram_items >= 4);
        assert(histogram_items * 4 <= self.workspace->Some_0.histogram_capacity);
        Ok(
            RadixPassPlan {
                x_groups,
                y_groups,
                histogram_items,
                uniform_stride: stride,
                uniforms,
                passes,
                scan,
            },
        )
    }

    /// Timestamp spans a profiled sort of `problem` records: per pass a
    /// reduce, the histogram scan's dispatches and a scatter.
    pub fn profile_span_count(&self, problem: PreparedSort) -> (r: Result<u32, Error>)
        requires
            self.wf(),
            problem.num_items > 0,
            problem.num_blocks == div_ceil(problem.num_items as int, self.per_block() as int),
        ensures
            r == Ok::<u32, Error>(
                (self.config.pass_count * (step_count(
                    (problem.num_blocks * self.config.bucket_count) as nat,
                    self.scanner.config.items_per_block(),
                    true,
                ) + 2)) as u32,
            ),
    {
        proof {
            self.lemma_shape();
        }
        let per = self.config.vt * self.config.block_size;
        proof {
            lemma_div_ceil(problem.num_items as int, per as int);
            assert(problem.num_blocks <= 0x80_0001) by (nonlinear_arith)
                requires
                    problem.num_blocks * per < problem.num_items + per,
                    per >= 512,
                    problem.num_items <= u32::MAX,
            ;
        }
        assert(problem.num_blocks * self.config.bucket_count <= 0x80_0001 * 16) by (nonlinear_arith)
            requires
                problem.num_blocks <= 0x80_0001,
                self.config.bucket_count <= 16,
        ;
        let histogram_items = problem.num_blocks * self.config.bucket_count;
        let scan_passes = self.scanner.compute_pass_count(histogram_items);
        proof {
            if histogram_items >= 2 {
                crate::scan::pipeline::lemma_levels_at_most_four(
                    histogram_items as nat,
                    self.scanner.config.items_per_block(),
                );
            }
        }
        proof {
            if self.config.bits_per_pass == 2 {
                assert(self.config.pass_count == 16);
            } else {
                assert(self.config.pass_count == 8);
            }
        }
        assert(self.config.pass_count * (scan_passes + 2) <= 16 * 66) by (nonlinear_arith)
            requires
                self.config.pass_count <= 16,
                scan_passes <= 64,
        ;
        Ok(self.config.pass_count * (scan_passes + 2))
    }
}

/// The radix sort behind a sorter: the reduce-then-scan kernels or, on
/// adapters that support it, the 8-bit subgroup kernels.
pub enum SortImplementation {
    ReduceScan(ReduceScanSorter),
    EightBit(EightBitSorter),
}

/// A radix sorter for one item kind.
pub struct RadixSorter {
    pub implementation: SortImplementation,
}

/// The commands of one fixed-size, full-width radix sort.
pub enum SortCommands {
    /// Nothing to sort.
    Nothing,
    /// The reduce-then-scan passes.
    ReduceScan(RadixPassPlan),
    /// The 8-bit passes over the trimmed ranges, and whether their cached
    /// bind groups were rebuilt.
    EightBit { input: BufferRange, output: BufferRange, rebuilt: bool, plan: EightBitSortPlan },
}

/// The error, if any, of preparing a reduce-then-scan sort of `n > 0` items.
pub open spec fn reduce_scan_sort_error(s: ReduceScanSorter, input: GpuBuffer, output: GpuBuffer, n: u32) -> Option<Error> {
    let bytes = (n * s.item_size) as u64;
    let i = validate_spec(BufferRange::whole_spec(input), "sort input", bytes, USAGE_STORAGE);
    let o = validate_spec(BufferRange::whole_spec(output), "sort output", bytes, USAGE_STORAGE);
    if i is Err {
        Some(i->Err_0)
    } else if o is Err {
        Some(o->Err_0)
    } else if s.fits(bytes) {
        None
    } else {
        match allocate_spec(bytes, s.item_size, s.config, s.limits) {
            Ok(_) => None,
            Err(e) => Some(e),
        }
    }
}

/// The error, if any, of preparing an 8-bit sort of `n > 0` items.
pub open spec fn eight_bit_sort_error(s: EightBitSorter, input: GpuBuffer, output: GpuBuffer, n: u32) -> Option<Error> {
    match prepare_sort_error(
        BufferRange::whole_spec(input),
        BufferRange::whole_spec(output),
        n,
        s.item_size_bytes,
        s.limits,
    ) {
        Some(e) => Some(e),
        None => match s.ensure_spec((n * s.item_size_bytes) as u64) {
            Err(e) => Some(e),
            Ok(_) => None,
        },
    }
}

/// What a full-width fixed-size sort of `num_items` items returns on the
/// kernels `core` runs: each backend's validation and allocation error, and
/// otherwise passes that start from the input and end in the output.
pub open spec fn fixed_sort_outcome(
    core: RadixSorter,
    r: Result<SortCommands, Error>,
    input: GpuBuffer,
    output: GpuBuffer,
    num_items: u32,
) -> bool {
    &&& core.implementation matches SortImplementation::ReduceScan(s) ==> (num_items > 0 ==> match reduce_scan_sort_error(
        s,
        input,
        output,
        num_items,
    ) {
        Some(e) => r == Err::<SortCommands, Error>(e),
        None => r matches Ok(SortCommands::ReduceScan(plan)) && plan.passes@.len()
            == s.config.pass_count && forall|p: int|
            0 <= p < plan.passes@.len() ==> #[trigger] plan.passes@[p] == (
                core_source(p as nat),
                core_destination(p as nat),
            ),
    })
    &&& core.implementation matches SortImplementation::EightBit(s) ==> (num_items > 0 ==> match eight_bit_sort_error(
        s,
        input,
        output,
        num_items,
    ) {
        Some(e) => r == Err::<SortCommands, Error>(e),
        None => r matches Ok(SortCommands::EightBit { plan, .. }) && plan.passes@.len()
            == pass_count_spec(32) && forall|p: int|
            0 <= p < plan.passes@.len() ==> #[trigger] plan.passes@[p] == (
                slot_source(p as nat, pass_count_spec(32) as nat),
                slot_destination(p as nat, pass_count_spec(32) as nat),
            ),
    })
}

impl RadixSorter {
    pub open spec fn wf(&self) -> bool {
        match self.implementation {
            SortImplementation::ReduceScan(s) => s.wf(),
            SortImplementation::EightBit(s) => s.wf(),
        }
    }

    /// Validates and plans a full-width sort of the first `num_items` items
    /// of `input` into `output`, on whichever kernels this sorter runs.
    ///
    /// Either way the passes start from the input and the last one writes
    /// the output.
    pub fn record_sort(&mut self, input: GpuBuffer, output: GpuBuffer, num_items: u32) -> (r: Result<
        SortCommands,
        Error,
    >)
        requires
            old(self).wf(),
        ensures
            final(self).wf(),
            (final(self).implementation is ReduceScan) == (old(self).implementation is ReduceScan),
            num_items == 0 ==> r matches Ok(SortCommands::Nothing),
            r matches Ok(SortCommands::Nothing) ==> num_items == 0,
            fixed_sort_outcome(*old(self), r, input, output, num_items),
    {
        match &mut self.implementation {
            SortImplementation::ReduceScan(sorter) => {
                let ghost before = *sorter;
                let problem = match sorter.prepare_sort(input, output, num_items) {
                    Ok(Some(p)) => p,
                    Ok(None) => return Ok(SortCommands::Nothing),
                    Err(e) => return Err(e),
                };
                proof {
                    before.lemma_shape();
                    lemma_div_ceil(num_items as int, before.per_block() as int);
                }
                match sorter.record_radix_passes(problem) {
                    Ok(plan) => Ok(SortCommands::ReduceScan(plan)),
                    Err(e) => Err(e),
                }
            },
            SortImplementation::EightBit(sorter) => {
                match sorter.record_sort_ranges(
                    BufferRange::whole(input),
                    BufferRange::whole(output),
                    num_items,
                    32,
                ) {
                    Ok(Some((input, output, rebuilt, plan))) => Ok(
                        SortCommands::EightBit { input, output, rebuilt, plan },
                    ),
                    Ok(None) => Ok(SortCommands::Nothing),
                    Err(e) => Err(e),
                }
            },
        }
    }

    /// A sorter that uses the portable kernels.
    pub fn new(item_kind: SortItemKind, limits: DeviceLimits, device_subgroups: bool) -> (r:
        RadixSorter)
        ensures
            r.implementation matches SortImplementation::ReduceScan(s) && s.wf() && s.item_size
                == item_kind.size_bytes_spec() && s.config.bits_per_pass == 2,
    {
        RadixSorter {
            implementation: SortImplementation::ReduceScan(
                ReduceScanSorter::new(item_kind, RadixVariant::Portable, limits, device_subgroups),
            ),
        }
    }

    /// A sorter using the fastest kernels the adapter supports.
    pub fn new_for_adapter(
        item_kind: SortItemKind,
        capabilities: AdapterCapabilities,
        limits: DeviceLimits,
        device_subgroups: bool,
    ) -> (r: RadixSorter)
        ensures
            radix_variant_spec(item_kind, capabilities) == RadixVariant::NvidiaVulkanSubgroup
                ==> (r.implementation matches SortImplementation::EightBit(s) && s.wf()
                && s.item_size_bytes == item_kind.size_bytes_spec()),
            radix_variant_spec(item_kind, capabilities) != RadixVariant::NvidiaVulkanSubgroup
                ==> (r.implementation matches SortImplementation::ReduceScan(s) && s.wf()
                && s.item_size == item_kind.size_bytes_spec()),
    {
        let variant = RadixVariant::for_capabilities(item_kind, capabilities);
        if variant.uses_eight_bit_pipeline() {
            RadixSorter {
                implementation: SortImplementation::EightBit(EightBitSorter::new(item_kind, limits)),
            }
        } else {
            RadixSorter {
                implementation: SortImplementation::ReduceScan(
                    ReduceScanSorter::new(item_kind, variant, limits, device_subgroups),
                ),
            }
        }
    }
}


/// The outcome of checking that `key` fits in `key_bits` bits.
pub open spec fn key_bits_spec(key: u32, key_bits: u32) -> Result<(), Error> {
    if key_bits > 32 {
        Err(Error::InvalidKeyBits { bits: key_bits })
    } else if key >= pow2(key_bits as nat) {
        Err(Error::KeyExceedsBitRange { key, bits: key_bits })
    } else {
        Ok(())
    }
}

/// Checks a declared key width: at most 32 bits, and wide enough for `key`.
/// Zero bits admit only the key zero.
pub fn validate_key_for_bits(key: u32, key_bits: u32) -> (r: Result<(), Error>)
    ensures
        r == key_bits_spec(key, key_bits),
{
    if key_bits > 32 {
        return Err(Error::InvalidKeyBits { bits: key_bits });
    }
    proof {
        lemma2_to64();
    }
    if key_bits == 32 {
        return Ok(());
    }
    proof {
        vstd::bits::lemma_u32_shr_is_div(key, key_bits);
        vstd::arithmetic::power2::lemma_pow2_pos(key_bits as nat);
        let p = pow2(key_bits as nat);
        assert((key as nat / p == 0) == (key < p)) by (nonlinear_arith)
            requires
                p > 0,
        ;
    }
    if key >> key_bits != 0 {
        Err(Error::KeyExceedsBitRange { key, bits: key_bits })
    } else {
        Ok(())
    }
}

/// The first key, in order, that does not fit `key_bits` bits, as an error.
pub open spec fn keys_error(keys: Seq<u32>, key_bits: u32) -> Result<(), Error>
    decreases keys.len(),
{
    if keys.len() == 0 {
        Ok(())
    } else if key_bits_spec(keys[0], key_bits) is Err {
        key_bits_spec(keys[0], key_bits)
    } else {
        keys_error(keys.drop_first(), key_bits)
    }
}

/// The outcome of checking a host slice against a declared key width: the
/// width itself first, then the first key that does not fit it.
pub open spec fn host_keys_error(keys: Seq<u32>, key_bits: u32) -> Result<(), Error> {
    if key_bits > 32 {
        Err(Error::InvalidKeyBits { bits: key_bits })
    } else {
        keys_error(keys, key_bits)
    }
}

/// Checks a declared key width, then every key of a host slice against it,
/// before upload.
pub fn validate_keys(keys: &[u32], key_bits: u32) -> (r: Result<(), Error>)
    ensures
        r == host_keys_error(keys@, key_bits),
        r is Ok <==> key_bits <= 32 && forall|i: int|
            0 <= i < keys@.len() ==> key_bits_spec(#[trigger] keys@[i], key_bits) is Ok,
{
    if key_bits > 32 {
        return Err(Error::InvalidKeyBits { bits: key_bits });
    }
    proof {
        lemma_keys_error_ok(keys@, key_bits);
        assert(keys@.skip(0) =~= keys@);
    }
    let mut i: usize = 0;
    while i < keys.len()
        invariant
            i <= keys@.len(),
            keys_error(keys@, key_bits) == keys_error(keys@.skip(i as int), key_bits),
        decreases keys.len() - i,
    {
        assert(keys@.skip(i as int)[0] == keys@[i as int]);
        if let Err(e) = validate_key_for_bits(keys[i], key_bits) {
            return Err(e);
        }
        assert(keys@.skip(i as int).drop_first() =~= keys@.skip(i + 1));
        i = i + 1;
    }
    Ok(())
}

/// The keys of a slice of key-value records, in order.
pub open spec fn record_keys(records: Seq<KeyValue>) -> Seq<u32> {
    records.map_values(|r: KeyValue| r.key)
}

/// Checks a declared key width, then the key of every record of a host
/// slice against it, before upload.
pub fn validate_record_keys(records: &[KeyValue], key_bits: u32) -> (r: Result<(), Error>)
    ensures
        r == host_keys_error(record_keys(records@), key_bits),
        r is Ok <==> key_bits <= 32 && forall|i: int|
            0 <= i < records@.len() ==> key_bits_spec(#[trigger] records@[i].key, key_bits) is Ok,
{
    if key_bits > 32 {
        return Err(Error::InvalidKeyBits { bits: key_bits });
    }
    let ghost keys = record_keys(records@);
    proof {
        lemma_keys_error_ok(keys, key_bits);
        assert(keys.skip(0) =~= keys);
        assert forall|i: int| 0 <= i < records@.len() implies #[trigger] records@[i].key == keys[i] by {}
    }
    let mut i: usize = 0;
    while i < records.len()
        invariant
            i <= records@.len(),
            keys == record_keys(records@),
            keys.len() == records@.len(),
            keys_error(keys, key_bits) == keys_error(keys.skip(i as int), key_bits),
        decreases records.len() - i,
    {
        assert(keys.skip(i as int)[0] == records@[i as int].key);
        if let Err(e) = validate_key_for_bits(records[i].key, key_bits) {
            return Err(e);
        }
        assert(keys.skip(i as int).drop_first() =~= keys.skip(i + 1));
        i = i + 1;
    }
    Ok(())
}

proof fn lemma_keys_error_ok(keys: Seq<u32>, key_bits: u32)
    ensures
        keys_error(keys, key_bits) is Ok <==> forall|i: int|
            0 <= i < keys.len() ==> key_bits_spec(#[trigger] keys[i], key_bits) is Ok,
    decreases keys.len(),
{
    if keys.len() > 0 {
        lemma_keys_error_ok(keys.drop_first(), key_bits);
        assert forall|i: int| 1 <= i < keys.len() implies #[trigger] keys[i] == keys.drop_first()[i - 1] by {}
        if keys_error(keys, key_bits) is Ok {
            assert forall|i: int| 0 <= i < keys.len() implies key_bits_spec(#[trigger] keys[i], key_bits) is Ok by {
                if i > 0 {
                    assert(keys[i] == keys.drop_first()[i - 1]);
                }
            }
        }
        if forall|i: int| 0 <= i < keys.len() ==> key_bits_spec(#[trigger] keys[i], key_bits) is Ok {
            assert(key_bits_spec(keys[0], key_bits) is Ok);
            assert forall|i: int| 0 <= i < keys.drop_first().len() implies key_bits_spec(#[trigger] keys.drop_first()[i], key_bits) is Ok by {
                assert(keys.drop_first()[i] == keys[i + 1]);
            }
        }
    }
}

} // verus!
