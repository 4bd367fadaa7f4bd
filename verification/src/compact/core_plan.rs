use vstd::prelude::*;

use crate::common::buffers::{
    alias_pair, alias_spec, validate_buffer, validate_distinct, validate_spec, AliasPair,
    BufferRange, DeviceLimits, GpuBuffer, USAGE_COPY_DST, USAGE_COPY_SRC, USAGE_STORAGE,
};
use crate::common::math::{div_ceil, lemma_div_ceil, lemma_grid_covers};
use crate::common::workspace::ReusableBuffer;
use crate::error::Error;
use crate::scan::pipeline::{scratch_size_spec, ScanConfig};
use crate::scan::scanner::{scan_plan_spec, step_count, ScanCommands, ScanMode, Scanner};

use super::pipeline::{compact_dispatch, CompactItemKind, BLOCK_SIZE};

verus! {

pub const MASK_ITEM_SIZE_BYTES: u64 = 4;
pub const COUNT_SIZE_BYTES: u64 = 4;

/// The pairs of buffers one compaction must not bind to the same handle.
pub open spec fn compact_alias_pairs(input: GpuBuffer, mask: GpuBuffer, output: GpuBuffer, output_count: GpuBuffer) -> Seq<AliasPair> {
    seq![
        AliasPair { first: input, first_name: "compaction input", second: output, second_name: "compaction output" },
        AliasPair { first: mask, first_name: "compaction mask", second: output, second_name: "compaction output" },
        AliasPair { first: input, first_name: "compaction input", second: output_count, second_name: "compaction output count" },
        AliasPair { first: mask, first_name: "compaction mask", second: output_count, second_name: "compaction output count" },
        AliasPair { first: output, first_name: "compaction output", second: output_count, second_name: "compaction output count" },
    ]
}

/// Rejects a compaction that binds one buffer in two roles.
pub fn validate_distinct_buffers(input: GpuBuffer, mask: GpuBuffer, output: GpuBuffer, output_count: GpuBuffer) -> (r: Result<(), Error>)
    ensures
        r == alias_spec(compact_alias_pairs(input, mask, output, output_count)),
{
    let pairs = vec![
        alias_pair(input, "compaction input", output, "compaction output"),
        alias_pair(mask, "compaction mask", output, "compaction output"),
        alias_pair(input, "compaction input", output_count, "compaction output count"),
        alias_pair(mask, "compaction mask", output_count, "compaction output count"),
        alias_pair(output, "compaction output", output_count, "compaction output count"),
    ];
    assert(pairs@ =~= compact_alias_pairs(input, mask, output, output_count));
    validate_distinct(&pairs)
}

/// The host-side check of a mask: the error for the first flag that is
/// neither zero nor one, in order.
pub open spec fn mask_error(mask: Seq<u32>, start: int) -> Option<Error>
    decreases mask.len() - start,
{
    if start >= mask.len() || start < 0 {
        None
    } else if mask[start] > 1 {
        Some(Error::InvalidCompactionFlag { index: start as usize, value: mask[start] })
    } else {
        mask_error(mask, start + 1)
    }
}

/// Flags set in `mask[..k]`.
pub open spec fn selected(mask: Seq<u32>, k: int) -> nat
    decreases k,
{
    if k <= 0 {
        0
    } else {
        selected(mask, k - 1) + mask[k - 1] as nat
    }
}

/// Checks host inputs to a compaction and counts the selected items.
///
/// The input and mask lengths must agree and every flag must be zero or one.
pub fn validate_host_mask(input_len: usize, mask: &[u32]) -> (r: Result<usize, Error>)
    ensures
        input_len != mask@.len() ==> r == Err::<usize, Error>(
            Error::CompactionLengthMismatch { input: input_len, mask: mask@.len() as usize },
        ),
        input_len == mask@.len() ==> match mask_error(mask@, 0) {
            Some(e) => r == Err::<usize, Error>(e),
            None => r == Ok::<usize, Error>(selected(mask@, mask@.len() as int) as usize),
        },
        r matches Ok(n) ==> n <= mask@.len(),
{
    if input_len != mask.len() {
        return Err(Error::CompactionLengthMismatch { input: input_len, mask: mask.len() });
    }
    let mut i: usize = 0;
    while i < mask.len()
        invariant
            i <= mask@.len(),
            input_len == mask@.len(),
            mask_error(mask@, 0) == mask_error(mask@, i as int),
            forall|k: int| 0 <= k < i ==> #[trigger] mask@[k] <= 1,
        decreases mask.len() - i,
    {
        if mask[i] > 1 {
            assert(mask_error(mask@, i as int) == Some(Error::InvalidCompactionFlag { index: i, value: mask@[i as int] }));
            return Err(Error::InvalidCompactionFlag { index: i, value: mask[i] });
        }
        assert(mask_error(mask@, i as int) == mask_error(mask@, i + 1));
        i = i + 1;
    }
    let mut count: usize = 0;
    let mut j: usize = 0;
    while j < mask.len()
        invariant
            j <= mask@.len(),
            mask_error(mask@, 0) is None,
            input_len == mask@.len(),
            forall|k: int| 0 <= k < mask@.len() ==> #[trigger] mask@[k] <= 1,
            count == selected(mask@, j as int),
            count <= j,
        decreases mask.len() - j,
    {
        count = count + mask[j] as usize;
        j = j + 1;
    }
    Ok(count)
}

/// The validation error, if any, of a compaction of `n` items.
pub open spec fn compact_error(
    input: GpuBuffer,
    mask: GpuBuffer,
    output: GpuBuffer,
    output_count: GpuBuffer,
    n: u32,
    item_size: u64,
    limits: DeviceLimits,
) -> Option<Error> {
    let alias = alias_spec(compact_alias_pairs(input, mask, output, output_count));
    let oc = validate_spec(BufferRange::whole_spec(output_count), "compaction output count", COUNT_SIZE_BYTES, USAGE_STORAGE | USAGE_COPY_DST);
    let items = (n * item_size) as u64;
    let flags = (n * MASK_ITEM_SIZE_BYTES) as u64;
    let i = validate_spec(BufferRange::whole_spec(input), "compaction input", items, USAGE_STORAGE);
    let m = validate_spec(BufferRange::whole_spec(mask), "compaction mask", flags, USAGE_STORAGE | USAGE_COPY_SRC);
    let o = validate_spec(BufferRange::whole_spec(output), "compaction output", items, USAGE_STORAGE);
    if alias is Err {
        Some(alias->Err_0)
    } else if oc is Err {
        Some(oc->Err_0)
    } else if n == 0 {
        None
    } else if i is Err {
        Some(i->Err_0)
    } else if m is Err {
        Some(m->Err_0)
    } else if o is Err {
        Some(o->Err_0)
    } else if flags > limits.max_buffer_size {
        Some(Error::BufferLimitExceeded { requested: flags, limit: limits.max_buffer_size })
    } else {
        None
    }
}

/// The commands of one compaction.
pub enum CompactCommands {
    /// Nothing to compact: the output count is cleared to zero.
    ClearCount,
    /// A block-local exclusive scan of the mask into the offsets, then one
    /// scatter that adds the scanned block totals.
    Compact {
        scan: ScanCommands,
        /// Whether the block totals live in the scanner's scratch (else in the offsets).
        prefixes_in_scratch: bool,
        scan_items_per_block: u32,
        groups: (u32, u32),
        params: Vec<u32>,
    },
}

/// The commands of a valid compaction of `num_items` items by a compactor
/// that was `before` and is `after`: the count cleared for no items, else a
/// scan of the mask into the offsets and a scatter over every block.
pub open spec fn compact_plan_spec(
    r: Result<CompactCommands, Error>,
    num_items: u32,
    before: CompactCore,
    after: CompactCore,
) -> bool {
    &&& r matches Ok(CompactCommands::ClearCount) ==> num_items == 0
    &&& r matches Ok(CompactCommands::Compact { scan, prefixes_in_scratch, scan_items_per_block, groups, params }) ==> {
        let w = div_ceil(num_items as int, BLOCK_SIZE as int);
        let m = before.limits.max_compute_workgroups_per_dimension;
        &&& num_items > 0
        &&& after.offsets.capacity_bytes >= num_items * 4
        &&& scan_items_per_block == before.scanner.per()
        &&& prefixes_in_scratch == after.scanner.scratch_allocated
        &&& (num_items >= 2 ==> prefixes_in_scratch && scan_plan_spec(
            scan,
            num_items as nat,
            before.scanner.per(),
            ScanMode::Exclusive,
            false,
        ))
        &&& (num_items == 1 ==> scan == ScanCommands::Clear { bytes: 4 })
        &&& groups.0 == (if w <= m { w } else { m as int })
        &&& groups.1 == div_ceil(w, m as int)
        &&& params@ == seq![num_items, groups.0, scan_items_per_block, 0u32]
    }
}

/// A compaction's scatter grid reaches every item: at most the device's
/// workgroups across, and one workgroup of [`BLOCK_SIZE`] items for each
/// block of the mask.
pub proof fn lemma_compact_grid_covers(
    r: Result<CompactCommands, Error>,
    num_items: u32,
    before: CompactCore,
    after: CompactCore,
)
    requires
        before.limits.max_compute_workgroups_per_dimension > 0,
        compact_plan_spec(r, num_items, before, after),
        r matches Ok(CompactCommands::Compact { .. }),
    ensures
        ({
            let groups = r->Ok_0->Compact_groups;
            &&& groups.0 <= before.limits.max_compute_workgroups_per_dimension
            &&& groups.0 * groups.1 * BLOCK_SIZE >= num_items
        }),
{
    let groups = r->Ok_0->Compact_groups;
    let w = div_ceil(num_items as int, BLOCK_SIZE as int);
    let m = before.limits.max_compute_workgroups_per_dimension as int;
    lemma_div_ceil(num_items as int, BLOCK_SIZE as int);
    lemma_grid_covers(w, m, groups.0 as int, groups.1 as int);
    assert(groups.0 * groups.1 * BLOCK_SIZE >= w * BLOCK_SIZE) by (nonlinear_arith)
        requires
            groups.0 * groups.1 >= w,
    ;
}

/// Compaction state: item size, device limits, mask scanner and offsets buffer.
pub struct CompactCore {
    pub item_size_bytes: u64,
    pub limits: DeviceLimits,
    pub scanner: Scanner,
    pub offsets: ReusableBuffer,
}

impl CompactCore {
    pub open spec fn wf(&self) -> bool {
        &&& self.item_size_bytes == 4 || self.item_size_bytes == 8
        &&& self.scanner.config.wf()
        &&& self.limits.max_compute_workgroups_per_dimension > 0
    }

    /// A compactor of `item_kind` items with nothing allocated.
    pub fn new(item_kind: CompactItemKind, limits: DeviceLimits, scan: ScanConfig) -> (r: CompactCore)
        requires
            scan.wf(),
            limits.max_compute_workgroups_per_dimension > 0,
        ensures
            r.wf(),
            r.item_size_bytes == item_kind.size_bytes_spec(),
            r.limits == limits,
            !r.offsets.allocated,
    {
        CompactCore {
            item_size_bytes: item_kind.size_bytes(),
            limits,
            scanner: Scanner::new(scan),
            offsets: ReusableBuffer::new(),
        }
    }

    /// Grows the offsets buffer to `size_bytes`, within the buffer-size limit.
    pub fn ensure_offsets(&mut self, size_bytes: u64) -> (r: Result<(), Error>)
        requires
            old(self).wf(),
        ensures
            final(self).wf(),
            final(self).limits == old(self).limits,
            final(self).item_size_bytes == old(self).item_size_bytes,
            final(self).scanner == old(self).scanner,
            size_bytes > old(self).limits.max_buffer_size ==> r == Err::<(), Error>(
                Error::BufferLimitExceeded { requested: size_bytes, limit: old(self).limits.max_buffer_size },
            ) && *final(self) == *old(self),
            size_bytes <= old(self).limits.max_buffer_size ==> r is Ok && final(self).offsets.allocated
                && final(self).offsets.capacity_bytes >= size_bytes,
    {
        let limit = self.limits.max_buffer_size;
        if size_bytes > limit {
            return Err(Error::BufferLimitExceeded { requested: size_bytes, limit });
        }
        self.offsets.ensure(size_bytes);
        Ok(())
    }

    /// Prepares the offsets and scan scratch for compactions of up to `capacity` items.
    pub fn reserve(&mut self, capacity: u32) -> (r: Result<(), Error>)
        requires
            old(self).wf(),
        ensures
            final(self).wf(),
            final(self).limits == old(self).limits,
            final(self).item_size_bytes == old(self).item_size_bytes,
            capacity == 0 ==> r is Ok && *final(self) == *old(self),
            capacity > 0 && capacity * 4 > old(self).limits.max_buffer_size ==> r == Err::<(), Error>(
                Error::BufferLimitExceeded { requested: (capacity * 4) as u64, limit: old(self).limits.max_buffer_size },
            ) && *final(self) == *old(self),
            capacity > 0 && capacity * 4 <= old(self).limits.max_buffer_size ==> r is Ok
                && final(self).offsets.allocated
                && final(self).offsets.capacity_bytes >= capacity * 4
                && final(self).scanner.config == old(self).scanner.config
                && final(self).scanner.scratch_allocated
                && final(self).scanner.scratch_size_bytes >= scratch_size_spec(capacity as nat, old(self).scanner.per()),
    {
        if capacity == 0 {
            return Ok(());
        }
        if let Err(e) = self.ensure_offsets(capacity as u64 * MASK_ITEM_SIZE_BYTES) {
            return Err(e);
        }
        self.scanner.prepare_scratch(capacity);
        Ok(())
    }

    /// Validates and plans a compaction of the first `num_items` items.
    pub fn record_compact(
        &mut self,
        input: GpuBuffer,
        mask: GpuBuffer,
        output: GpuBuffer,
        output_count: GpuBuffer,
        num_items: u32,
    ) -> (r: Result<CompactCommands, Error>)
        requires
            old(self).wf(),
        ensures
            final(self).wf(),
            final(self).limits == old(self).limits,
            final(self).item_size_bytes == old(self).item_size_bytes,
            match compact_error(input, mask, output, output_count, num_items, old(self).item_size_bytes, old(self).limits) {
                Some(e) => r == Err::<CompactCommands, Error>(e),
                None => r is Ok,
            },
            compact_plan_spec(r, num_items, *old(self), *final(self)),
    {
        if let Err(e) = validate_distinct_buffers(input, mask, output, output_count) {
            return Err(e);
        }
        if let Err(e) = validate_buffer(output_count, "compaction output count", COUNT_SIZE_BYTES, USAGE_STORAGE | USAGE_COPY_DST) {
            return Err(e);
        }
        if num_items == 0 {
            return Ok(CompactCommands::ClearCount);
        }
        let item_bytes = num_items as u64 * self.item_size_bytes;
        let mask_bytes = num_items as u64 * MASK_ITEM_SIZE_BYTES;
        if let Err(e) = validate_buffer(input, "compaction input", item_bytes, USAGE_STORAGE) {
            return Err(e);
        }
        if let Err(e) = validate_buffer(mask, "compaction mask", mask_bytes, USAGE_STORAGE | USAGE_COPY_SRC) {
            return Err(e);
        }
        if let Err(e) = validate_buffer(output, "compaction output", item_bytes, USAGE_STORAGE) {
            return Err(e);
        }
        if let Err(e) = self.ensure_offsets(mask_bytes) {
            return Err(e);
        }
        let scan = self.scanner.plan_scan(num_items, ScanMode::Exclusive, false);
        let per = self.scanner.config.vt * self.scanner.config.block_size;
        let prefixes_in_scratch = self.scanner.scratch_allocated;
        let (x, y, params) = compact_dispatch(num_items, self.limits.max_compute_workgroups_per_dimension, per);
        Ok(
            CompactCommands::Compact {
                scan,
                prefixes_in_scratch,
                scan_items_per_block: per,
                groups: (x, y),
                params,
            },
        )
    }

    /// Timestamp spans a profiled compaction records: the block-local scan's
    /// dispatches and the scatter.
    pub fn profile_span_count(&self, num_items: u32) -> (r: u32)
        requires
            self.wf(),
        ensures
            r == (if num_items == 0 {
                0
            } else if num_items == 1 {
                1
            } else {
                step_count(num_items as nat, self.scanner.per(), false) + 1
            }),
    {
        if num_items == 0 {
            0
        } else {
            self.scanner.compute_block_local_pass_count(num_items) + 1
        }
    }
}

} // verus!
