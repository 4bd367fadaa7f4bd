use vstd::prelude::*;

use crate::common::buffers::{
    alias_pair, alias_spec, effective_storage_binding_limit, offset_spec, validate_distinct,
    validate_spec, AliasPair, BufferRange, DeviceLimits, USAGE_STORAGE,
};
use crate::common::dispatch::split_dispatch;
use crate::common::math::{div_ceil, div_ceil_u32, lemma_div_ceil, lemma_div_ceil_monotone, lemma_grid_covers};
use crate::common::workspace::workspace_capacity_spec;
use crate::count::CountedSortDispatch;
use crate::error::Error;

use super::pipeline::{radix_workgroup_config, radix_workgroup_config_spec, SortItemKind};
use super::routing::{pass_buffer_slots, slot_destination, slot_source, BufferSlot};
use super::uniforms::{radix_uniform_word, radix_uniforms, uniform_stride};

verus! {

pub const U32_SIZE_BYTES: u64 = 4;
pub const UNIFORM_SIZE_BYTES: u64 = 16;
pub const DISPATCH_ARGS_SIZE_BYTES: u64 = 12;
pub const MAX_WORKGROUPS_X: u32 = 65_535;
pub const FULL_KEY_BITS: u32 = 32;
/// Key bits consumed by each counted radix pass.
pub const BITS_PER_PASS: u32 = 2;
/// Histogram counters per block (one per 2-bit digit).
pub const BUCKETS: u32 = 4;

pub open spec fn items_per_block_spec(limits: DeviceLimits) -> u32 {
    let (vt, block) = radix_workgroup_config_spec(limits.max_compute_workgroup_storage_size);
    (vt * block) as u32
}

/// Items one counted radix workgroup sorts.
pub fn items_per_block(limits: &DeviceLimits) -> (r: u32)
    ensures
        r == items_per_block_spec(*limits),
        r == 2048 || r == 512,
{
    let (vt, block_size) = radix_workgroup_config(limits.max_compute_workgroup_storage_size);
    vt * block_size
}

/// The allocation size of a counted-sort workspace of `requested` bytes.
pub fn workspace_capacity(requested: u64) -> (r: Result<u64, Error>)
    ensures
        r == workspace_capacity_spec(requested, U32_SIZE_BYTES),
{
    crate::common::workspace::workspace_capacity(requested, U32_SIZE_BYTES)
}

pub open spec fn pass_count_spec(key_bits: u32) -> u32 {
    div_ceil(if key_bits >= 1 {
        key_bits as int
    } else {
        1
    }, 2) as u32
}

/// The passes of a counted sort cover the declared key bits and no more
/// than the digit that holds the highest of them: `pass_count * 2` bits
/// reach `key_bits`, and one pass fewer would not.
pub proof fn lemma_counted_passes_cover_key_bits(key_bits: u32)
    requires
        key_bits <= FULL_KEY_BITS,
    ensures
        pass_count_spec(key_bits) >= 1,
        pass_count_spec(key_bits) * BITS_PER_PASS >= key_bits,
        (pass_count_spec(key_bits) - 1) * BITS_PER_PASS < (if key_bits >= 1 { key_bits } else { 1 }),
{
    let k: int = if key_bits >= 1 { key_bits as int } else { 1 };
    lemma_div_ceil(k, 2);
}

/// A counted plan's capacity grid reaches every item the capacity admits:
/// at most [`MAX_WORKGROUPS_X`] workgroups across, and one workgroup of
/// `items_per_block` items for each block.
pub proof fn lemma_counted_grid_covers(
    plan: CountedSortPlan,
    capacity: u32,
    key_bits: u32,
    prepared: Option<CountedSortDispatch>,
    items_per_block: u32,
    limits: DeviceLimits,
)
    requires
        items_per_block > 0,
        counted_plan_spec(plan, capacity, key_bits, prepared, items_per_block, limits),
    ensures
        plan.capacity_groups.0 <= MAX_WORKGROUPS_X,
        plan.capacity_groups.0 * plan.capacity_groups.1 * items_per_block >= capacity,
{
    let g = plan.capacity_groups;
    let blocks = div_ceil(capacity as int, items_per_block as int);
    lemma_div_ceil(capacity as int, items_per_block as int);
    assert(plan.problem.capacity_blocks == blocks);
    lemma_grid_covers(blocks, MAX_WORKGROUPS_X as int, g.0 as int, g.1 as int);
    assert(g.0 * g.1 * items_per_block >= blocks * items_per_block) by (nonlinear_arith)
        requires
            g.0 * g.1 >= blocks,
    ;
}

/// Passes of 2-bit digits covering `key_bits` key bits (at least one).
pub fn pass_count(key_bits: u32) -> (r: u32)
    ensures
        r == pass_count_spec(key_bits),
        r >= 1,
        key_bits <= FULL_KEY_BITS ==> r <= 16,
{
    let bits = if key_bits >= 1 {
        key_bits
    } else {
        1
    };
    proof {
        lemma_div_ceil(bits as int, 2);
    }
    div_ceil_u32(bits, 2)
}

/// Key-width law: declaring fewer significant key bits never adds a pass,
/// on the 2-bit counted kernels or on the 8-bit kernels, and the full width
/// takes 16 and 4 passes respectively.
pub proof fn lemma_fewer_key_bits_fewer_passes(narrow: u32, wide: u32)
    requires
        narrow <= wide <= FULL_KEY_BITS,
    ensures
        pass_count_spec(narrow) <= pass_count_spec(wide),
        super::eight_bit::pass_count_spec(narrow) <= super::eight_bit::pass_count_spec(wide),
        pass_count_spec(FULL_KEY_BITS) == 16,
        super::eight_bit::pass_count_spec(FULL_KEY_BITS) == 4,
{
    let n: int = if narrow >= 1 {
        narrow as int
    } else {
        1
    };
    let w: int = if wide >= 1 {
        wide as int
    } else {
        1
    };
    lemma_div_ceil_monotone(n, w, 2);
    lemma_div_ceil_monotone(n, w, 8);
    lemma_div_ceil(n, 2);
    lemma_div_ceil(w, 2);
    lemma_div_ceil(n, 8);
    lemma_div_ceil(w, 8);
    lemma_div_ceil(32, 2);
    lemma_div_ceil(32, 8);
}

/// The `(x, y)` grid for `workgroups` counted-sort workgroups.
pub fn dispatch_dimensions(workgroups: u32) -> (r: (u32, u32))
    ensures
        r.0 == (if workgroups <= MAX_WORKGROUPS_X {
            workgroups
        } else {
            MAX_WORKGROUPS_X
        }),
        r.1 == div_ceil(workgroups as int, MAX_WORKGROUPS_X as int),
        r.0 * r.1 >= workgroups,
{
    split_dispatch(workgroups, MAX_WORKGROUPS_X)
}

/// Rejects key widths above 32 bits.
pub fn validate_key_bits(key_bits: u32) -> (r: Result<(), Error>)
    ensures
        r == (if key_bits <= FULL_KEY_BITS {
            Ok(())
        } else {
            Err(Error::InvalidKeyBits { bits: key_bits })
        }),
{
    if key_bits <= FULL_KEY_BITS {
        Ok(())
    } else {
        Err(Error::InvalidKeyBits { bits: key_bits })
    }
}

/// The `(source, destination)` of counted pass `radix_pass`.
pub fn pass_buffers(radix_pass: u32, pass_count: u32) -> (r: (BufferSlot, BufferSlot))
    requires
        radix_pass < pass_count,
    ensures
        r == (
            slot_source(radix_pass as nat, pass_count as nat),
            slot_destination(radix_pass as nat, pass_count as nat),
        ),
{
    pass_buffer_slots(radix_pass, pass_count)
}

pub open spec fn sort_alias_pairs(input: BufferRange, output: BufferRange, count: BufferRange) -> Seq<
    AliasPair,
> {
    seq![
        AliasPair {
            first: input.buffer,
            first_name: "sort input",
            second: output.buffer,
            second_name: "sort output",
        },
        AliasPair {
            first: input.buffer,
            first_name: "sort input",
            second: count.buffer,
            second_name: "sort item count",
        },
        AliasPair {
            first: output.buffer,
            first_name: "sort output",
            second: count.buffer,
            second_name: "sort item count",
        },
    ]
}

/// Rejects a counted sort whose input, output and count share a buffer.
pub fn validate_distinct_sort(input: BufferRange, output: BufferRange, count: BufferRange) -> (r:
    Result<(), Error>)
    ensures
        r == alias_spec(sort_alias_pairs(input, output, count)),
{
    let v = vec![
        alias_pair(input.buffer, "sort input", output.buffer, "sort output"),
        alias_pair(input.buffer, "sort input", count.buffer, "sort item count"),
        alias_pair(output.buffer, "sort output", count.buffer, "sort item count"),
    ];
    assert(v@ =~= sort_alias_pairs(input, output, count));
    validate_distinct(&v)
}

/// The allocation state of a counted sorter's workspace.
#[derive(Clone, Copy, Debug, PartialEq, Eq, Structural)]
pub struct CountedSortWorkspace {
    pub allocated: bool,
    pub capacity_bytes: u64,
    pub histogram_bytes: u64,
    /// Bytes of the scratch buffer: the capacity, at least one item.
    pub scratch_bytes: u64,
}

/// The sizes of one counted sort.
#[derive(Clone, Copy, Debug, PartialEq, Eq, Structural)]
pub struct CountedProblem {
    pub capacity_items: u32,
    pub capacity_blocks: u32,
    pub histogram_items: u32,
    pub histogram_bytes: u64,
}

/// The workspace after ensuring room for `req` item bytes and `req_hist`
/// histogram bytes, or the limit it would exceed.
pub open spec fn ensure_spec(
    ws: CountedSortWorkspace,
    req: u64,
    req_hist: u64,
    item_size: u64,
    limits: DeviceLimits,
) -> Result<CountedSortWorkspace, Error> {
    let c = workspace_capacity_spec(req, 4);
    let h = workspace_capacity_spec(req_hist, 4);
    let limit = if limits.max_buffer_size <= limits.max_storage_buffer_binding_size {
        limits.max_buffer_size
    } else {
        limits.max_storage_buffer_binding_size
    };
    if ws.allocated && ws.capacity_bytes >= req && ws.histogram_bytes >= req_hist {
        Ok(ws)
    } else if c is Err {
        Err(c->Err_0)
    } else if h is Err {
        Err(h->Err_0)
    } else if c->Ok_0 > limit {
        Err(Error::BufferLimitExceeded { requested: c->Ok_0, limit })
    } else if h->Ok_0 > limit {
        Err(Error::BufferLimitExceeded { requested: h->Ok_0, limit })
    } else {
        Ok(
            CountedSortWorkspace {
                allocated: true,
                capacity_bytes: c->Ok_0,
                histogram_bytes: h->Ok_0,
                scratch_bytes: if c->Ok_0 >= item_size {
                    c->Ok_0
                } else {
                    item_size
                },
            },
        )
    }
}

/// The sizes of a counted sort of `capacity` items.
pub open spec fn problem_spec(capacity: u32, ipb: u32) -> CountedProblem {
    let blocks = div_ceil(capacity as int, ipb as int) as u32;
    CountedProblem {
        capacity_items: capacity,
        capacity_blocks: blocks,
        histogram_items: (blocks * 4) as u32,
        histogram_bytes: (blocks * 16) as u64,
    }
}

/// The validation error, if any, of a counted sort before its workspace is prepared.
pub open spec fn prepare_error(
    input: BufferRange,
    output: BufferRange,
    count: BufferRange,
    capacity: u32,
    item_size: u64,
    limits: DeviceLimits,
) -> Option<Error> {
    let align = limits.min_storage_buffer_offset_alignment as u64;
    let bytes = (capacity * item_size) as u64;
    let alias = alias_spec(sort_alias_pairs(input, output, count));
    let cnt = validate_spec(count, "sort item count", 4, USAGE_STORAGE);
    let inp = validate_spec(input, "sort input", bytes, USAGE_STORAGE);
    let out = validate_spec(output, "sort output", bytes, USAGE_STORAGE);
    let inp_off = offset_spec(input, align, "sort input");
    let out_off = offset_spec(output, align, "sort output");
    let cnt_off = offset_spec(count, align, "sort item count");
    if alias is Err {
        Some(alias->Err_0)
    } else if cnt is Err {
        Some(cnt->Err_0)
    } else if inp is Err {
        Some(inp->Err_0)
    } else if out is Err {
        Some(out->Err_0)
    } else if inp_off is Err {
        Some(inp_off->Err_0)
    } else if out_off is Err {
        Some(out_off->Err_0)
    } else if cnt_off is Err {
        Some(cnt_off->Err_0)
    } else {
        None
    }
}

/// How counted radix passes size their launches.
#[derive(Clone, Copy, Debug, PartialEq, Eq, Structural)]
pub enum DispatchStrategy {
    /// Prepare indirect arguments from the count, then dispatch indirectly.
    PrepareIndirect,
    /// Dispatch indirectly from a prepared count plan's arguments.
    PreparedIndirect,
    /// Dispatch for the full capacity.
    Capacity,
}

/// The uniform record stride: the uniform offset alignment, at least one record.
pub open spec fn stride_spec(limits: DeviceLimits) -> u64 {
    let a = limits.min_uniform_buffer_offset_alignment as u64;
    if a >= UNIFORM_SIZE_BYTES {
        a
    } else {
        UNIFORM_SIZE_BYTES
    }
}

/// The commands of one counted radix sort.
pub struct CountedSortPlan {
    pub problem: CountedProblem,
    pub pass_count: u32,
    pub strategy: DispatchStrategy,
    /// The grid used by [`DispatchStrategy::Capacity`].
    pub capacity_groups: (u32, u32),
    pub uniform_stride: u64,
    /// Per-pass uniform records, `uniform_stride / 4` words each.
    pub uniforms: Vec<u32>,
    /// Per-pass `(source, destination)` buffers.
    pub passes: Vec<(BufferSlot, BufferSlot)>,
}

/// The routing of all passes of a `pass_count`-pass sort.
pub fn pass_routes(pass_count: u32) -> (r: Vec<(BufferSlot, BufferSlot)>)
    ensures
        r@.len() == pass_count,
        forall|p: int|
            0 <= p < pass_count ==> #[trigger] r@[p] == (
                slot_source(p as nat, pass_count as nat),
                slot_destination(p as nat, pass_count as nat),
            ),
{
    let mut routes: Vec<(BufferSlot, BufferSlot)> = Vec::new();
    let mut p: u32 = 0;
    while p < pass_count
        invariant
            p <= pass_count,
            routes@.len() == p,
            forall|q: int|
                0 <= q < p ==> #[trigger] routes@[q] == (
                    slot_source(q as nat, pass_count as nat),
                    slot_destination(q as nat, pass_count as nat),
                ),
        decreases pass_count - p,
    {
        routes.push(pass_buffer_slots(p, pass_count));
        p = p + 1;
    }
    routes
}

/// A counted sort plan for `capacity` items over the low `key_bits` bits:
/// its sizes, pass count, dispatch strategy and grid, uniform words, and
/// passes that start from the input and end in the output.
pub open spec fn counted_plan_spec(
    plan: CountedSortPlan,
    capacity: u32,
    key_bits: u32,
    prepared: Option<CountedSortDispatch>,
    items_per_block: u32,
    limits: DeviceLimits,
) -> bool {
    let n = plan.pass_count;
    let w = plan.uniform_stride / 4;
    &&& plan.problem == problem_spec(capacity, items_per_block)
    &&& n == pass_count_spec(key_bits)
    &&& plan.strategy == (match prepared {
        None => DispatchStrategy::PrepareIndirect,
        Some(CountedSortDispatch::Indirect) => DispatchStrategy::PreparedIndirect,
        Some(CountedSortDispatch::Capacity) => DispatchStrategy::Capacity,
    })
    &&& plan.capacity_groups.0 == (if plan.problem.capacity_blocks <= MAX_WORKGROUPS_X {
        plan.problem.capacity_blocks
    } else {
        MAX_WORKGROUPS_X
    })
    &&& plan.capacity_groups.1 == div_ceil(plan.problem.capacity_blocks as int, MAX_WORKGROUPS_X as int)
    &&& plan.uniform_stride == stride_spec(limits)
    &&& plan.uniforms@.len() == n * w
    &&& forall|i: int|
        0 <= i < plan.uniforms@.len() ==> #[trigger] plan.uniforms@[i] == radix_uniform_word(
            i / w as int,
            i % w as int,
            BITS_PER_PASS,
            capacity,
            plan.problem.capacity_blocks,
        )
    &&& forall|p: int| 0 <= p < n ==> #[trigger] plan.uniforms@[p * w] == p * BITS_PER_PASS
    &&& plan.passes@.len() == n
    &&& forall|p: int|
        0 <= p < n ==> #[trigger] plan.passes@[p] == (
            slot_source(p as nat, n as nat),
            slot_destination(p as nat, n as nat),
        )
}

/// Counted radix-sort planning state: item size, block shape, device limits
/// and the workspace allocated so far.
pub struct CountedSorter {
    pub item_size_bytes: u64,
    pub items_per_block: u32,
    pub limits: DeviceLimits,
    pub workspace: CountedSortWorkspace,
}

impl CountedSorter {
    pub open spec fn wf(&self) -> bool {
        &&& self.item_size_bytes == 4 || self.item_size_bytes == 8
        &&& self.items_per_block == items_per_block_spec(self.limits)
    }

    /// A sorter with no workspace yet.
    pub fn new(item_kind: SortItemKind, limits: DeviceLimits) -> (r: CountedSorter)
        ensures
            r.wf(),
            r.limits == limits,
            r.item_size_bytes == (if item_kind == SortItemKind::Key {
                4u64
            } else {
                8u64
            }),
            r.workspace == (CountedSortWorkspace {
                allocated: false,
                capacity_bytes: 0,
                histogram_bytes: 0,
                scratch_bytes: 0,
            }),
    {
        let ipb = items_per_block(&limits);
        CountedSorter {
            item_size_bytes: item_kind.size_bytes(),
            items_per_block: ipb,
            limits,
            workspace: CountedSortWorkspace {
                allocated: false,
                capacity_bytes: 0,
                histogram_bytes: 0,
                scratch_bytes: 0,
            },
        }
    }

    /// Grows the workspace to hold `req` item bytes and `req_hist` histogram bytes.
    pub fn ensure_workspace(&mut self, req: u64, req_hist: u64) -> (r: Result<(), Error>)
        requires
            old(self).wf(),
        ensures
            final(self).wf(),
            final(self).item_size_bytes == old(self).item_size_bytes,
            final(self).limits == old(self).limits,
            match ensure_spec(
                old(self).workspace,
                req,
                req_hist,
                old(self).item_size_bytes,
                old(self).limits,
            ) {
                Ok(ws) => r is Ok && final(self).workspace == ws,
                Err(e) => r == Err::<(), Error>(e) && final(self).workspace == old(self).workspace,
            },
    {
        if self.workspace.allocated && self.workspace.capacity_bytes >= req
            && self.workspace.histogram_bytes >= req_hist {
            return Ok(());
        }
        let c = match workspace_capacity(req) {
            Ok(c) => c,
            Err(e) => return Err(e),
        };
        let h = match workspace_capacity(req_hist) {
            Ok(h) => h,
            Err(e) => return Err(e),
        };
        let limit = effective_storage_binding_limit(
            self.limits.max_buffer_size,
            self.limits.max_storage_buffer_binding_size,
        );
        if c > limit {
            return Err(Error::BufferLimitExceeded { requested: c, limit });
        }
        if h > limit {
            return Err(Error::BufferLimitExceeded { requested: h, limit });
        }
        let scratch = if c >= self.item_size_bytes {
            c
        } else {
            self.item_size_bytes
        };
        self.workspace = CountedSortWorkspace {
            allocated: true,
            capacity_bytes: c,
            histogram_bytes: h,
            scratch_bytes: scratch,
        };
        Ok(())
    }

    /// Prepares workspace for counted sorts of up to `capacity` items and
    /// returns the histogram length its scans will need.
    pub fn reserve(&mut self, capacity: u32) -> (r: Result<u32, Error>)
        requires
            old(self).wf(),
        ensures
            final(self).wf(),
            final(self).limits == old(self).limits,
            final(self).item_size_bytes == old(self).item_size_bytes,
            capacity == 0 ==> r == Ok::<u32, Error>(0) && final(self).workspace == old(self).workspace,
            capacity > 0 ==> {
                let p = problem_spec(capacity, old(self).items_per_block);
                match ensure_spec(
                    old(self).workspace,
                    (capacity * old(self).item_size_bytes) as u64,
                    p.histogram_bytes,
                    old(self).item_size_bytes,
                    old(self).limits,
                ) {
                    Ok(ws) => r == Ok::<u32, Error>(p.histogram_items) && final(self).workspace
                        == ws,
                    Err(e) => r == Err::<u32, Error>(e) && final(self).workspace == old(self).workspace,
                }
            },
    {
        if capacity == 0 {
            return Ok(0);
        }
        let bytes = capacity as u64 * self.item_size_bytes;
        let p = self.problem(capacity);
        match self.ensure_workspace(bytes, p.histogram_bytes) {
            Ok(()) => Ok(p.histogram_items),
            Err(e) => Err(e),
        }
    }

    /// The sizes of a counted sort of `capacity` items.
    pub fn problem(&self, capacity: u32) -> (r: CountedProblem)
        requires
            self.wf(),
        ensures
            r == problem_spec(capacity, self.items_per_block),
            r.capacity_blocks <= 0x80_0000,
    {
        proof {
            lemma_div_ceil(capacity as int, self.items_per_block as int);
            crate::reduce::counted::lemma_div_ceil_le(
                capacity as int,
                self.items_per_block as int,
                0x80_0000,
            );
        }
        let blocks = div_ceil_u32(capacity, self.items_per_block);
        CountedProblem {
            capacity_items: capacity,
            capacity_blocks: blocks,
            histogram_items: blocks * BUCKETS,
            histogram_bytes: blocks as u64 * 16,
        }
    }

    /// Validates a counted sort and prepares its workspace; `None` means the
    /// capacity is zero and nothing is recorded.
    pub fn prepare(
        &mut self,
        input: BufferRange,
        output: BufferRange,
        count: BufferRange,
        capacity: u32,
    ) -> (r: Result<Option<CountedProblem>, Error>)
        requires
            old(self).wf(),
        ensures
            final(self).wf(),
            final(self).limits == old(self).limits,
            final(self).item_size_bytes == old(self).item_size_bytes,
            match prepare_error(
                input,
                output,
                count,
                capacity,
                old(self).item_size_bytes,
                old(self).limits,
            ) {
                Some(e) => r == Err::<Option<CountedProblem>, Error>(e) && final(self).workspace
                    == old(self).workspace,
                None => if capacity == 0 {
                    r == Ok::<Option<CountedProblem>, Error>(None) && final(self).workspace == old(self).workspace
                } else {
                    let p = problem_spec(capacity, old(self).items_per_block);
                    match ensure_spec(
                        old(self).workspace,
                        (capacity * old(self).item_size_bytes) as u64,
                        p.histogram_bytes,
                        old(self).item_size_bytes,
                        old(self).limits,
                    ) {
                        Ok(ws) => r == Ok::<Option<CountedProblem>, Error>(Some(p))
                            && final(self).workspace == ws,
                        Err(e) => r == Err::<Option<CountedProblem>, Error>(e) && final(self).workspace == old(self).workspace,
                    }
                },
            },
    {
        if let Err(e) = validate_distinct_sort(input, output, count) {
            return Err(e);
        }
        if let Err(e) = count.validate("sort item count", U32_SIZE_BYTES, USAGE_STORAGE) {
            return Err(e);
        }
        let bytes = capacity as u64 * self.item_size_bytes;
        if let Err(e) = input.validate("sort input", bytes, USAGE_STORAGE) {
            return Err(e);
        }
        if let Err(e) = output.validate("sort output", bytes, USAGE_STORAGE) {
            return Err(e);
        }
        if let Err(e) = input.validate_storage_offset(&self.limits, "sort input") {
            return Err(e);
        }
        if let Err(e) = output.validate_storage_offset(&self.limits, "sort output") {
            return Err(e);
        }
        if let Err(e) = count.validate_storage_offset(&self.limits, "sort item count") {
            return Err(e);
        }
        if capacity == 0 {
            return Ok(None);
        }
        let p = self.problem(capacity);
        match self.ensure_workspace(bytes, p.histogram_bytes) {
            Ok(()) => Ok(Some(p)),
            Err(e) => Err(e),
        }
    }

    /// Validates and plans a counted sort.
    ///
    /// `prepared` is `None` when the sorter prepares its own indirect
    /// arguments from `count`, or the strategy of a shared count plan.
    pub fn plan_sort(
        &mut self,
        input: BufferRange,
        output: BufferRange,
        count: BufferRange,
        capacity: u32,
        key_bits: u32,
        prepared: Option<CountedSortDispatch>,
    ) -> (r: Result<Option<CountedSortPlan>, Error>)
        requires
            old(self).wf(),
        ensures
            final(self).wf(),
            final(self).limits == old(self).limits,
            final(self).item_size_bytes == old(self).item_size_bytes,
            key_bits > FULL_KEY_BITS ==> r == Err::<Option<CountedSortPlan>, Error>(
                Error::InvalidKeyBits { bits: key_bits },
            ) && final(self).workspace == old(self).workspace,
            key_bits <= FULL_KEY_BITS ==> match prepare_error(
                input,
                output,
                count,
                capacity,
                old(self).item_size_bytes,
                old(self).limits,
            ) {
                Some(e) => r == Err::<Option<CountedSortPlan>, Error>(e) && final(self).workspace
                    == old(self).workspace,
                None => if capacity == 0 {
                    r matches Ok(None) && final(self).workspace == old(self).workspace
                } else {
                    match ensure_spec(
                        old(self).workspace,
                        (capacity * old(self).item_size_bytes) as u64,
                        problem_spec(capacity, old(self).items_per_block).histogram_bytes,
                        old(self).item_size_bytes,
                        old(self).limits,
                    ) {
                        Ok(ws) => r matches Ok(Some(_)) && final(self).workspace == ws,
                        Err(e) => r == Err::<Option<CountedSortPlan>, Error>(e) && final(self).workspace
                            == old(self).workspace,
                    }
                },
            },
            r matches Ok(Some(plan)) ==> key_bits <= FULL_KEY_BITS && capacity > 0 && counted_plan_spec(
                plan,
                capacity,
                key_bits,
                prepared,
                old(self).items_per_block,
                old(self).limits,
            ),
    {
        if let Err(e) = validate_key_bits(key_bits) {
            return Err(e);
        }
        let problem = match self.prepare(input, output, count, capacity) {
            Ok(Some(p)) => p,
            Ok(None) => return Ok(None),
            Err(e) => return Err(e),
        };
        let n = pass_count(key_bits);
        let strategy = match prepared {
            None => DispatchStrategy::PrepareIndirect,
            Some(CountedSortDispatch::Indirect) => DispatchStrategy::PreparedIndirect,
            Some(CountedSortDispatch::Capacity) => DispatchStrategy::Capacity,
        };
        let capacity_groups = dispatch_dimensions(problem.capacity_blocks);
        let stride = uniform_stride(self.limits.min_uniform_buffer_offset_alignment, UNIFORM_SIZE_BYTES);
        let words = (stride / U32_SIZE_BYTES) as u32;
        assert(words >= 4);
        let uniforms = radix_uniforms(n, words, BITS_PER_PASS, capacity, problem.capacity_blocks);
        let passes = pass_routes(n);
        Ok(
            Some(
                CountedSortPlan {
                    problem,
                    pass_count: n,
                    strategy,
                    capacity_groups,
                    uniform_stride: stride,
                    uniforms,
                    passes,
                },
            ),
        )
    }
}

} // verus!
