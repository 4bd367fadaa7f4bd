use vstd::prelude::*;

use crate::common::buffers::{BufferRange, DeviceLimits, GpuBuffer};
use crate::common::capabilities::AdapterCapabilities;
use crate::count::{CountedSortDispatch, GpuCountPlan};
use crate::error::Error;

use super::counted::{
    counted_plan_spec, ensure_spec, items_per_block_spec, prepare_error, problem_spec, CountedSortPlan,
    CountedSortWorkspace, CountedSorter, FULL_KEY_BITS,
};
use super::eight_bit::{counted_sort_error, element_count_limit_spec, EightBitCountedPlan, EightBitSorter};
use super::pipeline::{radix_variant_spec, RadixVariant, SortItemKind};
use super::radix::{fixed_sort_outcome, RadixSorter, SortCommands, SortImplementation};
use super::routing::{slot_destination, slot_source};

verus! {

/// The commands of one sort of a GPU-counted prefix.
pub enum CountedSortCommands {
    /// The capacity is zero.
    Nothing,
    /// The general counted kernels.
    Counted(CountedSortPlan),
    /// The 8-bit counted kernels over the trimmed input, output and count ranges.
    EightBit { input: BufferRange, output: BufferRange, count: BufferRange, plan: EightBitCountedPlan },
}

/// The counted sorter behind a facade: absent until first needed, then built
/// for the facade's item kind and limits.
pub open spec fn counted_ok(counted: Option<CountedSorter>, item_size: u64, limits: DeviceLimits) -> bool {
    counted matches Some(c) ==> c.wf() && c.item_size_bytes == item_size && c.limits == limits
}

/// The workspace of a facade's counted sorter before a call: the built
/// sorter's, or the empty one a new sorter starts with.
pub open spec fn counted_workspace(counted: Option<CountedSorter>) -> CountedSortWorkspace {
    match counted {
        Some(c) => c.workspace,
        None => CountedSortWorkspace { allocated: false, capacity_bytes: 0, histogram_bytes: 0, scratch_bytes: 0 },
    }
}

/// The outcome of a general counted sort, as [`CountedSorter::plan_sort`]
/// states it: an invalid key width first, then the input checks, then the
/// workspace; and otherwise the plan of the requested key width, whose passes
/// start from the input and end in the output.
pub open spec fn counted_outcome(
    r: Result<CountedSortCommands, Error>,
    input: GpuBuffer,
    output: GpuBuffer,
    count: BufferRange,
    capacity: u32,
    key_bits: u32,
    prepared: Option<CountedSortDispatch>,
    workspace: CountedSortWorkspace,
    item_size: u64,
    limits: DeviceLimits,
) -> bool {
    &&& key_bits > FULL_KEY_BITS ==> r == Err::<CountedSortCommands, Error>(
        Error::InvalidKeyBits { bits: key_bits },
    )
    &&& key_bits <= FULL_KEY_BITS ==> match prepare_error(
        BufferRange::whole_spec(input),
        BufferRange::whole_spec(output),
        count,
        capacity,
        item_size,
        limits,
    ) {
        Some(e) => r == Err::<CountedSortCommands, Error>(e),
        None => if capacity == 0 {
            r matches Ok(CountedSortCommands::Nothing)
        } else {
            match ensure_spec(
                workspace,
                (capacity * item_size) as u64,
                problem_spec(capacity, items_per_block_spec(limits)).histogram_bytes,
                item_size,
                limits,
            ) {
                Ok(_) => r matches Ok(CountedSortCommands::Counted(_)),
                Err(e) => r == Err::<CountedSortCommands, Error>(e),
            }
        },
    }
    &&& r matches Ok(CountedSortCommands::Counted(plan)) ==> capacity > 0 && counted_plan_spec(
        plan,
        capacity,
        key_bits,
        prepared,
        items_per_block_spec(limits),
        limits,
    )
    &&& !(r matches Ok(CountedSortCommands::EightBit { .. }))
}

/// The outcome of a counted sort on the 8-bit kernels of `s`: its
/// validation error, nothing for a zero capacity, the element limit and the
/// workspace error; and otherwise the requested key width's passes, which
/// start from the input and end in the output, over the trimmed ranges.
pub open spec fn eight_bit_counted_outcome(
    s: EightBitSorter,
    r: Result<CountedSortCommands, Error>,
    input: GpuBuffer,
    output: GpuBuffer,
    count: GpuBuffer,
    capacity: u32,
    key_bits: u32,
) -> bool {
    let e = counted_sort_error(
        BufferRange::whole_spec(input),
        BufferRange::whole_spec(output),
        BufferRange::whole_spec(count),
        0,
        capacity,
        key_bits,
        s.item_size_bytes,
        s.limits,
    );
    let bytes = (capacity * s.item_size_bytes) as u64;
    let max_items = element_count_limit_spec(s.limits.max_compute_workgroups_per_dimension);
    &&& e matches Some(err) ==> r == Err::<CountedSortCommands, Error>(err)
    &&& e is None && capacity == 0 ==> (r matches Ok(CountedSortCommands::Nothing))
    &&& e is None && capacity > max_items ==> r == Err::<CountedSortCommands, Error>(
        Error::RadixElementCountLimitExceeded { count: capacity, limit: max_items },
    )
    &&& e is None && 0 < capacity <= max_items ==> match s.ensure_spec(bytes) {
        Ok(_) => r matches Ok(CountedSortCommands::EightBit { .. }),
        Err(err) => r == Err::<CountedSortCommands, Error>(err),
    }
    &&& !(r matches Ok(CountedSortCommands::Counted(_)))
    &&& r matches Ok(CountedSortCommands::EightBit { input: i, output: o, count: c, plan }) ==> {
        let n = crate::sort::eight_bit::pass_count_spec(key_bits);
        &&& capacity > 0
        &&& i == (BufferRange { size: bytes, ..BufferRange::whole_spec(input) })
        &&& o == (BufferRange { size: bytes, ..BufferRange::whole_spec(output) })
        &&& c == (BufferRange { size: 4, ..BufferRange::whole_spec(count) })
        &&& plan.params@[1] == n
        &&& plan.passes@.len() == n
        &&& n > 0
        &&& forall|p: int|
            0 <= p < n ==> #[trigger] plan.passes@[p] == (
                slot_source(p as nat, n as nat),
                slot_destination(p as nat, n as nat),
            )
    }
}

/// Plans a general counted sort, building the counted sorter on first use.
fn plan_counted(
    counted: &mut Option<CountedSorter>,
    item_kind: SortItemKind,
    limits: DeviceLimits,
    input: GpuBuffer,
    output: GpuBuffer,
    count: BufferRange,
    capacity: u32,
    key_bits: u32,
    prepared: Option<CountedSortDispatch>,
) -> (r: Result<CountedSortCommands, Error>)
    requires
        counted_ok(*old(counted), item_kind.size_bytes_spec(), limits),
    ensures
        counted_ok(*final(counted), item_kind.size_bytes_spec(), limits),
        (*final(counted)) is Some,
        counted_outcome(
            r,
            input,
            output,
            count,
            capacity,
            key_bits,
            prepared,
            counted_workspace(*old(counted)),
            item_kind.size_bytes_spec(),
            limits,
        ),
{
    if counted.is_none() {
        *counted = Some(CountedSorter::new(item_kind, limits));
    }
    match counted {
        Some(sorter) => {
            match sorter.plan_sort(
                BufferRange::whole(input),
                BufferRange::whole(output),
                count,
                capacity,
                key_bits,
                prepared,
            ) {
                Ok(Some(plan)) => Ok(CountedSortCommands::Counted(plan)),
                Ok(None) => Ok(CountedSortCommands::Nothing),
                Err(e) => Err(e),
            }
        },
        None => Ok(CountedSortCommands::Nothing),
    }
}

/// An unsigned 32-bit LSD radix sort. Fixed-size sorts run on the portable
/// kernels; sorts of a GPU-counted prefix on the counted kernels, built on
/// first use.
pub struct Sorter {
    pub core: RadixSorter,
    pub counted: Option<CountedSorter>,
    pub limits: DeviceLimits,
}

impl Sorter {
    pub open spec fn wf(&self) -> bool {
        &&& self.core.wf()
        &&& counted_ok(self.counted, 4, self.limits)
    }

    /// A sorter with no workspace yet.
    pub fn new(limits: DeviceLimits, device_subgroups: bool) -> (r: Sorter)
        ensures
            r.wf(),
            r.limits == limits,
            r.counted is None,
            r.core.implementation is ReduceScan,
    {
        Sorter { core: RadixSorter::new(SortItemKind::Key, limits, device_subgroups), counted: None, limits }
    }

    /// Validates and plans a full-width sort of the first `num_items` keys.
    pub fn record_sort(&mut self, input: GpuBuffer, output: GpuBuffer, num_items: u32) -> (r: Result<
        SortCommands,
        Error,
    >)
        requires
            old(self).wf(),
        ensures
            final(self).wf(),
            final(self).counted == old(self).counted,
            final(self).limits == old(self).limits,
            num_items == 0 ==> r matches Ok(SortCommands::Nothing),
            r matches Ok(SortCommands::Nothing) ==> num_items == 0,
            fixed_sort_outcome(old(self).core, r, input, output, num_items),
    {
        self.core.record_sort(input, output, num_items)
    }

    /// Validates and plans a sort of the prefix of `input` whose length is
    /// the GPU count in `count`, clamped to `capacity`, over the low
    /// `key_bits` bits of each key.
    pub fn record_sort_counted_with_key_bits(
        &mut self,
        input: GpuBuffer,
        output: GpuBuffer,
        count: GpuBuffer,
        capacity: u32,
        key_bits: u32,
    ) -> (r: Result<CountedSortCommands, Error>)
        requires
            old(self).wf(),
        ensures
            final(self).wf(),
            final(self).limits == old(self).limits,
            final(self).counted is Some,
            counted_outcome(
                r,
                input,
                output,
                BufferRange::whole_spec(count),
                capacity,
                key_bits,
                None,
                counted_workspace(old(self).counted),
                4,
                old(self).limits,
            ),
    {
        plan_counted(
            &mut self.counted,
            SortItemKind::Key,
            self.limits,
            input,
            output,
            BufferRange::whole(count),
            capacity,
            key_bits,
            None,
        )
    }

    /// The same as [`Self::record_sort_counted_with_key_bits`] over full keys.
    pub fn record_sort_counted(&mut self, input: GpuBuffer, output: GpuBuffer, count: GpuBuffer, capacity: u32) -> (r:
        Result<CountedSortCommands, Error>)
        requires
            old(self).wf(),
        ensures
            final(self).wf(),
            final(self).limits == old(self).limits,
            counted_outcome(
                r,
                input,
                output,
                BufferRange::whole_spec(count),
                capacity,
                FULL_KEY_BITS,
                None,
                counted_workspace(old(self).counted),
                4,
                old(self).limits,
            ),
    {
        self.record_sort_counted_with_key_bits(input, output, count, capacity, FULL_KEY_BITS)
    }

    /// Plans a counted sort whose dispatch arguments a shared count plan
    /// prepares, over the low `key_bits` bits of each key.
    pub fn record_sort_with_count_plan_and_key_bits(
        &mut self,
        input: GpuBuffer,
        output: GpuBuffer,
        plan: &GpuCountPlan,
        key_bits: u32,
    ) -> (r: Result<CountedSortCommands, Error>)
        requires
            old(self).wf(),
        ensures
            final(self).wf(),
            final(self).limits == old(self).limits,
            counted_outcome(
                r,
                input,
                output,
                plan.count,
                plan.capacity,
                key_bits,
                Some(plan.sort_dispatch),
                counted_workspace(old(self).counted),
                4,
                old(self).limits,
            ),
    {
        plan_counted(
            &mut self.counted,
            SortItemKind::Key,
            self.limits,
            input,
            output,
            plan.count(),
            plan.capacity(),
            key_bits,
            Some(plan.sort_dispatch()),
        )
    }

    /// The same as [`Self::record_sort_with_count_plan_and_key_bits`] over full keys.
    pub fn record_sort_with_count_plan(&mut self, input: GpuBuffer, output: GpuBuffer, plan: &GpuCountPlan) -> (r:
        Result<CountedSortCommands, Error>)
        requires
            old(self).wf(),
        ensures
            final(self).wf(),
            final(self).limits == old(self).limits,
            counted_outcome(
                r,
                input,
                output,
                plan.count,
                plan.capacity,
                FULL_KEY_BITS,
                Some(plan.sort_dispatch),
                counted_workspace(old(self).counted),
                4,
                old(self).limits,
            ),
    {
        self.record_sort_with_count_plan_and_key_bits(input, output, plan, FULL_KEY_BITS)
    }
}

/// A stable LSD radix sort of key-value records by key. On adapters that
/// support them the 8-bit kernels sort both fixed-size and GPU-counted
/// inputs; elsewhere fixed-size sorts run the reduce-then-scan kernels and
/// counted sorts the counted kernels, built on first use.
pub struct KeyValueSorter {
    pub core: RadixSorter,
    pub counted: Option<CountedSorter>,
    pub limits: DeviceLimits,
}

impl KeyValueSorter {
    pub open spec fn wf(&self) -> bool {
        &&& self.core.wf()
        &&& counted_ok(self.counted, 8, self.limits)
    }

    /// A sorter on the portable kernels.
    pub fn new(limits: DeviceLimits, device_subgroups: bool) -> (r: KeyValueSorter)
        ensures
            r.wf(),
            r.limits == limits,
            r.counted is None,
            r.core.implementation is ReduceScan,
    {
        KeyValueSorter {
            core: RadixSorter::new(SortItemKind::KeyValue, limits, device_subgroups),
            counted: None,
            limits,
        }
    }

    /// A sorter on the fastest kernels the adapter supports.
    pub fn new_for_adapter(capabilities: AdapterCapabilities, limits: DeviceLimits, device_subgroups: bool) -> (r:
        KeyValueSorter)
        ensures
            r.wf(),
            r.limits == limits,
            r.counted is None,
            (r.core.implementation is EightBit) == (radix_variant_spec(SortItemKind::KeyValue, capabilities)
                == RadixVariant::NvidiaVulkanSubgroup),
    {
        KeyValueSorter {
            core: RadixSorter::new_for_adapter(SortItemKind::KeyValue, capabilities, limits, device_subgroups),
            counted: None,
            limits,
        }
    }

    /// Validates and plans a full-width sort of the first `num_items` records.
    pub fn record_sort(&mut self, input: GpuBuffer, output: GpuBuffer, num_items: u32) -> (r: Result<
        SortCommands,
        Error,
    >)
        requires
            old(self).wf(),
        ensures
            final(self).wf(),
            final(self).counted == old(self).counted,
            final(self).limits == old(self).limits,
            num_items == 0 ==> r matches Ok(SortCommands::Nothing),
            r matches Ok(SortCommands::Nothing) ==> num_items == 0,
            fixed_sort_outcome(old(self).core, r, input, output, num_items),
    {
        self.core.record_sort(input, output, num_items)
    }

    /// Validates and plans a sort of the prefix of `input` whose length is
    /// the GPU count in `count`, clamped to `capacity`, over the low
    /// `key_bits` bits of each key: on the 8-bit kernels where this sorter
    /// runs them, else on the counted kernels.
    pub fn record_sort_counted_with_key_bits(
        &mut self,
        input: GpuBuffer,
        output: GpuBuffer,
        count: GpuBuffer,
        capacity: u32,
        key_bits: u32,
    ) -> (r: Result<CountedSortCommands, Error>)
        requires
            old(self).wf(),
        ensures
            final(self).wf(),
            final(self).limits == old(self).limits,
            old(self).core.implementation is ReduceScan ==> counted_outcome(
                r,
                input,
                output,
                BufferRange::whole_spec(count),
                capacity,
                key_bits,
                None,
                counted_workspace(old(self).counted),
                8,
                old(self).limits,
            ),
            old(self).core.implementation matches SortImplementation::EightBit(s) ==> eight_bit_counted_outcome(
                s,
                r,
                input,
                output,
                count,
                capacity,
                key_bits,
            ),
    {
        match &mut self.core.implementation {
            SortImplementation::EightBit(sorter) => {
                match sorter.record_sort_counted_ranges(
                    BufferRange::whole(input),
                    BufferRange::whole(output),
                    BufferRange::whole(count),
                    0,
                    capacity,
                    key_bits,
                ) {
                    Ok(Some((input, output, count, plan))) => Ok(
                        CountedSortCommands::EightBit { input, output, count, plan },
                    ),
                    Ok(None) => Ok(CountedSortCommands::Nothing),
                    Err(e) => Err(e),
                }
            },
            SortImplementation::ReduceScan(_) => plan_counted(
                &mut self.counted,
                SortItemKind::KeyValue,
                self.limits,
                input,
                output,
                BufferRange::whole(count),
                capacity,
                key_bits,
                None,
            ),
        }
    }

    /// The same as [`Self::record_sort_counted_with_key_bits`] over full keys.
    pub fn record_sort_counted(&mut self, input: GpuBuffer, output: GpuBuffer, count: GpuBuffer, capacity: u32) -> (r:
        Result<CountedSortCommands, Error>)
        requires
            old(self).wf(),
        ensures
            final(self).wf(),
            final(self).limits == old(self).limits,
            old(self).core.implementation is ReduceScan ==> counted_outcome(
                r,
                input,
                output,
                BufferRange::whole_spec(count),
                capacity,
                FULL_KEY_BITS,
                None,
                counted_workspace(old(self).counted),
                8,
                old(self).limits,
            ),
            old(self).core.implementation matches SortImplementation::EightBit(s) ==> eight_bit_counted_outcome(
                s,
                r,
                input,
                output,
                count,
                capacity,
                FULL_KEY_BITS,
            ),
    {
        self.record_sort_counted_with_key_bits(input, output, count, capacity, FULL_KEY_BITS)
    }

    /// Plans a counted sort whose dispatch arguments a shared count plan
    /// prepares, over the low `key_bits` bits of each key.
    pub fn record_sort_with_count_plan_and_key_bits(
        &mut self,
        input: GpuBuffer,
        output: GpuBuffer,
        plan: &GpuCountPlan,
        key_bits: u32,
    ) -> (r: Result<CountedSortCommands, Error>)
        requires
            old(self).wf(),
        ensures
            final(self).wf(),
            final(self).limits == old(self).limits,
            counted_outcome(
                r,
                input,
                output,
                plan.count,
                plan.capacity,
                key_bits,
                Some(plan.sort_dispatch),
                counted_workspace(old(self).counted),
                8,
                old(self).limits,
            ),
    {
        plan_counted(
            &mut self.counted,
            SortItemKind::KeyValue,
            self.limits,
            input,
            output,
            plan.count(),
            plan.capacity(),
            key_bits,
            Some(plan.sort_dispatch()),
        )
    }

    /// The same as [`Self::record_sort_with_count_plan_and_key_bits`] over full keys.
    pub fn record_sort_with_count_plan(&mut self, input: GpuBuffer, output: GpuBuffer, plan: &GpuCountPlan) -> (r:
        Result<CountedSortCommands, Error>)
        requires
            old(self).wf(),
        ensures
            final(self).wf(),
            final(self).limits == old(self).limits,
            counted_outcome(
                r,
                input,
                output,
                plan.count,
                plan.capacity,
                FULL_KEY_BITS,
                Some(plan.sort_dispatch),
                counted_workspace(old(self).counted),
                8,
                old(self).limits,
            ),
    {
        self.record_sort_with_count_plan_and_key_bits(input, output, plan, FULL_KEY_BITS)
    }
}

} // verus!
