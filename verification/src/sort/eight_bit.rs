use vstd::prelude::*;

use crate::common::buffers::{
    alias_spec, limits_binding_spec, offset_spec, validate_spec, validate_storage_binding_size,
    BufferRange, DeviceLimits, GpuBuffer, USAGE_STORAGE,
};
use crate::common::math::{div_ceil, div_ceil_u32, div_ceil_u64, lemma_div_ceil, round_up};
use crate::common::workspace::{workspace_capacity, workspace_capacity_spec};
use super::uniforms::lemma_record_word;
use crate::common::template::{replace_all, replaced};
use crate::error::Error;

use super::counted::{sort_alias_pairs, validate_distinct_sort};
use super::pipeline::SortItemKind;
use super::routing::{pass_buffer_slots, slot_destination, slot_source, BufferSlot};

verus! {

pub const BLOCK_SIZE: u32 = 256;
pub const ITEMS_PER_THREAD: u32 = 7;
/// Items one histogram or scatter workgroup handles.
pub const ITEMS_PER_TILE: u32 = 1792;
pub const RADIX_BITS: u32 = 8;
pub const BUCKET_COUNT: u32 = 256;
/// Byte passes that cover a 32-bit key.
pub const MAX_PASS_COUNT: u32 = 4;
pub const TILE_COUNTER_COUNT: u64 = 4;
pub const MAX_HISTOGRAM_GROUPS: u32 = 2048;
/// The largest item count the packed partition counters can hold.
pub const MAX_PACKED_COUNT: u32 = 0x0fff_ffff;
pub const UNIFORM_SIZE_BYTES: u64 = 32;
/// Three indirect-dispatch words per pass.
pub const DISPATCH_ARGS_SIZE_BYTES: u64 = 48;
/// One 256-entry digit table of `u32` counters per pass.
pub const DIGIT_TABLE_BYTES: u64 = 4096;

pub open spec fn pass_count_spec(key_bits: u32) -> u32 {
    div_ceil(if key_bits >= 1 { key_bits as int } else { 1 }, RADIX_BITS as int) as u32
}

/// Byte passes needed for `key_bits` key bits (at least one).
pub fn pass_count_for_key_bits(key_bits: u32) -> (r: u32)
    requires
        key_bits <= 32,
    ensures
        r == pass_count_spec(key_bits),
        1 <= r <= MAX_PASS_COUNT,
{
    let bits = if key_bits >= 1 {
        key_bits
    } else {
        1
    };
    proof {
        lemma_div_ceil(bits as int, RADIX_BITS as int);
    }
    div_ceil_u32(bits, RADIX_BITS)
}

pub open spec fn element_count_limit_spec(max_workgroups: u32) -> u32 {
    let product = max_workgroups * ITEMS_PER_TILE;
    let saturated = if product > u32::MAX {
        u32::MAX as int
    } else {
        product
    };
    if saturated <= MAX_PACKED_COUNT {
        saturated as u32
    } else {
        MAX_PACKED_COUNT
    }
}

/// The most items one sort can take: one tile per workgroup of a
/// one-dimensional dispatch, capped by the packed counter range.
pub fn element_count_limit(max_compute_workgroups_per_dimension: u32) -> (r: u32)
    ensures
        r == element_count_limit_spec(max_compute_workgroups_per_dimension),
        r <= MAX_PACKED_COUNT,
{
    let saturated = match max_compute_workgroups_per_dimension.checked_mul(ITEMS_PER_TILE) {
        Some(p) => p,
        None => u32::MAX,
    };
    if saturated <= MAX_PACKED_COUNT {
        saturated
    } else {
        MAX_PACKED_COUNT
    }
}

/// The allocation size of a sort workspace holding `requested_size` bytes.
pub fn workspace_capacity_for(requested_size: u64, item_size_bytes: u64) -> (r: Result<u64, Error>)
    ensures
        r == workspace_capacity_spec(requested_size, item_size_bytes),
        r matches Ok(c) ==> c >= requested_size,
{
    workspace_capacity(requested_size, item_size_bytes)
}

/// Bytes of the count buffer up to and including word `count_word`.
pub fn count_bytes(count_word: u32) -> (r: u64)
    ensures
        r == (count_word + 1) * 4,
{
    (count_word as u64 + 1) * 4
}

/// Rejects a counted sort whose input, output and count share a buffer.
pub fn validate_counted_distinct(input: BufferRange, output: BufferRange, count: BufferRange) -> (r:
    Result<(), Error>)
    ensures
        r == alias_spec(sort_alias_pairs(input, output, count)),
{
    validate_distinct_sort(input, output, count)
}

/// Tiles needed to cover `items` items.
pub open spec fn tiles(items: int) -> int {
    div_ceil(items, ITEMS_PER_TILE as int)
}

/// Bytes of the partition-state buffer for a workspace of `capacity` bytes:
/// one counter per bucket and tile plus the tile counters, rounded to 256 bytes.
pub open spec fn partition_bytes_spec(capacity: u64, item_size: u64) -> int {
    let entries = tiles((capacity / item_size) as int) * BUCKET_COUNT + TILE_COUNTER_COUNT;
    round_up(entries * 4, 256)
}

/// The buffer sizes of one sort workspace.
#[derive(Clone, Copy, Debug, PartialEq, Eq, Structural)]
pub struct EightBitWorkspace {
    /// Bytes of each scratch buffer.
    pub capacity_bytes: u64,
    pub partition_bytes: u64,
}

/// The workspace allocated for `requested` bytes of `item_size`-byte items,
/// or the limit it would exceed.
pub open spec fn allocate_spec(requested: u64, item_size: u64, limits: DeviceLimits) -> Result<
    EightBitWorkspace,
    Error,
> {
    match workspace_capacity_spec(requested, item_size) {
        Err(e) => Err(e),
        Ok(capacity) => {
            let partition = partition_bytes_spec(capacity, item_size) as u64;
            let limit = binding_limit(limits);
            if capacity > limit {
                Err(Error::BufferLimitExceeded { requested: capacity, limit })
            } else if partition > limit {
                Err(Error::BufferLimitExceeded { requested: partition, limit })
            } else {
                Ok(EightBitWorkspace { capacity_bytes: capacity, partition_bytes: partition })
            }
        },
    }
}

/// The stricter of the buffer-size and storage-binding limits.
pub open spec fn binding_limit(limits: DeviceLimits) -> u64 {
    if limits.max_buffer_size <= limits.max_storage_buffer_binding_size {
        limits.max_buffer_size
    } else {
        limits.max_storage_buffer_binding_size
    }
}

proof fn lemma_partition_fits(capacity: u64, item_size: u64)
    requires
        item_size >= 4,
    ensures
        0 <= partition_bytes_spec(capacity, item_size) < 0x4000_0000_0000_0000,
{
    let items = (capacity / item_size) as int;
    assert(items <= 0x4000_0000_0000_0000) by (nonlinear_arith)
        requires
            item_size >= 4,
            items == capacity / item_size,
            capacity <= u64::MAX,
    ;
    lemma_div_ceil(items, ITEMS_PER_TILE as int);
    let t = tiles(items);
    assert(t <= 0x0025_0000_0000_0000) by (nonlinear_arith)
        requires
            t * 1792 < items + 1792,
            items <= 0x4000_0000_0000_0000,
    ;
    let entries = t * 256 + 4;
    crate::common::math::lemma_round_up_bounds(entries * 4, 256);
}

/// Computes the partition-state size of a workspace of `capacity` bytes.
pub fn partition_bytes(capacity: u64, item_size: u64) -> (r: u64)
    requires
        item_size >= 4,
    ensures
        r == partition_bytes_spec(capacity, item_size),
{
    proof {
        lemma_partition_fits(capacity, item_size);
        let items = (capacity / item_size) as int;
        lemma_div_ceil(items, ITEMS_PER_TILE as int);
        assert(tiles(items) <= 0x0025_0000_0000_0000) by (nonlinear_arith)
            requires
                tiles(items) * 1792 < items + 1792,
                items <= u64::MAX,
        ;
        crate::common::math::lemma_round_up_bounds(
            (tiles(items) * 256 + 4) * 4,
            256,
        );
        vstd::arithmetic::power2::lemma2_to64();
        assert(crate::common::math::is_power_of_two(256u64)) by {
            assert(256u64 == vstd::arithmetic::power2::pow2(8));
        }
    }
    let max_items = capacity / item_size;
    let max_tiles = div_ceil_u64(max_items, ITEMS_PER_TILE as u64);
    let entries = max_tiles * BUCKET_COUNT as u64 + TILE_COUNTER_COUNT;
    crate::common::math::align_to(entries * 4, 256)
}

/// Allocates the workspace sizes for `requested` bytes of `item_size`-byte items.
pub fn allocate_workspace(requested: u64, item_size: u64, limits: &DeviceLimits) -> (r: Result<
    EightBitWorkspace,
    Error,
>)
    requires
        item_size >= 4,
    ensures
        r == allocate_spec(requested, item_size, *limits),
        r matches Ok(ws) ==> ws.capacity_bytes >= requested,
{
    let capacity = match workspace_capacity_for(requested, item_size) {
        Ok(c) => c,
        Err(e) => return Err(e),
    };
    let partition = partition_bytes(capacity, item_size);
    if let Err(e) = validate_storage_binding_size(limits, capacity) {
        return Err(e);
    }
    if let Err(e) = validate_storage_binding_size(limits, partition) {
        return Err(e);
    }
    Ok(EightBitWorkspace { capacity_bytes: capacity, partition_bytes: partition })
}


/// What one fixed-size sort needs: its item count, tiles and byte size.
#[derive(Clone, Copy, Debug, PartialEq, Eq, Structural)]
pub struct PreparedSort {
    pub num_items: u32,
    pub num_tiles: u32,
    pub size_bytes: u64,
}

/// What one counted sort needs: its capacity and count-word byte sizes and passes.
#[derive(Clone, Copy, Debug, PartialEq, Eq, Structural)]
pub struct PreparedCountedSort {
    pub capacity_bytes: u64,
    pub count_bytes: u64,
    pub pass_count: u32,
}

/// The inputs the cached bind groups of a fixed-size sort were built for.
#[derive(Clone, Copy, Debug, PartialEq, Eq, Structural)]
pub struct BindingKey {
    pub input: u64,
    pub input_offset: u64,
    pub output: u64,
    pub output_offset: u64,
    pub num_items: u32,
    pub pass_count: u32,
    pub workspace_capacity: u64,
}

/// The validation error, if any, of a fixed-size sort of `n > 0` items.
pub open spec fn prepare_sort_error(
    input: BufferRange,
    output: BufferRange,
    n: u32,
    item_size: u64,
    limits: DeviceLimits,
) -> Option<Error> {
    let max_items = element_count_limit_spec(limits.max_compute_workgroups_per_dimension);
    let bytes = (n * item_size) as u64;
    let align = limits.min_storage_buffer_offset_alignment as u64;
    if input.buffer.id == output.buffer.id {
        Some(Error::BufferAlias { first: "sort input", second: "sort output" })
    } else if n > max_items {
        Some(Error::RadixElementCountLimitExceeded { count: n, limit: max_items })
    } else if validate_spec(input, "sort input", bytes, USAGE_STORAGE) is Err {
        Some(validate_spec(input, "sort input", bytes, USAGE_STORAGE)->Err_0)
    } else if validate_spec(output, "sort output", bytes, USAGE_STORAGE) is Err {
        Some(validate_spec(output, "sort output", bytes, USAGE_STORAGE)->Err_0)
    } else if offset_spec(input, align, "sort input") is Err {
        Some(offset_spec(input, align, "sort input")->Err_0)
    } else if offset_spec(output, align, "sort output") is Err {
        Some(offset_spec(output, align, "sort output")->Err_0)
    } else {
        None
    }
}

/// The validation error, if any, of a counted sort, before its capacity is
/// checked against the element limit.
pub open spec fn counted_sort_error(
    input: BufferRange,
    output: BufferRange,
    count: BufferRange,
    count_word: u32,
    capacity: u32,
    key_bits: u32,
    item_size: u64,
    limits: DeviceLimits,
) -> Option<Error> {
    let count_size = ((count_word + 1) * 4) as u64;
    let bytes = (capacity * item_size) as u64;
    let align = limits.min_storage_buffer_offset_alignment as u64;
    let alias = alias_spec(sort_alias_pairs(input, output, count));
    if key_bits > 32 {
        Some(Error::InvalidKeyBits { bits: key_bits })
    } else if alias is Err {
        Some(alias->Err_0)
    } else if validate_spec(count, "sort item count", count_size, USAGE_STORAGE) is Err {
        Some(validate_spec(count, "sort item count", count_size, USAGE_STORAGE)->Err_0)
    } else if offset_spec(count, align, "sort item count") is Err {
        Some(offset_spec(count, align, "sort item count")->Err_0)
    } else if limits_binding_spec(limits, count_size) is Err {
        Some(limits_binding_spec(limits, count_size)->Err_0)
    } else if validate_spec(input, "sort input", bytes, USAGE_STORAGE) is Err {
        Some(validate_spec(input, "sort input", bytes, USAGE_STORAGE)->Err_0)
    } else if validate_spec(output, "sort output", bytes, USAGE_STORAGE) is Err {
        Some(validate_spec(output, "sort output", bytes, USAGE_STORAGE)->Err_0)
    } else if offset_spec(input, align, "sort input") is Err {
        Some(offset_spec(input, align, "sort input")->Err_0)
    } else if offset_spec(output, align, "sort output") is Err {
        Some(offset_spec(output, align, "sort output")->Err_0)
    } else if limits_binding_spec(limits, bytes) is Err {
        Some(limits_binding_spec(limits, bytes)->Err_0)
    } else {
        None
    }
}

/// Sorting state of the 8-bit subgroup radix sort: the item size, the device
/// limits, the workspace allocated so far, the inputs its cached bind groups
/// were built for, and whether the counted-preparation pipeline exists.
pub struct EightBitSorter {
    pub item_size_bytes: u64,
    pub limits: DeviceLimits,
    pub workspace: Option<EightBitWorkspace>,
    pub cached_bindings: Option<BindingKey>,
    pub counted_ready: bool,
}

impl EightBitSorter {
    pub open spec fn wf(&self) -> bool {
        self.item_size_bytes == 4 || self.item_size_bytes == 8
    }

    /// The current workspace already holds `requested` bytes.
    pub open spec fn fits(&self, requested: u64) -> bool {
        self.workspace is Some && self.workspace->Some_0.capacity_bytes >= requested
    }

    /// The workspace after ensuring room for `requested` bytes, or the error.
    pub open spec fn ensure_spec(&self, requested: u64) -> Result<Option<EightBitWorkspace>, Error> {
        if self.fits(requested) {
            Ok(self.workspace)
        } else {
            match allocate_spec(requested, self.item_size_bytes, self.limits) {
                Ok(ws) => Ok(Some(ws)),
                Err(e) => Err(e),
            }
        }
    }

    /// A sorter of `item_kind` items with nothing allocated.
    pub fn new(item_kind: SortItemKind, limits: DeviceLimits) -> (r: EightBitSorter)
        ensures
            r.wf(),
            r.item_size_bytes == item_kind.size_bytes_spec(),
            r.limits == limits,
            r.workspace is None,
            r.cached_bindings is None,
            !r.counted_ready,
    {
        EightBitSorter {
            item_size_bytes: item_kind.size_bytes(),
            limits,
            workspace: None,
            cached_bindings: None,
            counted_ready: false,
        }
    }

    /// Grows the workspace to hold `requested_size` bytes; a new workspace
    /// drops the cached bind groups.
    pub fn ensure_workspace(&mut self, requested_size: u64) -> (r: Result<(), Error>)
        requires
            old(self).wf(),
        ensures
            final(self).wf(),
            final(self).item_size_bytes == old(self).item_size_bytes,
            final(self).limits == old(self).limits,
            final(self).counted_ready == old(self).counted_ready,
            r is Ok ==> final(self).fits(requested_size),
            match old(self).ensure_spec(requested_size) {
                Ok(ws) => r is Ok && final(self).workspace == ws && (final(self).cached_bindings
                    == if old(self).fits(requested_size) {
                    old(self).cached_bindings
                } else {
                    None
                }),
                Err(e) => r == Err::<(), Error>(e) && final(self).workspace == old(self).workspace
                    && final(self).cached_bindings == old(self).cached_bindings,
            },
    {
        if let Some(ws) = &self.workspace {
            if ws.capacity_bytes >= requested_size {
                return Ok(());
            }
        }
        match allocate_workspace(requested_size, self.item_size_bytes, &self.limits) {
            Ok(ws) => {
                self.workspace = Some(ws);
                self.cached_bindings = None;
                Ok(())
            },
            Err(e) => Err(e),
        }
    }

    /// Validates a fixed-size sort of `num_items` items and prepares its
    /// workspace; `None` means there is nothing to sort.
    pub fn prepare_sort(&mut self, input: BufferRange, output: BufferRange, num_items: u32) -> (r:
        Result<Option<PreparedSort>, Error>)
        requires
            old(self).wf(),
        ensures
            final(self).wf(),
            final(self).item_size_bytes == old(self).item_size_bytes,
            final(self).limits == old(self).limits,
            final(self).counted_ready == old(self).counted_ready,
            num_items == 0 ==> r == Ok::<Option<PreparedSort>, Error>(None) && *final(self)
                == *old(self),
            num_items > 0 ==> match prepare_sort_error(
                input,
                output,
                num_items,
                old(self).item_size_bytes,
                old(self).limits,
            ) {
                Some(e) => r == Err::<Option<PreparedSort>, Error>(e) && *final(self)
                    == *old(self),
                None => {
                    let bytes = (num_items * old(self).item_size_bytes) as u64;
                    match old(self).ensure_spec(bytes) {
                        Ok(ws) => final(self).workspace == ws && r == Ok::<
                            Option<PreparedSort>,
                            Error,
                        >(
                            Some(
                                PreparedSort {
                                    num_items,
                                    num_tiles: tiles(num_items as int) as u32,
                                    size_bytes: bytes,
                                },
                            ),
                        ),
                        Err(e) => r == Err::<Option<PreparedSort>, Error>(e) && *final(self)
                            == *old(self),
                    }
                },
            },
    {
        if num_items == 0 {
            return Ok(None);
        }
        if input.buffer.id == output.buffer.id {
            return Err(Error::BufferAlias { first: "sort input", second: "sort output" });
        }
        let max_items = element_count_limit(self.limits.max_compute_workgroups_per_dimension);
        if num_items > max_items {
            return Err(Error::RadixElementCountLimitExceeded { count: num_items, limit: max_items });
        }
        let size_bytes = num_items as u64 * self.item_size_bytes;
        if let Err(e) = input.validate("sort input", size_bytes, USAGE_STORAGE) {
            return Err(e);
        }
        if let Err(e) = output.validate("sort output", size_bytes, USAGE_STORAGE) {
            return Err(e);
        }
        if let Err(e) = input.validate_storage_offset(&self.limits, "sort input") {
            return Err(e);
        }
        if let Err(e) = output.validate_storage_offset(&self.limits, "sort output") {
            return Err(e);
        }
        if let Err(e) = self.ensure_workspace(size_bytes) {
            return Err(e);
        }
        proof {
            lemma_div_ceil(num_items as int, ITEMS_PER_TILE as int);
        }
        Ok(
            Some(
                PreparedSort {
                    num_items,
                    num_tiles: div_ceil_u32(num_items, ITEMS_PER_TILE),
                    size_bytes,
                },
            ),
        )
    }

    /// Validates a counted sort and prepares its workspace and preparation
    /// pipeline; `None` means the capacity is zero.
    pub fn prepare_counted_sort(
        &mut self,
        input: BufferRange,
        output: BufferRange,
        count: BufferRange,
        count_word: u32,
        capacity: u32,
        key_bits: u32,
    ) -> (r: Result<Option<PreparedCountedSort>, Error>)
        requires
            old(self).wf(),
        ensures
            final(self).wf(),
            final(self).item_size_bytes == old(self).item_size_bytes,
            final(self).limits == old(self).limits,
            ({
                let bytes = (capacity * old(self).item_size_bytes) as u64;
                let max_items = element_count_limit_spec(
                    old(self).limits.max_compute_workgroups_per_dimension,
                );
                match counted_sort_error(
                    input,
                    output,
                    count,
                    count_word,
                    capacity,
                    key_bits,
                    old(self).item_size_bytes,
                    old(self).limits,
                ) {
                    Some(e) => r == Err::<Option<PreparedCountedSort>, Error>(e) && *final(self)
                        == *old(self),
                    None => if capacity == 0 {
                        r == Ok::<Option<PreparedCountedSort>, Error>(None) && *final(self)
                            == *old(self)
                    } else if capacity > max_items {
                        r == Err::<Option<PreparedCountedSort>, Error>(
                            Error::RadixElementCountLimitExceeded {
                                count: capacity,
                                limit: max_items,
                            },
                        ) && *final(self) == *old(self)
                    } else {
                        match old(self).ensure_spec(bytes) {
                            Ok(ws) => final(self).workspace == ws && final(self).counted_ready
                                && r == Ok::<Option<PreparedCountedSort>, Error>(
                                Some(
                                    PreparedCountedSort {
                                        capacity_bytes: bytes,
                                        count_bytes: ((count_word + 1) * 4) as u64,
                                        pass_count: pass_count_spec(key_bits),
                                    },
                                ),
                            ),
                            Err(e) => r == Err::<Option<PreparedCountedSort>, Error>(e)
                                && *final(self) == *old(self),
                        }
                    }
                }
            }),
    {
        if key_bits > 32 {
            return Err(Error::InvalidKeyBits { bits: key_bits });
        }
        if let Err(e) = validate_counted_distinct(input, output, count) {
            return Err(e);
        }
        let count_size = count_bytes(count_word);
        if let Err(e) = count.validate("sort item count", count_size, USAGE_STORAGE) {
            return Err(e);
        }
        if let Err(e) = count.validate_storage_offset(&self.limits, "sort item count") {
            return Err(e);
        }
        if let Err(e) = validate_storage_binding_size(&self.limits, count_size) {
            return Err(e);
        }
        let capacity_bytes = capacity as u64 * self.item_size_bytes;
        if let Err(e) = input.validate("sort input", capacity_bytes, USAGE_STORAGE) {
            return Err(e);
        }
        if let Err(e) = output.validate("sort output", capacity_bytes, USAGE_STORAGE) {
            return Err(e);
        }
        if let Err(e) = input.validate_storage_offset(&self.limits, "sort input") {
            return Err(e);
        }
        if let Err(e) = output.validate_storage_offset(&self.limits, "sort output") {
            return Err(e);
        }
        if let Err(e) = validate_storage_binding_size(&self.limits, capacity_bytes) {
            return Err(e);
        }
        if let Err(e) = validate_storage_binding_size(&self.limits, capacity_bytes) {
            return Err(e);
        }
        if capacity == 0 {
            return Ok(None);
        }
        let max_items = element_count_limit(self.limits.max_compute_workgroups_per_dimension);
        if capacity > max_items {
            return Err(Error::RadixElementCountLimitExceeded { count: capacity, limit: max_items });
        }
        if let Err(e) = self.ensure_workspace(capacity_bytes) {
            return Err(e);
        }
        self.counted_ready = true;
        Ok(
            Some(
                PreparedCountedSort {
                    capacity_bytes,
                    count_bytes: count_size,
                    pass_count: pass_count_for_key_bits(key_bits),
                },
            ),
        )
    }

    /// Prepares workspace for fixed-size sorts of up to `capacity` items.
    pub fn reserve(&mut self, capacity: u32) -> (r: Result<(), Error>)
        requires
            old(self).wf(),
        ensures
            final(self).wf(),
            final(self).item_size_bytes == old(self).item_size_bytes,
            final(self).limits == old(self).limits,
            final(self).counted_ready == old(self).counted_ready,
            capacity == 0 ==> r is Ok && *final(self) == *old(self),
            capacity > 0 ==> match old(self).ensure_spec(
                (capacity * old(self).item_size_bytes) as u64,
            ) {
                Ok(ws) => r is Ok && final(self).workspace == ws,
                Err(e) => r == Err::<(), Error>(e) && *final(self) == *old(self),
            },
    {
        if capacity == 0 {
            return Ok(());
        }
        let size_bytes = capacity as u64 * self.item_size_bytes;
        self.ensure_workspace(size_bytes)
    }

    /// Like [`Self::reserve`], also creating the counted-preparation pipeline.
    pub fn reserve_counted(&mut self, capacity: u32) -> (r: Result<(), Error>)
        requires
            old(self).wf(),
        ensures
            final(self).wf(),
            final(self).item_size_bytes == old(self).item_size_bytes,
            final(self).limits == old(self).limits,
            final(self).counted_ready,
            capacity == 0 ==> r is Ok && final(self).workspace == old(self).workspace,
            capacity > 0 ==> match old(self).ensure_spec(
                (capacity * old(self).item_size_bytes) as u64,
            ) {
                Ok(ws) => r is Ok && final(self).workspace == ws,
                Err(e) => r == Err::<(), Error>(e) && final(self).workspace == old(self).workspace,
            },
    {
        self.counted_ready = true;
        self.reserve(capacity)
    }

    /// Records that bind groups exist for this sort; reports whether they had
    /// to be rebuilt because the inputs or the workspace changed.
    pub fn ensure_bindings(
        &mut self,
        input: BufferRange,
        output: BufferRange,
        problem: PreparedSort,
        pass_count: u32,
    ) -> (rebuilt: bool)
        requires
            old(self).workspace is Some,
        ensures
            final(self).cached_bindings == Some(
                BindingKey {
                    input: input.buffer.id,
                    input_offset: input.offset,
                    output: output.buffer.id,
                    output_offset: output.offset,
                    num_items: problem.num_items,
                    pass_count,
                    workspace_capacity: old(self).workspace->Some_0.capacity_bytes,
                },
            ),
            rebuilt == (old(self).cached_bindings != final(self).cached_bindings),
            final(self).workspace == old(self).workspace,
            final(self).item_size_bytes == old(self).item_size_bytes,
            final(self).limits == old(self).limits,
            final(self).counted_ready == old(self).counted_ready,
    {
        let capacity = match &self.workspace {
            Some(ws) => ws.capacity_bytes,
            None => 0,
        };
        let key = BindingKey {
            input: input.buffer.id,
            input_offset: input.offset,
            output: output.buffer.id,
            output_offset: output.offset,
            num_items: problem.num_items,
            pass_count,
            workspace_capacity: capacity,
        };
        let matches = match &self.cached_bindings {
            Some(cached) => *cached == key,
            None => false,
        };
        if matches {
            return false;
        }
        self.cached_bindings = Some(key);
        true
    }
}


/// Word `j` of pass `p`'s uniform record
/// `[items, tiles, p + 1, p * 8, pass_count, 0, ...]`.
pub open spec fn uniform_word(p: int, j: int, items: u32, tiles: u32, pass_count: u32) -> u32 {
    if j == 0 {
        items
    } else if j == 1 {
        tiles
    } else if j == 2 {
        (p + 1) as u32
    } else if j == 3 {
        (p * RADIX_BITS) as u32
    } else if j == 4 {
        pass_count
    } else {
        0
    }
}

/// The uniform records of a fixed-size sort, `words_per_record` words per pass.
pub fn eight_bit_uniforms(pass_count: u32, words_per_record: u32, items: u32, tiles: u32) -> (r:
    Vec<u32>)
    requires
        1 <= pass_count <= MAX_PASS_COUNT,
        words_per_record >= 5,
    ensures
        r@.len() == pass_count * words_per_record,
        forall|i: int|
            0 <= i < r@.len() ==> #[trigger] r@[i] == uniform_word(
                i / words_per_record as int,
                i % words_per_record as int,
                items,
                tiles,
                pass_count,
            ),
        forall|p: int|
            0 <= p < pass_count ==> {
                &&& #[trigger] r@[p * words_per_record + 3] == p * RADIX_BITS
                &&& r@[p * words_per_record + 2] == p + 1
            },
{
    let mut data: Vec<u32> = Vec::new();
    let mut p: u32 = 0;
    while p < pass_count
        invariant
            p <= pass_count <= MAX_PASS_COUNT,
            words_per_record >= 5,
            data@.len() == p * words_per_record,
            forall|i: int|
                0 <= i < data@.len() ==> #[trigger] data@[i] == uniform_word(
                    i / words_per_record as int,
                    i % words_per_record as int,
                    items,
                    tiles,
                    pass_count,
                ),
        decreases pass_count - p,
    {
        let ghost base = data@.len();
        let mut j: u32 = 0;
        while j < words_per_record
            invariant
                p < pass_count <= MAX_PASS_COUNT,
                words_per_record >= 5,
                base == p * words_per_record,
                data@.len() == base + j,
                j <= words_per_record,
                forall|i: int|
                    0 <= i < data@.len() ==> #[trigger] data@[i] == uniform_word(
                        i / words_per_record as int,
                        i % words_per_record as int,
                        items,
                        tiles,
                        pass_count,
                    ),
            decreases words_per_record - j,
        {
            let word = if j == 0 {
                items
            } else if j == 1 {
                tiles
            } else if j == 2 {
                p + 1
            } else if j == 3 {
                p * RADIX_BITS
            } else if j == 4 {
                pass_count
            } else {
                0
            };
            proof {
                let i = base + j;
                assert(i / words_per_record as int == p && i % words_per_record as int == j)
                    by (nonlinear_arith)
                    requires
                        i == p * words_per_record + j,
                        0 <= j < words_per_record,
                ;
            }
            data.push(word);
            j = j + 1;
        }
        assert((p + 1) * words_per_record == p * words_per_record + words_per_record)
            by (nonlinear_arith);
        p = p + 1;
    }
    assert forall|p: int| 0 <= p < pass_count implies {
        &&& #[trigger] data@[p * words_per_record + 3] == p * RADIX_BITS
        &&& data@[p * words_per_record + 2] == p + 1
    } by {
        let w = words_per_record as int;
        assert(p * w + 3 < pass_count * w) by (nonlinear_arith)
            requires
                0 <= p < pass_count,
                w >= 5,
        ;
        lemma_record_word(p, w, 2);
        lemma_record_word(p, w, 3);
        assert(data@[p * w + 2] == uniform_word(p, 2, items, tiles, pass_count));
        assert(data@[p * w + 3] == uniform_word(p, 3, items, tiles, pass_count));
    }
    data
}

/// The byte passes of an 8-bit sort sort every key bit once: pass `p`
/// shifts by `p * 8`, the first starts at bit zero, each starts where the one
/// before it ended, and the passes for `key_bits` reach every declared bit.
pub proof fn lemma_eight_bit_pass_shifts(key_bits: u32, items: u32, tiles: u32)
    requires
        key_bits <= 32,
    ensures
        ({
            let n = pass_count_spec(key_bits);
            &&& 1 <= n <= MAX_PASS_COUNT
            &&& forall|p: int| 0 <= p < n ==> #[trigger] uniform_word(p, 3, items, tiles, n) == p * RADIX_BITS
            &&& uniform_word(0, 3, items, tiles, n) == 0
            &&& forall|p: int|
                0 <= p < n - 1 ==> #[trigger] uniform_word(p + 1, 3, items, tiles, n) == uniform_word(
                    p,
                    3,
                    items,
                    tiles,
                    n,
                ) + RADIX_BITS
            &&& uniform_word(n - 1, 3, items, tiles, n) + RADIX_BITS >= key_bits
        }),
{
    let k: int = if key_bits >= 1 { key_bits as int } else { 1 };
    lemma_div_ceil(k, RADIX_BITS as int);
}

/// The uniform record stride: the uniform offset alignment, at least one record.
pub open spec fn stride_spec(limits: DeviceLimits) -> u64 {
    let a = limits.min_uniform_buffer_offset_alignment as u64;
    if a >= UNIFORM_SIZE_BYTES {
        a
    } else {
        UNIFORM_SIZE_BYTES
    }
}

/// Histogram workgroups for `items` items: one per tile, at most
/// [`MAX_HISTOGRAM_GROUPS`].
pub open spec fn histogram_groups_spec(items: u32) -> u32 {
    let t = tiles(items as int);
    if t <= MAX_HISTOGRAM_GROUPS {
        t as u32
    } else {
        MAX_HISTOGRAM_GROUPS
    }
}

pub fn histogram_groups(items: u32) -> (r: u32)
    ensures
        r == histogram_groups_spec(items),
{
    proof {
        lemma_div_ceil(items as int, ITEMS_PER_TILE as int);
    }
    let t = div_ceil_u32(items, ITEMS_PER_TILE);
    if t <= MAX_HISTOGRAM_GROUPS {
        t
    } else {
        MAX_HISTOGRAM_GROUPS
    }
}

/// Byte offset of pass `radix_pass`'s indirect dispatch arguments.
pub fn dispatch_args_offset(radix_pass: u32) -> (r: u64)
    ensures
        r == radix_pass * 12,
{
    radix_pass as u64 * 12
}

/// Byte offset of pass `radix_pass`'s uniform record.
pub fn uniform_offset(radix_pass: u32, stride: u64) -> (r: u64)
    requires
        stride <= u32::MAX,
    ensures
        r == radix_pass * stride,
{
    assert(radix_pass * stride <= u32::MAX * u32::MAX) by (nonlinear_arith)
        requires
            stride <= u32::MAX,
    ;
    radix_pass as u64 * stride
}

/// The commands of a fixed-size 8-bit sort: histogram width, per-pass uniform
/// records and buffer routing.
pub struct EightBitSortPlan {
    pub histogram_groups: u32,
    pub uniform_stride: u64,
    pub uniforms: Vec<u32>,
    pub passes: Vec<(BufferSlot, BufferSlot)>,
}

/// The commands of a counted 8-bit sort: the preparation parameters, the
/// capacity-wide histogram and buffer routing. Its uniform records are written
/// on the GPU by the preparation pass.
pub struct EightBitCountedPlan {
    pub params: Vec<u32>,
    pub histogram_groups: u32,
    pub uniform_stride: u64,
    pub passes: Vec<(BufferSlot, BufferSlot)>,
}

/// Ping-pong routing of every pass of a `pass_count`-pass sort.
pub fn pass_routes(pass_count: u32) -> (r: Vec<(BufferSlot, BufferSlot)>)
    ensures
        r@.len() == pass_count,
        forall|p: int|
            0 <= p < pass_count ==> #[trigger] r@[p] == (
                slot_source(p as nat, pass_count as nat),
                slot_destination(p as nat, pass_count as nat),
            ),
{
    super::counted::pass_routes(pass_count)
}

/// The preparation parameters `[capacity, pass_count, count_word, 0, 0, 0, 0, 0]`.
pub fn counted_params(capacity: u32, pass_count: u32, count_word: u32) -> (r: Vec<u32>)
    ensures
        r@ == seq![capacity, pass_count, count_word, 0u32, 0u32, 0u32, 0u32, 0u32],
{
    let r = vec![capacity, pass_count, count_word, 0, 0, 0, 0, 0];
    assert(r@ =~= seq![capacity, pass_count, count_word, 0u32, 0u32, 0u32, 0u32, 0u32]);
    r
}

impl EightBitSorter {
    /// The commands of a prepared fixed-size sort.
    pub fn plan_fixed(&self, problem: PreparedSort, pass_count: u32) -> (r: EightBitSortPlan)
        requires
            1 <= pass_count <= MAX_PASS_COUNT,
        ensures
            r.histogram_groups == (if problem.num_tiles <= MAX_HISTOGRAM_GROUPS {
                problem.num_tiles
            } else {
                MAX_HISTOGRAM_GROUPS
            }),
            r.uniform_stride == stride_spec(self.limits),
            r.uniforms@.len() == pass_count * (r.uniform_stride / 4),
            forall|i: int|
                0 <= i < r.uniforms@.len() ==> #[trigger] r.uniforms@[i] == uniform_word(
                    i / (r.uniform_stride / 4) as int,
                    i % (r.uniform_stride / 4) as int,
                    problem.num_items,
                    problem.num_tiles,
                    pass_count,
                ),
            r.passes@.len() == pass_count,
            forall|p: int|
                0 <= p < pass_count ==> #[trigger] r.passes@[p] == (
                    slot_source(p as nat, pass_count as nat),
                    slot_destination(p as nat, pass_count as nat),
                ),
    {
        let a = self.limits.min_uniform_buffer_offset_alignment as u64;
        let stride = if a >= UNIFORM_SIZE_BYTES {
            a
        } else {
            UNIFORM_SIZE_BYTES
        };
        let words = (stride / 4) as u32;
        let groups = if problem.num_tiles <= MAX_HISTOGRAM_GROUPS {
            problem.num_tiles
        } else {
            MAX_HISTOGRAM_GROUPS
        };
        EightBitSortPlan {
            histogram_groups: groups,
            uniform_stride: stride,
            uniforms: eight_bit_uniforms(pass_count, words, problem.num_items, problem.num_tiles),
            passes: pass_routes(pass_count),
        }
    }

    /// The commands of a prepared counted sort.
    pub fn plan_counted(&self, capacity: u32, count_word: u32, pass_count: u32) -> (r:
        EightBitCountedPlan)
        ensures
            r.params@ == seq![capacity, pass_count, count_word, 0u32, 0u32, 0u32, 0u32, 0u32],
            r.histogram_groups == histogram_groups_spec(capacity),
            r.uniform_stride == stride_spec(self.limits),
            r.passes@.len() == pass_count,
            forall|p: int|
                0 <= p < pass_count ==> #[trigger] r.passes@[p] == (
                    slot_source(p as nat, pass_count as nat),
                    slot_destination(p as nat, pass_count as nat),
                ),
    {
        let a = self.limits.min_uniform_buffer_offset_alignment as u64;
        let stride = if a >= UNIFORM_SIZE_BYTES {
            a
        } else {
            UNIFORM_SIZE_BYTES
        };
        EightBitCountedPlan {
            params: counted_params(capacity, pass_count, count_word),
            histogram_groups: histogram_groups(capacity),
            uniform_stride: stride,
            passes: pass_routes(pass_count),
        }
    }

    /// Validates and plans a fixed-size sort of the first `num_items` items.
    ///
    /// `None` means there is nothing to record. Otherwise the ranges are
    /// trimmed to the sorted bytes, the cached bind groups are brought up to
    /// date (`true` when they were rebuilt) and the commands are planned.
    pub fn record_sort_ranges(
        &mut self,
        input: BufferRange,
        output: BufferRange,
        num_items: u32,
        key_bits: u32,
    ) -> (r: Result<Option<(BufferRange, BufferRange, bool, EightBitSortPlan)>, Error>)
        requires
            old(self).wf(),
            key_bits <= 32,
        ensures
            final(self).wf(),
            final(self).limits == old(self).limits,
            num_items == 0 ==> r matches Ok(None),
            num_items > 0 ==> match prepare_sort_error(
                input,
                output,
                num_items,
                old(self).item_size_bytes,
                old(self).limits,
            ) {
                Some(e) => r == Err::<Option<(BufferRange, BufferRange, bool, EightBitSortPlan)>, Error>(e),
                None => match old(self).ensure_spec((num_items * old(self).item_size_bytes) as u64) {
                    Err(e) => r == Err::<Option<(BufferRange, BufferRange, bool, EightBitSortPlan)>, Error>(e),
                    Ok(ws) => r matches Ok(Some(_)) && final(self).workspace == ws,
                },
            },
            r matches Ok(Some(v)) ==> {
                let bytes = (num_items * old(self).item_size_bytes) as u64;
                let n = pass_count_spec(key_bits);
                &&& v.0 == (BufferRange { size: bytes, ..input })
                &&& v.1 == (BufferRange { size: bytes, ..output })
                &&& final(self).cached_bindings == Some(
                    BindingKey {
                        input: input.buffer.id,
                        input_offset: input.offset,
                        output: output.buffer.id,
                        output_offset: output.offset,
                        num_items,
                        pass_count: n,
                        workspace_capacity: final(self).workspace->Some_0.capacity_bytes,
                    },
                )
                &&& v.3.histogram_groups == histogram_groups_spec(num_items)
                &&& v.3.uniform_stride == stride_spec(old(self).limits)
                &&& v.3.passes@.len() == n
                &&& v.3.uniforms@.len() == n * (v.3.uniform_stride / 4)
                &&& forall|i: int|
                    0 <= i < v.3.uniforms@.len() ==> #[trigger] v.3.uniforms@[i] == uniform_word(
                        i / (v.3.uniform_stride / 4) as int,
                        i % (v.3.uniform_stride / 4) as int,
                        num_items,
                        tiles(num_items as int) as u32,
                        n,
                    )
                &&& forall|p: int|
                    0 <= p < n ==> #[trigger] v.3.passes@[p] == (
                        slot_source(p as nat, n as nat),
                        slot_destination(p as nat, n as nat),
                    )
            },
    {
        let problem = match self.prepare_sort(input, output, num_items) {
            Ok(Some(p)) => p,
            Ok(None) => return Ok(None),
            Err(e) => return Err(e),
        };
        let input = input.with_size(problem.size_bytes);
        let output = output.with_size(problem.size_bytes);
        let pass_count = pass_count_for_key_bits(key_bits);
        let rebuilt = self.ensure_bindings(input, output, problem, pass_count);
        let plan = self.plan_fixed(problem, pass_count);
        proof {
            lemma_div_ceil(num_items as int, ITEMS_PER_TILE as int);
        }
        Ok(Some((input, output, rebuilt, plan)))
    }

    /// Validates and plans a counted sort; `None` means the capacity is zero.
    pub fn record_sort_counted_ranges(
        &mut self,
        input: BufferRange,
        output: BufferRange,
        count: BufferRange,
        count_word: u32,
        capacity: u32,
        key_bits: u32,
    ) -> (r: Result<Option<(BufferRange, BufferRange, BufferRange, EightBitCountedPlan)>, Error>)
        requires
            old(self).wf(),
        ensures
            final(self).wf(),
            final(self).limits == old(self).limits,
            (counted_sort_error(
                input,
                output,
                count,
                count_word,
                capacity,
                key_bits,
                old(self).item_size_bytes,
                old(self).limits,
            ) matches Some(e) ==> r == Err::<Option<(BufferRange, BufferRange, BufferRange, EightBitCountedPlan)>, Error>(e)),
            counted_sort_error(
                input,
                output,
                count,
                count_word,
                capacity,
                key_bits,
                old(self).item_size_bytes,
                old(self).limits,
            ) is None && capacity == 0 ==> r matches Ok(None),
            counted_sort_error(
                input,
                output,
                count,
                count_word,
                capacity,
                key_bits,
                old(self).item_size_bytes,
                old(self).limits,
            ) is None && capacity > 0 ==> {
                let max_items = element_count_limit_spec(old(self).limits.max_compute_workgroups_per_dimension);
                if capacity > max_items {
                    r == Err::<Option<(BufferRange, BufferRange, BufferRange, EightBitCountedPlan)>, Error>(
                        Error::RadixElementCountLimitExceeded { count: capacity, limit: max_items },
                    )
                } else {
                    match old(self).ensure_spec((capacity * old(self).item_size_bytes) as u64) {
                        Ok(ws) => r matches Ok(Some(_)) && final(self).workspace == ws,
                        Err(e) => r == Err::<
                            Option<(BufferRange, BufferRange, BufferRange, EightBitCountedPlan)>,
                            Error,
                        >(e),
                    }
                }
            },
            r is Err ==> *final(self) == *old(self),
            r matches Ok(Some(v)) ==> {
                let bytes = (capacity * old(self).item_size_bytes) as u64;
                let n = pass_count_spec(key_bits);
                &&& key_bits <= 32
                &&& capacity > 0
                &&& final(self).counted_ready
                &&& v.0 == (BufferRange { size: bytes, ..input })
                &&& v.1 == (BufferRange { size: bytes, ..output })
                &&& v.2 == (BufferRange { size: ((count_word + 1) * 4) as u64, ..count })
                &&& v.3.params@ == seq![capacity, n, count_word, 0u32, 0u32, 0u32, 0u32, 0u32]
                &&& v.3.histogram_groups == histogram_groups_spec(capacity)
                &&& v.3.uniform_stride == stride_spec(old(self).limits)
                &&& v.3.passes@.len() == n
                &&& forall|p: int|
                    0 <= p < n ==> #[trigger] v.3.passes@[p] == (
                        slot_source(p as nat, n as nat),
                        slot_destination(p as nat, n as nat),
                    )
            },
    {
        let problem = match self.prepare_counted_sort(
            input,
            output,
            count,
            count_word,
            capacity,
            key_bits,
        ) {
            Ok(Some(p)) => p,
            Ok(None) => return Ok(None),
            Err(e) => return Err(e),
        };
        let input = input.with_size(problem.capacity_bytes);
        let output = output.with_size(problem.capacity_bytes);
        let count = count.with_size(problem.count_bytes);
        let plan = self.plan_counted(capacity, count_word, problem.pass_count);
        Ok(Some((input, output, count, plan)))
    }
}


/// Specializes an 8-bit kernel template for `item_kind`: fills in the item
/// type and the member path to the key.
pub fn item_shader(source: &str, item_kind: SortItemKind) -> (r: String)
    ensures
        r@ == replaced(
            replaced(source@, "{{ITEM_TYPE}}"@, item_kind.shader_item_type_spec()),
            "{{KEY_MEMBER}}"@,
            item_kind.shader_key_member_spec(),
        ),
{
    proof {
        reveal_strlit("{{ITEM_TYPE}}");
        reveal_strlit("{{KEY_MEMBER}}");
    }
    let typed = replace_all(source, "{{ITEM_TYPE}}", item_kind.shader_item_type());
    replace_all(typed.as_str(), "{{KEY_MEMBER}}", item_kind.shader_key_member())
}


/// Which pair of buffers a separate-buffer pass uses.
#[derive(Clone, Copy, Debug, PartialEq, Eq, Structural)]
pub enum SoaSlot {
    /// The caller's key and value buffers.
    Caller,
    /// The sorter's scratch key and value buffers.
    Scratch,
}

pub open spec fn soa_source(radix_pass: nat) -> SoaSlot {
    if radix_pass % 2 == 0 {
        SoaSlot::Caller
    } else {
        SoaSlot::Scratch
    }
}

pub open spec fn soa_destination(radix_pass: nat) -> SoaSlot {
    if radix_pass % 2 == 0 {
        SoaSlot::Scratch
    } else {
        SoaSlot::Caller
    }
}

/// The `(source, destination)` of separate-buffer pass `radix_pass`:
/// even passes read the caller's buffers, odd passes write them back.
pub fn soa_pass_buffers(radix_pass: u32) -> (r: (SoaSlot, SoaSlot))
    ensures
        r == (soa_source(radix_pass as nat), soa_destination(radix_pass as nat)),
{
    if radix_pass % 2 == 0 {
        (SoaSlot::Caller, SoaSlot::Scratch)
    } else {
        (SoaSlot::Scratch, SoaSlot::Caller)
    }
}

/// In-place law of the separate-buffer sort: its [`MAX_PASS_COUNT`] passes
/// start from the caller's buffers, each reads what the previous one wrote,
/// none reads what it writes, and the last writes the caller's buffers.
pub proof fn lemma_soa_sorts_in_place()
    ensures
        soa_source(0) == SoaSlot::Caller,
        soa_destination((MAX_PASS_COUNT - 1) as nat) == SoaSlot::Caller,
        forall|p: nat|
            0 < p < MAX_PASS_COUNT ==> #[trigger] soa_source(p) == soa_destination((p - 1) as nat),
        forall|p: nat| #[trigger] soa_source(p) != soa_destination(p),
{
}

/// The inputs the cached bind groups of a separate-buffer sort were built for.
#[derive(Clone, Copy, Debug, PartialEq, Eq, Structural)]
pub struct SoaBindingKey {
    pub keys: u64,
    pub values: u64,
    pub count: u64,
    pub count_word: u32,
    pub capacity: u32,
    pub workspace_capacity: u64,
}

/// The validation error, if any, of a separate-buffer sort's inputs, before
/// the capacity is checked against the element limit.
pub open spec fn soa_input_error(
    keys: GpuBuffer,
    values: GpuBuffer,
    count: GpuBuffer,
    count_word: u32,
    capacity: u32,
    limits: DeviceLimits,
) -> Option<Error> {
    let count_size = ((count_word + 1) * 4) as u64;
    let count_range = BufferRange { buffer: count, offset: 0, size: count_size };
    let bytes = (capacity * 4) as u64;
    let k = BufferRange::whole_spec(keys);
    let v = BufferRange::whole_spec(values);
    let align = limits.min_storage_buffer_offset_alignment as u64;
    if validate_spec(count_range, "sort item count", count_size, USAGE_STORAGE) is Err {
        Some(validate_spec(count_range, "sort item count", count_size, USAGE_STORAGE)->Err_0)
    } else if keys.id == values.id {
        Some(Error::BufferAlias { first: "sort keys", second: "sort values" })
    } else if keys.id == count.id {
        Some(Error::BufferAlias { first: "sort keys", second: "sort item count" })
    } else if values.id == count.id {
        Some(Error::BufferAlias { first: "sort values", second: "sort item count" })
    } else if validate_spec(k, "sort keys", bytes, USAGE_STORAGE) is Err {
        Some(validate_spec(k, "sort keys", bytes, USAGE_STORAGE)->Err_0)
    } else if validate_spec(v, "sort values", bytes, USAGE_STORAGE) is Err {
        Some(validate_spec(v, "sort values", bytes, USAGE_STORAGE)->Err_0)
    } else if offset_spec(k, align, "sort keys") is Err {
        Some(offset_spec(k, align, "sort keys")->Err_0)
    } else if limits_binding_spec(limits, bytes) is Err {
        Some(limits_binding_spec(limits, bytes)->Err_0)
    } else if offset_spec(count_range, align, "sort item count") is Err {
        Some(offset_spec(count_range, align, "sort item count")->Err_0)
    } else if limits_binding_spec(limits, count_size) is Err {
        Some(limits_binding_spec(limits, count_size)->Err_0)
    } else {
        None
    }
}

/// Sorting state of the stable, GPU-counted sort of separate `u32` key and
/// value buffers, sorted in place: the device limits, the workspace and the
/// inputs of the cached bind groups.
pub struct NativeKeyValueSoaSorter {
    pub limits: DeviceLimits,
    pub workspace: Option<EightBitWorkspace>,
    pub bindings: Option<SoaBindingKey>,
}

impl NativeKeyValueSoaSorter {
    pub open spec fn fits(&self, requested: u64) -> bool {
        self.workspace is Some && self.workspace->Some_0.capacity_bytes >= requested
    }

    pub open spec fn workspace_capacity_spec(&self) -> u64 {
        match self.workspace {
            Some(ws) => ws.capacity_bytes,
            None => 0,
        }
    }

    pub open spec fn key_spec(
        &self,
        keys: GpuBuffer,
        values: GpuBuffer,
        count: GpuBuffer,
        count_word: u32,
        capacity: u32,
    ) -> SoaBindingKey {
        SoaBindingKey {
            keys: keys.id,
            values: values.id,
            count: count.id,
            count_word,
            capacity,
            workspace_capacity: self.workspace_capacity_spec(),
        }
    }

    /// A sorter with nothing allocated.
    pub fn new(limits: DeviceLimits) -> (r: NativeKeyValueSoaSorter)
        ensures
            r.limits == limits,
            r.workspace is None,
            r.bindings is None,
    {
        NativeKeyValueSoaSorter { limits, workspace: None, bindings: None }
    }

    /// Grows the workspace to hold `requested_bytes`; a new workspace drops the
    /// cached bind groups.
    pub fn ensure_workspace(&mut self, requested_bytes: u64) -> (r: Result<(), Error>)
        ensures
            final(self).limits == old(self).limits,
            r is Ok ==> final(self).fits(requested_bytes),
            old(self).fits(requested_bytes) ==> r is Ok && *final(self) == *old(self),
            !old(self).fits(requested_bytes) ==> match allocate_spec(
                requested_bytes,
                4,
                old(self).limits,
            ) {
                Ok(ws) => r is Ok && final(self).workspace == Some(ws) && final(self).bindings
                    is None,
                Err(e) => r == Err::<(), Error>(e) && *final(self) == *old(self),
            },
    {
        if let Some(ws) = &self.workspace {
            if ws.capacity_bytes >= requested_bytes {
                return Ok(());
            }
        }
        match allocate_workspace(requested_bytes, 4, &self.limits) {
            Ok(ws) => {
                self.workspace = Some(ws);
                self.bindings = None;
                Ok(())
            },
            Err(e) => Err(e),
        }
    }

    /// Prepares the workspace for sorts of up to `capacity` pairs.
    pub fn reserve(&mut self, capacity: u32) -> (r: Result<(), Error>)
        ensures
            final(self).limits == old(self).limits,
            capacity == 0 || old(self).fits((capacity * 4) as u64) ==> r is Ok && *final(self)
                == *old(self),
            capacity > 0 && !old(self).fits((capacity * 4) as u64) ==> match allocate_spec(
                (capacity * 4) as u64,
                4,
                old(self).limits,
            ) {
                Ok(ws) => r is Ok && final(self).workspace == Some(ws) && final(self).bindings
                    is None,
                Err(e) => r == Err::<(), Error>(e) && *final(self) == *old(self),
            },
    {
        if capacity == 0 {
            return Ok(());
        }
        self.ensure_workspace(capacity as u64 * 4)
    }

    /// Checks the keys, values and count word of a sort of up to `capacity`
    /// pairs; returns the bound ranges, or `None` when the capacity is zero.
    pub fn validate_inputs(
        &self,
        keys: GpuBuffer,
        values: GpuBuffer,
        count_buffer: GpuBuffer,
        count_word: u32,
        capacity: u32,
    ) -> (r: Result<Option<(BufferRange, BufferRange, BufferRange)>, Error>)
        ensures
            ({
                let max_items = element_count_limit_spec(
                    self.limits.max_compute_workgroups_per_dimension,
                );
                let bytes = (capacity * 4) as u64;
                match soa_input_error(keys, values, count_buffer, count_word, capacity, self.limits) {
                    Some(e) => r == Err::<Option<(BufferRange, BufferRange, BufferRange)>, Error>(e),
                    None => if capacity == 0 {
                        r == Ok::<Option<(BufferRange, BufferRange, BufferRange)>, Error>(None)
                    } else if capacity > max_items {
                        r == Err::<Option<(BufferRange, BufferRange, BufferRange)>, Error>(
                            Error::RadixElementCountLimitExceeded { count: capacity, limit: max_items },
                        )
                    } else {
                        r == Ok::<Option<(BufferRange, BufferRange, BufferRange)>, Error>(
                            Some(
                                (
                                    BufferRange { buffer: keys, offset: 0, size: bytes },
                                    BufferRange { buffer: values, offset: 0, size: bytes },
                                    BufferRange {
                                        buffer: count_buffer,
                                        offset: 0,
                                        size: ((count_word + 1) * 4) as u64,
                                    },
                                ),
                            ),
                        )
                    }
                }
            }),
    {
        let count_size = count_bytes(count_word);
        let count = BufferRange { buffer: count_buffer, offset: 0, size: count_size };
        if let Err(e) = count.validate("sort item count", count_size, USAGE_STORAGE) {
            return Err(e);
        }
        if keys.id == values.id {
            return Err(Error::BufferAlias { first: "sort keys", second: "sort values" });
        }
        if keys.id == count_buffer.id {
            return Err(Error::BufferAlias { first: "sort keys", second: "sort item count" });
        }
        if values.id == count_buffer.id {
            return Err(Error::BufferAlias { first: "sort values", second: "sort item count" });
        }
        let capacity_bytes = capacity as u64 * 4;
        let k = BufferRange::whole(keys);
        let v = BufferRange::whole(values);
        if let Err(e) = k.validate("sort keys", capacity_bytes, USAGE_STORAGE) {
            return Err(e);
        }
        if let Err(e) = v.validate("sort values", capacity_bytes, USAGE_STORAGE) {
            return Err(e);
        }
        if let Err(e) = k.validate_storage_offset(&self.limits, "sort keys") {
            return Err(e);
        }
        if let Err(e) = validate_storage_binding_size(&self.limits, capacity_bytes) {
            return Err(e);
        }
        if let Err(e) = v.validate_storage_offset(&self.limits, "sort values") {
            return Err(e);
        }
        if let Err(e) = validate_storage_binding_size(&self.limits, capacity_bytes) {
            return Err(e);
        }
        if let Err(e) = count.validate_storage_offset(&self.limits, "sort item count") {
            return Err(e);
        }
        if let Err(e) = validate_storage_binding_size(&self.limits, count_size) {
            return Err(e);
        }
        if capacity == 0 {
            return Ok(None);
        }
        let max_items = element_count_limit(self.limits.max_compute_workgroups_per_dimension);
        if capacity > max_items {
            return Err(Error::RadixElementCountLimitExceeded { count: capacity, limit: max_items });
        }
        Ok(Some((k.with_size(capacity_bytes), v.with_size(capacity_bytes), count)))
    }

    /// Whether the cached bind groups were built for these inputs and the
    /// current workspace.
    pub fn bindings_match(
        &self,
        keys: GpuBuffer,
        values: GpuBuffer,
        count: GpuBuffer,
        count_word: u32,
        capacity: u32,
    ) -> (r: bool)
        ensures
            r == (self.bindings == Some(self.key_spec(keys, values, count, count_word, capacity))),
    {
        let workspace_capacity = match &self.workspace {
            Some(ws) => ws.capacity_bytes,
            None => 0,
        };
        match &self.bindings {
            Some(b) => b.keys == keys.id && b.values == values.id && b.count == count.id
                && b.count_word == count_word && b.capacity == capacity && b.workspace_capacity
                == workspace_capacity,
            None => false,
        }
    }

    /// Brings the cached bind groups up to date; reports whether they were rebuilt.
    pub fn ensure_bindings(
        &mut self,
        keys: GpuBuffer,
        values: GpuBuffer,
        count: GpuBuffer,
        count_word: u32,
        capacity: u32,
    ) -> (rebuilt: bool)
        ensures
            final(self).bindings == Some(old(self).key_spec(keys, values, count, count_word, capacity)),
            rebuilt == (old(self).bindings != final(self).bindings),
            final(self).workspace == old(self).workspace,
            final(self).limits == old(self).limits,
    {
        if self.bindings_match(keys, values, count, count_word, capacity) {
            return false;
        }
        let workspace_capacity = match &self.workspace {
            Some(ws) => ws.capacity_bytes,
            None => 0,
        };
        self.bindings = Some(
            SoaBindingKey {
                keys: keys.id,
                values: values.id,
                count: count.id,
                count_word,
                capacity,
                workspace_capacity,
            },
        );
        true
    }

    /// Prepares the workspace and bind groups of a sort so that it can later
    /// be recorded without allocating.
    pub fn prepare_counted_from_word(
        &mut self,
        keys: GpuBuffer,
        values: GpuBuffer,
        count: GpuBuffer,
        count_word: u32,
        capacity: u32,
    ) -> (r: Result<(), Error>)
        ensures
            final(self).limits == old(self).limits,
            r is Ok && capacity > 0 ==> final(self).fits((capacity * 4) as u64)
                && final(self).bindings == Some(
                final(self).key_spec(keys, values, count, count_word, capacity),
            ),
            capacity > 0 && !old(self).fits((capacity * 4) as u64) ==> (allocate_spec(
                (capacity * 4) as u64,
                4,
                old(self).limits,
            ) matches Err(e) ==> r == Err::<(), Error>(e)),
            (capacity == 0 || old(self).fits((capacity * 4) as u64) || allocate_spec(
                (capacity * 4) as u64,
                4,
                old(self).limits,
            ) is Ok) ==> match soa_input_error(keys, values, count, count_word, capacity, old(self).limits) {
                Some(e) => r == Err::<(), Error>(e),
                None => (capacity == 0 ==> r is Ok) && (capacity > element_count_limit_spec(
                    old(self).limits.max_compute_workgroups_per_dimension,
                ) ==> r == Err::<(), Error>(
                    Error::RadixElementCountLimitExceeded {
                        count: capacity,
                        limit: element_count_limit_spec(
                            old(self).limits.max_compute_workgroups_per_dimension,
                        ),
                    },
                )) && (0 < capacity <= element_count_limit_spec(
                    old(self).limits.max_compute_workgroups_per_dimension,
                ) ==> r is Ok),
            },
    {
        let capacity_bytes = capacity as u64 * 4;
        if capacity != 0 {
            if let Err(e) = self.ensure_workspace(capacity_bytes) {
                return Err(e);
            }
        }
        match self.validate_inputs(keys, values, count, count_word, capacity) {
            Err(e) => Err(e),
            Ok(None) => Ok(()),
            Ok(Some(_)) => {
                self.ensure_bindings(keys, values, count, count_word, capacity);
                Ok(())
            },
        }
    }

    /// Checks that a sort prepared by [`Self::prepare_counted_from_word`] can
    /// be recorded without allocating; `false` means there is nothing to record.
    pub fn record_reserved_sort_counted_from_word(
        &self,
        keys: GpuBuffer,
        values: GpuBuffer,
        count: GpuBuffer,
        count_word: u32,
        capacity: u32,
    ) -> (r: Result<bool, Error>)
        ensures
            ({
                let bytes = (capacity * 4) as u64;
                let max_items = element_count_limit_spec(
                    self.limits.max_compute_workgroups_per_dimension,
                );
                match soa_input_error(keys, values, count, count_word, capacity, self.limits) {
                    Some(e) => r == Err::<bool, Error>(e),
                    None => if capacity == 0 {
                        r == Ok::<bool, Error>(false)
                    } else if capacity > max_items {
                        r == Err::<bool, Error>(
                            Error::RadixElementCountLimitExceeded { count: capacity, limit: max_items },
                        )
                    } else if self.workspace is None {
                        r == Err::<bool, Error>(
                            Error::BufferTooSmall { name: "sort workspace", required: bytes, actual: 0 },
                        )
                    } else if self.workspace->Some_0.capacity_bytes < bytes {
                        r == Err::<bool, Error>(
                            Error::BufferTooSmall {
                                name: "sort workspace",
                                required: bytes,
                                actual: self.workspace->Some_0.capacity_bytes,
                            },
                        )
                    } else if self.bindings != Some(
                        self.key_spec(keys, values, count, count_word, capacity),
                    ) {
                        r == Err::<bool, Error>(
                            Error::BufferTooSmall { name: "sort binding plan", required: 1, actual: 0 },
                        )
                    } else {
                        r == Ok::<bool, Error>(true)
                    }
                }
            }),
    {
        let capacity_bytes = capacity as u64 * 4;
        match self.validate_inputs(keys, values, count, count_word, capacity) {
            Err(e) => return Err(e),
            Ok(None) => return Ok(false),
            Ok(Some(_)) => {},
        }
        let actual = match &self.workspace {
            Some(ws) => ws.capacity_bytes,
            None => {
                return Err(
                    Error::BufferTooSmall { name: "sort workspace", required: capacity_bytes, actual: 0 },
                );
            },
        };
        if actual < capacity_bytes {
            return Err(
                Error::BufferTooSmall { name: "sort workspace", required: capacity_bytes, actual },
            );
        }
        if !self.bindings_match(keys, values, count, count_word, capacity) {
            return Err(Error::BufferTooSmall { name: "sort binding plan", required: 1, actual: 0 });
        }
        Ok(true)
    }

    /// Validates, prepares and plans a counted sort whose count is word
    /// `count_word` of `count`; `false` means there is nothing to record.
    pub fn record_sort_counted_from_word(
        &mut self,
        keys: GpuBuffer,
        values: GpuBuffer,
        count: GpuBuffer,
        count_word: u32,
        capacity: u32,
    ) -> (r: Result<bool, Error>)
        ensures
            final(self).limits == old(self).limits,
            (validate_spec(BufferRange::whole_spec(count), "sort item count", ((count_word + 1) * 4) as u64, USAGE_STORAGE) matches Err(e)
                ==> r == Err::<bool, Error>(e)),
            r == Ok::<bool, Error>(true) ==> capacity > 0 && final(self).fits((capacity * 4) as u64)
                && final(self).bindings == Some(
                final(self).key_spec(keys, values, count, count_word, capacity),
            ),
            r == Ok::<bool, Error>(false) ==> capacity == 0,
            soa_input_error(keys, values, count, count_word, capacity, old(self).limits) is Some ==> r is Err,
            (soa_input_error(keys, values, count, count_word, capacity, old(self).limits) is None
                && count.size >= (count_word + 1) * 4 && (capacity == 0 || old(self).fits((capacity * 4) as u64) || allocate_spec(
                (capacity * 4) as u64,
                4,
                old(self).limits,
            ) is Ok) && capacity <= element_count_limit_spec(
                old(self).limits.max_compute_workgroups_per_dimension,
            )) ==> r is Ok,
    {
        let count_size = count_bytes(count_word);
        let count_range = BufferRange::whole(count);
        if let Err(e) = count_range.validate("sort item count", count_size, USAGE_STORAGE) {
            return Err(e);
        }
        if let Err(e) = validate_storage_binding_size(&self.limits, count_size) {
            return Err(e);
        }
        let capacity_bytes = capacity as u64 * 4;
        if capacity != 0 {
            if let Err(e) = self.ensure_workspace(capacity_bytes) {
                return Err(e);
            }
        }
        match self.validate_inputs(keys, values, count, count_word, capacity) {
            Err(e) => Err(e),
            Ok(None) => Ok(false),
            Ok(Some(_)) => {
                self.ensure_bindings(keys, values, count, count_word, capacity);
                Ok(true)
            },
        }
    }
}

/// The preparation parameters of a separate-buffer sort:
/// `[capacity, MAX_PASS_COUNT, count_word, 0, 0, 0, 0, 0]`.
pub fn soa_params(capacity: u32, count_word: u32) -> (r: Vec<u32>)
    ensures
        r@ == seq![capacity, MAX_PASS_COUNT, count_word, 0u32, 0u32, 0u32, 0u32, 0u32],
{
    counted_params(capacity, MAX_PASS_COUNT, count_word)
}

} // verus!
