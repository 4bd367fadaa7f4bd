use vstd::prelude::*;

use crate::common::buffers::{offset_spec, validate_spec, BufferRange, DeviceLimits, USAGE_COPY_SRC, USAGE_STORAGE};
use crate::common::math::{div_ceil, lemma_div_ceil, lemma_grid_covers};
use crate::error::Error;

use super::pipeline::{predicate_dispatch, PredicateItemKind, BLOCK_SIZE};
use super::{KeyValueField, U32Predicate};

verus! {

pub const MASK_ITEM_SIZE_BYTES: u64 = 4;

/// The validation error, if any, of masking `n > 0` items.
pub open spec fn mask_error(input: BufferRange, mask: BufferRange, n: u32, item_kind: PredicateItemKind, limits: DeviceLimits) -> Option<Error> {
    let in_bytes = (n * item_kind.size_bytes_spec()) as u64;
    let mask_bytes = (n * MASK_ITEM_SIZE_BYTES) as u64;
    let align = limits.min_storage_buffer_offset_alignment as u64;
    if input.buffer.id == mask.buffer.id {
        Some(Error::BufferAlias { first: "predicate input", second: "predicate mask" })
    } else if validate_spec(input, "predicate input", in_bytes, USAGE_STORAGE) is Err {
        Some(validate_spec(input, "predicate input", in_bytes, USAGE_STORAGE)->Err_0)
    } else if validate_spec(mask, "predicate mask", mask_bytes, USAGE_STORAGE | USAGE_COPY_SRC) is Err {
        Some(validate_spec(mask, "predicate mask", mask_bytes, USAGE_STORAGE | USAGE_COPY_SRC)->Err_0)
    } else if offset_spec(input, align, "predicate input") is Err {
        Some(offset_spec(input, align, "predicate input")->Err_0)
    } else if offset_spec(mask, align, "predicate mask") is Err {
        Some(offset_spec(mask, align, "predicate mask")->Err_0)
    } else {
        None
    }
}

/// The mask dispatch of one predicate.
pub struct MaskCommands {
    pub input: BufferRange,
    pub mask: BufferRange,
    pub item_kind: PredicateItemKind,
    pub groups: (u32, u32),
    pub params: Vec<u32>,
}

/// Evaluates predicates into `0`/`1` masks ready for compaction.
pub struct MaskGenerator {
    pub limits: DeviceLimits,
}

/// The commands that mask the first `num_items` items of `input` into
/// `mask` by `predicate` on `field`: the ranges trimmed to the evaluated
/// bytes, a grid over every block, and the encoded predicate.
pub open spec fn mask_plan_spec(
    c: MaskCommands,
    input: BufferRange,
    mask: BufferRange,
    num_items: u32,
    field: KeyValueField,
    predicate: U32Predicate,
    item_kind: PredicateItemKind,
    limits: DeviceLimits,
) -> bool {
    let w = div_ceil(num_items as int, BLOCK_SIZE as int);
    let m = limits.max_compute_workgroups_per_dimension;
    let (op, lower, upper) = predicate.encode_spec();
    &&& c.input == (BufferRange { size: (num_items * item_kind.size_bytes_spec()) as u64, ..input })
    &&& c.mask == (BufferRange { size: (num_items * 4) as u64, ..mask })
    &&& c.item_kind == item_kind
    &&& c.groups.0 == (if w <= m { w } else { m as int })
    &&& c.groups.1 == div_ceil(w, m as int)
    &&& c.params@ == seq![num_items, c.groups.0, op, field.encode_spec(), lower, upper, 0u32, 0u32]
}

/// A mask's grid reaches every item: at most the device's workgroups
/// across, and one workgroup of [`BLOCK_SIZE`] items for each block.
pub proof fn lemma_mask_grid_covers(
    c: MaskCommands,
    input: BufferRange,
    mask: BufferRange,
    num_items: u32,
    field: KeyValueField,
    predicate: U32Predicate,
    item_kind: PredicateItemKind,
    limits: DeviceLimits,
)
    requires
        limits.max_compute_workgroups_per_dimension > 0,
        mask_plan_spec(c, input, mask, num_items, field, predicate, item_kind, limits),
    ensures
        c.groups.0 <= limits.max_compute_workgroups_per_dimension,
        c.groups.0 * c.groups.1 * BLOCK_SIZE >= num_items,
{
    let w = div_ceil(num_items as int, BLOCK_SIZE as int);
    let m = limits.max_compute_workgroups_per_dimension as int;
    lemma_div_ceil(num_items as int, BLOCK_SIZE as int);
    lemma_grid_covers(w, m, c.groups.0 as int, c.groups.1 as int);
    assert(c.groups.0 * c.groups.1 * BLOCK_SIZE >= w * BLOCK_SIZE) by (nonlinear_arith)
        requires
            c.groups.0 * c.groups.1 >= w,
    ;
}

impl MaskGenerator {
    /// A generator for a device with these limits.
    pub fn new(limits: DeviceLimits) -> (r: MaskGenerator)
        ensures
            r.limits == limits,
    {
        MaskGenerator { limits }
    }

    /// Bytes of a mask for `num_items` items: one word each.
    pub fn mask_buffer_size(num_items: u32) -> (r: Result<u64, Error>)
        ensures
            r == Ok::<u64, Error>((num_items * MASK_ITEM_SIZE_BYTES) as u64),
    {
        Ok(num_items as u64 * MASK_ITEM_SIZE_BYTES)
    }

    /// Validates and plans a mask of the first `num_items` items; `None`
    /// means there is nothing to evaluate.
    pub fn record_commands(
        &self,
        input: BufferRange,
        mask: BufferRange,
        num_items: u32,
        field: KeyValueField,
        predicate: U32Predicate,
        item_kind: PredicateItemKind,
    ) -> (r: Result<Option<MaskCommands>, Error>)
        requires
            self.limits.max_compute_workgroups_per_dimension > 0,
        ensures
            num_items == 0 ==> r matches Ok(None),
            num_items > 0 ==> match mask_error(input, mask, num_items, item_kind, self.limits) {
                Some(e) => r == Err::<Option<MaskCommands>, Error>(e),
                None => r matches Ok(Some(c)) && mask_plan_spec(c, input, mask, num_items, field, predicate, item_kind, self.limits),
            },
    {
        if num_items == 0 {
            return Ok(None);
        }
        if input.buffer.id == mask.buffer.id {
            return Err(Error::BufferAlias { first: "predicate input", second: "predicate mask" });
        }
        let item_size = item_kind.size_bytes();
        assert(num_items as u64 * item_size <= 8 * 0xFFFF_FFFFu64) by (nonlinear_arith)
            requires
                item_size <= 8,
                num_items <= 0xFFFF_FFFFu64,
        ;
        let input_bytes = num_items as u64 * item_size;
        let mask_bytes = num_items as u64 * MASK_ITEM_SIZE_BYTES;
        if let Err(e) = input.validate("predicate input", input_bytes, USAGE_STORAGE) {
            return Err(e);
        }
        if let Err(e) = mask.validate("predicate mask", mask_bytes, USAGE_STORAGE | USAGE_COPY_SRC) {
            return Err(e);
        }
        if let Err(e) = input.validate_storage_offset(&self.limits, "predicate input") {
            return Err(e);
        }
        if let Err(e) = mask.validate_storage_offset(&self.limits, "predicate mask") {
            return Err(e);
        }
        let (x, y, params) = predicate_dispatch(num_items, self.limits.max_compute_workgroups_per_dimension, field, predicate);
        Ok(
            Some(
                MaskCommands {
                    input: input.with_size(input_bytes),
                    mask: mask.with_size(mask_bytes),
                    item_kind,
                    groups: (x, y),
                    params,
                },
            ),
        )
    }

    /// Plans a mask of `u32` values.
    pub fn record_mask(&self, input: BufferRange, mask: BufferRange, num_items: u32, predicate: U32Predicate) -> (r:
        Result<Option<MaskCommands>, Error>)
        requires
            self.limits.max_compute_workgroups_per_dimension > 0,
        ensures
            num_items == 0 ==> r matches Ok(None),
            num_items > 0 ==> match mask_error(input, mask, num_items, PredicateItemKind::Value, self.limits) {
                Some(e) => r == Err::<Option<MaskCommands>, Error>(e),
                None => r matches Ok(Some(c)) && mask_plan_spec(
                    c,
                    input,
                    mask,
                    num_items,
                    KeyValueField::Key,
                    predicate,
                    PredicateItemKind::Value,
                    self.limits,
                ),
            },
    {
        self.record_commands(input, mask, num_items, KeyValueField::Key, predicate, PredicateItemKind::Value)
    }

    /// Plans a mask of one field of key-value records.
    pub fn record_key_value_mask(
        &self,
        input: BufferRange,
        mask: BufferRange,
        num_items: u32,
        field: KeyValueField,
        predicate: U32Predicate,
    ) -> (r: Result<Option<MaskCommands>, Error>)
        requires
            self.limits.max_compute_workgroups_per_dimension > 0,
        ensures
            num_items == 0 ==> r matches Ok(None),
            num_items > 0 ==> match mask_error(input, mask, num_items, PredicateItemKind::KeyValue, self.limits) {
                Some(e) => r == Err::<Option<MaskCommands>, Error>(e),
                None => r matches Ok(Some(c)) && mask_plan_spec(
                    c,
                    input,
                    mask,
                    num_items,
                    field,
                    predicate,
                    PredicateItemKind::KeyValue,
                    self.limits,
                ),
            },
    {
        self.record_commands(input, mask, num_items, field, predicate, PredicateItemKind::KeyValue)
    }
}

} // verus!
