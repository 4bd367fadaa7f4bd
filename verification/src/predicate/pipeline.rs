use vstd::prelude::*;

use crate::common::math::{div_ceil, div_ceil_u32};

use super::{KeyValueField, U32Predicate};

verus! {

/// Items one predicate workgroup evaluates.
pub const BLOCK_SIZE: u32 = 256;
pub const PARAMS_SIZE_BYTES: u64 = 32;

/// What a predicate reads: bare values or key-value records.
#[derive(Clone, Copy, Debug, PartialEq, Eq, Structural)]
pub enum PredicateItemKind {
    Value,
    KeyValue,
}

impl PredicateItemKind {
    pub open spec fn size_bytes_spec(self) -> u64 {
        match self {
            PredicateItemKind::Value => 4,
            PredicateItemKind::KeyValue => 8,
        }
    }

    /// The item size in bytes.
    pub fn size_bytes(self) -> (r: u64)
        ensures
            r == self.size_bytes_spec(),
    {
        match self {
            PredicateItemKind::Value => 4,
            PredicateItemKind::KeyValue => 8,
        }
    }

    /// The kernel's item type name.
    pub fn shader_item_type(self) -> (r: &'static str)
        ensures
            r@ == (match self {
                PredicateItemKind::Value => "u32"@,
                PredicateItemKind::KeyValue => "KeyValue"@,
            }),
    {
        match self {
            PredicateItemKind::Value => "u32",
            PredicateItemKind::KeyValue => "KeyValue",
        }
    }

    /// The kernel expression for the compared value: the item itself, or
    /// the field that the parameters select.
    pub fn shader_value_expression(self) -> (r: &'static str)
        ensures
            r@ == (match self {
                PredicateItemKind::Value => "item"@,
                PredicateItemKind::KeyValue => "select(item.key, item.value, params.field == 1u)"@,
            }),
    {
        match self {
            PredicateItemKind::Value => "item",
            PredicateItemKind::KeyValue => "select(item.key, item.value, params.field == 1u)",
        }
    }
}

/// The mask grid and the eight parameter words
/// `[items, row width, operation, field, lower, upper, 0, 0]`.
pub fn predicate_dispatch(
    num_items: u32,
    max_workgroups_per_dimension: u32,
    field: KeyValueField,
    predicate: U32Predicate,
) -> (r: (u32, u32, Vec<u32>))
    requires
        max_workgroups_per_dimension > 0,
    ensures
        ({
            let w = div_ceil(num_items as int, BLOCK_SIZE as int);
            let (op, lower, upper) = predicate.encode_spec();
            &&& r.0 == (if w <= max_workgroups_per_dimension { w } else { max_workgroups_per_dimension as int })
            &&& r.1 == div_ceil(w, max_workgroups_per_dimension as int)
            &&& r.0 * r.1 >= w
            &&& r.2@ == seq![num_items, r.0, op, field.encode_spec(), lower, upper, 0u32, 0u32]
        }),
{
    let workgroups = div_ceil_u32(num_items, BLOCK_SIZE);
    let (x, y) = crate::common::dispatch::split_dispatch(workgroups, max_workgroups_per_dimension);
    let (op, lower, upper) = predicate.encode();
    let params = vec![num_items, x, op, field.encode(), lower, upper, 0, 0];
    assert(params@ =~= seq![num_items, x, op, field.encode_spec(), lower, upper, 0u32, 0u32]);
    (x, y, params)
}

/// Reusable parameter buffers: each slot is either leased to an in-flight
/// dispatch or free for the next one.
pub struct ParameterPool {
    pub in_use: Vec<bool>,
}

impl ParameterPool {
    /// A pool with no slots.
    pub fn new() -> (r: ParameterPool)
        ensures
            r.in_use@.len() == 0,
    {
        ParameterPool { in_use: Vec::new() }
    }

    /// Leases the first free slot, adding a slot when every one is leased.
    /// The result says which slot and whether its buffer must be created.
    pub fn acquire(&mut self) -> (r: (usize, bool))
        requires
            old(self).in_use@.len() < usize::MAX,
        ensures
            r.0 < final(self).in_use@.len(),
            final(self).in_use@[r.0 as int],
            r.1 == (r.0 == old(self).in_use@.len()),
            r.1 ==> final(self).in_use@ == old(self).in_use@.push(true) && forall|i: int|
                0 <= i < old(self).in_use@.len() ==> #[trigger] old(self).in_use@[i],
            !r.1 ==> final(self).in_use@ == old(self).in_use@.update(r.0 as int, true)
                && !old(self).in_use@[r.0 as int] && forall|i: int|
                0 <= i < r.0 ==> #[trigger] old(self).in_use@[i],
    {
        let mut i: usize = 0;
        while i < self.in_use.len()
            invariant
                i <= self.in_use@.len(),
                self.in_use@ == old(self).in_use@,
                forall|j: int| 0 <= j < i ==> #[trigger] self.in_use@[j],
            decreases self.in_use.len() - i,
        {
            if !self.in_use[i] {
                self.in_use.set(i, true);
                return (i, false);
            }
            i = i + 1;
        }
        self.in_use.push(true);
        (i, true)
    }

    /// Returns a leased slot to the pool.
    pub fn release(&mut self, slot: usize)
        requires
            slot < old(self).in_use@.len(),
        ensures
            final(self).in_use@ == old(self).in_use@.update(slot as int, false),
    {
        self.in_use.set(slot, false);
    }
}

} // verus!
