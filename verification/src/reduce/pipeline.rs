use vstd::prelude::*;

use crate::common::dispatch::{
    hierarchy_levels, hierarchy_pass_count, hierarchy_passes, hierarchy_spec, split_dispatch,
    HierarchyLevel,
};
use crate::common::math::{div_ceil, div_ceil_u32};

verus! {

pub const BLOCK_SIZE: u32 = 128;
pub const ITEMS_PER_THREAD: u32 = 32;
/// Items one reduction workgroup combines into one partial result.
pub const ITEMS_PER_BLOCK: u32 = 4096;
pub const MAX_WORKGROUPS_X: u32 = 65_535;

/// The partial results one level produces from `input_items` values.
pub fn reduction_output_items(input_items: u32) -> (r: u32)
    ensures
        r == div_ceil(input_items as int, ITEMS_PER_BLOCK as int),
{
    div_ceil_u32(input_items, ITEMS_PER_BLOCK)
}

/// The number of levels that reduce `input_items` values to one.
pub fn reduction_pass_count(input_items: u32) -> (r: u32)
    ensures
        r == hierarchy_passes(input_items as nat, ITEMS_PER_BLOCK as nat),
{
    hierarchy_pass_count(input_items, ITEMS_PER_BLOCK)
}

/// The levels of a reduction over `input_items` values.
pub fn reduction_levels(input_items: u32) -> (r: Vec<HierarchyLevel>)
    ensures
        r@ == hierarchy_spec(input_items as nat, ITEMS_PER_BLOCK as nat),
{
    hierarchy_levels(input_items, ITEMS_PER_BLOCK)
}

/// The `(x, y)` workgroup grid of a level that writes `output_items` results.
pub fn dispatch_dimensions(output_items: u32) -> (r: (u32, u32))
    ensures
        r.0 == (if output_items <= MAX_WORKGROUPS_X {
            output_items
        } else {
            MAX_WORKGROUPS_X
        }),
        r.1 == div_ceil(output_items as int, MAX_WORKGROUPS_X as int),
        r.0 * r.1 >= output_items,
{
    split_dispatch(output_items, MAX_WORKGROUPS_X)
}

} // verus!
