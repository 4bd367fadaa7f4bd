use vstd::prelude::*;

use crate::common::dispatch::{hierarchy_pass_count, hierarchy_passes, split_dispatch};
use crate::common::math::{div_ceil, div_ceil_u32};

verus! {

/// Records that one workgroup folds into a single partial minimum.
pub const BLOCK_SIZE: u32 = 256;

/// The largest workgroup count dispatched along x.
pub const MAX_WORKGROUPS_X: u32 = 65_535;

/// The partial minima left after one level over `input_items` records.
pub fn output_items(input_items: u32) -> (r: u32)
    ensures
        r == div_ceil(input_items as int, BLOCK_SIZE as int),
{
    div_ceil_u32(input_items, BLOCK_SIZE)
}

/// The number of levels that fold `input_items` records into one: zero for
/// an empty input, one for up to a block, one more for every further level.
pub fn pass_count(input_items: u32) -> (r: u32)
    ensures
        r == hierarchy_passes(input_items as nat, BLOCK_SIZE as nat),
{
    hierarchy_pass_count(input_items, BLOCK_SIZE)
}

/// The `(x, y)` workgroup grid of a level that writes `output_items` minima.
pub fn dispatch_dimensions(output_items: u32) -> (r: (u32, u32))
    ensures
        r.0 == (if output_items <= MAX_WORKGROUPS_X {
            output_items
        } else {
            MAX_WORKGROUPS_X
        }),
        r.1 == div_ceil(output_items as int, MAX_WORKGROUPS_X as int),
        r.0 * r.1 >= output_items,
{
    split_dispatch(output_items, MAX_WORKGROUPS_X)
}

} // verus!
