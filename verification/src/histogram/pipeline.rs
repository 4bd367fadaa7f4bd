use vstd::prelude::*;

use crate::common::math::{div_ceil, div_ceil_u32};

verus! {

/// The most bins the workgroup-private counters hold.
pub const MAX_BINS: u32 = 256;
pub const BLOCK_SIZE: u32 = 256;
pub const ITEMS_PER_THREAD: u32 = 8;
/// Items one histogram workgroup counts.
pub const ITEMS_PER_WORKGROUP: u32 = 2048;
pub const PARAMS_SIZE_BYTES: u64 = 16;

/// The histogram grid and parameters `[items, bins, row width, workgroups]`.
pub fn histogram_dispatch(num_items: u32, bin_count: u32, max_workgroups_per_dimension: u32) -> (r: (
    u32,
    u32,
    Vec<u32>,
))
    requires
        max_workgroups_per_dimension > 0,
    ensures
        ({
            let w = div_ceil(num_items as int, ITEMS_PER_WORKGROUP as int);
            &&& r.0 == (if w <= max_workgroups_per_dimension { w } else { max_workgroups_per_dimension as int })
            &&& r.1 == div_ceil(w, max_workgroups_per_dimension as int)
            &&& r.0 * r.1 >= w
            &&& r.2@ == seq![num_items, bin_count, r.0, w as u32]
        }),
{
    let workgroups = div_ceil_u32(num_items, ITEMS_PER_WORKGROUP);
    let (x, y) = crate::common::dispatch::split_dispatch(workgroups, max_workgroups_per_dimension);
    let params = vec![num_items, bin_count, x, workgroups];
    assert(params@ =~= seq![num_items, bin_count, x, workgroups]);
    (x, y, params)
}

} // verus!
