use vstd::prelude::*;

use crate::common::math::{div_ceil, div_ceil_u32, lemma_div_ceil};

verus! {

/// Items one run-length workgroup handles.
pub const BLOCK_SIZE: u32 = 256;
pub const PARAMS_SIZE_BYTES: u64 = 16;

/// The grid for `capacity_items` items: one workgroup per block, in rows of at
/// most `max_workgroups_per_dimension`.
pub fn dispatch_dimensions(capacity_items: u32, max_workgroups_per_dimension: u32) -> (r: (u32, u32))
    requires
        max_workgroups_per_dimension > 0,
    ensures
        ({
            let w = div_ceil(capacity_items as int, BLOCK_SIZE as int);
            &&& r.0 == (if w <= max_workgroups_per_dimension { w } else { max_workgroups_per_dimension as int })
            &&& r.1 == div_ceil(w, max_workgroups_per_dimension as int)
            &&& r.0 * r.1 >= w
        }),
{
    let workgroups = div_ceil_u32(capacity_items, BLOCK_SIZE);
    crate::common::dispatch::split_dispatch(workgroups, max_workgroups_per_dimension)
}

/// The kernels' parameters `[capacity, fixed items, row width, counted]`.
pub fn params(capacity_items: u32, fixed_items: u32, groups_x: u32, counted: bool) -> (r: Vec<u32>)
    ensures
        r@ == seq![capacity_items, fixed_items, groups_x, if counted { 1u32 } else { 0u32 }],
{
    let flag: u32 = if counted {
        1
    } else {
        0
    };
    let r = vec![capacity_items, fixed_items, groups_x, flag];
    assert(r@ =~= seq![capacity_items, fixed_items, groups_x, flag]);
    r
}

/// Padded workgroups of the last row are rejected before the item index is
/// formed, so the index of every valid workgroup's lanes fits in `u32`.
pub proof fn lemma_valid_lane_index_fits(capacity: u32, group: nat, lane: nat)
    requires
        group < div_ceil(capacity as int, BLOCK_SIZE as int),
        lane < BLOCK_SIZE,
    ensures
        group * BLOCK_SIZE + lane <= u32::MAX,
{
    lemma_div_ceil(capacity as int, BLOCK_SIZE as int);
    assert(group * BLOCK_SIZE + lane <= u32::MAX) by (nonlinear_arith)
        requires
            group + 1 <= div_ceil(capacity as int, BLOCK_SIZE as int),
            div_ceil(capacity as int, BLOCK_SIZE as int) * 256 < capacity + 256,
            lane < 256,
            capacity <= u32::MAX,
    ;
}

} // verus!
