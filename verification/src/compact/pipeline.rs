use vstd::prelude::*;

use crate::common::math::{div_ceil, div_ceil_u32};

verus! {

/// Items one compaction workgroup scatters.
pub const BLOCK_SIZE: u32 = 256;
pub const PARAMS_SIZE_BYTES: u64 = 16;

/// What a compaction moves: bare values or key-value records.
#[derive(Clone, Copy, Debug, PartialEq, Eq, Structural)]
pub enum CompactItemKind {
    Value,
    KeyValue,
}

impl CompactItemKind {
    pub open spec fn size_bytes_spec(self) -> u64 {
        match self {
            CompactItemKind::Value => 4,
            CompactItemKind::KeyValue => 8,
        }
    }

    /// The item size in bytes.
    pub fn size_bytes(self) -> (r: u64)
        ensures
            r == self.size_bytes_spec(),
    {
        match self {
            CompactItemKind::Value => 4,
            CompactItemKind::KeyValue => 8,
        }
    }

    /// The kernel's item type name.
    pub fn shader_item_type(self) -> (r: &'static str)
        ensures
            r@ == (match self {
                CompactItemKind::Value => "u32"@,
                CompactItemKind::KeyValue => "KeyValue"@,
            }),
    {
        match self {
            CompactItemKind::Value => "u32",
            CompactItemKind::KeyValue => "KeyValue",
        }
    }
}

/// The scatter grid and parameters `[items, row width, scan items per block, 0]`.
pub fn compact_dispatch(num_items: u32, max_workgroups_per_dimension: u32, scan_items_per_block: u32) -> (r: (
    u32,
    u32,
    Vec<u32>,
))
    requires
        max_workgroups_per_dimension > 0,
    ensures
        ({
            let w = div_ceil(num_items as int, BLOCK_SIZE as int);
            &&& r.0 == (if w <= max_workgroups_per_dimension { w } else { max_workgroups_per_dimension as int })
            &&& r.1 == div_ceil(w, max_workgroups_per_dimension as int)
            &&& r.0 * r.1 >= w
            &&& r.2@ == seq![num_items, r.0, scan_items_per_block, 0u32]
        }),
{
    let workgroups = div_ceil_u32(num_items, BLOCK_SIZE);
    let (x, y) = crate::common::dispatch::split_dispatch(workgroups, max_workgroups_per_dimension);
    let params = vec![num_items, x, scan_items_per_block, 0];
    assert(params@ =~= seq![num_items, x, scan_items_per_block, 0u32]);
    (x, y, params)
}

} // verus!
