use vstd::prelude::*;

use crate::common::dispatch::{
    hierarchy_passes, items_after, lemma_hierarchy_passes_bound, lemma_hierarchy_reaches_one,
    lemma_items_after_monotone, split_dispatch,
};
use crate::common::math::{align_to, div_ceil, div_ceil_u32, is_power_of_two, lemma_div_ceil, round_up};

verus! {

pub const MAX_WORKGROUPS_X: u32 = 65_535;
/// Scan levels start on multiples of this many bytes in the scratch buffer.
pub const LEVEL_ALIGNMENT: u64 = 256;

/// The scan kernels' shape: items per thread and threads per workgroup.
#[derive(Clone, Copy, Debug, PartialEq, Eq, Structural)]
pub struct ScanConfig {
    pub vt: u32,
    pub block_size: u32,
}

impl ScanConfig {
    pub open spec fn items_per_block(self) -> nat {
        (self.vt * self.block_size) as nat
    }

    pub open spec fn wf(self) -> bool {
        ||| (self.vt == 1 && self.block_size == 256)
        ||| (self.vt == 8 && self.block_size == 256)
        ||| (self.vt == 4 && self.block_size == 128)
    }
}

/// Subgroup scans use one item per lane; the portable kernels scan several
/// items per thread, fewer on devices with little workgroup storage.
pub open spec fn scan_config_spec(subgroups_enabled: bool, max_workgroup_storage: u32) -> ScanConfig {
    if subgroups_enabled {
        ScanConfig { vt: 1, block_size: 256 }
    } else if max_workgroup_storage >= 32768 {
        ScanConfig { vt: 8, block_size: 256 }
    } else {
        ScanConfig { vt: 4, block_size: 128 }
    }
}

/// Chooses the scan kernels' shape; subgroup kernels only when allowed and
/// the device enables subgroups.
pub fn scan_config(allow_subgroups: bool, device_subgroups: bool, max_workgroup_storage: u32) -> (r:
    ScanConfig)
    ensures
        r == scan_config_spec(allow_subgroups && device_subgroups, max_workgroup_storage),
        r.wf(),
{
    if allow_subgroups && device_subgroups {
        ScanConfig { vt: 1, block_size: 256 }
    } else if max_workgroup_storage >= 32768 {
        ScanConfig { vt: 8, block_size: 256 }
    } else {
        ScanConfig { vt: 4, block_size: 128 }
    }
}

/// Scan levels for `n` items: none for at most one item, otherwise one per
/// reduction of the block totals until a single block remains.
pub open spec fn scan_levels(n: nat, per: nat) -> nat {
    if n <= 1 {
        0
    } else {
        hierarchy_passes(n, per)
    }
}

/// Scratch bytes of level `k >= 1`: its block totals, rounded to [`LEVEL_ALIGNMENT`].
pub open spec fn level_bytes(n: nat, per: nat, k: nat) -> int {
    round_up(items_after(n, per, k) as int * 4, LEVEL_ALIGNMENT as int)
}

/// Scratch bytes taken by levels `1..=k`.
pub open spec fn scratch_prefix(n: nat, per: nat, k: nat) -> int
    decreases k,
{
    if k == 0 {
        0
    } else {
        scratch_prefix(n, per, (k - 1) as nat) + level_bytes(n, per, k)
    }
}

/// Scratch bytes a scan of `n` items needs.
pub open spec fn scratch_size_spec(n: nat, per: nat) -> int {
    scratch_prefix(n, per, scan_levels(n, per))
}

pub proof fn lemma_power_of_two_256()
    ensures
        is_power_of_two(256u64),
{
    vstd::arithmetic::power2::lemma2_to64();
    assert(256u64 == vstd::arithmetic::power2::pow2(8));
}

/// Block totals after the first level fit in 2^24 for 32-bit item counts.
pub proof fn lemma_level_items_small(n: nat, per: nat, k: nat)
    requires
        n <= u32::MAX,
        per >= 256,
        k >= 1,
    ensures
        items_after(n, per, k) <= 0x100_0000,
{
    lemma_items_after_monotone(n, per, 1, k);
    lemma_div_ceil(n as int, per as int);
    assert(items_after(n, per, 1) == div_ceil(items_after(n, per, 0) as int, per as int) as nat);
    assert(div_ceil(n as int, per as int) <= 0x100_0000) by (nonlinear_arith)
        requires
            div_ceil(n as int, per as int) * per < n + per,
            n <= u32::MAX,
            per >= 256,
    ;
}

pub proof fn lemma_level_bytes_bounds(n: nat, per: nat, k: nat)
    requires
        n <= u32::MAX,
        per >= 256,
        k >= 1,
    ensures
        items_after(n, per, k) * 4 <= level_bytes(n, per, k) <= 0x400_0100,
        level_bytes(n, per, k) % 256 == 0,
{
    lemma_level_items_small(n, per, k);
    crate::common::math::lemma_round_up_bounds(items_after(n, per, k) as int * 4, 256);
}

pub proof fn lemma_scratch_prefix_bounds(n: nat, per: nat, k: nat)
    requires
        n <= u32::MAX,
        per >= 256,
    ensures
        0 <= scratch_prefix(n, per, k) <= k * 0x400_0100,
        scratch_prefix(n, per, k) % 256 == 0,
    decreases k,
{
    if k > 0 {
        lemma_scratch_prefix_bounds(n, per, (k - 1) as nat);
        lemma_level_bytes_bounds(n, per, k);
    }
}

/// Bytes of scratch the scan levels of `num_items` items occupy.
pub fn get_scratch_size(config: ScanConfig, num_items: u32) -> (r: u64)
    requires
        config.wf(),
    ensures
        r == scratch_size_spec(num_items as nat, config.items_per_block()),
{
    let per = config.vt * config.block_size;
    let ghost n = num_items as nat;
    let ghost p = per as nat;
    let mut size: u64 = 0;
    let mut current = num_items;
    let ghost mut k: nat = 0;
    if num_items <= 1 {
        return 0;
    }
    proof {
        lemma_hierarchy_passes_bound(n, p);
        lemma_hierarchy_reaches_one(n, p, 0);
        lemma_power_of_two_256();
    }
    while current > 1
        invariant
            p == per,
            per >= 256,
            n == num_items,
            n >= 2,
            k <= hierarchy_passes(n, p),
            hierarchy_passes(n, p) <= n,
            current == items_after(n, p, k),
            size == scratch_prefix(n, p, k),
            current > 1 <==> k < hierarchy_passes(n, p),
            is_power_of_two(256u64),
        decreases hierarchy_passes(n, p) - k,
    {
        proof {
            lemma_hierarchy_reaches_one(n, p, k + 1);
            lemma_level_items_small(n, p, k + 1);
            lemma_level_bytes_bounds(n, p, k + 1);
            lemma_scratch_prefix_bounds(n, p, k);
            assert(k * 0x400_0100 + 0x400_0100 <= 0x1_0000_0000 * 0x400_0100) by (nonlinear_arith)
                requires
                    k < n,
                    n <= u32::MAX,
            ;
            lemma_div_ceil(current as int, per as int);
        }
        let aux_count = div_ceil_u32(current, per);
        let raw_size = (aux_count * 4) as u64;
        let aligned = align_to(raw_size, 256);
        size = size + aligned;
        current = aux_count;
        proof {
            k = k + 1;
            if k < hierarchy_passes(n, p) {
                lemma_hierarchy_reaches_one(n, p, k);
            }
        }
    }
    size
}

/// Dispatches a scan of `num_items` items records: a scan and an add per level.
pub fn compute_pass_count(config: ScanConfig, num_items: u32) -> (r: u32)
    requires
        config.wf(),
    ensures
        r == 2 * scan_levels(num_items as nat, config.items_per_block()),
        r <= 64,
{
    let per = config.vt * config.block_size;
    let ghost n = num_items as nat;
    let ghost p = per as nat;
    if num_items <= 1 {
        return 0;
    }
    let mut levels: u32 = 0;
    let mut current = num_items;
    proof {
        lemma_hierarchy_passes_bound(n, p);
        lemma_hierarchy_reaches_one(n, p, 0);
        lemma_levels_at_most_four(n, p);
    }
    while current > 1
        invariant
            p == per,
            per >= 256,
            n == num_items,
            n >= 2,
            levels <= hierarchy_passes(n, p) <= 4,
            current == items_after(n, p, levels as nat),
            current > 1 <==> levels < hierarchy_passes(n, p),
        decreases hierarchy_passes(n, p) - levels,
    {
        proof {
            lemma_hierarchy_reaches_one(n, p, (levels + 1) as nat);
        }
        current = div_ceil_u32(current, per);
        levels = levels + 1;
        proof {
            if levels < hierarchy_passes(n, p) {
                lemma_hierarchy_reaches_one(n, p, levels as nat);
            }
        }
    }
    levels * 2
}

/// Thirty-two bit item counts need at most four scan levels of 256 or more items.
pub proof fn lemma_levels_at_most_four(n: nat, per: nat)
    requires
        2 <= n <= u32::MAX,
        per >= 256,
    ensures
        hierarchy_passes(n, per) <= 4,
{
    lemma_div_ceil(n as int, per as int);
    if n > per {
        let a = div_ceil(n as int, per as int);
        crate::common::dispatch::lemma_div_ceil_shrinks(n as int, per as int);
        assert(hierarchy_passes(n, per) == 1 + hierarchy_passes(a as nat, per));
        assert(a <= 0x100_0000) by (nonlinear_arith)
            requires
                a * per < n + per,
                n <= u32::MAX,
                per >= 256,
        ;
        lemma_div_ceil(a, per as int);
        if a > per {
            let b = div_ceil(a, per as int);
            crate::common::dispatch::lemma_div_ceil_shrinks(a, per as int);
            assert(hierarchy_passes(a as nat, per) == 1 + hierarchy_passes(b as nat, per));
            assert(b <= 0x1_0000) by (nonlinear_arith)
                requires
                    b * per < a + per,
                    a <= 0x100_0000,
                    per >= 256,
            ;
            lemma_div_ceil(b, per as int);
            if b > per {
                let c = div_ceil(b, per as int);
                crate::common::dispatch::lemma_div_ceil_shrinks(b, per as int);
                assert(hierarchy_passes(b as nat, per) == 1 + hierarchy_passes(c as nat, per));
                assert(c <= 256) by (nonlinear_arith)
                    requires
                        c * per < b + per,
                        b <= 0x1_0000,
                        per >= 256,
                ;
                assert(hierarchy_passes(c as nat, per) <= 1);
            } else {
                assert(hierarchy_passes(b as nat, per) <= 1);
            }
        } else {
            assert(hierarchy_passes(a as nat, per) <= 1);
        }
    }
}

/// The launch of one scan or add dispatch over `num_items` items.
#[derive(Clone, Copy, Debug, PartialEq, Eq, Structural)]
pub struct DispatchShape {
    pub workgroups: u32,
    /// Bytes of the data binding.
    pub data_bytes: u64,
    /// Bytes of the block-totals binding: one word per workgroup.
    pub auxiliary_bytes: u64,
    pub x: u32,
    pub y: u32,
}

/// The launch shape of a dispatch over `num_items > 0` items.
pub fn dispatch_shape(config: ScanConfig, num_items: u32) -> (r: DispatchShape)
    requires
        config.wf(),
        num_items > 0,
    ensures
        r.workgroups == div_ceil(num_items as int, config.items_per_block() as int),
        r.data_bytes == num_items * 4,
        r.auxiliary_bytes == r.workgroups * 4,
        r.x == (if r.workgroups <= MAX_WORKGROUPS_X {
            r.workgroups
        } else {
            MAX_WORKGROUPS_X
        }),
        r.y == div_ceil(r.workgroups as int, MAX_WORKGROUPS_X as int),
        r.x * r.y >= r.workgroups,
{
    let per = config.vt * config.block_size;
    let workgroups = div_ceil_u32(num_items, per);
    let (x, y) = split_dispatch(workgroups, MAX_WORKGROUPS_X);
    DispatchShape {
        workgroups,
        data_bytes: num_items as u64 * 4,
        auxiliary_bytes: workgroups as u64 * 4,
        x,
        y,
    }
}

} // verus!
