use vstd::prelude::*;

use crate::common::math::{div_ceil, div_ceil_u32, lemma_div_ceil};

verus! {

/// The largest workgroup count the portable kernels dispatch along x.
pub const MAX_WORKGROUPS_X: u32 = 65_535;

/// Splits `workgroups` into an `(x, y)` grid with at most `max_x` columns.
pub fn split_dispatch(workgroups: u32, max_x: u32) -> (r: (u32, u32))
    requires
        max_x > 0,
    ensures
        r.0 == (if workgroups <= max_x {
            workgroups
        } else {
            max_x
        }),
        r.1 == div_ceil(workgroups as int, max_x as int),
        r.0 <= max_x,
        r.0 * r.1 >= workgroups,
        workgroups > 0 ==> (r.1 - 1) * max_x < workgroups,
{
    let x = if workgroups <= max_x {
        workgroups
    } else {
        max_x
    };
    let y = div_ceil_u32(workgroups, max_x);
    proof {
        lemma_div_ceil(workgroups as int, max_x as int);
        let w = workgroups as int;
        let m = max_x as int;
        let q = w / m;
        assert(w == m * q + w % m) by (nonlinear_arith)
            requires
                m > 0,
                q == w / m,
        ;
        if workgroups <= max_x {
            if w > 0 {
                assert(y == 1);
            } else {
                assert(y == 0);
            }
        } else {
            assert(x * y >= w) by (nonlinear_arith)
                requires
                    x == m,
                    y * m >= w,
            ;
        }
        if w > 0 {
            assert((y - 1) * m < w) by (nonlinear_arith)
                requires
                    w == m * q + w % m,
                    0 <= w % m < m,
                    y == q + (if w % m == 0 { 0int } else { 1int }),
                    w > 0,
                    m > 0,
            ;
        }
    }
    (x, y)
}

/// Which buffer one level of a hierarchical reduction writes.
#[derive(Clone, Copy, Debug, PartialEq, Eq, Structural)]
pub enum LevelTarget {
    /// The caller's output.
    Output,
    /// The first scratch buffer.
    ScratchA,
    /// The second scratch buffer.
    ScratchB,
}

/// One level of a hierarchical reduction: it reads `input_items` values
/// and writes `output_items` partial results to `target`.
#[derive(Clone, Copy, Debug, PartialEq, Eq, Structural)]
pub struct HierarchyLevel {
    pub input_items: u32,
    pub output_items: u32,
    pub target: LevelTarget,
}

/// The item count after `k` levels that each combine `per_block` items.
pub open spec fn items_after(items: nat, per_block: nat, k: nat) -> nat
    decreases k,
{
    if k == 0 {
        items
    } else {
        div_ceil(items_after(items, per_block, (k - 1) as nat) as int, per_block as int) as nat
    }
}

/// The number of levels that reduce `items` values to one.
pub open spec fn hierarchy_passes(items: nat, per_block: nat) -> nat
    decreases items,
{
    if items == 0 || per_block < 2 {
        0
    } else if items <= per_block {
        1
    } else {
        proof {
            lemma_div_ceil_shrinks(items as int, per_block as int);
        }
        1 + hierarchy_passes(div_ceil(items as int, per_block as int) as nat, per_block)
    }
}

/// Level `i`'s target: the last level writes the output, the others alternate scratch buffers.
pub open spec fn level_target(i: nat, passes: nat) -> LevelTarget {
    if i + 1 == passes {
        LevelTarget::Output
    } else if i % 2 == 0 {
        LevelTarget::ScratchA
    } else {
        LevelTarget::ScratchB
    }
}

/// The levels that reduce `items` values to one result.
pub open spec fn hierarchy_spec(items: nat, per_block: nat) -> Seq<HierarchyLevel> {
    let passes = hierarchy_passes(items, per_block);
    Seq::new(
        passes,
        |i: int|
            HierarchyLevel {
                input_items: items_after(items, per_block, i as nat) as u32,
                output_items: items_after(items, per_block, (i + 1) as nat) as u32,
                target: level_target(i as nat, passes),
            },
    )
}

pub proof fn lemma_div_ceil_shrinks(n: int, per: int)
    requires
        n > per,
        per >= 2,
    ensures
        2 <= div_ceil(n, per) < n,
{
    lemma_div_ceil(n, per);
    let q = n / per;
    assert(q >= 1 && q < n) by (nonlinear_arith)
        requires
            n > per,
            per >= 2,
            q == n / per,
    ;
    if n % per == 0 {
        assert(q >= 2) by (nonlinear_arith)
            requires
                n > per,
                per >= 2,
                q == n / per,
                n % per == 0,
        ;
    } else {
        assert(q + 1 < n) by (nonlinear_arith)
            requires
                n > per,
                per >= 2,
                q == n / per,
        ;
    }
}

pub proof fn lemma_items_after_shift(items: nat, per: nat, k: nat)
    ensures
        items_after(div_ceil(items as int, per as int) as nat, per, k) == items_after(
            items,
            per,
            k + 1,
        ),
    decreases k,
{
    let d = div_ceil(items as int, per as int) as nat;
    assert(items_after(items, per, 0) == items);
    if k > 0 {
        lemma_items_after_shift(items, per, (k - 1) as nat);
        assert(items_after(d, per, k) == div_ceil(
            items_after(d, per, (k - 1) as nat) as int,
            per as int,
        ) as nat);
        assert(items_after(items, per, k + 1) == div_ceil(
            items_after(items, per, k) as int,
            per as int,
        ) as nat);
    } else {
        assert(items_after(d, per, 0) == d);
        assert(items_after(items, per, 1) == div_ceil(
            items_after(items, per, 0) as int,
            per as int,
        ) as nat);
    }
}

/// The item count never grows from one level to the next.
pub proof fn lemma_items_after_monotone(items: nat, per: nat, j: nat, k: nat)
    requires
        per >= 1,
        j <= k,
    ensures
        items_after(items, per, k) <= items_after(items, per, j),
    decreases k - j,
{
    if j < k {
        lemma_items_after_monotone(items, per, j, (k - 1) as nat);
        let x = items_after(items, per, (k - 1) as nat);
        lemma_div_ceil(x as int, per as int);
        assert(items_after(items, per, k) == div_ceil(x as int, per as int) as nat);
    }
}

/// After `hierarchy_passes` levels one item remains; before that more than one.
pub proof fn lemma_hierarchy_reaches_one(items: nat, per: nat, k: nat)
    requires
        items >= 1,
        per >= 2,
        k <= hierarchy_passes(items, per),
    ensures
        hierarchy_passes(items, per) >= 1,
        k == hierarchy_passes(items, per) ==> items_after(items, per, k) == 1,
        1 <= k < hierarchy_passes(items, per) ==> items_after(items, per, k) >= 2,
        items_after(items, per, k) >= 1,
    decreases items,
{
    lemma_div_ceil(items as int, per as int);
    if items <= per {
        assert(items_after(items, per, 0) == items);
        assert(items_after(items, per, 1) == div_ceil(
            items_after(items, per, 0) as int,
            per as int,
        ) as nat);
    } else {
        let next = div_ceil(items as int, per as int) as nat;
        lemma_div_ceil_shrinks(items as int, per as int);
        if k >= 1 {
            lemma_hierarchy_reaches_one(next, per, (k - 1) as nat);
            lemma_items_after_shift(items, per, (k - 1) as nat);
        }
    }
}

pub proof fn lemma_hierarchy_passes_bound(items: nat, per: nat)
    ensures
        hierarchy_passes(items, per) <= items,
    decreases items,
{
    if items > per && per >= 2 {
        lemma_div_ceil_shrinks(items as int, per as int);
        lemma_hierarchy_passes_bound(div_ceil(items as int, per as int) as nat, per);
    }
}

/// Counts the levels that reduce `items` values to one.
pub fn hierarchy_pass_count(items: u32, per_block: u32) -> (r: u32)
    requires
        per_block >= 2,
    ensures
        r == hierarchy_passes(items as nat, per_block as nat),
{
    if items == 0 {
        return 0;
    }
    let mut passes: u32 = 0;
    let mut current = items;
    proof {
        lemma_hierarchy_passes_bound(items as nat, per_block as nat);
    }
    loop
        invariant
            per_block >= 2,
            current >= 1,
            passes + hierarchy_passes(current as nat, per_block as nat) == hierarchy_passes(
                items as nat,
                per_block as nat,
            ),
            hierarchy_passes(items as nat, per_block as nat) <= items,
        decreases current,
    {
        proof {
            lemma_div_ceil(current as int, per_block as int);
            if current > per_block {
                lemma_div_ceil_shrinks(current as int, per_block as int);
            }
        }
        passes = passes + 1;
        current = div_ceil_u32(current, per_block);
        if current == 1 {
            return passes;
        }
    }
}

/// The levels that reduce `items` values to one result, each combining
/// `per_block` inputs into one partial value.
///
/// The last level writes the caller's output and earlier levels alternate
/// between two scratch buffers, starting with the first.
pub fn hierarchy_levels(items: u32, per_block: u32) -> (r: Vec<HierarchyLevel>)
    requires
        per_block >= 2,
    ensures
        r@ == hierarchy_spec(items as nat, per_block as nat),
{
    let passes = hierarchy_pass_count(items, per_block);
    let mut levels: Vec<HierarchyLevel> = Vec::new();
    if items == 0 {
        assert(levels@ =~= hierarchy_spec(items as nat, per_block as nat));
        return levels;
    }
    let ghost spec = hierarchy_spec(items as nat, per_block as nat);
    let mut current = items;
    let mut i: u32 = 0;
    proof {
        lemma_hierarchy_reaches_one(items as nat, per_block as nat, 0);
    }
    while i < passes
        invariant
            per_block >= 2,
            items >= 1,
            passes == hierarchy_passes(items as nat, per_block as nat),
            spec == hierarchy_spec(items as nat, per_block as nat),
            i <= passes,
            current == items_after(items as nat, per_block as nat, i as nat),
            levels@ =~= spec.take(i as int),
        decreases passes - i,
    {
        proof {
            lemma_hierarchy_reaches_one(items as nat, per_block as nat, i as nat);
            lemma_hierarchy_reaches_one(items as nat, per_block as nat, (i + 1) as nat);
            lemma_items_after_monotone(items as nat, per_block as nat, 0, (i + 1) as nat);
            lemma_div_ceil(current as int, per_block as int);
        }
        let next = div_ceil_u32(current, per_block);
        let target = if i + 1 == passes {
            LevelTarget::Output
        } else if i % 2 == 0 {
            LevelTarget::ScratchA
        } else {
            LevelTarget::ScratchB
        };
        levels.push(HierarchyLevel { input_items: current, output_items: next, target });
        current = next;
        i = i + 1;
    }
    assert(spec.take(passes as int) =~= spec);
    levels
}

/// Scratch capacities, in items, for the two scratch buffers of a hierarchy:
/// the first and second level outputs, or zero when that buffer is unused.
pub fn hierarchy_scratch(items: u32, per_block: u32) -> (r: (u32, u32))
    requires
        per_block >= 2,
    ensures
        r.0 == (if items_after(items as nat, per_block as nat, 1) > 1 {
            items_after(items as nat, per_block as nat, 1)
        } else {
            0
        }),
        r.1 == (if items_after(items as nat, per_block as nat, 1) > 1 && items_after(
            items as nat,
            per_block as nat,
            2,
        ) > 1 {
            items_after(items as nat, per_block as nat, 2)
        } else {
            0
        }),
{
    proof {
        lemma_items_after_monotone(items as nat, per_block as nat, 0, 1);
        lemma_items_after_monotone(items as nat, per_block as nat, 1, 2);
    }
    let first = div_ceil_u32(items, per_block);
    if first <= 1 {
        return (0, 0);
    }
    let second = div_ceil_u32(first, per_block);
    if second <= 1 {
        (first, 0)
    } else {
        (first, second)
    }
}

/// Hierarchy law: the final level writes the caller's output, every later level
/// reads what the previous level wrote, no level reads the buffer it writes,
/// and every scratch level fits in the scratch capacity that
/// [`hierarchy_scratch`] reserves.
pub proof fn lemma_hierarchy_routing(items: u32, per_block: u32)
    requires
        per_block >= 2,
        items >= 1,
    ensures
        ({
            let levels = hierarchy_spec(items as nat, per_block as nat);
            let a = if items_after(items as nat, per_block as nat, 1) > 1 {
                items_after(items as nat, per_block as nat, 1)
            } else {
                0
            };
            let b = if items_after(items as nat, per_block as nat, 1) > 1 && items_after(
                items as nat,
                per_block as nat,
                2,
            ) > 1 {
                items_after(items as nat, per_block as nat, 2)
            } else {
                0
            };
            &&& levels.len() >= 1
            &&& levels[0].input_items == items
            &&& levels.last().target == LevelTarget::Output
            &&& levels.last().output_items == 1
            &&& forall|i: int|
                0 <= i < levels.len() - 1 ==> levels[i].target != LevelTarget::Output
            &&& forall|i: int|
                1 <= i < levels.len() ==> #[trigger] levels[i].input_items == levels[i
                    - 1].output_items && levels[i].target != levels[i - 1].target
            &&& forall|i: int|
                0 <= i < levels.len() && #[trigger] levels[i].target == LevelTarget::ScratchA
                    ==> levels[i].output_items <= a
            &&& forall|i: int|
                0 <= i < levels.len() && #[trigger] levels[i].target == LevelTarget::ScratchB
                    ==> levels[i].output_items <= b
        }),
{
    let n = items as nat;
    let per = per_block as nat;
    let passes = hierarchy_passes(n, per);
    let levels = hierarchy_spec(n, per);
    lemma_hierarchy_reaches_one(n, per, 0);
    lemma_hierarchy_reaches_one(n, per, passes);
    lemma_hierarchy_passes_bound(n, per);
    assert forall|i: int| 0 <= i < levels.len() && #[trigger] levels[i].target == LevelTarget::ScratchA implies levels[i].output_items
        <= (if items_after(n, per, 1) > 1 {
        items_after(n, per, 1)
    } else {
        0
    }) by {
        lemma_items_after_monotone(n, per, 1, (i + 1) as nat);
        lemma_items_after_monotone(n, per, 0, (i + 1) as nat);
        lemma_hierarchy_reaches_one(n, per, 1);
        assert(i + 1 < passes);
    }
    assert forall|i: int| 0 <= i < levels.len() && #[trigger] levels[i].target == LevelTarget::ScratchB implies levels[i].output_items
        <= (if items_after(n, per, 1) > 1 && items_after(n, per, 2) > 1 {
        items_after(n, per, 2)
    } else {
        0
    }) by {
        assert(i % 2 == 1);
        assert(i >= 1);
        lemma_items_after_monotone(n, per, 2, (i + 1) as nat);
        lemma_items_after_monotone(n, per, 0, (i + 1) as nat);
        lemma_hierarchy_reaches_one(n, per, 1);
        lemma_hierarchy_reaches_one(n, per, 2);
    }
    assert forall|i: int| 1 <= i < levels.len() implies #[trigger] levels[i].input_items
        == levels[i - 1].output_items && levels[i].target != levels[i - 1].target by {
        assert(levels[i - 1].target != LevelTarget::Output);
        if levels[i].target != LevelTarget::Output {
            assert(i % 2 != (i - 1) % 2);
        }
    }
    assert(levels.last() == levels[passes - 1]);
    lemma_items_after_monotone(n, per, 0, passes);
}

} // verus!
