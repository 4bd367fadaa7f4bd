pub mod counted;
pub mod pipeline;
pub mod reducer;

use vstd::prelude::*;

use vstd::arithmetic::div_mod::{lemma_add_mod_noop, lemma_add_mod_noop_right, lemma_small_mod};

verus! {

/// An associative reduction over unsigned 32-bit values.
#[derive(Clone, Copy, Debug, PartialEq, Eq, Structural)]
pub enum U32Reduction {
    /// Wrapping unsigned addition.
    Sum,
    /// The smallest input value.
    Min,
    /// The largest input value.
    Max,
}

/// Combines two partial results of a reduction.
pub open spec fn combine(op: U32Reduction, a: u32, b: u32) -> u32 {
    match op {
        U32Reduction::Sum => ((a + b) % 0x1_0000_0000) as u32,
        U32Reduction::Min => if a <= b {
            a
        } else {
            b
        },
        U32Reduction::Max => if a >= b {
            a
        } else {
            b
        },
    }
}

pub open spec fn identity_spec(op: U32Reduction) -> u32 {
    match op {
        U32Reduction::Sum | U32Reduction::Max => 0,
        U32Reduction::Min => u32::MAX,
    }
}

impl U32Reduction {
    /// Returns the result of reducing an empty input.
    pub fn identity(self) -> (r: u32)
        ensures
            r == identity_spec(self),
    {
        match self {
            U32Reduction::Sum | U32Reduction::Max => 0,
            U32Reduction::Min => u32::MAX,
        }
    }

    /// The operation's short name, used in kernel and profile labels.
    pub fn name(self) -> (r: &'static str)
        ensures
            r@ == (match self {
                U32Reduction::Sum => "sum"@,
                U32Reduction::Min => "min"@,
                U32Reduction::Max => "max"@,
            }),
    {
        match self {
            U32Reduction::Sum => "sum",
            U32Reduction::Min => "min",
            U32Reduction::Max => "max",
        }
    }

    /// The label of the operation's compute passes.
    pub fn pass_label(self) -> (r: &'static str)
        ensures
            r@ == (match self {
                U32Reduction::Sum => "Sum Reduction"@,
                U32Reduction::Min => "Minimum Reduction"@,
                U32Reduction::Max => "Maximum Reduction"@,
            }),
    {
        match self {
            U32Reduction::Sum => "Sum Reduction",
            U32Reduction::Min => "Minimum Reduction",
            U32Reduction::Max => "Maximum Reduction",
        }
    }

    /// The byte offset of this operation's identity in the `[0, u32::MAX, 0]`
    /// identity table.
    pub fn identity_offset(self) -> (r: u64)
        ensures
            r == (match self {
                U32Reduction::Sum => 0u64,
                U32Reduction::Min => 4u64,
                U32Reduction::Max => 8u64,
            }),
    {
        match self {
            U32Reduction::Sum => 0,
            U32Reduction::Min => 4,
            U32Reduction::Max => 8,
        }
    }
}

/// Reduction law: every operation is associative and commutative, and its
/// identity leaves any value unchanged, so a reduction may combine partial
/// results in any grouping and an empty input reduces to the identity.
pub proof fn lemma_reduction_laws(op: U32Reduction, a: u32, b: u32, c: u32)
    ensures
        combine(op, identity_spec(op), a) == a,
        combine(op, a, identity_spec(op)) == a,
        combine(op, a, b) == combine(op, b, a),
        combine(op, combine(op, a, b), c) == combine(op, a, combine(op, b, c)),
{
    let m: int = 0x1_0000_0000;
    if op == U32Reduction::Sum {
        lemma_small_mod(a as nat, m as nat);
        lemma_add_mod_noop(a + b, c as int, m);
        lemma_add_mod_noop_right(a as int, b + c, m);
        lemma_small_mod(c as nat, m as nat);
        lemma_small_mod(a as nat, m as nat);
        assert(combine(op, combine(op, a, b), c) == ((a + b) % m + c) % m);
        assert(((a + b) % m + c) % m == ((a + b) % m + (c as int) % m) % m);
        assert(((a + b) % m + (c as int) % m) % m == (a + b + c) % m);
        assert((a + (b + c) % m) % m == (a + (b + c)) % m);
    }
}

} // verus!
