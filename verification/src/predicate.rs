pub mod generator;
pub mod pipeline;

use vstd::prelude::*;

verus! {

/// A comparison of each `u32` against constants, producing a `0`/`1` mask.
#[derive(Clone, Copy, Debug, PartialEq, Eq, Structural)]
pub enum U32Predicate {
    Equal(u32),
    NotEqual(u32),
    LessThan(u32),
    LessThanOrEqual(u32),
    GreaterThan(u32),
    GreaterThanOrEqual(u32),
    /// `min <= value <= max`.
    BetweenInclusive { min: u32, max: u32 },
}

/// Which field of a key-value record a predicate reads.
#[derive(Clone, Copy, Debug, PartialEq, Eq, Structural)]
pub enum KeyValueField {
    Key,
    Value,
}

impl U32Predicate {
    pub open spec fn encode_spec(self) -> (u32, u32, u32) {
        match self {
            U32Predicate::Equal(v) => (0, v, 0),
            U32Predicate::NotEqual(v) => (1, v, 0),
            U32Predicate::LessThan(v) => (2, v, 0),
            U32Predicate::LessThanOrEqual(v) => (3, v, 0),
            U32Predicate::GreaterThan(v) => (4, v, 0),
            U32Predicate::GreaterThanOrEqual(v) => (5, v, 0),
            U32Predicate::BetweenInclusive { min, max } => (6, min, max),
        }
    }

    /// What the kernel's `(operation, lower, upper)` words mean.
    pub open spec fn decode(words: (u32, u32, u32)) -> Option<U32Predicate> {
        let (op, lower, upper) = words;
        if op == 0 && upper == 0 {
            Some(U32Predicate::Equal(lower))
        } else if op == 1 && upper == 0 {
            Some(U32Predicate::NotEqual(lower))
        } else if op == 2 && upper == 0 {
            Some(U32Predicate::LessThan(lower))
        } else if op == 3 && upper == 0 {
            Some(U32Predicate::LessThanOrEqual(lower))
        } else if op == 4 && upper == 0 {
            Some(U32Predicate::GreaterThan(lower))
        } else if op == 5 && upper == 0 {
            Some(U32Predicate::GreaterThanOrEqual(lower))
        } else if op == 6 {
            Some(U32Predicate::BetweenInclusive { min: lower, max: upper })
        } else {
            None
        }
    }

    /// The `(operation, lower, upper)` words the kernel evaluates.
    pub fn encode(self) -> (r: (u32, u32, u32))
        ensures
            r == self.encode_spec(),
    {
        match self {
            U32Predicate::Equal(v) => (0, v, 0),
            U32Predicate::NotEqual(v) => (1, v, 0),
            U32Predicate::LessThan(v) => (2, v, 0),
            U32Predicate::LessThanOrEqual(v) => (3, v, 0),
            U32Predicate::GreaterThan(v) => (4, v, 0),
            U32Predicate::GreaterThanOrEqual(v) => (5, v, 0),
            U32Predicate::BetweenInclusive { min, max } => (6, min, max),
        }
    }
}

/// Encoding law: the kernel words determine the predicate, so two different
/// predicates never reach the kernel as the same words.
pub proof fn lemma_encode_round_trip(p: U32Predicate, q: U32Predicate)
    ensures
        U32Predicate::decode(p.encode_spec()) == Some(p),
        p.encode_spec() == q.encode_spec() ==> p == q,
        p.encode_spec().0 <= 6,
{
    assert(U32Predicate::decode(q.encode_spec()) == Some(q));
}

impl KeyValueField {
    pub open spec fn encode_spec(self) -> u32 {
        match self {
            KeyValueField::Key => 0,
            KeyValueField::Value => 1,
        }
    }

    /// The field word the kernel reads.
    pub fn encode(self) -> (r: u32)
        ensures
            r == self.encode_spec(),
    {
        match self {
            KeyValueField::Key => 0,
            KeyValueField::Value => 1,
        }
    }
}

} // verus!
