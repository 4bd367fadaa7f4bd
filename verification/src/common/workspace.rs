use vstd::prelude::*;

use vstd::arithmetic::power2::{lemma2_to64, lemma2_to64_rest, lemma_pow2_unfold, pow2};

use crate::common::math::{checked_align_to, is_power_of_two, round_up};
use crate::error::Error;

verus! {

/// Workspaces below this size grow to a power of two; larger ones to a multiple of it.
pub const WORKSPACE_GROWTH_BYTES: u64 = 16 * 1024 * 1024;

/// `p` is the smallest power of two that is at least `n`.
pub open spec fn is_next_power_of_two(p: int, n: int) -> bool {
    &&& exists|k: nat| k < 64 && p == pow2(k)
    &&& p >= n
    &&& (p == 1 || p < 2 * n)
}

/// The smallest power of two at least `n`, or `None` when it exceeds `u64`.
pub fn checked_next_power_of_two(n: u64) -> (r: Option<u64>)
    ensures
        match r {
            Some(p) => is_next_power_of_two(p as int, n as int),
            None => n > 0x8000_0000_0000_0000u64,
        },
{
    let mut p: u64 = 1;
    let ghost mut k: nat = 0;
    proof {
        lemma2_to64();
    }
    while p < n
        invariant
            k < 64,
            p == pow2(k),
            p >= 1,
            p == 1 || p < 2 * n,
            p <= 0x8000_0000_0000_0000u64,
            k == 63 ==> p == 0x8000_0000_0000_0000u64,
            k < 63 ==> p < 0x8000_0000_0000_0000u64,
        decreases 64 - k,
    {
        if p >= 0x8000_0000_0000_0000u64 {
            return None;
        }
        proof {
            lemma_pow2_unfold(k + 1);
            lemma2_to64();
            lemma2_to64_rest();
            if k + 1 < 63 {
                assert(pow2(k + 1) < pow2(63)) by {
                    vstd::arithmetic::power2::lemma_pow2_strictly_increases(k + 1, 63);
                }
            }
        }
        p = p * 2;
        proof {
            k = k + 1;
        }
    }
    Some(p)
}

/// Two minimal powers of two for the same bound are equal.
pub proof fn lemma_next_power_of_two_unique(p: int, q: int, n: int)
    requires
        is_next_power_of_two(p, n),
        is_next_power_of_two(q, n),
    ensures
        p == q,
{
    let a = choose|k: nat| k < 64 && p == pow2(k);
    let b = choose|k: nat| k < 64 && q == pow2(k);
    if a < b {
        lemma_pow2_double_at_least(a, b);
        vstd::arithmetic::power2::lemma_pow2_pos(a);
    } else if b < a {
        lemma_pow2_double_at_least(b, a);
        vstd::arithmetic::power2::lemma_pow2_pos(b);
    }
}

proof fn lemma_pow2_double_at_least(a: nat, b: nat)
    requires
        a < b,
    ensures
        pow2(b) >= 2 * pow2(a),
    decreases b - a,
{
    lemma_pow2_unfold(b);
    if a + 1 < b {
        lemma_pow2_double_at_least(a, (b - 1) as nat);
        vstd::arithmetic::power2::lemma_pow2_pos((b - 1) as nat);
    }
}

/// The allocation size [`workspace_capacity`] computes.
pub open spec fn workspace_capacity_spec(requested: u64, minimum: u64) -> Result<u64, Error> {
    if requested < WORKSPACE_GROWTH_BYTES {
        let m = if requested >= minimum {
            requested
        } else {
            minimum
        };
        if m > 0x8000_0000_0000_0000u64 {
            Err(Error::SizeOverflow)
        } else {
            Ok(choose|c: u64| is_next_power_of_two(c as int, m as int))
        }
    } else if requested + WORKSPACE_GROWTH_BYTES - 1 > u64::MAX {
        Err(Error::SizeOverflow)
    } else {
        Ok(round_up(requested as int, WORKSPACE_GROWTH_BYTES as int) as u64)
    }
}

/// The allocation size for a workspace that must hold `requested` bytes.
///
/// Small requests round up to a power of two no smaller than `minimum`;
/// requests of at least [`WORKSPACE_GROWTH_BYTES`] round up to a multiple of it.
pub fn workspace_capacity(requested: u64, minimum: u64) -> (r: Result<u64, Error>)
    ensures
        requested < WORKSPACE_GROWTH_BYTES ==> {
            let m = if requested >= minimum {
                requested
            } else {
                minimum
            };
            match r {
                Ok(c) => is_next_power_of_two(c as int, m as int),
                Err(e) => m > 0x8000_0000_0000_0000u64 && e == Error::SizeOverflow,
            }
        },
        requested >= WORKSPACE_GROWTH_BYTES ==> match r {
            Ok(c) => requested + WORKSPACE_GROWTH_BYTES - 1 <= u64::MAX && c == round_up(
                requested as int,
                WORKSPACE_GROWTH_BYTES as int,
            ),
            Err(e) => requested + WORKSPACE_GROWTH_BYTES - 1 > u64::MAX && e == Error::SizeOverflow,
        },
        r == workspace_capacity_spec(requested, minimum),
        r is Ok ==> r->Ok_0 >= requested && r->Ok_0 >= (if requested < WORKSPACE_GROWTH_BYTES {
            minimum
        } else {
            0
        }),
{
    if requested < WORKSPACE_GROWTH_BYTES {
        let m = if requested >= minimum {
            requested
        } else {
            minimum
        };
        match checked_next_power_of_two(m) {
            Some(c) => {
                proof {
                    let d = choose|c: u64| is_next_power_of_two(c as int, m as int);
                    assert(is_next_power_of_two(c as int, m as int));
                    let k = choose|k: nat| k < 64 && c == pow2(k);
                    lemma2_to64_rest();
                    if k < 63 {
                        vstd::arithmetic::power2::lemma_pow2_strictly_increases(k, 63);
                    }
                    assert(m <= 0x8000_0000_0000_0000u64);
                    assert(is_next_power_of_two(d as int, m as int));
                    lemma_next_power_of_two_unique(c as int, d as int, m as int);
                    assert(workspace_capacity_spec(requested, minimum) == Ok::<u64, Error>(d));
                }
                Ok(c)
            },
            None => Err(Error::SizeOverflow),
        }
    } else {
        proof {
            lemma2_to64();
            assert(is_power_of_two(WORKSPACE_GROWTH_BYTES)) by {
                assert(WORKSPACE_GROWTH_BYTES == pow2(24));
            }
            crate::common::math::lemma_round_up_bounds(requested as int, WORKSPACE_GROWTH_BYTES as int);
        }
        let r = checked_align_to(requested, WORKSPACE_GROWTH_BYTES);
        assert(r == workspace_capacity_spec(requested, minimum));
        r
    }
}

/// The allocation state of a lazily created, growable GPU buffer.
///
/// The buffer is created on first use and recreated with exactly the
/// requested size whenever a request exceeds its capacity.
#[derive(Clone, Copy, Debug, PartialEq, Eq, Structural)]
pub struct ReusableBuffer {
    pub allocated: bool,
    pub capacity_bytes: u64,
}

impl ReusableBuffer {
    /// No buffer yet.
    pub fn new() -> (r: ReusableBuffer)
        ensures
            !r.allocated,
            r.capacity_bytes == 0,
    {
        ReusableBuffer { allocated: false, capacity_bytes: 0 }
    }

    /// A request for `bytes` recreates the buffer: it is missing or smaller.
    pub open spec fn needs_growth(self, bytes: u64) -> bool {
        !self.allocated || bytes > self.capacity_bytes
    }

    /// The buffer after a request for `bytes`.
    pub open spec fn after_ensure(self, bytes: u64) -> ReusableBuffer {
        if self.needs_growth(bytes) {
            ReusableBuffer { allocated: true, capacity_bytes: bytes }
        } else {
            self
        }
    }

    /// Grows the buffer to `required_bytes` when needed; returns whether a new
    /// buffer of `required_bytes` must be created.
    pub fn ensure(&mut self, required_bytes: u64) -> (reallocate: bool)
        ensures
            *final(self) == old(self).after_ensure(required_bytes),
            reallocate == (!old(self).allocated || required_bytes > old(self).capacity_bytes),
            final(self).allocated,
            final(self).capacity_bytes == if reallocate {
                required_bytes
            } else {
                old(self).capacity_bytes
            },
            final(self).capacity_bytes >= required_bytes,
    {
        if !self.allocated || required_bytes > self.capacity_bytes {
            self.allocated = true;
            self.capacity_bytes = required_bytes;
            true
        } else {
            false
        }
    }
}

} // verus!
