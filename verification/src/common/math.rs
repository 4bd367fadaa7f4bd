use vstd::prelude::*;

use vstd::arithmetic::power2::{lemma_pow2_pos, pow2};
use vstd::bits::{lemma_u64_low_bits_mask_is_mod, low_bits_mask};

use crate::error::Error;

verus! {

/// `a / b` rounded up, for `b > 0`.
pub open spec fn div_ceil(a: int, b: int) -> int {
    (a + b - 1) / b
}

/// The smallest multiple of `alignment` that is at least `value`.
pub open spec fn round_up(value: int, alignment: int) -> int {
    div_ceil(value, alignment) * alignment
}

/// A power of two that fits in `u64`.
pub open spec fn is_power_of_two(n: u64) -> bool {
    exists|k: nat| k < 64 && n == pow2(k)
}


/// `div_ceil` in terms of truncating division.
pub proof fn lemma_div_ceil(a: int, b: int)
    requires
        a >= 0,
        b > 0,
    ensures
        div_ceil(a, b) == a / b + (if a % b == 0 { 0int } else { 1int }),
        div_ceil(a, b) <= a,
        div_ceil(a, b) >= 0,
        a > 0 ==> div_ceil(a, b) >= 1,
        div_ceil(a, b) * b >= a,
        div_ceil(a, b) * b < a + b,
        a <= b ==> div_ceil(a, b) <= 1,
{
    let q = a / b;
    let r = a % b;
    assert(a == b * q + r && 0 <= r < b) by (nonlinear_arith)
        requires
            b > 0,
            q == a / b,
            r == a % b,
    ;
    assert(q >= 0) by (nonlinear_arith)
        requires
            a >= 0,
            b > 0,
            q == a / b,
    ;
    if r == 0 {
        assert((a + b - 1) / b == q) by (nonlinear_arith)
            requires
                a == b * q,
                b > 0,
        ;
    } else {
        assert((a + b - 1) / b == q + 1) by (nonlinear_arith)
            requires
                a == b * q + r,
                0 < r < b,
        ;
    }
    assert(q <= a) by (nonlinear_arith)
        requires
            a == b * q + r,
            q >= 0,
            r >= 0,
            b >= 1,
    ;
    if r != 0 && b == 1 {
        assert(false);
    }
    if r != 0 && b > 1 {
        assert(q + 1 <= a) by (nonlinear_arith)
            requires
                a == b * q + r,
                q >= 0,
                r >= 1,
                b >= 2,
        ;
    }
    assert(div_ceil(a, b) * b >= a && div_ceil(a, b) * b < a + b) by (nonlinear_arith)
        requires
            a == b * q + r,
            0 <= r < b,
            div_ceil(a, b) == q + (if r == 0 { 0int } else { 1int }),
    ;
    if a == 0 {
        assert(q == 0 && r == 0) by (nonlinear_arith)
            requires
                a == 0,
                b > 0,
                q == a / b,
                r == a % b,
        ;
    }
    if a > 0 && r == 0 {
        assert(q >= 1) by (nonlinear_arith)
            requires
                a == b * q,
                a > 0,
                b > 0,
        ;
    }
    if a <= b {
        assert(q <= 1) by (nonlinear_arith)
            requires
                a == b * q + r,
                a <= b,
                r >= 0,
                q >= 0,
                b > 0,
        ;
        if q == 1 {
            assert(r == 0) by (nonlinear_arith)
                requires
                    a == b * q + r,
                    a <= b,
                    r >= 0,
                    q == 1,
            ;
        }
    }
}

proof fn lemma_mask_rounds_down(x: u64, a: u64)
    requires
        is_power_of_two(a),
    ensures
        x & !((a - 1) as u64) == x - x % a,
{
    let k = choose|k: nat| k < 64 && a == pow2(k);
    lemma_pow2_pos(k);
    lemma_u64_low_bits_mask_is_mod(x, k);
    let m = (a - 1) as u64;
    assert(m == low_bits_mask(k) as u64);
    assert(x & !m == x - (x & m)) by (bit_vector);
}

proof fn lemma_round_up_is_round_down(v: int, a: int)
    requires
        a > 0,
        v >= 0,
    ensures
        round_up(v, a) == (v + a - 1) - (v + a - 1) % a,
        v <= round_up(v, a) < v + a,
        round_up(v, a) % a == 0,
{
    let s = v + a - 1;
    assert(s == a * (s / a) + s % a) by (nonlinear_arith)
        requires
            a > 0,
    ;
    assert(0 <= s % a < a);
    assert((a * (s / a)) % a == 0) by (nonlinear_arith)
        requires
            a > 0,
    ;
    assert(a * (s / a) == (s / a) * a) by (nonlinear_arith);
}

/// A grid of `min(w, m)` workgroups across and `ceil(w / m)` down stays
/// within `m` across and holds at least `w` workgroups.
pub proof fn lemma_grid_covers(w: int, m: int, g0: int, g1: int)
    requires
        w >= 0,
        m > 0,
        g0 == (if w <= m { w } else { m }),
        g1 == div_ceil(w, m),
    ensures
        g0 <= m,
        g0 * g1 >= w,
{
    lemma_div_ceil(w, m);
    if w <= m && w > 0 {
        assert(g0 * g1 >= w) by (nonlinear_arith)
            requires
                g0 == w,
                g1 >= 1,
                w > 0,
        ;
    }
}

/// `div_ceil` never decreases as its numerator grows.
pub proof fn lemma_div_ceil_monotone(a: int, b: int, d: int)
    requires
        0 <= a <= b,
        d > 0,
    ensures
        div_ceil(a, d) <= div_ceil(b, d),
{
    vstd::arithmetic::div_mod::lemma_div_is_ordered(a + d - 1, b + d - 1, d);
}

/// `n` whole items of `size` bytes fit in `capacity` bytes exactly when
/// `n` is at most `capacity / size`.
pub proof fn lemma_items_in_capacity(n: int, size: int, capacity: int)
    requires
        n >= 0,
        size > 0,
        capacity >= 0,
        n * size <= capacity,
    ensures
        n <= capacity / size,
{
    let q = capacity / size;
    let r = capacity % size;
    assert(capacity == size * q + r && 0 <= r < size) by (nonlinear_arith)
        requires
            size > 0,
            q == capacity / size,
            r == capacity % size,
    ;
    assert(n <= q) by (nonlinear_arith)
        requires
            n * size <= size * q + r,
            r < size,
            size > 0,
            n >= 0,
    ;
}

/// Rounds `value` up to a multiple of `alignment`.
///
/// The result is the bit formula `(value + alignment - 1) & !(alignment - 1)`,
/// which for a power-of-two alignment is the smallest multiple of
/// `alignment` that is at least `value`.
pub fn align_to(value: u64, alignment: u64) -> (r: u64)
    requires
        alignment > 0,
        value + alignment - 1 <= u64::MAX,
    ensures
        r == ((value + alignment - 1) as u64) & !((alignment - 1) as u64),
        is_power_of_two(alignment) ==> r == round_up(value as int, alignment as int),
{
    let r = (value + (alignment - 1)) & !(alignment - 1);
    proof {
        if is_power_of_two(alignment) {
            lemma_mask_rounds_down((value + alignment - 1) as u64, alignment);
            lemma_round_up_is_round_down(value as int, alignment as int);
        }
    }
    r
}

/// Like [`align_to`], reporting a size overflow instead of wrapping.
pub fn checked_align_to(value: u64, alignment: u64) -> (r: Result<u64, Error>)
    requires
        alignment > 0,
    ensures
        match r {
            Ok(v) => value + alignment - 1 <= u64::MAX
                && v == ((value + alignment - 1) as u64) & !((alignment - 1) as u64)
                && (is_power_of_two(alignment) ==> v == round_up(value as int, alignment as int)),
            Err(e) => value + alignment - 1 > u64::MAX && e == Error::SizeOverflow,
        },
{
    match value.checked_add(alignment - 1) {
        Some(_) => Ok(align_to(value, alignment)),
        None => Err(Error::SizeOverflow),
    }
}

/// `a / b` rounded up.
pub fn div_ceil_u32(a: u32, b: u32) -> (r: u32)
    requires
        b > 0,
    ensures
        r == div_ceil(a as int, b as int),
{
    proof {
        lemma_div_ceil(a as int, b as int);
    }
    let q = a / b;
    if a % b == 0 {
        q
    } else {
        q + 1
    }
}

/// `a / b` rounded up.
pub fn div_ceil_u64(a: u64, b: u64) -> (r: u64)
    requires
        b > 0,
    ensures
        r == div_ceil(a as int, b as int),
{
    proof {
        lemma_div_ceil(a as int, b as int);
    }
    let q = a / b;
    if a % b == 0 {
        q
    } else {
        q + 1
    }
}

/// Calculates how many workgroups of `block_size` items cover `total_items`.
pub fn calc_groups(total_items: u32, block_size: u32) -> (r: u32)
    requires
        block_size > 0,
    ensures
        r == div_ceil(total_items as int, block_size as int),
{
    div_ceil_u32(total_items, block_size)
}

/// Narrows an element count to `u32`.
pub fn checked_u32(value: u64) -> (r: Result<u32, Error>)
    ensures
        match r {
            Ok(v) => value <= u32::MAX && v == value,
            Err(e) => value > u32::MAX && e == (Error::ElementCountTooLarge { count: value }),
        },
{
    if value <= u32::MAX as u64 {
        Ok(value as u32)
    } else {
        Err(Error::ElementCountTooLarge { count: value })
    }
}

/// The byte size of `elements` items of `element_size` bytes each.
pub fn checked_byte_size(elements: u64, element_size: u64) -> (r: Result<u64, Error>)
    ensures
        match r {
            Ok(v) => elements * element_size <= u64::MAX && v == elements * element_size,
            Err(e) => elements * element_size > u64::MAX && e == Error::SizeOverflow,
        },
{
    match elements.checked_mul(element_size) {
        Some(v) => Ok(v),
        None => Err(Error::SizeOverflow),
    }
}

} // verus!

verus! {

/// `round_up(v, a)` lies in `[v, v + a)` and is a multiple of `a`.
pub proof fn lemma_round_up_bounds(v: int, a: int)
    requires
        a > 0,
        v >= 0,
    ensures
        v <= round_up(v, a) < v + a,
        round_up(v, a) % a == 0,
{
    lemma_round_up_is_round_down(v, a);
}

} // verus!
