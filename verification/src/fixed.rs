//! Fixed-point scalars.
//!
//! A scalar is an `i32` that counts ten-thousandths: `ONE` stands for 1.0.
//! Lengths are in pixels, times in seconds. Results that leave the range of
//! `i32` are clamped to it, and quotients are truncated toward zero.

use vstd::prelude::*;

verus! {

/// The scalar 1.0.
pub const ONE: i32 = 10_000;

/// `v` clamped to the range of a scalar.
pub open spec fn clamp(v: int) -> int {
    if v < i32::MIN {
        i32::MIN as int
    } else if v > i32::MAX {
        i32::MAX as int
    } else {
        v
    }
}

/// `a / b` truncated toward zero, for a positive `b`.
pub open spec fn quotient(a: int, b: int) -> int
    recommends
        b > 0,
{
    if a >= 0 {
        a / b
    } else {
        -((-a) / b)
    }
}

/// Whether `r` is the largest natural number whose square is at most `n`.
pub open spec fn is_sqrt_floor(n: nat, r: nat) -> bool {
    r * r <= n < (r + 1) * (r + 1)
}

/// The largest natural number whose square is at most `n`.
pub open spec fn sqrt_floor(n: nat) -> nat {
    choose|r: nat| is_sqrt_floor(n, r)
}

/// A number whose square is at most `n`, while the next one's square exceeds
/// `n`, is `sqrt_floor(n)`.
pub proof fn lemma_sqrt_floor(n: nat, r: nat)
    requires
        is_sqrt_floor(n, r),
    ensures
        sqrt_floor(n) == r,
{
    let s = sqrt_floor(n);
    assert(is_sqrt_floor(n, s));
    assert(s == r) by (nonlinear_arith)
        requires
            r * r <= n < (r + 1) * (r + 1),
            s * s <= n < (s + 1) * (s + 1),
    ;
}

/// Every natural number has a square root rounded down.
pub proof fn lemma_sqrt_floor_exists(n: nat)
    ensures
        is_sqrt_floor(n, sqrt_floor(n)),
    decreases n,
{
    if n == 0 {
        assert(is_sqrt_floor(0, 0)) by (nonlinear_arith);
    } else {
        lemma_sqrt_floor_exists((n - 1) as nat);
        let r = sqrt_floor((n - 1) as nat);
        if n < (r + 1) * (r + 1) {
            assert(is_sqrt_floor(n, r));
        } else {
            assert(is_sqrt_floor(n, r + 1)) by (nonlinear_arith)
                requires
                    r * r <= n - 1 < (r + 1) * (r + 1),
                    n >= (r + 1) * (r + 1),
            ;
        }
    }
}

/// Clamps a wide intermediate result to a scalar.
pub fn saturate(v: i128) -> (r: i32)
    ensures
        r == clamp(v as int),
{
    if v < i32::MIN as i128 {
        i32::MIN
    } else if v > i32::MAX as i128 {
        i32::MAX
    } else {
        v as i32
    }
}

/// Divides by a positive number, truncating toward zero.
pub fn divide(a: i128, b: i128) -> (r: i128)
    requires
        b > 0,
    ensures
        r == quotient(a as int, b as int),
{
    if a >= 0 {
        a / b
    } else {
        let below: i128 = -(a + 1);
        let q: i128 = below / b;
        let whole = below % b == b - 1;
        assert((below + 1) / (b as int) == if whole { q + 1 } else { q as int })
            by (nonlinear_arith)
            requires
                b > 0,
                below >= 0,
                q == below / b,
                whole == (below % b == b - 1),
        ;
        if whole {
            -q - 1
        } else {
            -q
        }
    }
}

/// The integer square root.
pub fn integer_sqrt(n: u128) -> (r: u64)
    ensures
        r == sqrt_floor(n as nat),
{
    let mut low: u128 = 0;
    let mut high: u128 = 0x1_0000_0000_0000_0000;
    while high - low > 1
        invariant
            low < high <= 0x1_0000_0000_0000_0000,
            low * low <= n,
            high == 0x1_0000_0000_0000_0000 || n < high * high,
        decreases high - low,
    {
        let mid: u128 = low + (high - low) / 2;
        assert(mid * mid <= 0xffff_ffff_ffff_ffff * 0xffff_ffff_ffff_ffff) by (nonlinear_arith)
            requires
                mid <= 0xffff_ffff_ffff_ffff,
        ;
        if mid * mid <= n {
            low = mid;
        } else {
            high = mid;
        }
    }
    proof {
        if high == 0x1_0000_0000_0000_0000 {
            assert(high * high > n) by (nonlinear_arith)
                requires
                    high == 0x1_0000_0000_0000_0000,
                    n <= u128::MAX,
            ;
        }
        lemma_sqrt_floor(n as nat, low as nat);
    }
    low as u64
}

} // verus!
