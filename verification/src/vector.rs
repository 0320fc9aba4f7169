//! Two-dimensional fixed-point vectors.
//!
//! Sums, differences, products and squared lengths are computed by `vecmath`
//! on wide integers, where they are exact. Lengths and unit vectors need a
//! square root, which `vecmath` takes of floating-point numbers only; here it
//! is taken of integers.

use vstd::prelude::*;
use crate::fixed::{
    clamp, divide, integer_sqrt, is_sqrt_floor, lemma_sqrt_floor, lemma_sqrt_floor_exists,
    quotient, saturate, sqrt_floor, ONE,
};

verus! {

/// A vector of two scalars.
#[derive(Clone, Copy, Debug, PartialEq, Eq, Structural)]
pub struct Vector2 {
    pub x: i32,
    pub y: i32,
}

/// Calls `vecmath::vec2_add` on wide integers. Taken on trust, not proved: it
/// returns the sum of `a` and `b`, component by component. The sums must fit,
/// since the addition of integers is not to overflow.
#[verifier::external_body]
fn vec2_add(a: (i128, i128), b: (i128, i128)) -> (r: (i128, i128))
    requires
        i128::MIN <= a.0 + b.0 <= i128::MAX,
        i128::MIN <= a.1 + b.1 <= i128::MAX,
    ensures
        r.0 == a.0 + b.0,
        r.1 == a.1 + b.1,
{
    let r = vecmath::vec2_add([a.0, a.1], [b.0, b.1]);
    (r[0], r[1])
}

/// Calls `vecmath::vec2_sub` on wide integers. Taken on trust, not proved: it
/// returns `a` less `b`, component by component. The differences must fit.
#[verifier::external_body]
fn vec2_sub(a: (i128, i128), b: (i128, i128)) -> (r: (i128, i128))
    requires
        i128::MIN <= a.0 - b.0 <= i128::MAX,
        i128::MIN <= a.1 - b.1 <= i128::MAX,
    ensures
        r.0 == a.0 - b.0,
        r.1 == a.1 - b.1,
{
    let r = vecmath::vec2_sub([a.0, a.1], [b.0, b.1]);
    (r[0], r[1])
}

/// Calls `vecmath::vec2_scale` on wide integers. Taken on trust, not proved:
/// it returns each component of `a` times `b`. The products must fit.
#[verifier::external_body]
fn vec2_scale(a: (i128, i128), b: i128) -> (r: (i128, i128))
    requires
        i128::MIN <= a.0 * b <= i128::MAX,
        i128::MIN <= a.1 * b <= i128::MAX,
    ensures
        r.0 == a.0 * b,
        r.1 == a.1 * b,
{
    let r = vecmath::vec2_scale([a.0, a.1], b);
    (r[0], r[1])
}

/// Calls `vecmath::vec2_square_len` on wide integers. Taken on trust, not
/// proved: it returns the sum of the squares of the components of `a`. The
/// squares and their sum must fit.
#[verifier::external_body]
fn vec2_square_len(a: (i128, i128)) -> (r: i128)
    requires
        a.0 * a.0 + a.1 * a.1 <= i128::MAX,
    ensures
        r == a.0 * a.0 + a.1 * a.1,
{
    vecmath::vec2_square_len([a.0, a.1])
}

/// The sum of two vectors, each component clamped.
pub open spec fn sum(a: Vector2, b: Vector2) -> Vector2 {
    Vector2 { x: clamp(a.x + b.x) as i32, y: clamp(a.y + b.y) as i32 }
}

/// The fixed-point product of a vector and a scalar, each component truncated
/// toward zero and clamped.
pub open spec fn scaled(a: Vector2, k: int) -> Vector2 {
    Vector2 {
        x: clamp(quotient(a.x * k, ONE as int)) as i32,
        y: clamp(quotient(a.y * k, ONE as int)) as i32,
    }
}

/// The squared length of the difference of two vectors.
pub open spec fn square_distance(a: Vector2, b: Vector2) -> nat {
    ((a.x - b.x) * (a.x - b.x) + (a.y - b.y) * (a.y - b.y)) as nat
}

/// The distance between two vectors, rounded down and clamped.
pub open spec fn distance(a: Vector2, b: Vector2) -> int {
    clamp(sqrt_floor(square_distance(a, b)) as int)
}

/// One component of a unit vector: `x` over the length of a vector whose
/// squared length is `q`, truncated toward zero.
pub open spec fn unit_component(x: int, q: nat) -> int
    recommends
        q > 0,
{
    let r = sqrt_floor(((ONE * ONE) * (x * x) / (q as int)) as nat) as int;
    if x >= 0 {
        r
    } else {
        -r
    }
}

/// The unit vector that points from `b` to `a`; the zero vector where the two
/// coincide.
pub open spec fn unit_difference(a: Vector2, b: Vector2) -> Vector2 {
    let q = square_distance(a, b);
    if q == 0 {
        Vector2 { x: 0, y: 0 }
    } else {
        Vector2 {
            x: unit_component(a.x - b.x, q) as i32,
            y: unit_component(a.y - b.y, q) as i32,
        }
    }
}

/// The unit vector along `a`; the zero vector for the zero vector.
pub open spec fn unit(a: Vector2) -> Vector2 {
    unit_difference(a, Vector2 { x: 0, y: 0 })
}

/// A component of a unit vector is at most one in magnitude.
pub proof fn lemma_unit_component_bound(x: int, q: nat)
    requires
        q > 0,
        x * x <= q,
    ensures
        -ONE <= unit_component(x, q) <= ONE,
{
    let n = ((ONE * ONE) * (x * x) / (q as int)) as nat;
    let r = sqrt_floor(n);
    assert(x * x >= 0) by (nonlinear_arith);
    assert(0 <= (ONE * ONE) * (x * x) / (q as int) <= ONE * ONE) by (nonlinear_arith)
        requires
            q > 0,
            0 <= x * x <= q,
    ;
    assert(is_sqrt_floor(n, ONE as nat) || n < ONE * ONE) by (nonlinear_arith)
        requires
            n <= ONE * ONE,
    ;
    if n < ONE * ONE {
        lemma_sqrt_floor_exists(n);
        assert(r <= ONE) by (nonlinear_arith)
            requires
                r * r <= n,
                n < ONE * ONE,
        ;
    } else {
        lemma_sqrt_floor(n, ONE as nat);
    }
}

impl Vector2 {
    /// Adds two vectors.
    pub fn plus(self, other: Vector2) -> (r: Vector2)
        ensures
            r == sum(self, other),
    {
        let s = vec2_add((self.x as i128, self.y as i128), (other.x as i128, other.y as i128));
        Vector2 { x: saturate(s.0), y: saturate(s.1) }
    }

    /// Multiplies a vector by a scalar.
    pub fn scale(self, k: i32) -> (r: Vector2)
        ensures
            r == scaled(self, k as int),
    {
        assert(-0x4000_0000_0000_0000 <= self.x * k <= 0x4000_0000_0000_0000) by (nonlinear_arith)
            requires
                -0x8000_0000 <= self.x <= 0x8000_0000,
                -0x8000_0000 <= k <= 0x8000_0000,
        ;
        assert(-0x4000_0000_0000_0000 <= self.y * k <= 0x4000_0000_0000_0000) by (nonlinear_arith)
            requires
                -0x8000_0000 <= self.y <= 0x8000_0000,
                -0x8000_0000 <= k <= 0x8000_0000,
        ;
        let p = vec2_scale((self.x as i128, self.y as i128), k as i128);
        Vector2 { x: saturate(divide(p.0, ONE as i128)), y: saturate(divide(p.1, ONE as i128)) }
    }

    /// The distance from `self` to `other`.
    pub fn distance_to(self, other: Vector2) -> (r: i32)
        ensures
            r == distance(self, other),
    {
        let d = vec2_sub((self.x as i128, self.y as i128), (other.x as i128, other.y as i128));
        assert(0 <= d.0 * d.0 <= 0x1_0000_0000_0000_0000) by (nonlinear_arith)
            requires
                -0x1_0000_0000 <= d.0 <= 0x1_0000_0000,
        ;
        assert(0 <= d.1 * d.1 <= 0x1_0000_0000_0000_0000) by (nonlinear_arith)
            requires
                -0x1_0000_0000 <= d.1 <= 0x1_0000_0000,
        ;
        let q: i128 = vec2_square_len(d);
        saturate(integer_sqrt(q as u128) as i128)
    }

    /// The unit vector that points from `other` to `self`.
    pub fn normalized_sub(self, other: Vector2) -> (r: Vector2)
        ensures
            r == unit_difference(self, other),
    {
        let d = vec2_sub((self.x as i128, self.y as i128), (other.x as i128, other.y as i128));
        assert(0 <= d.0 * d.0 <= 0x1_0000_0000_0000_0000) by (nonlinear_arith)
            requires
                -0x1_0000_0000 <= d.0 <= 0x1_0000_0000,
        ;
        assert(0 <= d.1 * d.1 <= 0x1_0000_0000_0000_0000) by (nonlinear_arith)
            requires
                -0x1_0000_0000 <= d.1 <= 0x1_0000_0000,
        ;
        let q: i128 = vec2_square_len(d);
        if q == 0 {
            Vector2 { x: 0, y: 0 }
        } else {
            proof {
                assert(d.0 * d.0 <= q);
                assert(d.1 * d.1 <= q);
                lemma_unit_component_bound(d.0 as int, q as nat);
                lemma_unit_component_bound(d.1 as int, q as nat);
            }
            Vector2 { x: component(d.0, q), y: component(d.1, q) }
        }
    }

    /// The unit vector along `self`.
    pub fn normalized(self) -> (r: Vector2)
        ensures
            r == unit(self),
    {
        self.normalized_sub(Vector2 { x: 0, y: 0 })
    }
}

/// One component of a unit vector, from the component `x` of a vector whose
/// squared length is `q`.
fn component(x: i128, q: i128) -> (r: i32)
    requires
        q > 0,
        x * x <= q <= 0x2_0000_0000_0000_0000,
        -ONE <= unit_component(x as int, q as nat) <= ONE,
    ensures
        r == unit_component(x as int, q as nat),
{
    assert(0 <= x * x) by (nonlinear_arith);
    let square: i128 = x * x;
    let one: i128 = (ONE as i128) * (ONE as i128);
    assert(0 <= one * square <= 100_000_000 * 0x2_0000_0000_0000_0000) by (nonlinear_arith)
        requires
            0 <= square <= 0x2_0000_0000_0000_0000,
            one == 100_000_000,
    ;
    let root: u64 = integer_sqrt((one * square / q) as u128);
    if x >= 0 {
        root as i32
    } else {
        -(root as i32)
    }
}

} // verus!
