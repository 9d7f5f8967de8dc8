//! Fixed-point scalars and 3-vectors.
//!
//! A real quantity `r` is stored as the integer `r * SCALE`, truncated toward
//! zero. Coordinates, velocities and spring parameters all live on this grid,
//! which keeps every operation of the animator exact and deterministic.

use vstd::prelude::*;

verus! {

/// One whole unit: the fixed-point representation of the real value `1.0`.
pub const SCALE: i64 = 1_000_000;

/// Largest magnitude a coordinate, target or velocity component may take.
/// Integration clamps to this range, so intermediate products stay far below
/// the capacity of `i128`.
pub const LIMIT: i64 = 1_000_000_000_000_000;

/// Truncating (round-toward-zero) division, the semantics of `/` on Rust's
/// signed integers, as a mathematical function.
pub open spec fn div_t(a: int, b: int) -> int
    recommends
        b > 0,
{
    if a >= 0 {
        a / b
    } else {
        -((-a) / b)
    }
}

/// Clamp a mathematical integer into `[-LIMIT, LIMIT]`.
pub open spec fn clamp_i(a: int) -> int {
    if a > LIMIT as int {
        LIMIT as int
    } else if a < -(LIMIT as int) {
        -(LIMIT as int)
    } else {
        a
    }
}

/// A fixed-point vector with three components.
#[derive(Debug, Clone, Copy, PartialEq, Eq, Structural)]
pub struct Vec3 {
    pub x: i64,
    pub y: i64,
    pub z: i64,
}

impl Vec3 {
    /// Every component is within the representable animation range.
    pub open spec fn in_range(self) -> bool {
        &&& -LIMIT <= self.x <= LIMIT
        &&& -LIMIT <= self.y <= LIMIT
        &&& -LIMIT <= self.z <= LIMIT
    }

    /// The zero vector.
    pub open spec fn spec_zero() -> Vec3 {
        Vec3 { x: 0, y: 0, z: 0 }
    }

    /// Build the zero vector.
    pub fn zero() -> (r: Vec3)
        ensures
            r == Self::spec_zero(),
            r.in_range(),
    {
        Vec3 { x: 0, y: 0, z: 0 }
    }

    /// Build a vector from its components.
    pub fn new(x: i64, y: i64, z: i64) -> (r: Vec3)
        ensures
            r == (Vec3 { x, y, z }),
    {
        Vec3 { x, y, z }
    }
}

/// Squared Euclidean norm of a vector, exact over the integers.
pub open spec fn norm2(v: Vec3) -> int {
    v.x * v.x + v.y * v.y + v.z * v.z
}

/// Squared Euclidean distance between two vectors.
pub open spec fn diff_norm2(a: Vec3, b: Vec3) -> int {
    (a.x - b.x) * (a.x - b.x) + (a.y - b.y) * (a.y - b.y) + (a.z - b.z) * (a.z - b.z)
}

/// A product of two bounded factors is bounded by the product of the bounds.
pub proof fn lemma_mul_bound(a: int, b: int, ca: int, cb: int)
    requires
        0 <= ca,
        0 <= cb,
        -ca <= a <= ca,
        -cb <= b <= cb,
    ensures
        -(ca * cb) <= a * b <= ca * cb,
{
    assert(-(ca * cb) <= a * b <= ca * cb) by (nonlinear_arith)
        requires
            0 <= ca,
            0 <= cb,
            -ca <= a <= ca,
            -cb <= b <= cb,
    ;
}

/// Truncating division shrinks a bounded dividend to at most `bound / b`.
pub proof fn lemma_div_t_bound(a: int, b: int, bound: int)
    requires
        b > 0,
        0 <= bound,
        -bound <= a <= bound,
    ensures
        -(bound / b) <= div_t(a, b) <= bound / b,
{
    if a >= 0 {
        vstd::arithmetic::div_mod::lemma_div_is_ordered(a, bound, b);
        vstd::arithmetic::div_mod::lemma_div_pos_is_pos(a, b);
    } else {
        vstd::arithmetic::div_mod::lemma_div_is_ordered(-a, bound, b);
        vstd::arithmetic::div_mod::lemma_div_pos_is_pos(-a, b);
    }
}

/// Truncating division by any positive divisor never grows the magnitude.
pub proof fn lemma_div_t_shrinks(a: int, b: int, bound: int)
    requires
        b > 0,
        0 <= bound,
        -bound <= a <= bound,
    ensures
        -bound <= div_t(a, b) <= bound,
{
    if a >= 0 {
        vstd::arithmetic::div_mod::lemma_div_pos_is_pos(a, b);
        vstd::arithmetic::div_mod::lemma_div_nonincreasing(a, b);
    } else {
        vstd::arithmetic::div_mod::lemma_div_pos_is_pos(-a, b);
        vstd::arithmetic::div_mod::lemma_div_nonincreasing(-a, b);
    }
}

/// Truncating division of a bounded `i128` by a positive divisor.
pub fn div_trunc(a: i128, b: i128) -> (r: i128)
    requires
        b > 0,
        i128::MIN < a,
    ensures
        r == div_t(a as int, b as int),
{
    if a >= 0 {
        a / b
    } else {
        let neg: i128 = -a;
        -(neg / b)
    }
}

/// Clamp a bounded `i128` into the animation range and narrow it to `i64`.
pub fn clamp_exec(a: i128) -> (r: i64)
    ensures
        r == clamp_i(a as int),
        -LIMIT <= r <= LIMIT,
{
    if a > LIMIT as i128 {
        LIMIT
    } else if a < -(LIMIT as i128) {
        -LIMIT
    } else {
        a as i64
    }
}

} // verus!
