//! Three-component fixed-point vectors.
//!
//! Translations, velocities and sway offsets are all `Vec3` values whose
//! components are fixed-point scalars (see [`crate::fp`]).

use vstd::prelude::*;
use crate::fp::{fp_mul, fp_scale, FP_ONE};

verus! {

/// A vector of two fixed-point components, used for planar input intents
/// and horizontal velocities.
#[derive(Clone, Copy, Debug, PartialEq, Eq, Structural)]
pub struct Vec2 {
    pub x: i64,
    pub y: i64,
}

/// The squared Euclidean length of a planar vector.
pub open spec fn norm2(v: Vec2) -> int {
    v.x * v.x + v.y * v.y
}

impl Vec2 {
    /// Build a planar vector from its components.
    pub fn new(x: i64, y: i64) -> (r: Vec2)
        ensures
            r == (Vec2 { x, y }),
    {
        Vec2 { x, y }
    }
}

/// A vector of three fixed-point components.
#[derive(Clone, Copy, Debug, PartialEq, Eq, Structural)]
pub struct Vec3 {
    pub x: i64,
    pub y: i64,
    pub z: i64,
}

/// Every component of `v` lies in `[-m, m]`.
pub open spec fn vec_in_bounds(v: Vec3, m: int) -> bool {
    &&& -m <= v.x <= m
    &&& -m <= v.y <= m
    &&& -m <= v.z <= m
}

impl Vec3 {
    /// Build a vector from its components.
    pub fn new(x: i64, y: i64, z: i64) -> (r: Vec3)
        ensures
            r == (Vec3 { x, y, z }),
    {
        Vec3 { x, y, z }
    }

    /// The zero vector.
    pub fn zero() -> (r: Vec3)
        ensures
            r == (Vec3 { x: 0i64, y: 0i64, z: 0i64 }),
    {
        Vec3 { x: 0, y: 0, z: 0 }
    }

    /// Componentwise sum.
    pub fn add(self, other: Vec3) -> (r: Vec3)
        requires
            i64::MIN <= self.x + other.x <= i64::MAX,
            i64::MIN <= self.y + other.y <= i64::MAX,
            i64::MIN <= self.z + other.z <= i64::MAX,
        ensures
            r.x == self.x + other.x,
            r.y == self.y + other.y,
            r.z == self.z + other.z,
    {
        Vec3 { x: self.x + other.x, y: self.y + other.y, z: self.z + other.z }
    }

    /// Componentwise difference.
    pub fn sub(self, other: Vec3) -> (r: Vec3)
        requires
            i64::MIN <= self.x - other.x <= i64::MAX,
            i64::MIN <= self.y - other.y <= i64::MAX,
            i64::MIN <= self.z - other.z <= i64::MAX,
        ensures
            r.x == self.x - other.x,
            r.y == self.y - other.y,
            r.z == self.z - other.z,
    {
        Vec3 { x: self.x - other.x, y: self.y - other.y, z: self.z - other.z }
    }

    /// Scale every component by the fixed-point scalar `s`.
    pub fn scale(self, s: i64) -> (r: Vec3)
        requires
            -i64::MAX <= self.x * s <= i64::MAX,
            -i64::MAX <= self.y * s <= i64::MAX,
            -i64::MAX <= self.z * s <= i64::MAX,
        ensures
            r.x == fp_mul(self.x as int, s as int),
            r.y == fp_mul(self.y as int, s as int),
            r.z == fp_mul(self.z as int, s as int),
    {
        Vec3 {
            x: fp_scale(self.x, s),
            y: fp_scale(self.y, s),
            z: fp_scale(self.z, s),
        }
    }
}

/// Scaling a bounded vector by a scalar in `[0, FP_ONE]` keeps it within
/// its bound.
pub proof fn lemma_scale_unit_bounded(v: Vec3, s: int, m: int)
    requires
        vec_in_bounds(v, m),
        0 <= s <= FP_ONE as int,
        m >= 0,
    ensures
        -m <= fp_mul(v.x as int, s as int) <= m,
        -m <= fp_mul(v.y as int, s as int) <= m,
        -m <= fp_mul(v.z as int, s as int) <= m,
{
    assert(-m * (FP_ONE as int) <= v.x * s <= m * (FP_ONE as int)) by (nonlinear_arith)
        requires
            -m <= v.x <= m,
            0 <= s <= FP_ONE as int,
            m >= 0,
    {}
    assert(-m * (FP_ONE as int) <= v.y * s <= m * (FP_ONE as int)) by (nonlinear_arith)
        requires
            -m <= v.y <= m,
            0 <= s <= FP_ONE as int,
            m >= 0,
    {}
    assert(-m * (FP_ONE as int) <= v.z * s <= m * (FP_ONE as int)) by (nonlinear_arith)
        requires
            -m <= v.z <= m,
            0 <= s <= FP_ONE as int,
            m >= 0,
    {}
    crate::fp::lemma_fp_down_bound(v.x * s, m);
    crate::fp::lemma_fp_down_bound(v.y * s, m);
    crate::fp::lemma_fp_down_bound(v.z * s, m);
}

} // verus!
