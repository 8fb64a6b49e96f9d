//! Camera look: per-tick rotation amounts from mouse motion, and the
//! pitch limit that keeps the vertical look within bounds.
//!
//! The camera pitch may not pass forty-five degrees either way: a motion
//! that would push it further in the direction it already exceeds is
//! dropped whole, mirroring a guard that returns rather than clamps.

use vstd::prelude::*;
use crate::fp::{FP_ONE, fp_mul};

verus! {

/// The pitch limit, forty-five fixed-point degrees.
pub const PITCH_LIMIT_DEGREES: i64 = 45000;

/// Vertical look speed, six degrees per unit of mouse motion per second.
pub const VERTICAL_LOOK_SPEED: i64 = 6000;

/// Horizontal look speed, a fifth of a radian per unit of mouse motion
/// per second.
pub const HORIZONTAL_LOOK_SPEED: i64 = 200;

/// Bound on a per-tick mouse motion component.
pub const MOUSE_DELTA_LIMIT: i64 = 100000000;

/// Whether a vertical rotation may be applied: it is refused exactly when
/// the pitch already exceeds the limit on the side the rotation pushes
/// toward.
pub fn vertical_look_allowed(current_pitch_degrees: i64, rotation_amount: i64) -> (r: bool)
    ensures
        r == !((current_pitch_degrees > PITCH_LIMIT_DEGREES && rotation_amount > 0) || (
        current_pitch_degrees < -PITCH_LIMIT_DEGREES && rotation_amount < 0)),
{
    let positive_rot = rotation_amount > 0;
    let negative_rot = rotation_amount < 0;
    let high = current_pitch_degrees > PITCH_LIMIT_DEGREES && positive_rot;
    let low = current_pitch_degrees < -PITCH_LIMIT_DEGREES && negative_rot;
    !(high || low)
}

/// The pitch change this tick's vertical mouse motion asks for: the
/// negated motion times the vertical look speed, scaled by elapsed time.
pub fn vertical_rotation_amount(mouse_delta_y: i64, delta: i64) -> (r: i64)
    requires
        -MOUSE_DELTA_LIMIT <= mouse_delta_y <= MOUSE_DELTA_LIMIT,
        0 <= delta <= 1000000,
    ensures
        r == fp_mul(fp_mul(-(mouse_delta_y as int), VERTICAL_LOOK_SPEED as int), delta as int),
{
    proof {
        let m = -(mouse_delta_y as int);
        assert(-600000000000000int <= m * (VERTICAL_LOOK_SPEED as int) <= 600000000000000int)
            by (nonlinear_arith)
            requires
                -100000000 <= m <= 100000000,
        {}
        crate::fp::lemma_fp_down_bound(m * (VERTICAL_LOOK_SPEED as int), 600000000000);
        let s = crate::fp::fp_mul(m, VERTICAL_LOOK_SPEED as int);
        assert(-600000000000000000int <= s * delta <= 600000000000000000int) by (nonlinear_arith)
            requires
                -600000000000 <= s <= 600000000000,
                0 <= delta <= 1000000,
        {}
    }
    let scaled = crate::fp::fp_scale(-mouse_delta_y, VERTICAL_LOOK_SPEED);
    crate::fp::fp_scale(scaled, delta)
}

/// The yaw change this tick's horizontal mouse motion asks for: the
/// negated motion times the horizontal look speed, scaled by elapsed
/// time.
pub fn horizontal_rotation_amount(mouse_delta_x: i64, delta: i64) -> (r: i64)
    requires
        -MOUSE_DELTA_LIMIT <= mouse_delta_x <= MOUSE_DELTA_LIMIT,
        0 <= delta <= 1000000,
    ensures
        r == fp_mul(fp_mul(-(mouse_delta_x as int), HORIZONTAL_LOOK_SPEED as int), delta as int),
{
    proof {
        let m = -(mouse_delta_x as int);
        assert(-20000000000000int <= m * (HORIZONTAL_LOOK_SPEED as int) <= 20000000000000int)
            by (nonlinear_arith)
            requires
                -100000000 <= m <= 100000000,
        {}
        crate::fp::lemma_fp_down_bound(m * (HORIZONTAL_LOOK_SPEED as int), 20000000000);
        let s = crate::fp::fp_mul(m, HORIZONTAL_LOOK_SPEED as int);
        assert(-20000000000000000int <= s * delta <= 20000000000000000int) by (nonlinear_arith)
            requires
                -20000000000 <= s <= 20000000000,
                0 <= delta <= 1000000,
        {}
    }
    let scaled = crate::fp::fp_scale(-mouse_delta_x, HORIZONTAL_LOOK_SPEED);
    crate::fp::fp_scale(scaled, delta)
}

} // verus!
