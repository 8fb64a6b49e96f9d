//! The kinematic character controller.
//!
//! Per tick, a planar movement intent (magnitude at most one) is rotated
//! into the entity's facing and accelerates the horizontal velocity; a
//! jump intent sets the vertical velocity to a fixed impulse, but only in
//! the tick in which the body is grounded; and damping multiplies the
//! horizontal velocity once at the end of the tick. Damping is a plain
//! per-tick factor, not normalized to the tick rate, so its strength
//! follows the tick rate.
//!
//! Grounding itself is decided from the angles that a downward shape-cast's
//! contact normals make with "up": the body is grounded exactly when some
//! contact is no steeper than the configured slope limit.

use vstd::prelude::*;
use crate::fp::{FP_ONE, div_toward_zero, div_trunc, fp_mul, fp_scale, lemma_div_trunc_sq};
use crate::vec3::{Vec2, Vec3, norm2};

verus! {

/// Bound on the acceleration, sprint factor and jump impulse scalars.
pub const CONFIG_LIMIT: i64 = 1000000;

/// Bound on each horizontal velocity component the controller works on.
pub const VEL_LIMIT: i64 = 1000000000000000;

/// Bound on the per-tick elapsed time, one thousand seconds.
pub const DELTA_LIMIT: i64 = 1000000;

/// Bound on each component of a raw, not yet length-clamped intent.
pub const INTENT_LIMIT: i64 = 2000;

/// A marker for an entity driven by this controller.
#[derive(Clone, Copy, Debug, PartialEq, Eq, Structural)]
pub struct CharacterController;

/// A transient tag: the latest shape-cast found a walkable contact.
#[derive(Clone, Copy, Debug, PartialEq, Eq, Structural)]
pub struct Grounded;

/// A transient tag: the sprint key is held.
#[derive(Clone, Copy, Debug, PartialEq, Eq, Structural)]
pub struct Sprinting;

/// The acceleration used for character movement.
#[derive(Clone, Copy, Debug, PartialEq, Eq, Structural)]
pub struct MovementAcceleration(pub i64);

/// The factor applied to acceleration while sprinting.
#[derive(Clone, Copy, Debug, PartialEq, Eq, Structural)]
pub struct SprintFactor(pub i64);

/// The per-tick damping factor, in `[0, FP_ONE]`, that slows horizontal
/// movement.
#[derive(Clone, Copy, Debug, PartialEq, Eq, Structural)]
pub struct MovementDampingFactor(pub i64);

/// The vertical velocity a jump sets.
#[derive(Clone, Copy, Debug, PartialEq, Eq, Structural)]
pub struct JumpImpulse(pub i64);

/// The steepest slope angle, in fixed-point radians, that still counts as
/// ground.
#[derive(Clone, Copy, Debug, PartialEq, Eq, Structural)]
pub struct MaxSlopeAngle(pub i64);

/// A movement input produced once per tick from input state.
#[derive(Clone, Copy, Debug, PartialEq, Eq, Structural)]
pub enum MovementAction {
    /// A planar direction of magnitude at most one: `x` strafes right,
    /// `y` moves forward.
    Move(Vec2),
    /// A jump intent.
    Jump,
}

/// The movement configuration of one controlled entity.
#[derive(Clone, Copy, Debug, PartialEq, Eq, Structural)]
pub struct MovementBundle {
    pub acceleration: MovementAcceleration,
    pub sprint_factor: SprintFactor,
    pub damping: MovementDampingFactor,
    pub jump_impulse: JumpImpulse,
    pub max_slope_angle: MaxSlopeAngle,
}

impl MovementBundle {
    /// Every scalar lies within its bound.
    pub open spec fn wf(self) -> bool {
        &&& 0 <= self.acceleration.0 <= CONFIG_LIMIT
        &&& 0 <= self.sprint_factor.0 <= CONFIG_LIMIT
        &&& 0 <= self.damping.0 <= FP_ONE
        &&& 0 <= self.jump_impulse.0 <= CONFIG_LIMIT
        &&& 0 <= self.max_slope_angle.0
    }

    /// Assemble a configuration from its scalars.
    pub fn new(
        acceleration: i64,
        sprint_factor: i64,
        damping: i64,
        jump_impulse: i64,
        max_slope_angle: i64,
    ) -> (r: MovementBundle)
        requires
            0 <= acceleration <= CONFIG_LIMIT,
            0 <= sprint_factor <= CONFIG_LIMIT,
            0 <= damping <= FP_ONE,
            0 <= jump_impulse <= CONFIG_LIMIT,
            0 <= max_slope_angle,
        ensures
            r.wf(),
            r.acceleration.0 == acceleration,
            r.sprint_factor.0 == sprint_factor,
            r.damping.0 == damping,
            r.jump_impulse.0 == jump_impulse,
            r.max_slope_angle.0 == max_slope_angle,
    {
        MovementBundle {
            acceleration: MovementAcceleration(acceleration),
            sprint_factor: SprintFactor(sprint_factor),
            damping: MovementDampingFactor(damping),
            jump_impulse: JumpImpulse(jump_impulse),
            max_slope_angle: MaxSlopeAngle(max_slope_angle),
        }
    }
}

impl Default for MovementBundle {
    /// The stock configuration: acceleration 30, sprint factor 1.5,
    /// damping 0.9, jump impulse 7 and a slope limit of 0.45 pi radians.
    fn default() -> (r: MovementBundle)
        ensures
            r.wf(),
            r.acceleration.0 == 30000,
            r.sprint_factor.0 == 1500,
            r.damping.0 == 900,
            r.jump_impulse.0 == 7000,
            r.max_slope_angle.0 == 1414,
    {
        MovementBundle::new(30000, 1500, 900, 7000, 1414)
    }
}

/// Whether the sprint tag is present after this tick: a press starts the
/// sprint, a release ends it, and otherwise it carries over.
pub fn sprint_state(just_pressed: bool, just_released: bool, current: bool) -> (r: bool)
    ensures
        r == if just_pressed {
            true
        } else if just_released {
            false
        } else {
            current
        },
{
    if just_pressed {
        true
    } else if just_released {
        false
    } else {
        current
    }
}

/// Some contact angle in `angles` is within the slope limit.
pub open spec fn has_walkable_contact(angles: Seq<i64>, limit: i64) -> bool {
    exists|i: int| 0 <= i < angles.len() && #[trigger] angles[i] <= limit
}

/// Whether a shape-cast result grounds the body, given the angles its
/// contact normals make with "up".
pub open spec fn grounded_spec(angles: Seq<i64>, max_slope_angle: Option<&MaxSlopeAngle>) -> bool {
    match max_slope_angle {
        Some(limit) => has_walkable_contact(angles, limit.0),
        None => angles.len() > 0,
    }
}

/// Whether a shape-cast result grounds the body: some contact normal's
/// angle with "up" is within the slope limit — or, with no limit
/// configured, any contact at all.
pub fn grounded_from_hits(hit_angles: &Vec<i64>, max_slope_angle: Option<&MaxSlopeAngle>) -> (r:
    bool)
    ensures
        r == grounded_spec(hit_angles@, max_slope_angle),
{
    match max_slope_angle {
        Some(limit) => {
            let n: usize = hit_angles.len();
            let mut i: usize = 0;
            while i < n
                invariant
                    0 <= i <= n,
                    n == hit_angles@.len(),
                    max_slope_angle == Some(limit),
                    forall|j: int| 0 <= j < i ==> !(#[trigger] hit_angles@[j] <= limit.0),
                decreases n - i,
            {
                if hit_angles[i] <= limit.0 {
                    proof {
                        let wi = i as int;
                        assert(0 <= wi < hit_angles@.len() && hit_angles@[wi] <= limit.0);
                        assert(has_walkable_contact(hit_angles@, limit.0));
                    }
                    return true;
                }
                i = i + 1;
            }
            false
        },
        None => hit_angles.len() > 0,
    }
}

/// Slow horizontal movement: multiply the planar velocity components by
/// the damping factor, exactly once, leaving the vertical one alone.
pub fn apply_movement_damping(damping: &MovementDampingFactor, velocity: &mut Vec3)
    requires
        0 <= damping.0 <= FP_ONE,
        -VEL_LIMIT <= old(velocity).x <= VEL_LIMIT,
        -VEL_LIMIT <= old(velocity).z <= VEL_LIMIT,
    ensures
        final(velocity).x == fp_mul(old(velocity).x as int, damping.0 as int),
        final(velocity).z == fp_mul(old(velocity).z as int, damping.0 as int),
        final(velocity).y == old(velocity).y,
        -VEL_LIMIT <= final(velocity).x <= VEL_LIMIT,
        -VEL_LIMIT <= final(velocity).z <= VEL_LIMIT,
{
    proof {
        let vx = old(velocity).x as int;
        let vz = old(velocity).z as int;
        let d = damping.0 as int;
        assert(-(VEL_LIMIT as int) * (FP_ONE as int) <= vx * d <= (VEL_LIMIT as int) * (
        FP_ONE as int)) by (nonlinear_arith)
            requires
                -(VEL_LIMIT as int) <= vx <= VEL_LIMIT as int,
                0 <= d <= FP_ONE as int,
        {}
        assert(-(VEL_LIMIT as int) * (FP_ONE as int) <= vz * d <= (VEL_LIMIT as int) * (
        FP_ONE as int)) by (nonlinear_arith)
            requires
                -(VEL_LIMIT as int) <= vz <= VEL_LIMIT as int,
                0 <= d <= FP_ONE as int,
        {}
        crate::fp::lemma_fp_down_bound(vx * d, VEL_LIMIT as int);
        crate::fp::lemma_fp_down_bound(vz * d, VEL_LIMIT as int);
    }
    velocity.x = fp_scale(velocity.x, damping.0);
    velocity.z = fp_scale(velocity.z, damping.0);
}

/// A plane rotation scales a squared length by exactly the squared length
/// of its cosine-sine pair.
proof fn lemma_rotation_norm_product(px: int, pz: int, c: int, s: int)
    ensures
        (px * c + pz * s) * (px * c + pz * s) + (-px * s + pz * c) * (-px * s + pz * c) == (px * px
            + pz * pz) * (c * c + s * s),
{
    let a = px * c;
    let b = pz * s;
    let d = px * s;
    let e = pz * c;
    assert((a + b) * (a + b) == a * a + 2 * (a * b) + b * b) by (nonlinear_arith) {}
    assert((-d + e) * (-d + e) == d * d - 2 * (d * e) + e * e) by (nonlinear_arith) {}
    assert(a * b == d * e) by (nonlinear_arith)
        requires
            a == px * c,
            b == pz * s,
            d == px * s,
            e == pz * c,
    {}
    assert(a * a == (px * px) * (c * c)) by (nonlinear_arith)
        requires
            a == px * c,
    {}
    assert(b * b == (pz * pz) * (s * s)) by (nonlinear_arith)
        requires
            b == pz * s,
    {}
    assert(d * d == (px * px) * (s * s)) by (nonlinear_arith)
        requires
            d == px * s,
    {}
    assert(e * e == (pz * pz) * (c * c)) by (nonlinear_arith)
        requires
            e == pz * c,
    {}
    assert((px * px + pz * pz) * (c * c + s * s) == (px * px) * (c * c) + (px * px) * (s * s) + (pz
        * pz) * (c * c) + (pz * pz) * (s * s)) by (nonlinear_arith) {}
    assert((-px) * s == -d) by (nonlinear_arith)
        requires
            d == px * s,
    {}
    assert(-px * s + pz * c == -d + e);
    assert((-px * s + pz * c) * (-px * s + pz * c) == (-d + e) * (-d + e));
}

/// The world-plane x component of the intent `(px, pz)` rotated by the
/// facing's yaw, whose cosine and sine are fixed-point scalars.
pub open spec fn rot_x_spec(px: int, pz: int, c: int, s: int) -> int {
    div_toward_zero(px * c + pz * s, FP_ONE as int)
}

/// The world-plane z component of the rotated intent.
pub open spec fn rot_z_spec(px: int, pz: int, c: int, s: int) -> int {
    div_toward_zero(-px * s + pz * c, FP_ONE as int)
}

/// Rotating by a unit-bounded cosine-sine pair keeps the intent's squared
/// magnitude within the unit bound.
pub proof fn lemma_rotated_intent_norm(px: int, pz: int, c: int, s: int)
    requires
        px * px + pz * pz <= (FP_ONE as int) * (FP_ONE as int),
        c * c + s * s <= (FP_ONE as int) * (FP_ONE as int),
    ensures
        rot_x_spec(px, pz, c, s) * rot_x_spec(px, pz, c, s) + rot_z_spec(px, pz, c, s) * rot_z_spec(
            px,
            pz,
            c,
            s,
        ) <= (FP_ONE as int) * (FP_ONE as int),
{
    let f = FP_ONE as int;
    let nx = px * c + pz * s;
    let nz = -px * s + pz * c;
    lemma_rotation_norm_product(px, pz, c, s);
    assert(nx * nx + nz * nz == (px * px + pz * pz) * (c * c + s * s));
    assert((px * px + pz * pz) * (c * c + s * s) <= 1000000000000int) by (nonlinear_arith)
        requires
            px * px + pz * pz <= 1000000,
            c * c + s * s <= 1000000,
    {}
    assert(nx * nx + nz * nz <= f * f * f * f);
    lemma_div_trunc_sq(nx, f);
    lemma_div_trunc_sq(nz, f);
    let qx = div_toward_zero(nx, f);
    let qz = div_toward_zero(nz, f);
    assert(qx * qx + qz * qz <= f * f) by (nonlinear_arith)
        requires
            qx * qx * (f * f) <= nx * nx,
            qz * qz * (f * f) <= nz * nz,
            nx * nx + nz * nz <= f * f * f * f,
            f == 1000,
    {}
}

/// Rotate the planar vector `(px, pz)` by the yaw whose cosine and sine
/// are given; the result's `x` and `y` fields hold the world-plane x and z
/// components. A rotation cannot lengthen the intent: the result's
/// squared magnitude stays within the unit bound.
#[verifier::rlimit(20)]
pub fn rotate_intent(px: i64, pz: i64, yaw_cos: i64, yaw_sin: i64) -> (r: Vec2)
    requires
        px * px + pz * pz <= (FP_ONE as int) * (FP_ONE as int),
        yaw_cos * yaw_cos + yaw_sin * yaw_sin <= (FP_ONE as int) * (FP_ONE as int),
    ensures
        r.x == rot_x_spec(px as int, pz as int, yaw_cos as int, yaw_sin as int),
        r.y == rot_z_spec(px as int, pz as int, yaw_cos as int, yaw_sin as int),
        norm2(r) <= (FP_ONE as int) * (FP_ONE as int),
{
    proof {
        assert(-1000 <= px <= 1000 && -1000 <= pz <= 1000) by (nonlinear_arith)
            requires
                px * px + pz * pz <= 1000000,
        {}
        assert(-1000 <= yaw_cos <= 1000 && -1000 <= yaw_sin <= 1000) by (nonlinear_arith)
            requires
                yaw_cos * yaw_cos + yaw_sin * yaw_sin <= 1000000,
        {}
        assert(-1000000 <= px * yaw_cos <= 1000000 && -1000000 <= pz * yaw_sin <= 1000000
            && -1000000 <= px * yaw_sin <= 1000000 && -1000000 <= pz * yaw_cos <= 1000000)
            by (nonlinear_arith)
            requires
                -1000 <= px <= 1000,
                -1000 <= pz <= 1000,
                -1000 <= yaw_cos <= 1000,
                -1000 <= yaw_sin <= 1000,
        {}
    }
    let nx: i64 = px * yaw_cos + pz * yaw_sin;
    let nz: i64 = -(px * yaw_sin) + pz * yaw_cos;
    let rx = div_trunc(nx, FP_ONE);
    let rz = div_trunc(nz, FP_ONE);
    proof {
        let pxi = px as int;
        let pzi = pz as int;
        let ci = yaw_cos as int;
        let si = yaw_sin as int;
        assert((-pxi) * si == -(pxi * si)) by (nonlinear_arith) {}
        assert(nz == -pxi * si + pzi * ci);
        lemma_rotated_intent_norm(pxi, pzi, ci, si);
    }
    Vec2::new(rx, rz)
}

/// The acceleration in effect this tick: scaled by the sprint factor while
/// sprinting.
pub open spec fn effective_accel(acceleration: int, sprint_factor: int, sprinting: bool) -> int {
    if sprinting {
        fp_mul(acceleration, sprint_factor)
    } else {
        acceleration
    }
}

/// Respond to one movement action.
///
/// A directional intent, rotated into the facing, accelerates the
/// horizontal velocity by the effective acceleration times the elapsed
/// time. A jump sets the vertical velocity to the jump impulse exactly
/// when the body is grounded in this same tick; an airborne jump intent is
/// dropped, leaving the velocity untouched.
pub fn apply_movement_action(
    action: &MovementAction,
    acceleration: &MovementAcceleration,
    sprint_factor: &SprintFactor,
    jump_impulse: &JumpImpulse,
    velocity: &mut Vec3,
    grounded: bool,
    sprinting: bool,
    yaw_cos: i64,
    yaw_sin: i64,
    delta: i64,
)
    requires
        0 <= acceleration.0 <= CONFIG_LIMIT,
        0 <= sprint_factor.0 <= CONFIG_LIMIT,
        0 <= jump_impulse.0 <= CONFIG_LIMIT,
        0 <= delta <= DELTA_LIMIT,
        -VEL_LIMIT <= old(velocity).x <= VEL_LIMIT,
        -VEL_LIMIT <= old(velocity).z <= VEL_LIMIT,
        action matches MovementAction::Move(d) ==> norm2(*d) <= (FP_ONE as int) * (FP_ONE as int),
        yaw_cos * yaw_cos + yaw_sin * yaw_sin <= (FP_ONE as int) * (FP_ONE as int),
    ensures
        match action {
            MovementAction::Move(d) => {
                let px = d.x as int;
                let pz = -(d.y as int);
                let rx = rot_x_spec(px, pz, yaw_cos as int, yaw_sin as int);
                let rz = rot_z_spec(px, pz, yaw_cos as int, yaw_sin as int);
                let acc = effective_accel(
                    acceleration.0 as int,
                    sprint_factor.0 as int,
                    sprinting,
                );
                &&& final(velocity).x == old(velocity).x + fp_mul(fp_mul(rx, acc), delta as int)
                &&& final(velocity).z == old(velocity).z + fp_mul(fp_mul(rz, acc), delta as int)
                &&& final(velocity).y == old(velocity).y
            },
            MovementAction::Jump => {
                &&& final(velocity).x == old(velocity).x
                &&& final(velocity).z == old(velocity).z
                &&& final(velocity).y == if grounded {
                    jump_impulse.0 as int
                } else {
                    old(velocity).y as int
                }
            },
        },
{
    match action {
        MovementAction::Move(direction) => {
            proof {
                let dxi = direction.x as int;
                let dyi = direction.y as int;
                assert(-1000 <= dxi <= 1000 && -1000 <= dyi <= 1000 && dxi * dxi + (-dyi) * (-dyi)
                    <= 1000000) by (nonlinear_arith)
                    requires
                        dxi * dxi + dyi * dyi <= 1000000,
                {}
            }
            let rotated = rotate_intent(direction.x, -direction.y, yaw_cos, yaw_sin);

            let mut accel: i64 = acceleration.0;
            if sprinting {
                proof {
                    assert(0 <= accel * sprint_factor.0 <= 1000000000000int) by (nonlinear_arith)
                        requires
                            0 <= accel <= 1000000,
                            0 <= sprint_factor.0 <= 1000000,
                    {}
                    crate::fp::lemma_fp_down_bound(accel * sprint_factor.0, 1000000000);
                    crate::fp::lemma_fp_down_sign(accel * sprint_factor.0);
                }
                accel = fp_scale(accel, sprint_factor.0);
            }

            proof {
                let rxi = rotated.x as int;
                let rzi = rotated.y as int;
                assert(-1000 <= rxi <= 1000 && -1000 <= rzi <= 1000) by (nonlinear_arith)
                    requires
                        rxi * rxi + rzi * rzi <= 1000000,
                {}
                assert(-1000000000000int <= rxi * accel <= 1000000000000int) by (nonlinear_arith)
                    requires
                        -1000 <= rxi <= 1000,
                        0 <= accel <= 1000000000,
                {}
                assert(-1000000000000int <= rzi * accel <= 1000000000000int) by (nonlinear_arith)
                    requires
                        -1000 <= rzi <= 1000,
                        0 <= accel <= 1000000000,
                {}
                crate::fp::lemma_fp_down_bound(rxi * accel, 1000000000);
                crate::fp::lemma_fp_down_bound(rzi * accel, 1000000000);
            }
            let step_x = fp_scale(rotated.x, accel);
            let step_z = fp_scale(rotated.y, accel);

            proof {
                assert(-1000000000000000int <= step_x * delta <= 1000000000000000int)
                    by (nonlinear_arith)
                    requires
                        -1000000000 <= step_x <= 1000000000,
                        0 <= delta <= 1000000,
                {}
                assert(-1000000000000000int <= step_z * delta <= 1000000000000000int)
                    by (nonlinear_arith)
                    requires
                        -1000000000 <= step_z <= 1000000000,
                        0 <= delta <= 1000000,
                {}
                crate::fp::lemma_fp_down_bound(step_x * delta, 1000000000000);
                crate::fp::lemma_fp_down_bound(step_z * delta, 1000000000000);
            }
            velocity.x = velocity.x + fp_scale(step_x, delta);
            velocity.z = velocity.z + fp_scale(step_z, delta);
        },
        MovementAction::Jump => {
            if grounded {
                velocity.y = jump_impulse.0;
            }
        },
    }
}

/// `l` is the ceiling square root of `n`: the smallest positive integer
/// whose square reaches `n`.
pub open spec fn is_ceil_sqrt(l: int, n: int) -> bool {
    &&& l > 0
    &&& l * l >= n
    &&& (l - 1) * (l - 1) < n
}

/// The smallest nonnegative integer whose square is at least `n`.
pub fn sqrt_ceil(n: i64) -> (r: i64)
    requires
        0 <= n <= 8000000,
    ensures
        r >= 0,
        r * r >= n,
        r == 0 || (r - 1) * (r - 1) < n,
{
    let mut r: i64 = 0;
    while r * r < n
        invariant
            0 <= r <= 2900,
            r * r <= 9000000,
            r == 0 || (r - 1) * (r - 1) < n,
            n <= 8000000,
        decreases 8000000 - r,
    {
        proof {
            assert(r <= 2828) by (nonlinear_arith)
                requires
                    0 <= r,
                    r * r < 8000000,
            {}
            assert((r + 1) * (r + 1) > r * r && (r + 1) * (r + 1) <= 9000000) by (nonlinear_arith)
                requires
                    0 <= r <= 2828,
            {}
        }
        r = r + 1;
    }
    r
}

/// Shorten `v` onto the disc of radius `max` if it is longer, leaving it
/// untouched otherwise. A longer vector is scaled by `max` over the
/// ceiling square root of its squared length, each component truncated
/// toward zero, so the result never leaves the disc.
pub fn clamp_length_max(v: Vec2, max: i64) -> (r: Vec2)
    requires
        -INTENT_LIMIT <= v.x <= INTENT_LIMIT,
        -INTENT_LIMIT <= v.y <= INTENT_LIMIT,
        0 <= max <= INTENT_LIMIT,
    ensures
        norm2(v) <= max * max ==> r == v,
        norm2(v) > max * max ==> exists|l: int|
            #[trigger] is_ceil_sqrt(l, norm2(v)) && r.x == div_toward_zero(v.x * max, l) && r.y
                == div_toward_zero(v.y * max, l),
        norm2(r) <= max * max,
{
    proof {
        assert(0 <= v.x * v.x <= 4000000 && 0 <= v.y * v.y <= 4000000 && 0 <= max * max <= 4000000
            && -4000000 <= v.x * max <= 4000000 && -4000000 <= v.y * max <= 4000000)
            by (nonlinear_arith)
            requires
                -2000 <= v.x <= 2000,
                -2000 <= v.y <= 2000,
                0 <= max <= 2000,
        {}
    }
    let n: i64 = v.x * v.x + v.y * v.y;
    if n <= max * max {
        v
    } else {
        let l = sqrt_ceil(n);
        proof {
            assert(l > 0) by (nonlinear_arith)
                requires
                    l >= 0,
                    l * l >= n,
                    n > max * max,
                    max >= 0,
            {}
        }
        let rx = div_trunc(v.x * max, l);
        let ry = div_trunc(v.y * max, l);
        proof {
            let li = l as int;
            let mi = max as int;
            assert(is_ceil_sqrt(li, norm2(v)));
            lemma_div_trunc_sq(v.x * mi, li);
            lemma_div_trunc_sq(v.y * mi, li);
            let qx = div_toward_zero(v.x * mi, li);
            let qy = div_toward_zero(v.y * mi, li);
            assert((v.x * mi) * (v.x * mi) == (v.x * v.x) * (mi * mi)) by (nonlinear_arith) {}
            assert((v.y * mi) * (v.y * mi) == (v.y * v.y) * (mi * mi)) by (nonlinear_arith) {}
            assert(qx * qx + qy * qy <= mi * mi) by (nonlinear_arith)
                requires
                    qx * qx * (li * li) <= (v.x * v.x) * (mi * mi),
                    qy * qy * (li * li) <= (v.y * v.y) * (mi * mi),
                    v.x * v.x + v.y * v.y <= li * li,
                    li > 0,
                    mi >= 0,
            {}
        }
        Vec2::new(rx, ry)
    }
}

/// The signed axis value two opposing key states produce.
pub open spec fn key_axis(pos: bool, neg: bool) -> int {
    (if pos {
        1int
    } else {
        0int
    }) - (if neg {
        1int
    } else {
        0int
    })
}

/// Turn the four movement key states into a planar intent of magnitude at
/// most one: each axis contributes a whole unit, and a diagonal is
/// shortened onto the unit disc.
pub fn intent_from_keys(up: bool, down: bool, left: bool, right: bool) -> (r: Vec2)
    ensures
        ({
            let raw = (Vec2 {
                x: (key_axis(right, left) * (FP_ONE as int)) as i64,
                y: (key_axis(up, down) * (FP_ONE as int)) as i64,
            });
            &&& (norm2(raw) <= (FP_ONE as int) * (FP_ONE as int) ==> r == raw)
            &&& (norm2(raw) > (FP_ONE as int) * (FP_ONE as int) ==> exists|l: int|
                #[trigger] is_ceil_sqrt(l, norm2(raw)) && r.x == div_toward_zero(
                    raw.x * (FP_ONE as int),
                    l,
                ) && r.y == div_toward_zero(raw.y * (FP_ONE as int), l))
        }),
        norm2(r) <= (FP_ONE as int) * (FP_ONE as int),
{
    let h: i64 = if right {
        1
    } else {
        0
    } - if left {
        1
    } else {
        0
    };
    let v: i64 = if up {
        1
    } else {
        0
    } - if down {
        1
    } else {
        0
    };
    let raw = Vec2::new(h * FP_ONE, v * FP_ONE);
    clamp_length_max(raw, FP_ONE)
}

/// Scaling a pair by the nonnegative fixed-point scalar `s` keeps its
/// squared magnitude within the scaled bound: if the pair lies in a disc
/// of radius `m`, the scaled pair lies in one of radius `m * s / FP_ONE`.
pub proof fn lemma_fp_scale_pair_norm(ux: int, uz: int, s: int, m: int)
    requires
        ux * ux + uz * uz <= m * m,
        s >= 0,
        m >= 0,
    ensures
        (fp_mul(ux, s) * fp_mul(ux, s) + fp_mul(uz, s) * fp_mul(uz, s)) * ((FP_ONE as int) * (
        FP_ONE as int)) <= (m * s) * (m * s),
{
    let f = FP_ONE as int;
    lemma_div_trunc_sq(ux * s, f);
    lemma_div_trunc_sq(uz * s, f);
    let wx = fp_mul(ux, s);
    let wz = fp_mul(uz, s);
    assert((ux * s) * (ux * s) == (ux * ux) * (s * s)) by (nonlinear_arith) {}
    assert((uz * s) * (uz * s) == (uz * uz) * (s * s)) by (nonlinear_arith) {}
    assert((ux * ux) * (s * s) + (uz * uz) * (s * s) <= (m * m) * (s * s)) by (nonlinear_arith)
        requires
            ux * ux + uz * uz <= m * m,
    {}
    assert((m * m) * (s * s) == (m * s) * (m * s)) by (nonlinear_arith) {}
    assert((wx * wx + wz * wz) * (f * f) == wx * wx * (f * f) + wz * wz * (f * f))
        by (nonlinear_arith) {}
}

/// The planar triangle inequality over squared magnitudes: a pair within
/// radius `b` moved by a pair within radius `q` stays within radius
/// `b + q`.
pub proof fn lemma_norm_triangle(vx: int, vz: int, wx: int, wz: int, b: int, q: int)
    requires
        vx * vx + vz * vz <= b * b,
        wx * wx + wz * wz <= q * q,
        b >= 0,
        q >= 0,
    ensures
        (vx + wx) * (vx + wx) + (vz + wz) * (vz + wz) <= (b + q) * (b + q),
{
    lemma_rotation_norm_product(vx, vz, wx, wz);
    let dot = vx * wx + vz * wz;
    assert(dot * dot <= (vx * vx + vz * vz) * (wx * wx + wz * wz)) by {
        assert((-vx * wz + vz * wx) * (-vx * wz + vz * wx) >= 0) by (nonlinear_arith) {}
    }
    assert((vx * vx + vz * vz) * (wx * wx + wz * wz) <= (b * b) * (q * q)) by (nonlinear_arith)
        requires
            vx * vx + vz * vz <= b * b,
            wx * wx + wz * wz <= q * q,
    {}
    assert((b * b) * (q * q) == (b * q) * (b * q)) by (nonlinear_arith) {}
    assert(dot <= b * q) by (nonlinear_arith)
        requires
            dot * dot <= (b * q) * (b * q),
            b * q >= 0,
    {}
    assert(b * q >= 0) by (nonlinear_arith)
        requires
            b >= 0,
            q >= 0,
    {}
    assert((vx + wx) * (vx + wx) + (vz + wz) * (vz + wz) == (vx * vx + vz * vz) + 2 * dot + (wx * wx
        + wz * wz)) by (nonlinear_arith)
        requires
            dot == vx * wx + vz * wz,
    {}
    assert((b + q) * (b + q) == b * b + 2 * (b * q) + q * q) by (nonlinear_arith) {}
}

/// Before damping, one accelerating tick cannot raise the horizontal
/// speed past the prior speed plus the acceleration applied this tick.
///
/// Here `dx, dz` is the rotated intent (squared magnitude at most one),
/// `a` the effective acceleration, `delta` the elapsed time, `b` any bound
/// on the prior speed, and `q` any fixed-point bound on the acceleration
/// applied this tick, that is on `a * delta / FP_ONE`. The velocity
/// update of a movement tick adds `fp_mul(fp_mul(d, a), delta)` per
/// component, and the squared speed afterwards stays within `(b + q)`
/// squared.
pub proof fn lemma_speed_gain_bound(
    vx: int,
    vz: int,
    dx: int,
    dz: int,
    a: int,
    delta: int,
    b: int,
    q: int,
)
    requires
        dx * dx + dz * dz <= (FP_ONE as int) * (FP_ONE as int),
        vx * vx + vz * vz <= b * b,
        b >= 0,
        a >= 0,
        delta >= 0,
        q >= 0,
        q * (FP_ONE as int) >= a * delta,
    ensures
        ({
            let wx = fp_mul(fp_mul(dx, a), delta as int);
            let wz = fp_mul(fp_mul(dz, a), delta as int);
            (vx + wx) * (vx + wx) + (vz + wz) * (vz + wz) <= (b + q) * (b + q)
        }),
{
    let f = FP_ONE as int;
    let ux = fp_mul(dx, a);
    let uz = fp_mul(dz, a);
    lemma_fp_scale_pair_norm(dx, dz, a, f);
    assert((f * a) * (f * a) == (a * a) * (f * f)) by (nonlinear_arith) {}
    assert(ux * ux + uz * uz <= a * a) by (nonlinear_arith)
        requires
            (ux * ux + uz * uz) * (f * f) <= (a * a) * (f * f),
            f == 1000,
    {}
    let wx = fp_mul(ux, delta);
    let wz = fp_mul(uz, delta);
    lemma_fp_scale_pair_norm(ux, uz, delta, a);
    assert((a * delta) * (a * delta) <= (q * f) * (q * f)) by (nonlinear_arith)
        requires
            0 <= a * delta <= q * f,
    {}
    assert(a * delta >= 0) by (nonlinear_arith)
        requires
            a >= 0,
            delta >= 0,
    {}
    assert((q * f) * (q * f) == (q * q) * (f * f)) by (nonlinear_arith) {}
    assert(wx * wx + wz * wz <= q * q) by (nonlinear_arith)
        requires
            (wx * wx + wz * wz) * (f * f) <= (q * q) * (f * f),
            f == 1000,
    {}
    lemma_norm_triangle(vx, vz, wx, wz, b, q);
}

} // verus!
