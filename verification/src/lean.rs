//! The camera-lean state machine.
//!
//! Lean is a raw scalar in `[-FP_ONE, FP_ONE]`, negative to the left. A
//! held lean key moves the raw value toward its side by a fixed per-tick
//! step, as long as the state is not strictly on the opposite side; with
//! both keys held and the state at zero, both moves fire and the right
//! lean wins in code order. With no key held the raw value relaxes toward
//! zero at the same step. The state keeps the raw value; the eased
//! rotation magnitude is derived from it fresh each tick, so the applied
//! angle is continuous across the left-right boundary (the eased
//! magnitude vanishes at zero).
//!
//! The angle is meant to be applied by the engine layer as a roll around a
//! pivot held fixed relative to the camera; the library only computes the
//! signed angle.

use vstd::prelude::*;
use crate::ease;
use crate::ease::EaseFunction;
use crate::fp::{FP_ONE, clamp, clamp_spec, fp_mul};

verus! {

/// The per-tick step of the raw lean value.
pub const LEAN_STEP: i64 = 100;

/// The largest lean roll, thirty fixed-point degrees.
pub const MAX_LEAN_DEGREES: i64 = 30000;

/// The raw lean value, in `[-FP_ONE, FP_ONE]`; negative leans left.
#[derive(Clone, Copy, Debug, PartialEq, Eq, Structural)]
pub struct LeanState(pub i64);

impl LeanState {
    /// The raw value lies in `[-FP_ONE, FP_ONE]`.
    pub open spec fn wf(self) -> bool {
        -FP_ONE <= self.0 <= FP_ONE
    }
}

/// The raw lean value one tick produces, before clamping.
pub open spec fn lean_raw_spec(cur: int, lean_left: bool, lean_right: bool) -> int {
    let left_fires = lean_left && !(cur > 0);
    let right_fires = lean_right && !(cur < 0);
    if right_fires {
        cur + LEAN_STEP
    } else if left_fires {
        cur - LEAN_STEP
    } else if lean_left || lean_right {
        cur
    } else if cur > 0 {
        if cur - LEAN_STEP > 0 {
            cur - LEAN_STEP
        } else {
            0int
        }
    } else if cur < 0 {
        if cur + LEAN_STEP < 0 {
            cur + LEAN_STEP
        } else {
            0int
        }
    } else {
        0int
    }
}

/// The lean value after one tick: the raw move, clamped into
/// `[-FP_ONE, FP_ONE]`.
pub open spec fn lean_step_spec(cur: int, lean_left: bool, lean_right: bool) -> int {
    clamp_spec(lean_raw_spec(cur, lean_left, lean_right), -FP_ONE as int, FP_ONE as int)
}

impl LeanState {
    /// One lean tick driven by the two lean key states.
    ///
    /// A key moves the value toward its side unless the state is strictly
    /// on the opposite side; the right key wins when both fire. With no
    /// key held the value relaxes toward zero, never crossing it.
    pub fn update(&mut self, lean_left: bool, lean_right: bool)
        requires
            old(self).wf(),
        ensures
            final(self).wf(),
            final(self).0 == lean_step_spec(old(self).0 as int, lean_left, lean_right),
    {
        let cur: i64 = self.0;
        let left_fires = lean_left && !(cur > 0);
        let right_fires = lean_right && !(cur < 0);
        let raw: i64 = if right_fires {
            cur + LEAN_STEP
        } else if left_fires {
            cur - LEAN_STEP
        } else if lean_left || lean_right {
            cur
        } else if cur > 0 {
            if cur - LEAN_STEP > 0 {
                cur - LEAN_STEP
            } else {
                0
            }
        } else if cur < 0 {
            if cur + LEAN_STEP < 0 {
                cur + LEAN_STEP
            } else {
                0
            }
        } else {
            0
        };
        self.0 = clamp(raw, -FP_ONE, FP_ONE);
    }

    /// The signed roll, in fixed-point degrees, the current lean asks of
    /// the camera: the eased magnitude of the raw value, mirrored onto
    /// the raw value's own side. One curve shapes an active lean, another
    /// the relaxation, and both vanish at zero, so the angle is
    /// continuous across the sign boundary.
    pub fn angle_degrees(&self, actively_leaning: bool) -> (r: i64)
        requires
            self.wf(),
        ensures
            ({
                let curve = lean_curve(actively_leaning);
                let magnitude = fp_mul(
                    MAX_LEAN_DEGREES as int,
                    ease::ease_spec(
                        curve,
                        if self.0 >= 0 {
                            self.0 as int
                        } else {
                            -(self.0 as int)
                        },
                    ),
                );
                r == if self.0 >= 0 {
                    magnitude
                } else {
                    -magnitude
                }
            }),
            -MAX_LEAN_DEGREES <= r <= MAX_LEAN_DEGREES,
    {
        let magnitude_in: i64 = if self.0 >= 0 {
            self.0
        } else {
            -self.0
        };
        let curve = if actively_leaning {
            EaseFunction::SmoothStep
        } else {
            EaseFunction::QuarticOut
        };
        let eased = ease::sample(curve, magnitude_in);
        proof {
            assert(0 <= (MAX_LEAN_DEGREES as int) * eased <= 30000000int) by (nonlinear_arith)
                requires
                    0 <= eased <= 1000,
            {}
            crate::fp::lemma_fp_down_bound((MAX_LEAN_DEGREES as int) * eased, MAX_LEAN_DEGREES as int);
            crate::fp::lemma_fp_down_sign((MAX_LEAN_DEGREES as int) * eased);
        }
        let magnitude = crate::fp::fp_scale(MAX_LEAN_DEGREES, eased);
        if self.0 >= 0 {
            magnitude
        } else {
            -magnitude
        }
    }
}

/// The curve shaping the lean: a smooth-step while a key drives it, a
/// quartic-out while it relaxes.
pub open spec fn lean_curve(actively_leaning: bool) -> EaseFunction {
    if actively_leaning {
        EaseFunction::SmoothStep
    } else {
        EaseFunction::QuarticOut
    }
}

} // verus!
