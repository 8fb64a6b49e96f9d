//! The breathing cycle.
//!
//! Breathing is a saw-tooth alpha in `[0, FP_ONE)`: it climbs at a rate of
//! `speed / depth` (deeper breaths are slower), capped at [`MAX_SPEED`],
//! and whenever it reaches either bound it resets to `0` and the breath
//! direction flips. `amount` is the smooth-step ease of the alpha scaled
//! by the current depth, recomputed every tick.
//!
//! A zero depth would make the rate unbounded; it is taken as breathing at
//! the capped rate, so a degenerate state never interrupts the tick loop.

use vstd::prelude::*;
use crate::ease;
use crate::ease::EaseFunction;
use crate::fp::{FP_ONE, clamp, clamp_spec, fp_down, fp_mul};

verus! {

/// Whether the current half-cycle is an inhale or an exhale.
#[derive(Clone, Copy, Debug, PartialEq, Eq, Structural, Hash)]
pub enum BreathDirection {
    In,
    Out,
}

/// The other direction.
pub open spec fn opposite(d: BreathDirection) -> BreathDirection {
    match d {
        BreathDirection::In => BreathDirection::Out,
        BreathDirection::Out => BreathDirection::In,
    }
}

/// Cap on the breathing rate and on `speed`, ten units.
pub const MAX_SPEED: i64 = 10000;

/// Cap on `depth`, five units.
pub const MAX_DEPTH: i64 = 5000;

/// How much one operator nudge moves `speed` or `depth`.
pub const BREATH_ADJUST: i64 = 100;

/// Per-entity breathing state.
#[derive(Clone, Copy, Debug, PartialEq, Eq, Structural)]
pub struct Breath {
    /// Breathing effort; clamped into `[0, MAX_SPEED]` on each update.
    pub speed: i64,
    /// Cyclic progress through the current half-cycle, in `[0, FP_ONE)`
    /// after any update.
    pub alpha: i64,
    /// The eased depth at the current alpha.
    pub amount: i64,
    /// Breath depth; clamped into `[0, MAX_DEPTH]` on each update.
    pub depth: i64,
    /// The current half-cycle.
    pub direction: BreathDirection,
}

/// The capped breathing rate for already-clamped `speed` and `depth`:
/// `speed / depth` as a fixed-point quotient, and the cap itself when the
/// depth is zero.
pub open spec fn breath_rate(speed: int, depth: int) -> int {
    if depth == 0 {
        MAX_SPEED as int
    } else {
        clamp_spec((speed * (FP_ONE as int)) / depth, 0, MAX_SPEED as int)
    }
}

/// The alpha one update would reach before the bound check: the old alpha
/// plus rate times elapsed time.
pub open spec fn raw_alpha(alpha: int, rate: int, delta: int) -> int {
    alpha + fp_down(rate * delta)
}

impl Breath {
    /// The state an update leaves behind: alpha inside the cycle, speed and
    /// depth clamped.
    pub open spec fn wf(self) -> bool {
        &&& 0 <= self.alpha < FP_ONE
        &&& 0 <= self.speed <= MAX_SPEED
        &&& 0 <= self.depth <= MAX_DEPTH
    }

    /// One breathing update over `delta` elapsed time.
    ///
    /// Clamps `speed` and `depth`, advances the alpha by the capped rate,
    /// flips the direction exactly when the alpha saturates at either
    /// bound (resetting it to zero), and recomputes the eased `amount`.
    pub fn breath(&mut self, delta: i64)
        requires
            0 <= delta <= 1000000,
            0 <= old(self).alpha <= FP_ONE,
        ensures
            final(self).wf(),
            final(self).speed == clamp_spec(old(self).speed as int, 0, MAX_SPEED as int),
            final(self).depth == clamp_spec(old(self).depth as int, 0, MAX_DEPTH as int),
            ({
                let rate = breath_rate(final(self).speed as int, final(self).depth as int);
                let raw = raw_alpha(old(self).alpha as int, rate, delta as int);
                let boundary = raw >= FP_ONE as int || raw <= 0;
                &&& (boundary ==> final(self).alpha == 0 && final(self).direction == opposite(
                    old(self).direction,
                ))
                &&& (!boundary ==> final(self).alpha == raw && final(self).direction == old(
                    self,
                ).direction)
                &&& (final(self).direction != old(self).direction <==> boundary)
            }),
            final(self).amount == fp_mul(
                final(self).depth as int,
                ease::smooth_step_spec(final(self).alpha as int),
            ),
    {
        self.speed = clamp(self.speed, 0, MAX_SPEED);
        self.depth = clamp(self.depth, 0, MAX_DEPTH);

        // A shallow breath at full effort must not reach an unbounded rate,
        // and a zero depth stands for the cap itself.
        let breathing_rate: i64 = if self.depth == 0 {
            MAX_SPEED
        } else {
            clamp(self.speed * FP_ONE / self.depth, 0, MAX_SPEED)
        };

        // Deeper breaths advance the alpha more slowly.
        proof {
            crate::fp::lemma_fp_down_sign(breathing_rate * delta);
            assert(breathing_rate * delta <= 10000000000int) by (nonlinear_arith)
                requires
                    0 <= breathing_rate <= 10000,
                    0 <= delta <= 1000000,
            {}
            crate::fp::lemma_fp_down_bound(breathing_rate * delta, 10000000);
        }
        let increment = crate::fp::fp_scale(breathing_rate, delta);
        self.alpha = self.alpha + increment;

        let change_breath = self.alpha >= FP_ONE || self.alpha <= 0;

        if change_breath {
            self.alpha = 0;
            self.direction = if self.direction == BreathDirection::In {
                BreathDirection::Out
            } else {
                BreathDirection::In
            };
        }

        let eased = ease::sample(EaseFunction::SmoothStep, self.alpha);
        proof {
            assert(-i64::MAX <= self.depth * eased <= i64::MAX) by (nonlinear_arith)
                requires
                    0 <= self.depth <= 5000,
                    0 <= eased <= 1000,
            {}
        }
        self.amount = crate::fp::fp_scale(self.depth, eased);
    }

    /// Apply the operator's per-tick nudges to depth and speed. The new
    /// values take effect, and are clamped, at the next update.
    pub fn alter(&mut self, deeper: bool, shallower: bool, faster: bool, slower: bool)
        requires
            i64::MIN + 2 * BREATH_ADJUST <= old(self).speed <= i64::MAX - 2 * BREATH_ADJUST,
            i64::MIN + 2 * BREATH_ADJUST <= old(self).depth <= i64::MAX - 2 * BREATH_ADJUST,
        ensures
            final(self).depth == old(self).depth + (if deeper {
                BREATH_ADJUST as int
            } else {
                0
            }) - (if shallower {
                BREATH_ADJUST as int
            } else {
                0
            }),
            final(self).speed == old(self).speed + (if faster {
                BREATH_ADJUST as int
            } else {
                0
            }) - (if slower {
                BREATH_ADJUST as int
            } else {
                0
            }),
            final(self).alpha == old(self).alpha,
            final(self).amount == old(self).amount,
            final(self).direction == old(self).direction,
    {
        if deeper {
            self.depth = self.depth + BREATH_ADJUST;
        }
        if shallower {
            self.depth = self.depth - BREATH_ADJUST;
        }
        if faster {
            self.speed = self.speed + BREATH_ADJUST;
        }
        if slower {
            self.speed = self.speed - BREATH_ADJUST;
        }
    }
}

} // verus!
