//! Aim-down-sights blending.
//!
//! A binary aim input drives a scalar alpha in `[0, FP_ONE]` by a fixed
//! per-tick step: toward `FP_ONE` while aiming, toward `0` otherwise. The
//! alpha is eased asymmetrically — quartic-out while aiming in,
//! quintic-in-out while aiming out — and the eased value scales the vector
//! from the hip pose to the sight pose, which is queued on the translation
//! pipeline.
//!
//! The step is a constant per tick, not scaled by elapsed time, so the blend
//! speed follows the tick rate; the convergence lemma below counts ticks.

use vstd::prelude::*;
use crate::ease;
use crate::ease::EaseFunction;
use crate::fp::{FP_ONE, clamp, clamp_spec, fp_mul};
use crate::pipeline::{TranslationPipeline, COORD_LIMIT, QUEUE_LIMIT};
use crate::vec3::{Vec3, vec_in_bounds, lemma_scale_unit_bounded};

verus! {

/// Per-tick step of the aim alpha while the aim input is held.
pub const AIM_STEP: i64 = 50;

/// Per-tick step of the aim alpha back toward zero once released.
pub const UNAIM_STEP: i64 = 50;

/// Bound on each component of the hip and sight poses: half of
/// [`COORD_LIMIT`], so that their difference stays within the pipeline's
/// bound.
pub const OFFSET_LIMIT: i64 = 500000000000;

/// The aim-down-sights blend alpha, a scalar in `[0, FP_ONE]`.
#[derive(Clone, Copy, Debug, PartialEq, Eq, Structural)]
pub struct AdsAlpha(pub i64);

/// The weapon's resting (hip) and aimed (sight) poses.
#[derive(Clone, Copy, Debug, PartialEq, Eq, Structural)]
pub struct PlayerWeaponTransformConfig {
    pub hip: Vec3,
    pub aim: Vec3,
}

impl AdsAlpha {
    /// The alpha lies in `[0, FP_ONE]`.
    pub open spec fn wf(self) -> bool {
        0 <= self.0 <= FP_ONE
    }
}

impl PlayerWeaponTransformConfig {
    /// Both poses lie within [`OFFSET_LIMIT`] per component.
    pub open spec fn wf(self) -> bool {
        &&& vec_in_bounds(self.hip, OFFSET_LIMIT as int)
        &&& vec_in_bounds(self.aim, OFFSET_LIMIT as int)
    }

    /// Pair a hip pose with a sight pose.
    pub fn new(hip: Vec3, aim: Vec3) -> (r: PlayerWeaponTransformConfig)
        ensures
            r == (PlayerWeaponTransformConfig { hip, aim }),
    {
        PlayerWeaponTransformConfig { hip, aim }
    }

    /// The vector from the hip pose to the sight pose.
    pub fn aim_difference(&self) -> (r: Vec3)
        requires
            self.wf(),
        ensures
            r.x == self.aim.x - self.hip.x,
            r.y == self.aim.y - self.hip.y,
            r.z == self.aim.z - self.hip.z,
            vec_in_bounds(r, COORD_LIMIT as int),
    {
        self.aim.sub(self.hip)
    }
}

/// The signed per-tick step the aim input selects.
pub open spec fn ads_step_size(aiming: bool) -> int {
    if aiming {
        AIM_STEP as int
    } else {
        -(UNAIM_STEP as int)
    }
}

/// One per-tick step of the aim alpha, clamped into `[0, FP_ONE]`.
pub open spec fn ads_step(a: int, aiming: bool) -> int {
    clamp_spec(a + ads_step_size(aiming), 0, FP_ONE as int)
}

/// The aim alpha after `n` ticks of a constant aim input.
pub open spec fn ads_after(a: int, aiming: bool, n: nat) -> int
    decreases n,
{
    if n == 0 {
        a
    } else {
        ads_step(ads_after(a, aiming, (n - 1) as nat), aiming)
    }
}

/// Stepping never leaves `[0, FP_ONE]`.
pub proof fn lemma_ads_after_in_range(a: int, aiming: bool, n: nat)
    requires
        0 <= a <= FP_ONE as int,
    ensures
        0 <= ads_after(a, aiming, n) <= FP_ONE as int,
    decreases n,
{
    if n > 0 {
        lemma_ads_after_in_range(a, aiming, (n - 1) as nat);
    }
}

/// Holding the aim input for at least `FP_ONE / AIM_STEP` ticks drives the
/// alpha all the way to `FP_ONE`; releasing it for at least
/// `FP_ONE / UNAIM_STEP` ticks drives it all the way to `0`. The alpha
/// never overshoots either bound.
pub proof fn lemma_ads_converges(a: int, n: nat)
    requires
        0 <= a <= FP_ONE as int,
    ensures
        n * (AIM_STEP as int) >= FP_ONE as int ==> ads_after(a, true, n) == FP_ONE as int,
        n * (UNAIM_STEP as int) >= FP_ONE as int ==> ads_after(a, false, n) == 0,
        0 <= ads_after(a, true, n) <= FP_ONE as int,
        0 <= ads_after(a, false, n) <= FP_ONE as int,
    decreases n,
{
    lemma_ads_after_in_range(a, true, n);
    lemma_ads_after_in_range(a, false, n);
    if n > 0 {
        lemma_ads_converges(a, (n - 1) as nat);
        lemma_ads_progress(a, true, n);
        lemma_ads_progress(a, false, n);
        assert(n * (AIM_STEP as int) == (n - 1) * (AIM_STEP as int) + (AIM_STEP as int))
            by (nonlinear_arith)
        {}
        assert(n * (UNAIM_STEP as int) == (n - 1) * (UNAIM_STEP as int) + (UNAIM_STEP as int))
            by (nonlinear_arith)
        {}
    }
}

/// After `n` ticks the alpha has moved at least `n` steps toward its goal,
/// short of saturation.
pub proof fn lemma_ads_progress(a: int, aiming: bool, n: nat)
    requires
        0 <= a <= FP_ONE as int,
    ensures
        aiming ==> ads_after(a, true, n) >= a + n * (AIM_STEP as int) || ads_after(a, true, n)
            == FP_ONE as int,
        !aiming ==> ads_after(a, false, n) <= a - n * (UNAIM_STEP as int) || ads_after(
            a,
            false,
            n,
        ) == 0,
    decreases n,
{
    if n > 0 {
        lemma_ads_progress(a, aiming, (n - 1) as nat);
        lemma_ads_after_in_range(a, aiming, (n - 1) as nat);
        assert(n * (AIM_STEP as int) == (n - 1) * (AIM_STEP as int) + (AIM_STEP as int))
            by (nonlinear_arith)
        {}
        assert(n * (UNAIM_STEP as int) == (n - 1) * (UNAIM_STEP as int) + (UNAIM_STEP as int))
            by (nonlinear_arith)
        {}
    } else {
        assert(n * (AIM_STEP as int) == 0) by (nonlinear_arith)
            requires
                n == 0,
        {}
        assert(n * (UNAIM_STEP as int) == 0) by (nonlinear_arith)
            requires
                n == 0,
        {}
    }
}

/// One aim tick: step and clamp the alpha, ease it — quartic-out on the way
/// in, quintic-in-out on the way out — and queue the eased share of the
/// hip-to-sight vector on the pipeline.
pub fn aim_tick(
    pipeline: &mut TranslationPipeline,
    config: &PlayerWeaponTransformConfig,
    ads_alpha: &mut AdsAlpha,
    aiming: bool,
)
    requires
        old(pipeline).wf(),
        old(pipeline).additive_translations@.len() < QUEUE_LIMIT,
        config.wf(),
        old(ads_alpha).wf(),
    ensures
        final(pipeline).wf(),
        final(ads_alpha).wf(),
        final(ads_alpha).0 == ads_step(old(ads_alpha).0 as int, aiming),
        final(pipeline).base_translation == old(pipeline).base_translation,
        final(pipeline).additive_translations@ =~= old(pipeline).additive_translations@.push(
            ({
                let e = ease_choice(aiming);
                let c = ease::ease_spec(e, ads_step(old(ads_alpha).0 as int, aiming));
                Vec3 {
                    x: fp_mul(config.aim.x - config.hip.x, c) as i64,
                    y: fp_mul(config.aim.y - config.hip.y, c) as i64,
                    z: fp_mul(config.aim.z - config.hip.z, c) as i64,
                }
            }),
        ),
{
    let step: i64 = if aiming {
        AIM_STEP
    } else {
        -UNAIM_STEP
    };

    let ease_fn = if aiming {
        EaseFunction::QuarticOut
    } else {
        EaseFunction::QuinticInOut
    };

    let new_ads_alpha: i64 = ads_alpha.0 + step;
    ads_alpha.0 = clamp(new_ads_alpha, 0, FP_ONE);

    let curve_alpha: i64 = ease::sample(ease_fn, ads_alpha.0);

    let difference = config.aim_difference();
    proof {
        lemma_scale_unit_bounded(difference, curve_alpha as int, COORD_LIMIT as int);
        assert(difference.x * curve_alpha <= (COORD_LIMIT as int) * (FP_ONE as int))
            by (nonlinear_arith)
            requires
                -(COORD_LIMIT as int) <= difference.x <= COORD_LIMIT as int,
                0 <= curve_alpha <= FP_ONE as int,
        {}
        assert(-(COORD_LIMIT as int) * (FP_ONE as int) <= difference.x * curve_alpha)
            by (nonlinear_arith)
            requires
                -(COORD_LIMIT as int) <= difference.x <= COORD_LIMIT as int,
                0 <= curve_alpha <= FP_ONE as int,
        {}
        assert(-(COORD_LIMIT as int) * (FP_ONE as int) <= difference.y * curve_alpha <= (
        COORD_LIMIT as int) * (FP_ONE as int)) by (nonlinear_arith)
            requires
                -(COORD_LIMIT as int) <= difference.y <= COORD_LIMIT as int,
                0 <= curve_alpha <= FP_ONE as int,
        {}
        assert(-(COORD_LIMIT as int) * (FP_ONE as int) <= difference.z * curve_alpha <= (
        COORD_LIMIT as int) * (FP_ONE as int)) by (nonlinear_arith)
            requires
                -(COORD_LIMIT as int) <= difference.z <= COORD_LIMIT as int,
                0 <= curve_alpha <= FP_ONE as int,
        {}
    }
    let queued = difference.scale(curve_alpha);
    pipeline.queue(queued);
}

/// The curve each direction of the blend samples.
pub open spec fn ease_choice(aiming: bool) -> EaseFunction {
    if aiming {
        EaseFunction::QuarticOut
    } else {
        EaseFunction::QuinticInOut
    }
}

} // verus!
