//! Easing curves.
//!
//! A curve maps a normalized fixed-point progress value in `[0, FP_ONE]` to
//! an eased output in the same range. The three curves here are the ones
//! the pipeline samples: a smooth-step for breathing and sway, a
//! quartic-out for aiming in and a quintic-in-out for aiming out.

use vstd::prelude::*;
use crate::fp::FP_ONE;

verus! {

/// The easing curves the pipeline knows.
#[derive(Clone, Copy, Debug, PartialEq, Eq, Structural)]
pub enum EaseFunction {
    /// `3a^2 - 2a^3`: eases in and out gently.
    SmoothStep,
    /// `1 - (1-a)^4`: fast start, slow finish.
    QuarticOut,
    /// `16a^5` below the midpoint, mirrored above it.
    QuinticInOut,
}

/// `3a^2 - 2a^3` over fixed-point scalars, truncated.
pub open spec fn smooth_step_spec(a: int) -> int {
    (a * a * (3 * (FP_ONE as int) - 2 * a)) / ((FP_ONE as int) * (FP_ONE as int))
}

/// `1 - (1-a)^4` over fixed-point scalars, truncated.
pub open spec fn quartic_out_spec(a: int) -> int {
    let u = (FP_ONE as int) - a;
    (FP_ONE as int) - (u * u * u * u) / ((FP_ONE as int) * (FP_ONE as int) * (FP_ONE as int))
}

/// `16a^5` below the midpoint, `1 - 16(1-a)^5` at and above it,
/// over fixed-point scalars, truncated.
pub open spec fn quintic_in_out_spec(a: int) -> int {
    let f = FP_ONE as int;
    if a < f / 2 {
        (16 * a * a * a * a * a) / (f * f * f * f)
    } else {
        let u = f - a;
        f - (16 * u * u * u * u * u) / (f * f * f * f)
    }
}

/// The value of `ease` at progress `a`.
pub open spec fn ease_spec(ease: EaseFunction, a: int) -> int {
    match ease {
        EaseFunction::SmoothStep => smooth_step_spec(a),
        EaseFunction::QuarticOut => quartic_out_spec(a),
        EaseFunction::QuinticInOut => quintic_in_out_spec(a),
    }
}

/// On `[0, FP_ONE]` the smooth-step stays in `[0, FP_ONE]`.
pub proof fn lemma_smooth_step_range(a: int)
    requires
        0 <= a <= FP_ONE as int,
    ensures
        0 <= smooth_step_spec(a) <= FP_ONE as int,
{
    let f = FP_ONE as int;
    let t = a * a * (3 * f - 2 * a);
    assert(0 <= a * a * (3 * f - 2 * a) <= f * f * f) by (nonlinear_arith)
        requires
            0 <= a <= f,
            f == 1000,
    {
        assert(f * f * f - a * a * (3 * f - 2 * a) == (f - a) * (f - a) * (f + 2 * a));
        assert((f - a) * (f - a) * (f + 2 * a) >= 0);
    }
    assert(t / (f * f) <= f) by (nonlinear_arith)
        requires
            0 <= t <= f * f * f,
            f == 1000,
    {}
}

/// On `[0, FP_ONE]` the quartic-out stays in `[0, FP_ONE]`.
pub proof fn lemma_quartic_out_range(a: int)
    requires
        0 <= a <= FP_ONE as int,
    ensures
        0 <= quartic_out_spec(a) <= FP_ONE as int,
{
    let f = FP_ONE as int;
    let u = f - a;
    assert(0 <= u * u * u * u <= f * f * f * f) by (nonlinear_arith)
        requires
            0 <= u <= f,
    {}
    assert((u * u * u * u) / (f * f * f) <= f) by (nonlinear_arith)
        requires
            0 <= u * u * u * u <= f * f * f * f,
            f == 1000,
    {}
}

/// On `[0, FP_ONE]` the quintic-in-out stays in `[0, FP_ONE]`.
pub proof fn lemma_quintic_in_out_range(a: int)
    requires
        0 <= a <= FP_ONE as int,
    ensures
        0 <= quintic_in_out_spec(a) <= FP_ONE as int,
{
    let f = FP_ONE as int;
    if a < f / 2 {
        assert(0 <= 16 * a * a * a * a * a <= f * f * f * f * f) by (nonlinear_arith)
            requires
                0 <= a,
                2 * a <= f,
                f == 1000,
        {
            assert(16 * a * a * a * a * a == (2 * a) * (2 * a) * (2 * a) * (2 * a) * (2 * a) / 2);
        }
        assert((16 * a * a * a * a * a) / (f * f * f * f) <= f) by (nonlinear_arith)
            requires
                0 <= 16 * a * a * a * a * a <= f * f * f * f * f,
                f == 1000,
        {}
    } else {
        let u = f - a;
        assert(0 <= 16 * u * u * u * u * u <= f * f * f * f * f) by (nonlinear_arith)
            requires
                0 <= u,
                2 * u <= f,
                f == 1000,
        {
            assert(16 * u * u * u * u * u == (2 * u) * (2 * u) * (2 * u) * (2 * u) * (2 * u) / 2);
        }
        assert((16 * u * u * u * u * u) / (f * f * f * f) <= f) by (nonlinear_arith)
            requires
                0 <= 16 * u * u * u * u * u <= f * f * f * f * f,
                f == 1000,
        {}
    }
}

/// Every curve maps `[0, FP_ONE]` into `[0, FP_ONE]`.
pub proof fn lemma_ease_range(ease: EaseFunction, a: int)
    requires
        0 <= a <= FP_ONE as int,
    ensures
        0 <= ease_spec(ease, a) <= FP_ONE as int,
{
    match ease {
        EaseFunction::SmoothStep => lemma_smooth_step_range(a),
        EaseFunction::QuarticOut => lemma_quartic_out_range(a),
        EaseFunction::QuinticInOut => lemma_quintic_in_out_range(a),
    }
}

/// Sample `ease` at the progress value `a`.
pub fn sample(ease: EaseFunction, a: i64) -> (r: i64)
    requires
        0 <= a <= FP_ONE,
    ensures
        r == ease_spec(ease, a as int),
        0 <= r <= FP_ONE,
{
    proof {
        lemma_ease_range(ease, a as int);
    }
    match ease {
        EaseFunction::SmoothStep => {
            proof {
                assert(0 <= a * a <= 1000000int) by (nonlinear_arith)
                    requires
                        0 <= a <= 1000,
                {}
            }
            let a2: i64 = a * a;
            proof {
                assert(0 <= a2 * (3000 - 2 * a) <= 3000000000int) by (nonlinear_arith)
                    requires
                        0 <= a2 <= 1000000,
                        0 <= a <= 1000,
                {}
            }
            let t: i64 = a2 * (3 * FP_ONE - 2 * a);
            t / (FP_ONE * FP_ONE)
        },
        EaseFunction::QuarticOut => {
            let u: i64 = FP_ONE - a;
            proof {
                assert(0 <= u * u <= 1000000int) by (nonlinear_arith)
                    requires
                        0 <= u <= 1000,
                {}
            }
            let u2: i64 = u * u;
            proof {
                assert(0 <= u2 * u2 <= 1000000000000int) by (nonlinear_arith)
                    requires
                        0 <= u2 <= 1000000,
                {}
                assert(u2 * u2 == u * u * u * u) by (nonlinear_arith)
                    requires
                        u2 == u * u,
                {}
            }
            let t: i64 = u2 * u2;
            FP_ONE - t / (FP_ONE * FP_ONE * FP_ONE)
        },
        EaseFunction::QuinticInOut => {
            if a < FP_ONE / 2 {
                proof {
                    assert(0 <= a * a <= 1000000int) by (nonlinear_arith)
                        requires
                            0 <= a <= 1000,
                    {}
                }
                let a2: i64 = a * a;
                proof {
                    assert(0 <= a2 * a2 <= 1000000000000int) by (nonlinear_arith)
                        requires
                            0 <= a2 <= 1000000,
                    {}
                }
                let a4: i64 = a2 * a2;
                proof {
                    assert(0 <= 16 * a4 * a <= 16000000000000000int) by (nonlinear_arith)
                        requires
                            0 <= a4 <= 1000000000000int,
                            0 <= a <= 1000,
                    {}
                    assert(16 * a4 * a == 16 * a * a * a * a * a) by (nonlinear_arith)
                        requires
                            a2 == a * a,
                            a4 == a2 * a2,
                    {}
                }
                let t: i64 = 16 * a4 * a;
                t / (FP_ONE * FP_ONE * FP_ONE * FP_ONE)
            } else {
                let u: i64 = FP_ONE - a;
                proof {
                    assert(0 <= u * u <= 1000000int) by (nonlinear_arith)
                        requires
                            0 <= u <= 1000,
                    {}
                }
                let u2: i64 = u * u;
                proof {
                    assert(0 <= u2 * u2 <= 1000000000000int) by (nonlinear_arith)
                        requires
                            0 <= u2 <= 1000000,
                    {}
                }
                let u4: i64 = u2 * u2;
                proof {
                    assert(0 <= 16 * u4 * u <= 16000000000000000int) by (nonlinear_arith)
                        requires
                            0 <= u4 <= 1000000000000int,
                            0 <= u <= 1000,
                    {}
                    assert(16 * u4 * u == 16 * u * u * u * u * u) by (nonlinear_arith)
                        requires
                            u2 == u * u,
                            u4 == u2 * u2,
                    {}
                }
                let t: i64 = 16 * u4 * u;
                FP_ONE - t / (FP_ONE * FP_ONE * FP_ONE * FP_ONE)
            }
        },
    }
}

} // verus!
