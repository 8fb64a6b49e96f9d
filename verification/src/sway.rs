//! Randomized weapon sway, modulated by breathing.
//!
//! Sway drifts the weapon between random offsets. Whenever the breath
//! alpha crosses a cycle boundary the sway base snaps to the previous
//! target, and whenever base and target meet a new target is drawn
//! uniformly within bounds scaled by the breath depth. The vertical range
//! is one-sided: the full magnitude lies on the inhale side while
//! breathing in and on the exhale side while breathing out, which is what
//! makes the sway drift up during an inhale and down during an exhale.
//!
//! The per-tick contribution is an interpolation from base to target
//! re-anchored at the weapon's pending position, so a cycle never has to
//! return to center before the next one starts.

use vstd::prelude::*;
use crate::breath::{Breath, BreathDirection};
use crate::ease;
use crate::ease::EaseFunction;
use crate::fp::{FP_ONE, fp_mul};
use crate::pipeline::{TranslationPipeline, QUEUE_LIMIT};
use crate::vec3::{Vec3, vec_in_bounds};

verus! {

/// Bound on a sway configuration's `max_sway`.
pub const SWAY_LIMIT: i64 = 1000000;

/// Bound on every component of the sway base and target: the largest
/// effective sway, [`SWAY_LIMIT`] times the largest depth.
pub const SWAY_STATE_LIMIT: i64 = 5000000;

/// Bound on the re-anchoring origin a sway interpolation may start from:
/// the largest value the translation pipeline can flatten to.
pub const ORIGIN_LIMIT: i64 = 1000001000000000000;

/// Relies on `rand::random_range` over the inclusive integer range
/// `lo..=hi`: the draw lies within the bounds. The range is nonempty, so
/// the call does not panic.
#[verifier::external_body]
fn random_in_range(lo: i64, hi: i64) -> (r: i64)
    requires
        lo <= hi,
    ensures
        lo <= r <= hi,
{
    rand::random_range(lo..=hi)
}

/// The sway magnitude breathing allows right now: `max_sway` scaled by the
/// breath depth.
pub open spec fn effective_sway(max_sway: int, depth: int) -> int {
    fp_mul(max_sway, depth)
}

/// The magnitude below zero the vertical draw may reach: full on an
/// inhale, none on an exhale.
pub open spec fn sway_in_bound(direction: BreathDirection, eff: int) -> int {
    if direction == BreathDirection::In {
        eff
    } else {
        0
    }
}

/// The magnitude above zero the vertical draw may reach: full on an
/// exhale, none on an inhale.
pub open spec fn sway_out_bound(direction: BreathDirection, eff: int) -> int {
    if direction == BreathDirection::Out {
        eff
    } else {
        0
    }
}

/// `v` lies within the box a draw under `direction` and magnitude `eff`
/// may land in.
pub open spec fn in_sway_box(v: Vec3, direction: BreathDirection, eff: int) -> bool {
    &&& -(eff / 2) <= v.x <= eff / 2
    &&& -sway_in_bound(direction, eff) <= v.y <= sway_out_bound(direction, eff)
    &&& -eff <= v.z <= eff
}

/// Per-entity sway state: the offset being left and the offset being
/// approached.
#[derive(Clone, Copy, Debug, PartialEq, Eq, Structural)]
pub struct WeaponSway {
    /// Largest sway magnitude at depth one.
    pub max_sway: i64,
    /// The offset the current interpolation starts from.
    pub base: Vec3,
    /// The offset the current interpolation approaches.
    pub next: Vec3,
}

impl WeaponSway {
    /// Configuration and state stay within their bounds.
    pub open spec fn wf(self) -> bool {
        &&& 0 <= self.max_sway <= SWAY_LIMIT
        &&& vec_in_bounds(self.base, SWAY_STATE_LIMIT as int)
        &&& vec_in_bounds(self.next, SWAY_STATE_LIMIT as int)
    }

    /// A sway at rest: base and target both at the origin.
    pub fn new(max_sway: i64) -> (r: WeaponSway)
        requires
            0 <= max_sway <= SWAY_LIMIT,
        ensures
            r.wf(),
            r.max_sway == max_sway,
            r.base == (Vec3 { x: 0i64, y: 0i64, z: 0i64 }),
            r.next == (Vec3 { x: 0i64, y: 0i64, z: 0i64 }),
    {
        WeaponSway { max_sway, base: Vec3::zero(), next: Vec3::zero() }
    }

    /// Snap the base to the target: the finished interpolation's end
    /// becomes the next one's start.
    pub fn renew(&mut self)
        ensures
            final(self).base == old(self).next,
            final(self).next == old(self).next,
            final(self).max_sway == old(self).max_sway,
    {
        self.base = self.next;
    }

    /// Draw a new target uniformly within the bounds breathing allows:
    /// half magnitude sideways, full magnitude in depth, and vertically
    /// only toward the side the breath direction favors.
    ///
    /// The target is random; what holds of every outcome is that it lands
    /// in the sway box of the current breath.
    pub fn change(&mut self, breath: &Breath)
        requires
            old(self).wf(),
            breath.wf(),
        ensures
            final(self).wf(),
            final(self).max_sway == old(self).max_sway,
            final(self).base == old(self).base,
            in_sway_box(
                final(self).next,
                breath.direction,
                effective_sway(old(self).max_sway as int, breath.depth as int),
            ),
    {
        proof {
            assert(0 <= self.max_sway * breath.depth <= 5000000000int) by (nonlinear_arith)
                requires
                    0 <= self.max_sway <= 1000000,
                    0 <= breath.depth <= 5000,
            {}
            crate::fp::lemma_fp_down_bound(self.max_sway * breath.depth, SWAY_STATE_LIMIT as int);
            crate::fp::lemma_fp_down_sign(self.max_sway * breath.depth);
        }
        let effective: i64 = crate::fp::fp_scale(self.max_sway, breath.depth);
        let half_sway: i64 = effective / 2;

        let sway_in: i64 = if breath.direction == BreathDirection::In {
            effective
        } else {
            0
        };

        let sway_out: i64 = if breath.direction == BreathDirection::Out {
            effective
        } else {
            0
        };

        // The magnitudes are nonnegative, so none of the ranges is empty.
        self.next = Vec3::new(
            // smaller half-sway sideways
            random_in_range(-half_sway, half_sway),
            // one-sided vertical range, flipping with the breath
            random_in_range(-sway_in, sway_out),
            // full sway range in depth
            random_in_range(-effective, effective),
        );
    }

    /// The current interpolation is finished: base has reached the target.
    pub fn is_complete(&self) -> (r: bool)
        ensures
            r == (self.base == self.next),
    {
        self.base == self.next
    }

    /// The vector from base to target, each taken relative to `origin`.
    ///
    /// Anchoring both ends at the same origin cancels it out, which is what
    /// lets one sway cycle hand over to the next without revisiting the
    /// center.
    pub fn diff_from(&self, origin: Vec3) -> (r: Vec3)
        requires
            self.wf(),
            vec_in_bounds(origin, ORIGIN_LIMIT as int),
        ensures
            r.x == self.next.x - self.base.x,
            r.y == self.next.y - self.base.y,
            r.z == self.next.z - self.base.z,
    {
        let base_from_origin = origin.add(self.base);
        let next_from_origin = origin.add(self.next);
        next_from_origin.sub(base_from_origin)
    }

    /// Interpolate from the old target (the base) toward the new one by
    /// `alpha`.
    pub fn lerp_from(&self, origin: Vec3, alpha: i64) -> (r: Vec3)
        requires
            self.wf(),
            vec_in_bounds(origin, ORIGIN_LIMIT as int),
            0 <= alpha <= FP_ONE,
        ensures
            r.x == self.base.x + fp_mul(self.next.x - self.base.x, alpha as int),
            r.y == self.base.y + fp_mul(self.next.y - self.base.y, alpha as int),
            r.z == self.base.z + fp_mul(self.next.z - self.base.z, alpha as int),
            vec_in_bounds(r, 3 * (SWAY_STATE_LIMIT as int)),
    {
        let difference = self.diff_from(origin);
        proof {
            crate::vec3::lemma_scale_unit_bounded(
                difference,
                alpha as int,
                2 * (SWAY_STATE_LIMIT as int),
            );
        }
        self.base.add(difference.scale(alpha))
    }
}

/// One sway tick.
///
/// On a breath-cycle boundary the base snaps to the previous target; when
/// base and target meet a fresh target is drawn; and the smooth-step ease
/// of the breath alpha interpolates between them, re-anchored at the
/// pipeline's pending position and queued there.
pub fn sway_tick(breath: &Breath, sway: &mut WeaponSway, pipeline: &mut TranslationPipeline)
    requires
        breath.wf(),
        old(sway).wf(),
        old(pipeline).wf(),
        old(pipeline).additive_translations@.len() < QUEUE_LIMIT,
    ensures
        final(sway).wf(),
        final(pipeline).wf(),
        final(sway).max_sway == old(sway).max_sway,
        ({
            let boundary = breath.alpha >= FP_ONE || breath.alpha == 0;
            let base1 = if boundary {
                old(sway).next
            } else {
                old(sway).base
            };
            let drawn = (base1 == old(sway).next);
            &&& final(sway).base == base1
            &&& (!drawn ==> final(sway).next == old(sway).next)
            &&& (drawn ==> in_sway_box(
                final(sway).next,
                breath.direction,
                effective_sway(old(sway).max_sway as int, breath.depth as int),
            ))
        }),
        final(pipeline).base_translation == old(pipeline).base_translation,
        final(pipeline).additive_translations@ =~= old(pipeline).additive_translations@.push(
            ({
                let c = ease::smooth_step_spec(breath.alpha as int);
                Vec3 {
                    x: (final(sway).base.x + fp_mul(
                        final(sway).next.x - final(sway).base.x,
                        c,
                    )) as i64,
                    y: (final(sway).base.y + fp_mul(
                        final(sway).next.y - final(sway).base.y,
                        c,
                    )) as i64,
                    z: (final(sway).base.z + fp_mul(
                        final(sway).next.z - final(sway).base.z,
                        c,
                    )) as i64,
                }
            }),
        ),
{
    if breath.alpha >= FP_ONE || breath.alpha == 0 {
        sway.renew();
    }

    if sway.is_complete() {
        sway.change(breath);
    }

    let curve_alpha = ease::sample(EaseFunction::SmoothStep, breath.alpha);

    let position = pipeline.latest();
    let contribution = sway.lerp_from(position, curve_alpha);
    pipeline.queue(contribution);
}

} // verus!
