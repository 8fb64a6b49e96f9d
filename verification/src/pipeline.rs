//! The translation pipeline: a base translation plus an ordered queue of
//! additive offsets contributed within one tick.
//!
//! Flattening is a flat sum — base plus every queued offset — so the order
//! in which producers queued their contributions does not matter; the
//! permutation lemma below states that. `apply` flattens and clears the
//! queue; `latest` reads the pending value without clearing, for producers
//! that must re-anchor on the accumulated position before adding their own
//! offset.

use vstd::prelude::*;
use crate::vec3::{Vec3, vec_in_bounds};

verus! {

/// Bound on every translation component the pipeline holds.
pub const COORD_LIMIT: i64 = 1000000000000;

/// Bound on the number of offsets queued within one tick.
pub const QUEUE_LIMIT: usize = 1000000;

/// Componentwise sum of a sequence of vectors, as unbounded integers.
pub open spec fn sum_of(s: Seq<Vec3>) -> (int, int, int)
    decreases s.len(),
{
    if s.len() == 0 {
        (0int, 0int, 0int)
    } else {
        let p = sum_of(s.drop_last());
        (p.0 + s.last().x, p.1 + s.last().y, p.2 + s.last().z)
    }
}

/// The sum of a bounded sequence is bounded by its length times the
/// component bound.
pub proof fn lemma_sum_bounded(s: Seq<Vec3>, m: int)
    requires
        m >= 0,
        forall|i: int| 0 <= i < s.len() ==> vec_in_bounds(#[trigger] s[i], m),
    ensures
        -(s.len() * m) <= sum_of(s).0 <= s.len() * m,
        -(s.len() * m) <= sum_of(s).1 <= s.len() * m,
        -(s.len() * m) <= sum_of(s).2 <= s.len() * m,
    decreases s.len(),
{
    if s.len() > 0 {
        assert(s.last() == s[s.len() - 1]);
        lemma_sum_bounded(s.drop_last(), m);
        assert((s.len() - 1) * m + m == s.len() * m) by (nonlinear_arith) {}
    }
}

/// Removing an element takes exactly its contribution out of the sum.
pub proof fn lemma_sum_remove(s: Seq<Vec3>, i: int)
    requires
        0 <= i < s.len(),
    ensures
        sum_of(s).0 == sum_of(s.remove(i)).0 + s[i].x,
        sum_of(s).1 == sum_of(s.remove(i)).1 + s[i].y,
        sum_of(s).2 == sum_of(s.remove(i)).2 + s[i].z,
    decreases s.len(),
{
    if i == s.len() - 1 {
        assert(s.remove(i) =~= s.drop_last());
    } else {
        assert(s.remove(i).drop_last() =~= s.drop_last().remove(i));
        assert(s.remove(i).last() == s.last());
        lemma_sum_remove(s.drop_last(), i);
    }
}

/// The flat sum depends only on which offsets were queued, not on their
/// order: two queues holding the same multiset of offsets sum alike.
pub proof fn lemma_sum_permutation(s1: Seq<Vec3>, s2: Seq<Vec3>)
    requires
        s1.to_multiset() == s2.to_multiset(),
    ensures
        sum_of(s1) == sum_of(s2),
    decreases s1.len(),
{
    broadcast use vstd::seq_lib::group_to_multiset_ensures;

    if s1.len() == 0 {
        assert(s1.to_multiset().len() == s1.len());
        assert(s2.to_multiset().len() == s2.len());
        assert(s2.len() == 0);
    } else {
        let n = s1.len() - 1;
        let v = s1.last();
        assert(s1[n] == v);
        assert(s1.contains(v));
        assert(s2.to_multiset().count(v) > 0);
        assert(s2.contains(v));
        let i = choose|i: int| 0 <= i < s2.len() && s2[i] == v;
        assert(s1.remove(n) =~= s1.drop_last());
        assert(s1.remove(n).to_multiset() == s1.to_multiset().remove(v));
        assert(s2.remove(i).to_multiset() == s2.to_multiset().remove(v));
        lemma_sum_remove(s2, i);
        lemma_sum_permutation(s1.drop_last(), s2.remove(i));
    }
}

/// A base translation and the offsets queued so far this tick.
#[derive(Debug)]
pub struct TranslationPipeline {
    pub base_translation: Vec3,
    pub additive_translations: Vec<Vec3>,
}

impl TranslationPipeline {
    /// Every component the pipeline holds is within [`COORD_LIMIT`] and the
    /// queue is within [`QUEUE_LIMIT`].
    pub open spec fn wf(self) -> bool {
        &&& vec_in_bounds(self.base_translation, COORD_LIMIT as int)
        &&& self.additive_translations@.len() <= QUEUE_LIMIT
        &&& forall|i: int|
            0 <= i < self.additive_translations@.len() ==> vec_in_bounds(
                #[trigger] self.additive_translations@[i],
                COORD_LIMIT as int,
            )
    }

    /// The flattened value: base plus the sum of the queue.
    pub open spec fn flattened(self) -> (int, int, int) {
        let q = sum_of(self.additive_translations@);
        (
            self.base_translation.x + q.0,
            self.base_translation.y + q.1,
            self.base_translation.z + q.2,
        )
    }

    /// Start a pipeline over the given base with an empty queue.
    pub fn new(translation: Vec3) -> (r: TranslationPipeline)
        requires
            vec_in_bounds(translation, COORD_LIMIT as int),
        ensures
            r.wf(),
            r.base_translation == translation,
            r.additive_translations@ =~= Seq::<Vec3>::empty(),
    {
        TranslationPipeline { base_translation: translation, additive_translations: Vec::new() }
    }

    /// Queue one additive offset for this tick.
    pub fn queue(&mut self, translation: Vec3)
        requires
            old(self).wf(),
            old(self).additive_translations@.len() < QUEUE_LIMIT,
            vec_in_bounds(translation, COORD_LIMIT as int),
        ensures
            final(self).wf(),
            final(self).base_translation == old(self).base_translation,
            final(self).additive_translations@ =~= old(self).additive_translations@.push(
                translation,
            ),
    {
        self.additive_translations.push(translation);
    }

    /// The pending flattened value, leaving the queue as it is.
    pub fn latest(&self) -> (r: Vec3)
        requires
            self.wf(),
        ensures
            r.x == self.flattened().0,
            r.y == self.flattened().1,
            r.z == self.flattened().2,
            vec_in_bounds(r, (QUEUE_LIMIT + 1) * (COORD_LIMIT as int)),
    {
        let ghost q = self.additive_translations@;
        let mut out: Vec3 = self.base_translation;
        let n: usize = self.additive_translations.len();
        let mut i: usize = 0;
        proof {
            assert(q.take(0) =~= Seq::<Vec3>::empty());
        }
        while i < n
            invariant
                0 <= i <= n,
                n == q.len() <= QUEUE_LIMIT,
                q == self.additive_translations@,
                self.wf(),
                out.x == self.base_translation.x + sum_of(q.take(i as int)).0,
                out.y == self.base_translation.y + sum_of(q.take(i as int)).1,
                out.z == self.base_translation.z + sum_of(q.take(i as int)).2,
                vec_in_bounds(out, (1 + i) * (COORD_LIMIT as int)),
            decreases n - i,
        {
            proof {
                lemma_sum_bounded(q.take(i as int), COORD_LIMIT as int);
                assert(q.take(i + 1).drop_last() =~= q.take(i as int));
                assert(q.take(i + 1).last() == q[i as int]);
                assert((1 + i) * (COORD_LIMIT as int) + (COORD_LIMIT as int) == (1 + (i + 1)) * (
                COORD_LIMIT as int)) by (nonlinear_arith) {}
                assert((1 + i) * (COORD_LIMIT as int) <= (1 + QUEUE_LIMIT) * (COORD_LIMIT as int))
                    by (nonlinear_arith)
                    requires
                        0 <= i <= QUEUE_LIMIT,
                {}
            }
            let t = self.additive_translations[i];
            out = out.add(t);
            i = i + 1;
        }
        proof {
            assert(q.take(n as int) =~= q);
            assert((1 + n) * (COORD_LIMIT as int) <= (QUEUE_LIMIT + 1) * (COORD_LIMIT as int))
                by (nonlinear_arith)
                requires
                    0 <= n <= QUEUE_LIMIT,
            {}
        }
        out
    }

    /// Flatten the queue into base plus every queued offset, and clear the
    /// queue; a second call with nothing queued in between returns the base
    /// alone.
    pub fn apply(&mut self) -> (r: Vec3)
        requires
            old(self).wf(),
        ensures
            final(self).wf(),
            r.x == old(self).flattened().0,
            r.y == old(self).flattened().1,
            r.z == old(self).flattened().2,
            final(self).base_translation == old(self).base_translation,
            final(self).additive_translations@ =~= Seq::<Vec3>::empty(),
            vec_in_bounds(r, (QUEUE_LIMIT + 1) * (COORD_LIMIT as int)),
    {
        let out = self.latest();
        self.additive_translations.clear();
        out
    }
}

} // verus!
