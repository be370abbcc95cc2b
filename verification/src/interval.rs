//! Closed one-dimensional intervals `[lo, hi]`.
//!
//! An interval is empty exactly when `lo > hi`. The canonical empty
//! interval is `[1, 0]`, but every predicate treats any inverted pair as
//! empty, so non-canonical empty values are never misread as non-empty.
//! Approximate equality uses the fixed tolerance `1 / 10^15`, held exactly.

use vstd::prelude::*;
use vstd::string::StringExecFns;

use crate::rat::Rat;
use crate::rat::add_fits;
use crate::rat::in_i64;
use crate::rat::rat_eq;
use crate::rat::rat_le;
use crate::rat::rat_lt;
use crate::rat::rat_zero;
use crate::rat::spec_add;
use crate::rat::spec_half;
use crate::rat::spec_max;
use crate::rat::spec_min;
use crate::rat::spec_sub;
use crate::rat::sub_fits;
use crate::rat::lemma_rat_le_trans;
use crate::rat::lemma_rat_le_lt_trans;
use crate::rat::lemma_rat_lt_le_trans;

verus! {

/// Reciprocal of the comparison tolerance: the tolerance is `1 / 10^15`.
pub const EPSILON_RECIP: i64 = 1_000_000_000_000_000;

/// The tolerance used by approximate comparison.
pub open spec fn spec_epsilon() -> Rat {
    Rat { n: 1, d: EPSILON_RECIP }
}

/// Twice the tolerance, the bound allowed on the length of a near-empty
/// interval.
pub open spec fn spec_two_epsilon() -> Rat {
    Rat { n: 2, d: EPSILON_RECIP }
}

/// The negated tolerance.
pub open spec fn spec_neg_epsilon() -> Rat {
    Rat { n: -1i64, d: EPSILON_RECIP }
}

/// A closed interval of rationals. The pair is empty when `lo > hi`.
#[derive(Clone, Copy, Debug, PartialEq, Eq, Structural)]
pub struct Interval {
    pub lo: Rat,
    pub hi: Rat,
}

/// The canonical empty interval `[1, 0]`.
pub open spec fn spec_empty_interval() -> Interval {
    Interval { lo: Rat { n: 1, d: 1 }, hi: Rat { n: 0, d: 1 } }
}

/// Builds the canonical empty interval.
pub fn empty_interval() -> (r: Interval)
    ensures
        r == spec_empty_interval(),
        r.wf(),
        r.spec_is_empty(),
{
    Interval { lo: Rat { n: 1, d: 1 }, hi: Rat { n: 0, d: 1 } }
}

/// Builds the degenerate interval `[p, p]`.
pub fn interval_from_point(p: Rat) -> (r: Interval)
    requires
        p.wf(),
    ensures
        r == (Interval { lo: p, hi: p }),
        r.wf(),
        !r.spec_is_empty(),
{
    Interval { lo: p, hi: p }
}

impl Interval {
    /// Both endpoints are well formed.
    pub open spec fn wf(self) -> bool {
        self.lo.wf() && self.hi.wf()
    }

    /// An interval is empty when its bounds are inverted.
    pub open spec fn spec_is_empty(self) -> bool {
        rat_lt(self.hi, self.lo)
    }

    /// Two intervals are equal when their bounds agree numerically, or when
    /// both are empty, whatever their representations.
    pub open spec fn spec_equal(self, oi: Interval) -> bool {
        (rat_eq(self.lo, oi.lo) && rat_eq(self.hi, oi.hi)) || (self.spec_is_empty()
            && oi.spec_is_empty())
    }

    /// Boundary-inclusive membership.
    pub open spec fn spec_contains(self, p: Rat) -> bool {
        rat_le(self.lo, p) && rat_le(p, self.hi)
    }

    /// Boundary-exclusive membership.
    pub open spec fn spec_interior_contains(self, p: Rat) -> bool {
        rat_lt(self.lo, p) && rat_lt(p, self.hi)
    }

    /// An empty interval is contained in everything; a non-empty one must
    /// fit within the receiver's closed bounds.
    pub open spec fn spec_contains_interval(self, oi: Interval) -> bool {
        oi.spec_is_empty() || (rat_le(self.lo, oi.lo) && rat_le(oi.hi, self.hi))
    }

    /// As containment, but strictly inside the receiver's bounds.
    pub open spec fn spec_interior_contains_interval(self, oi: Interval) -> bool {
        oi.spec_is_empty() || (rat_lt(self.lo, oi.lo) && rat_lt(oi.hi, self.hi))
    }

    /// The two closed intervals share at least one point; false whenever
    /// either operand is empty. The statement is symmetric in the operands.
    pub open spec fn spec_intersects(self, oi: Interval) -> bool {
        &&& !self.spec_is_empty()
        &&& !oi.spec_is_empty()
        &&& rat_le(self.lo, oi.hi)
        &&& rat_le(oi.lo, self.hi)
    }

    /// The open interiors overlap in a non-degenerate range: the receiver
    /// must be non-degenerate and the other operand non-empty.
    pub open spec fn spec_interior_intersects(self, oi: Interval) -> bool {
        &&& rat_lt(oi.lo, self.hi)
        &&& rat_lt(self.lo, oi.hi)
        &&& rat_lt(self.lo, self.hi)
        &&& rat_le(oi.lo, oi.hi)
    }

    /// Bounds of the intersection: the larger low bound and the smaller
    /// high bound. The result may be an inverted, hence empty, pair.
    pub open spec fn spec_intersection(self, oi: Interval) -> Interval {
        Interval { lo: spec_max(self.lo, oi.lo), hi: spec_min(self.hi, oi.hi) }
    }

    /// The smallest interval covering the receiver and `p`.
    pub open spec fn spec_add_point(self, p: Rat) -> Interval {
        if self.spec_is_empty() {
            Interval { lo: p, hi: p }
        } else if rat_lt(p, self.lo) {
            Interval { lo: p, hi: self.hi }
        } else if rat_lt(self.hi, p) {
            Interval { lo: self.lo, hi: p }
        } else {
            self
        }
    }

    /// The projection of `p` into the closed range.
    pub open spec fn spec_clamp_point(self, p: Rat) -> Rat {
        spec_max(self.lo, spec_min(self.hi, p))
    }

    /// An empty interval stays as it is; otherwise both bounds move
    /// outward by `margin` (inward for a negative margin, possibly past
    /// each other, which leaves an inverted, hence empty, pair).
    pub open spec fn spec_expanded(self, margin: Rat) -> Interval {
        if self.spec_is_empty() {
            self
        } else {
            Interval { lo: spec_sub(self.lo, margin), hi: spec_add(self.hi, margin) }
        }
    }

    /// An empty operand yields the other operand unchanged; otherwise the
    /// bounds are the smaller low and the larger high bound.
    pub open spec fn spec_union(self, other: Interval) -> Interval {
        if self.spec_is_empty() {
            other
        } else if other.spec_is_empty() {
            self
        } else {
            Interval { lo: spec_min(self.lo, other.lo), hi: spec_max(self.hi, other.hi) }
        }
    }

    /// The length of the interval is at most twice the tolerance; this is
    /// how approximate comparison treats an operand facing an empty one.
    pub open spec fn spec_len_within_two_epsilon(self) -> bool {
        rat_le(spec_sub(self.hi, self.lo), spec_two_epsilon())
    }

    /// Approximate equality under the fixed tolerance: two empty intervals
    /// always compare equal; an empty and a non-empty one compare equal
    /// when the non-empty one is no longer than twice the tolerance; two
    /// non-empty ones compare equal when both bounds agree within the
    /// tolerance.
    pub open spec fn spec_approx_equal(self, other: Interval) -> bool {
        if self.spec_is_empty() {
            other.spec_len_within_two_epsilon()
        } else if other.spec_is_empty() {
            self.spec_len_within_two_epsilon()
        } else {
            &&& rat_le(spec_neg_epsilon(), spec_sub(other.lo, self.lo))
            &&& rat_le(spec_sub(other.lo, self.lo), spec_epsilon())
            &&& rat_le(spec_neg_epsilon(), spec_sub(other.hi, self.hi))
            &&& rat_le(spec_sub(other.hi, self.hi), spec_epsilon())
        }
    }

    /// The exact differences that approximate comparison takes are
    /// representable; every branch of `approx_equal` works within `i64`.
    pub open spec fn approx_fits(self, other: Interval) -> bool {
        &&& self.spec_is_empty() ==> sub_fits(other.hi, other.lo)
        &&& !self.spec_is_empty() && other.spec_is_empty() ==> sub_fits(self.hi, self.lo)
        &&& !self.spec_is_empty() && !other.spec_is_empty() ==> sub_fits(other.lo, self.lo)
            && sub_fits(other.hi, self.hi)
    }

    /// Whether the bounds are inverted.
    pub fn is_empty(self) -> (r: bool)
        requires
            self.wf(),
        ensures
            r == self.spec_is_empty(),
    {
        self.hi.lt(self.lo)
    }

    /// Numerical equality of bounds, or both operands empty.
    pub fn equal(self, oi: Interval) -> (r: bool)
        requires
            self.wf(),
            oi.wf(),
        ensures
            r == self.spec_equal(oi),
    {
        (self.lo.equals(oi.lo) && self.hi.equals(oi.hi)) || (self.is_empty() && oi.is_empty())
    }

    /// The midpoint `(lo + hi) / 2`.
    pub fn center(self) -> (r: Rat)
        requires
            self.wf(),
            add_fits(self.lo, self.hi),
            in_i64(2 * (self.lo.d * self.hi.d)),
        ensures
            r == spec_half(spec_add(self.lo, self.hi)),
            r.wf(),
    {
        self.lo.add(self.hi).half()
    }

    /// The signed length `hi - lo`; negative exactly for an empty interval.
    pub fn length(self) -> (r: Rat)
        requires
            self.wf(),
            sub_fits(self.hi, self.lo),
        ensures
            r == spec_sub(self.hi, self.lo),
            r.wf(),
            rat_lt(r, rat_zero()) == self.spec_is_empty(),
    {
        self.hi.sub(self.lo)
    }

    /// Boundary-inclusive membership.
    pub fn contains(self, p: Rat) -> (r: bool)
        requires
            self.wf(),
            p.wf(),
        ensures
            r == self.spec_contains(p),
    {
        self.lo.le(p) && p.le(self.hi)
    }

    /// Boundary-exclusive membership.
    pub fn interior_contains(self, p: Rat) -> (r: bool)
        requires
            self.wf(),
            p.wf(),
        ensures
            r == self.spec_interior_contains(p),
    {
        self.lo.lt(p) && p.lt(self.hi)
    }

    /// Whether `oi` lies within the receiver; an empty `oi` is contained
    /// in everything.
    pub fn contains_interval(self, oi: Interval) -> (r: bool)
        requires
            self.wf(),
            oi.wf(),
        ensures
            r == self.spec_contains_interval(oi),
    {
        if oi.is_empty() {
            return true;
        }
        self.lo.le(oi.lo) && oi.hi.le(self.hi)
    }

    /// Whether `oi` lies strictly inside the receiver; an empty `oi` is
    /// contained in everything.
    pub fn interior_contains_interval(self, oi: Interval) -> (r: bool)
        requires
            self.wf(),
            oi.wf(),
        ensures
            r == self.spec_interior_contains_interval(oi),
    {
        if oi.is_empty() {
            return true;
        }
        self.lo.lt(oi.lo) && oi.hi.lt(self.hi)
    }

    /// Whether the closed intervals share a point; false whenever either
    /// operand is empty.
    pub fn intersects(self, oi: Interval) -> (r: bool)
        requires
            self.wf(),
            oi.wf(),
        ensures
            r == self.spec_intersects(oi),
    {
        if self.lo.le(oi.lo) {
            // The ranges meet when oi's low bound falls inside self and oi
            // itself is non-empty.
            let r = oi.lo.le(self.hi) && oi.lo.le(oi.hi);
            proof {
                if r {
                    lemma_rat_le_trans(self.lo, oi.lo, self.hi);
                    lemma_rat_le_trans(self.lo, oi.lo, oi.hi);
                }
            }
            r
        } else {
            // Mirrored case: self's low bound falls inside oi and self is
            // non-empty.
            let r = self.lo.le(oi.hi) && self.lo.le(self.hi);
            proof {
                if r {
                    lemma_rat_lt_le_trans(oi.lo, self.lo, oi.hi);
                    lemma_rat_lt_le_trans(oi.lo, self.lo, self.hi);
                }
            }
            r
        }
    }

    /// Whether the open interiors overlap in a non-degenerate range.
    pub fn interior_intersects(self, oi: Interval) -> (r: bool)
        requires
            self.wf(),
            oi.wf(),
        ensures
            r == self.spec_interior_intersects(oi),
    {
        oi.lo.lt(self.hi) && self.lo.lt(oi.hi) && self.lo.lt(self.hi) && oi.lo.le(oi.hi)
    }

    /// The interval of points common to both operands. An empty result is
    /// returned as the inverted pair itself, not canonicalized; callers
    /// test emptiness through `is_empty`.
    pub fn intersection(self, oi: Interval) -> (r: Interval)
        requires
            self.wf(),
            oi.wf(),
        ensures
            r == self.spec_intersection(oi),
            r.wf(),
    {
        Interval { lo: self.lo.max_of(oi.lo), hi: self.hi.min_of(oi.hi) }
    }

    /// The smallest interval covering the receiver and `p`.
    pub fn add_point(self, p: Rat) -> (r: Interval)
        requires
            self.wf(),
            p.wf(),
        ensures
            r == self.spec_add_point(p),
            r.wf(),
    {
        if self.is_empty() {
            Interval { lo: p, hi: p }
        } else if p.lt(self.lo) {
            Interval { lo: p, hi: self.hi }
        } else if self.hi.lt(p) {
            Interval { lo: self.lo, hi: p }
        } else {
            self
        }
    }

    /// The closest point of the interval to `p`. The receiver must be
    /// non-empty.
    pub fn clamp_point(self, p: Rat) -> (r: Rat)
        requires
            self.wf(),
            p.wf(),
            !self.spec_is_empty(),
        ensures
            r == self.spec_clamp_point(p),
            r.wf(),
    {
        self.lo.max_of(self.hi.min_of(p))
    }

    /// Moves both bounds outward by `margin`; an empty interval stays as
    /// it is, and a large negative margin may invert the bounds, which
    /// leaves an empty interval.
    pub fn expanded(self, margin: Rat) -> (r: Interval)
        requires
            self.wf(),
            margin.wf(),
            !self.spec_is_empty() ==> sub_fits(self.lo, margin) && add_fits(self.hi, margin),
        ensures
            r == self.spec_expanded(margin),
            r.wf(),
    {
        if self.is_empty() {
            return self;
        }
        Interval { lo: self.lo.sub(margin), hi: self.hi.add(margin) }
    }

    /// The smallest interval covering both operands; an empty operand
    /// yields the other operand unchanged.
    pub fn union(self, other: Interval) -> (r: Interval)
        requires
            self.wf(),
            other.wf(),
        ensures
            r == self.spec_union(other),
            r.wf(),
    {
        if self.is_empty() {
            return other;
        }
        if other.is_empty() {
            return self;
        }
        Interval { lo: self.lo.min_of(other.lo), hi: self.hi.max_of(other.hi) }
    }

    /// Approximate equality under the fixed tolerance.
    pub fn approx_equal(self, other: Interval) -> (r: bool)
        requires
            self.wf(),
            other.wf(),
            self.approx_fits(other),
        ensures
            r == self.spec_approx_equal(other),
    {
        let two_eps = Rat::new(2, EPSILON_RECIP);
        if self.is_empty() {
            return other.hi.sub(other.lo).le(two_eps);
        }
        if other.is_empty() {
            return self.hi.sub(self.lo).le(two_eps);
        }
        let eps = Rat::new(1, EPSILON_RECIP);
        let neg_eps = Rat::new(-1, EPSILON_RECIP);
        let dlo = other.lo.sub(self.lo);
        let dhi = other.hi.sub(self.hi);
        neg_eps.le(dlo) && dlo.le(eps) && neg_eps.le(dhi) && dhi.le(eps)
    }

    /// A diagnostic rendering `[lo, hi]` with seven fractional digits; the
    /// exact textual form is not part of the functional contract, only its
    /// determinism.
    pub fn string(self) -> String
        requires
            self.wf(),
    {
        let mut s = String::new();
        s.append("[");
        s.append(crate::render::decimal_string(self.lo, 7).as_str());
        s.append(", ");
        s.append(crate::render::decimal_string(self.hi, 7).as_str());
        s.append("]");
        s
    }

    /// How far the receiver sticks out beyond `other` on either side: zero
    /// for an empty receiver, unbounded (`None`) for a non-empty receiver
    /// against an empty `other`, else `max(0, hi - other.hi, other.lo - lo)`.
    pub fn directed_hausdorff_distance(self, other: Interval) -> (r: Option<Rat>)
        requires
            self.wf(),
            other.wf(),
            !self.spec_is_empty() && !other.spec_is_empty() ==> sub_fits(self.hi, other.hi)
                && sub_fits(other.lo, self.lo),
        ensures
            self.spec_is_empty() ==> r == Some(rat_zero()),
            !self.spec_is_empty() && other.spec_is_empty() ==> r == None::<Rat>,
            !self.spec_is_empty() && !other.spec_is_empty() ==> r == Some(
                spec_max(
                    rat_zero(),
                    spec_max(spec_sub(self.hi, other.hi), spec_sub(other.lo, self.lo)),
                ),
            ),
    {
        if self.is_empty() {
            return Some(Rat::from_int(0));
        }
        if other.is_empty() {
            return None;
        }
        let beyond_hi = self.hi.sub(other.hi);
        let beyond_lo = other.lo.sub(self.lo);
        Some(Rat::from_int(0).max_of(beyond_hi.max_of(beyond_lo)))
    }
}

/// Union with the empty interval is an identity, on either side: for every
/// interval `i`, both `i.union(empty)` and `empty.union(i)` equal `i`.
pub proof fn lemma_union_empty_identity(i: Interval)
    requires
        i.wf(),
    ensures
        i.spec_union(spec_empty_interval()).spec_equal(i),
        spec_empty_interval().spec_union(i).spec_equal(i),
{
}

/// Intersection is symmetric as a predicate, and an empty operand never
/// intersects anything.
pub proof fn lemma_intersects_symmetric(i: Interval, j: Interval)
    requires
        i.wf(),
        j.wf(),
    ensures
        i.spec_intersects(j) == j.spec_intersects(i),
        i.spec_intersects(spec_empty_interval()) == false,
{
}

/// A non-empty interval contains itself, and never interior-contains
/// itself.
pub proof fn lemma_contains_interval_self(i: Interval)
    requires
        i.wf(),
        !i.spec_is_empty(),
    ensures
        i.spec_contains_interval(i),
        !i.spec_interior_contains_interval(i),
{
}

/// Covering a point is idempotent: the interval extended by `p` contains
/// `p`, and extending it by `p` a second time changes nothing.
pub proof fn lemma_add_point_idempotent(i: Interval, p: Rat)
    requires
        i.wf(),
        p.wf(),
    ensures
        i.spec_add_point(p).spec_contains(p),
        i.spec_add_point(p).spec_add_point(p).spec_equal(i.spec_add_point(p)),
{
    if !i.spec_is_empty() {
        if rat_lt(p, i.lo) {
            lemma_rat_lt_le_trans(p, i.lo, i.hi);
        } else if rat_lt(i.hi, p) {
            lemma_rat_le_lt_trans(i.lo, i.hi, p);
        }
    }
}

/// Extending an interval to cover a point keeps every point it already
/// contained.
pub proof fn lemma_add_point_keeps_contained(i: Interval, p: Rat, q: Rat)
    requires
        i.wf(),
        p.wf(),
        q.wf(),
        i.spec_contains(q),
    ensures
        i.spec_add_point(p).spec_contains(q),
{
    if !i.spec_is_empty() {
        if rat_lt(p, i.lo) {
            lemma_rat_lt_le_trans(p, i.lo, q);
        } else if rat_lt(i.hi, p) {
            lemma_rat_le_lt_trans(q, i.hi, p);
        }
    } else {
        // An empty interval contains no point, against the hypothesis.
        assert(rat_le(i.lo, q) && rat_le(q, i.hi));
        lemma_rat_le_trans(i.lo, q, i.hi);
    }
}

} // verus!
