//! Axis-aligned rectangles: the Cartesian product of two intervals.
//!
//! Every rectangle operation is the corresponding interval operation
//! applied independently per axis, plus one validity contract: a
//! rectangle is valid when its two axes agree on emptiness, and no
//! operation here ever produces a half-empty rectangle.

use vstd::prelude::*;
use vstd::string::StringExecFns;

use crate::interval::Interval;
use crate::interval::spec_empty_interval;
use crate::point::Point;
use crate::rat::Rat;
use crate::rat::add_fits;
use crate::rat::in_i64;
use crate::rat::rat_zero;
use crate::rat::spec_add;
use crate::rat::spec_half;
use crate::rat::spec_sub;
use crate::rat::sub_fits;
use crate::interval::lemma_add_point_idempotent;
use crate::interval::lemma_add_point_keeps_contained;
use crate::rat::lemma_rat_le_trans;

verus! {

/// An axis-aligned rectangle, the product of an x-interval and a
/// y-interval.
#[derive(Clone, Copy, Debug, PartialEq, Eq, Structural)]
pub struct Rect {
    pub x: Interval,
    pub y: Interval,
}

/// The canonical empty rectangle: both axes canonically empty.
pub open spec fn spec_empty_rect() -> Rect {
    Rect { x: spec_empty_interval(), y: spec_empty_interval() }
}

/// Builds the canonical empty rectangle.
pub fn empty_rect() -> (r: Rect)
    ensures
        r == spec_empty_rect(),
        r.wf(),
        r.spec_is_valid(),
{
    Rect { x: crate::interval::empty_interval(), y: crate::interval::empty_interval() }
}

/// The bounding box of a list of points: the degenerate box `[0,0]x[0,0]`
/// for an empty list, else the smallest rectangle containing every point,
/// grown point by point. The result is always valid, contains every input
/// point, and attains each of its four bounds at some input point.
pub fn rect_from_points(points: &[Point]) -> (r: Rect)
    requires
        forall|k: int| 0 <= k < points@.len() ==> (#[trigger] points@[k]).wf(),
    ensures
        r.wf(),
        r.spec_is_valid(),
        points@.len() == 0 ==> r == (Rect {
            x: Interval { lo: rat_zero(), hi: rat_zero() },
            y: Interval { lo: rat_zero(), hi: rat_zero() },
        }),
        forall|k: int| 0 <= k < points@.len() ==> r.spec_contains_point(#[trigger] points@[k]),
        points@.len() > 0 ==> !r.x.spec_is_empty() && !r.y.spec_is_empty(),
        points@.len() > 0 ==> (exists|k: int|
            0 <= k < points@.len() && r.x.lo == (#[trigger] points@[k]).x) && (exists|k: int|
            0 <= k < points@.len() && r.x.hi == (#[trigger] points@[k]).x) && (exists|k: int|
            0 <= k < points@.len() && r.y.lo == (#[trigger] points@[k]).y) && (exists|k: int|
            0 <= k < points@.len() && r.y.hi == (#[trigger] points@[k]).y),
{
    if points.len() == 0 {
        let zero = Rat::from_int(0);
        return Rect {
            x: Interval { lo: zero, hi: zero },
            y: Interval { lo: zero, hi: zero },
        };
    }
    let first = points[0];
    let mut r = Rect {
        x: Interval { lo: first.x, hi: first.x },
        y: Interval { lo: first.y, hi: first.y },
    };
    let mut idx: usize = 0;
    while idx < points.len()
        invariant
            points@.len() > 0,
            idx <= points@.len(),
            forall|k: int| 0 <= k < points@.len() ==> (#[trigger] points@[k]).wf(),
            r.wf(),
            !r.x.spec_is_empty(),
            !r.y.spec_is_empty(),
            forall|k: int| 0 <= k < idx ==> r.spec_contains_point(#[trigger] points@[k]),
            exists|k: int| 0 <= k < points@.len() && r.x.lo == (#[trigger] points@[k]).x,
            exists|k: int| 0 <= k < points@.len() && r.x.hi == (#[trigger] points@[k]).x,
            exists|k: int| 0 <= k < points@.len() && r.y.lo == (#[trigger] points@[k]).y,
            exists|k: int| 0 <= k < points@.len() && r.y.hi == (#[trigger] points@[k]).y,
        decreases points@.len() - idx,
    {
        let p = points[idx];
        let next = r.add_point(p);
        proof {
            lemma_add_point_idempotent(r.x, p.x);
            lemma_add_point_idempotent(r.y, p.y);
            assert forall|k: int| 0 <= k < idx + 1 implies next.spec_contains_point(
                #[trigger] points@[k],
            ) by {
                if k < idx {
                    lemma_add_point_keeps_contained(r.x, p.x, points@[k].x);
                    lemma_add_point_keeps_contained(r.y, p.y, points@[k].y);
                }
            }
        }
        r = next;
        idx = idx + 1;
    }
    r
}

/// The rectangle centered at `center` whose width and height are the two
/// components of `size`; the size components must be non-negative.
pub fn rect_from_center_size(center: Point, size: Point) -> (r: Rect)
    requires
        center.wf(),
        size.wf(),
        crate::rat::rat_le(rat_zero(), size.x),
        crate::rat::rat_le(rat_zero(), size.y),
        in_i64(2 * size.x.d),
        in_i64(2 * size.y.d),
        sub_fits(center.x, spec_half(size.x)),
        add_fits(center.x, spec_half(size.x)),
        sub_fits(center.y, spec_half(size.y)),
        add_fits(center.y, spec_half(size.y)),
    ensures
        r.x == (Interval {
            lo: spec_sub(center.x, spec_half(size.x)),
            hi: spec_add(center.x, spec_half(size.x)),
        }),
        r.y == (Interval {
            lo: spec_sub(center.y, spec_half(size.y)),
            hi: spec_add(center.y, spec_half(size.y)),
        }),
        r.wf(),
{
    let hx = size.x.half();
    let hy = size.y.half();
    let ix = Interval { lo: center.x.sub(hx), hi: center.x.add(hx) };
    let iy = Interval { lo: center.y.sub(hy), hi: center.y.add(hy) };
    Rect { x: ix, y: iy }
}

impl Rect {
    /// Both axes are well formed.
    pub open spec fn wf(self) -> bool {
        self.x.wf() && self.y.wf()
    }

    /// A rectangle is valid when its axes agree on emptiness.
    pub open spec fn spec_is_valid(self) -> bool {
        self.x.spec_is_empty() == self.y.spec_is_empty()
    }

    /// Membership of a point, axis by axis.
    pub open spec fn spec_contains_point(self, p: Point) -> bool {
        self.x.spec_contains(p.x) && self.y.spec_contains(p.y)
    }

    /// Interior membership of a point, axis by axis.
    pub open spec fn spec_interior_contains_point(self, p: Point) -> bool {
        self.x.spec_interior_contains(p.x) && self.y.spec_interior_contains(p.y)
    }

    /// Containment of a rectangle, axis by axis.
    pub open spec fn spec_contains(self, r: Rect) -> bool {
        self.x.spec_contains_interval(r.x) && self.y.spec_contains_interval(r.y)
    }

    /// Interior containment of a rectangle, axis by axis.
    pub open spec fn spec_interior_contains(self, r: Rect) -> bool {
        self.x.spec_interior_contains_interval(r.x) && self.y.spec_interior_contains_interval(r.y)
    }

    /// Overlap of rectangles: both axes must overlap.
    pub open spec fn spec_intersects(self, r: Rect) -> bool {
        self.x.spec_intersects(r.x) && self.y.spec_intersects(r.y)
    }

    /// Interior overlap of rectangles, axis by axis.
    pub open spec fn spec_interior_intersects(self, r: Rect) -> bool {
        self.x.spec_interior_intersects(r.x) && self.y.spec_interior_intersects(r.y)
    }

    /// Growth to cover a point, axis by axis.
    pub open spec fn spec_add_point(self, p: Point) -> Rect {
        Rect { x: self.x.spec_add_point(p.x), y: self.y.spec_add_point(p.y) }
    }

    /// The smallest rectangle covering both operands, axis by axis.
    pub open spec fn spec_union(self, r: Rect) -> Rect {
        Rect { x: self.x.spec_union(r.x), y: self.y.spec_union(r.y) }
    }

    /// The intersection, canonicalized to the empty rectangle whenever
    /// either axis comes out empty, which restores validity.
    pub open spec fn spec_intersection(self, r: Rect) -> Rect {
        let xx = self.x.spec_intersection(r.x);
        let yy = self.y.spec_intersection(r.y);
        if xx.spec_is_empty() || yy.spec_is_empty() {
            spec_empty_rect()
        } else {
            Rect { x: xx, y: yy }
        }
    }

    /// Expansion by a per-axis margin, canonicalized to the empty
    /// rectangle whenever either expanded axis comes out empty.
    pub open spec fn spec_expanded(self, margin: Point) -> Rect {
        let xx = self.x.spec_expanded(margin.x);
        let yy = self.y.spec_expanded(margin.y);
        if xx.spec_is_empty() || yy.spec_is_empty() {
            spec_empty_rect()
        } else {
            Rect { x: xx, y: yy }
        }
    }

    /// Whether the axes agree on emptiness.
    pub fn is_valid(self) -> (r: bool)
        requires
            self.wf(),
        ensures
            r == self.spec_is_valid(),
    {
        self.x.is_empty() == self.y.is_empty()
    }

    /// The four corners in counter-clockwise order, starting at the lower
    /// left.
    pub fn vertices(self) -> (r: [Point; 4])
        requires
            self.wf(),
        ensures
            r@.len() == 4,
            r@[0] == (Point { x: self.x.lo, y: self.y.lo }),
            r@[1] == (Point { x: self.x.hi, y: self.y.lo }),
            r@[2] == (Point { x: self.x.hi, y: self.y.hi }),
            r@[3] == (Point { x: self.x.lo, y: self.y.hi }),
    {
        [
            Point { x: self.x.lo, y: self.y.lo },
            Point { x: self.x.hi, y: self.y.lo },
            Point { x: self.x.hi, y: self.y.hi },
            Point { x: self.x.lo, y: self.y.hi },
        ]
    }

    /// The corner selected by two indices: `1` picks the high bound on the
    /// respective axis, any other value the low bound.
    pub fn vertex_i_j(self, i: i64, j: i64) -> (r: Point)
        requires
            self.wf(),
        ensures
            r.x == if i == 1 {
                self.x.hi
            } else {
                self.x.lo
            },
            r.y == if j == 1 {
                self.y.hi
            } else {
                self.y.lo
            },
    {
        let x = if i == 1 {
            self.x.hi
        } else {
            self.x.lo
        };
        let y = if j == 1 {
            self.y.hi
        } else {
            self.y.lo
        };
        Point { x, y }
    }

    /// The lower-left corner.
    pub fn lo(self) -> (r: Point)
        requires
            self.wf(),
        ensures
            r == (Point { x: self.x.lo, y: self.y.lo }),
    {
        Point { x: self.x.lo, y: self.y.lo }
    }

    /// The upper-right corner.
    pub fn hi(self) -> (r: Point)
        requires
            self.wf(),
        ensures
            r == (Point { x: self.x.hi, y: self.y.hi }),
    {
        Point { x: self.x.hi, y: self.y.hi }
    }

    /// The center, axis midpoint by axis midpoint.
    pub fn center(self) -> (r: Point)
        requires
            self.wf(),
            add_fits(self.x.lo, self.x.hi),
            in_i64(2 * (self.x.lo.d * self.x.hi.d)),
            add_fits(self.y.lo, self.y.hi),
            in_i64(2 * (self.y.lo.d * self.y.hi.d)),
        ensures
            r.x == spec_half(spec_add(self.x.lo, self.x.hi)),
            r.y == spec_half(spec_add(self.y.lo, self.y.hi)),
            r.wf(),
    {
        Point { x: self.x.center(), y: self.y.center() }
    }

    /// The width and height, as the two axis lengths.
    pub fn size(self) -> (r: Point)
        requires
            self.wf(),
            sub_fits(self.x.hi, self.x.lo),
            sub_fits(self.y.hi, self.y.lo),
        ensures
            r.x == spec_sub(self.x.hi, self.x.lo),
            r.y == spec_sub(self.y.hi, self.y.lo),
            r.wf(),
    {
        Point { x: self.x.length(), y: self.y.length() }
    }

    /// Boundary-inclusive membership of a point.
    pub fn contains_point(self, p: Point) -> (r: bool)
        requires
            self.wf(),
            p.wf(),
        ensures
            r == self.spec_contains_point(p),
    {
        self.x.contains(p.x) && self.y.contains(p.y)
    }

    /// Boundary-exclusive membership of a point.
    pub fn interior_contains_point(self, p: Point) -> (r: bool)
        requires
            self.wf(),
            p.wf(),
        ensures
            r == self.spec_interior_contains_point(p),
    {
        self.x.interior_contains(p.x) && self.y.interior_contains(p.y)
    }

    /// Whether `r` lies within the receiver on both axes.
    pub fn contains(self, r: Rect) -> (res: bool)
        requires
            self.wf(),
            r.wf(),
        ensures
            res == self.spec_contains(r),
    {
        self.x.contains_interval(r.x) && self.y.contains_interval(r.y)
    }

    /// Whether `r` lies strictly inside the receiver on both axes.
    pub fn interior_contains(self, r: Rect) -> (res: bool)
        requires
            self.wf(),
            r.wf(),
        ensures
            res == self.spec_interior_contains(r),
    {
        self.x.interior_contains_interval(r.x) && self.y.interior_contains_interval(r.y)
    }

    /// Whether the rectangles share a point.
    pub fn intersects(self, r: Rect) -> (res: bool)
        requires
            self.wf(),
            r.wf(),
        ensures
            res == self.spec_intersects(r),
    {
        self.x.intersects(r.x) && self.y.intersects(r.y)
    }

    /// Whether the open interiors share a non-degenerate region.
    pub fn interior_intersects(self, r: Rect) -> (res: bool)
        requires
            self.wf(),
            r.wf(),
        ensures
            res == self.spec_interior_intersects(r),
    {
        self.x.interior_intersects(r.x) && self.y.interior_intersects(r.y)
    }

    /// The smallest rectangle covering the receiver and `p`.
    pub fn add_point(self, p: Point) -> (r: Rect)
        requires
            self.wf(),
            p.wf(),
        ensures
            r == self.spec_add_point(p),
            r.wf(),
    {
        Rect { x: self.x.add_point(p.x), y: self.y.add_point(p.y) }
    }

    /// The smallest rectangle covering the receiver and `r`, bound for
    /// bound the same operation as `union`.
    pub fn add_rect(self, r: Rect) -> (res: Rect)
        requires
            self.wf(),
            r.wf(),
        ensures
            res == self.spec_union(r),
            res.wf(),
    {
        Rect { x: self.x.union(r.x), y: self.y.union(r.y) }
    }

    /// The closest point of the rectangle to `p`. The rectangle must be
    /// non-empty.
    pub fn clamp_point(self, p: Point) -> (r: Point)
        requires
            self.wf(),
            p.wf(),
            !self.x.spec_is_empty(),
            !self.y.spec_is_empty(),
        ensures
            r.x == self.x.spec_clamp_point(p.x),
            r.y == self.y.spec_clamp_point(p.y),
            r.wf(),
    {
        Point { x: self.x.clamp_point(p.x), y: self.y.clamp_point(p.y) }
    }

    /// Expansion by a per-axis margin; if either expanded axis comes out
    /// empty the whole rectangle collapses to the canonical empty one.
    pub fn expanded(self, margin: Point) -> (r: Rect)
        requires
            self.wf(),
            margin.wf(),
            !self.x.spec_is_empty() ==> sub_fits(self.x.lo, margin.x) && add_fits(
                self.x.hi,
                margin.x,
            ),
            !self.y.spec_is_empty() ==> sub_fits(self.y.lo, margin.y) && add_fits(
                self.y.hi,
                margin.y,
            ),
        ensures
            r == self.spec_expanded(margin),
            r.wf(),
            r.spec_is_valid(),
    {
        let xx = self.x.expanded(margin.x);
        let yy = self.y.expanded(margin.y);
        if xx.is_empty() || yy.is_empty() {
            return empty_rect();
        }
        Rect { x: xx, y: yy }
    }

    /// Expansion by the same margin on all four sides.
    pub fn expanded_by_margin(self, margin: Rat) -> (r: Rect)
        requires
            self.wf(),
            margin.wf(),
            !self.x.spec_is_empty() ==> sub_fits(self.x.lo, margin) && add_fits(self.x.hi, margin),
            !self.y.spec_is_empty() ==> sub_fits(self.y.lo, margin) && add_fits(self.y.hi, margin),
        ensures
            r == self.spec_expanded(Point { x: margin, y: margin }),
            r.wf(),
            r.spec_is_valid(),
    {
        self.expanded(Point { x: margin, y: margin })
    }

    /// The smallest rectangle covering both operands.
    pub fn union(self, r: Rect) -> (res: Rect)
        requires
            self.wf(),
            r.wf(),
        ensures
            res == self.spec_union(r),
            res.wf(),
    {
        Rect { x: self.x.union(r.x), y: self.y.union(r.y) }
    }

    /// The largest rectangle contained in both operands, canonicalized to
    /// the empty rectangle whenever either axis comes out empty.
    pub fn intersection(self, r: Rect) -> (res: Rect)
        requires
            self.wf(),
            r.wf(),
        ensures
            res == self.spec_intersection(r),
            res.wf(),
            res.spec_is_valid(),
    {
        let xx = self.x.intersection(r.x);
        let yy = self.y.intersection(r.y);
        if xx.is_empty() || yy.is_empty() {
            return empty_rect();
        }
        Rect { x: xx, y: yy }
    }

    /// A diagnostic rendering of the two extreme corners; the exact
    /// textual form is not part of the functional contract, only its
    /// determinism.
    pub fn string(self) -> String
        requires
            self.wf(),
    {
        let mut s = String::new();
        s.append("[lo");
        s.append(self.lo().string().as_str());
        s.append(", hi");
        s.append(self.hi().string().as_str());
        s.append("]");
        s
    }

    /// Approximate equality: both axes must agree within the tolerance.
    pub fn approx_equal(self, r: Rect) -> (res: bool)
        requires
            self.wf(),
            r.wf(),
            self.x.approx_fits(r.x),
            self.y.approx_fits(r.y),
        ensures
            res == (self.x.spec_approx_equal(r.x) && self.y.spec_approx_equal(r.y)),
    {
        self.x.approx_equal(r.x) && self.y.approx_equal(r.y)
    }
}

/// The union of two valid rectangles is valid.
pub proof fn lemma_union_valid(r1: Rect, r2: Rect)
    requires
        r1.wf(),
        r2.wf(),
        r1.spec_is_valid(),
        r2.spec_is_valid(),
    ensures
        r1.spec_union(r2).spec_is_valid(),
{
    if !r1.x.spec_is_empty() && !r2.x.spec_is_empty() {
        lemma_rat_le_trans(crate::rat::spec_min(r1.x.lo, r2.x.lo), r1.x.lo, r1.x.hi);
        lemma_rat_le_trans(
            crate::rat::spec_min(r1.x.lo, r2.x.lo),
            r1.x.hi,
            crate::rat::spec_max(r1.x.hi, r2.x.hi),
        );
        lemma_rat_le_trans(crate::rat::spec_min(r1.y.lo, r2.y.lo), r1.y.lo, r1.y.hi);
        lemma_rat_le_trans(
            crate::rat::spec_min(r1.y.lo, r2.y.lo),
            r1.y.hi,
            crate::rat::spec_max(r1.y.hi, r2.y.hi),
        );
    }
}

/// The intersection of any two rectangles is valid, whatever the
/// operands: an empty axis collapses the result to the canonical empty
/// rectangle.
pub proof fn lemma_intersection_valid(r1: Rect, r2: Rect)
    requires
        r1.wf(),
        r2.wf(),
    ensures
        r1.spec_intersection(r2).spec_is_valid(),
{
}

} // verus!
