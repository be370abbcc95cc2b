//! Two-dimensional points, the corner and size type of rectangles.
//!
//! A point is a pair of exact rational coordinates with componentwise
//! arithmetic. The square-root-bound measures (Euclidean norm and
//! normalization) have no exact rational value and are not part of this
//! type.

use vstd::prelude::*;
use vstd::string::StringExecFns;

use crate::rat::Rat;
use crate::rat::add_fits;
use crate::rat::mul_fits;
use crate::rat::spec_add;
use crate::rat::spec_mul;
use crate::rat::spec_sub;
use crate::rat::sub_fits;

verus! {

/// A point (or size, or margin pair) in the plane.
#[derive(Clone, Copy, Debug, PartialEq, Eq, Structural)]
pub struct Point {
    pub x: Rat,
    pub y: Rat,
}

impl Point {
    /// Both coordinates are well formed.
    pub open spec fn wf(self) -> bool {
        self.x.wf() && self.y.wf()
    }

    /// Componentwise sum.
    pub fn add(self, p: Point) -> (r: Point)
        requires
            self.wf(),
            p.wf(),
            add_fits(self.x, p.x),
            add_fits(self.y, p.y),
        ensures
            r.x == spec_add(self.x, p.x),
            r.y == spec_add(self.y, p.y),
            r.wf(),
    {
        Point { x: self.x.add(p.x), y: self.y.add(p.y) }
    }

    /// Componentwise difference.
    pub fn sub(self, p: Point) -> (r: Point)
        requires
            self.wf(),
            p.wf(),
            sub_fits(self.x, p.x),
            sub_fits(self.y, p.y),
        ensures
            r.x == spec_sub(self.x, p.x),
            r.y == spec_sub(self.y, p.y),
            r.wf(),
    {
        Point { x: self.x.sub(p.x), y: self.y.sub(p.y) }
    }

    /// Scaling by the scalar `m`.
    pub fn mul(self, m: Rat) -> (r: Point)
        requires
            self.wf(),
            m.wf(),
            mul_fits(self.x, m),
            mul_fits(self.y, m),
        ensures
            r.x == spec_mul(self.x, m),
            r.y == spec_mul(self.y, m),
            r.wf(),
    {
        Point { x: self.x.mul(m), y: self.y.mul(m) }
    }

    /// The counter-clockwise quarter turn `(-y, x)`.
    pub fn ortho(self) -> (r: Point)
        requires
            self.wf(),
            self.y.n > i64::MIN,
        ensures
            r.x.n == -self.y.n,
            r.x.d == self.y.d,
            r.y == self.x,
            r.wf(),
    {
        Point { x: Rat { n: -self.y.n, d: self.y.d }, y: self.x }
    }

    /// A diagnostic rendering `(x, y)` with twelve fractional digits; the
    /// exact textual form is not part of the functional contract, only its
    /// determinism.
    pub fn string(self) -> String
        requires
            self.wf(),
    {
        let mut s = String::new();
        s.append("(");
        s.append(crate::render::decimal_string(self.x, 12).as_str());
        s.append(", ");
        s.append(crate::render::decimal_string(self.y, 12).as_str());
        s.append(")");
        s
    }

    /// The dot product `x * p.x + y * p.y`.
    pub fn dot(self, p: Point) -> (r: Rat)
        requires
            self.wf(),
            p.wf(),
            mul_fits(self.x, p.x),
            mul_fits(self.y, p.y),
            add_fits(spec_mul(self.x, p.x), spec_mul(self.y, p.y)),
        ensures
            r == spec_add(spec_mul(self.x, p.x), spec_mul(self.y, p.y)),
            r.wf(),
    {
        self.x.mul(p.x).add(self.y.mul(p.y))
    }

    /// The scalar planar cross product `x * p.y - y * p.x`.
    pub fn cross(self, p: Point) -> (r: Rat)
        requires
            self.wf(),
            p.wf(),
            mul_fits(self.x, p.y),
            mul_fits(self.y, p.x),
            sub_fits(spec_mul(self.x, p.y), spec_mul(self.y, p.x)),
        ensures
            r == spec_sub(spec_mul(self.x, p.y), spec_mul(self.y, p.x)),
            r.wf(),
    {
        self.x.mul(p.y).sub(self.y.mul(p.x))
    }
}

} // verus!
