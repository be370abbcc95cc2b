//! Three-dimensional Euclidean vectors.
//!
//! Componentwise arithmetic, dot and cross products, the squared norm,
//! axis ranking and a total lexicographic order, all exact. The
//! square-root-bound measures (norm, normalization, distance, and the
//! normalized orthogonal vector) have no exact rational value and are not
//! part of this type.

use vstd::prelude::*;
use vstd::string::StringExecFns;

use crate::rat::Rat;
use crate::rat::add_fits;
use crate::rat::mul_fits;
use crate::rat::rat_eq;
use crate::rat::rat_le;
use crate::rat::rat_lt;
use crate::rat::rat_one;
use crate::rat::rat_zero;
use crate::rat::spec_add;
use crate::rat::spec_mul;
use crate::rat::spec_sub;
use crate::rat::sub_fits;

verus! {

/// The three axes of three-dimensional space, a closed enumeration.
#[derive(Clone, Copy, Debug, PartialEq, Eq, Structural)]
pub enum Axis {
    X,
    Y,
    Z,
}

/// Reciprocal of the strict componentwise comparison tolerance: the
/// tolerance is `1 / 10^16`.
pub const COMPONENT_TOL_RECIP: i64 = 10_000_000_000_000_000;

/// Denominator of the unit-length tolerance: the squared norm of a unit
/// vector may differ from one by at most `5 / 10^14`.
pub const UNIT_TOL_DEN: i64 = 100_000_000_000_000;

/// A vector in three-dimensional space.
#[derive(Clone, Copy, Debug, PartialEq, Eq, Structural)]
pub struct Vector {
    pub x: Rat,
    pub y: Rat,
    pub z: Rat,
}

/// The absolute value of a scalar, representable whenever the numerator is
/// above `i64::MIN`.
pub open spec fn rat_abs(a: Rat) -> Rat {
    Rat { n: vstd::math::abs(a.n as int) as i64, d: a.d }
}

/// The exact dot product, summed left to right.
pub open spec fn spec_dot(a: Vector, b: Vector) -> Rat {
    spec_add(spec_add(spec_mul(a.x, b.x), spec_mul(a.y, b.y)), spec_mul(a.z, b.z))
}

/// The exact cross product, component by component.
pub open spec fn spec_cross(a: Vector, b: Vector) -> Vector {
    Vector {
        x: spec_sub(spec_mul(a.y, b.z), spec_mul(a.z, b.y)),
        y: spec_sub(spec_mul(a.z, b.x), spec_mul(a.x, b.z)),
        z: spec_sub(spec_mul(a.x, b.y), spec_mul(a.y, b.x)),
    }
}

/// Every product and sum taken by the dot product is representable.
pub open spec fn dot_fits(a: Vector, b: Vector) -> bool {
    &&& mul_fits(a.x, b.x)
    &&& mul_fits(a.y, b.y)
    &&& mul_fits(a.z, b.z)
    &&& add_fits(spec_mul(a.x, b.x), spec_mul(a.y, b.y))
    &&& add_fits(spec_add(spec_mul(a.x, b.x), spec_mul(a.y, b.y)), spec_mul(a.z, b.z))
}

/// Every product and difference taken by the cross product is
/// representable.
pub open spec fn cross_fits(a: Vector, b: Vector) -> bool {
    &&& mul_fits(a.y, b.z)
    &&& mul_fits(a.z, b.y)
    &&& sub_fits(spec_mul(a.y, b.z), spec_mul(a.z, b.y))
    &&& mul_fits(a.z, b.x)
    &&& mul_fits(a.x, b.z)
    &&& sub_fits(spec_mul(a.z, b.x), spec_mul(a.x, b.z))
    &&& mul_fits(a.x, b.y)
    &&& mul_fits(a.y, b.x)
    &&& sub_fits(spec_mul(a.x, b.y), spec_mul(a.y, b.x))
}

impl Vector {
    /// All three components are well formed.
    pub open spec fn wf(self) -> bool {
        self.x.wf() && self.y.wf() && self.z.wf()
    }

    /// No component numerator sits at `i64::MIN`, so absolute values are
    /// representable.
    pub open spec fn abs_fits(self) -> bool {
        self.x.n > i64::MIN && self.y.n > i64::MIN && self.z.n > i64::MIN
    }

    /// Componentwise approximate equality, strict at the tolerance: two
    /// vectors compare equal when every component differs by strictly less
    /// than `1 / 10^16`, so exact equality at the tolerance boundary does
    /// not count.
    pub open spec fn spec_approx_equal(self, v: Vector) -> bool {
        &&& rat_lt(Rat { n: -1i64, d: COMPONENT_TOL_RECIP }, spec_sub(self.x, v.x))
        &&& rat_lt(spec_sub(self.x, v.x), Rat { n: 1, d: COMPONENT_TOL_RECIP })
        &&& rat_lt(Rat { n: -1i64, d: COMPONENT_TOL_RECIP }, spec_sub(self.y, v.y))
        &&& rat_lt(spec_sub(self.y, v.y), Rat { n: 1, d: COMPONENT_TOL_RECIP })
        &&& rat_lt(Rat { n: -1i64, d: COMPONENT_TOL_RECIP }, spec_sub(self.z, v.z))
        &&& rat_lt(spec_sub(self.z, v.z), Rat { n: 1, d: COMPONENT_TOL_RECIP })
    }

    /// The squared norm is within `5 / 10^14` of one.
    pub open spec fn spec_is_unit(self) -> bool {
        &&& rat_le(Rat { n: -5i64, d: UNIT_TOL_DEN }, spec_sub(spec_dot(self, self), rat_one()))
        &&& rat_le(spec_sub(spec_dot(self, self), rat_one()), Rat { n: 5, d: UNIT_TOL_DEN })
    }

    /// The axis with the largest absolute component; on ties the later
    /// axis of the comparison chain wins, so the order is deterministic.
    pub open spec fn spec_largest_component(self) -> Axis {
        if rat_lt(rat_abs(self.y), rat_abs(self.x)) {
            if rat_lt(rat_abs(self.z), rat_abs(self.x)) {
                Axis::X
            } else {
                Axis::Z
            }
        } else if rat_lt(rat_abs(self.z), rat_abs(self.y)) {
            Axis::Y
        } else {
            Axis::Z
        }
    }

    /// The axis with the smallest absolute component; on ties the later
    /// axis of the comparison chain wins, so the order is deterministic.
    pub open spec fn spec_smallest_component(self) -> Axis {
        if rat_lt(rat_abs(self.x), rat_abs(self.y)) {
            if rat_lt(rat_abs(self.x), rat_abs(self.z)) {
                Axis::X
            } else {
                Axis::Z
            }
        } else if rat_lt(rat_abs(self.y), rat_abs(self.z)) {
            Axis::Y
        } else {
            Axis::Z
        }
    }

    /// Lexicographic comparison: `-1`, `0` or `1` as the receiver is
    /// numerically below, equal to, or above `v`, component by component.
    pub open spec fn spec_cmp(self, v: Vector) -> i64 {
        if rat_lt(self.x, v.x) {
            -1i64
        } else if rat_lt(v.x, self.x) {
            1i64
        } else if rat_lt(self.y, v.y) {
            -1i64
        } else if rat_lt(v.y, self.y) {
            1i64
        } else if rat_lt(self.z, v.z) {
            -1i64
        } else if rat_lt(v.z, self.z) {
            1i64
        } else {
            0i64
        }
    }

    /// Componentwise approximate equality, strict at the tolerance.
    pub fn approx_equal(self, v: Vector) -> (r: bool)
        requires
            self.wf(),
            v.wf(),
            sub_fits(self.x, v.x),
            sub_fits(self.y, v.y),
            sub_fits(self.z, v.z),
        ensures
            r == self.spec_approx_equal(v),
    {
        let eps = Rat::new(1, COMPONENT_TOL_RECIP);
        let neg_eps = Rat::new(-1, COMPONENT_TOL_RECIP);
        let dx = self.x.sub(v.x);
        let dy = self.y.sub(v.y);
        let dz = self.z.sub(v.z);
        neg_eps.lt(dx) && dx.lt(eps) && neg_eps.lt(dy) && dy.lt(eps) && neg_eps.lt(dz) && dz.lt(
            eps,
        )
    }

    /// A diagnostic rendering `(x, y, z)` with twenty-four fractional
    /// digits; the exact textual form is not part of the functional
    /// contract, only its determinism.
    pub fn string(self) -> String
        requires
            self.wf(),
    {
        let mut s = String::new();
        s.append("(");
        s.append(crate::render::decimal_string(self.x, 24).as_str());
        s.append(", ");
        s.append(crate::render::decimal_string(self.y, 24).as_str());
        s.append(", ");
        s.append(crate::render::decimal_string(self.z, 24).as_str());
        s.append(")");
        s
    }

    /// The squared Euclidean norm, the dot product of the vector with
    /// itself.
    pub fn norm2(self) -> (r: Rat)
        requires
            self.wf(),
            dot_fits(self, self),
        ensures
            r == spec_dot(self, self),
            r.wf(),
    {
        self.dot(self)
    }

    /// Whether the vector is of approximately unit length.
    pub fn is_unit(self) -> (r: bool)
        requires
            self.wf(),
            dot_fits(self, self),
            sub_fits(spec_dot(self, self), rat_one()),
        ensures
            r == self.spec_is_unit(),
    {
        let tol = Rat::new(5, UNIT_TOL_DEN);
        let neg_tol = Rat::new(-5, UNIT_TOL_DEN);
        let d = self.norm2().sub(Rat::from_int(1));
        neg_tol.le(d) && d.le(tol)
    }

    /// Scaling by the scalar `m`.
    pub fn mul(self, m: Rat) -> (r: Vector)
        requires
            self.wf(),
            m.wf(),
            mul_fits(self.x, m),
            mul_fits(self.y, m),
            mul_fits(self.z, m),
        ensures
            r.x == spec_mul(self.x, m),
            r.y == spec_mul(self.y, m),
            r.z == spec_mul(self.z, m),
            r.wf(),
    {
        Vector { x: self.x.mul(m), y: self.y.mul(m), z: self.z.mul(m) }
    }

    /// The vector of absolute components.
    pub fn abs(self) -> (r: Vector)
        requires
            self.wf(),
            self.abs_fits(),
        ensures
            r.x == rat_abs(self.x),
            r.y == rat_abs(self.y),
            r.z == rat_abs(self.z),
            r.wf(),
    {
        Vector { x: self.x.abs(), y: self.y.abs(), z: self.z.abs() }
    }

    /// Componentwise sum.
    pub fn add(self, v: Vector) -> (r: Vector)
        requires
            self.wf(),
            v.wf(),
            add_fits(self.x, v.x),
            add_fits(self.y, v.y),
            add_fits(self.z, v.z),
        ensures
            r.x == spec_add(self.x, v.x),
            r.y == spec_add(self.y, v.y),
            r.z == spec_add(self.z, v.z),
            r.wf(),
    {
        Vector { x: self.x.add(v.x), y: self.y.add(v.y), z: self.z.add(v.z) }
    }

    /// Componentwise difference.
    pub fn sub(self, v: Vector) -> (r: Vector)
        requires
            self.wf(),
            v.wf(),
            sub_fits(self.x, v.x),
            sub_fits(self.y, v.y),
            sub_fits(self.z, v.z),
        ensures
            r.x == spec_sub(self.x, v.x),
            r.y == spec_sub(self.y, v.y),
            r.z == spec_sub(self.z, v.z),
            r.wf(),
    {
        Vector { x: self.x.sub(v.x), y: self.y.sub(v.y), z: self.z.sub(v.z) }
    }

    /// The dot product.
    pub fn dot(self, v: Vector) -> (r: Rat)
        requires
            self.wf(),
            v.wf(),
            dot_fits(self, v),
        ensures
            r == spec_dot(self, v),
            r.wf(),
    {
        self.x.mul(v.x).add(self.y.mul(v.y)).add(self.z.mul(v.z))
    }

    /// The cross product.
    pub fn cross(self, v: Vector) -> (r: Vector)
        requires
            self.wf(),
            v.wf(),
            cross_fits(self, v),
        ensures
            r == spec_cross(self, v),
            r.wf(),
    {
        Vector {
            x: self.y.mul(v.z).sub(self.z.mul(v.y)),
            y: self.z.mul(v.x).sub(self.x.mul(v.z)),
            z: self.x.mul(v.y).sub(self.y.mul(v.x)),
        }
    }

    /// The axis of the largest absolute component.
    pub fn largest_component(self) -> (r: Axis)
        requires
            self.wf(),
            self.abs_fits(),
        ensures
            r == self.spec_largest_component(),
    {
        let v = self.abs();
        if v.y.lt(v.x) {
            if v.z.lt(v.x) {
                Axis::X
            } else {
                Axis::Z
            }
        } else if v.z.lt(v.y) {
            Axis::Y
        } else {
            Axis::Z
        }
    }

    /// The axis of the smallest absolute component.
    pub fn smallest_component(self) -> (r: Axis)
        requires
            self.wf(),
            self.abs_fits(),
        ensures
            r == self.spec_smallest_component(),
    {
        let v = self.abs();
        if v.x.lt(v.y) {
            if v.x.lt(v.z) {
                Axis::X
            } else {
                Axis::Z
            }
        } else if v.y.lt(v.z) {
            Axis::Y
        } else {
            Axis::Z
        }
    }

    /// Lexicographic comparison of the two vectors, `-1`, `0` or `1`.
    pub fn cmp(self, v: Vector) -> (r: i64)
        requires
            self.wf(),
            v.wf(),
        ensures
            r == self.spec_cmp(v),
    {
        if self.x.lt(v.x) {
            return -1;
        }
        if v.x.lt(self.x) {
            return 1;
        }
        if self.y.lt(v.y) {
            return -1;
        }
        if v.y.lt(self.y) {
            return 1;
        }
        if self.z.lt(v.z) {
            return -1;
        }
        if v.z.lt(self.z) {
            return 1;
        }
        0
    }
}

proof fn lemma_unit_den_combine(an: int, ad: int, bn: int, bd: int)
    by (nonlinear_arith)
    requires
        ad == 1,
        bd == 1,
    ensures
        an * bd - bn * ad == an - bn,
        an * bd + bn * ad == an + bn,
        ad * bd == 1,
{
}

proof fn lemma_triple_identity(
    a1: int, a2: int, a3: int,
    x: int, y: int, z: int,
    cxn: int, cyn: int, czn: int,
)
    by (nonlinear_arith)
    requires
        cxn == a2 * z - a3 * y,
        cyn == a3 * x - a1 * z,
        czn == a1 * y - a2 * x,
    ensures
        cxn * a1 + cyn * a2 + czn * a3 == 0,
        cxn * x + cyn * y + czn * z == 0,
{
}

/// For vectors with integer components (unit denominators), the cross
/// product is exactly orthogonal to both of its operands: its dot product
/// with either one is zero.
pub proof fn lemma_cross_orthogonal_integer(u: Vector, v: Vector)
    requires
        u.wf(),
        v.wf(),
        u.x.d == 1 && u.y.d == 1 && u.z.d == 1,
        v.x.d == 1 && v.y.d == 1 && v.z.d == 1,
        cross_fits(u, v),
        dot_fits(spec_cross(u, v), u),
        dot_fits(spec_cross(u, v), v),
    ensures
        rat_eq(spec_dot(spec_cross(u, v), u), rat_zero()),
        rat_eq(spec_dot(spec_cross(u, v), v), rat_zero()),
{
    let c = spec_cross(u, v);
    let mx1 = spec_mul(u.y, v.z);
    let mx2 = spec_mul(u.z, v.y);
    let my1 = spec_mul(u.z, v.x);
    let my2 = spec_mul(u.x, v.z);
    let mz1 = spec_mul(u.x, v.y);
    let mz2 = spec_mul(u.y, v.x);
    lemma_unit_den_combine(mx1.n as int, mx1.d as int, mx2.n as int, mx2.d as int);
    lemma_unit_den_combine(my1.n as int, my1.d as int, my2.n as int, my2.d as int);
    lemma_unit_den_combine(mz1.n as int, mz1.d as int, mz2.n as int, mz2.d as int);
    assert(c.x.n == u.y.n * v.z.n - u.z.n * v.y.n && c.x.d == 1);
    assert(c.y.n == u.z.n * v.x.n - u.x.n * v.z.n && c.y.d == 1);
    assert(c.z.n == u.x.n * v.y.n - u.y.n * v.x.n && c.z.d == 1);
    lemma_triple_identity(
        u.x.n as int,
        u.y.n as int,
        u.z.n as int,
        v.x.n as int,
        v.y.n as int,
        v.z.n as int,
        c.x.n as int,
        c.y.n as int,
        c.z.n as int,
    );
    let qu1 = spec_mul(c.x, u.x);
    let qu2 = spec_mul(c.y, u.y);
    let qu3 = spec_mul(c.z, u.z);
    lemma_unit_den_combine(qu1.n as int, qu1.d as int, qu2.n as int, qu2.d as int);
    let su1 = spec_add(qu1, qu2);
    lemma_unit_den_combine(su1.n as int, su1.d as int, qu3.n as int, qu3.d as int);
    assert(spec_dot(c, u).n == c.x.n * u.x.n + c.y.n * u.y.n + c.z.n * u.z.n);
    let qv1 = spec_mul(c.x, v.x);
    let qv2 = spec_mul(c.y, v.y);
    let qv3 = spec_mul(c.z, v.z);
    lemma_unit_den_combine(qv1.n as int, qv1.d as int, qv2.n as int, qv2.d as int);
    let sv1 = spec_add(qv1, qv2);
    lemma_unit_den_combine(sv1.n as int, sv1.d as int, qv3.n as int, qv3.d as int);
    assert(spec_dot(c, v).n == c.x.n * v.x.n + c.y.n * v.y.n + c.z.n * v.z.n);
}

/// The cross product of a vector with itself is the zero vector in every
/// component.
pub proof fn lemma_cross_self_is_zero(v: Vector)
    requires
        v.wf(),
    ensures
        rat_eq(spec_cross(v, v).x, rat_zero()),
        rat_eq(spec_cross(v, v).y, rat_zero()),
        rat_eq(spec_cross(v, v).z, rat_zero()),
{
    assert(v.y.n * v.z.n == v.z.n * v.y.n) by (nonlinear_arith);
    assert(v.y.d * v.z.d == v.z.d * v.y.d) by (nonlinear_arith);
    assert(v.z.n * v.x.n == v.x.n * v.z.n) by (nonlinear_arith);
    assert(v.z.d * v.x.d == v.x.d * v.z.d) by (nonlinear_arith);
    assert(v.x.n * v.y.n == v.y.n * v.x.n) by (nonlinear_arith);
    assert(v.x.d * v.y.d == v.y.d * v.x.d) by (nonlinear_arith);
}

} // verus!
