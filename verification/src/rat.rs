//! Exact rational scalar.
//!
//! Every coordinate in this library is a rational number `n / d` with
//! `d >= 1`, held exactly in two `i64` fields. Comparisons are decided by
//! cross-multiplication in 128-bit arithmetic and are therefore total and
//! exact; sums, differences and products are computed exactly and carry a
//! precondition that the exact result is representable.

use vstd::prelude::*;

verus! {

/// An exact rational scalar `n / d`. A value is well formed when `d >= 1`;
/// two well-formed values are numerically equal when their cross products
/// agree, so a value need not be in lowest terms.
#[derive(Clone, Copy, Debug, PartialEq, Eq, Structural)]
pub struct Rat {
    pub n: i64,
    pub d: i64,
}

/// Whether the mathematical integer `x` is representable as an `i64`.
pub open spec fn in_i64(x: int) -> bool {
    i64::MIN as int <= x <= i64::MAX as int
}

/// Numerical order on rationals by cross-multiplication: `a <= b`.
pub open spec fn rat_le(a: Rat, b: Rat) -> bool {
    a.n * b.d <= b.n * a.d
}

/// Strict numerical order on rationals: `a < b`.
pub open spec fn rat_lt(a: Rat, b: Rat) -> bool {
    a.n * b.d < b.n * a.d
}

/// Numerical equality on rationals: `a == b` as numbers, whatever the
/// representations.
pub open spec fn rat_eq(a: Rat, b: Rat) -> bool {
    a.n * b.d == b.n * a.d
}

/// The rational zero.
pub open spec fn rat_zero() -> Rat {
    Rat { n: 0, d: 1 }
}

/// The rational one.
pub open spec fn rat_one() -> Rat {
    Rat { n: 1, d: 1 }
}

/// The exact sum of two rationals, truncated fieldwise when it does not fit
/// `i64`; executable arithmetic requires `add_fits`, under which nothing is
/// truncated.
pub open spec fn spec_add(a: Rat, b: Rat) -> Rat {
    Rat { n: (a.n * b.d + b.n * a.d) as i64, d: (a.d * b.d) as i64 }
}

/// The exact difference `a - b`, truncated fieldwise when it does not fit.
pub open spec fn spec_sub(a: Rat, b: Rat) -> Rat {
    Rat { n: (a.n * b.d - b.n * a.d) as i64, d: (a.d * b.d) as i64 }
}

/// The exact product, truncated fieldwise when it does not fit.
pub open spec fn spec_mul(a: Rat, b: Rat) -> Rat {
    Rat { n: (a.n * b.n) as i64, d: (a.d * b.d) as i64 }
}

/// The exact half of a rational, truncated when the doubled denominator
/// does not fit.
pub open spec fn spec_half(a: Rat) -> Rat {
    Rat { n: a.n, d: (2 * a.d) as i64 }
}

/// The smaller operand; on numerically equal operands, the left one.
pub open spec fn spec_min(a: Rat, b: Rat) -> Rat {
    if rat_le(a, b) {
        a
    } else {
        b
    }
}

/// The larger operand; on numerically equal operands, the left one.
pub open spec fn spec_max(a: Rat, b: Rat) -> Rat {
    if rat_le(b, a) {
        a
    } else {
        b
    }
}

/// The exact sum is representable.
pub open spec fn add_fits(a: Rat, b: Rat) -> bool {
    in_i64(a.n * b.d + b.n * a.d) && in_i64(a.d * b.d)
}

/// The exact difference `a - b` is representable.
pub open spec fn sub_fits(a: Rat, b: Rat) -> bool {
    in_i64(a.n * b.d - b.n * a.d) && in_i64(a.d * b.d)
}

/// The exact product is representable.
pub open spec fn mul_fits(a: Rat, b: Rat) -> bool {
    in_i64(a.n * b.n) && in_i64(a.d * b.d)
}

proof fn lemma_mul_i64_range(a: int, b: int)
    by (nonlinear_arith)
    requires
        -0x8000_0000_0000_0000 <= a <= 0x7FFF_FFFF_FFFF_FFFF,
        -0x8000_0000_0000_0000 <= b <= 0x7FFF_FFFF_FFFF_FFFF,
    ensures
        -0x4000_0000_0000_0000_0000_0000_0000_0000 <= a * b
            <= 0x4000_0000_0000_0000_0000_0000_0000_0000,
{
}

proof fn lemma_mul_pos_den_range(a: int, d: int)
    by (nonlinear_arith)
    requires
        -0x8000_0000_0000_0000 <= a <= 0x7FFF_FFFF_FFFF_FFFF,
        1 <= d <= 0x7FFF_FFFF_FFFF_FFFF,
    ensures
        -0x3FFF_FFFF_FFFF_FFFF_8000_0000_0000_0000 <= a * d
            <= 0x3FFF_FFFF_FFFF_FFFF_8000_0000_0000_0000,
{
}

proof fn lemma_pos_times_pos(a: int, b: int)
    by (nonlinear_arith)
    requires
        a >= 1,
        b >= 1,
    ensures
        a * b >= 1,
{
}

proof fn lemma_frac_le_trans(an: int, ad: int, bn: int, bd: int, cn: int, cd: int)
    by (nonlinear_arith)
    requires
        ad >= 1,
        bd >= 1,
        cd >= 1,
        an * bd <= bn * ad,
        bn * cd <= cn * bd,
    ensures
        an * cd <= cn * ad,
{
}

proof fn lemma_frac_lt_le_trans(an: int, ad: int, bn: int, bd: int, cn: int, cd: int)
    by (nonlinear_arith)
    requires
        ad >= 1,
        bd >= 1,
        cd >= 1,
        an * bd < bn * ad,
        bn * cd <= cn * bd,
    ensures
        an * cd < cn * ad,
{
}

proof fn lemma_frac_le_lt_trans(an: int, ad: int, bn: int, bd: int, cn: int, cd: int)
    by (nonlinear_arith)
    requires
        ad >= 1,
        bd >= 1,
        cd >= 1,
        an * bd <= bn * ad,
        bn * cd < cn * bd,
    ensures
        an * cd < cn * ad,
{
}

/// The numerical order is transitive.
pub proof fn lemma_rat_le_trans(a: Rat, b: Rat, c: Rat)
    requires
        a.wf(),
        b.wf(),
        c.wf(),
        rat_le(a, b),
        rat_le(b, c),
    ensures
        rat_le(a, c),
{
    lemma_frac_le_trans(a.n as int, a.d as int, b.n as int, b.d as int, c.n as int, c.d as int);
}

/// A strict step followed by a non-strict step stays strict.
pub proof fn lemma_rat_lt_le_trans(a: Rat, b: Rat, c: Rat)
    requires
        a.wf(),
        b.wf(),
        c.wf(),
        rat_lt(a, b),
        rat_le(b, c),
    ensures
        rat_lt(a, c),
{
    lemma_frac_lt_le_trans(a.n as int, a.d as int, b.n as int, b.d as int, c.n as int, c.d as int);
}

/// A non-strict step followed by a strict step stays strict.
pub proof fn lemma_rat_le_lt_trans(a: Rat, b: Rat, c: Rat)
    requires
        a.wf(),
        b.wf(),
        c.wf(),
        rat_le(a, b),
        rat_lt(b, c),
    ensures
        rat_lt(a, c),
{
    lemma_frac_le_lt_trans(a.n as int, a.d as int, b.n as int, b.d as int, c.n as int, c.d as int);
}

fn mul_wide(a: i64, b: i64) -> (r: i128)
    ensures
        r == a as int * b as int,
{
    proof {
        lemma_mul_i64_range(a as int, b as int);
    }
    (a as i128) * (b as i128)
}

impl Rat {
    /// A scalar is well formed when its denominator is positive.
    pub open spec fn wf(self) -> bool {
        self.d >= 1
    }

    /// Builds the rational `n / d`.
    pub fn new(n: i64, d: i64) -> (r: Rat)
        requires
            d >= 1,
        ensures
            r == (Rat { n, d }),
            r.wf(),
    {
        Rat { n, d }
    }

    /// Builds the rational with value `n`.
    pub fn from_int(n: i64) -> (r: Rat)
        ensures
            r == (Rat { n, d: 1 }),
            r.wf(),
    {
        Rat { n, d: 1 }
    }

    /// Decides `self <= other` numerically.
    pub fn le(self, other: Rat) -> (r: bool)
        requires
            self.wf(),
            other.wf(),
        ensures
            r == rat_le(self, other),
    {
        mul_wide(self.n, other.d) <= mul_wide(other.n, self.d)
    }

    /// Decides `self < other` numerically.
    pub fn lt(self, other: Rat) -> (r: bool)
        requires
            self.wf(),
            other.wf(),
        ensures
            r == rat_lt(self, other),
    {
        mul_wide(self.n, other.d) < mul_wide(other.n, self.d)
    }

    /// Decides numerical equality, whatever the representations.
    pub fn equals(self, other: Rat) -> (r: bool)
        requires
            self.wf(),
            other.wf(),
        ensures
            r == rat_eq(self, other),
    {
        mul_wide(self.n, other.d) == mul_wide(other.n, self.d)
    }

    /// The smaller of the two operands; the left one on ties.
    pub fn min_of(self, other: Rat) -> (r: Rat)
        requires
            self.wf(),
            other.wf(),
        ensures
            r == spec_min(self, other),
            r.wf(),
    {
        if self.le(other) {
            self
        } else {
            other
        }
    }

    /// The larger of the two operands; the left one on ties.
    pub fn max_of(self, other: Rat) -> (r: Rat)
        requires
            self.wf(),
            other.wf(),
        ensures
            r == spec_max(self, other),
            r.wf(),
    {
        if other.le(self) {
            self
        } else {
            other
        }
    }

    /// The exact sum.
    pub fn add(self, other: Rat) -> (r: Rat)
        requires
            self.wf(),
            other.wf(),
            add_fits(self, other),
        ensures
            r == spec_add(self, other),
            r.wf(),
    {
        proof {
            lemma_mul_pos_den_range(self.n as int, other.d as int);
            lemma_mul_pos_den_range(other.n as int, self.d as int);
            lemma_pos_times_pos(self.d as int, other.d as int);
        }
        let num: i128 = mul_wide(self.n, other.d) + mul_wide(other.n, self.d);
        let den: i128 = mul_wide(self.d, other.d);
        Rat { n: num as i64, d: den as i64 }
    }

    /// The exact difference `self - other`.
    pub fn sub(self, other: Rat) -> (r: Rat)
        requires
            self.wf(),
            other.wf(),
            sub_fits(self, other),
        ensures
            r == spec_sub(self, other),
            r.wf(),
    {
        proof {
            lemma_mul_pos_den_range(self.n as int, other.d as int);
            lemma_mul_pos_den_range(other.n as int, self.d as int);
            lemma_pos_times_pos(self.d as int, other.d as int);
        }
        let num: i128 = mul_wide(self.n, other.d) - mul_wide(other.n, self.d);
        let den: i128 = mul_wide(self.d, other.d);
        Rat { n: num as i64, d: den as i64 }
    }

    /// The exact product.
    pub fn mul(self, other: Rat) -> (r: Rat)
        requires
            self.wf(),
            other.wf(),
            mul_fits(self, other),
        ensures
            r == spec_mul(self, other),
            r.wf(),
    {
        proof {
            lemma_pos_times_pos(self.d as int, other.d as int);
        }
        let num: i128 = mul_wide(self.n, other.n);
        let den: i128 = mul_wide(self.d, other.d);
        Rat { n: num as i64, d: den as i64 }
    }

    /// The exact half of the value.
    pub fn half(self) -> (r: Rat)
        requires
            self.wf(),
            in_i64(2 * self.d),
        ensures
            r == spec_half(self),
            r.wf(),
    {
        Rat { n: self.n, d: 2 * self.d }
    }

    /// The absolute value.
    pub fn abs(self) -> (r: Rat)
        requires
            self.wf(),
            self.n > i64::MIN,
        ensures
            r.n == vstd::math::abs(self.n as int),
            r.d == self.d,
            r.wf(),
    {
        if self.n < 0 {
            Rat { n: -self.n, d: self.d }
        } else {
            self
        }
    }
}

} // verus!
