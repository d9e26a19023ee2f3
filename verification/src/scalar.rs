use vstd::prelude::*;

verus! {

/// The mathematical model of a scalar: a rational number given as an
/// unreduced fraction `n / d` of unbounded integers, with `d` positive.
/// Two fractions denote the same rational exactly when `eq_rat` holds.
pub struct Rat {
    pub n: int,
    pub d: int,
}

impl Rat {
    /// Well-formed: the denominator is positive.
    pub open spec fn wf(self) -> bool {
        self.d >= 1
    }

    /// The two fractions denote the same rational number.
    pub open spec fn eq_rat(self, other: Rat) -> bool {
        self.n * other.d == other.n * self.d
    }

    /// The rational denoted by `self` is at most the one denoted by `other`.
    pub open spec fn le_rat(self, other: Rat) -> bool {
        self.n * other.d <= other.n * self.d
    }

    /// The rational denoted by `self` is strictly below the one denoted by `other`.
    pub open spec fn lt_rat(self, other: Rat) -> bool {
        self.n * other.d < other.n * self.d
    }

    pub open spec fn is_zero(self) -> bool {
        self.n == 0
    }

    pub open spec fn from_int(n: int) -> Rat {
        Rat { n, d: 1 }
    }

    pub open spec fn add(self, b: Rat) -> Rat {
        Rat { n: self.n * b.d + b.n * self.d, d: self.d * b.d }
    }

    pub open spec fn sub(self, b: Rat) -> Rat {
        Rat { n: self.n * b.d - b.n * self.d, d: self.d * b.d }
    }

    pub open spec fn mul(self, b: Rat) -> Rat {
        Rat { n: self.n * b.n, d: self.d * b.d }
    }

    pub open spec fn neg(self) -> Rat {
        Rat { n: -self.n, d: self.d }
    }

    /// The cross products taken when comparing the two fractions stay
    /// within the machine range.
    pub open spec fn cmp_fits(self, o: Rat) -> bool {
        &&& i128::MIN <= self.n * o.d <= i128::MAX
        &&& i128::MIN <= o.n * self.d <= i128::MAX
    }
}

/// An exact rational scalar `num / den`, the kernel's substitute for an
/// inexact machine scalar. The denominator is always positive, so the sign
/// of the value is the sign of `num`. Values are not reduced; its view is
/// the fraction it denotes.
#[derive(Clone, Copy, Debug)]
pub struct Scalar {
    pub num: i128,
    pub den: i128,
}

impl View for Scalar {
    type V = Rat;

    open spec fn view(&self) -> Rat {
        Rat { n: self.num as int, d: self.den as int }
    }
}

impl Scalar {
    /// Well-formed: the denominator is positive.
    pub open spec fn wf(self) -> bool {
        self@.wf()
    }

    /// The pairwise products taken by `add` and `sub` stay within the machine range.
    pub open spec fn add_fits(self, b: Scalar) -> bool {
        &&& i128::MIN <= self@.n * b@.d <= i128::MAX
        &&& i128::MIN <= b@.n * self@.d <= i128::MAX
        &&& i128::MIN <= self@.n * b@.d + b@.n * self@.d <= i128::MAX
        &&& i128::MIN <= self@.n * b@.d - b@.n * self@.d <= i128::MAX
        &&& self@.d * b@.d <= i128::MAX
    }

    /// The products taken by `mul` stay within the machine range.
    pub open spec fn mul_fits(self, b: Scalar) -> bool {
        &&& i128::MIN <= self@.n * b@.n <= i128::MAX
        &&& self@.d * b@.d <= i128::MAX
    }

    /// The cross products taken by the comparisons stay within the machine range.
    pub open spec fn cmp_fits(self, b: Scalar) -> bool {
        self@.cmp_fits(b@)
    }

    pub fn new(num: i128, den: i128) -> (r: Scalar)
        requires
            den >= 1,
        ensures
            r@ == (Rat { n: num as int, d: den as int }),
            r.wf(),
    {
        Scalar { num, den }
    }

    pub fn from_int(n: i128) -> (r: Scalar)
        ensures
            r@ == Rat::from_int(n as int),
            r.wf(),
    {
        Scalar { num: n, den: 1 }
    }

    pub fn zero() -> (r: Scalar)
        ensures
            r@ == Rat::from_int(0),
            r.wf(),
            r@.is_zero(),
    {
        Scalar { num: 0, den: 1 }
    }

    pub fn one() -> (r: Scalar)
        ensures
            r@ == Rat::from_int(1),
            r.wf(),
    {
        Scalar { num: 1, den: 1 }
    }

    pub fn add(self, b: Scalar) -> (r: Scalar)
        requires
            self.wf(),
            b.wf(),
            self.add_fits(b),
        ensures
            r@ == self@.add(b@),
            r.wf(),
    {
        proof {
            lemma_den_product(self.den as int, b.den as int);
        }
        Scalar { num: self.num * b.den + b.num * self.den, den: self.den * b.den }
    }

    pub fn sub(self, b: Scalar) -> (r: Scalar)
        requires
            self.wf(),
            b.wf(),
            self.add_fits(b),
        ensures
            r@ == self@.sub(b@),
            r.wf(),
    {
        proof {
            lemma_den_product(self.den as int, b.den as int);
        }
        Scalar { num: self.num * b.den - b.num * self.den, den: self.den * b.den }
    }

    pub fn mul(self, b: Scalar) -> (r: Scalar)
        requires
            self.wf(),
            b.wf(),
            self.mul_fits(b),
        ensures
            r@ == self@.mul(b@),
            r.wf(),
    {
        proof {
            lemma_den_product(self.den as int, b.den as int);
        }
        Scalar { num: self.num * b.num, den: self.den * b.den }
    }

    pub fn neg(self) -> (r: Scalar)
        requires
            self.wf(),
            self.num > i128::MIN,
        ensures
            r@ == self@.neg(),
            r.wf(),
    {
        Scalar { num: -self.num, den: self.den }
    }

    pub fn le(self, other: Scalar) -> (r: bool)
        requires
            self.wf(),
            other.wf(),
            self.cmp_fits(other),
        ensures
            r == self@.le_rat(other@),
    {
        self.num * other.den <= other.num * self.den
    }

    pub fn lt(self, other: Scalar) -> (r: bool)
        requires
            self.wf(),
            other.wf(),
            self.cmp_fits(other),
        ensures
            r == self@.lt_rat(other@),
    {
        self.num * other.den < other.num * self.den
    }

    pub fn eq_exact(self, other: Scalar) -> (r: bool)
        requires
            self.wf(),
            other.wf(),
            self.cmp_fits(other),
        ensures
            r == self@.eq_rat(other@),
    {
        self.num * other.den == other.num * self.den
    }

    pub fn is_zero_exact(self) -> (r: bool)
        requires
            self.wf(),
        ensures
            r == self@.is_zero(),
    {
        self.num == 0
    }
}

/// The product of two positive denominators is positive.
pub proof fn lemma_den_product(a: int, b: int)
    by (nonlinear_arith)
    requires
        a >= 1,
        b >= 1,
    ensures
        a * b >= 1,
{
}

/// Denoting the same rational is reflexive and symmetric by definition; it is
/// also transitive on well-formed fractions.
pub proof fn lemma_eq_rat_trans(a: Rat, b: Rat, c: Rat)
    by (nonlinear_arith)
    requires
        a.wf(),
        b.wf(),
        c.wf(),
        a.eq_rat(b),
        b.eq_rat(c),
    ensures
        a.eq_rat(c),
{
}

/// A product of two factors may be regrouped with a product of two others.
pub proof fn lemma_four(p: int, q: int, r: int, s: int)
    by (nonlinear_arith)
    ensures
        (p * q) * (r * s) == (p * r) * (q * s),
        (p * q) * (r * s) == (p * s) * (q * r),
{
}

/// Multiplication distributes over addition and subtraction.
pub proof fn lemma_distrib(x: int, y: int, z: int)
    by (nonlinear_arith)
    ensures
        (x + y) * z == x * z + y * z,
        (x - y) * z == x * z - y * z,
        z * (x + y) == z * x + z * y,
        z * (x - y) == z * x - z * y,
{
}

/// Three factors may be rotated: `(a b) c == b (a c)`.
pub proof fn lemma_rot3(a: int, b: int, c: int)
    by (nonlinear_arith)
    ensures
        (a * b) * c == b * (a * c),
        (a * b) * c == a * (b * c),
{
}

/// Multiplication of integers commutes.
pub proof fn lemma_comm(x: int, y: int)
    by (nonlinear_arith)
    ensures
        x * y == y * x,
{
}

/// Addition respects rational equality.
pub proof fn lemma_add_congruence(a: Rat, a2: Rat, b: Rat, b2: Rat)
    requires
        a.wf(),
        a2.wf(),
        b.wf(),
        b2.wf(),
        a.eq_rat(a2),
        b.eq_rat(b2),
    ensures
        a.add(b).eq_rat(a2.add(b2)),
{
    lemma_distrib(a.n * b.d, b.n * a.d, a2.d * b2.d);
    lemma_four(a.n, b.d, a2.d, b2.d);
    lemma_four(b.n, a.d, a2.d, b2.d);
    lemma_distrib(a2.n * b2.d, b2.n * a2.d, a.d * b.d);
    lemma_four(a2.n, b2.d, a.d, b.d);
    lemma_four(b2.n, a2.d, a.d, b.d);
    lemma_comm(b.d, b2.d);
    lemma_comm(a.d, a2.d);
    assert((a.n * a2.d) * (b.d * b2.d) == (a2.n * a.d) * (b.d * b2.d));
    assert((b.n * b2.d) * (a.d * a2.d) == (b2.n * b.d) * (a.d * a2.d));
}

/// Subtraction respects rational equality.
pub proof fn lemma_sub_congruence(a: Rat, a2: Rat, b: Rat, b2: Rat)
    requires
        a.wf(),
        a2.wf(),
        b.wf(),
        b2.wf(),
        a.eq_rat(a2),
        b.eq_rat(b2),
    ensures
        a.sub(b).eq_rat(a2.sub(b2)),
{
    lemma_distrib(a.n * b.d, b.n * a.d, a2.d * b2.d);
    lemma_four(a.n, b.d, a2.d, b2.d);
    lemma_four(b.n, a.d, a2.d, b2.d);
    lemma_distrib(a2.n * b2.d, b2.n * a2.d, a.d * b.d);
    lemma_four(a2.n, b2.d, a.d, b.d);
    lemma_four(b2.n, a2.d, a.d, b.d);
    lemma_comm(b.d, b2.d);
    lemma_comm(a.d, a2.d);
    assert((a.n * a2.d) * (b.d * b2.d) == (a2.n * a.d) * (b.d * b2.d));
    assert((b.n * b2.d) * (a.d * a2.d) == (b2.n * b.d) * (a.d * a2.d));
}

/// Adding a fraction and subtracting it again returns to the start, rationally.
pub proof fn lemma_add_sub_cancel(a: Rat, b: Rat)
    by (nonlinear_arith)
    requires
        a.wf(),
        b.wf(),
    ensures
        a.add(b).sub(a).eq_rat(b),
{
}

/// Multiplication respects rational equality.
pub proof fn lemma_mul_congruence(a: Rat, a2: Rat, b: Rat, b2: Rat)
    requires
        a.wf(),
        a2.wf(),
        b.wf(),
        b2.wf(),
        a.eq_rat(a2),
        b.eq_rat(b2),
    ensures
        a.mul(b).eq_rat(a2.mul(b2)),
{
    lemma_four(a.n, b.n, a2.d, b2.d);
    lemma_four(a2.n, b2.n, a.d, b.d);
    lemma_four(a.n, a2.d, b.n, b2.d);
    lemma_four(a2.n, a.d, b2.n, b.d);
    assert((a.n * a2.d) * (b.n * b2.d) == (a2.n * a.d) * (b2.n * b.d));
    lemma_comm(a2.n * a.d, b2.n * b.d);
    lemma_comm(a2.d, a.d);
    lemma_comm(b2.d, b.d);
}

} // verus!
