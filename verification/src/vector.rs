use vstd::prelude::*;
use crate::scalar::{Rat, Scalar, lemma_den_product};

verus! {

/// Model of a planar point or vector: exact rational coordinates
/// `x / d` and `y / d` over one shared positive denominator.
pub struct Rat2 {
    pub x: int,
    pub y: int,
    pub d: int,
}

/// Model of a spatial point or vector, as `Rat2` with a third coordinate.
pub struct Rat3 {
    pub x: int,
    pub y: int,
    pub z: int,
    pub d: int,
}

impl Rat2 {
    pub open spec fn wf(self) -> bool {
        self.d >= 1
    }

    pub open spec fn rx(self) -> Rat {
        Rat { n: self.x, d: self.d }
    }

    pub open spec fn ry(self) -> Rat {
        Rat { n: self.y, d: self.d }
    }

    /// Both coordinates denote the same rationals.
    pub open spec fn eq2(self, o: Rat2) -> bool {
        self.rx().eq_rat(o.rx()) && self.ry().eq_rat(o.ry())
    }

    pub open spec fn is_zero(self) -> bool {
        self.x == 0 && self.y == 0
    }

    /// The coordinates form an exact unit vector.
    pub open spec fn is_unit(self) -> bool {
        self.x * self.x + self.y * self.y == self.d * self.d
    }

    pub open spec fn add(self, o: Rat2) -> Rat2 {
        Rat2 { x: self.x * o.d + o.x * self.d, y: self.y * o.d + o.y * self.d, d: self.d * o.d }
    }

    pub open spec fn sub(self, o: Rat2) -> Rat2 {
        Rat2 { x: self.x * o.d - o.x * self.d, y: self.y * o.d - o.y * self.d, d: self.d * o.d }
    }

    pub open spec fn scale(self, t: Rat) -> Rat2 {
        Rat2 { x: self.x * t.n, y: self.y * t.n, d: self.d * t.d }
    }

    pub open spec fn dot(self, o: Rat2) -> Rat {
        Rat { n: self.x * o.x + self.y * o.y, d: self.d * o.d }
    }

    /// The scalar (out-of-plane) component of the cross product.
    pub open spec fn cross(self, o: Rat2) -> Rat {
        Rat { n: self.x * o.y - self.y * o.x, d: self.d * o.d }
    }

    pub open spec fn norm_sq(self) -> Rat {
        Rat { n: self.x * self.x + self.y * self.y, d: self.d * self.d }
    }

    pub open spec fn add_fits(self, o: Rat2) -> bool {
        &&& i128::MIN <= self.x * o.d <= i128::MAX
        &&& i128::MIN <= o.x * self.d <= i128::MAX
        &&& i128::MIN <= self.y * o.d <= i128::MAX
        &&& i128::MIN <= o.y * self.d <= i128::MAX
        &&& i128::MIN <= self.x * o.d + o.x * self.d <= i128::MAX
        &&& i128::MIN <= self.y * o.d + o.y * self.d <= i128::MAX
        &&& i128::MIN <= self.x * o.d - o.x * self.d <= i128::MAX
        &&& i128::MIN <= self.y * o.d - o.y * self.d <= i128::MAX
        &&& self.d * o.d <= i128::MAX
    }

    pub open spec fn scale_fits(self, t: Rat) -> bool {
        &&& i128::MIN <= self.x * t.n <= i128::MAX
        &&& i128::MIN <= self.y * t.n <= i128::MAX
        &&& self.d * t.d <= i128::MAX
    }

    pub open spec fn dot_fits(self, o: Rat2) -> bool {
        &&& i128::MIN <= self.x * o.x <= i128::MAX
        &&& i128::MIN <= self.y * o.y <= i128::MAX
        &&& i128::MIN <= self.x * o.x + self.y * o.y <= i128::MAX
        &&& i128::MIN <= self.x * o.y <= i128::MAX
        &&& i128::MIN <= self.y * o.x <= i128::MAX
        &&& i128::MIN <= self.x * o.y - self.y * o.x <= i128::MAX
        &&& self.d * o.d <= i128::MAX
    }

    pub open spec fn norm_sq_fits(self) -> bool {
        &&& self.x * self.x <= i128::MAX
        &&& self.y * self.y <= i128::MAX
        &&& self.x * self.x + self.y * self.y <= i128::MAX
        &&& self.d * self.d <= i128::MAX
    }
}

impl Rat3 {
    pub open spec fn wf(self) -> bool {
        self.d >= 1
    }

    pub open spec fn rx(self) -> Rat {
        Rat { n: self.x, d: self.d }
    }

    pub open spec fn ry(self) -> Rat {
        Rat { n: self.y, d: self.d }
    }

    pub open spec fn rz(self) -> Rat {
        Rat { n: self.z, d: self.d }
    }

    /// All three coordinates denote the same rationals.
    pub open spec fn eq3(self, o: Rat3) -> bool {
        self.rx().eq_rat(o.rx()) && self.ry().eq_rat(o.ry()) && self.rz().eq_rat(o.rz())
    }

    pub open spec fn is_zero(self) -> bool {
        self.x == 0 && self.y == 0 && self.z == 0
    }

    /// The coordinates form an exact unit vector.
    pub open spec fn is_unit(self) -> bool {
        self.x * self.x + self.y * self.y + self.z * self.z == self.d * self.d
    }

    pub open spec fn add(self, o: Rat3) -> Rat3 {
        Rat3 {
            x: self.x * o.d + o.x * self.d,
            y: self.y * o.d + o.y * self.d,
            z: self.z * o.d + o.z * self.d,
            d: self.d * o.d,
        }
    }

    pub open spec fn sub(self, o: Rat3) -> Rat3 {
        Rat3 {
            x: self.x * o.d - o.x * self.d,
            y: self.y * o.d - o.y * self.d,
            z: self.z * o.d - o.z * self.d,
            d: self.d * o.d,
        }
    }

    pub open spec fn scale(self, t: Rat) -> Rat3 {
        Rat3 { x: self.x * t.n, y: self.y * t.n, z: self.z * t.n, d: self.d * t.d }
    }

    pub open spec fn dot(self, o: Rat3) -> Rat {
        Rat { n: self.x * o.x + self.y * o.y + self.z * o.z, d: self.d * o.d }
    }

    pub open spec fn cross(self, o: Rat3) -> Rat3 {
        Rat3 {
            x: self.y * o.z - self.z * o.y,
            y: self.z * o.x - self.x * o.z,
            z: self.x * o.y - self.y * o.x,
            d: self.d * o.d,
        }
    }

    pub open spec fn norm_sq(self) -> Rat {
        Rat { n: self.x * self.x + self.y * self.y + self.z * self.z, d: self.d * self.d }
    }

    pub open spec fn add_fits(self, o: Rat3) -> bool {
        &&& i128::MIN <= self.x * o.d <= i128::MAX
        &&& i128::MIN <= o.x * self.d <= i128::MAX
        &&& i128::MIN <= self.y * o.d <= i128::MAX
        &&& i128::MIN <= o.y * self.d <= i128::MAX
        &&& i128::MIN <= self.z * o.d <= i128::MAX
        &&& i128::MIN <= o.z * self.d <= i128::MAX
        &&& i128::MIN <= self.x * o.d + o.x * self.d <= i128::MAX
        &&& i128::MIN <= self.y * o.d + o.y * self.d <= i128::MAX
        &&& i128::MIN <= self.z * o.d + o.z * self.d <= i128::MAX
        &&& i128::MIN <= self.x * o.d - o.x * self.d <= i128::MAX
        &&& i128::MIN <= self.y * o.d - o.y * self.d <= i128::MAX
        &&& i128::MIN <= self.z * o.d - o.z * self.d <= i128::MAX
        &&& self.d * o.d <= i128::MAX
    }

    pub open spec fn scale_fits(self, t: Rat) -> bool {
        &&& i128::MIN <= self.x * t.n <= i128::MAX
        &&& i128::MIN <= self.y * t.n <= i128::MAX
        &&& i128::MIN <= self.z * t.n <= i128::MAX
        &&& self.d * t.d <= i128::MAX
    }

    pub open spec fn dot_fits(self, o: Rat3) -> bool {
        &&& i128::MIN <= self.x * o.x <= i128::MAX
        &&& i128::MIN <= self.y * o.y <= i128::MAX
        &&& i128::MIN <= self.z * o.z <= i128::MAX
        &&& i128::MIN <= self.x * o.x + self.y * o.y <= i128::MAX
        &&& i128::MIN <= self.x * o.x + self.y * o.y + self.z * o.z <= i128::MAX
        &&& self.d * o.d <= i128::MAX
    }

    pub open spec fn norm_sq_fits(self) -> bool {
        &&& self.x * self.x <= i128::MAX
        &&& self.y * self.y <= i128::MAX
        &&& self.z * self.z <= i128::MAX
        &&& self.x * self.x + self.y * self.y <= i128::MAX
        &&& self.x * self.x + self.y * self.y + self.z * self.z <= i128::MAX
        &&& self.d * self.d <= i128::MAX
    }
}

/// A planar free vector with exact rational coordinates over one denominator.
#[derive(Clone, Copy, Debug)]
pub struct Vector2 {
    pub xn: i128,
    pub yn: i128,
    pub den: i128,
}

/// A planar point with exact rational coordinates over one denominator.
#[derive(Clone, Copy, Debug)]
pub struct Position2 {
    pub xn: i128,
    pub yn: i128,
    pub den: i128,
}

/// A planar direction: a vector whose coordinates form an exact unit vector.
#[derive(Clone, Copy, Debug)]
pub struct Direction2 {
    pub vector: Vector2,
}

/// A spatial free vector with exact rational coordinates over one denominator.
#[derive(Clone, Copy, Debug)]
pub struct Vector3 {
    pub xn: i128,
    pub yn: i128,
    pub zn: i128,
    pub den: i128,
}

/// A spatial point with exact rational coordinates over one denominator.
#[derive(Clone, Copy, Debug)]
pub struct Position3 {
    pub xn: i128,
    pub yn: i128,
    pub zn: i128,
    pub den: i128,
}

/// A spatial direction: a vector whose coordinates form an exact unit vector.
#[derive(Clone, Copy, Debug)]
pub struct Direction3 {
    pub vector: Vector3,
}

impl View for Vector2 {
    type V = Rat2;

    open spec fn view(&self) -> Rat2 {
        Rat2 { x: self.xn as int, y: self.yn as int, d: self.den as int }
    }
}

impl View for Position2 {
    type V = Rat2;

    open spec fn view(&self) -> Rat2 {
        Rat2 { x: self.xn as int, y: self.yn as int, d: self.den as int }
    }
}

impl View for Direction2 {
    type V = Rat2;

    open spec fn view(&self) -> Rat2 {
        self.vector@
    }
}

impl View for Vector3 {
    type V = Rat3;

    open spec fn view(&self) -> Rat3 {
        Rat3 { x: self.xn as int, y: self.yn as int, z: self.zn as int, d: self.den as int }
    }
}

impl View for Position3 {
    type V = Rat3;

    open spec fn view(&self) -> Rat3 {
        Rat3 { x: self.xn as int, y: self.yn as int, z: self.zn as int, d: self.den as int }
    }
}

impl View for Direction3 {
    type V = Rat3;

    open spec fn view(&self) -> Rat3 {
        self.vector@
    }
}

impl Vector2 {
    pub open spec fn wf(self) -> bool {
        self@.wf()
    }

    pub fn new(xn: i128, yn: i128, den: i128) -> (r: Vector2)
        requires
            den >= 1,
        ensures
            r@ == (Rat2 { x: xn as int, y: yn as int, d: den as int }),
            r.wf(),
    {
        Vector2 { xn, yn, den }
    }

    pub fn x(&self) -> (r: Scalar)
        ensures
            r@ == self@.rx(),
    {
        Scalar { num: self.xn, den: self.den }
    }

    pub fn y(&self) -> (r: Scalar)
        ensures
            r@ == self@.ry(),
    {
        Scalar { num: self.yn, den: self.den }
    }

    pub fn scale(&self, t: &Scalar) -> (r: Vector2)
        requires
            self.wf(),
            t.wf(),
            self@.scale_fits(t@),
        ensures
            r@ == self@.scale(t@),
            r.wf(),
    {
        proof {
            lemma_den_product(self.den as int, t.den as int);
        }
        Vector2 { xn: self.xn * t.num, yn: self.yn * t.num, den: self.den * t.den }
    }

    pub fn sub(&self, o: &Vector2) -> (r: Vector2)
        requires
            self.wf(),
            o.wf(),
            self@.add_fits(o@),
        ensures
            r@ == self@.sub(o@),
            r.wf(),
    {
        proof {
            lemma_den_product(self.den as int, o.den as int);
        }
        Vector2 {
            xn: self.xn * o.den - o.xn * self.den,
            yn: self.yn * o.den - o.yn * self.den,
            den: self.den * o.den,
        }
    }

    pub fn dot(&self, o: &Vector2) -> (r: Scalar)
        requires
            self.wf(),
            o.wf(),
            self@.dot_fits(o@),
        ensures
            r@ == self@.dot(o@),
            r.wf(),
    {
        proof {
            lemma_den_product(self.den as int, o.den as int);
        }
        Scalar { num: self.xn * o.xn + self.yn * o.yn, den: self.den * o.den }
    }

    pub fn cross(&self, o: &Vector2) -> (r: Scalar)
        requires
            self.wf(),
            o.wf(),
            self@.dot_fits(o@),
        ensures
            r@ == self@.cross(o@),
            r.wf(),
    {
        proof {
            lemma_den_product(self.den as int, o.den as int);
        }
        Scalar { num: self.xn * o.yn - self.yn * o.xn, den: self.den * o.den }
    }

    pub fn norm_sq(&self) -> (r: Scalar)
        requires
            self.wf(),
            self@.norm_sq_fits(),
        ensures
            r@ == self@.norm_sq(),
            r.wf(),
    {
        proof {
            lemma_den_product(self.den as int, self.den as int);
            lemma_sq_nonneg(self.xn as int);
            lemma_sq_nonneg(self.yn as int);
        }
        Scalar { num: self.xn * self.xn + self.yn * self.yn, den: self.den * self.den }
    }

    pub fn is_zero_exact(&self) -> (r: bool)
        requires
            self.wf(),
        ensures
            r == self@.is_zero(),
    {
        self.xn == 0 && self.yn == 0
    }
}

impl Position2 {
    pub open spec fn wf(self) -> bool {
        self@.wf()
    }

    pub fn new(xn: i128, yn: i128, den: i128) -> (r: Position2)
        requires
            den >= 1,
        ensures
            r@ == (Rat2 { x: xn as int, y: yn as int, d: den as int }),
            r.wf(),
    {
        Position2 { xn, yn, den }
    }

    pub fn x(&self) -> (r: Scalar)
        ensures
            r@ == self@.rx(),
    {
        Scalar { num: self.xn, den: self.den }
    }

    pub fn y(&self) -> (r: Scalar)
        ensures
            r@ == self@.ry(),
    {
        Scalar { num: self.yn, den: self.den }
    }

    /// The vector from `o` to `self`.
    pub fn sub(&self, o: &Position2) -> (r: Vector2)
        requires
            self.wf(),
            o.wf(),
            self@.add_fits(o@),
        ensures
            r@ == self@.sub(o@),
            r.wf(),
    {
        proof {
            lemma_den_product(self.den as int, o.den as int);
        }
        Vector2 {
            xn: self.xn * o.den - o.xn * self.den,
            yn: self.yn * o.den - o.yn * self.den,
            den: self.den * o.den,
        }
    }

    /// The point reached from `self` along `v`.
    pub fn add(&self, v: &Vector2) -> (r: Position2)
        requires
            self.wf(),
            v.wf(),
            self@.add_fits(v@),
        ensures
            r@ == self@.add(v@),
            r.wf(),
    {
        proof {
            lemma_den_product(self.den as int, v.den as int);
        }
        Position2 {
            xn: self.xn * v.den + v.xn * self.den,
            yn: self.yn * v.den + v.yn * self.den,
            den: self.den * v.den,
        }
    }
}

impl Direction2 {
    pub open spec fn wf(self) -> bool {
        self@.wf() && self@.is_unit()
    }

    pub fn new(vector: Vector2) -> (r: Direction2)
        requires
            vector.wf(),
            vector@.is_unit(),
        ensures
            r@ == vector@,
            r.wf(),
    {
        Direction2 { vector }
    }

    pub fn into_vector(&self) -> (r: Vector2)
        ensures
            r@ == self@,
            self.wf() ==> r.wf(),
    {
        self.vector
    }
}

impl Vector3 {
    pub open spec fn wf(self) -> bool {
        self@.wf()
    }

    pub fn new(xn: i128, yn: i128, zn: i128, den: i128) -> (r: Vector3)
        requires
            den >= 1,
        ensures
            r@ == (Rat3 { x: xn as int, y: yn as int, z: zn as int, d: den as int }),
            r.wf(),
    {
        Vector3 { xn, yn, zn, den }
    }

    pub fn x(&self) -> (r: Scalar)
        ensures
            r@ == self@.rx(),
    {
        Scalar { num: self.xn, den: self.den }
    }

    pub fn y(&self) -> (r: Scalar)
        ensures
            r@ == self@.ry(),
    {
        Scalar { num: self.yn, den: self.den }
    }

    pub fn z(&self) -> (r: Scalar)
        ensures
            r@ == self@.rz(),
    {
        Scalar { num: self.zn, den: self.den }
    }

    pub fn scale(&self, t: &Scalar) -> (r: Vector3)
        requires
            self.wf(),
            t.wf(),
            self@.scale_fits(t@),
        ensures
            r@ == self@.scale(t@),
            r.wf(),
    {
        proof {
            lemma_den_product(self.den as int, t.den as int);
        }
        Vector3 {
            xn: self.xn * t.num,
            yn: self.yn * t.num,
            zn: self.zn * t.num,
            den: self.den * t.den,
        }
    }

    pub fn add(&self, o: &Vector3) -> (r: Vector3)
        requires
            self.wf(),
            o.wf(),
            self@.add_fits(o@),
        ensures
            r@ == self@.add(o@),
            r.wf(),
    {
        proof {
            lemma_den_product(self.den as int, o.den as int);
        }
        Vector3 {
            xn: self.xn * o.den + o.xn * self.den,
            yn: self.yn * o.den + o.yn * self.den,
            zn: self.zn * o.den + o.zn * self.den,
            den: self.den * o.den,
        }
    }

    pub fn sub(&self, o: &Vector3) -> (r: Vector3)
        requires
            self.wf(),
            o.wf(),
            self@.add_fits(o@),
        ensures
            r@ == self@.sub(o@),
            r.wf(),
    {
        proof {
            lemma_den_product(self.den as int, o.den as int);
        }
        Vector3 {
            xn: self.xn * o.den - o.xn * self.den,
            yn: self.yn * o.den - o.yn * self.den,
            zn: self.zn * o.den - o.zn * self.den,
            den: self.den * o.den,
        }
    }

    pub fn dot(&self, o: &Vector3) -> (r: Scalar)
        requires
            self.wf(),
            o.wf(),
            self@.dot_fits(o@),
        ensures
            r@ == self@.dot(o@),
            r.wf(),
    {
        proof {
            lemma_den_product(self.den as int, o.den as int);
        }
        Scalar { num: self.xn * o.xn + self.yn * o.yn + self.zn * o.zn, den: self.den * o.den }
    }

    pub fn norm_sq(&self) -> (r: Scalar)
        requires
            self.wf(),
            self@.norm_sq_fits(),
        ensures
            r@ == self@.norm_sq(),
            r.wf(),
    {
        proof {
            lemma_den_product(self.den as int, self.den as int);
            lemma_sq_nonneg(self.xn as int);
            lemma_sq_nonneg(self.yn as int);
            lemma_sq_nonneg(self.zn as int);
        }
        Scalar {
            num: self.xn * self.xn + self.yn * self.yn + self.zn * self.zn,
            den: self.den * self.den,
        }
    }

    pub fn is_zero_exact(&self) -> (r: bool)
        requires
            self.wf(),
        ensures
            r == self@.is_zero(),
    {
        self.xn == 0 && self.yn == 0 && self.zn == 0
    }
}

impl Position3 {
    pub open spec fn wf(self) -> bool {
        self@.wf()
    }

    pub fn new(xn: i128, yn: i128, zn: i128, den: i128) -> (r: Position3)
        requires
            den >= 1,
        ensures
            r@ == (Rat3 { x: xn as int, y: yn as int, z: zn as int, d: den as int }),
            r.wf(),
    {
        Position3 { xn, yn, zn, den }
    }

    pub fn x(&self) -> (r: Scalar)
        ensures
            r@ == self@.rx(),
    {
        Scalar { num: self.xn, den: self.den }
    }

    pub fn y(&self) -> (r: Scalar)
        ensures
            r@ == self@.ry(),
    {
        Scalar { num: self.yn, den: self.den }
    }

    pub fn z(&self) -> (r: Scalar)
        ensures
            r@ == self@.rz(),
    {
        Scalar { num: self.zn, den: self.den }
    }

    /// The vector from `o` to `self`.
    pub fn sub(&self, o: &Position3) -> (r: Vector3)
        requires
            self.wf(),
            o.wf(),
            self@.add_fits(o@),
        ensures
            r@ == self@.sub(o@),
            r.wf(),
    {
        proof {
            lemma_den_product(self.den as int, o.den as int);
        }
        Vector3 {
            xn: self.xn * o.den - o.xn * self.den,
            yn: self.yn * o.den - o.yn * self.den,
            zn: self.zn * o.den - o.zn * self.den,
            den: self.den * o.den,
        }
    }

    /// The point reached from `self` along `v`.
    pub fn add(&self, v: &Vector3) -> (r: Position3)
        requires
            self.wf(),
            v.wf(),
            self@.add_fits(v@),
        ensures
            r@ == self@.add(v@),
            r.wf(),
    {
        proof {
            lemma_den_product(self.den as int, v.den as int);
        }
        Position3 {
            xn: self.xn * v.den + v.xn * self.den,
            yn: self.yn * v.den + v.yn * self.den,
            zn: self.zn * v.den + v.zn * self.den,
            den: self.den * v.den,
        }
    }
}

impl Direction3 {
    pub open spec fn wf(self) -> bool {
        self@.wf() && self@.is_unit()
    }

    pub fn new(vector: Vector3) -> (r: Direction3)
        requires
            vector.wf(),
            vector@.is_unit(),
        ensures
            r@ == vector@,
            r.wf(),
    {
        Direction3 { vector }
    }

    pub fn into_vector(&self) -> (r: Vector3)
        ensures
            r@ == self@,
            self.wf() ==> r.wf(),
    {
        self.vector
    }
}

/// A square of an integer is never negative.
pub proof fn lemma_sq_nonneg(x: int)
    by (nonlinear_arith)
    ensures
        x * x >= 0,
{
}

/// On an exact unit vector every coordinate is bounded by the denominator.
pub proof fn lemma_unit_bounds2(v: Rat2)
    by (nonlinear_arith)
    requires
        v.wf(),
        v.is_unit(),
    ensures
        -v.d <= v.x <= v.d,
        -v.d <= v.y <= v.d,
{
}

/// On an exact unit vector every coordinate is bounded by the denominator.
pub proof fn lemma_unit_bounds3(v: Rat3)
    by (nonlinear_arith)
    requires
        v.wf(),
        v.is_unit(),
    ensures
        -v.d <= v.x <= v.d,
        -v.d <= v.y <= v.d,
        -v.d <= v.z <= v.d,
{
}

/// The direction turned a quarter turn clockwise: `(y, -x)`. Turning
/// preserves exact unit length.
pub fn rotate_cw90(dir: &Direction2) -> (r: Direction2)
    requires
        dir.wf(),
    ensures
        r@ == (Rat2 { x: dir@.y, y: -dir@.x, d: dir@.d }),
        r.wf(),
{
    proof {
        lemma_unit_bounds2(dir@);
        assert((-dir@.x) * (-dir@.x) == dir@.x * dir@.x) by (nonlinear_arith);
    }
    Direction2 { vector: Vector2 { xn: dir.vector.yn, yn: -dir.vector.xn, den: dir.vector.den } }
}

/// The direction turned a quarter turn counter-clockwise: `(-y, x)`.
pub fn rotate_ccw90(dir: &Direction2) -> (r: Direction2)
    requires
        dir.wf(),
    ensures
        r@ == (Rat2 { x: -dir@.y, y: dir@.x, d: dir@.d }),
        r.wf(),
{
    proof {
        lemma_unit_bounds2(dir@);
        assert((-dir@.y) * (-dir@.y) == dir@.y * dir@.y) by (nonlinear_arith);
    }
    Direction2 { vector: Vector2 { xn: -dir.vector.yn, yn: dir.vector.xn, den: dir.vector.den } }
}

/// The fallback vector chosen by `perpendicular`, as a model function: the
/// cross product of a global axis with `v`, the global axis being Y when `v`
/// is close to the global Z axis (both planar coordinates below 1/64 in
/// magnitude) and Z otherwise.
pub open spec fn spec_perpendicular(v: Rat3) -> Rat3 {
    if 64 * v.x < v.d && -(64 * v.x) < v.d && 64 * v.y < v.d && -(64 * v.y) < v.d {
        Rat3 { x: v.z, y: 0, z: -v.x, d: v.d }
    } else {
        Rat3 { x: -v.y, y: v.x, z: 0, d: v.d }
    }
}

/// An exact vector perpendicular to the given direction, chosen to stay far
/// from the zero vector: the cross product of `dir` with the global Y axis
/// when `dir` is nearly parallel to the global Z axis, and with the global Z
/// axis otherwise. The result is not normalised; it is never the zero vector.
pub fn perpendicular(dir: &Direction3) -> (r: Vector3)
    requires
        dir.wf(),
        -i128::MAX <= 64 * dir@.x <= i128::MAX,
        -i128::MAX <= 64 * dir@.y <= i128::MAX,
    ensures
        r@ == spec_perpendicular(dir@),
        r.wf(),
        !r@.is_zero(),
        r@.dot(dir@).is_zero(),
{
    proof {
        lemma_unit_bounds3(dir@);
        lemma_perpendicular_nonzero(dir@);
    }
    let v = &dir.vector;
    if 64 * v.xn < v.den && -(64 * v.xn) < v.den && 64 * v.yn < v.den && -(64 * v.yn) < v.den {
        Vector3 { xn: v.zn, yn: 0, zn: -v.xn, den: v.den }
    } else {
        Vector3 { xn: -v.yn, yn: v.xn, zn: 0, den: v.den }
    }
}

/// The fallback vector is perpendicular to the direction and never zero:
/// near the global Z axis the planar coordinates are small, so the third is
/// not; away from it some planar coordinate is itself nonzero.
proof fn lemma_perpendicular_nonzero(v: Rat3)
    by (nonlinear_arith)
    requires
        v.wf(),
        v.is_unit(),
    ensures
        !spec_perpendicular(v).is_zero(),
        spec_perpendicular(v).dot(v).is_zero(),
{
}

} // verus!
