use vstd::prelude::*;
use crate::scalar::{Rat, Scalar, lemma_den_product, lemma_add_sub_cancel, lemma_four,
    lemma_distrib, lemma_rot3, lemma_comm, lemma_eq_rat_trans, lemma_add_congruence,
    lemma_sub_congruence, lemma_mul_congruence};
use crate::vector::{Rat2, Rat3, Position2, Vector2, Direction2, Position3, Vector3, Direction3,
    rotate_cw90};
use crate::projection::{Projection, ProjectionModel2, ProjectionModel3, UntrimmedProjector};
use crate::parametric::{Parameter, Range, ParameterSpace, ParametricCurve3};

verus! {

/// An infinite line, given by a point on it and its unit direction.
pub trait Line<P, N> {
    spec fn point_spec(&self) -> P;

    spec fn direction_spec(&self) -> N;

    fn point(&self) -> (r: &P)
        ensures
            *r == self.point_spec(),
    ;

    fn direction(&self) -> (r: &N)
        ensures
            *r == self.direction_spec(),
    ;
}

/// An infinite line through `point` along the unit direction `direction`.
#[derive(Clone, Copy, Debug)]
pub struct Ray<P, N> {
    pub point: P,
    pub direction: N,
}

pub type Ray2 = Ray<Position2, Direction2>;

pub type Ray3 = Ray<Position3, Direction3>;

impl<P, N> Ray<P, N> {
    pub fn new(point: P, direction: N) -> (r: Ray<P, N>)
        ensures
            r.point == point,
            r.direction == direction,
    {
        Ray { point, direction }
    }
}

impl<P, N> Line<P, N> for Ray<P, N> {
    open spec fn point_spec(&self) -> P {
        self.point
    }

    open spec fn direction_spec(&self) -> N {
        self.direction
    }

    fn point(&self) -> (r: &P) {
        &self.point
    }

    fn direction(&self) -> (r: &N) {
        &self.direction
    }
}

impl Ray2 {
    pub open spec fn wf(self) -> bool {
        self.point.wf() && self.direction.wf()
    }

    /// The foot of the perpendicular from `p`:
    /// `point + direction * dot(p - point, direction)`.
    pub open spec fn foot_model(self, p: Rat2) -> Rat2 {
        self.point@.add(self.direction@.scale(p.sub(self.point@).dot(self.direction@)))
    }

    /// The normal the planar ray reports: its direction turned clockwise.
    pub open spec fn normal_model(self) -> Rat2 {
        Rat2 { x: self.direction@.y, y: -self.direction@.x, d: self.direction@.d }
    }

    /// The signed distance from `p` to the line:
    /// `dot(p - point, rotate_cw90(direction))`, positive on the side the
    /// clockwise-turned direction points to.
    pub open spec fn signed_distance_model(self, p: Rat2) -> Rat {
        p.sub(self.point@).dot(self.normal_model())
    }

    pub open spec fn signed_distance_fits(self, p: Rat2) -> bool {
        &&& p.add_fits(self.point@)
        &&& p.sub(self.point@).dot_fits(self.normal_model())
    }

    /// The signed distance computed directly, without building the
    /// projected point. It equals `dot(p - proj, normal)` for the projection
    /// `proj` and normal this ray returns (`lemma_signed_distance_consistent`).
    pub fn calculate_signed_distance(&self, p: &Position2) -> (r: Scalar)
        requires
            self.wf(),
            p.wf(),
            self.signed_distance_fits(p@),
        ensures
            r@ == self.signed_distance_model(p@),
            r.wf(),
    {
        let w = p.sub(&self.point);
        let n = rotate_cw90(&self.direction);
        w.dot(&n.into_vector())
    }
}

impl Ray3 {
    pub open spec fn wf(self) -> bool {
        self.point.wf() && self.direction.wf()
    }

    /// The foot of the perpendicular from `p`:
    /// `point + direction * dot(p - point, direction)`.
    pub open spec fn foot_model(self, p: Rat3) -> Rat3 {
        self.point@.add(self.direction@.scale(p.sub(self.point@).dot(self.direction@)))
    }
}

impl UntrimmedProjector<Position2, Vector2, Direction2> for Ray2 {
    open spec fn project_req(&self, p: Position2) -> bool {
        &&& self.wf()
        &&& p.wf()
        &&& p@.add_fits(self.point@)
        &&& p@.sub(self.point@).dot_fits(self.direction@)
        &&& self.direction@.scale_fits(p@.sub(self.point@).dot(self.direction@))
        &&& self.point@.add_fits(
            self.direction@.scale(p@.sub(self.point@).dot(self.direction@)),
        )
    }

    open spec fn project_post(&self, p: Position2, r: Projection<
        Position2,
        Vector2,
        Direction2,
    >) -> bool {
        match r@ {
            ProjectionModel2::At { point, normal } => {
                &&& point == self.foot_model(p@)
                &&& normal == Some(self.normal_model())
                &&& point.wf()
            },
            _ => false,
        }
    }

    /// The closest point on the line, together with the normal that makes
    /// the signed distance positive on the clockwise side.
    fn project(&self, p: &Position2) -> (r: Projection<Position2, Vector2, Direction2>) {
        let w = p.sub(&self.point);
        let t = w.dot(&self.direction.into_vector());
        let foot = self.point.add(&self.direction.into_vector().scale(&t));
        let n = rotate_cw90(&self.direction);
        Projection::At { point: foot, normal: Some(n) }
    }
}

impl UntrimmedProjector<Position3, Vector3, Direction3> for Ray3 {
    open spec fn project_req(&self, p: Position3) -> bool {
        &&& self.wf()
        &&& p.wf()
        &&& p@.add_fits(self.point@)
        &&& p@.sub(self.point@).dot_fits(self.direction@)
        &&& self.direction@.scale_fits(p@.sub(self.point@).dot(self.direction@))
        &&& self.point@.add_fits(
            self.direction@.scale(p@.sub(self.point@).dot(self.direction@)),
        )
    }

    open spec fn project_post(&self, p: Position3, r: Projection<
        Position3,
        Vector3,
        Direction3,
    >) -> bool {
        match r@ {
            ProjectionModel3::At { point, normal } => {
                &&& point == self.foot_model(p@)
                &&& normal.is_none()
                &&& point.wf()
            },
            _ => false,
        }
    }

    /// The closest point on the line. A spatial line has no canonical side,
    /// so no normal is returned.
    fn project(&self, p: &Position3) -> (r: Projection<Position3, Vector3, Direction3>) {
        let w = p.sub(&self.point);
        let t = w.dot(&self.direction.into_vector());
        let foot = self.point.add(&self.direction.into_vector().scale(&t));
        Projection::At { point: foot, normal: None }
    }
}

impl ParametricCurve3 for Ray3 {
    open spec fn all_req(&self, t: Parameter) -> bool {
        &&& self.wf()
        &&& t.wf()
        &&& self.direction@.scale_fits(t.value@)
        &&& self.point@.add_fits(self.direction@.scale(t.value@))
    }

    open spec fn all_pos_model(&self, t: Parameter) -> Rat3 {
        self.point@.add(self.direction@.scale(t.value@))
    }

    open spec fn all_tangent_model(&self, t: Parameter) -> Rat3 {
        self.direction@
    }

    /// The point at parameter `t` (an arc length along the line) and the
    /// constant tangent, the line's unit direction.
    fn all(&self, t: &Parameter) -> (r: (Position3, Vector3)) {
        let pos = self.point.add(&self.direction.into_vector().scale(&t.value));
        (pos, self.direction.into_vector())
    }

    fn xyz(&self, t: &Parameter) -> (r: Position3) {
        let (pos, _tangent) = self.all(t);
        pos
    }
}

impl ParameterSpace for Ray3 {
    open spec fn period_spec(&self) -> Option<Scalar> {
        None
    }

    open spec fn limits_spec(&self) -> Option<Range<Scalar>> {
        None
    }

    open spec fn closed_spec(&self) -> bool {
        false
    }

    /// A line does not repeat.
    fn period(&self) -> Option<Scalar> {
        None
    }

    /// A line's parameter is unrestricted.
    fn limits(&self) -> Option<Range<Scalar>> {
        None
    }

    /// A line is not topologically closed.
    fn closed(&self) -> bool {
        false
    }
}

/// Rationally equal vectors have rationally equal dot products with any
/// third vector.
pub proof fn lemma_dot3_congruence(v: Rat3, o: Rat3, w: Rat3)
    requires
        v.wf(),
        o.wf(),
        w.wf(),
        v.eq3(o),
    ensures
        v.dot(w).eq_rat(o.dot(w)),
{
    lemma_distrib(v.x * w.x, v.y * w.y, o.d * w.d);
    lemma_distrib(v.x * w.x + v.y * w.y, v.z * w.z, o.d * w.d);
    lemma_distrib(o.x * w.x, o.y * w.y, v.d * w.d);
    lemma_distrib(o.x * w.x + o.y * w.y, o.z * w.z, v.d * w.d);
    lemma_four(v.x, w.x, o.d, w.d);
    lemma_four(v.y, w.y, o.d, w.d);
    lemma_four(v.z, w.z, o.d, w.d);
    lemma_four(o.x, v.d, w.x, w.d);
    lemma_four(o.y, v.d, w.y, w.d);
    lemma_four(o.z, v.d, w.z, w.d);
    assert((v.x * o.d) * (w.x * w.d) == (o.x * v.d) * (w.x * w.d));
    assert((v.y * o.d) * (w.y * w.d) == (o.y * v.d) * (w.y * w.d));
    assert((v.z * o.d) * (w.z * w.d) == (o.z * v.d) * (w.z * w.d));
    lemma_four(o.x, w.x, v.d, w.d);
    lemma_four(o.y, w.y, v.d, w.d);
    lemma_four(o.z, w.z, v.d, w.d);
}

/// Rationally equal planar vectors have rationally equal dot products with
/// any third vector.
pub proof fn lemma_dot2_congruence(v: Rat2, o: Rat2, w: Rat2)
    requires
        v.wf(),
        o.wf(),
        w.wf(),
        v.eq2(o),
    ensures
        v.dot(w).eq_rat(o.dot(w)),
{
    lemma_distrib(v.x * w.x, v.y * w.y, o.d * w.d);
    lemma_distrib(o.x * w.x, o.y * w.y, v.d * w.d);
    lemma_four(v.x, w.x, o.d, w.d);
    lemma_four(v.y, w.y, o.d, w.d);
    lemma_four(o.x, v.d, w.x, w.d);
    lemma_four(o.y, v.d, w.y, w.d);
    assert((v.x * o.d) * (w.x * w.d) == (o.x * v.d) * (w.x * w.d));
    assert((v.y * o.d) * (w.y * w.d) == (o.y * v.d) * (w.y * w.d));
    lemma_four(o.x, w.x, v.d, w.d);
    lemma_four(o.y, w.y, v.d, w.d);
}

/// The dot product of a unit vector scaled by `t` with that unit vector is
/// `t` again.
pub proof fn lemma_scaled_unit_dot3(d: Rat3, t: Rat)
    requires
        d.wf(),
        t.wf(),
        d.is_unit(),
    ensures
        d.scale(t).dot(d).eq_rat(t),
{
    lemma_rot3(d.x, t.n, d.x);
    lemma_rot3(d.y, t.n, d.y);
    lemma_rot3(d.z, t.n, d.z);
    lemma_distrib(d.x * d.x, d.y * d.y, t.n);
    lemma_distrib(d.x * d.x + d.y * d.y, d.z * d.z, t.n);
    assert(d.scale(t).dot(d).n == t.n * (d.d * d.d));
    lemma_rot3(d.d, t.d, d.d);
    lemma_rot3(t.n, d.d * d.d, t.d);
    assert((t.n * (d.d * d.d)) * t.d == t.n * ((d.d * t.d) * d.d));
}

/// Points on a spatial line project onto themselves: for any parameter `t`,
/// the foot of the perpendicular from the point the line passes at `t` is
/// that point again, coordinate for coordinate as rationals.
pub proof fn lemma_ray3_project_on_line(ray: Ray3, t: Rat)
    requires
        ray.wf(),
        t.wf(),
    ensures
        ({
            let pos = ray.point@.add(ray.direction@.scale(t));
            ray.foot_model(pos).eq3(pos)
        }),
{
    let p0 = ray.point@;
    let d = ray.direction@;
    let q = d.scale(t);
    let pos = p0.add(q);
    let w = pos.sub(p0);
    let dt = w.dot(d);
    lemma_den_product(d.d, t.d);
    lemma_den_product(p0.d, q.d);
    lemma_den_product(pos.d, p0.d);
    lemma_den_product(w.d, d.d);
    lemma_den_product(q.d, d.d);
    lemma_den_product(d.d, w.d * d.d);
    lemma_add_sub_cancel(p0.rx(), q.rx());
    lemma_add_sub_cancel(p0.ry(), q.ry());
    lemma_add_sub_cancel(p0.rz(), q.rz());
    lemma_dot3_congruence(w, q, d);
    lemma_scaled_unit_dot3(d, t);
    lemma_eq_rat_trans(dt, q.dot(d), t);
    lemma_mul_congruence(d.rx(), d.rx(), dt, t);
    lemma_mul_congruence(d.ry(), d.ry(), dt, t);
    lemma_mul_congruence(d.rz(), d.rz(), dt, t);
    lemma_add_congruence(p0.rx(), p0.rx(), d.rx().mul(dt), d.rx().mul(t));
    lemma_add_congruence(p0.ry(), p0.ry(), d.ry().mul(dt), d.ry().mul(t));
    lemma_add_congruence(p0.rz(), p0.rz(), d.rz().mul(dt), d.rz().mul(t));
}


/// Subtracting two vectors in either order reaches the same point,
/// rationally: `(a - b) - c` equals `(a - c) - b`.
proof fn lemma_sub_swap(a: Rat, b: Rat, c: Rat)
    requires
        a.wf(),
        b.wf(),
        c.wf(),
    ensures
        a.sub(b).sub(c).eq_rat(a.sub(c).sub(b)),
{
    lemma_distrib(a.n * b.d, b.n * a.d, c.d);
    lemma_distrib(a.n * c.d, c.n * a.d, b.d);
    lemma_rot3(a.n, b.d, c.d);
    lemma_rot3(a.n, c.d, b.d);
    lemma_comm(b.d, c.d);
    lemma_rot3(b.n, a.d, c.d);
    lemma_rot3(c.n, a.d, b.d);
    assert(a.sub(b).sub(c).n == a.sub(c).sub(b).n);
    lemma_rot3(a.d, b.d, c.d);
    lemma_rot3(a.d, c.d, b.d);
    lemma_four(a.d, b.d, a.d, c.d);
    assert(a.sub(b).sub(c).n * a.sub(c).sub(b).d == a.sub(c).sub(b).n * a.sub(b).sub(c).d) by {
        assert(a.sub(b).sub(c).d == (a.d * b.d) * c.d);
        assert(a.sub(c).sub(b).d == (a.d * c.d) * b.d);
        assert((a.d * b.d) * c.d == (a.d * c.d) * b.d) by (nonlinear_arith);
    }
}

/// The dot product is linear in its first argument over subtraction.
proof fn lemma_dot2_sub_linear(u: Rat2, k: Rat2, n: Rat2)
    requires
        u.wf(),
        k.wf(),
        n.wf(),
    ensures
        u.sub(k).dot(n).eq_rat(u.dot(n).sub(k.dot(n))),
{
    let lhs = u.sub(k).dot(n);
    let rhs = u.dot(n).sub(k.dot(n));
    // the numerators agree after one extra factor of the normal's denominator
    lemma_distrib(u.x * k.d, k.x * u.d, n.x);
    lemma_distrib(u.y * k.d, k.y * u.d, n.y);
    lemma_distrib((u.x * k.d) * n.x - (k.x * u.d) * n.x, (u.y * k.d) * n.y - (k.y * u.d) * n.y,
        n.d);
    lemma_distrib((u.x * k.d) * n.x, (k.x * u.d) * n.x, n.d);
    lemma_distrib((u.y * k.d) * n.y, (k.y * u.d) * n.y, n.d);
    lemma_rot3(u.x * k.d, n.x, n.d);
    lemma_four(u.x, k.d, n.x, n.d);
    lemma_rot3(k.x * u.d, n.x, n.d);
    lemma_four(k.x, u.d, n.x, n.d);
    lemma_rot3(u.y * k.d, n.y, n.d);
    lemma_four(u.y, k.d, n.y, n.d);
    lemma_rot3(k.y * u.d, n.y, n.d);
    lemma_four(k.y, u.d, n.y, n.d);
    lemma_distrib(u.x * n.x, u.y * n.y, k.d * n.d);
    lemma_distrib(k.x * n.x, k.y * n.y, u.d * n.d);
    lemma_four(u.x, n.x, k.d, n.d);
    lemma_four(u.y, n.y, k.d, n.d);
    lemma_four(k.x, n.x, u.d, n.d);
    lemma_four(k.y, n.y, u.d, n.d);
    assert(lhs.n * n.d == rhs.n);
    // the denominators differ by the same factor, rearranged
    lemma_four(u.d, n.d, k.d, n.d);
    lemma_rot3(lhs.n, n.d, (u.d * k.d) * n.d);
    lemma_rot3(u.d * k.d, n.d, n.d);
    assert(lhs.n * rhs.d == rhs.n * lhs.d) by {
        assert(rhs.d == (u.d * n.d) * (k.d * n.d));
        assert(lhs.d == (u.d * k.d) * n.d);
        assert((u.d * n.d) * (k.d * n.d) == ((u.d * k.d) * n.d) * n.d) by (nonlinear_arith);
        assert(lhs.n * (((u.d * k.d) * n.d) * n.d) == (lhs.n * n.d) * ((u.d * k.d) * n.d))
            by (nonlinear_arith);
    }
}

/// The dot product of a planar unit vector scaled by `t` with that unit
/// vector is `t` again.
proof fn lemma_scaled_unit_dot2(d: Rat2, t: Rat)
    requires
        d.wf(),
        t.wf(),
        d.is_unit(),
    ensures
        d.scale(t).dot(d).eq_rat(t),
{
    lemma_rot3(d.x, t.n, d.x);
    lemma_rot3(d.y, t.n, d.y);
    lemma_distrib(d.x * d.x, d.y * d.y, t.n);
    assert(d.scale(t).dot(d).n == t.n * (d.d * d.d));
    lemma_rot3(d.d, t.d, d.d);
    lemma_rot3(t.n, d.d * d.d, t.d);
    assert((t.n * (d.d * d.d)) * t.d == t.n * ((d.d * t.d) * d.d));
}

/// Twice a value subtracted from it leaves its negation.
proof fn lemma_sub_double(a: Rat)
    by (nonlinear_arith)
    requires
        a.wf(),
    ensures
        a.sub(a.add(a)).eq_rat(a.neg()),
{
}

impl Ray2 {
    /// The mirror image of `p` across the line: walk back twice the signed
    /// distance along the normal.
    pub open spec fn reflect_model(self, p: Rat2) -> Rat2 {
        p.sub(self.normal_model().scale(self.signed_distance_model(p).add(
            self.signed_distance_model(p),
        )))
    }
}

/// The signed distance is antisymmetric under reflection: a point and its
/// mirror image across the line are at signed distances of equal magnitude
/// and opposite sign.
pub proof fn lemma_signed_distance_reflection(ray: Ray2, p: Rat2)
    requires
        ray.wf(),
        p.wf(),
    ensures
        ray.signed_distance_model(ray.reflect_model(p)).eq_rat(
            ray.signed_distance_model(p).neg(),
        ),
{
    let p0 = ray.point@;
    let n = ray.normal_model();
    let u = p.sub(p0);
    let sd = ray.signed_distance_model(p);
    let sd2 = sd.add(sd);
    let k = n.scale(sd2);
    let refl = p.sub(k);
    assert((-ray.direction@.x) * (-ray.direction@.x) == ray.direction@.x * ray.direction@.x)
        by (nonlinear_arith);
    assert(n.is_unit());
    lemma_den_product(p.d, p0.d);
    lemma_den_product(u.d, n.d);
    lemma_den_product(sd.d, sd.d);
    lemma_den_product(n.d, sd2.d);
    lemma_den_product(p.d, k.d);
    lemma_den_product(refl.d, p0.d);
    lemma_den_product(u.d, k.d);
    lemma_den_product(u.sub(k).d, n.d);
    lemma_den_product(k.d, n.d);
    lemma_den_product(u.d * n.d, k.d * n.d);
    lemma_den_product(sd.d, sd2.d);
    lemma_den_product(n.d * sd2.d, n.d);
    lemma_den_product(refl.sub(p0).d, n.d);
    // (p - k) - p0 and (p - p0) - k are the same point
    lemma_sub_swap(p.rx(), k.rx(), p0.rx());
    lemma_sub_swap(p.ry(), k.ry(), p0.ry());
    // so both have the same dot product with the normal
    lemma_dot2_congruence(refl.sub(p0), u.sub(k), n);
    // which splits linearly
    lemma_dot2_sub_linear(u, k, n);
    // and the subtracted part is twice the signed distance
    lemma_scaled_unit_dot2(n, sd2);
    lemma_sub_congruence(u.dot(n), sd, k.dot(n), sd2);
    lemma_sub_double(sd);
    lemma_eq_rat_trans(refl.sub(p0).dot(n), u.sub(k).dot(n), u.dot(n).sub(k.dot(n)));
    lemma_eq_rat_trans(refl.sub(p0).dot(n), u.dot(n).sub(k.dot(n)), sd.sub(sd2));
    lemma_eq_rat_trans(refl.sub(p0).dot(n), sd.sub(sd2), sd.neg());
}


/// A fraction stays the same when a zero-valued fraction is subtracted.
proof fn lemma_sub_zero(a: Rat, z: Rat)
    by (nonlinear_arith)
    requires
        a.wf(),
        z.wf(),
        z.is_zero(),
    ensures
        a.sub(z).eq_rat(a),
{
}

/// The direct signed distance agrees with the one derived from the
/// projection: for every query point, `dot(p - point, rotate_cw90(d))`
/// equals `dot(p - foot, rotate_cw90(d))` for the foot of the
/// perpendicular, because the step from `point` to `foot` is along the
/// direction, which is perpendicular to the normal.
pub proof fn lemma_signed_distance_consistent(ray: Ray2, p: Rat2)
    requires
        ray.wf(),
        p.wf(),
    ensures
        p.sub(ray.foot_model(p)).dot(ray.normal_model()).eq_rat(ray.signed_distance_model(p)),
{
    let p0 = ray.point@;
    let d = ray.direction@;
    let n = ray.normal_model();
    let u = p.sub(p0);
    let t = u.dot(d);
    let q = d.scale(t);
    let foot = p0.add(q);
    lemma_den_product(p.d, p0.d);
    lemma_den_product(u.d, d.d);
    lemma_den_product(d.d, t.d);
    lemma_den_product(p0.d, q.d);
    lemma_den_product(p.d, foot.d);
    lemma_den_product(u.d, q.d);
    lemma_den_product(u.sub(q).d, n.d);
    lemma_den_product(p.sub(foot).d, n.d);
    lemma_den_product(q.d, n.d);
    lemma_den_product(u.d * n.d, q.d * n.d);
    // p - (p0 + q) reaches the same point as (p - p0) - q
    lemma_sub_add_swap(p.rx(), p0.rx(), q.rx());
    lemma_sub_add_swap(p.ry(), p0.ry(), q.ry());
    lemma_dot2_congruence(p.sub(foot), u.sub(q), n);
    // the dot product splits, and the step along the direction contributes
    // nothing: the direction is perpendicular to the normal
    lemma_dot2_sub_linear(u, q, n);
    assert(q.dot(n).is_zero()) by {
        assert((d.x * t.n) * d.y + (d.y * t.n) * (-d.x) == 0) by (nonlinear_arith);
    }
    lemma_sub_zero(u.dot(n), q.dot(n));
    lemma_eq_rat_trans(p.sub(foot).dot(n), u.sub(q).dot(n), u.dot(n).sub(q.dot(n)));
    lemma_eq_rat_trans(p.sub(foot).dot(n), u.dot(n).sub(q.dot(n)), u.dot(n));
}

/// Subtracting a sum is subtracting both parts in turn.
proof fn lemma_sub_add_swap(a: Rat, b: Rat, c: Rat)
    by (nonlinear_arith)
    requires
        a.wf(),
        b.wf(),
        c.wf(),
    ensures
        a.sub(b.add(c)).eq_rat(a.sub(b).sub(c)),
{
}


/// The spatial dot product is linear in its first argument over
/// subtraction.
pub proof fn lemma_dot3_sub_linear(u: Rat3, k: Rat3, n: Rat3)
    requires
        u.wf(),
        k.wf(),
        n.wf(),
    ensures
        u.sub(k).dot(n).eq_rat(u.dot(n).sub(k.dot(n))),
{
    let lhs = u.sub(k).dot(n);
    let rhs = u.dot(n).sub(k.dot(n));
    lemma_distrib(u.x * k.d, k.x * u.d, n.x);
    lemma_distrib(u.y * k.d, k.y * u.d, n.y);
    lemma_distrib(u.z * k.d, k.z * u.d, n.z);
    lemma_distrib((u.x * k.d) * n.x - (k.x * u.d) * n.x, (u.y * k.d) * n.y - (k.y * u.d) * n.y,
        n.d);
    lemma_distrib(((u.x * k.d) * n.x - (k.x * u.d) * n.x) + ((u.y * k.d) * n.y - (k.y * u.d)
        * n.y), (u.z * k.d) * n.z - (k.z * u.d) * n.z, n.d);
    lemma_distrib((u.x * k.d) * n.x, (k.x * u.d) * n.x, n.d);
    lemma_distrib((u.y * k.d) * n.y, (k.y * u.d) * n.y, n.d);
    lemma_distrib((u.z * k.d) * n.z, (k.z * u.d) * n.z, n.d);
    lemma_rot3(u.x * k.d, n.x, n.d);
    lemma_four(u.x, k.d, n.x, n.d);
    lemma_rot3(k.x * u.d, n.x, n.d);
    lemma_four(k.x, u.d, n.x, n.d);
    lemma_rot3(u.y * k.d, n.y, n.d);
    lemma_four(u.y, k.d, n.y, n.d);
    lemma_rot3(k.y * u.d, n.y, n.d);
    lemma_four(k.y, u.d, n.y, n.d);
    lemma_rot3(u.z * k.d, n.z, n.d);
    lemma_four(u.z, k.d, n.z, n.d);
    lemma_rot3(k.z * u.d, n.z, n.d);
    lemma_four(k.z, u.d, n.z, n.d);
    lemma_distrib(u.x * n.x, u.y * n.y, k.d * n.d);
    lemma_distrib(u.x * n.x + u.y * n.y, u.z * n.z, k.d * n.d);
    lemma_distrib(k.x * n.x, k.y * n.y, u.d * n.d);
    lemma_distrib(k.x * n.x + k.y * n.y, k.z * n.z, u.d * n.d);
    lemma_four(u.x, n.x, k.d, n.d);
    lemma_four(u.y, n.y, k.d, n.d);
    lemma_four(u.z, n.z, k.d, n.d);
    lemma_four(k.x, n.x, u.d, n.d);
    lemma_four(k.y, n.y, u.d, n.d);
    lemma_four(k.z, n.z, u.d, n.d);
    assert(lhs.n * n.d == rhs.n);
    assert(lhs.n * rhs.d == rhs.n * lhs.d) by {
        assert(rhs.d == (u.d * n.d) * (k.d * n.d));
        assert(lhs.d == (u.d * k.d) * n.d);
        assert((u.d * n.d) * (k.d * n.d) == ((u.d * k.d) * n.d) * n.d) by (nonlinear_arith);
        assert(lhs.n * (((u.d * k.d) * n.d) * n.d) == (lhs.n * n.d) * ((u.d * k.d) * n.d))
            by (nonlinear_arith);
    }
}

} // verus!
