use vstd::prelude::*;
use crate::scalar::{Rat, Scalar, lemma_den_product, lemma_add_sub_cancel, lemma_four,
    lemma_distrib, lemma_rot3};
use crate::vector::{Rat2, Rat3, Position2, Vector2, Direction2, Position3, Vector3, Direction3};

verus! {

/// The model of a projection result.
pub enum ProjectionModel2 {
    /// The projection is known in closed rational form.
    At { point: Rat2, normal: Option<Rat2> },
    /// The projection lies on the ray from `origin` along `toward` at
    /// distance `scale`: it equals `origin + scale * toward / |toward|`,
    /// whose coordinates are in general irrational.
    Along { origin: Rat2, toward: Rat2, scale: Rat },
}

/// The model of a spatial projection result.
pub enum ProjectionModel3 {
    At { point: Rat3, normal: Option<Rat3> },
    Along { origin: Rat3, toward: Rat3, scale: Rat },
}

/// The closest point on a curve's untrimmed extent to a query point.
/// `At` carries the point itself and, where the curve has a canonical
/// in-plane side, an outward normal. `Along` gives the projection exactly
/// as "from `origin`, at distance `scale` along the direction of `toward`":
/// the exact kernel cannot normalise `toward` (its length is irrational in
/// general), so the caller supplies the unit direction to `resolve`.
pub enum Projection<P, V, N> {
    At { point: P, normal: Option<N> },
    Along { origin: P, toward: V, scale: Scalar },
}

impl View for Projection<Position2, Vector2, Direction2> {
    type V = ProjectionModel2;

    open spec fn view(&self) -> ProjectionModel2 {
        match *self {
            Projection::At { point, normal: Some(n) } => ProjectionModel2::At {
                point: point@,
                normal: Some(n@),
            },
            Projection::At { point, normal: None } => ProjectionModel2::At {
                point: point@,
                normal: None,
            },
            Projection::Along { origin, toward, scale } => ProjectionModel2::Along {
                origin: origin@,
                toward: toward@,
                scale: scale@,
            },
        }
    }
}

impl View for Projection<Position3, Vector3, Direction3> {
    type V = ProjectionModel3;

    open spec fn view(&self) -> ProjectionModel3 {
        match *self {
            Projection::At { point, normal: Some(n) } => ProjectionModel3::At {
                point: point@,
                normal: Some(n@),
            },
            Projection::At { point, normal: None } => ProjectionModel3::At {
                point: point@,
                normal: None,
            },
            Projection::Along { origin, toward, scale } => ProjectionModel3::Along {
                origin: origin@,
                toward: toward@,
                scale: scale@,
            },
        }
    }
}

/// Projection of a query point onto the untrimmed (infinite) extent of a
/// curve. `project_post` relates the query point to the returned value and
/// pins every field of it exactly; `project_req` holds the machine-range
/// bounds the computation needs.
pub trait UntrimmedProjector<P, V, N> {
    spec fn project_req(&self, p: P) -> bool;

    spec fn project_post(&self, p: P, r: Projection<P, V, N>) -> bool;

    fn project(&self, p: &P) -> (r: Projection<P, V, N>)
        requires
            self.project_req(*p),
        ensures
            self.project_post(*p, r),
    ;
}

impl Projection<Position2, Vector2, Direction2> {
    /// The unit direction `n` points exactly along `toward`: the two are
    /// parallel with a positive dot product.
    pub open spec fn resolves_with(self, n: Direction2) -> bool {
        match self@ {
            ProjectionModel2::Along { origin, toward, scale } => {
                &&& n@.cross(toward).is_zero()
                &&& n@.dot(toward).n > 0
            },
            _ => false,
        }
    }

    pub open spec fn resolve_fits(self, n: Direction2) -> bool {
        match self@ {
            ProjectionModel2::Along { origin, toward, scale } => {
                &&& n@.scale_fits(scale)
                &&& origin.add_fits(n@.scale(scale))
                &&& n@.dot_fits(toward)
            },
            _ => false,
        }
    }

    /// Finish a pending projection with the unit direction of `toward`,
    /// supplied by the caller: the projected point is `origin + scale * n`,
    /// and `n` is the outward normal there.
    pub fn resolve(&self, n: &Direction2) -> (r: (Position2, Direction2))
        requires
            n.wf(),
            matches!(*self, Projection::Along { origin, toward, scale } if origin.wf() && toward.wf() && scale.wf()),
            self.resolves_with(*n),
            self.resolve_fits(*n),
        ensures
            (match self@ {
                ProjectionModel2::Along { origin, toward, scale } => r.0@ == origin.add(
                    n@.scale(scale),
                ),
                _ => false,
            }),
            r.1 == *n,
            r.0.wf(),
    {
        match self {
            Projection::Along { origin, toward, scale } => {
                let step = n.into_vector().scale(scale);
                (origin.add(&step), *n)
            },
            _ => {
                // unreachable: the requires admit only a pending projection
                proof {
                    assert(false);
                }
                (Position2 { xn: 0, yn: 0, den: 1 }, *n)
            },
        }
    }
}

impl Projection<Position3, Vector3, Direction3> {
    /// The unit direction `n` points exactly along `toward`.
    pub open spec fn resolves_with(self, n: Direction3) -> bool {
        match self@ {
            ProjectionModel3::Along { origin, toward, scale } => {
                &&& n@.cross(toward).is_zero()
                &&& n@.dot(toward).n > 0
            },
            _ => false,
        }
    }

    pub open spec fn resolve_fits(self, n: Direction3) -> bool {
        match self@ {
            ProjectionModel3::Along { origin, toward, scale } => {
                &&& n@.scale_fits(scale)
                &&& origin.add_fits(n@.scale(scale))
                &&& n@.dot_fits(toward)
            },
            _ => false,
        }
    }

    /// Finish a pending projection with the unit direction of `toward`.
    /// Spatial curves return no normal.
    pub fn resolve(&self, n: &Direction3) -> (r: (Position3, Option<Direction3>))
        requires
            n.wf(),
            matches!(*self, Projection::Along { origin, toward, scale } if origin.wf() && toward.wf() && scale.wf()),
            self.resolves_with(*n),
            self.resolve_fits(*n),
        ensures
            (match self@ {
                ProjectionModel3::Along { origin, toward, scale } => r.0@ == origin.add(
                    n@.scale(scale),
                ),
                _ => false,
            }),
            r.1.is_none(),
            r.0.wf(),
    {
        match self {
            Projection::Along { origin, toward, scale } => {
                let step = n.into_vector().scale(scale);
                (origin.add(&step), None)
            },
            _ => {
                // unreachable: the requires admit only a pending projection
                proof {
                    assert(false);
                }
                (Position3 { xn: 0, yn: 0, zn: 0, den: 1 }, None)
            },
        }
    }
}

/// A point a resolved pending projection returns lies at distance `scale`
/// from the ray's origin: the squared norm of `point - origin` equals
/// `scale * scale`, because the supplied direction is an exact unit vector.
pub proof fn lemma_resolved_distance2(origin: Rat2, n: Rat2, scale: Rat)
    requires
        origin.wf(),
        n.wf(),
        scale.wf(),
        n.is_unit(),
    ensures
        origin.add(n.scale(scale)).sub(origin).norm_sq().eq_rat(scale.mul(scale)),
{
    let q = n.scale(scale);
    let w = origin.add(q).sub(origin);
    lemma_den_product(n.d, scale.d);
    lemma_den_product(origin.d, q.d);
    lemma_den_product(origin.add(q).d, origin.d);
    lemma_add_sub_cancel(origin.rx(), q.rx());
    lemma_add_sub_cancel(origin.ry(), q.ry());
    lemma_norm_sq_congruence2(w, q);
    lemma_scaled_unit_norm2(n.x, n.y, n.d, scale.n, scale.d);
    lemma_den_product(w.d, w.d);
    lemma_den_product(q.d, q.d);
    lemma_den_product(scale.d, scale.d);
    crate::scalar::lemma_eq_rat_trans(w.norm_sq(), q.norm_sq(), scale.mul(scale));
}

/// As `lemma_resolved_distance2`, for spatial pending projections.
pub proof fn lemma_resolved_distance3(origin: Rat3, n: Rat3, scale: Rat)
    requires
        origin.wf(),
        n.wf(),
        scale.wf(),
        n.is_unit(),
    ensures
        origin.add(n.scale(scale)).sub(origin).norm_sq().eq_rat(scale.mul(scale)),
{
    let q = n.scale(scale);
    let w = origin.add(q).sub(origin);
    lemma_den_product(n.d, scale.d);
    lemma_den_product(origin.d, q.d);
    lemma_den_product(origin.add(q).d, origin.d);
    lemma_add_sub_cancel(origin.rx(), q.rx());
    lemma_add_sub_cancel(origin.ry(), q.ry());
    lemma_add_sub_cancel(origin.rz(), q.rz());
    lemma_norm_sq_congruence3(w, q);
    lemma_scaled_unit_norm3(n.x, n.y, n.z, n.d, scale.n, scale.d);
    lemma_den_product(w.d, w.d);
    lemma_den_product(q.d, q.d);
    lemma_den_product(scale.d, scale.d);
    crate::scalar::lemma_eq_rat_trans(w.norm_sq(), q.norm_sq(), scale.mul(scale));
}

/// Vectors with rationally equal coordinates have rationally equal squared
/// norms.
pub proof fn lemma_norm_sq_congruence2(v: Rat2, o: Rat2)
    requires
        v.wf(),
        o.wf(),
        v.eq2(o),
    ensures
        v.norm_sq().eq_rat(o.norm_sq()),
{
    assert((v.x * o.d) * (v.x * o.d) == (o.x * v.d) * (o.x * v.d));
    assert((v.y * o.d) * (v.y * o.d) == (o.y * v.d) * (o.y * v.d));
    lemma_four(v.x, o.d, v.x, o.d);
    lemma_four(o.x, v.d, o.x, v.d);
    lemma_four(v.y, o.d, v.y, o.d);
    lemma_four(o.y, v.d, o.y, v.d);
    lemma_distrib(v.x * v.x, v.y * v.y, o.d * o.d);
    lemma_distrib(o.x * o.x, o.y * o.y, v.d * v.d);
}

/// Vectors with rationally equal coordinates have rationally equal squared
/// norms.
pub proof fn lemma_norm_sq_congruence3(v: Rat3, o: Rat3)
    requires
        v.wf(),
        o.wf(),
        v.eq3(o),
    ensures
        v.norm_sq().eq_rat(o.norm_sq()),
{
    assert((v.x * o.d) * (v.x * o.d) == (o.x * v.d) * (o.x * v.d));
    assert((v.y * o.d) * (v.y * o.d) == (o.y * v.d) * (o.y * v.d));
    assert((v.z * o.d) * (v.z * o.d) == (o.z * v.d) * (o.z * v.d));
    lemma_four(v.x, o.d, v.x, o.d);
    lemma_four(o.x, v.d, o.x, v.d);
    lemma_four(v.y, o.d, v.y, o.d);
    lemma_four(o.y, v.d, o.y, v.d);
    lemma_four(v.z, o.d, v.z, o.d);
    lemma_four(o.z, v.d, o.z, v.d);
    lemma_distrib(v.x * v.x, v.y * v.y, o.d * o.d);
    lemma_distrib(v.x * v.x + v.y * v.y, v.z * v.z, o.d * o.d);
    lemma_distrib(o.x * o.x, o.y * o.y, v.d * v.d);
    lemma_distrib(o.x * o.x + o.y * o.y, o.z * o.z, v.d * v.d);
}

/// The squared norm of a unit vector scaled by `tn / td` is the square of
/// that scalar.
proof fn lemma_scaled_unit_norm2(nx: int, ny: int, nd: int, tn: int, td: int)
    requires
        nd >= 1,
        td >= 1,
        nx * nx + ny * ny == nd * nd,
    ensures
        (Rat2 { x: nx, y: ny, d: nd }).scale(Rat { n: tn, d: td }).norm_sq().eq_rat(
            (Rat { n: tn, d: td }).mul(Rat { n: tn, d: td }),
        ),
{
    lemma_four(nx, tn, nx, tn);
    lemma_four(ny, tn, ny, tn);
    lemma_distrib(nx * nx, ny * ny, tn * tn);
    assert((nx * tn) * (nx * tn) + (ny * tn) * (ny * tn) == (nd * nd) * (tn * tn));
    lemma_four(nd, td, nd, td);
    lemma_rot3(nd * nd, tn * tn, td * td);
    lemma_rot3(nd * nd, td * td, tn * tn);
}

/// The squared norm of a unit vector scaled by `tn / td` is the square of
/// that scalar.
proof fn lemma_scaled_unit_norm3(nx: int, ny: int, nz: int, nd: int, tn: int, td: int)
    requires
        nd >= 1,
        td >= 1,
        nx * nx + ny * ny + nz * nz == nd * nd,
    ensures
        (Rat3 { x: nx, y: ny, z: nz, d: nd }).scale(Rat { n: tn, d: td }).norm_sq().eq_rat(
            (Rat { n: tn, d: td }).mul(Rat { n: tn, d: td }),
        ),
{
    lemma_four(nx, tn, nx, tn);
    lemma_four(ny, tn, ny, tn);
    lemma_four(nz, tn, nz, tn);
    lemma_distrib(nx * nx, ny * ny, tn * tn);
    lemma_distrib(nx * nx + ny * ny, nz * nz, tn * tn);
    assert((nx * tn) * (nx * tn) + (ny * tn) * (ny * tn) + (nz * tn) * (nz * tn) == (nd * nd) * (
    tn * tn));
    lemma_four(nd, td, nd, td);
    lemma_rot3(nd * nd, tn * tn, td * td);
    lemma_rot3(nd * nd, td * td, tn * tn);
}


/// The signed distance the projection abstraction derives from a resolved
/// planar projection that carries a normal: `dot(p - projection, normal)`.
/// Each planar curve's own signed distance agrees with it (for rays:
/// `lemma_signed_distance_consistent`).
pub fn calculate_signed_distance(p: &Position2, projection: &Projection<
    Position2,
    Vector2,
    Direction2,
>) -> (r: Scalar)
    requires
        p.wf(),
        (match projection@ {
            ProjectionModel2::At { point, normal: Some(normal) } => {
                &&& point.wf()
                &&& normal.wf()
                &&& p@.add_fits(point)
                &&& p@.sub(point).dot_fits(normal)
            },
            _ => false,
        }),
    ensures
        (match projection@ {
            ProjectionModel2::At { point, normal: Some(normal) } => r@ == p@.sub(point).dot(
                normal,
            ),
            _ => false,
        }),
        r.wf(),
{
    match projection {
        Projection::At { point, normal: Some(normal) } => {
            p.sub(point).dot(&normal.into_vector())
        },
        _ => {
            // unreachable: the requires admit only a resolved projection
            // with a normal
            proof {
                assert(false);
            }
            Scalar { num: 0, den: 1 }
        },
    }
}

/// The squared distance from the query point to a resolved spatial
/// projection. A spatial projection carries no normal, so its derived
/// distance is unsigned; its square is the exact rational the kernel can
/// return.
pub fn calculate_squared_distance(p: &Position3, projection: &Projection<
    Position3,
    Vector3,
    Direction3,
>) -> (r: Scalar)
    requires
        p.wf(),
        (match projection@ {
            ProjectionModel3::At { point, normal } => {
                &&& point.wf()
                &&& p@.add_fits(point)
                &&& p@.sub(point).norm_sq_fits()
            },
            _ => false,
        }),
    ensures
        (match projection@ {
            ProjectionModel3::At { point, normal } => r@ == p@.sub(point).norm_sq(),
            _ => false,
        }),
        r.wf(),
{
    match projection {
        Projection::At { point, normal: _ } => {
            let w = p.sub(point);
            w.norm_sq()
        },
        _ => {
            // unreachable: the requires admit only a resolved projection
            proof {
                assert(false);
            }
            Scalar { num: 0, den: 1 }
        },
    }
}

} // verus!
