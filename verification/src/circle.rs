use vstd::prelude::*;
use crate::scalar::{Rat, Scalar};
use crate::vector::{Rat2, Rat3, Position2, Vector2, Direction2, Position3, Vector3, Direction3,
    perpendicular, spec_perpendicular};
use crate::projection::{Projection, ProjectionModel2, ProjectionModel3, UntrimmedProjector};
use crate::parametric::{Parameter, Range, ParameterSpace, ParametricCurve3};
use crate::scalar::{lemma_den_product, lemma_sub_congruence, lemma_eq_rat_trans};
use crate::line::{lemma_dot3_sub_linear, lemma_scaled_unit_dot3};

verus! {

/// A circle: a radius, a center, and the unit normal of its supporting
/// plane. Planar circles report the canonical out-of-plane axis.
pub trait Circle<P> {
    spec fn radius_spec(&self) -> Scalar;

    spec fn center_spec(&self) -> P;

    spec fn axis_spec(&self) -> Direction3;

    fn radius(&self) -> (r: Scalar)
        ensures
            r == self.radius_spec(),
    ;

    fn center(&self) -> (r: P)
        ensures
            r == self.center_spec(),
    ;

    fn axis_direction(&self) -> (r: Direction3)
        ensures
            r == self.axis_spec(),
    ;
}

/// The canonical planar fallback direction `(1, 0)`, as a model.
pub open spec fn unit_x2() -> Rat2 {
    Rat2 { x: 1, y: 0, d: 1 }
}

/// The square of the near-zero length bound: a residual counts as singular
/// when its length is at most one quadrillionth, that is, when its squared
/// length is at most `1 / NEAR_ZERO_SQ_DEN`.
pub const NEAR_ZERO_SQ_DEN: i128 = 1000000000000000000000000000000;

/// The squared length `ns` is within the near-zero band: at most the square
/// of the near-zero length bound.
pub open spec fn near_zero_sq(ns: Rat) -> bool {
    ns.le_rat(Rat { n: 1, d: NEAR_ZERO_SQ_DEN as int })
}

/// Comparing against the near-zero band by one integer division: for a
/// nonnegative numerator bound, `a * c <= b` exactly when `a <= b / c`.
proof fn lemma_le_div(a: int, b: int, c: int)
    by (nonlinear_arith)
    requires
        b >= 0,
        c >= 1,
    ensures
        (a * c <= b) == (a <= b / c),
{
}

/// The planar residual `v` is in the near-zero band: its length is at most
/// the near-zero bound, tested exactly on squares.
fn near_zero2(v: &Vector2) -> (r: bool)
    requires
        v.wf(),
        v@.norm_sq_fits(),
    ensures
        r == near_zero_sq(v@.norm_sq()),
{
    let ns = v.norm_sq();
    proof {
        lemma_le_div(ns.num as int, ns.den as int, NEAR_ZERO_SQ_DEN as int);
    }
    ns.num <= ns.den / NEAR_ZERO_SQ_DEN
}

/// The spatial residual `v` is in the near-zero band.
fn near_zero3(v: &Vector3) -> (r: bool)
    requires
        v.wf(),
        v@.norm_sq_fits(),
    ensures
        r == near_zero_sq(v@.norm_sq()),
{
    let ns = v.norm_sq();
    proof {
        lemma_le_div(ns.num as int, ns.den as int, NEAR_ZERO_SQ_DEN as int);
    }
    ns.num <= ns.den / NEAR_ZERO_SQ_DEN
}

/// A planar circle.
#[derive(Clone, Copy, Debug)]
pub struct Circle2 {
    pub radius: Scalar,
    pub center: Position2,
}

impl Circle2 {
    pub open spec fn wf(self) -> bool {
        self.radius.wf() && self.center.wf()
    }

    pub fn new(radius: Scalar, center: Position2) -> (r: Circle2)
        ensures
            r.radius == radius,
            r.center == center,
    {
        Circle2 { radius, center }
    }
}

impl Circle<Position2> for Circle2 {
    open spec fn radius_spec(&self) -> Scalar {
        self.radius
    }

    open spec fn center_spec(&self) -> Position2 {
        self.center
    }

    open spec fn axis_spec(&self) -> Direction3 {
        Direction3 { vector: Vector3 { xn: 0, yn: 0, zn: 1, den: 1 } }
    }

    fn radius(&self) -> (r: Scalar) {
        self.radius
    }

    fn center(&self) -> (r: Position2) {
        self.center
    }

    /// The canonical out-of-plane axis.
    fn axis_direction(&self) -> (r: Direction3) {
        Direction3 { vector: Vector3 { xn: 0, yn: 0, zn: 1, den: 1 } }
    }
}

impl UntrimmedProjector<Position2, Vector2, Direction2> for Circle2 {
    open spec fn project_req(&self, p: Position2) -> bool {
        &&& self.wf()
        &&& p.wf()
        &&& p@.add_fits(self.center@)
        &&& p@.sub(self.center@).norm_sq_fits()
        &&& (near_zero_sq(p@.sub(self.center@).norm_sq()) ==> self.center@.add_fits(
            unit_x2().scale(self.radius@),
        ))
    }

    open spec fn project_post(&self, p: Position2, r: Projection<
        Position2,
        Vector2,
        Direction2,
    >) -> bool {
        if near_zero_sq(p@.sub(self.center@).norm_sq()) {
            // the query point is within the near-zero band of the center:
            // fall back to the canonical direction (1, 0)
            match r@ {
                ProjectionModel2::At { point, normal } => {
                    &&& point == self.center@.add(unit_x2().scale(self.radius@))
                    &&& normal == Some(unit_x2())
                    &&& point.wf()
                },
                _ => false,
            }
        } else {
            match r@ {
                ProjectionModel2::Along { origin, toward, scale } => {
                    &&& origin == self.center@
                    &&& toward == p@.sub(self.center@)
                    &&& scale == self.radius@
                    &&& !toward.is_zero()
                },
                _ => false,
            }
        }
    }

    /// The closest point on the circle: from the center, the circle's
    /// radius along the direction of the query point. Where the query point
    /// is within the near-zero band of the center — the singular case, the
    /// outward direction undefined or numerically meaningless — fall back
    /// to the canonical direction `(1, 0)`.
    fn project(&self, p: &Position2) -> (r: Projection<Position2, Vector2, Direction2>) {
        let v = p.sub(&self.center);
        if near_zero2(&v) {
            let n = Direction2::new(Vector2::new(1, 0, 1));
            let point = self.center.add(&n.into_vector().scale(&self.radius));
            Projection::At { point, normal: Some(n) }
        } else {
            proof {
                if v@.is_zero() {
                    assert(v@.norm_sq().n == 0);
                    assert(near_zero_sq(v@.norm_sq()));
                }
            }
            Projection::Along { origin: self.center, toward: v, scale: self.radius }
        }
    }
}

/// A spatial circle given by radius, center and plane normal.
#[derive(Clone, Copy, Debug)]
pub struct Circle3 {
    pub radius: Scalar,
    pub center: Position3,
    pub axis_direction: Direction3,
}

impl Circle3 {
    pub open spec fn wf(self) -> bool {
        self.radius.wf() && self.center.wf() && self.axis_direction.wf()
    }

    pub fn new(radius: Scalar, center: Position3, axis_direction: Direction3) -> (r: Circle3)
        ensures
            r.radius == radius,
            r.center == center,
            r.axis_direction == axis_direction,
    {
        Circle3 { radius, center, axis_direction }
    }
}

impl Circle<Position3> for Circle3 {
    open spec fn radius_spec(&self) -> Scalar {
        self.radius
    }

    open spec fn center_spec(&self) -> Position3 {
        self.center
    }

    open spec fn axis_spec(&self) -> Direction3 {
        self.axis_direction
    }

    fn radius(&self) -> (r: Scalar) {
        self.radius
    }

    fn center(&self) -> (r: Position3) {
        self.center
    }

    fn axis_direction(&self) -> (r: Direction3) {
        self.axis_direction
    }
}

/// A rigid frame: an origin and three pairwise perpendicular unit axes
/// forming a right-handed trihedron (the third axis is the cross product
/// of the first two). It models a rigid transformation — a proper
/// rotation and a translation — by its image of the standard frame; its
/// third axis is the normal of the local XY plane.
#[derive(Clone, Copy, Debug)]
pub struct Frame {
    pub origin: Position3,
    pub x_axis: Direction3,
    pub y_axis: Direction3,
    pub z_axis: Direction3,
}

impl Frame {
    pub open spec fn wf(self) -> bool {
        &&& self.origin.wf()
        &&& self.x_axis.wf()
        &&& self.y_axis.wf()
        &&& self.z_axis.wf()
        &&& self.x_axis@.dot(self.y_axis@).is_zero()
        &&& self.x_axis@.dot(self.z_axis@).is_zero()
        &&& self.y_axis@.dot(self.z_axis@).is_zero()
        &&& self.z_axis@.eq3(self.x_axis@.cross(self.y_axis@))
    }

    pub fn new(origin: Position3, x_axis: Direction3, y_axis: Direction3, z_axis: Direction3) -> (r:
        Frame)
        requires
            origin.wf(),
            x_axis.wf(),
            y_axis.wf(),
            z_axis.wf(),
            x_axis@.dot(y_axis@).is_zero(),
            x_axis@.dot(z_axis@).is_zero(),
            y_axis@.dot(z_axis@).is_zero(),
            z_axis@.eq3(x_axis@.cross(y_axis@)),
        ensures
            r == (Frame { origin, x_axis, y_axis, z_axis }),
            r.wf(),
    {
        Frame { origin, x_axis, y_axis, z_axis }
    }
}

/// A spatial circle carried by a rigid frame: it lies in the frame's local
/// XY plane, centred at the frame's origin; the frame's third axis is its
/// plane normal.
#[derive(Clone, Copy, Debug)]
pub struct ParametricCircle {
    pub frame: Frame,
    pub radius: Scalar,
}

impl ParametricCircle {
    pub open spec fn wf(self) -> bool {
        self.frame.wf() && self.radius.wf()
    }

    pub fn new(frame: Frame, radius: Scalar) -> (r: ParametricCircle)
        ensures
            r.frame == frame,
            r.radius == radius,
    {
        ParametricCircle { frame, radius }
    }
}

impl Circle<Position3> for ParametricCircle {
    open spec fn radius_spec(&self) -> Scalar {
        self.radius
    }

    open spec fn center_spec(&self) -> Position3 {
        self.frame.origin
    }

    open spec fn axis_spec(&self) -> Direction3 {
        self.frame.z_axis
    }

    fn radius(&self) -> (r: Scalar) {
        self.radius
    }

    /// The frame's origin.
    fn center(&self) -> (r: Position3) {
        self.frame.origin
    }

    /// The frame's third axis, the normal of the carried circle's plane.
    fn axis_direction(&self) -> (r: Direction3) {
        self.frame.z_axis
    }
}

/// The machine-range bounds the shared spatial circle projection needs.
pub open spec fn circle3_project_req(
    radius: Scalar,
    center: Position3,
    axis: Direction3,
    p: Position3,
) -> bool {
    let v0 = p@.sub(center@);
    let t = v0.dot(axis@);
    &&& radius.wf()
    &&& center.wf()
    &&& axis.wf()
    &&& p.wf()
    &&& p@.add_fits(center@)
    &&& v0.dot_fits(axis@)
    &&& axis@.scale_fits(t)
    &&& v0.add_fits(axis@.scale(t))
    &&& v0.sub(axis@.scale(t)).norm_sq_fits()
    &&& -i128::MAX <= 64 * axis@.x <= i128::MAX
    &&& -i128::MAX <= 64 * axis@.y <= i128::MAX
}

/// What the shared spatial circle projection returns: the in-plane
/// residual of the query point, or, where the point lies within the
/// near-zero band of the circle's axis, a deterministic fallback
/// perpendicular to the axis. The result is always a pending projection
/// from the center at the circle's radius, along a nonzero vector
/// perpendicular to the axis.
pub open spec fn circle3_project_post(
    radius: Scalar,
    center: Position3,
    axis: Direction3,
    p: Position3,
    r: Projection<Position3, Vector3, Direction3>,
) -> bool {
    let v0 = p@.sub(center@);
    let t = v0.dot(axis@);
    let v1 = v0.sub(axis@.scale(t));
    match r@ {
        ProjectionModel3::Along { origin, toward, scale } => {
            &&& origin == center@
            &&& toward == (if near_zero_sq(v1.norm_sq()) {
                spec_perpendicular(axis@)
            } else {
                v1
            })
            &&& scale == radius@
            &&& !toward.is_zero()
        },
        _ => false,
    }
}

/// The one projection algorithm shared by every spatial circle: remove the
/// axial component of the query point's offset from the center; if the
/// in-plane residual is within the near-zero band (the point lies on or
/// all but on the axis, the singular case), fall back to a deterministic
/// vector perpendicular to the axis.
pub fn project_circle3<T: Circle<Position3>>(circle: &T, p: &Position3) -> (r: Projection<
    Position3,
    Vector3,
    Direction3,
>)
    requires
        circle3_project_req(circle.radius_spec(), circle.center_spec(), circle.axis_spec(), *p),
    ensures
        circle3_project_post(circle.radius_spec(), circle.center_spec(), circle.axis_spec(), *p, r),
{
    let center = circle.center();
    let axis = circle.axis_direction();
    let v0 = p.sub(&center);
    let t = v0.dot(&axis.into_vector());
    let v1 = v0.sub(&axis.into_vector().scale(&t));
    let toward = if near_zero3(&v1) {
        perpendicular(&axis)
    } else {
        proof {
            if v1@.is_zero() {
                assert(v1@.norm_sq().n == 0);
                assert(near_zero_sq(v1@.norm_sq()));
            }
        }
        v1
    };
    Projection::Along { origin: center, toward, scale: circle.radius() }
}

impl UntrimmedProjector<Position3, Vector3, Direction3> for Circle3 {
    open spec fn project_req(&self, p: Position3) -> bool {
        circle3_project_req(self.radius, self.center, self.axis_direction, p)
    }

    open spec fn project_post(&self, p: Position3, r: Projection<
        Position3,
        Vector3,
        Direction3,
    >) -> bool {
        circle3_project_post(self.radius, self.center, self.axis_direction, p, r)
    }

    fn project(&self, p: &Position3) -> (r: Projection<Position3, Vector3, Direction3>) {
        project_circle3(self, p)
    }
}

impl UntrimmedProjector<Position3, Vector3, Direction3> for ParametricCircle {
    open spec fn project_req(&self, p: Position3) -> bool {
        circle3_project_req(self.radius, self.frame.origin, self.frame.z_axis, p)
    }

    open spec fn project_post(&self, p: Position3, r: Projection<
        Position3,
        Vector3,
        Direction3,
    >) -> bool {
        circle3_project_post(self.radius, self.frame.origin, self.frame.z_axis, p, r)
    }

    fn project(&self, p: &Position3) -> (r: Projection<Position3, Vector3, Direction3>) {
        project_circle3(self, p)
    }
}

impl ParametricCurve3 for ParametricCircle {
    open spec fn all_req(&self, t: Parameter) -> bool {
        let c = t.cos@.mul(self.radius@);
        let s = t.sin@.mul(self.radius@);
        let xc = self.frame.x_axis@.scale(c);
        let ys = self.frame.y_axis@.scale(s);
        let xs = self.frame.x_axis@.scale(s);
        let yc = self.frame.y_axis@.scale(c);
        &&& self.wf()
        &&& t.wf()
        &&& t.cos.mul_fits(self.radius)
        &&& t.sin.mul_fits(self.radius)
        &&& self.frame.x_axis@.scale_fits(c)
        &&& self.frame.y_axis@.scale_fits(s)
        &&& self.frame.x_axis@.scale_fits(s)
        &&& self.frame.y_axis@.scale_fits(c)
        &&& self.frame.origin@.add_fits(xc)
        &&& self.frame.origin@.add(xc).add_fits(ys)
        &&& xs.add_fits(yc)
    }

    open spec fn all_pos_model(&self, t: Parameter) -> Rat3 {
        let c = t.cos@.mul(self.radius@);
        let s = t.sin@.mul(self.radius@);
        self.frame.origin@.add(self.frame.x_axis@.scale(c)).add(self.frame.y_axis@.scale(s))
    }

    open spec fn all_tangent_model(&self, t: Parameter) -> Rat3 {
        let c = t.cos@.mul(self.radius@);
        let s = t.sin@.mul(self.radius@);
        self.frame.x_axis@.scale(s).add(self.frame.y_axis@.scale(c))
    }

    /// The point of the carried circle at the angle whose cosine and sine
    /// the parameter holds — locally `(radius cos, radius sin, 0)` — and
    /// the tangent-like vector, locally `(radius sin, radius cos, 0)`, both
    /// mapped to world space by the frame. The tangent keeps the radius
    /// scale and the local component order; it is not the unit-speed
    /// derivative.
    fn all(&self, t: &Parameter) -> (r: (Position3, Vector3)) {
        let c = t.cos.mul(self.radius);
        let s = t.sin.mul(self.radius);
        let pos = self.frame.origin.add(&self.frame.x_axis.into_vector().scale(&c)).add(
            &self.frame.y_axis.into_vector().scale(&s),
        );
        let tangent = self.frame.x_axis.into_vector().scale(&s).add(
            &self.frame.y_axis.into_vector().scale(&c),
        );
        (pos, tangent)
    }

    fn xyz(&self, t: &Parameter) -> (r: Position3) {
        let (pos, _tangent) = self.all(t);
        pos
    }
}

impl ParameterSpace for ParametricCircle {
    open spec fn period_spec(&self) -> Option<Scalar> {
        Some(Scalar { num: 1, den: 1 })
    }

    open spec fn limits_spec(&self) -> Option<Range<Scalar>> {
        None
    }

    open spec fn closed_spec(&self) -> bool {
        true
    }

    /// The circle repeats after one full turn. The period is reported in
    /// full turns, the exact unit of a closed angular domain; a caller
    /// working in radians scales by its own representation of a turn.
    fn period(&self) -> (r: Option<Scalar>) {
        Some(Scalar { num: 1, den: 1 })
    }

    /// The angular parameter is unrestricted.
    fn limits(&self) -> (r: Option<Range<Scalar>>) {
        None
    }

    /// A circle is topologically closed.
    fn closed(&self) -> (r: bool) {
        true
    }
}

/// Projecting the center of a planar circle, the one singular input, falls
/// back to the canonical direction: the result is `center + radius * (1, 0)`
/// with normal `(1, 0)`.
pub proof fn lemma_circle2_center_singularity(
    circle: Circle2,
    r: Projection<Position2, Vector2, Direction2>,
)
    requires
        circle.project_post(circle.center, r),
    ensures
        (match r@ {
            ProjectionModel2::At { point, normal } => {
                &&& point == circle.center@.add(unit_x2().scale(circle.radius@))
                &&& normal == Some(unit_x2())
            },
            _ => false,
        }),
{
}

/// Advancing the parameter by a full turn changes neither the point nor
/// the tangent: the circle's evaluation depends on the parameter only
/// through its cosine and sine, and a full turn leaves both unchanged.
pub proof fn lemma_parametric_circle_periodic(
    circle: ParametricCircle,
    t1: Parameter,
    t2: Parameter,
)
    requires
        t1.cos == t2.cos,
        t1.sin == t2.sin,
    ensures
        circle.all_pos_model(t1) == circle.all_pos_model(t2),
        circle.all_tangent_model(t1) == circle.all_tangent_model(t2),
{
}


/// The spatial circle projection stays in the circle's plane: the residual
/// it projects along is perpendicular to the axis, so the projected point —
/// `center + radius * unit(residual)` — lies in the plane through the
/// center with the axis as its normal.
pub proof fn lemma_circle3_residual_in_plane(center: Rat3, axis: Rat3, p: Rat3)
    requires
        center.wf(),
        axis.wf(),
        p.wf(),
        axis.is_unit(),
    ensures
        ({
            let v0 = p.sub(center);
            let v1 = v0.sub(axis.scale(v0.dot(axis)));
            v1.dot(axis).eq_rat(Rat::from_int(0))
        }),
{
    let v0 = p.sub(center);
    let t = v0.dot(axis);
    let k = axis.scale(t);
    let v1 = v0.sub(k);
    lemma_den_product(p.d, center.d);
    lemma_den_product(v0.d, axis.d);
    lemma_den_product(axis.d, t.d);
    lemma_den_product(v0.d, k.d);
    lemma_den_product(v1.d, axis.d);
    lemma_den_product(k.d, axis.d);
    lemma_den_product(v0.d * axis.d, k.d * axis.d);
    lemma_den_product(t.d, t.d);
    lemma_dot3_sub_linear(v0, k, axis);
    lemma_scaled_unit_dot3(axis, t);
    lemma_sub_congruence(v0.dot(axis), t, k.dot(axis), t);
    lemma_eq_rat_trans(v1.dot(axis), v0.dot(axis).sub(k.dot(axis)), t.sub(t));
    assert(t.sub(t).eq_rat(Rat::from_int(0)));
    lemma_eq_rat_trans(v1.dot(axis), t.sub(t), Rat::from_int(0));
}

} // verus!
