//! A minimal geometric-primitive kernel over exact rational scalars.
//!
//! The kernel represents simple untrimmed curves (infinite lines and
//! circles) in two and three dimensions, evaluates them parametrically,
//! and computes the closest point on a curve to an arbitrary query point,
//! together with an optional outward normal and a signed distance.
//!
//! Every coordinate is an exact rational, so each geometric operation
//! either returns its result exactly or — where the true result would be
//! irrational (the length of a general vector, a general normalisation) —
//! returns the exact data from which a caller working in an inexact
//! scalar domain finishes the computation.

pub mod scalar;
pub mod vector;
pub mod projection;
pub mod parametric;
pub mod line;
pub mod circle;

use vstd::prelude::*;
use crate::scalar::{Rat, Scalar};
use crate::vector::{Rat3, Position2, Vector2, Direction2, Position3, Vector3, Direction3};
use crate::projection::{Projection, UntrimmedProjector};
use crate::parametric::{Parameter, ParametricCurve3};
use crate::line::Ray3;
use crate::circle::ParametricCircle;

verus! {

/// Approximate equality within an explicit tolerance. For scalars it is
/// `|a - b| <= epsilon`; for points, vectors and directions it is
/// `|a - b|^2 <= epsilon^2` together with `epsilon >= 0`, which states the
/// same Euclidean condition while staying rational.
pub trait SameInEpsilon: Sized {
    spec fn same_req(a: Self, b: Self, epsilon: Scalar) -> bool;

    spec fn same_spec(a: Self, b: Self, epsilon: Scalar) -> bool;

    fn same_in_epsilon(a: &Self, b: &Self, epsilon: &Scalar) -> (r: bool)
        requires
            Self::same_req(*a, *b, *epsilon),
        ensures
            r == Self::same_spec(*a, *b, *epsilon),
    ;
}

impl SameInEpsilon for Scalar {
    open spec fn same_req(a: Scalar, b: Scalar, epsilon: Scalar) -> bool {
        &&& a.wf()
        &&& b.wf()
        &&& epsilon.wf()
        &&& a.add_fits(b)
        &&& epsilon.num > i128::MIN
        &&& a@.sub(b@).cmp_fits(epsilon@)
        &&& epsilon@.neg().cmp_fits(a@.sub(b@))
    }

    open spec fn same_spec(a: Scalar, b: Scalar, epsilon: Scalar) -> bool {
        &&& epsilon@.neg().le_rat(a@.sub(b@))
        &&& a@.sub(b@).le_rat(epsilon@)
    }

    /// `|a - b| <= epsilon`, exactly.
    fn same_in_epsilon(a: &Scalar, b: &Scalar, epsilon: &Scalar) -> (r: bool) {
        let d = a.sub(*b);
        epsilon.neg().le(d) && d.le(*epsilon)
    }
}

impl SameInEpsilon for Vector2 {
    open spec fn same_req(a: Vector2, b: Vector2, epsilon: Scalar) -> bool {
        &&& a.wf()
        &&& b.wf()
        &&& epsilon.wf()
        &&& a@.add_fits(b@)
        &&& a@.sub(b@).norm_sq_fits()
        &&& epsilon.mul_fits(epsilon)
        &&& a@.sub(b@).norm_sq().cmp_fits(epsilon@.mul(epsilon@))
    }

    open spec fn same_spec(a: Vector2, b: Vector2, epsilon: Scalar) -> bool {
        &&& Rat::from_int(0).le_rat(epsilon@)
        &&& a@.sub(b@).norm_sq().le_rat(epsilon@.mul(epsilon@))
    }

    /// The distance between the two vectors is at most `epsilon`, stated on
    /// squares: `|a - b|^2 <= epsilon^2` with `epsilon >= 0`.
    fn same_in_epsilon(a: &Vector2, b: &Vector2, epsilon: &Scalar) -> (r: bool) {
        let v = a.sub(b);
        let nonneg = Scalar::zero().le(*epsilon);
        nonneg && v.norm_sq().le(epsilon.mul(*epsilon))
    }
}

impl SameInEpsilon for Position2 {
    open spec fn same_req(a: Position2, b: Position2, epsilon: Scalar) -> bool {
        &&& a.wf()
        &&& b.wf()
        &&& epsilon.wf()
        &&& a@.add_fits(b@)
        &&& a@.sub(b@).norm_sq_fits()
        &&& epsilon.mul_fits(epsilon)
        &&& a@.sub(b@).norm_sq().cmp_fits(epsilon@.mul(epsilon@))
    }

    open spec fn same_spec(a: Position2, b: Position2, epsilon: Scalar) -> bool {
        &&& Rat::from_int(0).le_rat(epsilon@)
        &&& a@.sub(b@).norm_sq().le_rat(epsilon@.mul(epsilon@))
    }

    /// The distance between the two points is at most `epsilon`.
    fn same_in_epsilon(a: &Position2, b: &Position2, epsilon: &Scalar) -> (r: bool) {
        let v = a.sub(b);
        let nonneg = Scalar::zero().le(*epsilon);
        nonneg && v.norm_sq().le(epsilon.mul(*epsilon))
    }
}

impl SameInEpsilon for Direction2 {
    open spec fn same_req(a: Direction2, b: Direction2, epsilon: Scalar) -> bool {
        <Vector2 as SameInEpsilon>::same_req(a.vector, b.vector, epsilon)
    }

    open spec fn same_spec(a: Direction2, b: Direction2, epsilon: Scalar) -> bool {
        <Vector2 as SameInEpsilon>::same_spec(a.vector, b.vector, epsilon)
    }

    /// Directions compare as the vectors they carry.
    fn same_in_epsilon(a: &Direction2, b: &Direction2, epsilon: &Scalar) -> (r: bool) {
        <Vector2 as SameInEpsilon>::same_in_epsilon(&a.vector, &b.vector, epsilon)
    }
}

impl SameInEpsilon for Vector3 {
    open spec fn same_req(a: Vector3, b: Vector3, epsilon: Scalar) -> bool {
        &&& a.wf()
        &&& b.wf()
        &&& epsilon.wf()
        &&& a@.add_fits(b@)
        &&& a@.sub(b@).norm_sq_fits()
        &&& epsilon.mul_fits(epsilon)
        &&& a@.sub(b@).norm_sq().cmp_fits(epsilon@.mul(epsilon@))
    }

    open spec fn same_spec(a: Vector3, b: Vector3, epsilon: Scalar) -> bool {
        &&& Rat::from_int(0).le_rat(epsilon@)
        &&& a@.sub(b@).norm_sq().le_rat(epsilon@.mul(epsilon@))
    }

    /// The distance between the two vectors is at most `epsilon`.
    fn same_in_epsilon(a: &Vector3, b: &Vector3, epsilon: &Scalar) -> (r: bool) {
        let av = a.sub(b);
        let nonneg = Scalar::zero().le(*epsilon);
        nonneg && av.norm_sq().le(epsilon.mul(*epsilon))
    }
}

impl SameInEpsilon for Position3 {
    open spec fn same_req(a: Position3, b: Position3, epsilon: Scalar) -> bool {
        &&& a.wf()
        &&& b.wf()
        &&& epsilon.wf()
        &&& a@.add_fits(b@)
        &&& a@.sub(b@).norm_sq_fits()
        &&& epsilon.mul_fits(epsilon)
        &&& a@.sub(b@).norm_sq().cmp_fits(epsilon@.mul(epsilon@))
    }

    open spec fn same_spec(a: Position3, b: Position3, epsilon: Scalar) -> bool {
        &&& Rat::from_int(0).le_rat(epsilon@)
        &&& a@.sub(b@).norm_sq().le_rat(epsilon@.mul(epsilon@))
    }

    /// The distance between the two points is at most `epsilon`.
    fn same_in_epsilon(a: &Position3, b: &Position3, epsilon: &Scalar) -> (r: bool) {
        let v = a.sub(b);
        let nonneg = Scalar::zero().le(*epsilon);
        nonneg && v.norm_sq().le(epsilon.mul(*epsilon))
    }
}

impl SameInEpsilon for Direction3 {
    open spec fn same_req(a: Direction3, b: Direction3, epsilon: Scalar) -> bool {
        <Vector3 as SameInEpsilon>::same_req(a.vector, b.vector, epsilon)
    }

    open spec fn same_spec(a: Direction3, b: Direction3, epsilon: Scalar) -> bool {
        <Vector3 as SameInEpsilon>::same_spec(a.vector, b.vector, epsilon)
    }

    /// Directions compare as the vectors they carry.
    fn same_in_epsilon(a: &Direction3, b: &Direction3, epsilon: &Scalar) -> (r: bool) {
        <Vector3 as SameInEpsilon>::same_in_epsilon(&a.vector, &b.vector, epsilon)
    }
}

/// A curve that supports both projection and parametric evaluation: the
/// combined interface heterogeneous curve collections are queried through.
pub trait ProjectionTargetCurve: UntrimmedProjector<Position3, Vector3, Direction3> +
    ParametricCurve3 {

}

impl ProjectionTargetCurve for Ray3 {

}

impl ProjectionTargetCurve for ParametricCircle {

}

/// The closed set of spatial curve kinds the kernel defines.
pub enum ParametricCurves {
    Ray(Ray3),
    Circle(ParametricCircle),
}

impl UntrimmedProjector<Position3, Vector3, Direction3> for ParametricCurves {
    open spec fn project_req(&self, p: Position3) -> bool {
        match *self {
            ParametricCurves::Ray(ray) => ray.project_req(p),
            ParametricCurves::Circle(circle) => circle.project_req(p),
        }
    }

    open spec fn project_post(&self, p: Position3, r: Projection<
        Position3,
        Vector3,
        Direction3,
    >) -> bool {
        match *self {
            ParametricCurves::Ray(ray) => ray.project_post(p, r),
            ParametricCurves::Circle(circle) => circle.project_post(p, r),
        }
    }

    /// Projection through the variant's own algorithm.
    fn project(&self, p: &Position3) -> (r: Projection<Position3, Vector3, Direction3>) {
        match self {
            ParametricCurves::Ray(ray) => ray.project(p),
            ParametricCurves::Circle(circle) => circle.project(p),
        }
    }
}

impl ParametricCurve3 for ParametricCurves {
    open spec fn all_req(&self, t: Parameter) -> bool {
        match *self {
            ParametricCurves::Ray(ray) => ray.all_req(t),
            ParametricCurves::Circle(circle) => circle.all_req(t),
        }
    }

    open spec fn all_pos_model(&self, t: Parameter) -> Rat3 {
        match *self {
            ParametricCurves::Ray(ray) => ray.all_pos_model(t),
            ParametricCurves::Circle(circle) => circle.all_pos_model(t),
        }
    }

    open spec fn all_tangent_model(&self, t: Parameter) -> Rat3 {
        match *self {
            ParametricCurves::Ray(ray) => ray.all_tangent_model(t),
            ParametricCurves::Circle(circle) => circle.all_tangent_model(t),
        }
    }

    /// Evaluation through the variant's own parametrisation.
    fn all(&self, t: &Parameter) -> (r: (Position3, Vector3)) {
        match self {
            ParametricCurves::Ray(ray) => ray.all(t),
            ParametricCurves::Circle(circle) => circle.all(t),
        }
    }

    fn xyz(&self, t: &Parameter) -> (r: Position3) {
        let (pos, _tangent) = self.all(t);
        pos
    }
}

impl ProjectionTargetCurve for ParametricCurves {

}

/// Erase the concrete curve kind behind one heap-allocated value of the
/// combined interface, so that heterogeneous collections of curves can be
/// queried uniformly.
pub fn to_dynamic(curve: ParametricCurves) -> (r: Box<ParametricCurves>)
    ensures
        *r == curve,
{
    Box::new(curve)
}

} // verus!
