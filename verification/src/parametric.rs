use vstd::prelude::*;
use crate::scalar::{Rat, Scalar};
use crate::vector::{Rat3, Position3, Vector3};

verus! {

/// A curve parameter together with its exact cosine and sine. The kernel
/// cannot evaluate the trigonometric functions (their values are
/// irrational for almost every parameter), so the layer that chooses the
/// parameter supplies the pair, and the kernel checks only that it lies on
/// the unit circle. Curves parametrised by arc length read `value` alone;
/// angular parametrisations read the pair alone.
#[derive(Clone, Copy, Debug)]
pub struct Parameter {
    pub value: Scalar,
    pub cos: Scalar,
    pub sin: Scalar,
}

impl Parameter {
    pub open spec fn wf(self) -> bool {
        &&& self.value.wf()
        &&& self.cos.wf()
        &&& self.sin.wf()
        &&& self.cos@.mul(self.cos@).add(self.sin@.mul(self.sin@)).eq_rat(Rat::from_int(1))
    }

    pub fn new(value: Scalar, cos: Scalar, sin: Scalar) -> (r: Parameter)
        requires
            value.wf(),
            cos.wf(),
            sin.wf(),
            cos@.mul(cos@).add(sin@.mul(sin@)).eq_rat(Rat::from_int(1)),
        ensures
            r == (Parameter { value, cos, sin }),
            r.wf(),
    {
        Parameter { value, cos, sin }
    }

    /// A parameter for curves that never read the angular pair, such as
    /// lines: the pair is set to the angle zero.
    pub fn linear(value: Scalar) -> (r: Parameter)
        requires
            value.wf(),
        ensures
            r.value == value,
            r.cos == (Scalar { num: 1, den: 1 }),
            r.sin == (Scalar { num: 0, den: 1 }),
            r.wf(),
    {
        let r = Parameter {
            value,
            cos: Scalar { num: 1, den: 1 },
            sin: Scalar { num: 0, den: 1 },
        };
        proof {
            assert(r.cos@.mul(r.cos@) == (Rat { n: 1, d: 1 }));
            assert(r.sin@.mul(r.sin@) == (Rat { n: 0, d: 1 }));
            assert(r.cos@.mul(r.cos@).add(r.sin@.mul(r.sin@)).eq_rat(Rat::from_int(1)));
        }
        r
    }
}

/// A closed interval.
#[derive(Clone, Copy, Debug)]
pub struct Range<T> {
    pub min: T,
    pub max: T,
}

impl<T> Range<T> {
    pub fn new(min: T, max: T) -> (r: Range<T>)
        ensures
            r.min == min,
            r.max == max,
    {
        Range { min, max }
    }
}

/// Metadata of a curve's parameter domain: whether the curve repeats, a
/// bounding interval if the domain is restricted, and whether the curve is
/// topologically closed. A period is reported in full turns; a closed
/// curve repeats after one turn.
pub trait ParameterSpace {
    spec fn period_spec(&self) -> Option<Scalar>;

    spec fn limits_spec(&self) -> Option<Range<Scalar>>;

    spec fn closed_spec(&self) -> bool;

    fn period(&self) -> (r: Option<Scalar>)
        ensures
            r == self.period_spec(),
    ;

    fn limits(&self) -> (r: Option<Range<Scalar>>)
        ensures
            r == self.limits_spec(),
    ;

    fn closed(&self) -> (r: bool)
        ensures
            r == self.closed_spec(),
    ;
}

/// A spatial parametric curve: a point and a tangent-like vector for every
/// parameter. The tangent convention is the concrete curve's own; it is
/// pinned exactly by `all_tangent_model`.
pub trait ParametricCurve3 {
    spec fn all_req(&self, t: Parameter) -> bool;

    spec fn all_pos_model(&self, t: Parameter) -> Rat3;

    spec fn all_tangent_model(&self, t: Parameter) -> Rat3;

    fn all(&self, t: &Parameter) -> (r: (Position3, Vector3))
        requires
            self.all_req(*t),
        ensures
            r.0@ == self.all_pos_model(*t),
            r.1@ == self.all_tangent_model(*t),
            r.0.wf(),
            r.1.wf(),
    ;

    /// The point alone.
    fn xyz(&self, t: &Parameter) -> (r: Position3)
        requires
            self.all_req(*t),
        ensures
            r@ == self.all_pos_model(*t),
            r.wf(),
    ;
}

/// A spatial parametric surface: a point, two tangent-like vectors and a
/// normal for every parameter pair. The kernel defines no surface; the
/// trait is the contract its users implement.
pub trait ParametricSurface3<U, V> {
    fn all(&self, u: &Parameter, v: &Parameter) -> (Position3, Vector3, Vector3, Vector3);

    fn xyz(&self, u: &Parameter, v: &Parameter) -> Position3;
}

} // verus!
