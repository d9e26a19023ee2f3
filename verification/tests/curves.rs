use geokernel::scalar::Scalar;
use geokernel::vector::{Vector2, Vector3, Position2, Position3, Direction2, Direction3};
use geokernel::projection::{Projection, UntrimmedProjector, calculate_signed_distance,
    calculate_squared_distance};
use geokernel::parametric::{Parameter, ParameterSpace, ParametricCurve3};
use geokernel::line::{Line, Ray, Ray2, Ray3};
use geokernel::circle::{Circle, Circle2, Circle3, Frame, ParametricCircle};
use geokernel::{ParametricCurves, SameInEpsilon, to_dynamic};

fn s(num: i128, den: i128) -> Scalar {
    Scalar::new(num, den)
}

fn origin3() -> Position3 {
    Position3::new(0, 0, 0, 1)
}

fn diag3() -> Direction3 {
    // the exact unit direction (2/3, 2/3, 1/3)
    Direction3::new(Vector3::new(2, 2, 1, 3))
}

fn diag2() -> Direction2 {
    // the exact unit direction (3/5, 4/5)
    Direction2::new(Vector2::new(3, 4, 5))
}

#[test]
fn test_project3() {
    // a point on the line projects onto itself, and no normal is returned
    let p = Position3::new(2, 2, 1, 1);
    let line = Ray3::new(origin3(), diag3());
    match line.project(&p) {
        Projection::At { point, normal } => {
            assert!(normal.is_none());
            assert!(Position3::same_in_epsilon(&p, &point, &Scalar::zero()));
        },
        _ => panic!("a line projection is always resolved"),
    }
}

#[test]
fn test_project2() {
    // a point on the line projects onto itself; the normal is the direction
    // turned clockwise; signed distances on the two sides have opposite signs
    let p = Position2::new(3, 4, 1);
    let line = Ray2::new(Position2::new(0, 0, 1), diag2());
    match line.project(&p) {
        Projection::At { point, normal } => {
            assert!(Position2::same_in_epsilon(&p, &point, &Scalar::zero()));
            let n = normal.expect("a planar line reports its normal");
            let expected = Direction2::new(Vector2::new(4, -3, 5));
            assert!(Direction2::same_in_epsilon(&n, &expected, &Scalar::zero()));
        },
        _ => panic!("a line projection is always resolved"),
    }
    let d1 = line.calculate_signed_distance(&Position2::new(1, 0, 1));
    assert!(d1.eq_exact(s(4, 5)));
    let d2 = line.calculate_signed_distance(&Position2::new(0, 1, 1));
    assert!(d2.eq_exact(s(-3, 5)));
}

#[test]
fn signed_distance_flips_under_reflection() {
    // the mirror image of a point across the line has the opposite signed
    // distance
    let line = Ray2::new(Position2::new(0, 0, 1), diag2());
    let p = Position2::new(1, 0, 1);
    let sd = line.calculate_signed_distance(&p);
    assert!(sd.eq_exact(s(4, 5)));
    // reflection of (1, 0): p - 2 * sd * n with n = (4/5, -3/5)
    let reflected = Position2::new(-7, 24, 25);
    let sd_reflected = line.calculate_signed_distance(&reflected);
    assert!(sd_reflected.eq_exact(sd.neg()));
}

#[test]
fn ray3_parametric_evaluation() {
    let line = Ray3::new(Position3::new(1, 0, 0, 1), diag3());
    let t = Parameter::linear(s(3, 1));
    let (pos, tangent) = line.all(&t);
    assert!(Position3::same_in_epsilon(&pos, &Position3::new(3, 2, 1, 1), &Scalar::zero()));
    assert!(Vector3::same_in_epsilon(&tangent, &Vector3::new(2, 2, 1, 3), &Scalar::zero()));
    let pos_only = line.xyz(&t);
    assert!(Position3::same_in_epsilon(&pos_only, &pos, &Scalar::zero()));
    // projecting a point the line passes through returns it unchanged
    match line.project(&pos) {
        Projection::At { point, normal } => {
            assert!(normal.is_none());
            assert!(Position3::same_in_epsilon(&point, &pos, &Scalar::zero()));
        },
        _ => panic!("a line projection is always resolved"),
    }
}

#[test]
fn ray3_parameter_space() {
    let line = Ray3::new(origin3(), diag3());
    assert!(line.period().is_none());
    assert!(line.limits().is_none());
    assert!(!line.closed());
}

#[test]
fn line_getters_return_the_defining_data() {
    let point = Position2::new(7, -2, 3);
    let line = Ray::new(point, diag2());
    assert!(Position2::same_in_epsilon(line.point(), &point, &Scalar::zero()));
    assert!(Direction2::same_in_epsilon(line.direction(), &diag2(), &Scalar::zero()));
}

#[test]
fn circle2_projects_outward() {
    // projecting a general point: the result is "radius along (p - center)";
    // resolving with the exact unit of that direction lands on the circle
    let circle = Circle2::new(s(2, 1), Position2::new(1, 1, 1));
    let p = Position2::new(4, 5, 1);
    let projection = circle.project(&p);
    match &projection {
        Projection::Along { origin, toward, scale } => {
            assert!(Position2::same_in_epsilon(origin, &Position2::new(1, 1, 1), &Scalar::zero()));
            assert!(Vector2::same_in_epsilon(toward, &Vector2::new(3, 4, 1), &Scalar::zero()));
            assert!(scale.eq_exact(s(2, 1)));
        },
        _ => panic!("a point off the center projects along its own direction"),
    }
    let n = Direction2::new(Vector2::new(3, 4, 5));
    let (point, normal) = projection.resolve(&n);
    assert!(Position2::same_in_epsilon(&point, &Position2::new(11, 13, 5), &Scalar::zero()));
    assert!(Direction2::same_in_epsilon(&normal, &n, &Scalar::zero()));
    // the resolved point lies on the circle: |point - center|^2 == radius^2
    let back = point.sub(&circle.center());
    assert!(back.norm_sq().eq_exact(s(4, 1)));
}

#[test]
fn circle2_center_projects_to_canonical_direction() {
    // the singular case: projecting the center falls back to (1, 0)
    let circle = Circle2::new(s(2, 1), Position2::new(0, 0, 1));
    match circle.project(&Position2::new(0, 0, 1)) {
        Projection::At { point, normal } => {
            assert!(Position2::same_in_epsilon(&point, &Position2::new(2, 0, 1), &Scalar::zero()));
            let n = normal.expect("the fallback reports its direction as the normal");
            let expected = Direction2::new(Vector2::new(1, 0, 1));
            assert!(Direction2::same_in_epsilon(&n, &expected, &Scalar::zero()));
        },
        _ => panic!("the center projects to the canonical fallback point"),
    }
}

#[test]
fn circle3_removes_the_axial_component() {
    let circle = Circle3::new(
        s(5, 1),
        origin3(),
        Direction3::new(Vector3::new(0, 0, 1, 1)),
    );
    let p = Position3::new(3, 4, 7, 1);
    let projection = circle.project(&p);
    match &projection {
        Projection::Along { origin, toward, scale } => {
            assert!(Position3::same_in_epsilon(origin, &origin3(), &Scalar::zero()));
            // the residual is in-plane and perpendicular to the axis
            assert!(toward.z().is_zero_exact());
            assert!(toward.dot(&circle.axis_direction().into_vector()).is_zero_exact());
            assert!(Vector3::same_in_epsilon(toward, &Vector3::new(3, 4, 0, 1), &Scalar::zero()));
            assert!(scale.eq_exact(s(5, 1)));
        },
        _ => panic!("a spatial circle projection is pending normalisation"),
    }
    let n = Direction3::new(Vector3::new(3, 4, 0, 5));
    let (point, normal) = projection.resolve(&n);
    assert!(normal.is_none());
    assert!(Position3::same_in_epsilon(&point, &Position3::new(3, 4, 0, 1), &Scalar::zero()));
    let back = point.sub(&circle.center());
    assert!(back.norm_sq().eq_exact(s(25, 1)));
}

#[test]
fn circle3_axis_point_falls_back_to_perpendicular() {
    // the singular case: a query point on the axis takes the deterministic
    // perpendicular fallback
    let circle = Circle3::new(
        s(5, 1),
        origin3(),
        Direction3::new(Vector3::new(0, 0, 1, 1)),
    );
    match circle.project(&Position3::new(0, 0, 7, 1)) {
        Projection::Along { toward, .. } => {
            assert_eq!((toward.xn, toward.yn, toward.zn, toward.den), (1, 0, 0, 1));
        },
        _ => panic!("an axis point projects along the fallback"),
    }
}

fn standard_frame() -> Frame {
    Frame::new(
        origin3(),
        Direction3::new(Vector3::new(1, 0, 0, 1)),
        Direction3::new(Vector3::new(0, 1, 0, 1)),
        Direction3::new(Vector3::new(0, 0, 1, 1)),
    )
}

#[test]
fn parametric_circle_evaluation_keeps_the_tangent_convention() {
    let circle = ParametricCircle::new(standard_frame(), s(10, 1));
    // the angle with cosine 3/5 and sine 4/5
    let t = Parameter::new(Scalar::zero(), s(3, 5), s(4, 5));
    let (pos, tangent) = circle.all(&t);
    assert!(Position3::same_in_epsilon(&pos, &Position3::new(6, 8, 0, 1), &Scalar::zero()));
    // the tangent-like vector swaps the components and keeps the radius scale
    assert!(Vector3::same_in_epsilon(&tangent, &Vector3::new(8, 6, 0, 1), &Scalar::zero()));
    let pos_only = circle.xyz(&t);
    assert!(Position3::same_in_epsilon(&pos_only, &pos, &Scalar::zero()));
}

#[test]
fn parametric_circle_is_periodic() {
    // two parameters a full turn apart carry the same cosine and sine, and
    // evaluate to the same point and tangent
    let circle = ParametricCircle::new(standard_frame(), s(10, 1));
    let t1 = Parameter::new(s(1, 1), s(3, 5), s(4, 5));
    let t2 = Parameter::new(s(44, 7), s(3, 5), s(4, 5));
    let (pos1, tan1) = circle.all(&t1);
    let (pos2, tan2) = circle.all(&t2);
    assert!(Position3::same_in_epsilon(&pos1, &pos2, &Scalar::zero()));
    assert!(Vector3::same_in_epsilon(&tan1, &tan2, &Scalar::zero()));
}

#[test]
fn parametric_circle_parameter_space() {
    let circle = ParametricCircle::new(standard_frame(), s(10, 1));
    let period = circle.period().expect("a circle repeats");
    assert!(period.eq_exact(Scalar::one()));
    assert!(circle.limits().is_none());
    assert!(circle.closed());
}

#[test]
fn parametric_circle_getters() {
    let circle = ParametricCircle::new(standard_frame(), s(10, 1));
    assert!(circle.radius().eq_exact(s(10, 1)));
    assert!(Position3::same_in_epsilon(&circle.center(), &origin3(), &Scalar::zero()));
    let axis = circle.axis_direction();
    let expected = Direction3::new(Vector3::new(0, 0, 1, 1));
    assert!(Direction3::same_in_epsilon(&axis, &expected, &Scalar::zero()));
}

#[test]
fn dynamic_curves_answer_both_interfaces() {
    let ray = Ray3::new(origin3(), diag3());
    let boxed_ray = to_dynamic(ParametricCurves::Ray(ray));
    let t = Parameter::linear(s(3, 1));
    let (pos, _tangent) = boxed_ray.all(&t);
    assert!(Position3::same_in_epsilon(&pos, &Position3::new(2, 2, 1, 1), &Scalar::zero()));
    match boxed_ray.project(&pos) {
        Projection::At { point, normal } => {
            assert!(normal.is_none());
            assert!(Position3::same_in_epsilon(&point, &pos, &Scalar::zero()));
        },
        _ => panic!("a line projection is always resolved"),
    }

    let circle = ParametricCircle::new(standard_frame(), s(5, 1));
    let boxed_circle = to_dynamic(ParametricCurves::Circle(circle));
    let u = Parameter::new(Scalar::zero(), s(3, 5), s(4, 5));
    let (on_circle, _tan) = boxed_circle.all(&u);
    assert!(Position3::same_in_epsilon(&on_circle, &Position3::new(3, 4, 0, 1), &Scalar::zero()));
    match boxed_circle.project(&Position3::new(6, 8, 3, 1)) {
        Projection::Along { origin, toward, scale } => {
            assert!(Position3::same_in_epsilon(&origin, &origin3(), &Scalar::zero()));
            assert!(Vector3::same_in_epsilon(&toward, &Vector3::new(6, 8, 0, 1), &Scalar::zero()));
            assert!(scale.eq_exact(s(5, 1)));
        },
        _ => panic!("a spatial circle projection is pending normalisation"),
    }
}

#[test]
fn derived_signed_distance_agrees_with_the_direct_one() {
    // the signed distance derived from the projection — dot(p - proj, n) —
    // equals the direct formula the planar ray uses
    let line = Ray2::new(Position2::new(0, 0, 1), diag2());
    let p = Position2::new(1, 0, 1);
    let projection = line.project(&p);
    let derived = calculate_signed_distance(&p, &projection);
    let direct = line.calculate_signed_distance(&p);
    assert!(derived.eq_exact(direct));
    assert!(derived.eq_exact(s(4, 5)));
}

#[test]
fn squared_distance_to_a_spatial_line() {
    // a spatial projection carries no normal, so the derived distance is
    // unsigned; the kernel returns its square exactly
    let line = Ray3::new(origin3(), diag3());
    let p = Position3::new(1, 0, 0, 1);
    let projection = line.project(&p);
    let d2 = calculate_squared_distance(&p, &projection);
    assert!(d2.eq_exact(s(5, 9)));
    // a point on the line is at distance zero
    let on_line = Position3::new(2, 2, 1, 1);
    let z = calculate_squared_distance(&on_line, &line.project(&on_line));
    assert!(z.is_zero_exact());
}

#[test]
fn circle2_near_zero_band_takes_the_fallback() {
    // a tiny but nonzero offset from the center is within the near-zero
    // band and takes the canonical fallback, exactly like the center itself
    let circle = Circle2::new(s(2, 1), Position2::new(0, 0, 1));
    let tiny = Position2::new(0, 1, 10_000_000_000_000_000);
    match circle.project(&tiny) {
        Projection::At { point, normal } => {
            assert!(Position2::same_in_epsilon(&point, &Position2::new(2, 0, 1), &Scalar::zero()));
            let n = normal.expect("the fallback reports its direction as the normal");
            let expected = Direction2::new(Vector2::new(1, 0, 1));
            assert!(Direction2::same_in_epsilon(&n, &expected, &Scalar::zero()));
        },
        _ => panic!("an offset within the near-zero band takes the fallback"),
    }
}

#[test]
fn circle2_near_zero_band_boundary() {
    let circle = Circle2::new(s(2, 1), Position2::new(0, 0, 1));
    // an offset of exactly the near-zero bound still takes the fallback
    let on_bound = Position2::new(1, 0, 1_000_000_000_000_000);
    assert!(matches!(circle.project(&on_bound), Projection::At { .. }));
    // one just above it projects along its own direction
    let above = Position2::new(11, 0, 10_000_000_000_000_000);
    match circle.project(&above) {
        Projection::Along { toward, .. } => {
            assert_eq!((toward.xn, toward.yn), (11, 0));
        },
        _ => panic!("an offset above the near-zero bound is not singular"),
    }
}
