use geokernel::scalar::Scalar;
use geokernel::vector::{Vector2, Vector3, Position2, Direction2, Direction3, rotate_cw90,
    rotate_ccw90, perpendicular};
use geokernel::parametric::Range;
use geokernel::SameInEpsilon;

fn s(num: i128, den: i128) -> Scalar {
    Scalar::new(num, den)
}

#[test]
fn scalar_arithmetic_is_exact() {
    let a = s(1, 2);
    let b = s(1, 3);
    let sum = a.add(b);
    assert!(sum.eq_exact(s(5, 6)));
    let diff = a.sub(b);
    assert!(diff.eq_exact(s(1, 6)));
    let prod = a.mul(b);
    assert!(prod.eq_exact(s(1, 6)));
    assert!(a.neg().eq_exact(s(-1, 2)));
    assert!(b.le(a));
    assert!(!a.le(b));
    assert!(b.lt(a));
    assert!(s(2, 4).eq_exact(s(1, 2)));
    assert!(s(0, 7).is_zero_exact());
    assert!(Scalar::zero().is_zero_exact());
    assert!(Scalar::one().eq_exact(s(7, 7)));
    assert!(Scalar::from_int(-3).eq_exact(s(-3, 1)));
}

#[test]
fn scalar_same_in_epsilon() {
    let a = s(1, 2);
    let b = s(1, 4);
    assert!(Scalar::same_in_epsilon(&a, &b, &s(1, 4)));
    assert!(Scalar::same_in_epsilon(&b, &a, &s(1, 4)));
    assert!(!Scalar::same_in_epsilon(&a, &b, &s(1, 5)));
    // a negative tolerance admits nothing, not even equal values
    assert!(!Scalar::same_in_epsilon(&a, &a, &s(-1, 1)));
    assert!(Scalar::same_in_epsilon(&a, &a, &Scalar::zero()));
}

#[test]
fn vector_same_in_epsilon_squares_the_tolerance() {
    let a = Vector2::new(3, 4, 1);
    let b = Vector2::new(0, 0, 1);
    // distance 5: within tolerance 5, not within 49/10
    assert!(Vector2::same_in_epsilon(&a, &b, &s(5, 1)));
    assert!(!Vector2::same_in_epsilon(&a, &b, &s(49, 10)));
    assert!(!Vector2::same_in_epsilon(&a, &b, &s(-5, 1)));
    let c = Vector3::new(1, 2, 2, 1);
    let d = Vector3::new(1, 2, 2, 1);
    assert!(Vector3::same_in_epsilon(&c, &d, &Scalar::zero()));
    assert!(!Vector3::same_in_epsilon(&c, &Vector3::new(1, 2, 3, 1), &s(9, 10)));
}

#[test]
fn dot_cross_and_norm_are_exact() {
    let a = Vector2::new(3, 4, 5);
    let b = Vector2::new(4, -3, 5);
    assert!(a.dot(&b).is_zero_exact());
    assert!(a.cross(&b).eq_exact(s(-25, 25)));
    assert!(a.norm_sq().eq_exact(Scalar::one()));
    let v = Vector3::new(2, 2, 1, 3);
    assert!(v.norm_sq().eq_exact(Scalar::one()));
    assert!(v.dot(&Vector3::new(1, 0, 0, 1)).eq_exact(s(2, 3)));
}

#[test]
fn rotations_turn_a_quarter() {
    let d = Direction2::new(Vector2::new(3, 4, 5));
    let cw = rotate_cw90(&d);
    assert_eq!(cw.vector.xn, 4);
    assert_eq!(cw.vector.yn, -3);
    assert_eq!(cw.vector.den, 5);
    let ccw = rotate_ccw90(&d);
    assert_eq!(ccw.vector.xn, -4);
    assert_eq!(ccw.vector.yn, 3);
    assert_eq!(ccw.vector.den, 5);
    // the turned directions are perpendicular to the original
    assert!(d.into_vector().dot(&cw.into_vector()).is_zero_exact());
    assert!(d.into_vector().dot(&ccw.into_vector()).is_zero_exact());
}

#[test]
fn perpendicular_picks_the_stable_cross_product() {
    // nearly parallel to the global Z axis: cross with global Y
    let near_z = Direction3::new(Vector3::new(0, 0, 1, 1));
    let p1 = perpendicular(&near_z);
    assert_eq!((p1.xn, p1.yn, p1.zn, p1.den), (1, 0, 0, 1));
    // far from the global Z axis: cross with global Z
    let tilted = Direction3::new(Vector3::new(3, 4, 0, 5));
    let p2 = perpendicular(&tilted);
    assert_eq!((p2.xn, p2.yn, p2.zn, p2.den), (-4, 3, 0, 5));
    assert!(p2.dot(&tilted.into_vector()).is_zero_exact());
}

#[test]
fn position_difference_and_translation() {
    let p = Position2::new(4, 5, 1);
    let q = Position2::new(1, 1, 1);
    let v = p.sub(&q);
    assert!(v.x().eq_exact(s(3, 1)));
    assert!(v.y().eq_exact(s(4, 1)));
    let back = q.add(&v);
    assert!(Position2::same_in_epsilon(&back, &p, &Scalar::zero()));
}

#[test]
fn range_keeps_its_bounds() {
    let r = Range::new(s(-1, 2), s(3, 2));
    assert!(r.min.eq_exact(s(-1, 2)));
    assert!(r.max.eq_exact(s(3, 2)));
}
