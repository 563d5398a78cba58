use kinematics::dynamics::acceleration::Acceleration;
use kinematics::dynamics::velocity::Velocity;
use kinematics::shapes::circle::Circle;
use kinematics::utils::intersection::{circle_intersection, IntersectionResult};
use kinematics::utils::scalar::Scalar;

/// The floating-point value of an exact scalar; NaN when the root is
/// negative (degenerate geometry).
fn scalar_value(s: &Scalar) -> f64 {
    (s.num as f64 + s.coeff as f64 * (s.root as f64).sqrt()) / s.den as f64
}

fn still_circle(x: i64, y: i64, radius: i64) -> Circle {
    let v = Velocity::new(0, 0, 0);
    let a = Acceleration::new(0, 0, 0);
    Circle::new(x, y, radius, None, v, a)
}

#[test]
fn intersection_points_exact() {
    let c0 = still_circle(0, 0, 2);
    let c1 = still_circle(2, 0, 2);

    let r = circle_intersection(c0, c1);
    assert_eq!(r.result_type, IntersectionResult::Intersection);

    let (p0, p1) = r.result.unwrap();
    // d2 = 4, chord numerator t = 4, denominator 2*d2 = 8, discriminant 48;
    // both base coordinates are offset by the x difference
    assert_eq!(p0.x, Scalar { num: 8, coeff: 0, root: 48, den: 8 });
    assert_eq!(p0.y, Scalar { num: 8, coeff: 2, root: 48, den: 8 });
    assert_eq!(p1.x, Scalar { num: 8, coeff: 0, root: 48, den: 8 });
    assert_eq!(p1.y, Scalar { num: 8, coeff: -2, root: 48, den: 8 });

    assert_eq!(scalar_value(&p0.x), 1.0);
    assert_eq!(scalar_value(&p0.y), 1.0 + (48.0f64).sqrt() / 4.0);
    assert_eq!(scalar_value(&p1.y), 1.0 - (48.0f64).sqrt() / 4.0);
}

// Half units: circles at (10, 10) and (5, 5) with radius 2.5 in length units.
#[test]
fn no_intersection_when_far_apart() {
    let c0 = still_circle(20, 20, 5);
    let c1 = still_circle(10, 10, 5);

    let r = circle_intersection(c0, c1);
    assert_eq!(r.result_type, IntersectionResult::NoIntersection);
    assert_eq!(r.result, None);
}

#[test]
fn tangent_circles_intersect() {
    let c0 = still_circle(0, 0, 2);
    let c1 = still_circle(6, 0, 4);

    let r = circle_intersection(c0, c1);
    assert_eq!(r.result_type, IntersectionResult::Intersection);

    let (p0, p1) = r.result.unwrap();
    // d == r0 + r1 exactly: one contact point, reported twice
    assert_eq!(p0.x.root, 0);
    assert_eq!(scalar_value(&p0.x), scalar_value(&p1.x));
    assert_eq!(scalar_value(&p0.y), scalar_value(&p1.y));
    assert_eq!(scalar_value(&p0.x), 2.0);
}

#[test]
fn coincident_centers_no_intersection() {
    let c0 = still_circle(5, 5, 3);
    let c1 = still_circle(5, 5, 3);

    let r = circle_intersection(c0, c1);
    assert_eq!(r.result_type, IntersectionResult::NoIntersection);
    assert_eq!(r.result, None);

    let z0 = still_circle(7, 7, 0);
    let z1 = still_circle(7, 7, 0);
    let rz = circle_intersection(z0, z1);
    assert_eq!(rz.result_type, IntersectionResult::NoIntersection);
    assert_eq!(rz.result, None);
}

#[test]
fn result_present_iff_intersecting() {
    let pairs = vec![
        (still_circle(0, 0, 2), still_circle(2, 0, 2)),
        (still_circle(20, 20, 5), still_circle(10, 10, 5)),
        (still_circle(0, 0, 2), still_circle(6, 0, 4)),
        (still_circle(5, 5, 3), still_circle(5, 5, 3)),
        (still_circle(0, 0, 0), still_circle(0, 0, 0)),
        (still_circle(0, 0, 10), still_circle(1, 0, 1)),
        (still_circle(-3, 4, 1), still_circle(3, -4, 1)),
        (still_circle(-1000000, -1000000, 1000000), still_circle(1000000, 1000000, 1000000)),
    ];
    for (c0, c1) in pairs {
        let r = circle_intersection(c0, c1);
        assert_eq!(
            r.result.is_some(),
            r.result_type == IntersectionResult::Intersection
        );
    }
}

#[test]
fn symmetry_of_classification_and_points() {
    let a = still_circle(0, 0, 2);
    let b = still_circle(2, 0, 2);

    let ab = circle_intersection(a, b);
    let ba = circle_intersection(b, a);
    assert_eq!(ab.result_type, ba.result_type);

    let (p0, p1) = ab.result.unwrap();
    let (q0, q1) = ba.result.unwrap();
    // the x coordinates come back in reverse order
    assert_eq!(q0.x, p1.x);
    assert_eq!(q1.x, p0.x);

    // on the diagonal (dx == dy) the whole pair is exchanged
    let d0 = still_circle(0, 0, 3);
    let d1 = still_circle(3, 3, 3);
    let dd = circle_intersection(d0, d1);
    let rd = circle_intersection(d1, d0);
    assert_eq!(dd.result_type, rd.result_type);
    let (s0, s1) = dd.result.unwrap();
    let (t0, t1) = rd.result.unwrap();
    assert_eq!(t0, s1);
    assert_eq!(t1, s0);
}

#[test]
fn contained_circle_yields_no_real_points() {
    // one circle deep inside the other: the separation test does not treat
    // containment separately, so the chord formulas run and their
    // discriminant turns negative -- the reported coordinates are not real
    let c0 = still_circle(0, 0, 10);
    let c1 = still_circle(1, 0, 1);

    let r = circle_intersection(c0, c1);
    assert_eq!(r.result_type, IntersectionResult::Intersection);

    let (p0, _p1) = r.result.unwrap();
    assert!(p0.x.root < 0);
    assert!(scalar_value(&p0.x).is_nan());
    assert!(scalar_value(&p0.y).is_nan());
}
