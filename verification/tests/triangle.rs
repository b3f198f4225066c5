use hyperlimit::classify::{TetrahedronLocation, Triangle3Location, TriangleLocation};
use hyperlimit::exact::Scalar;
use hyperlimit::geometry::{triangle2_facts, Point2, Point3};
use hyperlimit::predicate::{PredicateOutcome, PredicatePolicy, Sign};
use hyperlimit::predicates::triangle::{
    classify_point_tetrahedron, classify_point_triangle, classify_point_triangle3,
    classify_point_triangle_with_policy_and_facts, PreparedTriangle2, PreparedTriangle3,
};

/// The exact value of a finite `f64`.
fn scalar(value: f64) -> Scalar {
    assert!(value.is_finite());
    let bits = value.to_bits();
    let negative = (bits >> 63) == 1;
    let biased = ((bits >> 52) & 0x7ff) as i64;
    let fraction = bits & ((1u64 << 52) - 1);
    let (mut mantissa, mut exponent) = if biased == 0 {
        (fraction, -1074i64)
    } else {
        (fraction | (1u64 << 52), biased - 1075)
    };
    if mantissa == 0 {
        return Scalar::from_int(0);
    }
    while mantissa % 2 == 0 && exponent < 0 {
        mantissa /= 2;
        exponent += 1;
    }
    let signed = if negative { -(mantissa as i64) } else { mantissa as i64 };
    if exponent >= 0 {
        Scalar::from_int(signed << exponent)
    } else {
        Scalar::fraction(signed, 1u64 << (-exponent)).unwrap()
    }
}

fn p2(x: f64, y: f64) -> Point2 {
    Point2::new(scalar(x), scalar(y))
}

fn p3(x: f64, y: f64, z: f64) -> Point3 {
    Point3::new(scalar(x), scalar(y), scalar(z))
}

#[test]
fn classifies_point_inside_triangle() {
    let a = p2(0.0, 0.0);
    let b = p2(2.0, 0.0);
    let c = p2(0.0, 2.0);
    let point = p2(0.5, 0.5);

    assert_eq!(
        classify_point_triangle(&a, &b, &c, &point).value(),
        Some(TriangleLocation::Inside)
    );
}

#[test]
fn classifies_point_on_triangle_edge() {
    let a = p2(0.0, 0.0);
    let b = p2(2.0, 0.0);
    let c = p2(0.0, 2.0);
    let point = p2(1.0, 0.0);

    assert_eq!(
        classify_point_triangle(&a, &b, &c, &point).value(),
        Some(TriangleLocation::OnEdge)
    );
}

#[test]
fn classifies_point_inside_3d_triangle() {
    let a = p3(0.0, 0.0, 0.0);
    let b = p3(2.0, 0.0, 0.0);
    let c = p3(0.0, 2.0, 0.0);

    assert_eq!(
        classify_point_triangle3(&a, &b, &c, &p3(0.5, 0.5, 0.0)).value(),
        Some(Triangle3Location::Inside)
    );
    assert_eq!(
        classify_point_triangle3(&a, &b, &c, &p3(1.0, 0.0, 0.0)).value(),
        Some(Triangle3Location::OnEdge)
    );
    assert_eq!(
        classify_point_triangle3(&a, &b, &c, &p3(0.0, 0.0, 0.0)).value(),
        Some(Triangle3Location::OnVertex)
    );
    assert_eq!(
        classify_point_triangle3(&a, &b, &c, &p3(2.0, 2.0, 0.0)).value(),
        Some(Triangle3Location::Outside)
    );
    assert_eq!(
        classify_point_triangle3(&a, &b, &c, &p3(0.5, 0.5, 1.0)).value(),
        Some(Triangle3Location::OffPlane)
    );
}

#[test]
fn prepared_triangle3_reuses_cached_normal_signs() {
    let a = p3(0.0, 0.0, 0.0);
    let b = p3(2.0, 0.0, 0.0);
    let c = p3(0.0, 2.0, 0.0);
    let prepared = PreparedTriangle3::new(&a, &b, &c);

    assert_eq!(prepared.a(), &a);
    assert_eq!(prepared.b(), &b);
    assert_eq!(prepared.c(), &c);
    assert!(matches!(
        prepared.normal_signs(),
        PredicateOutcome::Decided { .. }
    ));
    assert_eq!(
        prepared.classify_point(&p3(0.25, 0.25, 0.0)).value(),
        Some(Triangle3Location::Inside)
    );
}

#[test]
fn classifies_degenerate_3d_triangle() {
    let a = p3(0.0, 0.0, 0.0);
    let b = p3(1.0, 1.0, 1.0);
    let c = p3(2.0, 2.0, 2.0);

    assert_eq!(
        classify_point_triangle3(&a, &b, &c, &p3(1.0, 1.0, 1.0)).value(),
        Some(Triangle3Location::Degenerate)
    );
}

#[test]
fn classifies_point_relative_to_tetrahedron() {
    let a = p3(0.0, 0.0, 0.0);
    let b = p3(1.0, 0.0, 0.0);
    let c = p3(0.0, 1.0, 0.0);
    let d = p3(0.0, 0.0, 1.0);

    assert_eq!(
        classify_point_tetrahedron(&a, &b, &c, &d, &p3(0.1, 0.1, 0.1)).value(),
        Some(TetrahedronLocation::Inside)
    );
    assert_eq!(
        classify_point_tetrahedron(&a, &b, &c, &d, &p3(0.2, 0.2, 0.0)).value(),
        Some(TetrahedronLocation::OnFace)
    );
    assert_eq!(
        classify_point_tetrahedron(&a, &b, &c, &d, &p3(0.5, 0.0, 0.0)).value(),
        Some(TetrahedronLocation::OnEdge)
    );
    assert_eq!(
        classify_point_tetrahedron(&a, &b, &c, &d, &p3(0.0, 0.0, 0.0)).value(),
        Some(TetrahedronLocation::OnVertex)
    );
    assert_eq!(
        classify_point_tetrahedron(&a, &b, &c, &d, &p3(1.0, 1.0, 1.0)).value(),
        Some(TetrahedronLocation::Outside)
    );
}

#[test]
fn classifies_degenerate_tetrahedron() {
    let a = p3(0.0, 0.0, 0.0);
    let b = p3(1.0, 0.0, 0.0);
    let c = p3(0.0, 1.0, 0.0);
    let d = p3(1.0, 1.0, 0.0);

    assert_eq!(
        classify_point_tetrahedron(&a, &b, &c, &d, &p3(0.25, 0.25, 0.0)).value(),
        Some(TetrahedronLocation::Degenerate)
    );
}

#[test]
fn classifies_degenerate_triangle() {
    let a = p2(0.0, 0.0);
    let b = p2(1.0, 1.0);
    let c = p2(2.0, 2.0);
    let point = p2(1.0, 1.0);

    assert_eq!(
        classify_point_triangle(&a, &b, &c, &point).value(),
        Some(TriangleLocation::Degenerate)
    );
}

#[test]
fn fact_aware_classifier_uses_structural_triangle_degeneracy() {
    let a = p2(0.0, 0.0);
    let b = p2(2.0, 0.0);
    let c = p2(5.0, 0.0);
    let point = p2(1.0, 0.0);
    let facts = triangle2_facts(&a, &b, &c);
    let policy = PredicatePolicy {
        allow_exact: false,
        allow_refinement: false,
        ..PredicatePolicy::strict()
    };

    assert_eq!(facts.known_degenerate(), Some(true));
    assert_eq!(
        classify_point_triangle_with_policy_and_facts(&a, &b, &c, &point, policy, facts).value(),
        Some(TriangleLocation::Degenerate)
    );
}

#[test]
fn prepared_triangle_classifies_points_with_cached_orientation() {
    let a = p2(0.0, 0.0);
    let b = p2(3.0, 0.0);
    let c = p2(0.0, 3.0);
    let inside = p2(1.0, 1.0);
    let outside = p2(3.0, 3.0);

    let prepared = PreparedTriangle2::new(&a, &b, &c);
    assert_eq!(prepared.orientation().value(), Some(Sign::Positive));
    assert_eq!(prepared.facts().known_non_degenerate(), Some(true));
    assert_eq!(
        prepared.classify_point(&inside).value(),
        Some(TriangleLocation::Inside)
    );
    assert_eq!(
        prepared.classify_point(&outside).value(),
        Some(TriangleLocation::Outside)
    );
}
