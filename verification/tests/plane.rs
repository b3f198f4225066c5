use hyperlimit::classify::{PlaneSegmentRelation, PlaneSide, PlaneTriangleRelation};
use hyperlimit::exact::Scalar;
use hyperlimit::geometry::plane::{
    classify_plane_segment, classify_plane_triangle, classify_point_oriented_plane,
    classify_point_plane, Plane3, PreparedOrientedPlane3,
};
use hyperlimit::geometry::Point3;

/// The exact value of a finite `f64`.
fn scalar(value: f64) -> Scalar {
    assert!(value.is_finite());
    let bits = value.to_bits();
    let negative = (bits >> 63) == 1;
    let biased = ((bits >> 52) & 0x7ff) as i64;
    let fraction = bits & ((1u64 << 52) - 1);
    let (mut mantissa, mut exponent) = if biased == 0 {
        (fraction, -1074i64)
    } else {
        (fraction | (1u64 << 52), biased - 1075)
    };
    if mantissa == 0 {
        return Scalar::from_int(0);
    }
    while mantissa % 2 == 0 && exponent < 0 {
        mantissa /= 2;
        exponent += 1;
    }
    let signed = if negative { -(mantissa as i64) } else { mantissa as i64 };
    if exponent >= 0 {
        Scalar::from_int(signed << exponent)
    } else {
        Scalar::fraction(signed, 1u64 << (-exponent)).unwrap()
    }
}

fn p3(x: f64, y: f64, z: f64) -> Point3 {
    Point3::new(scalar(x), scalar(y), scalar(z))
}

fn int3(x: i64, y: i64, z: i64) -> Point3 {
    Point3::new(Scalar::from_int(x), Scalar::from_int(y), Scalar::from_int(z))
}

#[test]
fn classifies_point_plane() {
    let plane = Plane3::new(p3(0.0, 0.0, 1.0), scalar(-2.0));

    assert_eq!(
        classify_point_plane(&p3(0.0, 0.0, 3.0), &plane).value(),
        Some(PlaneSide::Above)
    );
    assert_eq!(
        classify_point_plane(&p3(0.0, 0.0, 1.0), &plane).value(),
        Some(PlaneSide::Below)
    );
}

#[test]
fn classifies_plane_segment_relation() {
    let plane = Plane3::new(p3(0.0, 0.0, 1.0), scalar(-2.0));

    assert_eq!(
        classify_plane_segment(&plane, &p3(0.0, 0.0, 0.0), &p3(1.0, 0.0, 1.0)).value(),
        Some(PlaneSegmentRelation::Below)
    );
    assert_eq!(
        classify_plane_segment(&plane, &p3(0.0, 0.0, 3.0), &p3(1.0, 0.0, 4.0)).value(),
        Some(PlaneSegmentRelation::Above)
    );
    assert_eq!(
        classify_plane_segment(&plane, &p3(0.0, 0.0, 2.0), &p3(1.0, 0.0, 2.0)).value(),
        Some(PlaneSegmentRelation::Coplanar)
    );
    assert_eq!(
        classify_plane_segment(&plane, &p3(0.0, 0.0, 1.0), &p3(1.0, 0.0, 3.0)).value(),
        Some(PlaneSegmentRelation::Crossing)
    );
    assert_eq!(
        plane
            .prepare()
            .classify_segment(&p3(0.0, 0.0, 2.0), &p3(1.0, 0.0, 3.0))
            .value(),
        Some(PlaneSegmentRelation::EndpointTouch)
    );
}

#[test]
fn classifies_plane_triangle_relation() {
    let plane = Plane3::new(p3(0.0, 0.0, 1.0), scalar(-2.0));

    assert_eq!(
        classify_plane_triangle(
            &plane,
            &p3(0.0, 0.0, 0.0),
            &p3(1.0, 0.0, 1.0),
            &p3(0.0, 1.0, 1.0)
        )
        .value(),
        Some(PlaneTriangleRelation::Below)
    );
    assert_eq!(
        classify_plane_triangle(
            &plane,
            &p3(0.0, 0.0, 3.0),
            &p3(1.0, 0.0, 4.0),
            &p3(0.0, 1.0, 3.0)
        )
        .value(),
        Some(PlaneTriangleRelation::Above)
    );
    assert_eq!(
        classify_plane_triangle(
            &plane,
            &p3(0.0, 0.0, 2.0),
            &p3(1.0, 0.0, 2.0),
            &p3(0.0, 1.0, 2.0)
        )
        .value(),
        Some(PlaneTriangleRelation::Coplanar)
    );
    assert_eq!(
        classify_plane_triangle(
            &plane,
            &p3(0.0, 0.0, 1.0),
            &p3(1.0, 0.0, 3.0),
            &p3(0.0, 1.0, 1.0)
        )
        .value(),
        Some(PlaneTriangleRelation::Split)
    );
    assert_eq!(
        plane
            .prepare()
            .classify_triangle(&p3(0.0, 0.0, 2.0), &p3(1.0, 0.0, 3.0), &p3(0.0, 1.0, 3.0))
            .value(),
        Some(PlaneTriangleRelation::BoundaryTouch)
    );
}

#[test]
fn classifies_point_oriented_plane_from_points() {
    let a = p3(0.0, 0.0, 0.0);
    let b = p3(1.0, 0.0, 0.0);
    let c = p3(0.0, 1.0, 0.0);

    assert_eq!(
        classify_point_oriented_plane(&a, &b, &c, &p3(0.0, 0.0, 1.0)).value(),
        Some(PlaneSide::Below)
    );
}

#[test]
fn plane_facts_preserve_coefficient_structure_for_prepared_queries() {
    let plane = Plane3::new(int3(0, 3, 0), Scalar::from_int(-6));
    let facts = plane.structural_facts();

    assert_eq!(facts.coefficient_zero_mask, 0b0101);
    assert_eq!(facts.coefficient_nonzero_mask, 0b1010);
    assert_eq!(facts.coefficient_unknown_zero_mask, 0);
    assert_eq!(facts.coefficient_zero_count(), 2);
    assert_eq!(facts.coefficient_nonzero_count(), 2);
    assert_eq!(facts.coefficient_unknown_zero_count(), 0);
    assert!(facts.normal_has_sparse_support());
    assert!(!facts.normal_known_zero());
    assert!(facts.has_dyadic_schedule());
    assert!(facts.has_shared_denominator_schedule());

    let prepared = plane.prepare();
    assert_eq!(prepared.plane(), &plane);
    assert_eq!(prepared.facts(), facts);
    assert_eq!(
        prepared.classify_point(&int3(0, 3, 0)),
        classify_point_plane(&int3(0, 3, 0), &plane)
    );
}

#[test]
fn prepared_oriented_plane_matches_orient3d_side() {
    let a = p3(-0.85, -0.7, -0.25);
    let b = p3(0.9, -0.35, 0.35);
    let c = p3(-0.35, 0.85, 0.05);
    let prepared = PreparedOrientedPlane3::new(&a, &b, &c);
    assert_eq!(prepared.facts(), prepared.plane().structural_facts());

    for point in [
        p3(0.2, -0.1, 0.8),
        p3(-0.4, 0.3, -0.2),
        p3(0.1, 0.2, 0.38 * 0.1 + 0.24 * 0.2),
    ] {
        assert_eq!(
            prepared.classify_point(&point).value(),
            classify_point_oriented_plane(&a, &b, &c, &point).value()
        );
    }
}
