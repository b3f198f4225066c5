use std::cmp::Ordering;

use hyperlimit::classify::{
    Aabb2Intersection, Aabb2PointLocation, Aabb3Intersection, ClosedIntervalIntersection,
    PlaneSegmentRelation, PlaneSide, PlaneTriangleRelation, PointSegmentLocation,
    RealIntervalLocation, SegmentIntersection, TetrahedronLocation, Triangle3Location,
    TriangleLocation,
};
use hyperlimit::exact::Scalar;
use hyperlimit::geometry::plane::{
    classify_plane_segment, classify_plane_triangle, classify_point_oriented_plane,
    classify_point_plane, Plane3, PreparedOrientedPlane3,
};
use hyperlimit::geometry::{aabb2_facts, segment2_facts, triangle2_facts, Point2, Point3};
use hyperlimit::predicate::{PredicatePolicy, Sign};
use hyperlimit::predicates::aabb::{
    classify_aabb2_intersection, classify_aabb2_intersection_with_facts,
    classify_aabb3_intersection, classify_point_aabb2, classify_point_aabb3,
};
use hyperlimit::predicates::distance::{
    compare_point2_distance_squared, compare_point3_distance_squared,
};
use hyperlimit::predicates::interval::{
    classify_closed_interval_intersection_with_policy, classify_real_closed_interval_with_policy,
};
use hyperlimit::predicates::orient::{orient2d, orient3d};
use hyperlimit::predicates::segment::{
    classify_point_segment, classify_point_segment_with_facts, classify_segment_intersection,
    classify_segment_intersection_with_facts,
};
use hyperlimit::predicates::triangle::{
    classify_point_tetrahedron, classify_point_triangle, classify_point_triangle3,
    classify_point_triangle_with_facts,
};

fn whole(value: i64) -> Scalar {
    Scalar::from_int(value)
}

fn frac(num: i64, den: u64) -> Scalar {
    Scalar::fraction(num, den).unwrap()
}

fn p2(x: i64, y: i64) -> Point2 {
    Point2::new(whole(x), whole(y))
}

fn p3(x: i64, y: i64, z: i64) -> Point3 {
    Point3::new(whole(x), whole(y), whole(z))
}

#[test]
fn readme_orientation_example() {
    let a = p2(0, 0);
    let b = p2(1, 0);
    let c = p2(0, 1);
    assert_eq!(orient2d(&a, &b, &c).value(), Some(Sign::Positive));
}

#[test]
fn orient2d_swaps_reverse_and_rotations_keep() {
    let a = p2(1, 2);
    let b = p2(7, -3);
    let c = p2(-2, 5);
    assert_eq!(orient2d(&a, &b, &c).value(), Some(Sign::Positive));
    assert_eq!(orient2d(&b, &a, &c).value(), Some(Sign::Negative));
    assert_eq!(orient2d(&b, &c, &a).value(), Some(Sign::Positive));
    assert_eq!(orient2d(&c, &a, &b).value(), Some(Sign::Positive));
}

#[test]
fn orient3d_swaps_reverse_and_rotations_keep() {
    let a = p3(0, 0, 0);
    let b = p3(1, 0, 0);
    let c = p3(0, 1, 0);
    let d = p3(0, 0, 1);
    let base = orient3d(&a, &b, &c, &d).value();
    assert_eq!(base, Some(Sign::Negative));
    assert_eq!(orient3d(&b, &a, &c, &d).value(), Some(Sign::Positive));
    assert_eq!(orient3d(&b, &c, &a, &d).value(), base);
}

#[test]
fn orient2d_uses_exact_fractions() {
    let a = Point2::new(frac(1, 3), frac(1, 3));
    let b = Point2::new(frac(2, 3), frac(2, 3));
    let on_line = Point2::new(frac(5, 7), frac(10, 14));
    let above = Point2::new(frac(5, 7), frac(11, 14));
    assert_eq!(orient2d(&a, &b, &on_line).value(), Some(Sign::Zero));
    assert_eq!(orient2d(&a, &b, &above).value(), Some(Sign::Positive));
}

#[test]
fn oriented_plane_agrees_with_orient3d_on_exact_fractions() {
    let a = Point3::new(frac(1, 3), whole(0), frac(-2, 5));
    let b = Point3::new(whole(2), frac(1, 7), whole(1));
    let c = Point3::new(frac(-3, 4), whole(3), frac(1, 2));
    let prepared = PreparedOrientedPlane3::new(&a, &b, &c);
    for point in [
        p3(0, 0, 0),
        p3(5, -1, 2),
        Point3::new(frac(1, 3), whole(0), frac(-2, 5)),
        Point3::new(frac(7, 9), frac(-5, 3), frac(11, 6)),
    ] {
        assert_eq!(
            prepared.classify_point(&point),
            classify_point_oriented_plane(&a, &b, &c, &point)
        );
    }
    assert_eq!(prepared.classify_point(&a).value(), Some(PlaneSide::On));
    assert_eq!(prepared.classify_point(&b).value(), Some(PlaneSide::On));
    assert_eq!(prepared.classify_point(&c).value(), Some(PlaneSide::On));
}

#[test]
fn point_plane_uses_exact_products() {
    let plane = Plane3::new(Point3::new(frac(1, 3), frac(1, 3), frac(1, 3)), whole(-1));
    assert_eq!(classify_point_plane(&p3(1, 1, 1), &plane).value(), Some(PlaneSide::On));
    assert_eq!(
        classify_point_plane(&Point3::new(whole(1), whole(1), frac(3, 2)), &plane).value(),
        Some(PlaneSide::Above)
    );
    let prepared = plane.prepare();
    assert_eq!(prepared.classify_point(&p3(1, 1, 1)).value(), Some(PlaneSide::On));
    assert_eq!(prepared.classify_point(&p3(0, 0, 0)).value(), Some(PlaneSide::Below));
}

#[test]
fn plane_facts_report_non_dyadic_coefficients() {
    let plane = Plane3::new(Point3::new(frac(1, 3), whole(0), frac(2, 3)), frac(-1, 3));
    let facts = plane.structural_facts();
    assert!(!facts.has_dyadic_schedule());
    assert!(!facts.has_shared_denominator_schedule());
    assert_eq!(facts.coefficient_zero_mask, 0b0010);
    assert_eq!(facts.coefficient_nonzero_mask, 0b1101);
    assert_eq!(facts.coefficient_nonzero_count(), 3);
    assert!(facts.normal_has_sparse_support());

    let shared = Plane3::new(Point3::new(frac(1, 3), frac(-2, 3), frac(4, 3)), frac(5, 3));
    assert!(shared.structural_facts().has_shared_denominator_schedule());

    let zero = Plane3::new(p3(0, 0, 0), whole(5)).structural_facts();
    assert!(zero.normal_known_zero());
    assert!(!zero.normal_has_sparse_support());
}

#[test]
fn plane_relations_ignore_vertex_order() {
    let plane = Plane3::new(p3(0, 0, 1), whole(-2));
    let below = p3(0, 0, 1);
    let above = p3(1, 0, 3);
    let on = p3(2, 2, 2);
    assert_eq!(
        classify_plane_segment(&plane, &below, &above).value(),
        Some(PlaneSegmentRelation::Crossing)
    );
    assert_eq!(
        classify_plane_segment(&plane, &above, &below).value(),
        Some(PlaneSegmentRelation::Crossing)
    );
    assert_eq!(
        classify_plane_segment(&plane, &on, &below).value(),
        classify_plane_segment(&plane, &below, &on).value()
    );
    assert_eq!(
        classify_plane_triangle(&plane, &below, &above, &on).value(),
        Some(PlaneTriangleRelation::Split)
    );
    assert_eq!(
        classify_plane_triangle(&plane, &on, &below, &above).value(),
        Some(PlaneTriangleRelation::Split)
    );
    assert_eq!(
        classify_plane_triangle(&plane, &on, &below, &below).value(),
        Some(PlaneTriangleRelation::BoundaryTouch)
    );
}

#[test]
fn segment_endpoints_and_endpoint_order() {
    let a = p2(1, 1);
    let b = p2(5, 3);
    assert_eq!(
        classify_point_segment(&a, &b, &a).value(),
        Some(PointSegmentLocation::OnEndpoint)
    );
    assert_eq!(
        classify_point_segment(&a, &b, &b).value(),
        Some(PointSegmentLocation::OnEndpoint)
    );
    for point in [p2(3, 2), p2(9, 5), p2(3, 3), p2(-1, 0)] {
        assert_eq!(
            classify_point_segment(&a, &b, &point),
            classify_point_segment(&b, &a, &point)
        );
    }
}

#[test]
fn segment_facts_agree_with_plain_classification() {
    let a = p2(2, 2);
    let same_as_a = Point2::new(frac(4, 2), frac(6, 3));
    let c = p2(0, 0);
    let d = p2(4, 4);
    let degenerate = segment2_facts(&a, &same_as_a);
    assert_eq!(degenerate.degenerate, Some(true));
    for point in [p2(2, 2), p2(3, 3), p2(0, 1)] {
        assert_eq!(
            classify_point_segment_with_facts(&a, &same_as_a, &point, degenerate),
            classify_point_segment(&a, &same_as_a, &point)
        );
    }
    let cd = segment2_facts(&c, &d);
    assert_eq!(
        classify_segment_intersection_with_facts(&a, &same_as_a, &c, &d, degenerate, cd).value(),
        Some(SegmentIntersection::EndpointTouch)
    );
    assert_eq!(
        classify_segment_intersection(&a, &same_as_a, &c, &d).value(),
        Some(SegmentIntersection::EndpointTouch)
    );
    let off = p2(1, 0);
    let off_facts = segment2_facts(&off, &off);
    assert_eq!(
        classify_segment_intersection_with_facts(&off, &off, &c, &d, off_facts, cd).value(),
        classify_segment_intersection(&off, &off, &c, &d).value()
    );
    assert_eq!(
        classify_segment_intersection_with_facts(&a, &same_as_a, &a, &a, degenerate, degenerate)
            .value(),
        Some(SegmentIntersection::Identical)
    );
}

#[test]
fn triangle_location_ignores_vertex_order() {
    let a = p2(0, 0);
    let b = p2(6, 0);
    let c = p2(0, 6);
    for point in [p2(1, 1), p2(3, 0), p2(0, 0), p2(7, 7), p2(3, 3)] {
        let base = classify_point_triangle(&a, &b, &c, &point);
        assert_eq!(classify_point_triangle(&b, &c, &a, &point), base);
        assert_eq!(classify_point_triangle(&a, &c, &b, &point), base);
    }
    for vertex in [a, b, c] {
        assert_eq!(
            classify_point_triangle(&a, &b, &c, &vertex).value(),
            Some(TriangleLocation::OnVertex)
        );
    }
    let facts = triangle2_facts(&a, &b, &c);
    assert_eq!(
        classify_point_triangle_with_facts(&a, &b, &c, &p2(1, 1), facts),
        classify_point_triangle(&a, &b, &c, &p2(1, 1))
    );
}

#[test]
fn distance_comparison_is_antisymmetric() {
    let anchor = p2(0, 0);
    let near = p2(1, 2);
    let far = p2(3, 0);
    assert_eq!(
        compare_point2_distance_squared(&anchor, &near, &far).value(),
        Some(Ordering::Less)
    );
    assert_eq!(
        compare_point2_distance_squared(&anchor, &far, &near).value(),
        Some(Ordering::Greater)
    );
    assert_eq!(
        compare_point2_distance_squared(&anchor, &near, &near).value(),
        Some(Ordering::Equal)
    );
    let anchor3 = p3(1, 1, 1);
    let left = p3(2, 3, 1);
    let right = p3(1, 1, 4);
    assert_eq!(
        compare_point3_distance_squared(&anchor3, &left, &right).value(),
        Some(Ordering::Less)
    );
    assert_eq!(
        compare_point3_distance_squared(&anchor3, &right, &left).value(),
        Some(Ordering::Greater)
    );
}

#[test]
fn interval_endpoint_order_does_not_matter() {
    let policy = PredicatePolicy::default();
    let a = whole(5);
    let b = whole(1);
    assert_eq!(
        classify_real_closed_interval_with_policy(&whole(3), &a, &b, policy).value(),
        Some(RealIntervalLocation::Inside)
    );
    assert_eq!(
        classify_real_closed_interval_with_policy(&whole(3), &b, &a, policy).value(),
        Some(RealIntervalLocation::Inside)
    );
    assert_eq!(
        classify_real_closed_interval_with_policy(&whole(1), &a, &b, policy).value(),
        Some(RealIntervalLocation::AtLowerEndpoint)
    );
    assert_eq!(
        classify_closed_interval_intersection_with_policy(&a, &b, &whole(5), &whole(9), policy).value(),
        Some(ClosedIntervalIntersection::Touching)
    );
    assert_eq!(
        classify_closed_interval_intersection_with_policy(&whole(9), &whole(5), &b, &a, policy).value(),
        Some(ClosedIntervalIntersection::Touching)
    );
    assert_eq!(
        classify_closed_interval_intersection_with_policy(&a, &b, &whole(6), &whole(9), policy).value(),
        Some(ClosedIntervalIntersection::Disjoint)
    );
}

#[test]
fn aabb_corner_order_and_symmetry() {
    let min = p2(0, 0);
    let max = p2(4, 3);
    for point in [p2(1, 1), p2(0, 2), p2(5, 1)] {
        assert_eq!(
            classify_point_aabb2(&min, &max, &point),
            classify_point_aabb2(&max, &min, &point)
        );
    }
    assert_eq!(
        classify_point_aabb2(&max, &min, &p2(4, 3)).value(),
        Some(Aabb2PointLocation::Boundary)
    );
    assert_eq!(
        classify_point_aabb3(&p3(2, 2, 2), &p3(0, 0, 0), &p3(1, 1, 1)),
        classify_point_aabb3(&p3(0, 0, 0), &p3(2, 2, 2), &p3(1, 1, 1))
    );
    let other_min = p2(4, 1);
    let other_max = p2(6, 2);
    assert_eq!(
        classify_aabb2_intersection(&min, &max, &other_min, &other_max).value(),
        Some(Aabb2Intersection::Touching)
    );
    assert_eq!(
        classify_aabb2_intersection(&other_min, &other_max, &min, &max).value(),
        Some(Aabb2Intersection::Touching)
    );
    assert_eq!(
        classify_aabb3_intersection(&p3(0, 0, 0), &p3(2, 2, 2), &p3(1, 1, 1), &p3(3, 3, 3))
            .value(),
        Some(Aabb3Intersection::Overlapping)
    );
    assert_eq!(
        classify_aabb3_intersection(&p3(1, 1, 1), &p3(3, 3, 3), &p3(0, 0, 0), &p3(2, 2, 2))
            .value(),
        Some(Aabb3Intersection::Overlapping)
    );
}

#[test]
fn aabb_facts_agree_with_plain_classification() {
    let flat_min = p2(1, 1);
    let flat_max = p2(3, 1);
    let box_min = p2(0, 0);
    let box_max = p2(4, 4);
    let flat = aabb2_facts(&flat_min, &flat_max);
    let full = aabb2_facts(&box_min, &box_max);
    assert_eq!(
        classify_aabb2_intersection_with_facts(&flat_min, &flat_max, &box_min, &box_max, flat, full)
            .value(),
        Some(Aabb2Intersection::Touching)
    );
    assert_eq!(
        classify_aabb2_intersection(&flat_min, &flat_max, &box_min, &box_max).value(),
        Some(Aabb2Intersection::Touching)
    );
}

#[test]
fn tetrahedron_vertices_are_vertices() {
    let a = p3(0, 0, 0);
    let b = p3(4, 0, 0);
    let c = p3(0, 4, 0);
    let d = p3(0, 0, 4);
    for vertex in [a, b, c, d] {
        assert_eq!(
            classify_point_tetrahedron(&a, &b, &c, &d, &vertex).value(),
            Some(TetrahedronLocation::OnVertex)
        );
    }
}

#[test]
fn plane_fact_masks_split_the_coefficients() {
    for plane in [
        Plane3::new(p3(0, 3, 0), whole(-6)),
        Plane3::new(p3(1, 2, 3), whole(4)),
        Plane3::new(p3(0, 0, 0), whole(0)),
        Plane3::new(Point3::new(frac(1, 3), whole(0), frac(-5, 7)), whole(0)),
    ] {
        let facts = plane.structural_facts();
        assert_eq!(facts.coefficient_zero_mask + facts.coefficient_nonzero_mask, 15);
        assert_eq!(
            facts.coefficient_zero_count() + facts.coefficient_nonzero_count(),
            4
        );
        assert_eq!(facts.coefficient_unknown_zero_count(), 0);
    }
}

#[test]
fn triangle3_vertices_are_vertices() {
    let a = Point3::new(frac(1, 2), whole(0), frac(-1, 3));
    let b = p3(2, 1, 0);
    let c = Point3::new(whole(0), frac(5, 4), whole(1));
    for vertex in [a, b, c] {
        assert_eq!(
            classify_point_triangle3(&a, &b, &c, &vertex).value(),
            Some(Triangle3Location::OnVertex)
        );
    }
}
