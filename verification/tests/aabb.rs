use hyperlimit::classify::{Aabb2Intersection, Aabb2PointLocation, Aabb3Intersection, Aabb3PointLocation};
use hyperlimit::exact::Scalar;
use hyperlimit::geometry::{aabb2_facts, Point2, Point3};
use hyperlimit::predicates::aabb::{
    aabb2s_intersect, aabb3s_intersect, classify_aabb2_intersection, classify_aabb3_intersection,
    classify_point_aabb2, classify_point_aabb3, point_in_aabb2, point_in_aabb3, PreparedAabb2,
    PreparedAabb3,
};

fn p2(x: i32, y: i32) -> Point2 {
    Point2::new(Scalar::from_int(x as i64), Scalar::from_int(y as i64))
}

fn p3(x: i32, y: i32, z: i32) -> Point3 {
    Point3::new(
        Scalar::from_int(x as i64),
        Scalar::from_int(y as i64),
        Scalar::from_int(z as i64),
    )
}

#[test]
fn point_aabb_classifier_distinguishes_inside_boundary_and_outside() {
    let min = p2(0, 0);
    let max = p2(4, 3);

    assert_eq!(
        classify_point_aabb2(&min, &max, &p2(2, 1)).value(),
        Some(Aabb2PointLocation::Inside)
    );
    assert_eq!(
        classify_point_aabb2(&min, &max, &p2(4, 1)).value(),
        Some(Aabb2PointLocation::Boundary)
    );
    assert_eq!(
        classify_point_aabb2(&max, &min, &p2(5, 1)).value(),
        Some(Aabb2PointLocation::Outside)
    );
    assert_eq!(point_in_aabb2(&min, &max, &p2(4, 1)).value(), Some(true));
}

#[test]
fn aabb_intersection_distinguishes_disjoint_touching_and_overlap() {
    assert_eq!(
        classify_aabb2_intersection(&p2(0, 0), &p2(2, 2), &p2(3, 0), &p2(5, 2)).value(),
        Some(Aabb2Intersection::Disjoint)
    );
    assert_eq!(
        classify_aabb2_intersection(&p2(0, 0), &p2(2, 2), &p2(2, 1), &p2(4, 3)).value(),
        Some(Aabb2Intersection::Touching)
    );
    assert_eq!(
        classify_aabb2_intersection(&p2(0, 0), &p2(3, 3), &p2(2, 1), &p2(4, 4)).value(),
        Some(Aabb2Intersection::Overlapping)
    );
    assert_eq!(
        aabb2s_intersect(&p2(0, 0), &p2(2, 2), &p2(2, 2), &p2(5, 5)).value(),
        Some(true)
    );
}

#[test]
fn aabb3_intersection_distinguishes_disjoint_touching_and_overlap() {
    assert_eq!(
        classify_aabb3_intersection(&p3(0, 0, 0), &p3(2, 2, 2), &p3(3, 0, 0), &p3(5, 2, 2))
            .value(),
        Some(Aabb3Intersection::Disjoint)
    );
    assert_eq!(
        classify_aabb3_intersection(&p3(0, 0, 0), &p3(2, 2, 2), &p3(2, 1, 1), &p3(4, 3, 3))
            .value(),
        Some(Aabb3Intersection::Touching)
    );
    assert_eq!(
        classify_aabb3_intersection(&p3(0, 0, 0), &p3(3, 3, 3), &p3(2, 1, 1), &p3(4, 4, 4))
            .value(),
        Some(Aabb3Intersection::Overlapping)
    );
    assert_eq!(
        aabb3s_intersect(&p3(0, 0, 0), &p3(2, 2, 2), &p3(2, 2, 2), &p3(5, 5, 5)).value(),
        Some(true)
    );
}

#[test]
fn point_aabb3_classifier_distinguishes_inside_boundary_and_outside() {
    let min = p3(0, 0, 0);
    let max = p3(4, 3, 2);

    assert_eq!(
        classify_point_aabb3(&min, &max, &p3(2, 1, 1)).value(),
        Some(Aabb3PointLocation::Inside)
    );
    assert_eq!(
        classify_point_aabb3(&min, &max, &p3(4, 1, 1)).value(),
        Some(Aabb3PointLocation::Boundary)
    );
    assert_eq!(
        classify_point_aabb3(&max, &min, &p3(5, 1, 1)).value(),
        Some(Aabb3PointLocation::Outside)
    );
    assert_eq!(point_in_aabb3(&min, &max, &p3(4, 1, 1)).value(), Some(true));
}

#[test]
fn prepared_aabb_reuses_cached_extent_facts_without_owning_storage() {
    let min = p2(0, 0);
    let max = p2(5, 0);
    let facts = aabb2_facts(&min, &max);
    let prepared = PreparedAabb2::from_facts(&min, &max, facts);

    assert_eq!(prepared.min(), &min);
    assert_eq!(prepared.max(), &max);
    assert!(prepared.facts().known_segment());
    assert!(prepared.facts().has_sparse_extent_support());
    assert_eq!(
        prepared.classify_point(&p2(3, 0)).value(),
        Some(Aabb2PointLocation::Boundary)
    );
    assert_eq!(prepared.contains_point(&p2(6, 0)).value(), Some(false));
}

#[test]
fn prepared_aabb_intersection_preserves_point_segment_area_cases() {
    let point_min = p2(2, 2);
    let point_max = p2(2, 2);
    let segment_min = p2(0, 2);
    let segment_max = p2(4, 2);
    let area_min = p2(1, 1);
    let area_max = p2(3, 3);

    let point_box = PreparedAabb2::new(&point_min, &point_max);
    let segment_box = PreparedAabb2::new(&segment_min, &segment_max);
    let area_box = PreparedAabb2::new(&area_min, &area_max);

    assert!(point_box.facts().known_point());
    assert!(segment_box.facts().known_segment());
    assert_eq!(
        point_box.classify_intersection(&segment_box).value(),
        Some(Aabb2Intersection::Touching)
    );
    assert_eq!(
        segment_box.classify_intersection(&area_box).value(),
        Some(Aabb2Intersection::Touching)
    );
    assert_eq!(area_box.intersects(&point_box).value(), Some(true));
}

#[test]
fn prepared_aabb3_reuses_borrowed_storage_for_point_and_intersection_queries() {
    let min = p3(0, 0, 0);
    let max = p3(4, 4, 4);
    let other_min = p3(4, 1, 1);
    let other_max = p3(6, 3, 3);
    let prepared = PreparedAabb3::new(&min, &max);
    let other = PreparedAabb3::new(&other_min, &other_max);

    assert_eq!(prepared.min(), &min);
    assert_eq!(prepared.max(), &max);
    assert_eq!(
        prepared.classify_point(&p3(2, 2, 2)).value(),
        Some(Aabb3PointLocation::Inside)
    );
    assert_eq!(prepared.contains_point(&p3(5, 2, 2)).value(), Some(false));
    assert_eq!(
        prepared.classify_intersection(&other).value(),
        Some(Aabb3Intersection::Touching)
    );
    assert_eq!(prepared.intersects(&other).value(), Some(true));
}
