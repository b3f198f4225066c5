use hyperlimit::classify::{PointSegmentLocation, SegmentIntersection};
use hyperlimit::exact::Scalar;
use hyperlimit::geometry::{segment2_facts, Point2, Point3};
use hyperlimit::predicates::segment::{
    classify_point_segment, classify_point_segment3, classify_point_segment_with_facts,
    classify_segment_intersection, classify_segment_intersection_with_facts, point_on_segment3,
    point_on_segment_with_facts, PreparedSegment2, PreparedSegment3,
};

fn scalar(value: i32) -> Scalar {
    Scalar::from_int(value as i64)
}

fn p2(x: i32, y: i32) -> Point2 {
    Point2::new(scalar(x), scalar(y))
}

fn p3(x: i32, y: i32, z: i32) -> Point3 {
    Point3::new(scalar(x), scalar(y), scalar(z))
}

#[test]
fn point_segment_classifier_distinguishes_endpoint_inside_and_outside() {
    let a = p2(0, 0);
    let b = p2(4, 0);

    assert_eq!(
        classify_point_segment(&a, &b, &p2(2, 0)).value(),
        Some(PointSegmentLocation::OnSegment)
    );
    assert_eq!(
        classify_point_segment(&a, &b, &p2(4, 0)).value(),
        Some(PointSegmentLocation::OnEndpoint)
    );
    assert_eq!(
        classify_point_segment(&a, &b, &p2(5, 0)).value(),
        Some(PointSegmentLocation::CollinearOutside)
    );
    assert_eq!(
        classify_point_segment(&a, &b, &p2(2, 1)).value(),
        Some(PointSegmentLocation::OffLine)
    );
}

#[test]
fn point_segment3_classifier_distinguishes_endpoint_inside_outside_and_offline() {
    let a = p3(0, 0, 0);
    let b = p3(4, 4, 4);

    assert_eq!(
        classify_point_segment3(&a, &b, &p3(2, 2, 2)).value(),
        Some(PointSegmentLocation::OnSegment)
    );
    assert_eq!(
        classify_point_segment3(&a, &b, &p3(4, 4, 4)).value(),
        Some(PointSegmentLocation::OnEndpoint)
    );
    assert_eq!(
        classify_point_segment3(&a, &b, &p3(5, 5, 5)).value(),
        Some(PointSegmentLocation::CollinearOutside)
    );
    assert_eq!(
        classify_point_segment3(&a, &b, &p3(2, 2, 3)).value(),
        Some(PointSegmentLocation::OffLine)
    );
    assert_eq!(point_on_segment3(&a, &b, &p3(2, 2, 2)).value(), Some(true));
}

#[test]
fn segment_classifier_reports_proper_endpoint_overlap_and_identical() {
    assert_eq!(
        classify_segment_intersection(&p2(0, 0), &p2(4, 4), &p2(0, 4), &p2(4, 0)).value(),
        Some(SegmentIntersection::Proper)
    );
    assert_eq!(
        classify_segment_intersection(&p2(0, 0), &p2(4, 0), &p2(4, 0), &p2(6, 0)).value(),
        Some(SegmentIntersection::EndpointTouch)
    );
    assert_eq!(
        classify_segment_intersection(&p2(0, 0), &p2(4, 0), &p2(2, 0), &p2(6, 0)).value(),
        Some(SegmentIntersection::CollinearOverlap)
    );
    assert_eq!(
        classify_segment_intersection(&p2(0, 0), &p2(4, 0), &p2(4, 0), &p2(0, 0)).value(),
        Some(SegmentIntersection::Identical)
    );
}

#[test]
fn segment_classifier_reports_disjoint_collinear_and_skew_cases() {
    assert_eq!(
        classify_segment_intersection(&p2(0, 0), &p2(4, 0), &p2(5, 0), &p2(6, 0)).value(),
        Some(SegmentIntersection::Disjoint)
    );
    assert_eq!(
        classify_segment_intersection(&p2(0, 0), &p2(4, 0), &p2(5, 1), &p2(6, 1)).value(),
        Some(SegmentIntersection::Disjoint)
    );
}

#[test]
fn fact_aware_point_segment_classifier_handles_degenerate_segments() {
    let endpoint = p2(2, 3);
    let facts = segment2_facts(&endpoint, &endpoint);

    assert_eq!(
        classify_point_segment_with_facts(&endpoint, &endpoint, &endpoint, facts).value(),
        Some(PointSegmentLocation::OnEndpoint)
    );
    assert_eq!(
        classify_point_segment_with_facts(&endpoint, &endpoint, &p2(2, 4), facts).value(),
        Some(PointSegmentLocation::CollinearOutside)
    );
    assert_eq!(
        point_on_segment_with_facts(&endpoint, &endpoint, &endpoint, facts).value(),
        Some(true)
    );
}

#[test]
fn fact_aware_segment_classifier_reduces_point_segment_cases() {
    let point = p2(2, 0);
    let point_facts = segment2_facts(&point, &point);
    let start = p2(0, 0);
    let end = p2(4, 0);
    let segment_facts = segment2_facts(&start, &end);

    assert_eq!(
        classify_segment_intersection_with_facts(
            &point,
            &point,
            &start,
            &end,
            point_facts,
            segment_facts
        )
        .value(),
        Some(SegmentIntersection::EndpointTouch)
    );

    let other_point = p2(9, 0);
    let other_facts = segment2_facts(&other_point, &other_point);
    assert_eq!(
        classify_segment_intersection_with_facts(
            &point,
            &point,
            &other_point,
            &other_point,
            point_facts,
            other_facts
        )
        .value(),
        Some(SegmentIntersection::Disjoint)
    );
    assert_eq!(
        classify_segment_intersection_with_facts(
            &point,
            &point,
            &point,
            &point,
            point_facts,
            point_facts
        )
        .value(),
        Some(SegmentIntersection::Identical)
    );
}

#[test]
fn prepared_segment_reuses_cached_facts_for_point_and_intersection_queries() {
    let a = p2(0, 0);
    let b = p2(4, 0);
    let prepared = PreparedSegment2::new(&a, &b);
    assert_eq!(prepared.facts().known_degenerate(), Some(false));
    assert_eq!(
        prepared.classify_point(&p2(2, 0)).value(),
        Some(PointSegmentLocation::OnSegment)
    );

    let point = p2(2, 0);
    let prepared_point = PreparedSegment2::new(&point, &point);
    assert_eq!(
        prepared.classify_intersection(&prepared_point).value(),
        Some(SegmentIntersection::EndpointTouch)
    );
}

#[test]
fn prepared_segment3_reuses_borrowed_endpoints() {
    let a = p3(0, 0, 0);
    let b = p3(0, 0, 3);
    let prepared = PreparedSegment3::new(&a, &b);

    assert_eq!(prepared.start(), &a);
    assert_eq!(prepared.end(), &b);
    assert_eq!(
        prepared.classify_point(&p3(0, 0, 2)).value(),
        Some(PointSegmentLocation::OnSegment)
    );
    assert_eq!(prepared.point_on_segment(&p3(0, 1, 2)).value(), Some(false));
}
