use std::cmp::Ordering;

use hyperlimit::classify::SpherePointLocation;
use hyperlimit::exact::Scalar;
use hyperlimit::geometry::{Point2, Point3};
use hyperlimit::predicates::distance::{
    classify_point_sphere3, compare_point2_distance_squared, compare_point3_distance_squared,
    PreparedExplicitSphere3,
};

fn p2(x: i32, y: i32) -> Point2 {
    Point2::new(Scalar::from_int(x as i64), Scalar::from_int(y as i64))
}

fn p3(x: i32, y: i32, z: i32) -> Point3 {
    Point3::new(
        Scalar::from_int(x as i64),
        Scalar::from_int(y as i64),
        Scalar::from_int(z as i64),
    )
}

#[test]
fn squared_distance_comparison_avoids_square_roots() {
    let anchor = p2(0, 0);
    let near = p2(3, 4);
    let far = p2(6, 8);
    let also_near = p2(-3, -4);

    assert_eq!(
        compare_point2_distance_squared(&anchor, &near, &far).value(),
        Some(Ordering::Less)
    );
    assert_eq!(
        compare_point2_distance_squared(&anchor, &near, &also_near).value(),
        Some(Ordering::Equal)
    );
    assert_eq!(
        compare_point2_distance_squared(&anchor, &far, &near).value(),
        Some(Ordering::Greater)
    );
}

#[test]
fn squared_distance3_comparison_avoids_square_roots() {
    let anchor = p3(0, 0, 0);
    let near = p3(1, 2, 2);
    let far = p3(2, 4, 4);
    let also_near = p3(-1, -2, -2);

    assert_eq!(
        compare_point3_distance_squared(&anchor, &near, &far).value(),
        Some(Ordering::Less)
    );
    assert_eq!(
        compare_point3_distance_squared(&anchor, &near, &also_near).value(),
        Some(Ordering::Equal)
    );
    assert_eq!(
        compare_point3_distance_squared(&anchor, &far, &near).value(),
        Some(Ordering::Greater)
    );
}

#[test]
fn point_sphere3_classifier_uses_squared_radius() {
    let center = p3(0, 0, 0);
    let radius_squared = Scalar::from_int(25);
    let sphere = PreparedExplicitSphere3::new(&center, &radius_squared);

    assert_eq!(sphere.center(), &center);
    assert_eq!(sphere.radius_squared(), &radius_squared);
    assert_eq!(
        classify_point_sphere3(&center, &radius_squared, &p3(1, 2, 2)).value(),
        Some(SpherePointLocation::Inside)
    );
    assert_eq!(
        sphere.classify_point(&p3(3, 4, 0)).value(),
        Some(SpherePointLocation::On)
    );
    assert_eq!(
        sphere.classify_point(&p3(6, 0, 0)).value(),
        Some(SpherePointLocation::Outside)
    );
}
