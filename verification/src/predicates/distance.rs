//! Exact point-distance comparison predicates.
//!
//! Distances are compared through squared Euclidean distances, so no square
//! root is ever constructed.
use vstd::prelude::*;
use std::cmp::Ordering;

use crate::classify::SpherePointLocation;
use crate::exact::{lemma_rat_sub_antisymmetric, add_ref, mul_ref, rat_add, rat_mul, rat_sign, rat_sub, real_of, scalar_difference, ExactReal, Rat, Scalar};
use crate::geometry::{diff, Point2, Point3};
use crate::predicate::{certified, PredicateOutcome, PredicatePolicy, Sign};
use crate::predicates::order::{compare_reals_with_policy, ordering_of_sign};

verus! {

/// `|right - left|^2` in the plane.
pub open spec fn squared_distance2_rat(left: Point2, right: Point2) -> Rat {
    let dx = diff(right.x, left.x);
    let dy = diff(right.y, left.y);
    rat_add(rat_mul(dx, dx), rat_mul(dy, dy))
}

/// `|right - left|^2` in space.
pub open spec fn squared_distance3_rat(left: Point3, right: Point3) -> Rat {
    let dx = diff(right.x, left.x);
    let dy = diff(right.y, left.y);
    let dz = diff(right.z, left.z);
    rat_add(rat_add(rat_mul(dx, dx), rat_mul(dy, dy)), rat_mul(dz, dz))
}

/// How `|anchor - left|^2` compares with `|anchor - right|^2`.
pub open spec fn distance2_order(anchor: Point2, left: Point2, right: Point2) -> Ordering {
    ordering_of_sign(
        rat_sign(rat_sub(squared_distance2_rat(anchor, left), squared_distance2_rat(anchor, right))),
    )
}

/// How `|anchor - left|^2` compares with `|anchor - right|^2` in space.
pub open spec fn distance3_order(anchor: Point3, left: Point3, right: Point3) -> Ordering {
    ordering_of_sign(
        rat_sign(rat_sub(squared_distance3_rat(anchor, left), squared_distance3_rat(anchor, right))),
    )
}

/// Location of `point` against the sphere with `center` and squared radius
/// `radius_squared`.
pub open spec fn sphere_point_location(center: Point3, radius_squared: Scalar, point: Point3) -> SpherePointLocation {
    match rat_sign(rat_sub(squared_distance3_rat(center, point), radius_squared.rat())) {
        Sign::Negative => SpherePointLocation::Inside,
        Sign::Zero => SpherePointLocation::On,
        Sign::Positive => SpherePointLocation::Outside,
    }
}

/// Reusable classifier for an explicit 3D sphere.
#[derive(Clone, Copy, Debug)]
pub struct PreparedExplicitSphere3<'a> {
    center: &'a Point3,
    radius_squared: &'a Scalar,
}

impl<'a> PreparedExplicitSphere3<'a> {
    pub closed spec fn spec_center(&self) -> Point3 {
        *self.center
    }

    pub closed spec fn spec_radius_squared(&self) -> Scalar {
        *self.radius_squared
    }

    /// Prepares a sphere from its center and squared radius.
    pub fn new(center: &'a Point3, radius_squared: &'a Scalar) -> (r: Self)
        ensures
            r.spec_center() == *center,
            r.spec_radius_squared() == *radius_squared,
    {
        Self { center, radius_squared }
    }

    /// The borrowed center.
    pub fn center(&self) -> (r: &'a Point3)
        ensures
            *r == self.spec_center(),
    {
        self.center
    }

    /// The borrowed squared radius.
    pub fn radius_squared(&self) -> (r: &'a Scalar)
        ensures
            *r == self.spec_radius_squared(),
    {
        self.radius_squared
    }

    /// Classifies a point under the default policy.
    pub fn classify_point(&self, point: &Point3) -> (r: PredicateOutcome<SpherePointLocation>)
        ensures
            r == certified(
                sphere_point_location(self.spec_center(), self.spec_radius_squared(), *point),
            ),
    {
        self.classify_point_with_policy(point, PredicatePolicy::default())
    }

    /// Classifies a point.
    pub fn classify_point_with_policy(&self, point: &Point3, policy: PredicatePolicy) -> (r:
        PredicateOutcome<SpherePointLocation>)
        ensures
            r == certified(
                sphere_point_location(self.spec_center(), self.spec_radius_squared(), *point),
            ),
    {
        classify_point_sphere3_with_policy(self.center, self.radius_squared, point, policy)
    }
}

/// Compares the squared distances from `anchor` to `left` and to `right`.
pub fn compare_point2_distance_squared(anchor: &Point2, left: &Point2, right: &Point2) -> (r:
    PredicateOutcome<Ordering>)
    ensures
        r == certified(distance2_order(*anchor, *left, *right)),
{
    compare_point2_distance_squared_with_policy(anchor, left, right, PredicatePolicy::default())
}

/// Compares the squared distances from `anchor` to `left` and to `right`,
/// certifying the sign of `|anchor-left|^2 - |anchor-right|^2`.
pub fn compare_point2_distance_squared_with_policy(
    anchor: &Point2,
    left: &Point2,
    right: &Point2,
    policy: PredicatePolicy,
) -> (r: PredicateOutcome<Ordering>)
    ensures
        r == certified(distance2_order(*anchor, *left, *right)),
{
    let left_distance = squared_distance2(anchor, left);
    let right_distance = squared_distance2(anchor, right);
    compare_reals_with_policy(&left_distance, &right_distance, policy)
}

/// Compares the squared 3D distances from `anchor` to `left` and to `right`.
pub fn compare_point3_distance_squared(anchor: &Point3, left: &Point3, right: &Point3) -> (r:
    PredicateOutcome<Ordering>)
    ensures
        r == certified(distance3_order(*anchor, *left, *right)),
{
    compare_point3_distance_squared_with_policy(anchor, left, right, PredicatePolicy::default())
}

/// Compares the squared 3D distances from `anchor` to `left` and to `right`.
pub fn compare_point3_distance_squared_with_policy(
    anchor: &Point3,
    left: &Point3,
    right: &Point3,
    policy: PredicatePolicy,
) -> (r: PredicateOutcome<Ordering>)
    ensures
        r == certified(distance3_order(*anchor, *left, *right)),
{
    let left_distance = squared_distance3(anchor, left);
    let right_distance = squared_distance3(anchor, right);
    compare_reals_with_policy(&left_distance, &right_distance, policy)
}

/// Classifies a point against an explicit sphere given by its squared radius.
pub fn classify_point_sphere3(center: &Point3, radius_squared: &Scalar, point: &Point3) -> (r:
    PredicateOutcome<SpherePointLocation>)
    ensures
        r == certified(sphere_point_location(*center, *radius_squared, *point)),
{
    classify_point_sphere3_with_policy(center, radius_squared, point, PredicatePolicy::default())
}

/// Classifies a point against an explicit sphere given by its squared radius;
/// whether the radius is meaningful stays with the caller that owns the
/// sphere.
pub fn classify_point_sphere3_with_policy(
    center: &Point3,
    radius_squared: &Scalar,
    point: &Point3,
    policy: PredicatePolicy,
) -> (r: PredicateOutcome<SpherePointLocation>)
    ensures
        r == certified(sphere_point_location(*center, *radius_squared, *point)),
{
    let distance_squared = squared_distance3(center, point);
    let radius = real_of(radius_squared);
    match compare_reals_with_policy(&distance_squared, &radius, policy) {
        PredicateOutcome::Decided { value, certainty, stage } => {
            let location = match value {
                Ordering::Less => SpherePointLocation::Inside,
                Ordering::Equal => SpherePointLocation::On,
                Ordering::Greater => SpherePointLocation::Outside,
            };
            PredicateOutcome::decided(location, certainty, stage)
        },
        PredicateOutcome::Unknown { needed, stage } => PredicateOutcome::unknown(needed, stage),
    }
}

fn squared_distance2(left: &Point2, right: &Point2) -> (r: ExactReal)
    ensures
        r.rat() == squared_distance2_rat(*left, *right),
{
    let dx = scalar_difference(&right.x, &left.x);
    let dy = scalar_difference(&right.y, &left.y);
    add_ref(&mul_ref(&dx, &dx), &mul_ref(&dy, &dy))
}

fn squared_distance3(left: &Point3, right: &Point3) -> (r: ExactReal)
    ensures
        r.rat() == squared_distance3_rat(*left, *right),
{
    let dx = scalar_difference(&right.x, &left.x);
    let dy = scalar_difference(&right.y, &left.y);
    let dz = scalar_difference(&right.z, &left.z);
    let xy = add_ref(&mul_ref(&dx, &dx), &mul_ref(&dy, &dy));
    add_ref(&xy, &mul_ref(&dz, &dz))
}

/// Comparing the distances to `left` and `right` is the reverse of comparing
/// those to `right` and `left`.
pub proof fn law_distance2_order_antisymmetric(anchor: Point2, left: Point2, right: Point2)
    ensures
        distance2_order(anchor, right, left) == match distance2_order(anchor, left, right) {
            Ordering::Less => Ordering::Greater,
            Ordering::Equal => Ordering::Equal,
            Ordering::Greater => Ordering::Less,
        },
{
    lemma_rat_sub_antisymmetric(squared_distance2_rat(anchor, left), squared_distance2_rat(anchor, right));
}

/// Comparing the distances to `left` and `right` in space is the reverse of
/// comparing those to `right` and `left`.
pub proof fn law_distance3_order_antisymmetric(anchor: Point3, left: Point3, right: Point3)
    ensures
        distance3_order(anchor, right, left) == match distance3_order(anchor, left, right) {
            Ordering::Less => Ordering::Greater,
            Ordering::Equal => Ordering::Equal,
            Ordering::Greater => Ordering::Less,
        },
{
    lemma_rat_sub_antisymmetric(squared_distance3_rat(anchor, left), squared_distance3_rat(anchor, right));
}

/// A point is as far from the anchor as itself.
pub proof fn law_distance_order_reflexive(anchor2: Point2, point2: Point2, anchor3: Point3, point3: Point3)
    ensures
        distance2_order(anchor2, point2, point2) == Ordering::Equal,
        distance3_order(anchor3, point3, point3) == Ordering::Equal,
{
}

} // verus!
