//! Exact predicates for closed axis-aligned boxes.
//!
//! This module does not own a bounding-box data structure: callers keep their
//! own storage and certify inclusive box predicates over borrowed min/max
//! points. Boxes reduce candidate sets; final topology belongs to the
//! orientation and incidence predicates.
use vstd::prelude::*;

use crate::classify::{
    Aabb2Intersection, Aabb2PointLocation, Aabb3Intersection, Aabb3PointLocation,
    ClosedIntervalIntersection, RealIntervalLocation,
};
use crate::geometry::cleared::lemma_order4;
use crate::geometry::{aabb2_facts, aabb2_facts_sound, Aabb2Facts, Point2, Point3};
use crate::predicate::{certified, decided, DecisionTrace, PredicateOutcome, PredicatePolicy};
use crate::predicates::interval::{
    classify_closed_interval_intersection_with_policy, classify_real_closed_interval_with_policy,
    interval_intersection, interval_location, law_interval_intersection_symmetric,
    law_interval_location_endpoint_order,
};

verus! {

pub open spec fn spec_is_interval_boundary(location: RealIntervalLocation) -> bool {
    location is AtLowerEndpoint || location is AtUpperEndpoint
}

/// Location of `point` in the closed box spanned by `min` and `max`; the
/// corners may be given in either coordinate order.
pub open spec fn aabb2_point_location(min: Point2, max: Point2, point: Point2) -> Aabb2PointLocation {
    let x = interval_location(point.x, min.x, max.x);
    let y = interval_location(point.y, min.y, max.y);
    if !x.spec_is_inside_or_boundary() || !y.spec_is_inside_or_boundary() {
        Aabb2PointLocation::Outside
    } else if spec_is_interval_boundary(x) || spec_is_interval_boundary(y) {
        Aabb2PointLocation::Boundary
    } else {
        Aabb2PointLocation::Inside
    }
}

/// Location of `point` in the closed 3D box spanned by `min` and `max`.
pub open spec fn aabb3_point_location(min: Point3, max: Point3, point: Point3) -> Aabb3PointLocation {
    let x = interval_location(point.x, min.x, max.x);
    let y = interval_location(point.y, min.y, max.y);
    let z = interval_location(point.z, min.z, max.z);
    if !x.spec_is_inside_or_boundary() || !y.spec_is_inside_or_boundary()
        || !z.spec_is_inside_or_boundary() {
        Aabb3PointLocation::Outside
    } else if spec_is_interval_boundary(x) || spec_is_interval_boundary(y)
        || spec_is_interval_boundary(z) {
        Aabb3PointLocation::Boundary
    } else {
        Aabb3PointLocation::Inside
    }
}

/// Relation between two closed 2D boxes, where a box that the facts mark as
/// having zero area can only touch.
pub open spec fn aabb2_intersection_with_facts(
    first_min: Point2,
    first_max: Point2,
    second_min: Point2,
    second_max: Point2,
    first_facts: Aabb2Facts,
    second_facts: Aabb2Facts,
) -> Aabb2Intersection {
    let x = interval_intersection(first_min.x, first_max.x, second_min.x, second_max.x);
    let y = interval_intersection(first_min.y, first_max.y, second_min.y, second_max.y);
    if x is Disjoint || y is Disjoint {
        Aabb2Intersection::Disjoint
    } else if x is Touching || y is Touching || first_facts.spec_known_zero_area() == Some(true)
        || second_facts.spec_known_zero_area() == Some(true) {
        Aabb2Intersection::Touching
    } else {
        Aabb2Intersection::Overlapping
    }
}

/// Exact extent facts of the box spanned by `min` and `max`.
pub open spec fn spec_aabb2_facts(min: Point2, max: Point2) -> Aabb2Facts {
    Aabb2Facts {
        zero_width: Some(crate::geometry::order_sign(max.x, min.x) == crate::predicate::Sign::Zero),
        zero_height: Some(crate::geometry::order_sign(max.y, min.y) == crate::predicate::Sign::Zero),
    }
}

/// Relation between two closed 2D boxes.
pub open spec fn aabb2_intersection(
    first_min: Point2,
    first_max: Point2,
    second_min: Point2,
    second_max: Point2,
) -> Aabb2Intersection {
    aabb2_intersection_with_facts(
        first_min,
        first_max,
        second_min,
        second_max,
        spec_aabb2_facts(first_min, first_max),
        spec_aabb2_facts(second_min, second_max),
    )
}

/// Relation between two closed 3D boxes.
pub open spec fn aabb3_intersection(
    first_min: Point3,
    first_max: Point3,
    second_min: Point3,
    second_max: Point3,
) -> Aabb3Intersection {
    let x = interval_intersection(first_min.x, first_max.x, second_min.x, second_max.x);
    let y = interval_intersection(first_min.y, first_max.y, second_min.y, second_max.y);
    let z = interval_intersection(first_min.z, first_max.z, second_min.z, second_max.z);
    if x is Disjoint || y is Disjoint || z is Disjoint {
        Aabb3Intersection::Disjoint
    } else if x is Touching || y is Touching || z is Touching {
        Aabb3Intersection::Touching
    } else {
        Aabb3Intersection::Overlapping
    }
}

/// Reusable exact predicates for one closed 2D axis-aligned box.
///
/// Stores borrowed corners plus their [`Aabb2Facts`]; ownership of box ids,
/// hierarchy links and sweep events stays with the caller.
#[derive(Clone, Copy, Debug)]
pub struct PreparedAabb2<'a> {
    min: &'a Point2,
    max: &'a Point2,
    facts: Aabb2Facts,
}

impl<'a> PreparedAabb2<'a> {
    pub closed spec fn spec_min(&self) -> Point2 {
        *self.min
    }

    pub closed spec fn spec_max(&self) -> Point2 {
        *self.max
    }

    pub closed spec fn spec_facts(&self) -> Aabb2Facts {
        self.facts
    }

    /// Prepares a box and computes its extent facts.
    pub fn new(min: &'a Point2, max: &'a Point2) -> (r: Self)
        ensures
            r.spec_min() == *min,
            r.spec_max() == *max,
            r.spec_facts() == spec_aabb2_facts(*min, *max),
    {
        Self::from_facts(min, max, aabb2_facts(min, max))
    }

    /// Prepares a box from caller-cached facts for the same corners.
    pub fn from_facts(min: &'a Point2, max: &'a Point2, facts: Aabb2Facts) -> (r: Self)
        ensures
            r.spec_min() == *min,
            r.spec_max() == *max,
            r.spec_facts() == facts,
    {
        Self { min, max, facts }
    }

    /// The borrowed minimum corner.
    pub fn min(&self) -> (r: &'a Point2)
        ensures
            *r == self.spec_min(),
    {
        self.min
    }

    /// The borrowed maximum corner.
    pub fn max(&self) -> (r: &'a Point2)
        ensures
            *r == self.spec_max(),
    {
        self.max
    }

    /// The cached extent facts.
    pub fn facts(&self) -> (r: Aabb2Facts)
        ensures
            r == self.spec_facts(),
    {
        self.facts
    }

    /// Classifies a point against this box under the default policy.
    pub fn classify_point(&self, point: &Point2) -> (r: PredicateOutcome<Aabb2PointLocation>)
        ensures
            r == certified(aabb2_point_location(self.spec_min(), self.spec_max(), *point)),
    {
        self.classify_point_with_policy(point, PredicatePolicy::default())
    }

    /// Classifies a point against this box.
    pub fn classify_point_with_policy(&self, point: &Point2, policy: PredicatePolicy) -> (r:
        PredicateOutcome<Aabb2PointLocation>)
        ensures
            r == certified(aabb2_point_location(self.spec_min(), self.spec_max(), *point)),
    {
        classify_point_aabb2_with_policy(self.min, self.max, point, policy)
    }

    /// Whether a point lies in this box, under the default policy.
    pub fn contains_point(&self, point: &Point2) -> (r: PredicateOutcome<bool>)
        ensures
            r == certified(
                aabb2_point_location(self.spec_min(), self.spec_max(), *point).spec_is_inside_or_boundary(),
            ),
    {
        self.contains_point_with_policy(point, PredicatePolicy::default())
    }

    /// Whether a point lies in this box.
    pub fn contains_point_with_policy(&self, point: &Point2, policy: PredicatePolicy) -> (r:
        PredicateOutcome<bool>)
        ensures
            r == certified(
                aabb2_point_location(self.spec_min(), self.spec_max(), *point).spec_is_inside_or_boundary(),
            ),
    {
        point_in_aabb2_with_policy(self.min, self.max, point, policy)
    }

    /// Relation between this box and another, under the default policy.
    pub fn classify_intersection(&self, other: &PreparedAabb2) -> (r: PredicateOutcome<
        Aabb2Intersection,
    >)
        ensures
            r == certified(
                aabb2_intersection_with_facts(
                    self.spec_min(),
                    self.spec_max(),
                    other.spec_min(),
                    other.spec_max(),
                    self.spec_facts(),
                    other.spec_facts(),
                ),
            ),
    {
        self.classify_intersection_with_policy(other, PredicatePolicy::default())
    }

    /// Relation between this box and another, certified by exact interval
    /// classification on each axis.
    pub fn classify_intersection_with_policy(&self, other: &PreparedAabb2, policy: PredicatePolicy) -> (r:
        PredicateOutcome<Aabb2Intersection>)
        ensures
            r == certified(
                aabb2_intersection_with_facts(
                    self.spec_min(),
                    self.spec_max(),
                    other.spec_min(),
                    other.spec_max(),
                    self.spec_facts(),
                    other.spec_facts(),
                ),
            ),
    {
        classify_aabb2_intersection_with_policy_and_facts(
            self.min,
            self.max,
            other.min,
            other.max,
            policy,
            self.facts,
            other.facts,
        )
    }

    /// Whether this box meets another, under the default policy.
    pub fn intersects(&self, other: &PreparedAabb2) -> (r: PredicateOutcome<bool>)
        ensures
            r == certified(
                aabb2_intersection_with_facts(
                    self.spec_min(),
                    self.spec_max(),
                    other.spec_min(),
                    other.spec_max(),
                    self.spec_facts(),
                    other.spec_facts(),
                ).spec_intersects(),
            ),
    {
        self.intersects_with_policy(other, PredicatePolicy::default())
    }

    /// Whether this box meets another.
    pub fn intersects_with_policy(&self, other: &PreparedAabb2, policy: PredicatePolicy) -> (r:
        PredicateOutcome<bool>)
        ensures
            r == certified(
                aabb2_intersection_with_facts(
                    self.spec_min(),
                    self.spec_max(),
                    other.spec_min(),
                    other.spec_max(),
                    self.spec_facts(),
                    other.spec_facts(),
                ).spec_intersects(),
            ),
    {
        match self.classify_intersection_with_policy(other, policy) {
            PredicateOutcome::Decided { value, certainty, stage } => PredicateOutcome::decided(
                value.intersects(),
                certainty,
                stage,
            ),
            PredicateOutcome::Unknown { needed, stage } => PredicateOutcome::unknown(needed, stage),
        }
    }
}

/// Reusable exact predicates for one closed 3D axis-aligned box.
#[derive(Clone, Copy, Debug)]
pub struct PreparedAabb3<'a> {
    min: &'a Point3,
    max: &'a Point3,
}

impl<'a> PreparedAabb3<'a> {
    pub closed spec fn spec_min(&self) -> Point3 {
        *self.min
    }

    pub closed spec fn spec_max(&self) -> Point3 {
        *self.max
    }

    /// Prepares a 3D box.
    pub fn new(min: &'a Point3, max: &'a Point3) -> (r: Self)
        ensures
            r.spec_min() == *min,
            r.spec_max() == *max,
    {
        Self { min, max }
    }

    /// The borrowed minimum corner.
    pub fn min(&self) -> (r: &'a Point3)
        ensures
            *r == self.spec_min(),
    {
        self.min
    }

    /// The borrowed maximum corner.
    pub fn max(&self) -> (r: &'a Point3)
        ensures
            *r == self.spec_max(),
    {
        self.max
    }

    /// Classifies a point against this box under the default policy.
    pub fn classify_point(&self, point: &Point3) -> (r: PredicateOutcome<Aabb3PointLocation>)
        ensures
            r == certified(aabb3_point_location(self.spec_min(), self.spec_max(), *point)),
    {
        self.classify_point_with_policy(point, PredicatePolicy::default())
    }

    /// Classifies a point against this box.
    pub fn classify_point_with_policy(&self, point: &Point3, policy: PredicatePolicy) -> (r:
        PredicateOutcome<Aabb3PointLocation>)
        ensures
            r == certified(aabb3_point_location(self.spec_min(), self.spec_max(), *point)),
    {
        classify_point_aabb3_with_policy(self.min, self.max, point, policy)
    }

    /// Whether a point lies in this box, under the default policy.
    pub fn contains_point(&self, point: &Point3) -> (r: PredicateOutcome<bool>)
        ensures
            r == certified(
                aabb3_point_location(self.spec_min(), self.spec_max(), *point).spec_is_inside_or_boundary(),
            ),
    {
        self.contains_point_with_policy(point, PredicatePolicy::default())
    }

    /// Whether a point lies in this box.
    pub fn contains_point_with_policy(&self, point: &Point3, policy: PredicatePolicy) -> (r:
        PredicateOutcome<bool>)
        ensures
            r == certified(
                aabb3_point_location(self.spec_min(), self.spec_max(), *point).spec_is_inside_or_boundary(),
            ),
    {
        point_in_aabb3_with_policy(self.min, self.max, point, policy)
    }

    /// Relation between this box and another, under the default policy.
    pub fn classify_intersection(&self, other: &PreparedAabb3) -> (r: PredicateOutcome<
        Aabb3Intersection,
    >)
        ensures
            r == certified(
                aabb3_intersection(self.spec_min(), self.spec_max(), other.spec_min(), other.spec_max()),
            ),
    {
        self.classify_intersection_with_policy(other, PredicatePolicy::default())
    }

    /// Relation between this box and another.
    pub fn classify_intersection_with_policy(&self, other: &PreparedAabb3, policy: PredicatePolicy) -> (r:
        PredicateOutcome<Aabb3Intersection>)
        ensures
            r == certified(
                aabb3_intersection(self.spec_min(), self.spec_max(), other.spec_min(), other.spec_max()),
            ),
    {
        classify_aabb3_intersection_with_policy(self.min, self.max, other.min, other.max, policy)
    }

    /// Whether this box meets another, under the default policy.
    pub fn intersects(&self, other: &PreparedAabb3) -> (r: PredicateOutcome<bool>)
        ensures
            r == certified(
                aabb3_intersection(
                    self.spec_min(),
                    self.spec_max(),
                    other.spec_min(),
                    other.spec_max(),
                ).spec_intersects(),
            ),
    {
        self.intersects_with_policy(other, PredicatePolicy::default())
    }

    /// Whether this box meets another.
    pub fn intersects_with_policy(&self, other: &PreparedAabb3, policy: PredicatePolicy) -> (r:
        PredicateOutcome<bool>)
        ensures
            r == certified(
                aabb3_intersection(
                    self.spec_min(),
                    self.spec_max(),
                    other.spec_min(),
                    other.spec_max(),
                ).spec_intersects(),
            ),
    {
        match self.classify_intersection_with_policy(other, policy) {
            PredicateOutcome::Decided { value, certainty, stage } => PredicateOutcome::decided(
                value.intersects(),
                certainty,
                stage,
            ),
            PredicateOutcome::Unknown { needed, stage } => PredicateOutcome::unknown(needed, stage),
        }
    }
}

/// Classifies a point against a closed 2D box.
pub fn classify_point_aabb2(min: &Point2, max: &Point2, point: &Point2) -> (r: PredicateOutcome<
    Aabb2PointLocation,
>)
    ensures
        r == certified(aabb2_point_location(*min, *max, *point)),
{
    classify_point_aabb2_with_policy(min, max, point, PredicatePolicy::default())
}

/// Classifies a point against a closed 2D box; the corners may be supplied in
/// either coordinate order, each axis being normalized by exact interval
/// predicates.
pub fn classify_point_aabb2_with_policy(
    min: &Point2,
    max: &Point2,
    point: &Point2,
    policy: PredicatePolicy,
) -> (r: PredicateOutcome<Aabb2PointLocation>)
    ensures
        r == certified(aabb2_point_location(*min, *max, *point)),
{
    let mut trace = DecisionTrace::start();
    let x = match decided(
        classify_real_closed_interval_with_policy(&point.x, &min.x, &max.x, policy),
        &mut trace,
    ) {
        Ok(location) => location,
        Err(unknown) => return unknown.into_outcome(),
    };
    if !x.is_inside_or_boundary() {
        return PredicateOutcome::decided(Aabb2PointLocation::Outside, trace.certainty, trace.stage);
    }
    let y = match decided(
        classify_real_closed_interval_with_policy(&point.y, &min.y, &max.y, policy),
        &mut trace,
    ) {
        Ok(location) => location,
        Err(unknown) => return unknown.into_outcome(),
    };
    if !y.is_inside_or_boundary() {
        return PredicateOutcome::decided(Aabb2PointLocation::Outside, trace.certainty, trace.stage);
    }
    let location = if is_interval_boundary(x) || is_interval_boundary(y) {
        Aabb2PointLocation::Boundary
    } else {
        Aabb2PointLocation::Inside
    };
    PredicateOutcome::decided(location, trace.certainty, trace.stage)
}

/// Whether a point lies in a closed 2D box.
pub fn point_in_aabb2(min: &Point2, max: &Point2, point: &Point2) -> (r: PredicateOutcome<bool>)
    ensures
        r == certified(aabb2_point_location(*min, *max, *point).spec_is_inside_or_boundary()),
{
    point_in_aabb2_with_policy(min, max, point, PredicatePolicy::default())
}

/// Whether a point lies in a closed 2D box.
pub fn point_in_aabb2_with_policy(
    min: &Point2,
    max: &Point2,
    point: &Point2,
    policy: PredicatePolicy,
) -> (r: PredicateOutcome<bool>)
    ensures
        r == certified(aabb2_point_location(*min, *max, *point).spec_is_inside_or_boundary()),
{
    match classify_point_aabb2_with_policy(min, max, point, policy) {
        PredicateOutcome::Decided { value, certainty, stage } => PredicateOutcome::decided(
            value.is_inside_or_boundary(),
            certainty,
            stage,
        ),
        PredicateOutcome::Unknown { needed, stage } => PredicateOutcome::unknown(needed, stage),
    }
}

/// Classifies a point against a closed 3D box.
pub fn classify_point_aabb3(min: &Point3, max: &Point3, point: &Point3) -> (r: PredicateOutcome<
    Aabb3PointLocation,
>)
    ensures
        r == certified(aabb3_point_location(*min, *max, *point)),
{
    classify_point_aabb3_with_policy(min, max, point, PredicatePolicy::default())
}

/// Classifies a point against a closed 3D box; the corners may be supplied in
/// either coordinate order.
pub fn classify_point_aabb3_with_policy(
    min: &Point3,
    max: &Point3,
    point: &Point3,
    policy: PredicatePolicy,
) -> (r: PredicateOutcome<Aabb3PointLocation>)
    ensures
        r == certified(aabb3_point_location(*min, *max, *point)),
{
    let mut trace = DecisionTrace::start();
    let x = match decided(
        classify_real_closed_interval_with_policy(&point.x, &min.x, &max.x, policy),
        &mut trace,
    ) {
        Ok(location) => location,
        Err(unknown) => return unknown.into_outcome(),
    };
    if !x.is_inside_or_boundary() {
        return PredicateOutcome::decided(Aabb3PointLocation::Outside, trace.certainty, trace.stage);
    }
    let y = match decided(
        classify_real_closed_interval_with_policy(&point.y, &min.y, &max.y, policy),
        &mut trace,
    ) {
        Ok(location) => location,
        Err(unknown) => return unknown.into_outcome(),
    };
    if !y.is_inside_or_boundary() {
        return PredicateOutcome::decided(Aabb3PointLocation::Outside, trace.certainty, trace.stage);
    }
    let z = match decided(
        classify_real_closed_interval_with_policy(&point.z, &min.z, &max.z, policy),
        &mut trace,
    ) {
        Ok(location) => location,
        Err(unknown) => return unknown.into_outcome(),
    };
    if !z.is_inside_or_boundary() {
        return PredicateOutcome::decided(Aabb3PointLocation::Outside, trace.certainty, trace.stage);
    }
    let location = if is_interval_boundary(x) || is_interval_boundary(y) || is_interval_boundary(z) {
        Aabb3PointLocation::Boundary
    } else {
        Aabb3PointLocation::Inside
    };
    PredicateOutcome::decided(location, trace.certainty, trace.stage)
}

/// Whether a point lies in a closed 3D box.
pub fn point_in_aabb3(min: &Point3, max: &Point3, point: &Point3) -> (r: PredicateOutcome<bool>)
    ensures
        r == certified(aabb3_point_location(*min, *max, *point).spec_is_inside_or_boundary()),
{
    point_in_aabb3_with_policy(min, max, point, PredicatePolicy::default())
}

/// Whether a point lies in a closed 3D box.
pub fn point_in_aabb3_with_policy(
    min: &Point3,
    max: &Point3,
    point: &Point3,
    policy: PredicatePolicy,
) -> (r: PredicateOutcome<bool>)
    ensures
        r == certified(aabb3_point_location(*min, *max, *point).spec_is_inside_or_boundary()),
{
    match classify_point_aabb3_with_policy(min, max, point, policy) {
        PredicateOutcome::Decided { value, certainty, stage } => PredicateOutcome::decided(
            value.is_inside_or_boundary(),
            certainty,
            stage,
        ),
        PredicateOutcome::Unknown { needed, stage } => PredicateOutcome::unknown(needed, stage),
    }
}

/// Relation between two closed 2D boxes.
pub fn classify_aabb2_intersection(
    first_min: &Point2,
    first_max: &Point2,
    second_min: &Point2,
    second_max: &Point2,
) -> (r: PredicateOutcome<Aabb2Intersection>)
    ensures
        r == certified(aabb2_intersection(*first_min, *first_max, *second_min, *second_max)),
{
    classify_aabb2_intersection_with_policy(
        first_min,
        first_max,
        second_min,
        second_max,
        PredicatePolicy::default(),
    )
}

/// Relation between two closed 2D boxes. `Touching` covers edge and corner
/// contact with zero area; `Overlapping` means an intersection of positive
/// area.
pub fn classify_aabb2_intersection_with_policy(
    first_min: &Point2,
    first_max: &Point2,
    second_min: &Point2,
    second_max: &Point2,
    policy: PredicatePolicy,
) -> (r: PredicateOutcome<Aabb2Intersection>)
    ensures
        r == certified(aabb2_intersection(*first_min, *first_max, *second_min, *second_max)),
{
    classify_aabb2_intersection_with_policy_and_facts(
        first_min,
        first_max,
        second_min,
        second_max,
        policy,
        aabb2_facts(first_min, first_max),
        aabb2_facts(second_min, second_max),
    )
}

/// Relation between two closed 2D boxes with caller-cached extent facts.
///
/// The facts are used only after exact interval predicates show both axes
/// meet: a box with zero area cannot meet another over positive area.
pub fn classify_aabb2_intersection_with_facts(
    first_min: &Point2,
    first_max: &Point2,
    second_min: &Point2,
    second_max: &Point2,
    first_facts: Aabb2Facts,
    second_facts: Aabb2Facts,
) -> (r: PredicateOutcome<Aabb2Intersection>)
    ensures
        r == certified(
            aabb2_intersection_with_facts(
                *first_min,
                *first_max,
                *second_min,
                *second_max,
                first_facts,
                second_facts,
            ),
        ),
{
    classify_aabb2_intersection_with_policy_and_facts(
        first_min,
        first_max,
        second_min,
        second_max,
        PredicatePolicy::default(),
        first_facts,
        second_facts,
    )
}

/// Relation between two closed 2D boxes with an explicit policy and
/// caller-cached extent facts.
pub fn classify_aabb2_intersection_with_policy_and_facts(
    first_min: &Point2,
    first_max: &Point2,
    second_min: &Point2,
    second_max: &Point2,
    policy: PredicatePolicy,
    first_facts: Aabb2Facts,
    second_facts: Aabb2Facts,
) -> (r: PredicateOutcome<Aabb2Intersection>)
    ensures
        r == certified(
            aabb2_intersection_with_facts(
                *first_min,
                *first_max,
                *second_min,
                *second_max,
                first_facts,
                second_facts,
            ),
        ),
{
    let mut trace = DecisionTrace::start();
    let x = match decided(
        classify_closed_interval_intersection_with_policy(
            &first_min.x,
            &first_max.x,
            &second_min.x,
            &second_max.x,
            policy,
        ),
        &mut trace,
    ) {
        Ok(intersection) => intersection,
        Err(unknown) => return unknown.into_outcome(),
    };
    if matches!(x, ClosedIntervalIntersection::Disjoint) {
        return PredicateOutcome::decided(Aabb2Intersection::Disjoint, trace.certainty, trace.stage);
    }
    let y = match decided(
        classify_closed_interval_intersection_with_policy(
            &first_min.y,
            &first_max.y,
            &second_min.y,
            &second_max.y,
            policy,
        ),
        &mut trace,
    ) {
        Ok(intersection) => intersection,
        Err(unknown) => return unknown.into_outcome(),
    };
    if matches!(y, ClosedIntervalIntersection::Disjoint) {
        return PredicateOutcome::decided(Aabb2Intersection::Disjoint, trace.certainty, trace.stage);
    }
    let zero_area_input = first_facts.known_zero_area() == Some(true)
        || second_facts.known_zero_area() == Some(true);
    let relation = if matches!(x, ClosedIntervalIntersection::Touching) || matches!(
        y,
        ClosedIntervalIntersection::Touching
    ) || zero_area_input {
        Aabb2Intersection::Touching
    } else {
        Aabb2Intersection::Overlapping
    };
    PredicateOutcome::decided(relation, trace.certainty, trace.stage)
}

/// Whether two closed 2D boxes meet.
pub fn aabb2s_intersect(
    first_min: &Point2,
    first_max: &Point2,
    second_min: &Point2,
    second_max: &Point2,
) -> (r: PredicateOutcome<bool>)
    ensures
        r == certified(
            aabb2_intersection(*first_min, *first_max, *second_min, *second_max).spec_intersects(),
        ),
{
    aabb2s_intersect_with_policy(
        first_min,
        first_max,
        second_min,
        second_max,
        PredicatePolicy::default(),
    )
}

/// Whether two closed 2D boxes meet.
pub fn aabb2s_intersect_with_policy(
    first_min: &Point2,
    first_max: &Point2,
    second_min: &Point2,
    second_max: &Point2,
    policy: PredicatePolicy,
) -> (r: PredicateOutcome<bool>)
    ensures
        r == certified(
            aabb2_intersection(*first_min, *first_max, *second_min, *second_max).spec_intersects(),
        ),
{
    match classify_aabb2_intersection_with_policy(first_min, first_max, second_min, second_max, policy) {
        PredicateOutcome::Decided { value, certainty, stage } => PredicateOutcome::decided(
            value.intersects(),
            certainty,
            stage,
        ),
        PredicateOutcome::Unknown { needed, stage } => PredicateOutcome::unknown(needed, stage),
    }
}

/// Relation between two closed 3D boxes.
pub fn classify_aabb3_intersection(
    first_min: &Point3,
    first_max: &Point3,
    second_min: &Point3,
    second_max: &Point3,
) -> (r: PredicateOutcome<Aabb3Intersection>)
    ensures
        r == certified(aabb3_intersection(*first_min, *first_max, *second_min, *second_max)),
{
    classify_aabb3_intersection_with_policy(
        first_min,
        first_max,
        second_min,
        second_max,
        PredicatePolicy::default(),
    )
}

/// Relation between two closed 3D boxes: a certified broad-phase predicate
/// where `Disjoint` may reject a pair and the other results remain candidates
/// for exact narrow-phase predicates.
pub fn classify_aabb3_intersection_with_policy(
    first_min: &Point3,
    first_max: &Point3,
    second_min: &Point3,
    second_max: &Point3,
    policy: PredicatePolicy,
) -> (r: PredicateOutcome<Aabb3Intersection>)
    ensures
        r == certified(aabb3_intersection(*first_min, *first_max, *second_min, *second_max)),
{
    let mut trace = DecisionTrace::start();
    let x = match decided(
        classify_closed_interval_intersection_with_policy(
            &first_min.x,
            &first_max.x,
            &second_min.x,
            &second_max.x,
            policy,
        ),
        &mut trace,
    ) {
        Ok(intersection) => intersection,
        Err(unknown) => return unknown.into_outcome(),
    };
    if matches!(x, ClosedIntervalIntersection::Disjoint) {
        return PredicateOutcome::decided(Aabb3Intersection::Disjoint, trace.certainty, trace.stage);
    }
    let y = match decided(
        classify_closed_interval_intersection_with_policy(
            &first_min.y,
            &first_max.y,
            &second_min.y,
            &second_max.y,
            policy,
        ),
        &mut trace,
    ) {
        Ok(intersection) => intersection,
        Err(unknown) => return unknown.into_outcome(),
    };
    if matches!(y, ClosedIntervalIntersection::Disjoint) {
        return PredicateOutcome::decided(Aabb3Intersection::Disjoint, trace.certainty, trace.stage);
    }
    let z = match decided(
        classify_closed_interval_intersection_with_policy(
            &first_min.z,
            &first_max.z,
            &second_min.z,
            &second_max.z,
            policy,
        ),
        &mut trace,
    ) {
        Ok(intersection) => intersection,
        Err(unknown) => return unknown.into_outcome(),
    };
    if matches!(z, ClosedIntervalIntersection::Disjoint) {
        return PredicateOutcome::decided(Aabb3Intersection::Disjoint, trace.certainty, trace.stage);
    }
    let relation = if matches!(x, ClosedIntervalIntersection::Touching) || matches!(
        y,
        ClosedIntervalIntersection::Touching
    ) || matches!(z, ClosedIntervalIntersection::Touching) {
        Aabb3Intersection::Touching
    } else {
        Aabb3Intersection::Overlapping
    };
    PredicateOutcome::decided(relation, trace.certainty, trace.stage)
}

/// Whether two closed 3D boxes meet.
pub fn aabb3s_intersect(
    first_min: &Point3,
    first_max: &Point3,
    second_min: &Point3,
    second_max: &Point3,
) -> (r: PredicateOutcome<bool>)
    ensures
        r == certified(
            aabb3_intersection(*first_min, *first_max, *second_min, *second_max).spec_intersects(),
        ),
{
    aabb3s_intersect_with_policy(
        first_min,
        first_max,
        second_min,
        second_max,
        PredicatePolicy::default(),
    )
}

/// Whether two closed 3D boxes meet.
pub fn aabb3s_intersect_with_policy(
    first_min: &Point3,
    first_max: &Point3,
    second_min: &Point3,
    second_max: &Point3,
    policy: PredicatePolicy,
) -> (r: PredicateOutcome<bool>)
    ensures
        r == certified(
            aabb3_intersection(*first_min, *first_max, *second_min, *second_max).spec_intersects(),
        ),
{
    match classify_aabb3_intersection_with_policy(first_min, first_max, second_min, second_max, policy) {
        PredicateOutcome::Decided { value, certainty, stage } => PredicateOutcome::decided(
            value.intersects(),
            certainty,
            stage,
        ),
        PredicateOutcome::Unknown { needed, stage } => PredicateOutcome::unknown(needed, stage),
    }
}

fn is_interval_boundary(location: RealIntervalLocation) -> (r: bool)
    ensures
        r == spec_is_interval_boundary(location),
{
    matches!(location, RealIntervalLocation::AtLowerEndpoint | RealIntervalLocation::AtUpperEndpoint)
}

/// A point's location in a 2D box does not depend on which corner is given
/// first.
pub proof fn law_aabb2_point_corner_order(min: Point2, max: Point2, point: Point2)
    requires
        min.well_formed(),
        max.well_formed(),
        point.well_formed(),
    ensures
        aabb2_point_location(max, min, point) == aabb2_point_location(min, max, point),
{
    law_interval_location_endpoint_order(point.x, min.x, max.x);
    law_interval_location_endpoint_order(point.y, min.y, max.y);
}

/// A point's location in a 3D box does not depend on which corner is given
/// first.
pub proof fn law_aabb3_point_corner_order(min: Point3, max: Point3, point: Point3)
    requires
        min.well_formed(),
        max.well_formed(),
        point.well_formed(),
    ensures
        aabb3_point_location(max, min, point) == aabb3_point_location(min, max, point),
{
    law_interval_location_endpoint_order(point.x, min.x, max.x);
    law_interval_location_endpoint_order(point.y, min.y, max.y);
    law_interval_location_endpoint_order(point.z, min.z, max.z);
}

/// The relation between two 2D boxes is symmetric.
pub proof fn law_aabb2_intersection_symmetric(
    first_min: Point2,
    first_max: Point2,
    second_min: Point2,
    second_max: Point2,
)
    requires
        first_min.well_formed(),
        first_max.well_formed(),
        second_min.well_formed(),
        second_max.well_formed(),
    ensures
        aabb2_intersection(second_min, second_max, first_min, first_max) == aabb2_intersection(
            first_min,
            first_max,
            second_min,
            second_max,
        ),
{
    law_interval_intersection_symmetric(first_min.x, first_max.x, second_min.x, second_max.x);
    law_interval_intersection_symmetric(first_min.y, first_max.y, second_min.y, second_max.y);
}

/// The relation between two 3D boxes is symmetric.
pub proof fn law_aabb3_intersection_symmetric(
    first_min: Point3,
    first_max: Point3,
    second_min: Point3,
    second_max: Point3,
)
    requires
        first_min.well_formed(),
        first_max.well_formed(),
        second_min.well_formed(),
        second_max.well_formed(),
    ensures
        aabb3_intersection(second_min, second_max, first_min, first_max) == aabb3_intersection(
            first_min,
            first_max,
            second_min,
            second_max,
        ),
{
    law_interval_intersection_symmetric(first_min.x, first_max.x, second_min.x, second_max.x);
    law_interval_intersection_symmetric(first_min.y, first_max.y, second_min.y, second_max.y);
    law_interval_intersection_symmetric(first_min.z, first_max.z, second_min.z, second_max.z);
}

/// Sound extent facts never change the relation between two 2D boxes.
pub proof fn law_aabb2_facts_agree(
    first_min: Point2,
    first_max: Point2,
    second_min: Point2,
    second_max: Point2,
    first_facts: Aabb2Facts,
    second_facts: Aabb2Facts,
)
    requires
        first_min.well_formed(),
        first_max.well_formed(),
        second_min.well_formed(),
        second_max.well_formed(),
        aabb2_facts_sound(first_facts, first_min, first_max),
        aabb2_facts_sound(second_facts, second_min, second_max),
    ensures
        aabb2_intersection_with_facts(
            first_min,
            first_max,
            second_min,
            second_max,
            first_facts,
            second_facts,
        ) == aabb2_intersection(first_min, first_max, second_min, second_max),
{
    lemma_order4(first_min.x, first_max.x, second_min.x, second_max.x);
    lemma_order4(first_min.y, first_max.y, second_min.y, second_max.y);
}

} // verus!
