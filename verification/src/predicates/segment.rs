//! Segment incidence and intersection classifiers.
//!
//! The algorithms use only orientation signs and exact interval tests, so
//! segment topology is decided here while segment storage stays with callers.
use vstd::prelude::*;

use crate::classify::{PointSegmentLocation, SegmentIntersection};
use crate::exact::{mul_ref, scalar_difference, sub_ref, Scalar};
use crate::geometry::{
    cross_at, orient2d_sign, points_equal2, points_equal3, order_sign, segment2_facts, Point2, Point3,
    Segment2Facts,
};
use crate::exact::{rat_sign, Rat};
use crate::predicate::{
    certified, decided, trace_exact, DecisionTrace, PredicateOutcome, PredicatePolicy, Sign,
    UnknownDecision,
};
use crate::predicates::interval::compare_scalars;
use crate::predicates::orient::orient2d_with_policy;
use crate::resolve::resolve_real_sign;
use crate::geometry::cleared::{
    lemma_order4, lemma_orient2d_repeat, lemma_orient2d_substitute, lemma_points_equal2_trans,
    lemma_order3, lemma_orient2d_cycle, lemma_orient2d_equal_first, lemma_orient2d_swap,
    lemma_points_equal2_refl, lemma_points_equal2_symmetric,
};

verus! {

/// Whether `point` lies in the closed range between `a` and `b`.
pub open spec fn spec_between_closed(a: Scalar, b: Scalar, point: Scalar) -> bool {
    let pa = order_sign(point, a);
    let pb = order_sign(point, b);
    pa == Sign::Zero || pb == Sign::Zero || (pa == Sign::Positive && pb == Sign::Negative) || (pa
        == Sign::Negative && pb == Sign::Positive)
}

/// Location of `point` against the segment `ab`, given that it lies on the
/// supporting line.
pub open spec fn collinear_point_segment_location(a: Point2, b: Point2, point: Point2) -> PointSegmentLocation {
    if !spec_between_closed(a.x, b.x, point.x) || !spec_between_closed(a.y, b.y, point.y) {
        PointSegmentLocation::CollinearOutside
    } else if points_equal2(a, point) || points_equal2(b, point) {
        PointSegmentLocation::OnEndpoint
    } else {
        PointSegmentLocation::OnSegment
    }
}

/// Location of `point` against the closed segment `ab`.
pub open spec fn point_segment_location(a: Point2, b: Point2, point: Point2) -> PointSegmentLocation {
    if orient2d_sign(a, b, point) != Sign::Zero {
        PointSegmentLocation::OffLine
    } else {
        collinear_point_segment_location(a, b, point)
    }
}

/// Location of `point` against a segment that collapses to `endpoint`.
pub open spec fn degenerate_point_segment_location(endpoint: Point2, point: Point2) -> PointSegmentLocation {
    if points_equal2(endpoint, point) {
        PointSegmentLocation::OnEndpoint
    } else {
        PointSegmentLocation::CollinearOutside
    }
}

/// Location of `point` against `ab`, reading a degenerate segment off the facts.
pub open spec fn point_segment_location_with_facts(
    a: Point2,
    b: Point2,
    point: Point2,
    facts: Option<Segment2Facts>,
) -> PointSegmentLocation {
    if facts matches Some(f) && f.degenerate == Some(true) {
        degenerate_point_segment_location(a, point)
    } else {
        point_segment_location(a, b, point)
    }
}

/// Whether `point` lies on the closed segment `ab`, given collinearity.
pub open spec fn collinear_on_segment(a: Point2, b: Point2, point: Point2) -> bool {
    collinear_point_segment_location(a, b, point).spec_is_on_segment()
}

/// Strictly opposite signs.
pub open spec fn spec_opposite_strict(left: Sign, right: Sign) -> bool {
    (left == Sign::Positive && right == Sign::Negative) || (left == Sign::Negative && right
        == Sign::Positive)
}

/// Whether `point` equals some point of `points`.
pub open spec fn has_equal_point(points: Seq<Point2>, point: Point2) -> bool {
    exists|i: int| 0 <= i < points.len() && points_equal2(#[trigger] points[i], point)
}

/// Appends `point` unless an equal point is already present.
pub open spec fn push_unique(points: Seq<Point2>, point: Point2) -> Seq<Point2> {
    if has_equal_point(points, point) {
        points
    } else {
        points.push(point)
    }
}

/// Appends `point` when `keep` holds, without duplicating an equal point.
pub open spec fn push_unique_if(points: Seq<Point2>, keep: bool, point: Point2) -> Seq<Point2> {
    if keep {
        push_unique(points, point)
    } else {
        points
    }
}

/// The distinct endpoints of collinear segments `ab`, `cd` that lie on the
/// other segment.
pub open spec fn shared_endpoints(a: Point2, b: Point2, c: Point2, d: Point2) -> Seq<Point2> {
    let s0 = push_unique_if(Seq::empty(), collinear_on_segment(a, b, c), c);
    let s1 = push_unique_if(s0, collinear_on_segment(a, b, d), d);
    let s2 = push_unique_if(s1, collinear_on_segment(c, d, a), a);
    push_unique_if(s2, collinear_on_segment(c, d, b), b)
}

/// Relation between two collinear segments.
pub open spec fn collinear_segments_relation(a: Point2, b: Point2, c: Point2, d: Point2) -> SegmentIntersection {
    if (points_equal2(a, c) && points_equal2(b, d)) || (points_equal2(a, d) && points_equal2(b, c)) {
        SegmentIntersection::Identical
    } else {
        let shared = shared_endpoints(a, b, c, d).len();
        if shared == 0 {
            SegmentIntersection::Disjoint
        } else if shared == 1 {
            SegmentIntersection::EndpointTouch
        } else {
            SegmentIntersection::CollinearOverlap
        }
    }
}

/// The four-orientation classification of the closed segments `ab` and `cd`.
pub open spec fn segment_intersection(a: Point2, b: Point2, c: Point2, d: Point2) -> SegmentIntersection {
    let o1 = orient2d_sign(a, b, c);
    let o2 = orient2d_sign(a, b, d);
    let o3 = orient2d_sign(c, d, a);
    let o4 = orient2d_sign(c, d, b);
    if o1 == Sign::Zero && o2 == Sign::Zero && o3 == Sign::Zero && o4 == Sign::Zero {
        collinear_segments_relation(a, b, c, d)
    } else if spec_opposite_strict(o1, o2) && spec_opposite_strict(o3, o4) {
        SegmentIntersection::Proper
    } else if (o1 == Sign::Zero && collinear_on_segment(a, b, c)) || (o2 == Sign::Zero
        && collinear_on_segment(a, b, d)) || (o3 == Sign::Zero && collinear_on_segment(c, d, a)) || (
    o4 == Sign::Zero && collinear_on_segment(c, d, b)) {
        SegmentIntersection::EndpointTouch
    } else {
        SegmentIntersection::Disjoint
    }
}

/// A point-segment location read as a segment-segment relation.
pub open spec fn point_location_as_intersection(location: PointSegmentLocation) -> SegmentIntersection {
    if location.spec_is_on_segment() {
        SegmentIntersection::EndpointTouch
    } else {
        SegmentIntersection::Disjoint
    }
}

pub open spec fn facts_degenerate(facts: Option<Segment2Facts>) -> bool {
    facts matches Some(f) && f.degenerate == Some(true)
}

/// Relation between `ab` and `cd`, reducing segments that the facts mark as
/// degenerate to points.
pub open spec fn segment_intersection_with_facts(
    a: Point2,
    b: Point2,
    c: Point2,
    d: Point2,
    first_facts: Option<Segment2Facts>,
    second_facts: Option<Segment2Facts>,
) -> SegmentIntersection {
    if facts_degenerate(first_facts) && facts_degenerate(second_facts) {
        if points_equal2(a, c) {
            SegmentIntersection::Identical
        } else {
            SegmentIntersection::Disjoint
        }
    } else if facts_degenerate(first_facts) {
        point_location_as_intersection(point_segment_location_with_facts(c, d, a, second_facts))
    } else if facts_degenerate(second_facts) {
        point_location_as_intersection(point_segment_location_with_facts(a, b, c, first_facts))
    } else {
        segment_intersection(a, b, c, d)
    }
}

/// Whether `point` lies in the closed range between `a` and `b` in 3D.
pub open spec fn collinear_point_segment3_location(a: Point3, b: Point3, point: Point3) -> PointSegmentLocation {
    if !spec_between_closed(a.x, b.x, point.x) || !spec_between_closed(a.y, b.y, point.y)
        || !spec_between_closed(a.z, b.z, point.z) {
        PointSegmentLocation::CollinearOutside
    } else if points_equal3(a, point) || points_equal3(b, point) {
        PointSegmentLocation::OnEndpoint
    } else {
        PointSegmentLocation::OnSegment
    }
}

/// The components of `(b - a) x (point - a)`.
pub open spec fn segment3_cross(a: Point3, b: Point3, point: Point3) -> (Rat, Rat, Rat) {
    cross_at(a, b, point)
}

/// Whether `point` lies on the line through `a` and `b`.
pub open spec fn segment3_collinear(a: Point3, b: Point3, point: Point3) -> bool {
    let (cx, cy, cz) = segment3_cross(a, b, point);
    rat_sign(cx) == Sign::Zero && rat_sign(cy) == Sign::Zero && rat_sign(cz) == Sign::Zero
}

/// Location of `point` against the closed 3D segment `ab`.
pub open spec fn point_segment3_location(a: Point3, b: Point3, point: Point3) -> PointSegmentLocation {
    if points_equal3(a, b) {
        if points_equal3(a, point) {
            PointSegmentLocation::OnEndpoint
        } else {
            PointSegmentLocation::CollinearOutside
        }
    } else if !segment3_collinear(a, b, point) {
        PointSegmentLocation::OffLine
    } else {
        collinear_point_segment3_location(a, b, point)
    }
}


/// Reusable exact predicates for one closed 2D segment.
///
/// Stores borrowed endpoints plus [`Segment2Facts`]; edge ids, rings and DCEL
/// handles stay with the caller.
#[derive(Clone, Copy, Debug)]
pub struct PreparedSegment2<'a> {
    start: &'a Point2,
    end: &'a Point2,
    facts: Segment2Facts,
}

impl<'a> PreparedSegment2<'a> {
    pub closed spec fn spec_start(&self) -> Point2 {
        *self.start
    }

    pub closed spec fn spec_end(&self) -> Point2 {
        *self.end
    }

    pub closed spec fn spec_facts(&self) -> Segment2Facts {
        self.facts
    }

    /// Prepares a segment and computes its facts.
    pub fn new(start: &'a Point2, end: &'a Point2) -> (r: Self)
        ensures
            r.spec_start() == *start,
            r.spec_end() == *end,
            r.spec_facts() == (Segment2Facts { degenerate: Some(points_equal2(*start, *end)) }),
    {
        Self::from_facts(start, end, segment2_facts(start, end))
    }

    /// Prepares a segment from caller-cached facts for the same endpoints.
    pub fn from_facts(start: &'a Point2, end: &'a Point2, facts: Segment2Facts) -> (r: Self)
        ensures
            r.spec_start() == *start,
            r.spec_end() == *end,
            r.spec_facts() == facts,
    {
        Self { start, end, facts }
    }

    /// The segment start.
    pub fn start(&self) -> (r: &'a Point2)
        ensures
            *r == self.spec_start(),
    {
        self.start
    }

    /// The segment end.
    pub fn end(&self) -> (r: &'a Point2)
        ensures
            *r == self.spec_end(),
    {
        self.end
    }

    /// The cached facts.
    pub fn facts(&self) -> (r: Segment2Facts)
        ensures
            r == self.spec_facts(),
    {
        self.facts
    }

    /// Classifies a point against this segment under the default policy.
    pub fn classify_point(&self, point: &Point2) -> (r: PredicateOutcome<PointSegmentLocation>)
        ensures
            r == certified(
                point_segment_location_with_facts(
                    self.spec_start(),
                    self.spec_end(),
                    *point,
                    Some(self.spec_facts()),
                ),
            ),
    {
        self.classify_point_with_policy(point, PredicatePolicy::default())
    }

    /// Classifies a point against this segment.
    pub fn classify_point_with_policy(&self, point: &Point2, policy: PredicatePolicy) -> (r:
        PredicateOutcome<PointSegmentLocation>)
        ensures
            r == certified(
                point_segment_location_with_facts(
                    self.spec_start(),
                    self.spec_end(),
                    *point,
                    Some(self.spec_facts()),
                ),
            ),
    {
        classify_point_segment_with_policy_and_facts(self.start, self.end, point, policy, self.facts)
    }

    /// Whether a point lies on this segment, under the default policy.
    pub fn point_on_segment(&self, point: &Point2) -> (r: PredicateOutcome<bool>)
        ensures
            r == certified(
                point_segment_location_with_facts(
                    self.spec_start(),
                    self.spec_end(),
                    *point,
                    Some(self.spec_facts()),
                ).spec_is_on_segment(),
            ),
    {
        self.point_on_segment_with_policy(point, PredicatePolicy::default())
    }

    /// Whether a point lies on this segment.
    pub fn point_on_segment_with_policy(&self, point: &Point2, policy: PredicatePolicy) -> (r:
        PredicateOutcome<bool>)
        ensures
            r == certified(
                point_segment_location_with_facts(
                    self.spec_start(),
                    self.spec_end(),
                    *point,
                    Some(self.spec_facts()),
                ).spec_is_on_segment(),
            ),
    {
        point_on_segment_with_policy_and_facts(self.start, self.end, point, policy, self.facts)
    }

    /// Relation between this segment and another, under the default policy.
    pub fn classify_intersection(&self, other: &PreparedSegment2) -> (r: PredicateOutcome<
        SegmentIntersection,
    >)
        ensures
            r == certified(
                segment_intersection_with_facts(
                    self.spec_start(),
                    self.spec_end(),
                    other.spec_start(),
                    other.spec_end(),
                    Some(self.spec_facts()),
                    Some(other.spec_facts()),
                ),
            ),
    {
        self.classify_intersection_with_policy(other, PredicatePolicy::default())
    }

    /// Relation between this segment and another; degenerate segments are
    /// reduced through the cached facts before the four-orientation test.
    pub fn classify_intersection_with_policy(&self, other: &PreparedSegment2, policy: PredicatePolicy) -> (r:
        PredicateOutcome<SegmentIntersection>)
        ensures
            r == certified(
                segment_intersection_with_facts(
                    self.spec_start(),
                    self.spec_end(),
                    other.spec_start(),
                    other.spec_end(),
                    Some(self.spec_facts()),
                    Some(other.spec_facts()),
                ),
            ),
    {
        classify_segment_intersection_with_policy_and_facts(
            self.start,
            self.end,
            other.start,
            other.end,
            policy,
            self.facts,
            other.facts,
        )
    }
}

/// Reusable exact predicates for one closed 3D segment.
#[derive(Clone, Copy, Debug)]
pub struct PreparedSegment3<'a> {
    start: &'a Point3,
    end: &'a Point3,
}

impl<'a> PreparedSegment3<'a> {
    pub closed spec fn spec_start(&self) -> Point3 {
        *self.start
    }

    pub closed spec fn spec_end(&self) -> Point3 {
        *self.end
    }

    /// Prepares a borrowed 3D segment.
    pub fn new(start: &'a Point3, end: &'a Point3) -> (r: Self)
        ensures
            r.spec_start() == *start,
            r.spec_end() == *end,
    {
        Self { start, end }
    }

    /// The segment start.
    pub fn start(&self) -> (r: &'a Point3)
        ensures
            *r == self.spec_start(),
    {
        self.start
    }

    /// The segment end.
    pub fn end(&self) -> (r: &'a Point3)
        ensures
            *r == self.spec_end(),
    {
        self.end
    }

    /// Classifies a point against this segment under the default policy.
    pub fn classify_point(&self, point: &Point3) -> (r: PredicateOutcome<PointSegmentLocation>)
        ensures
            r == certified(point_segment3_location(self.spec_start(), self.spec_end(), *point)),
    {
        self.classify_point_with_policy(point, PredicatePolicy::default())
    }

    /// Classifies a point against this segment.
    pub fn classify_point_with_policy(&self, point: &Point3, policy: PredicatePolicy) -> (r:
        PredicateOutcome<PointSegmentLocation>)
        ensures
            r == certified(point_segment3_location(self.spec_start(), self.spec_end(), *point)),
    {
        classify_point_segment3_with_policy(self.start, self.end, point, policy)
    }

    /// Whether a point lies on this segment, under the default policy.
    pub fn point_on_segment(&self, point: &Point3) -> (r: PredicateOutcome<bool>)
        ensures
            r == certified(
                point_segment3_location(self.spec_start(), self.spec_end(), *point).spec_is_on_segment(),
            ),
    {
        self.point_on_segment_with_policy(point, PredicatePolicy::default())
    }

    /// Whether a point lies on this segment.
    pub fn point_on_segment_with_policy(&self, point: &Point3, policy: PredicatePolicy) -> (r:
        PredicateOutcome<bool>)
        ensures
            r == certified(
                point_segment3_location(self.spec_start(), self.spec_end(), *point).spec_is_on_segment(),
            ),
    {
        point_on_segment3_with_policy(self.start, self.end, point, policy)
    }
}

/// Classifies `point` against the closed segment `ab`.
pub fn classify_point_segment(a: &Point2, b: &Point2, point: &Point2) -> (r: PredicateOutcome<
    PointSegmentLocation,
>)
    ensures
        r == certified(point_segment_location(*a, *b, *point)),
{
    classify_point_segment_with_policy(a, b, point, PredicatePolicy::default())
}

/// Classifies `point` against the closed 3D segment `ab`.
pub fn classify_point_segment3(a: &Point3, b: &Point3, point: &Point3) -> (r: PredicateOutcome<
    PointSegmentLocation,
>)
    ensures
        r == certified(point_segment3_location(*a, *b, *point)),
{
    classify_point_segment3_with_policy(a, b, point, PredicatePolicy::default())
}

/// Classifies `point` against the closed 3D segment `ab`: collinearity is
/// certified by the three exact components of `(b - a) x (point - a)`, and
/// containment by exact coordinate comparisons on all three axes.
pub fn classify_point_segment3_with_policy(
    a: &Point3,
    b: &Point3,
    point: &Point3,
    policy: PredicatePolicy,
) -> (r: PredicateOutcome<PointSegmentLocation>)
    ensures
        r == certified(point_segment3_location(*a, *b, *point)),
{
    let mut trace = DecisionTrace::start();
    match points_equal3_exec(a, b, &mut trace) {
        Ok(true) => {
            return match classify_degenerate_point_segment3(a, point, &mut trace) {
                Ok(location) => PredicateOutcome::decided(location, trace.certainty, trace.stage),
                Err(unknown) => unknown.into_outcome(),
            };
        },
        Ok(false) => {},
        Err(unknown) => return unknown.into_outcome(),
    }
    match point_segment3_cross_signs(a, b, point, &mut trace) {
        Ok(signs) => {
            if !(matches!(signs[0], Sign::Zero) && matches!(signs[1], Sign::Zero) && matches!(
                signs[2],
                Sign::Zero
            )) {
                return PredicateOutcome::decided(
                    PointSegmentLocation::OffLine,
                    trace.certainty,
                    trace.stage,
                );
            }
        },
        Err(unknown) => return unknown.into_outcome(),
    }
    match classify_collinear_point_segment3(a, b, point, &mut trace) {
        Ok(location) => PredicateOutcome::decided(location, trace.certainty, trace.stage),
        Err(unknown) => unknown.into_outcome(),
    }
}

/// Classifies `point` against the closed segment `ab`.
pub fn classify_point_segment_with_policy(
    a: &Point2,
    b: &Point2,
    point: &Point2,
    policy: PredicatePolicy,
) -> (r: PredicateOutcome<PointSegmentLocation>)
    ensures
        r == certified(point_segment_location(*a, *b, *point)),
{
    classify_point_segment_impl(a, b, point, policy, None)
}

/// Classifies `point` against the closed segment `ab` with cached facts.
pub fn classify_point_segment_with_facts(
    a: &Point2,
    b: &Point2,
    point: &Point2,
    segment_facts: Segment2Facts,
) -> (r: PredicateOutcome<PointSegmentLocation>)
    ensures
        r == certified(point_segment_location_with_facts(*a, *b, *point, Some(segment_facts))),
{
    classify_point_segment_with_policy_and_facts(
        a,
        b,
        point,
        PredicatePolicy::default(),
        segment_facts,
    )
}

/// Classifies `point` against the closed segment `ab` with an explicit policy
/// and cached facts. A structurally degenerate segment skips the orientation
/// determinant; point equality is still decided exactly.
pub fn classify_point_segment_with_policy_and_facts(
    a: &Point2,
    b: &Point2,
    point: &Point2,
    policy: PredicatePolicy,
    segment_facts: Segment2Facts,
) -> (r: PredicateOutcome<PointSegmentLocation>)
    ensures
        r == certified(point_segment_location_with_facts(*a, *b, *point, Some(segment_facts))),
{
    classify_point_segment_impl(a, b, point, policy, Some(segment_facts))
}

fn classify_point_segment_impl(
    a: &Point2,
    b: &Point2,
    point: &Point2,
    policy: PredicatePolicy,
    segment_facts: Option<Segment2Facts>,
) -> (r: PredicateOutcome<PointSegmentLocation>)
    ensures
        r == certified(point_segment_location_with_facts(*a, *b, *point, segment_facts)),
{
    let mut trace = DecisionTrace::start();
    let known_degenerate = match segment_facts {
        Some(facts) => facts.known_degenerate() == Some(true),
        None => false,
    };
    if known_degenerate {
        return match classify_degenerate_point_segment(a, point, &mut trace) {
            Ok(location) => PredicateOutcome::decided(location, trace.certainty, trace.stage),
            Err(unknown) => unknown.into_outcome(),
        };
    }
    let orientation = match decided(orient2d_with_policy(a, b, point, policy), &mut trace) {
        Ok(sign) => sign,
        Err(unknown) => return unknown.into_outcome(),
    };
    if !matches!(orientation, Sign::Zero) {
        return PredicateOutcome::decided(
            PointSegmentLocation::OffLine,
            trace.certainty,
            trace.stage,
        );
    }
    match classify_collinear_point_segment(a, b, point, &mut trace) {
        Ok(location) => PredicateOutcome::decided(location, trace.certainty, trace.stage),
        Err(unknown) => unknown.into_outcome(),
    }
}

/// Whether `point` lies on the closed segment `ab`.
pub fn point_on_segment(a: &Point2, b: &Point2, point: &Point2) -> (r: PredicateOutcome<bool>)
    ensures
        r == certified(point_segment_location(*a, *b, *point).spec_is_on_segment()),
{
    point_on_segment_with_policy(a, b, point, PredicatePolicy::default())
}

/// Whether `point` lies on the closed 3D segment `ab`.
pub fn point_on_segment3(a: &Point3, b: &Point3, point: &Point3) -> (r: PredicateOutcome<bool>)
    ensures
        r == certified(point_segment3_location(*a, *b, *point).spec_is_on_segment()),
{
    point_on_segment3_with_policy(a, b, point, PredicatePolicy::default())
}

/// Whether `point` lies on the closed 3D segment `ab`.
pub fn point_on_segment3_with_policy(
    a: &Point3,
    b: &Point3,
    point: &Point3,
    policy: PredicatePolicy,
) -> (r: PredicateOutcome<bool>)
    ensures
        r == certified(point_segment3_location(*a, *b, *point).spec_is_on_segment()),
{
    match classify_point_segment3_with_policy(a, b, point, policy) {
        PredicateOutcome::Decided { value, certainty, stage } => PredicateOutcome::decided(
            value.is_on_segment(),
            certainty,
            stage,
        ),
        PredicateOutcome::Unknown { needed, stage } => PredicateOutcome::unknown(needed, stage),
    }
}

/// Whether `point` lies on the closed segment `ab`.
pub fn point_on_segment_with_policy(
    a: &Point2,
    b: &Point2,
    point: &Point2,
    policy: PredicatePolicy,
) -> (r: PredicateOutcome<bool>)
    ensures
        r == certified(point_segment_location(*a, *b, *point).spec_is_on_segment()),
{
    match classify_point_segment_with_policy(a, b, point, policy) {
        PredicateOutcome::Decided { value, certainty, stage } => PredicateOutcome::decided(
            value.is_on_segment(),
            certainty,
            stage,
        ),
        PredicateOutcome::Unknown { needed, stage } => PredicateOutcome::unknown(needed, stage),
    }
}

/// Whether `point` lies on the closed segment `ab`, with cached facts.
pub fn point_on_segment_with_facts(
    a: &Point2,
    b: &Point2,
    point: &Point2,
    segment_facts: Segment2Facts,
) -> (r: PredicateOutcome<bool>)
    ensures
        r == certified(
            point_segment_location_with_facts(*a, *b, *point, Some(segment_facts)).spec_is_on_segment(),
        ),
{
    point_on_segment_with_policy_and_facts(a, b, point, PredicatePolicy::default(), segment_facts)
}

/// Whether `point` lies on the closed segment `ab`, with an explicit policy
/// and cached facts.
pub fn point_on_segment_with_policy_and_facts(
    a: &Point2,
    b: &Point2,
    point: &Point2,
    policy: PredicatePolicy,
    segment_facts: Segment2Facts,
) -> (r: PredicateOutcome<bool>)
    ensures
        r == certified(
            point_segment_location_with_facts(*a, *b, *point, Some(segment_facts)).spec_is_on_segment(),
        ),
{
    match classify_point_segment_with_policy_and_facts(a, b, point, policy, segment_facts) {
        PredicateOutcome::Decided { value, certainty, stage } => PredicateOutcome::decided(
            value.is_on_segment(),
            certainty,
            stage,
        ),
        PredicateOutcome::Unknown { needed, stage } => PredicateOutcome::unknown(needed, stage),
    }
}

/// Relation between the closed segments `ab` and `cd`.
pub fn classify_segment_intersection(a: &Point2, b: &Point2, c: &Point2, d: &Point2) -> (r:
    PredicateOutcome<SegmentIntersection>)
    ensures
        r == certified(segment_intersection(*a, *b, *c, *d)),
{
    classify_segment_intersection_with_policy(a, b, c, d, PredicatePolicy::default())
}

/// Relation between the closed segments `ab` and `cd`.
pub fn classify_segment_intersection_with_policy(
    a: &Point2,
    b: &Point2,
    c: &Point2,
    d: &Point2,
    policy: PredicatePolicy,
) -> (r: PredicateOutcome<SegmentIntersection>)
    ensures
        r == certified(segment_intersection(*a, *b, *c, *d)),
{
    classify_segment_intersection_impl(a, b, c, d, policy, None, None)
}

/// Relation between `ab` and `cd` with cached facts for both segments.
pub fn classify_segment_intersection_with_facts(
    a: &Point2,
    b: &Point2,
    c: &Point2,
    d: &Point2,
    first_facts: Segment2Facts,
    second_facts: Segment2Facts,
) -> (r: PredicateOutcome<SegmentIntersection>)
    ensures
        r == certified(
            segment_intersection_with_facts(*a, *b, *c, *d, Some(first_facts), Some(second_facts)),
        ),
{
    classify_segment_intersection_with_policy_and_facts(
        a,
        b,
        c,
        d,
        PredicatePolicy::default(),
        first_facts,
        second_facts,
    )
}

/// Relation between `ab` and `cd` with an explicit policy and cached facts.
/// Known-degenerate segments are reduced to point-segment or point-point
/// cases before the four-orientation classifier; every remaining equality or
/// containment question is decided exactly.
pub fn classify_segment_intersection_with_policy_and_facts(
    a: &Point2,
    b: &Point2,
    c: &Point2,
    d: &Point2,
    policy: PredicatePolicy,
    first_facts: Segment2Facts,
    second_facts: Segment2Facts,
) -> (r: PredicateOutcome<SegmentIntersection>)
    ensures
        r == certified(
            segment_intersection_with_facts(*a, *b, *c, *d, Some(first_facts), Some(second_facts)),
        ),
{
    classify_segment_intersection_impl(a, b, c, d, policy, Some(first_facts), Some(second_facts))
}

fn classify_segment_intersection_impl(
    a: &Point2,
    b: &Point2,
    c: &Point2,
    d: &Point2,
    policy: PredicatePolicy,
    first_facts: Option<Segment2Facts>,
    second_facts: Option<Segment2Facts>,
) -> (r: PredicateOutcome<SegmentIntersection>)
    ensures
        r == certified(segment_intersection_with_facts(*a, *b, *c, *d, first_facts, second_facts)),
{
    if let Some(outcome) = classify_known_degenerate_segment_intersection(
        a,
        b,
        c,
        d,
        policy,
        first_facts,
        second_facts,
    ) {
        return outcome;
    }
    let mut trace = DecisionTrace::start();
    let o1 = match decided(orient2d_with_policy(a, b, c, policy), &mut trace) {
        Ok(sign) => sign,
        Err(unknown) => return unknown.into_outcome(),
    };
    let o2 = match decided(orient2d_with_policy(a, b, d, policy), &mut trace) {
        Ok(sign) => sign,
        Err(unknown) => return unknown.into_outcome(),
    };
    let o3 = match decided(orient2d_with_policy(c, d, a, policy), &mut trace) {
        Ok(sign) => sign,
        Err(unknown) => return unknown.into_outcome(),
    };
    let o4 = match decided(orient2d_with_policy(c, d, b, policy), &mut trace) {
        Ok(sign) => sign,
        Err(unknown) => return unknown.into_outcome(),
    };
    if matches!(o1, Sign::Zero) && matches!(o2, Sign::Zero) && matches!(o3, Sign::Zero) && matches!(
        o4,
        Sign::Zero
    ) {
        return match classify_collinear_segments(a, b, c, d, &mut trace) {
            Ok(kind) => PredicateOutcome::decided(kind, trace.certainty, trace.stage),
            Err(unknown) => unknown.into_outcome(),
        };
    }
    if opposite_strict(o1, o2) && opposite_strict(o3, o4) {
        return PredicateOutcome::decided(SegmentIntersection::Proper, trace.certainty, trace.stage);
    }
    let candidates = [(a, b, c, o1), (a, b, d, o2), (c, d, a, o3), (c, d, b, o4)];
    let mut i: usize = 0;
    while i < 4
        invariant
            0 <= i <= 4,
            trace_exact(trace),
            o1 == orient2d_sign(*a, *b, *c),
            o2 == orient2d_sign(*a, *b, *d),
            o3 == orient2d_sign(*c, *d, *a),
            o4 == orient2d_sign(*c, *d, *b),
            !(o1 == Sign::Zero && o2 == Sign::Zero && o3 == Sign::Zero && o4 == Sign::Zero),
            !(spec_opposite_strict(o1, o2) && spec_opposite_strict(o3, o4)),
            !(facts_degenerate(first_facts) || facts_degenerate(second_facts)),
            candidates@ == seq![(a, b, c, o1), (a, b, d, o2), (c, d, a, o3), (c, d, b, o4)],
            forall|j: int|
                0 <= j < i ==> !(candidates@[j].3 == Sign::Zero && collinear_on_segment(
                    *candidates@[j].0,
                    *candidates@[j].1,
                    *candidates@[j].2,
                )),
        decreases 4 - i,
    {
        let (segment_start, segment_end, point, sign) = candidates[i];
        if matches!(sign, Sign::Zero) {
            match classify_collinear_point_segment(segment_start, segment_end, point, &mut trace) {
                Ok(location) => {
                    if location.is_on_segment() {
                        return PredicateOutcome::decided(
                            SegmentIntersection::EndpointTouch,
                            trace.certainty,
                            trace.stage,
                        );
                    }
                },
                Err(unknown) => return unknown.into_outcome(),
            }
        }
        i = i + 1;
    }
    PredicateOutcome::decided(SegmentIntersection::Disjoint, trace.certainty, trace.stage)
}

fn classify_known_degenerate_segment_intersection(
    a: &Point2,
    b: &Point2,
    c: &Point2,
    d: &Point2,
    policy: PredicatePolicy,
    first_facts: Option<Segment2Facts>,
    second_facts: Option<Segment2Facts>,
) -> (r: Option<PredicateOutcome<SegmentIntersection>>)
    ensures
        (facts_degenerate(first_facts) || facts_degenerate(second_facts)) ==> r == Some(
            certified(segment_intersection_with_facts(*a, *b, *c, *d, first_facts, second_facts)),
        ),
        !(facts_degenerate(first_facts) || facts_degenerate(second_facts)) ==> r is None,
{
    let first_degenerate = match first_facts {
        Some(facts) => facts.known_degenerate() == Some(true),
        None => false,
    };
    let second_degenerate = match second_facts {
        Some(facts) => facts.known_degenerate() == Some(true),
        None => false,
    };
    if first_degenerate && second_degenerate {
        let mut trace = DecisionTrace::start();
        Some(
            match points_equal(a, c, &mut trace) {
                Ok(true) => PredicateOutcome::decided(
                    SegmentIntersection::Identical,
                    trace.certainty,
                    trace.stage,
                ),
                Ok(false) => PredicateOutcome::decided(
                    SegmentIntersection::Disjoint,
                    trace.certainty,
                    trace.stage,
                ),
                Err(unknown) => unknown.into_outcome(),
            },
        )
    } else if first_degenerate {
        Some(
            point_segment_intersection_from_classifier(
                classify_point_segment_impl(c, d, a, policy, second_facts),
            ),
        )
    } else if second_degenerate {
        Some(
            point_segment_intersection_from_classifier(
                classify_point_segment_impl(a, b, c, policy, first_facts),
            ),
        )
    } else {
        None
    }
}

fn point_segment_intersection_from_classifier(outcome: PredicateOutcome<PointSegmentLocation>) -> (r:
    PredicateOutcome<SegmentIntersection>)
    ensures
        match outcome {
            PredicateOutcome::Decided { value, certainty, stage } => r == PredicateOutcome::Decided {
                value: point_location_as_intersection(value),
                certainty,
                stage,
            },
            PredicateOutcome::Unknown { needed, stage } => r
                == PredicateOutcome::<SegmentIntersection>::Unknown { needed, stage },
        },
{
    match outcome {
        PredicateOutcome::Decided { value, certainty, stage } => PredicateOutcome::decided(
            if value.is_on_segment() {
                SegmentIntersection::EndpointTouch
            } else {
                SegmentIntersection::Disjoint
            },
            certainty,
            stage,
        ),
        PredicateOutcome::Unknown { needed, stage } => PredicateOutcome::unknown(needed, stage),
    }
}

fn classify_collinear_segments(
    a: &Point2,
    b: &Point2,
    c: &Point2,
    d: &Point2,
    trace: &mut DecisionTrace,
) -> (r: Result<SegmentIntersection, UnknownDecision>)
    requires
        trace_exact(*old(trace)),
    ensures
        r == Ok::<SegmentIntersection, UnknownDecision>(collinear_segments_relation(*a, *b, *c, *d)),
        *final(trace) == *old(trace),
{
    if (points_equal(a, c, trace)? && points_equal(b, d, trace)?) || (points_equal(a, d, trace)?
        && points_equal(b, c, trace)?) {
        return Ok(SegmentIntersection::Identical);
    }
    let mut shared: Vec<&Point2> = Vec::new();
    if classify_collinear_point_segment(a, b, c, trace)?.is_on_segment() {
        push_unique_point(&mut shared, c, trace)?;
    }
    let ghost s0 = shared@.map_values(|p: &Point2| *p);
    if classify_collinear_point_segment(a, b, d, trace)?.is_on_segment() {
        push_unique_point(&mut shared, d, trace)?;
    }
    let ghost s1 = shared@.map_values(|p: &Point2| *p);
    if classify_collinear_point_segment(c, d, a, trace)?.is_on_segment() {
        push_unique_point(&mut shared, a, trace)?;
    }
    let ghost s2 = shared@.map_values(|p: &Point2| *p);
    if classify_collinear_point_segment(c, d, b, trace)?.is_on_segment() {
        push_unique_point(&mut shared, b, trace)?;
    }
    proof {
        assert(s0 =~= push_unique_if(Seq::empty(), collinear_on_segment(*a, *b, *c), *c));
    }
    assert(shared@.map_values(|p: &Point2| *p) =~= shared_endpoints(*a, *b, *c, *d));
    let count = shared.len();
    Ok(
        if count == 0 {
            SegmentIntersection::Disjoint
        } else if count == 1 {
            SegmentIntersection::EndpointTouch
        } else {
            SegmentIntersection::CollinearOverlap
        },
    )
}

fn classify_collinear_point_segment(
    a: &Point2,
    b: &Point2,
    point: &Point2,
    trace: &mut DecisionTrace,
) -> (r: Result<PointSegmentLocation, UnknownDecision>)
    requires
        trace_exact(*old(trace)),
    ensures
        r == Ok::<PointSegmentLocation, UnknownDecision>(
            collinear_point_segment_location(*a, *b, *point),
        ),
        *final(trace) == *old(trace),
{
    if !between_closed(&a.x, &b.x, &point.x, trace)? || !between_closed(&a.y, &b.y, &point.y, trace)? {
        return Ok(PointSegmentLocation::CollinearOutside);
    }
    if points_equal(a, point, trace)? || points_equal(b, point, trace)? {
        Ok(PointSegmentLocation::OnEndpoint)
    } else {
        Ok(PointSegmentLocation::OnSegment)
    }
}

fn classify_degenerate_point_segment(endpoint: &Point2, point: &Point2, trace: &mut DecisionTrace) -> (r:
    Result<PointSegmentLocation, UnknownDecision>)
    requires
        trace_exact(*old(trace)),
    ensures
        r == Ok::<PointSegmentLocation, UnknownDecision>(
            degenerate_point_segment_location(*endpoint, *point),
        ),
        *final(trace) == *old(trace),
{
    if points_equal(endpoint, point, trace)? {
        Ok(PointSegmentLocation::OnEndpoint)
    } else {
        Ok(PointSegmentLocation::CollinearOutside)
    }
}

fn classify_collinear_point_segment3(
    a: &Point3,
    b: &Point3,
    point: &Point3,
    trace: &mut DecisionTrace,
) -> (r: Result<PointSegmentLocation, UnknownDecision>)
    requires
        trace_exact(*old(trace)),
    ensures
        r == Ok::<PointSegmentLocation, UnknownDecision>(
            collinear_point_segment3_location(*a, *b, *point),
        ),
        *final(trace) == *old(trace),
{
    if !between_closed(&a.x, &b.x, &point.x, trace)? || !between_closed(&a.y, &b.y, &point.y, trace)?
        || !between_closed(&a.z, &b.z, &point.z, trace)? {
        return Ok(PointSegmentLocation::CollinearOutside);
    }
    if points_equal3_exec(a, point, trace)? || points_equal3_exec(b, point, trace)? {
        Ok(PointSegmentLocation::OnEndpoint)
    } else {
        Ok(PointSegmentLocation::OnSegment)
    }
}

fn classify_degenerate_point_segment3(endpoint: &Point3, point: &Point3, trace: &mut DecisionTrace) -> (r:
    Result<PointSegmentLocation, UnknownDecision>)
    requires
        trace_exact(*old(trace)),
    ensures
        r == Ok::<PointSegmentLocation, UnknownDecision>(
            if points_equal3(*endpoint, *point) {
                PointSegmentLocation::OnEndpoint
            } else {
                PointSegmentLocation::CollinearOutside
            },
        ),
        *final(trace) == *old(trace),
{
    if points_equal3_exec(endpoint, point, trace)? {
        Ok(PointSegmentLocation::OnEndpoint)
    } else {
        Ok(PointSegmentLocation::CollinearOutside)
    }
}

fn point_segment3_cross_signs(a: &Point3, b: &Point3, point: &Point3, trace: &mut DecisionTrace) -> (r:
    Result<[Sign; 3], UnknownDecision>)
    requires
        trace_exact(*old(trace)),
    ensures
        r matches Ok(signs) && signs[0] == rat_sign(segment3_cross(*a, *b, *point).0) && signs[1]
            == rat_sign(segment3_cross(*a, *b, *point).1) && signs[2] == rat_sign(
            segment3_cross(*a, *b, *point).2,
        ),
        *final(trace) == *old(trace),
{
    let abx = scalar_difference(&b.x, &a.x);
    let aby = scalar_difference(&b.y, &a.y);
    let abz = scalar_difference(&b.z, &a.z);
    let apx = scalar_difference(&point.x, &a.x);
    let apy = scalar_difference(&point.y, &a.y);
    let apz = scalar_difference(&point.z, &a.z);
    let cross_x = sub_ref(&mul_ref(&aby, &apz), &mul_ref(&abz, &apy));
    let cross_y = sub_ref(&mul_ref(&abz, &apx), &mul_ref(&abx, &apz));
    let cross_z = sub_ref(&mul_ref(&abx, &apy), &mul_ref(&aby, &apx));
    let sx = decided(resolve_real_sign(&cross_x), trace)?;
    let sy = decided(resolve_real_sign(&cross_y), trace)?;
    let sz = decided(resolve_real_sign(&cross_z), trace)?;
    Ok([sx, sy, sz])
}

fn between_closed(a: &Scalar, b: &Scalar, point: &Scalar, trace: &mut DecisionTrace) -> (r: Result<
    bool,
    UnknownDecision,
>)
    requires
        trace_exact(*old(trace)),
    ensures
        r == Ok::<bool, UnknownDecision>(spec_between_closed(*a, *b, *point)),
        *final(trace) == *old(trace),
{
    let pa = decided(compare_scalars(point, a), trace)?;
    let pb = decided(compare_scalars(point, b), trace)?;
    Ok(
        matches!(
            (pa, pb),
            (Sign::Zero, _) | (_, Sign::Zero) | (Sign::Positive, Sign::Negative) | (
                Sign::Negative,
                Sign::Positive,
            )
        ),
    )
}

fn points_equal(left: &Point2, right: &Point2, trace: &mut DecisionTrace) -> (r: Result<
    bool,
    UnknownDecision,
>)
    requires
        trace_exact(*old(trace)),
    ensures
        r == Ok::<bool, UnknownDecision>(points_equal2(*left, *right)),
        *final(trace) == *old(trace),
{
    Ok(
        matches!(decided(compare_scalars(&left.x, &right.x), trace)?, Sign::Zero) && matches!(
            decided(compare_scalars(&left.y, &right.y), trace)?,
            Sign::Zero
        ),
    )
}

fn points_equal3_exec(left: &Point3, right: &Point3, trace: &mut DecisionTrace) -> (r: Result<
    bool,
    UnknownDecision,
>)
    requires
        trace_exact(*old(trace)),
    ensures
        r == Ok::<bool, UnknownDecision>(points_equal3(*left, *right)),
        *final(trace) == *old(trace),
{
    Ok(
        matches!(decided(compare_scalars(&left.x, &right.x), trace)?, Sign::Zero) && matches!(
            decided(compare_scalars(&left.y, &right.y), trace)?,
            Sign::Zero
        ) && matches!(decided(compare_scalars(&left.z, &right.z), trace)?, Sign::Zero),
    )
}

fn push_unique_point<'a>(points: &mut Vec<&'a Point2>, point: &'a Point2, trace: &mut DecisionTrace) -> (r:
    Result<(), UnknownDecision>)
    requires
        trace_exact(*old(trace)),
    ensures
        r is Ok,
        final(points)@.map_values(|p: &Point2| *p) == push_unique(
            old(points)@.map_values(|p: &Point2| *p),
            *point,
        ),
        *final(trace) == *old(trace),
{
    let ghost before = points@.map_values(|p: &Point2| *p);
    let mut i: usize = 0;
    while i < points.len()
        invariant
            0 <= i <= points.len(),
            points@.map_values(|p: &Point2| *p) == before,
            trace_exact(*trace),
            *trace == *old(trace),
            forall|j: int| 0 <= j < i ==> !points_equal2(#[trigger] before[j], *point),
        decreases points.len() - i,
    {
        if points_equal(points[i], point, trace)? {
            assert(points_equal2(before[i as int], *point));
            return Ok(());
        }
        i = i + 1;
    }
    points.push(point);
    assert(points@.map_values(|p: &Point2| *p) =~= before.push(*point));
    Ok(())
}

fn opposite_strict(left: Sign, right: Sign) -> (r: bool)
    ensures
        r == spec_opposite_strict(left, right),
{
    matches!((left, right), (Sign::Positive, Sign::Negative) | (Sign::Negative, Sign::Positive))
}

/// Both endpoints of a segment are classified as its endpoints.
pub proof fn law_point_segment_endpoints(a: Point2, b: Point2)
    requires
        a.well_formed(),
        b.well_formed(),
    ensures
        point_segment_location(a, b, a) == PointSegmentLocation::OnEndpoint,
        point_segment_location(a, b, b) == PointSegmentLocation::OnEndpoint,
{
    lemma_points_equal2_refl(a);
    lemma_points_equal2_refl(b);
    lemma_orient2d_cycle(a, a, b);
    lemma_orient2d_equal_first(a, a, b);
    lemma_orient2d_cycle(b, b, a);
    lemma_orient2d_cycle(a, b, b);
    lemma_orient2d_equal_first(b, b, a);
}

/// A point's location against a segment does not depend on the order of the
/// segment's endpoints.
pub proof fn law_point_segment_symmetric(a: Point2, b: Point2, point: Point2)
    requires
        a.well_formed(),
        b.well_formed(),
        point.well_formed(),
    ensures
        point_segment_location(b, a, point) == point_segment_location(a, b, point),
{
    lemma_orient2d_swap(a, b, point);
}

/// Sound segment facts never change a point's location against the segment.
pub proof fn law_point_segment_facts_agree(a: Point2, b: Point2, point: Point2, facts: Segment2Facts)
    requires
        a.well_formed(),
        b.well_formed(),
        point.well_formed(),
        crate::geometry::segment2_facts_sound(facts, a, b),
    ensures
        point_segment_location_with_facts(a, b, point, Some(facts)) == point_segment_location(a, b, point),
{
    if facts.degenerate == Some(true) {
        lemma_orient2d_equal_first(a, b, point);
        lemma_order3(point.x, a.x, b.x);
        lemma_order3(point.y, a.y, b.y);
        lemma_points_equal2_symmetric(b, point);
    }
}

/// Appending a point adds exactly that point to the ones an equal point can be
/// found among.
proof fn lemma_has_equal_point_push(points: Seq<Point2>, p: Point2, x: Point2)
    ensures
        has_equal_point(points.push(p), x) == (has_equal_point(points, x) || points_equal2(p, x)),
{
    let pushed = points.push(p);
    if has_equal_point(points, x) {
        let i = choose|i: int| 0 <= i < points.len() && points_equal2(#[trigger] points[i], x);
        assert(pushed[i] == points[i]);
    }
    if points_equal2(p, x) {
        assert(pushed[points.len() as int] == p);
    }
    if has_equal_point(pushed, x) {
        let i = choose|i: int| 0 <= i < pushed.len() && points_equal2(#[trigger] pushed[i], x);
        if i < points.len() {
            assert(pushed[i] == points[i]);
        }
    }
}

/// No point is found in the empty sequence.
proof fn lemma_has_equal_point_empty(x: Point2)
    ensures
        !has_equal_point(Seq::<Point2>::empty(), x),
{
}

/// On a segment whose endpoints are equal, a collinear point lies on the
/// segment exactly when it equals the first endpoint.
proof fn lemma_collinear_on_degenerate(a: Point2, b: Point2, p: Point2)
    requires
        a.well_formed(),
        b.well_formed(),
        p.well_formed(),
        points_equal2(a, b),
    ensures
        collinear_on_segment(a, b, p) == points_equal2(a, p),
{
    lemma_order3(p.x, a.x, b.x);
    lemma_order3(p.y, a.y, b.y);
}

/// A point equal to an endpoint lies on the segment.
proof fn lemma_collinear_on_endpoint(a: Point2, b: Point2, p: Point2)
    requires
        a.well_formed(),
        b.well_formed(),
        p.well_formed(),
        points_equal2(a, p) || points_equal2(b, p),
    ensures
        collinear_on_segment(a, b, p),
{
    lemma_order3(p.x, a.x, b.x);
    lemma_order3(p.y, a.y, b.y);
}

/// Equal points are on a segment together or not at all.
proof fn lemma_collinear_on_substitute(a: Point2, b: Point2, p: Point2, q: Point2)
    requires
        a.well_formed(),
        b.well_formed(),
        p.well_formed(),
        q.well_formed(),
        points_equal2(p, q),
    ensures
        collinear_on_segment(a, b, p) == collinear_on_segment(a, b, q),
{
    lemma_order4(p.x, q.x, a.x, b.x);
    lemma_order4(p.y, q.y, a.y, b.y);
}

/// Both segments collapse to points.
proof fn lemma_segment_both_degenerate(a: Point2, b: Point2, c: Point2, d: Point2)
    requires
        a.well_formed(),
        b.well_formed(),
        c.well_formed(),
        d.well_formed(),
        points_equal2(a, b),
        points_equal2(c, d),
    ensures
        segment_intersection(a, b, c, d) == (if points_equal2(a, c) {
            SegmentIntersection::Identical
        } else {
            SegmentIntersection::Disjoint
        }),
{
    lemma_symmetries(a, b, c, d);
    lemma_orient2d_equal_first(a, b, c);
    lemma_orient2d_equal_first(a, b, d);
    lemma_orient2d_equal_first(c, d, a);
    lemma_orient2d_equal_first(c, d, b);
    lemma_collinear_on_degenerate(a, b, c);
    lemma_collinear_on_degenerate(a, b, d);
    lemma_collinear_on_degenerate(c, d, a);
    lemma_collinear_on_degenerate(c, d, b);
    if points_equal2(a, c) {
        lemma_points_equal2_trans(b, a, c);
        lemma_points_equal2_trans(b, c, d);
    } else {
        if points_equal2(a, d) {
            lemma_points_equal2_trans(a, d, c);
        }
        if points_equal2(b, c) {
            lemma_points_equal2_trans(a, b, c);
        }
        if points_equal2(c, b) {
            lemma_points_equal2_trans(a, b, c);
        }
    }
}

/// The first segment collapses to a point, the second does not.
proof fn lemma_segment_first_degenerate(a: Point2, b: Point2, c: Point2, d: Point2)
    requires
        a.well_formed(),
        b.well_formed(),
        c.well_formed(),
        d.well_formed(),
        points_equal2(a, b),
        !points_equal2(c, d),
    ensures
        segment_intersection(a, b, c, d) == point_location_as_intersection(
            point_segment_location(c, d, a),
        ),
{
    lemma_symmetries(a, b, c, d);
    lemma_orient2d_equal_first(a, b, c);
    lemma_orient2d_equal_first(a, b, d);
    lemma_orient2d_substitute(c, d, a, b);
    lemma_collinear_on_degenerate(a, b, c);
    lemma_collinear_on_degenerate(a, b, d);
    lemma_collinear_on_substitute(c, d, a, b);
    lemma_orient2d_repeat(c, d);
    if points_equal2(a, c) {
        lemma_orient2d_substitute(c, d, a, c);
        lemma_collinear_on_endpoint(c, d, a);
        lemma_points_equal2_trans(b, a, c);
    }
    if points_equal2(a, d) {
        lemma_orient2d_substitute(c, d, a, d);
        lemma_collinear_on_endpoint(c, d, a);
        lemma_points_equal2_trans(b, a, d);
        if points_equal2(a, c) {
            lemma_points_equal2_trans(c, a, d);
        }
    }
    if points_equal2(b, c) {
        lemma_points_equal2_trans(a, b, c);
    }
    if points_equal2(b, d) {
        lemma_points_equal2_trans(a, b, d);
    }
    lemma_shared_endpoints_steps(a, b, c, d);
}

/// The second segment collapses to a point, the first does not.
proof fn lemma_segment_second_degenerate(a: Point2, b: Point2, c: Point2, d: Point2)
    requires
        a.well_formed(),
        b.well_formed(),
        c.well_formed(),
        d.well_formed(),
        !points_equal2(a, b),
        points_equal2(c, d),
    ensures
        segment_intersection(a, b, c, d) == point_location_as_intersection(
            point_segment_location(a, b, c),
        ),
{
    lemma_symmetries(a, b, c, d);
    lemma_orient2d_equal_first(c, d, a);
    lemma_orient2d_equal_first(c, d, b);
    lemma_orient2d_substitute(a, b, c, d);
    lemma_collinear_on_degenerate(c, d, a);
    lemma_collinear_on_degenerate(c, d, b);
    lemma_collinear_on_substitute(a, b, c, d);
    lemma_orient2d_repeat(a, b);
    if points_equal2(c, a) {
        lemma_orient2d_substitute(a, b, c, a);
        lemma_collinear_on_endpoint(a, b, c);
    }
    if points_equal2(c, b) {
        lemma_orient2d_substitute(a, b, c, b);
        lemma_collinear_on_endpoint(a, b, c);
        if points_equal2(c, a) {
            lemma_points_equal2_trans(a, c, b);
        }
    }
    if points_equal2(a, d) {
        lemma_points_equal2_trans(a, d, c);
    }
    if points_equal2(b, d) {
        lemma_points_equal2_trans(b, d, c);
    }
    lemma_shared_endpoints_steps(a, b, c, d);
}

/// Symmetry of exact point equality among four points.
proof fn lemma_symmetries(a: Point2, b: Point2, c: Point2, d: Point2)
    ensures
        points_equal2(a, c) == points_equal2(c, a),
        points_equal2(a, d) == points_equal2(d, a),
        points_equal2(b, c) == points_equal2(c, b),
        points_equal2(b, d) == points_equal2(d, b),
        points_equal2(a, b) == points_equal2(b, a),
        points_equal2(c, d) == points_equal2(d, c),
        !has_equal_point(Seq::<Point2>::empty(), a),
        !has_equal_point(Seq::<Point2>::empty(), b),
        !has_equal_point(Seq::<Point2>::empty(), c),
        !has_equal_point(Seq::<Point2>::empty(), d),
{
    lemma_points_equal2_symmetric(a, c);
    lemma_points_equal2_symmetric(a, d);
    lemma_points_equal2_symmetric(b, c);
    lemma_points_equal2_symmetric(b, d);
    lemma_points_equal2_symmetric(a, b);
    lemma_points_equal2_symmetric(c, d);
    lemma_has_equal_point_empty(a);
    lemma_has_equal_point_empty(b);
    lemma_has_equal_point_empty(c);
    lemma_has_equal_point_empty(d);
}

/// Sound facts that settle degeneracy never change the relation between two
/// segments.
pub proof fn law_segment_facts_agree(
    a: Point2,
    b: Point2,
    c: Point2,
    d: Point2,
    first: Option<Segment2Facts>,
    second: Option<Segment2Facts>,
)
    requires
        a.well_formed(),
        b.well_formed(),
        c.well_formed(),
        d.well_formed(),
        first matches Some(f) ==> crate::geometry::segment2_facts_sound(f, a, b),
        second matches Some(f) ==> crate::geometry::segment2_facts_sound(f, c, d),
        facts_degenerate(first) ==> facts_degenerate(second) == points_equal2(c, d),
        facts_degenerate(second) ==> facts_degenerate(first) == points_equal2(a, b),
    ensures
        segment_intersection_with_facts(a, b, c, d, first, second) == segment_intersection(a, b, c, d),
{
    if facts_degenerate(first) && facts_degenerate(second) {
        lemma_segment_both_degenerate(a, b, c, d);
    } else if facts_degenerate(first) {
        lemma_segment_first_degenerate(a, b, c, d);
    } else if facts_degenerate(second) {
        lemma_segment_second_degenerate(a, b, c, d);
    }
}

/// The intermediate sequences of `shared_endpoints`, one push at a time.
proof fn lemma_shared_endpoints_steps(a: Point2, b: Point2, c: Point2, d: Point2)
    ensures
        ({
            let s0 = push_unique_if(Seq::empty(), collinear_on_segment(a, b, c), c);
            let s1 = push_unique_if(s0, collinear_on_segment(a, b, d), d);
            let s2 = push_unique_if(s1, collinear_on_segment(c, d, a), a);
            &&& s0.len() <= 1
            &&& (s0.len() == 1 ==> s0 == seq![c])
            &&& has_equal_point(s0, d) == (s0.len() == 1 && points_equal2(c, d))
            &&& has_equal_point(s0, a) == (s0.len() == 1 && points_equal2(c, a))
            &&& has_equal_point(s0, b) == (s0.len() == 1 && points_equal2(c, b))
            &&& has_equal_point(s1, a) == (has_equal_point(s0, a) || (s1.len() > s0.len()
                && points_equal2(d, a)))
            &&& has_equal_point(s1, b) == (has_equal_point(s0, b) || (s1.len() > s0.len()
                && points_equal2(d, b)))
            &&& has_equal_point(s2, b) == (has_equal_point(s1, b) || (s2.len() > s1.len()
                && points_equal2(a, b)))
        }),
{
    let e = Seq::<Point2>::empty();
    lemma_has_equal_point_empty(a);
    lemma_has_equal_point_empty(b);
    lemma_has_equal_point_empty(c);
    lemma_has_equal_point_empty(d);
    lemma_has_equal_point_push(e, c, c);
    lemma_has_equal_point_push(e, c, d);
    lemma_has_equal_point_push(e, c, a);
    lemma_has_equal_point_push(e, c, b);
    let s0 = push_unique_if(e, collinear_on_segment(a, b, c), c);
    lemma_has_equal_point_push(s0, d, a);
    lemma_has_equal_point_push(s0, d, b);
    let s1 = push_unique_if(s0, collinear_on_segment(a, b, d), d);
    lemma_has_equal_point_push(s1, a, b);
    assert(e.push(c) =~= seq![c]);
}

/// One conditional push of `shared_endpoints`: its length and whom it holds.
proof fn lemma_push_unique_if_step(points: Seq<Point2>, keep: bool, p: Point2, x: Point2)
    ensures
        push_unique_if(points, keep, p).len() == points.len() + if keep && !has_equal_point(
            points,
            p,
        ) {
            1int
        } else {
            0int
        },
        has_equal_point(push_unique_if(points, keep, p), x) == (has_equal_point(points, x) || (keep
            && !has_equal_point(points, p) && points_equal2(p, x))),
{
    lemma_has_equal_point_push(points, p, x);
}

/// Conditional pushes of four points, in order.
pub open spec fn push_chain4(
    p0: Point2,
    k0: bool,
    p1: Point2,
    k1: bool,
    p2: Point2,
    k2: bool,
    p3: Point2,
    k3: bool,
) -> Seq<Point2> {
    push_unique_if(
        push_unique_if(push_unique_if(push_unique_if(Seq::empty(), k0, p0), k1, p1), k2, p2),
        k3,
        p3,
    )
}

/// Every step of a chain of four pushes, for every one of the four points.
proof fn lemma_push_chain4_steps(
    p0: Point2,
    k0: bool,
    p1: Point2,
    k1: bool,
    p2: Point2,
    k2: bool,
    p3: Point2,
    k3: bool,
)
    ensures
        ({
            let s0 = push_unique_if(Seq::empty(), k0, p0);
            let s1 = push_unique_if(s0, k1, p1);
            let s2 = push_unique_if(s1, k2, p2);
            &&& s0.len() == if k0 { 1int } else { 0int }
            &&& has_equal_point(s0, p1) == (k0 && points_equal2(p0, p1))
            &&& has_equal_point(s0, p2) == (k0 && points_equal2(p0, p2))
            &&& has_equal_point(s0, p3) == (k0 && points_equal2(p0, p3))
            &&& s1.len() == s0.len() + if k1 && !has_equal_point(s0, p1) { 1int } else { 0int }
            &&& has_equal_point(s1, p2) == (has_equal_point(s0, p2) || (k1 && !has_equal_point(s0, p1)
                && points_equal2(p1, p2)))
            &&& has_equal_point(s1, p3) == (has_equal_point(s0, p3) || (k1 && !has_equal_point(s0, p1)
                && points_equal2(p1, p3)))
            &&& s2.len() == s1.len() + if k2 && !has_equal_point(s1, p2) { 1int } else { 0int }
            &&& has_equal_point(s2, p3) == (has_equal_point(s1, p3) || (k2 && !has_equal_point(s1, p2)
                && points_equal2(p2, p3)))
            &&& push_chain4(p0, k0, p1, k1, p2, k2, p3, k3).len() == s2.len() + if k3
                && !has_equal_point(s2, p3) {
                1int
            } else {
                0int
            }
        }),
{
    let e = Seq::<Point2>::empty();
    lemma_has_equal_point_empty(p0);
    lemma_push_unique_if_step(e, k0, p0, p1);
    lemma_push_unique_if_step(e, k0, p0, p2);
    lemma_push_unique_if_step(e, k0, p0, p3);
    let s0 = push_unique_if(e, k0, p0);
    lemma_push_unique_if_step(s0, k1, p1, p2);
    lemma_push_unique_if_step(s0, k1, p1, p3);
    let s1 = push_unique_if(s0, k1, p1);
    lemma_push_unique_if_step(s1, k2, p2, p3);
    let s2 = push_unique_if(s1, k2, p2);
    lemma_push_unique_if_step(s2, k3, p3, p3);
}

/// Exact equality among four points is an equivalence.
proof fn lemma_equal4_equivalence(a: Point2, b: Point2, c: Point2, d: Point2)
    requires
        a.well_formed(),
        b.well_formed(),
        c.well_formed(),
        d.well_formed(),
    ensures
        points_equal2(a, b) == points_equal2(b, a),
        points_equal2(a, c) == points_equal2(c, a),
        points_equal2(a, d) == points_equal2(d, a),
        points_equal2(b, c) == points_equal2(c, b),
        points_equal2(b, d) == points_equal2(d, b),
        points_equal2(c, d) == points_equal2(d, c),
        points_equal2(a, b) && points_equal2(b, c) ==> points_equal2(a, c),
        points_equal2(a, b) && points_equal2(b, d) ==> points_equal2(a, d),
        points_equal2(a, c) && points_equal2(c, b) ==> points_equal2(a, b),
        points_equal2(a, c) && points_equal2(c, d) ==> points_equal2(a, d),
        points_equal2(a, d) && points_equal2(d, b) ==> points_equal2(a, b),
        points_equal2(a, d) && points_equal2(d, c) ==> points_equal2(a, c),
        points_equal2(b, c) && points_equal2(c, d) ==> points_equal2(b, d),
        points_equal2(b, d) && points_equal2(d, c) ==> points_equal2(b, c),
        points_equal2(b, a) && points_equal2(a, c) ==> points_equal2(b, c),
        points_equal2(b, a) && points_equal2(a, d) ==> points_equal2(b, d),
        points_equal2(c, a) && points_equal2(a, d) ==> points_equal2(c, d),
        points_equal2(c, b) && points_equal2(b, d) ==> points_equal2(c, d),
{
    lemma_order4(a.x, b.x, c.x, d.x);
    lemma_order4(a.y, b.y, c.y, d.y);
}

/// The number of distinct points kept by four conditional pushes does not
/// depend on their order.
proof fn lemma_push_chain4_order(
    p0: Point2,
    k0: bool,
    p1: Point2,
    k1: bool,
    p2: Point2,
    k2: bool,
    p3: Point2,
    k3: bool,
)
    requires
        p0.well_formed(),
        p1.well_formed(),
        p2.well_formed(),
        p3.well_formed(),
    ensures
        push_chain4(p2, k2, p3, k3, p0, k0, p1, k1).len() == push_chain4(p0, k0, p1, k1, p2, k2, p3, k3).len(),
        push_chain4(p0, k0, p1, k1, p3, k3, p2, k2).len() == push_chain4(p0, k0, p1, k1, p2, k2, p3, k3).len(),
{
    lemma_equal4_equivalence(p0, p1, p2, p3);
    lemma_push_chain4_steps(p0, k0, p1, k1, p2, k2, p3, k3);
    lemma_push_chain4_steps(p2, k2, p3, k3, p0, k0, p1, k1);
    lemma_push_chain4_steps(p0, k0, p1, k1, p3, k3, p2, k2);
}

/// The relation between two segments does not depend on which segment comes
/// first, nor on the order of a segment's endpoints.
pub proof fn law_segment_intersection_symmetric(a: Point2, b: Point2, c: Point2, d: Point2)
    requires
        a.well_formed(),
        b.well_formed(),
        c.well_formed(),
        d.well_formed(),
    ensures
        segment_intersection(c, d, a, b) == segment_intersection(a, b, c, d),
        segment_intersection(b, a, c, d) == segment_intersection(a, b, c, d),
{
    lemma_equal4_equivalence(a, b, c, d);
    lemma_orient2d_swap(a, b, c);
    lemma_orient2d_swap(a, b, d);
    let (kc, kd, ka, kb) = (
        collinear_on_segment(a, b, c),
        collinear_on_segment(a, b, d),
        collinear_on_segment(c, d, a),
        collinear_on_segment(c, d, b),
    );
    assert(shared_endpoints(a, b, c, d) == push_chain4(c, kc, d, kd, a, ka, b, kb));
    assert(shared_endpoints(c, d, a, b) == push_chain4(a, ka, b, kb, c, kc, d, kd));
    assert(collinear_on_segment(b, a, c) == kc && collinear_on_segment(b, a, d) == kd);
    assert(shared_endpoints(b, a, c, d) == push_chain4(c, kc, d, kd, b, kb, a, ka));
    lemma_push_chain4_order(c, kc, d, kd, a, ka, b, kb);
}

/// Segments prepared with their exact facts, as `PreparedSegment2::new`
/// computes them, are classified against points and against each other as
/// the plain classifiers do.
pub proof fn law_prepared_segments_match(a: Point2, b: Point2, c: Point2, d: Point2, point: Point2)
    requires
        a.well_formed(),
        b.well_formed(),
        c.well_formed(),
        d.well_formed(),
        point.well_formed(),
    ensures
        ({
            let first = Segment2Facts { degenerate: Some(points_equal2(a, b)) };
            let second = Segment2Facts { degenerate: Some(points_equal2(c, d)) };
            &&& point_segment_location_with_facts(a, b, point, Some(first)) == point_segment_location(
                a,
                b,
                point,
            )
            &&& segment_intersection_with_facts(a, b, c, d, Some(first), Some(second))
                == segment_intersection(a, b, c, d)
        }),
{
    let first = Segment2Facts { degenerate: Some(points_equal2(a, b)) };
    let second = Segment2Facts { degenerate: Some(points_equal2(c, d)) };
    law_point_segment_facts_agree(a, b, point, first);
    law_segment_facts_agree(a, b, c, d, Some(first), Some(second));
}

/// Closed segments that touch are never reported disjoint. When an endpoint
/// of one segment lies on the other closed segment (at an endpoint or in its
/// interior), the relation is not `Disjoint`; unless all four points are
/// collinear, it is `EndpointTouch`.
pub proof fn law_segment_contact(a: Point2, b: Point2, c: Point2, d: Point2)
    requires
        a.well_formed(),
        b.well_formed(),
        c.well_formed(),
        d.well_formed(),
    ensures
        ({
            let touches = point_segment_location(a, b, c).spec_is_on_segment()
                || point_segment_location(a, b, d).spec_is_on_segment() || point_segment_location(
                c,
                d,
                a,
            ).spec_is_on_segment() || point_segment_location(c, d, b).spec_is_on_segment();
            let collinear = orient2d_sign(a, b, c) == Sign::Zero && orient2d_sign(a, b, d)
                == Sign::Zero && orient2d_sign(c, d, a) == Sign::Zero && orient2d_sign(c, d, b)
                == Sign::Zero;
            &&& touches ==> segment_intersection(a, b, c, d) != SegmentIntersection::Disjoint
            &&& touches && !collinear ==> segment_intersection(a, b, c, d)
                == SegmentIntersection::EndpointTouch
        }),
{
    let (kc, kd, ka, kb) = (
        collinear_on_segment(a, b, c),
        collinear_on_segment(a, b, d),
        collinear_on_segment(c, d, a),
        collinear_on_segment(c, d, b),
    );
    assert(shared_endpoints(a, b, c, d) == push_chain4(c, kc, d, kd, a, ka, b, kb));
    lemma_push_chain4_steps(c, kc, d, kd, a, ka, b, kb);
    lemma_has_equal_point_empty(c);
}

/// Two segments that cross at a single interior point are reported `Proper`
/// exactly when each segment has its endpoints strictly on opposite sides of
/// the other's supporting line; a proper crossing never touches an endpoint.
pub proof fn law_segment_proper(a: Point2, b: Point2, c: Point2, d: Point2)
    ensures
        segment_intersection(a, b, c, d) == SegmentIntersection::Proper <==> (
            orient2d_sign(a, b, c) == orient2d_sign(a, b, d).spec_reversed() && orient2d_sign(a, b, c)
                != Sign::Zero && orient2d_sign(c, d, a) == orient2d_sign(c, d, b).spec_reversed()
                && orient2d_sign(c, d, a) != Sign::Zero),
{
}

/// Two segments are reported `Identical` exactly when they have the same
/// endpoints, in either order.
pub proof fn law_segment_identical(a: Point2, b: Point2, c: Point2, d: Point2)
    requires
        a.well_formed(),
        b.well_formed(),
        c.well_formed(),
        d.well_formed(),
    ensures
        segment_intersection(a, b, c, d) == SegmentIntersection::Identical <==> (points_equal2(a, c)
            && points_equal2(b, d)) || (points_equal2(a, d) && points_equal2(b, c)),
{
    lemma_orient2d_repeat(a, b);
    lemma_orient2d_repeat(c, d);
    lemma_points_equal2_symmetric(a, c);
    lemma_points_equal2_symmetric(a, d);
    lemma_points_equal2_symmetric(b, c);
    lemma_points_equal2_symmetric(b, d);
    if points_equal2(a, c) && points_equal2(b, d) {
        lemma_orient2d_substitute(a, b, c, a);
        lemma_orient2d_substitute(a, b, d, b);
        lemma_orient2d_substitute(c, d, a, c);
        lemma_orient2d_substitute(c, d, b, d);
    }
    if points_equal2(a, d) && points_equal2(b, c) {
        lemma_orient2d_substitute(a, b, c, b);
        lemma_orient2d_substitute(a, b, d, a);
        lemma_orient2d_substitute(c, d, a, d);
        lemma_orient2d_substitute(c, d, b, c);
    }
}

} // verus!
