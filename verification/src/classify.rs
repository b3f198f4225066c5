//! Result classifications returned by the predicates.
use vstd::prelude::*;

use crate::predicate::Sign;

verus! {

/// Location of a value relative to a closed interval.
#[derive(Clone, Copy, Debug, PartialEq, Eq, Structural)]
pub enum RealIntervalLocation {
    BelowLower,
    AtLowerEndpoint,
    Inside,
    AtUpperEndpoint,
    AboveUpper,
}

impl RealIntervalLocation {
    pub open spec fn spec_is_inside_or_boundary(self) -> bool {
        !(self is BelowLower) && !(self is AboveUpper)
    }

    /// Whether the value lies in the closed interval.
    pub fn is_inside_or_boundary(self) -> (r: bool)
        ensures
            r == self.spec_is_inside_or_boundary(),
    {
        match self {
            RealIntervalLocation::BelowLower => false,
            RealIntervalLocation::AboveUpper => false,
            _ => true,
        }
    }
}

/// Relation between two closed intervals.
#[derive(Clone, Copy, Debug, PartialEq, Eq, Structural)]
pub enum ClosedIntervalIntersection {
    Disjoint,
    /// The intervals share exactly one point.
    Touching,
    /// The intervals share a range of positive length.
    Overlapping,
}

/// Location of a point relative to a closed 2D axis-aligned box.
#[derive(Clone, Copy, Debug, PartialEq, Eq, Structural)]
pub enum Aabb2PointLocation {
    Inside,
    Boundary,
    Outside,
}

impl Aabb2PointLocation {
    pub open spec fn spec_is_inside_or_boundary(self) -> bool {
        !(self is Outside)
    }

    /// Whether the point lies in the closed box.
    pub fn is_inside_or_boundary(self) -> (r: bool)
        ensures
            r == self.spec_is_inside_or_boundary(),
    {
        !matches!(self, Aabb2PointLocation::Outside)
    }
}

/// Location of a point relative to a closed 3D axis-aligned box.
#[derive(Clone, Copy, Debug, PartialEq, Eq, Structural)]
pub enum Aabb3PointLocation {
    Inside,
    Boundary,
    Outside,
}

impl Aabb3PointLocation {
    pub open spec fn spec_is_inside_or_boundary(self) -> bool {
        !(self is Outside)
    }

    /// Whether the point lies in the closed box.
    pub fn is_inside_or_boundary(self) -> (r: bool)
        ensures
            r == self.spec_is_inside_or_boundary(),
    {
        !matches!(self, Aabb3PointLocation::Outside)
    }
}

/// Relation between two closed 2D axis-aligned boxes.
#[derive(Clone, Copy, Debug, PartialEq, Eq, Structural)]
pub enum Aabb2Intersection {
    Disjoint,
    /// Contact with zero area.
    Touching,
    /// Intersection of positive area.
    Overlapping,
}

impl Aabb2Intersection {
    pub open spec fn spec_intersects(self) -> bool {
        !(self is Disjoint)
    }

    /// Whether the boxes share at least one point.
    pub fn intersects(self) -> (r: bool)
        ensures
            r == self.spec_intersects(),
    {
        !matches!(self, Aabb2Intersection::Disjoint)
    }
}

/// Relation between two closed 3D axis-aligned boxes.
#[derive(Clone, Copy, Debug, PartialEq, Eq, Structural)]
pub enum Aabb3Intersection {
    Disjoint,
    /// Contact with zero volume.
    Touching,
    /// Intersection of positive volume.
    Overlapping,
}

impl Aabb3Intersection {
    pub open spec fn spec_intersects(self) -> bool {
        !(self is Disjoint)
    }

    /// Whether the boxes share at least one point.
    pub fn intersects(self) -> (r: bool)
        ensures
            r == self.spec_intersects(),
    {
        !matches!(self, Aabb3Intersection::Disjoint)
    }
}

/// Location of a point relative to a closed segment.
#[derive(Clone, Copy, Debug, PartialEq, Eq, Structural)]
pub enum PointSegmentLocation {
    /// Strictly between the endpoints.
    OnSegment,
    /// At one of the endpoints.
    OnEndpoint,
    /// On the supporting line but outside the segment.
    CollinearOutside,
    /// Off the supporting line.
    OffLine,
}

impl PointSegmentLocation {
    pub open spec fn spec_is_on_segment(self) -> bool {
        self is OnSegment || self is OnEndpoint
    }

    /// Whether the point lies on the closed segment.
    pub fn is_on_segment(self) -> (r: bool)
        ensures
            r == self.spec_is_on_segment(),
    {
        matches!(self, PointSegmentLocation::OnSegment | PointSegmentLocation::OnEndpoint)
    }
}

/// Relation between two closed segments.
#[derive(Clone, Copy, Debug, PartialEq, Eq, Structural)]
pub enum SegmentIntersection {
    Disjoint,
    /// The segments cross at one interior point of both.
    Proper,
    /// The segments share exactly one point, an endpoint of one of them.
    EndpointTouch,
    /// The segments are collinear and share more than one point.
    CollinearOverlap,
    /// The segments have the same endpoints.
    Identical,
}

/// Location of a point relative to a 2D triangle.
#[derive(Clone, Copy, Debug, PartialEq, Eq, Structural)]
pub enum TriangleLocation {
    Inside,
    OnEdge,
    OnVertex,
    Outside,
    Degenerate,
}

/// Location of a point relative to a 3D triangle.
#[derive(Clone, Copy, Debug, PartialEq, Eq, Structural)]
pub enum Triangle3Location {
    Inside,
    OnEdge,
    OnVertex,
    Outside,
    OffPlane,
    Degenerate,
}

/// Location of a point relative to a tetrahedron.
#[derive(Clone, Copy, Debug, PartialEq, Eq, Structural)]
pub enum TetrahedronLocation {
    Inside,
    OnFace,
    OnEdge,
    OnVertex,
    Outside,
    Degenerate,
}

/// Location of a point relative to a sphere.
#[derive(Clone, Copy, Debug, PartialEq, Eq, Structural)]
pub enum SpherePointLocation {
    Inside,
    On,
    Outside,
}

/// Side of a plane.
#[derive(Clone, Copy, Debug, PartialEq, Eq, Structural)]
pub enum PlaneSide {
    Below,
    On,
    Above,
}

impl PlaneSide {
    pub open spec fn spec_from_sign(sign: Sign) -> PlaneSide {
        match sign {
            Sign::Negative => PlaneSide::Below,
            Sign::Zero => PlaneSide::On,
            Sign::Positive => PlaneSide::Above,
        }
    }

    /// Negative is below, zero is on, positive is above.
    pub fn from_sign(sign: Sign) -> (r: PlaneSide)
        ensures
            r == Self::spec_from_sign(sign),
    {
        match sign {
            Sign::Negative => PlaneSide::Below,
            Sign::Zero => PlaneSide::On,
            Sign::Positive => PlaneSide::Above,
        }
    }
}

/// Relation between a closed segment and a plane.
#[derive(Clone, Copy, Debug, PartialEq, Eq, Structural)]
pub enum PlaneSegmentRelation {
    Below,
    Above,
    Coplanar,
    /// One endpoint on the plane, the other off it.
    EndpointTouch,
    /// The endpoints lie strictly on opposite sides.
    Crossing,
}

/// Relation between a triangle and a plane.
#[derive(Clone, Copy, Debug, PartialEq, Eq, Structural)]
pub enum PlaneTriangleRelation {
    Below,
    Above,
    Coplanar,
    /// Vertices lie strictly on both sides.
    Split,
    /// Some vertex on the plane, none strictly on the opposite side of another.
    BoundaryTouch,
}

} // verus!
