//! Triangle and tetrahedron classification predicates.
use vstd::prelude::*;

use crate::classify::{TetrahedronLocation, Triangle3Location, TriangleLocation};
use crate::exact::{add_ref, mul_ref, rat_add, rat_mul, rat_sign, scalar_difference, sub_ref, ExactReal, Rat};
use crate::geometry::{
    cross_at, orient2d_sign, orient3d_sign, triangle2_facts, triangle2_term_degeneracy, Point2,
    Point3, Triangle2Facts,
};
use crate::predicate::{
    certified, combine_certainties, combine_stages, max_certainty, max_stage, spec_max_certainty,
    spec_max_stage, Certainty, Escalation, PredicateOutcome, PredicatePolicy, Sign,
};
use crate::predicates::orient::{orient2d_with_policy, orient3d_with_policy};
use crate::resolve::resolve_real_sign;
use crate::exact::lemma_denotes_sign;
use crate::geometry::cleared::{
    cross_cleared, lemma_cross_cleared, lemma_cross_rotation, lemma_dot_with_itself, scales3,
    lemma_orient3d_repeated, lemma_orient2d_cycle, lemma_orient2d_equal_first, lemma_orient2d_swap, lemma_points_equal2_refl,
};

verus! {

/// Number of zero signs among three.
pub open spec fn zero_count3(s0: Sign, s1: Sign, s2: Sign) -> nat {
    (if s0 == Sign::Zero { 1nat } else { 0nat }) + (if s1 == Sign::Zero { 1nat } else { 0nat })
        + (if s2 == Sign::Zero { 1nat } else { 0nat })
}

/// Location of a point from the triangle orientation and its three edge signs.
pub open spec fn triangle_location_from_signs(orientation: Sign, ab: Sign, bc: Sign, ca: Sign) -> TriangleLocation {
    if orientation == Sign::Zero {
        TriangleLocation::Degenerate
    } else if ab == orientation.spec_reversed() || bc == orientation.spec_reversed() || ca
        == orientation.spec_reversed() {
        TriangleLocation::Outside
    } else if zero_count3(ab, bc, ca) == 0 {
        TriangleLocation::Inside
    } else if zero_count3(ab, bc, ca) == 1 {
        TriangleLocation::OnEdge
    } else {
        TriangleLocation::OnVertex
    }
}

/// Location of `point` against the triangle `abc` whose orientation is
/// taken as `orientation`.
pub open spec fn triangle_location_with_orientation(
    a: Point2,
    b: Point2,
    c: Point2,
    point: Point2,
    orientation: Sign,
) -> TriangleLocation {
    triangle_location_from_signs(
        orientation,
        orient2d_sign(a, b, point),
        orient2d_sign(b, c, point),
        orient2d_sign(c, a, point),
    )
}

/// Location of `point` against the triangle `abc`.
pub open spec fn triangle_location(a: Point2, b: Point2, c: Point2, point: Point2) -> TriangleLocation {
    triangle_location_with_orientation(a, b, c, point, orient2d_sign(a, b, c))
}

/// The triangle orientation, read as zero when the facts mark it degenerate.
pub open spec fn orientation_with_facts(a: Point2, b: Point2, c: Point2, facts: Triangle2Facts) -> Sign {
    if facts.degenerate == Some(true) {
        Sign::Zero
    } else {
        orient2d_sign(a, b, c)
    }
}

/// Classification of `point` given an orientation outcome for `abc`: an
/// undecided orientation stays undecided, a decided one keeps its provenance.
pub open spec fn triangle_outcome_with_orientation(
    a: Point2,
    b: Point2,
    c: Point2,
    point: Point2,
    orientation: PredicateOutcome<Sign>,
) -> PredicateOutcome<TriangleLocation> {
    match orientation {
        PredicateOutcome::Decided { value, certainty, stage } => PredicateOutcome::Decided {
            value: triangle_location_with_orientation(a, b, c, point, value),
            certainty,
            stage,
        },
        PredicateOutcome::Unknown { needed, stage } => PredicateOutcome::Unknown { needed, stage },
    }
}

/// The normal `(b - a) x (c - a)` of the triangle `abc`.
pub open spec fn triangle3_normal(a: Point3, b: Point3, c: Point3) -> (Rat, Rat, Rat) {
    cross_at(a, b, c)
}

/// `normal . ((end - start) x (point - start))`.
pub open spec fn edge_halfspace_dot(normal: (Rat, Rat, Rat), start: Point3, end: Point3, point: Point3) -> Rat {
    let cross = cross_at(start, end, point);
    rat_add(
        rat_add(rat_mul(normal.0, cross.0), rat_mul(normal.1, cross.1)),
        rat_mul(normal.2, cross.2),
    )
}

/// Location of `point` against the 3D triangle `abc`.
pub open spec fn triangle3_location(a: Point3, b: Point3, c: Point3, point: Point3) -> Triangle3Location {
    let n = triangle3_normal(a, b, c);
    let ab = rat_sign(edge_halfspace_dot(n, a, b, point));
    let bc = rat_sign(edge_halfspace_dot(n, b, c, point));
    let ca = rat_sign(edge_halfspace_dot(n, c, a, point));
    if rat_sign(n.0) == Sign::Zero && rat_sign(n.1) == Sign::Zero && rat_sign(n.2) == Sign::Zero {
        Triangle3Location::Degenerate
    } else if orient3d_sign(a, b, c, point) != Sign::Zero {
        Triangle3Location::OffPlane
    } else if ab == Sign::Negative || bc == Sign::Negative || ca == Sign::Negative {
        Triangle3Location::Outside
    } else if zero_count3(ab, bc, ca) == 0 {
        Triangle3Location::Inside
    } else if zero_count3(ab, bc, ca) == 1 {
        Triangle3Location::OnEdge
    } else {
        Triangle3Location::OnVertex
    }
}

/// Number of zero signs among four.
pub open spec fn zero_count4(s0: Sign, s1: Sign, s2: Sign, s3: Sign) -> nat {
    zero_count3(s0, s1, s2) + (if s3 == Sign::Zero { 1nat } else { 0nat })
}

/// Location of `point` against the tetrahedron `abcd`.
pub open spec fn tetrahedron_location(a: Point3, b: Point3, c: Point3, d: Point3, point: Point3) -> TetrahedronLocation {
    let t = orient3d_sign(a, b, c, d);
    let s0 = orient3d_sign(a, b, c, point);
    let s1 = orient3d_sign(a, b, point, d);
    let s2 = orient3d_sign(a, point, c, d);
    let s3 = orient3d_sign(point, b, c, d);
    if t == Sign::Zero {
        TetrahedronLocation::Degenerate
    } else if s0 == t.spec_reversed() || s1 == t.spec_reversed() || s2 == t.spec_reversed() || s3
        == t.spec_reversed() {
        TetrahedronLocation::Outside
    } else if zero_count4(s0, s1, s2, s3) == 0 {
        TetrahedronLocation::Inside
    } else if zero_count4(s0, s1, s2, s3) == 1 {
        TetrahedronLocation::OnFace
    } else if zero_count4(s0, s1, s2, s3) == 2 {
        TetrahedronLocation::OnEdge
    } else {
        TetrahedronLocation::OnVertex
    }
}

/// Reusable exact predicates for one 2D triangle.
///
/// Stores borrowed vertices, [`Triangle2Facts`] and the orientation outcome
/// under the policy used at preparation time, for loops that classify many
/// points against the same triangle.
#[derive(Clone, Copy, Debug)]
pub struct PreparedTriangle2<'a> {
    a: &'a Point2,
    b: &'a Point2,
    c: &'a Point2,
    facts: Triangle2Facts,
    orientation: PredicateOutcome<Sign>,
    policy: PredicatePolicy,
}

impl<'a> PreparedTriangle2<'a> {
    pub closed spec fn spec_a(&self) -> Point2 {
        *self.a
    }

    pub closed spec fn spec_b(&self) -> Point2 {
        *self.b
    }

    pub closed spec fn spec_c(&self) -> Point2 {
        *self.c
    }

    pub closed spec fn spec_facts(&self) -> Triangle2Facts {
        self.facts
    }

    pub closed spec fn spec_orientation(&self) -> PredicateOutcome<Sign> {
        self.orientation
    }

    pub closed spec fn spec_policy(&self) -> PredicatePolicy {
        self.policy
    }

    /// Prepares a triangle under the default policy.
    pub fn new(a: &'a Point2, b: &'a Point2, c: &'a Point2) -> (r: Self)
        ensures
            r.spec_a() == *a,
            r.spec_b() == *b,
            r.spec_c() == *c,
            r.spec_facts().degenerate == triangle2_term_degeneracy(*a, *b, *c),
            r.spec_orientation() == certified(orient2d_sign(*a, *b, *c)),
            r.spec_policy() == PredicatePolicy::default_spec(),
    {
        Self::with_policy(a, b, c, PredicatePolicy::default())
    }

    /// Prepares a triangle under an explicit policy.
    pub fn with_policy(a: &'a Point2, b: &'a Point2, c: &'a Point2, policy: PredicatePolicy) -> (r: Self)
        ensures
            r.spec_a() == *a,
            r.spec_b() == *b,
            r.spec_c() == *c,
            r.spec_facts().degenerate == triangle2_term_degeneracy(*a, *b, *c),
            r.spec_orientation() == certified(orient2d_sign(*a, *b, *c)),
            r.spec_policy() == policy,
    {
        let facts = triangle2_facts(a, b, c);
        let orientation = triangle_orientation_with_policy_and_facts(a, b, c, policy, facts);
        Self::from_parts(a, b, c, facts, orientation, policy)
    }

    /// Prepares a triangle from caller-cached facts and orientation for the
    /// same vertices and policy.
    pub fn from_parts(
        a: &'a Point2,
        b: &'a Point2,
        c: &'a Point2,
        facts: Triangle2Facts,
        orientation: PredicateOutcome<Sign>,
        policy: PredicatePolicy,
    ) -> (r: Self)
        ensures
            r.spec_a() == *a,
            r.spec_b() == *b,
            r.spec_c() == *c,
            r.spec_facts() == facts,
            r.spec_orientation() == orientation,
            r.spec_policy() == policy,
    {
        Self { a, b, c, facts, orientation, policy }
    }

    /// Vertex `a`.
    pub fn a(&self) -> (r: &'a Point2)
        ensures
            *r == self.spec_a(),
    {
        self.a
    }

    /// Vertex `b`.
    pub fn b(&self) -> (r: &'a Point2)
        ensures
            *r == self.spec_b(),
    {
        self.b
    }

    /// Vertex `c`.
    pub fn c(&self) -> (r: &'a Point2)
        ensures
            *r == self.spec_c(),
    {
        self.c
    }

    /// The cached facts.
    pub fn facts(&self) -> (r: Triangle2Facts)
        ensures
            r == self.spec_facts(),
    {
        self.facts
    }

    /// The cached orientation outcome.
    pub fn orientation(&self) -> (r: PredicateOutcome<Sign>)
        ensures
            r == self.spec_orientation(),
    {
        self.orientation
    }

    /// The policy of the cached orientation.
    pub fn policy(&self) -> (r: PredicatePolicy)
        ensures
            r == self.spec_policy(),
    {
        self.policy
    }

    /// Classifies a point with the cached orientation.
    pub fn classify_point(&self, point: &Point2) -> (r: PredicateOutcome<TriangleLocation>)
        ensures
            r == triangle_outcome_with_orientation(
                self.spec_a(),
                self.spec_b(),
                self.spec_c(),
                *point,
                self.spec_orientation(),
            ),
    {
        classify_point_triangle_impl(
            self.a,
            self.b,
            self.c,
            point,
            self.policy,
            Some(self.facts),
            Some(self.orientation),
        )
    }

    /// Classifies a point under `policy`: the cached orientation is reused when
    /// `policy` is the preparation policy, and recomputed otherwise.
    pub fn classify_point_with_policy(&self, point: &Point2, policy: PredicatePolicy) -> (r:
        PredicateOutcome<TriangleLocation>)
        ensures
            policy == self.spec_policy() ==> r == triangle_outcome_with_orientation(
                self.spec_a(),
                self.spec_b(),
                self.spec_c(),
                *point,
                self.spec_orientation(),
            ),
            policy != self.spec_policy() ==> r == certified(
                triangle_location_with_orientation(
                    self.spec_a(),
                    self.spec_b(),
                    self.spec_c(),
                    *point,
                    orientation_with_facts(self.spec_a(), self.spec_b(), self.spec_c(), self.spec_facts()),
                ),
            ),
    {
        let cached_orientation = if policy == self.policy {
            Some(self.orientation)
        } else {
            None
        };
        classify_point_triangle_impl(
            self.a,
            self.b,
            self.c,
            point,
            policy,
            Some(self.facts),
            cached_orientation,
        )
    }
}

/// Classifies `point` against the triangle `abc`.
pub fn classify_point_triangle(a: &Point2, b: &Point2, c: &Point2, point: &Point2) -> (r:
    PredicateOutcome<TriangleLocation>)
    ensures
        r == certified(triangle_location(*a, *b, *c, *point)),
{
    classify_point_triangle_with_policy(a, b, c, point, PredicatePolicy::default())
}

/// Classifies `point` against the triangle `abc`.
pub fn classify_point_triangle_with_policy(
    a: &Point2,
    b: &Point2,
    c: &Point2,
    point: &Point2,
    policy: PredicatePolicy,
) -> (r: PredicateOutcome<TriangleLocation>)
    ensures
        r == certified(triangle_location(*a, *b, *c, *point)),
{
    classify_point_triangle_impl(a, b, c, point, policy, None, None)
}

/// Classifies `point` against the triangle `abc` with cached facts.
pub fn classify_point_triangle_with_facts(
    a: &Point2,
    b: &Point2,
    c: &Point2,
    point: &Point2,
    facts: Triangle2Facts,
) -> (r: PredicateOutcome<TriangleLocation>)
    ensures
        r == certified(
            triangle_location_with_orientation(*a, *b, *c, *point, orientation_with_facts(*a, *b, *c, facts)),
        ),
{
    classify_point_triangle_with_policy_and_facts(a, b, c, point, PredicatePolicy::default(), facts)
}

/// Classifies `point` against the triangle `abc` with an explicit policy and
/// cached facts: facts can certify a degenerate triangle without building the
/// orientation determinant; containment still uses exact edge orientations.
pub fn classify_point_triangle_with_policy_and_facts(
    a: &Point2,
    b: &Point2,
    c: &Point2,
    point: &Point2,
    policy: PredicatePolicy,
    facts: Triangle2Facts,
) -> (r: PredicateOutcome<TriangleLocation>)
    ensures
        r == certified(
            triangle_location_with_orientation(*a, *b, *c, *point, orientation_with_facts(*a, *b, *c, facts)),
        ),
{
    classify_point_triangle_impl(a, b, c, point, policy, Some(facts), None)
}

struct DecidedSign {
    sign: Sign,
    certainty: Certainty,
    stage: Escalation,
}

fn classify_point_triangle_impl(
    a: &Point2,
    b: &Point2,
    c: &Point2,
    point: &Point2,
    policy: PredicatePolicy,
    facts: Option<Triangle2Facts>,
    cached_orientation: Option<PredicateOutcome<Sign>>,
) -> (r: PredicateOutcome<TriangleLocation>)
    ensures
        r == triangle_outcome_with_orientation(
            *a,
            *b,
            *c,
            *point,
            match cached_orientation {
                Some(orientation) => orientation,
                None => certified(
                    match facts {
                        Some(f) => orientation_with_facts(*a, *b, *c, f),
                        None => orient2d_sign(*a, *b, *c),
                    },
                ),
            },
        ),
{
    let triangle_outcome = match cached_orientation {
        Some(orientation) => orientation,
        None => triangle_orientation_with_optional_facts(a, b, c, policy, facts),
    };
    let triangle = match triangle_outcome {
        PredicateOutcome::Decided { value, certainty, stage } => DecidedSign {
            sign: value,
            certainty,
            stage,
        },
        PredicateOutcome::Unknown { needed, stage } => {
            return PredicateOutcome::Unknown { needed, stage };
        },
    };
    if matches!(triangle.sign, Sign::Zero) {
        return PredicateOutcome::decided(
            TriangleLocation::Degenerate,
            triangle.certainty,
            triangle.stage,
        );
    }
    let ab = match orient2d_with_policy(a, b, point, policy) {
        PredicateOutcome::Decided { value, certainty, stage } => DecidedSign {
            sign: value,
            certainty,
            stage,
        },
        PredicateOutcome::Unknown { needed, stage } => {
            return PredicateOutcome::Unknown { needed, stage };
        },
    };
    let bc = match orient2d_with_policy(b, c, point, policy) {
        PredicateOutcome::Decided { value, certainty, stage } => DecidedSign {
            sign: value,
            certainty,
            stage,
        },
        PredicateOutcome::Unknown { needed, stage } => {
            return PredicateOutcome::Unknown { needed, stage };
        },
    };
    let ca = match orient2d_with_policy(c, a, point, policy) {
        PredicateOutcome::Decided { value, certainty, stage } => DecidedSign {
            sign: value,
            certainty,
            stage,
        },
        PredicateOutcome::Unknown { needed, stage } => {
            return PredicateOutcome::Unknown { needed, stage };
        },
    };
    let certainty = combine_certainties(
        [triangle.certainty, ab.certainty, bc.certainty, ca.certainty],
    );
    let stage = combine_stages([triangle.stage, ab.stage, bc.stage, ca.stage]);
    let opposite = triangle.sign.reversed();
    if ab.sign == opposite || bc.sign == opposite || ca.sign == opposite {
        return PredicateOutcome::decided(TriangleLocation::Outside, certainty, stage);
    }
    let zero_count = count_zero(ab.sign) + count_zero(bc.sign) + count_zero(ca.sign);
    let location = if zero_count == 0 {
        TriangleLocation::Inside
    } else if zero_count == 1 {
        TriangleLocation::OnEdge
    } else {
        TriangleLocation::OnVertex
    };
    PredicateOutcome::decided(location, certainty, stage)
}

fn count_zero(sign: Sign) -> (r: u8)
    ensures
        r == (if sign == Sign::Zero { 1nat } else { 0nat }),
{
    if matches!(sign, Sign::Zero) {
        1
    } else {
        0
    }
}

fn triangle_orientation_with_optional_facts(
    a: &Point2,
    b: &Point2,
    c: &Point2,
    policy: PredicatePolicy,
    facts: Option<Triangle2Facts>,
) -> (r: PredicateOutcome<Sign>)
    ensures
        r == certified(
            match facts {
                Some(f) => orientation_with_facts(*a, *b, *c, f),
                None => orient2d_sign(*a, *b, *c),
            },
        ),
{
    match facts {
        Some(facts) => triangle_orientation_with_policy_and_facts(a, b, c, policy, facts),
        None => orient2d_with_policy(a, b, c, policy),
    }
}

fn triangle_orientation_with_policy_and_facts(
    a: &Point2,
    b: &Point2,
    c: &Point2,
    policy: PredicatePolicy,
    facts: Triangle2Facts,
) -> (r: PredicateOutcome<Sign>)
    ensures
        r == certified(orientation_with_facts(*a, *b, *c, facts)),
{
    if facts.known_degenerate() == Some(true) {
        // Duplicate-vertex and same-axis degeneracies are certified from the
        // exact zero pattern of the determinant terms.
        PredicateOutcome::decided(Sign::Zero, Certainty::Exact, Escalation::StructuralFacts)
    } else {
        orient2d_with_policy(a, b, c, policy)
    }
}

/// The signs of the three normal components.
pub open spec fn normal_signs_of(n: (Rat, Rat, Rat)) -> [Sign; 3] {
    [rat_sign(n.0), rat_sign(n.1), rat_sign(n.2)]
}

/// Exact normal of a 3D triangle.
struct Triangle3Normal {
    x: ExactReal,
    y: ExactReal,
    z: ExactReal,
}

impl Triangle3Normal {
    spec fn is_normal_of(&self, a: Point3, b: Point3, c: Point3) -> bool {
        let n = triangle3_normal(a, b, c);
        self.x.rat() == n.0 && self.y.rat() == n.1 && self.z.rat() == n.2
    }
}

/// Reusable exact predicates for one 3D triangle.
///
/// Stores borrowed vertices, the exact normal and the outcome of its signs
/// under the policy used at preparation time.
pub struct PreparedTriangle3<'a> {
    a: &'a Point3,
    b: &'a Point3,
    c: &'a Point3,
    normal: Triangle3Normal,
    normal_signs: PredicateOutcome<[Sign; 3]>,
    policy: PredicatePolicy,
}

impl<'a> PreparedTriangle3<'a> {
    #[verifier::type_invariant]
    spec fn cached_normal_matches(self) -> bool {
        &&& self.normal.is_normal_of(*self.a, *self.b, *self.c)
        &&& self.normal_signs == certified(normal_signs_of(triangle3_normal(*self.a, *self.b, *self.c)))
    }

    pub closed spec fn spec_a(&self) -> Point3 {
        *self.a
    }

    pub closed spec fn spec_b(&self) -> Point3 {
        *self.b
    }

    pub closed spec fn spec_c(&self) -> Point3 {
        *self.c
    }

    pub closed spec fn spec_policy(&self) -> PredicatePolicy {
        self.policy
    }

    /// Prepares a 3D triangle under the default policy.
    pub fn new(a: &'a Point3, b: &'a Point3, c: &'a Point3) -> (r: Self)
        ensures
            r.spec_a() == *a,
            r.spec_b() == *b,
            r.spec_c() == *c,
            r.spec_policy() == PredicatePolicy::default_spec(),
    {
        Self::with_policy(a, b, c, PredicatePolicy::default())
    }

    /// Prepares a 3D triangle under an explicit policy.
    pub fn with_policy(a: &'a Point3, b: &'a Point3, c: &'a Point3, policy: PredicatePolicy) -> (r: Self)
        ensures
            r.spec_a() == *a,
            r.spec_b() == *b,
            r.spec_c() == *c,
            r.spec_policy() == policy,
    {
        let normal = triangle3_normal_exact(a, b, c);
        let normal_signs = triangle3_normal_signs_outcome(&normal, policy);
        Self { a, b, c, normal, normal_signs, policy }
    }

    /// Vertex `a`.
    pub fn a(&self) -> (r: &'a Point3)
        ensures
            *r == self.spec_a(),
    {
        self.a
    }

    /// Vertex `b`.
    pub fn b(&self) -> (r: &'a Point3)
        ensures
            *r == self.spec_b(),
    {
        self.b
    }

    /// Vertex `c`.
    pub fn c(&self) -> (r: &'a Point3)
        ensures
            *r == self.spec_c(),
    {
        self.c
    }

    /// The cached outcome of the normal's component signs.
    pub fn normal_signs(&self) -> (r: PredicateOutcome<[Sign; 3]>)
        ensures
            r == certified(normal_signs_of(triangle3_normal(self.spec_a(), self.spec_b(), self.spec_c()))),
    {
        proof {
            use_type_invariant(self);
        }
        self.normal_signs
    }

    /// The policy of the cached normal signs.
    pub fn policy(&self) -> (r: PredicatePolicy)
        ensures
            r == self.spec_policy(),
    {
        self.policy
    }

    /// Classifies a point with the cached normal signs.
    pub fn classify_point(&self, point: &Point3) -> (r: PredicateOutcome<Triangle3Location>)
        ensures
            r == certified(triangle3_location(self.spec_a(), self.spec_b(), self.spec_c(), *point)),
    {
        proof {
            use_type_invariant(self);
        }
        classify_point_triangle3_impl(
            self.a,
            self.b,
            self.c,
            point,
            self.policy,
            &self.normal,
            self.normal_signs,
        )
    }

    /// Classifies a point under `policy`, recomputing the normal signs when
    /// `policy` differs from the preparation policy.
    pub fn classify_point_with_policy(&self, point: &Point3, policy: PredicatePolicy) -> (r:
        PredicateOutcome<Triangle3Location>)
        ensures
            r == certified(triangle3_location(self.spec_a(), self.spec_b(), self.spec_c(), *point)),
    {
        proof {
            use_type_invariant(self);
        }
        if policy == self.policy {
            self.classify_point(point)
        } else {
            let normal_signs = triangle3_normal_signs_outcome(&self.normal, policy);
            classify_point_triangle3_impl(
                self.a,
                self.b,
                self.c,
                point,
                policy,
                &self.normal,
                normal_signs,
            )
        }
    }
}

/// Classifies `point` against the 3D triangle `abc`.
pub fn classify_point_triangle3(a: &Point3, b: &Point3, c: &Point3, point: &Point3) -> (r:
    PredicateOutcome<Triangle3Location>)
    ensures
        r == certified(triangle3_location(*a, *b, *c, *point)),
{
    classify_point_triangle3_with_policy(a, b, c, point, PredicatePolicy::default())
}

/// Classifies `point` against the 3D triangle `abc`: first certifies a
/// nonzero normal, then that `point` is on the supporting plane; containment
/// is decided by the exact signs of
/// `normal . ((edge_end - edge_start) x (point - edge_start))`.
pub fn classify_point_triangle3_with_policy(
    a: &Point3,
    b: &Point3,
    c: &Point3,
    point: &Point3,
    policy: PredicatePolicy,
) -> (r: PredicateOutcome<Triangle3Location>)
    ensures
        r == certified(triangle3_location(*a, *b, *c, *point)),
{
    let normal = triangle3_normal_exact(a, b, c);
    let normal_signs = triangle3_normal_signs_outcome(&normal, policy);
    classify_point_triangle3_impl(a, b, c, point, policy, &normal, normal_signs)
}

fn classify_point_triangle3_impl(
    a: &Point3,
    b: &Point3,
    c: &Point3,
    point: &Point3,
    policy: PredicatePolicy,
    normal: &Triangle3Normal,
    normal_signs_outcome: PredicateOutcome<[Sign; 3]>,
) -> (r: PredicateOutcome<Triangle3Location>)
    requires
        normal.is_normal_of(*a, *b, *c),
        normal_signs_outcome == certified(normal_signs_of(triangle3_normal(*a, *b, *c))),
    ensures
        r == certified(triangle3_location(*a, *b, *c, *point)),
{
    let mut certainty = Certainty::Exact;
    let mut stage = Escalation::StructuralFacts;
    let normal_signs = match normal_signs_outcome {
        PredicateOutcome::Decided { value, certainty: normal_certainty, stage: normal_stage } => {
            certainty = max_certainty(certainty, normal_certainty);
            stage = max_stage(stage, normal_stage);
            value
        },
        PredicateOutcome::Unknown { needed, stage } => {
            return PredicateOutcome::unknown(needed, stage);
        },
    };
    if matches!(normal_signs[0], Sign::Zero) && matches!(normal_signs[1], Sign::Zero) && matches!(
        normal_signs[2],
        Sign::Zero
    ) {
        return PredicateOutcome::decided(Triangle3Location::Degenerate, certainty, stage);
    }
    let plane_sign = match triangle3_sign(
        orient3d_with_policy(a, b, c, point, policy),
        &mut certainty,
        &mut stage,
    ) {
        Ok(sign) => sign,
        Err(unknown) => return unknown,
    };
    if !matches!(plane_sign, Sign::Zero) {
        return PredicateOutcome::decided(Triangle3Location::OffPlane, certainty, stage);
    }
    let edge_ab = edge_halfspace3_sign(normal, a, b, point, &mut certainty, &mut stage);
    let edge_bc = edge_halfspace3_sign(normal, b, c, point, &mut certainty, &mut stage);
    let edge_ca = edge_halfspace3_sign(normal, c, a, point, &mut certainty, &mut stage);
    let (ab, bc, ca) = match (edge_ab, edge_bc, edge_ca) {
        (Ok(ab), Ok(bc), Ok(ca)) => (ab, bc, ca),
        (Err(unknown), _, _) => return unknown,
        (_, Err(unknown), _) => return unknown,
        (_, _, Err(unknown)) => return unknown,
    };
    if matches!(ab, Sign::Negative) || matches!(bc, Sign::Negative) || matches!(ca, Sign::Negative) {
        return PredicateOutcome::decided(Triangle3Location::Outside, certainty, stage);
    }
    let zero_count = count_zero(ab) + count_zero(bc) + count_zero(ca);
    let location = if zero_count == 0 {
        Triangle3Location::Inside
    } else if zero_count == 1 {
        Triangle3Location::OnEdge
    } else {
        Triangle3Location::OnVertex
    };
    PredicateOutcome::decided(location, certainty, stage)
}

/// Classifies `point` against the tetrahedron `abcd`.
pub fn classify_point_tetrahedron(
    a: &Point3,
    b: &Point3,
    c: &Point3,
    d: &Point3,
    point: &Point3,
) -> (r: PredicateOutcome<TetrahedronLocation>)
    ensures
        r == certified(tetrahedron_location(*a, *b, *c, *d, *point)),
{
    classify_point_tetrahedron_with_policy(a, b, c, d, point, PredicatePolicy::default())
}

/// Classifies `point` against the tetrahedron `abcd`: a face orientation
/// opposite to the tetrahedron's puts the point outside; otherwise the number
/// of zero face orientations tells interior, face, edge and vertex apart.
pub fn classify_point_tetrahedron_with_policy(
    a: &Point3,
    b: &Point3,
    c: &Point3,
    d: &Point3,
    point: &Point3,
    policy: PredicatePolicy,
) -> (r: PredicateOutcome<TetrahedronLocation>)
    ensures
        r == certified(tetrahedron_location(*a, *b, *c, *d, *point)),
{
    let mut certainty = Certainty::Exact;
    let mut stage = Escalation::StructuralFacts;
    let tetra_sign = match tetrahedron_sign(
        orient3d_with_policy(a, b, c, d, policy),
        &mut certainty,
        &mut stage,
    ) {
        Ok(sign) => sign,
        Err(unknown) => return unknown,
    };
    if matches!(tetra_sign, Sign::Zero) {
        return PredicateOutcome::decided(TetrahedronLocation::Degenerate, certainty, stage);
    }
    let s0 = tetrahedron_sign(orient3d_with_policy(a, b, c, point, policy), &mut certainty, &mut stage);
    let s1 = tetrahedron_sign(orient3d_with_policy(a, b, point, d, policy), &mut certainty, &mut stage);
    let s2 = tetrahedron_sign(orient3d_with_policy(a, point, c, d, policy), &mut certainty, &mut stage);
    let s3 = tetrahedron_sign(orient3d_with_policy(point, b, c, d, policy), &mut certainty, &mut stage);
    let (f0, f1, f2, f3) = match (s0, s1, s2, s3) {
        (Ok(f0), Ok(f1), Ok(f2), Ok(f3)) => (f0, f1, f2, f3),
        (Err(unknown), _, _, _) => return unknown,
        (_, Err(unknown), _, _) => return unknown,
        (_, _, Err(unknown), _) => return unknown,
        (_, _, _, Err(unknown)) => return unknown,
    };
    let opposite = tetra_sign.reversed();
    if f0 == opposite || f1 == opposite || f2 == opposite || f3 == opposite {
        return PredicateOutcome::decided(TetrahedronLocation::Outside, certainty, stage);
    }
    let zero_count = count_zero(f0) + count_zero(f1) + count_zero(f2) + count_zero(f3);
    let location = if zero_count == 0 {
        TetrahedronLocation::Inside
    } else if zero_count == 1 {
        TetrahedronLocation::OnFace
    } else if zero_count == 2 {
        TetrahedronLocation::OnEdge
    } else {
        TetrahedronLocation::OnVertex
    };
    PredicateOutcome::decided(location, certainty, stage)
}

fn triangle3_normal_exact(a: &Point3, b: &Point3, c: &Point3) -> (r: Triangle3Normal)
    ensures
        r.is_normal_of(*a, *b, *c),
{
    let abx = scalar_difference(&b.x, &a.x);
    let aby = scalar_difference(&b.y, &a.y);
    let abz = scalar_difference(&b.z, &a.z);
    let acx = scalar_difference(&c.x, &a.x);
    let acy = scalar_difference(&c.y, &a.y);
    let acz = scalar_difference(&c.z, &a.z);
    Triangle3Normal {
        x: sub_ref(&mul_ref(&aby, &acz), &mul_ref(&abz, &acy)),
        y: sub_ref(&mul_ref(&abz, &acx), &mul_ref(&abx, &acz)),
        z: sub_ref(&mul_ref(&abx, &acy), &mul_ref(&aby, &acx)),
    }
}

fn triangle3_normal_signs_outcome(normal: &Triangle3Normal, policy: PredicatePolicy) -> (r:
    PredicateOutcome<[Sign; 3]>)
    ensures
        r == certified([rat_sign(normal.x.rat()), rat_sign(normal.y.rat()), rat_sign(normal.z.rat())]),
{
    let mut certainty = Certainty::Exact;
    let mut stage = Escalation::StructuralFacts;
    match real_signs3([&normal.x, &normal.y, &normal.z], &mut certainty, &mut stage) {
        Ok(signs) => PredicateOutcome::decided(signs, certainty, stage),
        Err(PredicateOutcome::Unknown { needed, stage }) => PredicateOutcome::unknown(needed, stage),
        Err(PredicateOutcome::Decided { .. }) => PredicateOutcome::unknown(
            crate::predicate::RefinementNeed::RealRefinement,
            Escalation::Undecided,
        ),
    }
}

fn edge_halfspace3_sign(
    normal: &Triangle3Normal,
    start: &Point3,
    end: &Point3,
    point: &Point3,
    certainty: &mut Certainty,
    stage: &mut Escalation,
) -> (r: Result<Sign, PredicateOutcome<Triangle3Location>>)
    ensures
        r == Ok::<Sign, PredicateOutcome<Triangle3Location>>(
            rat_sign(
                edge_halfspace_dot(
                    (normal.x.rat(), normal.y.rat(), normal.z.rat()),
                    *start,
                    *end,
                    *point,
                ),
            ),
        ),
        *final(certainty) == spec_max_certainty(*old(certainty), Certainty::Exact),
        *final(stage) == spec_max_stage(*old(stage), Escalation::StructuralFacts),
{
    let ex = scalar_difference(&end.x, &start.x);
    let ey = scalar_difference(&end.y, &start.y);
    let ez = scalar_difference(&end.z, &start.z);
    let px = scalar_difference(&point.x, &start.x);
    let py = scalar_difference(&point.y, &start.y);
    let pz = scalar_difference(&point.z, &start.z);
    let cross_x = sub_ref(&mul_ref(&ey, &pz), &mul_ref(&ez, &py));
    let cross_y = sub_ref(&mul_ref(&ez, &px), &mul_ref(&ex, &pz));
    let cross_z = sub_ref(&mul_ref(&ex, &py), &mul_ref(&ey, &px));
    let nx = mul_ref(&normal.x, &cross_x);
    let ny = mul_ref(&normal.y, &cross_y);
    let nz = mul_ref(&normal.z, &cross_z);
    let nxy = add_ref(&nx, &ny);
    let dot = add_ref(&nxy, &nz);
    triangle3_sign(resolve_real_sign(&dot), certainty, stage)
}

fn real_signs3(values: [&ExactReal; 3], certainty: &mut Certainty, stage: &mut Escalation) -> (r:
    Result<[Sign; 3], PredicateOutcome<Triangle3Location>>)
    ensures
        r == Ok::<[Sign; 3], PredicateOutcome<Triangle3Location>>(
            [rat_sign(values[0].rat()), rat_sign(values[1].rat()), rat_sign(values[2].rat())],
        ),
        *final(certainty) == spec_max_certainty(*old(certainty), Certainty::Exact),
        *final(stage) == spec_max_stage(*old(stage), Escalation::StructuralFacts),
{
    let s0 = triangle3_sign(resolve_real_sign(values[0]), certainty, stage)?;
    let s1 = triangle3_sign(resolve_real_sign(values[1]), certainty, stage)?;
    let s2 = triangle3_sign(resolve_real_sign(values[2]), certainty, stage)?;
    Ok([s0, s1, s2])
}

fn triangle3_sign(outcome: PredicateOutcome<Sign>, certainty: &mut Certainty, stage: &mut Escalation) -> (r:
    Result<Sign, PredicateOutcome<Triangle3Location>>)
    ensures
        match outcome {
            PredicateOutcome::Decided { value, certainty: c, stage: s } => {
                &&& r == Ok::<Sign, PredicateOutcome<Triangle3Location>>(value)
                &&& *final(certainty) == spec_max_certainty(*old(certainty), c)
                &&& *final(stage) == spec_max_stage(*old(stage), s)
            },
            PredicateOutcome::Unknown { needed, stage: s } => {
                &&& r == Err::<Sign, PredicateOutcome<Triangle3Location>>(
                    PredicateOutcome::Unknown { needed, stage: s },
                )
                &&& *final(certainty) == *old(certainty)
                &&& *final(stage) == *old(stage)
            },
        },
{
    match outcome {
        PredicateOutcome::Decided { value, certainty: value_certainty, stage: value_stage } => {
            *certainty = max_certainty(*certainty, value_certainty);
            *stage = max_stage(*stage, value_stage);
            Ok(value)
        },
        PredicateOutcome::Unknown { needed, stage } => Err(PredicateOutcome::unknown(needed, stage)),
    }
}

fn tetrahedron_sign(outcome: PredicateOutcome<Sign>, certainty: &mut Certainty, stage: &mut Escalation) -> (r:
    Result<Sign, PredicateOutcome<TetrahedronLocation>>)
    ensures
        match outcome {
            PredicateOutcome::Decided { value, certainty: c, stage: s } => {
                &&& r == Ok::<Sign, PredicateOutcome<TetrahedronLocation>>(value)
                &&& *final(certainty) == spec_max_certainty(*old(certainty), c)
                &&& *final(stage) == spec_max_stage(*old(stage), s)
            },
            PredicateOutcome::Unknown { needed, stage: s } => {
                &&& r == Err::<Sign, PredicateOutcome<TetrahedronLocation>>(
                    PredicateOutcome::Unknown { needed, stage: s },
                )
                &&& *final(certainty) == *old(certainty)
                &&& *final(stage) == *old(stage)
            },
        },
{
    match outcome {
        PredicateOutcome::Decided { value, certainty: value_certainty, stage: value_stage } => {
            *certainty = max_certainty(*certainty, value_certainty);
            *stage = max_stage(*stage, value_stage);
            Ok(value)
        },
        PredicateOutcome::Unknown { needed, stage } => Err(PredicateOutcome::unknown(needed, stage)),
    }
}

/// Rotating the vertices of a triangle does not change a point's location.
pub proof fn law_triangle_location_rotation(a: Point2, b: Point2, c: Point2, point: Point2)
    requires
        a.well_formed(),
        b.well_formed(),
        c.well_formed(),
        point.well_formed(),
    ensures
        triangle_location(b, c, a, point) == triangle_location(a, b, c, point),
{
    lemma_orient2d_cycle(a, b, c);
}

/// A point's location does not depend on the orientation in which the
/// triangle's vertices are listed.
pub proof fn law_triangle_location_reversal(a: Point2, b: Point2, c: Point2, point: Point2)
    requires
        a.well_formed(),
        b.well_formed(),
        c.well_formed(),
        point.well_formed(),
    ensures
        triangle_location(a, c, b, point) == triangle_location(a, b, c, point),
{
    lemma_orient2d_cycle(a, b, c);
    lemma_orient2d_cycle(b, c, a);
    lemma_orient2d_swap(c, a, b);
    lemma_orient2d_swap(c, a, point);
    lemma_orient2d_swap(b, c, point);
    lemma_orient2d_swap(a, b, point);
}

/// Each vertex of a non-degenerate triangle is classified as a vertex.
pub proof fn law_triangle_vertices(a: Point2, b: Point2, c: Point2)
    requires
        a.well_formed(),
        b.well_formed(),
        c.well_formed(),
        orient2d_sign(a, b, c) != Sign::Zero,
    ensures
        triangle_location(a, b, c, a) == TriangleLocation::OnVertex,
        triangle_location(a, b, c, b) == TriangleLocation::OnVertex,
        triangle_location(a, b, c, c) == TriangleLocation::OnVertex,
{
    lemma_vertex_of(a, b, c);
    lemma_orient2d_cycle(a, b, c);
    lemma_vertex_of(b, c, a);
    law_triangle_location_rotation(a, b, c, b);
    lemma_orient2d_cycle(b, c, a);
    lemma_vertex_of(c, a, b);
    law_triangle_location_rotation(b, c, a, c);
}

/// The first vertex of a non-degenerate triangle is classified as a vertex.
proof fn lemma_vertex_of(a: Point2, b: Point2, c: Point2)
    requires
        a.well_formed(),
        b.well_formed(),
        c.well_formed(),
        orient2d_sign(a, b, c) != Sign::Zero,
    ensures
        triangle_location(a, b, c, a) == TriangleLocation::OnVertex,
{
    lemma_points_equal2_refl(a);
    lemma_orient2d_cycle(a, a, b);
    lemma_orient2d_equal_first(a, a, b);
    lemma_orient2d_cycle(c, a, a);
    lemma_orient2d_equal_first(a, a, c);
    lemma_orient2d_cycle(a, b, c);
}

/// Sound triangle facts never change a point's location.
pub proof fn law_triangle_facts_agree(a: Point2, b: Point2, c: Point2, point: Point2, facts: Triangle2Facts)
    requires
        crate::geometry::triangle2_facts_sound(facts, a, b, c),
    ensures
        triangle_location_with_orientation(a, b, c, point, orientation_with_facts(a, b, c, facts))
            == triangle_location(a, b, c, point),
{
}

/// Each vertex of a non-degenerate tetrahedron is classified as a vertex.
pub proof fn law_tetrahedron_vertices(a: Point3, b: Point3, c: Point3, d: Point3)
    requires
        a.well_formed(),
        b.well_formed(),
        c.well_formed(),
        d.well_formed(),
        orient3d_sign(a, b, c, d) != Sign::Zero,
    ensures
        tetrahedron_location(a, b, c, d, a) == TetrahedronLocation::OnVertex,
        tetrahedron_location(a, b, c, d, b) == TetrahedronLocation::OnVertex,
        tetrahedron_location(a, b, c, d, c) == TetrahedronLocation::OnVertex,
        tetrahedron_location(a, b, c, d, d) == TetrahedronLocation::OnVertex,
{
    lemma_orient3d_repeated(a, b, c, a);
    lemma_orient3d_repeated(a, b, a, d);
    lemma_orient3d_repeated(a, a, c, d);
    lemma_orient3d_repeated(a, b, c, b);
    lemma_orient3d_repeated(a, b, b, d);
    lemma_orient3d_repeated(b, b, c, d);
    lemma_orient3d_repeated(a, b, c, c);
    lemma_orient3d_repeated(a, c, c, d);
    lemma_orient3d_repeated(c, b, c, d);
    lemma_orient3d_repeated(a, b, d, d);
    lemma_orient3d_repeated(a, d, c, d);
    lemma_orient3d_repeated(d, b, c, d);
}

/// A product with a zero numerator has a zero numerator.
proof fn lemma_mul_zero_num(x: Rat, y: Rat)
    requires
        x.num == 0 || y.num == 0,
    ensures
        rat_mul(x, y).num == 0,
{
    assert(x.num * y.num == 0) by (nonlinear_arith)
        requires
            x.num == 0 || y.num == 0,
    ;
}

/// A sum or difference of zero numerators has a zero numerator.
proof fn lemma_add_zero_num(x: Rat, y: Rat)
    requires
        x.num == 0,
        y.num == 0,
    ensures
        rat_add(x, y).num == 0,
        crate::exact::rat_sub(x, y).num == 0,
{
    assert(x.num * y.den == 0 && y.num * x.den == 0) by (nonlinear_arith)
        requires
            x.num == 0,
            y.num == 0,
    ;
}

/// A vector with zero numerators dotted with anything is zero.
proof fn lemma_dot_zero(n: (Rat, Rat, Rat), m: (Rat, Rat, Rat))
    requires
        m.0.num == 0,
        m.1.num == 0,
        m.2.num == 0,
    ensures
        rat_sign(rat_add(rat_add(rat_mul(n.0, m.0), rat_mul(n.1, m.1)), rat_mul(n.2, m.2)))
            == Sign::Zero,
{
    lemma_mul_zero_num(n.0, m.0);
    lemma_mul_zero_num(n.1, m.1);
    lemma_mul_zero_num(n.2, m.2);
    lemma_add_zero_num(rat_mul(n.0, m.0), rat_mul(n.1, m.1));
    lemma_add_zero_num(rat_add(rat_mul(n.0, m.0), rat_mul(n.1, m.1)), rat_mul(n.2, m.2));
    let t = rat_add(rat_add(rat_mul(n.0, m.0), rat_mul(n.1, m.1)), rat_mul(n.2, m.2));
    assert(t.num * t.den == 0) by (nonlinear_arith)
        requires
            t.num == 0,
    ;
}

/// `(q - p) x (r - p)` has zero numerators when `r` repeats `p` or `q`.
proof fn lemma_cross_repeated(p: Point3, q: Point3)
    ensures
        cross_at(p, q, p).0.num == 0 && cross_at(p, q, p).1.num == 0 && cross_at(p, q, p).2.num == 0,
        cross_at(p, q, q).0.num == 0 && cross_at(p, q, q).1.num == 0 && cross_at(p, q, q).2.num == 0,
{
    let (ux, uy, uz) = (
        crate::geometry::diff(q.x, p.x),
        crate::geometry::diff(q.y, p.y),
        crate::geometry::diff(q.z, p.z),
    );
    let (vx, vy, vz) = (
        crate::geometry::diff(p.x, p.x),
        crate::geometry::diff(p.y, p.y),
        crate::geometry::diff(p.z, p.z),
    );
    assert(vx.num == 0 && vy.num == 0 && vz.num == 0);
    lemma_mul_zero_num(uy, vz);
    lemma_mul_zero_num(uz, vy);
    lemma_mul_zero_num(uz, vx);
    lemma_mul_zero_num(ux, vz);
    lemma_mul_zero_num(ux, vy);
    lemma_mul_zero_num(uy, vx);
    lemma_add_zero_num(rat_mul(uy, vz), rat_mul(uz, vy));
    lemma_add_zero_num(rat_mul(uz, vx), rat_mul(ux, vz));
    lemma_add_zero_num(rat_mul(ux, vy), rat_mul(uy, vx));
    assert((uy.num * uz.num) * (uz.den * uy.den) - (uz.num * uy.num) * (uy.den * uz.den) == 0)
        by (nonlinear_arith);
    assert((uz.num * ux.num) * (ux.den * uz.den) - (ux.num * uz.num) * (uz.den * ux.den) == 0)
        by (nonlinear_arith);
    assert((ux.num * uy.num) * (uy.den * ux.den) - (uy.num * ux.num) * (ux.den * uy.den) == 0)
        by (nonlinear_arith);
}

/// The edge test of a point that repeats the edge's start or end is zero.
proof fn lemma_edge_dot_repeated(n: (Rat, Rat, Rat), p: Point3, q: Point3)
    ensures
        rat_sign(edge_halfspace_dot(n, p, q, p)) == Sign::Zero,
        rat_sign(edge_halfspace_dot(n, p, q, q)) == Sign::Zero,
{
    lemma_cross_repeated(p, q);
    lemma_dot_zero(n, cross_at(p, q, p));
    lemma_dot_zero(n, cross_at(p, q, q));
}

/// Each vertex of a non-degenerate 3D triangle is classified as a vertex.
pub proof fn law_triangle3_vertices(a: Point3, b: Point3, c: Point3)
    requires
        a.well_formed(),
        b.well_formed(),
        c.well_formed(),
        !(rat_sign(triangle3_normal(a, b, c).0) == Sign::Zero && rat_sign(triangle3_normal(a, b, c).1)
            == Sign::Zero && rat_sign(triangle3_normal(a, b, c).2) == Sign::Zero),
    ensures
        triangle3_location(a, b, c, a) == Triangle3Location::OnVertex,
        triangle3_location(a, b, c, b) == Triangle3Location::OnVertex,
        triangle3_location(a, b, c, c) == Triangle3Location::OnVertex,
{
    let n = triangle3_normal(a, b, c);
    let (x, y, z) = cross_cleared(a, b, c);
    let (sx, sy, sz) = scales3(a, b, c);
    lemma_cross_cleared(a, b, c);
    lemma_cross_cleared(b, c, a);
    lemma_cross_cleared(c, a, b);
    lemma_cross_rotation(a, b, c);
    lemma_cross_rotation(b, c, a);
    lemma_denotes_sign(n.0, x, sy * sz);
    lemma_denotes_sign(n.1, y, sz * sx);
    lemma_denotes_sign(n.2, z, sx * sy);
    lemma_dot_with_itself(n, cross_at(b, c, a), x, y, z, sy * sz, sz * sx, sx * sy);
    lemma_dot_with_itself(n, cross_at(c, a, b), x, y, z, sy * sz, sz * sx, sx * sy);
    lemma_dot_with_itself(n, cross_at(a, b, c), x, y, z, sy * sz, sz * sx, sx * sy);
    lemma_edge_dot_repeated(n, a, b);
    lemma_edge_dot_repeated(n, b, c);
    lemma_edge_dot_repeated(n, c, a);
    lemma_orient3d_repeated(a, b, c, a);
    lemma_orient3d_repeated(a, b, c, b);
    lemma_orient3d_repeated(a, b, c, c);
}

/// A point classified with a triangle's exactly decided orientation, as
/// `PreparedTriangle2::new` caches it, gets the plain classification.
pub proof fn law_prepared_triangle_matches(a: Point2, b: Point2, c: Point2, point: Point2)
    ensures
        triangle_outcome_with_orientation(a, b, c, point, certified(orient2d_sign(a, b, c)))
            == certified(triangle_location(a, b, c, point)),
{
}

/// A point on the far side of any edge of a non-degenerate triangle (its edge
/// orientation is the reverse of the triangle's) is `Outside`; `Inside`,
/// `OnEdge` and `OnVertex` are given only for points of the closed triangle,
/// where no edge orientation is reversed, and the boundary ones only where
/// some edge orientation is zero.
pub proof fn law_triangle_outside(a: Point2, b: Point2, c: Point2, point: Point2)
    ensures
        ({
            let o = orient2d_sign(a, b, c);
            let (ab, bc, ca) = (
                orient2d_sign(a, b, point),
                orient2d_sign(b, c, point),
                orient2d_sign(c, a, point),
            );
            let location = triangle_location(a, b, c, point);
            let reversed = ab == o.spec_reversed() || bc == o.spec_reversed() || ca == o.spec_reversed();
            &&& (o == Sign::Zero <==> location == TriangleLocation::Degenerate)
            &&& (o != Sign::Zero && reversed ==> location == TriangleLocation::Outside)
            &&& (location == TriangleLocation::Inside || location == TriangleLocation::OnEdge
                || location == TriangleLocation::OnVertex ==> o != Sign::Zero && !reversed)
            &&& (location == TriangleLocation::Inside ==> ab == o && bc == o && ca == o)
            &&& (location == TriangleLocation::OnEdge || location == TriangleLocation::OnVertex
                ==> ab == Sign::Zero || bc == Sign::Zero || ca == Sign::Zero)
        }),
{
}

/// For a non-degenerate triangle and a point in its plane, a negative edge
/// half-space sign `normal . ((end - start) x (point - start))` makes the point
/// `Outside`; `Inside`, `OnEdge` and `OnVertex` are given only for coplanar
/// points of the closed triangle, where every edge sign is non-negative.
pub proof fn law_triangle3_outside(a: Point3, b: Point3, c: Point3, point: Point3)
    ensures
        ({
            let n = triangle3_normal(a, b, c);
            let degenerate = rat_sign(n.0) == Sign::Zero && rat_sign(n.1) == Sign::Zero
                && rat_sign(n.2) == Sign::Zero;
            let coplanar = orient3d_sign(a, b, c, point) == Sign::Zero;
            let ab = rat_sign(edge_halfspace_dot(n, a, b, point));
            let bc = rat_sign(edge_halfspace_dot(n, b, c, point));
            let ca = rat_sign(edge_halfspace_dot(n, c, a, point));
            let negative = ab == Sign::Negative || bc == Sign::Negative || ca == Sign::Negative;
            let location = triangle3_location(a, b, c, point);
            &&& (!degenerate && coplanar && negative ==> location == Triangle3Location::Outside)
            &&& (location == Triangle3Location::Inside || location == Triangle3Location::OnEdge
                || location == Triangle3Location::OnVertex ==> !degenerate && coplanar && !negative)
            &&& (!degenerate && !coplanar <==> location == Triangle3Location::OffPlane)
            &&& (location == Triangle3Location::OnEdge || location == Triangle3Location::OnVertex
                ==> ab == Sign::Zero || bc == Sign::Zero || ca == Sign::Zero)
        }),
{
}

/// A point on the far side of any face of a non-degenerate tetrahedron (its
/// face orientation is the reverse of `orient3d(a, b, c, d)`) is `Outside`;
/// the other non-degenerate locations are given only for points of the closed
/// tetrahedron, where no face orientation is reversed.
pub proof fn law_tetrahedron_outside(a: Point3, b: Point3, c: Point3, d: Point3, point: Point3)
    ensures
        ({
            let t = orient3d_sign(a, b, c, d);
            let s0 = orient3d_sign(a, b, c, point);
            let s1 = orient3d_sign(a, b, point, d);
            let s2 = orient3d_sign(a, point, c, d);
            let s3 = orient3d_sign(point, b, c, d);
            let reversed = s0 == t.spec_reversed() || s1 == t.spec_reversed() || s2 == t.spec_reversed()
                || s3 == t.spec_reversed();
            let location = tetrahedron_location(a, b, c, d, point);
            &&& (t == Sign::Zero <==> location == TetrahedronLocation::Degenerate)
            &&& (t != Sign::Zero && reversed ==> location == TetrahedronLocation::Outside)
            &&& (location == TetrahedronLocation::Inside || location == TetrahedronLocation::OnFace
                || location == TetrahedronLocation::OnEdge || location
                == TetrahedronLocation::OnVertex ==> t != Sign::Zero && !reversed)
            &&& (location == TetrahedronLocation::Inside ==> s0 == t && s1 == t && s2 == t && s3 == t)
        }),
{
}

} // verus!
