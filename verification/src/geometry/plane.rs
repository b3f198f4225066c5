//! Planes and the classification of points, segments and triangles against them.
use vstd::prelude::*;

use crate::classify::{PlaneSegmentRelation, PlaneSide, PlaneTriangleRelation};
use crate::exact::{
    add_ref, exact_set_schedules, exact_set_schedules_of, known_exact_product_sum4, mul_ref,
    pair_terms, rat_add, rat_mul, rat_sign, rat_sub, real_of, signed_product_sum4, sub_ref,
    ExactReal, ExactSetSchedules, Rat, Scalar,
};
use crate::exact::{denotes, lemma_denotes_add, lemma_denotes_mul, lemma_denotes_sign, lemma_denotes_sub};
use crate::geometry::cleared::{
    den4, lemma_det3_translate, lemma_diff_denotes4, lemma_minor_denotes, lemma_num4_order,
    lemma_orient3d_cleared, lemma_scalar_denotes4, num4,
};
use crate::geometry::{
    cross_at, diff, lemma_diff_den, nonzero_bit, orient3d_sign, vector3_facts, vector3_facts_of, zero_bit, Point3,
    Point3Facts,
};
use crate::predicate::{
    certified, decided, trace_exact, DecisionTrace, PredicateOutcome, PredicatePolicy, Sign,
};
use crate::predicates::orient::orient3d_with_policy;
use crate::resolve::{exact_sign, resolve_real_sign};

verus! {

/// The four coefficients `(nx, ny, nz, offset)` of `n . p + offset = 0`.
pub type Coefficients = (Rat, Rat, Rat, Rat);

/// The value `n . p + offset` of a plane's equation at `p`.
pub open spec fn plane_value(c: Coefficients, p: Point3) -> Rat {
    rat_add(
        rat_add(rat_add(rat_mul(c.0, p.x.rat()), rat_mul(c.1, p.y.rat())), rat_mul(c.2, p.z.rat())),
        c.3,
    )
}

/// Negative below the plane, zero on it, positive above.
pub open spec fn plane_side(c: Coefficients, p: Point3) -> PlaneSide {
    PlaneSide::spec_from_sign(rat_sign(plane_value(c, p)))
}

/// How a closed segment with endpoint sides `s` and `e` meets the plane.
pub open spec fn segment_relation(s: PlaneSide, e: PlaneSide) -> PlaneSegmentRelation {
    if s == PlaneSide::Below && e == PlaneSide::Below {
        PlaneSegmentRelation::Below
    } else if s == PlaneSide::Above && e == PlaneSide::Above {
        PlaneSegmentRelation::Above
    } else if s == PlaneSide::On && e == PlaneSide::On {
        PlaneSegmentRelation::Coplanar
    } else if s == PlaneSide::On || e == PlaneSide::On {
        PlaneSegmentRelation::EndpointTouch
    } else {
        PlaneSegmentRelation::Crossing
    }
}

/// How many of the three sides equal `side`.
pub open spec fn side_count(s0: PlaneSide, s1: PlaneSide, s2: PlaneSide, side: PlaneSide) -> nat {
    (if s0 == side {
        1nat
    } else {
        0nat
    }) + (if s1 == side {
        1nat
    } else {
        0nat
    }) + (if s2 == side {
        1nat
    } else {
        0nat
    })
}

/// How a triangle with vertex sides `s0`, `s1`, `s2` meets the plane.
pub open spec fn triangle_relation(s0: PlaneSide, s1: PlaneSide, s2: PlaneSide) -> PlaneTriangleRelation {
    let below = side_count(s0, s1, s2, PlaneSide::Below);
    let above = side_count(s0, s1, s2, PlaneSide::Above);
    let on = side_count(s0, s1, s2, PlaneSide::On);
    if below == 3 {
        PlaneTriangleRelation::Below
    } else if above == 3 {
        PlaneTriangleRelation::Above
    } else if on == 3 {
        PlaneTriangleRelation::Coplanar
    } else if below > 0 && above > 0 {
        PlaneTriangleRelation::Split
    } else {
        PlaneTriangleRelation::BoundaryTouch
    }
}

/// Number of set bits of a mask.
pub open spec fn bit_count(mask: u8) -> nat
    decreases mask,
{
    if mask == 0 {
        0
    } else {
        (mask % 2) as nat + bit_count(mask / 2)
    }
}

/// A mask never has more set bits than its value.
proof fn lemma_bit_count_bound(mask: u8)
    ensures
        bit_count(mask) <= mask,
    decreases mask,
{
    if mask != 0 {
        lemma_bit_count_bound(mask / 2);
    }
}

fn count_bits(mask: u8) -> (r: u32)
    ensures
        r == bit_count(mask),
{
    let mut m = mask;
    let mut count: u32 = 0;
    proof {
        lemma_bit_count_bound(mask);
    }
    while m != 0
        invariant
            count + bit_count(m) == bit_count(mask),
            bit_count(mask) <= 255,
        decreases m,
    {
        count = count + (m % 2) as u32;
        m = m / 2;
    }
    count
}

/// Structural facts about the coefficients of a plane.
///
/// They schedule repeated point queries; they never decide a side themselves.
#[derive(Clone, Copy, Debug, PartialEq, Eq, Structural)]
pub struct Plane3Facts {
    /// Exact schedules admitted by the normal coordinates and the offset.
    pub coefficient_exact: ExactSetSchedules,
    /// Zero pattern of the normal vector.
    pub normal: Point3Facts,
    /// Bits 0, 1, 2 for `normal.x`, `normal.y`, `normal.z` and bit 3 for
    /// `offset`, set for the coefficients that are exactly zero.
    pub coefficient_zero_mask: u8,
    /// The same bits, set for the coefficients known to be nonzero.
    pub coefficient_nonzero_mask: u8,
    /// The same bits, set for the coefficients whose zero status is unknown.
    pub coefficient_unknown_zero_mask: u8,
}

/// The facts of a plane whose coefficients denote `c`.
pub open spec fn plane3_facts(c: Coefficients) -> Plane3Facts {
    let (s0, s1, s2, s3) = (rat_sign(c.0), rat_sign(c.1), rat_sign(c.2), rat_sign(c.3));
    Plane3Facts {
        coefficient_exact: exact_set_schedules_of(c),
        normal: vector3_facts(s0, s1, s2),
        coefficient_zero_mask: (zero_bit(s0, 1) + zero_bit(s1, 2) + zero_bit(s2, 4) + zero_bit(
            s3,
            8,
        )) as u8,
        coefficient_nonzero_mask: (nonzero_bit(s0, 1) + nonzero_bit(s1, 2) + nonzero_bit(s2, 4)
            + nonzero_bit(s3, 8)) as u8,
        coefficient_unknown_zero_mask: 0,
    }
}

impl Plane3Facts {
    /// Number of coefficients that are exactly zero.
    pub fn coefficient_zero_count(self) -> (r: u32)
        ensures
            r == bit_count(self.coefficient_zero_mask),
    {
        count_bits(self.coefficient_zero_mask)
    }

    /// Number of coefficients known to be nonzero.
    pub fn coefficient_nonzero_count(self) -> (r: u32)
        ensures
            r == bit_count(self.coefficient_nonzero_mask),
    {
        count_bits(self.coefficient_nonzero_mask)
    }

    /// Number of coefficients whose zero status is unknown.
    pub fn coefficient_unknown_zero_count(self) -> (r: u32)
        ensures
            r == bit_count(self.coefficient_unknown_zero_mask),
    {
        count_bits(self.coefficient_unknown_zero_mask)
    }

    /// Whether the normal vector is exactly zero.
    ///
    /// Such a plane is degenerate; what to do with it is the caller's policy.
    pub fn normal_known_zero(self) -> (r: bool)
        ensures
            r == self.normal.known_zero,
    {
        self.normal.known_zero
    }

    /// Whether the normal is nonzero and has a zero coordinate.
    pub fn normal_has_sparse_support(self) -> (r: bool)
        ensures
            r == self.normal.spec_has_sparse_support(),
    {
        self.normal.has_sparse_support()
    }

    /// Whether all coefficients are exact rationals with one shared denominator.
    pub fn has_shared_denominator_schedule(self) -> (r: bool)
        ensures
            r == (self.coefficient_exact.all_exact_rational
                && self.coefficient_exact.shared_denominator),
    {
        self.coefficient_exact.all_exact_rational && self.coefficient_exact.shared_denominator
    }

    /// Whether all coefficients are exact dyadic rationals.
    pub fn has_dyadic_schedule(self) -> (r: bool)
        ensures
            r == (self.coefficient_exact.all_exact_rational && self.coefficient_exact.dyadic),
    {
        self.coefficient_exact.all_exact_rational && self.coefficient_exact.dyadic
    }
}

/// Facts about four exact coefficients.
fn coefficient_facts(c: [&ExactReal; 4]) -> (f: Plane3Facts)
    ensures
        f == plane3_facts((c[0]@, c[1]@, c[2]@, c[3]@)),
{
    let coefficient_exact = exact_set_schedules(c);
    let s0 = exact_sign(c[0]);
    let s1 = exact_sign(c[1]);
    let s2 = exact_sign(c[2]);
    let s3 = exact_sign(c[3]);
    let z0: u8 = if s0 == Sign::Zero { 1 } else { 0 };
    let z1: u8 = if s1 == Sign::Zero { 2 } else { 0 };
    let z2: u8 = if s2 == Sign::Zero { 4 } else { 0 };
    let z3: u8 = if s3 == Sign::Zero { 8 } else { 0 };
    Plane3Facts {
        coefficient_exact,
        normal: vector3_facts_of(s0, s1, s2),
        coefficient_zero_mask: z0 + z1 + z2 + z3,
        coefficient_nonzero_mask: (1 - z0) + (2 - z1) + (4 - z2) + (8 - z3),
        coefficient_unknown_zero_mask: 0,
    }
}

/// The plane `normal . p + offset = 0` with exact rational coefficients.
#[derive(Clone, Copy, Debug, PartialEq, Eq, Structural)]
pub struct Plane3 {
    /// Normal vector.
    pub normal: Point3,
    /// Constant term.
    pub offset: Scalar,
}

impl Plane3 {
    /// The rationals the coefficients denote.
    pub open spec fn coefficients(self) -> Coefficients {
        (self.normal.x.rat(), self.normal.y.rat(), self.normal.z.rat(), self.offset.rat())
    }

    /// The plane with the given normal and offset.
    pub fn new(normal: Point3, offset: Scalar) -> (p: Plane3)
        ensures
            p == (Plane3 { normal, offset }),
    {
        Plane3 { normal, offset }
    }

    /// Structural facts about the coefficients.
    pub fn structural_facts(&self) -> (f: Plane3Facts)
        ensures
            f == plane3_facts(self.coefficients()),
    {
        let (nx, ny, nz, offset) = plane_reals(self);
        coefficient_facts([&nx, &ny, &nz, &offset])
    }

    /// Prepares the plane for repeated point classification.
    pub fn prepare(&self) -> (p: PreparedPlane3<'_>)
        ensures
            p.spec_plane() == *self,
    {
        PreparedPlane3::new(self)
    }
}

/// The coefficients of a plane as exact values.
fn plane_reals(plane: &Plane3) -> (r: (ExactReal, ExactReal, ExactReal, ExactReal))
    ensures
        (r.0@, r.1@, r.2@, r.3@) == plane.coefficients(),
{
    (real_of(&plane.normal.x), real_of(&plane.normal.y), real_of(&plane.normal.z), real_of(&plane.offset))
}

/// Exact value of `c . (p, 1)`, the plane equation at `p`.
///
/// With `known_exact` the fused sum skips the check that each factor is an
/// exact rational.
fn point_plane_value(point: &Point3, c: [&ExactReal; 4], known_exact: bool) -> (v: ExactReal)
    ensures
        v@ == plane_value((c[0]@, c[1]@, c[2]@, c[3]@), *point),
{
    let one = real_of(&Scalar::from_int(1));
    let px = real_of(&point.x);
    let py = real_of(&point.y);
    let pz = real_of(&point.z);
    let terms = [[c[0], &px], [c[1], &py], [c[2], &pz], [c[3], &one]];
    proof {
        assert(one@ == Rat { num: 1, den: 1 });
        assert(c[3]@.num * 1 == c[3]@.num && c[3]@.den * 1 == c[3]@.den);
        assert(rat_mul(c[3]@, one@) == c[3]@);
        assert(pair_terms(terms) == [[c[0]@, point.x.rat()], [c[1]@, point.y.rat()], [
            c[2]@,
            point.z.rat(),
        ], [c[3]@, one@]]);
    }
    if known_exact {
        known_exact_product_sum4(terms)
    } else {
        signed_product_sum4(terms)
    }
}

/// Classifies a point against exact coefficients, with their facts when they
/// were prepared.
fn classify_point_coefficients(point: &Point3, c: [&ExactReal; 4], facts: Option<Plane3Facts>) -> (r:
    PredicateOutcome<PlaneSide>)
    ensures
        r == certified(plane_side((c[0]@, c[1]@, c[2]@, c[3]@), *point)),
{
    let known_exact = match facts {
        Some(f) => f.coefficient_exact.all_exact_rational,
        None => false,
    };
    let value = point_plane_value(point, c, known_exact);
    match resolve_real_sign(&value) {
        PredicateOutcome::Decided { value, certainty, stage } => PredicateOutcome::decided(
            PlaneSide::from_sign(value),
            certainty,
            stage,
        ),
        PredicateOutcome::Unknown { needed, stage } => PredicateOutcome::unknown(needed, stage),
    }
}

/// Classifies `point` against `plane`.
pub fn classify_point_plane(point: &Point3, plane: &Plane3) -> (r: PredicateOutcome<PlaneSide>)
    ensures
        r == certified(plane_side(plane.coefficients(), *point)),
{
    classify_point_plane_with_policy(point, plane, PredicatePolicy::default())
}

/// Classifies `point` against `plane`.
///
/// The sign of the plane equation is exact under every policy.
pub fn classify_point_plane_with_policy(point: &Point3, plane: &Plane3, policy: PredicatePolicy) -> (r:
    PredicateOutcome<PlaneSide>)
    ensures
        r == certified(plane_side(plane.coefficients(), *point)),
{
    let (nx, ny, nz, offset) = plane_reals(plane);
    classify_point_coefficients(point, [&nx, &ny, &nz, &offset], None)
}

/// Classifies the closed segment from `start` to `end` against `plane`.
pub fn classify_plane_segment(plane: &Plane3, start: &Point3, end: &Point3) -> (r: PredicateOutcome<
    PlaneSegmentRelation,
>)
    ensures
        r == certified(
            segment_relation(
                plane_side(plane.coefficients(), *start),
                plane_side(plane.coefficients(), *end),
            ),
        ),
{
    classify_plane_segment_with_policy(plane, start, end, PredicatePolicy::default())
}

/// Classifies the closed segment from `start` to `end` against `plane`.
pub fn classify_plane_segment_with_policy(
    plane: &Plane3,
    start: &Point3,
    end: &Point3,
    policy: PredicatePolicy,
) -> (r: PredicateOutcome<PlaneSegmentRelation>)
    ensures
        r == certified(
            segment_relation(
                plane_side(plane.coefficients(), *start),
                plane_side(plane.coefficients(), *end),
            ),
        ),
{
    let mut trace = DecisionTrace::start();
    let start_side = match decided(classify_point_plane_with_policy(start, plane, policy), &mut trace) {
        Ok(side) => side,
        Err(unknown) => return unknown.into_outcome(),
    };
    let end_side = match decided(classify_point_plane_with_policy(end, plane, policy), &mut trace) {
        Ok(side) => side,
        Err(unknown) => return unknown.into_outcome(),
    };
    let relation = match (start_side, end_side) {
        (PlaneSide::Below, PlaneSide::Below) => PlaneSegmentRelation::Below,
        (PlaneSide::Above, PlaneSide::Above) => PlaneSegmentRelation::Above,
        (PlaneSide::On, PlaneSide::On) => PlaneSegmentRelation::Coplanar,
        (PlaneSide::On, _) | (_, PlaneSide::On) => PlaneSegmentRelation::EndpointTouch,
        (PlaneSide::Below, PlaneSide::Above) | (PlaneSide::Above, PlaneSide::Below) => {
            PlaneSegmentRelation::Crossing
        },
    };
    PredicateOutcome::decided(relation, trace.certainty, trace.stage)
}

/// Classifies the triangle `abc` against `plane`.
pub fn classify_plane_triangle(plane: &Plane3, a: &Point3, b: &Point3, c: &Point3) -> (r:
    PredicateOutcome<PlaneTriangleRelation>)
    ensures
        r == certified(
            triangle_relation(
                plane_side(plane.coefficients(), *a),
                plane_side(plane.coefficients(), *b),
                plane_side(plane.coefficients(), *c),
            ),
        ),
{
    classify_plane_triangle_with_policy(plane, a, b, c, PredicatePolicy::default())
}

/// Number of the first `n` sides that equal `side`.
pub open spec fn prefix_side_count(sides: [PlaneSide; 3], side: PlaneSide, n: int) -> nat
    decreases n,
{
    if n <= 0 {
        0
    } else {
        prefix_side_count(sides, side, n - 1) + if sides[n - 1] == side {
            1nat
        } else {
            0nat
        }
    }
}

/// Classifies the triangle `abc` against `plane`.
pub fn classify_plane_triangle_with_policy(
    plane: &Plane3,
    a: &Point3,
    b: &Point3,
    c: &Point3,
    policy: PredicatePolicy,
) -> (r: PredicateOutcome<PlaneTriangleRelation>)
    ensures
        r == certified(
            triangle_relation(
                plane_side(plane.coefficients(), *a),
                plane_side(plane.coefficients(), *b),
                plane_side(plane.coefficients(), *c),
            ),
        ),
{
    let outcomes = [
        classify_point_plane_with_policy(a, plane, policy),
        classify_point_plane_with_policy(b, plane, policy),
        classify_point_plane_with_policy(c, plane, policy),
    ];
    let ghost sides = [
        plane_side(plane.coefficients(), *a),
        plane_side(plane.coefficients(), *b),
        plane_side(plane.coefficients(), *c),
    ];
    let mut trace = DecisionTrace::start();
    let mut below: u8 = 0;
    let mut above: u8 = 0;
    let mut on: u8 = 0;
    let mut i: usize = 0;
    while i < 3
        invariant
            0 <= i <= 3,
            forall|j: int| 0 <= j < 3 ==> outcomes[j] == certified(sides[j]),
            trace_exact(trace),
            below == prefix_side_count(sides, PlaneSide::Below, i as int),
            above == prefix_side_count(sides, PlaneSide::Above, i as int),
            on == prefix_side_count(sides, PlaneSide::On, i as int),
            below + above + on == i,
        decreases 3 - i,
    {
        match decided(outcomes[i], &mut trace) {
            Ok(PlaneSide::Below) => below = below + 1,
            Ok(PlaneSide::Above) => above = above + 1,
            Ok(PlaneSide::On) => on = on + 1,
            Err(unknown) => return unknown.into_outcome(),
        }
        i = i + 1;
    }
    proof {
        reveal_with_fuel(prefix_side_count, 4);
    }
    let relation = if below == 3 {
        PlaneTriangleRelation::Below
    } else if above == 3 {
        PlaneTriangleRelation::Above
    } else if on == 3 {
        PlaneTriangleRelation::Coplanar
    } else if below > 0 && above > 0 {
        PlaneTriangleRelation::Split
    } else {
        PlaneTriangleRelation::BoundaryTouch
    };
    PredicateOutcome::decided(relation, trace.certainty, trace.stage)
}

/// Reusable point classifier for a fixed plane.
pub struct PreparedPlane3<'a> {
    plane: &'a Plane3,
    facts: Plane3Facts,
}

impl<'a> PreparedPlane3<'a> {
    /// The cached facts are those of the plane.
    #[verifier::type_invariant]
    spec fn facts_match(self) -> bool {
        self.facts == plane3_facts(self.plane.coefficients())
    }

    /// The prepared plane.
    pub closed spec fn spec_plane(self) -> Plane3 {
        *self.plane
    }

    /// Prepares `plane` for repeated point classification.
    pub fn new(plane: &'a Plane3) -> (p: Self)
        ensures
            p.spec_plane() == *plane,
    {
        PreparedPlane3 { plane, facts: plane.structural_facts() }
    }

    /// The prepared plane.
    pub fn plane(&self) -> (r: &'a Plane3)
        ensures
            *r == self.spec_plane(),
    {
        self.plane
    }

    /// The cached structural facts of the plane.
    pub fn facts(&self) -> (f: Plane3Facts)
        ensures
            f == plane3_facts(self.spec_plane().coefficients()),
    {
        proof {
            use_type_invariant(self);
        }
        self.facts
    }

    /// Classifies a point against the prepared plane.
    pub fn classify_point(&self, point: &Point3) -> (r: PredicateOutcome<PlaneSide>)
        ensures
            r == certified(plane_side(self.spec_plane().coefficients(), *point)),
    {
        self.classify_point_with_policy(point, PredicatePolicy::default())
    }

    /// Classifies a point against the prepared plane, reusing its facts.
    pub fn classify_point_with_policy(&self, point: &Point3, policy: PredicatePolicy) -> (r:
        PredicateOutcome<PlaneSide>)
        ensures
            r == certified(plane_side(self.spec_plane().coefficients(), *point)),
    {
        let (nx, ny, nz, offset) = plane_reals(self.plane);
        classify_point_coefficients(point, [&nx, &ny, &nz, &offset], Some(self.facts))
    }

    /// Classifies a closed segment against the prepared plane.
    pub fn classify_segment(&self, start: &Point3, end: &Point3) -> (r: PredicateOutcome<
        PlaneSegmentRelation,
    >)
        ensures
            r == certified(
                segment_relation(
                    plane_side(self.spec_plane().coefficients(), *start),
                    plane_side(self.spec_plane().coefficients(), *end),
                ),
            ),
    {
        self.classify_segment_with_policy(start, end, PredicatePolicy::default())
    }

    /// Classifies a closed segment against the prepared plane.
    pub fn classify_segment_with_policy(&self, start: &Point3, end: &Point3, policy: PredicatePolicy) -> (r:
        PredicateOutcome<PlaneSegmentRelation>)
        ensures
            r == certified(
                segment_relation(
                    plane_side(self.spec_plane().coefficients(), *start),
                    plane_side(self.spec_plane().coefficients(), *end),
                ),
            ),
    {
        classify_plane_segment_with_policy(self.plane, start, end, policy)
    }

    /// Classifies a triangle against the prepared plane.
    pub fn classify_triangle(&self, a: &Point3, b: &Point3, c: &Point3) -> (r: PredicateOutcome<
        PlaneTriangleRelation,
    >)
        ensures
            r == certified(
                triangle_relation(
                    plane_side(self.spec_plane().coefficients(), *a),
                    plane_side(self.spec_plane().coefficients(), *b),
                    plane_side(self.spec_plane().coefficients(), *c),
                ),
            ),
    {
        self.classify_triangle_with_policy(a, b, c, PredicatePolicy::default())
    }

    /// Classifies a triangle against the prepared plane.
    pub fn classify_triangle_with_policy(
        &self,
        a: &Point3,
        b: &Point3,
        c: &Point3,
        policy: PredicatePolicy,
    ) -> (r: PredicateOutcome<PlaneTriangleRelation>)
        ensures
            r == certified(
                triangle_relation(
                    plane_side(self.spec_plane().coefficients(), *a),
                    plane_side(self.spec_plane().coefficients(), *b),
                    plane_side(self.spec_plane().coefficients(), *c),
                ),
            ),
    {
        classify_plane_triangle_with_policy(self.plane, a, b, c, policy)
    }
}

/// A plane whose coefficients are exact values computed from other geometry.
pub struct ExactPlane3 {
    normal_x: ExactReal,
    normal_y: ExactReal,
    normal_z: ExactReal,
    offset: ExactReal,
}

impl ExactPlane3 {
    /// The rationals the coefficients denote.
    pub closed spec fn coefficients(&self) -> Coefficients {
        (self.normal_x@, self.normal_y@, self.normal_z@, self.offset@)
    }

    /// Structural facts about the coefficients.
    pub fn structural_facts(&self) -> (f: Plane3Facts)
        ensures
            f == plane3_facts(self.coefficients()),
    {
        coefficient_facts([&self.normal_x, &self.normal_y, &self.normal_z, &self.offset])
    }

    /// Classifies `point` against this plane.
    pub fn classify_point(&self, point: &Point3) -> (r: PredicateOutcome<PlaneSide>)
        ensures
            r == certified(plane_side(self.coefficients(), *point)),
    {
        classify_point_coefficients(
            point,
            [&self.normal_x, &self.normal_y, &self.normal_z, &self.offset],
            None,
        )
    }
}

/// The explicit plane through `a`, `b`, `c`: normal `-(ab x ac)` and offset
/// `(ab x ac) . a`, so that a point's side agrees with `orient3d(a, b, c, p)`.
pub open spec fn oriented_plane_coefficients(a: Point3, b: Point3, c: Point3) -> Coefficients {
    let (cx, cy, cz) = cross_at(a, b, c);
    let zero = diff(a.x, a.x);
    (
        rat_sub(zero, cx),
        rat_sub(zero, cy),
        rat_sub(zero, cz),
        rat_add(rat_add(rat_mul(cx, a.x.rat()), rat_mul(cy, a.y.rat())), rat_mul(cz, a.z.rat())),
    )
}

/// Reusable classifier for the oriented plane through three points.
///
/// The plane is reduced once to explicit coefficients, so that each point query
/// is one product sum in place of a full `orient3d` determinant.
pub struct PreparedOrientedPlane3 {
    plane: ExactPlane3,
    facts: Plane3Facts,
}

impl PreparedOrientedPlane3 {
    /// The cached facts are those of the plane.
    #[verifier::type_invariant]
    spec fn facts_match(self) -> bool {
        self.facts == plane3_facts(self.plane.coefficients())
    }

    /// The coefficients of the prepared plane.
    pub closed spec fn coefficients(self) -> Coefficients {
        self.plane.coefficients()
    }

    /// Prepares the oriented plane through `a`, `b`, `c`.
    pub fn new(a: &Point3, b: &Point3, c: &Point3) -> (p: Self)
        ensures
            p.coefficients() == oriented_plane_coefficients(*a, *b, *c),
    {
        let ax = real_of(&a.x);
        let ay = real_of(&a.y);
        let az = real_of(&a.z);
        let bx = real_of(&b.x);
        let by = real_of(&b.y);
        let bz = real_of(&b.z);
        let cx = real_of(&c.x);
        let cy = real_of(&c.y);
        let cz = real_of(&c.z);
        let abx = sub_ref(&bx, &ax);
        let aby = sub_ref(&by, &ay);
        let abz = sub_ref(&bz, &az);
        let acx = sub_ref(&cx, &ax);
        let acy = sub_ref(&cy, &ay);
        let acz = sub_ref(&cz, &az);

        let cross_x = sub_ref(&mul_ref(&aby, &acz), &mul_ref(&abz, &acy));
        let cross_y = sub_ref(&mul_ref(&abz, &acx), &mul_ref(&abx, &acz));
        let cross_z = sub_ref(&mul_ref(&abx, &acy), &mul_ref(&aby, &acx));

        let nx_ax = mul_ref(&cross_x, &ax);
        let ny_ay = mul_ref(&cross_y, &ay);
        let nz_az = mul_ref(&cross_z, &az);
        let nxy_a = add_ref(&nx_ax, &ny_ay);
        let dot_a = add_ref(&nxy_a, &nz_az);
        let zero = sub_ref(&ax, &ax);
        let nx = sub_ref(&zero, &cross_x);
        let ny = sub_ref(&zero, &cross_y);
        let nz = sub_ref(&zero, &cross_z);

        let plane = ExactPlane3 { normal_x: nx, normal_y: ny, normal_z: nz, offset: dot_a };
        let facts = plane.structural_facts();
        PreparedOrientedPlane3 { plane, facts }
    }

    /// The explicit plane built from the three points.
    pub fn plane(&self) -> (r: &ExactPlane3)
        ensures
            r.coefficients() == self.coefficients(),
    {
        &self.plane
    }

    /// The cached structural facts of the explicit plane.
    pub fn facts(&self) -> (f: Plane3Facts)
        ensures
            f == plane3_facts(self.coefficients()),
    {
        proof {
            use_type_invariant(self);
        }
        self.facts
    }

    /// Classifies a point against the prepared plane.
    pub fn classify_point(&self, point: &Point3) -> (r: PredicateOutcome<PlaneSide>)
        ensures
            r == certified(plane_side(self.coefficients(), *point)),
    {
        self.classify_point_with_policy(point, PredicatePolicy::default())
    }

    /// Classifies a point against the prepared plane, reusing its facts.
    pub fn classify_point_with_policy(&self, point: &Point3, policy: PredicatePolicy) -> (r:
        PredicateOutcome<PlaneSide>)
        ensures
            r == certified(plane_side(self.coefficients(), *point)),
    {
        proof {
            use_type_invariant(self);
        }
        classify_point_coefficients(
            point,
            [&self.plane.normal_x, &self.plane.normal_y, &self.plane.normal_z, &self.plane.offset],
            Some(self.facts),
        )
    }
}

/// Side of `point` against the oriented plane through `a`, `b`, `c`.
pub open spec fn oriented_plane_side(a: Point3, b: Point3, c: Point3, point: Point3) -> PlaneSide {
    PlaneSide::spec_from_sign(orient3d_sign(a, b, c, point))
}

/// Classifies `point` against the oriented plane through `a`, `b`, `c`.
pub fn classify_point_oriented_plane(a: &Point3, b: &Point3, c: &Point3, point: &Point3) -> (r:
    PredicateOutcome<PlaneSide>)
    ensures
        r == certified(oriented_plane_side(*a, *b, *c, *point)),
{
    classify_point_oriented_plane_with_policy(a, b, c, point, PredicatePolicy::default())
}

/// Classifies `point` against the oriented plane through `a`, `b`, `c`.
pub fn classify_point_oriented_plane_with_policy(
    a: &Point3,
    b: &Point3,
    c: &Point3,
    point: &Point3,
    policy: PredicatePolicy,
) -> (r: PredicateOutcome<PlaneSide>)
    ensures
        r == certified(oriented_plane_side(*a, *b, *c, *point)),
{
    match orient3d_with_policy(a, b, c, point, policy) {
        PredicateOutcome::Decided { value, certainty, stage } => PredicateOutcome::decided(
            PlaneSide::from_sign(value),
            certainty,
            stage,
        ),
        PredicateOutcome::Unknown { needed, stage } => PredicateOutcome::unknown(needed, stage),
    }
}

/// Each coordinate of the cross product `(b - a) x (c - a)` over the product
/// of two coordinate scales.
proof fn lemma_cross_denotes(a: Point3, b: Point3, c: Point3, p: Point3)
    requires
        a.well_formed(),
        b.well_formed(),
        c.well_formed(),
        p.well_formed(),
    ensures
        ({
            let (sx, sy, sz) = (den4(a.x, b.x, c.x, p.x), den4(a.y, b.y, c.y, p.y), den4(a.z, b.z, c.z, p.z));
            let (ux, uy, uz) = (
                num4(b.x, a.x, c.x, p.x) - num4(a.x, b.x, c.x, p.x),
                num4(b.y, a.y, c.y, p.y) - num4(a.y, b.y, c.y, p.y),
                num4(b.z, a.z, c.z, p.z) - num4(a.z, b.z, c.z, p.z),
            );
            let (vx, vy, vz) = (
                num4(c.x, a.x, b.x, p.x) - num4(a.x, b.x, c.x, p.x),
                num4(c.y, a.y, b.y, p.y) - num4(a.y, b.y, c.y, p.y),
                num4(c.z, a.z, b.z, p.z) - num4(a.z, b.z, c.z, p.z),
            );
            &&& denotes(cross_at(a, b, c).0, uy * vz - uz * vy, sy * sz)
            &&& denotes(cross_at(a, b, c).1, uz * vx - ux * vz, sz * sx)
            &&& denotes(cross_at(a, b, c).2, ux * vy - uy * vx, sx * sy)
        }),
{
    lemma_num4_order(a.x, b.x, c.x, p.x);
    lemma_num4_order(a.y, b.y, c.y, p.y);
    lemma_num4_order(a.z, b.z, c.z, p.z);
    lemma_diff_denotes4(b.x, a.x, c.x, p.x);
    lemma_diff_denotes4(b.y, a.y, c.y, p.y);
    lemma_diff_denotes4(b.z, a.z, c.z, p.z);
    lemma_diff_denotes4(c.x, a.x, b.x, p.x);
    lemma_diff_denotes4(c.y, a.y, b.y, p.y);
    lemma_diff_denotes4(c.z, a.z, b.z, p.z);
    let (sx, sy, sz) = (den4(a.x, b.x, c.x, p.x), den4(a.y, b.y, c.y, p.y), den4(a.z, b.z, c.z, p.z));
    let (ux, uy, uz) = (
        num4(b.x, a.x, c.x, p.x) - num4(a.x, b.x, c.x, p.x),
        num4(b.y, a.y, c.y, p.y) - num4(a.y, b.y, c.y, p.y),
        num4(b.z, a.z, c.z, p.z) - num4(a.z, b.z, c.z, p.z),
    );
    let (vx, vy, vz) = (
        num4(c.x, a.x, b.x, p.x) - num4(a.x, b.x, c.x, p.x),
        num4(c.y, a.y, b.y, p.y) - num4(a.y, b.y, c.y, p.y),
        num4(c.z, a.z, b.z, p.z) - num4(a.z, b.z, c.z, p.z),
    );
    lemma_minor_denotes(diff(b.y, a.y), diff(c.z, a.z), diff(b.z, a.z), diff(c.y, a.y), uy, vz, uz, vy, sy, sz);
    lemma_minor_denotes(diff(b.z, a.z), diff(c.x, a.x), diff(b.x, a.x), diff(c.z, a.z), uz, vx, ux, vz, sz, sx);
    lemma_minor_denotes(diff(b.x, a.x), diff(c.y, a.y), diff(b.y, a.y), diff(c.x, a.x), ux, vy, uy, vx, sx, sy);
}

/// The explicit plane that `PreparedOrientedPlane3` builds through `a`, `b`,
/// `c` puts every point on the side that `orient3d(a, b, c, point)` reports.
pub proof fn law_oriented_plane_matches_orient3d(a: Point3, b: Point3, c: Point3, point: Point3)
    requires
        a.well_formed(),
        b.well_formed(),
        c.well_formed(),
        point.well_formed(),
    ensures
        plane_side(oriented_plane_coefficients(a, b, c), point) == oriented_plane_side(a, b, c, point),
{
    let p = point;
    lemma_orient3d_cleared(a, b, c, p);
    lemma_cross_denotes(a, b, c, p);
    lemma_num4_order(a.x, b.x, c.x, p.x);
    lemma_num4_order(a.y, b.y, c.y, p.y);
    lemma_num4_order(a.z, b.z, c.z, p.z);
    lemma_scalar_denotes4(p.x, a.x, b.x, c.x);
    lemma_scalar_denotes4(p.y, a.y, b.y, c.y);
    lemma_scalar_denotes4(p.z, a.z, b.z, c.z);
    lemma_scalar_denotes4(a.x, b.x, c.x, p.x);
    lemma_scalar_denotes4(a.y, b.y, c.y, p.y);
    lemma_scalar_denotes4(a.z, b.z, c.z, p.z);
    let (sx, sy, sz) = (den4(a.x, b.x, c.x, p.x), den4(a.y, b.y, c.y, p.y), den4(a.z, b.z, c.z, p.z));
    let (ax, ay, az) = (num4(a.x, b.x, c.x, p.x), num4(a.y, b.y, c.y, p.y), num4(a.z, b.z, c.z, p.z));
    let (bx, by, bz) = (num4(b.x, a.x, c.x, p.x), num4(b.y, a.y, c.y, p.y), num4(b.z, a.z, c.z, p.z));
    let (cx, cy, cz) = (num4(c.x, a.x, b.x, p.x), num4(c.y, a.y, b.y, p.y), num4(c.z, a.z, b.z, p.z));
    let (px, py, pz) = (num4(p.x, a.x, b.x, c.x), num4(p.y, a.y, b.y, c.y), num4(p.z, a.z, b.z, c.z));
    let xv = (by - ay) * (cz - az) - (bz - az) * (cy - ay);
    let yv = (bz - az) * (cx - ax) - (bx - ax) * (cz - az);
    let zv = (bx - ax) * (cy - ay) - (by - ay) * (cx - ax);
    let (nx, ny, nz) = cross_at(a, b, c);
    let zero = diff(a.x, a.x);
    lemma_diff_den(a.x, a.x);
    assert(denotes(zero, 0, sy * sz) && denotes(zero, 0, sz * sx) && denotes(zero, 0, sx * sy))
        by (nonlinear_arith)
        requires
            zero.num == 0,
            zero.den > 0,
            sx > 0,
            sy > 0,
            sz > 0,
    ;
    lemma_denotes_sub(zero, nx, 0, xv, sy * sz);
    lemma_denotes_sub(zero, ny, 0, yv, sz * sx);
    lemma_denotes_sub(zero, nz, 0, zv, sx * sy);
    let c0 = oriented_plane_coefficients(a, b, c);
    lemma_denotes_mul(c0.0, p.x.rat(), 0 - xv, sy * sz, px, sx);
    lemma_denotes_mul(c0.1, p.y.rat(), 0 - yv, sz * sx, py, sy);
    lemma_denotes_mul(c0.2, p.z.rat(), 0 - zv, sx * sy, pz, sz);
    lemma_denotes_mul(nx, a.x.rat(), xv, sy * sz, ax, sx);
    lemma_denotes_mul(ny, a.y.rat(), yv, sz * sx, ay, sy);
    lemma_denotes_mul(nz, a.z.rat(), zv, sx * sy, az, sz);
    assert((sy * sz) * sx == sx * (sy * sz) && (sz * sx) * sy == sx * (sy * sz) && (sx * sy) * sz
        == sx * (sy * sz)) by (nonlinear_arith);
    let t = sx * (sy * sz);
    let (tx, ty, tz) = (rat_mul(c0.0, p.x.rat()), rat_mul(c0.1, p.y.rat()), rat_mul(c0.2, p.z.rat()));
    lemma_denotes_add(tx, ty, (0 - xv) * px, (0 - yv) * py, t);
    lemma_denotes_add(rat_add(tx, ty), tz, (0 - xv) * px + (0 - yv) * py, (0 - zv) * pz, t);
    let (ox, oy, oz) = (rat_mul(nx, a.x.rat()), rat_mul(ny, a.y.rat()), rat_mul(nz, a.z.rat()));
    lemma_denotes_add(ox, oy, xv * ax, yv * ay, t);
    lemma_denotes_add(rat_add(ox, oy), oz, xv * ax + yv * ay, zv * az, t);
    let value = (0 - xv) * px + (0 - yv) * py + (0 - zv) * pz + (xv * ax + yv * ay + zv * az);
    lemma_denotes_add(
        rat_add(rat_add(tx, ty), tz),
        rat_add(rat_add(ox, oy), oz),
        (0 - xv) * px + (0 - yv) * py + (0 - zv) * pz,
        xv * ax + yv * ay + zv * az,
        t,
    );
    lemma_denotes_sign(plane_value(c0, p), value, t);
    lemma_det3_translate(ax, ay, az, bx, by, bz, cx, cy, cz, px, py, pz);
    assert(value == xv * (ax - px) + yv * (ay - py) + zv * (az - pz)) by (nonlinear_arith)
        requires
            value == (0 - xv) * px + (0 - yv) * py + (0 - zv) * pz + (xv * ax + yv * ay + zv * az),
    ;
}

/// A segment's relation to a plane does not depend on the order of its
/// endpoints, and a triangle's relation does not depend on the order of its
/// vertices.
pub proof fn law_plane_relations_unordered(plane: Plane3, start: Point3, end: Point3, a: Point3, b: Point3, c: Point3)
    ensures
        ({
            let k = plane.coefficients();
            &&& segment_relation(plane_side(k, start), plane_side(k, end)) == segment_relation(
                plane_side(k, end),
                plane_side(k, start),
            )
            &&& triangle_relation(plane_side(k, a), plane_side(k, b), plane_side(k, c))
                == triangle_relation(plane_side(k, b), plane_side(k, c), plane_side(k, a))
            &&& triangle_relation(plane_side(k, a), plane_side(k, b), plane_side(k, c))
                == triangle_relation(plane_side(k, b), plane_side(k, a), plane_side(k, c))
        }),
{
}

/// Every coefficient of an exact plane is known to be zero or known to be
/// nonzero: the two masks split the four coefficients and none is unknown.
pub proof fn law_plane_facts_partition(c: Coefficients)
    ensures
        ({
            let f = plane3_facts(c);
            &&& f.coefficient_zero_mask + f.coefficient_nonzero_mask == 15
            &&& bit_count(f.coefficient_zero_mask) + bit_count(f.coefficient_nonzero_mask) == 4
            &&& f.coefficient_unknown_zero_mask == 0
        }),
{
    reveal_with_fuel(bit_count, 5);
    let f = plane3_facts(c);
    let m = f.coefficient_zero_mask;
    assert(m <= 15);
    assert(f.coefficient_nonzero_mask == 15 - m);
    assert(bit_count(m) + bit_count((15 - m) as u8) == 4) by {
        reveal_with_fuel(bit_count, 5);
        assert(m == 0 || m == 1 || m == 2 || m == 3 || m == 4 || m == 5 || m == 6 || m == 7 || m == 8
            || m == 9 || m == 10 || m == 11 || m == 12 || m == 13 || m == 14 || m == 15);
    }
}

/// A triangle lies in a plane (`Coplanar`) exactly when all three vertices are
/// on it, below or above it exactly when all three are, and is `Split` exactly
/// when some vertex is strictly below and another strictly above; anything
/// else touches the plane only on its boundary.
pub proof fn law_plane_triangle_relation(plane: Plane3, a: Point3, b: Point3, c: Point3)
    ensures
        ({
            let k = plane.coefficients();
            let (sa, sb, sc) = (plane_side(k, a), plane_side(k, b), plane_side(k, c));
            let relation = triangle_relation(sa, sb, sc);
            let some_below = sa == PlaneSide::Below || sb == PlaneSide::Below || sc == PlaneSide::Below;
            let some_above = sa == PlaneSide::Above || sb == PlaneSide::Above || sc == PlaneSide::Above;
            let some_on = sa == PlaneSide::On || sb == PlaneSide::On || sc == PlaneSide::On;
            &&& (relation == PlaneTriangleRelation::Coplanar <==> sa == PlaneSide::On && sb
                == PlaneSide::On && sc == PlaneSide::On)
            &&& (relation == PlaneTriangleRelation::Below <==> sa == PlaneSide::Below && sb
                == PlaneSide::Below && sc == PlaneSide::Below)
            &&& (relation == PlaneTriangleRelation::Above <==> sa == PlaneSide::Above && sb
                == PlaneSide::Above && sc == PlaneSide::Above)
            &&& (relation == PlaneTriangleRelation::Split <==> some_below && some_above)
            &&& (relation == PlaneTriangleRelation::BoundaryTouch <==> some_on && !(some_below
                && some_above) && !(sa == PlaneSide::On && sb == PlaneSide::On && sc == PlaneSide::On))
        }),
{
}

/// A segment lies in a plane (`Coplanar`) exactly when both endpoints are on
/// it, is `Crossing` exactly when its endpoints are strictly on opposite
/// sides, and `EndpointTouch` exactly when one endpoint is on the plane and
/// the other is not.
pub proof fn law_plane_segment_relation(plane: Plane3, start: Point3, end: Point3)
    ensures
        ({
            let k = plane.coefficients();
            let (s, e) = (plane_side(k, start), plane_side(k, end));
            let relation = segment_relation(s, e);
            &&& (relation == PlaneSegmentRelation::Coplanar <==> s == PlaneSide::On && e
                == PlaneSide::On)
            &&& (relation == PlaneSegmentRelation::Crossing <==> (s == PlaneSide::Below && e
                == PlaneSide::Above) || (s == PlaneSide::Above && e == PlaneSide::Below))
            &&& (relation == PlaneSegmentRelation::EndpointTouch <==> (s == PlaneSide::On) != (e
                == PlaneSide::On))
            &&& (relation == PlaneSegmentRelation::Below <==> s == PlaneSide::Below && e
                == PlaneSide::Below)
            &&& (relation == PlaneSegmentRelation::Above <==> s == PlaneSide::Above && e
                == PlaneSide::Above)
        }),
{
}

} // verus!
