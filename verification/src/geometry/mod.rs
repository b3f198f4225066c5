//! Points and structural facts about small geometric objects.
pub mod cleared;
pub mod plane;

use vstd::prelude::*;

use crate::exact::{
    lemma_rat_sign_mul, lemma_rat_sub_zero_left, lemma_rat_sub_zero_right, rat_mul, rat_sign,
    rat_sub, real_of, scalar_difference, Rat, Scalar,
};
use crate::predicate::Sign;
use crate::resolve::exact_sign;

verus! {

/// A point in the plane with exact coordinates.
#[derive(Clone, Copy, Debug, PartialEq, Eq, Structural)]
pub struct Point2 {
    pub x: Scalar,
    pub y: Scalar,
}

/// A point in space with exact coordinates.
#[derive(Clone, Copy, Debug, PartialEq, Eq, Structural)]
pub struct Point3 {
    pub x: Scalar,
    pub y: Scalar,
    pub z: Scalar,
}

impl Point2 {
    pub fn new(x: Scalar, y: Scalar) -> (p: Point2)
        ensures
            p == (Point2 { x, y }),
    {
        Point2 { x, y }
    }

    pub open spec fn well_formed(self) -> bool {
        self.x.well_formed() && self.y.well_formed()
    }
}

impl Point3 {
    pub fn new(x: Scalar, y: Scalar, z: Scalar) -> (p: Point3)
        ensures
            p == (Point3 { x, y, z }),
    {
        Point3 { x, y, z }
    }

    pub open spec fn well_formed(self) -> bool {
        self.x.well_formed() && self.y.well_formed() && self.z.well_formed()
    }
}

/// Every point's coordinates have positive denominators.
pub(crate) fn point2_well_formed(p: &Point2)
    ensures
        p.well_formed(),
{
    proof {
        use_type_invariant(&p.x);
        use_type_invariant(&p.y);
    }
}

/// Every point's coordinates have positive denominators.
pub(crate) fn point3_well_formed(p: &Point3)
    ensures
        p.well_formed(),
{
    proof {
        use_type_invariant(&p.x);
        use_type_invariant(&p.y);
        use_type_invariant(&p.z);
    }
}

/// The exact difference `a - b`.
pub open spec fn diff(a: Scalar, b: Scalar) -> Rat {
    rat_sub(a.rat(), b.rat())
}

/// The sign of `a - b`: how `a` compares with `b`.
pub open spec fn order_sign(a: Scalar, b: Scalar) -> Sign {
    rat_sign(diff(a, b))
}

/// Exact equality of two points.
pub open spec fn points_equal2(p: Point2, q: Point2) -> bool {
    order_sign(p.x, q.x) == Sign::Zero && order_sign(p.y, q.y) == Sign::Zero
}

/// Exact equality of two points.
pub open spec fn points_equal3(p: Point3, q: Point3) -> bool {
    order_sign(p.x, q.x) == Sign::Zero && order_sign(p.y, q.y) == Sign::Zero && order_sign(p.z, q.z)
        == Sign::Zero
}

/// The orientation determinant `(b - a) x (c - a)`.
pub open spec fn orient2d_rat(a: Point2, b: Point2, c: Point2) -> Rat {
    rat_sub(rat_mul(diff(b.x, a.x), diff(c.y, a.y)), rat_mul(diff(b.y, a.y), diff(c.x, a.x)))
}

/// Positive when `a`, `b`, `c` turn counterclockwise, negative when clockwise,
/// zero when collinear.
pub open spec fn orient2d_sign(a: Point2, b: Point2, c: Point2) -> Sign {
    rat_sign(orient2d_rat(a, b, c))
}

/// The 3x3 determinant of the rows `a - d`, `b - d`, `c - d`.
pub open spec fn orient3d_rat(a: Point3, b: Point3, c: Point3, d: Point3) -> Rat {
    let (ux, uy, uz) = (diff(a.x, d.x), diff(a.y, d.y), diff(a.z, d.z));
    let (vx, vy, vz) = (diff(b.x, d.x), diff(b.y, d.y), diff(b.z, d.z));
    let (wx, wy, wz) = (diff(c.x, d.x), diff(c.y, d.y), diff(c.z, d.z));
    let m0 = rat_sub(rat_mul(vy, wz), rat_mul(vz, wy));
    let m1 = rat_sub(rat_mul(vx, wz), rat_mul(vz, wx));
    let m2 = rat_sub(rat_mul(vx, wy), rat_mul(vy, wx));
    crate::exact::rat_add(rat_sub(rat_mul(ux, m0), rat_mul(uy, m1)), rat_mul(uz, m2))
}

/// Positive when `d` lies below the plane through `a`, `b`, `c` seen
/// counterclockwise from above, negative above, zero when coplanar.
pub open spec fn orient3d_sign(a: Point3, b: Point3, c: Point3, d: Point3) -> Sign {
    rat_sign(orient3d_rat(a, b, c, d))
}

/// The cross product `(b - a) x (c - a)`.
pub open spec fn cross_at(a: Point3, b: Point3, c: Point3) -> (Rat, Rat, Rat) {
    let (ux, uy, uz) = (diff(b.x, a.x), diff(b.y, a.y), diff(b.z, a.z));
    let (vx, vy, vz) = (diff(c.x, a.x), diff(c.y, a.y), diff(c.z, a.z));
    (
        rat_sub(rat_mul(uy, vz), rat_mul(uz, vy)),
        rat_sub(rat_mul(uz, vx), rat_mul(ux, vz)),
        rat_sub(rat_mul(ux, vy), rat_mul(uy, vx)),
    )
}

/// The exact sign of a scalar.
pub(crate) fn scalar_sign(s: &Scalar) -> (r: Sign)
    ensures
        r == rat_sign(s.rat()),
{
    exact_sign(&real_of(s))
}

/// `bit` when the sign is zero, else `0`.
pub open spec fn zero_bit(s: Sign, bit: u8) -> u8 {
    if s == Sign::Zero {
        bit
    } else {
        0
    }
}

/// `bit` when the sign is nonzero, else `0`.
pub open spec fn nonzero_bit(s: Sign, bit: u8) -> u8 {
    if s == Sign::Zero {
        0
    } else {
        bit
    }
}

/// Zero pattern of the coordinates of a 3D point or vector.
#[derive(Clone, Copy, Debug, PartialEq, Eq, Structural)]
pub struct Point3Facts {
    /// Whether every coordinate is exactly zero.
    pub known_zero: bool,
    /// Bits 0, 1 and 2 are set for the coordinates `x`, `y`, `z` that are zero.
    pub zero_mask: u8,
    /// Bits 0, 1 and 2 are set for the coordinates that are nonzero.
    pub nonzero_mask: u8,
}

impl Point3Facts {
    /// A nonzero vector with at least one zero coordinate.
    pub open spec fn spec_has_sparse_support(self) -> bool {
        !self.known_zero && self.zero_mask != 0 && self.nonzero_mask != 0
    }

    /// Whether the vector is nonzero and has a coordinate known to be zero.
    pub fn has_sparse_support(self) -> (r: bool)
        ensures
            r == self.spec_has_sparse_support(),
    {
        !self.known_zero && self.zero_mask != 0 && self.nonzero_mask != 0
    }
}

/// The zero pattern of a vector whose coordinates have the signs `sx`, `sy`, `sz`.
pub open spec fn vector3_facts(sx: Sign, sy: Sign, sz: Sign) -> Point3Facts {
    Point3Facts {
        known_zero: sx == Sign::Zero && sy == Sign::Zero && sz == Sign::Zero,
        zero_mask: (zero_bit(sx, 1) + zero_bit(sy, 2) + zero_bit(sz, 4)) as u8,
        nonzero_mask: (nonzero_bit(sx, 1) + nonzero_bit(sy, 2) + nonzero_bit(sz, 4)) as u8,
    }
}

/// The zero pattern of the coordinates of `p`.
pub open spec fn point3_facts(p: Point3) -> Point3Facts {
    vector3_facts(rat_sign(p.x.rat()), rat_sign(p.y.rat()), rat_sign(p.z.rat()))
}

/// The zero pattern from the signs of three coordinates.
pub(crate) fn vector3_facts_of(sx: Sign, sy: Sign, sz: Sign) -> (f: Point3Facts)
    ensures
        f == vector3_facts(sx, sy, sz),
{
    let zx: u8 = if sx == Sign::Zero { 1 } else { 0 };
    let zy: u8 = if sy == Sign::Zero { 2 } else { 0 };
    let zz: u8 = if sz == Sign::Zero { 4 } else { 0 };
    let nx: u8 = if sx == Sign::Zero { 0 } else { 1 };
    let ny: u8 = if sy == Sign::Zero { 0 } else { 2 };
    let nz: u8 = if sz == Sign::Zero { 0 } else { 4 };
    Point3Facts {
        known_zero: sx == Sign::Zero && sy == Sign::Zero && sz == Sign::Zero,
        zero_mask: zx + zy + zz,
        nonzero_mask: nx + ny + nz,
    }
}

impl Point3 {
    /// The zero pattern of this point's coordinates.
    pub fn structural_facts(&self) -> (f: Point3Facts)
        ensures
            f == point3_facts(*self),
    {
        let sx = scalar_sign(&self.x);
        let sy = scalar_sign(&self.y);
        let sz = scalar_sign(&self.z);
        vector3_facts_of(sx, sy, sz)
    }
}

/// Structural extent facts for a 2D axis-aligned box.
#[derive(Clone, Copy, Debug, PartialEq, Eq, Structural)]
pub struct Aabb2Facts {
    /// Whether the x extent is exactly zero, when known.
    pub zero_width: Option<bool>,
    /// Whether the y extent is exactly zero, when known.
    pub zero_height: Option<bool>,
}

impl Aabb2Facts {
    pub open spec fn spec_known_zero_area(self) -> Option<bool> {
        if self.zero_width == Some(true) || self.zero_height == Some(true) {
            Some(true)
        } else if self.zero_width == Some(false) && self.zero_height == Some(false) {
            Some(false)
        } else {
            None
        }
    }

    /// Whether the box is known to have zero area.
    pub fn known_zero_area(self) -> (r: Option<bool>)
        ensures
            r == self.spec_known_zero_area(),
    {
        if self.zero_width == Some(true) || self.zero_height == Some(true) {
            Some(true)
        } else if self.zero_width == Some(false) && self.zero_height == Some(false) {
            Some(false)
        } else {
            None
        }
    }

    /// Whether the box is known to be a single point.
    pub fn known_point(self) -> (r: bool)
        ensures
            r == (self.zero_width == Some(true) && self.zero_height == Some(true)),
    {
        self.zero_width == Some(true) && self.zero_height == Some(true)
    }

    /// Whether the box is known to be a nondegenerate axis-parallel segment.
    pub fn known_segment(self) -> (r: bool)
        ensures
            r == ((self.zero_width == Some(true) && self.zero_height == Some(false)) || (
            self.zero_width == Some(false) && self.zero_height == Some(true))),
    {
        (self.zero_width == Some(true) && self.zero_height == Some(false)) || (self.zero_width
            == Some(false) && self.zero_height == Some(true))
    }

    /// Whether some extent is known to be zero.
    pub fn has_sparse_extent_support(self) -> (r: bool)
        ensures
            r == (self.zero_width == Some(true) || self.zero_height == Some(true)),
    {
        self.zero_width == Some(true) || self.zero_height == Some(true)
    }
}

/// Facts that agree with the box they describe.
pub open spec fn aabb2_facts_sound(facts: Aabb2Facts, min: Point2, max: Point2) -> bool {
    &&& (facts.zero_width matches Some(z) ==> z == (order_sign(max.x, min.x) == Sign::Zero))
    &&& (facts.zero_height matches Some(z) ==> z == (order_sign(max.y, min.y) == Sign::Zero))
}

/// Exact extent facts for the box with corners `min` and `max`.
pub fn aabb2_facts(min: &Point2, max: &Point2) -> (f: Aabb2Facts)
    ensures
        f.zero_width == Some(order_sign(max.x, min.x) == Sign::Zero),
        f.zero_height == Some(order_sign(max.y, min.y) == Sign::Zero),
        aabb2_facts_sound(f, *min, *max),
{
    let width = exact_sign(&scalar_difference(&max.x, &min.x));
    let height = exact_sign(&scalar_difference(&max.y, &min.y));
    Aabb2Facts {
        zero_width: Some(matches!(width, Sign::Zero)),
        zero_height: Some(matches!(height, Sign::Zero)),
    }
}

/// Structural facts for a 2D segment.
#[derive(Clone, Copy, Debug, PartialEq, Eq, Structural)]
pub struct Segment2Facts {
    /// Whether the endpoints coincide, when known.
    pub degenerate: Option<bool>,
}

impl Segment2Facts {
    /// Whether the segment is known to collapse to a point.
    pub fn known_degenerate(self) -> (r: Option<bool>)
        ensures
            r == self.degenerate,
    {
        self.degenerate
    }
}

/// Facts that agree with the segment they describe.
pub open spec fn segment2_facts_sound(facts: Segment2Facts, a: Point2, b: Point2) -> bool {
    facts.degenerate matches Some(d) ==> d == points_equal2(a, b)
}

/// Exact degeneracy facts for the segment `ab`.
pub fn segment2_facts(a: &Point2, b: &Point2) -> (f: Segment2Facts)
    ensures
        f.degenerate == Some(points_equal2(*a, *b)),
        segment2_facts_sound(f, *a, *b),
{
    let dx = exact_sign(&scalar_difference(&a.x, &b.x));
    let dy = exact_sign(&scalar_difference(&a.y, &b.y));
    Segment2Facts { degenerate: Some(matches!(dx, Sign::Zero) && matches!(dy, Sign::Zero)) }
}

/// Structural facts for a 2D triangle, read from the zero pattern of the
/// orientation determinant's terms.
#[derive(Clone, Copy, Debug, PartialEq, Eq, Structural)]
pub struct Triangle2Facts {
    /// Whether the triangle is degenerate, when the term structure decides it.
    pub degenerate: Option<bool>,
}

impl Triangle2Facts {
    /// Whether the triangle is known to be degenerate.
    pub fn known_degenerate(self) -> (r: Option<bool>)
        ensures
            r == self.degenerate,
    {
        self.degenerate
    }

    /// Whether the triangle is known to be non-degenerate.
    pub fn known_non_degenerate(self) -> (r: Option<bool>)
        ensures
            r == match self.degenerate {
                Some(d) => Some(!d),
                None => None,
            },
    {
        match self.degenerate {
            Some(d) => Some(!d),
            None => None,
        }
    }
}

/// Facts that agree with the triangle they describe.
pub open spec fn triangle2_facts_sound(facts: Triangle2Facts, a: Point2, b: Point2, c: Point2) -> bool {
    facts.degenerate matches Some(d) ==> d == (orient2d_sign(a, b, c) == Sign::Zero)
}

/// Degeneracy decided from which factors of `abx * acy - aby * acx` are zero.
pub open spec fn triangle2_term_degeneracy(a: Point2, b: Point2, c: Point2) -> Option<bool> {
    let first_zero = order_sign(b.x, a.x) == Sign::Zero || order_sign(c.y, a.y) == Sign::Zero;
    let second_zero = order_sign(b.y, a.y) == Sign::Zero || order_sign(c.x, a.x) == Sign::Zero;
    if first_zero && second_zero {
        Some(true)
    } else if first_zero != second_zero {
        Some(false)
    } else {
        None
    }
}

/// Structural degeneracy facts for the triangle `abc`.
pub fn triangle2_facts(a: &Point2, b: &Point2, c: &Point2) -> (f: Triangle2Facts)
    ensures
        f.degenerate == triangle2_term_degeneracy(*a, *b, *c),
        triangle2_facts_sound(f, *a, *b, *c),
{
    let abx = exact_sign(&scalar_difference(&b.x, &a.x));
    let acy = exact_sign(&scalar_difference(&c.y, &a.y));
    let aby = exact_sign(&scalar_difference(&b.y, &a.y));
    let acx = exact_sign(&scalar_difference(&c.x, &a.x));
    let first_zero = matches!(abx, Sign::Zero) || matches!(acy, Sign::Zero);
    let second_zero = matches!(aby, Sign::Zero) || matches!(acx, Sign::Zero);
    point2_well_formed(a);
    point2_well_formed(b);
    point2_well_formed(c);
    proof {
        lemma_triangle2_terms(*a, *b, *c);
    }
    let degenerate = if first_zero && second_zero {
        Some(true)
    } else if first_zero != second_zero {
        Some(false)
    } else {
        None
    };
    Triangle2Facts { degenerate }
}

/// The term-structure facts never contradict the orientation determinant.
pub proof fn lemma_triangle2_terms(a: Point2, b: Point2, c: Point2)
    requires
        a.well_formed(),
        b.well_formed(),
        c.well_formed(),
    ensures
        triangle2_facts_sound(Triangle2Facts { degenerate: triangle2_term_degeneracy(a, b, c) }, a, b, c),
{
    let first = rat_mul(diff(b.x, a.x), diff(c.y, a.y));
    let second = rat_mul(diff(b.y, a.y), diff(c.x, a.x));
    lemma_rat_sign_mul(diff(b.x, a.x), diff(c.y, a.y));
    lemma_rat_sign_mul(diff(b.y, a.y), diff(c.x, a.x));
    lemma_diff_den(b.x, a.x);
    lemma_diff_den(c.y, a.y);
    lemma_diff_den(b.y, a.y);
    lemma_diff_den(c.x, a.x);
    lemma_den_mul(diff(b.x, a.x).den, diff(c.y, a.y).den);
    lemma_den_mul(diff(b.y, a.y).den, diff(c.x, a.x).den);
    if rat_sign(second) == Sign::Zero {
        lemma_rat_sub_zero_right(first, second);
    }
    if rat_sign(first) == Sign::Zero {
        lemma_rat_sub_zero_left(first, second);
    }
}

/// A difference of scalars has a positive denominator.
pub proof fn lemma_diff_den(a: Scalar, b: Scalar)
    requires
        a.well_formed(),
        b.well_formed(),
    ensures
        diff(a, b).den > 0,
{
    lemma_den_mul(a.rat().den, b.rat().den);
}

pub proof fn lemma_den_mul(x: int, y: int)
    requires
        x > 0,
        y > 0,
    ensures
        x * y > 0,
{
    assert(x * y > 0) by (nonlinear_arith)
        requires
            x > 0,
            y > 0,
    ;
}

} // verus!
