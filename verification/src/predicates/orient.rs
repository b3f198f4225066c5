//! Orientation predicates.
use vstd::prelude::*;

use crate::exact::{add_ref, mul_ref, scalar_difference, sub_ref};
use crate::geometry::{orient2d_sign, orient3d_sign, Point2, Point3};
use crate::predicate::{certified, PredicateOutcome, PredicatePolicy, Sign};
use crate::resolve::resolve_real_sign;
use crate::geometry::cleared::{lemma_orient2d_cycle, lemma_orient2d_swap, lemma_orient3d_permute};

verus! {

/// Orientation of the triangle `abc` under the default policy.
pub fn orient2d(a: &Point2, b: &Point2, c: &Point2) -> (r: PredicateOutcome<Sign>)
    ensures
        r == certified(orient2d_sign(*a, *b, *c)),
{
    orient2d_with_policy(a, b, c, PredicatePolicy::default())
}

/// Orientation of the triangle `abc`: the sign of `(b - a) x (c - a)`.
pub fn orient2d_with_policy(a: &Point2, b: &Point2, c: &Point2, policy: PredicatePolicy) -> (r:
    PredicateOutcome<Sign>)
    ensures
        r == certified(orient2d_sign(*a, *b, *c)),
{
    let abx = scalar_difference(&b.x, &a.x);
    let aby = scalar_difference(&b.y, &a.y);
    let acx = scalar_difference(&c.x, &a.x);
    let acy = scalar_difference(&c.y, &a.y);
    let first = mul_ref(&abx, &acy);
    let second = mul_ref(&aby, &acx);
    let det = sub_ref(&first, &second);
    resolve_real_sign(&det)
}

/// Orientation of `d` against the plane through `a`, `b`, `c` under the
/// default policy.
pub fn orient3d(a: &Point3, b: &Point3, c: &Point3, d: &Point3) -> (r: PredicateOutcome<Sign>)
    ensures
        r == certified(orient3d_sign(*a, *b, *c, *d)),
{
    orient3d_with_policy(a, b, c, d, PredicatePolicy::default())
}

/// Orientation of `d` against the plane through `a`, `b`, `c`: the sign of the
/// determinant with rows `a - d`, `b - d`, `c - d`.
pub fn orient3d_with_policy(
    a: &Point3,
    b: &Point3,
    c: &Point3,
    d: &Point3,
    policy: PredicatePolicy,
) -> (r: PredicateOutcome<Sign>)
    ensures
        r == certified(orient3d_sign(*a, *b, *c, *d)),
{
    let ux = scalar_difference(&a.x, &d.x);
    let uy = scalar_difference(&a.y, &d.y);
    let uz = scalar_difference(&a.z, &d.z);
    let vx = scalar_difference(&b.x, &d.x);
    let vy = scalar_difference(&b.y, &d.y);
    let vz = scalar_difference(&b.z, &d.z);
    let wx = scalar_difference(&c.x, &d.x);
    let wy = scalar_difference(&c.y, &d.y);
    let wz = scalar_difference(&c.z, &d.z);
    let m0 = sub_ref(&mul_ref(&vy, &wz), &mul_ref(&vz, &wy));
    let m1 = sub_ref(&mul_ref(&vx, &wz), &mul_ref(&vz, &wx));
    let m2 = sub_ref(&mul_ref(&vx, &wy), &mul_ref(&vy, &wx));
    let partial = sub_ref(&mul_ref(&ux, &m0), &mul_ref(&uy, &m1));
    let det = add_ref(&partial, &mul_ref(&uz, &m2));
    resolve_real_sign(&det)
}

/// Swapping two vertices reverses the orientation of a triangle; rotating them
/// keeps it.
pub proof fn law_orient2d_permutation(a: Point2, b: Point2, c: Point2)
    requires
        a.well_formed(),
        b.well_formed(),
        c.well_formed(),
    ensures
        orient2d_sign(b, a, c) == orient2d_sign(a, b, c).spec_reversed(),
        orient2d_sign(b, c, a) == orient2d_sign(a, b, c),
{
    lemma_orient2d_swap(a, b, c);
    lemma_orient2d_cycle(a, b, c);
}

/// Swapping the first two points reverses `orient3d`; rotating the first three
/// keeps it.
pub proof fn law_orient3d_permutation(a: Point3, b: Point3, c: Point3, d: Point3)
    requires
        a.well_formed(),
        b.well_formed(),
        c.well_formed(),
        d.well_formed(),
    ensures
        orient3d_sign(b, a, c, d) == orient3d_sign(a, b, c, d).spec_reversed(),
        orient3d_sign(b, c, a, d) == orient3d_sign(a, b, c, d),
{
    lemma_orient3d_permute(a, b, c, d);
}

} // verus!
