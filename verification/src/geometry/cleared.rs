//! Orientation determinants over a common denominator.
//!
//! Over the product of the denominators of some scalars, each scalar has an
//! integer numerator. Written over such a common scale, an orientation
//! determinant becomes an integer polynomial with the sign of the exact
//! determinant, and permuting the points permutes the polynomial's variables.
use vstd::prelude::*;

use crate::exact::{
    lemma_denotes_add_scaled, rat_add, rat_mul, Rat, denotes, int_sign, lemma_denotes_add, lemma_denotes_mul, lemma_denotes_sign, lemma_denotes_sub,
    rat_sign, Scalar,
};
use crate::geometry::{cross_at, diff, order_sign, points_equal2, orient2d_rat, orient2d_sign, orient3d_rat, orient3d_sign, Point2, Point3};
use crate::predicate::Sign;

verus! {

/// Numerator of `p` over the scale `p.den * q.den * r.den`.
pub open spec fn num3(p: Scalar, q: Scalar, r: Scalar) -> int {
    p.rat().num * q.rat().den * r.rat().den
}

/// The common scale `p.den * q.den * r.den`.
pub open spec fn den3(p: Scalar, q: Scalar, r: Scalar) -> int {
    p.rat().den * q.rat().den * r.rat().den
}

/// Numerator of `p` over the scale `p.den * q.den * r.den * s.den`.
pub open spec fn num4(p: Scalar, q: Scalar, r: Scalar, s: Scalar) -> int {
    p.rat().num * q.rat().den * r.rat().den * s.rat().den
}

/// The common scale `p.den * q.den * r.den * s.den`.
pub open spec fn den4(p: Scalar, q: Scalar, r: Scalar, s: Scalar) -> int {
    p.rat().den * q.rat().den * r.rat().den * s.rat().den
}

/// `orient2d(a, b, c)` times the product of the six denominators.
pub open spec fn orient2d_cleared(a: Point2, b: Point2, c: Point2) -> int {
    let (ax, bx, cx) = (num3(a.x, b.x, c.x), num3(b.x, a.x, c.x), num3(c.x, a.x, b.x));
    let (ay, by, cy) = (num3(a.y, b.y, c.y), num3(b.y, a.y, c.y), num3(c.y, a.y, b.y));
    (bx - ax) * (cy - ay) - (by - ay) * (cx - ax)
}

/// The 3x3 determinant with rows `u`, `v`, `w`.
pub open spec fn det3(
    ux: int,
    uy: int,
    uz: int,
    vx: int,
    vy: int,
    vz: int,
    wx: int,
    wy: int,
    wz: int,
) -> int {
    ux * (vy * wz - vz * wy) - uy * (vx * wz - vz * wx) + uz * (vx * wy - vy * wx)
}

/// `orient3d(a, b, c, d)` times the product of the twelve denominators.
pub open spec fn orient3d_cleared(a: Point3, b: Point3, c: Point3, d: Point3) -> int {
    let (ax, bx, cx, dx) = (
        num4(a.x, b.x, c.x, d.x),
        num4(b.x, a.x, c.x, d.x),
        num4(c.x, a.x, b.x, d.x),
        num4(d.x, a.x, b.x, c.x),
    );
    let (ay, by, cy, dy) = (
        num4(a.y, b.y, c.y, d.y),
        num4(b.y, a.y, c.y, d.y),
        num4(c.y, a.y, b.y, d.y),
        num4(d.y, a.y, b.y, c.y),
    );
    let (az, bz, cz, dz) = (
        num4(a.z, b.z, c.z, d.z),
        num4(b.z, a.z, c.z, d.z),
        num4(c.z, a.z, b.z, d.z),
        num4(d.z, a.z, b.z, c.z),
    );
    det3(ax - dx, ay - dy, az - dz, bx - dx, by - dy, bz - dz, cx - dx, cy - dy, cz - dz)
}

/// A scalar over the scale of itself and three others.
pub proof fn lemma_scalar_denotes4(p: Scalar, q: Scalar, r: Scalar, s: Scalar)
    requires
        p.well_formed(),
        q.well_formed(),
        r.well_formed(),
        s.well_formed(),
    ensures
        denotes(p.rat(), num4(p, q, r, s), den4(p, q, r, s)),
{
    let (pn, pd, qd, rd, sd) = (p.rat().num, p.rat().den, q.rat().den, r.rat().den, s.rat().den);
    assert(pn * (pd * qd * rd * sd) == (pn * qd * rd * sd) * pd && pd * qd * rd * sd > 0)
        by (nonlinear_arith)
        requires
            pd > 0,
            qd > 0,
            rd > 0,
            sd > 0,
    ;
}

/// `p - q` over the scale of `p`, `q` and `r`.
pub proof fn lemma_diff_denotes3(p: Scalar, q: Scalar, r: Scalar)
    requires
        p.well_formed(),
        q.well_formed(),
        r.well_formed(),
    ensures
        denotes(diff(p, q), num3(p, q, r) - num3(q, p, r), den3(p, q, r)),
{
    let (pn, pd, qn, qd, rd) = (p.rat().num, p.rat().den, q.rat().num, q.rat().den, r.rat().den);
    assert((pn * qd - qn * pd) * (pd * qd * rd) == (pn * qd * rd - qn * pd * rd) * (pd * qd) && pd
        * qd > 0 && pd * qd * rd > 0) by (nonlinear_arith)
        requires
            pd > 0,
            qd > 0,
            rd > 0,
    ;
}

/// `p - q` over the scale of `p`, `q`, `r` and `s`.
pub proof fn lemma_diff_denotes4(p: Scalar, q: Scalar, r: Scalar, s: Scalar)
    requires
        p.well_formed(),
        q.well_formed(),
        r.well_formed(),
        s.well_formed(),
    ensures
        denotes(diff(p, q), num4(p, q, r, s) - num4(q, p, r, s), den4(p, q, r, s)),
{
    let (pn, pd, qn, qd, rd, sd) = (
        p.rat().num,
        p.rat().den,
        q.rat().num,
        q.rat().den,
        r.rat().den,
        s.rat().den,
    );
    assert((pn * qd - qn * pd) * (pd * qd * rd * sd) == (pn * qd * rd * sd - qn * pd * rd * sd) * (
    pd * qd) && pd * qd > 0 && pd * qd * rd * sd > 0) by (nonlinear_arith)
        requires
            pd > 0,
            qd > 0,
            rd > 0,
            sd > 0,
    ;
}

/// Numerators and scales of three scalars do not depend on the order of the
/// other factors.
pub proof fn lemma_num3_order(p: Scalar, q: Scalar, r: Scalar)
    ensures
        num3(p, q, r) == num3(p, r, q),
        den3(p, q, r) == den3(q, p, r),
        den3(p, q, r) == den3(p, r, q),
        den3(p, q, r) == den3(r, p, q),
{
    let (pn, pd, qd, rd) = (p.rat().num, p.rat().den, q.rat().den, r.rat().den);
    assert(pn * qd * rd == pn * rd * qd) by (nonlinear_arith);
    assert(pd * qd * rd == qd * pd * rd) by (nonlinear_arith);
    assert(pd * qd * rd == pd * rd * qd) by (nonlinear_arith);
    assert(pd * qd * rd == rd * pd * qd) by (nonlinear_arith);
}

/// Numerators and scales of four scalars do not depend on the order of the
/// other factors.
pub proof fn lemma_num4_order(p: Scalar, q: Scalar, r: Scalar, s: Scalar)
    ensures
        num4(p, q, r, s) == num4(p, r, q, s),
        num4(p, q, r, s) == num4(p, q, s, r),
        num4(p, q, r, s) == num4(p, s, q, r),
        den4(p, q, r, s) == den4(q, p, r, s),
        den4(p, q, r, s) == den4(p, r, q, s),
        den4(p, q, r, s) == den4(p, q, s, r),
        den4(p, q, r, s) == den4(p, s, q, r),
        den4(p, q, r, s) == den4(r, p, q, s),
        den4(p, q, r, s) == den4(s, p, q, r),
{
    let (pn, pd, qd, rd, sd) = (p.rat().num, p.rat().den, q.rat().den, r.rat().den, s.rat().den);
    assert(pn * qd * rd * sd == pn * rd * qd * sd) by (nonlinear_arith);
    assert(pn * qd * rd * sd == pn * qd * sd * rd) by (nonlinear_arith);
    assert(pn * qd * rd * sd == pn * sd * qd * rd) by (nonlinear_arith);
    assert(pd * qd * rd * sd == qd * pd * rd * sd) by (nonlinear_arith);
    assert(pd * qd * rd * sd == pd * rd * qd * sd) by (nonlinear_arith);
    assert(pd * qd * rd * sd == pd * qd * sd * rd) by (nonlinear_arith);
    assert(pd * qd * rd * sd == pd * sd * qd * rd) by (nonlinear_arith);
    assert(pd * qd * rd * sd == rd * pd * qd * sd) by (nonlinear_arith);
    assert(pd * qd * rd * sd == sd * pd * qd * rd) by (nonlinear_arith);
}

/// The sign of `orient2d` is the sign of its cleared polynomial.
pub proof fn lemma_orient2d_cleared(a: Point2, b: Point2, c: Point2)
    requires
        a.well_formed(),
        b.well_formed(),
        c.well_formed(),
    ensures
        orient2d_sign(a, b, c) == int_sign(orient2d_cleared(a, b, c)),
{
    let (ax, bx, cx) = (num3(a.x, b.x, c.x), num3(b.x, a.x, c.x), num3(c.x, a.x, b.x));
    let (ay, by, cy) = (num3(a.y, b.y, c.y), num3(b.y, a.y, c.y), num3(c.y, a.y, b.y));
    let sx = den3(a.x, b.x, c.x);
    let sy = den3(a.y, b.y, c.y);
    lemma_num3_order(a.x, b.x, c.x);
    lemma_num3_order(a.y, b.y, c.y);
    lemma_num3_order(b.x, a.x, c.x);
    lemma_num3_order(b.y, a.y, c.y);
    lemma_num3_order(c.x, a.x, b.x);
    lemma_num3_order(c.y, a.y, b.y);
    lemma_diff_denotes3(b.x, a.x, c.x);
    lemma_diff_denotes3(c.y, a.y, b.y);
    lemma_diff_denotes3(b.y, a.y, c.y);
    lemma_diff_denotes3(c.x, a.x, b.x);
    lemma_denotes_mul(diff(b.x, a.x), diff(c.y, a.y), bx - ax, sx, cy - ay, sy);
    lemma_denotes_mul(diff(b.y, a.y), diff(c.x, a.x), by - ay, sy, cx - ax, sx);
    assert(sy * sx == sx * sy) by (nonlinear_arith);
    lemma_denotes_sub(
        crate::exact::rat_mul(diff(b.x, a.x), diff(c.y, a.y)),
        crate::exact::rat_mul(diff(b.y, a.y), diff(c.x, a.x)),
        (bx - ax) * (cy - ay),
        (by - ay) * (cx - ax),
        sx * sy,
    );
    lemma_denotes_sign(orient2d_rat(a, b, c), orient2d_cleared(a, b, c), sx * sy);
}

/// Rows `a - d`, `b - d`, `c - d` of one coordinate over its common scale.
proof fn lemma_rows_denote(a: Scalar, b: Scalar, c: Scalar, d: Scalar)
    requires
        a.well_formed(),
        b.well_formed(),
        c.well_formed(),
        d.well_formed(),
    ensures
        denotes(diff(a, d), num4(a, b, c, d) - num4(d, a, b, c), den4(a, b, c, d)),
        denotes(diff(b, d), num4(b, a, c, d) - num4(d, a, b, c), den4(a, b, c, d)),
        denotes(diff(c, d), num4(c, a, b, d) - num4(d, a, b, c), den4(a, b, c, d)),
{
    lemma_num4_order(a, b, c, d);
    lemma_num4_order(b, a, c, d);
    lemma_num4_order(c, a, b, d);
    lemma_num4_order(d, a, b, c);
    lemma_diff_denotes4(a, d, b, c);
    lemma_diff_denotes4(b, d, a, c);
    lemma_diff_denotes4(c, d, a, b);
}

/// A 2x2 minor `p * q - r * t` of rationals over the product of two scales.
pub proof fn lemma_minor_denotes(
    p: crate::exact::Rat,
    q: crate::exact::Rat,
    r: crate::exact::Rat,
    t: crate::exact::Rat,
    vp: int,
    vq: int,
    vr: int,
    vt: int,
    s1: int,
    s2: int,
)
    requires
        denotes(p, vp, s1),
        denotes(q, vq, s2),
        denotes(r, vr, s2),
        denotes(t, vt, s1),
    ensures
        denotes(
            crate::exact::rat_sub(crate::exact::rat_mul(p, q), crate::exact::rat_mul(r, t)),
            vp * vq - vr * vt,
            s1 * s2,
        ),
{
    lemma_denotes_mul(p, q, vp, s1, vq, s2);
    lemma_denotes_mul(r, t, vr, s2, vt, s1);
    assert(s2 * s1 == s1 * s2) by (nonlinear_arith);
    lemma_denotes_sub(
        crate::exact::rat_mul(p, q),
        crate::exact::rat_mul(r, t),
        vp * vq,
        vr * vt,
        s1 * s2,
    );
}

/// The sign of `orient3d` is the sign of its cleared polynomial.
pub proof fn lemma_orient3d_cleared(a: Point3, b: Point3, c: Point3, d: Point3)
    requires
        a.well_formed(),
        b.well_formed(),
        c.well_formed(),
        d.well_formed(),
    ensures
        orient3d_sign(a, b, c, d) == int_sign(orient3d_cleared(a, b, c, d)),
{
    lemma_rows_denote(a.x, b.x, c.x, d.x);
    lemma_rows_denote(a.y, b.y, c.y, d.y);
    lemma_rows_denote(a.z, b.z, c.z, d.z);
    let (sx, sy, sz) = (den4(a.x, b.x, c.x, d.x), den4(a.y, b.y, c.y, d.y), den4(a.z, b.z, c.z, d.z));
    let (ux, uy, uz) = (diff(a.x, d.x), diff(a.y, d.y), diff(a.z, d.z));
    let (vx, vy, vz) = (diff(b.x, d.x), diff(b.y, d.y), diff(b.z, d.z));
    let (wx, wy, wz) = (diff(c.x, d.x), diff(c.y, d.y), diff(c.z, d.z));
    let iux = num4(a.x, b.x, c.x, d.x) - num4(d.x, a.x, b.x, c.x);
    let iuy = num4(a.y, b.y, c.y, d.y) - num4(d.y, a.y, b.y, c.y);
    let iuz = num4(a.z, b.z, c.z, d.z) - num4(d.z, a.z, b.z, c.z);
    let ivx = num4(b.x, a.x, c.x, d.x) - num4(d.x, a.x, b.x, c.x);
    let ivy = num4(b.y, a.y, c.y, d.y) - num4(d.y, a.y, b.y, c.y);
    let ivz = num4(b.z, a.z, c.z, d.z) - num4(d.z, a.z, b.z, c.z);
    let iwx = num4(c.x, a.x, b.x, d.x) - num4(d.x, a.x, b.x, c.x);
    let iwy = num4(c.y, a.y, b.y, d.y) - num4(d.y, a.y, b.y, c.y);
    let iwz = num4(c.z, a.z, b.z, d.z) - num4(d.z, a.z, b.z, c.z);
    lemma_minor_denotes(vy, wz, vz, wy, ivy, iwz, ivz, iwy, sy, sz);
    lemma_minor_denotes(vx, wz, vz, wx, ivx, iwz, ivz, iwx, sx, sz);
    lemma_minor_denotes(vx, wy, vy, wx, ivx, iwy, ivy, iwx, sx, sy);
    let m0 = crate::exact::rat_sub(crate::exact::rat_mul(vy, wz), crate::exact::rat_mul(vz, wy));
    let m1 = crate::exact::rat_sub(crate::exact::rat_mul(vx, wz), crate::exact::rat_mul(vz, wx));
    let m2 = crate::exact::rat_sub(crate::exact::rat_mul(vx, wy), crate::exact::rat_mul(vy, wx));
    let (i0, i1, i2) = (ivy * iwz - ivz * iwy, ivx * iwz - ivz * iwx, ivx * iwy - ivy * iwx);
    lemma_denotes_mul(ux, m0, iux, sx, i0, sy * sz);
    lemma_denotes_mul(uy, m1, iuy, sy, i1, sx * sz);
    lemma_denotes_mul(uz, m2, iuz, sz, i2, sx * sy);
    assert(sy * (sx * sz) == sx * (sy * sz) && sz * (sx * sy) == sx * (sy * sz))
        by (nonlinear_arith);
    let t = sx * (sy * sz);
    lemma_denotes_sub(crate::exact::rat_mul(ux, m0), crate::exact::rat_mul(uy, m1), iux * i0, iuy * i1, t);
    lemma_denotes_add(
        crate::exact::rat_sub(crate::exact::rat_mul(ux, m0), crate::exact::rat_mul(uy, m1)),
        crate::exact::rat_mul(uz, m2),
        iux * i0 - iuy * i1,
        iuz * i2,
        t,
    );
    lemma_denotes_sign(orient3d_rat(a, b, c, d), orient3d_cleared(a, b, c, d), t);
}

/// Adding the first row to the other two leaves a determinant unchanged.
proof fn lemma_det3_add_first_row(
    ux: int,
    uy: int,
    uz: int,
    vx: int,
    vy: int,
    vz: int,
    wx: int,
    wy: int,
    wz: int,
)
    ensures
        det3(ux, uy, uz, vx + ux, vy + uy, vz + uz, wx + ux, wy + uy, wz + uz) == det3(
            ux,
            uy,
            uz,
            vx,
            vy,
            vz,
            wx,
            wy,
            wz,
        ),
{
    let (m0, m1, m2) = (vy * wz - vz * wy, vx * wz - vz * wx, vx * wy - vy * wx);
    let (p0, p1, p2) = (vy * uz - vz * uy, vx * uz - vz * ux, vx * uy - vy * ux);
    let (q0, q1, q2) = (uy * wz - uz * wy, ux * wz - uz * wx, ux * wy - uy * wx);
    assert((vy + uy) * (wz + uz) - (vz + uz) * (wy + uy) == (vy * wz - vz * wy) + (vy * uz - vz
        * uy) + (uy * wz - uz * wy)) by (nonlinear_arith);
    assert((vx + ux) * (wz + uz) - (vz + uz) * (wx + ux) == (vx * wz - vz * wx) + (vx * uz - vz
        * ux) + (ux * wz - uz * wx)) by (nonlinear_arith);
    assert((vx + ux) * (wy + uy) - (vy + uy) * (wx + ux) == (vx * wy - vy * wx) + (vx * uy - vy
        * ux) + (ux * wy - uy * wx)) by (nonlinear_arith);
    assert(ux * (vy * uz - vz * uy) - uy * (vx * uz - vz * ux) + uz * (vx * uy - vy * ux) == 0)
        by (nonlinear_arith);
    assert(ux * (uy * wz - uz * wy) - uy * (ux * wz - uz * wx) + uz * (ux * wy - uy * wx) == 0)
        by (nonlinear_arith);
    assert(ux * (m0 + p0 + q0) - uy * (m1 + p1 + q1) + uz * (m2 + p2 + q2) == ux * m0 - uy * m1 + uz
        * m2 + (ux * p0 - uy * p1 + uz * p2) + (ux * q0 - uy * q1 + uz * q2)) by (nonlinear_arith);
}

/// Translating the rows of `det(A - P, B - P, C - P)` by `A - P` leaves the
/// triple product `(A - P) . ((B - A) x (C - A))`.
pub proof fn lemma_det3_translate(
    ax: int,
    ay: int,
    az: int,
    bx: int,
    by: int,
    bz: int,
    cx: int,
    cy: int,
    cz: int,
    px: int,
    py: int,
    pz: int,
)
    ensures
        det3(ax - px, ay - py, az - pz, bx - px, by - py, bz - pz, cx - px, cy - py, cz - pz) == ((by
            - ay) * (cz - az) - (bz - az) * (cy - ay)) * (ax - px) + ((bz - az) * (cx - ax) - (bx
            - ax) * (cz - az)) * (ay - py) + ((bx - ax) * (cy - ay) - (by - ay) * (cx - ax)) * (az
            - pz),
{
    let (ux, uy, uz) = (ax - px, ay - py, az - pz);
    let (vx, vy, vz) = (bx - ax, by - ay, bz - az);
    let (wx, wy, wz) = (cx - ax, cy - ay, cz - az);
    lemma_det3_add_first_row(ux, uy, uz, vx, vy, vz, wx, wy, wz);
    assert(bx - px == vx + ux && by - py == vy + uy && bz - pz == vz + uz);
    assert(cx - px == wx + ux && cy - py == wy + uy && cz - pz == wz + uz);
    assert(det3(ux, uy, uz, vx, vy, vz, wx, wy, wz) == (vy * wz - vz * wy) * ux + (vz * wx - vx * wz)
        * uy + (vx * wy - vy * wx) * uz) by (nonlinear_arith);
}

/// Comparisons among three scalars are comparisons of their numerators over
/// the common scale.
pub proof fn lemma_order3(p: Scalar, q: Scalar, r: Scalar)
    requires
        p.well_formed(),
        q.well_formed(),
        r.well_formed(),
    ensures
        order_sign(p, q) == int_sign(num3(p, q, r) - num3(q, p, r)),
        order_sign(q, p) == int_sign(num3(q, p, r) - num3(p, q, r)),
        order_sign(p, r) == int_sign(num3(p, q, r) - num3(r, p, q)),
        order_sign(r, p) == int_sign(num3(r, p, q) - num3(p, q, r)),
        order_sign(q, r) == int_sign(num3(q, p, r) - num3(r, p, q)),
        order_sign(r, q) == int_sign(num3(r, p, q) - num3(q, p, r)),
{
    lemma_num3_order(p, q, r);
    lemma_num3_order(q, p, r);
    lemma_num3_order(r, p, q);
    lemma_num3_order(p, r, q);
    lemma_num3_order(q, r, p);
    lemma_num3_order(r, q, p);
    lemma_diff_denotes3(p, q, r);
    lemma_diff_denotes3(q, p, r);
    lemma_diff_denotes3(p, r, q);
    lemma_diff_denotes3(r, p, q);
    lemma_diff_denotes3(q, r, p);
    lemma_diff_denotes3(r, q, p);
    lemma_denotes_sign(diff(p, q), num3(p, q, r) - num3(q, p, r), den3(p, q, r));
    lemma_denotes_sign(diff(q, p), num3(q, p, r) - num3(p, q, r), den3(q, p, r));
    lemma_denotes_sign(diff(p, r), num3(p, r, q) - num3(r, p, q), den3(p, r, q));
    lemma_denotes_sign(diff(r, p), num3(r, p, q) - num3(p, r, q), den3(r, p, q));
    lemma_denotes_sign(diff(q, r), num3(q, r, p) - num3(r, q, p), den3(q, r, p));
    lemma_denotes_sign(diff(r, q), num3(r, q, p) - num3(q, r, p), den3(r, q, p));
}

/// Comparisons among four scalars are comparisons of their numerators over
/// the common scale.
pub proof fn lemma_order4(p: Scalar, q: Scalar, r: Scalar, s: Scalar)
    requires
        p.well_formed(),
        q.well_formed(),
        r.well_formed(),
        s.well_formed(),
    ensures
        ({
            let (np, nq, nr, ns) = (num4(p, q, r, s), num4(q, p, r, s), num4(r, p, q, s), num4(s, p, q, r));
            &&& order_sign(p, q) == int_sign(np - nq)
            &&& order_sign(q, p) == int_sign(nq - np)
            &&& order_sign(p, r) == int_sign(np - nr)
            &&& order_sign(r, p) == int_sign(nr - np)
            &&& order_sign(p, s) == int_sign(np - ns)
            &&& order_sign(s, p) == int_sign(ns - np)
            &&& order_sign(q, r) == int_sign(nq - nr)
            &&& order_sign(r, q) == int_sign(nr - nq)
            &&& order_sign(q, s) == int_sign(nq - ns)
            &&& order_sign(s, q) == int_sign(ns - nq)
            &&& order_sign(r, s) == int_sign(nr - ns)
            &&& order_sign(s, r) == int_sign(ns - nr)
        }),
{
    lemma_order4_pair(p, q, r, s);
    lemma_order4_pair(q, p, r, s);
    lemma_order4_pair(p, r, q, s);
    lemma_order4_pair(r, p, q, s);
    lemma_order4_pair(p, s, q, r);
    lemma_order4_pair(s, p, q, r);
    lemma_order4_pair(q, r, p, s);
    lemma_order4_pair(r, q, p, s);
    lemma_order4_pair(q, s, p, r);
    lemma_order4_pair(s, q, p, r);
    lemma_order4_pair(r, s, p, q);
    lemma_order4_pair(s, r, p, q);
    lemma_num4_order(p, q, r, s);
    lemma_num4_order(q, p, r, s);
    lemma_num4_order(r, p, q, s);
    lemma_num4_order(s, p, q, r);
}

/// One comparison over the scale of four scalars.
proof fn lemma_order4_pair(p: Scalar, q: Scalar, r: Scalar, s: Scalar)
    requires
        p.well_formed(),
        q.well_formed(),
        r.well_formed(),
        s.well_formed(),
    ensures
        order_sign(p, q) == int_sign(num4(p, q, r, s) - num4(q, p, r, s)),
{
    lemma_diff_denotes4(p, q, r, s);
    lemma_denotes_sign(diff(p, q), num4(p, q, r, s) - num4(q, p, r, s), den4(p, q, r, s));
}

/// Swapping the first two points reverses `orient2d`.
pub proof fn lemma_orient2d_swap(a: Point2, b: Point2, c: Point2)
    requires
        a.well_formed(),
        b.well_formed(),
        c.well_formed(),
    ensures
        orient2d_sign(b, a, c) == orient2d_sign(a, b, c).spec_reversed(),
{
    lemma_orient2d_cleared(a, b, c);
    lemma_orient2d_cleared(b, a, c);
    lemma_num3_order(c.x, a.x, b.x);
    lemma_num3_order(c.y, a.y, b.y);
    let (ax, bx, cx) = (num3(a.x, b.x, c.x), num3(b.x, a.x, c.x), num3(c.x, a.x, b.x));
    let (ay, by, cy) = (num3(a.y, b.y, c.y), num3(b.y, a.y, c.y), num3(c.y, a.y, b.y));
    assert((ax - bx) * (cy - by) - (ay - by) * (cx - bx) == -((bx - ax) * (cy - ay) - (by - ay) * (
    cx - ax))) by (nonlinear_arith);
}

/// Rotating the points keeps `orient2d`.
pub proof fn lemma_orient2d_cycle(a: Point2, b: Point2, c: Point2)
    requires
        a.well_formed(),
        b.well_formed(),
        c.well_formed(),
    ensures
        orient2d_sign(b, c, a) == orient2d_sign(a, b, c),
{
    lemma_orient2d_cleared(a, b, c);
    lemma_orient2d_cleared(b, c, a);
    lemma_num3_order(b.x, a.x, c.x);
    lemma_num3_order(b.y, a.y, c.y);
    lemma_num3_order(c.x, a.x, b.x);
    lemma_num3_order(c.y, a.y, b.y);
    let (ax, bx, cx) = (num3(a.x, b.x, c.x), num3(b.x, a.x, c.x), num3(c.x, a.x, b.x));
    let (ay, by, cy) = (num3(a.y, b.y, c.y), num3(b.y, a.y, c.y), num3(c.y, a.y, b.y));
    assert((cx - bx) * (ay - by) - (cy - by) * (ax - bx) == (bx - ax) * (cy - ay) - (by - ay) * (cx
        - ax)) by (nonlinear_arith);
}

/// `orient2d` vanishes when the first two points are equal.
pub proof fn lemma_orient2d_equal_first(a: Point2, b: Point2, c: Point2)
    requires
        a.well_formed(),
        b.well_formed(),
        c.well_formed(),
        points_equal2(a, b),
    ensures
        orient2d_sign(a, b, c) == Sign::Zero,
{
    lemma_orient2d_cleared(a, b, c);
    lemma_order3(a.x, b.x, c.x);
    lemma_order3(a.y, b.y, c.y);
    let (ax, bx) = (num3(a.x, b.x, c.x), num3(b.x, a.x, c.x));
    let (ay, by) = (num3(a.y, b.y, c.y), num3(b.y, a.y, c.y));
    assert(bx - ax == 0 && by - ay == 0);
    let (cx, cy) = (num3(c.x, a.x, b.x), num3(c.y, a.y, b.y));
    assert((bx - ax) * (cy - ay) - (by - ay) * (cx - ax) == 0) by (nonlinear_arith)
        requires
            bx - ax == 0,
            by - ay == 0,
    ;
}

/// Every point is equal to itself.
pub proof fn lemma_points_equal2_refl(a: Point2)
    ensures
        points_equal2(a, a),
{
    assert(diff(a.x, a.x).num == 0);
    assert(diff(a.y, a.y).num == 0);
}

/// Exact equality of points is symmetric.
pub proof fn lemma_points_equal2_symmetric(a: Point2, b: Point2)
    ensures
        points_equal2(a, b) == points_equal2(b, a),
{
    crate::exact::lemma_rat_sub_antisymmetric(a.x.rat(), b.x.rat());
    crate::exact::lemma_rat_sub_antisymmetric(a.y.rat(), b.y.rat());
}

/// A product of three factors in any order.
proof fn lemma_mul3_perm(x: int, y: int, z: int)
    ensures
        x * y * z == y * x * z,
        x * y * z == z * x * y,
        x * y * z == y * z * x,
        x * y * z == x * z * y,
        x * y * z == z * y * x,
{
    assert(x * y * z == y * x * z) by (nonlinear_arith);
    assert(x * y * z == z * x * y) by (nonlinear_arith);
    assert(x * y * z == y * z * x) by (nonlinear_arith);
    assert(x * y * z == x * z * y) by (nonlinear_arith);
    assert(x * y * z == z * y * x) by (nonlinear_arith);
}

/// `x * (p * q - r * t)` as a difference of two monomials.
proof fn lemma_mul_minor(x: int, p: int, q: int, r: int, t: int)
    ensures
        x * (p * q - r * t) == x * p * q - x * r * t,
{
    assert(x * (p * q - r * t) == x * p * q - x * r * t) by (nonlinear_arith);
}

/// The six monomials of a 3x3 determinant.
proof fn lemma_det3_expand(
    ux: int,
    uy: int,
    uz: int,
    vx: int,
    vy: int,
    vz: int,
    wx: int,
    wy: int,
    wz: int,
)
    ensures
        det3(ux, uy, uz, vx, vy, vz, wx, wy, wz) == ux * vy * wz - ux * vz * wy - uy * vx * wz + uy
            * vz * wx + uz * vx * wy - uz * vy * wx,
{
    lemma_mul_minor(ux, vy, wz, vz, wy);
    lemma_mul_minor(uy, vx, wz, vz, wx);
    lemma_mul_minor(uz, vx, wy, vy, wx);
}

/// Swapping the first two rows negates a determinant; rotating the rows keeps it.
proof fn lemma_det3_swap_rows(
    ux: int,
    uy: int,
    uz: int,
    vx: int,
    vy: int,
    vz: int,
    wx: int,
    wy: int,
    wz: int,
)
    ensures
        det3(vx, vy, vz, ux, uy, uz, wx, wy, wz) == -det3(ux, uy, uz, vx, vy, vz, wx, wy, wz),
        det3(vx, vy, vz, wx, wy, wz, ux, uy, uz) == det3(ux, uy, uz, vx, vy, vz, wx, wy, wz),
{
    lemma_det3_expand(ux, uy, uz, vx, vy, vz, wx, wy, wz);
    lemma_det3_expand(vx, vy, vz, ux, uy, uz, wx, wy, wz);
    lemma_det3_expand(vx, vy, vz, wx, wy, wz, ux, uy, uz);
    lemma_mul3_perm(ux, vy, wz);
    lemma_mul3_perm(ux, vz, wy);
    lemma_mul3_perm(uy, vx, wz);
    lemma_mul3_perm(uy, vz, wx);
    lemma_mul3_perm(uz, vx, wy);
    lemma_mul3_perm(uz, vy, wx);
}

/// Swapping the first two points reverses `orient3d`; rotating the first
/// three keeps it.
pub proof fn lemma_orient3d_permute(a: Point3, b: Point3, c: Point3, d: Point3)
    requires
        a.well_formed(),
        b.well_formed(),
        c.well_formed(),
        d.well_formed(),
    ensures
        orient3d_sign(b, a, c, d) == orient3d_sign(a, b, c, d).spec_reversed(),
        orient3d_sign(b, c, a, d) == orient3d_sign(a, b, c, d),
{
    lemma_orient3d_cleared(a, b, c, d);
    lemma_orient3d_cleared(b, a, c, d);
    lemma_orient3d_cleared(b, c, a, d);
    lemma_num4_order(c.x, a.x, b.x, d.x);
    lemma_num4_order(c.y, a.y, b.y, d.y);
    lemma_num4_order(c.z, a.z, b.z, d.z);
    lemma_num4_order(d.x, a.x, b.x, c.x);
    lemma_num4_order(d.y, a.y, b.y, c.y);
    lemma_num4_order(d.z, a.z, b.z, c.z);
    lemma_num4_order(b.x, a.x, c.x, d.x);
    lemma_num4_order(b.y, a.y, c.y, d.y);
    lemma_num4_order(b.z, a.z, c.z, d.z);
    lemma_num4_order(a.x, b.x, c.x, d.x);
    lemma_num4_order(a.y, b.y, c.y, d.y);
    lemma_num4_order(a.z, b.z, c.z, d.z);
    lemma_num4_order(c.x, b.x, a.x, d.x);
    lemma_num4_order(c.y, b.y, a.y, d.y);
    lemma_num4_order(c.z, b.z, a.z, d.z);
    lemma_num4_order(d.x, b.x, a.x, c.x);
    lemma_num4_order(d.y, b.y, a.y, c.y);
    lemma_num4_order(d.z, b.z, a.z, c.z);
    let (ax, bx, cx, dx) = (
        num4(a.x, b.x, c.x, d.x),
        num4(b.x, a.x, c.x, d.x),
        num4(c.x, a.x, b.x, d.x),
        num4(d.x, a.x, b.x, c.x),
    );
    let (ay, by, cy, dy) = (
        num4(a.y, b.y, c.y, d.y),
        num4(b.y, a.y, c.y, d.y),
        num4(c.y, a.y, b.y, d.y),
        num4(d.y, a.y, b.y, c.y),
    );
    let (az, bz, cz, dz) = (
        num4(a.z, b.z, c.z, d.z),
        num4(b.z, a.z, c.z, d.z),
        num4(c.z, a.z, b.z, d.z),
        num4(d.z, a.z, b.z, c.z),
    );
    lemma_det3_swap_rows(ax - dx, ay - dy, az - dz, bx - dx, by - dy, bz - dz, cx - dx, cy - dy, cz - dz);
}

/// Equal scalars have equal cross products of numerator and denominator.
pub proof fn lemma_order_zero(a: Scalar, b: Scalar)
    requires
        a.well_formed(),
        b.well_formed(),
        order_sign(a, b) == Sign::Zero,
    ensures
        a.rat().num * b.rat().den == b.rat().num * a.rat().den,
{
    crate::geometry::lemma_diff_den(a, b);
    lemma_denotes_sign(diff(a, b), diff(a, b).num, diff(a, b).den);
}

/// Equal scalars have equal numerators over a shared scale.
proof fn lemma_equal_num4(a: Scalar, b: Scalar, p: Scalar, q: Scalar)
    requires
        a.well_formed(),
        b.well_formed(),
        order_sign(a, b) == Sign::Zero,
    ensures
        num4(a, p, q, b) == num4(b, p, q, a),
{
    lemma_order_zero(a, b);
    let (an, ad, bn, bd, pd, qd) = (a.rat().num, a.rat().den, b.rat().num, b.rat().den, p.rat().den, q.rat().den);
    assert(an * pd * qd * bd == (an * bd) * (pd * qd)) by (nonlinear_arith);
    assert(bn * pd * qd * ad == (bn * ad) * (pd * qd)) by (nonlinear_arith);
}

/// `orient2d(p, q, r)` over the scale of `p`, `q`, `r` and a fourth point `s`.
pub open spec fn orient2d_cleared4(p: Point2, q: Point2, r: Point2, s: Point2) -> int {
    let (px, qx, rx) = (num4(p.x, q.x, r.x, s.x), num4(q.x, p.x, r.x, s.x), num4(r.x, p.x, q.x, s.x));
    let (py, qy, ry) = (num4(p.y, q.y, r.y, s.y), num4(q.y, p.y, r.y, s.y), num4(r.y, p.y, q.y, s.y));
    (qx - px) * (ry - py) - (qy - py) * (rx - px)
}

/// The sign of `orient2d` is the sign of its polynomial over four points' scale.
pub proof fn lemma_orient2d_cleared4(p: Point2, q: Point2, r: Point2, s: Point2)
    requires
        p.well_formed(),
        q.well_formed(),
        r.well_formed(),
        s.well_formed(),
    ensures
        orient2d_sign(p, q, r) == int_sign(orient2d_cleared4(p, q, r, s)),
{
    let (px, qx, rx) = (num4(p.x, q.x, r.x, s.x), num4(q.x, p.x, r.x, s.x), num4(r.x, p.x, q.x, s.x));
    let (py, qy, ry) = (num4(p.y, q.y, r.y, s.y), num4(q.y, p.y, r.y, s.y), num4(r.y, p.y, q.y, s.y));
    let sx = den4(p.x, q.x, r.x, s.x);
    let sy = den4(p.y, q.y, r.y, s.y);
    lemma_num4_order(p.x, q.x, r.x, s.x);
    lemma_num4_order(p.y, q.y, r.y, s.y);
    lemma_num4_order(q.x, p.x, r.x, s.x);
    lemma_num4_order(q.y, p.y, r.y, s.y);
    lemma_num4_order(r.x, p.x, q.x, s.x);
    lemma_num4_order(r.y, p.y, q.y, s.y);
    lemma_diff_denotes4(q.x, p.x, r.x, s.x);
    lemma_diff_denotes4(r.y, p.y, q.y, s.y);
    lemma_diff_denotes4(q.y, p.y, r.y, s.y);
    lemma_diff_denotes4(r.x, p.x, q.x, s.x);
    lemma_minor_denotes(
        diff(q.x, p.x),
        diff(r.y, p.y),
        diff(q.y, p.y),
        diff(r.x, p.x),
        qx - px,
        ry - py,
        qy - py,
        rx - px,
        sx,
        sy,
    );
    lemma_denotes_sign(orient2d_rat(p, q, r), orient2d_cleared4(p, q, r, s), sx * sy);
}

/// Replacing the third point of `orient2d` by an equal point keeps its sign.
pub proof fn lemma_orient2d_substitute(p: Point2, q: Point2, a: Point2, b: Point2)
    requires
        p.well_formed(),
        q.well_formed(),
        a.well_formed(),
        b.well_formed(),
        points_equal2(a, b),
    ensures
        orient2d_sign(p, q, a) == orient2d_sign(p, q, b),
{
    lemma_orient2d_cleared4(p, q, a, b);
    lemma_orient2d_cleared4(p, q, b, a);
    lemma_num4_order(p.x, q.x, a.x, b.x);
    lemma_num4_order(p.y, q.y, a.y, b.y);
    lemma_num4_order(q.x, p.x, a.x, b.x);
    lemma_num4_order(q.y, p.y, a.y, b.y);
    lemma_equal_num4(a.x, b.x, p.x, q.x);
    lemma_equal_num4(a.y, b.y, p.y, q.y);
}

/// `orient2d` vanishes when its third point repeats one of the first two.
pub proof fn lemma_orient2d_repeat(p: Point2, q: Point2)
    requires
        p.well_formed(),
        q.well_formed(),
    ensures
        orient2d_sign(p, q, p) == Sign::Zero,
        orient2d_sign(p, q, q) == Sign::Zero,
{
    lemma_points_equal2_refl(p);
    lemma_points_equal2_refl(q);
    lemma_orient2d_cycle(p, p, q);
    lemma_orient2d_equal_first(p, p, q);
    lemma_orient2d_cycle(q, q, p);
    lemma_orient2d_cycle(p, q, q);
    lemma_orient2d_equal_first(q, q, p);
}

/// Exact equality of points is transitive.
pub proof fn lemma_points_equal2_trans(a: Point2, b: Point2, c: Point2)
    requires
        a.well_formed(),
        b.well_formed(),
        c.well_formed(),
        points_equal2(a, b),
        points_equal2(b, c),
    ensures
        points_equal2(a, c),
{
    lemma_order3(a.x, b.x, c.x);
    lemma_order3(a.y, b.y, c.y);
}

/// `orient3d` vanishes when two of its points are the same.
pub proof fn lemma_orient3d_repeated(p: Point3, q: Point3, r: Point3, s: Point3)
    requires
        p.well_formed(),
        q.well_formed(),
        r.well_formed(),
        s.well_formed(),
        p == s || q == s || r == s || p == q || p == r || q == r,
    ensures
        orient3d_sign(p, q, r, s) == Sign::Zero,
{
    lemma_orient3d_cleared(p, q, r, s);
    lemma_num4_order(p.x, q.x, r.x, s.x);
    lemma_num4_order(p.y, q.y, r.y, s.y);
    lemma_num4_order(p.z, q.z, r.z, s.z);
    lemma_num4_order(q.x, p.x, r.x, s.x);
    lemma_num4_order(q.y, p.y, r.y, s.y);
    lemma_num4_order(q.z, p.z, r.z, s.z);
    let (ax, bx, cx, dx) = (
        num4(p.x, q.x, r.x, s.x),
        num4(q.x, p.x, r.x, s.x),
        num4(r.x, p.x, q.x, s.x),
        num4(s.x, p.x, q.x, r.x),
    );
    let (ay, by, cy, dy) = (
        num4(p.y, q.y, r.y, s.y),
        num4(q.y, p.y, r.y, s.y),
        num4(r.y, p.y, q.y, s.y),
        num4(s.y, p.y, q.y, r.y),
    );
    let (az, bz, cz, dz) = (
        num4(p.z, q.z, r.z, s.z),
        num4(q.z, p.z, r.z, s.z),
        num4(r.z, p.z, q.z, s.z),
        num4(s.z, p.z, q.z, r.z),
    );
    let (ux, uy, uz) = (ax - dx, ay - dy, az - dz);
    let (vx, vy, vz) = (bx - dx, by - dy, bz - dz);
    let (wx, wy, wz) = (cx - dx, cy - dy, cz - dz);
    lemma_det3_swap_rows(ux, uy, uz, vx, vy, vz, wx, wy, wz);
    lemma_det3_swap_rows(ux, uy, uz, ux, uy, uz, wx, wy, wz);
    lemma_det3_swap_rows(vx, vy, vz, ux, uy, uz, ux, uy, uz);
    lemma_det3_swap_rows(vx, vy, vz, vx, vy, vz, ux, uy, uz);
    lemma_det3_swap_rows(ux, uy, uz, vx, vy, vz, vx, vy, vz);
    lemma_det3_expand(ux, uy, uz, vx, vy, vz, wx, wy, wz);
}

/// The cross product `(b - a) x (c - a)` over the scales of the three points.
pub open spec fn cross_cleared(a: Point3, b: Point3, c: Point3) -> (int, int, int) {
    let (ax, bx, cx) = (num3(a.x, b.x, c.x), num3(b.x, a.x, c.x), num3(c.x, a.x, b.x));
    let (ay, by, cy) = (num3(a.y, b.y, c.y), num3(b.y, a.y, c.y), num3(c.y, a.y, b.y));
    let (az, bz, cz) = (num3(a.z, b.z, c.z), num3(b.z, a.z, c.z), num3(c.z, a.z, b.z));
    let (ux, uy, uz) = (bx - ax, by - ay, bz - az);
    let (vx, vy, vz) = (cx - ax, cy - ay, cz - az);
    (uy * vz - uz * vy, uz * vx - ux * vz, ux * vy - uy * vx)
}

/// The common scales of the three coordinates of three points.
pub open spec fn scales3(a: Point3, b: Point3, c: Point3) -> (int, int, int) {
    (den3(a.x, b.x, c.x), den3(a.y, b.y, c.y), den3(a.z, b.z, c.z))
}

/// Each coordinate of `cross_at(a, b, c)` over the product of two scales.
pub proof fn lemma_cross_cleared(a: Point3, b: Point3, c: Point3)
    requires
        a.well_formed(),
        b.well_formed(),
        c.well_formed(),
    ensures
        ({
            let (x, y, z) = cross_cleared(a, b, c);
            let (sx, sy, sz) = scales3(a, b, c);
            &&& denotes(cross_at(a, b, c).0, x, sy * sz)
            &&& denotes(cross_at(a, b, c).1, y, sz * sx)
            &&& denotes(cross_at(a, b, c).2, z, sx * sy)
        }),
{
    lemma_num3_order(a.x, b.x, c.x);
    lemma_num3_order(a.y, b.y, c.y);
    lemma_num3_order(a.z, b.z, c.z);
    lemma_diff_denotes3(b.x, a.x, c.x);
    lemma_diff_denotes3(b.y, a.y, c.y);
    lemma_diff_denotes3(b.z, a.z, c.z);
    lemma_diff_denotes3(c.x, a.x, b.x);
    lemma_diff_denotes3(c.y, a.y, b.y);
    lemma_diff_denotes3(c.z, a.z, b.z);
    let (sx, sy, sz) = scales3(a, b, c);
    let (ax, bx, cx) = (num3(a.x, b.x, c.x), num3(b.x, a.x, c.x), num3(c.x, a.x, b.x));
    let (ay, by, cy) = (num3(a.y, b.y, c.y), num3(b.y, a.y, c.y), num3(c.y, a.y, b.y));
    let (az, bz, cz) = (num3(a.z, b.z, c.z), num3(b.z, a.z, c.z), num3(c.z, a.z, b.z));
    let (ux, uy, uz) = (bx - ax, by - ay, bz - az);
    let (vx, vy, vz) = (cx - ax, cy - ay, cz - az);
    lemma_minor_denotes(diff(b.y, a.y), diff(c.z, a.z), diff(b.z, a.z), diff(c.y, a.y), uy, vz, uz, vy, sy, sz);
    lemma_minor_denotes(diff(b.z, a.z), diff(c.x, a.x), diff(b.x, a.x), diff(c.z, a.z), uz, vx, ux, vz, sz, sx);
    lemma_minor_denotes(diff(b.x, a.x), diff(c.y, a.y), diff(b.y, a.y), diff(c.x, a.x), ux, vy, uy, vx, sx, sy);
}

/// The cross products taken at the three vertices of a triangle, in cyclic
/// order, are one vector.
pub proof fn lemma_cross_rotation(a: Point3, b: Point3, c: Point3)
    ensures
        cross_cleared(b, c, a) == cross_cleared(a, b, c),
        scales3(b, c, a) == scales3(a, b, c),
{
    lemma_num3_order(a.x, b.x, c.x);
    lemma_num3_order(a.y, b.y, c.y);
    lemma_num3_order(a.z, b.z, c.z);
    lemma_num3_order(b.x, a.x, c.x);
    lemma_num3_order(b.y, a.y, c.y);
    lemma_num3_order(b.z, a.z, c.z);
    lemma_num3_order(c.x, a.x, b.x);
    lemma_num3_order(c.y, a.y, b.y);
    lemma_num3_order(c.z, a.z, b.z);
    let (ax, bx, cx) = (num3(a.x, b.x, c.x), num3(b.x, a.x, c.x), num3(c.x, a.x, b.x));
    let (ay, by, cy) = (num3(a.y, b.y, c.y), num3(b.y, a.y, c.y), num3(c.y, a.y, b.y));
    let (az, bz, cz) = (num3(a.z, b.z, c.z), num3(b.z, a.z, c.z), num3(c.z, a.z, b.z));
    assert((cy - by) * (az - bz) - (cz - bz) * (ay - by) == (by - ay) * (cz - az) - (bz - az) * (cy
        - ay)) by (nonlinear_arith);
    assert((cz - bz) * (ax - bx) - (cx - bx) * (az - bz) == (bz - az) * (cx - ax) - (bx - ax) * (cz
        - az)) by (nonlinear_arith);
    assert((cx - bx) * (ay - by) - (cy - by) * (ax - bx) == (bx - ax) * (cy - ay) - (by - ay) * (cx
        - ax)) by (nonlinear_arith);
}

/// A vector dotted with an equal vector is positive unless it is zero.
pub proof fn lemma_dot_with_itself(
    n: (Rat, Rat, Rat),
    m: (Rat, Rat, Rat),
    x: int,
    y: int,
    z: int,
    sx: int,
    sy: int,
    sz: int,
)
    requires
        denotes(n.0, x, sx),
        denotes(m.0, x, sx),
        denotes(n.1, y, sy),
        denotes(m.1, y, sy),
        denotes(n.2, z, sz),
        denotes(m.2, z, sz),
        !(x == 0 && y == 0 && z == 0),
    ensures
        rat_sign(rat_add(rat_add(rat_mul(n.0, m.0), rat_mul(n.1, m.1)), rat_mul(n.2, m.2)))
            == Sign::Positive,
{
    lemma_denotes_mul(n.0, m.0, x, sx, x, sx);
    lemma_denotes_mul(n.1, m.1, y, sy, y, sy);
    lemma_denotes_mul(n.2, m.2, z, sz, z, sz);
    let (px, py, pz) = (x * x, y * y, z * z);
    let (qx, qy, qz) = (sx * sx, sy * sy, sz * sz);
    lemma_denotes_add_scaled(rat_mul(n.0, m.0), rat_mul(n.1, m.1), px, qx, py, qy);
    lemma_denotes_add_scaled(
        rat_add(rat_mul(n.0, m.0), rat_mul(n.1, m.1)),
        rat_mul(n.2, m.2),
        px * qy + py * qx,
        qx * qy,
        pz,
        qz,
    );
    assert(px >= 0 && py >= 0 && pz >= 0 && qx > 0 && qy > 0 && qz > 0) by (nonlinear_arith)
        requires
            px == x * x,
            py == y * y,
            pz == z * z,
            qx == sx * sx,
            qy == sy * sy,
            qz == sz * sz,
            sx > 0,
            sy > 0,
            sz > 0,
    ;
    assert(px > 0 || py > 0 || pz > 0) by (nonlinear_arith)
        requires
            px == x * x,
            py == y * y,
            pz == z * z,
            !(x == 0 && y == 0 && z == 0),
    ;
    assert((px * qy + py * qx) * qz + pz * (qx * qy) > 0) by (nonlinear_arith)
        requires
            px >= 0,
            py >= 0,
            pz >= 0,
            qx > 0,
            qy > 0,
            qz > 0,
            px > 0 || py > 0 || pz > 0,
    ;
    lemma_denotes_sign(
        rat_add(rat_add(rat_mul(n.0, m.0), rat_mul(n.1, m.1)), rat_mul(n.2, m.2)),
        (px * qy + py * qx) * qz + pz * (qx * qy),
        qx * qy * qz,
    );
}

} // verus!
