//! Exact rational scalars and the boundary to `hyperreal` arithmetic.
//!
//! Coordinates are exact rationals `num / den` held as plain integers. Every
//! polynomial that a predicate needs is evaluated exactly by `hyperreal`; an
//! [`ExactReal`] carries the `hyperreal::Real` together with the rational it
//! denotes, and the only way to obtain one is through the arithmetic wrappers
//! of this module.
use vstd::prelude::*;
use hyperreal::{Problem, Rational, Real, RealSign};

use crate::predicate::Sign;

verus! {

/// The mathematical rational number `num / den`.
pub ghost struct Rat {
    pub num: int,
    pub den: int,
}

pub open spec fn rat_add(x: Rat, y: Rat) -> Rat {
    Rat { num: x.num * y.den + y.num * x.den, den: x.den * y.den }
}

pub open spec fn rat_sub(x: Rat, y: Rat) -> Rat {
    Rat { num: x.num * y.den - y.num * x.den, den: x.den * y.den }
}

pub open spec fn rat_mul(x: Rat, y: Rat) -> Rat {
    Rat { num: x.num * y.num, den: x.den * y.den }
}

pub open spec fn int_sign(v: int) -> Sign {
    if v > 0 {
        Sign::Positive
    } else if v < 0 {
        Sign::Negative
    } else {
        Sign::Zero
    }
}

/// The sign of the rational `num / den`.
pub open spec fn rat_sign(q: Rat) -> Sign {
    int_sign(q.num * q.den)
}

/// The sign of a product, from the signs of its factors.
pub open spec fn sign_product(a: Sign, b: Sign) -> Sign {
    if a == Sign::Zero || b == Sign::Zero {
        Sign::Zero
    } else if a == b {
        Sign::Positive
    } else {
        Sign::Negative
    }
}

pub proof fn lemma_int_sign_mul(a: int, b: int)
    ensures
        int_sign(a * b) == sign_product(int_sign(a), int_sign(b)),
{
    if a > 0 && b > 0 {
        assert(a * b > 0) by (nonlinear_arith)
            requires
                a > 0,
                b > 0,
        ;
    } else if a > 0 && b < 0 {
        assert(a * b < 0) by (nonlinear_arith)
            requires
                a > 0,
                b < 0,
        ;
    } else if a < 0 && b > 0 {
        assert(a * b < 0) by (nonlinear_arith)
            requires
                a < 0,
                b > 0,
        ;
    } else if a < 0 && b < 0 {
        assert(a * b > 0) by (nonlinear_arith)
            requires
                a < 0,
                b < 0,
        ;
    } else {
        assert(a * b == 0) by (nonlinear_arith)
            requires
                a == 0 || b == 0,
        ;
    }
}

/// The sign of an exact product is the product of the signs.
pub proof fn lemma_rat_sign_mul(x: Rat, y: Rat)
    ensures
        rat_sign(rat_mul(x, y)) == sign_product(rat_sign(x), rat_sign(y)),
{
    assert((x.num * y.num) * (x.den * y.den) == (x.num * x.den) * (y.num * y.den))
        by (nonlinear_arith);
    lemma_int_sign_mul(x.num * x.den, y.num * y.den);
}

/// `x - y` and `y - x` have opposite signs.
pub proof fn lemma_rat_sub_antisymmetric(x: Rat, y: Rat)
    ensures
        rat_sign(rat_sub(x, y)) == rat_sign(rat_sub(y, x)).spec_reversed(),
{
    assert((x.num * y.den - y.num * x.den) * (x.den * y.den) == -((y.num * x.den - x.num
        * y.den) * (y.den * x.den))) by (nonlinear_arith);
}

/// Subtracting an exact zero keeps the sign.
pub proof fn lemma_rat_sub_zero_right(x: Rat, y: Rat)
    requires
        y.den != 0,
        rat_sign(y) == Sign::Zero,
    ensures
        rat_sign(rat_sub(x, y)) == rat_sign(x),
{
    lemma_int_sign_mul(y.num, y.den);
    assert(y.num == 0);
    assert((x.num * y.den - y.num * x.den) * (x.den * y.den) == (x.num * x.den) * (y.den
        * y.den)) by (nonlinear_arith)
        requires
            y.num == 0,
    ;
    lemma_int_sign_mul(x.num * x.den, y.den * y.den);
    lemma_int_sign_mul(y.den, y.den);
}

/// Subtracting from an exact zero reverses the sign.
pub proof fn lemma_rat_sub_zero_left(x: Rat, y: Rat)
    requires
        x.den != 0,
        rat_sign(x) == Sign::Zero,
    ensures
        rat_sign(rat_sub(x, y)) == rat_sign(y).spec_reversed(),
{
    lemma_rat_sub_antisymmetric(x, y);
    lemma_rat_sub_zero_right(y, x);
}

/// `q` has a positive denominator and denotes the fraction `v / s`, `s > 0`.
pub open spec fn denotes(q: Rat, v: int, s: int) -> bool {
    q.den > 0 && s > 0 && q.num * s == v * q.den
}

/// The sign of a rational is the sign of any numerator it is written with.
pub proof fn lemma_denotes_sign(q: Rat, v: int, s: int)
    requires
        denotes(q, v, s),
    ensures
        rat_sign(q) == int_sign(v),
{
    lemma_int_sign_mul(q.num, q.den);
    lemma_int_sign_mul(q.num, s);
    lemma_int_sign_mul(v, q.den);
}

/// A denotation can be rescaled by any positive factor.
pub proof fn lemma_denotes_scale(q: Rat, v: int, s: int, k: int)
    requires
        denotes(q, v, s),
        k > 0,
    ensures
        denotes(q, v * k, s * k),
{
    assert(q.num * (s * k) == (q.num * s) * k) by (nonlinear_arith);
    assert((v * q.den) * k == (v * k) * q.den) by (nonlinear_arith);
    assert(s * k > 0) by (nonlinear_arith)
        requires
            s > 0,
            k > 0,
    ;
}

/// Products denote products.
pub proof fn lemma_denotes_mul(x: Rat, y: Rat, vx: int, sx: int, vy: int, sy: int)
    requires
        denotes(x, vx, sx),
        denotes(y, vy, sy),
    ensures
        denotes(rat_mul(x, y), vx * vy, sx * sy),
{
    assert((x.num * y.num) * (sx * sy) == (vx * vy) * (x.den * y.den) && x.den * y.den > 0 && sx
        * sy > 0) by (nonlinear_arith)
        requires
            x.num * sx == vx * x.den,
            y.num * sy == vy * y.den,
            x.den > 0,
            y.den > 0,
            sx > 0,
            sy > 0,
    ;
}

/// Cross terms of a sum or difference over one scale.
proof fn lemma_cross_terms(x: Rat, y: Rat, vx: int, vy: int, s: int)
    requires
        denotes(x, vx, s),
        denotes(y, vy, s),
    ensures
        (x.num * y.den) * s == vx * (x.den * y.den),
        (y.num * x.den) * s == vy * (x.den * y.den),
        x.den * y.den > 0,
{
    assert((x.num * y.den) * s == (x.num * s) * y.den) by (nonlinear_arith);
    assert((vx * x.den) * y.den == vx * (x.den * y.den)) by (nonlinear_arith);
    assert((y.num * x.den) * s == (y.num * s) * x.den) by (nonlinear_arith);
    assert((vy * y.den) * x.den == vy * (x.den * y.den)) by (nonlinear_arith);
    assert(x.den * y.den > 0) by (nonlinear_arith)
        requires
            x.den > 0,
            y.den > 0,
    ;
}

/// Sums over one scale denote sums.
pub proof fn lemma_denotes_add(x: Rat, y: Rat, vx: int, vy: int, s: int)
    requires
        denotes(x, vx, s),
        denotes(y, vy, s),
    ensures
        denotes(rat_add(x, y), vx + vy, s),
{
    lemma_cross_terms(x, y, vx, vy, s);
    assert((x.num * y.den + y.num * x.den) * s == (x.num * y.den) * s + (y.num * x.den) * s)
        by (nonlinear_arith);
    assert((vx + vy) * (x.den * y.den) == vx * (x.den * y.den) + vy * (x.den * y.den))
        by (nonlinear_arith);
}

/// Sums over two scales denote sums over their product.
pub proof fn lemma_denotes_add_scaled(x: Rat, y: Rat, vx: int, sx: int, vy: int, sy: int)
    requires
        denotes(x, vx, sx),
        denotes(y, vy, sy),
    ensures
        denotes(rat_add(x, y), vx * sy + vy * sx, sx * sy),
{
    lemma_denotes_scale(x, vx, sx, sy);
    lemma_denotes_scale(y, vy, sy, sx);
    assert(sy * sx == sx * sy) by (nonlinear_arith);
    lemma_denotes_add(x, y, vx * sy, vy * sx, sx * sy);
}

/// Differences over one scale denote differences.
pub proof fn lemma_denotes_sub(x: Rat, y: Rat, vx: int, vy: int, s: int)
    requires
        denotes(x, vx, s),
        denotes(y, vy, s),
    ensures
        denotes(rat_sub(x, y), vx - vy, s),
{
    lemma_cross_terms(x, y, vx, vy, s);
    assert((x.num * y.den - y.num * x.den) * s == (x.num * y.den) * s - (y.num * x.den) * s)
        by (nonlinear_arith);
    assert((vx - vy) * (x.den * y.den) == vx * (x.den * y.den) - vy * (x.den * y.den))
        by (nonlinear_arith);
}

/// Exact rational scalar `num / den` with a positive denominator.
#[derive(Clone, Copy, Debug, PartialEq, Eq, Structural)]
pub struct Scalar {
    num: i64,
    den: u64,
}

impl Scalar {
    /// The rational this scalar denotes.
    pub closed spec fn rat(self) -> Rat {
        Rat { num: self.num as int, den: self.den as int }
    }

    /// Every scalar has a positive denominator.
    #[verifier::type_invariant]
    pub open spec fn well_formed(self) -> bool {
        self.rat().den > 0
    }

    /// The integer `n`.
    pub fn from_int(n: i64) -> (s: Scalar)
        ensures
            s.rat() == (Rat { num: n as int, den: 1 }),
    {
        Scalar { num: n, den: 1 }
    }

    /// The fraction `num / den`, or `None` when `den` is zero.
    pub fn fraction(num: i64, den: u64) -> (s: Option<Scalar>)
        ensures
            den == 0 ==> s is None,
            den != 0 ==> s is Some && s->0.rat() == (Rat { num: num as int, den: den as int }),
    {
        if den == 0 {
            None
        } else {
            Some(Scalar { num, den })
        }
    }

    /// The numerator as stored.
    pub fn numerator(&self) -> (n: i64)
        ensures
            n as int == self.rat().num,
    {
        self.num
    }

    /// The positive denominator as stored.
    pub fn denominator(&self) -> (d: u64)
        ensures
            d as int == self.rat().den,
            d > 0,
    {
        proof {
            use_type_invariant(self);
        }
        self.den
    }
}

#[verifier::external_type_specification]
#[verifier::external_body]
pub struct ExReal(Real);

/// `hyperreal`'s error type, which the impls of `Real` mention.
#[verifier::external_type_specification]
#[verifier::external_body]
pub struct ExProblem(Problem);

/// An exact value computed by `hyperreal`, with the rational it denotes.
pub struct ExactReal {
    value: Real,
    meaning: Ghost<Rat>,
}

impl ExactReal {
    /// The rational this value denotes.
    pub closed spec fn rat(&self) -> Rat {
        self.meaning@
    }
}

impl View for ExactReal {
    type V = Rat;

    open spec fn view(&self) -> Rat {
        self.rat()
    }
}

/// `t0 + t1 + t2 + t3` where each `ti` is the product of a pair.
pub open spec fn product_sum4(terms: [[Rat; 2]; 4]) -> Rat {
    rat_add(
        rat_add(
            rat_add(rat_mul(terms[0][0], terms[0][1]), rat_mul(terms[1][0], terms[1][1])),
            rat_mul(terms[2][0], terms[2][1]),
        ),
        rat_mul(terms[3][0], terms[3][1]),
    )
}

/// The rationals denoted by four pairs of exact values.
pub open spec fn pair_terms(terms: [[&ExactReal; 2]; 4]) -> [[Rat; 2]; 4] {
    [
        [terms[0][0]@, terms[0][1]@],
        [terms[1][0]@, terms[1][1]@],
        [terms[2][0]@, terms[2][1]@],
        [terms[3][0]@, terms[3][1]@],
    ]
}

/// Which exact schedules a set of four exact values admits.
#[derive(Clone, Copy, Debug, PartialEq, Eq, Structural)]
pub struct ExactSetSchedules {
    /// Every value is an exact rational.
    pub all_exact_rational: bool,
    /// Every value is an exact rational with a power-of-two denominator.
    pub dyadic: bool,
    /// Every value is an exact rational and all reduced denominators are equal.
    pub shared_denominator: bool,
}

/// The schedules that `Real::exact_set_facts` reports for four exact values.
pub uninterp spec fn exact_set_schedules_of(values: (Rat, Rat, Rat, Rat)) -> ExactSetSchedules;

/// Imports a scalar into `hyperreal` with `Rational::fraction` and `Real::new`.
///
/// Claims that the resulting `Real` is the exact rational `num / den`.
#[verifier::external_body]
pub(crate) fn real_of(s: &Scalar) -> (r: ExactReal)
    ensures
        r.rat() == s.rat(),
{
    ExactReal { value: Real::new(Rational::fraction(s.num, s.den).unwrap()), meaning: Ghost(s.rat()) }
}

/// Exact difference with `hyperreal`'s `Sub` on `&Real`.
///
/// Claims that the difference of two exact rational reals is their exact difference.
#[verifier::external_body]
pub(crate) fn sub_ref(a: &ExactReal, b: &ExactReal) -> (r: ExactReal)
    ensures
        r.rat() == rat_sub(a.rat(), b.rat()),
{
    ExactReal { value: &a.value - &b.value, meaning: Ghost(rat_sub(a.rat(), b.rat())) }
}

/// Exact product with `hyperreal`'s `Mul` on `&Real`.
///
/// Claims that the product of two exact rational reals is their exact product.
#[verifier::external_body]
pub(crate) fn mul_ref(a: &ExactReal, b: &ExactReal) -> (r: ExactReal)
    ensures
        r.rat() == rat_mul(a.rat(), b.rat()),
{
    ExactReal { value: &a.value * &b.value, meaning: Ghost(rat_mul(a.rat(), b.rat())) }
}

/// Exact sum with `hyperreal`'s `Add` on `&Real`.
///
/// Claims that the sum of two exact rational reals is their exact sum.
#[verifier::external_body]
pub(crate) fn add_ref(a: &ExactReal, b: &ExactReal) -> (r: ExactReal)
    ensures
        r.rat() == rat_add(a.rat(), b.rat()),
{
    ExactReal { value: &a.value + &b.value, meaning: Ghost(rat_add(a.rat(), b.rat())) }
}

/// The sign that `Real::structural_facts` certifies.
///
/// Claims that for an exact rational real the structural facts carry its sign,
/// and that this sign is the sign of the rational it denotes.
#[verifier::external_body]
pub(crate) fn structural_sign(a: &ExactReal) -> (r: Sign)
    ensures
        r == rat_sign(a.rat()),
{
    match a.value.structural_facts().sign.unwrap() {
        RealSign::Negative => Sign::Negative,
        RealSign::Zero => Sign::Zero,
        RealSign::Positive => Sign::Positive,
    }
}

/// The fused sum of products `Real::signed_product_sum` with all terms added.
///
/// Claims that it evaluates the sum of the four products exactly.
#[verifier::external_body]
pub(crate) fn signed_product_sum4(terms: [[&ExactReal; 2]; 4]) -> (r: ExactReal)
    ensures
        r.rat() == product_sum4(pair_terms(terms)),
{
    let reals = [
        [&terms[0][0].value, &terms[0][1].value],
        [&terms[1][0].value, &terms[1][1].value],
        [&terms[2][0].value, &terms[2][1].value],
        [&terms[3][0].value, &terms[3][1].value],
    ];
    ExactReal { value: Real::signed_product_sum([true; 4], reals), meaning: Ghost(product_sum4(pair_terms(terms))) }
}

/// The fused sum of products `Real::exact_rational_signed_product_sum_known_exact`
/// with all terms added.
///
/// That entry point reads each factor's rational directly; every `ExactReal`
/// holds an exact rational, which is what it asks of its factors. Claims that
/// it evaluates the sum of the four products exactly.
#[verifier::external_body]
pub(crate) fn known_exact_product_sum4(terms: [[&ExactReal; 2]; 4]) -> (r: ExactReal)
    ensures
        r.rat() == product_sum4(pair_terms(terms)),
{
    let reals = [
        [&terms[0][0].value, &terms[0][1].value],
        [&terms[1][0].value, &terms[1][1].value],
        [&terms[2][0].value, &terms[2][1].value],
        [&terms[3][0].value, &terms[3][1].value],
    ];
    ExactReal {
        value: Real::exact_rational_signed_product_sum_known_exact([true; 4], reals),
        meaning: Ghost(product_sum4(pair_terms(terms))),
    }
}

/// Exact-set facts from `Real::exact_set_facts`, reduced to the schedules they
/// select.
///
/// Claims that the result depends only on the four values, that every value
/// carried here is an exact rational, and that integers admit both the dyadic
/// and the shared-denominator schedule.
#[verifier::external_body]
pub(crate) fn exact_set_schedules(values: [&ExactReal; 4]) -> (r: ExactSetSchedules)
    ensures
        r == exact_set_schedules_of((values[0]@, values[1]@, values[2]@, values[3]@)),
        r.all_exact_rational,
        (values[0]@.den == 1 && values[1]@.den == 1 && values[2]@.den == 1 && values[3]@.den == 1)
            ==> r.dyadic && r.shared_denominator,
{
    let facts = Real::exact_set_facts([&values[0].value, &values[1].value, &values[2].value, &values[3].value]);
    ExactSetSchedules {
        all_exact_rational: facts.all_exact_rational,
        dyadic: facts.all_dyadic,
        shared_denominator: facts.shared_denominator,
    }
}

/// Exact difference of two scalars.
pub(crate) fn scalar_difference(a: &Scalar, b: &Scalar) -> (r: ExactReal)
    ensures
        r.rat() == rat_sub(a.rat(), b.rat()),
{
    let ea = real_of(a);
    let eb = real_of(b);
    sub_ref(&ea, &eb)
}

} // verus!
