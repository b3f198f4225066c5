//! Exact closed-interval predicates.
//!
//! Interval endpoints may be given in either order; each interval is the
//! closed range between its two endpoints.
use vstd::prelude::*;

use crate::classify::{ClosedIntervalIntersection, RealIntervalLocation};
use crate::exact::{scalar_difference, Scalar};
use crate::geometry::order_sign;
use crate::predicate::{
    certified, decided, DecisionTrace, PredicateOutcome, PredicatePolicy, Sign,
};
use crate::resolve::resolve_real_sign;
use crate::geometry::cleared::{lemma_order3, lemma_order4};

verus! {

/// The endpoints `a`, `b` ordered as `(lower, upper)`.
pub open spec fn ordered(a: Scalar, b: Scalar) -> (Scalar, Scalar) {
    if order_sign(b, a) == Sign::Negative {
        (b, a)
    } else {
        (a, b)
    }
}

/// Location of `value` in the closed interval between `a` and `b`.
pub open spec fn interval_location(value: Scalar, a: Scalar, b: Scalar) -> RealIntervalLocation {
    let (lower, upper) = ordered(a, b);
    let below = order_sign(value, lower);
    let above = order_sign(value, upper);
    if below == Sign::Negative {
        RealIntervalLocation::BelowLower
    } else if below == Sign::Zero {
        RealIntervalLocation::AtLowerEndpoint
    } else if above == Sign::Positive {
        RealIntervalLocation::AboveUpper
    } else if above == Sign::Zero {
        RealIntervalLocation::AtUpperEndpoint
    } else {
        RealIntervalLocation::Inside
    }
}

/// Relation between the closed intervals spanned by `(a1, b1)` and `(a2, b2)`:
/// compares the larger lower endpoint with the smaller upper endpoint.
pub open spec fn interval_intersection(a1: Scalar, b1: Scalar, a2: Scalar, b2: Scalar) -> ClosedIntervalIntersection {
    let (lower1, upper1) = ordered(a1, b1);
    let (lower2, upper2) = ordered(a2, b2);
    let lower = if order_sign(lower1, lower2) == Sign::Negative {
        lower2
    } else {
        lower1
    };
    let upper = if order_sign(upper1, upper2) == Sign::Positive {
        upper2
    } else {
        upper1
    };
    match order_sign(upper, lower) {
        Sign::Negative => ClosedIntervalIntersection::Disjoint,
        Sign::Zero => ClosedIntervalIntersection::Touching,
        Sign::Positive => ClosedIntervalIntersection::Overlapping,
    }
}

/// The exact sign of `a - b` as a predicate outcome.
pub(crate) fn compare_scalars(a: &Scalar, b: &Scalar) -> (r: PredicateOutcome<Sign>)
    ensures
        r == certified(order_sign(*a, *b)),
{
    resolve_real_sign(&scalar_difference(a, b))
}

fn ordered_endpoints(a: &Scalar, b: &Scalar, trace: &mut DecisionTrace) -> (r: Result<
    (Scalar, Scalar),
    crate::predicate::UnknownDecision,
>)
    requires
        old(trace).certainty == crate::predicate::Certainty::Exact,
        old(trace).stage == crate::predicate::Escalation::StructuralFacts,
    ensures
        r == Ok::<(Scalar, Scalar), crate::predicate::UnknownDecision>(ordered(*a, *b)),
        *final(trace) == *old(trace),
{
    match decided(compare_scalars(b, a), trace) {
        Ok(Sign::Negative) => Ok((*b, *a)),
        Ok(_) => Ok((*a, *b)),
        Err(unknown) => Err(unknown),
    }
}

/// Classifies `value` against the closed interval between `a` and `b`.
pub fn classify_real_closed_interval_with_policy(
    value: &Scalar,
    a: &Scalar,
    b: &Scalar,
    policy: PredicatePolicy,
) -> (r: PredicateOutcome<RealIntervalLocation>)
    ensures
        r == certified(interval_location(*value, *a, *b)),
{
    let mut trace = DecisionTrace::start();
    let (lower, upper) = match ordered_endpoints(a, b, &mut trace) {
        Ok(pair) => pair,
        Err(unknown) => return unknown.into_outcome(),
    };
    let below = match decided(compare_scalars(value, &lower), &mut trace) {
        Ok(sign) => sign,
        Err(unknown) => return unknown.into_outcome(),
    };
    let location = match below {
        Sign::Negative => RealIntervalLocation::BelowLower,
        Sign::Zero => RealIntervalLocation::AtLowerEndpoint,
        Sign::Positive => {
            let above = match decided(compare_scalars(value, &upper), &mut trace) {
                Ok(sign) => sign,
                Err(unknown) => return unknown.into_outcome(),
            };
            match above {
                Sign::Positive => RealIntervalLocation::AboveUpper,
                Sign::Zero => RealIntervalLocation::AtUpperEndpoint,
                Sign::Negative => RealIntervalLocation::Inside,
            }
        },
    };
    PredicateOutcome::decided(location, trace.certainty, trace.stage)
}

/// Classifies the relation between the closed intervals spanned by
/// `(first_a, first_b)` and `(second_a, second_b)`.
pub fn classify_closed_interval_intersection_with_policy(
    first_a: &Scalar,
    first_b: &Scalar,
    second_a: &Scalar,
    second_b: &Scalar,
    policy: PredicatePolicy,
) -> (r: PredicateOutcome<ClosedIntervalIntersection>)
    ensures
        r == certified(interval_intersection(*first_a, *first_b, *second_a, *second_b)),
{
    let mut trace = DecisionTrace::start();
    let (lower1, upper1) = match ordered_endpoints(first_a, first_b, &mut trace) {
        Ok(pair) => pair,
        Err(unknown) => return unknown.into_outcome(),
    };
    let (lower2, upper2) = match ordered_endpoints(second_a, second_b, &mut trace) {
        Ok(pair) => pair,
        Err(unknown) => return unknown.into_outcome(),
    };
    let lower = match decided(compare_scalars(&lower1, &lower2), &mut trace) {
        Ok(Sign::Negative) => lower2,
        Ok(_) => lower1,
        Err(unknown) => return unknown.into_outcome(),
    };
    let upper = match decided(compare_scalars(&upper1, &upper2), &mut trace) {
        Ok(Sign::Positive) => upper2,
        Ok(_) => upper1,
        Err(unknown) => return unknown.into_outcome(),
    };
    let relation = match decided(compare_scalars(&upper, &lower), &mut trace) {
        Ok(Sign::Negative) => ClosedIntervalIntersection::Disjoint,
        Ok(Sign::Zero) => ClosedIntervalIntersection::Touching,
        Ok(Sign::Positive) => ClosedIntervalIntersection::Overlapping,
        Err(unknown) => return unknown.into_outcome(),
    };
    PredicateOutcome::decided(relation, trace.certainty, trace.stage)
}

/// A value's location in a closed interval does not depend on the order in
/// which the endpoints are given.
pub proof fn law_interval_location_endpoint_order(value: Scalar, a: Scalar, b: Scalar)
    requires
        value.well_formed(),
        a.well_formed(),
        b.well_formed(),
    ensures
        interval_location(value, b, a) == interval_location(value, a, b),
{
    lemma_order3(value, a, b);
}

/// The relation between two closed intervals is symmetric, and does not
/// depend on the order of either interval's endpoints.
pub proof fn law_interval_intersection_symmetric(a1: Scalar, b1: Scalar, a2: Scalar, b2: Scalar)
    requires
        a1.well_formed(),
        b1.well_formed(),
        a2.well_formed(),
        b2.well_formed(),
    ensures
        interval_intersection(a2, b2, a1, b1) == interval_intersection(a1, b1, a2, b2),
        interval_intersection(b1, a1, a2, b2) == interval_intersection(a1, b1, a2, b2),
{
    lemma_order4(a1, b1, a2, b2);
}

} // verus!
