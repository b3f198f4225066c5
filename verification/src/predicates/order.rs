//! Exact ordering of real values.
use vstd::prelude::*;
use std::cmp::Ordering;

use crate::exact::{rat_sign, rat_sub, sub_ref, ExactReal};
use crate::predicate::{certified, PredicateOutcome, PredicatePolicy, Sign};
use crate::resolve::resolve_real_sign;

verus! {

/// `Less`, `Equal` or `Greater` for a negative, zero or positive sign.
pub open spec fn ordering_of_sign(sign: Sign) -> Ordering {
    match sign {
        Sign::Negative => Ordering::Less,
        Sign::Zero => Ordering::Equal,
        Sign::Positive => Ordering::Greater,
    }
}

/// Compares two exact values through the sign of their difference.
pub fn compare_reals_with_policy(left: &ExactReal, right: &ExactReal, policy: PredicatePolicy) -> (r:
    PredicateOutcome<Ordering>)
    ensures
        r == certified(ordering_of_sign(rat_sign(rat_sub(left.rat(), right.rat())))),
{
    let difference = sub_ref(left, right);
    match resolve_real_sign(&difference) {
        PredicateOutcome::Decided { value, certainty, stage } => {
            let ordering = match value {
                Sign::Negative => Ordering::Less,
                Sign::Zero => Ordering::Equal,
                Sign::Positive => Ordering::Greater,
            };
            PredicateOutcome::decided(ordering, certainty, stage)
        },
        PredicateOutcome::Unknown { needed, stage } => PredicateOutcome::unknown(needed, stage),
    }
}

} // verus!
