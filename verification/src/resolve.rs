//! Sign resolution for exact values.
use vstd::prelude::*;

use crate::exact::{rat_sign, structural_sign, ExactReal};
use crate::predicate::{certified, Certainty, Escalation, PredicateOutcome, Sign};

verus! {

/// The exact sign of a value.
pub(crate) fn exact_sign(value: &ExactReal) -> (r: Sign)
    ensures
        r == rat_sign(value.rat()),
{
    structural_sign(value)
}

/// Resolves the sign of an exact value into a predicate outcome.
///
/// Values built from exact rational coordinates carry their sign in their
/// structural facts, so the outcome is decided exactly at the structural stage
/// under every policy.
pub(crate) fn resolve_real_sign(value: &ExactReal) -> (r: PredicateOutcome<Sign>)
    ensures
        r == certified(rat_sign(value.rat())),
{
    let sign = structural_sign(value);
    PredicateOutcome::decided(sign, Certainty::Exact, Escalation::StructuralFacts)
}

} // verus!
