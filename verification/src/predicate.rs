//! Predicate outcomes, provenance and policy.
use vstd::prelude::*;

verus! {

/// Sign of an exact value.
#[derive(Clone, Copy, Debug, PartialEq, Eq, Structural)]
pub enum Sign {
    Negative,
    Zero,
    Positive,
}

impl Sign {
    pub open spec fn spec_reversed(self) -> Sign {
        match self {
            Sign::Negative => Sign::Positive,
            Sign::Zero => Sign::Zero,
            Sign::Positive => Sign::Negative,
        }
    }

    /// The opposite sign; zero stays zero.
    pub fn reversed(self) -> (r: Sign)
        ensures
            r == self.spec_reversed(),
    {
        match self {
            Sign::Negative => Sign::Positive,
            Sign::Zero => Sign::Zero,
            Sign::Positive => Sign::Negative,
        }
    }
}

} // verus!

verus! {

/// How a decided predicate result was certified.
#[derive(Clone, Copy, Debug, PartialEq, Eq, Structural)]
pub enum Certainty {
    /// Certified by exact facts or exact arithmetic.
    Exact,
    /// Certified by a sound filter.
    Filtered,
}

/// The escalation stage at which a predicate was decided or gave up.
#[derive(Clone, Copy, Debug, PartialEq, Eq, Structural)]
pub enum Escalation {
    StructuralFacts,
    Filter,
    Exact,
    Refined,
    Undecided,
}

/// What an undecided predicate would need in order to decide.
#[derive(Clone, Copy, Debug, PartialEq, Eq, Structural)]
pub enum RefinementNeed {
    /// Exact evaluation of an expression that policy did not allow.
    ExactEvaluation,
    /// Further refinement of a real value.
    RealRefinement,
}

/// Result of an exact predicate: a decided value with its provenance, or an
/// explicit statement of what is missing.
#[derive(Clone, Copy, Debug, PartialEq, Eq)]
pub enum PredicateOutcome<T> {
    Decided { value: T, certainty: Certainty, stage: Escalation },
    Unknown { needed: RefinementNeed, stage: Escalation },
}

/// A decided outcome certified exactly from structural facts.
pub open spec fn certified<T>(value: T) -> PredicateOutcome<T> {
    PredicateOutcome::Decided { value, certainty: Certainty::Exact, stage: Escalation::StructuralFacts }
}

impl<T: Copy> PredicateOutcome<T> {
    /// A decided outcome.
    pub fn decided(value: T, certainty: Certainty, stage: Escalation) -> (r: Self)
        ensures
            r == (PredicateOutcome::Decided { value, certainty, stage }),
    {
        PredicateOutcome::Decided { value, certainty, stage }
    }

    /// An undecided outcome.
    pub fn unknown(needed: RefinementNeed, stage: Escalation) -> (r: Self)
        ensures
            r == (PredicateOutcome::<T>::Unknown { needed, stage }),
    {
        PredicateOutcome::Unknown { needed, stage }
    }

    pub open spec fn spec_value(self) -> Option<T> {
        match self {
            PredicateOutcome::Decided { value, .. } => Some(value),
            PredicateOutcome::Unknown { .. } => None,
        }
    }

    /// The decided value, if any.
    pub fn value(&self) -> (r: Option<T>)
        ensures
            r == self.spec_value(),
    {
        match self {
            PredicateOutcome::Decided { value, .. } => Some(*value),
            PredicateOutcome::Unknown { .. } => None,
        }
    }

    /// Whether the outcome is decided.
    pub fn is_decided(&self) -> (r: bool)
        ensures
            r == self is Decided,
    {
        match self {
            PredicateOutcome::Decided { .. } => true,
            PredicateOutcome::Unknown { .. } => false,
        }
    }
}

/// Which escalation stages a predicate may use.
///
/// Structural certificates are exact and always accepted; the flags gate the
/// costlier stages.
#[derive(Clone, Copy, Debug, PartialEq, Eq, Structural)]
pub struct PredicatePolicy {
    pub allow_filters: bool,
    pub allow_exact: bool,
    pub allow_refinement: bool,
}

impl PredicatePolicy {
    /// The strict policy: no filters, exact evaluation and refinement allowed.
    pub fn strict() -> (p: PredicatePolicy)
        ensures
            p == (PredicatePolicy { allow_filters: false, allow_exact: true, allow_refinement: true }),
    {
        PredicatePolicy { allow_filters: false, allow_exact: true, allow_refinement: true }
    }
}

impl PredicatePolicy {
    /// The default policy: every stage allowed.
    pub open spec fn default_spec() -> PredicatePolicy {
        PredicatePolicy { allow_filters: true, allow_exact: true, allow_refinement: true }
    }
}

impl Default for PredicatePolicy {
    fn default() -> (p: PredicatePolicy)
        ensures
            p == PredicatePolicy::default_spec(),
    {
        PredicatePolicy { allow_filters: true, allow_exact: true, allow_refinement: true }
    }
}

pub open spec fn spec_certainty_rank(certainty: Certainty) -> u8 {
    match certainty {
        Certainty::Exact => 0,
        Certainty::Filtered => 1,
    }
}

pub open spec fn spec_stage_rank(stage: Escalation) -> u8 {
    match stage {
        Escalation::StructuralFacts => 0,
        Escalation::Filter => 1,
        Escalation::Exact => 2,
        Escalation::Refined => 3,
        Escalation::Undecided => 4,
    }
}

/// The weaker of two certainties.
pub open spec fn spec_max_certainty(left: Certainty, right: Certainty) -> Certainty {
    if spec_certainty_rank(left) >= spec_certainty_rank(right) {
        left
    } else {
        right
    }
}

/// The later of two stages.
pub open spec fn spec_max_stage(left: Escalation, right: Escalation) -> Escalation {
    if spec_stage_rank(left) >= spec_stage_rank(right) {
        left
    } else {
        right
    }
}

pub(crate) fn certainty_rank(certainty: Certainty) -> (r: u8)
    ensures
        r == spec_certainty_rank(certainty),
{
    match certainty {
        Certainty::Exact => 0,
        Certainty::Filtered => 1,
    }
}

pub(crate) fn max_certainty(left: Certainty, right: Certainty) -> (r: Certainty)
    ensures
        r == spec_max_certainty(left, right),
{
    if certainty_rank(left) >= certainty_rank(right) {
        left
    } else {
        right
    }
}

pub(crate) fn stage_rank(stage: Escalation) -> (r: u8)
    ensures
        r == spec_stage_rank(stage),
{
    match stage {
        Escalation::StructuralFacts => 0,
        Escalation::Filter => 1,
        Escalation::Exact => 2,
        Escalation::Refined => 3,
        Escalation::Undecided => 4,
    }
}

pub(crate) fn max_stage(left: Escalation, right: Escalation) -> (r: Escalation)
    ensures
        r == spec_max_stage(left, right),
{
    if stage_rank(left) >= stage_rank(right) {
        left
    } else {
        right
    }
}

/// The weakest certainty among four; exact when all are exact.
pub(crate) fn combine_certainties(values: [Certainty; 4]) -> (r: Certainty)
    ensures
        r == spec_max_certainty(
            spec_max_certainty(spec_max_certainty(values[0], values[1]), values[2]),
            values[3],
        ),
{
    let mut best = values[0];
    let mut i: usize = 1;
    while i < 4
        invariant
            1 <= i <= 4,
            i == 1 ==> best == values[0],
            i == 2 ==> best == spec_max_certainty(values[0], values[1]),
            i == 3 ==> best == spec_max_certainty(spec_max_certainty(values[0], values[1]), values[2]),
            i == 4 ==> best == spec_max_certainty(
                spec_max_certainty(spec_max_certainty(values[0], values[1]), values[2]),
                values[3],
            ),
        decreases 4 - i,
    {
        best = max_certainty(best, values[i]);
        i = i + 1;
    }
    best
}

/// The latest stage among four.
pub(crate) fn combine_stages(values: [Escalation; 4]) -> (r: Escalation)
    ensures
        r == spec_max_stage(
            spec_max_stage(spec_max_stage(values[0], values[1]), values[2]),
            values[3],
        ),
{
    let mut best = values[0];
    let mut i: usize = 1;
    while i < 4
        invariant
            1 <= i <= 4,
            i == 1 ==> best == values[0],
            i == 2 ==> best == spec_max_stage(values[0], values[1]),
            i == 3 ==> best == spec_max_stage(spec_max_stage(values[0], values[1]), values[2]),
            i == 4 ==> best == spec_max_stage(
                spec_max_stage(spec_max_stage(values[0], values[1]), values[2]),
                values[3],
            ),
        decreases 4 - i,
    {
        best = max_stage(best, values[i]);
        i = i + 1;
    }
    best
}

/// Running provenance of a predicate built from several sub-decisions.
#[derive(Clone, Copy)]
pub(crate) struct DecisionTrace {
    pub(crate) certainty: Certainty,
    pub(crate) stage: Escalation,
}

impl DecisionTrace {
    /// The provenance before any sub-decision: exact and structural.
    pub(crate) fn start() -> (t: DecisionTrace)
        ensures
            t.certainty == Certainty::Exact,
            t.stage == Escalation::StructuralFacts,
    {
        DecisionTrace { certainty: Certainty::Exact, stage: Escalation::StructuralFacts }
    }
}

/// A trace that records only exact structural decisions.
pub(crate) open spec fn trace_exact(trace: DecisionTrace) -> bool {
    trace.certainty == Certainty::Exact && trace.stage == Escalation::StructuralFacts
}

/// A sub-decision that stayed unknown.
#[derive(Clone, Copy)]
pub(crate) struct UnknownDecision {
    pub(crate) needed: RefinementNeed,
    pub(crate) stage: Escalation,
}

impl UnknownDecision {
    pub(crate) fn into_outcome<T: Copy>(self) -> (r: PredicateOutcome<T>)
        ensures
            r == (PredicateOutcome::<T>::Unknown { needed: self.needed, stage: self.stage }),
    {
        PredicateOutcome::unknown(self.needed, self.stage)
    }
}

/// Folds a sub-decision into the trace, or reports it as unknown.
pub(crate) fn decided<T: Copy>(outcome: PredicateOutcome<T>, trace: &mut DecisionTrace) -> (r: Result<
    T,
    UnknownDecision,
>)
    ensures
        match outcome {
            PredicateOutcome::Decided { value, certainty, stage } => {
                &&& r == Ok::<T, UnknownDecision>(value)
                &&& final(trace).certainty == spec_max_certainty(old(trace).certainty, certainty)
                &&& final(trace).stage == spec_max_stage(old(trace).stage, stage)
            },
            PredicateOutcome::Unknown { needed, stage } => {
                &&& r == Err::<T, UnknownDecision>(UnknownDecision { needed, stage })
                &&& *final(trace) == *old(trace)
            },
        },
{
    match outcome {
        PredicateOutcome::Decided { value, certainty, stage } => {
            trace.certainty = max_certainty(trace.certainty, certainty);
            trace.stage = max_stage(trace.stage, stage);
            Ok(value)
        },
        PredicateOutcome::Unknown { needed, stage } => Err(UnknownDecision { needed, stage }),
    }
}

} // verus!
