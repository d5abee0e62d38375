//! The evaluation bridge: turns what the oracle answered for each candidate
//! into an objective value, substituting the worst objective for every fault.
//!
//! The oracle is an outside service. The caller asks it to score each
//! candidate that `admits` accepts and hands its answers back as `Outcome`s;
//! everything decided about those answers is decided here.

use vstd::prelude::*;

use crate::catalog::EngineeringOptimizationProblem;
use crate::ieee::{is_finite, is_finite_bits, POSITIVE_INFINITY};
use crate::registry::ProblemKind;

verus! {

/// The objective given to a candidate that could not be scored: positive
/// infinity, the worst value under minimisation.
pub const WORST_OBJECTIVE: u64 = POSITIVE_INFINITY;

/// What the oracle answered when asked to score one candidate.
#[derive(Clone, Copy, Debug, PartialEq, Eq, Structural)]
pub enum Outcome {
    /// The call raised an error.
    Fault,
    /// The call returned something that is not a real number.
    NonNumeric,
    /// The call returned this binary64 value (bit pattern).
    Number(u64),
}

/// Why a candidate received the worst objective.
#[derive(Clone, Copy, Debug, PartialEq, Eq, Structural)]
pub enum EvaluationFault {
    /// Its length differs from the problem's dimension; the oracle is not asked.
    WrongLength,
    /// The oracle raised an error.
    OracleFault,
    /// The oracle's answer was not a number.
    NonNumeric,
    /// The oracle's answer was infinite or NaN.
    NonFinite,
}

/// The score of a candidate of length `len` on a problem of dimension `dim`,
/// given the oracle's answer, or why there is none.
pub open spec fn verdict(dim: nat, len: nat, outcome: Outcome) -> Result<u64, EvaluationFault> {
    if len != dim {
        Err(EvaluationFault::WrongLength)
    } else {
        match outcome {
            Outcome::Fault => Err(EvaluationFault::OracleFault),
            Outcome::NonNumeric => Err(EvaluationFault::NonNumeric),
            Outcome::Number(b) => if is_finite(b) {
                Ok(b)
            } else {
                Err(EvaluationFault::NonFinite)
            },
        }
    }
}

/// The objective value: the score, or the worst objective on any fault.
pub open spec fn objective_of(dim: nat, len: nat, outcome: Outcome) -> u64 {
    match verdict(dim, len, outcome) {
        Ok(b) => b,
        Err(_) => WORST_OBJECTIVE,
    }
}

/// The candidates as sequences of bit patterns.
pub open spec fn candidates_of(candidates: Vec<Vec<u64>>) -> Seq<Seq<u64>> {
    candidates@.map_values(|c: Vec<u64>| c@)
}

/// One objective per candidate, in the candidates' order.
pub open spec fn batch_objectives(dim: nat, candidates: Seq<Seq<u64>>, outcomes: Seq<Outcome>) -> Seq<u64> {
    Seq::new(candidates.len(), |i: int| objective_of(dim, candidates[i].len(), outcomes[i]))
}

/// Scores candidates for one problem. Holds no state between batches.
#[derive(Clone, Copy, Debug)]
pub struct EngineeringOptimizationEvaluator {
    kind: ProblemKind,
    dim: usize,
}

impl EngineeringOptimizationEvaluator {
    /// The problem being scored.
    pub closed spec fn spec_kind(&self) -> ProblemKind {
        self.kind
    }

    /// The length every candidate must have.
    pub closed spec fn spec_dimension(&self) -> nat {
        self.dim as nat
    }

    /// An evaluator for `problem`.
    pub fn new(problem: &EngineeringOptimizationProblem) -> (r: Self)
        ensures
            r.spec_kind() == problem.spec_kind(),
            r.spec_dimension() == problem.spec_dimension(),
    {
        EngineeringOptimizationEvaluator { kind: problem.kind(), dim: problem.dimension() }
    }

    /// The problem being scored.
    pub fn kind(&self) -> (r: ProblemKind)
        ensures
            r == self.spec_kind(),
    {
        self.kind
    }

    /// Whether the oracle is to be asked about `candidate`: only candidates
    /// of the problem's dimension reach it, none is truncated or padded.
    pub fn admits(&self, candidate: &Vec<u64>) -> (r: bool)
        ensures
            r == (candidate@.len() == self.spec_dimension()),
    {
        candidate.len() == self.dim
    }

    /// The score of `candidate` given the oracle's answer, or the fault that
    /// stands in its place.
    pub fn judge(&self, candidate: &Vec<u64>, outcome: Outcome) -> (r: Result<u64, EvaluationFault>)
        ensures
            r == verdict(self.spec_dimension(), candidate@.len(), outcome),
    {
        if !self.admits(candidate) {
            return Err(EvaluationFault::WrongLength);
        }
        match outcome {
            Outcome::Fault => Err(EvaluationFault::OracleFault),
            Outcome::NonNumeric => Err(EvaluationFault::NonNumeric),
            Outcome::Number(b) => if is_finite_bits(b) {
                Ok(b)
            } else {
                Err(EvaluationFault::NonFinite)
            },
        }
    }

    /// The objective of `candidate` given the oracle's answer.
    pub fn objective(&self, candidate: &Vec<u64>, outcome: Outcome) -> (r: u64)
        ensures
            r == objective_of(self.spec_dimension(), candidate@.len(), outcome),
    {
        match self.judge(candidate, outcome) {
            Ok(b) => b,
            Err(_) => WORST_OBJECTIVE,
        }
    }

    /// One objective per candidate, in order; `outcomes[i]` is the oracle's
    /// answer for `candidates[i]` (ignored where `admits` refused it).
    pub fn evaluate(&self, candidates: &Vec<Vec<u64>>, outcomes: &Vec<Outcome>) -> (r: Vec<u64>)
        requires
            outcomes@.len() == candidates@.len(),
        ensures
            r@ == batch_objectives(self.spec_dimension(), candidates_of(*candidates), outcomes@),
    {
        let ghost cands = candidates_of(*candidates);
        let mut r: Vec<u64> = Vec::new();
        let mut i: usize = 0;
        while i < candidates.len()
            invariant
                0 <= i <= candidates@.len(),
                outcomes@.len() == candidates@.len(),
                cands == candidates_of(*candidates),
                r@ == batch_objectives(self.spec_dimension(), cands, outcomes@).subrange(0, i as int),
            decreases candidates@.len() - i,
        {
            let v = self.objective(&candidates[i], outcomes[i]);
            proof {
                assert(cands[i as int] == candidates@[i as int]@);
            }
            r.push(v);
            i += 1;
            proof {
                assert(r@ =~= batch_objectives(self.spec_dimension(), cands, outcomes@).subrange(0, i as int));
            }
        }
        proof {
            assert(r@ =~= batch_objectives(self.spec_dimension(), cands, outcomes@));
        }
        r
    }
}

/// Scoring the same candidates twice gives the same objectives, whenever the
/// oracle answers each admitted candidate the same way both times.
pub proof fn lemma_evaluation_repeatable(
    dim: nat,
    candidates: Seq<Seq<u64>>,
    first: Seq<Outcome>,
    second: Seq<Outcome>,
    oracle: spec_fn(Seq<u64>) -> Outcome,
)
    requires
        first.len() == candidates.len(),
        second.len() == candidates.len(),
        forall|i: int|
            0 <= i < candidates.len() && (#[trigger] candidates[i]).len() == dim ==> first[i] == oracle(
                candidates[i],
            ) && second[i] == oracle(candidates[i]),
    ensures
        batch_objectives(dim, candidates, first) == batch_objectives(dim, candidates, second),
{
    assert(batch_objectives(dim, candidates, first) =~= batch_objectives(dim, candidates, second));
}

/// Scoring two lists one after the other gives the objectives of scoring
/// their concatenation: each objective stays with its candidate, in order.
pub proof fn lemma_evaluation_keeps_order(
    dim: nat,
    front: Seq<Seq<u64>>,
    front_outcomes: Seq<Outcome>,
    back: Seq<Seq<u64>>,
    back_outcomes: Seq<Outcome>,
)
    requires
        front_outcomes.len() == front.len(),
        back_outcomes.len() == back.len(),
    ensures
        batch_objectives(dim, front + back, front_outcomes + back_outcomes) == batch_objectives(
            dim,
            front,
            front_outcomes,
        ) + batch_objectives(dim, back, back_outcomes),
{
    assert(batch_objectives(dim, front + back, front_outcomes + back_outcomes) =~= batch_objectives(
        dim,
        front,
        front_outcomes,
    ) + batch_objectives(dim, back, back_outcomes));
}

/// A fault on one candidate gives that candidate the worst objective, keeps
/// one objective per candidate, and changes no other candidate's objective.
pub proof fn lemma_fault_contained(
    dim: nat,
    candidates: Seq<Seq<u64>>,
    outcomes: Seq<Outcome>,
    k: int,
)
    requires
        outcomes.len() == candidates.len(),
        0 <= k < candidates.len(),
    ensures
        batch_objectives(dim, candidates, outcomes.update(k, Outcome::Fault)).len() == candidates.len(),
        batch_objectives(dim, candidates, outcomes.update(k, Outcome::Fault))[k] == WORST_OBJECTIVE,
        forall|j: int|
            0 <= j < candidates.len() && j != k ==> #[trigger] batch_objectives(
                dim,
                candidates,
                outcomes.update(k, Outcome::Fault),
            )[j] == batch_objectives(dim, candidates, outcomes)[j],
{
}

/// A candidate of the wrong length gets the worst objective, whatever the
/// oracle would have answered: it is never scored.
pub proof fn lemma_wrong_length_is_worst(dim: nat, len: nat, outcome: Outcome)
    requires
        len != dim,
    ensures
        verdict(dim, len, outcome) == Err::<u64, EvaluationFault>(EvaluationFault::WrongLength),
        objective_of(dim, len, outcome) == WORST_OBJECTIVE,
{
}

} // verus!
