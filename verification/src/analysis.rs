//! Outcomes that the solver attaches to the nodes of a search tree.

use vstd::prelude::*;

verus! {

/// The solver's verdict on a goal or on one way of satisfying it.
#[derive(Clone, Copy, Debug, PartialEq, Eq, Structural)]
pub enum EvaluationResult {
    Yes,
    Maybe,
    No,
}

impl EvaluationResult {
    pub fn is_yes(&self) -> (b: bool)
        ensures
            b == (*self is Yes),
    {
        match self {
            EvaluationResult::Yes => true,
            _ => false,
        }
    }

    pub fn is_maybe(&self) -> (b: bool)
        ensures
            b == (*self is Maybe),
    {
        match self {
            EvaluationResult::Maybe => true,
            _ => false,
        }
    }

    pub fn is_no(&self) -> (b: bool)
        ensures
            b == (*self is No),
    {
        match self {
            EvaluationResult::No => true,
            _ => false,
        }
    }

    /// Whether a goal with this result has to be explained: a `No` always,
    /// a `Maybe` only when ambiguity counts as failure.
    pub open spec fn is_failure(self, maybe_ambiguous: bool) -> bool {
        self is No || (maybe_ambiguous && self is Maybe)
    }

    pub fn fails(&self, maybe_ambiguous: bool) -> (b: bool)
        ensures
            b == self.is_failure(maybe_ambiguous),
    {
        (maybe_ambiguous && self.is_maybe()) || self.is_no()
    }
}

} // verus!
