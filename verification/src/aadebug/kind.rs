//! Categories of failed goals and what each costs to repair.

use vstd::prelude::*;
use crate::aadebug::predicate::{PredicateKind, TraitPredicate};

verus! {

/// Where a type or trait is defined: in the analysed crate, or outside it.
#[derive(Clone, Copy, Debug, PartialEq, Eq, Structural)]
pub enum Location {
    Local,
    External,
}

impl Location {
    pub open spec fn of(local: bool) -> Location {
        if local {
            Location::Local
        } else {
            Location::External
        }
    }
}

/// The category of a failed goal.
#[derive(Clone, Copy, Debug, PartialEq, Eq, Structural)]
pub enum GoalKind {
    Trait { _self: Location, _trait: Location },
    TyChange,
    FnToTrait { _trait: Location, arity: usize },
    TyAsCallable { arity: usize },
    DeleteFnParams { delta: usize },
    AddFnParams { delta: usize },
    /// A function with the right number of parameters, whose parameters do
    /// not satisfy their bounds.
    IncorrectParams { arity: usize },
    Misc,
}

impl GoalKind {
    /// The cost of repairing a goal of this kind; lower is less intrusive.
    pub open spec fn weight_spec(self) -> nat {
        match self {
            GoalKind::Trait { _self: Location::Local, _trait: Location::Local } => 0,
            GoalKind::Trait { _self: Location::Local, _trait: Location::External } => 1,
            GoalKind::Trait { _self: Location::External, _trait: Location::Local } => 1,
            GoalKind::Trait { _self: Location::External, _trait: Location::External } => 2,
            GoalKind::FnToTrait { _trait: Location::Local, .. } => 1,
            GoalKind::FnToTrait { _trait: Location::External, arity } => (4 + 5 * arity) as nat,
            GoalKind::TyChange => 4,
            GoalKind::IncorrectParams { arity } => (5 * arity) as nat,
            GoalKind::AddFnParams { delta } => (5 * delta) as nat,
            GoalKind::DeleteFnParams { delta } => (5 * delta) as nat,
            GoalKind::TyAsCallable { arity } => (4 + 5 * arity) as nat,
            GoalKind::Misc => 50,
        }
    }

    /// The cost, where it fits a machine word.
    pub fn checked_weight(&self) -> (w: Option<usize>)
        ensures
            w is Some == (self.weight_spec() <= usize::MAX),
            w matches Some(cost) ==> cost == self.weight_spec(),
    {
        match self {
            GoalKind::IncorrectParams { arity: delta }
            | GoalKind::AddFnParams { delta }
            | GoalKind::DeleteFnParams { delta } => delta.checked_mul(5),
            GoalKind::FnToTrait { _trait: Location::External, arity }
            | GoalKind::TyAsCallable { arity } => match arity.checked_mul(5) {
                Some(scaled) => scaled.checked_add(4),
                None => None,
            },
            _ => Some(self.weight()),
        }
    }

    pub fn weight(&self) -> (w: usize)
        requires
            self.weight_spec() <= usize::MAX,
        ensures
            w == self.weight_spec(),
    {
        match self {
            GoalKind::Trait { _self: Location::Local, _trait: Location::Local } => 0,
            GoalKind::Trait { _self: Location::Local, _trait: Location::External }
            | GoalKind::Trait { _self: Location::External, _trait: Location::Local }
            | GoalKind::FnToTrait { _trait: Location::Local, .. } => 1,
            GoalKind::Trait { _self: Location::External, _trait: Location::External } => 2,
            GoalKind::TyChange => 4,
            GoalKind::IncorrectParams { arity: delta }
            | GoalKind::AddFnParams { delta }
            | GoalKind::DeleteFnParams { delta } => 5 * *delta,
            GoalKind::FnToTrait { _trait: Location::External, arity }
            | GoalKind::TyAsCallable { arity } => 4 + 5 * *arity,
            GoalKind::Misc => 50,
        }
    }
}

/// The summed cost of repairing goals of the given kinds.
pub open spec fn momentum_of(kinds: Seq<GoalKind>) -> nat
    decreases kinds.len(),
{
    if kinds.len() == 0 {
        0
    } else {
        momentum_of(kinds.drop_last()) + kinds.last().weight_spec()
    }
}

/// The cost of part of the goals is at most the cost of all.
pub proof fn lemma_momentum_prefix(kinds: Seq<GoalKind>, k: int)
    requires
        0 <= k <= kinds.len(),
    ensures
        momentum_of(kinds.take(k)) <= momentum_of(kinds),
    decreases kinds.len(),
{
    if k == kinds.len() {
        assert(kinds.take(k) =~= kinds);
    } else {
        lemma_momentum_prefix(kinds.drop_last(), k);
        assert(kinds.drop_last().take(k) =~= kinds.take(k));
    }
}

/// The arity that a callable trait asks for; one that the solver could not
/// tell counts as larger than any function's.
pub open spec fn required_arity(t: TraitPredicate) -> usize {
    match t.fn_trait_arity {
        Some(n) => n,
        None => usize::MAX,
    }
}

/// The category of a failed goal, by the shape of its predicate.
pub open spec fn classify_spec(p: PredicateKind) -> GoalKind {
    match p {
        PredicateKind::Trait(t) => {
            if !t.positive {
                GoalKind::Misc
            } else if t.is_fn_trait {
                match t.function_arity {
                    Some(arity) => {
                        if arity < required_arity(t) {
                            GoalKind::AddFnParams { delta: (required_arity(t) - arity) as usize }
                        } else if arity > required_arity(t) {
                            GoalKind::DeleteFnParams { delta: (arity - required_arity(t)) as usize }
                        } else {
                            GoalKind::IncorrectParams { arity }
                        }
                    },
                    None => GoalKind::TyAsCallable { arity: required_arity(t) },
                }
            } else {
                match t.function_arity {
                    Some(arity) => GoalKind::FnToTrait {
                        _trait: Location::of(t.trait_local),
                        arity,
                    },
                    None => GoalKind::Trait {
                        _self: Location::of(t.self_local),
                        _trait: Location::of(t.trait_local),
                    },
                }
            }
        },
        PredicateKind::Projection => GoalKind::TyChange,
        _ => GoalKind::Misc,
    }
}

/// Sorts the predicate of a failed goal into its category.
pub fn classify(p: &PredicateKind) -> (kind: GoalKind)
    ensures
        kind == classify_spec(*p),
{
    match p {
        PredicateKind::Trait(t) if t.positive && t.is_fn_trait && t.function_arity.is_some() => {
            let fn_arity: usize = t.function_arity.unwrap();
            let trait_arity: usize = t.fn_trait_arity.unwrap_or(usize::MAX);
            if fn_arity < trait_arity {
                GoalKind::AddFnParams { delta: trait_arity - fn_arity }
            } else if fn_arity > trait_arity {
                GoalKind::DeleteFnParams { delta: fn_arity - trait_arity }
            } else {
                GoalKind::IncorrectParams { arity: fn_arity }
            }
        },
        // The self type cannot be called, but the trait is a callable one.
        PredicateKind::Trait(t) if t.positive && t.is_fn_trait => {
            let trait_arity: usize = t.fn_trait_arity.unwrap_or(usize::MAX);
            GoalKind::TyAsCallable { arity: trait_arity }
        },
        // The self type is a function, but the trait is not a callable one.
        PredicateKind::Trait(t) if t.positive && t.function_arity.is_some() => {
            let fn_arity: usize = t.function_arity.unwrap();
            let location = if t.trait_local {
                Location::Local
            } else {
                Location::External
            };
            GoalKind::FnToTrait { _trait: location, arity: fn_arity }
        },
        PredicateKind::Trait(t) if t.positive => {
            match (t.self_local, t.trait_local) {
                (true, true) => GoalKind::Trait {
                    _self: Location::Local,
                    _trait: Location::Local,
                },
                (true, false) => GoalKind::Trait {
                    _self: Location::Local,
                    _trait: Location::External,
                },
                (false, true) => GoalKind::Trait {
                    _self: Location::External,
                    _trait: Location::Local,
                },
                (false, false) => GoalKind::Trait {
                    _self: Location::External,
                    _trait: Location::External,
                },
            }
        },
        PredicateKind::Trait(_) => GoalKind::Misc,
        PredicateKind::Projection => GoalKind::TyChange,
        PredicateKind::OtherClause
        | PredicateKind::NormalizesTo
        | PredicateKind::AliasRelate
        | PredicateKind::DynCompatible
        | PredicateKind::Subtype
        | PredicateKind::Coerce
        | PredicateKind::ConstEquate
        | PredicateKind::Ambiguous => GoalKind::Misc,
    }
}

} // verus!
