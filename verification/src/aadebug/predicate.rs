//! The shape of an obligation, as far as ranking looks at it.

use vstd::prelude::*;

verus! {

/// What a trait obligation `Self: Trait` looks like from outside the solver.
#[derive(Clone, Copy, Debug, PartialEq, Eq, Structural)]
pub struct TraitPredicate {
    /// `Self: Trait` rather than `Self: !Trait`.
    pub positive: bool,
    /// The trait belongs to the family of callable traits.
    pub is_fn_trait: bool,
    /// The number of parameters that a callable trait asks for, where known.
    pub fn_trait_arity: Option<usize>,
    /// The number of parameters of the self type, where it can be called.
    pub function_arity: Option<usize>,
    /// The self type is defined in the crate under analysis.
    pub self_local: bool,
    /// The trait is defined in the crate under analysis.
    pub trait_local: bool,
}

/// The kinds of predicate that a goal can ask the solver to prove.
#[derive(Clone, Copy, Debug, PartialEq, Eq, Structural)]
pub enum PredicateKind {
    Trait(TraitPredicate),
    Projection,
    OtherClause,
    NormalizesTo,
    AliasRelate,
    DynCompatible,
    Subtype,
    Coerce,
    ConstEquate,
    Ambiguous,
}

} // verus!
