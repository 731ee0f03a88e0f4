use argus::aadebug::kind::Location::{External as E, Local as L};
use argus::aadebug::kind::{classify, GoalKind, Location};
use argus::aadebug::predicate::{PredicateKind, TraitPredicate};
use argus::aadebug::retain::{retain_error_sources, Origin};
use argus::analysis::EvaluationResult::{Maybe, No, Yes};

fn shape(
    positive: bool,
    is_fn_trait: bool,
    fn_trait_arity: Option<usize>,
    function_arity: Option<usize>,
    self_local: bool,
    trait_local: bool,
) -> PredicateKind {
    PredicateKind::Trait(TraitPredicate {
        positive,
        is_fn_trait,
        fn_trait_arity,
        function_arity,
        self_local,
        trait_local,
    })
}

#[test]
fn arity_one_against_three_adds_two_params() {
    let kind = classify(&shape(true, true, Some(3), Some(1), false, false));
    assert_eq!(kind, GoalKind::AddFnParams { delta: 2 });
    assert_eq!(kind.weight(), 10);
}

#[test]
fn callable_shapes_are_sorted_by_arity() {
    assert_eq!(
        classify(&shape(true, true, Some(1), Some(4), true, true)),
        GoalKind::DeleteFnParams { delta: 3 }
    );
    assert_eq!(
        classify(&shape(true, true, Some(2), Some(2), true, true)),
        GoalKind::IncorrectParams { arity: 2 }
    );
    assert_eq!(
        classify(&shape(true, true, None, Some(2), true, true)),
        GoalKind::AddFnParams { delta: usize::MAX - 2 }
    );
    assert_eq!(
        classify(&shape(true, true, Some(2), None, true, true)),
        GoalKind::TyAsCallable { arity: 2 }
    );
    assert_eq!(
        classify(&shape(true, true, None, None, true, true)),
        GoalKind::TyAsCallable { arity: usize::MAX }
    );
    assert_eq!(
        classify(&shape(true, false, None, Some(3), true, true)),
        GoalKind::FnToTrait { _trait: Location::Local, arity: 3 }
    );
    assert_eq!(
        classify(&shape(true, false, Some(9), Some(3), true, false)),
        GoalKind::FnToTrait { _trait: Location::External, arity: 3 }
    );
}

#[test]
fn plain_trait_shapes_are_sorted_by_locality() {
    assert_eq!(
        classify(&shape(true, false, None, None, true, true)),
        GoalKind::Trait { _self: L, _trait: L }
    );
    assert_eq!(
        classify(&shape(true, false, None, None, true, false)),
        GoalKind::Trait { _self: L, _trait: E }
    );
    assert_eq!(
        classify(&shape(true, false, None, None, false, true)),
        GoalKind::Trait { _self: E, _trait: L }
    );
    assert_eq!(
        classify(&shape(true, false, None, None, false, false)),
        GoalKind::Trait { _self: E, _trait: E }
    );
}

#[test]
fn other_shapes_are_miscellaneous() {
    assert_eq!(classify(&shape(false, true, Some(3), Some(1), true, true)), GoalKind::Misc);
    assert_eq!(classify(&shape(false, false, None, None, true, true)), GoalKind::Misc);
    assert_eq!(classify(&PredicateKind::Projection), GoalKind::TyChange);
    for p in [
        PredicateKind::OtherClause,
        PredicateKind::NormalizesTo,
        PredicateKind::AliasRelate,
        PredicateKind::DynCompatible,
        PredicateKind::Subtype,
        PredicateKind::Coerce,
        PredicateKind::ConstEquate,
        PredicateKind::Ambiguous,
    ] {
        assert_eq!(classify(&p), GoalKind::Misc);
    }
}

#[test]
fn every_kind_has_its_weight() {
    assert_eq!(GoalKind::Trait { _self: L, _trait: L }.weight(), 0);
    assert_eq!(GoalKind::Trait { _self: L, _trait: E }.weight(), 1);
    assert_eq!(GoalKind::Trait { _self: E, _trait: L }.weight(), 1);
    assert_eq!(GoalKind::Trait { _self: E, _trait: E }.weight(), 2);
    assert_eq!(GoalKind::FnToTrait { _trait: L, arity: 7 }.weight(), 1);
    assert_eq!(GoalKind::FnToTrait { _trait: E, arity: 2 }.weight(), 14);
    assert_eq!(GoalKind::TyChange.weight(), 4);
    assert_eq!(GoalKind::IncorrectParams { arity: 3 }.weight(), 15);
    assert_eq!(GoalKind::AddFnParams { delta: 1 }.weight(), 5);
    assert_eq!(GoalKind::DeleteFnParams { delta: 4 }.weight(), 20);
    assert_eq!(GoalKind::TyAsCallable { arity: 0 }.weight(), 4);
    assert_eq!(GoalKind::TyAsCallable { arity: 3 }.weight(), 19);
    assert_eq!(GoalKind::Misc.weight(), 50);
}

#[test]
fn weights_that_do_not_fit_are_told() {
    assert_eq!(GoalKind::AddFnParams { delta: 2 }.checked_weight(), Some(10));
    assert_eq!(GoalKind::Misc.checked_weight(), Some(50));
    assert_eq!(GoalKind::AddFnParams { delta: usize::MAX }.checked_weight(), None);
    assert_eq!(GoalKind::TyAsCallable { arity: usize::MAX / 5 }.checked_weight(), None);
    assert_eq!(
        GoalKind::TyAsCallable { arity: usize::MAX / 5 - 1 }.checked_weight(),
        Some(4 + 5 * (usize::MAX / 5 - 1))
    );
}

#[test]
fn results_tell_what_they_are() {
    assert!(Yes.is_yes() && !Yes.is_maybe() && !Yes.is_no());
    assert!(Maybe.is_maybe() && !Maybe.is_yes() && !Maybe.is_no());
    assert!(No.is_no() && !No.is_yes() && !No.is_maybe());
    assert!(No.fails(false) && No.fails(true));
    assert!(!Maybe.fails(false) && Maybe.fails(true));
    assert!(!Yes.fails(false) && !Yes.fails(true));
}

fn cap(goals: &[(bool, u64)]) -> usize {
    let goals: Vec<Origin> =
        goals.iter().map(|(failed, source)| Origin { failed: *failed, source: *source }).collect();
    retain_error_sources(&goals)
}

#[test]
fn the_filter_keeps_up_to_the_last_new_source() {
    assert_eq!(cap(&[]), 0);
    assert_eq!(cap(&[(false, 1), (false, 2)]), 0);
    assert_eq!(cap(&[(true, 1)]), 1);
    assert_eq!(cap(&[(false, 1), (false, 1), (true, 1)]), 3);
    assert_eq!(cap(&[(true, 1), (true, 1), (true, 1)]), 1);
    assert_eq!(cap(&[(true, 1), (false, 2), (true, 1), (false, 3)]), 1);
    assert_eq!(cap(&[(true, 1), (true, 2), (true, 1), (true, 2), (false, 3)]), 2);
    assert_eq!(cap(&[(true, 1), (true, 1), (true, 2), (true, 1)]), 3);
    // A success of the same label stands for nothing.
    assert_eq!(cap(&[(false, 1), (true, 1)]), 2);
}
