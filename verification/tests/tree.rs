use argus::aadebug::dnf::{And, Dnf};
use argus::aadebug::kind::{GoalKind, Location};
use argus::aadebug::predicate::{PredicateKind, TraitPredicate};
use argus::aadebug::tree::{CandidateKind, CandidateSource, NodeTable, N, T};
use argus::analysis::EvaluationResult;
use argus::analysis::EvaluationResult::{Maybe, No, Yes};
use argus::proof_tree::topology::TreeTopology;
use argus::proof_tree::ProofNodeIdx;

fn trait_predicate(self_local: bool, trait_local: bool) -> PredicateKind {
    PredicateKind::Trait(TraitPredicate {
        positive: true,
        is_fn_trait: false,
        fn_trait_arity: None,
        function_arity: None,
        self_local,
        trait_local,
    })
}

fn callable(function_arity: Option<usize>, fn_trait_arity: Option<usize>) -> PredicateKind {
    PredicateKind::Trait(TraitPredicate {
        positive: true,
        is_fn_trait: true,
        fn_trait_arity,
        function_arity,
        self_local: false,
        trait_local: false,
    })
}

fn goal(result: EvaluationResult, source: u64) -> N {
    N::R { source, goal: trait_predicate(true, false), result }
}

fn goal_of(goal: PredicateKind, source: u64) -> N {
    N::R { source, goal, result: No }
}

fn candidate(result: EvaluationResult, retain: bool) -> N {
    N::C { kind: CandidateKind::TraitCandidate { source: CandidateSource::Impl }, result, retain }
}

fn builtin(result: EvaluationResult) -> N {
    N::C {
        kind: CandidateKind::TraitCandidate { source: CandidateSource::BuiltinImpl },
        result,
        retain: true,
    }
}

fn sets(dnf: &Dnf) -> Vec<Vec<usize>> {
    dnf.iter_conjuncts().iter().map(|and| and.iter().iter().map(|i| i.0).collect()).collect()
}

fn edges(pairs: &[(usize, usize)]) -> TreeTopology {
    let mut topology = TreeTopology::new();
    for (from, to) in pairs {
        let (from, to) = (ProofNodeIdx(*from), ProofNodeIdx(*to));
        assert!(from != to);
        assert!(topology.parent(to).is_none());
        assert!(topology.children(to).is_empty());
        topology.add(from, to);
    }
    topology
}

fn reduce(nodes: Vec<N>, pairs: &[(usize, usize)], maybe_ambiguous: bool) -> Vec<Vec<usize>> {
    let ns = NodeTable::new(nodes);
    let topology = edges(pairs);
    assert!(T::check(ProofNodeIdx(0), &ns, &topology));
    let mut tree = T::new(ProofNodeIdx(0), &ns, &topology, maybe_ambiguous, false);
    sets(tree.dnf())
}

#[test]
fn one_candidate_one_failing_leaf() {
    let ns = NodeTable::new(vec![goal(No, 0), candidate(No, true), goal(No, 1)]);
    let topology = edges(&[(0, 1), (1, 2)]);
    assert!(T::check(ProofNodeIdx(0), &ns, &topology));
    let mut tree = T::new(ProofNodeIdx(0), &ns, &topology, false, false);
    assert_eq!(sets(tree.dnf()), vec![vec![2]]);
    let and = tree.dnf().iter_conjuncts()[0].clone();
    assert!(tree.can_weigh(&and));
    let h = tree.weight(&and);
    assert_eq!(h.momentum, 1);
    assert_eq!(h.velocity, 2);
    assert_eq!(h.goals.len(), 1);
    assert_eq!(h.goals[0].idx, ProofNodeIdx(2));
    assert_eq!(
        h.goals[0].kind,
        GoalKind::Trait { _self: Location::Local, _trait: Location::External }
    );
}

#[test]
fn two_candidates_give_two_alternatives() {
    let nodes = vec![
        goal(No, 0),
        candidate(No, true),
        goal(No, 1),
        candidate(No, true),
        goal(No, 2),
    ];
    assert_eq!(reduce(nodes, &[(0, 1), (1, 2), (0, 3), (3, 4)], false), vec![vec![2], vec![4]]);
}

#[test]
fn two_subgoals_give_one_joint_set() {
    let nodes = vec![goal(No, 0), candidate(No, true), goal(No, 1), goal(No, 2)];
    assert_eq!(reduce(nodes, &[(0, 1), (1, 2), (1, 3)], false), vec![vec![2, 3]]);
}

#[test]
fn a_candidate_without_failing_subgoal_leaves_the_goal_a_leaf() {
    let nodes = vec![goal(No, 0), candidate(No, true), goal(Yes, 1)];
    assert_eq!(reduce(nodes, &[(0, 1), (1, 2)], false), vec![vec![0]]);
}

#[test]
fn an_ambiguous_root_is_ignored_unless_ambiguity_counts() {
    let nodes = vec![goal(Maybe, 0), candidate(Maybe, true), goal(Maybe, 1)];
    let pairs = [(0, 1), (1, 2)];
    assert_eq!(reduce(nodes.clone(), &pairs, false), Vec::<Vec<usize>>::new());
    assert_eq!(reduce(nodes, &pairs, true), vec![vec![2]]);
}

#[test]
fn a_root_that_holds_has_no_correction_set() {
    assert_eq!(reduce(vec![goal(Yes, 0)], &[], true), Vec::<Vec<usize>>::new());
    assert_eq!(reduce(vec![goal(No, 0)], &[], false), vec![vec![0]]);
}

#[test]
fn candidates_that_succeeded_or_are_not_retained_are_skipped() {
    let nodes = vec![
        goal(No, 0),
        candidate(Yes, true),
        goal(No, 1),
        candidate(No, false),
        goal(No, 2),
        candidate(No, true),
        goal(No, 3),
    ];
    let pairs = [(0, 1), (1, 2), (0, 3), (3, 4), (0, 5), (5, 6)];
    assert_eq!(reduce(nodes, &pairs, false), vec![vec![6]]);
}

#[test]
fn nested_alternatives_are_distributed_over_their_siblings() {
    // 0 -> c1 -> { 2 -> (c3 -> 4 | c5 -> 6), 7 -> (c8 -> 9 | c10 -> 11) }
    let nodes = vec![
        goal(No, 0),
        candidate(No, true),
        goal(No, 1),
        candidate(No, true),
        goal(No, 2),
        candidate(No, true),
        goal(No, 3),
        goal(No, 4),
        candidate(No, true),
        goal(No, 5),
        candidate(No, true),
        goal(No, 6),
    ];
    let pairs = [
        (0, 1),
        (1, 2),
        (2, 3),
        (3, 4),
        (2, 5),
        (5, 6),
        (1, 7),
        (7, 8),
        (8, 9),
        (7, 10),
        (10, 11),
    ];
    assert_eq!(
        reduce(nodes, &pairs, false),
        vec![vec![4, 9], vec![4, 11], vec![6, 9], vec![6, 11]]
    );
}

#[test]
fn failures_of_one_source_are_explained_once() {
    // Three failing subgoals, the first and the last of one source.
    let nodes = vec![goal(No, 0), candidate(No, true), goal(No, 7), goal(No, 8), goal(No, 7)];
    let pairs = [(0, 1), (1, 2), (1, 3), (1, 4)];
    assert_eq!(reduce(nodes, &pairs, false), vec![vec![2, 3]]);
    // All of one source: the first stands for the rest.
    let nodes = vec![goal(No, 0), candidate(No, true), goal(No, 7), goal(No, 7), goal(No, 7)];
    assert_eq!(reduce(nodes, &pairs, false), vec![vec![2]]);
}

#[test]
fn retention_keeps_a_leading_part_with_the_only_failure() {
    let ns = NodeTable::new(vec![
        goal(No, 0),
        candidate(No, true),
        goal(Yes, 1),
        goal(Maybe, 2),
        goal(No, 3),
        goal(Yes, 4),
    ]);
    let topology = edges(&[(0, 1), (1, 2), (1, 3), (1, 4), (1, 5)]);
    assert!(T::check(ProofNodeIdx(0), &ns, &topology));
    let tree = T::new(ProofNodeIdx(0), &ns, &topology, false, false);
    let c = tree.candidate(ProofNodeIdx(1)).unwrap();
    let all: Vec<usize> = c.all_subgoals().iter().map(|g| g.idx().0).collect();
    assert_eq!(all, vec![2, 3, 4, 5]);
    let kept: Vec<usize> = c.source_subgoals().iter().map(|g| g.idx().0).collect();
    assert_eq!(kept, vec![2, 3, 4]);
    // Once ambiguity counts, the ambiguous subgoal is a failure of its own source.
    let tree = T::new(ProofNodeIdx(0), &ns, &topology, true, false);
    let c = tree.candidate(ProofNodeIdx(1)).unwrap();
    let kept: Vec<usize> = c.source_subgoals().iter().map(|g| g.idx().0).collect();
    assert_eq!(kept, vec![2, 3, 4]);
}

#[test]
fn retention_keeps_nothing_where_nothing_failed() {
    let ns = NodeTable::new(vec![goal(No, 0), candidate(No, true), goal(Yes, 1), goal(Maybe, 2)]);
    let topology = edges(&[(0, 1), (1, 2), (1, 3)]);
    let tree = T::new(ProofNodeIdx(0), &ns, &topology, false, false);
    let c = tree.candidate(ProofNodeIdx(1)).unwrap();
    assert!(c.source_subgoals().is_empty());
}

#[test]
fn the_reduction_is_computed_once_and_stays() {
    let ns = NodeTable::new(vec![
        goal(No, 0),
        candidate(No, true),
        goal(No, 1),
        candidate(No, true),
        goal(No, 2),
    ]);
    let topology = edges(&[(0, 1), (1, 2), (0, 3), (3, 4)]);
    let mut tree = T::new(ProofNodeIdx(0), &ns, &topology, false, true);
    assert!(tree.report_performance());
    assert!(!tree.is_computed());
    let first = sets(tree.dnf());
    assert!(tree.is_computed());
    let second = sets(tree.dnf());
    assert_eq!(first, second);
    assert_eq!(sets(tree.expect_dnf()), first);
    let mut seen = Vec::new();
    tree.for_correction_set(|and: &And| seen.push(and.get(0).0));
    assert_eq!(seen, vec![2, 4]);
}

#[test]
fn views_tell_goals_from_candidates() {
    let ns = NodeTable::new(vec![goal(No, 3), candidate(Maybe, false)]);
    let topology = edges(&[(0, 1)]);
    let tree = T::new(ProofNodeIdx(0), &ns, &topology, false, false);
    assert_eq!(ns.len(), 2);
    assert_eq!(tree.root(), ProofNodeIdx(0));
    assert!(!tree.maybe_ambiguous());
    assert!(tree.candidate(ProofNodeIdx(0)).is_none());
    assert!(tree.goal(ProofNodeIdx(1)).is_none());
    let g = tree.goal(ProofNodeIdx(0)).unwrap();
    assert_eq!(g.idx(), ProofNodeIdx(0));
    assert_eq!(ProofNodeIdx::from(&g), ProofNodeIdx(0));
    assert_eq!(ProofNodeIdx::from(g), ProofNodeIdx(0));
    assert_eq!(g.result(), No);
    assert_eq!(g.source(), 3);
    assert_eq!(*g.predicate(), trait_predicate(true, false));
    let c = tree.candidate(ProofNodeIdx(1)).unwrap();
    assert_eq!(c.idx(), ProofNodeIdx(1));
    assert_eq!(c.result(), Maybe);
    assert!(!c.retain());
    assert!(!c.kind().builtin());
    assert_eq!(g.all_candidates().len(), 1);
    assert!(g.interesting_candidates().is_empty());
}

#[test]
fn parts_that_make_no_tree_are_told() {
    let ns = NodeTable::new(vec![goal(No, 0), candidate(No, true), goal(No, 1)]);
    // The root has to be a goal.
    assert!(!T::check(ProofNodeIdx(1), &ns, &edges(&[(0, 1), (1, 2)])));
    // The root has to be in the table.
    assert!(!T::check(ProofNodeIdx(3), &ns, &edges(&[(0, 1), (1, 2)])));
    // A goal directly below a goal.
    assert!(!T::check(ProofNodeIdx(0), &ns, &edges(&[(0, 2)])));
    // An edge that leaves the table.
    assert!(!T::check(ProofNodeIdx(0), &ns, &edges(&[(0, 1), (1, 3)])));
    assert!(T::check(ProofNodeIdx(0), &ns, &edges(&[(0, 1), (1, 2)])));
    assert!(T::check(ProofNodeIdx(0), &ns, &TreeTopology::new()));
}

#[test]
fn the_last_ancestor_stops_below_a_builtin_impl() {
    // 0 -> builtin 1 -> 2 -> impl 3 -> 4 -> impl 5 -> 6
    let ns = NodeTable::new(vec![
        goal(No, 0),
        builtin(No),
        goal(No, 1),
        candidate(No, true),
        goal(No, 2),
        candidate(No, true),
        goal(No, 3),
    ]);
    let topology = edges(&[(0, 1), (1, 2), (2, 3), (3, 4), (4, 5), (5, 6)]);
    assert!(T::check(ProofNodeIdx(0), &ns, &topology));
    let tree = T::new(ProofNodeIdx(0), &ns, &topology, false, false);
    let up = |i: usize| tree.goal(ProofNodeIdx(i)).unwrap().last_ancestor_pre_builtin().idx().0;
    assert_eq!(up(6), 2);
    assert_eq!(up(4), 2);
    assert_eq!(up(2), 2);
    assert_eq!(up(0), 0);
}

#[test]
fn weight_sums_the_costs_and_takes_the_deepest_goal() {
    let ns = NodeTable::new(vec![
        goal(No, 0),
        candidate(No, true),
        goal_of(callable(Some(1), Some(3)), 1),
        goal_of(PredicateKind::Projection, 2),
        goal_of(trait_predicate(false, false), 3),
        candidate(No, true),
        goal_of(PredicateKind::Subtype, 4),
    ]);
    let topology = edges(&[(0, 1), (1, 2), (1, 3), (1, 4), (4, 5), (5, 6)]);
    assert!(T::check(ProofNodeIdx(0), &ns, &topology));
    let mut tree = T::new(ProofNodeIdx(0), &ns, &topology, false, false);
    assert_eq!(sets(tree.dnf()), vec![vec![2, 3, 6]]);
    let and = tree.dnf().iter_conjuncts()[0].clone();
    assert!(tree.can_weigh(&and));
    let h = tree.weight(&and);
    assert_eq!(h.momentum, 10 + 4 + 50);
    assert_eq!(h.velocity, 4);
    let kinds: Vec<GoalKind> = h.goals.iter().map(|g| g.kind).collect();
    assert_eq!(
        kinds,
        vec![GoalKind::AddFnParams { delta: 2 }, GoalKind::TyChange, GoalKind::Misc]
    );
    let empty = And::single(ProofNodeIdx(2)).distribute(&And::single(ProofNodeIdx(2)));
    assert_eq!(empty.len(), 1);
}

#[test]
fn a_larger_mismatch_weighs_more() {
    let ns = NodeTable::new(vec![
        goal(No, 0),
        candidate(No, true),
        goal_of(PredicateKind::Projection, 1),
        goal_of(callable(Some(1), Some(2)), 2),
        goal_of(callable(Some(1), Some(4)), 3),
    ]);
    let topology = edges(&[(0, 1), (1, 2), (1, 3), (1, 4)]);
    let tree = T::new(ProofNodeIdx(0), &ns, &topology, false, false);
    let small = And::single(ProofNodeIdx(2)).distribute(&And::single(ProofNodeIdx(3)));
    let large = And::single(ProofNodeIdx(2)).distribute(&And::single(ProofNodeIdx(4)));
    assert_eq!(tree.weight(&small).momentum, 4 + 5);
    assert_eq!(tree.weight(&large).momentum, 4 + 15);
    assert!(tree.weight(&small).momentum < tree.weight(&large).momentum);
}

#[test]
fn sets_that_cannot_be_scored_are_told() {
    let ns = NodeTable::new(vec![
        goal(No, 0),
        candidate(No, true),
        goal(Yes, 1),
        goal_of(callable(None, None), 2),
        goal(No, 3),
    ]);
    let topology = edges(&[(0, 1), (1, 2), (1, 3), (1, 4)]);
    let tree = T::new(ProofNodeIdx(0), &ns, &topology, false, false);
    // A candidate is no goal.
    assert!(!tree.can_weigh(&And::single(ProofNodeIdx(1))));
    // A goal that succeeded is not analysed.
    assert!(!tree.can_weigh(&And::single(ProofNodeIdx(2))));
    // A callable trait of unknown arity costs more than a machine word holds.
    assert!(!tree.can_weigh(&And::single(ProofNodeIdx(3))));
    // A node outside the table.
    assert!(!tree.can_weigh(&And::single(ProofNodeIdx(9))));
    assert!(tree.can_weigh(&And::single(ProofNodeIdx(4))));
    let h = tree.weight(&And::single(ProofNodeIdx(0)));
    assert_eq!((h.momentum, h.velocity), (1, 0));
}

#[test]
fn the_empty_set_costs_nothing() {
    let ns = NodeTable::new(vec![goal(No, 0)]);
    let topology = TreeTopology::new();
    let tree = T::new(ProofNodeIdx(0), &ns, &topology, false, false);
    let nothing = And::default();
    assert_eq!(nothing.len(), 0);
    assert!(tree.can_weigh(&nothing));
    let h = tree.weight(&nothing);
    assert_eq!((h.momentum, h.velocity), (0, 0));
    assert!(h.goals.is_empty());
}

#[test]
fn the_table_holds_the_nodes_by_index() {
    let nodes = vec![goal(No, 0), candidate(Maybe, true), goal(Yes, 4)];
    let ns = NodeTable::new(nodes.clone());
    assert_eq!(ns.len(), 3);
    for (i, node) in nodes.iter().enumerate() {
        assert_eq!(ns.get(ProofNodeIdx(i)), node);
        assert_eq!(ns.get(ProofNodeIdx(i)).result(), node.result());
    }
}
