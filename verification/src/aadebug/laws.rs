//! What holds of the reduction of every well-formed tree.

use vstd::prelude::*;
use crate::aadebug::dnf::{
    each_distinct, each_member, lemma_and_all_distinct, lemma_and_all_members,
    lemma_and_all_satisfied, lemma_or_all_distinct, lemma_or_all_members, lemma_or_all_satisfied,
    satisfied, within,
};
use crate::aadebug::kind::{momentum_of, GoalKind};
use crate::aadebug::model::Tree;
use crate::aadebug::retain::{lemma_first_failure_kept, lemma_source_cap_minimal, Origin};
use crate::aadebug::tree::I;

verus! {

/// What the induction shows of the correction sets of a list of nodes:
/// none of them is without alternatives, they name failed goals only, and
/// each of their sets names a goal once.
spec fn sound(tree: Tree, dnfs: Seq<Seq<Seq<I>>>) -> bool {
    forall|j: int|
        0 <= j < dnfs.len() ==> (#[trigger] dnfs[j]).len() > 0 && each_member(dnfs[j], tree.fails())
            && each_distinct(dnfs[j])
}

/// A failed goal has correction sets, at least one; they name failed goals
/// only; and repairing a set of goals makes the goal hold exactly when it
/// carries out one of them.
proof fn lemma_goal(tree: Tree, g: I, fixed: Set<I>)
    requires
        tree.wf(),
        tree.failing(g),
    ensures
        tree.goal_dnf(g) is Some,
        tree.goal_dnf(g)->0.len() > 0,
        each_member(tree.goal_dnf(g)->0, tree.fails()),
        each_distinct(tree.goal_dnf(g)->0),
        satisfied(tree.goal_dnf(g)->0, fixed) <==> tree.goal_holds(g, fixed),
    decreases tree.height(g), 2int, 0int,
{
    let n = tree.children(g).len();
    let nested = tree.nested_dnfs(g, n);
    lemma_nested(tree, g, n, fixed);
    if nested.len() == 0 {
        let d = seq![seq![g]];
        assert(tree.goal_dnf(g) == Some(d));
        assert(d[0][0] == g);
        assert(tree.fails()(g));
        if fixed.contains(g) {
            assert(within(d[0], fixed));
        }
        if satisfied(d, fixed) {
            let k = choose|k: int| 0 <= k < d.len() && within(#[trigger] d[k], fixed);
            assert(fixed.contains(d[k][0]));
        }
    } else {
        lemma_or_all_satisfied(nested, fixed);
        lemma_or_all_members(nested, tree.fails());
        lemma_or_all_distinct(nested);
        assert(nested[0].len() > 0);
    }
}

/// The correction sets among the first `k` candidates of a goal are those
/// of the candidates that explain a failure.
proof fn lemma_nested(tree: Tree, g: I, k: nat, fixed: Set<I>)
    requires
        tree.wf(),
        k <= tree.children(g).len(),
    ensures
        sound(tree, tree.nested_dnfs(g, k)),
        tree.nested_dnfs(g, k).len() > 0 <==> exists|m: int|
            0 <= m < k && tree.explains(#[trigger] tree.children(g)[m]),
        (exists|j: int|
            0 <= j < tree.nested_dnfs(g, k).len() && satisfied(
                #[trigger] tree.nested_dnfs(g, k)[j],
                fixed,
            )) <==> (exists|m: int|
            0 <= m < k && tree.explains(#[trigger] tree.children(g)[m]) && tree.candidate_holds(
                tree.children(g)[m],
                fixed,
            )),
    decreases tree.height(g), 1int, k,
{
    if k > 0 {
        let before = tree.nested_dnfs(g, (k - 1) as nat);
        let now = tree.nested_dnfs(g, k);
        let c = tree.children(g)[k - 1];
        lemma_nested(tree, g, (k - 1) as nat, fixed);
        assert(tree.topology.children_spec(g)[k - 1] == c);
        if tree.interesting(c) {
            lemma_candidate(tree, c, fixed);
        }
        let adds = tree.interesting(c) && tree.candidate_dnf(c) is Some;
        assert(adds <==> tree.explains(c));
        if adds {
            let d = tree.candidate_dnf(c)->0;
            assert(now == before.push(d));
            assert(now[now.len() - 1] == d);
            assert forall|j: int| 0 <= j < now.len() implies (#[trigger] now[j]).len() > 0
                && each_member(now[j], tree.fails()) && each_distinct(now[j]) by {
                if j < before.len() {
                    assert(now[j] == before[j]);
                }
            }
        } else {
            assert(now == before);
        }
        // Which candidates explain a failure.
        if exists|m: int| 0 <= m < k && tree.explains(#[trigger] tree.children(g)[m]) {
            let m = choose|m: int| 0 <= m < k && tree.explains(#[trigger] tree.children(g)[m]);
            if m < k - 1 {
                assert(before.len() > 0);
            }
        }
        if now.len() > 0 {
            if adds {
                assert(tree.explains(tree.children(g)[k - 1]));
            } else {
                let m = choose|m: int|
                    0 <= m < k - 1 && tree.explains(#[trigger] tree.children(g)[m]);
                assert(tree.explains(tree.children(g)[m]));
            }
        }
        // Which of them hold.
        if exists|j: int| 0 <= j < now.len() && satisfied(#[trigger] now[j], fixed) {
            let j = choose|j: int| 0 <= j < now.len() && satisfied(#[trigger] now[j], fixed);
            if j < before.len() {
                assert(satisfied(before[j], fixed));
                let m = choose|m: int|
                    0 <= m < k - 1 && tree.explains(#[trigger] tree.children(g)[m])
                        && tree.candidate_holds(tree.children(g)[m], fixed);
                assert(tree.explains(tree.children(g)[m]) && tree.candidate_holds(
                    tree.children(g)[m],
                    fixed,
                ));
            } else {
                assert(tree.explains(tree.children(g)[k - 1]) && tree.candidate_holds(
                    tree.children(g)[k - 1],
                    fixed,
                ));
            }
        }
        if exists|m: int|
            0 <= m < k && tree.explains(#[trigger] tree.children(g)[m]) && tree.candidate_holds(
                tree.children(g)[m],
                fixed,
            ) {
            let m = choose|m: int|
                0 <= m < k && tree.explains(#[trigger] tree.children(g)[m])
                    && tree.candidate_holds(tree.children(g)[m], fixed);
            if m < k - 1 {
                let j = choose|j: int|
                    0 <= j < before.len() && satisfied(#[trigger] before[j], fixed);
                assert(satisfied(now[j], fixed));
            } else {
                assert(satisfied(now[now.len() - 1], fixed));
            }
        }
    }
}

/// A candidate has correction sets exactly if it explains a failure or,
/// where it is not interesting, would; they are as those of a goal.
proof fn lemma_candidate(tree: Tree, c: I, fixed: Set<I>)
    requires
        tree.wf(),
        tree.is_candidate(c),
    ensures
        tree.candidate_dnf(c) is Some <==> !(tree.node(c).result_spec() is Yes) && exists|k: int|
            0 <= k < tree.kept(c) && k < tree.children(c).len() && tree.failing(
                #[trigger] tree.children(c)[k],
            ),
        tree.candidate_dnf(c) matches Some(d) ==> d.len() > 0 && each_member(d, tree.fails())
            && each_distinct(d) && (satisfied(d, fixed) <==> tree.candidate_holds(c, fixed)),
    decreases tree.height(c), 2int, 0int,
{
    lemma_source_cap_minimal(tree.origins(c));
    let n = tree.kept(c);
    assert(n <= tree.children(c).len());
    lemma_subgoals(tree, c, n, fixed);
    let operands = tree.subgoal_dnfs(c, n);
    lemma_and_all_satisfied(operands, fixed);
    lemma_and_all_members(operands, tree.fails());
    lemma_and_all_distinct(operands);
}

/// The correction sets among the first `k` subgoals of a candidate are those
/// of the subgoals that failed.
proof fn lemma_subgoals(tree: Tree, c: I, k: nat, fixed: Set<I>)
    requires
        tree.wf(),
        k <= tree.children(c).len(),
    ensures
        sound(tree, tree.subgoal_dnfs(c, k)),
        tree.subgoal_dnfs(c, k).len() > 0 <==> exists|m: int|
            0 <= m < k && tree.failing(#[trigger] tree.children(c)[m]),
        (forall|j: int|
            0 <= j < tree.subgoal_dnfs(c, k).len() ==> satisfied(
                #[trigger] tree.subgoal_dnfs(c, k)[j],
                fixed,
            )) <==> (forall|m: int|
            0 <= m < k ==> tree.goal_holds(#[trigger] tree.children(c)[m], fixed)),
    decreases tree.height(c), 1int, k,
{
    if k > 0 {
        let before = tree.subgoal_dnfs(c, (k - 1) as nat);
        let now = tree.subgoal_dnfs(c, k);
        let s = tree.children(c)[k - 1];
        lemma_subgoals(tree, c, (k - 1) as nat, fixed);
        assert(tree.topology.children_spec(c)[k - 1] == s);
        if tree.failing(s) {
            lemma_goal(tree, s, fixed);
            let d = tree.goal_dnf(s)->0;
            assert(now == before.push(d));
            assert(now[now.len() - 1] == d);
            assert forall|j: int| 0 <= j < now.len() implies (#[trigger] now[j]).len() > 0
                && each_member(now[j], tree.fails()) && each_distinct(now[j]) by {
                if j < before.len() {
                    assert(now[j] == before[j]);
                }
            }
        } else {
            assert(tree.goal_dnf(s) is None);
            assert(now == before);
            assert(tree.goal_holds(s, fixed));
        }
        if exists|m: int| 0 <= m < k && tree.failing(#[trigger] tree.children(c)[m]) {
            let m = choose|m: int| 0 <= m < k && tree.failing(#[trigger] tree.children(c)[m]);
            if m < k - 1 {
                assert(before.len() > 0);
            }
        }
        if now.len() > 0 {
            if tree.failing(s) {
                assert(tree.failing(tree.children(c)[k - 1]));
            } else {
                let m = choose|m: int|
                    0 <= m < k - 1 && tree.failing(#[trigger] tree.children(c)[m]);
                assert(tree.failing(tree.children(c)[m]));
            }
        }
        if forall|j: int| 0 <= j < now.len() ==> satisfied(#[trigger] now[j], fixed) {
            assert forall|j: int| 0 <= j < before.len() implies satisfied(
                #[trigger] before[j],
                fixed,
            ) by {
                assert(satisfied(now[j], fixed));
            }
            assert forall|m: int| 0 <= m < k implies tree.goal_holds(
                #[trigger] tree.children(c)[m],
                fixed,
            ) by {
                if m == k - 1 && tree.failing(s) {
                    assert(satisfied(now[now.len() - 1], fixed));
                }
            }
        }
        if forall|m: int| 0 <= m < k ==> tree.goal_holds(#[trigger] tree.children(c)[m], fixed) {
            assert forall|j: int| 0 <= j < now.len() implies satisfied(#[trigger] now[j], fixed) by {
                assert forall|m: int| 0 <= m < k - 1 implies tree.goal_holds(
                    #[trigger] tree.children(c)[m],
                    fixed,
                ) by {}
                if j < before.len() {
                    assert(satisfied(before[j], fixed));
                } else {
                    assert(tree.goal_holds(tree.children(c)[k - 1], fixed));
                }
            }
        }
    }
}

/// Soundness. Where the root failed, repairing a set of goals makes the
/// root hold exactly when the set takes in one of the tree's correction
/// sets. So each correction set suffices, and nothing less than one does.
pub proof fn lemma_correction_sets_exact(tree: Tree, fixed: Set<I>)
    requires
        tree.wf(),
        tree.failing(tree.root),
    ensures
        tree.goal_holds(tree.root, fixed) <==> satisfied(tree.dnf(), fixed),
{
    lemma_goal(tree, tree.root, fixed);
}

/// Soundness, for one correction set: repairing its goals makes the root hold.
pub proof fn lemma_correction_set_suffices(tree: Tree, k: int)
    requires
        tree.wf(),
        0 <= k < tree.dnf().len(),
    ensures
        tree.goal_holds(tree.root, tree.dnf()[k].to_set()),
{
    let fixed = tree.dnf()[k].to_set();
    if tree.failing(tree.root) {
        lemma_goal(tree, tree.root, fixed);
        assert forall|j: int| 0 <= j < tree.dnf()[k].len() implies fixed.contains(
            #[trigger] tree.dnf()[k][j],
        ) by {
            assert(tree.dnf()[k].contains(tree.dnf()[k][j]));
        }
        assert(within(tree.dnf()[k], fixed));
    }
}

/// The rule of non-emptiness: a tree has no correction set exactly if its
/// root needs no explanation.
pub proof fn lemma_empty_iff_root_holds(tree: Tree)
    requires
        tree.wf(),
    ensures
        tree.dnf().len() == 0 <==> !tree.failing(tree.root),
{
    if tree.failing(tree.root) {
        lemma_goal(tree, tree.root, Set::empty());
    }
}

/// A correction set is a set: it names none of its goals twice.
pub proof fn lemma_correction_sets_distinct(tree: Tree)
    requires
        tree.wf(),
    ensures
        each_distinct(tree.dnf()),
{
    if tree.failing(tree.root) {
        lemma_goal(tree, tree.root, Set::empty());
    }
}

/// A correction set of the tree can be scored unless its score is too
/// large for a machine word.
pub proof fn lemma_correction_sets_weighable(tree: Tree, k: int)
    requires
        tree.wf(),
        0 <= k < tree.dnf().len(),
        tree.momentum(tree.dnf()[k]) <= usize::MAX,
    ensures
        tree.weighable(tree.dnf()[k]),
{
    lemma_members_failed(tree);
    assert forall|j: int| 0 <= j < tree.dnf()[k].len() implies tree.is_goal(
        #[trigger] tree.dnf()[k][j],
    ) && !(tree.node(tree.dnf()[k][j]).result_spec() is Yes) by {
        assert(tree.failing(tree.dnf()[k][j]));
    }
}

/// Every goal that a correction set names is a goal of the tree that failed.
pub proof fn lemma_members_failed(tree: Tree)
    requires
        tree.wf(),
    ensures
        each_member(tree.dnf(), tree.fails()),
        forall|k: int, j: int|
            0 <= k < tree.dnf().len() && 0 <= j < tree.dnf()[k].len() ==> tree.failing(
                #[trigger] tree.dnf()[k][j],
            ),
{
    if tree.failing(tree.root) {
        lemma_goal(tree, tree.root, Set::empty());
        assert forall|k: int, j: int|
            0 <= k < tree.dnf().len() && 0 <= j < tree.dnf()[k].len() implies tree.failing(
            #[trigger] tree.dnf()[k][j],
        ) by {
            assert(tree.fails()(tree.dnf()[k][j]));
        }
    }
}

/// Retention is never trivial: of a candidate with a failed subgoal, the
/// filter keeps the first failed subgoal, and so at least one.
pub proof fn lemma_retention_keeps_a_failure(tree: Tree, c: I, k: int)
    requires
        0 <= k < tree.children(c).len(),
        tree.failing(tree.children(c)[k]),
    ensures
        tree.source_subgoals(c).len() > 0,
        exists|m: int|
            0 <= m < tree.source_subgoals(c).len() && tree.failing(
                #[trigger] tree.source_subgoals(c)[m],
            ),
{
    let origins = tree.origins(c);
    assert(origins[k].failed);
    let first = first_failure(origins, k);
    lemma_first_failure_kept(origins, first);
    lemma_source_cap_minimal(origins);
    assert(tree.source_subgoals(c)[first] == tree.children(c)[first]);
    assert(tree.failing(tree.source_subgoals(c)[first]));
}

/// The position of the first failure, given that of some failure.
proof fn first_failure(goals: Seq<Origin>, k: int) -> (first: int)
    requires
        0 <= k < goals.len(),
        goals[k].failed,
    ensures
        0 <= first <= k,
        goals[first].failed,
        forall|i: int| 0 <= i < first ==> !(#[trigger] goals[i]).failed,
    decreases k,
{
    if exists|i: int| 0 <= i < k && (#[trigger] goals[i]).failed {
        let i = choose|i: int| 0 <= i < k && (#[trigger] goals[i]).failed;
        first_failure(goals, i)
    } else {
        k
    }
}

/// The size of an arity mismatch, for the kinds that record one.
pub open spec fn mismatch(kind: GoalKind) -> Option<usize> {
    match kind {
        GoalKind::AddFnParams { delta } => Some(delta),
        GoalKind::DeleteFnParams { delta } => Some(delta),
        _ => None,
    }
}

/// Weight grows with the mismatch: of two lists of kinds that differ in
/// one place only, and there only in the size of an arity mismatch, the one
/// with the larger mismatch costs strictly more.
pub proof fn lemma_momentum_monotone(a: Seq<GoalKind>, b: Seq<GoalKind>, at: int)
    requires
        a.len() == b.len(),
        0 <= at < a.len(),
        forall|k: int| 0 <= k < a.len() && k != at ==> a[k] == b[k],
        mismatch(a[at]) is Some,
        mismatch(b[at]) is Some,
        mismatch(a[at])->0 < mismatch(b[at])->0,
    ensures
        momentum_of(a) < momentum_of(b),
    decreases a.len(),
{
    let last = a.len() - 1;
    if at == last {
        assert(a.drop_last() =~= b.drop_last());
    } else {
        lemma_momentum_monotone(a.drop_last(), b.drop_last(), at);
    }
}

/// Weight grows with the mismatch, for the correction sets of a tree: of
/// two sets that differ in one goal only, whose categories differ only in
/// the size of an arity mismatch, the one with the larger mismatch has
/// strictly greater momentum.
pub proof fn lemma_weight_monotone(tree: Tree, a: Seq<I>, b: Seq<I>, at: int)
    requires
        a.len() == b.len(),
        0 <= at < a.len(),
        forall|k: int| 0 <= k < a.len() && k != at ==> a[k] == b[k],
        mismatch(tree.kind_of(a[at])) is Some,
        mismatch(tree.kind_of(b[at])) is Some,
        mismatch(tree.kind_of(a[at]))->0 < mismatch(tree.kind_of(b[at]))->0,
    ensures
        tree.momentum(a) < tree.momentum(b),
{
    lemma_momentum_monotone(tree.kinds(a), tree.kinds(b), at);
}

} // verus!
