//! Which subgoals of a failed candidate are worth explaining.
//!
//! A solver often reports many failing subgoals that stem from one cause.
//! Of the subgoals of a candidate, in their stable order, only the shortest
//! leading part is kept in which every source of failure shows up once.

use vstd::prelude::*;

verus! {

/// What the filter reads of a subgoal.
#[derive(Clone, Copy, Debug, PartialEq, Eq, Structural)]
pub struct Origin {
    /// The subgoal failed and has to be explained.
    pub failed: bool,
    /// The label of the cause that the subgoal stems from. Which subgoals
    /// share a label is the solver's business.
    pub source: u64,
}

/// Whether `a` and `b` are failures of one source.
pub open spec fn same_source(a: Origin, b: Origin) -> bool {
    a.failed && b.failed && a.source == b.source
}

/// Whether the failure of subgoal `j` shows up among the first `k` subgoals.
pub open spec fn covered(goals: Seq<Origin>, k: int, j: int) -> bool {
    exists|i: int| 0 <= i < k && i < goals.len() && same_source(#[trigger] goals[i], goals[j])
}

/// Whether the first `k` subgoals explain every failure among all of them.
pub open spec fn sufficient(goals: Seq<Origin>, k: int) -> bool {
    forall|j: int| k <= j < goals.len() && (#[trigger] goals[j]).failed ==> covered(goals, k, j)
}

/// Whether subgoal `j` is the first failure of its source.
pub open spec fn is_leader(goals: Seq<Origin>, j: int) -> bool {
    goals[j].failed && !covered(goals, j, j)
}

/// One more than the position of the last leader among the first `n`
/// subgoals; zero where there is none.
pub open spec fn cap_within(goals: Seq<Origin>, n: nat) -> nat
    decreases n,
{
    if n == 0 {
        0
    } else if is_leader(goals, n - 1) {
        n
    } else {
        cap_within(goals, (n - 1) as nat)
    }
}

/// How many leading subgoals are kept.
pub open spec fn source_cap(goals: Seq<Origin>) -> nat {
    cap_within(goals, goals.len())
}

proof fn lemma_cap_bounds(goals: Seq<Origin>, n: nat)
    ensures
        cap_within(goals, n) <= n,
        cap_within(goals, n) > 0 ==> is_leader(goals, cap_within(goals, n) - 1),
        forall|j: int| 0 <= j < n && is_leader(goals, j) ==> j < cap_within(goals, n),
    decreases n,
{
    if n > 0 {
        lemma_cap_bounds(goals, (n - 1) as nat);
    }
}

/// Every failure has a leader of its source at or before it.
proof fn lemma_has_leader(goals: Seq<Origin>, j: int) -> (i: int)
    requires
        0 <= j < goals.len(),
        goals[j].failed,
    ensures
        0 <= i <= j,
        is_leader(goals, i),
        same_source(goals[i], goals[j]),
    decreases j,
{
    if is_leader(goals, j) {
        j
    } else {
        let earlier = choose|i: int| 0 <= i < j && i < goals.len() && same_source(goals[i], goals[j]);
        let i = lemma_has_leader(goals, earlier);
        i
    }
}

/// The kept part is the shortest leading part that explains every failure.
pub proof fn lemma_source_cap_minimal(goals: Seq<Origin>)
    ensures
        source_cap(goals) <= goals.len(),
        sufficient(goals, source_cap(goals) as int),
        forall|k: int| 0 <= k < source_cap(goals) ==> !sufficient(goals, k),
{
    let cap = source_cap(goals);
    lemma_cap_bounds(goals, goals.len());
    assert forall|j: int| cap <= j < goals.len() && (#[trigger] goals[j]).failed implies covered(
        goals,
        cap as int,
        j,
    ) by {
        let i = lemma_has_leader(goals, j);
        assert(same_source(goals[i], goals[j]));
    }
    assert forall|k: int| 0 <= k < cap implies !sufficient(goals, k) by {
        let last = cap - 1;
        assert(is_leader(goals, last));
        if sufficient(goals, k) {
            assert(goals[last].failed);
            assert(covered(goals, k, last));
            let i = choose|i: int| 0 <= i < k && i < goals.len() && same_source(goals[i], goals[last]);
            assert(covered(goals, last, last));
        }
    }
}

/// The first failure is always kept.
pub proof fn lemma_first_failure_kept(goals: Seq<Origin>, j: int)
    requires
        0 <= j < goals.len(),
        goals[j].failed,
        forall|i: int| 0 <= i < j ==> !(#[trigger] goals[i]).failed,
    ensures
        j < source_cap(goals),
{
    lemma_cap_bounds(goals, goals.len());
    assert(is_leader(goals, j));
}

/// Counts the leading subgoals to keep: the shortest leading part of
/// `goals` in which every failure among all of them has one of its source.
pub fn retain_error_sources(goals: &Vec<Origin>) -> (cap: usize)
    ensures
        cap == source_cap(goals@),
        cap <= goals@.len(),
        sufficient(goals@, cap as int),
        forall|k: int| 0 <= k < cap ==> !sufficient(goals@, k),
{
    proof {
        lemma_source_cap_minimal(goals@);
    }
    let mut cap: usize = 0;
    let mut j: usize = 0;
    while j < goals.len()
        invariant
            j <= goals@.len(),
            cap == cap_within(goals@, j as nat),
            cap <= j,
        decreases goals.len() - j,
    {
        if goals[j].failed {
            let mut seen = false;
            let mut i: usize = 0;
            while i < j
                invariant
                    i <= j < goals@.len(),
                    goals@[j as int].failed,
                    seen == covered(goals@, i as int, j as int),
                decreases j - i,
            {
                if goals[i].failed && goals[i].source == goals[j].source {
                    seen = true;
                }
                proof {
                    if covered(goals@, i as int + 1, j as int) && !seen {
                        let w = choose|w: int|
                            0 <= w < i + 1 && w < goals@.len() && same_source(
                                #[trigger] goals@[w],
                                goals@[j as int],
                            );
                        assert(w < i);
                        assert(covered(goals@, i as int, j as int));
                    }
                    if seen {
                        if goals@[i as int].failed && goals@[i as int].source
                            == goals@[j as int].source {
                            assert(same_source(goals@[i as int], goals@[j as int]));
                        } else {
                            let w = choose|w: int|
                                0 <= w < i && w < goals@.len() && same_source(
                                    #[trigger] goals@[w],
                                    goals@[j as int],
                                );
                            assert(same_source(goals@[w], goals@[j as int]));
                        }
                        assert(covered(goals@, i as int + 1, j as int));
                    }
                }
                i += 1;
            }
            if !seen {
                cap = j + 1;
            }
        }
        j += 1;
    }
    cap
}

} // verus!
