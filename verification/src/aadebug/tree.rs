//! The search tree of a failed goal, its reduction and its ranking.

use vstd::prelude::*;
use crate::aadebug::dnf::{dnf_views, views, And, Dnf};
use crate::aadebug::kind::{classify, lemma_momentum_prefix, momentum_of, GoalKind};
use crate::aadebug::model::{well_formed, Tree};
use crate::aadebug::laws::{
    lemma_empty_iff_root_holds, lemma_members_failed, lemma_retention_keeps_a_failure,
};
use crate::aadebug::retain::{retain_error_sources, Origin};
use crate::aadebug::predicate::PredicateKind;
use crate::analysis::EvaluationResult;
use crate::proof_tree::topology::TreeTopology;
use crate::proof_tree::ProofNodeIdx;

verus! {

pub type I = ProofNodeIdx;

/// Where a trait candidate comes from.
#[derive(Clone, Copy, Debug, PartialEq, Eq, Structural)]
pub enum CandidateSource {
    Impl,
    BuiltinImpl,
    ParamEnv,
    AliasBound,
    CoherenceUnknowable,
}

/// What kind of attempt a candidate is.
#[derive(Clone, Copy, Debug, PartialEq, Eq, Structural)]
pub enum CandidateKind {
    TraitCandidate { source: CandidateSource },
    Other,
}

impl CandidateKind {
    /// Whether the candidate is an impl that the compiler supplies itself.
    pub open spec fn is_builtin(self) -> bool {
        self matches CandidateKind::TraitCandidate { source: CandidateSource::BuiltinImpl }
    }

    pub fn builtin(&self) -> (b: bool)
        ensures
            b == self.is_builtin(),
    {
        match self {
            CandidateKind::TraitCandidate { source: CandidateSource::BuiltinImpl } => true,
            _ => false,
        }
    }
}

/// A node of the search tree.
#[derive(Clone, Copy, Debug, PartialEq, Eq, Structural)]
pub enum N {
    /// One way in which the solver tried to satisfy the goal above it.
    C { kind: CandidateKind, result: EvaluationResult, retain: bool },
    /// A goal that the solver evaluated. `source` labels the cause that the
    /// goal stems from: among the subgoals of one candidate, failures with
    /// equal labels are taken to have one cause.
    R { source: u64, goal: PredicateKind, result: EvaluationResult },
}

impl N {
    pub open spec fn result_spec(self) -> EvaluationResult {
        match self {
            N::C { result, .. } => result,
            N::R { result, .. } => result,
        }
    }

    pub fn result(&self) -> (r: EvaluationResult)
        ensures
            r == self.result_spec(),
    {
        match self {
            N::C { result, .. } => *result,
            N::R { result, .. } => *result,
        }
    }
}

/// A goal of a correction set, with its category.
#[derive(Clone, Copy, Debug)]
pub struct Heuristic {
    pub idx: I,
    pub kind: GoalKind,
}

/// The score of a correction set.
#[derive(Clone, Debug)]
pub struct SetHeuristic {
    /// The summed cost of repairing the goals of the set.
    pub momentum: usize,
    /// The depth of the deepest goal of the set.
    pub velocity: usize,
    /// The goals of the set, in its order, each with its category.
    pub goals: Vec<Heuristic>,
}

/// The categories of a list of scored goals.
spec fn heuristic_kinds(goals: Seq<Heuristic>) -> Seq<GoalKind> {
    Seq::new(goals.len(), |k: int| goals[k].kind)
}

/// The dense table of a tree's nodes: an `index_vec::IndexVec` that is
/// indexed by [`ProofNodeIdx`].
#[verifier::external_body]
pub struct NodeTable {
    raw: index_vec::IndexVec<I, N>,
}

/// The nodes that a table holds, by index.
pub uninterp spec fn table_nodes(table: NodeTable) -> Seq<N>;

impl View for NodeTable {
    type V = Seq<N>;

    open spec fn view(&self) -> Seq<N> {
        table_nodes(*self)
    }
}

/// `IndexVec::from_vec`, which wraps the vector as it is: the table holds
/// the given nodes, each at the index that it had in the vector. It asks
/// the index type for the index of the vector's length, which
/// [`ProofNodeIdx`] has for every length.
#[verifier::external_body]
fn table_from_vec(nodes: Vec<N>) -> (table: NodeTable)
    ensures
        table_nodes(table) == nodes@,
{
    NodeTable { raw: index_vec::IndexVec::from_vec(nodes) }
}

/// `IndexSlice::len`, the length of the wrapped vector: the number of nodes
/// in the table.
#[verifier::external_body]
fn table_len(table: &NodeTable) -> (n: usize)
    ensures
        n == table_nodes(*table).len(),
{
    table.raw.len()
}

/// Indexing an `IndexVec` by an index `i`, which indexes the wrapped vector
/// by `i.index()` and panics past its end: the node at that index.
#[verifier::external_body]
fn table_index(table: &NodeTable, i: I) -> (node: &N)
    requires
        i.0 < table_nodes(*table).len(),
    ensures
        *node == table_nodes(*table)[i.0 as int],
{
    &table.raw[i]
}

impl NodeTable {
    /// The table of the given nodes; a node's index is its position.
    pub fn new(nodes: Vec<N>) -> (table: NodeTable)
        ensures
            table@ == nodes@,
    {
        table_from_vec(nodes)
    }

    pub fn len(&self) -> (n: usize)
        ensures
            n == self@.len(),
    {
        table_len(self)
    }

    pub fn get(&self, i: I) -> (node: &N)
        requires
            i.0 < self@.len(),
        ensures
            *node == self@[i.0 as int],
    {
        table_index(self, i)
    }
}

/// A goal of a tree, with what its node holds.
#[derive(Clone, Copy)]
pub struct Goal<'a> {
    idx: I,
    result: EvaluationResult,
    tree: &'a T<'a>,
    source: u64,
    goal: &'a PredicateKind,
}

/// A candidate of a tree, with what its node holds.
#[derive(Clone, Copy)]
pub struct Candidate<'a> {
    idx: I,
    retain: bool,
    result: EvaluationResult,
    tree: &'a T<'a>,
    kind: &'a CandidateKind,
}

/// Whether a computed reduction is the one that the model gives.
spec fn agrees(dnf: Option<Dnf>, model: Option<Seq<Seq<I>>>) -> bool {
    match (dnf, model) {
        (Some(d), Some(m)) => d@ == m,
        (None, None) => true,
        _ => false,
    }
}

/// Whether `f` was handed the correction set `set` and has returned.
pub open spec fn handed<F: FnMut(&And)>(f: F, set: Seq<I>) -> bool {
    exists|and: And| and@ == set && call_ensures(f, (&and,), ())
}

/// The indices of a list of goals.
pub open spec fn goal_indices(goals: Seq<Goal<'_>>) -> Seq<I> {
    Seq::new(goals.len(), |k: int| goals[k].index())
}

/// The indices of a list of candidates.
pub open spec fn candidate_indices(candidates: Seq<Candidate<'_>>) -> Seq<I> {
    Seq::new(candidates.len(), |k: int| candidates[k].index())
}

impl<'a> Goal<'a> {
    #[verifier::type_invariant]
    spec fn inv(&self) -> bool {
        &&& self.tree@.in_table(self.idx)
        &&& self.tree@.node(self.idx) == (N::R {
            source: self.source,
            goal: *self.goal,
            result: self.result,
        })
    }

    /// The index of the goal's node.
    pub closed spec fn index(&self) -> I {
        self.idx
    }

    /// The tree that the goal belongs to.
    pub closed spec fn tree(&self) -> Tree {
        self.tree@
    }

    /// What holds of every goal: its tree is well formed, and its node is a
    /// goal of that tree.
    pub fn check_goal(&self)
        ensures
            self.tree().wf(),
            self.tree().is_goal(self.index()),
    {
        proof {
            use_type_invariant(self);
            use_type_invariant(self.tree);
        }
    }

    pub fn idx(&self) -> (i: I)
        ensures
            i == self.index(),
    {
        self.idx
    }

    pub fn result(&self) -> (r: EvaluationResult)
        ensures
            r == self.tree().node(self.index()).result_spec(),
    {
        proof {
            use_type_invariant(self);
        }
        self.result
    }

    /// The label of the cause that the goal stems from.
    pub fn source(&self) -> (label: u64)
        ensures
            self.tree().node(self.index()) matches N::R { source, .. } && label == source,
    {
        proof {
            use_type_invariant(self);
        }
        self.source
    }

    /// The predicate that the goal asks for.
    pub fn predicate(&self) -> (p: &PredicateKind)
        ensures
            self.tree().node(self.index()) matches N::R { goal, .. } && *p == goal,
    {
        proof {
            use_type_invariant(self);
        }
        self.goal
    }

    /// The highest goal above this one that is reached without passing a
    /// builtin impl: the goal that a user would recognise.
    pub fn last_ancestor_pre_builtin(&self) -> (above: Goal<'a>)
        ensures
            above.tree() == self.tree(),
            above.index() == self.tree().last_ancestor_pre_builtin(self.index()),
    {
        proof {
            use_type_invariant(self);
            use_type_invariant(self.tree);
        }
        let tree = self.tree;
        let mut i = self.idx;
        loop
            invariant
                tree@.wf(),
                tree@ == self.tree@,
                tree@.is_goal(i),
                tree@.last_ancestor_pre_builtin(i) == tree@.last_ancestor_pre_builtin(self.idx),
            ensures
                tree@.is_goal(i),
                tree@.last_ancestor_pre_builtin(self.idx) == i,
            decreases tree@.depth(i),
        {
            let parent = match tree.topology.parent(i) {
                Some(p) => p,
                None => {
                    break ;
                },
            };
            proof {
                let at = choose|at: int|
                    0 <= at < tree@.topology.children_spec(parent).len()
                        && tree@.topology.children_spec(parent)[at] == i;
                assert(tree@.topology.children_spec(parent)[at] == i);
                assert(tree@.is_candidate(parent));
            }
            let builtin = match tree.ns.get(parent) {
                N::C { kind, .. } => kind.builtin(),
                N::R { .. } => true,
            };
            if builtin {
                break ;
            }
            let above = match tree.topology.parent(parent) {
                Some(g) => g,
                None => {
                    break ;
                },
            };
            proof {
                let at = choose|at: int|
                    0 <= at < tree@.topology.children_spec(above).len()
                        && tree@.topology.children_spec(above)[at] == parent;
                assert(tree@.topology.children_spec(above)[at] == parent);
                assert(tree@.is_goal(above));
                assert(tree@.depth(above) + 2 == tree@.depth(i));
                assert(tree@.next_ancestor(i) == Some(above));
            }
            i = above;
        }
        tree.goal(i).unwrap()
    }

    /// Sorts the goal, which must not have succeeded, into its category.
    pub fn analyze(&self) -> (h: Heuristic)
        requires
            !(self.tree().node(self.index()).result_spec() is Yes),
        ensures
            h.idx == self.index(),
            h.kind == self.tree().kind_of(self.index()),
    {
        proof {
            use_type_invariant(self);
        }
        let kind = classify(self.predicate());
        Heuristic { idx: self.idx, kind }
    }

    /// The candidates below the goal, in order.
    pub fn all_candidates(&self) -> (candidates: Vec<Candidate<'a>>)
        ensures
            candidate_indices(candidates@) == self.tree().children(self.index()),
            forall|k: int| 0 <= k < candidates@.len() ==> (#[trigger] candidates@[k]).tree() == self.tree(),
    {
        proof {
            use_type_invariant(self);
            use_type_invariant(self.tree);
        }
        let children = self.tree.topology.children(self.idx);
        let mut candidates: Vec<Candidate<'a>> = Vec::new();
        let mut k: usize = 0;
        while k < children.len()
            invariant
                k <= children@.len(),
                children@ == self.tree@.children(self.idx),
                self.tree@.wf(),
                self.tree@.is_goal(self.idx),
                candidates@.len() == k,
                candidate_indices(candidates@) == children@.take(k as int),
                forall|j: int|
                    0 <= j < candidates@.len() ==> (#[trigger] candidates@[j]).tree() == self.tree@,
            decreases children.len() - k,
        {
            let child = children[k];
            assert(child == self.tree@.topology.children_spec(self.idx)[k as int]);
            assert(child.0 < self.tree@.topology.slots());
            assert(self.tree@.is_candidate(child));
            let ghost before = candidates@;
            match self.tree.candidate(child) {
                Some(c) => {
                    candidates.push(c);
                },
                None => {},
            }
            k += 1;
            proof {
                assert(candidates@.len() == before.len() + 1);
                assert forall|j: int| 0 <= j < candidates@.len() implies candidate_indices(
                    candidates@,
                )[j] == children@.take(k as int)[j] by {
                    if j < before.len() {
                        assert(candidates@[j] == before[j]);
                        assert(candidate_indices(before)[j] == children@.take(k as int - 1)[j]);
                    }
                }
                assert(candidate_indices(candidates@) =~= children@.take(k as int));
            }
        }
        assert(children@.take(k as int) =~= children@);
        candidates
    }

    /// The candidates below the goal that are worth looking into, in order.
    pub fn interesting_candidates(&self) -> (candidates: Vec<Candidate<'a>>)
        ensures
            candidate_indices(candidates@) == self.tree().interesting_candidates(self.index()),
            forall|k: int| 0 <= k < candidates@.len() ==> (#[trigger] candidates@[k]).tree() == self.tree(),
    {
        let all = self.all_candidates();
        let ghost children = self.tree().children(self.index());
        let ghost picks = self.tree().picks();
        let mut candidates: Vec<Candidate<'a>> = Vec::new();
        let mut k: usize = 0;
        proof {
            reveal(Seq::filter);
            assert(children.take(0) =~= Seq::empty());
        }
        while k < all.len()
            invariant
                k <= all@.len(),
                children == self.tree().children(self.index()),
                picks == self.tree().picks(),
                candidate_indices(all@) == children,
                all@.len() == children.len(),
                forall|j: int| 0 <= j < all@.len() ==> (#[trigger] all@[j]).tree() == self.tree(),
                candidate_indices(candidates@) == children.take(k as int).filter(picks),
                forall|j: int|
                    0 <= j < candidates@.len() ==> (#[trigger] candidates@[j]).tree() == self.tree(),
            decreases all.len() - k,
        {
            let c = all[k];
            let ghost before = candidates@;
            assert(c.index() == candidate_indices(all@)[k as int]);
            if c.retain() {
                candidates.push(c);
            }
            k += 1;
            proof {
                reveal(Seq::filter);
                let upto = children.take(k as int);
                assert(upto.drop_last() =~= children.take(k as int - 1));
                assert(upto.last() == c.index());
                if self.tree().interesting(c.index()) {
                    assert(candidate_indices(candidates@) =~= candidate_indices(before).push(
                        c.index(),
                    ));
                }
            }
        }
        assert(children.take(k as int) =~= children);
        candidates
    }
}

impl<'a> From<Goal<'a>> for ProofNodeIdx {
    fn from(val: Goal<'a>) -> (i: ProofNodeIdx) {
        val.idx
    }
}

impl<'a> vstd::std_specs::convert::FromSpecImpl<Goal<'a>> for ProofNodeIdx {
    open spec fn obeys_from_spec() -> bool {
        true
    }

    open spec fn from_spec(val: Goal<'a>) -> ProofNodeIdx {
        val.index()
    }
}

impl<'a, 'b> From<&'b Goal<'a>> for ProofNodeIdx {
    fn from(val: &'b Goal<'a>) -> (i: ProofNodeIdx) {
        val.idx
    }
}

impl<'a, 'b> vstd::std_specs::convert::FromSpecImpl<&'b Goal<'a>> for ProofNodeIdx {
    open spec fn obeys_from_spec() -> bool {
        true
    }

    open spec fn from_spec(val: &'b Goal<'a>) -> ProofNodeIdx {
        val.index()
    }
}

impl<'a> Candidate<'a> {
    #[verifier::type_invariant]
    spec fn inv(&self) -> bool {
        &&& self.tree@.in_table(self.idx)
        &&& self.tree@.node(self.idx) == (N::C {
            kind: *self.kind,
            result: self.result,
            retain: self.retain,
        })
    }

    /// The index of the candidate's node.
    pub closed spec fn index(&self) -> I {
        self.idx
    }

    /// The tree that the candidate belongs to.
    pub closed spec fn tree(&self) -> Tree {
        self.tree@
    }

    /// What holds of every candidate: its tree is well formed, and its node
    /// is a candidate of that tree.
    pub fn check_candidate(&self)
        ensures
            self.tree().wf(),
            self.tree().is_candidate(self.index()),
    {
        proof {
            use_type_invariant(self);
            use_type_invariant(self.tree);
        }
    }

    pub fn idx(&self) -> (i: I)
        ensures
            i == self.index(),
    {
        self.idx
    }

    pub fn result(&self) -> (r: EvaluationResult)
        ensures
            r == self.tree().node(self.index()).result_spec(),
    {
        proof {
            use_type_invariant(self);
        }
        self.result
    }

    /// Whether the candidate is worth looking into.
    pub fn retain(&self) -> (b: bool)
        ensures
            b == self.tree().interesting(self.index()),
    {
        proof {
            use_type_invariant(self);
        }
        self.retain
    }

    pub fn kind(&self) -> (kind: &CandidateKind)
        ensures
            self.tree().node(self.index()) matches N::C { kind: k, .. } && *kind == k,
    {
        proof {
            use_type_invariant(self);
        }
        self.kind
    }

    /// The subgoals of the candidate, in order.
    pub fn all_subgoals(&self) -> (goals: Vec<Goal<'a>>)
        ensures
            goal_indices(goals@) == self.tree().children(self.index()),
            forall|k: int| 0 <= k < goals@.len() ==> (#[trigger] goals@[k]).tree() == self.tree(),
    {
        proof {
            use_type_invariant(self);
            use_type_invariant(self.tree);
        }
        let children = self.tree.topology.children(self.idx);
        let mut goals: Vec<Goal<'a>> = Vec::new();
        let mut k: usize = 0;
        while k < children.len()
            invariant
                k <= children@.len(),
                children@ == self.tree@.children(self.idx),
                self.tree@.wf(),
                self.tree@.is_candidate(self.idx),
                goals@.len() == k,
                goal_indices(goals@) == children@.take(k as int),
                forall|j: int| 0 <= j < goals@.len() ==> (#[trigger] goals@[j]).tree() == self.tree@,
            decreases children.len() - k,
        {
            let child = children[k];
            assert(child == self.tree@.topology.children_spec(self.idx)[k as int]);
            assert(child.0 < self.tree@.topology.slots());
            assert(self.tree@.is_goal(child));
            let ghost before = goals@;
            match self.tree.goal(child) {
                Some(g) => {
                    goals.push(g);
                },
                None => {},
            }
            k += 1;
            proof {
                assert(goals@.len() == before.len() + 1);
                assert forall|j: int| 0 <= j < goals@.len() implies goal_indices(goals@)[j]
                    == children@.take(k as int)[j] by {
                    if j < before.len() {
                        assert(goals@[j] == before[j]);
                        assert(goal_indices(before)[j] == children@.take(k as int - 1)[j]);
                    }
                }
                assert(goal_indices(goals@) =~= children@.take(k as int));
            }
        }
        assert(children@.take(k as int) =~= children@);
        goals
    }

    /// The subgoals of the candidate that are worth explaining: the
    /// shortest leading part of them in which every source of failure
    /// shows up.
    pub fn source_subgoals(&self) -> (goals: Vec<Goal<'a>>)
        ensures
            goal_indices(goals@) == self.tree().source_subgoals(self.index()),
            goals@.len() == self.tree().kept(self.index()),
            goals@.len() <= self.tree().children(self.index()).len(),
            forall|k: int| 0 <= k < goals@.len() ==> (#[trigger] goals@[k]).tree() == self.tree(),
            (exists|k: int|
                0 <= k < self.tree().children(self.index()).len() && self.tree().failing(
                    #[trigger] self.tree().children(self.index())[k],
                )) ==> goals@.len() > 0,
    {
        proof {
            let tree = self.tree();
            let c = self.index();
            if exists|k: int| 0 <= k < tree.children(c).len() && tree.failing(#[trigger] tree.children(c)[k]) {
                let k = choose|k: int|
                    0 <= k < tree.children(c).len() && tree.failing(#[trigger] tree.children(c)[k]);
                lemma_retention_keeps_a_failure(tree, c, k);
            }
        }
        let mut all_goals = self.all_subgoals();
        let ghost children = self.tree().children(self.index());
        let ghost tree = self.tree();
        let maybe_ambiguous = self.tree.maybe_ambiguous();
        let mut origins: Vec<Origin> = Vec::new();
        let mut k: usize = 0;
        while k < all_goals.len()
            invariant
                k <= all_goals@.len(),
                tree == self.tree(),
                maybe_ambiguous == tree.maybe_ambiguous,
                children == tree.children(self.index()),
                goal_indices(all_goals@) == children,
                all_goals@.len() == children.len(),
                forall|j: int| 0 <= j < all_goals@.len() ==> (#[trigger] all_goals@[j]).tree() == tree,
                origins@ == tree.origins(self.index()).take(k as int),
            decreases all_goals.len() - k,
        {
            let g = &all_goals[k];
            g.check_goal();
            assert(g.index() == goal_indices(all_goals@)[k as int]);
            origins.push(Origin { failed: g.result().fails(maybe_ambiguous), source: g.source() });
            k += 1;
            assert(origins@ =~= tree.origins(self.index()).take(k as int));
        }
        assert(tree.origins(self.index()).take(k as int) =~= tree.origins(self.index()));
        let cap = retain_error_sources(&origins);
        let ghost all = all_goals@;
        all_goals.truncate(cap);
        proof {
            assert(all_goals@ == all.subrange(0, cap as int));
            assert(goal_indices(all_goals@) =~= tree.source_subgoals(self.index()));
        }
        all_goals
    }
}

/// A search tree together with the policy on ambiguity and, once it has
/// been asked for, its reduction.
pub struct T<'a> {
    root: I,
    ns: &'a NodeTable,
    topology: &'a TreeTopology,
    maybe_ambiguous: bool,
    report_performance: bool,
    dnf: Option<Dnf>,
}

impl<'a> View for T<'a> {
    type V = Tree;

    closed spec fn view(&self) -> Tree {
        Tree {
            root: self.root,
            nodes: self.ns@,
            topology: *self.topology,
            maybe_ambiguous: self.maybe_ambiguous,
        }
    }
}

impl<'a> T<'a> {
    #[verifier::type_invariant]
    spec fn inv(&self) -> bool {
        &&& self@.wf()
        &&& self.dnf matches Some(d) ==> d@ == self@.dnf()
    }

    /// Whether the reduction has been computed.
    pub closed spec fn computed(&self) -> bool {
        self.dnf is Some
    }

    /// Whether timing of the reduction is to be reported.
    pub closed spec fn reports(&self) -> bool {
        self.report_performance
    }

    /// Whether the parts make a tree: the edges stay within the node table,
    /// the root is a goal, and goals and candidates alternate.
    pub fn check(root: I, ns: &NodeTable, topology: &TreeTopology) -> (ok: bool)
        ensures
            ok == well_formed(root, ns@, *topology),
    {
        topology.check_wf();
        if topology.len() > ns.len() || root.0 >= ns.len() {
            return false;
        }
        match ns.get(root) {
            N::C { .. } => {
                return false;
            },
            N::R { .. } => {},
        }
        let mut i: usize = 0;
        while i < topology.len()
            invariant
                i <= topology.slots() <= ns@.len(),
                topology.wf(),
                forall|j: I, k: int|
                    j.0 < i && 0 <= k < topology.children_spec(j).len() ==> (ns@[j.0 as int] is C)
                        != (ns@[(#[trigger] topology.children_spec(j)[k]).0 as int] is C),
            decreases topology.slots() - i,
        {
            let here = ProofNodeIdx(i);
            let candidate: bool = match ns.get(here) {
                N::C { .. } => true,
                N::R { .. } => false,
            };
            let children = topology.children(here);
            let mut k: usize = 0;
            while k < children.len()
                invariant
                    k <= children@.len(),
                    i < topology.slots() <= ns@.len(),
                    here == ProofNodeIdx(i),
                    children@ == topology.children_spec(here),
                    topology.wf(),
                    candidate == (ns@[i as int] is C),
                    forall|m: int|
                        0 <= m < k ==> (ns@[i as int] is C) != (ns@[(
                            #[trigger] topology.children_spec(here)[m]).0 as int] is C),
                decreases children.len() - k,
            {
                let child = children[k];
                assert(child == topology.children_spec(here)[k as int]);
                let below: bool = match ns.get(child) {
                    N::C { .. } => true,
                    N::R { .. } => false,
                };
                if below == candidate {
                    return false;
                }
                k += 1;
            }
            i += 1;
        }
        proof {
            assert forall|j: I, k: int| 0 <= k < topology.children_spec(j).len() implies (ns@[j.0 as int] is C)
                != (ns@[(#[trigger] topology.children_spec(j)[k]).0 as int] is C) by {
                let c = topology.children_spec(j)[k];
                assert(j.0 < topology.slots());
            }
        }
        true
    }

    /// The tree over the given parts. The reduction is left for the first
    /// call of [`T::dnf`].
    pub fn new(
        root: I,
        ns: &'a NodeTable,
        topology: &'a TreeTopology,
        maybe_ambiguous: bool,
        report_performance: bool,
    ) -> (tree: T<'a>)
        requires
            well_formed(root, ns@, *topology),
        ensures
            tree@ == (Tree { root, nodes: ns@, topology: *topology, maybe_ambiguous }),
            !tree.computed(),
            tree.reports() == report_performance,
    {
        T { root, ns, topology, maybe_ambiguous, report_performance, dnf: None }
    }

    /// The correction sets of a goal of this tree.
    fn goal_(&self, goal: &Goal<'_>) -> (dnf: Option<Dnf>)
        requires
            goal.tree() == self@,
        ensures
            agrees(dnf, self@.goal_dnf(goal.index())),
        decreases self@.height(goal.index()),
    {
        proof {
            use_type_invariant(self);
        }
        goal.check_goal();
        let ghost g = goal.index();
        let ghost tree = self@;
        if !goal.result().fails(self.maybe_ambiguous) {
            return None;
        }
        let candidates = goal.interesting_candidates();
        let mut nested: Vec<Dnf> = Vec::new();
        let mut k: usize = 0;
        assert(candidate_indices(candidates@).take(0) =~= Seq::empty());
        while k < candidates.len()
            invariant
                k <= candidates@.len(),
                tree == self@,
                tree.wf(),
                g == goal.index(),
                candidate_indices(candidates@) == tree.interesting_candidates(g),
                forall|j: int| 0 <= j < candidates@.len() ==> (#[trigger] candidates@[j]).tree() == tree,
                dnf_views(nested@) == tree.explained(candidate_indices(candidates@).take(k as int)),
            decreases candidates.len() - k,
        {
            let c = &candidates[k];
            let ghost before = nested@;
            proof {
                let picked = tree.interesting_candidates(g);
                assert(picked[k as int] == c.index());
                assert(picked.contains(c.index()));
                tree.children(g).lemma_filter_contains_rev(tree.picks(), c.index());
                let at = choose|at: int|
                    0 <= at < tree.children(g).len() && tree.children(g)[at] == c.index();
                assert(tree.topology.children_spec(g)[at] == c.index());
                assert(tree.depth(c.index()) == tree.depth(g) + 1);
            }
            match self.candidate_(c) {
                Some(d) => {
                    nested.push(d);
                },
                None => {},
            }
            k += 1;
            proof {
                let upto = candidate_indices(candidates@).take(k as int);
                assert(upto.drop_last() =~= candidate_indices(candidates@).take(k as int - 1));
                assert(upto.last() == c.index());
                if tree.candidate_dnf(c.index()) is Some {
                    assert(dnf_views(nested@) =~= dnf_views(before).push(
                        tree.candidate_dnf(c.index())->0,
                    ));
                }
            }
        }
        proof {
            assert(candidate_indices(candidates@).take(k as int) =~= candidate_indices(candidates@));
            tree.lemma_nested_explained(g, tree.children(g).len());
            assert(tree.children(g).take(tree.children(g).len() as int) =~= tree.children(g));
        }
        if nested.len() == 0 {
            return Some(Dnf::single(goal.idx()));
        }
        Dnf::or(nested)
    }

    /// The correction sets of a candidate of this tree.
    fn candidate_(&self, candidate: &Candidate<'_>) -> (dnf: Option<Dnf>)
        requires
            candidate.tree() == self@,
        ensures
            agrees(dnf, self@.candidate_dnf(candidate.index())),
        decreases self@.height(candidate.index()),
    {
        proof {
            use_type_invariant(self);
        }
        candidate.check_candidate();
        let ghost c = candidate.index();
        let ghost tree = self@;
        if candidate.result().is_yes() {
            return None;
        }
        let goals = candidate.source_subgoals();
        let mut operands: Vec<Dnf> = Vec::new();
        let mut k: usize = 0;
        while k < goals.len()
            invariant
                k <= goals@.len(),
                tree == self@,
                tree.wf(),
                c == candidate.index(),
                goal_indices(goals@) == tree.source_subgoals(c),
                goals@.len() == tree.kept(c),
                goals@.len() <= tree.children(c).len(),
                forall|j: int| 0 <= j < goals@.len() ==> (#[trigger] goals@[j]).tree() == tree,
                dnf_views(operands@) == tree.subgoal_dnfs(c, k as nat),
            decreases goals.len() - k,
        {
            let g = &goals[k];
            let ghost before = operands@;
            proof {
                assert(goal_indices(goals@)[k as int] == g.index());
                assert(tree.source_subgoals(c)[k as int] == tree.children(c)[k as int]);
                assert(tree.children(c)[k as int] == g.index());
                assert(tree.topology.children_spec(c)[k as int] == g.index());
                assert(tree.depth(g.index()) == tree.depth(c) + 1);
            }
            match self.goal_(g) {
                Some(d) => {
                    operands.push(d);
                },
                None => {},
            }
            k += 1;
            proof {
                if tree.goal_dnf(g.index()) is Some {
                    assert(dnf_views(operands@) =~= dnf_views(before).push(
                        tree.goal_dnf(g.index())->0,
                    ));
                }
            }
        }
        Dnf::and(operands)
    }

    /// The correction sets of the tree. They are computed when first asked
    /// for, and kept.
    pub fn dnf(&mut self) -> (dnf: &Dnf)
        ensures
            dnf@ == old(self)@.dnf(),
            dnf@.len() == 0 <==> !old(self)@.failing(old(self)@.root),
            forall|k: int, j: int|
                0 <= k < dnf@.len() && 0 <= j < dnf@[k].len() ==> old(self)@.failing(
                    #[trigger] dnf@[k][j],
                ),
            final(self)@ == old(self)@,
            final(self).reports() == old(self).reports(),
            final(self).computed(),
            old(self).computed() ==> *final(self) == *old(self),
    {
        proof {
            use_type_invariant(&*self);
            lemma_empty_iff_root_holds(self@);
            lemma_members_failed(self@);
        }
        if self.dnf.is_none() {
            let root = self.goal(self.root).unwrap();
            let dnf = match self.goal_(&root) {
                Some(d) => d,
                None => Dnf::default(),
            };
            self.dnf = Some(dnf);
        }
        self.dnf.as_ref().unwrap()
    }

    /// The correction sets of a tree whose reduction was computed before.
    pub fn expect_dnf(&self) -> (dnf: &Dnf)
        requires
            self.computed(),
        ensures
            dnf@ == self@.dnf(),
            dnf@.len() == 0 <==> !self@.failing(self@.root),
            forall|k: int, j: int|
                0 <= k < dnf@.len() && 0 <= j < dnf@[k].len() ==> self@.failing(
                    #[trigger] dnf@[k][j],
                ),
    {
        proof {
            use_type_invariant(self);
            lemma_empty_iff_root_holds(self@);
            lemma_members_failed(self@);
        }
        self.dnf.as_ref().unwrap()
    }

    /// Calls `f` on each correction set of the tree, in order. The
    /// reduction is computed if it has not been.
    pub fn for_correction_set(&mut self, mut f: impl FnMut(&And))
        requires
            forall|and: &And| call_requires(f, (and,)),
        ensures
            final(self)@ == old(self)@,
            final(self).reports() == old(self).reports(),
            final(self).computed(),
            old(self).computed() ==> *final(self) == *old(self),
            forall|k: int|
                0 <= k < old(self)@.dnf().len() ==> handed(f, #[trigger] old(self)@.dnf()[k]),
    {
        let ghost sets = self@.dnf();
        let ghost f0 = f;
        let dnf = self.dnf();
        let conjuncts = dnf.iter_conjuncts();
        let mut k: usize = 0;
        while k < conjuncts.len()
            invariant
                k <= conjuncts@.len(),
                views(conjuncts@) == sets,
                f == f0,
                forall|and: &And| call_requires(f, (and,)),
                forall|j: int| 0 <= j < k ==> handed(f, #[trigger] sets[j]),
            decreases conjuncts.len() - k,
        {
            f(&conjuncts[k]);
            proof {
                assert(conjuncts@[k as int]@ == sets[k as int]);
                assert(call_ensures(f, (&conjuncts@[k as int],), ()));
                assert(handed(f, sets[k as int]));
            }
            k += 1;
        }
        assert(sets.len() == conjuncts@.len());
    }

    /// Whether a correction set can be scored.
    pub fn can_weigh(&self, and: &And) -> (ok: bool)
        ensures
            ok == self@.weighable(and@),
    {
        let goals = and.iter();
        let ghost tree = self@;
        let mut momentum: usize = 0;
        let mut k: usize = 0;
        assert(tree.kinds(and@.take(0)) =~= Seq::empty());
        while k < goals.len()
            invariant
                k <= goals@.len(),
                goals@ == and@,
                tree == self@,
                forall|j: int|
                    0 <= j < k ==> tree.is_goal(#[trigger] and@[j]) && !(tree.node(
                        and@[j],
                    ).result_spec() is Yes),
                momentum == tree.momentum(and@.take(k as int)),
            decreases goals.len() - k,
        {
            let i = goals[k];
            if i.0 >= self.ns.len() {
                assert(!tree.is_goal(and@[k as int]));
                return false;
            }
            let goal = match self.goal(i) {
                Some(g) => g,
                None => {
                    assert(!tree.is_goal(and@[k as int]));
                    return false;
                },
            };
            if goal.result().is_yes() {
                assert(tree.node(and@[k as int]).result_spec() is Yes);
                return false;
            }
            let kind = goal.analyze().kind;
            proof {
                let upto = and@.take(k as int + 1);
                assert(tree.kinds(upto).drop_last() =~= tree.kinds(and@.take(k as int)));
                assert(tree.kinds(upto).last() == kind);
                assert(tree.kinds(and@).take(k as int + 1) =~= tree.kinds(upto));
                lemma_momentum_prefix(tree.kinds(and@), k as int + 1);
            }
            let weight: usize = match kind.checked_weight() {
                Some(w) => w,
                None => {
                    return false;
                },
            };
            momentum = match momentum.checked_add(weight) {
                Some(m) => m,
                None => {
                    return false;
                },
            };
            k += 1;
        }
        assert(and@.take(k as int) =~= and@);
        true
    }

    /// Scores a correction set: what its goals cost together, how deep
    /// the deepest of them lies, and the category of each.
    pub fn weight(&self, and: &And) -> (h: SetHeuristic)
        requires
            self@.weighable(and@),
        ensures
            h.goals@.len() == and@.len(),
            forall|k: int|
                0 <= k < and@.len() ==> (#[trigger] h.goals@[k]).idx == and@[k] && h.goals@[k].kind
                    == self@.kind_of(and@[k]),
            h.momentum == self@.momentum(and@),
            h.velocity == self@.velocity(and@),
    {
        proof {
            use_type_invariant(self);
        }
        let members = and.iter();
        let ghost tree = self@;
        let mut goals: Vec<Heuristic> = Vec::new();
        let mut k: usize = 0;
        while k < members.len()
            invariant
                k <= members@.len(),
                members@ == and@,
                tree == self@,
                tree.weighable(and@),
                goals@.len() == k,
                forall|j: int|
                    0 <= j < k ==> (#[trigger] goals@[j]).idx == and@[j] && goals@[j].kind
                        == tree.kind_of(and@[j]),
            decreases members.len() - k,
        {
            assert(tree.is_goal(and@[k as int]));
            let goal = self.goal(members[k]).unwrap();
            goals.push(goal.analyze());
            k += 1;
        }
        assert(heuristic_kinds(goals@) =~= tree.kinds(and@));
        let mut momentum: usize = 0;
        let mut k: usize = 0;
        assert(heuristic_kinds(goals@).take(0) =~= Seq::empty());
        while k < goals.len()
            invariant
                k <= goals@.len(),
                heuristic_kinds(goals@) == tree.kinds(and@),
                tree.momentum(and@) <= usize::MAX,
                momentum == momentum_of(heuristic_kinds(goals@).take(k as int)),
            decreases goals.len() - k,
        {
            proof {
                let kinds = heuristic_kinds(goals@);
                let upto = kinds.take(k as int + 1);
                assert(upto.drop_last() =~= kinds.take(k as int));
                assert(upto.last() == goals@[k as int].kind);
                lemma_momentum_prefix(kinds, k as int + 1);
            }
            momentum = momentum + goals[k].kind.weight();
            k += 1;
        }
        assert(heuristic_kinds(goals@).take(k as int) =~= heuristic_kinds(goals@));
        let mut velocity: usize = 0;
        let mut k: usize = 0;
        while k < members.len()
            invariant
                k <= members@.len(),
                members@ == and@,
                tree == self@,
                velocity == tree.velocity(and@.take(k as int)),
            decreases members.len() - k,
        {
            let depth = self.topology.depth(members[k]);
            proof {
                let upto = and@.take(k as int + 1);
                assert(upto.drop_last() =~= and@.take(k as int));
                assert(upto.last() == and@[k as int]);
            }
            if depth > velocity {
                velocity = depth;
            }
            k += 1;
        }
        assert(and@.take(k as int) =~= and@);
        SetHeuristic { momentum, velocity, goals }
    }

    /// Whether the reduction has been computed: whether the next call of
    /// [`T::dnf`] finds it ready.
    pub fn is_computed(&self) -> (b: bool)
        ensures
            b == self.computed(),
    {
        self.dnf.is_some()
    }

    /// What holds of every tree.
    pub fn check_wf(&self)
        ensures
            self@.wf(),
    {
        proof {
            use_type_invariant(self);
        }
    }

    pub fn root(&self) -> (i: I)
        ensures
            i == self@.root,
    {
        self.root
    }

    pub fn ns(&self) -> (ns: &NodeTable)
        ensures
            ns@ == self@.nodes,
    {
        self.ns
    }

    pub fn topology(&self) -> (topology: &TreeTopology)
        ensures
            *topology == self@.topology,
    {
        self.topology
    }

    pub fn maybe_ambiguous(&self) -> (b: bool)
        ensures
            b == self@.maybe_ambiguous,
    {
        self.maybe_ambiguous
    }

    pub fn report_performance(&self) -> (b: bool)
        ensures
            b == self.reports(),
    {
        self.report_performance
    }

    /// Node `i` as a goal, if it is one.
    pub fn goal(&self, i: I) -> (goal: Option<Goal<'_>>)
        requires
            self@.in_table(i),
        ensures
            goal is Some == self@.is_goal(i),
            goal matches Some(g) ==> g.index() == i && g.tree() == self@,
    {
        match self.ns.get(i) {
            N::R { source, goal, result } => Some(
                Goal { idx: i, result: *result, tree: self, source: *source, goal },
            ),
            N::C { .. } => None,
        }
    }

    /// Node `i` as a candidate, if it is one.
    pub fn candidate(&self, i: I) -> (candidate: Option<Candidate<'_>>)
        requires
            self@.in_table(i),
        ensures
            candidate is Some == self@.is_candidate(i),
            candidate matches Some(c) ==> c.index() == i && c.tree() == self@,
    {
        match self.ns.get(i) {
            N::C { kind, result, retain } => Some(
                Candidate { idx: i, retain: *retain, result: *result, tree: self, kind },
            ),
            N::R { .. } => None,
        }
    }
}

} // verus!
