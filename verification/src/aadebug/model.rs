//! What a search tree means: which sets of goals its reduction names.

use vstd::prelude::*;
use crate::aadebug::dnf::{and_all, or_all};
use crate::aadebug::kind::{classify_spec, momentum_of, GoalKind};
use crate::aadebug::retain::{source_cap, Origin};
use crate::aadebug::tree::{I, N};
use crate::proof_tree::topology::TreeTopology;

verus! {

/// A search tree as a value: the node table, the edges, the root and the
/// policy on ambiguity.
pub struct Tree {
    pub root: I,
    pub nodes: Seq<N>,
    pub topology: TreeTopology,
    pub maybe_ambiguous: bool,
}

/// Whether the parts make a search tree: the edges form a forest over the
/// node table, the root is a goal, and goals and candidates alternate along
/// every edge.
pub open spec fn well_formed(root: I, nodes: Seq<N>, topology: TreeTopology) -> bool {
    &&& topology.wf()
    &&& topology.slots() <= nodes.len()
    &&& root.0 < nodes.len()
    &&& nodes[root.0 as int] is R
    &&& forall|i: I, k: int|
        0 <= k < topology.children_spec(i).len() ==> (nodes[i.0 as int] is C) != (nodes[(
            #[trigger] topology.children_spec(i)[k]).0 as int] is C)
}

impl Tree {
    pub open spec fn in_table(self, i: I) -> bool {
        i.0 < self.nodes.len()
    }

    pub open spec fn node(self, i: I) -> N {
        self.nodes[i.0 as int]
    }

    pub open spec fn is_goal(self, i: I) -> bool {
        self.in_table(i) && self.node(i) is R
    }

    pub open spec fn is_candidate(self, i: I) -> bool {
        self.in_table(i) && self.node(i) is C
    }

    pub open spec fn children(self, i: I) -> Seq<I> {
        self.topology.children_spec(i)
    }

    pub open spec fn depth(self, i: I) -> nat {
        self.topology.depth_spec(i)
    }

    pub open spec fn wf(self) -> bool {
        well_formed(self.root, self.nodes, self.topology)
    }

    /// A goal whose failure has to be explained.
    pub open spec fn failing(self, g: I) -> bool {
        self.is_goal(g) && self.node(g).result_spec().is_failure(self.maybe_ambiguous)
    }

    /// A candidate that is worth looking into.
    pub open spec fn interesting(self, c: I) -> bool {
        self.is_candidate(c) && self.node(c)->retain
    }

    /// The test that picks the interesting ones among candidates.
    pub open spec fn picks(self) -> spec_fn(I) -> bool {
        |c: I| self.interesting(c)
    }

    /// The interesting candidates of goal `g`, in order.
    pub open spec fn interesting_candidates(self, g: I) -> Seq<I> {
        self.children(g).filter(self.picks())
    }

    /// What the retention filter reads of subgoal `s`.
    pub open spec fn origin(self, s: I) -> Origin {
        Origin {
            failed: self.failing(s),
            source: match self.node(s) {
                N::R { source, .. } => source,
                N::C { .. } => 0,
            },
        }
    }

    pub open spec fn origins(self, c: I) -> Seq<Origin> {
        Seq::new(self.children(c).len(), |k: int| self.origin(self.children(c)[k]))
    }

    /// How many leading subgoals of candidate `c` the retention filter keeps.
    pub open spec fn kept(self, c: I) -> nat {
        source_cap(self.origins(c))
    }

    /// The subgoals of candidate `c` that the retention filter keeps.
    pub open spec fn source_subgoals(self, c: I) -> Seq<I> {
        self.children(c).take(self.kept(c) as int)
    }

    /// How far below the deepest possible level node `i` lies; it grows
    /// towards the root.
    pub open spec fn height(self, i: I) -> int {
        usize::MAX - self.depth(i)
    }

    /// The correction sets of goal `g`: none if it did not fail; itself if
    /// no candidate below it explains the failure; else those of all its
    /// explaining candidates.
    pub open spec fn goal_dnf(self, g: I) -> Option<Seq<Seq<I>>>
        decreases self.height(g), 1int, 0int,
    {
        if !self.wf() || !self.failing(g) {
            None
        } else {
            let nested = self.nested_dnfs(g, self.children(g).len());
            if nested.len() == 0 {
                Some(seq![seq![g]])
            } else {
                Some(or_all(nested))
            }
        }
    }

    /// The correction sets of those among the first `k` candidates of `g`
    /// that are interesting and explain a failure.
    pub open spec fn nested_dnfs(self, g: I, k: nat) -> Seq<Seq<Seq<I>>>
        decreases self.height(g), 0int, k,
    {
        if !self.wf() || k == 0 || k > self.children(g).len() {
            Seq::empty()
        } else {
            let before = self.nested_dnfs(g, (k - 1) as nat);
            let c = self.children(g)[k - 1];
            if self.interesting(c) {
                match self.candidate_dnf(c) {
                    Some(d) => before.push(d),
                    None => before,
                }
            } else {
                before
            }
        }
    }

    /// The correction sets of candidate `c`: none if it succeeded or if no
    /// subgoal that was kept failed; else one set of each such subgoal,
    /// joined in every combination.
    pub open spec fn candidate_dnf(self, c: I) -> Option<Seq<Seq<I>>>
        decreases self.height(c), 1int, 0int,
    {
        if !self.wf() || !self.is_candidate(c) || self.node(c).result_spec() is Yes {
            None
        } else {
            and_all(self.subgoal_dnfs(c, self.kept(c)))
        }
    }

    /// The correction sets of those among the first `k` subgoals of `c`
    /// that failed.
    pub open spec fn subgoal_dnfs(self, c: I, k: nat) -> Seq<Seq<Seq<I>>>
        decreases self.height(c), 0int, k,
    {
        if !self.wf() || k == 0 || k > self.children(c).len() {
            Seq::empty()
        } else {
            let before = self.subgoal_dnfs(c, (k - 1) as nat);
            let s = self.children(c)[k - 1];
            match self.goal_dnf(s) {
                Some(d) => before.push(d),
                None => before,
            }
        }
    }

    /// The correction sets of those among the candidates `cs` that explain
    /// a failure.
    pub open spec fn explained(self, cs: Seq<I>) -> Seq<Seq<Seq<I>>>
        decreases cs.len(),
    {
        if cs.len() == 0 {
            Seq::empty()
        } else {
            let before = self.explained(cs.drop_last());
            match self.candidate_dnf(cs.last()) {
                Some(d) => before.push(d),
                None => before,
            }
        }
    }

    /// The correction sets below goal `g` are those of its interesting
    /// candidates.
    pub proof fn lemma_nested_explained(self, g: I, k: nat)
        requires
            self.wf(),
            k <= self.children(g).len(),
        ensures
            self.nested_dnfs(g, k) == self.explained(
                self.children(g).take(k as int).filter(self.picks()),
            ),
        decreases k,
    {
        reveal(Seq::filter);
        let upto = self.children(g).take(k as int);
        if k > 0 {
            self.lemma_nested_explained(g, (k - 1) as nat);
            assert(upto.drop_last() =~= self.children(g).take(k - 1));
            assert(upto.last() == self.children(g)[k - 1]);
            let c = upto.last();
            let picked = upto.filter(self.picks());
            if self.interesting(c) {
                assert(picked == upto.drop_last().filter(self.picks()).push(c));
                assert(picked.drop_last() =~= upto.drop_last().filter(self.picks()));
                assert(picked.last() == c);
            }
        }
    }

    /// A candidate that explains a failure: it is interesting, it did not
    /// succeed, and one of the subgoals that were kept of it failed.
    pub open spec fn explains(self, c: I) -> bool {
        &&& self.interesting(c)
        &&& !(self.node(c).result_spec() is Yes)
        &&& exists|k: int|
            0 <= k < self.kept(c) && k < self.children(c).len() && self.failing(
                #[trigger] self.children(c)[k],
            )
    }

    /// Whether goal `g` would hold once the goals in `fixed` were repaired.
    /// A goal that needs no explanation holds. A failed goal without an
    /// explaining candidate holds if it is repaired itself; any other holds
    /// if one of its explaining candidates does.
    pub open spec fn goal_holds(self, g: I, fixed: Set<I>) -> bool
        decreases self.height(g), 1int,
    {
        if !self.wf() || !self.failing(g) {
            true
        } else if exists|k: int|
            0 <= k < self.children(g).len() && self.explains(#[trigger] self.children(g)[k]) {
            exists|k: int|
                0 <= k < self.children(g).len() && self.explains(#[trigger] self.children(g)[k])
                    && self.candidate_holds(self.children(g)[k], fixed)
        } else {
            fixed.contains(g)
        }
    }

    /// Whether candidate `c` would hold once the goals in `fixed` were
    /// repaired: whether every subgoal that was kept of it would.
    pub open spec fn candidate_holds(self, c: I, fixed: Set<I>) -> bool
        decreases self.height(c), 0int,
    {
        self.wf() ==> forall|k: int|
            0 <= k < self.kept(c) && k < self.children(c).len() ==> self.goal_holds(
                #[trigger] self.children(c)[k],
                fixed,
            )
    }

    /// The test for goals that have to be explained.
    pub open spec fn fails(self) -> spec_fn(I) -> bool {
        |g: I| self.failing(g)
    }

    /// The predicate of goal `g`.
    pub open spec fn predicate(self, g: I) -> crate::aadebug::predicate::PredicateKind {
        self.node(g)->goal
    }

    /// The category of goal `g`.
    pub open spec fn kind_of(self, g: I) -> GoalKind {
        classify_spec(self.predicate(g))
    }

    /// The categories of the goals of a correction set, in its order.
    pub open spec fn kinds(self, and: Seq<I>) -> Seq<GoalKind> {
        Seq::new(and.len(), |k: int| self.kind_of(and[k]))
    }

    /// The summed cost of repairing the goals of a correction set.
    pub open spec fn momentum(self, and: Seq<I>) -> nat {
        momentum_of(self.kinds(and))
    }

    /// The depth of the deepest goal of a correction set; zero for the
    /// empty set.
    pub open spec fn velocity(self, and: Seq<I>) -> nat
        decreases and.len(),
    {
        if and.len() == 0 {
            0
        } else {
            let rest = self.velocity(and.drop_last());
            if self.depth(and.last()) > rest {
                self.depth(and.last())
            } else {
                rest
            }
        }
    }

    /// Whether a correction set can be scored: its members are goals that
    /// did not succeed, and the score fits a machine word.
    pub open spec fn weighable(self, and: Seq<I>) -> bool {
        &&& forall|k: int|
            0 <= k < and.len() ==> self.is_goal(#[trigger] and[k]) && !(self.node(
                and[k],
            ).result_spec() is Yes)
        &&& self.momentum(and) <= usize::MAX
    }

    /// The goal from which goal `g` is reached over a candidate that is not
    /// a builtin impl, if there is one.
    pub open spec fn next_ancestor(self, g: I) -> Option<I> {
        match self.topology.parent_spec(g) {
            Some(p) => match self.node(p) {
                N::C { kind, .. } => if kind.is_builtin() {
                    None
                } else {
                    self.topology.parent_spec(p)
                },
                N::R { .. } => None,
            },
            None => None,
        }
    }

    /// The highest goal that is reached from goal `g` without passing a
    /// builtin impl.
    pub open spec fn last_ancestor_pre_builtin(self, g: I) -> I
        decreases self.depth(g),
    {
        match self.next_ancestor(g) {
            Some(above) => if self.depth(above) < self.depth(g) {
                self.last_ancestor_pre_builtin(above)
            } else {
                g
            },
            None => g,
        }
    }

    /// The correction sets of the tree: those of its root, and none at all
    /// where the root needs no explanation.
    pub open spec fn dnf(self) -> Seq<Seq<I>> {
        match self.goal_dnf(self.root) {
            Some(d) => d,
            None => Seq::empty(),
        }
    }
}

} // verus!
