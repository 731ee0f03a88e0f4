//! Who is whose parent in a search tree, and how deep each node lies.

use vstd::prelude::*;
use crate::proof_tree::ProofNodeIdx;

verus! {

/// The edges of a forest over node indices. Every node has a list of
/// children in the order in which they were added, at most one parent, and a
/// depth: zero for a node without a parent, one more than its parent's
/// otherwise. A node that was never mentioned has no parent and no children.
pub struct TreeTopology {
    parent: Vec<Option<ProofNodeIdx>>,
    children: Vec<Vec<ProofNodeIdx>>,
    depth: Vec<usize>,
}

impl TreeTopology {
    /// One more than the largest index that an edge mentions; zero without edges.
    pub closed spec fn slots(&self) -> nat {
        self.parent@.len()
    }

    pub closed spec fn parent_spec(&self, i: ProofNodeIdx) -> Option<ProofNodeIdx> {
        if i.0 < self.parent@.len() {
            self.parent@[i.0 as int]
        } else {
            None
        }
    }

    pub closed spec fn children_spec(&self, i: ProofNodeIdx) -> Seq<ProofNodeIdx> {
        if i.0 < self.children@.len() {
            self.children@[i.0 as int]@
        } else {
            Seq::empty()
        }
    }

    pub closed spec fn depth_spec(&self, i: ProofNodeIdx) -> nat {
        if i.0 < self.depth@.len() {
            self.depth@[i.0 as int] as nat
        } else {
            0
        }
    }

    /// What makes the edges a forest with correct depths.
    pub open spec fn wf(&self) -> bool {
        &&& forall|i: ProofNodeIdx, k: int|
            0 <= k < self.children_spec(i).len() ==> {
                let c = #[trigger] self.children_spec(i)[k];
                &&& i.0 < self.slots()
                &&& c.0 < self.slots()
                &&& self.parent_spec(c) == Some(i)
                &&& self.depth_spec(c) == self.depth_spec(i) + 1
            }
        &&& forall|c: ProofNodeIdx|
            (#[trigger] self.parent_spec(c)) matches Some(p) ==> self.children_spec(p).contains(c)
        &&& forall|c: ProofNodeIdx|
            (#[trigger] self.parent_spec(c)) is None ==> self.depth_spec(c) == 0
        &&& forall|i: ProofNodeIdx| (#[trigger] self.children_spec(i)).no_duplicates()
        &&& forall|i: ProofNodeIdx| (#[trigger] self.depth_spec(i)) <= usize::MAX
    }

    #[verifier::type_invariant]
    closed spec fn inv(&self) -> bool {
        &&& self.parent@.len() == self.children@.len()
        &&& self.parent@.len() == self.depth@.len()
        &&& self.wf()
    }

    /// The forest without edges.
    pub fn new() -> (t: TreeTopology)
        ensures
            t.slots() == 0,
            forall|i: ProofNodeIdx| t.parent_spec(i) is None,
            forall|i: ProofNodeIdx| t.children_spec(i).len() == 0,
            forall|i: ProofNodeIdx| t.depth_spec(i) == 0,
    {
        TreeTopology { parent: Vec::new(), children: Vec::new(), depth: Vec::new() }
    }

    /// Makes `to` a child of `from`: the last of its children, one level
    /// below it. `to` must be new to the forest, so that it can still be
    /// placed at any depth.
    pub fn add(&mut self, from: ProofNodeIdx, to: ProofNodeIdx)
        requires
            from != to,
            old(self).parent_spec(to) is None,
            old(self).children_spec(to).len() == 0,
            old(self).depth_spec(from) < usize::MAX,
            from.0 < usize::MAX,
            to.0 < usize::MAX,
        ensures
            final(self).parent_spec(to) == Some(from),
            final(self).children_spec(from) == old(self).children_spec(from).push(to),
            final(self).depth_spec(to) == old(self).depth_spec(from) + 1,
            forall|i: ProofNodeIdx|
                i != to ==> final(self).parent_spec(i) == old(self).parent_spec(i)
                    && final(self).depth_spec(i) == old(self).depth_spec(i),
            forall|i: ProofNodeIdx|
                i != from ==> final(self).children_spec(i) == old(self).children_spec(i),
            final(self).slots() >= old(self).slots(),
            final(self).slots() > from.0,
            final(self).slots() > to.0,
            final(self).slots() == old(self).slots() || final(self).slots() == from.0 + 1
                || final(self).slots() == to.0 + 1,
    {
        proof {
            use_type_invariant(&*self);
        }
        let ghost before = *self;
        let mut taken = TreeTopology::new();
        core::mem::swap(self, &mut taken);
        let TreeTopology { mut parent, mut children, mut depth } = taken;
        let top: usize = if from.0 < to.0 {
            to.0
        } else {
            from.0
        };
        while parent.len() <= top
            invariant
                parent@.len() == children@.len(),
                parent@.len() == depth@.len(),
                before.parent@.len() == before.children@.len(),
                before.parent@.len() == before.depth@.len(),
                before.parent@.len() <= parent@.len(),
                parent@.len() <= before.parent@.len() || parent@.len() <= top + 1,
                top < usize::MAX,
                forall|j: int| 0 <= j < before.parent@.len() ==> parent@[j] == before.parent@[j],
                forall|j: int|
                    0 <= j < before.parent@.len() ==> children@[j]@ == before.children@[j]@,
                forall|j: int| 0 <= j < before.parent@.len() ==> depth@[j] == before.depth@[j],
                forall|j: int| before.parent@.len() <= j < parent@.len() ==> parent@[j] is None,
                forall|j: int|
                    before.parent@.len() <= j < parent@.len() ==> children@[j]@.len() == 0,
                forall|j: int| before.parent@.len() <= j < parent@.len() ==> depth@[j] == 0,
            decreases top + 1 - parent.len(),
        {
            parent.push(None);
            children.push(Vec::new());
            depth.push(0);
        }
        let level: usize = depth[from.0] + 1;
        parent.set(to.0, Some(from));
        depth.set(to.0, level);
        let mut siblings: Vec<ProofNodeIdx> = children[from.0].clone();
        assert(siblings@ =~= before.children_spec(from));
        siblings.push(to);
        children.set(from.0, siblings);
        let ghost grown = TreeTopology { parent, children, depth };
        proof {
            assert forall|i: ProofNodeIdx| i != to implies grown.parent_spec(i)
                == before.parent_spec(i) && grown.depth_spec(i) == before.depth_spec(i) by {}
            assert forall|i: ProofNodeIdx| i != from implies grown.children_spec(i)
                == before.children_spec(i) by {
                assert(grown.children_spec(i) =~= before.children_spec(i));
            }
            assert(grown.children_spec(from) =~= before.children_spec(from).push(to));
            lemma_add_keeps_wf(before, grown, from, to);
        }
        *self = TreeTopology { parent, children, depth };
    }

    /// What the type guarantees of every topology.
    pub fn check_wf(&self)
        ensures
            self.wf(),
    {
        proof {
            use_type_invariant(self);
        }
    }

    pub fn len(&self) -> (n: usize)
        ensures
            n == self.slots(),
    {
        self.parent.len()
    }

    pub fn parent(&self, i: ProofNodeIdx) -> (p: Option<ProofNodeIdx>)
        ensures
            p == self.parent_spec(i),
    {
        if i.0 < self.parent.len() {
            self.parent[i.0]
        } else {
            None
        }
    }

    /// The children of `i`, in the order in which they were added.
    pub fn children(&self, i: ProofNodeIdx) -> (cs: Vec<ProofNodeIdx>)
        ensures
            cs@ == self.children_spec(i),
    {
        if i.0 < self.children.len() {
            let cs = self.children[i.0].clone();
            assert(cs@ =~= self.children@[i.0 as int]@);
            cs
        } else {
            Vec::new()
        }
    }

    pub fn depth(&self, i: ProofNodeIdx) -> (d: usize)
        ensures
            d == self.depth_spec(i),
    {
        if i.0 < self.depth.len() {
            self.depth[i.0]
        } else {
            0
        }
    }
}

/// A forest stays one when a node that is new to it becomes the last child
/// of another node.
proof fn lemma_add_keeps_wf(
    before: TreeTopology,
    after: TreeTopology,
    from: ProofNodeIdx,
    to: ProofNodeIdx,
)
    requires
        before.wf(),
        from != to,
        before.parent_spec(to) is None,
        before.children_spec(to).len() == 0,
        before.depth_spec(from) < usize::MAX,
        after.parent_spec(to) == Some(from),
        after.children_spec(from) == before.children_spec(from).push(to),
        after.depth_spec(to) == before.depth_spec(from) + 1,
        forall|i: ProofNodeIdx|
            i != to ==> after.parent_spec(i) == before.parent_spec(i) && after.depth_spec(i)
                == before.depth_spec(i),
        forall|i: ProofNodeIdx| i != from ==> after.children_spec(i) == before.children_spec(i),
        after.slots() >= before.slots(),
        after.slots() > from.0,
        after.slots() > to.0,
    ensures
        after.wf(),
{
    // `to` was nobody's child before.
    assert forall|i: ProofNodeIdx| !before.children_spec(i).contains(to) by {
        if before.children_spec(i).contains(to) {
            let k = choose|k: int|
                0 <= k < before.children_spec(i).len() && before.children_spec(i)[k] == to;
            assert(before.parent_spec(before.children_spec(i)[k]) == Some(i));
        }
    }
    assert forall|i: ProofNodeIdx, k: int| 0 <= k < after.children_spec(i).len() implies {
        let c = #[trigger] after.children_spec(i)[k];
        &&& i.0 < after.slots()
        &&& c.0 < after.slots()
        &&& after.parent_spec(c) == Some(i)
        &&& after.depth_spec(c) == after.depth_spec(i) + 1
    } by {
        let c = after.children_spec(i)[k];
        if i == from && k == before.children_spec(from).len() {
            assert(c == to);
        } else {
            assert(c == before.children_spec(i)[k]);
            assert(before.children_spec(i).contains(c));
            assert(c != to);
            assert(i != to);
        }
    }
    assert forall|c: ProofNodeIdx| (#[trigger] after.parent_spec(c)) is Some implies after.children_spec(
        after.parent_spec(c)->0,
    ).contains(c) by {
        let p = after.parent_spec(c)->0;
        if c == to {
            assert(after.children_spec(from)[before.children_spec(from).len() as int] == to);
        } else {
            assert(before.children_spec(p).contains(c));
            let k = choose|k: int|
                0 <= k < before.children_spec(p).len() && before.children_spec(p)[k] == c;
            assert(after.children_spec(p)[k] == c);
        }
    }
    assert forall|c: ProofNodeIdx| (#[trigger] after.parent_spec(c)) is None implies after.depth_spec(
        c,
    ) == 0 by {}
    assert forall|i: ProofNodeIdx| (#[trigger] after.children_spec(i)).no_duplicates() by {
        assert(before.children_spec(i).no_duplicates());
    }
    assert forall|i: ProofNodeIdx| (#[trigger] after.depth_spec(i)) <= usize::MAX by {
        assert(before.depth_spec(i) <= usize::MAX);
    }
}

} // verus!
