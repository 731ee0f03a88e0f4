//! The index space of a search tree and the shape laid over it.

pub mod topology;

use vstd::prelude::*;

verus! {

/// The handle of a node: its position in the tree's dense node table.
#[derive(Clone, Copy, Debug, PartialEq, Eq, PartialOrd, Ord, Hash, Structural)]
pub struct ProofNodeIdx(pub usize);

impl index_vec::Idx for ProofNodeIdx {
    fn from_usize(idx: usize) -> (i: Self)
        ensures
            i.0 == idx,
    {
        ProofNodeIdx(idx)
    }

    fn index(self) -> (n: usize)
        ensures
            n == self.0,
    {
        self.0
    }
}

} // verus!
