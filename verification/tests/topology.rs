use argus::proof_tree::topology::TreeTopology;
use argus::proof_tree::ProofNodeIdx;
use index_vec::Idx;

fn i(n: usize) -> ProofNodeIdx {
    ProofNodeIdx(n)
}

#[test]
fn a_new_topology_has_no_edges() {
    let t = TreeTopology::new();
    assert_eq!(t.len(), 0);
    assert_eq!(t.parent(i(0)), None);
    assert!(t.children(i(5)).is_empty());
    assert_eq!(t.depth(i(3)), 0);
}

#[test]
fn edges_give_parents_children_and_depths() {
    let mut t = TreeTopology::new();
    t.add(i(0), i(2));
    t.add(i(0), i(1));
    t.add(i(2), i(5));
    t.add(i(5), i(3));
    assert_eq!(t.len(), 6);
    assert_eq!(t.children(i(0)), vec![i(2), i(1)]);
    assert_eq!(t.children(i(2)), vec![i(5)]);
    assert!(t.children(i(1)).is_empty());
    assert_eq!(t.parent(i(0)), None);
    assert_eq!(t.parent(i(1)), Some(i(0)));
    assert_eq!(t.parent(i(5)), Some(i(2)));
    assert_eq!(t.parent(i(3)), Some(i(5)));
    assert_eq!(t.parent(i(4)), None);
    assert_eq!(
        [0, 1, 2, 3, 4, 5].map(|n| t.depth(i(n))),
        [0, 1, 1, 3, 0, 2]
    );
}

#[test]
fn an_index_is_its_number() {
    assert_eq!(ProofNodeIdx::from_usize(7), i(7));
    assert_eq!(i(7).index(), 7);
    assert!(i(1) < i(2));
}
