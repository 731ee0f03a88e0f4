use argus::aadebug::dnf::{And, Dnf};
use argus::proof_tree::ProofNodeIdx;

fn and(goals: &[usize]) -> And {
    let mut out = And::single(ProofNodeIdx(goals[0]));
    for g in &goals[1..] {
        out = out.distribute(&And::single(ProofNodeIdx(*g)));
    }
    out
}

fn dnf(conjuncts: &[&[usize]]) -> Dnf {
    let singles: Vec<Dnf> = conjuncts
        .iter()
        .map(|c| Dnf::and(c.iter().map(|g| Dnf::single(ProofNodeIdx(*g))).collect()).unwrap())
        .collect();
    Dnf::or(singles).unwrap()
}

fn sets(dnf: &Dnf) -> Vec<Vec<usize>> {
    dnf.iter_conjuncts().iter().map(|and| and.iter().iter().map(|i| i.0).collect()).collect()
}

#[test]
fn a_conjunct_names_each_goal_once() {
    let a = and(&[3, 1, 3, 2, 1]);
    assert_eq!(a.len(), 3);
    assert_eq!(a.iter().iter().map(|i| i.0).collect::<Vec<_>>(), vec![3, 1, 2]);
    assert_eq!(a.get(1), ProofNodeIdx(1));
    assert!(a.contains(ProofNodeIdx(2)));
    assert!(!a.contains(ProofNodeIdx(4)));
    let joined = and(&[1, 2]).distribute(&and(&[2, 3, 1, 4]));
    assert_eq!(joined.iter().iter().map(|i| i.0).collect::<Vec<_>>(), vec![1, 2, 3, 4]);
}

#[test]
fn single_is_one_set_of_one_goal() {
    let d = Dnf::single(ProofNodeIdx(7));
    assert_eq!(sets(&d), vec![vec![7]]);
    assert_eq!(d.len(), 1);
    assert!(!d.is_empty());
    assert!(Dnf::default().is_empty());
    assert_eq!(sets(&d.clone()), vec![vec![7]]);
}

#[test]
fn or_concatenates_and_keeps_duplicates() {
    let d = Dnf::or(vec![dnf(&[&[1], &[2, 3]]), Dnf::default(), dnf(&[&[1]])]).unwrap();
    assert_eq!(sets(&d), vec![vec![1], vec![2, 3], vec![1]]);
    assert!(Dnf::or(Vec::new()).unwrap().is_empty());
}

#[test]
fn and_is_the_cross_product() {
    let d = Dnf::and(vec![dnf(&[&[1], &[2]]), dnf(&[&[3], &[4]]), dnf(&[&[1, 5]])]).unwrap();
    assert_eq!(
        sets(&d),
        vec![vec![1, 3, 5], vec![1, 4, 5], vec![2, 3, 1, 5], vec![2, 4, 1, 5]]
    );
    assert_eq!(sets(&dnf(&[&[1], &[2]]).distribute(&dnf(&[&[3]]))), vec![vec![1, 3], vec![2, 3]]);
}

#[test]
fn and_of_nothing_is_nothing() {
    assert!(Dnf::and(Vec::new()).is_none());
    assert_eq!(sets(&Dnf::and(vec![dnf(&[&[1], &[2]])]).unwrap()), vec![vec![1], vec![2]]);
}

#[test]
fn and_with_an_empty_operand_is_empty() {
    let d = Dnf::and(vec![dnf(&[&[1], &[2]]), Dnf::default(), dnf(&[&[3]])]).unwrap();
    assert!(d.is_empty());
}
