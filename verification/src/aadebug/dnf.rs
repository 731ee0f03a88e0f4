//! Correction sets and their disjunctions.
//!
//! An [`And`] is a set of goals that have to be repaired together; a [`Dnf`]
//! lists alternative such sets. Both keep the order in which they were built.

use vstd::prelude::*;
use crate::aadebug::tree::I;

verus! {

/// `a`, followed by the members of `b` that are not yet among it, in order.
pub open spec fn join(a: Seq<I>, b: Seq<I>) -> Seq<I>
    decreases b.len(),
{
    if b.len() == 0 {
        a
    } else {
        let joined = join(a, b.drop_last());
        if joined.contains(b.last()) {
            joined
        } else {
            joined.push(b.last())
        }
    }
}

/// One conjunct joined with each conjunct of `rhs`, in the order of `rhs`.
pub open spec fn distribute_one(a: Seq<I>, rhs: Seq<Seq<I>>) -> Seq<Seq<I>> {
    Seq::new(rhs.len(), |j: int| join(a, rhs[j]))
}

/// Every conjunct of `lhs` joined with every conjunct of `rhs`; conjuncts of
/// `lhs` vary slowest.
pub open spec fn distribute(lhs: Seq<Seq<I>>, rhs: Seq<Seq<I>>) -> Seq<Seq<I>>
    decreases lhs.len(),
{
    if lhs.len() == 0 {
        Seq::empty()
    } else {
        distribute(lhs.drop_last(), rhs) + distribute_one(lhs.last(), rhs)
    }
}

/// The conjuncts of all operands, one operand after the other.
pub open spec fn or_all(operands: Seq<Seq<Seq<I>>>) -> Seq<Seq<I>>
    decreases operands.len(),
{
    if operands.len() == 0 {
        Seq::empty()
    } else {
        or_all(operands.drop_last()) + operands.last()
    }
}

/// The operands distributed over each other from left to right; nothing
/// where there is no operand.
pub open spec fn and_all(operands: Seq<Seq<Seq<I>>>) -> Option<Seq<Seq<I>>>
    decreases operands.len(),
{
    if operands.len() == 0 {
        None
    } else {
        match and_all(operands.drop_last()) {
            None => Some(operands.last()),
            Some(lhs) => Some(distribute(lhs, operands.last())),
        }
    }
}

/// Whether every goal of the conjunct is among `fixed`.
pub open spec fn within(a: Seq<I>, fixed: Set<I>) -> bool {
    forall|j: int| 0 <= j < a.len() ==> fixed.contains(#[trigger] a[j])
}

/// Whether some conjunct of the disjunction lies within `fixed`: whether
/// repairing the goals in `fixed` carries out one of the alternatives.
pub open spec fn satisfied(dnf: Seq<Seq<I>>, fixed: Set<I>) -> bool {
    exists|k: int| 0 <= k < dnf.len() && within(#[trigger] dnf[k], fixed)
}

/// A joined conjunct names the goals of both, and no other.
pub proof fn lemma_join_members(a: Seq<I>, b: Seq<I>)
    ensures
        forall|i: I| join(a, b).contains(i) <==> a.contains(i) || b.contains(i),
        a.no_duplicates() ==> join(a, b).no_duplicates(),
        a.len() <= join(a, b).len(),
    decreases b.len(),
{
    if b.len() == 0 {
    } else {
        lemma_join_members(a, b.drop_last());
        let joined = join(a, b.drop_last());
        assert forall|i: I| join(a, b).contains(i) <==> a.contains(i) || b.contains(i) by {
            if b.contains(i) {
                let at = choose|at: int| 0 <= at < b.len() && b[at] == i;
                if at < b.len() - 1 {
                    assert(b.drop_last()[at] == i);
                    assert(b.drop_last().contains(i));
                }
            }
            if b.drop_last().contains(i) {
                let at = choose|at: int| 0 <= at < b.drop_last().len() && b.drop_last()[at] == i;
                assert(b[at] == i);
            }
            if joined.contains(i) {
                let at = choose|at: int| 0 <= at < joined.len() && joined[at] == i;
                if !joined.contains(b.last()) {
                    assert(joined.push(b.last())[at] == i);
                }
            }
            if !joined.contains(b.last()) {
                assert(joined.push(b.last())[joined.len() as int] == b.last());
                if join(a, b).contains(i) {
                    let at = choose|at: int| 0 <= at < join(a, b).len() && join(a, b)[at] == i;
                    if at < joined.len() {
                        assert(joined[at] == i);
                    } else {
                        assert(i == b.last());
                        assert(b[b.len() - 1] == i);
                    }
                }
            }
            assert(b[b.len() - 1] == b.last());
        }
    }
}

/// Repairing a joined conjunct repairs both of its parts, and the reverse.
pub proof fn lemma_join_within(a: Seq<I>, b: Seq<I>, fixed: Set<I>)
    ensures
        within(join(a, b), fixed) <==> within(a, fixed) && within(b, fixed),
{
    lemma_join_members(a, b);
    let joined = join(a, b);
    if within(joined, fixed) {
        assert forall|j: int| 0 <= j < a.len() implies fixed.contains(#[trigger] a[j]) by {
            assert(a.contains(a[j]));
            let at = choose|at: int| 0 <= at < joined.len() && joined[at] == a[j];
        }
        assert forall|j: int| 0 <= j < b.len() implies fixed.contains(#[trigger] b[j]) by {
            assert(b.contains(b[j]));
            let at = choose|at: int| 0 <= at < joined.len() && joined[at] == b[j];
        }
    }
    if within(a, fixed) && within(b, fixed) {
        assert forall|j: int| 0 <= j < joined.len() implies fixed.contains(#[trigger] joined[j]) by {
            assert(joined.contains(joined[j]));
            if a.contains(joined[j]) {
                let at = choose|at: int| 0 <= at < a.len() && a[at] == joined[j];
            } else {
                let at = choose|at: int| 0 <= at < b.len() && b[at] == joined[j];
            }
        }
    }
}

/// One of two lists of alternatives is carried out exactly when one
/// alternative of either is.
pub proof fn lemma_satisfied_add(x: Seq<Seq<I>>, y: Seq<Seq<I>>, fixed: Set<I>)
    ensures
        satisfied(x + y, fixed) <==> satisfied(x, fixed) || satisfied(y, fixed),
{
    let both = x + y;
    if satisfied(both, fixed) {
        let k = choose|k: int| 0 <= k < both.len() && within(#[trigger] both[k], fixed);
        if k < x.len() {
            assert(within(x[k], fixed));
        } else {
            assert(within(y[k - x.len()], fixed));
        }
    }
    if satisfied(x, fixed) {
        let k = choose|k: int| 0 <= k < x.len() && within(#[trigger] x[k], fixed);
        assert(within(both[k], fixed));
    }
    if satisfied(y, fixed) {
        let k = choose|k: int| 0 <= k < y.len() && within(#[trigger] y[k], fixed);
        assert(within(both[k + x.len()], fixed));
    }
}

/// Distributing carries out both sides: an alternative of the result is
/// repaired exactly when one of each side is.
pub proof fn lemma_distribute_satisfied(lhs: Seq<Seq<I>>, rhs: Seq<Seq<I>>, fixed: Set<I>)
    ensures
        satisfied(distribute(lhs, rhs), fixed) <==> satisfied(lhs, fixed) && satisfied(rhs, fixed),
        distribute(lhs, rhs).len() == lhs.len() * rhs.len(),
    decreases lhs.len(),
{
    if lhs.len() == 0 {
        assert(lhs.len() * rhs.len() == 0) by (nonlinear_arith)
            requires
                lhs.len() == 0,
        ;
    } else {
        let init = lhs.drop_last();
        let row = distribute_one(lhs.last(), rhs);
        lemma_distribute_satisfied(init, rhs, fixed);
        lemma_satisfied_add(distribute(init, rhs), row, fixed);
        assert(lhs.len() * rhs.len() == init.len() * rhs.len() + rhs.len()) by (nonlinear_arith)
            requires
                lhs.len() == init.len() + 1,
        ;
        // The last row is carried out exactly when its conjunct and one of `rhs` are.
        if satisfied(row, fixed) {
            let j = choose|j: int| 0 <= j < row.len() && within(#[trigger] row[j], fixed);
            lemma_join_within(lhs.last(), rhs[j], fixed);
            assert(within(rhs[j], fixed));
            assert(within(lhs[lhs.len() - 1], fixed));
        }
        if satisfied(lhs, fixed) && satisfied(rhs, fixed) {
            let k = choose|k: int| 0 <= k < lhs.len() && within(#[trigger] lhs[k], fixed);
            let j = choose|j: int| 0 <= j < rhs.len() && within(#[trigger] rhs[j], fixed);
            if k < lhs.len() - 1 {
                assert(within(init[k], fixed));
            } else {
                lemma_join_within(lhs.last(), rhs[j], fixed);
                assert(within(row[j], fixed));
            }
        }
        if satisfied(init, fixed) {
            let k = choose|k: int| 0 <= k < init.len() && within(#[trigger] init[k], fixed);
            assert(within(lhs[k], fixed));
        }
    }
}

/// Any of the operands: an alternative of the result is repaired exactly
/// when one of some operand is. The result has no alternative exactly when
/// no operand has one.
pub proof fn lemma_or_all_satisfied(operands: Seq<Seq<Seq<I>>>, fixed: Set<I>)
    ensures
        satisfied(or_all(operands), fixed) <==> exists|k: int|
            0 <= k < operands.len() && satisfied(#[trigger] operands[k], fixed),
        or_all(operands).len() == 0 <==> forall|k: int|
            0 <= k < operands.len() ==> (#[trigger] operands[k]).len() == 0,
    decreases operands.len(),
{
    if operands.len() > 0 {
        let init = operands.drop_last();
        lemma_or_all_satisfied(init, fixed);
        lemma_satisfied_add(or_all(init), operands.last(), fixed);
        if exists|k: int| 0 <= k < init.len() && satisfied(#[trigger] init[k], fixed) {
            let k = choose|k: int| 0 <= k < init.len() && satisfied(#[trigger] init[k], fixed);
            assert(satisfied(operands[k], fixed));
        }
        if satisfied(operands.last(), fixed) {
            assert(satisfied(operands[operands.len() - 1], fixed));
        }
        if exists|k: int| 0 <= k < operands.len() && satisfied(#[trigger] operands[k], fixed) {
            let k = choose|k: int|
                0 <= k < operands.len() && satisfied(#[trigger] operands[k], fixed);
            if k < init.len() {
                assert(satisfied(init[k], fixed));
            }
        }
        if or_all(operands).len() == 0 {
            assert forall|k: int| 0 <= k < operands.len() implies (#[trigger] operands[k]).len()
                == 0 by {
                if k < init.len() {
                    assert(init[k].len() == 0);
                }
            }
        } else {
            if or_all(init).len() != 0 {
                let k = choose|k: int| 0 <= k < init.len() && (#[trigger] init[k]).len() != 0;
                assert(operands[k].len() != 0);
            } else {
                assert(operands[operands.len() - 1].len() != 0);
            }
        }
    }
}

/// All of the operands: there is a result exactly where there is an
/// operand, and an alternative of it is repaired exactly when one of every
/// operand is. The result has an alternative if every operand has one.
pub proof fn lemma_and_all_satisfied(operands: Seq<Seq<Seq<I>>>, fixed: Set<I>)
    ensures
        and_all(operands) is Some <==> operands.len() > 0,
        and_all(operands) matches Some(d) ==> (satisfied(d, fixed) <==> forall|k: int|
            0 <= k < operands.len() ==> satisfied(#[trigger] operands[k], fixed)),
        and_all(operands) matches Some(d) ==> ((forall|k: int|
            0 <= k < operands.len() ==> (#[trigger] operands[k]).len() > 0) ==> d.len() > 0),
    decreases operands.len(),
{
    if operands.len() > 0 {
        let init = operands.drop_last();
        let last = operands.last();
        lemma_and_all_satisfied(init, fixed);
        assert(operands[operands.len() - 1] == last);
        match and_all(init) {
            None => {
                assert(init.len() == 0);
            },
            Some(lhs) => {
                lemma_distribute_satisfied(lhs, last, fixed);
                let d = distribute(lhs, last);
                if satisfied(d, fixed) {
                    assert forall|k: int| 0 <= k < operands.len() implies satisfied(
                        #[trigger] operands[k],
                        fixed,
                    ) by {
                        if k < init.len() {
                            assert(satisfied(init[k], fixed));
                        }
                    }
                }
                if forall|k: int|
                    0 <= k < operands.len() ==> satisfied(#[trigger] operands[k], fixed) {
                    assert forall|k: int| 0 <= k < init.len() implies satisfied(
                        #[trigger] init[k],
                        fixed,
                    ) by {
                        assert(satisfied(operands[k], fixed));
                    }
                }
                if forall|k: int| 0 <= k < operands.len() ==> (#[trigger] operands[k]).len() > 0 {
                    assert forall|k: int| 0 <= k < init.len() implies (#[trigger] init[k]).len()
                        > 0 by {
                        assert(operands[k].len() > 0);
                    }
                    assert(lhs.len() * last.len() > 0) by (nonlinear_arith)
                        requires
                            lhs.len() > 0,
                            last.len() > 0,
                    ;
                }
            },
        }
    }
}

/// Whether `p` holds of every goal that the disjunction names.
pub open spec fn each_member(dnf: Seq<Seq<I>>, p: spec_fn(I) -> bool) -> bool {
    forall|k: int, j: int| 0 <= k < dnf.len() && 0 <= j < dnf[k].len() ==> p(#[trigger] dnf[k][j])
}

/// Distributing names no goal that neither side names.
pub proof fn lemma_distribute_members(lhs: Seq<Seq<I>>, rhs: Seq<Seq<I>>, p: spec_fn(I) -> bool)
    requires
        each_member(lhs, p),
        each_member(rhs, p),
    ensures
        each_member(distribute(lhs, rhs), p),
    decreases lhs.len(),
{
    if lhs.len() > 0 {
        let init = lhs.drop_last();
        let row = distribute_one(lhs.last(), rhs);
        assert(each_member(init, p)) by {
            assert forall|k: int, j: int| 0 <= k < init.len() && 0 <= j < init[k].len() implies p(
                #[trigger] init[k][j],
            ) by {
                assert(p(lhs[k][j]));
            }
        }
        lemma_distribute_members(init, rhs, p);
        let all = distribute(lhs, rhs);
        assert forall|k: int, j: int| 0 <= k < all.len() && 0 <= j < all[k].len() implies p(
            #[trigger] all[k][j],
        ) by {
            if k < distribute(init, rhs).len() {
                assert(p(distribute(init, rhs)[k][j]));
            } else {
                let at = k - distribute(init, rhs).len();
                let a = lhs.last();
                let b = rhs[at];
                assert(all[k] == join(a, b));
                lemma_join_members(a, b);
                let i = all[k][j];
                assert(join(a, b).contains(i));
                if a.contains(i) {
                    let w = choose|w: int| 0 <= w < a.len() && a[w] == i;
                    assert(p(lhs[lhs.len() - 1][w]));
                } else {
                    let w = choose|w: int| 0 <= w < b.len() && b[w] == i;
                    assert(p(rhs[at][w]));
                }
            }
        }
    }
}

/// The alternatives of any of the operands name no goal that no operand names.
pub proof fn lemma_or_all_members(operands: Seq<Seq<Seq<I>>>, p: spec_fn(I) -> bool)
    requires
        forall|k: int| 0 <= k < operands.len() ==> each_member(#[trigger] operands[k], p),
    ensures
        each_member(or_all(operands), p),
    decreases operands.len(),
{
    if operands.len() > 0 {
        let init = operands.drop_last();
        assert forall|k: int| 0 <= k < init.len() implies each_member(#[trigger] init[k], p) by {
            assert(each_member(operands[k], p));
        }
        lemma_or_all_members(init, p);
        let all = or_all(operands);
        let last = operands.last();
        assert(each_member(operands[operands.len() - 1], p));
        assert forall|k: int, j: int| 0 <= k < all.len() && 0 <= j < all[k].len() implies p(
            #[trigger] all[k][j],
        ) by {
            if k < or_all(init).len() {
                assert(p(or_all(init)[k][j]));
            } else {
                assert(p(last[k - or_all(init).len()][j]));
            }
        }
    }
}

/// The alternatives of all of the operands name no goal that no operand names.
pub proof fn lemma_and_all_members(operands: Seq<Seq<Seq<I>>>, p: spec_fn(I) -> bool)
    requires
        forall|k: int| 0 <= k < operands.len() ==> each_member(#[trigger] operands[k], p),
    ensures
        and_all(operands) matches Some(d) ==> each_member(d, p),
    decreases operands.len(),
{
    if operands.len() > 0 {
        let init = operands.drop_last();
        assert forall|k: int| 0 <= k < init.len() implies each_member(#[trigger] init[k], p) by {
            assert(each_member(operands[k], p));
        }
        lemma_and_all_members(init, p);
        assert(each_member(operands[operands.len() - 1], p));
        match and_all(init) {
            None => {},
            Some(lhs) => {
                lemma_distribute_members(lhs, operands.last(), p);
            },
        }
    }
}

/// Whether every conjunct names each of its goals once.
pub open spec fn each_distinct(dnf: Seq<Seq<I>>) -> bool {
    forall|k: int| 0 <= k < dnf.len() ==> (#[trigger] dnf[k]).no_duplicates()
}

/// Distributing keeps conjuncts free of repetition.
pub proof fn lemma_distribute_distinct(lhs: Seq<Seq<I>>, rhs: Seq<Seq<I>>)
    requires
        each_distinct(lhs),
    ensures
        each_distinct(distribute(lhs, rhs)),
    decreases lhs.len(),
{
    if lhs.len() > 0 {
        let init = lhs.drop_last();
        assert forall|k: int| 0 <= k < init.len() implies (#[trigger] init[k]).no_duplicates() by {
            assert(lhs[k].no_duplicates());
        }
        lemma_distribute_distinct(init, rhs);
        let all = distribute(lhs, rhs);
        assert forall|k: int| 0 <= k < all.len() implies (#[trigger] all[k]).no_duplicates() by {
            if k < distribute(init, rhs).len() {
                assert(distribute(init, rhs)[k].no_duplicates());
            } else {
                let at = k - distribute(init, rhs).len();
                assert(all[k] == join(lhs.last(), rhs[at]));
                assert(lhs[lhs.len() - 1].no_duplicates());
                lemma_join_members(lhs.last(), rhs[at]);
            }
        }
    }
}

/// The alternatives of any of the operands are free of repetition if
/// those of the operands are.
pub proof fn lemma_or_all_distinct(operands: Seq<Seq<Seq<I>>>)
    requires
        forall|k: int| 0 <= k < operands.len() ==> each_distinct(#[trigger] operands[k]),
    ensures
        each_distinct(or_all(operands)),
    decreases operands.len(),
{
    if operands.len() > 0 {
        let init = operands.drop_last();
        assert forall|k: int| 0 <= k < init.len() implies each_distinct(#[trigger] init[k]) by {
            assert(each_distinct(operands[k]));
        }
        lemma_or_all_distinct(init);
        let all = or_all(operands);
        assert(each_distinct(operands[operands.len() - 1]));
        assert forall|k: int| 0 <= k < all.len() implies (#[trigger] all[k]).no_duplicates() by {
            if k < or_all(init).len() {
                assert(or_all(init)[k].no_duplicates());
            } else {
                assert(operands.last()[k - or_all(init).len()].no_duplicates());
            }
        }
    }
}

/// The alternatives of all of the operands are free of repetition if those
/// of the operands are.
pub proof fn lemma_and_all_distinct(operands: Seq<Seq<Seq<I>>>)
    requires
        forall|k: int| 0 <= k < operands.len() ==> each_distinct(#[trigger] operands[k]),
    ensures
        and_all(operands) matches Some(d) ==> each_distinct(d),
    decreases operands.len(),
{
    if operands.len() > 0 {
        let init = operands.drop_last();
        assert forall|k: int| 0 <= k < init.len() implies each_distinct(#[trigger] init[k]) by {
            assert(each_distinct(operands[k]));
        }
        lemma_and_all_distinct(init);
        assert(each_distinct(operands[operands.len() - 1]));
        match and_all(init) {
            None => {},
            Some(lhs) => {
                lemma_distribute_distinct(lhs, operands.last());
            },
        }
    }
}

/// A set of goals, each named once, in the order in which they were added.
pub struct And {
    goals: Vec<I>,
}

impl View for And {
    type V = Seq<I>;

    closed spec fn view(&self) -> Seq<I> {
        self.goals@
    }
}

impl And {
    #[verifier::type_invariant]
    spec fn inv(&self) -> bool {
        self.goals@.no_duplicates()
    }

    /// The set that holds `i` alone.
    pub fn single(i: I) -> (and: And)
        ensures
            and@ == seq![i],
    {
        let mut goals: Vec<I> = Vec::new();
        goals.push(i);
        assert(goals@ =~= seq![i]);
        And { goals }
    }

    pub fn len(&self) -> (n: usize)
        ensures
            n == self@.len(),
    {
        self.goals.len()
    }

    /// The `k`-th member, in the order of insertion.
    pub fn get(&self, k: usize) -> (i: I)
        requires
            k < self@.len(),
        ensures
            i == self@[k as int],
    {
        self.goals[k]
    }

    /// The members, in the order of insertion.
    pub fn iter(&self) -> (goals: &Vec<I>)
        ensures
            goals@ == self@,
            goals@.no_duplicates(),
    {
        proof {
            use_type_invariant(self);
        }
        &self.goals
    }

    pub fn contains(&self, i: I) -> (b: bool)
        ensures
            b == self@.contains(i),
    {
        holds(&self.goals, i)
    }

    /// The union of the two sets: this one, then what `rhs` adds to it.
    pub fn distribute(&self, rhs: &And) -> (and: And)
        ensures
            and@ == join(self@, rhs@),
    {
        proof {
            use_type_invariant(self);
        }
        let mut goals: Vec<I> = self.goals.clone();
        assert(goals@ =~= self@);
        let mut k: usize = 0;
        while k < rhs.goals.len()
            invariant
                k <= rhs.goals@.len(),
                goals@ == join(self@, rhs@.take(k as int)),
                goals@.no_duplicates(),
            decreases rhs.goals.len() - k,
        {
            let i = rhs.goals[k];
            proof {
                assert(rhs@.take(k as int + 1).drop_last() =~= rhs@.take(k as int));
            }
            if !holds(&goals, i) {
                goals.push(i);
            }
            k += 1;
        }
        assert(rhs@.take(k as int) =~= rhs@);
        And { goals }
    }
}

impl Default for And {
    /// The set without goals.
    fn default() -> (and: And)
        ensures
            and@ == Seq::<I>::empty(),
    {
        And { goals: Vec::new() }
    }
}

impl Clone for And {
    fn clone(&self) -> (and: And)
        ensures
            and@ == self@,
    {
        proof {
            use_type_invariant(self);
        }
        let goals: Vec<I> = self.goals.clone();
        assert(goals@ =~= self.goals@);
        And { goals }
    }
}

/// Alternative correction sets, in the order in which they were found.
pub struct Dnf {
    conjuncts: Vec<And>,
}

/// The sets that a list of conjuncts stands for.
pub open spec fn views(conjuncts: Seq<And>) -> Seq<Seq<I>> {
    Seq::new(conjuncts.len(), |k: int| conjuncts[k]@)
}

/// The sets that each of a list of disjunctions stands for.
pub open spec fn dnf_views(operands: Seq<Dnf>) -> Seq<Seq<Seq<I>>> {
    Seq::new(operands.len(), |k: int| operands[k]@)
}

impl View for Dnf {
    type V = Seq<Seq<I>>;

    closed spec fn view(&self) -> Seq<Seq<I>> {
        views(self.conjuncts@)
    }
}

impl Default for Dnf {
    /// The disjunction without alternatives.
    fn default() -> (dnf: Dnf)
        ensures
            dnf@ == Seq::<Seq<I>>::empty(),
    {
        let dnf = Dnf { conjuncts: Vec::new() };
        assert(dnf@ =~= Seq::<Seq<I>>::empty());
        dnf
    }
}

impl Clone for Dnf {
    fn clone(&self) -> (dnf: Dnf)
        ensures
            dnf@ == self@,
    {
        let mut conjuncts: Vec<And> = Vec::new();
        let mut k: usize = 0;
        while k < self.conjuncts.len()
            invariant
                k <= self.conjuncts@.len(),
                views(conjuncts@) == self@.take(k as int),
            decreases self.conjuncts.len() - k,
        {
            let ghost before = conjuncts@;
            conjuncts.push(self.conjuncts[k].clone());
            k += 1;
            proof {
                lemma_views_push(before, conjuncts@[k - 1]);
                assert(self@.take(k as int) =~= self@.take(k as int - 1).push(self@[k - 1]));
            }
        }
        assert(self@.take(k as int) =~= self@);
        Dnf { conjuncts }
    }
}

impl Dnf {
    /// The disjunction whose one alternative is to repair `i`.
    pub fn single(i: I) -> (dnf: Dnf)
        ensures
            dnf@ == seq![seq![i]],
    {
        let mut conjuncts: Vec<And> = Vec::new();
        conjuncts.push(And::single(i));
        let dnf = Dnf { conjuncts };
        assert(dnf@ =~= seq![seq![i]]);
        dnf
    }

    pub fn len(&self) -> (n: usize)
        ensures
            n == self@.len(),
    {
        self.conjuncts.len()
    }

    pub fn is_empty(&self) -> (b: bool)
        ensures
            b == (self@.len() == 0),
    {
        self.conjuncts.len() == 0
    }

    /// The alternatives, in order.
    pub fn iter_conjuncts(&self) -> (conjuncts: &Vec<And>)
        ensures
            views(conjuncts@) == self@,
    {
        &self.conjuncts
    }

    /// Any of the operands: their alternatives one after the other.
    /// Alternatives that occur in several operands are kept as often.
    pub fn or(vs: Vec<Dnf>) -> (dnf: Option<Dnf>)
        ensures
            dnf matches Some(d) && d@ == or_all(dnf_views(vs@)),
    {
        let mut conjuncts: Vec<And> = Vec::new();
        let mut k: usize = 0;
        assert(dnf_views(vs@).take(0) =~= Seq::empty());
        while k < vs.len()
            invariant
                k <= vs@.len(),
                views(conjuncts@) == or_all(dnf_views(vs@).take(k as int)),
            decreases vs.len() - k,
        {
            let operand = &vs[k];
            let ghost before = conjuncts@;
            let mut j: usize = 0;
            while j < operand.conjuncts.len()
                invariant
                    j <= operand.conjuncts@.len(),
                    views(conjuncts@) == views(before) + operand@.take(j as int),
                decreases operand.conjuncts.len() - j,
            {
                let ghost pushed = conjuncts@;
                conjuncts.push(operand.conjuncts[j].clone());
                j += 1;
                proof {
                    lemma_views_push(pushed, conjuncts@[conjuncts@.len() - 1]);
                    assert(operand@.take(j as int) =~= operand@.take(j as int - 1).push(
                        operand@[j - 1],
                    ));
                    assert(views(conjuncts@) =~= views(before) + operand@.take(j as int));
                }
            }
            k += 1;
            proof {
                assert(operand@.take(j as int) =~= operand@);
                let upto = dnf_views(vs@).take(k as int);
                assert(upto.drop_last() =~= dnf_views(vs@).take(k as int - 1));
                assert(upto.last() == operand@);
            }
        }
        assert(dnf_views(vs@).take(k as int) =~= dnf_views(vs@));
        Some(Dnf { conjuncts })
    }

    /// Both this and `other`: each alternative of this one joined with each
    /// alternative of the other.
    pub fn distribute(&self, other: &Dnf) -> (dnf: Dnf)
        ensures
            dnf@ == distribute(self@, other@),
    {
        let mut conjuncts: Vec<And> = Vec::new();
        let mut k: usize = 0;
        assert(self@.take(0) =~= Seq::empty());
        while k < self.conjuncts.len()
            invariant
                k <= self.conjuncts@.len(),
                views(conjuncts@) == distribute(self@.take(k as int), other@),
            decreases self.conjuncts.len() - k,
        {
            let lhs = &self.conjuncts[k];
            let ghost before = conjuncts@;
            let mut j: usize = 0;
            while j < other.conjuncts.len()
                invariant
                    j <= other.conjuncts@.len(),
                    views(conjuncts@) == views(before) + distribute_one(lhs@, other@).take(j as int),
                decreases other.conjuncts.len() - j,
            {
                let ghost pushed = conjuncts@;
                conjuncts.push(lhs.distribute(&other.conjuncts[j]));
                j += 1;
                proof {
                    lemma_views_push(pushed, conjuncts@[conjuncts@.len() - 1]);
                    let row = distribute_one(lhs@, other@);
                    assert(row.take(j as int) =~= row.take(j as int - 1).push(row[j - 1]));
                    assert(views(conjuncts@) =~= views(before) + row.take(j as int));
                }
            }
            k += 1;
            proof {
                assert(distribute_one(lhs@, other@).take(j as int) =~= distribute_one(
                    lhs@,
                    other@,
                ));
                let upto = self@.take(k as int);
                assert(upto.drop_last() =~= self@.take(k as int - 1));
                assert(upto.last() == lhs@);
            }
        }
        assert(self@.take(k as int) =~= self@);
        Dnf { conjuncts }
    }

    /// All of the operands: they are distributed over each other from left
    /// to right. Without operands there is nothing to repair, and no
    /// disjunction.
    pub fn and(vs: Vec<Dnf>) -> (dnf: Option<Dnf>)
        ensures
            dnf is Some == and_all(dnf_views(vs@)) is Some,
            dnf matches Some(d) ==> Some(d@) == and_all(dnf_views(vs@)),
    {
        if vs.len() == 0 {
            return None;
        }
        let mut acc: Dnf = vs[0].clone();
        let mut k: usize = 1;
        proof {
            let first = dnf_views(vs@).take(1);
            assert(first.drop_last() =~= Seq::empty());
            assert(and_all(first.drop_last()) is None);
        }
        while k < vs.len()
            invariant
                1 <= k <= vs@.len(),
                Some(acc@) == and_all(dnf_views(vs@).take(k as int)),
            decreases vs.len() - k,
        {
            acc = acc.distribute(&vs[k]);
            k += 1;
            proof {
                let upto = dnf_views(vs@).take(k as int);
                assert(upto.drop_last() =~= dnf_views(vs@).take(k as int - 1));
            }
        }
        assert(dnf_views(vs@).take(k as int) =~= dnf_views(vs@));
        Some(acc)
    }
}

/// Pushing a conjunct pushes the set that it stands for.
proof fn lemma_views_push(conjuncts: Seq<And>, and: And)
    ensures
        views(conjuncts.push(and)) == views(conjuncts).push(and@),
{
    assert(views(conjuncts.push(and)) =~= views(conjuncts).push(and@));
}

/// Whether `i` occurs in `goals`.
fn holds(goals: &Vec<I>, i: I) -> (b: bool)
    ensures
        b == goals@.contains(i),
{
    let mut k: usize = 0;
    while k < goals.len()
        invariant
            k <= goals@.len(),
            forall|j: int| 0 <= j < k ==> goals@[j] != i,
        decreases goals.len() - k,
    {
        if goals[k].0 == i.0 {
            return true;
        }
        k += 1;
    }
    false
}

} // verus!
