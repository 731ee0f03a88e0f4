//! Positions: pairs of numbers, and how a flight changes them.

use vstd::prelude::*;
use core::ops::Add;
use crate::space::dir::{Direction, Right, Up};
use crate::space::num::{IsEven, IsOdd, Num, NumEq, Zero};

verus! {

pub trait Pos {
    type X: Num;

    type Y: Num;
}

pub type Origin = (Zero, Zero);

/// The position reached from this one by flying `X` steps in direction `D`.
pub trait PosUpdate<D: Direction, X: Num> {
    type Output: Pos;
}

impl<N, P> PosUpdate<Up, N> for P where
    N: Num,
    P: Pos,
    P::Y: Add<N>,
    <P::Y as Add<N>>::Output: Num,
 {
    type Output = (P::X, <P::Y as Add<N>>::Output);
}

impl<N, P> PosUpdate<Right, N> for P where
    N: Num,
    P: Pos,
    P::X: Add<N>,
    <P::X as Add<N>>::Output: Num,
 {
    type Output = (<P::X as Add<N>>::Output, P::Y);
}

impl<X: Num, Y: Num> Pos for (X, Y) {
    type X = X;

    type Y = Y;
}

pub trait PosEq<P: Pos> {
}

impl<A: Pos, B: Pos> PosEq<B> for A where A::X: NumEq<B::X>, A::Y: NumEq<B::Y> {
}

/// A position with an odd first and an even second coordinate.
pub trait OddEvenPos: Pos {
}

impl<X, Y, L> OddEvenPos for L where L: Pos<X = X, Y = Y>, X: IsOdd, Y: IsEven {
}

/// A position with an even first and an odd second coordinate.
pub trait EvenOddPos: Pos {
}

impl<X, Y, L> EvenOddPos for L where L: Pos<X = X, Y = Y>, X: IsEven, Y: IsOdd {
}

} // verus!
