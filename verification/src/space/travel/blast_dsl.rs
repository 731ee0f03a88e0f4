//! Flying forward: the position changes, the fuel gets less.

use vstd::prelude::*;
use core::ops::Sub;
use crate::space::num::{LessOrEqual, Num};
use crate::space::pos::PosUpdate;
use crate::space::travel::{IntergalacticTravel, Rocket};

verus! {

pub trait BlastDsl<X> {
    type Output;

    /// What flying `x` steps forward gives.
    spec fn blasted(self, x: X) -> Self::Output where Self: Sized;

    fn blast(self, x: X) -> (out: Self::Output) where Self: Sized
        ensures
            out == self.blasted(x),
    ;
}

impl<R, X> BlastDsl<X> for R where
    R: IntergalacticTravel,
    X: Num,
    X: LessOrEqual<R::Fuel>,
    R::Location: PosUpdate<R::Dir, X>,
    R::Fuel: Sub<X>,
 {
    type Output = Rocket<
        <R::Location as PosUpdate<R::Dir, X>>::Output,
        <R::Fuel as Sub<X>>::Output,
        R::Dir,
    >;

    /// The rocket `x` steps further on, with `x` units of fuel less.
    open spec fn blasted(self, x: X) -> Self::Output {
        Rocket::placed()
    }

    fn blast(self, x: X) -> Self::Output {
        Rocket::new()
    }
}

} // verus!
