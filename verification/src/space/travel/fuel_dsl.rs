//! Refuelling: on a planet, with a tank that is nearly empty, up to a full one.

use vstd::prelude::*;
use core::ops::Add;
use crate::space::num::{LessOrEqual, One};
use crate::space::planet::Planet;
use crate::space::travel::{IntergalacticTravel, MaxFuel, Rocket};

verus! {

pub trait FuelDsl<N, P> {
    type Output;

    /// What taking `n` units of fuel on at planet `p` gives.
    spec fn refuelled(self, p: P, n: N) -> Self::Output where Self: Sized;

    fn refuel(self, p: P, n: N) -> (out: Self::Output) where Self: Sized
        ensures
            out == self.refuelled(p, n),
    ;
}

impl<R, N, P> FuelDsl<N, P> for R where
    P: Planet,
    R: IntergalacticTravel<Location = P::At>,
    R::Fuel: LessOrEqual<One>,
    R::Fuel: Add<N>,
    <R::Fuel as Add<N>>::Output: LessOrEqual<MaxFuel>,
 {
    type Output = Rocket<R::Location, <R::Fuel as Add<N>>::Output, R::Dir>;

    /// The rocket at the same place, with `n` units of fuel more.
    open spec fn refuelled(self, p: P, n: N) -> Self::Output {
        Rocket::placed()
    }

    fn refuel(self, p: P, n: N) -> Self::Output {
        Rocket::new()
    }
}

} // verus!
