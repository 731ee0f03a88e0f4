//! Turning: the rocket points in a new direction.

use vstd::prelude::*;
use crate::space::dir::Direction;
use crate::space::travel::{IntergalacticTravel, Rocket};

verus! {

pub trait MoveDsl<D> {
    type Output;

    /// What turning towards `d` gives.
    spec fn turned(self, d: D) -> Self::Output where Self: Sized;

    fn turn(self, d: D) -> (out: Self::Output) where Self: Sized
        ensures
            out == self.turned(d),
    ;
}

impl<R, D> MoveDsl<D> for R where R: IntergalacticTravel, D: Direction {
    type Output = Rocket<R::Location, R::Fuel, D>;

    /// The rocket at the same place, with as much fuel, pointing towards `d`.
    open spec fn turned(self, d: D) -> Self::Output {
        Rocket::placed()
    }

    fn turn(self, d: D) -> Self::Output {
        Rocket::new()
    }
}

} // verus!
