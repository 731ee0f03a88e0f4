//! Rockets: where they are, how much fuel they have, which way they point.

pub mod blast_dsl;
pub mod collect_dsl;
pub mod fuel_dsl;
pub mod move_dsl;

use vstd::prelude::*;
use core::marker::PhantomData;
use crate::space::dir::{Direction, Down, Left, Right, Up};
use crate::space::num::{Four, Num};
use crate::space::pos::{Origin, Pos};
use crate::space::travel::blast_dsl::BlastDsl;
use crate::space::travel::collect_dsl::CollectDsl;
use crate::space::travel::fuel_dsl::FuelDsl;
use crate::space::travel::move_dsl::MoveDsl;

verus! {

pub(crate) type MaxFuel = Four;

pub trait IntergalacticTravel {
    type Location: Pos;

    type Fuel: Num;

    type Dir: Direction;
}

/// What can be done with a rocket, step by step.
pub trait ExplorationDsl: Sized {
    /// Turns the rocket to the left.
    fn left(self) -> <Self as MoveDsl<Left>>::Output where Self: MoveDsl<Left>
        returns
            <Self as MoveDsl<Left>>::turned(self, Left),
    {
        MoveDsl::turn(self, Left)
    }

    /// Turns the rocket to the right.
    fn right(self) -> <Self as MoveDsl<Right>>::Output where Self: MoveDsl<Right>
        returns
            <Self as MoveDsl<Right>>::turned(self, Right),
    {
        MoveDsl::turn(self, Right)
    }

    /// Turns the rocket upwards.
    fn up(self) -> <Self as MoveDsl<Up>>::Output where Self: MoveDsl<Up>
        returns
            <Self as MoveDsl<Up>>::turned(self, Up),
    {
        MoveDsl::turn(self, Up)
    }

    /// Turns the rocket downwards.
    fn down(self) -> <Self as MoveDsl<Down>>::Output where Self: MoveDsl<Down>
        returns
            <Self as MoveDsl<Down>>::turned(self, Down),
    {
        MoveDsl::turn(self, Down)
    }

    /// Flies `x` steps in the direction in which the rocket points.
    fn forward<X>(self, x: X) -> <Self as BlastDsl<X>>::Output where Self: BlastDsl<X>
        returns
            <Self as BlastDsl<X>>::blasted(self, x),
    {
        BlastDsl::blast(self, x)
    }

    /// Takes `x` units of fuel on at planet `p`.
    fn refuel<N, P>(self, p: P, x: N) -> <Self as FuelDsl<N, P>>::Output where
        Self: FuelDsl<N, P>,

        returns
            <Self as FuelDsl<N, P>>::refuelled(self, p, x),
    {
        FuelDsl::refuel(self, p, x)
    }

    fn probe<P, C, Marker>(self, config: C) where Self: CollectDsl<P, C, Marker> {
        CollectDsl::collect(self, config);
    }
}

impl<R: IntergalacticTravel> ExplorationDsl for R {
}

/// A rocket at `Loc` with `F` units of fuel, pointing in direction `Dir`.
pub struct Rocket<Loc, F, Dir>(PhantomData<(Loc, F, Dir)>);

impl Rocket<Origin, MaxFuel, Up> {
    /// A rocket on the launch pad: at the origin, with a full tank, pointing up.
    pub fn from_origin() -> (rocket: Self)
        ensures
            rocket == Self::placed(),
    {
        Rocket(PhantomData)
    }
}

impl<Loc, F, Dir> Rocket<Loc, F, Dir> {
    /// The rocket at `Loc` with `F` units of fuel that points towards `Dir`.
    /// The type says all there is to say of a rocket.
    pub closed spec fn placed() -> Self {
        Rocket(PhantomData)
    }

    pub(crate) fn new() -> (rocket: Self)
        ensures
            rocket == Self::placed(),
    {
        Rocket(PhantomData)
    }
}

impl<L: Pos, F: Num, Dir: Direction> IntergalacticTravel for Rocket<L, F, Dir> {
    type Location = L;

    type Fuel = F;

    type Dir = Dir;
}

} // verus!
