//! Cauldrons: they count what was mixed into them and know how warm they are.

pub mod boil_dsl;
pub mod mix_dsl;
pub mod pour_dsl;
pub mod rest_dsl;

use vstd::prelude::*;
use core::marker::PhantomData;
use crate::brew::cauldron::boil_dsl::BoilDsl;
use crate::brew::cauldron::mix_dsl::MixDsl;
use crate::brew::cauldron::pour_dsl::PourDsl;
use crate::brew::cauldron::rest_dsl::RestDsl;
use crate::brew::count::{Five, Four, Num, One, Six, Three, Two, Zero};
use crate::brew::ingredient::Ingredient;
use crate::brew::potions::Potion;

verus! {

pub trait Temperature {
}

pub struct Cold(());

pub struct Warm(());

pub struct Hot(());

impl Temperature for Cold {
}

impl Temperature for Warm {
}

impl Temperature for Hot {
}

/// What can be done with a cauldron, step by step.
pub trait BrewDsl: Sized {
    /// Pours the cauldron out as the potion `P`.
    fn pour_as<P, Marker>(self) -> <Self as PourDsl<P, Marker>>::Output where
        P: Potion,
        Self: PourDsl<P, Marker>,

        returns
            <Self as PourDsl<P, Marker>>::poured(self),
    {
        PourDsl::pour(self)
    }

    /// Mixes `rhs` into the cauldron.
    fn mix<Rhs>(self, rhs: Rhs) -> <Self as MixDsl<Rhs>>::Output where
        Rhs: Ingredient,
        Self: MixDsl<Rhs>,

        returns
            <Self as MixDsl<Rhs>>::mixed_with(self, rhs),
    {
        MixDsl::mix_with(self, rhs)
    }

    /// Brings the cauldron to the boil.
    fn boil(self) -> <Self as BoilDsl>::Output where Self: BoilDsl
        returns
            <Self as BoilDsl>::boiled(self),
    {
        BoilDsl::boil(self)
    }

    /// Lets the cauldron cool down by one step.
    fn rest(self) -> <Self as RestDsl>::Output where Self: RestDsl
        returns
            <Self as RestDsl>::rested(self),
    {
        RestDsl::rest(self)
    }
}

pub trait NonEmpty {
}

impl NonEmpty for One {
}

impl NonEmpty for Two {
}

impl NonEmpty for Three {
}

impl NonEmpty for Four {
}

impl NonEmpty for Five {
}

impl NonEmpty for Six {
}

pub trait Cauldron {
    type IngredientCount: Num;

    type Temperature: Temperature;
}

impl<C: Cauldron> BrewDsl for C {
}

impl<C, T> Cauldron for MixingCauldron<C, T> where C: Num, T: Temperature {
    type IngredientCount = C;

    type Temperature = T;
}

impl<C> NonEmpty for C where C: Cauldron, C::IngredientCount: NonEmpty {
}

/// A cauldron with `C` ingredients in it, at temperature `T`.
pub struct MixingCauldron<C: Num, T: Temperature>(PhantomData<(C, T)>);

impl<C: Num, T: Temperature> MixingCauldron<C, T> {
    /// The cauldron with `C` ingredients at temperature `T`. The type says
    /// all there is to say of a cauldron.
    pub closed spec fn filled() -> MixingCauldron<C, T> {
        MixingCauldron(PhantomData)
    }

    pub(crate) fn new() -> (cauldron: MixingCauldron<C, T>)
        ensures
            cauldron == Self::filled(),
    {
        MixingCauldron(PhantomData)
    }
}

pub struct EmptyCauldron;

impl EmptyCauldron {
    /// A cold cauldron with nothing in it.
    pub fn new() -> (cauldron: MixingCauldron<Zero, Cold>)
        ensures
            cauldron == MixingCauldron::<Zero, Cold>::filled(),
    {
        MixingCauldron(PhantomData)
    }
}

} // verus!
