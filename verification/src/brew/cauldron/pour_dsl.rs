//! Pouring: what comes out depends on how much went in and how warm it is.

use vstd::prelude::*;
use crate::brew::cauldron::{Cauldron, Cold, NonEmpty, Warm};
use crate::brew::count::{IsEven, IsOdd};
use crate::brew::potions::{Poison, Potion, Remedy};

verus! {

pub struct IsColdRemedy;

pub struct IsWarmRemedy;

pub struct IsColdPoison;

pub struct IsWarmPoison;

pub trait PourDsl<P: Potion, Marker> {
    /// The type returned by the `.pour()` method.
    type Output;

    /// What pouring the cauldron out gives.
    spec fn poured(self) -> Self::Output where Self: Sized;

    fn pour(self) -> (out: Self::Output) where Self: Sized
        ensures
            out == self.poured(),
    ;
}

impl<C, R> PourDsl<R, IsColdRemedy> for C where
    R: Remedy,
    C::IngredientCount: NonEmpty + IsOdd,
    C: Cauldron<Temperature = Cold>,
 {
    type Output = R;

    /// A bottle of the remedy that was asked for.
    open spec fn poured(self) -> R {
        R::bottle()
    }

    fn pour(self) -> Self::Output {
        R::bottled()
    }
}

impl<C, R> PourDsl<R, IsWarmRemedy> for C where
    R: Remedy,
    C::IngredientCount: NonEmpty + IsEven,
    C: Cauldron<Temperature = Warm>,
 {
    type Output = R;

    /// A bottle of the remedy that was asked for.
    open spec fn poured(self) -> R {
        R::bottle()
    }

    fn pour(self) -> Self::Output {
        R::bottled()
    }
}

impl<C, P> PourDsl<P, IsColdPoison> for C where
    P: Poison,
    C::IngredientCount: NonEmpty + IsEven,
    C: Cauldron<Temperature = Cold>,
 {
    type Output = P;

    /// A bottle of the poison that was asked for.
    open spec fn poured(self) -> P {
        P::bottle()
    }

    fn pour(self) -> Self::Output {
        P::bottled()
    }
}

impl<C, P> PourDsl<P, IsWarmPoison> for C where
    P: Poison,
    C::IngredientCount: NonEmpty + IsOdd,
    C: Cauldron<Temperature = Warm>,
 {
    type Output = P;

    /// A bottle of the poison that was asked for.
    open spec fn poured(self) -> P {
        P::bottle()
    }

    fn pour(self) -> Self::Output {
        P::bottled()
    }
}

} // verus!
