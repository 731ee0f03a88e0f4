//! Resting: a cauldron cools down by one step.

use vstd::prelude::*;
use crate::brew::cauldron::{Cauldron, Cold, Hot, MixingCauldron, Temperature, Warm};

verus! {

pub trait RestDsl {
    type Output;

    /// What resting gives.
    spec fn rested(self) -> Self::Output where Self: Sized;

    fn rest(self) -> (out: Self::Output) where Self: Sized
        ensures
            out == self.rested(),
    ;
}

impl<C> RestDsl for C where
    C: Cauldron,
    C::Temperature: RestDsl,
    <C::Temperature as RestDsl>::Output: Temperature,
 {
    type Output = MixingCauldron<C::IngredientCount, <C::Temperature as RestDsl>::Output>;

    /// The cauldron with as many ingredients, one step cooler.
    open spec fn rested(self) -> Self::Output {
        MixingCauldron::filled()
    }

    fn rest(self) -> Self::Output {
        MixingCauldron::new()
    }
}

impl RestDsl for Hot {
    type Output = Warm;

    closed spec fn rested(self) -> Warm {
        Warm(())
    }

    fn rest(self) -> Self::Output {
        Warm(())
    }
}

impl RestDsl for Warm {
    type Output = Cold;

    closed spec fn rested(self) -> Cold {
        Cold(())
    }

    fn rest(self) -> Self::Output {
        Cold(())
    }
}

impl RestDsl for Cold {
    type Output = Cold;

    closed spec fn rested(self) -> Cold {
        Cold(())
    }

    fn rest(self) -> Self::Output {
        Cold(())
    }
}

} // verus!
