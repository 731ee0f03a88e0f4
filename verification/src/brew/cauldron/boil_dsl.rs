//! Boiling: a cauldron with something in it becomes hot.

use vstd::prelude::*;
use crate::brew::cauldron::{Cauldron, Hot, MixingCauldron, NonEmpty};

verus! {

pub trait BoilDsl {
    type Output;

    /// What boiling gives.
    spec fn boiled(self) -> Self::Output where Self: Sized;

    fn boil(self) -> (out: Self::Output) where Self: Sized
        ensures
            out == self.boiled(),
    ;
}

impl<C> BoilDsl for C where C: Cauldron, C::IngredientCount: NonEmpty {
    type Output = MixingCauldron<C::IngredientCount, Hot>;

    /// The hot cauldron with as many ingredients.
    open spec fn boiled(self) -> Self::Output {
        MixingCauldron::filled()
    }

    fn boil(self) -> Self::Output {
        MixingCauldron::new()
    }
}

} // verus!
