//! Mixing: one more ingredient in the cauldron.

use vstd::prelude::*;
use core::ops::Add;
use crate::brew::cauldron::{Cauldron, MixingCauldron};
use crate::brew::count::{Num, One};
use crate::brew::ingredient::Ingredient;

verus! {

pub trait MixDsl<Rhs> {
    type Output;

    /// What mixing `rhs` in gives.
    spec fn mixed_with(self, rhs: Rhs) -> Self::Output where Self: Sized;

    fn mix_with(self, rhs: Rhs) -> (out: Self::Output) where Self: Sized
        ensures
            out == self.mixed_with(rhs),
    ;
}

impl<C, Rhs> MixDsl<Rhs> for C where
    C: Cauldron,
    C::IngredientCount: Add<One>,
    <C::IngredientCount as Add<One>>::Output: Num,
    Rhs: Ingredient,
 {
    type Output = MixingCauldron<<C::IngredientCount as Add<One>>::Output, C::Temperature>;

    /// The cauldron with one ingredient more, as warm as before.
    open spec fn mixed_with(self, rhs: Rhs) -> Self::Output {
        MixingCauldron::filled()
    }

    fn mix_with(self, _rhs: Rhs) -> Self::Output {
        MixingCauldron::new()
    }
}

} // verus!
