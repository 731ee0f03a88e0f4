//! What may go into a cauldron, and what of it plants can be fed.

use vstd::prelude::*;
use core::marker::PhantomData;
use crate::brew::botanicals::{
    Aconite, Alihotsy, Bubotuber, Dittany, Reflower, Shrivelfig, Wiggentree,
};

verus! {

/// An ingredient that does a plant no harm.
pub(crate) trait PlantSafe: Ingredient {
}

pub trait Ingredient {
}

pub trait Mineral {
}

/// A mineral made into plant food.
pub struct Fertilizer<F>(PhantomData<F>);

impl<B> Ingredient for B {
}

impl PlantSafe for Dittany {
}

impl PlantSafe for Aconite {
}

impl PlantSafe for Wiggentree {
}

impl PlantSafe for Alihotsy {
}

impl PlantSafe for Shrivelfig {
}

impl PlantSafe for Bubotuber {
}

impl PlantSafe for Reflower {
}

impl<M: Mineral> PlantSafe for Fertilizer<M> {
}

} // verus!
