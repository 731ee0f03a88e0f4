//! Potions, and the recipes that make them.

use vstd::prelude::*;
use core::future::Future;
use crate::brew::ingredient::PlantSafe;

verus! {

pub trait Potion {
    /// What a bottle of the potion holds.
    spec fn bottle() -> Self where Self: Sized;

    /// A bottle of the potion.
    fn bottled() -> (potion: Self) where Self: Sized
        ensures
            potion == Self::bottle(),
    ;
}

pub trait Poison: Potion {
}

pub trait Remedy: Potion {
}

pub trait IntoPotion {
    type Output: Potion;
}

impl<P: Potion> IntoPotion for P {
    type Output = P;
}

pub struct Green(());

pub struct Blue(());

pub struct Pink(());

pub struct Yellow(());

impl Potion for Green {
    closed spec fn bottle() -> Green {
        Green(())
    }

    fn bottled() -> Green {
        Green(())
    }
}

impl Potion for Blue {
    closed spec fn bottle() -> Blue {
        Blue(())
    }

    fn bottled() -> Blue {
        Blue(())
    }
}

impl Potion for Pink {
    closed spec fn bottle() -> Pink {
        Pink(())
    }

    fn bottled() -> Pink {
        Pink(())
    }
}

impl Potion for Yellow {
    closed spec fn bottle() -> Yellow {
        Yellow(())
    }

    fn bottled() -> Yellow {
        Yellow(())
    }
}

impl Poison for Pink {
}

impl Poison for Yellow {
}

impl Remedy for Green {
}

impl Remedy for Blue {
}

/// A recipe: a potion, or a function that takes up to six plant-safe
/// ingredients and in time gives a potion.
pub trait IntoRecipe<T> {
    type Output: Potion;
}

impl<IP: IntoPotion> IntoRecipe<()> for IP {
    type Output = IP::Output;
}

impl<F, T1, Out, Res> IntoRecipe<(T1, Out, Res)> for F where
    F: FnOnce(T1) -> Out,
    T1: PlantSafe + Send,
    Out: Future<Output = Res>,
    Res: IntoPotion,
 {
    type Output = Res::Output;
}

impl<F, T1, T2, Out, Res> IntoRecipe<(T1, T2, Out, Res)> for F where
    F: FnOnce(T1, T2) -> Out,
    T1: PlantSafe,
    T2: PlantSafe + Send,
    Out: Future<Output = Res>,
    Res: IntoPotion,
 {
    type Output = Res::Output;
}

impl<F, T1, T2, T3, Out, Res> IntoRecipe<(T1, T2, T3, Out, Res)> for F where
    F: FnOnce(T1, T2, T3) -> Out,
    T1: PlantSafe,
    T2: PlantSafe,
    T3: PlantSafe + Send,
    Out: Future<Output = Res>,
    Res: IntoPotion,
 {
    type Output = Res::Output;
}

impl<F, T1, T2, T3, T4, Out, Res> IntoRecipe<(T1, T2, T3, T4, Out, Res)> for F where
    F: FnOnce(T1, T2, T3, T4) -> Out,
    T1: PlantSafe,
    T2: PlantSafe,
    T3: PlantSafe,
    T4: PlantSafe + Send,
    Out: Future<Output = Res>,
    Res: IntoPotion,
 {
    type Output = Res::Output;
}

impl<F, T1, T2, T3, T4, T5, Out, Res> IntoRecipe<(T1, T2, T3, T4, T5, Out, Res)> for F where
    F: FnOnce(T1, T2, T3, T4, T5) -> Out,
    T1: PlantSafe,
    T2: PlantSafe,
    T3: PlantSafe,
    T4: PlantSafe,
    T5: PlantSafe + Send,
    Out: Future<Output = Res>,
    Res: IntoPotion,
 {
    type Output = Res::Output;
}

impl<F, T1, T2, T3, T4, T5, T6, Out, Res> IntoRecipe<(T1, T2, T3, T4, T5, T6, Out, Res)> for F where
    F: FnOnce(T1, T2, T3, T4, T5, T6) -> Out,
    T1: PlantSafe,
    T2: PlantSafe,
    T3: PlantSafe,
    T4: PlantSafe,
    T5: PlantSafe,
    T6: PlantSafe + Send,
    Out: Future<Output = Res>,
    Res: IntoPotion,
 {
    type Output = Res::Output;
}

} // verus!
