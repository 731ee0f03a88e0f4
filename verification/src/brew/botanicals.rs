//! Botanicals grown for use in potions, and the gardens they grow in.

use vstd::prelude::*;
use core::marker::PhantomData;
use crate::brew::potions::{IntoRecipe, Poison};
use crate::brew::time::AsSchedule;

verus! {

pub(crate) trait Botanical {
}

pub struct Dittany(());

pub struct Aconite(());

pub struct Wiggentree(());

pub struct Alihotsy(());

pub struct Shrivelfig(());

pub struct Bubotuber(());

impl Botanical for Dittany {
}

impl Botanical for Aconite {
}

impl Botanical for Wiggentree {
}

impl Botanical for Alihotsy {
}

impl Botanical for Shrivelfig {
}

impl Botanical for Bubotuber {
}

/// A botanical that cannot be sent to another thread.
pub struct Reflower(PhantomData<std::rc::Rc<()>>);

impl Botanical for Reflower {
}

pub trait Feedable {
}

impl<B: Botanical> Feedable for B {
}

pub trait AsGarden {
}

impl<T: Botanical, const N: usize> AsGarden for Garden<T, N> {
}

/// A garden of `N` plants of one kind.
pub struct Garden<T: Feedable, const N: usize> {
    _plants: PhantomData<[T; N]>,
}

impl<T: Feedable, const N: usize> Garden<T, N> {
    pub fn new() -> Self {
        Garden { _plants: PhantomData }
    }

    /// Feeds the garden by the given recipe, as often as the schedule says.
    /// What is handed back is the garden itself, for the next call.
    pub fn add_feeding_schedule<R>(
        &mut self,
        _schedule: impl AsSchedule,
        _recipe: impl IntoRecipe<R>,
    ) -> (garden: &mut Self)
        ensures
            *garden == *old(self),
            *final(self) == *final(garden),
    {
        self
    }

    /// Feeds the garden a poison. What is handed back is the garden itself,
    /// for the next call.
    pub fn sabotage<P, S, R>(&mut self, _recipe: R) -> (garden: &mut Self) where
        P: Poison,
        R: IntoRecipe<S, Output = P>,

        ensures
            *garden == *old(self),
            *final(self) == *final(garden),
    {
        self
    }

    pub fn garden(&self) {
    }
}

/// Gardens that can be fed side by side.
pub trait ParallelFeed<M> {
    fn feed_in_parallel<S, R>(&self, _recipe: R) where
        R: IntoRecipe<S> + Send + Sync,
        R::Output: Send + Sync,
    ;
}

impl<G: AsGarden> ParallelFeed<G> for Vec<G> {
    fn feed_in_parallel<S, R>(&self, _recipe: R) where
        R: IntoRecipe<S> + Send + Sync,
        R::Output: Send + Sync,
     {
        ()
    }
}

impl<'a, G: AsGarden> ParallelFeed<G> for &'a [G] {
    fn feed_in_parallel<S, R>(&self, _recipe: R) where
        R: IntoRecipe<S> + Send + Sync,
        R::Output: Send + Sync,
     {
        ()
    }
}

} // verus!
