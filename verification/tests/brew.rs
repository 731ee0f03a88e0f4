use std::future::Future;

use argus::brew::botanicals::{
    Aconite, Alihotsy, Dittany, Garden, ParallelFeed, Reflower, Shrivelfig, Wiggentree,
};
use argus::brew::cauldron::{BrewDsl, EmptyCauldron};
use argus::brew::ingredient::{Fertilizer, Mineral};
use argus::brew::potions::{Blue, IntoRecipe, Pink, Potion, Remedy};
use argus::brew::time::{Daily, Weekly, Yearly};

struct Phosphorus;

impl Mineral for Phosphorus {}

fn is_recipe<R: IntoRecipe<T>, T>(_: R) {}

fn takes_recipe<R>(_: impl IntoRecipe<R>) {}

fn remedy_of_four<F, Res, Out>(func: F)
where
    F: Fn(Reflower, Fertilizer<Phosphorus>, Alihotsy, Shrivelfig) -> Res,
    Res: Future<Output = Out>,
    Out: Remedy,
{
    takes_recipe(func);
}

fn potion_of_two<F, Res, Out>(func: F)
where
    F: Fn(Shrivelfig, Wiggentree) -> Res,
    Res: Future<Output = Out>,
    Out: Potion,
{
    takes_recipe(func);
}

// Four ingredients, boiled and rested once: a warm cauldron with an even
// count pours as a remedy.
async fn secret_remedy(
    i1: Reflower,
    i2: Fertilizer<Phosphorus>,
    i3: Alihotsy,
    i4: Shrivelfig,
) -> Blue {
    EmptyCauldron::new().mix(i1).mix(i2).mix(i3).mix(i4).boil().rest().pour_as()
}

// Two ingredients, boiled, then rested until cold: a cold cauldron with an
// even count pours as a poison.
async fn secret_poison(i1: Shrivelfig, i2: Wiggentree) -> Pink {
    EmptyCauldron::new().mix(i1).mix(i2).boil().rest().rest().pour_as()
}

#[test]
fn tests_is_correct() {
    remedy_of_four(secret_remedy);
}

#[test]
fn is_correct() {
    potion_of_two(secret_poison);
}

#[test]
fn test_1() {
    async fn f(_: Dittany) -> Blue {
        Blue::bottled()
    }
    is_recipe(f);
}

#[test]
fn test_2() {
    async fn f(_: Dittany, _: Aconite, _: Wiggentree) -> Blue {
        Blue::bottled()
    }
    is_recipe(f);
}

#[test]
fn test_3() {
    async fn f(_: Dittany, _: Wiggentree) -> Pink {
        Pink::bottled()
    }
    is_recipe(f);
}

#[test]
fn a_potion_is_its_own_recipe() {
    is_recipe(Blue::bottled());
}

#[test]
fn gardens_take_feeding_schedules() {
    let mut garden = Garden::<Wiggentree, 1>::new();
    garden.add_feeding_schedule(Daily, secret_poison).add_feeding_schedule(Weekly, secret_remedy);
    garden.add_feeding_schedule(Yearly, Blue::bottled()).garden();
    garden.sabotage(secret_poison).garden();
}

#[test]
fn gardens_are_fed_in_parallel() {
    async fn fertilize(i1: Dittany, i2: Shrivelfig, i3: Alihotsy) -> Blue {
        EmptyCauldron::new().mix(i1).mix(i2).mix(i3).pour_as()
    }
    let gardens = vec![Garden::<Alihotsy, 4>::new(), Garden::<Alihotsy, 4>::new()];
    gardens.feed_in_parallel(fertilize);
    gardens.as_slice().feed_in_parallel(fertilize);
}
