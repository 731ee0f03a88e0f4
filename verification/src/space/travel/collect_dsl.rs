//! Collecting: what a rocket may pick up depends on where it is.

use vstd::prelude::*;
use crate::space::debris::{Debris, Rock};
use crate::space::num::{IsEven, IsOdd, NonZero};
use crate::space::pos::Pos;
use crate::space::probe::IntoProbeConfigs;
use crate::space::travel::IntergalacticTravel;

verus! {

pub trait CollectDsl<P, C, Marker> {
    fn collect(self, config: C);
}

pub struct IsDebrisCollector;

pub struct IsRockCollector;

impl<Item, R, P, C, L, X, Y> CollectDsl<P, C, IsDebrisCollector> for R where
    X: IsEven + NonZero,
    Y: IsOdd + NonZero,
    Item: Debris,
    L: Pos<X = X, Y = Y>,
    R: IntergalacticTravel<Location = L>,
    C: IntoProbeConfigs<P, Item = Item>,
 {
    fn collect(self, config: C) {
    }
}

impl<Item, R, P, C, L, X, Y> CollectDsl<P, C, IsRockCollector> for R where
    X: IsOdd,
    Y: IsEven,
    Item: Rock,
    L: Pos<X = X, Y = Y>,
    R: IntergalacticTravel<Location = L>,
    C: IntoProbeConfigs<P, Item = Item>,
 {
    fn collect(self, config: C) {
    }
}

} // verus!
