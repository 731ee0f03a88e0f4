//! How often a garden is fed.

use vstd::prelude::*;

verus! {

pub trait AsSchedule {
}

pub struct Daily;

impl AsSchedule for Daily {
}

pub struct Weekly;

impl AsSchedule for Weekly {
}

pub struct Monthly;

impl AsSchedule for Monthly {
}

pub struct Quarterly;

impl AsSchedule for Quarterly {
}

pub struct Yearly;

impl AsSchedule for Yearly {
}

} // verus!
