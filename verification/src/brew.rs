//! A brewing kit whose rules are checked by the types: which ingredients may
//! go into a recipe, how often a cauldron was mixed, and how warm it is.

pub mod botanicals;
pub mod cauldron;
pub mod count;
pub mod ingredient;
pub mod potions;
pub mod time;
