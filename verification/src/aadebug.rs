//! Reduction of a failed search tree to correction sets, and their ranking.

pub mod dnf;
pub mod kind;
pub mod laws;
pub mod model;
pub mod predicate;
pub mod retain;
pub mod tree;
