//! Explains why a solver goal failed: the search tree of the failure is reduced
//! to its correction sets, and each set is scored by how intrusive its repair is.

pub mod aadebug;
pub mod analysis;
pub mod brew;
pub mod numerals;
pub mod proof_tree;
pub mod space;
