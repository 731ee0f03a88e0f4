//! A flight kit whose rules are checked by the types: where a rocket is,
//! how much fuel it has left, and what it may collect there.

pub mod debris;
pub mod dir;
pub mod num;
pub mod planet;
pub mod pos;
pub mod probe;
pub mod travel;
