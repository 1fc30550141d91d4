//! Unlocking an encrypted root disk over SSH during early boot: the dialogue with the
//! remote unlock helper, the decisions taken on each connection attempt, and the
//! operator's input, as verified state machines. Network and terminal I/O stay with
//! the caller, which feeds observed events in and performs the reactions.

use vstd::prelude::*;

pub mod attempt;
pub mod laws;
pub mod layout;
pub mod machine;
pub mod state;
pub mod text;

verus! {

} // verus!
