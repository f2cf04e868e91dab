use vstd::prelude::*;

pub mod contract;
pub mod error;
pub mod lemmas;
pub mod msg;
pub mod state;

verus! {

} // verus!
