use vstd::prelude::*;

pub mod copy;
pub mod filter;
pub mod paths;
pub mod state;
pub mod text;
pub mod watch;

verus! {

} // verus!
