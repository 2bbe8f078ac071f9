use vstd::prelude::*;

pub mod game;
pub mod games;
pub mod ids;
pub mod io;
pub mod laws;
pub mod program;

verus! {

} // verus!
