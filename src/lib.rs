use vstd::prelude::*;

pub mod checkpoint;
pub mod replay;
pub mod session;
pub mod status;

verus! {

} // verus!
