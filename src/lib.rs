use vstd::prelude::*;

pub mod error;
pub mod flag;
pub mod format;
pub mod session;
pub mod trace;

verus! {

} // verus!
