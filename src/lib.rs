use vstd::prelude::*;

pub mod capability;
pub mod platform;
pub mod report;
pub mod bootstrap;

verus! {

} // verus!
