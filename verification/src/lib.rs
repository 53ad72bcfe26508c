use vstd::prelude::*;

pub mod dashboard;
pub mod message;
pub mod protocol;
pub mod snapshot;
pub mod ternary;
pub mod worker;

verus! {

/// Index of a milestone in the tangle.
#[derive(Clone, Copy, Debug, PartialEq, Eq, Structural)]
pub struct MilestoneIndex(pub u32);

} // verus!
