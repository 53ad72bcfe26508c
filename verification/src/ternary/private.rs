use vstd::prelude::*;

verus! {

/// Keeps the representation traits closed to the types of this crate.
pub trait Sealed {}

} // verus!
