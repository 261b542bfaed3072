use vstd::prelude::*;

verus! {

/// An object that a register refers to.
pub struct FusedObject;

} // verus!
