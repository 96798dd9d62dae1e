//! Seals the instance-kind trait to the types of this crate.

use vstd::prelude::*;

verus! {

/// Implemented only inside this crate; outside code cannot name it.
pub trait Sealed {}

} // verus!
