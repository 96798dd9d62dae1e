//! A safe, type-preserving model of a memory-mapped peripheral bus.
//!
//! The crate lets an implementer describe arbitrarily-typed device state
//! together with strongly-typed behaviour, assemble the pieces into a
//! device descriptor, and register that descriptor with a virtual-machine
//! instance.  The instance tracks the guest address space: it rejects a
//! device whose region collides with one already attached, refuses work
//! while the machine is running where the protocol demands it, and hands
//! back a typed handle for every accepted device.

pub mod builders;
pub mod dev;
pub mod error;
pub mod instance;
pub mod rw_event;
mod sealed;
pub mod types;
pub mod utils;
