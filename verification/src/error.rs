//! Error enums for every operation of the crate that can fail.

use vstd::prelude::*;

verus! {

/// Failure while creating a virtual-machine instance.
#[derive(Clone, Copy, Debug, PartialEq, Eq, Structural)]
pub enum InstanceCreateError {
    /// The instance could not be set up with the requested parameters.
    FailedToAllocate,
}

/// Failure while pausing a running instance.
#[derive(Clone, Copy, Debug, PartialEq, Eq, Structural)]
pub enum InstancePauseError {
    /// The instance is not running.
    NotRunning,
}

/// Failure while starting a paused instance.
#[derive(Clone, Copy, Debug, PartialEq, Eq, Structural)]
pub enum InstanceStartError {
    /// The instance is already running.
    AlreadyRunning,
}

/// Failure while dumping the device-tree blob to a file.
#[derive(Clone, Copy, Debug, PartialEq, Eq, Structural)]
pub enum DtbDumpError {
    /// The destination file could not be opened for writing.
    FailedToOpenFile,
}

/// Failure while reading or writing guest memory.
#[derive(Clone, Copy, Debug, PartialEq, Eq, Structural)]
pub enum MemoryAccessError {
    /// The requested range lies outside the guest RAM.
    OutOfBounds,
}

/// Failure while attaching a device to an instance.
#[derive(Clone, Copy, Debug, PartialEq, Eq, Structural)]
pub enum DeviceAttachError {
    /// The requested region intersects one of an attached device.
    RegionIsOccupied,
    /// The instance is currently executing and cannot accept devices.
    VmIsRunning,
    /// The device name is empty.
    InvalidName,
}

/// Failure while serializing into a caller-supplied buffer.
#[derive(Clone, Copy, Debug, PartialEq, Eq, Structural)]
pub enum SerializeError {
    /// The buffer is too small for the serialized form.
    InsufficientSpace,
}

/// Failure while building a [`crate::utils::CChars`] value.
#[derive(Clone, Copy, Debug, PartialEq, Eq, Structural)]
pub enum CCharsCreateFailure {
    /// The byte string holds no nul terminator.
    NoNulTerminator,
    /// The byte string holds a nul before its end.
    InteriorNul,
}

/// Failure while writing through an [`crate::rw_event::RwEvent`] view.
#[derive(Clone, Copy, Debug, PartialEq, Eq, Structural)]
pub enum MemError {
    /// The offset lies past the end of the region.
    InvalidMemoryRegion,
    /// The buffer does not fit between the offset and the region end.
    TooLongBuffer,
}

} // verus!
