//! The typed storage wrapper, the device handle, and the marker trait for
//! types whose layout is fixed.

use core::marker::PhantomData;
use vstd::prelude::*;

verus! {

/// Marker trait for types whose in-memory layout is fixed, so that a value
/// may cross the runtime boundary byte for byte.
pub trait KnownLayout {}

impl KnownLayout for u8 {}

impl KnownLayout for u16 {}

impl KnownLayout for u32 {}

impl KnownLayout for u64 {}

impl KnownLayout for i8 {}

impl KnownLayout for i16 {}

impl KnownLayout for i32 {}

impl KnownLayout for i64 {}

impl<T, const N: usize> KnownLayout for [T; N] {}

/// The typed storage wrapper: one device descriptor, owning the device
/// state `T` together with the region and operation-size bounds the
/// runtime reads.
pub struct RawDevice<T> {
    /// Base guest address of the device region.
    pub address: u64,
    /// Size of the device region in bytes.
    pub size: usize,
    /// Smallest operation size in bytes the device accepts.
    pub min_op_size: u8,
    /// Largest operation size in bytes the device accepts.
    pub max_op_size: u8,
    /// The device state.
    pub data: T,
}

impl<T> RawDevice<T> {
    /// Builds a descriptor around the supplied device state.
    pub fn new(address: u64, size: usize, min_op_size: u8, max_op_size: u8, data: T) -> (r: Self)
        ensures
            r == (RawDevice { address, size, min_op_size, max_op_size, data }),
    {
        RawDevice { address, size, min_op_size, max_op_size, data }
    }

    /// The stored device state.
    pub fn data(&self) -> (r: &T)
        ensures
            *r == self.data,
    {
        &self.data
    }

    /// The stored device state, writable.
    pub fn data_mut(&mut self) -> (r: &mut T)
        ensures
            *r == old(self).data,
            *final(self) == (RawDevice {
                address: old(self).address,
                size: old(self).size,
                min_op_size: old(self).min_op_size,
                max_op_size: old(self).max_op_size,
                data: *final(r),
            }),
    {
        &mut self.data
    }
}

/// Opaque correlation between a runtime device id and the static type of
/// the device state, for typed re-lookup after attachment.
pub struct DeviceHandle<T> {
    inner: i32,
    phantom: PhantomData<T>,
}

impl<T> DeviceHandle<T> {
    /// The runtime id behind the handle.
    pub closed spec fn id(&self) -> int {
        self.inner as int
    }

    /// Handles are created only for accepted devices, whose ids the
    /// runtime keeps non-negative.
    pub open spec fn wf(&self) -> bool {
        self.id() >= 0
    }

    /// Wraps a raw runtime id; reserved to the attachment protocol.
    pub(crate) fn from_raw(raw: i32) -> (r: Self)
        requires
            raw >= 0,
        ensures
            r.id() == raw,
            r.wf(),
    {
        DeviceHandle { inner: raw, phantom: PhantomData }
    }

    /// The raw id, for diagnostics.
    pub fn raw(self) -> (r: i32)
        ensures
            r == self.id(),
    {
        self.inner
    }
}

impl<T> Clone for DeviceHandle<T> {
    fn clone(&self) -> (r: Self)
        ensures
            r == *self,
    {
        DeviceHandle { inner: self.inner, phantom: PhantomData }
    }
}

impl<T> Copy for DeviceHandle<T> {}

} // verus!
