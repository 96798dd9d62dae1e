//! The capability interface a device type implements, the type
//! descriptor, the complete device descriptor, and the trampolines the
//! runtime drives.

use core::marker::PhantomData;
use vstd::prelude::*;

use crate::error::SerializeError;
use crate::rw_event::RwEvent;
use crate::types::RawDevice;
use crate::utils::has_nul;
use crate::utils::CChars;

verus! {

/// Access to the device state a device implementation stores.
pub trait DeviceData {
    /// The device state type.
    type Ty;

    /// The stored device state.
    fn data(&self) -> &Self::Ty;

    /// The stored device state, writable.
    fn data_mut(&mut self) -> &mut Self::Ty;
}

/// The capability set of a device type with state `T`: how it answers
/// load and store accesses, its lifecycle hooks, and its name.
///
/// Read and write receive a bounded view of the device region and must
/// hand it back with the shape unchanged; the trampolines rely on that
/// when they copy the view back out.
pub trait Device<T>: DeviceData<Ty = T> {
    /// The error a read or write may report; the trampolines narrow it to
    /// a success flag.
    type Error;

    /// Answers a load access.
    fn read(&self, dest: &mut RwEvent) -> (r: Result<(), Self::Error>)
        ensures
            final(dest).region@.len() == old(dest).region@.len(),
            final(dest).affected == old(dest).affected,
            final(dest).offset == old(dest).offset,
    ;

    /// Answers a store access.
    fn write(&self, dest: &mut RwEvent) -> (r: Result<(), Self::Error>)
        ensures
            final(dest).region@.len() == old(dest).region@.len(),
            final(dest).affected == old(dest).affected,
            final(dest).offset == old(dest).offset,
    ;

    /// The device-type name: non-empty bare bytes without a nul.
    fn name() -> Vec<u8>;

    /// Resets the device; the default does nothing.
    fn reset(&mut self) {
    }

    /// Periodic update; the default does nothing.
    fn update(&mut self) {
    }

    /// Custom removal hook, run once just before the device is destroyed;
    /// the default does nothing.
    fn remove(&mut self) {
    }
}

/// Constructor interface for device implementations: build one around
/// region, operation-size bounds, and initial state.
pub trait DeviceExt: Sized {
    /// The device state type.
    type DataTy;

    /// Builds the device.
    fn new(address: u64, size: usize, min_op_size: u8, max_op_size: u8, data: Self::DataTy) -> Self;
}

/// Constructor interface for type descriptors that need no arguments.
pub trait DeviceTypeExt: Sized {
    /// Builds the type descriptor of this device type.
    fn new() -> Self;
}

/// The type descriptor: the device-type name in the nul-terminated shape
/// the runtime stores, tagged with the device state type.
pub struct MmioType<T> {
    name: CChars,
    phantom: PhantomData<T>,
}

impl<T> MmioType<T> {
    /// The stored name bytes, terminator included.
    pub closed spec fn name_bytes(&self) -> Seq<u8> {
        self.name@
    }

    /// The name storage always carries a terminator.
    pub open spec fn wf(&self) -> bool {
        has_nul(self.name_bytes())
    }

    /// Takes ownership of the name storage.
    pub fn new(name: CChars) -> (r: Self)
        ensures
            r.name_bytes() == name@,
    {
        MmioType { name, phantom: PhantomData }
    }

    /// The owned name storage.
    pub fn name(&self) -> (r: &CChars)
        ensures
            r@ == self.name_bytes(),
    {
        &self.name
    }

    /// Serializes the name into a caller buffer, exactly as it would cross
    /// the runtime boundary, and reports how many bytes it wrote; refuses
    /// a buffer with insufficient space.
    pub fn try_serialize_to(&self, to: &mut Vec<u8>) -> (r: Result<usize, SerializeError>)
        ensures
            final(to)@.len() == old(to)@.len(),
            match r {
                Ok(n) => n == self.name_bytes().len() && self.name_bytes().len() <= old(to)@.len()
                    && final(to)@ == self.name_bytes() + old(to)@.subrange(
                    self.name_bytes().len() as int,
                    old(to)@.len() as int,
                ),
                Err(e) => e == SerializeError::InsufficientSpace && old(to)@.len()
                    < self.name_bytes().len() && *final(to) == *old(to),
            },
    {
        let src = self.name.as_bytes();
        let n = src.len();
        if to.len() < n {
            return Err(SerializeError::InsufficientSpace);
        }
        let mut i: usize = 0;
        while i < n
            invariant
                i <= n,
                n == src@.len(),
                src@ == self.name_bytes(),
                n <= to@.len(),
                to@.len() == old(to)@.len(),
                forall|k: int|
                    0 <= k < to@.len() ==> to@[k] == (if 0 <= k < i {
                        src@[k]
                    } else {
                        old(to)@[k]
                    }),
            decreases n - i,
        {
            to[i] = src[i];
            i += 1;
        }
        assert(to@ =~= self.name_bytes() + old(to)@.subrange(
            self.name_bytes().len() as int,
            old(to)@.len() as int,
        ));
        Ok(n)
    }
}

/// A complete device: the typed storage wrapper plus its type descriptor,
/// ready to be handed to the attachment protocol.
pub struct DeviceDescriptor<T> {
    /// Region, operation-size bounds, and device state.
    pub raw: RawDevice<T>,
    /// Name and identity of the device type.
    pub type_: MmioType<T>,
}

impl<T> DeviceDescriptor<T> {
    /// Assembles a descriptor from its parts.
    pub fn new(
        address: u64,
        size: usize,
        min_op_size: u8,
        max_op_size: u8,
        data: T,
        type_: MmioType<T>,
    ) -> (r: Self)
        ensures
            r.raw == (RawDevice { address, size, min_op_size, max_op_size, data }),
            r.type_ == type_,
    {
        DeviceDescriptor { raw: RawDevice::new(address, size, min_op_size, max_op_size, data), type_ }
    }
}

/// Copies the first `n` bytes of the raw buffer: the bounded view of
/// exactly `n` bytes that the trampolines hand to device code.
pub fn bounded_view(dest: &Vec<u8>, n: usize) -> (v: Vec<u8>)
    requires
        n <= dest@.len(),
    ensures
        v@ == dest@.subrange(0, n as int),
{
    let mut v: Vec<u8> = Vec::new();
    let mut i: usize = 0;
    while i < n
        invariant
            i <= n,
            n <= dest@.len(),
            v@ == dest@.subrange(0, i as int),
        decreases n - i,
    {
        v.push(dest[i]);
        i += 1;
    }
    v
}

/// Writes a view back over the start of the raw buffer, leaving every
/// byte past the view untouched.
pub fn write_back_view(dest: &mut Vec<u8>, v: &Vec<u8>)
    requires
        v@.len() <= old(dest)@.len(),
    ensures
        final(dest)@.len() == old(dest)@.len(),
        final(dest)@ == v@ + old(dest)@.subrange(v@.len() as int, old(dest)@.len() as int),
{
    let n = v.len();
    let mut i: usize = 0;
    while i < n
        invariant
            i <= n,
            n == v@.len(),
            n <= dest@.len(),
            dest@.len() == old(dest)@.len(),
            forall|k: int|
                0 <= k < dest@.len() ==> dest@[k] == (if 0 <= k < i {
                    v@[k]
                } else {
                    old(dest)@[k]
                }),
        decreases n - i,
    {
        dest[i] = v[i];
        i += 1;
    }
    assert(dest@ =~= v@ + old(dest)@.subrange(v@.len() as int, old(dest)@.len() as int));
}

/// The read trampoline: rebuilds the bounded view of exactly the declared
/// device size over the raw buffer, forwards to the capability read, puts
/// the view back, and narrows the outcome to a success flag.  No byte at
/// or past the declared size is ever touched.
pub fn dispatch_read<T, Dev: Device<T>>(
    dev: &Dev,
    declared_size: usize,
    dest: &mut Vec<u8>,
    offset: usize,
    size: u8,
) -> (ok: bool)
    requires
        declared_size <= old(dest)@.len(),
        offset + size <= declared_size,
    ensures
        final(dest)@.len() == old(dest)@.len(),
        final(dest)@.subrange(declared_size as int, final(dest)@.len() as int) == old(dest)@.subrange(declared_size as int, old(dest)@.len() as int),
{
    let view = bounded_view(dest, declared_size);
    let mut event = RwEvent::new(view, size, offset);
    let r = dev.read(&mut event);
    write_back_view(dest, &event.region);
    assert(dest@.subrange(declared_size as int, dest@.len() as int) =~= old(dest)@.subrange(
        declared_size as int,
        old(dest)@.len() as int,
    ));
    r.is_ok()
}

/// The write trampoline: the same bounded-view protocol as the read
/// trampoline, forwarding to the capability write.
pub fn dispatch_write<T, Dev: Device<T>>(
    dev: &Dev,
    declared_size: usize,
    dest: &mut Vec<u8>,
    offset: usize,
    size: u8,
) -> (ok: bool)
    requires
        declared_size <= old(dest)@.len(),
        offset + size <= declared_size,
    ensures
        final(dest)@.len() == old(dest)@.len(),
        final(dest)@.subrange(declared_size as int, final(dest)@.len() as int) == old(dest)@.subrange(declared_size as int, old(dest)@.len() as int),
{
    let view = bounded_view(dest, declared_size);
    let mut event = RwEvent::new(view, size, offset);
    let r = dev.write(&mut event);
    write_back_view(dest, &event.region);
    assert(dest@.subrange(declared_size as int, dest@.len() as int) =~= old(dest)@.subrange(
        declared_size as int,
        old(dest)@.len() as int,
    ));
    r.is_ok()
}

/// The reset trampoline: recovers the typed device and forwards.
pub fn dispatch_reset<T, Dev: Device<T>>(dev: &mut Dev) {
    dev.reset();
}

/// The update trampoline: recovers the typed device and forwards.
pub fn dispatch_update<T, Dev: Device<T>>(dev: &mut Dev) {
    dev.update();
}

/// The remove trampoline: runs the custom remove hook exactly once, then
/// destroys the device and with it the stored state.
pub fn dispatch_remove<T, Dev: Device<T>>(dev: Dev) {
    let mut dev = dev;
    dev.remove();
}

} // verus!
