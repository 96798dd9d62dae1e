//! The virtual-machine instance: guest RAM, the run state, and the
//! attachment protocol that registers devices in the guest address space.

use core::marker::PhantomData;
use vstd::prelude::*;

use crate::dev::DeviceDescriptor;
use crate::error::DeviceAttachError;
use crate::error::InstanceCreateError;
use crate::error::InstancePauseError;
use crate::error::InstanceStartError;
use crate::error::MemoryAccessError;
use crate::sealed::Sealed;
use crate::types::DeviceHandle;
use crate::utils::c_content;
use crate::utils::first_nul;
use crate::utils::lemma_first_nul;
use vstd::pervasive::unreached;

verus! {

/// Marker for an instance that hosts a full machine.
pub struct Machine {}

/// Marker for an instance that hosts userland emulation.
pub struct Userland {}

impl Sealed for Machine {}

impl Sealed for Userland {}

/// The two contexts an instance can run in: [`Machine`] and [`Userland`].
pub trait InstanceKind: Sealed {}

impl InstanceKind for Machine {}

impl InstanceKind for Userland {}

/// One registered device region in the guest address space.
#[derive(Clone, Copy, Debug, PartialEq, Eq, Structural)]
pub struct MmioRegion {
    /// Base guest address of the region.
    pub address: u64,
    /// Size of the region in bytes.
    pub size: usize,
}

/// True when the half-open ranges of the two regions intersect.
pub open spec fn region_overlaps(a: MmioRegion, b: MmioRegion) -> bool {
    a.address < b.address + b.size && b.address < a.address + a.size
}

/// True when the region intersects some region of the sequence.
pub open spec fn overlaps_any(devs: Seq<MmioRegion>, r: MmioRegion) -> bool {
    exists|i: int| 0 <= i < devs.len() && region_overlaps(devs[i], r)
}

/// True when no two distinct regions of the sequence intersect.
pub open spec fn regions_disjoint(devs: Seq<MmioRegion>) -> bool {
    forall|i: int, j: int|
        0 <= i < devs.len() && 0 <= j < devs.len() && i != j ==> !region_overlaps(
            devs[i],
            devs[j],
        )
}

/// The abstract state of an instance.
#[verifier::ext_equal]
pub struct InstanceState {
    /// Base guest address of RAM.
    pub mem_base: u64,
    /// Size of guest RAM in bytes.
    pub mem_size: usize,
    /// Number of execution units.
    pub harts: usize,
    /// Whether the instance emulates the 64-bit architecture.
    pub rv64: bool,
    /// Whether the instance is currently executing.
    pub running: bool,
    /// Contents of guest RAM.
    pub ram: Seq<u8>,
    /// Regions of the attached devices, in attachment order; the position
    /// of a region is the raw id of its device handle.
    pub devices: Seq<MmioRegion>,
}

impl InstanceState {
    /// RAM matches its declared size, handles fit the non-negative ids,
    /// and attached regions never intersect.
    pub open spec fn wf(self) -> bool {
        &&& self.ram.len() == self.mem_size
        &&& self.devices.len() <= 0x7fff_ffff
        &&& regions_disjoint(self.devices)
    }
}

/// True when `[addr, addr + len)` lies inside the guest RAM.
pub open spec fn ram_range_ok(v: InstanceState, addr: u64, len: nat) -> bool {
    &&& v.mem_base <= addr
    &&& addr - v.mem_base + len <= v.mem_size
}

/// The instance creation parameters the runtime accepts: between one and
/// 1024 execution units, and a non-empty RAM.
pub open spec fn creation_ok(harts: usize, mem_size: usize) -> bool {
    1 <= harts <= 1024 && mem_size >= 1
}

/// A virtual-machine instance.
pub struct Instance<K: InstanceKind = Machine> {
    mem_base: u64,
    mem_size: usize,
    harts: usize,
    rv64: bool,
    running: bool,
    ram: Vec<u8>,
    devices: Vec<MmioRegion>,
    phantom: PhantomData<K>,
}

impl<K: InstanceKind> View for Instance<K> {
    type V = InstanceState;

    closed spec fn view(&self) -> InstanceState {
        InstanceState {
            mem_base: self.mem_base,
            mem_size: self.mem_size,
            harts: self.harts,
            rv64: self.rv64,
            running: self.running,
            ram: self.ram@,
            devices: self.devices@,
        }
    }
}

impl Instance<Machine> {
    /// The default base guest address of RAM.
    pub const DEFAULT_MEMBASE: u64 = 0x80000000;

    /// A builder holding the default parameters.
    pub fn builder() -> (r: crate::builders::InstanceBuilder)
        ensures
            r == (crate::builders::InstanceBuilder {
                harts: 1,
                mem_base: Instance::<Machine>::DEFAULT_MEMBASE,
                mem_size: 4096,
                rv64: false,
            }),
    {
        Default::default()
    }

    /// Creates a machine instance, rejecting parameters the runtime cannot
    /// host: an empty RAM or no execution unit.
    pub fn try_new(harts: usize, mem_base: u64, mem_size: usize, rv64: bool) -> (r: Result<
        Self,
        InstanceCreateError,
    >)
        ensures
            match r {
                Ok(i) => creation_ok(harts, mem_size) && i@ == (InstanceState {
                    mem_base,
                    mem_size,
                    harts,
                    rv64,
                    running: false,
                    ram: Seq::new(mem_size as nat, |j: int| 0u8),
                    devices: Seq::<MmioRegion>::empty(),
                }) && i@.wf(),
                Err(e) => !creation_ok(harts, mem_size) && e
                    == InstanceCreateError::FailedToAllocate,
            },
    {
        if harts < 1 || harts > 1024 || mem_size < 1 {
            return Err(InstanceCreateError::FailedToAllocate);
        }
        let ram: Vec<u8> = vec![0u8; mem_size];
        let i = Instance {
            mem_base,
            mem_size,
            harts,
            rv64,
            running: false,
            ram,
            devices: Vec::new(),
            phantom: PhantomData,
        };
        proof {
            assert(i@.ram =~= Seq::new(mem_size as nat, |j: int| 0u8));
            assert(i@ =~= (InstanceState {
                mem_base,
                mem_size,
                harts,
                rv64,
                running: false,
                ram: Seq::new(mem_size as nat, |j: int| 0u8),
                devices: Seq::<MmioRegion>::empty(),
            }));
        }
        Ok(i)
    }

    /// Creates a machine instance; the caller has checked the parameters.
    pub fn new(harts: usize, mem_base: u64, mem_size: usize, rv64: bool) -> (r: Self)
        requires
            creation_ok(harts, mem_size),
        ensures
            r@ == (InstanceState {
                mem_base,
                mem_size,
                harts,
                rv64,
                running: false,
                ram: Seq::new(mem_size as nat, |j: int| 0u8),
                devices: Seq::<MmioRegion>::empty(),
            }),
            r@.wf(),
    {
        match Self::try_new(harts, mem_base, mem_size, rv64) {
            Ok(i) => i,
            Err(_) => {
                proof {
                    assert(false);
                }
                unreached()
            },
        }
    }
}

impl Instance<Machine> {
    /// Registers a device in the guest address space.
    ///
    /// The descriptor moves to the runtime only on success; on rejection
    /// it comes back unchanged beside the error.  Attachment is rejected
    /// while the instance executes, for a type name with no byte before
    /// its terminator, and for a region that intersects one already
    /// attached; the instance is unchanged in every rejected case.
    pub fn try_attach_device<T>(&mut self, dev: DeviceDescriptor<T>) -> (r: Result<
        DeviceHandle<T>,
        (DeviceDescriptor<T>, DeviceAttachError),
    >)
        requires
            old(self)@.wf(),
            dev.raw.min_op_size <= dev.raw.max_op_size,
        ensures
            final(self)@.wf(),
            ({
                let reg = MmioRegion { address: dev.raw.address, size: dev.raw.size };
                match r {
                    Ok(h) => {
                        &&& !old(self)@.running
                        &&& c_content(dev.type_.name_bytes()).len() > 0
                        &&& !overlaps_any(old(self)@.devices, reg)
                        &&& old(self)@.devices.len() < 0x7fff_ffff
                        &&& h.id() == old(self)@.devices.len()
                        &&& h.wf()
                        &&& final(self)@ == (InstanceState {
                            devices: old(self)@.devices.push(reg),
                            ..old(self)@
                        })
                    },
                    Err((d, e)) => {
                        &&& final(self)@ == old(self)@
                        &&& d == dev
                        &&& e == (if old(self)@.running {
                            DeviceAttachError::VmIsRunning
                        } else if c_content(dev.type_.name_bytes()).len() == 0 {
                            DeviceAttachError::InvalidName
                        } else {
                            DeviceAttachError::RegionIsOccupied
                        })
                        &&& (old(self)@.running || c_content(dev.type_.name_bytes()).len() == 0
                            || overlaps_any(old(self)@.devices, reg) || old(self)@.devices.len() >= 0x7fff_ffff)
                    },
                }
            }),
    {
        if self.running {
            return Err((dev, DeviceAttachError::VmIsRunning));
        }
        let name_len = dev.type_.name().len();
        let empty_name = if name_len == 0 {
            true
        } else {
            let b = dev.type_.name().as_bytes()[0];
            b == 0
        };
        proof {
            lemma_first_nul(dev.type_.name_bytes());
            assert(c_content(dev.type_.name_bytes()).len() == first_nul(dev.type_.name_bytes()));
        }
        if empty_name {
            return Err((dev, DeviceAttachError::InvalidName));
        }
        let reg_address = dev.raw.address;
        let reg_size = dev.raw.size;
        let ghost reg = MmioRegion { address: reg_address, size: reg_size };
        let n = self.devices.len();
        let mut i: usize = 0;
        while i < n
            invariant
                i <= n,
                n == self@.devices.len(),
                *self == *old(self),
                old(self)@.wf(),
                !self@.running,
                c_content(dev.type_.name_bytes()).len() > 0,
                reg == (MmioRegion { address: reg_address, size: reg_size }),
                reg_address == dev.raw.address,
                reg_size == dev.raw.size,
                forall|j: int| 0 <= j < i ==> !region_overlaps(self@.devices[j], reg),
            decreases n - i,
        {
            let d = self.devices[i];
            let overlapping = (d.address as u128) < (reg_address as u128) + (reg_size as u128)
                && (reg_address as u128) < (d.address as u128) + (d.size as u128);
            assert(overlapping == region_overlaps(d, reg));
            if overlapping {
                return Err((dev, DeviceAttachError::RegionIsOccupied));
            }
            i += 1;
        }
        if n >= 0x7fff_ffff {
            return Err((dev, DeviceAttachError::RegionIsOccupied));
        }
        let handle_raw = n as i32;
        self.devices.push(MmioRegion { address: reg_address, size: reg_size });
        proof {
            assert forall|a: int, b: int|
                0 <= a < self@.devices.len() && 0 <= b < self@.devices.len() && a
                    != b implies !region_overlaps(self@.devices[a], self@.devices[b]) by {
                if a < self@.devices.len() - 1 && b < self@.devices.len() - 1 {
                    assert(!region_overlaps(old(self)@.devices[a], old(self)@.devices[b]));
                } else if a == self@.devices.len() - 1 {
                    assert(!region_overlaps(old(self)@.devices[b], reg));
                } else {
                    assert(!region_overlaps(old(self)@.devices[a], reg));
                }
            }
            assert(self@ =~= (InstanceState { devices: old(self)@.devices.push(reg), ..old(self)@ }));
        }
        Ok(DeviceHandle::from_raw(handle_raw))
    }

    /// The region of the attached device behind a raw handle id, when the
    /// id names one.
    pub fn attached_region(&self, raw: i32) -> (r: Option<MmioRegion>)
        ensures
            match r {
                Some(reg) => 0 <= raw < self@.devices.len() && reg == self@.devices[raw as int],
                None => raw < 0 || raw >= self@.devices.len(),
            },
    {
        if raw < 0 {
            return None;
        }
        let idx = raw as usize;
        if idx >= self.devices.len() {
            return None;
        }
        Some(self.devices[idx])
    }
}

impl Instance<Machine> {
    /// Whether the instance is currently executing.
    pub fn powered_on(&self) -> (r: bool)
        ensures
            r == self@.running,
    {
        self.running
    }

    /// Starts execution; rejected when the instance is already running.
    pub fn start(&mut self) -> (r: Result<(), InstanceStartError>)
        ensures
            match r {
                Ok(()) => !old(self)@.running && final(self)@ == (InstanceState {
                    running: true,
                    ..old(self)@
                }),
                Err(e) => old(self)@.running && e == InstanceStartError::AlreadyRunning && final(self)@ == old(self)@,
            },
    {
        if self.running {
            return Err(InstanceStartError::AlreadyRunning);
        }
        self.running = true;
        proof {
            assert(self@ =~= (InstanceState { running: true, ..old(self)@ }));
        }
        Ok(())
    }

    /// Stops execution; rejected when the instance is not running.
    pub fn pause(&mut self) -> (r: Result<(), InstancePauseError>)
        ensures
            match r {
                Ok(()) => old(self)@.running && final(self)@ == (InstanceState {
                    running: false,
                    ..old(self)@
                }),
                Err(e) => !old(self)@.running && e == InstancePauseError::NotRunning && final(self)@ == old(self)@,
            },
    {
        if !self.running {
            return Err(InstancePauseError::NotRunning);
        }
        self.running = false;
        proof {
            assert(self@ =~= (InstanceState { running: false, ..old(self)@ }));
        }
        Ok(())
    }
}

impl<K: InstanceKind> Instance<K> {
    /// Writes `data` into guest RAM at guest address `dst`, rejecting a
    /// range that leaves the RAM.
    pub fn write_ram(&mut self, dst: u64, data: &[u8]) -> (r: Result<(), MemoryAccessError>)
        requires
            old(self)@.wf(),
        ensures
            final(self)@.wf(),
            match r {
                Ok(()) => ram_range_ok(old(self)@, dst, data@.len()) && final(self)@ == (
                InstanceState {
                    ram: old(self)@.ram.subrange(0, dst - old(self)@.mem_base) + data@ + old(self)@.ram.subrange(
                        dst - old(self)@.mem_base + data@.len(),
                        old(self)@.ram.len() as int,
                    ),
                    ..old(self)@
                }),
                Err(e) => e == MemoryAccessError::OutOfBounds && !ram_range_ok(
                    old(self)@,
                    dst,
                    data@.len(),
                ) && final(self)@ == old(self)@,
            },
    {
        if dst < self.mem_base {
            return Err(MemoryAccessError::OutOfBounds);
        }
        let offset64 = dst - self.mem_base;
        if (offset64 as u128) + (data.len() as u128) > (self.mem_size as u128) {
            return Err(MemoryAccessError::OutOfBounds);
        }
        let offset = offset64 as usize;
        let n = data.len();
        let mut i: usize = 0;
        while i < n
            invariant
                i <= n,
                n == data@.len(),
                offset == dst - self@.mem_base,
                offset + n <= self@.ram.len(),
                offset + n <= usize::MAX,
                self@.ram.len() == old(self)@.ram.len(),
                self@.mem_base == old(self)@.mem_base,
                self@.mem_size == old(self)@.mem_size,
                self@.harts == old(self)@.harts,
                self@.rv64 == old(self)@.rv64,
                self@.running == old(self)@.running,
                self@.devices == old(self)@.devices,
                forall|k: int|
                    0 <= k < self@.ram.len() ==> self@.ram[k] == (if offset <= k < offset + i {
                        data@[k - offset]
                    } else {
                        old(self)@.ram[k]
                    }),
            decreases n - i,
        {
            self.ram[offset + i] = data[i];
            i += 1;
        }
        proof {
            assert(self@.ram =~= old(self)@.ram.subrange(0, offset as int) + data@ + old(self)@.ram.subrange(offset + n, old(self)@.ram.len() as int));
            assert(self@ =~= (InstanceState {
                ram: old(self)@.ram.subrange(0, dst - old(self)@.mem_base) + data@ + old(self)@.ram.subrange(
                    dst - old(self)@.mem_base + data@.len(),
                    old(self)@.ram.len() as int,
                ),
                ..old(self)@
            }));
        }
        Ok(())
    }

    /// Fills `dest` from guest RAM starting at guest address `src`,
    /// rejecting a range that leaves the RAM; `dest` keeps its length.
    pub fn read_ram_to(&self, src: u64, dest: &mut Vec<u8>) -> (r: Result<(), MemoryAccessError>)
        requires
            self@.wf(),
        ensures
            final(dest)@.len() == old(dest)@.len(),
            match r {
                Ok(()) => ram_range_ok(self@, src, old(dest)@.len()) && final(dest)@
                    == self@.ram.subrange(
                    src - self@.mem_base,
                    src - self@.mem_base + old(dest)@.len(),
                ),
                Err(e) => e == MemoryAccessError::OutOfBounds && !ram_range_ok(
                    self@,
                    src,
                    old(dest)@.len(),
                ) && *final(dest) == *old(dest),
            },
    {
        if src < self.mem_base {
            return Err(MemoryAccessError::OutOfBounds);
        }
        let offset64 = src - self.mem_base;
        if (offset64 as u128) + (dest.len() as u128) > (self.mem_size as u128) {
            return Err(MemoryAccessError::OutOfBounds);
        }
        let offset = offset64 as usize;
        let n = dest.len();
        let mut i: usize = 0;
        while i < n
            invariant
                i <= n,
                n == dest@.len(),
                offset == src - self@.mem_base,
                offset + n <= self@.ram.len(),
                offset + n <= usize::MAX,
                dest@.len() == old(dest)@.len(),
                forall|k: int|
                    0 <= k < dest@.len() ==> dest@[k] == (if 0 <= k < i {
                        self@.ram[offset + k]
                    } else {
                        old(dest)@[k]
                    }),
            decreases n - i,
        {
            dest[i] = self.ram[offset + i];
            i += 1;
        }
        assert(dest@ =~= self@.ram.subrange(offset as int, offset + n));
        Ok(())
    }
}

//
// Userland
//

impl Instance<Userland> {
    /// Creates a userland instance: no guest RAM of its own, no execution
    /// units until threads are created.
    pub fn try_new(rv64: bool) -> (r: Result<Self, InstanceCreateError>)
        ensures
            match r {
                Ok(i) => i@ == (InstanceState {
                    mem_base: 0,
                    mem_size: 0,
                    harts: 0,
                    rv64,
                    running: false,
                    ram: Seq::<u8>::empty(),
                    devices: Seq::<MmioRegion>::empty(),
                }) && i@.wf(),
                Err(_) => false,
            },
    {
        let i = Instance {
            mem_base: 0,
            mem_size: 0,
            harts: 0,
            rv64,
            running: false,
            ram: Vec::new(),
            devices: Vec::new(),
            phantom: PhantomData,
        };
        proof {
            assert(i@ =~= (InstanceState {
                mem_base: 0,
                mem_size: 0,
                harts: 0,
                rv64,
                running: false,
                ram: Seq::<u8>::empty(),
                devices: Seq::<MmioRegion>::empty(),
            }));
        }
        Ok(i)
    }

    /// Creates a userland instance.
    pub fn new(rv64: bool) -> (r: Self)
        ensures
            r@ == (InstanceState {
                mem_base: 0,
                mem_size: 0,
                harts: 0,
                rv64,
                running: false,
                ram: Seq::<u8>::empty(),
                devices: Seq::<MmioRegion>::empty(),
            }),
            r@.wf(),
    {
        match Self::try_new(rv64) {
            Ok(i) => i,
            Err(_) => {
                proof {
                    assert(false);
                }
                unreached()
            },
        }
    }
}

/// Once one device is attached, any region that intersects its region is
/// rejected by the next attachment, while the first device stays in the
/// state, reachable at its handle id.
pub proof fn lemma_overlap_rejected(devs: Seq<MmioRegion>, first: MmioRegion, second: MmioRegion)
    requires
        region_overlaps(first, second),
    ensures
        overlaps_any(devs.push(first), second),
        devs.push(first)[devs.len() as int] == first,
{
    assert(devs.push(first)[devs.len() as int] == first);
    assert(region_overlaps(devs.push(first)[devs.len() as int], second));
}

} // verus!
