//! Builders for the virtual-machine instance and for device descriptors.

use vstd::pervasive::unreached;
use vstd::prelude::*;

use crate::dev::DeviceDescriptor;
use crate::dev::MmioType;
use crate::error::InstanceCreateError;
use crate::instance::creation_ok;
use crate::instance::Instance;
use crate::instance::InstanceState;
use crate::instance::Machine;
use crate::types::RawDevice;

verus! {

/// Collects the parameters of a [`Machine`] instance, starting from the
/// defaults: one execution unit, the default RAM base, 4096 bytes of RAM,
/// the 32-bit architecture.
#[derive(Clone, Debug)]
pub struct InstanceBuilder {
    /// Number of execution units.
    pub harts: usize,
    /// Base guest address of RAM.
    pub mem_base: u64,
    /// Size of guest RAM in bytes.
    pub mem_size: usize,
    /// Whether to emulate the 64-bit architecture.
    pub rv64: bool,
}

impl Default for InstanceBuilder {
    /// The default parameters.
    fn default() -> (r: Self)
        ensures
            r == (InstanceBuilder {
                harts: 1,
                mem_base: Instance::<Machine>::DEFAULT_MEMBASE,
                mem_size: 4096,
                rv64: false,
            }),
    {
        InstanceBuilder {
            harts: 1,
            mem_base: Instance::<Machine>::DEFAULT_MEMBASE,
            mem_size: 4096,
            rv64: false,
        }
    }
}

impl InstanceBuilder {
    /// Builds the instance, rejecting parameters the runtime cannot host.
    pub fn try_build(self) -> (r: Result<Instance<Machine>, InstanceCreateError>)
        ensures
            match r {
                Ok(i) => creation_ok(self.harts, self.mem_size) && i@ == (InstanceState {
                    mem_base: self.mem_base,
                    mem_size: self.mem_size,
                    harts: self.harts,
                    rv64: self.rv64,
                    running: false,
                    ram: Seq::new(self.mem_size as nat, |j: int| 0u8),
                    devices: Seq::empty(),
                }) && i@.wf(),
                Err(e) => !creation_ok(self.harts, self.mem_size) && e
                    == InstanceCreateError::FailedToAllocate,
            },
    {
        Instance::<Machine>::try_new(self.harts, self.mem_base, self.mem_size, self.rv64)
    }

    /// Builds the instance; the caller has checked the parameters.
    pub fn build(self) -> (r: Instance<Machine>)
        requires
            creation_ok(self.harts, self.mem_size),
        ensures
            r@ == (InstanceState {
                mem_base: self.mem_base,
                mem_size: self.mem_size,
                harts: self.harts,
                rv64: self.rv64,
                running: false,
                ram: Seq::new(self.mem_size as nat, |j: int| 0u8),
                devices: Seq::empty(),
            }),
            r@.wf(),
    {
        Instance::<Machine>::new(self.harts, self.mem_base, self.mem_size, self.rv64)
    }
}

impl InstanceBuilder {
    /// Sets the base guest address of RAM.
    pub fn mem_base(self, base: u64) -> (r: Self)
        ensures
            r == (InstanceBuilder { mem_base: base, ..self }),
    {
        let mut s = self;
        s.mem_base = base;
        s
    }

    /// Sets the size of guest RAM in bytes.
    pub fn mem_size(self, size: usize) -> (r: Self)
        ensures
            r == (InstanceBuilder { mem_size: size, ..self }),
    {
        let mut s = self;
        s.mem_size = size;
        s
    }

    /// Selects the 64-bit architecture.
    pub fn rv64(self) -> (r: Self)
        ensures
            r == (InstanceBuilder { rv64: true, ..self }),
    {
        let mut s = self;
        s.rv64 = true;
        s
    }

    /// Sets the number of execution units.
    pub fn harts(self, harts: usize) -> (r: Self)
        ensures
            r == (InstanceBuilder { harts, ..self }),
    {
        let mut s = self;
        s.harts = harts;
        s
    }
}

/// Collects the parts of a device descriptor; every part must be set
/// before the descriptor is built.
pub struct DeviceBuilder<T> {
    /// Base guest address of the device region, once set.
    pub address: Option<u64>,
    /// Size of the device region in bytes, once set.
    pub size: Option<usize>,
    /// Smallest and largest accepted operation size in bytes, once set.
    pub op_sizes: Option<(u8, u8)>,
    /// The device state, once set.
    pub data: Option<T>,
    /// The type descriptor, once set.
    pub type_: Option<MmioType<T>>,
}

impl<T> Default for DeviceBuilder<T> {
    /// A builder with nothing set.
    fn default() -> (r: Self)
        ensures
            r.address is None,
            r.size is None,
            r.op_sizes is None,
            r.data is None,
            r.type_ is None,
    {
        DeviceBuilder { address: None, size: None, op_sizes: None, data: None, type_: None }
    }
}

impl<T> DeviceBuilder<T> {
    /// Sets the type descriptor.
    pub fn device_type(self, ty: MmioType<T>) -> (r: Self)
        ensures
            r == (DeviceBuilder { type_: Some(ty), ..self }),
    {
        self.type_(ty)
    }

    /// Sets the type descriptor.
    pub fn type_(self, ty: MmioType<T>) -> (r: Self)
        ensures
            r == (DeviceBuilder { type_: Some(ty), ..self }),
    {
        let mut s = self;
        s.type_ = Some(ty);
        s
    }

    /// Sets the operation-size bounds.
    pub fn op_size(self, min_op_size: u8, max_op_size: u8) -> (r: Self)
        ensures
            r == (DeviceBuilder { op_sizes: Some((min_op_size, max_op_size)), ..self }),
    {
        let mut s = self;
        s.op_sizes = Some((min_op_size, max_op_size));
        s
    }

    /// Sets the device state.
    pub fn data(self, data: T) -> (r: Self)
        ensures
            r == (DeviceBuilder { data: Some(data), ..self }),
    {
        let mut s = self;
        s.data = Some(data);
        s
    }

    /// Sets the size of the device region in bytes.
    pub fn size(self, size: usize) -> (r: Self)
        ensures
            r == (DeviceBuilder { size: Some(size), ..self }),
    {
        let mut s = self;
        s.size = Some(size);
        s
    }

    /// Sets the base guest address of the device region.
    pub fn address(self, addr: u64) -> (r: Self)
        ensures
            r == (DeviceBuilder { address: Some(addr), ..self }),
    {
        let mut s = self;
        s.address = Some(addr);
        s
    }

    /// Assembles the descriptor; every part must have been set.
    pub fn build(self) -> (r: DeviceDescriptor<T>)
        requires
            self.address is Some,
            self.size is Some,
            self.op_sizes is Some,
            self.data is Some,
            self.type_ is Some,
        ensures
            r.raw == (RawDevice {
                address: self.address->Some_0,
                size: self.size->Some_0,
                min_op_size: self.op_sizes->Some_0.0,
                max_op_size: self.op_sizes->Some_0.1,
                data: self.data->Some_0,
            }),
            r.type_ == self.type_->Some_0,
    {
        let address = match self.address {
            Some(a) => a,
            None => unreached(),
        };
        let size = match self.size {
            Some(s) => s,
            None => unreached(),
        };
        let (min_op_size, max_op_size) = match self.op_sizes {
            Some(b) => b,
            None => unreached(),
        };
        let data = match self.data {
            Some(d) => d,
            None => unreached(),
        };
        let type_ = match self.type_ {
            Some(t) => t,
            None => unreached(),
        };
        DeviceDescriptor::new(address, size, min_op_size, max_op_size, data, type_)
    }
}

} // verus!
