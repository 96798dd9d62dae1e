use std::cell::Cell;
use std::rc::Rc;

use rvvm::builders::DeviceBuilder;
use rvvm::dev::dispatch_read;
use rvvm::dev::dispatch_remove;
use rvvm::dev::dispatch_reset;
use rvvm::dev::dispatch_update;
use rvvm::dev::dispatch_write;
use rvvm::dev::Device;
use rvvm::dev::DeviceData;
use rvvm::dev::DeviceDescriptor;
use rvvm::dev::DeviceExt;
use rvvm::dev::MmioType;
use rvvm::error::MemError;
use rvvm::error::SerializeError;
use rvvm::rw_event::RwEvent;
use rvvm::types::RawDevice;
use rvvm::utils::CChars;
use rvvm::utils::TypeSafetyWrapper;

/// A device that fills the accessed bytes of its region with a marker
/// byte on reads and zeroes them on writes.
struct FillDev {
    raw: RawDevice<u8>,
}

impl DeviceData for FillDev {
    type Ty = u8;

    fn data(&self) -> &u8 {
        &self.raw.data
    }

    fn data_mut(&mut self) -> &mut u8 {
        &mut self.raw.data
    }
}

impl DeviceExt for FillDev {
    type DataTy = u8;

    fn new(address: u64, size: usize, min_op_size: u8, max_op_size: u8, data: u8) -> FillDev {
        FillDev { raw: RawDevice::new(address, size, min_op_size, max_op_size, data) }
    }
}

impl Device<u8> for FillDev {
    type Error = ();

    fn read(&self, dest: &mut RwEvent) -> Result<(), ()> {
        let fill = self.raw.data;
        let mut k = 0usize;
        while k < dest.affected as usize {
            dest.region[dest.offset + k] = fill;
            k += 1;
        }
        Ok(())
    }

    fn write(&self, dest: &mut RwEvent) -> Result<(), ()> {
        let mut k = 0usize;
        while k < dest.affected as usize {
            dest.region[dest.offset + k] = 0;
            k += 1;
        }
        Ok(())
    }

    fn name() -> Vec<u8> {
        b"fill".to_vec()
    }
}

/// Device state whose destruction is observable through a counter.
struct Marker {
    drops: Rc<Cell<u32>>,
}

impl Drop for Marker {
    fn drop(&mut self) {
        self.drops.set(self.drops.get() + 1);
    }
}

/// A device with a custom remove hook that counts its invocations.
struct CountingDev {
    raw: RawDevice<Marker>,
    removes: Rc<Cell<u32>>,
    resets: Rc<Cell<u32>>,
    updates: Rc<Cell<u32>>,
}

impl DeviceData for CountingDev {
    type Ty = Marker;

    fn data(&self) -> &Marker {
        &self.raw.data
    }

    fn data_mut(&mut self) -> &mut Marker {
        &mut self.raw.data
    }
}

impl Device<Marker> for CountingDev {
    type Error = ();

    fn read(&self, _dest: &mut RwEvent) -> Result<(), ()> {
        Ok(())
    }

    fn write(&self, _dest: &mut RwEvent) -> Result<(), ()> {
        Err(())
    }

    fn name() -> Vec<u8> {
        b"counting".to_vec()
    }

    fn remove(&mut self) {
        self.removes.set(self.removes.get() + 1);
    }

    fn reset(&mut self) {
        self.resets.set(self.resets.get() + 1);
    }

    fn update(&mut self) {
        self.updates.set(self.updates.get() + 1);
    }
}

#[test]
fn data_returns_supplied_value() {
    let dev = RawDevice::new(0x1000, 64, 1, 8, 1024i32);
    assert_eq!(*dev.data(), 1024);
    let mut dev = dev;
    *dev.data_mut() = 7;
    assert_eq!(*dev.data(), 7);
}

#[test]
fn data_returns_supplied_value_for_zero_sized_state() {
    let dev = RawDevice::new(0x1000, 16, 1, 1, ());
    assert_eq!(*dev.data(), ());
    drop(dev);
}

#[test]
fn device_ext_constructor_fills_descriptor() {
    let dev = FillDev::new(0x40, 32, 1, 4, 0xCD);
    assert_eq!(dev.raw.address, 0x40);
    assert_eq!(dev.raw.size, 32);
    assert_eq!(dev.raw.min_op_size, 1);
    assert_eq!(dev.raw.max_op_size, 4);
    assert_eq!(*dev.data(), 0xCD);
}

#[test]
fn read_trampoline_touches_only_declared_region() {
    let dev = FillDev::new(0, 4, 1, 2, 0xAB);
    let mut buffer = vec![0x11u8; 8];
    let ok = dispatch_read(&dev, 4, &mut buffer, 1, 2);
    assert!(ok);
    assert_eq!(buffer, vec![0x11, 0xAB, 0xAB, 0x11, 0x11, 0x11, 0x11, 0x11]);
}

#[test]
fn write_trampoline_touches_only_declared_region() {
    let dev = FillDev::new(0, 4, 1, 4, 0xAB);
    let mut buffer = vec![0x11u8; 6];
    let ok = dispatch_write(&dev, 4, &mut buffer, 0, 3);
    assert!(ok);
    assert_eq!(buffer, vec![0, 0, 0, 0x11, 0x11, 0x11]);
}

#[test]
fn failing_device_write_reports_false() {
    let drops = Rc::new(Cell::new(0));
    let dev = CountingDev {
        raw: RawDevice::new(0, 4, 1, 1, Marker { drops: drops.clone() }),
        removes: Rc::new(Cell::new(0)),
        resets: Rc::new(Cell::new(0)),
        updates: Rc::new(Cell::new(0)),
    };
    let mut buffer = vec![0u8; 4];
    assert!(dispatch_read(&dev, 4, &mut buffer, 0, 1));
    assert!(!dispatch_write(&dev, 4, &mut buffer, 0, 1));
}

#[test]
fn remove_trampoline_runs_hook_once_then_releases_state() {
    let drops = Rc::new(Cell::new(0));
    let removes = Rc::new(Cell::new(0));
    let dev = CountingDev {
        raw: RawDevice::new(0, 4, 1, 1, Marker { drops: drops.clone() }),
        removes: removes.clone(),
        resets: Rc::new(Cell::new(0)),
        updates: Rc::new(Cell::new(0)),
    };
    assert_eq!(removes.get(), 0);
    assert_eq!(drops.get(), 0);
    dispatch_remove(dev);
    assert_eq!(removes.get(), 1);
    assert_eq!(drops.get(), 1);
}

#[test]
fn reset_and_update_trampolines_forward() {
    let drops = Rc::new(Cell::new(0));
    let resets = Rc::new(Cell::new(0));
    let updates = Rc::new(Cell::new(0));
    let mut dev = CountingDev {
        raw: RawDevice::new(0, 4, 1, 1, Marker { drops: drops.clone() }),
        removes: Rc::new(Cell::new(0)),
        resets: resets.clone(),
        updates: updates.clone(),
    };
    dispatch_reset(&mut dev);
    dispatch_reset(&mut dev);
    dispatch_update(&mut dev);
    assert_eq!(resets.get(), 2);
    assert_eq!(updates.get(), 1);
}

#[test]
fn type_name_serializes_and_reads_back_with_terminator() {
    let ty: MmioType<u32> = MmioType::new(CChars::new_terminated(b"UART".to_vec()).unwrap());
    let mut buffer = vec![0xFFu8; 5];
    match ty.try_serialize_to(&mut buffer) {
        Ok(n) => assert_eq!(n, 5),
        Err(_) => panic!("serialization into an exact-size buffer failed"),
    }
    assert_eq!(buffer, b"UART\0".to_vec());
    let back = CChars::try_new(buffer).unwrap();
    assert_eq!(back.content_bytes(), b"UART".to_vec());
}

#[test]
fn type_name_serialization_needs_space() {
    let ty: MmioType<u32> = MmioType::new(CChars::new_terminated(b"UART".to_vec()).unwrap());
    let mut buffer = vec![0xFFu8; 4];
    match ty.try_serialize_to(&mut buffer) {
        Err(e) => assert_eq!(e, SerializeError::InsufficientSpace),
        Ok(_) => panic!("serialization into a short buffer succeeded"),
    }
    assert_eq!(buffer, vec![0xFF; 4]);
}

#[test]
fn descriptor_assembles_parts() {
    let ty: MmioType<i32> = MmioType::new(CChars::new_terminated(b"dev".to_vec()).unwrap());
    let dev = DeviceDescriptor::new(0x2000, 256, 1, 8, -5i32, ty);
    assert_eq!(dev.raw.address, 0x2000);
    assert_eq!(dev.raw.size, 256);
    assert_eq!(dev.raw.min_op_size, 1);
    assert_eq!(dev.raw.max_op_size, 8);
    assert_eq!(dev.raw.data, -5);
    assert_eq!(dev.type_.name().as_bytes().clone(), b"dev\0".to_vec());
}

#[test]
fn rw_event_try_write_replaces_exact_range() {
    let mut event = RwEvent::new(vec![0u8; 4], 2, 0);
    assert!(event.try_write(1, &[9, 9]).is_ok());
    assert_eq!(event.region, vec![0, 9, 9, 0]);
}

#[test]
fn rw_event_try_write_rejects_offset_past_end() {
    let mut event = RwEvent::new(vec![0u8; 4], 1, 0);
    match event.try_write(5, &[1]) {
        Err(e) => assert_eq!(e, MemError::InvalidMemoryRegion),
        Ok(_) => panic!("write past the region end succeeded"),
    }
    assert_eq!(event.region, vec![0u8; 4]);
}

#[test]
fn rw_event_try_write_rejects_long_buffer() {
    let mut event = RwEvent::new(vec![0u8; 4], 1, 0);
    match event.try_write(2, &[1, 2, 3]) {
        Err(e) => assert_eq!(e, MemError::TooLongBuffer),
        Ok(_) => panic!("write of an oversized buffer succeeded"),
    }
    assert_eq!(event.region, vec![0u8; 4]);
}

/// A role type for the wrapper round-trip test.
struct Role;

#[test]
fn type_safety_wrapper_round_trip() {
    let wrapped: TypeSafetyWrapper<i32, Role> = TypeSafetyWrapper::wrap(5);
    assert_eq!(wrapped.__unwrap(), 5);
}

#[test]
fn device_builder_assembles_descriptor() {
    let builder: DeviceBuilder<u16> = DeviceBuilder::default();
    let dev = builder
        .address(0x3000)
        .size(64)
        .op_size(1, 2)
        .data(300u16)
        .device_type(MmioType::new(CChars::new_terminated(b"built".to_vec()).unwrap()))
        .build();
    assert_eq!(dev.raw.address, 0x3000);
    assert_eq!(dev.raw.size, 64);
    assert_eq!(dev.raw.min_op_size, 1);
    assert_eq!(dev.raw.max_op_size, 2);
    assert_eq!(dev.raw.data, 300);
    assert_eq!(dev.type_.name().as_bytes().clone(), b"built\0".to_vec());
}
