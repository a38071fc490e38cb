use pci_device::address::{PciAddress, PciInterruptPin};
use pci_device::allocator::{AllocationError, SystemAllocator};
use pci_device::device::{ConfigSpaceError, Error, PciDevice};
use pci_device::events::EventFd;
use pci_device::sample::SampleDevice;
use pci_device::slot::DeviceSlot;

fn device(io_bar_sizes: Vec<u64>, cap_ids: Vec<u8>) -> SampleDevice {
    SampleDevice::new(
        String::from("sample"),
        io_bar_sizes,
        vec![0u8; 0x100],
        Vec::new(),
        cap_ids,
        vec![5],
    )
}

#[test]
fn allocator_refuses_inverted_pools() {
    assert!(SystemAllocator::new(0x2000, 0x1000, 0, 0x1000).is_none());
    assert!(SystemAllocator::new(0, 0x1000, 0x2000, 0x1000).is_none());
    assert!(SystemAllocator::new(0x1000, 0x1000, 0, 0).is_some());
}

#[test]
fn allocator_grants_are_disjoint_and_in_order() {
    let mut alloc = SystemAllocator::new(0xC000, 0x10000, 0, 0x1000).unwrap();
    assert_eq!(alloc.allocate_io(0x1000), Ok(0xC000));
    assert_eq!(alloc.allocate_io(0x800), Ok(0xD000));
    assert_eq!(alloc.allocate_io(0), Err(AllocationError::SizeZero));
    assert_eq!(alloc.allocate_io(0x10000), Err(AllocationError::OutOfSpace));
    assert_eq!(alloc.allocate_mmio(0x1000), Ok(0));
}

#[test]
fn no_bars_means_no_allocator_interaction() {
    let mut dev = device(Vec::new(), Vec::new());
    let mut alloc = SystemAllocator::new(0xC000, 0x10000, 0, 0x1000).unwrap();
    let untouched = alloc;
    let io = dev.allocate_io_bars(&mut alloc).unwrap();
    let mem = dev.allocate_device_bars(&mut alloc).unwrap();
    assert!(io.is_empty());
    assert!(mem.is_empty());
    assert_eq!(alloc, untouched);
}

#[test]
fn failed_allocation_carries_size_and_cause() {
    let mut dev = device(vec![0x20, 0x1000], Vec::new());
    let mut alloc = SystemAllocator::new(0, 0x100, 0, 0).unwrap();
    let err = dev.allocate_io_bars(&mut alloc).unwrap_err();
    assert_eq!(err, Error::IoAllocationFailed(0x1000, AllocationError::OutOfSpace));
    // The grant before the failure stays granted; the device records nothing.
    assert_eq!(alloc.io_next, 0x20);
    assert!(dev.bars.is_empty());

    let mut dev = device(vec![0], Vec::new());
    let err = dev.allocate_io_bars(&mut alloc).unwrap_err();
    assert_eq!(err, Error::IoAllocationFailed(0, AllocationError::SizeZero));
}

#[test]
fn capability_registration_fills_the_chain() {
    let mut dev = device(Vec::new(), vec![0x09, 0x11]);
    assert_eq!(dev.register_device_capabilities(), Ok(()));
    assert_eq!(dev.cap_chain, vec![0x09, 0x11]);

    // Written once at setup: later guest traffic never touches the chain.
    pci_device::bus::config_register_write(&mut dev, 1, 0, &[0xFF; 4]);
    pci_device::bus::write(&mut dev, 0, &[0xEE; 8]);
    let mut buf = vec![0u8; 4];
    pci_device::bus::read(&mut dev, 0, &mut buf);
    assert_eq!(dev.cap_chain, vec![0x09, 0x11]);

    let mut crowded = device(Vec::new(), vec![0u8; 49]);
    assert_eq!(
        crowded.register_device_capabilities(),
        Err(Error::CapabilitiesSetup(ConfigSpaceError::CapabilitySpaceFull))
    );
}

#[test]
fn error_messages_are_exact() {
    assert_eq!(
        Error::IoAllocationFailed(4096, AllocationError::OutOfSpace).describe(),
        "failed to allocate space for an IO BAR, size=4096: out of space"
    );
    assert_eq!(
        Error::IoAllocationFailed(0, AllocationError::SizeZero).describe(),
        "failed to allocate space for an IO BAR, size=0: allocation size of zero"
    );
    assert_eq!(
        Error::IoAllocationFailed(u64::MAX, AllocationError::OutOfSpace).describe(),
        "failed to allocate space for an IO BAR, size=18446744073709551615: out of space"
    );
    assert_eq!(
        Error::IoRegistrationFailed(49152, ConfigSpaceError::BarInUse).describe(),
        "failed to register an IO BAR, addr=49152 err=BAR register already in use"
    );
    assert_eq!(
        Error::CapabilitiesSetup(ConfigSpaceError::CapabilitySpaceFull).describe(),
        "failed to add capability capability space full"
    );
    assert_eq!(
        Error::ExternalResourceFailed.describe(),
        "failed to create backend resource client"
    );
}

#[test]
fn sandbox_notification_fires_once_after_enumeration() {
    let mut slot = DeviceSlot::new(device(Vec::new(), Vec::new()));
    // Not before descriptor enumeration.
    assert!(!slot.on_device_sandboxed());
    let fds = slot.keep_fds().unwrap();
    assert_eq!(fds, vec![5]);
    // Enumeration happens exactly once.
    assert!(slot.keep_fds().is_none());
    // Fires now, and at most once.
    assert!(slot.on_device_sandboxed());
    assert!(!slot.on_device_sandboxed());
}

#[test]
fn slot_runs_setup_in_order() {
    let mut slot = DeviceSlot::new(device(vec![0x1000], vec![0x09]));
    let mut alloc = SystemAllocator::new(0xC000, 0x10000, 0x1_0000_0000, 0x2_0000_0000).unwrap();

    assert!(slot.assign_address(PciAddress { bus: 0, dev: 1, func: 0 }));
    assert!(!slot.assign_address(PciAddress { bus: 0, dev: 2, func: 0 }));

    // IRQ, capabilities and doorbells wait for BAR allocation.
    assert!(!slot.assign_irq(EventFd::new(10), EventFd::new(11), 5, PciInterruptPin::IntA));
    assert!(slot.register_device_capabilities().is_none());
    assert!(slot.ioeventfds().is_none());

    let bars = slot.allocate_io_bars(&mut alloc).unwrap().unwrap();
    assert_eq!(bars, vec![(0xC000, 0x1000)]);
    assert!(slot.allocate_io_bars(&mut alloc).is_none());
    let mem = slot.allocate_device_bars(&mut alloc).unwrap().unwrap();
    assert!(mem.is_empty());

    assert!(slot.assign_irq(EventFd::new(10), EventFd::new(11), 5, PciInterruptPin::IntA));
    assert!(!slot.assign_irq(EventFd::new(12), EventFd::new(13), 5, PciInterruptPin::IntA));
    assert_eq!(slot.register_device_capabilities(), Some(Ok(())));
    assert!(slot.register_device_capabilities().is_none());
    assert!(slot.ioeventfds().is_some());

    assert_eq!(slot.keep_fds(), Some(vec![5]));
    assert!(slot.on_device_sandboxed());

    // After sandboxing, no new resources.
    let mut late = DeviceSlot::new(device(vec![0x1000], Vec::new()));
    late.keep_fds();
    assert!(late.on_device_sandboxed());
    assert!(late.allocate_io_bars(&mut alloc).is_none());
    assert!(late.allocate_device_bars(&mut alloc).is_none());

    // Guest traffic still flows through a sandboxed slot.
    slot.config_register_write(2, 0, &[1, 0, 0, 0]);
    assert_eq!(slot.config_register_read(2), 1);
    slot.config_register_write(2, 3, &[0xAA, 0xBB]);
    assert_eq!(slot.config_register_read(2), 1);
    assert_eq!(slot.debug_label(), "sample");
}
