use pci_device::address::PciAddress;
use pci_device::bus;
use pci_device::device::PciDevice;
use pci_device::events::{Datamatch, EventFd};
use pci_device::sample::SampleDevice;

fn plain_device() -> SampleDevice {
    SampleDevice::new(
        String::from("sample"),
        vec![0x1000],
        vec![0u8; 0x1000],
        Vec::new(),
        Vec::new(),
        vec![3, 4],
    )
}

fn allocator_at(io_base: u64) -> pci_device::allocator::SystemAllocator {
    pci_device::allocator::SystemAllocator::new(io_base, io_base + 0x10000, 0x1_0000_0000, 0x2_0000_0000)
        .unwrap()
}

#[test]
fn config_write_in_window_is_applied() {
    let mut dev = plain_device();
    bus::config_register_write(&mut dev, 2, 0, &[0x78, 0x56, 0x34, 0x12]);
    assert_eq!(bus::config_register_read(&dev, 2), 0x1234_5678);
}

#[test]
fn config_write_partial_window_merges_bytes() {
    let mut dev = plain_device();
    bus::config_register_write(&mut dev, 2, 0, &[0x78, 0x56, 0x34, 0x12]);
    bus::config_register_write(&mut dev, 2, 1, &[0xAA, 0xBB]);
    assert_eq!(bus::config_register_read(&dev, 2), 0x12BB_AA78);
}

#[test]
fn config_write_past_window_leaves_register_unchanged() {
    // A write at index 2, offset 3, length 2 bytes (3 + 2 > 4) is dropped.
    let mut dev = plain_device();
    bus::config_register_write(&mut dev, 2, 0, &[0x78, 0x56, 0x34, 0x12]);
    bus::config_register_write(&mut dev, 2, 3, &[0xAA, 0xBB]);
    assert_eq!(bus::config_register_read(&dev, 2), 0x1234_5678);
}

#[test]
fn config_write_with_huge_offset_is_dropped() {
    let mut dev = plain_device();
    bus::config_register_write(&mut dev, 1, 0, &[1, 2, 3, 4]);
    bus::config_register_write(&mut dev, 1, u64::MAX, &[0xFF]);
    bus::config_register_write(&mut dev, 1, 0, &[0xFF, 0xFF, 0xFF, 0xFF, 0xFF]);
    assert_eq!(bus::config_register_read(&dev, 1), 0x0403_0201);
}

#[test]
fn config_read_out_of_range_is_innocuous() {
    let dev = plain_device();
    assert_eq!(bus::config_register_read(&dev, 1000), 0);
    assert_eq!(bus::config_register_read(&dev, usize::MAX), 0);
}

#[test]
fn bar_access_is_range_relative() {
    // One IO BAR of length 0x1000; the allocator grants 0xC000; a guest
    // access at 0xC000 + 0x10 reaches the device's internal offset 0x10.
    let mut dev = plain_device();
    let mut alloc = allocator_at(0xC000);
    let bars = dev.allocate_io_bars(&mut alloc).unwrap();
    assert_eq!(bars, vec![(0xC000, 0x1000)]);

    // The guest writes the granted base into the BAR register.
    bus::config_register_write(&mut dev, 4, 0, &[0x00, 0xC0, 0x00, 0x00]);
    assert_eq!(bus::config_register_read(&dev, 4), 0xC000);

    let offset = bus::bar_offset(0xC000, 0x1000, 0xC000 + 0x10).unwrap();
    assert_eq!(offset, 0x10);

    bus::write(&mut dev, offset, &[0xAB]);
    let mut data = vec![0u8; 1];
    bus::read(&mut dev, offset, &mut data);
    assert_eq!(data, vec![0xAB]);

    // The device saw offset 0x10, not 0x1000 + 0x10.
    let mut probe = vec![0u8; 1];
    bus::read(&mut dev, 0x10, &mut probe);
    assert_eq!(probe, vec![0xAB]);
}

#[test]
fn bar_offset_outside_range_is_none() {
    assert_eq!(bus::bar_offset(0xC000, 0x1000, 0xBFFF), None);
    assert_eq!(bus::bar_offset(0xC000, 0x1000, 0xD000), None);
    assert_eq!(bus::bar_offset(0xC000, 0x1000, 0xC000), Some(0));
}

#[test]
fn bar_read_beyond_memory_is_innocuous() {
    let mut dev = plain_device();
    let mut data = vec![0xEEu8; 4];
    bus::read(&mut dev, u64::MAX - 1, &mut data);
    assert_eq!(data, vec![0, 0, 0, 0]);
    bus::write(&mut dev, u64::MAX - 1, &[1, 2, 3]);
}

#[test]
fn assigned_address_reads_stay_identical() {
    let mut dev = plain_device();
    assert_eq!(dev.address(), None);
    dev.assign_address(PciAddress { bus: 0, dev: 3, func: 1 });
    let first = dev.address();
    assert_eq!(first, Some(PciAddress { bus: 0, dev: 3, func: 1 }));
    // Later guest traffic does not disturb the identity.
    bus::config_register_write(&mut dev, 0, 0, &[1, 2, 3, 4]);
    bus::write(&mut dev, 0, &[9]);
    assert_eq!(dev.address(), first);
    assert_eq!(dev.address(), first);
}

#[test]
fn boxed_handle_is_transparent() {
    // The same operation sequence through the type-erased handle and on the
    // bare device: identical results and identical observable state.
    let mut direct = plain_device();
    let mut boxed: Box<SampleDevice> = Box::new(plain_device());
    let mut alloc_a = allocator_at(0xC000);
    let mut alloc_b = allocator_at(0xC000);

    assert_eq!(
        direct.allocate_io_bars(&mut alloc_a).unwrap(),
        boxed.allocate_io_bars(&mut alloc_b).unwrap()
    );
    direct.assign_address(PciAddress { bus: 1, dev: 2, func: 0 });
    boxed.assign_address(PciAddress { bus: 1, dev: 2, func: 0 });
    bus::config_register_write(&mut direct, 3, 1, &[0x5A]);
    bus::config_register_write(&mut boxed, 3, 1, &[0x5A]);
    bus::write(&mut direct, 0x20, &[7, 8]);
    bus::write(&mut boxed, 0x20, &[7, 8]);

    assert_eq!(direct.debug_label(), boxed.debug_label());
    assert_eq!(direct.keep_fds(), boxed.keep_fds());
    for idx in 0..16 {
        assert_eq!(
            bus::config_register_read(&direct, idx),
            bus::config_register_read(&boxed, idx)
        );
    }
    let mut a = vec![0u8; 4];
    let mut b = vec![0u8; 4];
    bus::read(&mut direct, 0x20, &mut a);
    bus::read(&mut boxed, 0x20, &mut b);
    assert_eq!(a, b);
}

#[test]
fn doorbells_lie_within_allocated_ranges() {
    let doorbells = vec![
        (EventFd::new(7), 0xC010u64, Datamatch::AnyLength),
        (EventFd::new(8), 0x5000u64, Datamatch::U32(Some(1))),
    ];
    let mut dev = SampleDevice::new(
        String::from("sample"),
        vec![0x1000],
        vec![0u8; 0x1000],
        doorbells,
        Vec::new(),
        Vec::new(),
    );
    // Before allocation nothing is in range.
    assert_eq!(dev.ioeventfds().len(), 0);
    let mut alloc = allocator_at(0xC000);
    dev.allocate_io_bars(&mut alloc).unwrap();
    let entries = dev.ioeventfds();
    assert_eq!(entries.len(), 1);
    assert_eq!(entries[0].0.raw(), 7);
    assert_eq!(entries[0].1, 0xC010);
    assert!(matches!(entries[0].2, Datamatch::AnyLength));

    // The list is a function of device state: repeated reads agree.
    let again = dev.ioeventfds();
    assert_eq!(again.len(), entries.len());
    assert_eq!(again[0].0.raw(), entries[0].0.raw());
    assert_eq!(again[0].1, entries[0].1);
}
