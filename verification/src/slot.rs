//! The bus container's per-device record: owns a device exclusively and
//! runs its setup protocol in order.  Resources are allocated at most once
//! and before sandboxing, descriptor enumeration happens exactly once, and
//! the sandboxed-transition notification fires at most once and only after
//! descriptor enumeration.  An operation attempted out of phase reports so
//! instead of reaching the device.

use crate::address::{PciAddress, PciInterruptPin};
use crate::allocator::SystemAllocator;
use crate::bus;
use crate::device::{addr_in_ranges, Error, PciDevice};
use crate::events::{Datamatch, EventFd};
use vstd::prelude::*;

verus! {

pub struct DeviceSlot<D: PciDevice> {
    device: D,
    address_assigned: bool,
    fds_kept: bool,
    io_allocated: bool,
    device_allocated: bool,
    irq_assigned: bool,
    caps_registered: bool,
    sandboxed: bool,
}

impl<D: PciDevice> DeviceSlot<D> {
    /// The owned device.
    pub closed spec fn device(&self) -> D {
        self.device
    }

    pub closed spec fn address_assigned(&self) -> bool {
        self.address_assigned
    }

    pub closed spec fn fds_enumerated(&self) -> bool {
        self.fds_kept
    }

    pub closed spec fn io_bars_allocated(&self) -> bool {
        self.io_allocated
    }

    pub closed spec fn device_bars_allocated(&self) -> bool {
        self.device_allocated
    }

    pub closed spec fn irq_assigned(&self) -> bool {
        self.irq_assigned
    }

    pub closed spec fn caps_registered(&self) -> bool {
        self.caps_registered
    }

    pub closed spec fn sandbox_notified(&self) -> bool {
        self.sandboxed
    }

    /// The setup flags, as one value: address assigned, descriptors
    /// enumerated, IO BARs allocated, device BARs allocated, IRQ assigned,
    /// capabilities registered, sandboxed.
    pub open spec fn flags(&self) -> (bool, bool, bool, bool, bool, bool, bool) {
        (
            self.address_assigned(),
            self.fds_enumerated(),
            self.io_bars_allocated(),
            self.device_bars_allocated(),
            self.irq_assigned(),
            self.caps_registered(),
            self.sandbox_notified(),
        )
    }

    /// The sandboxed-transition notification may fire: descriptors have
    /// been enumerated and it has not fired yet.
    pub open spec fn may_sandbox(&self) -> bool {
        self.fds_enumerated() && !self.sandbox_notified()
    }

    /// An unassigned slot holds an unaddressed device, and a sandboxed slot
    /// has enumerated its descriptors.
    pub closed spec fn wf(&self) -> bool {
        (!self.address_assigned ==> self.device.assigned_address() is None) && (self.sandboxed
            ==> self.fds_kept)
    }

    /// Takes exclusive ownership of a device that has no address yet.
    pub fn new(device: D) -> (r: DeviceSlot<D>)
        requires
            device.assigned_address() is None,
        ensures
            r.wf(),
            r.device() == device,
            r.flags() == (false, false, false, false, false, false, false),
    {
        DeviceSlot {
            device,
            address_assigned: false,
            fds_kept: false,
            io_allocated: false,
            device_allocated: false,
            irq_assigned: false,
            caps_registered: false,
            sandboxed: false,
        }
    }

    /// Assigns the device its bus address, once; reports whether it did.
    pub fn assign_address(&mut self, address: PciAddress) -> (r: bool)
        requires
            old(self).wf(),
        ensures
            final(self).wf(),
            r == !old(self).address_assigned(),
            !r ==> *final(self) == *old(self),
            r ==> final(self).device().assigned_address() == Some(address) && final(self).address_assigned() && final(self).flags() == (
                true,
                old(self).fds_enumerated(),
                old(self).io_bars_allocated(),
                old(self).device_bars_allocated(),
                old(self).irq_assigned(),
                old(self).caps_registered(),
                old(self).sandbox_notified(),
            ),
    {
        if self.address_assigned {
            return false;
        }
        self.device.assign_address(address);
        self.address_assigned = true;
        true
    }

    /// Enumerates the descriptors the device needs kept open, exactly once
    /// and only before sandboxing; `None` out of phase.
    pub fn keep_fds(&mut self) -> (r: Option<Vec<i32>>)
        requires
            old(self).wf(),
        ensures
            final(self).wf(),
            (r is Some) == (!old(self).fds_enumerated() && !old(self).sandbox_notified()),
            r is None ==> *final(self) == *old(self),
            r matches Some(v) ==> v@ == old(self).device().kept_fds() && final(self).device()
                == old(self).device() && final(self).flags() == (
                old(self).address_assigned(),
                true,
                old(self).io_bars_allocated(),
                old(self).device_bars_allocated(),
                old(self).irq_assigned(),
                old(self).caps_registered(),
                old(self).sandbox_notified(),
            ),
    {
        if self.fds_kept || self.sandboxed {
            return None;
        }
        let v = self.device.keep_fds();
        self.fds_kept = true;
        Some(v)
    }

    /// Allocates the device's IO BARs, once and before sandboxing; `None`
    /// out of phase.
    pub fn allocate_io_bars(&mut self, resources: &mut SystemAllocator) -> (r: Option<
        Result<Vec<(u64, u64)>, Error>,
    >)
        requires
            old(self).wf(),
            old(resources).wf(),
        ensures
            final(self).wf(),
            final(resources).wf(),
            (r is Some) == (!old(self).io_bars_allocated() && !old(self).sandbox_notified()),
            r is None ==> *final(self) == *old(self) && *final(resources) == *old(resources),
            r matches Some(out) ==> final(self).io_bars_allocated() && final(self).flags() == (
                old(self).address_assigned(),
                old(self).fds_enumerated(),
                true,
                old(self).device_bars_allocated(),
                old(self).irq_assigned(),
                old(self).caps_registered(),
                old(self).sandbox_notified(),
            ) && (old(self).device().declared_io_bars().len() == 0 ==> *final(resources) == *old(resources) && final(self).device() == old(self).device() && (out matches Ok(v) && v@.len()
                == 0)) && (out matches Ok(v) ==> final(self).device().bar_ranges() =~= old(self).device().bar_ranges() + v@) && (out matches Ok(v) ==> v@.len() == old(self).device().declared_io_bars().len() && (forall|k: int|
                0 <= k < v@.len() ==> (#[trigger] v@[k]).1 == old(self).device().declared_io_bars()[k] && old(resources).io_next <= v@[k].0 && v@[k].0
                    + v@[k].1 <= final(resources).io_next)) && (out matches Ok(v) ==> (forall|
                k: int,
                l: int,
            |
                0 <= k < l < v@.len() ==> (#[trigger] v@[k]).0 + v@[k].1 <= (#[trigger] v@[l]).0))
                && (out matches Err(e) ==> e is IoAllocationFailed),
    {
        if self.io_allocated || self.sandboxed {
            return None;
        }
        let out = self.device.allocate_io_bars(resources);
        self.io_allocated = true;
        Some(out)
    }

    /// Allocates the device's device-memory BARs, once and before
    /// sandboxing; `None` out of phase.
    pub fn allocate_device_bars(&mut self, resources: &mut SystemAllocator) -> (r: Option<
        Result<Vec<(u64, u64)>, Error>,
    >)
        requires
            old(self).wf(),
            old(resources).wf(),
        ensures
            final(self).wf(),
            final(resources).wf(),
            (r is Some) == (!old(self).device_bars_allocated() && !old(self).sandbox_notified()),
            r is None ==> *final(self) == *old(self) && *final(resources) == *old(resources),
            r matches Some(out) ==> final(self).device_bars_allocated() && final(self).flags() == (
                old(self).address_assigned(),
                old(self).fds_enumerated(),
                old(self).io_bars_allocated(),
                true,
                old(self).irq_assigned(),
                old(self).caps_registered(),
                old(self).sandbox_notified(),
            ) && (old(self).device().declared_device_bars().len() == 0 ==> *final(resources)
                == *old(resources) && final(self).device() == old(self).device() && (out matches Ok(
                v,
            ) && v@.len() == 0)) && (out matches Ok(v) ==> final(self).device().bar_ranges() =~= old(self).device().bar_ranges() + v@) && (out matches Ok(v) ==> v@.len() == old(self).device().declared_device_bars().len() && (forall|k: int|
                0 <= k < v@.len() ==> (#[trigger] v@[k]).1 == old(self).device().declared_device_bars()[k] && old(resources).mmio_next <= v@[k].0
                    && v@[k].0 + v@[k].1 <= final(resources).mmio_next)) && (out matches Ok(v)
                ==> (forall|k: int, l: int|
                0 <= k < l < v@.len() ==> (#[trigger] v@[k]).0 + v@[k].1 <= (#[trigger] v@[l]).0))
                && (out matches Err(e) ==> e is IoAllocationFailed),
    {
        if self.device_allocated || self.sandboxed {
            return None;
        }
        let out = self.device.allocate_device_bars(resources);
        self.device_allocated = true;
        Some(out)
    }

    /// Hands the device its interrupt channels, at most once and only after
    /// BAR allocation; reports whether it did.
    pub fn assign_irq(
        &mut self,
        irq_evt: EventFd,
        irq_resample_evt: EventFd,
        irq_num: u32,
        irq_pin: PciInterruptPin,
    ) -> (r: bool)
        requires
            old(self).wf(),
        ensures
            final(self).wf(),
            r == (!old(self).irq_assigned() && old(self).io_bars_allocated() && old(self).device_bars_allocated() && !old(self).sandbox_notified()),
            !r ==> *final(self) == *old(self),
            r ==> final(self).irq_assigned() && final(self).flags() == (
                old(self).address_assigned(),
                old(self).fds_enumerated(),
                old(self).io_bars_allocated(),
                old(self).device_bars_allocated(),
                true,
                old(self).caps_registered(),
                old(self).sandbox_notified(),
            ) && final(self).device().assigned_address() == old(self).device().assigned_address(),
    {
        if self.irq_assigned || !self.io_allocated || !self.device_allocated || self.sandboxed {
            return false;
        }
        self.device.assign_irq(irq_evt, irq_resample_evt, irq_num, irq_pin);
        self.irq_assigned = true;
        true
    }

    /// Registers the device's capabilities, once and only after BAR
    /// allocation; `None` out of phase.
    pub fn register_device_capabilities(&mut self) -> (r: Option<Result<(), Error>>)
        requires
            old(self).wf(),
        ensures
            final(self).wf(),
            (r is Some) == (!old(self).caps_registered() && old(self).io_bars_allocated() && old(self).device_bars_allocated() && !old(self).sandbox_notified()),
            r is None ==> *final(self) == *old(self),
            r is Some ==> final(self).caps_registered() && final(self).flags() == (
                old(self).address_assigned(),
                old(self).fds_enumerated(),
                old(self).io_bars_allocated(),
                old(self).device_bars_allocated(),
                old(self).irq_assigned(),
                true,
                old(self).sandbox_notified(),
            ) && final(self).device().assigned_address() == old(self).device().assigned_address()
                && final(self).device().bar_ranges() == old(self).device().bar_ranges(),
            r matches Some(out) ==> ((out is Ok <==> final(self).device().capability_chain()
                == old(self).device().capability_chain() + old(self).device().declared_capabilities()) && (out matches Err(e) ==> e is CapabilitiesSetup
                && final(self).device().capability_chain() == old(self).device().capability_chain())),
    {
        if self.caps_registered || !self.io_allocated || !self.device_allocated || self.sandboxed {
            return None;
        }
        let out = self.device.register_device_capabilities();
        self.caps_registered = true;
        Some(out)
    }

    /// The device's doorbells, available once its BARs are allocated; every
    /// entry's address falls within one of the device's BAR ranges.
    pub fn ioeventfds(&self) -> (r: Option<Vec<(EventFd, u64, Datamatch)>>)
        ensures
            (r is Some) == (self.io_bars_allocated() && self.device_bars_allocated()),
            r matches Some(v) ==> v@ == self.device().declared_doorbells().filter(
                |t: (EventFd, u64, Datamatch)| addr_in_ranges(self.device().bar_ranges(), t.1),
            ),
            r matches Some(v) ==> forall|i: int|
                0 <= i < v@.len() ==> #[trigger] addr_in_ranges(self.device().bar_ranges(), v@[i].1),
    {
        if self.io_allocated && self.device_allocated {
            Some(self.device.ioeventfds())
        } else {
            None
        }
    }

    /// Forwards the sandboxed-transition notification: it fires at most
    /// once, and only after descriptor enumeration; reports whether it
    /// fired.
    pub fn on_device_sandboxed(&mut self) -> (fired: bool)
        requires
            old(self).wf(),
        ensures
            final(self).wf(),
            fired == old(self).may_sandbox(),
            !fired ==> *final(self) == *old(self),
            fired ==> old(self).device().sandbox_effect(final(self).device()),
            fired ==> final(self).device().capability_chain() == old(self).device().capability_chain(),
            fired ==> final(self).sandbox_notified() && final(self).flags() == (
                old(self).address_assigned(),
                old(self).fds_enumerated(),
                old(self).io_bars_allocated(),
                old(self).device_bars_allocated(),
                old(self).irq_assigned(),
                old(self).caps_registered(),
                true,
            ) && final(self).device().assigned_address() == old(self).device().assigned_address()
                && final(self).device().bar_ranges() == old(self).device().bar_ranges(),
    {
        if !self.fds_kept || self.sandboxed {
            return false;
        }
        bus::on_sandboxed(&mut self.device);
        self.sandboxed = true;
        true
    }

    /// The device's debug label.
    pub fn debug_label(&self) -> (r: String)
        ensures
            r@ == self.device().label_view(),
    {
        bus::debug_label(&self.device)
    }

    /// A configuration-register read, routed through the bus dispatcher.
    pub fn config_register_read(&self, reg_idx: usize) -> (r: u32)
        ensures
            r == self.device().reg_value(reg_idx as int),
    {
        bus::config_register_read(&self.device, reg_idx)
    }

    /// A configuration-register write, routed through the bus dispatcher:
    /// a write that does not fit the register's 4-byte window is dropped
    /// and every register keeps its stored value.
    pub fn config_register_write(&mut self, reg_idx: usize, offset: u64, data: &[u8])
        requires
            old(self).wf(),
        ensures
            final(self).wf(),
            final(self).flags() == old(self).flags(),
            offset + data@.len() > 4 ==> final(self).device() == old(self).device(),
            offset + data@.len() > 4 ==> forall|i: int|
                final(self).device().reg_value(i) == old(self).device().reg_value(i),
            offset + data@.len() <= 4 ==> old(self).device().config_write_effect(
                final(self).device(),
                reg_idx as int,
                offset as int,
                data@,
            ),
            final(self).device().capability_chain() == old(self).device().capability_chain(),
    {
        bus::config_register_write(&mut self.device, reg_idx, offset, data)
    }

    /// A plain read at a BAR-relative offset, routed through the bus
    /// dispatcher.
    pub fn read(&mut self, offset: u64, data: &mut Vec<u8>)
        requires
            old(self).wf(),
        ensures
            final(self).wf(),
            final(self).flags() == old(self).flags(),
            final(data)@.len() == old(data)@.len(),
            old(self).device().bar_read_effect(final(self).device(), offset as int, final(data)@),
            final(self).device().capability_chain() == old(self).device().capability_chain(),
    {
        bus::read(&mut self.device, offset, data)
    }

    /// A plain write at a BAR-relative offset, routed through the bus
    /// dispatcher.
    pub fn write(&mut self, offset: u64, data: &[u8])
        requires
            old(self).wf(),
        ensures
            final(self).wf(),
            final(self).flags() == old(self).flags(),
            old(self).device().bar_write_effect(final(self).device(), offset as int, data@),
            final(self).device().capability_chain() == old(self).device().capability_chain(),
    {
        bus::write(&mut self.device, offset, data)
    }
}

/// The sandboxed-transition notification fires at most once, and only after
/// descriptor enumeration: a slot that may still fire it has enumerated its
/// descriptors, and a slot that has fired it can never fire it again.
pub proof fn lemma_sandbox_fires_at_most_once<D: PciDevice>(s: DeviceSlot<D>)
    requires
        s.wf(),
    ensures
        s.may_sandbox() ==> s.fds_enumerated(),
        s.sandbox_notified() ==> !s.may_sandbox(),
{
}

} // verus!
