use crate::address::{PciAddress, PciInterruptPin};
use crate::allocator::{allocation_error_text, grant_plan, AllocationError, SystemAllocator};
use crate::events::{Datamatch, EventFd};
use vstd::prelude::*;

verus! {

/// Failure while updating a device's configuration space: adding a
/// capability record to the chain, or registering a BAR register.
#[derive(Clone, Copy, PartialEq, Eq, Structural, Debug)]
pub enum ConfigSpaceError {
    /// The capability chain has no room for the record.
    CapabilitySpaceFull,
    /// The BAR register index is not valid for the device.
    BarInvalid,
    /// The BAR register is already in use.
    BarInUse,
}

/// Setup-time failure that aborts a device's attachment to the bus.  None of
/// these is retried by this layer; post-initialization accesses have no
/// error channel at all.
#[derive(Clone, Copy, PartialEq, Eq, Structural, Debug)]
pub enum Error {
    /// Setup of the device capabilities failed.
    CapabilitiesSetup(ConfigSpaceError),
    /// Allocating space for an IO BAR failed: requested size and the
    /// allocator's own cause.
    IoAllocationFailed(u64, AllocationError),
    /// Registering an IO BAR failed: allocated address and the cause.
    IoRegistrationFailed(u64, ConfigSpaceError),
    /// A dependent external backend (such as an audio service client) could
    /// not be created.
    ExternalResourceFailed,
}

/// The message text of a configuration-space failure.
pub open spec fn config_space_error_text(e: ConfigSpaceError) -> Seq<char> {
    match e {
        ConfigSpaceError::CapabilitySpaceFull => "capability space full"@,
        ConfigSpaceError::BarInvalid => "invalid BAR register"@,
        ConfigSpaceError::BarInUse => "BAR register already in use"@,
    }
}

impl ConfigSpaceError {
    /// A human-readable account of the failure.
    pub fn describe(&self) -> (r: String)
        ensures
            r@ == config_space_error_text(*self),
    {
        match self {
            ConfigSpaceError::CapabilitySpaceFull => "capability space full".to_owned(),
            ConfigSpaceError::BarInvalid => "invalid BAR register".to_owned(),
            ConfigSpaceError::BarInUse => "BAR register already in use".to_owned(),
        }
    }
}

/// The message text of a setup-time failure.
pub open spec fn error_text(e: Error) -> Seq<char> {
    match e {
        Error::CapabilitiesSetup(c) => "failed to add capability "@ + config_space_error_text(c),
        Error::IoAllocationFailed(size, c) => "failed to allocate space for an IO BAR, size="@
            + crate::text::decimal_of(size as nat) + ": "@ + allocation_error_text(c),
        Error::IoRegistrationFailed(addr, c) => "failed to register an IO BAR, addr="@
            + crate::text::decimal_of(addr as nat) + " err="@ + config_space_error_text(c),
        Error::ExternalResourceFailed => "failed to create backend resource client"@,
    }
}

impl Error {
    /// A human-readable account of the failure.
    pub fn describe(&self) -> (r: String)
        ensures
            r@ == error_text(*self),
    {
        match self {
            Error::CapabilitiesSetup(c) => {
                let mut s = "failed to add capability ".to_owned();
                let detail = c.describe();
                s.push_str(detail.as_str());
                s
            },
            Error::IoAllocationFailed(size, c) => {
                let mut s = "failed to allocate space for an IO BAR, size=".to_owned();
                crate::text::push_decimal(*size, &mut s);
                s.push_str(": ");
                let detail = c.describe();
                s.push_str(detail.as_str());
                s
            },
            Error::IoRegistrationFailed(addr, c) => {
                let mut s = "failed to register an IO BAR, addr=".to_owned();
                crate::text::push_decimal(*addr, &mut s);
                s.push_str(" err=");
                let detail = c.describe();
                s.push_str(detail.as_str());
                s
            },
            Error::ExternalResourceFailed => "failed to create backend resource client".to_owned(),
        }
    }
}

/// True when `addr` lies inside one of the `(base, length)` ranges.
pub open spec fn addr_in_ranges(ranges: Seq<(u64, u64)>, addr: u64) -> bool {
    exists|k: int|
        0 <= k < ranges.len() && (#[trigger] ranges[k]).0 <= addr < ranges[k].0 + ranges[k].1
}

/// The capability set every emulated PCI device implements.
///
/// The spec members are the device's observable state: contracts of the bus
/// layer are stated over them, so dispatch can be verified for arbitrary,
/// unknown device implementations.  Devices opt in only to what they need:
/// one that declares no BARs, doorbells or capabilities returns empty
/// results from those operations, and interrupt assignment defaults to a
/// no-op.  Devices must be safely transferable across the threads that
/// drive the bus, hence the `Send` bound.
pub trait PciDevice: Sized + Send {
    /// The debug label, as a sequence of characters.
    spec fn label_view(&self) -> Seq<char>;

    /// The address assigned to the device, if one has been.
    spec fn assigned_address(&self) -> Option<PciAddress>;

    /// The descriptors the device needs kept open across sandboxing.
    spec fn kept_fds(&self) -> Seq<i32>;

    /// Value of configuration register `reg_idx`; device-chosen for any
    /// index, including out-of-range ones.
    spec fn reg_value(&self, reg_idx: int) -> u32;

    /// Transition relation of a configuration write within the 4-byte
    /// window: does `post` follow from `self` by writing `data` at byte
    /// `offset` of register `reg_idx`?
    spec fn config_write_effect(&self, post: Self, reg_idx: int, offset: int, data: Seq<u8>) -> bool;

    /// Transition relation of a BAR read at BAR-relative `addr`: does `post`
    /// follow from `self`, handing back the bytes `out`?
    spec fn bar_read_effect(&self, post: Self, addr: int, out: Seq<u8>) -> bool;

    /// Transition relation of a BAR write of `data` at BAR-relative `addr`.
    spec fn bar_write_effect(&self, post: Self, addr: int, data: Seq<u8>) -> bool;

    /// Sizes of the IO BARs the device asks to have allocated.
    spec fn declared_io_bars(&self) -> Seq<u64>;

    /// Sizes of the device-memory BARs the device asks to have allocated.
    spec fn declared_device_bars(&self) -> Seq<u64>;

    /// The `(address, length)` BAR ranges granted to the device so far.
    spec fn bar_ranges(&self) -> Seq<(u64, u64)>;

    /// The doorbells the device declares: `(channel, guest address, match
    /// predicate)` entries it wants registered once their addresses lie in
    /// its BAR ranges.
    spec fn declared_doorbells(&self) -> Seq<(EventFd, u64, Datamatch)>;

    /// The capability records the device declares for its configuration
    /// space.
    spec fn declared_capabilities(&self) -> Seq<u8>;

    /// The capability chain written into configuration space so far.
    spec fn capability_chain(&self) -> Seq<u8>;

    /// Transition relation of the sandboxed-transition notification: does
    /// `post` follow from `self` by receiving it?
    spec fn sandbox_effect(&self, post: Self) -> bool;

    /// Returns a label suitable for debug output.
    fn debug_label(&self) -> (r: String)
        ensures
            r@ == self.label_view(),
    ;

    /// Assign a unique bus, device and function number to this device;
    /// called once, the address is immutable thereafter.
    fn assign_address(&mut self, address: PciAddress)
        requires
            old(self).assigned_address() is None,
        ensures
            final(self).assigned_address() == Some(address),
            final(self).bar_ranges() == old(self).bar_ranges(),
            final(self).capability_chain() == old(self).capability_chain(),
    ;

    /// The device-specific file descriptors that must be kept open after
    /// sandboxing; called before the process is sandboxed.
    fn keep_fds(&self) -> (r: Vec<i32>)
        ensures
            r@ == self.kept_fds(),
    ;

    /// Assign a legacy PCI IRQ to this device, at most once.  The device
    /// owns both channels thereafter: it may signal `irq_evt` to raise its
    /// interrupt, and when `irq_resample_evt` is signaled it re-asserts
    /// `irq_evt` if its line is still active.
    fn assign_irq(
        &mut self,
        _irq_evt: EventFd,
        _irq_resample_evt: EventFd,
        _irq_num: u32,
        _irq_pin: PciInterruptPin,
    )
        ensures
            final(self).assigned_address() == old(self).assigned_address(),
            final(self).bar_ranges() == old(self).bar_ranges(),
            final(self).capability_chain() == old(self).capability_chain(),
    {
    }

    /// Allocates the IO BAR space the device declares, as `(address,
    /// length)` grants leased from the allocator's IO pool: one grant per
    /// declared size, in declaration order, so grants are pairwise disjoint
    /// and overlap no range granted to any other device.  Success and
    /// failure are exactly the allocator's: the result follows the grant
    /// plan of the declared sizes over the IO pool, and a failure is an
    /// `IoAllocationFailed` carrying the refused size and the allocator's
    /// cause.  A device declaring no IO BARs is a no-op returning the empty
    /// list: neither it nor the allocator changes.
    fn allocate_io_bars(&mut self, resources: &mut SystemAllocator) -> (r: Result<
        Vec<(u64, u64)>,
        Error,
    >)
        requires
            old(resources).wf(),
        ensures
            final(resources).wf(),
            final(resources).io_end == old(resources).io_end,
            old(resources).io_next <= final(resources).io_next,
            final(resources).mmio_next == old(resources).mmio_next,
            final(resources).mmio_end == old(resources).mmio_end,
            old(self).declared_io_bars().len() == 0 ==> *final(resources) == *old(resources)
                && *final(self) == *old(self) && (r matches Ok(v) && v@.len() == 0),
            ({
                let plan = grant_plan(
                    old(resources).io_next,
                    old(resources).io_end,
                    old(self).declared_io_bars(),
                );
                &&& final(resources).io_next == plan.next
                &&& (plan.failure is None ==> (r matches Ok(v) && v@ == plan.grants))
                &&& (plan.failure matches Some(f) ==> r == Err::<Vec<(u64, u64)>, Error>(
                    Error::IoAllocationFailed(f.0, f.1),
                ) && final(self).bar_ranges() == old(self).bar_ranges())
            }),
            r matches Ok(v) ==> final(self).bar_ranges() =~= old(self).bar_ranges() + v@,
            r matches Ok(v) ==> v@.len() == old(self).declared_io_bars().len() && (forall|k: int|
                0 <= k < v@.len() ==> (#[trigger] v@[k]).1 == old(self).declared_io_bars()[k] && old(resources).io_next <= v@[k].0 && v@[k].0 + v@[k].1 <= final(resources).io_next),
            r matches Ok(v) ==> (forall|k: int, l: int|
                0 <= k < l < v@.len() ==> (#[trigger] v@[k]).0 + v@[k].1 <= (#[trigger] v@[l]).0),
            r matches Err(e) ==> e is IoAllocationFailed,
            final(self).assigned_address() == old(self).assigned_address(),
            final(self).capability_chain() == old(self).capability_chain(),
    ;

    /// Allocates the device-memory BAR space the device declares, leased
    /// from the allocator's device-memory pool: a separate address class
    /// from the IO pool, whose ranges are plain guest-visible memory and do
    /// not trap into the device.  Grants and failures mirror
    /// `allocate_io_bars`, following the grant plan of the declared sizes
    /// over the device-memory pool; a device declaring none is a no-op.
    fn allocate_device_bars(&mut self, resources: &mut SystemAllocator) -> (r: Result<
        Vec<(u64, u64)>,
        Error,
    >)
        requires
            old(resources).wf(),
        ensures
            final(resources).wf(),
            final(resources).mmio_end == old(resources).mmio_end,
            old(resources).mmio_next <= final(resources).mmio_next,
            final(resources).io_next == old(resources).io_next,
            final(resources).io_end == old(resources).io_end,
            old(self).declared_device_bars().len() == 0 ==> *final(resources) == *old(resources)
                && *final(self) == *old(self) && (r matches Ok(v) && v@.len() == 0),
            ({
                let plan = grant_plan(
                    old(resources).mmio_next,
                    old(resources).mmio_end,
                    old(self).declared_device_bars(),
                );
                &&& final(resources).mmio_next == plan.next
                &&& (plan.failure is None ==> (r matches Ok(v) && v@ == plan.grants))
                &&& (plan.failure matches Some(f) ==> r == Err::<Vec<(u64, u64)>, Error>(
                    Error::IoAllocationFailed(f.0, f.1),
                ) && final(self).bar_ranges() == old(self).bar_ranges())
            }),
            r matches Ok(v) ==> final(self).bar_ranges() =~= old(self).bar_ranges() + v@,
            r matches Ok(v) ==> v@.len() == old(self).declared_device_bars().len() && (forall|
                k: int,
            |
                0 <= k < v@.len() ==> (#[trigger] v@[k]).1 == old(self).declared_device_bars()[k]
                    && old(resources).mmio_next <= v@[k].0 && v@[k].0 + v@[k].1 <= final(resources).mmio_next),
            r matches Ok(v) ==> (forall|k: int, l: int|
                0 <= k < l < v@.len() ==> (#[trigger] v@[k]).0 + v@[k].1 <= (#[trigger] v@[l]).0),
            r matches Err(e) ==> e is IoAllocationFailed,
            final(self).assigned_address() == old(self).assigned_address(),
            final(self).capability_chain() == old(self).capability_chain(),
    ;

    /// Registers the capability records the device declares: exactly on
    /// success they are appended to the configuration-space capability
    /// chain, written once and never mutated afterward; called after BAR
    /// allocation.
    fn register_device_capabilities(&mut self) -> (r: Result<(), Error>)
        ensures
            r is Ok <==> final(self).capability_chain() == old(self).capability_chain() + old(self).declared_capabilities(),
            r matches Err(e) ==> e is CapabilitiesSetup && final(self).capability_chain() == old(self).capability_chain(),
            final(self).assigned_address() == old(self).assigned_address(),
            final(self).bar_ranges() == old(self).bar_ranges(),
    ;

    /// The doorbells to register with the running VM: exactly the declared
    /// entries whose addresses lie within the device's allocated BAR
    /// ranges.  Takes `&self`: repeated calls between state changes agree.
    fn ioeventfds(&self) -> (r: Vec<(EventFd, u64, Datamatch)>)
        ensures
            r@ == self.declared_doorbells().filter(
                |t: (EventFd, u64, Datamatch)| addr_in_ranges(self.bar_ranges(), t.1),
            ),
            forall|i: int|
                0 <= i < r@.len() ==> #[trigger] addr_in_ranges(self.bar_ranges(), r@[i].1),
    ;

    /// Reads configuration register `reg_idx` (in units of 4 bytes).  Any
    /// index is answered; an out-of-range one gets an innocuous
    /// device-chosen value, never a failure.
    fn read_config_register(&self, reg_idx: usize) -> (r: u32)
        ensures
            r == self.reg_value(reg_idx as int),
    ;

    /// Writes `data` at byte `offset` within configuration register
    /// `reg_idx`; only called with writes inside the 4-byte register window.
    fn write_config_register(&mut self, reg_idx: usize, offset: u64, data: &[u8])
        requires
            offset + data@.len() <= 4,
        ensures
            old(self).config_write_effect(*final(self), reg_idx as int, offset as int, data@),
            final(self).assigned_address() == old(self).assigned_address(),
            final(self).bar_ranges() == old(self).bar_ranges(),
            final(self).capability_chain() == old(self).capability_chain(),
    ;

    /// Reads device state at BAR-relative `addr` into `data`, filling all of
    /// it; malformed addresses yield innocuous data, never a failure.
    fn read_bar(&mut self, addr: u64, data: &mut Vec<u8>)
        ensures
            final(data)@.len() == old(data)@.len(),
            old(self).bar_read_effect(*final(self), addr as int, final(data)@),
            final(self).assigned_address() == old(self).assigned_address(),
            final(self).bar_ranges() == old(self).bar_ranges(),
            final(self).capability_chain() == old(self).capability_chain(),
    ;

    /// Writes `data` to device state at BAR-relative `addr`; malformed
    /// addresses are absorbed, never a failure.
    fn write_bar(&mut self, addr: u64, data: &[u8])
        ensures
            old(self).bar_write_effect(*final(self), addr as int, data@),
            final(self).assigned_address() == old(self).assigned_address(),
            final(self).bar_ranges() == old(self).bar_ranges(),
            final(self).capability_chain() == old(self).capability_chain(),
    ;

    /// Invoked when the device is sandboxed: the device takes its declared
    /// sandbox transition (it may disable operations that would need new OS
    /// resources).
    fn on_device_sandboxed(&mut self)
        ensures
            old(self).sandbox_effect(*final(self)),
            final(self).assigned_address() == old(self).assigned_address(),
            final(self).bar_ranges() == old(self).bar_ranges(),
            final(self).capability_chain() == old(self).capability_chain(),
    ;
}

/// The type-erased handle: a boxed device is itself a device, forwarding
/// every operation unchanged to the device it owns.  The handle carries no
/// state of its own: its observable state is, definitionally, the owned
/// device's.
impl<T: PciDevice> PciDevice for Box<T> {
    open spec fn label_view(&self) -> Seq<char> {
        (**self).label_view()
    }

    open spec fn assigned_address(&self) -> Option<PciAddress> {
        (**self).assigned_address()
    }

    open spec fn kept_fds(&self) -> Seq<i32> {
        (**self).kept_fds()
    }

    open spec fn reg_value(&self, reg_idx: int) -> u32 {
        (**self).reg_value(reg_idx)
    }

    open spec fn config_write_effect(
        &self,
        post: Self,
        reg_idx: int,
        offset: int,
        data: Seq<u8>,
    ) -> bool {
        (**self).config_write_effect(*post, reg_idx, offset, data)
    }

    open spec fn bar_read_effect(&self, post: Self, addr: int, out: Seq<u8>) -> bool {
        (**self).bar_read_effect(*post, addr, out)
    }

    open spec fn bar_write_effect(&self, post: Self, addr: int, data: Seq<u8>) -> bool {
        (**self).bar_write_effect(*post, addr, data)
    }

    open spec fn declared_io_bars(&self) -> Seq<u64> {
        (**self).declared_io_bars()
    }

    open spec fn declared_device_bars(&self) -> Seq<u64> {
        (**self).declared_device_bars()
    }

    open spec fn bar_ranges(&self) -> Seq<(u64, u64)> {
        (**self).bar_ranges()
    }

    open spec fn declared_doorbells(&self) -> Seq<(EventFd, u64, Datamatch)> {
        (**self).declared_doorbells()
    }

    open spec fn declared_capabilities(&self) -> Seq<u8> {
        (**self).declared_capabilities()
    }

    open spec fn capability_chain(&self) -> Seq<u8> {
        (**self).capability_chain()
    }

    open spec fn sandbox_effect(&self, post: Self) -> bool {
        (**self).sandbox_effect(*post)
    }

    fn debug_label(&self) -> (r: String) {
        (**self).debug_label()
    }

    fn assign_address(&mut self, address: PciAddress) {
        (**self).assign_address(address)
    }

    fn keep_fds(&self) -> (r: Vec<i32>) {
        (**self).keep_fds()
    }

    fn assign_irq(
        &mut self,
        irq_evt: EventFd,
        irq_resample_evt: EventFd,
        irq_num: u32,
        irq_pin: PciInterruptPin,
    ) {
        (**self).assign_irq(irq_evt, irq_resample_evt, irq_num, irq_pin)
    }

    fn allocate_io_bars(&mut self, resources: &mut SystemAllocator) -> (r: Result<
        Vec<(u64, u64)>,
        Error,
    >) {
        (**self).allocate_io_bars(resources)
    }

    fn allocate_device_bars(&mut self, resources: &mut SystemAllocator) -> (r: Result<
        Vec<(u64, u64)>,
        Error,
    >) {
        (**self).allocate_device_bars(resources)
    }

    fn register_device_capabilities(&mut self) -> (r: Result<(), Error>) {
        (**self).register_device_capabilities()
    }

    fn ioeventfds(&self) -> (r: Vec<(EventFd, u64, Datamatch)>) {
        (**self).ioeventfds()
    }

    fn read_config_register(&self, reg_idx: usize) -> (r: u32) {
        (**self).read_config_register(reg_idx)
    }

    fn write_config_register(&mut self, reg_idx: usize, offset: u64, data: &[u8]) {
        (**self).write_config_register(reg_idx, offset, data)
    }

    fn read_bar(&mut self, addr: u64, data: &mut Vec<u8>) {
        (**self).read_bar(addr, data)
    }

    fn write_bar(&mut self, addr: u64, data: &[u8]) {
        (**self).write_bar(addr, data)
    }

    fn on_device_sandboxed(&mut self) {
        (**self).on_device_sandboxed()
    }
}

/// Delegation transparency: the boxed handle's observable state and
/// transition relations are exactly those of the device it owns, so any
/// sequence of contract operations behaves the same through the handle as on
/// the unwrapped device.  For the configuration write this holds under the
/// 4-byte-window precondition of the device-level operation, which the bus
/// dispatcher enforces before forwarding.
pub proof fn lemma_boxed_handle_transparent<T: PciDevice>(
    pre: Box<T>,
    post: Box<T>,
    reg_idx: int,
    offset: int,
    addr: int,
    data: Seq<u8>,
)
    ensures
        pre.label_view() == (*pre).label_view(),
        pre.assigned_address() == (*pre).assigned_address(),
        pre.kept_fds() == (*pre).kept_fds(),
        pre.reg_value(reg_idx) == (*pre).reg_value(reg_idx),
        pre.declared_io_bars() == (*pre).declared_io_bars(),
        pre.declared_device_bars() == (*pre).declared_device_bars(),
        pre.bar_ranges() == (*pre).bar_ranges(),
        pre.declared_doorbells() == (*pre).declared_doorbells(),
        pre.declared_capabilities() == (*pre).declared_capabilities(),
        pre.capability_chain() == (*pre).capability_chain(),
        pre.sandbox_effect(post) == (*pre).sandbox_effect(*post),
        pre.config_write_effect(post, reg_idx, offset, data) == (*pre).config_write_effect(
            *post,
            reg_idx,
            offset,
            data,
        ),
        pre.bar_read_effect(post, addr, data) == (*pre).bar_read_effect(*post, addr, data),
        pre.bar_write_effect(post, addr, data) == (*pre).bar_write_effect(*post, addr, data),
{
}

} // verus!
