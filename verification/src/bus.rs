//! The bus dispatcher: adapts the bus's generic "access at address/offset"
//! protocol to the capability contract of an arbitrary device.
//!
//! Plain reads and writes forward directly to the device's BAR operations.
//! Configuration writes are special-cased by the byte-window rule: a write
//! with `offset + data.len() > 4` is discarded before it reaches the device,
//! matching the tolerant behavior of real hardware toward malformed
//! accesses, rather than raising an error.

use crate::device::PciDevice;
use vstd::prelude::*;

verus! {

/// Returns the target device's debug label.
pub fn debug_label<D: PciDevice>(device: &D) -> (r: String)
    ensures
        r@ == device.label_view(),
{
    device.debug_label()
}

/// A plain read at a BAR-relative offset: forwards to the device's BAR read.
pub fn read<D: PciDevice>(device: &mut D, offset: u64, data: &mut Vec<u8>)
    ensures
        final(data)@.len() == old(data)@.len(),
        old(device).bar_read_effect(*final(device), offset as int, final(data)@),
        final(device).assigned_address() == old(device).assigned_address(),
        final(device).bar_ranges() == old(device).bar_ranges(),
        final(device).capability_chain() == old(device).capability_chain(),
{
    device.read_bar(offset, data)
}

/// A plain write at a BAR-relative offset: forwards to the device's BAR
/// write.
pub fn write<D: PciDevice>(device: &mut D, offset: u64, data: &[u8])
    ensures
        old(device).bar_write_effect(*final(device), offset as int, data@),
        final(device).assigned_address() == old(device).assigned_address(),
        final(device).bar_ranges() == old(device).bar_ranges(),
        final(device).capability_chain() == old(device).capability_chain(),
{
    device.write_bar(offset, data)
}

/// A configuration-register write.  If `offset + data.len() > 4` the write
/// does not fit the register's 4-byte window: it is dropped without
/// reaching the device, and every register keeps its stored value.
pub fn config_register_write<D: PciDevice>(
    device: &mut D,
    reg_idx: usize,
    offset: u64,
    data: &[u8],
)
    ensures
        offset + data@.len() > 4 ==> *final(device) == *old(device),
        offset + data@.len() > 4 ==> forall|i: int|
            final(device).reg_value(i) == old(device).reg_value(i),
        offset + data@.len() <= 4 ==> old(device).config_write_effect(
            *final(device),
            reg_idx as int,
            offset as int,
            data@,
        ),
        final(device).assigned_address() == old(device).assigned_address(),
        final(device).bar_ranges() == old(device).bar_ranges(),
        final(device).capability_chain() == old(device).capability_chain(),
{
    if offset > 4 || data.len() > 4 || offset as usize + data.len() > 4 {
        return ;
    }
    device.write_config_register(reg_idx, offset, data)
}

/// A configuration-register read: passes straight through with no bound
/// check; an invalid index is the device's own responsibility.
pub fn config_register_read<D: PciDevice>(device: &D, reg_idx: usize) -> (r: u32)
    ensures
        r == device.reg_value(reg_idx as int),
{
    device.read_config_register(reg_idx)
}

/// The sandboxing notification, forwarded unconditionally: the device
/// takes its declared sandbox transition.
pub fn on_sandboxed<D: PciDevice>(device: &mut D)
    ensures
        old(device).sandbox_effect(*final(device)),
        final(device).assigned_address() == old(device).assigned_address(),
        final(device).bar_ranges() == old(device).bar_ranges(),
        final(device).capability_chain() == old(device).capability_chain(),
{
    device.on_device_sandboxed()
}

/// Resolves a guest address against a BAR range: the BAR-relative offset
/// when `addr` falls inside `[base, base + length)`, and `None` otherwise.
/// Accesses inside a BAR reach the device at the offset from the range's
/// base, not at an absolute address.
pub fn bar_offset(base: u64, length: u64, addr: u64) -> (r: Option<u64>)
    ensures
        (base <= addr < base + length) <==> r is Some,
        r matches Some(off) ==> off == addr - base,
{
    if base <= addr && addr - base < length {
        Some(addr - base)
    } else {
        None
    }
}

} // verus!
