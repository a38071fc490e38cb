use vstd::prelude::*;

verus! {

/// Bus, device and function triple identifying a device on the PCI bus.
/// Assigned to a device exactly once; immutable thereafter.
#[derive(Clone, Copy, PartialEq, Eq, Structural, Debug)]
pub struct PciAddress {
    pub bus: u8,
    pub dev: u8,
    pub func: u8,
}

/// Legacy level-triggered PCI interrupt pin.
#[derive(Clone, Copy, PartialEq, Eq, Structural, Debug)]
pub enum PciInterruptPin {
    IntA,
    IntB,
    IntC,
    IntD,
}

} // verus!
