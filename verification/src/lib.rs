//! Device-model contract and dispatch layer of a virtual PCI bus.
//!
//! The [`device::PciDevice`] trait is the capability set every emulated PCI
//! device exposes to the bus: configuration-space access, BAR allocation,
//! interrupt assignment, doorbell enumeration and the sandboxing handshake.
//! The [`bus`] module adapts raw guest accesses into those operations,
//! enforcing the configuration-register byte-window rule, and the boxed
//! handle in [`device`] lets heterogeneous devices be owned uniformly.

pub mod address;
pub mod allocator;
pub mod bus;
pub mod bytes;
pub mod device;
pub mod events;
pub mod sample;
pub mod slot;
pub mod text;
