use vstd::prelude::*;

verus! {

/// Handle of an event channel (an eventfd in the host VMM).  This layer never
/// signals or waits on the channel; it only stores the handle and transfers
/// its ownership to a device, so the handle is modeled as the plain
/// descriptor number it wraps.
#[derive(Clone, Copy, PartialEq, Eq, Structural, Debug)]
pub struct EventFd {
    raw: i32,
}

impl EventFd {
    /// The descriptor number this handle stands for.
    pub closed spec fn id(self) -> i32 {
        self.raw
    }

    pub fn new(raw: i32) -> (r: EventFd)
        ensures
            r.id() == raw,
    {
        EventFd { raw }
    }

    pub fn raw(&self) -> (r: i32)
        ensures
            r == self.id(),
    {
        self.raw
    }
}

/// Match predicate of a doorbell registration: which guest write triggers the
/// fast-path notification.  `AnyLength` matches every write at the address;
/// the sized variants match writes of that width, optionally only when the
/// written value equals the carried one.
#[derive(Clone, Copy, Debug)]
pub enum Datamatch {
    AnyLength,
    U8(Option<u8>),
    U16(Option<u16>),
    U32(Option<u32>),
    U64(Option<u64>),
}

} // verus!
