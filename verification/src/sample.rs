//! A small conforming device: a byte-addressed configuration space, one
//! flat BAR-backed memory, and opt-in interrupt, doorbell and capability
//! state.  It exercises every operation of the capability contract and is
//! the device the tests drive through the bus dispatcher.

use crate::address::{PciAddress, PciInterruptPin};
use crate::allocator::{grant_plan, lemma_grant_plan_bounds, GrantPlan, SystemAllocator};
use crate::bytes::{byte_at, bytes_written, extend_bytes, extend_ranges, peek, poke, word_at};
use crate::device::{addr_in_ranges, ConfigSpaceError, Error, PciDevice};
use crate::events::{Datamatch, EventFd};
use vstd::prelude::*;

verus! {

/// Bytes of configuration space the device backs with storage; reads beyond
/// it return zero and writes beyond it are absorbed.
pub const CONFIG_BYTES: usize = 64;

/// Bytes of capability-chain space.
pub const CAP_SPACE: usize = 48;

pub struct SampleDevice {
    pub label: String,
    pub address: Option<PciAddress>,
    pub cfg: Vec<u8>,
    pub bar_mem: Vec<u8>,
    pub io_bar_sizes: Vec<u64>,
    pub bars: Vec<(u64, u64)>,
    pub irq: Option<(EventFd, EventFd, u32, PciInterruptPin)>,
    pub doorbells: Vec<(EventFd, u64, Datamatch)>,
    pub cap_ids: Vec<u8>,
    pub cap_chain: Vec<u8>,
    pub sandbox_notified: bool,
    pub kept: Vec<i32>,
}

/// True when `addr` lies inside one of the stored ranges.
fn in_ranges(ranges: &Vec<(u64, u64)>, addr: u64) -> (r: bool)
    ensures
        r == addr_in_ranges(ranges@, addr),
{
    let mut i: usize = 0;
    let mut found = false;
    while i < ranges.len()
        invariant
            i <= ranges@.len(),
            found == exists|k: int|
                0 <= k < i && (#[trigger] ranges@[k]).0 <= addr < ranges@[k].0 + ranges@[k].1,
        decreases ranges@.len() - i,
    {
        let (base, len) = ranges[i];
        if base <= addr && addr - base < len {
            found = true;
        }
        i += 1;
    }
    found
}

impl SampleDevice {
    /// A fresh device: configuration space zeroed, nothing assigned,
    /// nothing granted, capabilities not yet registered.  `bar_mem` backs
    /// the device's BAR-addressed state; `io_bar_sizes` is what it will ask
    /// the allocator for.
    pub fn new(
        label: String,
        io_bar_sizes: Vec<u64>,
        bar_mem: Vec<u8>,
        doorbells: Vec<(EventFd, u64, Datamatch)>,
        cap_ids: Vec<u8>,
        kept: Vec<i32>,
    ) -> (r: SampleDevice)
        ensures
            r.label == label,
            r.address is None,
            r.cfg@ == Seq::new(CONFIG_BYTES as nat, |j: int| 0u8),
            r.bar_mem == bar_mem,
            r.io_bar_sizes == io_bar_sizes,
            r.bars@ == Seq::<(u64, u64)>::empty(),
            r.irq is None,
            r.doorbells == doorbells,
            r.cap_ids == cap_ids,
            r.cap_chain@ == Seq::<u8>::empty(),
            !r.sandbox_notified,
            r.kept == kept,
    {
        let mut cfg: Vec<u8> = Vec::new();
        while cfg.len() < CONFIG_BYTES
            invariant
                cfg@.len() <= CONFIG_BYTES as int,
                forall|j: int| 0 <= j < cfg@.len() ==> cfg@[j] == 0u8,
            decreases CONFIG_BYTES - cfg@.len(),
        {
            cfg.push(0u8);
        }
        proof {
            assert(cfg@ =~= Seq::new(CONFIG_BYTES as nat, |j: int| 0u8));
        }
        SampleDevice {
            label,
            address: None,
            cfg,
            bar_mem,
            io_bar_sizes,
            bars: Vec::new(),
            irq: None,
            doorbells,
            cap_ids,
            cap_chain: Vec::new(),
            sandbox_notified: false,
            kept,
        }
    }

    /// The identity the device reports: its assigned address, if any.
    pub fn address(&self) -> (r: Option<PciAddress>)
        ensures
            r == self.assigned_address(),
    {
        self.address
    }
}

impl PciDevice for SampleDevice {
    open spec fn label_view(&self) -> Seq<char> {
        self.label@
    }

    open spec fn assigned_address(&self) -> Option<PciAddress> {
        self.address
    }

    open spec fn kept_fds(&self) -> Seq<i32> {
        self.kept@
    }

    open spec fn reg_value(&self, reg_idx: int) -> u32 {
        word_at(self.cfg@, reg_idx)
    }

    open spec fn config_write_effect(
        &self,
        post: Self,
        reg_idx: int,
        offset: int,
        data: Seq<u8>,
    ) -> bool {
        post.cfg@ == bytes_written(self.cfg@, 4 * reg_idx + offset, data) && post == (SampleDevice {
            cfg: post.cfg,
            ..*self
        })
    }

    open spec fn bar_read_effect(&self, post: Self, addr: int, out: Seq<u8>) -> bool {
        post == *self && forall|j: int|
            0 <= j < out.len() ==> out[j] == byte_at(self.bar_mem@, addr + j)
    }

    open spec fn bar_write_effect(&self, post: Self, addr: int, data: Seq<u8>) -> bool {
        post.bar_mem@ == bytes_written(self.bar_mem@, addr, data) && post == (SampleDevice {
            bar_mem: post.bar_mem,
            ..*self
        })
    }

    open spec fn declared_io_bars(&self) -> Seq<u64> {
        self.io_bar_sizes@
    }

    open spec fn declared_device_bars(&self) -> Seq<u64> {
        Seq::empty()
    }

    open spec fn bar_ranges(&self) -> Seq<(u64, u64)> {
        self.bars@
    }

    open spec fn declared_doorbells(&self) -> Seq<(EventFd, u64, Datamatch)> {
        self.doorbells@
    }

    open spec fn declared_capabilities(&self) -> Seq<u8> {
        self.cap_ids@
    }

    open spec fn capability_chain(&self) -> Seq<u8> {
        self.cap_chain@
    }

    open spec fn sandbox_effect(&self, post: Self) -> bool {
        post == (SampleDevice { sandbox_notified: true, ..*self })
    }

    fn debug_label(&self) -> (r: String) {
        self.label.clone()
    }

    fn assign_address(&mut self, address: PciAddress)
        ensures
            *final(self) == (SampleDevice { address: Some(address), ..*old(self) }),
    {
        self.address = Some(address);
    }

    fn keep_fds(&self) -> (r: Vec<i32>) {
        let mut r: Vec<i32> = Vec::new();
        let mut i: usize = 0;
        while i < self.kept.len()
            invariant
                i <= self.kept@.len(),
                r@ == self.kept@.take(i as int),
            decreases self.kept@.len() - i,
        {
            r.push(self.kept[i]);
            proof {
                assert(r@ =~= self.kept@.take(i as int + 1));
            }
            i += 1;
        }
        proof {
            assert(self.kept@.take(self.kept@.len() as int) =~= self.kept@);
        }
        r
    }

    fn assign_irq(
        &mut self,
        irq_evt: EventFd,
        irq_resample_evt: EventFd,
        irq_num: u32,
        irq_pin: PciInterruptPin,
    )
        ensures
            *final(self) == (SampleDevice {
                irq: Some((irq_evt, irq_resample_evt, irq_num, irq_pin)),
                ..*old(self)
            }),
    {
        self.irq = Some((irq_evt, irq_resample_evt, irq_num, irq_pin));
    }

    fn allocate_io_bars(&mut self, resources: &mut SystemAllocator) -> (r: Result<
        Vec<(u64, u64)>,
        Error,
    >)
        ensures
            ({
                let plan = grant_plan(
                    old(resources).io_next,
                    old(resources).io_end,
                    old(self).io_bar_sizes@,
                );
                &&& final(resources).io_next == plan.next
                &&& final(resources).io_end == old(resources).io_end
                &&& final(resources).mmio_next == old(resources).mmio_next
                &&& final(resources).mmio_end == old(resources).mmio_end
                &&& (plan.failure is None ==> (r matches Ok(v) && v@ == plan.grants && *final(self)
                    == (SampleDevice { bars: final(self).bars, ..*old(self) }) && final(self).bars@
                    == old(self).bars@ + plan.grants))
                &&& (plan.failure matches Some(f) ==> r == Err::<Vec<(u64, u64)>, Error>(
                    Error::IoAllocationFailed(f.0, f.1),
                ) && *final(self) == *old(self))
            }),
    {
        let ghost pre_dev = *self;
        let ghost pre_res = *resources;
        let ghost plan = grant_plan(pre_res.io_next, pre_res.io_end, self.io_bar_sizes@);
        let mut granted: Vec<(u64, u64)> = Vec::new();
        let mut i: usize = 0;
        proof {
            assert(pre_dev.io_bar_sizes@.skip(0) =~= pre_dev.io_bar_sizes@);
        }
        while i < self.io_bar_sizes.len()
            invariant
                pre_dev == *old(self),
                pre_res == *old(resources),
                pre_res.wf(),
                plan == grant_plan(pre_res.io_next, pre_res.io_end, pre_dev.io_bar_sizes@),
                *self == pre_dev,
                resources.wf(),
                i <= pre_dev.io_bar_sizes@.len(),
                resources.io_end == pre_res.io_end,
                resources.mmio_next == pre_res.mmio_next,
                resources.mmio_end == pre_res.mmio_end,
                granted@.len() == i,
                plan == ({
                    let tail = grant_plan(
                        resources.io_next,
                        pre_res.io_end,
                        pre_dev.io_bar_sizes@.skip(i as int),
                    );
                    GrantPlan { grants: granted@ + tail.grants, next: tail.next, failure: tail.failure }
                }),
            decreases pre_dev.io_bar_sizes@.len() - i,
        {
            let size = self.io_bar_sizes[i];
            let ghost tail_sizes = pre_dev.io_bar_sizes@.skip(i as int);
            proof {
                assert(tail_sizes.len() > 0);
                assert(tail_sizes[0] == pre_dev.io_bar_sizes@[i as int]);
                assert(tail_sizes.drop_first() =~= pre_dev.io_bar_sizes@.skip(i as int + 1));
            }
            let ghost g0 = granted@;
            let ghost next0 = resources.io_next;
            let ghost tail = grant_plan(next0, pre_res.io_end, tail_sizes);
            match resources.allocate_io(size) {
                Ok(addr) => {
                    granted.push((addr, size));
                    i += 1;
                    proof {
                        let rest = grant_plan(
                            resources.io_next,
                            pre_res.io_end,
                            pre_dev.io_bar_sizes@.skip(i as int),
                        );
                        assert(tail_sizes.drop_first() =~= pre_dev.io_bar_sizes@.skip(i as int));
                        assert(tail == GrantPlan {
                            grants: seq![(addr, size)] + rest.grants,
                            next: rest.next,
                            failure: rest.failure,
                        });
                        assert(g0 + (seq![(addr, size)] + rest.grants) =~= granted@ + rest.grants);
                    }
                },
                Err(cause) => {
                    proof {
                        assert(tail.failure == Some((size, cause)));
                        assert(tail.next == next0);
                        lemma_grant_plan_bounds(pre_res.io_next, pre_res.io_end, pre_dev.io_bar_sizes@);
                    }
                    return Err(Error::IoAllocationFailed(size, cause));
                },
            }
        }
        proof {
            assert(pre_dev.io_bar_sizes@.skip(pre_dev.io_bar_sizes@.len() as int) =~= Seq::<
                u64,
            >::empty());
            assert(granted@ + Seq::<(u64, u64)>::empty() =~= granted@);
            lemma_grant_plan_bounds(pre_res.io_next, pre_res.io_end, pre_dev.io_bar_sizes@);
        }
        if granted.len() == 0 {
            proof {
                assert(pre_dev.bars@ + granted@ =~= self.bars@);
            }
            return Ok(granted);
        }
        extend_ranges(&mut self.bars, &granted);
        proof {
            assert(pre_dev.bars@ + granted@ =~= self.bars@);
        }
        Ok(granted)
    }

    fn allocate_device_bars(&mut self, resources: &mut SystemAllocator) -> (r: Result<
        Vec<(u64, u64)>,
        Error,
    >)
        ensures
            *final(resources) == *old(resources),
            *final(self) == *old(self),
            r matches Ok(v) && v@.len() == 0,
    {
        let granted: Vec<(u64, u64)> = Vec::new();
        proof {
            assert(old(self).bars@ + granted@ =~= old(self).bars@);
        }
        Ok(granted)
    }

    fn register_device_capabilities(&mut self) -> (r: Result<(), Error>)
        ensures
            (old(self).cap_ids@.len() == 0 || old(self).cap_chain@.len() + old(self).cap_ids@.len()
                <= CAP_SPACE) ==> (r is Ok && *final(self) == (SampleDevice {
                cap_chain: final(self).cap_chain,
                ..*old(self)
            }) && final(self).cap_chain@ == old(self).cap_chain@ + old(self).cap_ids@),
            (old(self).cap_ids@.len() != 0 && old(self).cap_chain@.len() + old(self).cap_ids@.len()
                > CAP_SPACE) ==> (r == Err::<(), Error>(
                Error::CapabilitiesSetup(ConfigSpaceError::CapabilitySpaceFull),
            ) && *final(self) == *old(self)),
    {
        if self.cap_ids.len() == 0 {
            proof {
                assert(self.cap_chain@ + self.cap_ids@ =~= self.cap_chain@);
            }
            return Ok(());
        }
        if self.cap_chain.len() > CAP_SPACE || CAP_SPACE - self.cap_chain.len()
            < self.cap_ids.len() {
            return Err(Error::CapabilitiesSetup(ConfigSpaceError::CapabilitySpaceFull));
        }
        extend_bytes(&mut self.cap_chain, &self.cap_ids);
        Ok(())
    }

    fn ioeventfds(&self) -> (r: Vec<(EventFd, u64, Datamatch)>)
        ensures
            r@ == self.doorbells@.filter(
                |t: (EventFd, u64, Datamatch)| addr_in_ranges(self.bar_ranges(), t.1),
            ),
    {
        let ghost pred = |t: (EventFd, u64, Datamatch)| addr_in_ranges(self.bars@, t.1);
        let mut r: Vec<(EventFd, u64, Datamatch)> = Vec::new();
        let mut i: usize = 0;
        while i < self.doorbells.len()
            invariant
                i <= self.doorbells@.len(),
                pred == (|t: (EventFd, u64, Datamatch)| addr_in_ranges(self.bars@, t.1)),
                r@ == self.doorbells@.take(i as int).filter(pred),
                forall|k: int|
                    0 <= k < r@.len() ==> #[trigger] addr_in_ranges(self.bars@, r@[k].1),
            decreases self.doorbells@.len() - i,
        {
            let (evt, addr, dm) = self.doorbells[i];
            if in_ranges(&self.bars, addr) {
                r.push((evt, addr, dm));
            }
            i += 1;
            proof {
                reveal_with_fuel(Seq::filter, 2);
                let t = self.doorbells@.take(i as int);
                assert(t.drop_last() =~= self.doorbells@.take(i as int - 1));
                assert(t.last() == self.doorbells@[i as int - 1]);
                assert(t.filter(pred) == if pred(t.last()) {
                    t.drop_last().filter(pred).push(t.last())
                } else {
                    t.drop_last().filter(pred)
                });
                assert(r@ == t.filter(pred));
            }
        }
        proof {
            assert(self.doorbells@.take(self.doorbells@.len() as int) =~= self.doorbells@);
        }
        r
    }

    fn read_config_register(&self, reg_idx: usize) -> (r: u32) {
        if reg_idx > self.cfg.len() / 4 {
            proof {
                assert(4 * (self.cfg@.len() as int / 4) + 4 > self.cfg@.len() as int);
                assert(byte_at(self.cfg@, 4 * (reg_idx as int)) == 0);
                assert(byte_at(self.cfg@, 4 * (reg_idx as int) + 1) == 0);
                assert(byte_at(self.cfg@, 4 * (reg_idx as int) + 2) == 0);
                assert(byte_at(self.cfg@, 4 * (reg_idx as int) + 3) == 0);
            }
            return 0;
        }
        proof {
            assert(4 * (reg_idx as int) <= 4 * (self.cfg@.len() as int / 4) <= self.cfg@.len()
                as int);
        }
        let base = 4 * reg_idx;
        let b0 = peek(&self.cfg, base, 0);
        let b1 = peek(&self.cfg, base, 1);
        let b2 = peek(&self.cfg, base, 2);
        let b3 = peek(&self.cfg, base, 3);
        let w = (b0 as u32) | ((b1 as u32) << 8) | ((b2 as u32) << 16) | ((b3 as u32) << 24);
        proof {
            assert((b0 as u32) | ((b1 as u32) << 8) | ((b2 as u32) << 16) | ((b3 as u32) << 24)
                == ((b0 as u32) + (b1 as u32) * 0x100 + (b2 as u32) * 0x10000 + (b3 as u32)
                * 0x1000000) as u32) by (bit_vector);
        }
        w
    }

    fn write_config_register(&mut self, reg_idx: usize, offset: u64, data: &[u8]) {
        let ghost pre = *self;
        let ghost start = 4 * (reg_idx as int) + offset as int;
        if reg_idx > self.cfg.len() / 4 {
            proof {
                assert(4 * (self.cfg@.len() as int / 4) + 4 > self.cfg@.len() as int);
                assert(self.cfg@ =~= bytes_written(pre.cfg@, start, data@));
            }
            return ;
        }
        proof {
            assert(4 * (reg_idx as int) <= 4 * (self.cfg@.len() as int / 4) <= self.cfg@.len()
                as int);
        }
        let base = 4 * reg_idx;
        let off = offset as usize;
        let mut i: usize = 0;
        proof {
            assert(self.cfg@ =~= bytes_written(pre.cfg@, start, data@.take(0)));
        }
        while i < data.len()
            invariant
                *self == (SampleDevice { cfg: self.cfg, ..pre }),
                i <= data@.len(),
                base == 4 * (reg_idx as int),
                base <= pre.cfg@.len(),
                off == offset as int,
                off + data@.len() <= 4,
                start == base + off,
                self.cfg@ == bytes_written(pre.cfg@, start, data@.take(i as int)),
            decreases data@.len() - i,
        {
            poke(&mut self.cfg, base, off + i, data[i]);
            proof {
                assert(self.cfg@ =~= bytes_written(pre.cfg@, start, data@.take(i as int + 1)));
            }
            i += 1;
        }
        proof {
            assert(data@.take(data@.len() as int) =~= data@);
        }
    }

    fn read_bar(&mut self, addr: u64, data: &mut Vec<u8>) {
        let ghost pre = *self;
        let ghost pre_data = data@;
        let n = data.len();
        let mut i: usize = 0;
        while i < n
            invariant
                *self == pre,
                data@.len() == pre_data.len(),
                n == pre_data.len(),
                i <= n,
                forall|j: int| 0 <= j < i ==> data@[j] == byte_at(pre.bar_mem@, addr + j),
            decreases n - i,
        {
            let b = if addr < self.bar_mem.len() as u64 {
                peek(&self.bar_mem, addr as usize, i)
            } else {
                0
            };
            data.set(i, b);
            i += 1;
        }
    }

    fn write_bar(&mut self, addr: u64, data: &[u8]) {
        let ghost pre = *self;
        if addr >= self.bar_mem.len() as u64 {
            proof {
                assert(self.bar_mem@ =~= bytes_written(pre.bar_mem@, addr as int, data@));
            }
            return ;
        }
        let base = addr as usize;
        let mut i: usize = 0;
        proof {
            assert(self.bar_mem@ =~= bytes_written(pre.bar_mem@, addr as int, data@.take(0)));
        }
        while i < data.len()
            invariant
                *self == (SampleDevice { bar_mem: self.bar_mem, ..pre }),
                i <= data@.len(),
                base == addr as int,
                base < pre.bar_mem@.len() || pre.bar_mem@.len() == 0,
                self.bar_mem@ == bytes_written(pre.bar_mem@, addr as int, data@.take(i as int)),
            decreases data@.len() - i,
        {
            poke(&mut self.bar_mem, base, i, data[i]);
            proof {
                assert(self.bar_mem@ =~= bytes_written(pre.bar_mem@, addr as int, data@.take(
                    i as int + 1,
                )));
            }
            i += 1;
        }
        proof {
            assert(data@.take(data@.len() as int) =~= data@);
        }
    }

    fn on_device_sandboxed(&mut self)
        ensures
            *final(self) == (SampleDevice { sandbox_notified: true, ..*old(self) }),
    {
        self.sandbox_notified = true;
    }
}

} // verus!
