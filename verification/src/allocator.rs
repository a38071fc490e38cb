use vstd::prelude::*;

verus! {

/// Why the system allocator refused a request.
#[derive(Clone, Copy, PartialEq, Eq, Structural, Debug)]
pub enum AllocationError {
    /// A range of zero bytes was requested.
    SizeZero,
    /// The remaining address pool cannot hold the requested range.
    OutOfSpace,
}

/// The message text of an allocator failure.
pub open spec fn allocation_error_text(e: AllocationError) -> Seq<char> {
    match e {
        AllocationError::SizeZero => "allocation size of zero"@,
        AllocationError::OutOfSpace => "out of space"@,
    }
}

impl AllocationError {
    /// A human-readable account of the failure.
    pub fn describe(&self) -> (r: String)
        ensures
            r@ == allocation_error_text(*self),
    {
        match self {
            AllocationError::SizeZero => "allocation size of zero".to_owned(),
            AllocationError::OutOfSpace => "out of space".to_owned(),
        }
    }
}

/// System resource allocator: grants disjoint address ranges out of an IO
/// pool and a device-memory pool.  Each pool is a bump pointer: the next free
/// address and the exclusive end of the pool.  Ranges are held for the
/// device's full lifetime, so nothing is ever returned to a pool.
#[derive(Clone, Copy, PartialEq, Eq, Structural, Debug)]
pub struct SystemAllocator {
    pub io_next: u64,
    pub io_end: u64,
    pub mmio_next: u64,
    pub mmio_end: u64,
}

impl SystemAllocator {
    /// Each pool's bump pointer stays inside the pool.
    pub open spec fn wf(&self) -> bool {
        self.io_next <= self.io_end && self.mmio_next <= self.mmio_end
    }

    /// An allocator over the IO pool `[io_base, io_end)` and the
    /// device-memory pool `[mmio_base, mmio_end)`; `None` when a pool is
    /// inverted.
    pub fn new(io_base: u64, io_end: u64, mmio_base: u64, mmio_end: u64) -> (r: Option<
        SystemAllocator,
    >)
        ensures
            (io_base <= io_end && mmio_base <= mmio_end) <==> r is Some,
            r matches Some(a) ==> a == (SystemAllocator {
                io_next: io_base,
                io_end,
                mmio_next: mmio_base,
                mmio_end,
            }) && a.wf(),
    {
        if io_base <= io_end && mmio_base <= mmio_end {
            Some(SystemAllocator { io_next: io_base, io_end, mmio_next: mmio_base, mmio_end })
        } else {
            None
        }
    }

    /// Grants `size` bytes from the IO pool: the next free address, which
    /// then moves past the granted range.  Fails exactly on a zero size or a
    /// size larger than what is left in the pool, leaving the allocator
    /// unchanged.
    pub fn allocate_io(&mut self, size: u64) -> (r: Result<u64, AllocationError>)
        requires
            old(self).wf(),
        ensures
            final(self).wf(),
            size == 0 ==> r == Err::<u64, AllocationError>(AllocationError::SizeZero) && *final(self)
                == *old(self),
            size != 0 && size > old(self).io_end - old(self).io_next ==> r == Err::<
                u64,
                AllocationError,
            >(AllocationError::OutOfSpace) && *final(self) == *old(self),
            size != 0 && size <= old(self).io_end - old(self).io_next ==> r == Ok::<
                u64,
                AllocationError,
            >(old(self).io_next) && *final(self) == (SystemAllocator {
                io_next: (old(self).io_next + size) as u64,
                ..*old(self)
            }),
    {
        if size == 0 {
            return Err(AllocationError::SizeZero);
        }
        if size > self.io_end - self.io_next {
            return Err(AllocationError::OutOfSpace);
        }
        let granted = self.io_next;
        self.io_next = granted + size;
        Ok(granted)
    }

    /// Grants `size` bytes from the device-memory pool, as `allocate_io`
    /// does from the IO pool.
    pub fn allocate_mmio(&mut self, size: u64) -> (r: Result<u64, AllocationError>)
        requires
            old(self).wf(),
        ensures
            final(self).wf(),
            size == 0 ==> r == Err::<u64, AllocationError>(AllocationError::SizeZero) && *final(self)
                == *old(self),
            size != 0 && size > old(self).mmio_end - old(self).mmio_next ==> r == Err::<
                u64,
                AllocationError,
            >(AllocationError::OutOfSpace) && *final(self) == *old(self),
            size != 0 && size <= old(self).mmio_end - old(self).mmio_next ==> r == Ok::<
                u64,
                AllocationError,
            >(old(self).mmio_next) && *final(self) == (SystemAllocator {
                mmio_next: (old(self).mmio_next + size) as u64,
                ..*old(self)
            }),
    {
        if size == 0 {
            return Err(AllocationError::SizeZero);
        }
        if size > self.mmio_end - self.mmio_next {
            return Err(AllocationError::OutOfSpace);
        }
        let granted = self.mmio_next;
        self.mmio_next = granted + size;
        Ok(granted)
    }
}

/// Outcome of granting a sequence of sizes, in order, from the pool
/// `[next, end)`: the grants made, the pool pointer afterwards, and the
/// first failure if one occurred.  Sizes before the failure stay granted;
/// sizes after it are not attempted.
pub struct GrantPlan {
    pub grants: Seq<(u64, u64)>,
    pub next: u64,
    pub failure: Option<(u64, AllocationError)>,
}

/// The outcome of granting `sizes`, in order, from the pool `[next, end)`.
pub open spec fn grant_plan(next: u64, end: u64, sizes: Seq<u64>) -> GrantPlan
    recommends
        next <= end,
    decreases sizes.len(),
{
    if sizes.len() == 0 {
        GrantPlan { grants: Seq::empty(), next, failure: None }
    } else if sizes[0] == 0 {
        GrantPlan { grants: Seq::empty(), next, failure: Some((0u64, AllocationError::SizeZero)) }
    } else if sizes[0] > end - next {
        GrantPlan {
            grants: Seq::empty(),
            next,
            failure: Some((sizes[0], AllocationError::OutOfSpace)),
        }
    } else {
        let rest = grant_plan((next + sizes[0]) as u64, end, sizes.drop_first());
        GrantPlan {
            grants: seq![(next, sizes[0])] + rest.grants,
            next: rest.next,
            failure: rest.failure,
        }
    }
}

/// Every grant of a plan is leased from the pool: its length is the
/// requested size, it lies between the starting pointer and the final one,
/// grants come in address order (so they are pairwise disjoint), and when
/// no failure occurred there is exactly one grant per requested size.
pub proof fn lemma_grant_plan_bounds(next: u64, end: u64, sizes: Seq<u64>)
    requires
        next <= end,
    ensures
        ({
            let plan = grant_plan(next, end, sizes);
            &&& next <= plan.next <= end
            &&& plan.grants.len() <= sizes.len()
            &&& plan.failure is None ==> plan.grants.len() == sizes.len()
            &&& forall|k: int|
                0 <= k < plan.grants.len() ==> (#[trigger] plan.grants[k]).1 == sizes[k]
            &&& forall|k: int|
                0 <= k < plan.grants.len() ==> next <= (#[trigger] plan.grants[k]).0
                    && plan.grants[k].0 + plan.grants[k].1 <= plan.next
            &&& forall|k: int, l: int|
                0 <= k < l < plan.grants.len() ==> (#[trigger] plan.grants[k]).0
                    + plan.grants[k].1 <= (#[trigger] plan.grants[l]).0
        }),
    decreases sizes.len(),
{
    let plan = grant_plan(next, end, sizes);
    if sizes.len() == 0 || sizes[0] == 0 || sizes[0] > end - next {
    } else {
        let stepped = (next + sizes[0]) as u64;
        let rest = grant_plan(stepped, end, sizes.drop_first());
        lemma_grant_plan_bounds(stepped, end, sizes.drop_first());
        assert forall|k: int| 0 <= k < plan.grants.len() implies (#[trigger] plan.grants[k]).1
            == sizes[k] && next <= plan.grants[k].0 && plan.grants[k].0 + plan.grants[k].1
            <= plan.next by {
            if k > 0 {
                assert(plan.grants[k] == rest.grants[k - 1]);
                assert(sizes.drop_first()[k - 1] == sizes[k]);
            }
        }
        assert forall|k: int, l: int| 0 <= k < l < plan.grants.len() implies (
        #[trigger] plan.grants[k]).0 + plan.grants[k].1 <= (#[trigger] plan.grants[l]).0 by {
            assert(plan.grants[l] == rest.grants[l - 1]);
            if k > 0 {
                assert(plan.grants[k] == rest.grants[k - 1]);
            }
        }
    }
}

} // verus!
