//! The recycling allocator: a single-slot arena for deferred computations.
//!
//! The allocator retains at most one heap slot across calls. A call reuses
//! the slot exactly when the incoming computation's size equals the slot's
//! recorded capacity and the previous occupant's handle has already been
//! retired; in every other case the call degrades to an independent heap
//! allocation and leaves the slot untouched.
//!
//! Storage accounting is part of the allocator's contract: every allocation
//! it performs is tallied, and every piece of backing storage is named by a
//! logical address, so that reuse ("the same address comes back, the tally
//! does not move") and independence ("a fresh address, the tally grows by
//! one") are stated exactly.

use crate::boxed_future::box_future_at;
use crate::dynamic_future::{DeferredComputation, DynamicFuture};
use std::sync::Arc;
use vstd::prelude::*;

verus! {

/// Size in bytes of the header block that a recyclable slot keeps in front
/// of its payload storage: one 8-byte word for the reference count and one
/// for the recorded payload capacity.
pub const HEADER_BYTES: usize = 16;

/// The header of a recyclable slot: the slot's logical address and the
/// payload capacity it was created with.
///
/// The slot's reference count is not a field: it is the number of live
/// `Arc`s to this header, two while a handle is outstanding (one held by
/// the allocator, one by the handle) and one once the handle has been
/// retired. No third referent can arise, because neither the allocator nor
/// a handle can be cloned, and the slot is freed exactly when the last of
/// the two `Arc`s is dropped, whichever side that is.
pub struct RecyclableFutureHeader {
    /// The logical address of the slot's header block. The payload region
    /// starts `HEADER_BYTES` past it.
    pub addr: usize,
    /// The payload capacity in bytes. The slot is reused only for a
    /// computation of exactly this size.
    pub capacity: usize,
}

impl RecyclableFutureHeader {
    /// The total footprint of a slot whose payload region must hold
    /// `data_size` bytes, or `None` when header and payload together
    /// exceed the address space.
    pub fn layout_for_size(data_size: usize) -> (r: Option<usize>)
        ensures
            r == if data_size + HEADER_BYTES <= usize::MAX {
                Some((data_size + HEADER_BYTES) as usize)
            } else {
                None::<usize>
            },
    {
        data_size.checked_add(HEADER_BYTES)
    }

    /// The logical address of the payload region stored behind the header.
    pub fn payload_addr(&self) -> (r: usize)
        requires
            self.addr + HEADER_BYTES <= usize::MAX,
        ensures
            r == self.addr + HEADER_BYTES,
    {
        self.addr + HEADER_BYTES
    }
}

/// The size of the computation type `F`, as recorded in slot capacities.
pub open spec fn payload_size<F>() -> usize {
    vstd::layout::size_of_as_usize::<F>()
}

/// The allocator's logical state: its retained slot, the running tally of
/// heap allocations it has performed, and the next unused logical address.
pub struct AllocatorModel {
    /// The retained slot's header, if a slot is held.
    pub slot: Option<RecyclableFutureHeader>,
    /// How many heap allocations the allocator has performed so far.
    pub allocations: u64,
    /// The lowest logical address not yet handed to any allocation.
    pub next_addr: usize,
}

/// How a single allocation request is routed.
pub enum AllocationRoute {
    /// No slot was held: a fresh slot is allocated and retained.
    FreshSlot,
    /// The held slot matched in size and was free: its storage is reused.
    ReusedSlot,
    /// Size mismatch, or the slot was still occupied: an independent
    /// allocation is made and the slot is left exactly as it was.
    Independent,
}

/// The route taken by a request of the given size against the given slot.
/// `slot_free` says whether the allocator held the only reference to the
/// slot at the moment of the call, i.e. whether the previous occupant's
/// handle had already been retired.
pub open spec fn route_of(
    slot: Option<RecyclableFutureHeader>,
    slot_free: bool,
    size: usize,
) -> AllocationRoute {
    match slot {
        None => AllocationRoute::FreshSlot,
        Some(h) => if h.capacity != size {
            AllocationRoute::Independent
        } else if slot_free {
            AllocationRoute::ReusedSlot
        } else {
            AllocationRoute::Independent
        },
    }
}

/// The logical address space consumed by an independent allocation: its
/// payload size, with zero-sized payloads still receiving a distinct
/// address of their own.
pub open spec fn independent_footprint(size: usize) -> usize {
    if size == 0 {
        1
    } else {
        size
    }
}

/// Well-formedness of an allocator state: addresses start at 1 (address 0
/// names storage outside any allocator), and a held slot's address was
/// issued before the next free one.
pub open spec fn wf_model(m: AllocatorModel) -> bool {
    &&& 1 <= m.next_addr
    &&& (m.slot matches Some(h) ==> 1 <= h.addr < m.next_addr)
}

/// Headroom for one more request of the given size: the tally and the
/// address space must not run out. Exceeding either is the machine-limit
/// analogue of heap exhaustion, which this allocator does not recover from.
pub open spec fn can_allocate(m: AllocatorModel, size: usize) -> bool {
    &&& m.allocations < u64::MAX
    &&& m.next_addr + HEADER_BYTES + size <= usize::MAX
}

/// The allocator state after one request of the given size, with
/// `slot_free` as in [`route_of`]: a fresh slot is retained, a reused slot
/// leaves the state exactly as it was, and an independent allocation only
/// moves the tally and the address watermark.
pub open spec fn model_after(m: AllocatorModel, slot_free: bool, size: usize) -> AllocatorModel
    recommends
        can_allocate(m, size),
{
    match route_of(m.slot, slot_free, size) {
        AllocationRoute::FreshSlot => AllocatorModel {
            slot: Some(RecyclableFutureHeader { addr: m.next_addr, capacity: size }),
            allocations: (m.allocations + 1) as u64,
            next_addr: (m.next_addr + HEADER_BYTES + size) as usize,
        },
        AllocationRoute::ReusedSlot => m,
        AllocationRoute::Independent => AllocatorModel {
            slot: m.slot,
            allocations: (m.allocations + 1) as u64,
            next_addr: (m.next_addr + independent_footprint(size)) as usize,
        },
    }
}

/// The backing address of the handle returned by that request: the reused
/// slot's own address, or a fresh one.
pub open spec fn handle_addr_after(m: AllocatorModel, slot_free: bool, size: usize) -> usize {
    match route_of(m.slot, slot_free, size) {
        AllocationRoute::ReusedSlot => m.slot.unwrap().addr,
        AllocationRoute::FreshSlot => m.next_addr,
        AllocationRoute::Independent => m.next_addr,
    }
}

/// Whether the handle returned by that request is backed by the allocator's
/// slot rather than by an independent allocation.
pub open spec fn handle_slot_backed_after(
    m: AllocatorModel,
    slot_free: bool,
    size: usize,
) -> bool {
    !(route_of(m.slot, slot_free, size) is Independent)
}

/// The allocator state after `n` same-size requests, each of whose handles
/// was retired before the next request was made, so that the slot is free
/// at every step.
pub open spec fn retired_run(m: AllocatorModel, size: usize, n: nat) -> AllocatorModel
    decreases n,
{
    if n == 0 {
        m
    } else {
        model_after(retired_run(m, size, (n - 1) as nat), true, size)
    }
}

/// The state of a freshly constructed allocator: no slot, nothing
/// allocated, the whole address space ahead of it.
pub open spec fn initial_model() -> AllocatorModel {
    AllocatorModel { slot: None, allocations: 0, next_addr: 1 }
}

/// Relies on `alloc::sync::Arc::clone`: the clone is a second reference to
/// the same allocation, carrying the same header value, and raises the
/// slot's reference count by one.
#[verifier::external_body]
fn arc_clone<T>(v: &Arc<T>) -> (r: Arc<T>)
    ensures
        r == *v,
{
    Arc::clone(v)
}

/// Relies on `alloc::sync::Arc::try_unwrap`: when the argument is the only
/// reference to its allocation, the inner value is handed back and the
/// allocation is released; otherwise the same reference comes back and the
/// allocation is untouched. Either way the header value is preserved.
#[verifier::external_body]
fn arc_try_unwrap<T>(v: Arc<T>) -> (r: Result<T, Arc<T>>)
    ensures
        match r {
            Ok(t) => t == v,
            Err(e) => e == v,
        },
{
    Arc::try_unwrap(v)
}

/// An allocator for [`DynamicFuture`]s which can reuse storage.
///
/// If the handle that this allocator returned has been retired, the
/// allocator reuses the storage backing it for the next computation of the
/// same size; otherwise it degrades to an independent allocation.
pub struct RecyclableFutureAllocator {
    /// The allocator's reference to its retained slot, if any.
    recycled: Option<Arc<RecyclableFutureHeader>>,
    /// How many heap allocations this allocator has performed.
    allocation_tally: u64,
    /// The next unused logical address.
    next_addr: usize,
}

impl RecyclableFutureAllocator {
    /// The allocator's logical state.
    pub closed spec fn model(&self) -> AllocatorModel {
        AllocatorModel {
            slot: match self.recycled {
                Some(h) => Some(*h),
                None => None,
            },
            allocations: self.allocation_tally,
            next_addr: self.next_addr,
        }
    }

    /// Well-formedness of the allocator.
    pub open spec fn wf(&self) -> bool {
        wf_model(self.model())
    }

    /// Creates an allocator holding no slot.
    pub fn new() -> (r: Self)
        ensures
            r.model() == initial_model(),
            r.wf(),
    {
        RecyclableFutureAllocator { recycled: None, allocation_tally: 0, next_addr: 1 }
    }

    /// The lowest logical address this allocator has not yet issued.
    pub fn address_watermark(&self) -> (r: usize)
        ensures
            r == self.model().next_addr,
    {
        self.next_addr
    }

    /// How many heap allocations this allocator has performed so far.
    pub fn allocation_count(&self) -> (r: u64)
        ensures
            r == self.model().allocations,
    {
        self.allocation_tally
    }

    /// The logical address of the retained slot, if one is held.
    pub fn slot_address(&self) -> (r: Option<usize>)
        ensures
            r == match self.model().slot {
                Some(h) => Some(h.addr),
                None => None::<usize>,
            },
    {
        match &self.recycled {
            Some(h) => Some(h.addr),
            None => None,
        }
    }

    /// The payload capacity of the retained slot, if one is held.
    pub fn slot_capacity(&self) -> (r: Option<usize>)
        ensures
            r == match self.model().slot {
                Some(h) => Some(h.capacity),
                None => None::<usize>,
            },
    {
        match &self.recycled {
            Some(h) => Some(h.capacity),
            None => None,
        }
    }

    /// An independent allocation: one fresh heap cell for this computation
    /// alone, tallied, with the retained slot left exactly as it was.
    fn independent_allocation<F: DeferredComputation>(&mut self, fut: F) -> (r: DynamicFuture<F>)
        requires
            old(self).model().allocations < u64::MAX,
            old(self).model().next_addr + independent_footprint(payload_size::<F>())
                <= usize::MAX,
        ensures
            final(self).model().slot == old(self).model().slot,
            final(self).model().allocations == old(self).model().allocations + 1,
            final(self).model().next_addr == old(self).model().next_addr
                + independent_footprint(payload_size::<F>()),
            r.payload() == fut,
            r.backing_addr() == old(self).model().next_addr,
            !r.slot_backed(),
    {
        let sz: usize = core::mem::size_of::<F>();
        let step: usize = if sz == 0 {
            1
        } else {
            sz
        };
        let addr = self.next_addr;
        self.allocation_tally = self.allocation_tally + 1;
        self.next_addr = self.next_addr + step;
        box_future_at(fut, addr)
    }

    /// Transforms the passed computation into a [`DynamicFuture`].
    ///
    /// The computation moves onto the heap. When the allocator holds no
    /// slot yet, a slot sized exactly to the computation is allocated and
    /// retained, and the handle is backed by it. When the held slot's
    /// capacity equals the computation's size and the previous occupant's
    /// handle has been retired, the slot's storage is reused in place: the
    /// same backing address comes back and no allocation is performed.
    /// Otherwise — size mismatch, or the previous handle still live — the
    /// call falls back to an independent allocation and the slot is left
    /// exactly as it was.
    ///
    /// The postcondition fixes the outcome as a function of the state, the
    /// computation's size, and one bit `slot_free`: whether the allocator
    /// held the only reference to its slot at the moment of the call.
    pub fn allocate<F: DeferredComputation>(&mut self, fut: F) -> (result: DynamicFuture<F>)
        requires
            old(self).wf(),
            can_allocate(old(self).model(), payload_size::<F>()),
        ensures
            final(self).wf(),
            result.payload() == fut,
            exists|slot_free: bool|
                {
                    &&& final(self).model() == #[trigger] model_after(
                        old(self).model(),
                        slot_free,
                        payload_size::<F>(),
                    )
                    &&& result.backing_addr() == handle_addr_after(
                        old(self).model(),
                        slot_free,
                        payload_size::<F>(),
                    )
                    &&& result.slot_backed() == handle_slot_backed_after(
                        old(self).model(),
                        slot_free,
                        payload_size::<F>(),
                    )
                },
    {
        let sz: usize = core::mem::size_of::<F>();
        match self.recycled.take() {
            None => {
                // First call: allocate a slot sized exactly to the
                // computation and retain it. The slot starts with two
                // referents: the allocator and the handle about to be
                // returned.
                let total = RecyclableFutureHeader::layout_for_size(sz).unwrap();
                let addr = self.next_addr;
                let header = Arc::new(RecyclableFutureHeader { addr, capacity: sz });
                let token = arc_clone(&header);
                self.recycled = Some(header);
                self.allocation_tally = self.allocation_tally + 1;
                self.next_addr = self.next_addr + total;
                let result = DynamicFuture::new(Box::new(fut), addr, Some(token));
                proof {
                    assert(self.model() == model_after(
                        old(self).model(),
                        true,
                        payload_size::<F>(),
                    ));
                }
                result
            },
            Some(header_arc) => {
                if header_arc.capacity != sz {
                    // The slot's capacity differs from the computation's
                    // size: leave the slot untouched and degrade to an
                    // independent allocation.
                    self.recycled = Some(header_arc);
                    let result = self.independent_allocation(fut);
                    proof {
                        assert(self.model() == model_after(
                            old(self).model(),
                            true,
                            payload_size::<F>(),
                        ));
                    }
                    result
                } else {
                    // Same size: the slot may be reused exactly when the
                    // allocator's reference is the only one left, i.e. the
                    // previous occupant's handle has been retired.
                    match arc_try_unwrap(header_arc) {
                        Ok(header) => {
                            // Sole referent: the new computation takes over
                            // the slot's payload region at its unchanged
                            // address, and the slot goes back out at a
                            // count of two.
                            let addr = header.addr;
                            let fresh = Arc::new(header);
                            let token = arc_clone(&fresh);
                            self.recycled = Some(fresh);
                            let result = DynamicFuture::new(Box::new(fut), addr, Some(token));
                            proof {
                                assert(self.model() == model_after(
                                    old(self).model(),
                                    true,
                                    payload_size::<F>(),
                                ));
                            }
                            result
                        },
                        Err(still_shared) => {
                            // The previous handle is still live: its
                            // storage may not be touched. Leave the slot
                            // as it is and allocate independently.
                            self.recycled = Some(still_shared);
                            let result = self.independent_allocation(fut);
                            proof {
                                assert(self.model() == model_after(
                                    old(self).model(),
                                    false,
                                    payload_size::<F>(),
                                ));
                            }
                            result
                        },
                    }
                }
            },
        }
    }
}

impl Default for RecyclableFutureAllocator {
    /// Same as [`RecyclableFutureAllocator::new`].
    fn default() -> (r: Self)
        ensures
            r.model() == initial_model(),
            r.wf(),
    {
        RecyclableFutureAllocator::new()
    }
}

} // verus!
