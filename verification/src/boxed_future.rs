//! Unconditional heap boxing of a deferred computation.

use crate::dynamic_future::{DeferredComputation, DynamicFuture};
use vstd::prelude::*;

verus! {

/// Wraps a computation in a fresh heap allocation at the given logical
/// address and returns a handle that owns it alone: no slot is involved,
/// so the handle's destruction frees exactly this one allocation.
pub(crate) fn box_future_at<F: DeferredComputation>(fut: F, addr: usize) -> (r: DynamicFuture<F>)
    ensures
        r.payload() == fut,
        r.backing_addr() == addr,
        !r.slot_backed(),
{
    DynamicFuture::new(Box::new(fut), addr, None)
}

/// Stores a computation in a fresh heap allocation and returns a handle to
/// it. Exactly one allocation is made per call and freed when the handle is
/// dropped; no storage is ever shared or reused.
///
/// The handle lies outside any recycling allocator's modeled address space
/// and therefore reports the logical address `0`.
pub fn box_future<F: DeferredComputation>(fut: F) -> (r: DynamicFuture<F>)
    ensures
        r.payload() == fut,
        r.backing_addr() == 0,
        !r.slot_backed(),
{
    box_future_at(fut, 0)
}

} // verus!
