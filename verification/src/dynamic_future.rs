//! The type-erased, lazily resolving computation handle.
//!
//! A [`DynamicFuture`] wraps a heap-backed payload together with the
//! information needed to drive it to completion and to account for its
//! backing storage. The payload never moves once the handle is constructed:
//! it lives in its own heap cell, so the handle itself may be passed around
//! freely while the computation's storage stays pinned.

use crate::recycler::RecyclableFutureHeader;
use std::sync::Arc;
use vstd::prelude::*;

verus! {

/// The outcome of advancing a deferred computation once: either the final
/// value, or a signal that the computation suspended and wants to be advanced
/// again later.
pub enum Step<T> {
    Resolved(T),
    Suspended,
}

/// A computation that resolves to one value after zero or more suspensions,
/// driven by an external scheduler through repeated calls to `advance`.
///
/// Implementors are arbitrary and unknown to this crate; nothing is assumed
/// about how many advances a computation needs before it resolves.
pub trait DeferredComputation {
    type Output;

    /// Drives the computation one step.
    fn advance(&mut self) -> Step<Self::Output>;
}

/// A handle to a heap-backed deferred computation.
///
/// The handle exclusively owns its payload. Dropping the handle at any point
/// of the computation's life — resolved, unresolved, or never advanced —
/// runs the payload's destructor exactly once and releases the handle's
/// claim on its backing slot, if it holds one.
pub struct DynamicFuture<F: DeferredComputation> {
    /// The computation, in its own heap cell so that it never moves while
    /// the handle is alive. Declared first so that it is destroyed before
    /// the slot claim below is given up.
    payload: Box<F>,
    /// The logical address of the backing storage within the issuing
    /// allocator's address space; `0` for storage outside any allocator.
    addr: usize,
    /// The handle's claim on a recycling allocator's slot. While this is
    /// held, the slot counts two referents (allocator and handle) and may
    /// not be reused; dropping the handle releases the claim.
    token: Option<Arc<RecyclableFutureHeader>>,
}

impl<F: DeferredComputation> DynamicFuture<F> {
    /// The computation carried by this handle.
    pub closed spec fn payload(&self) -> F {
        *self.payload
    }

    /// The logical address of the handle's backing storage.
    pub closed spec fn backing_addr(&self) -> usize {
        self.addr
    }

    /// Whether the handle is backed by a recycling allocator's slot, as
    /// opposed to an independent heap allocation.
    pub closed spec fn slot_backed(&self) -> bool {
        self.token is Some
    }

    /// Binds an already heap-boxed computation to its backing storage: the
    /// logical address it is accounted at, and the slot claim when the
    /// storage is a recycling allocator's slot.
    pub(crate) fn new(
        payload: Box<F>,
        addr: usize,
        token: Option<Arc<RecyclableFutureHeader>>,
    ) -> (r: Self)
        ensures
            r.payload() == *payload,
            r.backing_addr() == addr,
            r.slot_backed() == (token is Some),
    {
        DynamicFuture { payload, addr, token }
    }

    /// Advances the payload one step. The backing storage is untouched:
    /// the payload is driven in place, at the same address, however often
    /// the handle is polled.
    pub fn poll(&mut self) -> (r: Step<F::Output>)
        ensures
            final(self).backing_addr() == old(self).backing_addr(),
            final(self).slot_backed() == old(self).slot_backed(),
    {
        self.payload.advance()
    }

    /// Returns the logical address of the backing storage.
    pub fn ptr(&self) -> (r: usize)
        ensures
            r == self.backing_addr(),
    {
        self.addr
    }

    /// Returns whether the handle is backed by a recycling allocator's slot.
    pub fn is_slot_backed(&self) -> (r: bool)
        ensures
            r == self.slot_backed(),
    {
        self.token.is_some()
    }
}

} // verus!
