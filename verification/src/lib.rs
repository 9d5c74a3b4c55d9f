//! A single-slot recycling allocator for type-erased, lazily resolving
//! computations.
//!
//! The crate offers a deferred-computation handle ([`DynamicFuture`]), an
//! unconditional heap-boxing entry point ([`box_future`]), and a stateful
//! [`RecyclableFutureAllocator`] that retains one heap slot and hands it to
//! successive computations of the same size whenever the previous occupant
//! has already been retired.

mod boxed_future;
mod dynamic_future;
mod laws;
mod recycler;

pub use boxed_future::box_future;
pub use dynamic_future::{DeferredComputation, DynamicFuture, Step};
pub use laws::{
    lemma_busy_slot_gets_independent_storage, lemma_free_slot_same_size_reuses,
    lemma_held_slot_is_permanent, lemma_retired_run_allocates_once,
    lemma_size_mismatch_leaves_slot_untouched, lemma_slot_backed_handle_shares_slot_address,
    lemma_transition_preserves_wf,
};
pub use recycler::{
    can_allocate, handle_addr_after, handle_slot_backed_after, independent_footprint,
    initial_model, model_after, payload_size, retired_run, route_of, wf_model, AllocationRoute,
    AllocatorModel, RecyclableFutureAllocator, RecyclableFutureHeader, HEADER_BYTES,
};
