//! Laws of the recycling allocator's transition model.
//!
//! Each proof function states one guarantee of the allocator over the
//! transition function [`model_after`] and its companions, for every state
//! and request they admit. The `slot_free` argument of the transition is
//! the occupancy of the slot at the moment of the call: `true` exactly when
//! the previous occupant's handle had already been retired, so that the
//! allocator held the slot's only reference.

use crate::recycler::{
    can_allocate, handle_addr_after, handle_slot_backed_after, initial_model, model_after,
    retired_run, route_of, wf_model, AllocatorModel, RecyclableFutureHeader,
};
use vstd::prelude::*;

verus! {

/// Law: the transition preserves well-formedness, and never lowers the
/// address watermark — once issued, an address is never issued again.
pub proof fn lemma_transition_preserves_wf(
    m: AllocatorModel,
    slot_free: bool,
    size: usize,
)
    requires
        wf_model(m),
        can_allocate(m, size),
    ensures
        wf_model(model_after(m, slot_free, size)),
        m.next_addr <= model_after(m, slot_free, size).next_addr,
{
}

/// Law: once a slot is held it is permanent — no request, whatever its size
/// and whatever the slot's occupancy, ever replaces, resizes or drops the
/// retained slot.
pub proof fn lemma_held_slot_is_permanent(
    m: AllocatorModel,
    slot_free: bool,
    size: usize,
)
    requires
        m.slot is Some,
    ensures
        model_after(m, slot_free, size).slot == m.slot,
{
}

/// Law: a request of the slot's own size, made while the slot is free,
/// reuses it — the allocator's state does not move at all (in particular,
/// no allocation is performed), and the handle comes back on the slot's
/// own backing address.
pub proof fn lemma_free_slot_same_size_reuses(
    m: AllocatorModel,
    h: RecyclableFutureHeader,
    size: usize,
)
    requires
        wf_model(m),
        m.slot == Some(h),
        h.capacity == size,
    ensures
        route_of(m.slot, true, size) is ReusedSlot,
        model_after(m, true, size) == m,
        handle_addr_after(m, true, size) == h.addr,
        handle_slot_backed_after(m, true, size),
{
}

/// Law: a slot-backed handle is backed by the retained slot itself — its
/// backing address is the address of the slot that the allocator holds
/// after the call.
pub proof fn lemma_slot_backed_handle_shares_slot_address(
    m: AllocatorModel,
    slot_free: bool,
    size: usize,
)
    requires
        wf_model(m),
        can_allocate(m, size),
        handle_slot_backed_after(m, slot_free, size),
    ensures
        model_after(m, slot_free, size).slot matches Some(h)
            && handle_addr_after(m, slot_free, size) == h.addr,
{
}

/// Law: a run of same-size requests against a fresh allocator, each of
/// whose handles is retired before the next request is made, allocates
/// exactly once — on the first request — and every request of the run is
/// answered from the one slot created then.
pub proof fn lemma_retired_run_allocates_once(size: usize, n: nat)
    requires
        can_allocate(initial_model(), size),
        1 <= n,
    ensures
        retired_run(initial_model(), size, n) == model_after(initial_model(), true, size),
        retired_run(initial_model(), size, n).allocations == 1,
        handle_addr_after(retired_run(initial_model(), size, n), true, size)
            == initial_model().next_addr,
    decreases n,
{
    let first = model_after(initial_model(), true, size);
    assert(first.slot == Some(RecyclableFutureHeader {
        addr: initial_model().next_addr,
        capacity: size,
    }));
    if n == 1 {
        assert(retired_run(initial_model(), size, 1) == first);
    } else {
        lemma_retired_run_allocates_once(size, (n - 1) as nat);
        lemma_free_slot_same_size_reuses(
            first,
            first.slot.unwrap(),
            size,
        );
    }
    lemma_free_slot_same_size_reuses(first, first.slot.unwrap(), size);
}

/// Law: a request of the slot's own size, made while the previous
/// occupant's handle is still live, is answered from independent storage:
/// the handle's backing address differs from the slot's, the slot itself
/// is left exactly as it was, and one allocation is tallied.
pub proof fn lemma_busy_slot_gets_independent_storage(
    m: AllocatorModel,
    h: RecyclableFutureHeader,
    size: usize,
)
    requires
        wf_model(m),
        can_allocate(m, size),
        m.slot == Some(h),
        h.capacity == size,
    ensures
        route_of(m.slot, false, size) is Independent,
        !handle_slot_backed_after(m, false, size),
        handle_addr_after(m, false, size) != h.addr,
        model_after(m, false, size).slot == m.slot,
        model_after(m, false, size).allocations == m.allocations + 1,
{
}

/// Law: a request whose size differs from the slot's capacity never touches
/// the slot, whether or not the previous handle is still live: the handle
/// is independently backed at a fresh address, and the slot's address and
/// capacity remain available unchanged for future same-size requests.
pub proof fn lemma_size_mismatch_leaves_slot_untouched(
    m: AllocatorModel,
    h: RecyclableFutureHeader,
    slot_free: bool,
    size: usize,
)
    requires
        wf_model(m),
        can_allocate(m, size),
        m.slot == Some(h),
        h.capacity != size,
    ensures
        route_of(m.slot, slot_free, size) is Independent,
        !handle_slot_backed_after(m, slot_free, size),
        handle_addr_after(m, slot_free, size) != h.addr,
        model_after(m, slot_free, size).slot == Some(h),
        model_after(m, slot_free, size).allocations == m.allocations + 1,
{
}

} // verus!
