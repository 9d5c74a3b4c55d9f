//! Behaviour of the handles themselves: polling, destruction, drop order.

use future_recycler::{box_future, DeferredComputation, DynamicFuture, RecyclableFutureAllocator, Step};
use std::cell::Cell;
use std::rc::Rc;

/// A computation that suspends a fixed number of times before resolving.
struct Countdown {
    remaining: u32,
    value: u32,
}

impl DeferredComputation for Countdown {
    type Output = u32;

    fn advance(&mut self) -> Step<u32> {
        if self.remaining == 0 {
            Step::Resolved(self.value)
        } else {
            self.remaining -= 1;
            Step::Suspended
        }
    }
}

/// A never-resolving computation whose destructor bumps a shared counter.
struct Marker {
    hits: Rc<Cell<u32>>,
}

impl Drop for Marker {
    fn drop(&mut self) {
        self.hits.set(self.hits.get() + 1);
    }
}

impl DeferredComputation for Marker {
    type Output = ();

    fn advance(&mut self) -> Step<()> {
        Step::Suspended
    }
}

fn drive<F: DeferredComputation>(h: &mut DynamicFuture<F>) -> F::Output {
    loop {
        match h.poll() {
            Step::Resolved(v) => return v,
            Step::Suspended => {}
        }
    }
}

#[test]
fn poll_suspends_until_resolution() {
    let mut h = box_future(Countdown { remaining: 3, value: 9 });
    let mut suspensions = 0u32;
    let value = loop {
        match h.poll() {
            Step::Resolved(v) => break v,
            Step::Suspended => suspensions += 1,
        }
    };
    assert_eq!(value, 9);
    assert_eq!(suspensions, 3);
}

#[test]
fn boxed_future_reports_no_modeled_address() {
    let mut h = box_future(Countdown { remaining: 0, value: 5 });
    assert_eq!(h.ptr(), 0);
    assert!(!h.is_slot_backed());
    assert_eq!(drive(&mut h), 5);
}

#[test]
fn dropping_boxed_handle_runs_destructor_once() {
    let hits = Rc::new(Cell::new(0));
    let h = box_future(Marker { hits: hits.clone() });
    assert_eq!(hits.get(), 0);
    drop(h);
    assert_eq!(hits.get(), 1);
}

#[test]
fn dropping_unresolved_handle_runs_destructor_once() {
    let hits = Rc::new(Cell::new(0));
    let mut alloc = RecyclableFutureAllocator::new();
    let mut h = alloc.allocate(Marker { hits: hits.clone() });
    assert!(matches!(h.poll(), Step::Suspended));
    assert_eq!(hits.get(), 0);
    drop(h);
    assert_eq!(hits.get(), 1);
    drop(alloc);
    assert_eq!(hits.get(), 1);
}

#[test]
fn handle_outlives_allocator() {
    let hits = Rc::new(Cell::new(0));
    let mut alloc = RecyclableFutureAllocator::new();
    let mut h = alloc.allocate(Marker { hits: hits.clone() });
    drop(alloc);
    // The payload is untouched by the allocator's destruction and can still
    // be driven; dropping the handle afterwards finalizes it exactly once.
    assert!(matches!(h.poll(), Step::Suspended));
    assert_eq!(hits.get(), 0);
    drop(h);
    assert_eq!(hits.get(), 1);
}

#[test]
fn reuse_does_not_finalize_twice() {
    let hits = Rc::new(Cell::new(0));
    let mut alloc = RecyclableFutureAllocator::new();
    let first = alloc.allocate(Marker { hits: hits.clone() });
    drop(first);
    assert_eq!(hits.get(), 1);

    // The second occupant reuses the slot; only its own destructor runs when
    // it is dropped.
    let second = alloc.allocate(Marker { hits: hits.clone() });
    assert_eq!(alloc.allocation_count(), 1);
    drop(second);
    assert_eq!(hits.get(), 2);
    drop(alloc);
    assert_eq!(hits.get(), 2);
}

#[test]
fn two_live_handles_finalize_independently() {
    let hits = Rc::new(Cell::new(0));
    let mut alloc = RecyclableFutureAllocator::new();
    let a = alloc.allocate(Marker { hits: hits.clone() });
    let b = alloc.allocate(Marker { hits: hits.clone() });
    assert_eq!(alloc.allocation_count(), 2);
    assert_ne!(a.ptr(), b.ptr());
    drop(a);
    assert_eq!(hits.get(), 1);
    drop(b);
    assert_eq!(hits.get(), 2);
}

#[test]
fn two_live_handles_finalize_in_reverse_order() {
    let hits = Rc::new(Cell::new(0));
    let mut alloc = RecyclableFutureAllocator::new();
    let a = alloc.allocate(Marker { hits: hits.clone() });
    let b = alloc.allocate(Marker { hits: hits.clone() });
    drop(b);
    assert_eq!(hits.get(), 1);
    drop(a);
    assert_eq!(hits.get(), 2);
    drop(alloc);
    assert_eq!(hits.get(), 2);
}

#[test]
fn default_allocator_matches_new() {
    let mut alloc = RecyclableFutureAllocator::default();
    assert_eq!(alloc.allocation_count(), 0);
    assert_eq!(alloc.slot_address(), None);
    let mut h = alloc.allocate(Countdown { remaining: 1, value: 4 });
    assert_eq!(h.ptr(), 1);
    assert_eq!(drive(&mut h), 4);
}
