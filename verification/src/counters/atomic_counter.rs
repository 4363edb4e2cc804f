//! A counter in one atomic integer.

use crate::counters::counter::Counter;
use std::sync::atomic::{AtomicIsize, Ordering};
use vstd::prelude::*;

verus! {

/// A single shared atomic integer: the striped counter with exactly one
/// cell, and the reference that striping is measured against.
pub struct AtomicCounter {
    value: AtomicIsize,
}

impl AtomicCounter {
    /// The counter's atomic was made holding `initial`.
    pub closed spec fn made_with(&self, initial: isize) -> bool {
        call_ensures(AtomicIsize::new, (initial,), self.value)
    }

    /// `seen` is what an acquire load of the counter's atomic returned.
    pub closed spec fn loaded(&self, seen: isize) -> bool {
        call_ensures(AtomicIsize::load, (&self.value, Ordering::Acquire), seen)
    }

    /// A release fetch-and-add of `delta` was made on the counter's atomic.
    pub closed spec fn added(&self, delta: isize) -> bool {
        exists|seen: isize|
            call_ensures(AtomicIsize::fetch_add, (&self.value, delta, Ordering::Release), seen)
    }

    /// A release fetch-and-subtract of `delta` was made on the counter's
    /// atomic.
    pub closed spec fn subtracted(&self, delta: isize) -> bool {
        exists|seen: isize|
            call_ensures(AtomicIsize::fetch_sub, (&self.value, delta, Ordering::Release), seen)
    }

    /// A sequentially consistent store of zero was made on the counter's
    /// atomic.
    pub closed spec fn was_cleared(&self) -> bool {
        call_ensures(AtomicIsize::store, (&self.value, 0isize, Ordering::SeqCst), ())
    }

    /// A counter at zero.
    pub fn new() -> (counter: AtomicCounter)
        ensures
            counter.made_with(0),
    {
        AtomicCounter { value: AtomicIsize::new(0) }
    }
}

impl Counter for AtomicCounter {
    /// Stores zero, sequentially consistent: no thread sees the reset out of
    /// order with other synchronized operations.
    fn clear(&self)
        ensures
            self.was_cleared(),
    {
        self.value.store(0, Ordering::SeqCst)
    }

    /// One atomic add with release ordering.
    fn inc(&self, value: isize)
        ensures
            self.added(value),
    {
        self.value.fetch_add(value, Ordering::Release);
    }

    /// One atomic subtract with release ordering.
    fn dec(&self, value: isize)
        ensures
            self.subtracted(value),
    {
        self.value.fetch_sub(value, Ordering::Release);
    }

    /// One atomic load with acquire ordering.
    fn snapshot(&self) -> (seen: isize)
        ensures
            self.loaded(seen),
    {
        self.value.load(Ordering::Acquire)
    }
}

} // verus!
