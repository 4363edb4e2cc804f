//! One cell of a striped counter.

use std::sync::atomic::{AtomicIsize, Ordering};
use vstd::prelude::*;

verus! {

/// An atomic signed integer followed by eight unused machine words, so that
/// two neighbours in an array never share a cache line.
///
/// A cell starts at zero and is written only by atomic add, atomic subtract
/// and atomic store of zero. What it holds at a given moment depends on every
/// thread that can reach it, so no specification here speaks of its value:
/// each operation says which atomic operation, on which cell and with which
/// arguments, its result came from.
pub struct PaddedAtomicLong {
    pub value: AtomicIsize,
    padding: [usize; 8],
}

impl PaddedAtomicLong {
    /// The cell's atomic was made holding `initial`.
    pub closed spec fn made_with(&self, initial: isize) -> bool {
        call_ensures(AtomicIsize::new, (initial,), self.value)
    }

    /// `seen` is what an acquire load of this cell returned.
    pub closed spec fn loaded(&self, seen: isize) -> bool {
        call_ensures(AtomicIsize::load, (&self.value, Ordering::Acquire), seen)
    }

    /// `seen` is what a release fetch-and-add of `delta` on this cell
    /// returned: the value that the cell held just before.
    pub closed spec fn fetched_add(&self, delta: isize, seen: isize) -> bool {
        call_ensures(AtomicIsize::fetch_add, (&self.value, delta, Ordering::Release), seen)
    }

    /// `seen` is what a release fetch-and-subtract of `delta` on this cell
    /// returned: the value that the cell held just before.
    pub closed spec fn fetched_sub(&self, delta: isize, seen: isize) -> bool {
        call_ensures(AtomicIsize::fetch_sub, (&self.value, delta, Ordering::Release), seen)
    }

    /// A release store of zero was made on this cell.
    pub closed spec fn was_reset(&self) -> bool {
        call_ensures(AtomicIsize::store, (&self.value, 0isize, Ordering::Release), ())
    }

    /// A cell holding zero.
    pub fn new() -> (cell: PaddedAtomicLong)
        ensures
            cell.made_with(0),
    {
        PaddedAtomicLong { value: AtomicIsize::new(0), padding: [0; 8] }
    }

    /// What the cell holds now, read with acquire ordering: the latest
    /// release write to this cell that happened before, or a later one.
    pub fn load(&self) -> (seen: isize)
        ensures
            self.loaded(seen),
    {
        self.value.load(Ordering::Acquire)
    }

    /// Adds `delta` in one atomic step with release ordering, wrapping on
    /// overflow, and returns what the cell held just before.
    pub fn fetch_add(&self, delta: isize) -> (seen: isize)
        ensures
            self.fetched_add(delta, seen),
    {
        self.value.fetch_add(delta, Ordering::Release)
    }

    /// Subtracts `delta` in one atomic step with release ordering, wrapping
    /// on overflow, and returns what the cell held just before.
    pub fn fetch_sub(&self, delta: isize) -> (seen: isize)
        ensures
            self.fetched_sub(delta, seen),
    {
        self.value.fetch_sub(delta, Ordering::Release)
    }

    /// Stores zero with release ordering.
    pub fn reset(&self)
        ensures
            self.was_reset(),
    {
        self.value.store(0, Ordering::Release)
    }
}

} // verus!
