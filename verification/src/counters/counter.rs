//! The operations that every shareable counter offers.

use vstd::prelude::*;

verus! {

/// A counter that many threads write and a few read, through a shared
/// reference and without a lock.
///
/// Every operation is total: none blocks, fails or allocates. A read sees
/// every write that the reading thread made before it; of the writes of
/// other threads it sees some prefix, so while writers are active the value
/// may be stale. Once all writers are done and joined, it is the wrapped sum
/// of everything written since the last `clear`.
pub trait Counter: Send + Sync {
    /// Resets the total towards zero.
    fn clear(&self);

    /// Subtracts `value` from the total, wrapping on overflow.
    fn dec(&self, value: isize);

    /// Adds `value` to the total, wrapping on overflow.
    fn inc(&self, value: isize);

    /// The total as the calling thread sees it.
    fn snapshot(&self) -> isize;
}

} // verus!
