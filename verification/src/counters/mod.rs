//! The counter capability and its three variants.

pub use self::atomic_counter::AtomicCounter;
pub use self::counter::Counter;
pub use self::sharded_atomic_counter::ShardedAtomicCounter;
pub use self::simple_counter::SimpleCounter;

pub mod atomic_counter;
pub mod counter;
pub mod sharded_atomic_counter;
pub mod simple_counter;
