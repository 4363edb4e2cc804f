//! Counters for instrumentation: a plain one, a single atomic cell, and a
//! striped array of padded atomic cells addressed by a per-thread probe.

pub mod counters;
pub mod model;
pub mod padded_atomic_long;
pub mod thread_hash;
pub mod wrapping;
