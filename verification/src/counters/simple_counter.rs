//! A counter in one plain integer.

use crate::model::Update;
use crate::wrapping::lemma_wrapping_is_wrapped;
use vstd::prelude::*;

verus! {

/// A plain integer, written directly: for one thread only.
#[derive(Copy, Clone, Debug)]
pub struct SimpleCounter {
    pub value: isize,
}

impl SimpleCounter {
    /// A counter at zero.
    pub fn new() -> (counter: SimpleCounter)
        ensures
            counter.value == 0,
    {
        SimpleCounter { value: 0 }
    }

    /// Resets the total to zero.
    pub fn clear(&mut self)
        ensures
            final(self).value == 0,
    {
        self.value = 0;
    }

    /// Subtracts `value` from the total, wrapping on overflow.
    pub fn dec(&mut self, value: isize)
        ensures
            final(self).value == Update::Dec(value).apply(old(self).value),
    {
        proof {
            lemma_wrapping_is_wrapped(self.value, value);
        }
        self.value = self.value.wrapping_sub(value);
    }

    /// Adds `value` to the total, wrapping on overflow.
    pub fn inc(&mut self, value: isize)
        ensures
            final(self).value == Update::Inc(value).apply(old(self).value),
    {
        proof {
            lemma_wrapping_is_wrapped(self.value, value);
        }
        self.value = self.value.wrapping_add(value);
    }

    /// The total.
    pub fn snapshot(&self) -> (total: isize)
        ensures
            total == self.value,
    {
        self.value
    }
}

} // verus!
