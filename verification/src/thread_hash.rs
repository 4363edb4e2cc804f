//! The per-thread probe that picks a cell of a striped counter.

use rand::Rng;
use vstd::prelude::*;

verus! {

/// A thread's current cell-selection hash.
///
/// Each participating thread owns exactly one probe and is the only one to
/// read or write it. A probe made by [`ThreadHash::new`] is never zero, and
/// rehashing keeps it so.
pub struct ThreadHash {
    pub value: isize,
}

/// One xorshift round on the machine word: left by 13, right by 17, left by 5.
pub open spec fn xorshift(word: usize) -> usize {
    let a = word ^ (word << 13);
    let b = a ^ (a >> 17);
    b ^ (b << 5)
}

/// The hash that follows `prev`: its bits pushed through [`xorshift`].
pub open spec fn rehashed(prev: isize) -> isize {
    xorshift(prev as usize) as isize
}

/// The hash a raw random draw seeds: the draw itself, with zero remapped to one.
pub open spec fn seeded_from(draw: isize) -> isize {
    if draw == 0 {
        1
    } else {
        draw
    }
}

/// The hash a thread holds after one update of a cell: rehashed when what it
/// saw just before the update differs from what the update itself saw, kept
/// otherwise.
pub open spec fn rebalanced(hash: isize, seen_before: isize, seen_at_update: isize) -> isize {
    if seen_before != seen_at_update {
        rehashed(hash)
    } else {
        hash
    }
}

/// Draws one uniformly random machine integer from `rand`'s thread-local
/// generator (`rand::thread_rng().gen::<isize>()`).
///
/// Nothing is claimed of the value: every `isize` may come back, zero too.
/// The generator seeds itself from the operating system on a thread's first
/// draw and gives up the thread if the system has no entropy to offer.
#[verifier::external_body]
fn random_draw() -> isize {
    rand::thread_rng().gen::<isize>()
}

impl ThreadHash {
    /// Whether the probe holds a usable, nonzero hash.
    pub open spec fn is_seeded(&self) -> bool {
        self.value != 0
    }

    /// A fresh probe, seeded from a random draw.
    pub fn new() -> (probe: ThreadHash)
        ensures
            probe.is_seeded(),
    {
        Self::seeded(random_draw())
    }

    /// The probe that the raw draw `draw` seeds.
    pub fn seeded(draw: isize) -> (probe: ThreadHash)
        ensures
            probe.value == seeded_from(draw),
            probe.is_seeded(),
    {
        ThreadHash { value: if draw == 0 { 1 } else { draw } }
    }

    /// The probe that follows one holding `prev`. No randomness is involved:
    /// the result is a function of `prev` alone.
    pub fn rehash(prev: isize) -> (probe: ThreadHash)
        ensures
            probe.value == rehashed(prev),
            prev != 0 ==> probe.is_seeded(),
    {
        let mut u: usize = prev as usize;
        u ^= u << 13;
        u ^= u >> 17;
        u ^= u << 5;
        proof {
            lemma_rehash_keeps_nonzero(prev);
        }
        ThreadHash { value: u as isize }
    }

    /// Settles the probe after one update of a cell, given the cell's value
    /// as loaded just before the update and as seen by the update itself. A
    /// mismatch means that another thread wrote in between: the probe then
    /// moves on, so that later writes are likely to land elsewhere.
    pub fn rebalance(&mut self, seen_before: isize, seen_at_update: isize)
        ensures
            final(self).value == rebalanced(old(self).value, seen_before, seen_at_update),
            old(self).is_seeded() ==> final(self).is_seeded(),
    {
        if seen_before != seen_at_update {
            *self = Self::rehash(self.value);
        }
    }
}

/// Rehashing maps zero to zero and nothing else: a nonzero hash stays nonzero.
pub proof fn lemma_rehash_keeps_nonzero(prev: isize)
    ensures
        rehashed(prev) == 0 <==> prev == 0,
{
    let w = prev as usize;
    assert(w == 0 <==> prev == 0) by (bit_vector)
        requires
            w == prev as usize,
    ;
    lemma_xorshift_keeps_nonzero(w);
    let x = xorshift(w);
    assert(x as isize == 0 <==> x == 0) by (bit_vector);
}

/// Each of the three xorshift steps is invertible, so only zero maps to zero.
pub proof fn lemma_xorshift_keeps_nonzero(word: usize)
    ensures
        xorshift(word) == 0 <==> word == 0,
{
    let a = word ^ (word << 13);
    let b = a ^ (a >> 17);
    let c = b ^ (b << 5);
    assert(a == 0 <==> word == 0) by (bit_vector)
        requires
            a == word ^ (word << 13),
    ;
    assert(b == 0 <==> a == 0) by (bit_vector)
        requires
            b == a ^ (a >> 17),
    ;
    assert(c == 0 <==> b == 0) by (bit_vector)
        requires
            c == b ^ (b << 5),
    ;
}

} // verus!
