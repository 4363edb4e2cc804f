//! What a counter is, as mathematics: updates that add or subtract, a
//! single integer that takes them, and an array of cells that shares them
//! out.
//!
//! The plain counter is stated against these definitions operation by
//! operation. The atomic counters apply the same updates to the same cells,
//! each in one atomic step; what a thread then reads depends on the other
//! threads, so their operations say which atomic operations their results
//! came from, and a read says that it is the [`total`] of one load per
//! cell. The lemmas here say what the cells add up to after any sequence
//! of such steps, in whatever order the threads took them.

use crate::wrapping::{
    lemma_word_modulus_is_pow2, lemma_word_of_signed, lemma_wrapped_absorbs,
    lemma_wrapped_in_range, lemma_wrapped_near_range, lemma_wrapping_is_wrapped, wrapped,
};
use vstd::wrapping::isize_specs::wrapping_add;
use vstd::arithmetic::div_mod::{lemma_mod_bound, lemma_mod_multiples_vanish};
use vstd::arithmetic::power2::{lemma_pow2_adds, lemma_pow2_pos, pow2};
use vstd::bits::{
    lemma_usize_low_bits_mask_is_mod, lemma_usize_pow2_no_overflow, low_bits_mask,
};
use vstd::prelude::*;

verus! {

/// One write to a counter.
pub enum Update {
    /// `inc(amount)`
    Inc(isize),
    /// `dec(amount)`
    Dec(isize),
}

impl Update {
    /// The exact signed amount that the update contributes.
    pub open spec fn delta(self) -> int {
        match self {
            Update::Inc(amount) => amount as int,
            Update::Dec(amount) => -(amount as int),
        }
    }

    /// The value that a counter or a cell holds after the update, having
    /// held `value` before: the exact result, wrapped.
    pub open spec fn apply(self, value: isize) -> isize {
        wrapped(value + self.delta())
    }
}

/// The exact sum of the signed amounts of `updates`.
pub open spec fn running_sum(updates: Seq<Update>) -> int
    decreases updates.len(),
{
    if updates.len() == 0 {
        0
    } else {
        running_sum(updates.drop_last()) + updates.last().delta()
    }
}

/// The value that a single integer holds after `updates`, applied in order
/// to `value`.
pub open spec fn apply_all(value: isize, updates: Seq<Update>) -> isize
    decreases updates.len(),
{
    if updates.len() == 0 {
        value
    } else {
        updates.last().apply(apply_all(value, updates.drop_last()))
    }
}

/// How many cells a striped counter of the given size parameter has.
pub open spec fn shard_count(log_size: usize) -> nat {
    pow2(log_size as nat)
}

/// The cell that a thread holding `hash` writes to: the hash reduced modulo
/// the number of cells, which for a power of two is its low bits.
pub open spec fn cell_index(log_size: usize, hash: isize) -> int {
    hash as int % shard_count(log_size) as int
}

/// The exact sum of what the cells hold.
pub open spec fn sum(cells: Seq<isize>) -> int
    decreases cells.len(),
{
    if cells.len() == 0 {
        0
    } else {
        sum(cells.drop_last()) + cells.last()
    }
}

/// What a reader that adds up the cells one by one, wrapping, arrives at.
pub open spec fn total(cells: Seq<isize>) -> isize {
    wrapped(sum(cells))
}

/// An array of `count` cells, all zero: a fresh counter, or a cleared one.
pub open spec fn zeroed(count: nat) -> Seq<isize> {
    Seq::new(count, |i: int| 0isize)
}

/// One write to a striped counter: the hash that the writing thread held,
/// and the update it made.
pub struct CellWrite {
    pub hash: isize,
    pub update: Update,
}

/// The cells after one write, which lands on the cell that the hash picks.
pub open spec fn write_cell(cells: Seq<isize>, log_size: usize, write: CellWrite) -> Seq<isize> {
    let index = cell_index(log_size, write.hash);
    cells.update(index, write.update.apply(cells[index]))
}

/// The cells after `writes`, applied in order.
pub open spec fn write_all(cells: Seq<isize>, log_size: usize, writes: Seq<CellWrite>) -> Seq<
    isize,
>
    decreases writes.len(),
{
    if writes.len() == 0 {
        cells
    } else {
        write_cell(write_all(cells, log_size, writes.drop_last()), log_size, writes.last())
    }
}

/// The updates of `writes`, without the hashes.
pub open spec fn updates_of(writes: Seq<CellWrite>) -> Seq<Update> {
    Seq::new(writes.len(), |i: int| writes[i].update)
}

/// Any run of updates leaves the starting value plus their exact sum,
/// wrapped.
pub proof fn lemma_apply_all_is_running_sum(value: isize, updates: Seq<Update>)
    ensures
        apply_all(value, updates) == wrapped(value + running_sum(updates)),
    decreases updates.len(),
{
    if updates.len() == 0 {
        lemma_wrapped_in_range(value as int);
    } else {
        let before = updates.drop_last();
        lemma_apply_all_is_running_sum(value, before);
        lemma_wrapped_absorbs(value + running_sum(before), updates.last().delta());
    }
}

/// From zero, a run of updates whose exact sum fits in a machine integer
/// leaves exactly that sum.
pub proof fn lemma_exact_running_sum(updates: Seq<Update>)
    requires
        isize::MIN <= running_sum(updates) <= isize::MAX,
    ensures
        apply_all(0, updates) == running_sum(updates),
{
    lemma_apply_all_is_running_sum(0, updates);
    lemma_wrapped_in_range(running_sum(updates));
}

/// Decrementing by an amount is incrementing by its wrapped negation, for
/// every amount. The most negative integer has no negation and is its own
/// wrapped one: decrementing by it and incrementing by it are the same.
pub proof fn lemma_dec_is_inc_of_negation(value: isize, amount: isize)
    ensures
        Update::Dec(amount).apply(value) == Update::Inc(wrapped(-amount)).apply(value),
        amount != isize::MIN ==> wrapped(-amount) == -amount,
        amount == isize::MIN ==> wrapped(-amount) == isize::MIN,
{
    lemma_wrapped_absorbs(-amount, -value);
    assert(wrapped(-amount) - (-value) == value + wrapped(-amount));
    assert(-amount - (-value) == value - amount);
    lemma_wrapped_near_range(-amount);
}

/// A run of increments by one adds up to their number.
pub proof fn lemma_unit_increments(updates: Seq<Update>)
    requires
        forall|i: int| 0 <= i < updates.len() ==> updates[i] == Update::Inc(1),
    ensures
        running_sum(updates) == updates.len(),
    decreases updates.len(),
{
    if updates.len() > 0 {
        lemma_unit_increments(updates.drop_last());
    }
}

/// Every hash picks a cell of the array.
pub proof fn lemma_cell_index_in_range(log_size: usize, hash: isize)
    ensures
        0 <= cell_index(log_size, hash) < shard_count(log_size),
{
    lemma_pow2_pos(log_size as nat);
    lemma_mod_bound(hash as int, shard_count(log_size) as int);
}

/// Masking the bits of a hash with `2^log_size - 1` reduces the hash
/// modulo `2^log_size`, negative hashes too.
pub proof fn lemma_mask_is_cell_index(log_size: usize, hash: isize, mask: usize)
    requires
        log_size < usize::BITS,
        mask == shard_count(log_size) - 1,
    ensures
        (hash as usize) & mask == cell_index(log_size, hash),
{
    let bits = log_size as nat;
    let count = pow2(bits) as int;
    let word = hash as usize;
    lemma_usize_pow2_no_overflow(bits);
    lemma_usize_low_bits_mask_is_mod(word, bits);
    assert(low_bits_mask(bits) as usize == mask);
    assert(word & mask == word as int % count);
    lemma_word_of_signed(hash);
    if hash < 0 {
        // a whole word is a whole number of arrays
        let rest = (usize::BITS - log_size) as nat;
        lemma_word_modulus_is_pow2();
        lemma_pow2_adds(bits, rest);
        lemma_mod_multiples_vanish(pow2(rest) as int, hash as int, count);
    }
}

/// Adding one more value to a wrapped total, wrapping, gives the total
/// with that value appended; the total of nothing is zero.
pub proof fn lemma_total_push(seen: Seq<isize>, next: isize)
    ensures
        total(Seq::<isize>::empty()) == 0,
        total(seen.push(next)) == wrapping_add(total(seen), next),
{
    lemma_wrapped_in_range(0);
    assert(seen.push(next).drop_last() =~= seen);
    lemma_wrapping_is_wrapped(total(seen), next);
    lemma_wrapped_absorbs(sum(seen), next as int);
}

/// Replacing one cell moves the exact sum by the difference.
pub proof fn lemma_sum_update(cells: Seq<isize>, index: int, value: isize)
    requires
        0 <= index < cells.len(),
    ensures
        sum(cells.update(index, value)) == sum(cells) - cells[index] + value,
    decreases cells.len(),
{
    let after = cells.update(index, value);
    if index == cells.len() - 1 {
        assert(after.drop_last() =~= cells.drop_last());
    } else {
        assert(after.drop_last() =~= cells.drop_last().update(index, value));
        lemma_sum_update(cells.drop_last(), index, value);
    }
}

/// An array of zeros adds up to zero: a reader that follows a reset, with
/// no write in between, arrives at zero.
pub proof fn lemma_zeroed_total(count: nat)
    ensures
        sum(zeroed(count)) == 0,
        total(zeroed(count)) == 0,
    decreases count,
{
    if count > 0 {
        assert(zeroed(count).drop_last() =~= zeroed((count - 1) as nat));
        lemma_zeroed_total((count - 1) as nat);
    }
    lemma_wrapped_in_range(0);
}

/// One write changes the total as the same update changes a single
/// integer, whichever cell takes it.
pub proof fn lemma_write_cell_total(cells: Seq<isize>, log_size: usize, write: CellWrite)
    requires
        cells.len() == shard_count(log_size),
    ensures
        write_cell(cells, log_size, write).len() == cells.len(),
        total(write_cell(cells, log_size, write)) == write.update.apply(total(cells)),
{
    let index = cell_index(log_size, write.hash);
    let held = cells[index];
    let delta = write.update.delta();
    lemma_cell_index_in_range(log_size, write.hash);
    lemma_sum_update(cells, index, write.update.apply(held));
    // sum - held + wrapped(held + delta) wraps to the same as sum + delta
    lemma_wrapped_absorbs(held + delta, sum(cells) - held);
    assert(wrapped(held + delta) + (sum(cells) - held) == sum(cells) - held + wrapped(
        held + delta,
    ));
    assert(held + delta + (sum(cells) - held) == sum(cells) + delta);
    lemma_wrapped_absorbs(sum(cells), delta);
}

/// Any run of writes leaves a total equal to what the same updates leave
/// on a single integer: striping never changes the sum, whatever the
/// hashes were.
pub proof fn lemma_write_all_total(cells: Seq<isize>, log_size: usize, writes: Seq<CellWrite>)
    requires
        cells.len() == shard_count(log_size),
    ensures
        write_all(cells, log_size, writes).len() == cells.len(),
        total(write_all(cells, log_size, writes)) == apply_all(total(cells), updates_of(writes)),
    decreases writes.len(),
{
    if writes.len() > 0 {
        let before = writes.drop_last();
        lemma_write_all_total(cells, log_size, before);
        lemma_write_cell_total(write_all(cells, log_size, before), log_size, writes.last());
        assert(updates_of(writes).drop_last() =~= updates_of(before));
    }
}

/// On a fresh striped counter, any run of writes leaves the exact sum of
/// the signed amounts, wrapped; and that sum itself where it fits in a
/// machine integer.
pub proof fn lemma_striped_running_sum(log_size: usize, writes: Seq<CellWrite>)
    ensures
        total(write_all(zeroed(shard_count(log_size)), log_size, writes)) == wrapped(
            running_sum(updates_of(writes)),
        ),
        isize::MIN <= running_sum(updates_of(writes)) <= isize::MAX ==> total(
            write_all(zeroed(shard_count(log_size)), log_size, writes),
        ) == running_sum(updates_of(writes)),
{
    let fresh = zeroed(shard_count(log_size));
    lemma_zeroed_total(shard_count(log_size));
    lemma_write_all_total(fresh, log_size, writes);
    lemma_apply_all_is_running_sum(0, updates_of(writes));
    if isize::MIN <= running_sum(updates_of(writes)) <= isize::MAX {
        lemma_wrapped_in_range(running_sum(updates_of(writes)));
    }
}

/// However the increments by one of `threads` writers, `each` apiece, are
/// interleaved and whichever cells they land on, a fresh striped counter
/// ends at their number, wrapped.
pub proof fn lemma_interleaved_unit_increments(
    log_size: usize,
    writes: Seq<CellWrite>,
    threads: nat,
    each: nat,
)
    requires
        writes.len() == threads * each,
        forall|i: int| 0 <= i < writes.len() ==> writes[i].update == Update::Inc(1),
    ensures
        total(write_all(zeroed(shard_count(log_size)), log_size, writes)) == wrapped(
            (threads * each) as int,
        ),
        threads * each <= isize::MAX ==> total(
            write_all(zeroed(shard_count(log_size)), log_size, writes),
        ) == threads * each,
{
    lemma_unit_increments(updates_of(writes));
    lemma_striped_running_sum(log_size, writes);
}

} // verus!
