//! A counter striped over an array of padded atomic cells.

use crate::model::{
    cell_index, lemma_cell_index_in_range, lemma_mask_is_cell_index, lemma_total_push,
    shard_count, total,
};
use crate::padded_atomic_long::PaddedAtomicLong;
use crate::thread_hash::{rebalanced, rehashed, ThreadHash};
use vstd::bits::{lemma_usize_pow2_no_overflow, lemma_usize_shl_is_mul};
use vstd::prelude::*;

verus! {

/// A power-of-two array of padded atomic cells. Each writer adds to the
/// cell that its own probe picks, and moves its probe on when it finds
/// another writer on the same cell; a reader adds up all cells.
///
/// The counter owns its cells and no thread state: every write names the
/// probe of the thread that makes it.
pub struct ShardedAtomicCounter {
    log_size: usize,
    cells: Vec<PaddedAtomicLong>,
}

/// The bytes that the cells of a counter of the given size parameter take.
pub open spec fn mem_size(log_size: usize) -> nat {
    shard_count(log_size) * vstd::layout::size_of::<PaddedAtomicLong>()
}

/// The size parameters that a counter can be made with: positive, and small
/// enough for the cells to fit in one allocation.
pub open spec fn valid_log_size(log_size: usize) -> bool {
    &&& 0 < log_size < usize::BITS
    &&& mem_size(log_size) <= isize::MAX
}

/// No counter can be made with a size parameter of zero.
pub proof fn lemma_zero_is_no_valid_size()
    ensures
        !valid_log_size(0),
{
}

/// The hash that a writer goes on with after a write made with `hash`:
/// the same one, or the next if it met another writer.
pub open spec fn kept_or_rehashed(hash: isize, next: isize) -> bool {
    next == hash || next == rehashed(hash)
}

impl ShardedAtomicCounter {
    /// The array has exactly `2^log_size` cells, which is what makes
    /// masking a hash the same as picking a cell.
    #[verifier::type_invariant]
    spec fn well_formed(&self) -> bool {
        &&& 0 < self.log_size < usize::BITS
        &&& self.cells@.len() == shard_count(self.log_size)
    }

    /// The size parameter the counter was made with.
    pub closed spec fn log_size(&self) -> usize {
        self.log_size
    }

    /// How many cells the counter owns.
    pub closed spec fn cell_count(&self) -> nat {
        self.cells@.len()
    }

    /// The cell at `index`.
    pub closed spec fn cell(&self, index: int) -> PaddedAtomicLong {
        self.cells@[index]
    }

    /// The cell that a writer holding `hash` writes to.
    pub open spec fn picked(&self, hash: isize) -> PaddedAtomicLong {
        self.cell(cell_index(self.log_size(), hash))
    }

    /// A writer holding `hash` loaded the cell that the hash picks, added
    /// `val` to that same cell, and goes on with `next`: its hash settled
    /// by the two values seen.
    pub open spec fn wrote_add(&self, hash: isize, val: isize, next: isize) -> bool {
        exists|before: isize, at: isize|
            #![trigger self.picked(hash).loaded(before), self.picked(hash).fetched_add(val, at)]
            self.picked(hash).loaded(before) && self.picked(hash).fetched_add(val, at) && next
                == rebalanced(hash, before, at)
    }

    /// A writer holding `hash` loaded the cell that the hash picks,
    /// subtracted `val` from that same cell, and goes on with `next`: its
    /// hash settled by the two values seen.
    pub open spec fn wrote_sub(&self, hash: isize, val: isize, next: isize) -> bool {
        exists|before: isize, at: isize|
            #![trigger self.picked(hash).loaded(before), self.picked(hash).fetched_sub(val, at)]
            self.picked(hash).loaded(before) && self.picked(hash).fetched_sub(val, at) && next
                == rebalanced(hash, before, at)
    }

    /// Every cell was made holding zero.
    pub open spec fn made_zeroed(&self) -> bool {
        forall|k: int| 0 <= k < self.cell_count() ==> #[trigger] self.cell(k).made_with(0)
    }

    /// A release store of zero was made on every cell.
    pub open spec fn all_reset(&self) -> bool {
        forall|k: int| 0 <= k < self.cell_count() ==> #[trigger] self.cell(k).was_reset()
    }

    /// `seen` holds what one load of each cell returned, in the order of
    /// the cells.
    pub open spec fn read_all(&self, seen: Seq<isize>) -> bool {
        &&& seen.len() == self.cell_count()
        &&& forall|i: int| 0 <= i < seen.len() ==> #[trigger] self.cell(i).loaded(seen[i])
    }

    /// The bytes that `2^log_size` cells take.
    pub fn calc_mem_size(log_size: usize) -> (bytes: usize)
        requires
            log_size < usize::BITS,
            mem_size(log_size) <= usize::MAX,
        ensures
            bytes == mem_size(log_size),
    {
        proof {
            lemma_usize_pow2_no_overflow(log_size as nat);
            lemma_usize_shl_is_mul(1, log_size);
        }
        (1usize << log_size) * core::mem::size_of::<PaddedAtomicLong>()
    }

    /// Allocates the `2^log_size` cells, each at zero.
    fn alloc_underlying(log_size: usize) -> (cells: Vec<PaddedAtomicLong>)
        requires
            log_size < usize::BITS,
            mem_size(log_size) <= isize::MAX,
        ensures
            cells@.len() == shard_count(log_size),
            forall|k: int| 0 <= k < cells@.len() ==> #[trigger] cells@[k].made_with(0),
    {
        proof {
            lemma_usize_pow2_no_overflow(log_size as nat);
            lemma_usize_shl_is_mul(1, log_size);
        }
        let count: usize = 1usize << log_size;
        let mut cells: Vec<PaddedAtomicLong> = Vec::with_capacity(count);
        let mut made: usize = 0;
        while made < count
            invariant
                made <= count,
                cells@.len() == made,
                forall|k: int| 0 <= k < made ==> #[trigger] cells@[k].made_with(0),
            decreases count - made,
        {
            cells.push(PaddedAtomicLong::new());
            made += 1;
        }
        cells
    }

    /// The cell of a `2^log_size`-cell array that the hash `n` picks.
    pub fn index(log_size: usize, n: isize) -> (index: usize)
        requires
            log_size < usize::BITS,
        ensures
            index == cell_index(log_size, n),
            index < shard_count(log_size),
    {
        proof {
            lemma_usize_pow2_no_overflow(log_size as nat);
            lemma_usize_shl_is_mul(1, log_size);
        }
        let mask: usize = (1usize << log_size) - 1;
        proof {
            lemma_mask_is_cell_index(log_size, n, mask);
            lemma_cell_index_in_range(log_size, n);
        }
        (n as usize) & mask
    }

    /// Subtracts `val` from the cell and returns what the cell held just
    /// before.
    pub fn sub_op(cell: &PaddedAtomicLong, val: isize) -> (seen: isize)
        ensures
            cell.fetched_sub(val, seen),
    {
        cell.fetch_sub(val)
    }

    /// Adds `val` to the cell and returns what the cell held just before.
    pub fn add_op(cell: &PaddedAtomicLong, val: isize) -> (seen: isize)
        ensures
            cell.fetched_add(val, seen),
    {
        cell.fetch_add(val)
    }

    /// One write: picks the cell by the probe, loads it, applies `op` to
    /// it, and moves the probe on if the two values seen differ. The write
    /// is never retried or undone.
    fn op_and_balance<F: Fn(&PaddedAtomicLong, isize) -> isize>(
        &self,
        probe: &mut ThreadHash,
        val: isize,
        op: F,
    )
        requires
            forall|cell: &PaddedAtomicLong, delta: isize| call_requires(op, (cell, delta)),
        ensures
            exists|before: isize, at: isize|
                #![trigger self.picked(old(probe).value).loaded(before), call_ensures(op, (&self.picked(old(probe).value), val), at)]
                self.picked(old(probe).value).loaded(before) && call_ensures(
                    op,
                    (&self.picked(old(probe).value), val),
                    at,
                ) && final(probe).value == rebalanced(old(probe).value, before, at),
            kept_or_rehashed(old(probe).value, final(probe).value),
            old(probe).is_seeded() ==> final(probe).is_seeded(),
    {
        proof {
            use_type_invariant(self);
        }
        let ghost hash = probe.value;
        let cell = &self.cells[Self::index(self.log_size, probe.value)];
        let seen_before = cell.load();
        let seen_at_xchg = op(cell, val);
        probe.rebalance(seen_before, seen_at_xchg);
        assert(self.picked(hash).loaded(seen_before) && call_ensures(
            op,
            (&self.picked(hash), val),
            seen_at_xchg,
        ));
    }

    /// A counter of `2^log_size` cells, all at zero.
    pub fn new(log_size: usize) -> (counter: ShardedAtomicCounter)
        requires
            valid_log_size(log_size),
        ensures
            counter.log_size() == log_size,
            counter.cell_count() == shard_count(log_size),
            counter.made_zeroed(),
    {
        ShardedAtomicCounter { log_size, cells: Self::alloc_underlying(log_size) }
    }

    /// A counter of `2^log_size` cells where that is a valid size, and
    /// nothing where it is not: zero is refused.
    pub fn try_new(log_size: usize) -> (made: Option<ShardedAtomicCounter>)
        ensures
            made is Some <==> valid_log_size(log_size),
            made matches Some(counter) ==> counter.log_size() == log_size && counter.cell_count()
                == shard_count(log_size) && counter.made_zeroed(),
            log_size == 0 ==> made is None,
    {
        if log_size == 0 || log_size >= usize::BITS as usize {
            return None;
        }
        proof {
            lemma_usize_pow2_no_overflow(log_size as nat);
            lemma_usize_shl_is_mul(1, log_size);
        }
        let count: usize = 1usize << log_size;
        match count.checked_mul(core::mem::size_of::<PaddedAtomicLong>()) {
            Some(bytes) => {
                if bytes <= isize::MAX as usize {
                    Some(Self::new(log_size))
                } else {
                    None
                }
            },
            None => None,
        }
    }

    /// Adds `val` to the cell that `probe` picks.
    pub fn add(&self, probe: &mut ThreadHash, val: isize)
        ensures
            self.wrote_add(old(probe).value, val, final(probe).value),
            kept_or_rehashed(old(probe).value, final(probe).value),
            old(probe).is_seeded() ==> final(probe).is_seeded(),
    {
        self.op_and_balance(probe, val, Self::add_op);
    }

    /// Subtracts `val` from the cell that `probe` picks.
    pub fn sub(&self, probe: &mut ThreadHash, val: isize)
        ensures
            self.wrote_sub(old(probe).value, val, final(probe).value),
            kept_or_rehashed(old(probe).value, final(probe).value),
            old(probe).is_seeded() ==> final(probe).is_seeded(),
    {
        self.op_and_balance(probe, val, Self::sub_op);
    }

    /// The wrapped sum of the cells, each loaded once and in order. The
    /// loads are not one atomic step: a write that lands while they run may
    /// or may not be counted. With no writer active the sum is exact.
    pub fn snapshot(&self) -> (sum: isize)
        ensures
            exists|seen: Seq<isize>| #[trigger] self.read_all(seen) && sum == total(seen),
    {
        proof {
            use_type_invariant(self);
            lemma_usize_pow2_no_overflow(self.log_size as nat);
            lemma_usize_shl_is_mul(1, self.log_size);
            lemma_total_push(Seq::empty(), 0);
        }
        let count: usize = 1usize << self.log_size;
        let mut acc: isize = 0;
        let mut i: usize = 0;
        let ghost mut seen: Seq<isize> = Seq::empty();
        while i < count
            invariant
                i <= count,
                count == self.cells@.len(),
                seen.len() == i,
                forall|k: int| 0 <= k < i ==> #[trigger] self.cell(k).loaded(seen[k]),
                acc == total(seen),
            decreases count - i,
        {
            let loaded = self.cells[i].load();
            proof {
                lemma_total_push(seen, loaded);
                seen = seen.push(loaded);
            }
            acc = acc.wrapping_add(loaded);
            i += 1;
        }
        assert(self.read_all(seen));
        acc
    }

    /// Stores zero into each cell in order. The stores are not one atomic
    /// step: a write that lands while they run may survive or be lost.
    pub fn clear(&self)
        ensures
            self.all_reset(),
    {
        proof {
            use_type_invariant(self);
            lemma_usize_pow2_no_overflow(self.log_size as nat);
            lemma_usize_shl_is_mul(1, self.log_size);
        }
        let count: usize = 1usize << self.log_size;
        let mut i: usize = 0;
        while i < count
            invariant
                i <= count,
                count == self.cells@.len(),
                forall|k: int| 0 <= k < i ==> #[trigger] self.cell(k).was_reset(),
            decreases count - i,
        {
            self.cells[i].reset();
            i += 1;
        }
    }

    /// Subtracts `value`: the same as [`ShardedAtomicCounter::sub`].
    pub fn dec(&self, probe: &mut ThreadHash, value: isize)
        ensures
            self.wrote_sub(old(probe).value, value, final(probe).value),
            kept_or_rehashed(old(probe).value, final(probe).value),
            old(probe).is_seeded() ==> final(probe).is_seeded(),
    {
        self.sub(probe, value)
    }

    /// Adds `value`: the same as [`ShardedAtomicCounter::add`].
    pub fn inc(&self, probe: &mut ThreadHash, value: isize)
        ensures
            self.wrote_add(old(probe).value, value, final(probe).value),
            kept_or_rehashed(old(probe).value, final(probe).value),
            old(probe).is_seeded() ==> final(probe).is_seeded(),
    {
        self.add(probe, value)
    }
}

} // verus!
