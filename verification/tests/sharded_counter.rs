use concurrent_counters::counters::ShardedAtomicCounter;
use concurrent_counters::padded_atomic_long::PaddedAtomicLong;
use concurrent_counters::thread_hash::ThreadHash;

#[test]
fn sharded_counter_starts_at_zero() {
    let c = ShardedAtomicCounter::new(4);
    assert_eq!(c.snapshot(), 0);
}

#[test]
fn sharded_counter_add_then_dec() {
    let c = ShardedAtomicCounter::new(4);
    let mut probe = ThreadHash::new();
    c.add(&mut probe, 10);
    c.dec(&mut probe, 4);
    assert_eq!(c.snapshot(), 6);
}

#[test]
fn sharded_counter_sum_does_not_depend_on_the_cell() {
    for first in [1isize, 2, 3, 7, 15, 16, -1, isize::MIN, isize::MAX] {
        for second in [1isize, 5, 12, -3] {
            let c = ShardedAtomicCounter::new(4);
            let mut a = ThreadHash { value: first };
            let mut b = ThreadHash { value: second };
            c.add(&mut a, 10);
            c.dec(&mut b, 4);
            assert_eq!(c.snapshot(), 6);
        }
    }
}

#[test]
fn sharded_counter_running_sum() {
    let c = ShardedAtomicCounter::new(2);
    let mut probes = [
        ThreadHash { value: 0 },
        ThreadHash { value: 1 },
        ThreadHash { value: 2 },
        ThreadHash { value: 3 },
        ThreadHash { value: -7 },
    ];
    let deltas: [isize; 8] = [5, -3, 10, 0, -40, 7, 1, 1];
    let mut sum: isize = 0;
    for (i, d) in deltas.iter().enumerate() {
        let probe = &mut probes[i % 5];
        if *d >= 0 {
            c.inc(probe, *d);
        } else {
            c.sub(probe, -*d);
        }
        sum += *d;
        assert_eq!(c.snapshot(), sum);
    }
    assert_eq!(c.snapshot(), -19);
}

#[test]
fn sharded_counter_clear_then_snapshot() {
    let c = ShardedAtomicCounter::new(3);
    for hash in 0..8 {
        let mut probe = ThreadHash { value: hash };
        c.add(&mut probe, 100 + hash);
    }
    assert_eq!(c.snapshot(), 828);
    c.clear();
    assert_eq!(c.snapshot(), 0);
    let mut probe = ThreadHash { value: 5 };
    c.inc(&mut probe, 9);
    assert_eq!(c.snapshot(), 9);
}

#[test]
fn sharded_counter_total_wraps() {
    let c = ShardedAtomicCounter::new(1);
    let mut even = ThreadHash { value: 2 };
    let mut odd = ThreadHash { value: 3 };
    c.add(&mut even, isize::MAX);
    c.add(&mut odd, 1);
    assert_eq!(c.snapshot(), isize::MIN);
    c.add(&mut even, 1);
    assert_eq!(c.snapshot(), isize::MIN + 1);
}

#[test]
fn sharded_counter_dec_most_negative() {
    let c = ShardedAtomicCounter::new(2);
    let mut probe = ThreadHash { value: 1 };
    c.dec(&mut probe, isize::MIN);
    assert_eq!(c.snapshot(), isize::MIN);
    let mut other = ThreadHash { value: 2 };
    c.sub(&mut other, isize::MIN);
    assert_eq!(c.snapshot(), 0);
}

#[test]
fn uncontended_write_keeps_the_probe() {
    let c = ShardedAtomicCounter::new(4);
    let mut probe = ThreadHash { value: 12345 };
    for _ in 0..100 {
        c.add(&mut probe, 1);
        assert_eq!(probe.value, 12345);
    }
    c.sub(&mut probe, 1);
    assert_eq!(probe.value, 12345);
    assert_eq!(c.snapshot(), 99);
}

#[test]
fn index_masks_the_low_bits() {
    assert_eq!(ShardedAtomicCounter::index(4, 0), 0);
    assert_eq!(ShardedAtomicCounter::index(4, 15), 15);
    assert_eq!(ShardedAtomicCounter::index(4, 16), 0);
    assert_eq!(ShardedAtomicCounter::index(4, 0x1234), 4);
    assert_eq!(ShardedAtomicCounter::index(4, -1), 15);
    assert_eq!(ShardedAtomicCounter::index(4, -16), 0);
    assert_eq!(ShardedAtomicCounter::index(4, -17), 15);
    assert_eq!(ShardedAtomicCounter::index(4, isize::MIN), 0);
    assert_eq!(ShardedAtomicCounter::index(4, isize::MAX), 15);
    assert_eq!(ShardedAtomicCounter::index(1, 3), 1);
    assert_eq!(ShardedAtomicCounter::index(1, -2), 0);
    assert_eq!(ShardedAtomicCounter::index(0, 12345), 0);
    assert_eq!(ShardedAtomicCounter::index(10, 1025), 1);
    assert_eq!(ShardedAtomicCounter::index(10, -1), 1023);
}

#[test]
fn index_is_the_euclidean_remainder() {
    for log_size in 0..12usize {
        for hash in [-100000isize, -4097, -1, 0, 1, 31, 32, 4095, 4096, 99999] {
            let expected = hash.rem_euclid(1isize << log_size) as usize;
            assert_eq!(ShardedAtomicCounter::index(log_size, hash), expected);
        }
    }
}

#[test]
fn calc_mem_size_is_cells_times_cell_size() {
    let cell = std::mem::size_of::<PaddedAtomicLong>();
    assert_eq!(ShardedAtomicCounter::calc_mem_size(0), cell);
    assert_eq!(ShardedAtomicCounter::calc_mem_size(1), 2 * cell);
    assert_eq!(ShardedAtomicCounter::calc_mem_size(4), 16 * cell);
    assert_eq!(ShardedAtomicCounter::calc_mem_size(10), 1024 * cell);
}

#[test]
fn cell_spans_more_than_a_cache_line() {
    assert!(std::mem::size_of::<PaddedAtomicLong>() > 64);
    assert_eq!(
        std::mem::size_of::<PaddedAtomicLong>(),
        9 * std::mem::size_of::<usize>()
    );
}

#[test]
fn try_new_refuses_zero() {
    assert!(ShardedAtomicCounter::try_new(0).is_none());
}

#[test]
fn try_new_refuses_sizes_that_cannot_be_allocated() {
    assert!(ShardedAtomicCounter::try_new(usize::BITS as usize).is_none());
    assert!(ShardedAtomicCounter::try_new(usize::BITS as usize - 1).is_none());
    assert!(ShardedAtomicCounter::try_new(usize::BITS as usize - 7).is_none());
    assert!(ShardedAtomicCounter::try_new(usize::MAX).is_none());
}

#[test]
fn try_new_makes_a_working_counter() {
    for log_size in 1..8usize {
        let made = ShardedAtomicCounter::try_new(log_size);
        assert!(made.is_some());
        let c = made.unwrap();
        assert_eq!(c.snapshot(), 0);
        let mut probe = ThreadHash { value: 77 };
        c.add(&mut probe, 3);
        assert_eq!(c.snapshot(), 3);
    }
}

#[test]
fn add_op_and_sub_op_return_the_previous_value() {
    let cell = PaddedAtomicLong::new();
    assert_eq!(ShardedAtomicCounter::add_op(&cell, 5), 0);
    assert_eq!(ShardedAtomicCounter::add_op(&cell, 2), 5);
    assert_eq!(ShardedAtomicCounter::sub_op(&cell, 10), 7);
    assert_eq!(cell.load(), -3);
}

#[test]
fn padded_cell_operations() {
    let cell = PaddedAtomicLong::new();
    assert_eq!(cell.load(), 0);
    assert_eq!(cell.fetch_add(9), 0);
    assert_eq!(cell.fetch_sub(4), 9);
    assert_eq!(cell.load(), 5);
    cell.reset();
    assert_eq!(cell.load(), 0);
    assert_eq!(cell.fetch_add(isize::MAX), 0);
    assert_eq!(cell.fetch_add(1), isize::MAX);
    assert_eq!(cell.load(), isize::MIN);
}
