use concurrent_counters::thread_hash::ThreadHash;

#[test]
fn fresh_probe_is_never_zero() {
    for _ in 0..10000 {
        assert_ne!(ThreadHash::new().value, 0);
    }
}

#[test]
fn fresh_probes_differ() {
    let first = ThreadHash::new().value;
    let mut all_equal = true;
    for _ in 0..16 {
        if ThreadHash::new().value != first {
            all_equal = false;
        }
    }
    assert!(!all_equal);
}

#[test]
fn zero_draw_seeds_one() {
    assert_eq!(ThreadHash::seeded(0).value, 1);
}

#[test]
fn nonzero_draw_seeds_itself() {
    assert_eq!(ThreadHash::seeded(1).value, 1);
    assert_eq!(ThreadHash::seeded(-1).value, -1);
    assert_eq!(ThreadHash::seeded(42).value, 42);
    assert_eq!(ThreadHash::seeded(isize::MIN).value, isize::MIN);
    assert_eq!(ThreadHash::seeded(isize::MAX).value, isize::MAX);
}

#[test]
fn rehash_small_values() {
    assert_eq!(ThreadHash::rehash(1).value, 0x42021);
    assert_eq!(ThreadHash::rehash(2).value, 0x84042);
    assert_eq!(ThreadHash::rehash(42).value, 11355432);
    assert_eq!(ThreadHash::rehash(123456789).value, 32455710383945);
}

#[test]
fn rehash_of_zero_is_zero() {
    assert_eq!(ThreadHash::rehash(0).value, 0);
}

#[test]
fn rehash_is_the_three_xorshift_steps() {
    for prev in [1isize, -1, 42, 0x1234_5678, isize::MIN, isize::MAX, -987654321] {
        let mut nh = prev;
        nh ^= nh << 13;
        let mut u = nh as usize;
        u ^= u >> 17;
        let mut f = u as isize;
        f ^= f << 5;
        assert_eq!(ThreadHash::rehash(prev).value, f);
    }
}

#[test]
fn rehash_is_deterministic() {
    for prev in [1isize, -1, 42, isize::MIN, isize::MAX, 0x0bad_cafe] {
        assert_eq!(ThreadHash::rehash(prev).value, ThreadHash::rehash(prev).value);
    }
}

#[test]
fn rehash_keeps_nonzero() {
    let mut hash: isize = 1;
    for _ in 0..100000 {
        hash = ThreadHash::rehash(hash).value;
        assert_ne!(hash, 0);
    }
}

#[test]
fn rebalance_keeps_the_probe_without_contention() {
    let mut probe = ThreadHash { value: 99 };
    probe.rebalance(7, 7);
    assert_eq!(probe.value, 99);
    probe.rebalance(isize::MIN, isize::MIN);
    assert_eq!(probe.value, 99);
}

#[test]
fn rebalance_rehashes_on_contention() {
    let mut probe = ThreadHash { value: 1 };
    probe.rebalance(7, 8);
    assert_eq!(probe.value, 0x42021);
    let expected = ThreadHash::rehash(0x42021).value;
    probe.rebalance(0, -1);
    assert_eq!(probe.value, expected);
}
