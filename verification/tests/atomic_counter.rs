use concurrent_counters::counters::{AtomicCounter, Counter};

#[test]
fn atomic_counter_starts_at_zero() {
    let c = AtomicCounter::new();
    assert_eq!(c.snapshot(), 0);
}

#[test]
fn atomic_counter_inc_then_dec() {
    let c = AtomicCounter::new();
    c.inc(5);
    c.dec(3);
    assert_eq!(c.snapshot(), 2);
}

#[test]
fn atomic_counter_running_sum() {
    let c = AtomicCounter::new();
    let deltas: [isize; 6] = [5, -3, 10, 0, -40, 7];
    let mut sum: isize = 0;
    for d in deltas {
        if d >= 0 {
            c.inc(d);
        } else {
            c.dec(-d);
        }
        sum += d;
        assert_eq!(c.snapshot(), sum);
    }
    assert_eq!(c.snapshot(), -21);
}

#[test]
fn atomic_counter_clear_then_snapshot() {
    let c = AtomicCounter::new();
    c.inc(77);
    c.clear();
    assert_eq!(c.snapshot(), 0);
    c.dec(1);
    assert_eq!(c.snapshot(), -1);
}

#[test]
fn atomic_counter_wraps() {
    let c = AtomicCounter::new();
    c.inc(isize::MAX);
    c.inc(1);
    assert_eq!(c.snapshot(), isize::MIN);
    c.dec(1);
    assert_eq!(c.snapshot(), isize::MAX);
}

#[test]
fn atomic_counter_dec_most_negative() {
    let c = AtomicCounter::new();
    c.dec(isize::MIN);
    assert_eq!(c.snapshot(), isize::MIN);
    c.dec(isize::MIN);
    assert_eq!(c.snapshot(), 0);
}

#[test]
fn atomic_counter_through_the_trait() {
    fn bump<T: Counter>(c: &T) -> isize {
        c.inc(2);
        c.inc(3);
        c.dec(1);
        c.snapshot()
    }
    let c = AtomicCounter::new();
    assert_eq!(bump(&c), 4);
}
