use lazy::Lazy;
use std::cell::Cell;

#[test]
fn lazy_value_works() {
    let mut lazy_5 = Lazy::new(|| 5);
    assert!(lazy_5.value() == &5);
}

#[test]
fn lazy_value_works_multiple_times() {
    let mut lazy_5 = Lazy::new(|| 5);
    assert!(lazy_5.value() == &5);
    assert!(lazy_5.value() == &5);
}

#[test]
fn construction_invokes_nothing() {
    let calls = Cell::new(0u32);
    let lazy_7 = Lazy::new(|| {
        calls.set(calls.get() + 1);
        7
    });
    assert_eq!(calls.get(), 0);
    drop(lazy_7);
    assert_eq!(calls.get(), 0);
}

#[test]
fn constant_producer_runs_once() {
    let calls = Cell::new(0u32);
    let mut lazy_5 = Lazy::new(|| {
        calls.set(calls.get() + 1);
        5
    });
    assert!(lazy_5.value() == &5);
    assert!(lazy_5.value() == &5);
    assert_eq!(calls.get(), 1);
}

#[test]
fn counter_producer_increments_once() {
    let counter = Cell::new(0u32);
    let mut lazy_count = Lazy::new(|| {
        counter.set(counter.get() + 1);
        counter.get()
    });
    let first: u32 = *lazy_count.value();
    let second: u32 = *lazy_count.value();
    let third: u32 = *lazy_count.value();
    assert_eq!(first, 1);
    assert_eq!(second, 1);
    assert_eq!(third, 1);
    assert_eq!(counter.get(), 1);
}

#[test]
fn cached_value_is_kept_not_recomputed() {
    let counter = Cell::new(10u32);
    let mut lazy_count = Lazy::new(|| {
        counter.set(counter.get() + 1);
        counter.get()
    });
    let first: u32 = *lazy_count.value();
    assert_eq!(first, 11);
    counter.set(99);
    let second: u32 = *lazy_count.value();
    assert_eq!(second, 11);
    assert_eq!(counter.get(), 99);
}
