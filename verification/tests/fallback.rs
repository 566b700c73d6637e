use circuits::{blocking, Proc, ProcError, ProcExt};
use std::sync::atomic::{AtomicU64, Ordering};
use std::sync::Arc;

fn add_to_counter(counter: Arc<AtomicU64>, val: u64) -> impl Proc<Output = u64> {
    blocking(move || Ok(counter.fetch_add(val, Ordering::SeqCst)))
}

#[test]
fn join_on_drop() {
    let counter = Arc::new(AtomicU64::new(0));
    let left = add_to_counter(counter.clone(), 1);
    let right = add_to_counter(counter.clone(), 2);
    let mut joined = left.or_else(right);
    joined.finalize();
    assert_eq!(counter.load(Ordering::Relaxed), 1);
}

#[test]
fn forget() {
    let counter = Arc::new(AtomicU64::new(0));
    let left = add_to_counter(counter.clone(), 1);
    let right = add_to_counter(counter.clone(), 2);
    let mut pair = left.or_else(right);
    pair.forget();
    pair.finalize();
    assert_eq!(counter.load(Ordering::Relaxed), 0);
}

#[test]
fn nested() {
    let counter = Arc::new(AtomicU64::new(0));
    let left = add_to_counter(counter.clone(), 1);
    let middle = add_to_counter(counter.clone(), 2);
    let inner = counter.clone();
    let right = blocking(move || {
        add_to_counter(inner.clone(), 4)
            .and_then(add_to_counter(inner.clone(), 8))
            .join()
    });
    let mut joined = left.or_else(middle).or_else(right);
    joined.finalize();
    assert_eq!(counter.load(Ordering::Relaxed), 1);
}

#[test]
fn second_join_reports_exhaustion() {
    let mut p = blocking(|| Ok(5u8));
    assert_eq!(p.join(), Ok(5u8));
    assert_eq!(p.join(), Err(ProcError::Exhausted));
}
