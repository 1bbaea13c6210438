use std::sync::atomic::{AtomicU64, Ordering};
use std::sync::Arc;
use vstd::prelude::*;

verus! {

/// A named 64-bit counter that many tasks may increment concurrently.
///
/// Clones share the same underlying value. Other tasks may change it at any
/// moment, so a read promises nothing about the value beyond its type.
#[derive(Debug, Clone)]
pub struct Counter {
    pub value: Arc<AtomicU64>,
}

impl Counter {
    /// A fresh counter holding zero.
    pub fn new() -> (r: Counter) {
        Counter { value: Arc::new(AtomicU64::new(0)) }
    }

    /// Samples the current value.
    pub fn get(&self) -> u64 {
        self.value.load(Ordering::Relaxed)
    }

    /// Adds one; returns the value seen just before the increment.
    pub fn inc(&self) -> u64 {
        self.value.fetch_add(1, Ordering::Relaxed)
    }

    /// Adds `n`; returns the value seen just before the addition.
    pub fn add(&self, n: u64) -> u64 {
        self.value.fetch_add(n, Ordering::Relaxed)
    }
}

impl Default for Counter {
    fn default() -> Self {
        Counter::new()
    }
}

/// The counters a benchmark run exposes to an outside reporter.
#[derive(Debug, Clone)]
pub struct Metrics {
    pub immutable_memtable_flushes: Counter,
    /// Rows whose whole batch has been written.
    pub rows_written: Counter,
}

impl Metrics {
    pub fn new() -> Metrics {
        Metrics { immutable_memtable_flushes: Counter::new(), rows_written: Counter::new() }
    }
}

} // verus!
